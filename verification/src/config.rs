//! The client's settings files: where they are, and how the stored relay URL is read back.

use vstd::prelude::*;

use crate::deep_link::{trim_ws, trim_ws_str};

verus! {

/// Path to the file that holds the relay URL (one line of plain text).
pub const RELAY_PATH: &'static str = "./onlyfriends-relay.txt";

/// The relay URL in the text of the settings file: the text without surrounding white space, or
/// `None` when nothing is left.
pub fn relay_url_from_text(text: &str) -> (url: Option<String>)
    ensures
        trim_ws(text@).len() == 0 ==> url is None,
        trim_ws(text@).len() > 0 ==> (url matches Some(u) && u@ == trim_ws(text@)),
{
    let t = trim_ws_str(text);
    if t.unicode_len() == 0 {
        None
    } else {
        Some(String::from_str(t))
    }
}

} // verus!

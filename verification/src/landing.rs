//! The relay's "add friend" landing page, served when a scanned or shared
//! `https://<host>/add/<code>` link was not handed straight to the app. The page tries a redirect
//! to the custom scheme and otherwise explains that the app is not published yet.

use vstd::prelude::*;
use vstd::string::StringSliceAdditionalSpecFns;

use crate::deep_link::{is_friend_code, is_hex_spec, DEEP_LINK_SCHEME};

verus! {

/// The page's style sheet.
pub const STYLE: &'static str = "
body { font-family: system-ui, sans-serif; background: #0f1116; color: #fff;
       display: flex; align-items: center; justify-content: center;
       min-height: 100vh; margin: 0; padding: 24px; }
.card { max-width: 420px; text-align: center; }
h1 { font-size: 1.25rem; }
.hint { color: #9aa0ac; font-size: 0.9rem; }
";

/// The page served for a link without a valid friend code.
pub const PAGE_INVALID: &'static str = "<!doctype html>
<html lang=\"en\">
<head>
<meta charset=\"utf-8\">
<title>Invalid link \u{b7} OnlyFriends</title>
</head>
<body>
<p>This link doesn't contain a valid friend code.</p>
</body>
</html>";

/// The landing page up to its style sheet.
pub const PAGE_HEAD: &'static str = "<!doctype html>
<html lang=\"en\">
<head>
<meta charset=\"utf-8\">
<meta name=\"viewport\" content=\"width=device-width, initial-scale=1\">
<title>Add friend \u{b7} OnlyFriends</title>
<style>";

/// The landing page from after its style sheet up to the redirect target.
pub const PAGE_BODY: &'static str = "</style>
</head>
<body>
<div class=\"card\">
<h1>Add friend on OnlyFriends</h1>
<p>Opening the app\u{2026}</p>
<p class=\"hint\">
OnlyFriends is still in early development and isn't published on the
App Store or Play Store yet. If the app didn't open, ask whoever shared
this link how to install it, then scan their code again.
</p>
</div>
<script>
window.location.replace(\"";

/// The landing page after the redirect target.
pub const PAGE_TAIL: &'static str = "\");
</script>
</body>
</html>";

/// The landing page for a friend code: it redirects to `onlyfriends://add/<code>`.
pub open spec fn landing_page_spec(code: Seq<char>) -> Seq<char> {
    PAGE_HEAD@ + STYLE@ + PAGE_BODY@ + DEEP_LINK_SCHEME@ + "://add/"@ + code + PAGE_TAIL@
}

/// The response to `GET /add/{code}`: status 400 and the invalid-link page when `code` is not a
/// friend code (it is untrusted input and is only ever put into the page once it is known to be
/// hex), else status 200 and the landing page for it.
pub fn add_friend_landing(code: &str) -> (r: (u16, String))
    ensures
        !is_hex_spec(code@) ==> r.0 == 400 && r.1@ == PAGE_INVALID@,
        is_hex_spec(code@) ==> r.0 == 200 && r.1@ == landing_page_spec(code@),
{
    if !is_friend_code(code) {
        return (400, String::from_str(PAGE_INVALID));
    }
    let mut page = String::from_str(PAGE_HEAD);
    page.append(STYLE);
    page.append(PAGE_BODY);
    page.append(DEEP_LINK_SCHEME);
    page.append("://add/");
    page.append(code);
    page.append(PAGE_TAIL);
    (200, page)
}

/// The content type that postcard request and response bodies carry.
pub const POSTCARD_CONTENT_TYPE: &'static str = "application/postcard";

/// Whether a request's content-type header is exactly [`POSTCARD_CONTENT_TYPE`]; requests
/// without it are refused.
pub fn is_postcard_content_type(header: Option<&[u8]>) -> (ok: bool)
    ensures
        ok == (header matches Some(h) && h@ == POSTCARD_CONTENT_TYPE.spec_bytes()),
{
    match header {
        None => false,
        Some(h) => crate::bytes::bytes_eq(h, POSTCARD_CONTENT_TYPE.as_bytes()),
    }
}

} // verus!

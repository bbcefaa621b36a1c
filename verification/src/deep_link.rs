//! Deep links for the "add friend" flow.
//!
//! Two link forms are supported:
//! - a universal / app link, `https://of.integritetsbyran.org/add/<friend-key>`, which the phone
//!   hands straight to the app when it is installed;
//! - a custom-scheme link, `onlyfriends://add/<friend-key>`, registered as a protocol on desktop
//!   and accepted as a fallback on any platform.

use vstd::prelude::*;

verus! {

/// Custom URL scheme used for desktop OS-level protocol registration.
pub const DEEP_LINK_SCHEME: &'static str = "onlyfriends";

/// Universal-link host.
pub const DEEP_LINK_HOST: &'static str = "of.integritetsbyran.org";

/// Path segment used for "add friend" links, e.g. `/add/<code>`.
pub const ADD_FRIEND_PATH: &'static str = "add";

/// Whether a character is white space as `char::is_whitespace` has it (the Unicode `White_Space`
/// property).
pub open spec fn is_white_space(c: char) -> bool {
    ||| '\u{9}' <= c <= '\u{d}'
    ||| c == ' '
    ||| c == '\u{85}'
    ||| c == '\u{a0}'
    ||| c == '\u{1680}'
    ||| '\u{2000}' <= c <= '\u{200a}'
    ||| c == '\u{2028}'
    ||| c == '\u{2029}'
    ||| c == '\u{202f}'
    ||| c == '\u{205f}'
    ||| c == '\u{3000}'
}

/// Whether a character is an ASCII hex digit.
pub open spec fn is_hex_digit(c: char) -> bool {
    ||| '0' <= c <= '9'
    ||| 'a' <= c <= 'f'
    ||| 'A' <= c <= 'F'
}

/// `s` without its leading characters that satisfy `p`.
pub open spec fn trim_start_by(s: Seq<char>, p: spec_fn(char) -> bool) -> Seq<char>
    decreases s.len(),
{
    if s.len() > 0 && p(s[0]) {
        trim_start_by(s.drop_first(), p)
    } else {
        s
    }
}

/// `s` without its trailing characters that satisfy `p`.
pub open spec fn trim_end_by(s: Seq<char>, p: spec_fn(char) -> bool) -> Seq<char>
    decreases s.len(),
{
    if s.len() > 0 && p(s.last()) {
        trim_end_by(s.drop_last(), p)
    } else {
        s
    }
}

/// The white-space predicate, as a function value.
pub open spec fn white_space() -> spec_fn(char) -> bool {
    |c: char| is_white_space(c)
}

/// The predicate "is a slash", as a function value.
pub open spec fn slash() -> spec_fn(char) -> bool {
    |c: char| c == '/'
}

/// `str::trim`: without leading and trailing white space.
pub open spec fn trim_ws(s: Seq<char>) -> Seq<char> {
    trim_end_by(trim_start_by(s, white_space()), white_space())
}

/// `str::strip_prefix`.
pub open spec fn strip_prefix(s: Seq<char>, prefix: Seq<char>) -> Option<Seq<char>> {
    if prefix.len() <= s.len() && s.take(prefix.len() as int) == prefix {
        Some(s.skip(prefix.len() as int))
    } else {
        None
    }
}

/// Whether `s` is a non-empty, even-length string of ASCII hex digits.
pub open spec fn is_hex_spec(s: Seq<char>) -> bool {
    s.len() > 0 && s.len() % 2 == 0 && forall|i: int| 0 <= i < s.len() ==> is_hex_digit(#[trigger] s[i])
}

/// The rest of a link after its scheme and host, if it is one of ours: `onlyfriends://`,
/// `https://<host>` or `http://<host>`, tried in that order.
pub open spec fn link_rest(input: Seq<char>) -> Option<Seq<char>> {
    match strip_prefix(input, DEEP_LINK_SCHEME@) {
        Some(r) if strip_prefix(r, "://"@) is Some => strip_prefix(r, "://"@),
        _ => match strip_prefix(input, "https://"@) {
            Some(r) if strip_prefix(r, DEEP_LINK_HOST@) is Some => strip_prefix(r, DEEP_LINK_HOST@),
            _ => match strip_prefix(input, "http://"@) {
                Some(r) => strip_prefix(r, DEEP_LINK_HOST@),
                None => None,
            },
        },
    }
}

/// The friend code in a path: after `add/` when the path starts with it, else the whole path,
/// without leading and trailing slashes.
pub open spec fn code_of(path: Seq<char>) -> Seq<char> {
    let code = match strip_prefix(path, ADD_FRIEND_PATH@) {
        Some(r) if strip_prefix(r, "/"@) is Some => strip_prefix(r, "/"@)->Some_0,
        _ => path,
    };
    trim_end_by(trim_start_by(code, slash()), slash())
}

/// What [`parse_add_friend_link`] gives: the hex friend code of one of our links, or `None`.
pub open spec fn parse_add_friend_link_spec(input: Seq<char>) -> Option<Seq<char>> {
    match link_rest(trim_ws(input)) {
        None => None,
        Some(rest) => {
            let code = code_of(trim_start_by(rest, slash()));
            if is_hex_spec(code) {
                Some(code)
            } else {
                None
            }
        },
    }
}

/// The universal link for a friend code.
pub open spec fn add_friend_link_spec(code: Seq<char>) -> Seq<char> {
    "https://"@ + DEEP_LINK_HOST@ + "/"@ + ADD_FRIEND_PATH@ + "/"@ + code
}

/// The custom-scheme link for a friend code.
pub open spec fn add_friend_scheme_link_spec(code: Seq<char>) -> Seq<char> {
    DEEP_LINK_SCHEME@ + "://"@ + ADD_FRIEND_PATH@ + "/"@ + code
}

/// Build the link to embed in the "add me" QR code / share sheet.
pub fn build_add_friend_link(friend_key: &str) -> (link: String)
    ensures
        link@ == add_friend_link_spec(friend_key@),
{
    let mut link = String::from_str("https://");
    link.append(DEEP_LINK_HOST);
    link.append("/");
    link.append(ADD_FRIEND_PATH);
    link.append("/");
    link.append(friend_key);
    link
}

/// Build the custom-scheme form of the same link, used when registering `onlyfriends://` as a
/// protocol handler on desktop.
pub fn build_add_friend_scheme_link(hex_public_key: &str) -> (link: String)
    ensures
        link@ == add_friend_scheme_link_spec(hex_public_key@),
{
    let mut link = String::from_str(DEEP_LINK_SCHEME);
    link.append("://");
    link.append(ADD_FRIEND_PATH);
    link.append("/");
    link.append(hex_public_key);
    link
}


/// Trimming the start of a text followed by characters that all satisfy `p`: when the text
/// itself is all `p`, nothing is left; otherwise its trimmed start is followed by the rest.
pub proof fn lemma_trim_start_concat(s: Seq<char>, t: Seq<char>, p: spec_fn(char) -> bool)
    requires
        forall|i: int| 0 <= i < t.len() ==> p(#[trigger] t[i]),
    ensures
        trim_start_by(s + t, p) == if trim_start_by(s, p).len() > 0 {
            trim_start_by(s, p) + t
        } else {
            Seq::<char>::empty()
        },
    decreases s.len() + t.len(),
{
    if s.len() == 0 {
        assert(s + t =~= t);
        if t.len() > 0 {
            assert(p(t[0]));
            assert forall|i: int| 0 <= i < t.drop_first().len() implies p(#[trigger] t.drop_first()[i]) by {
                assert(t.drop_first()[i] == t[i + 1]);
            }
            lemma_trim_start_concat(s, t.drop_first(), p);
            assert(s + t.drop_first() =~= t.drop_first());
        }
    } else {
        assert((s + t)[0] == s[0]);
        if p(s[0]) {
            assert((s + t).drop_first() =~= s.drop_first() + t);
            lemma_trim_start_concat(s.drop_first(), t, p);
        }
    }
}

/// Trailing characters that all satisfy `p` make no difference to trimming the end.
pub proof fn lemma_trim_end_concat(s: Seq<char>, t: Seq<char>, p: spec_fn(char) -> bool)
    requires
        forall|i: int| 0 <= i < t.len() ==> p(#[trigger] t[i]),
    ensures
        trim_end_by(s + t, p) == trim_end_by(s, p),
{
    let u = s + t;
    assert forall|i: int| s.len() <= i < u.len() implies p(#[trigger] u[i]) by {
        assert(u[i] == t[i - s.len()]);
    }
    lemma_trim_end_take(u, p, s.len() as int);
    assert(u.take(s.len() as int) =~= s);
}

/// Trimming ignores white space after a text: `trim_ws(s + t) == trim_ws(s)` when `t` is all
/// white space.
pub proof fn lemma_trim_ws_trailing(s: Seq<char>, t: Seq<char>)
    requires
        forall|i: int| 0 <= i < t.len() ==> is_white_space(#[trigger] t[i]),
    ensures
        trim_ws(s + t) == trim_ws(s),
{
    let p = white_space();
    assert forall|i: int| 0 <= i < t.len() implies p(#[trigger] t[i]) by {
        assert(is_white_space(t[i]));
    }
    lemma_trim_start_concat(s, t, p);
    let a = trim_start_by(s, p);
    if a.len() > 0 {
        lemma_trim_end_concat(a, t, p);
    } else {
        assert(a =~= Seq::<char>::empty());
        assert(trim_end_by(Seq::<char>::empty(), p) =~= Seq::<char>::empty());
    }
}

/// The ASCII white space of `char::is_whitespace` (tab, line feed, vertical tab, form feed,
/// carriage return, space) is white space, so a line ending, CR LF included, after a link makes no
/// difference to what it parses to.
pub proof fn lemma_ascii_white_space(s: Seq<char>)
    ensures
        is_white_space('\t'),
        is_white_space('\n'),
        is_white_space('\u{b}'),
        is_white_space('\u{c}'),
        is_white_space('\r'),
        is_white_space(' '),
        trim_ws(s + seq!['\r', '\n']) == trim_ws(s),
        trim_ws(s + seq!['\n']) == trim_ws(s),
        parse_add_friend_link_spec(s + seq!['\r', '\n']) == parse_add_friend_link_spec(s),
{
    let crlf = seq!['\r', '\n'];
    assert(is_white_space(crlf[0]) && is_white_space(crlf[1]));
    lemma_trim_ws_trailing(s, crlf);
    let lf = seq!['\n'];
    assert(is_white_space(lf[0]));
    lemma_trim_ws_trailing(s, lf);
}

/// Skipping leading characters that satisfy `p` does not change what trimming them gives.
pub proof fn lemma_trim_start_skip(s: Seq<char>, p: spec_fn(char) -> bool, a: int)
    requires
        0 <= a <= s.len(),
        forall|i: int| 0 <= i < a ==> p(#[trigger] s[i]),
    ensures
        trim_start_by(s, p) == trim_start_by(s.skip(a), p),
    decreases a,
{
    if a > 0 {
        assert(s.drop_first().skip(a - 1) == s.skip(a));
        assert forall|i: int| 0 <= i < a - 1 implies p(#[trigger] s.drop_first()[i]) by {
            assert(s.drop_first()[i] == s[i + 1]);
        }
        lemma_trim_start_skip(s.drop_first(), p, a - 1);
    } else {
        assert(s.skip(0) == s);
    }
}

/// Dropping trailing characters that satisfy `p` does not change what trimming them gives.
pub proof fn lemma_trim_end_take(s: Seq<char>, p: spec_fn(char) -> bool, b: int)
    requires
        0 <= b <= s.len(),
        forall|i: int| b <= i < s.len() ==> p(#[trigger] s[i]),
    ensures
        trim_end_by(s, p) == trim_end_by(s.take(b), p),
    decreases s.len() - b,
{
    if b < s.len() {
        assert(s.drop_last().take(b) == s.take(b));
        assert forall|i: int| b <= i < s.len() - 1 implies p(#[trigger] s.drop_last()[i]) by {
            assert(s.drop_last()[i] == s[i]);
        }
        assert(p(s.last()));
        lemma_trim_end_take(s.drop_last(), p, b);
    } else {
        assert(s.take(b) == s);
    }
}

/// Whether a character is white space.
fn is_white_space_char(c: char) -> (r: bool)
    ensures
        r == is_white_space(c),
{
    ('\u{9}' <= c && c <= '\u{d}') || c == ' ' || c == '\u{85}' || c == '\u{a0}' || c == '\u{1680}'
        || ('\u{2000}' <= c && c <= '\u{200a}') || c == '\u{2028}' || c == '\u{2029}' || c == '\u{202f}'
        || c == '\u{205f}' || c == '\u{3000}'
}

/// `s` without leading and trailing white space.
pub(crate) fn trim_ws_str(s: &str) -> (t: &str)
    ensures
        t@ == trim_ws(s@),
{
    let n = s.unicode_len();
    let mut a: usize = 0;
    while a < n && is_white_space_char(s.get_char(a))
        invariant
            n == s@.len(),
            a <= n,
            forall|i: int| 0 <= i < a ==> is_white_space(#[trigger] s@[i]),
        decreases n - a,
    {
        a = a + 1;
    }
    let mut b: usize = n;
    while b > a && is_white_space_char(s.get_char(b - 1))
        invariant
            n == s@.len(),
            a <= b <= n,
            forall|i: int| b <= i < n ==> is_white_space(#[trigger] s@[i]),
        decreases b,
    {
        b = b - 1;
    }
    proof {
        let ws = white_space();
        assert forall|i: int| 0 <= i < a implies ws(#[trigger] s@[i]) by {}
        lemma_trim_start_skip(s@, ws, a as int);
        let rest = s@.skip(a as int);
        assert(trim_start_by(rest, ws) == rest);
        assert forall|i: int| b - a <= i < rest.len() implies ws(#[trigger] rest[i]) by {
            assert(rest[i] == s@[i + a]);
        }
        lemma_trim_end_take(rest, ws, b - a);
        let mid = rest.take(b - a);
        assert(mid == s@.subrange(a as int, b as int));
        if mid.len() > 0 {
            assert(mid.last() == s@[b - 1]);
        }
        assert(trim_end_by(mid, ws) == mid);
    }
    s.substring_char(a, b)
}

/// `s` without leading slashes.
fn trim_start_slashes(s: &str) -> (t: &str)
    ensures
        t@ == trim_start_by(s@, slash()),
{
    let n = s.unicode_len();
    let mut a: usize = 0;
    while a < n && s.get_char(a) == '/'
        invariant
            n == s@.len(),
            a <= n,
            forall|i: int| 0 <= i < a ==> #[trigger] s@[i] == '/',
        decreases n - a,
    {
        a = a + 1;
    }
    proof {
        let sl = slash();
        assert forall|i: int| 0 <= i < a implies sl(#[trigger] s@[i]) by {}
        lemma_trim_start_skip(s@, sl, a as int);
        let rest = s@.skip(a as int);
        assert(trim_start_by(rest, sl) == rest);
        assert(rest == s@.subrange(a as int, n as int));
    }
    s.substring_char(a, n)
}

/// `s` without trailing slashes.
fn trim_end_slashes(s: &str) -> (t: &str)
    ensures
        t@ == trim_end_by(s@, slash()),
{
    let n = s.unicode_len();
    let mut b: usize = n;
    while b > 0 && s.get_char(b - 1) == '/'
        invariant
            n == s@.len(),
            b <= n,
            forall|i: int| b <= i < n ==> #[trigger] s@[i] == '/',
        decreases b,
    {
        b = b - 1;
    }
    proof {
        let sl = slash();
        assert forall|i: int| b <= i < n implies sl(#[trigger] s@[i]) by {}
        lemma_trim_end_take(s@, sl, b as int);
        let mid = s@.take(b as int);
        if mid.len() > 0 {
            assert(mid.last() == s@[b - 1]);
        }
        assert(trim_end_by(mid, sl) == mid);
        assert(mid == s@.subrange(0, b as int));
    }
    s.substring_char(0, b)
}

/// `s` without `prefix` at its start, if it starts with it.
fn strip_prefix_str<'a>(s: &'a str, prefix: &str) -> (r: Option<&'a str>)
    ensures
        match strip_prefix(s@, prefix@) {
            Some(t) => r matches Some(x) && x@ == t,
            None => r is None,
        },
{
    let n = s.unicode_len();
    let m = prefix.unicode_len();
    if m > n {
        return None;
    }
    let mut i: usize = 0;
    while i < m
        invariant
            n == s@.len(),
            m == prefix@.len(),
            m <= n,
            i <= m,
            forall|j: int| 0 <= j < i ==> s@[j] == prefix@[j],
        decreases m - i,
    {
        if s.get_char(i) != prefix.get_char(i) {
            assert(s@.take(m as int)[i as int] != prefix@[i as int]);
            return None;
        }
        i = i + 1;
    }
    assert(s@.take(m as int) =~= prefix@);
    assert(s@.skip(m as int) == s@.subrange(m as int, n as int));
    Some(s.substring_char(m, n))
}

/// Whether `s` is a non-empty, even-length string of ASCII hex digits.
fn is_hex(s: &str) -> (r: bool)
    ensures
        r == is_hex_spec(s@),
{
    let n = s.unicode_len();
    if n == 0 || n % 2 != 0 {
        return false;
    }
    let mut i: usize = 0;
    while i < n
        invariant
            n == s@.len(),
            i <= n,
            forall|j: int| 0 <= j < i ==> is_hex_digit(#[trigger] s@[j]),
        decreases n - i,
    {
        let c = s.get_char(i);
        if !(('0' <= c && c <= '9') || ('a' <= c && c <= 'f') || ('A' <= c && c <= 'F')) {
            return false;
        }
        i = i + 1;
    }
    true
}

/// Whether `code` is a non-empty, even-length string of ASCII hex digits (a friend code).
pub fn is_friend_code(code: &str) -> (r: bool)
    ensures
        r == is_hex_spec(code@),
{
    is_hex(code)
}

/// Extract the hex friend code from one of the supported "add friend" link forms, or `None` when
/// `input` is not such a link. Accepted, in this order: `onlyfriends://add/<hex>`,
/// `https://<host>/add/<hex>`, and `http://<host>/add/<hex>` (dev/test setups); surrounding white
/// space is ignored, and the `add/` segment and extra slashes are optional.
pub fn parse_add_friend_link(input: &str) -> (r: Option<String>)
    ensures
        match parse_add_friend_link_spec(input@) {
            Some(code) => r matches Some(s) && s@ == code,
            None => r is None,
        },
{
    let input = trim_ws_str(input);
    let mut rest_opt: Option<&str> = None;
    if let Some(r) = strip_prefix_str(input, DEEP_LINK_SCHEME) {
        rest_opt = strip_prefix_str(r, "://");
    }
    if rest_opt.is_none() {
        if let Some(r) = strip_prefix_str(input, "https://") {
            rest_opt = strip_prefix_str(r, DEEP_LINK_HOST);
        }
    }
    if rest_opt.is_none() {
        if let Some(r) = strip_prefix_str(input, "http://") {
            rest_opt = strip_prefix_str(r, DEEP_LINK_HOST);
        }
    }
    let rest = match rest_opt {
        Some(r) => r,
        None => {
            return None;
        },
    };
    assert(link_rest(input@) == Some(rest@));
    let rest = trim_start_slashes(rest);
    let mut code = rest;
    if let Some(r) = strip_prefix_str(rest, ADD_FRIEND_PATH) {
        if let Some(c) = strip_prefix_str(r, "/") {
            code = c;
        }
    }
    let code = trim_end_slashes(trim_start_slashes(code));
    if !is_hex(code) {
        return None;
    }
    Some(String::from_str(code))
}

/// Find, among process arguments, the first one that is an "add friend" link, and return its
/// friend code. This covers an app launched cold through a registered link.
pub fn find_add_friend_arg(args: &[String]) -> (r: Option<String>)
    ensures
        match r {
            Some(code) => exists|i: int|
                0 <= i < args@.len() && parse_add_friend_link_spec(#[trigger] args@[i]@) == Some(code@)
                    && forall|j: int| 0 <= j < i ==> parse_add_friend_link_spec(#[trigger] args@[j]@) is None,
            None => forall|i: int| 0 <= i < args@.len() ==> parse_add_friend_link_spec(#[trigger] args@[i]@) is None,
        },
{
    let mut i: usize = 0;
    while i < args.len()
        invariant
            i <= args@.len(),
            forall|j: int| 0 <= j < i ==> parse_add_friend_link_spec(#[trigger] args@[j]@) is None,
        decreases args@.len() - i,
    {
        if let Some(code) = parse_add_friend_link(args[i].as_str()) {
            return Some(code);
        }
        i = i + 1;
    }
    None
}


/// A string with no character satisfying `p` at its ends is its own trim.
proof fn lemma_trim_fixed(s: Seq<char>, p: spec_fn(char) -> bool)
    requires
        s.len() > 0 ==> !p(s[0]) && !p(s.last()),
    ensures
        trim_start_by(s, p) == s,
        trim_end_by(s, p) == s,
{
}

/// What both link forms have after their scheme and host: `add/` and the code, which parses to
/// the code.
proof fn lemma_code_of_add_path(code: Seq<char>)
    requires
        is_hex_spec(code),
    ensures
        code_of(trim_start_by(ADD_FRIEND_PATH@ + "/"@ + code, slash())) == code,
        code_of(trim_start_by("/"@ + ADD_FRIEND_PATH@ + "/"@ + code, slash())) == code,
{
    reveal_strlit("/");
    reveal_strlit("add");
    assert(ADD_FRIEND_PATH@ == "add"@);
    assert(is_hex_digit(code.last()));
    assert(is_hex_digit(code[0]));
    let add_code = ADD_FRIEND_PATH@ + "/"@ + code;
    let path = "/"@ + add_code;
    assert(path =~= "/"@ + ADD_FRIEND_PATH@ + "/"@ + code);
    assert(path.skip(1) =~= add_code);
    lemma_trim_start_skip(path, slash(), 1);
    lemma_trim_fixed(add_code, slash());
    assert(add_code.take(3) =~= ADD_FRIEND_PATH@);
    assert(add_code.skip(3) =~= "/"@ + code);
    assert(("/"@ + code).take(1) =~= "/"@);
    assert(("/"@ + code).skip(1) =~= code);
    lemma_trim_fixed(code, slash());
}

/// The universal link built for a friend code parses back to that code.
#[verifier::rlimit(40)]
pub proof fn lemma_add_friend_link_round_trip(code: Seq<char>)
    requires
        is_hex_spec(code),
    ensures
        parse_add_friend_link_spec(add_friend_link_spec(code)) == Some(code),
{
    reveal_strlit("https://");
    reveal_strlit("/");
    reveal_strlit("of.integritetsbyran.org");
    reveal_strlit("onlyfriends");
    reveal_strlit("add");
    assert(DEEP_LINK_HOST@ == "of.integritetsbyran.org"@);
    assert(DEEP_LINK_SCHEME@ == "onlyfriends"@);
    assert(ADD_FRIEND_PATH@ == "add"@);
    assert(is_hex_digit(code.last()));
    let link = add_friend_link_spec(code);
    lemma_trim_fixed(link, white_space());
    assert(link[0] == 'h');
    assert(link.take(11)[0] == 'h');
    assert(DEEP_LINK_SCHEME@[0] == 'o');
    assert(link.take(11) != DEEP_LINK_SCHEME@);
    assert(strip_prefix(link, DEEP_LINK_SCHEME@) is None);
    let after_https = DEEP_LINK_HOST@ + "/"@ + ADD_FRIEND_PATH@ + "/"@ + code;
    assert(link.take(8) =~= "https://"@);
    assert(link.skip(8) =~= after_https);
    assert(after_https.take(23) =~= DEEP_LINK_HOST@);
    let path = "/"@ + ADD_FRIEND_PATH@ + "/"@ + code;
    assert(after_https.skip(23) =~= path);
    assert(link_rest(link) == Some(path));
    lemma_code_of_add_path(code);
}

/// The custom-scheme link built for a friend code parses back to that code.
#[verifier::rlimit(40)]
pub proof fn lemma_add_friend_scheme_link_round_trip(code: Seq<char>)
    requires
        is_hex_spec(code),
    ensures
        parse_add_friend_link_spec(add_friend_scheme_link_spec(code)) == Some(code),
{
    reveal_strlit("://");
    reveal_strlit("/");
    reveal_strlit("onlyfriends");
    reveal_strlit("add");
    assert(DEEP_LINK_SCHEME@ == "onlyfriends"@);
    assert(ADD_FRIEND_PATH@ == "add"@);
    assert(is_hex_digit(code.last()));
    let add_code = ADD_FRIEND_PATH@ + "/"@ + code;
    let slink = add_friend_scheme_link_spec(code);
    lemma_trim_fixed(slink, white_space());
    assert(slink.take(11) =~= DEEP_LINK_SCHEME@);
    assert(slink.skip(11) =~= "://"@ + add_code);
    assert(("://"@ + add_code).take(3) =~= "://"@);
    assert(("://"@ + add_code).skip(3) =~= add_code);
    assert(link_rest(slink) == Some(add_code));
    lemma_code_of_add_path(code);
}

} // verus!

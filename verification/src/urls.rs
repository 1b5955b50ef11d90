//! Web addresses: what `url::Url` finds in a text, and percent-encoding and
//! decoding with `urlencoding`.
use vstd::prelude::*;
use vstd::utf8::encode_utf8;
use crate::error::TarziError;

verus! {

/// The name of the host that `url::Url::parse` followed by `Url::host_str`
/// finds in a text: `None` when the text does not parse, `Some(None)` when
/// the parsed address has no host.
pub uninterp spec fn url_host(text: Seq<char>) -> Option<Option<Seq<char>>>;

/// The name of the path that `url::Url::parse` followed by `Url::path`
/// finds in a text; `None` when the text does not parse.
pub uninterp spec fn url_path(text: Seq<char>) -> Option<Seq<char>>;

/// The name of the decoded query pairs that `url::Url::parse` followed by
/// `Url::query_pairs` finds in a text, in order; `None` when the text does
/// not parse.
pub uninterp spec fn url_query_pairs(text: Seq<char>) -> Option<Seq<(Seq<char>, Seq<char>)>>;

/// The name of what `urlencoding::decode` gives for a text: the
/// percent-decoded text, or `None` where the decoded bytes are not UTF-8.
pub uninterp spec fn percent_decoded(text: Seq<char>) -> Option<Seq<char>>;

/// The name of the message of the `url::ParseError` that `url::Url::parse`
/// reports for a text (its `Display` text).
pub uninterp spec fn url_parse_error(text: Seq<char>) -> Seq<char>;

/// Calls `Url::parse`; claimed: it fails exactly on the texts on which
/// `url_host` is `None` (the same call), and then the message is
/// `url_parse_error`.
#[verifier::external_body]
fn parse_failure(text: &str) -> (r: Option<String>)
    ensures
        (r is None) <==> (url_host(text@) is Some),
        r matches Some(m) ==> m@ == url_parse_error(text@),
{
    match url::Url::parse(text) {
        Ok(_) => None,
        Err(e) => Some(e.to_string()),
    }
}

/// Checks that a link parses as an address before it is requested; a link
/// that does not parse is a `Url` error carrying the parser's message.
pub fn request_url_check(url: &str) -> (r: Result<(), TarziError>)
    ensures
        (r is Ok) <==> (url_host(url@) is Some),
        r matches Err(TarziError::Url(m)) ==> m@ == url_parse_error(url@),
        r is Err ==> r matches Err(TarziError::Url(_)),
{
    match parse_failure(url) {
        None => Ok(()),
        Some(m) => Err(TarziError::Url(m)),
    }
}

/// Calls `Url::parse` and `Url::host_str`; claimed: the result is `url_host`.
#[verifier::external_body]
pub(crate) fn host_of(text: &str) -> (r: Option<Option<String>>)
    ensures
        match url_host(text@) {
            None => r is None,
            Some(None) => r matches Some(None),
            Some(Some(h)) => r matches Some(Some(x)) && x@ == h,
        },
{
    match url::Url::parse(text) {
        Ok(u) => match u.host_str() {
            Some(h) => Some(Some(h.to_string())),
            None => Some(None),
        },
        Err(_) => None,
    }
}

/// Calls `Url::parse` and `Url::path`; claimed: the result is `url_path`.
#[verifier::external_body]
pub(crate) fn path_of(text: &str) -> (r: Option<String>)
    ensures
        match url_path(text@) {
            None => r is None,
            Some(p) => r matches Some(x) && x@ == p,
        },
{
    match url::Url::parse(text) {
        Ok(u) => Some(u.path().to_string()),
        Err(_) => None,
    }
}

/// The views of a list of string pairs.
pub open spec fn pair_views(v: Seq<(String, String)>) -> Seq<(Seq<char>, Seq<char>)> {
    v.map_values(|p: (String, String)| (p.0@, p.1@))
}

/// Calls `Url::parse` and `Url::query_pairs`; claimed: the pairs are
/// `url_query_pairs`.
#[verifier::external_body]
pub(crate) fn query_pairs_of(text: &str) -> (r: Option<Vec<(String, String)>>)
    ensures
        match url_query_pairs(text@) {
            None => r is None,
            Some(ps) => r matches Some(v) && pair_views(v@) == ps,
        },
{
    match url::Url::parse(text) {
        Ok(u) => Some(u.query_pairs().map(|(k, v)| (k.into_owned(), v.into_owned())).collect()),
        Err(_) => None,
    }
}

/// The text holds no `%`.
pub open spec fn no_percent_sign(s: Seq<char>) -> bool {
    !s.contains('%')
}

/// Calls `urlencoding::decode`; claimed: the result is `percent_decoded`,
/// and a text without `%` comes back unchanged (the crate returns its input
/// when there is nothing to decode).
#[verifier::external_body]
pub(crate) fn percent_decode(text: &str) -> (r: Option<String>)
    ensures
        match percent_decoded(text@) {
            None => r is None,
            Some(d) => r matches Some(x) && x@ == d,
        },
        no_percent_sign(text@) ==> r is Some && r->0@ == text@,
{
    match urlencoding::decode(text) {
        Ok(d) => Some(d.into_owned()),
        Err(_) => None,
    }
}

/// Bytes that `urlencoding::encode` leaves as they are: ASCII letters and
/// digits and `-`, `.`, `_`, `~`.
pub open spec fn unreserved_byte(b: u8) -> bool {
    (0x30 <= b <= 0x39) || (0x41 <= b <= 0x5A) || (0x61 <= b <= 0x7A) || b == 0x2D || b == 0x2E
        || b == 0x5F || b == 0x7E
}

/// An upper-case hexadecimal digit.
pub open spec fn hex_digit(d: int) -> char {
    if d < 10 {
        (48 + d) as char
    } else {
        (55 + d) as char
    }
}

/// The text that stands for one byte in percent-encoded form.
pub open spec fn encoded_byte(b: u8) -> Seq<char> {
    if unreserved_byte(b) {
        seq![b as char]
    } else {
        seq!['%', hex_digit((b / 16) as int), hex_digit((b % 16) as int)]
    }
}

pub open spec fn percent_encoded_bytes(bs: Seq<u8>) -> Seq<char>
    decreases bs.len(),
{
    if bs.len() == 0 {
        Seq::empty()
    } else {
        encoded_byte(bs[0]) + percent_encoded_bytes(bs.drop_first())
    }
}

/// Percent-encoding of the UTF-8 bytes of a text.
pub open spec fn percent_encoded(s: Seq<char>) -> Seq<char> {
    percent_encoded_bytes(encode_utf8(s))
}

/// Calls `urlencoding::encode`; claimed: every byte of the UTF-8 text except
/// letters, digits, `-`, `.`, `_` and `~` becomes `%` and two upper-case
/// hexadecimal digits, as the crate documents.
#[verifier::external_body]
pub(crate) fn percent_encode(text: &str) -> (r: String)
    ensures
        r@ == percent_encoded(text@),
{
    urlencoding::encode(text).into_owned()
}

} // verus!

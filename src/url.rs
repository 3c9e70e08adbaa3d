use vstd::prelude::*;
use vstd::string::*;

use crate::store::str_equal;

verus! {

/// `s` begins with `p`.
pub open spec fn starts_with(s: Seq<char>, p: Seq<char>) -> bool {
    p.len() <= s.len() && s.subrange(0, p.len() as int) == p
}

/// Whether `s` begins with `prefix`.
pub fn has_prefix(s: &str, prefix: &str) -> (r: bool)
    ensures
        r == starts_with(s@, prefix@),
{
    let n = s.unicode_len();
    let m = prefix.unicode_len();
    if m > n {
        return false;
    }
    let head = s.substring_char(0, m);
    str_equal(head, prefix)
}

/// A link that may be opened in the browser: `http://` or `https://` at its start.
pub open spec fn is_web_url(url: Seq<char>) -> bool {
    starts_with(url, "https://"@) || starts_with(url, "http://"@)
}

/// Why a link is not opened.
#[derive(PartialEq, Eq, Structural, Clone, Copy, Debug)]
pub enum UrlError {
    /// The link is neither `http://` nor `https://`.
    InvalidScheme,
}

impl UrlError {
    /// The message reported for this error.
    pub fn message(&self) -> (r: String)
        ensures
            r@ == "Invalid URL scheme"@,
    {
        "Invalid URL scheme".to_owned()
    }
}

/// Admits a link for the browser only where it starts with `https://` or `http://`.
pub fn check_url_scheme(url: &str) -> (r: Result<(), UrlError>)
    ensures
        r is Ok <==> is_web_url(url@),
        r matches Err(e) ==> e == UrlError::InvalidScheme,
{
    if !has_prefix(url, "https://") && !has_prefix(url, "http://") {
        return Err(UrlError::InvalidScheme);
    }
    Ok(())
}

pub open spec fn chat_link_prefix() -> Seq<char> {
    "msn://chat/"@
}

/// The chat that a deep link `msn://chat/<id>` names: everything after the prefix.
pub fn parse_deep_link(url: &str) -> (r: Option<String>)
    ensures
        r is Some <==> starts_with(url@, chat_link_prefix()),
        r matches Some(id) ==> url@ == chat_link_prefix() + id@,
{
    let prefix = "msn://chat/";
    if !has_prefix(url, prefix) {
        return None;
    }
    let n = url.unicode_len();
    let m = prefix.unicode_len();
    let rest = url.substring_char(m, n);
    let id = rest.to_owned();
    assert(url@ =~= chat_link_prefix() + id@);
    Some(id)
}

} // verus!

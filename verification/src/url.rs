//! Validation and normalization of the configured base URLs: the service
//! root must use an HTTP(S) scheme and end with a trailing separator; the
//! collection root must use HTTP(S) and not end with one.

use vstd::prelude::*;

use crate::types::ODataError;

verus! {

/// Whether the URL's scheme is exactly `http` or `https`: it begins with
/// the literal prefix `http://` or `https://`. A URL with any other scheme
/// is rejected regardless of other validity.
pub open spec fn has_http_scheme(s: Seq<char>) -> bool {
    s.len() >= 7 && s[0] == 'h' && s[1] == 't' && s[2] == 't' && s[3] == 'p' && ((s[4] == ':'
        && s[5] == '/' && s[6] == '/') || (s.len() >= 8 && s[4] == 's' && s[5] == ':' && s[6] == '/'
        && s[7] == '/'))
}

/// The URL with exactly one trailing separator added if missing.
pub open spec fn with_trailing_slash(s: Seq<char>) -> Seq<char> {
    if s.len() > 0 && s[s.len() - 1] == '/' {
        s
    } else {
        s + "/"@
    }
}

/// The URL with one trailing separator removed if present.
pub open spec fn without_trailing_slash(s: Seq<char>) -> Seq<char> {
    if s.len() > 0 && s[s.len() - 1] == '/' {
        s.take(s.len() - 1)
    } else {
        s
    }
}

/// Whether the URL begins with `http://` or `https://`.
pub fn url_has_http_scheme(url: &str) -> (r: bool)
    ensures
        r == has_http_scheme(url@),
{
    let n = url.unicode_len();
    if n < 7 {
        return false;
    }
    if !(url.get_char(0) == 'h' && url.get_char(1) == 't' && url.get_char(2) == 't' && url.get_char(
        3,
    ) == 'p') {
        return false;
    }
    if url.get_char(4) == ':' && url.get_char(5) == '/' && url.get_char(6) == '/' {
        return true;
    }
    n >= 8 && url.get_char(4) == 's' && url.get_char(5) == ':' && url.get_char(6) == '/'
        && url.get_char(7) == '/'
}

/// Validates and normalizes the service root: rejects any scheme but http
/// or https, otherwise forces a trailing separator.
pub fn normalize_service_base_url(url: &str) -> (r: Result<String, ODataError>)
    ensures
        has_http_scheme(url@) ==> (r matches Ok(s) && s@ == with_trailing_slash(url@)),
        !has_http_scheme(url@) ==> (r matches Err(e) && e matches ODataError::UnsupportedNetProtocol(u)
            && u@ == url@),
{
    if !url_has_http_scheme(url) {
        return Err(ODataError::UnsupportedNetProtocol(url.to_owned()));
    }
    let n = url.unicode_len();
    let mut s = url.to_owned();
    if n == 0 || url.get_char(n - 1) != '/' {
        s.append("/");
    }
    Ok(s)
}

/// Validates and normalizes the collection root: rejects any scheme but
/// http or https, otherwise drops one trailing separator.
pub fn normalize_collection_base_url(url: &str) -> (r: Result<String, ODataError>)
    ensures
        has_http_scheme(url@) ==> (r matches Ok(s) && s@ == without_trailing_slash(url@)),
        !has_http_scheme(url@) ==> (r matches Err(e) && e matches ODataError::UnsupportedNetProtocol(u)
            && u@ == url@),
{
    if !url_has_http_scheme(url) {
        return Err(ODataError::UnsupportedNetProtocol(url.to_owned()));
    }
    let n = url.unicode_len();
    if n > 0 && url.get_char(n - 1) == '/' {
        let trimmed = url.substring_char(0, n - 1);
        let s = trimmed.to_owned();
        proof {
            assert(url@.subrange(0, url@.len() - 1) =~= url@.take(url@.len() - 1));
        }
        Ok(s)
    } else {
        Ok(url.to_owned())
    }
}

} // verus!

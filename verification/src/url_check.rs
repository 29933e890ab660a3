//! Validation and canonicalization of a composed URL string.
//!
//! The composed candidate is handed to the `url` crate's strict WHATWG
//! parser. On success the parser's canonical serialization is returned;
//! it may differ from the input (an IPv6 literal is compressed, a missing
//! path becomes `/`). On failure the parser's diagnostic is returned.

use vstd::prelude::*;

verus! {

/// The outcome of parsing and re-serializing a URL string with the `url`
/// crate's default parser: `None` where the string is rejected, otherwise
/// the canonical serialization. The parser runs with no base URL and no
/// overrides, so the outcome depends on the input string alone.
pub uninterp spec fn canonical_url(s: Seq<char>) -> Option<Seq<char>>;

/// Relies on `url::Url::parse` (with `Url`'s default options) to accept
/// exactly the well-formed absolute URLs, and on `url::Url::as_str` to
/// return the parser's canonical serialization. Both depend on the input
/// string alone. The error case carries the parser's diagnostic text.
#[verifier::external_body]
pub(crate) fn check_url(s: &str) -> (r: Result<String, String>)
    ensures
        r is Ok <==> canonical_url(s@) is Some,
        r matches Ok(u) ==> Some(u@) == canonical_url(s@),
{
    match url::Url::parse(s) {
        Ok(u) => Ok(u.as_str().to_owned()),
        Err(e) => Err(e.to_string()),
    }
}

} // verus!

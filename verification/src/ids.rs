use vstd::prelude::*;

verus! {

/// What `uuid::Uuid::parse_str` makes of the text `s`: the UUID's 128-bit
/// big-endian value (`Uuid::as_u128`), or `None` where it rejects the text.
pub uninterp spec fn parsed_uuid(s: Seq<char>) -> Option<u128>;

/// Parses `s` with `uuid::Uuid::parse_str`. Trusted: the result is the
/// named value `parsed_uuid(s)`; which texts are accepted (simple,
/// hyphenated, braced and URN forms) is left to the uuid crate.
#[verifier::external_body]
pub(crate) fn parse_uuid(s: &str) -> (r: Option<u128>)
    ensures
        r == parsed_uuid(s@),
{
    match uuid::Uuid::parse_str(s) {
        Ok(u) => Some(u.as_u128()),
        Err(_) => None,
    }
}

} // verus!

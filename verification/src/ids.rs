use vstd::prelude::*;

verus! {

/// The set of strings that uuid's `Uuid::parse_str` accepts, in any of the
/// forms it admits.
pub uninterp spec fn is_uuid_str(s: Seq<char>) -> bool;

/// Relies on uuid's `Uuid::new_v4` and `to_string`: the hyphenated form of a
/// freshly drawn identifier is 36 characters long, and the parser accepts it.
#[verifier::external_body]
pub(crate) fn new_uuid_string() -> (r: String)
    ensures
        r@.len() == 36,
        is_uuid_str(r@),
{
    uuid::Uuid::new_v4().to_string()
}

/// Relies on uuid's `Uuid::parse_str`: acceptance depends on the string alone.
#[verifier::external_body]
pub(crate) fn parse_uuid_ok(s: &str) -> (r: bool)
    ensures
        r == is_uuid_str(s@),
{
    uuid::Uuid::parse_str(s).is_ok()
}

} // verus!

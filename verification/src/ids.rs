use vstd::prelude::*;

verus! {

/// Whether `uuid::Uuid::parse_str` accepts a text as a UUID.
pub uninterp spec fn uuid_parses(s: Seq<char>) -> bool;

/// Whether a text is a UUID, by `uuid::Uuid::parse_str`. The contract
/// names the crate's answer (`uuid_parses`); which spellings it accepts
/// (hyphenated, simple, braced, URN) is not spelled out.
#[verifier::external_body]
pub(crate) fn is_uuid(s: &str) -> (r: bool)
    ensures
        r == uuid_parses(s@),
{
    uuid::Uuid::parse_str(s).is_ok()
}

} // verus!

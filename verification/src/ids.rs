//! Identifiers of records: UUIDs, kept as text.

use vstd::prelude::*;

verus! {

/// Whether `uuid::Uuid::parse_str` accepts `text`. The parser takes the
/// hyphenated, the simple, the braced and the URN form; its result depends on
/// the text alone.
pub uninterp spec fn uuid_parses(text: Seq<char>) -> bool;

/// `uuid::Uuid::parse_str`, reduced to whether it succeeds.
#[verifier::external_body]
pub(crate) fn parses_as_uuid(text: &str) -> (ok: bool)
    ensures
        ok == uuid_parses(text@),
{
    uuid::Uuid::parse_str(text).is_ok()
}

/// `uuid::Uuid::new_v4`, rendered as text. The value is random: nothing is
/// claimed of it, and callers that need a fresh identifier test for it.
#[verifier::external_body]
pub(crate) fn random_uuid() -> String {
    uuid::Uuid::new_v4().to_string()
}

} // verus!

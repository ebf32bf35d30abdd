//! The wall clock, through `chrono`.
use vstd::prelude::*;
use crate::text;

verus! {

/// `chrono::Utc::now().to_rfc3339()`: the current UTC time as RFC 3339 text.
/// Which time it is depends on the moment of the call; every outcome ends with
/// the offset of UTC, `+00:00` (chrono writes the offset with hours and
/// minutes and a colon, and no `Z`).
#[verifier::external_body]
pub(crate) fn now_rfc3339() -> (r: String)
    ensures
        text::is_suffix("+00:00"@, r@),
{
    chrono::Utc::now().to_rfc3339()
}

} // verus!

//! Unix timestamps written as UTC dates.
use vstd::prelude::*;

verus! {

/// What `chrono::DateTime::from_timestamp(secs, 0)` formatted with
/// `"%Y-%m-%d %H:%M:%S UTC"` gives: the date and time, or nothing when the
/// number of seconds is out of `chrono`'s range.
pub uninterp spec fn utc_text(secs: i64) -> Option<Seq<char>>;

/// `chrono::DateTime::from_timestamp(secs, 0)` and, when it is in range,
/// its `format("%Y-%m-%d %H:%M:%S UTC")` as a string; named by `utc_text`.
#[verifier::external_body]
pub(crate) fn utc_timestamp_text(secs: i64) -> (r: Option<String>)
    ensures
        match r {
            Some(t) => utc_text(secs) == Some(t@),
            None => utc_text(secs) is None,
        },
{
    match chrono::DateTime::from_timestamp(secs, 0) {
        Some(dt) => Some(dt.format("%Y-%m-%d %H:%M:%S UTC").to_string()),
        None => None,
    }
}

} // verus!

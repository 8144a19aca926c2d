//! The wall clock.

use vstd::prelude::*;

verus! {

/// The offset suffix chrono writes for UTC in RFC 3339 form.
pub open spec fn utc_offset_suffix() -> Seq<char> {
    seq!['+', '0', '0', ':', '0', '0']
}

/// `s` is a date and time written in RFC 3339 form with the UTC offset `+00:00`.
pub open spec fn is_utc_rfc3339_text(s: Seq<char>) -> bool {
    &&& s.len() >= 6
    &&& s.subrange(s.len() - 6, s.len() as int) == utc_offset_suffix()
}

/// chrono's `Utc::now().to_rfc3339()`: the current time, in RFC 3339 form.
///
/// chrono writes the UTC offset as `+00:00` (no `Z`). The date and time
/// themselves depend on the clock and are left open.
#[verifier::external_body]
pub(crate) fn now_rfc3339() -> (r: String)
    ensures
        is_utc_rfc3339_text(r@),
{
    chrono::Utc::now().to_rfc3339()
}

/// The last second chrono can represent: 262142-12-31T23:59:59 UTC, in
/// seconds since the Unix epoch.
pub open spec fn latest_chrono_second() -> int {
    8_210_266_876_799
}

/// `t` is a second the clock can read: no later than chrono's last date.
pub open spec fn is_clock_reading(t: int) -> bool {
    t <= latest_chrono_second()
}

/// chrono's `Utc::now().timestamp()`: the current time in seconds since the
/// Unix epoch.
///
/// `Utc::now` builds its value with `DateTime::from_timestamp(..).unwrap()`, so
/// it never lies past chrono's latest date (December 31, 262142). Which second
/// it is depends on the clock and is left open.
#[verifier::external_body]
pub(crate) fn now_unix_seconds() -> (r: i64)
    ensures
        r <= latest_chrono_second(),
{
    chrono::Utc::now().timestamp()
}

} // verus!

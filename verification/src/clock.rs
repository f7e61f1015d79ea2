//! The wall clock, read through `chrono`.

use crate::poller::{is_twelve_hour_clock, END_TIME_PATTERN};
use vstd::prelude::*;

verus! {

/// The time of day, in the pattern `END_TIME_PATTERN`, of the moment `nanos`
/// nanoseconds from now in the machine's time zone.
///
/// Calls `chrono::TimeDelta::from_std` (a span that `chrono` cannot hold
/// counts as no time at all), `chrono::Local::now`,
/// `chrono::DateTime::checked_add_signed` and `chrono::DateTime::format` with
/// the pattern handed in. The result is `None` where `chrono` cannot tell the
/// later moment. Which time of day the text tells depends on the clock and
/// the time zone of the machine, and differs from call to call; claimed is
/// only its shape, which `chrono` gives for this pattern whatever the moment:
/// the hour from 1 to 12 without padding, a colon, the minute in two digits,
/// a space, and `AM` or `PM`.
///
/// `chrono::Local::now` does not return on a machine whose clock stands
/// before the year 1970, nor on one whose time-zone data names no local time
/// for the moment; no argument of this function has a part in either.
#[verifier::external_body]
pub(crate) fn local_clock_after(nanos: u64, pattern: &str) -> (label: Option<String>)
    requires
        pattern@ == END_TIME_PATTERN@,
    ensures
        label is Some ==> is_twelve_hour_clock(label.unwrap()@),
{
    let span = std::time::Duration::from_nanos(nanos);
    let delta = chrono::TimeDelta::from_std(span).unwrap_or_default();
    let end = chrono::Local::now().checked_add_signed(delta)?;
    Some(end.format(pattern).to_string())
}

} // verus!

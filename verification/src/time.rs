//! Media time: positions and durations of a stream, counted in nanoseconds,
//! and the clock text that the position display shows for them.

use crate::text::{all_digits, decimal, decimal_shape, is_digit, push_decimal, push_two_digits, two_digits};
use vstd::prelude::*;
use vstd::string::*;

verus! {

/// Nanoseconds in one second.
pub const NANOS_PER_SEC: u64 = 1_000_000_000;

/// Nanoseconds in one millisecond.
pub const NANOS_PER_MILLI: u64 = 1_000_000;

/// A position in a stream, or the length of one, in nanoseconds.
#[derive(Clone, Copy, Debug, PartialEq, Eq, Structural)]
pub struct MediaTime {
    pub nanos: u64,
}

impl View for MediaTime {
    type V = nat;

    open spec fn view(&self) -> nat {
        self.nanos as nat
    }
}

/// `a + b`, held at the largest value of a `u64`.
pub open spec fn saturating_sum(a: nat, b: nat) -> nat {
    if a + b > u64::MAX {
        u64::MAX as nat
    } else {
        a + b
    }
}

/// `a - b`, held at zero.
pub open spec fn saturating_difference(a: nat, b: nat) -> nat {
    if a >= b {
        (a - b) as nat
    } else {
        0
    }
}

/// `a * b`, held at the largest value of a `u64`.
pub open spec fn saturating_product(a: nat, b: nat) -> nat {
    if a * b > u64::MAX {
        u64::MAX as nat
    } else {
        a * b
    }
}

impl MediaTime {
    /// The start of a stream.
    pub fn zero() -> (t: MediaTime)
        ensures
            t@ == 0,
    {
        MediaTime { nanos: 0 }
    }

    pub fn from_nanos(nanos: u64) -> (t: MediaTime)
        ensures
            t@ == nanos,
    {
        MediaTime { nanos }
    }

    /// `millis` milliseconds, held at the largest time that can be told.
    pub fn from_millis(millis: u64) -> (t: MediaTime)
        ensures
            t@ == saturating_product(millis as nat, NANOS_PER_MILLI as nat),
    {
        let wide: u128 = millis as u128 * 1_000_000u128;
        if wide > u64::MAX as u128 {
            MediaTime { nanos: u64::MAX }
        } else {
            MediaTime { nanos: wide as u64 }
        }
    }

    /// `secs` seconds, held at the largest time that can be told.
    pub fn from_secs(secs: u64) -> (t: MediaTime)
        ensures
            t@ == saturating_product(secs as nat, NANOS_PER_SEC as nat),
    {
        let wide: u128 = secs as u128 * 1_000_000_000u128;
        if wide > u64::MAX as u128 {
            MediaTime { nanos: u64::MAX }
        } else {
            MediaTime { nanos: wide as u64 }
        }
    }

    pub fn as_nanos(&self) -> (n: u64)
        ensures
            n == self@,
    {
        self.nanos
    }

    /// The whole seconds of this time; the fraction of a second is dropped.
    pub fn whole_secs(&self) -> (s: u64)
        ensures
            s == self@ / (NANOS_PER_SEC as nat),
    {
        self.nanos / NANOS_PER_SEC
    }

    /// `self + other`, held at the largest time that can be told.
    pub fn saturating_add(self, other: MediaTime) -> (t: MediaTime)
        ensures
            t@ == saturating_sum(self@, other@),
    {
        if self.nanos > u64::MAX - other.nanos {
            MediaTime { nanos: u64::MAX }
        } else {
            MediaTime { nanos: self.nanos + other.nanos }
        }
    }

    /// `self - other`, held at the start of the stream.
    pub fn saturating_sub(self, other: MediaTime) -> (t: MediaTime)
        ensures
            t@ == saturating_difference(self@, other@),
    {
        if self.nanos >= other.nanos {
            MediaTime { nanos: self.nanos - other.nanos }
        } else {
            MediaTime { nanos: 0 }
        }
    }
}

/// The clock text of a count of whole seconds: minutes and two-digit seconds
/// below one hour, hours with two-digit minutes and seconds from one hour on.
pub open spec fn clock_text(total_secs: nat) -> Seq<char> {
    let hours = total_secs / 3600;
    let minutes = (total_secs % 3600) / 60;
    let seconds = total_secs % 60;
    if hours > 0 {
        decimal(hours) + seq![':'] + two_digits(minutes) + seq![':'] + two_digits(seconds)
    } else {
        decimal(minutes) + seq![':'] + two_digits(seconds)
    }
}

/// The shape `M:SS`: one or two digits, a colon, two digits.
pub open spec fn is_minutes_seconds(s: Seq<char>) -> bool {
    &&& 4 <= s.len() <= 5
    &&& all_digits(s.subrange(0, s.len() - 3))
    &&& s[s.len() - 3] == ':'
    &&& is_digit(s[s.len() - 2])
    &&& is_digit(s[s.len() - 1])
}

/// The shape `H:MM:SS`: at least one digit, then twice a colon and two digits.
pub open spec fn is_hours_minutes_seconds(s: Seq<char>) -> bool {
    &&& 7 <= s.len()
    &&& all_digits(s.subrange(0, s.len() - 6))
    &&& s[s.len() - 6] == ':'
    &&& is_digit(s[s.len() - 5])
    &&& is_digit(s[s.len() - 4])
    &&& s[s.len() - 3] == ':'
    &&& is_digit(s[s.len() - 2])
    &&& is_digit(s[s.len() - 1])
}

/// The clock text of less than one hour has the shape `M:SS`, that of one hour
/// or more the shape `H:MM:SS`.
pub proof fn clock_text_shape(total_secs: nat)
    ensures
        total_secs < 3600 ==> is_minutes_seconds(clock_text(total_secs)),
        total_secs >= 3600 ==> is_hours_minutes_seconds(clock_text(total_secs)),
{
    let hours = total_secs / 3600;
    let minutes = (total_secs % 3600) / 60;
    let seconds = total_secs % 60;
    let text = clock_text(total_secs);
    decimal_shape(minutes);
    decimal_shape(seconds);
    if hours > 0 {
        decimal_shape(hours);
        let head = decimal(hours);
        assert(text.subrange(0, text.len() - 6) =~= head);
    } else {
        let head = decimal(minutes);
        assert(text.subrange(0, text.len() - 3) =~= head);
    }
}

/// The clock text of a count of whole seconds. Every count that a `u64`
/// holds has its text: nothing is cut off and nothing overflows.
pub fn format_seconds(total_seconds: u64) -> (text: String)
    ensures
        text@ == clock_text(total_seconds as nat),
{
    let hours: u64 = total_seconds / 3600;
    let minutes: u64 = (total_seconds % 3600) / 60;
    let seconds: u64 = total_seconds % 60;
    proof {
        reveal_strlit(":");
    }
    let mut text = String::new();
    if hours > 0 {
        push_decimal(&mut text, hours);
        text.append(":");
        push_two_digits(&mut text, minutes);
    } else {
        push_decimal(&mut text, minutes);
    }
    text.append(":");
    push_two_digits(&mut text, seconds);
    assert(text@ =~= clock_text(total_seconds as nat));
    text
}

/// The text that the display shows for a position or a duration: the clock
/// text of its whole seconds.
pub fn format_duration(duration: MediaTime) -> (text: String)
    ensures
        text@ == clock_text(duration@ / (NANOS_PER_SEC as nat)),
{
    format_seconds(duration.whole_secs())
}

} // verus!

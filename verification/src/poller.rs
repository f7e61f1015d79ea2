//! The position poller: on every tick it turns a reading of the player into
//! the progress value and the two time labels of the display, and keeps its
//! hands off the progress value while the seek gate is shut.
//!
//! The poller ticks for as long as the controls live: neither a load nor a
//! stop ends it. A tick without a full reading leaves the display as it is.

use crate::clock::local_clock_after;
use crate::seek::{progress_of, progress_value, SeekGate};
use crate::text::{decimal, two_digits};
use crate::time::{clock_text, format_duration, saturating_difference, MediaTime, NANOS_PER_SEC};
use vstd::prelude::*;
use vstd::string::*;

verus! {

/// The time between two ticks of the poller.
pub const POLL_INTERVAL_MILLIS: u64 = 500;

/// The pattern by which the time of day is shown in the mode `EndTime`: the
/// hour of a twelve-hour clock without padding, the minute in two digits, and
/// the half of the day.
pub const END_TIME_PATTERN: &'static str = "%-I:%M %p";

/// The text of a time of day in that pattern: `afternoon` tells the half of
/// the day from noon on.
pub open spec fn twelve_hour_text(hour: nat, minute: nat, afternoon: bool) -> Seq<char> {
    decimal(hour) + seq![':'] + two_digits(minute) + seq![
        ' ',
        if afternoon {
            'P'
        } else {
            'A'
        },
        'M',
    ]
}

/// Whether `text` tells a time of day on a twelve-hour clock: an hour from 1
/// to 12, a minute below 60, and `AM` or `PM`.
pub open spec fn is_twelve_hour_clock(text: Seq<char>) -> bool {
    exists|hour: nat, minute: nat, afternoon: bool|
        1 <= hour <= 12 && minute < 60 && text == #[trigger] twelve_hour_text(
            hour,
            minute,
            afternoon,
        )
}

/// What the label at the end of the progress bar shows.
#[derive(Clone, Copy, Debug, PartialEq, Eq, Structural)]
pub enum TimeDisplayMode {
    /// The length of the stream.
    TotalDuration,
    /// The time left to play, behind a minus sign.
    TimeRemaining,
    /// The time of day at which the stream ends.
    EndTime,
}

impl TimeDisplayMode {
    /// The mode that a click on the label leads to.
    pub open spec fn successor(self) -> TimeDisplayMode {
        match self {
            TimeDisplayMode::TotalDuration => TimeDisplayMode::TimeRemaining,
            TimeDisplayMode::TimeRemaining => TimeDisplayMode::EndTime,
            TimeDisplayMode::EndTime => TimeDisplayMode::TotalDuration,
        }
    }

    /// The mode that fresh controls start in: the length of the stream.
    pub fn initial() -> (mode: TimeDisplayMode)
        ensures
            mode == TimeDisplayMode::TotalDuration,
    {
        TimeDisplayMode::TotalDuration
    }

    /// The mode that a click on the label leads to.
    pub fn next(self) -> (mode: TimeDisplayMode)
        ensures
            mode == self.successor(),
    {
        match self {
            TimeDisplayMode::TotalDuration => TimeDisplayMode::TimeRemaining,
            TimeDisplayMode::TimeRemaining => TimeDisplayMode::EndTime,
            TimeDisplayMode::EndTime => TimeDisplayMode::TotalDuration,
        }
    }
}

/// Clicks lead through all three modes and back: no click leaves the mode as
/// it is, and the third click brings back the first mode.
pub proof fn modes_cycle(mode: TimeDisplayMode)
    ensures
        mode.successor() != mode,
        mode.successor().successor() != mode,
        mode.successor().successor().successor() == mode,
{
}

/// What the position display shows, as contracts see it.
pub struct DisplayView {
    /// The progress value, in millionths of the stream.
    pub progress: nat,
    /// The label of the current position.
    pub position_label: Seq<char>,
    /// The label at the end of the progress bar.
    pub end_label: Seq<char>,
}

/// The display before the first reading: no progress, both labels at zero.
pub open spec fn initial_display() -> DisplayView {
    DisplayView { progress: 0, position_label: clock_text(0), end_label: clock_text(0) }
}

/// The end label for a reading. In the mode `EndTime` it is the clock text
/// handed in; where none is handed in, the label stays as it was.
pub open spec fn end_label_text(
    previous: Seq<char>,
    mode: TimeDisplayMode,
    position: nat,
    duration: nat,
    clock: Option<Seq<char>>,
) -> Seq<char> {
    match mode {
        TimeDisplayMode::TotalDuration => clock_text(duration / (NANOS_PER_SEC as nat)),
        TimeDisplayMode::TimeRemaining => seq!['-'] + clock_text(
            saturating_difference(duration, position) / (NANOS_PER_SEC as nat),
        ),
        TimeDisplayMode::EndTime => match clock {
            Some(text) => text,
            None => previous,
        },
    }
}

/// The display after a tick. Without both a position and a duration nothing
/// changes. With both, the position label and the end label are renewed, and
/// the progress value is renewed unless a seek is in flight.
pub open spec fn refreshed(
    display: DisplayView,
    seeking: bool,
    mode: TimeDisplayMode,
    position: Option<MediaTime>,
    duration: Option<MediaTime>,
    clock: Option<Seq<char>>,
) -> DisplayView {
    if position is Some && duration is Some {
        DisplayView {
            progress: if seeking {
                display.progress
            } else {
                progress_value(position.unwrap()@, duration.unwrap()@)
            },
            position_label: clock_text(position.unwrap()@ / (NANOS_PER_SEC as nat)),
            end_label: end_label_text(
                display.end_label,
                mode,
                position.unwrap()@,
                duration.unwrap()@,
                clock,
            ),
        }
    } else {
        display
    }
}

/// What a tick has renewed, for the presentation to take over.
#[derive(Clone, Copy, Debug, PartialEq, Eq, Structural)]
pub struct Published {
    /// Whether the progress value was renewed.
    pub progress: bool,
    /// Whether the two labels were renewed.
    pub labels: bool,
}

/// What a tick renews: the labels with every full reading, the progress
/// value with every full reading that falls outside a seek.
pub open spec fn published(
    seeking: bool,
    position: Option<MediaTime>,
    duration: Option<MediaTime>,
) -> Published {
    Published {
        progress: !seeking && position is Some && duration is Some,
        labels: position is Some && duration is Some,
    }
}

/// The text of an optional string.
pub open spec fn text_of(text: Option<String>) -> Option<Seq<char>> {
    match text {
        Some(text) => Some(text@),
        None => None,
    }
}

/// The progress value and the two time labels that the session shows.
#[derive(Debug)]
pub struct PositionDisplay {
    progress: u32,
    position_label: String,
    end_label: String,
}

impl View for PositionDisplay {
    type V = DisplayView;

    closed spec fn view(&self) -> DisplayView {
        DisplayView {
            progress: self.progress as nat,
            position_label: self.position_label@,
            end_label: self.end_label@,
        }
    }
}

impl PositionDisplay {
    /// The display before the first reading.
    pub fn new() -> (display: PositionDisplay)
        ensures
            display@ == initial_display(),
    {
        PositionDisplay {
            progress: 0,
            position_label: format_duration(MediaTime::zero()),
            end_label: format_duration(MediaTime::zero()),
        }
    }

    /// The progress value, in millionths of the stream.
    pub fn progress(&self) -> (progress: u32)
        ensures
            progress == self@.progress,
    {
        self.progress
    }

    pub fn position_label(&self) -> (label: &String)
        ensures
            label@ == self@.position_label,
    {
        &self.position_label
    }

    pub fn end_label(&self) -> (label: &String)
        ensures
            label@ == self@.end_label,
    {
        &self.end_label
    }

    /// Renews the display from a reading of the player; `clock` is the time of
    /// day at which the stream ends, which only the mode `EndTime` shows.
    pub fn refresh(
        &mut self,
        seeking: bool,
        mode: TimeDisplayMode,
        position: Option<MediaTime>,
        duration: Option<MediaTime>,
        clock: Option<String>,
    ) -> (report: Published)
        ensures
            final(self)@ == refreshed(
                old(self)@,
                seeking,
                mode,
                position,
                duration,
                text_of(clock),
            ),
            report == published(seeking, position, duration),
    {
        match (position, duration) {
            (Some(position), Some(duration)) => {
                if !seeking {
                    self.progress = progress_of(position, duration);
                }
                self.position_label = format_duration(position);
                match mode {
                    TimeDisplayMode::TotalDuration => {
                        self.end_label = format_duration(duration);
                    },
                    TimeDisplayMode::TimeRemaining => {
                        let remaining = duration.saturating_sub(position);
                        let mut label = String::new();
                        proof {
                            reveal_strlit("-");
                        }
                        label.append("-");
                        label.append(format_duration(remaining).as_str());
                        assert(label@ =~= seq!['-'] + clock_text(
                            saturating_difference(duration@, position@) / (NANOS_PER_SEC as nat),
                        ));
                        self.end_label = label;
                    },
                    TimeDisplayMode::EndTime => {
                        match clock {
                            Some(text) => {
                                self.end_label = text;
                            },
                            None => {},
                        }
                    },
                }
                Published { progress: !seeking, labels: true }
            },
            _ => Published { progress: false, labels: false },
        }
    }

    /// One tick of the poller: renews the display from a reading of the
    /// player, and reads the wall clock where the mode `EndTime` asks for it.
    /// In that mode the end label tells a time of day on a twelve-hour clock,
    /// or stays as it was where the clock cannot tell the end of the stream;
    /// all else is fixed by the reading.
    pub fn tick(
        &mut self,
        gate: &SeekGate,
        mode: TimeDisplayMode,
        position: Option<MediaTime>,
        duration: Option<MediaTime>,
    ) -> (report: Published)
        ensures
            report == published(gate@, position, duration),
            exists|clock: Option<Seq<char>>|
                (clock is Some ==> is_twelve_hour_clock(clock.unwrap())) && final(self)@
                    == #[trigger] refreshed(old(self)@, gate@, mode, position, duration, clock),
            !(mode is EndTime) ==> final(self)@ == refreshed(
                old(self)@,
                gate@,
                mode,
                position,
                duration,
                None,
            ),
            mode is EndTime ==> final(self)@.end_label == old(self)@.end_label
                || is_twelve_hour_clock(final(self)@.end_label),
    {
        let clock = match (mode, position, duration) {
            (TimeDisplayMode::EndTime, Some(position), Some(duration)) => local_clock_after(
                duration.saturating_sub(position).as_nanos(),
                END_TIME_PATTERN,
            ),
            _ => None,
        };
        let ghost witness = text_of(clock);
        let report = self.refresh(gate.is_seeking(), mode, position, duration, clock);
        assert(self@ == refreshed(old(self)@, gate@, mode, position, duration, witness));
        report
    }
}

/// What happens to the controls of a session: a seek begins, a seek ends, or
/// the poller ticks with a reading (and with the clock text, where it read one).
pub enum ControlEvent {
    BeginSeek,
    EndSeek,
    Tick {
        mode: TimeDisplayMode,
        position: Option<MediaTime>,
        duration: Option<MediaTime>,
        clock: Option<Seq<char>>,
    },
}

/// The seek gate and the display together.
pub struct Controls {
    pub seeking: bool,
    pub display: DisplayView,
}

/// The controls after one event.
pub open spec fn controls_after(controls: Controls, event: ControlEvent) -> Controls {
    match event {
        ControlEvent::BeginSeek => Controls { seeking: true, display: controls.display },
        ControlEvent::EndSeek => Controls { seeking: false, display: controls.display },
        ControlEvent::Tick { mode, position, duration, clock } => Controls {
            seeking: controls.seeking,
            display: refreshed(controls.display, controls.seeking, mode, position, duration, clock),
        },
    }
}

/// The controls after a sequence of events.
pub open spec fn controls_after_all(controls: Controls, events: Seq<ControlEvent>) -> Controls
    decreases events.len(),
{
    if events.len() == 0 {
        controls
    } else {
        controls_after(controls_after_all(controls, events.drop_last()), events.last())
    }
}

/// Whether no event of `events` ends a seek.
pub open spec fn no_seek_ends(events: Seq<ControlEvent>) -> bool {
    forall|i: int| 0 <= i < events.len() ==> !(#[trigger] events[i] is EndSeek)
}

/// Between the beginning of a seek and its end the progress value does not
/// change, however many ticks fall in between and whatever they read.
pub proof fn progress_held_while_seeking(controls: Controls, events: Seq<ControlEvent>)
    requires
        no_seek_ends(events),
    ensures
        controls_after_all(
            controls_after(controls, ControlEvent::BeginSeek),
            events,
        ).display.progress == controls.display.progress,
        controls_after_all(controls_after(controls, ControlEvent::BeginSeek), events).seeking,
    decreases events.len(),
{
    if events.len() > 0 {
        let earlier = events.drop_last();
        assert forall|i: int| 0 <= i < earlier.len() implies !(#[trigger] earlier[i] is EndSeek) by {
            assert(earlier[i] == events[i]);
        }
        progress_held_while_seeking(controls, earlier);
        assert(!(events[events.len() - 1] is EndSeek));
    }
}

} // verus!

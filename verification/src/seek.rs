//! The seek gate, the seek by a drag of the slider that shuts and opens it,
//! and the arithmetic that turns positions into progress and slider values
//! into positions.
//!
//! Progress is counted in millionths of the whole stream, from 0 to
//! `PROGRESS_FULL`.

use crate::player::CommandOutcome;
use crate::time::{saturating_difference, saturating_sum, MediaTime};
use vstd::arithmetic::div_mod::{lemma_multiply_divide_le, lemma_multiply_divide_lt};
use vstd::arithmetic::mul::{lemma_mul_inequality, lemma_mul_is_commutative, lemma_mul_strict_inequality};
use vstd::prelude::*;

verus! {

/// The progress of a stream that has played to its end.
pub const PROGRESS_FULL: u32 = 1_000_000;

/// How long the seek gate stays shut after a seek command has returned.
pub const SEEK_SETTLE_MILLIS: u64 = 100;

/// The progress that stands for `position` in a stream of length `duration`:
/// their ratio in millionths, rounded down and held at `PROGRESS_FULL`. In a
/// stream of no length the start counts as no progress and any later position
/// as full progress.
pub open spec fn progress_value(position: nat, duration: nat) -> nat {
    if duration == 0 {
        if position == 0 {
            0
        } else {
            PROGRESS_FULL as nat
        }
    } else if position >= duration {
        PROGRESS_FULL as nat
    } else {
        position * (PROGRESS_FULL as nat) / duration
    }
}

/// The position that the slider value `slider` stands for in a stream of
/// length `duration`: that many millionths of the duration, rounded down. A
/// slider value past `PROGRESS_FULL` counts as `PROGRESS_FULL`.
pub open spec fn slider_target(slider: nat, duration: nat) -> nat {
    if slider >= PROGRESS_FULL {
        duration
    } else {
        slider * duration / (PROGRESS_FULL as nat)
    }
}

/// Progress lies between nothing and `PROGRESS_FULL`; a slider's target lies
/// within the stream.
pub proof fn progress_and_target_in_range(position: nat, duration: nat, slider: nat)
    ensures
        progress_value(position, duration) <= PROGRESS_FULL,
        slider_target(slider, duration) <= duration,
{
    let full = PROGRESS_FULL as int;
    if duration != 0 && position < duration {
        lemma_mul_strict_inequality(position as int, duration as int, full);
        lemma_mul_is_commutative(duration as int, full);
        lemma_multiply_divide_lt((position * full) as int, duration as int, full);
    }
    if slider < PROGRESS_FULL {
        lemma_mul_inequality(slider as int, full, duration as int);
        lemma_multiply_divide_le((slider * duration) as int, full, duration as int);
    }
}

/// The progress to show for a position in a stream.
pub fn progress_of(position: MediaTime, duration: MediaTime) -> (progress: u32)
    ensures
        progress == progress_value(position@, duration@),
        progress <= PROGRESS_FULL,
{
    proof {
        progress_and_target_in_range(position@, duration@, 0);
    }
    let position_nanos: u64 = position.as_nanos();
    let duration_nanos: u64 = duration.as_nanos();
    if duration_nanos == 0 {
        if position_nanos == 0 {
            0
        } else {
            PROGRESS_FULL
        }
    } else if position_nanos >= duration_nanos {
        PROGRESS_FULL
    } else {
        let scaled: u128 = (position_nanos as u128) * 1_000_000u128;
        let ratio: u128 = scaled / (duration_nanos as u128);
        ratio as u32
    }
}

/// The position to seek to when the slider is dragged to `slider`.
pub fn drag_target(slider: u32, duration: MediaTime) -> (target: MediaTime)
    ensures
        target@ == slider_target(slider as nat, duration@),
        target@ <= duration@,
{
    proof {
        progress_and_target_in_range(0, duration@, slider as nat);
    }
    if slider >= PROGRESS_FULL {
        duration
    } else {
        let duration_nanos: u64 = duration.as_nanos();
        assert((slider as u128) * (duration_nanos as u128) <= 1_000_000u128 * 0xffff_ffff_ffff_ffffu128)
            by (nonlinear_arith)
            requires
                slider < 1_000_000u32,
                duration_nanos <= 0xffff_ffff_ffff_ffffu64,
        ;
        let scaled: u128 = (slider as u128) * (duration_nanos as u128);
        let nanos: u128 = scaled / 1_000_000u128;
        MediaTime::from_nanos(nanos as u64)
    }
}

/// The position `step` before `position`, held at the start of the stream.
pub fn rewind_target(position: MediaTime, step: MediaTime) -> (target: MediaTime)
    ensures
        target@ == saturating_difference(position@, step@),
{
    position.saturating_sub(step)
}

/// The position `step` after `position`, held at the largest time that can be told.
pub fn forward_target(position: MediaTime, step: MediaTime) -> (target: MediaTime)
    ensures
        target@ == saturating_sum(position@, step@),
{
    position.saturating_add(step)
}

/// The flag that keeps the poller from the progress value while a seek of the
/// user is in flight.
#[derive(Debug)]
pub struct SeekGate {
    seeking: bool,
}

impl View for SeekGate {
    type V = bool;

    /// Whether a seek is in flight.
    closed spec fn view(&self) -> bool {
        self.seeking
    }
}

impl SeekGate {
    /// A seek gate with no seek in flight.
    pub fn new() -> (gate: SeekGate)
        ensures
            !gate@,
    {
        SeekGate { seeking: false }
    }

    pub fn is_seeking(&self) -> (seeking: bool)
        ensures
            seeking == self@,
    {
        self.seeking
    }

    /// Shuts the seek gate: called before the seek command goes to the player.
    pub fn begin_seek(&mut self)
        ensures
            final(self)@,
    {
        self.seeking = true;
    }

    /// Opens the seek gate: called once the settle delay after the seek has passed.
    pub fn end_seek(&mut self)
        ensures
            !final(self)@,
    {
        self.seeking = false;
    }
}

/// How far a seek by a drag of the slider has come.
#[derive(Clone, Copy, Debug, PartialEq, Eq, Structural)]
pub enum DragPhase {
    /// The seek gate is shut; the duration of the stream is asked for.
    Reading,
    /// The seek command is with the player.
    Seeking,
    /// The seek command has returned, or none went out; the settle delay runs.
    Settling,
    /// The settle delay has passed, and the seek gate was opened.
    Ended,
}

/// What a drag seek asks its driver to do next.
#[derive(Clone, Copy, Debug, PartialEq, Eq, Structural)]
pub enum DragCommand {
    /// Read the duration of the stream and report it.
    ReadDuration,
    /// Have the player seek to this position, and report the outcome.
    Seek(MediaTime),
    /// Wait, then report `Settled`.
    Settle { millis: u64 },
    /// Nothing more: the seek is over.
    Finish,
}

/// What the driver reports to a drag seek.
#[derive(Clone, Copy, Debug, PartialEq, Eq, Structural)]
pub enum DragEvent {
    Duration(Option<MediaTime>),
    Sought(CommandOutcome),
    Settled,
}

/// The phase of a drag seek to the slider value `slider` after an event,
/// whether the seek gate is shut then, and the command that the event
/// releases, if any.
///
/// With a duration the player is sent to the slider's target; without one no
/// seek goes out. Either way, and whether or not the seek succeeds, the
/// settle delay follows, and the seek gate is opened when it has passed. An
/// event out of turn changes nothing.
pub open spec fn drag_step(phase: DragPhase, slider: u32, seeking: bool, event: DragEvent) -> (
    DragPhase,
    bool,
    Option<DragCommand>,
) {
    match (phase, event) {
        (DragPhase::Reading, DragEvent::Duration(Some(duration))) => (
            DragPhase::Seeking,
            seeking,
            Some(
                DragCommand::Seek(
                    MediaTime { nanos: slider_target(slider as nat, duration@) as u64 },
                ),
            ),
        ),
        (DragPhase::Reading, DragEvent::Duration(None)) => (
            DragPhase::Settling,
            seeking,
            Some(DragCommand::Settle { millis: SEEK_SETTLE_MILLIS }),
        ),
        (DragPhase::Seeking, DragEvent::Sought(_)) => (
            DragPhase::Settling,
            seeking,
            Some(DragCommand::Settle { millis: SEEK_SETTLE_MILLIS }),
        ),
        (DragPhase::Settling, DragEvent::Settled) => (
            DragPhase::Ended,
            false,
            Some(DragCommand::Finish),
        ),
        _ => (phase, seeking, None),
    }
}

/// A drag seek as contracts see it.
pub struct DragView {
    /// The slider value that was dragged to, in millionths of the stream.
    pub slider: u32,
    pub phase: DragPhase,
}

/// A seek by a drag of the slider, from the shutting of the seek gate to its
/// opening.
#[derive(Debug)]
pub struct DragSeek {
    slider: u32,
    phase: DragPhase,
}

impl View for DragSeek {
    type V = DragView;

    closed spec fn view(&self) -> DragView {
        DragView { slider: self.slider, phase: self.phase }
    }
}

impl DragSeek {
    /// Begins a seek by a drag of the slider to `slider`: shuts the seek
    /// gate, before anything is asked of the player. The first command is
    /// `first_command`.
    pub fn begin(gate: &mut SeekGate, slider: u32) -> (run: DragSeek)
        ensures
            final(gate)@,
            run@ == (DragView { slider, phase: DragPhase::Reading }),
    {
        gate.begin_seek();
        DragSeek { slider, phase: DragPhase::Reading }
    }

    /// The command that every drag seek starts with: read the duration.
    pub fn first_command() -> (command: DragCommand)
        ensures
            command == DragCommand::ReadDuration,
    {
        DragCommand::ReadDuration
    }

    pub fn phase(&self) -> (phase: DragPhase)
        ensures
            phase == self@.phase,
    {
        self.phase
    }

    /// Takes an event and gives the next command; opens the seek gate when
    /// the settle delay has passed. `None` means that the event was not the
    /// one awaited: the command issued before still stands.
    pub fn step(&mut self, gate: &mut SeekGate, event: DragEvent) -> (command: Option<DragCommand>)
        ensures
            final(self)@.slider == old(self)@.slider,
            final(self)@.phase == drag_step(
                old(self)@.phase,
                old(self)@.slider,
                old(gate)@,
                event,
            ).0,
            final(gate)@ == drag_step(old(self)@.phase, old(self)@.slider, old(gate)@, event).1,
            command == drag_step(old(self)@.phase, old(self)@.slider, old(gate)@, event).2,
    {
        match (self.phase, event) {
            (DragPhase::Reading, DragEvent::Duration(Some(duration))) => {
                self.phase = DragPhase::Seeking;
                Some(DragCommand::Seek(drag_target(self.slider, duration)))
            },
            (DragPhase::Reading, DragEvent::Duration(None)) => {
                self.phase = DragPhase::Settling;
                Some(DragCommand::Settle { millis: SEEK_SETTLE_MILLIS })
            },
            (DragPhase::Seeking, DragEvent::Sought(_)) => {
                self.phase = DragPhase::Settling;
                Some(DragCommand::Settle { millis: SEEK_SETTLE_MILLIS })
            },
            (DragPhase::Settling, DragEvent::Settled) => {
                self.phase = DragPhase::Ended;
                gate.end_seek();
                Some(DragCommand::Finish)
            },
            _ => None,
        }
    }
}

/// A drag seek that is driven in turn holds the seek gate shut from before
/// the seek command goes out until the settle delay after its return has
/// passed, and ends with the seek gate open: with a duration the seek goes to
/// the slider's target, then the settle delay runs, whether or not the seek
/// succeeded; without a duration no seek goes out and the settle delay runs
/// at once. The seek gate never sticks.
pub proof fn drag_seek_ends_open(slider: u32, duration: Option<MediaTime>, outcome: CommandOutcome)
    ensures
        ({
            let read = drag_step(DragPhase::Reading, slider, true, DragEvent::Duration(duration));
            let sought = drag_step(DragPhase::Seeking, slider, true, DragEvent::Sought(outcome));
            let settled = drag_step(DragPhase::Settling, slider, true, DragEvent::Settled);
            &&& duration is Some ==> read.0 == DragPhase::Seeking && read.1 && (read.2 matches Some(
                DragCommand::Seek(target),
            ) && target@ == slider_target(slider as nat, duration.unwrap()@))
            &&& duration is None ==> read == (
                DragPhase::Settling,
                true,
                Some(DragCommand::Settle { millis: SEEK_SETTLE_MILLIS }),
            )
            &&& sought == (
                DragPhase::Settling,
                true,
                Some(DragCommand::Settle { millis: SEEK_SETTLE_MILLIS }),
            )
            &&& settled == (DragPhase::Ended, false, Some(DragCommand::Finish))
        }),
{
    if duration is Some {
        progress_and_target_in_range(0, duration.unwrap()@, slider as nat);
    }
}

/// Whatever a drag seek is told, in whatever order: it touches the seek gate
/// only when it ends, and then it opens it; and once it has ended it neither
/// touches the seek gate nor issues a command again.
pub proof fn drag_seek_opens_only_at_its_end(
    phase: DragPhase,
    slider: u32,
    seeking: bool,
    event: DragEvent,
)
    ensures
        ({
            let after = drag_step(phase, slider, seeking, event);
            &&& after.0 is Ended && !(phase is Ended) ==> !after.1 && phase is Settling && event
                is Settled
            &&& !(after.0 is Ended) || phase is Ended ==> after.1 == seeking
            &&& phase is Ended ==> after == (phase, seeking, None::<DragCommand>)
        }),
{
}

} // verus!

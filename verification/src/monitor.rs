//! The completion monitor: watches one session until the player stops or
//! fails, and decides whether the item counts as watched.
//!
//! The monitor issues one command at a time and takes the event that answers
//! it. An event that does not answer the command it waits for is ignored.
//!
//! Nothing ends a monitor but the player: it polls until the player reports
//! `Stopped` or `Error`. A later load starts a monitor of its own and leaves
//! the earlier one running; each of them notifies the backend at most once.

use crate::player::{CommandOutcome, PlaybackState};
use crate::time::MediaTime;
use vstd::prelude::*;

verus! {

/// How long the monitor lets playback start before it looks at the player.
pub const MONITOR_GRACE_MILLIS: u64 = 2000;

/// How long the monitor waits before each look at the player's state.
pub const MONITOR_POLL_MILLIS: u64 = 1000;

/// Whether a position counts as watched: more than nine tenths of the duration.
pub open spec fn is_watched(position: nat, duration: nat) -> bool {
    10 * position > 9 * duration
}

/// Whether a reading of the player counts as watched: both values are known,
/// and the position is past nine tenths of the duration.
pub open spec fn reading_is_watched(
    position: Option<MediaTime>,
    duration: Option<MediaTime>,
) -> bool {
    position is Some && duration is Some && is_watched(position.unwrap()@, duration.unwrap()@)
}

/// Decides whether a reading of the player counts as watched.
pub fn watched(position: Option<MediaTime>, duration: Option<MediaTime>) -> (yes: bool)
    ensures
        yes == reading_is_watched(position, duration),
{
    match (position, duration) {
        (Some(position), Some(duration)) => {
            let scaled_position: u128 = 10u128 * (position.as_nanos() as u128);
            let scaled_duration: u128 = 9u128 * (duration.as_nanos() as u128);
            scaled_position > scaled_duration
        },
        _ => false,
    }
}

/// What the monitor waits for.
#[derive(Clone, Copy, Debug, PartialEq, Eq, Structural)]
pub enum MonitorPhase {
    /// The end of the grace period.
    Grace,
    /// The player's state.
    Polling,
    /// The position and duration of the stopped player.
    Evaluating,
    /// The backend's answer to the watched notification.
    Marking,
    /// Nothing: the monitor is done.
    Finished(Ending),
}

/// How a monitor ended.
#[derive(Clone, Copy, Debug, PartialEq, Eq, Structural)]
pub enum Ending {
    /// The player failed: whether the item was watched is not asked.
    PlayerFailed,
    /// The player stopped at or before nine tenths of the stream, or would
    /// not tell where it stopped.
    NotWatched,
    /// The item was watched, and the backend was told.
    Watched,
    /// The item was watched, and the backend could not be told. Nothing is
    /// tried again.
    NotificationFailed,
}

/// Why a monitor ended badly.
#[derive(Clone, Copy, Debug, PartialEq, Eq, Structural)]
pub enum MonitorError {
    /// The backend did not take the watched notification.
    WatchedNotificationFailed,
}

/// What a monitor in the phase `phase` has come to: `None` while it runs,
/// else whether the backend was told that the item was watched, or why not.
pub open spec fn monitor_result(phase: MonitorPhase) -> Option<Result<bool, MonitorError>> {
    match phase {
        MonitorPhase::Finished(Ending::Watched) => Some(Ok(true)),
        MonitorPhase::Finished(Ending::NotWatched) => Some(Ok(false)),
        MonitorPhase::Finished(Ending::PlayerFailed) => Some(Ok(false)),
        MonitorPhase::Finished(Ending::NotificationFailed) => Some(
            Err(MonitorError::WatchedNotificationFailed),
        ),
        _ => None,
    }
}

/// What the monitor asks its driver to do next.
#[derive(Clone, Copy, Debug, PartialEq, Eq, Structural)]
pub enum MonitorCommand {
    /// Wait, then report `Waited`.
    Wait { millis: u64 },
    /// Wait, read the player's state and report it.
    PollState { after_millis: u64 },
    /// Read position and duration and report them.
    ReadProgress,
    /// Notify the backend that the monitor's item was watched, and report the outcome.
    MarkWatched,
    /// Stop driving the monitor.
    Finish,
}

/// What the driver reports to the monitor.
#[derive(Debug)]
pub enum MonitorEvent {
    Waited,
    State(PlaybackState),
    Progress { position: Option<MediaTime>, duration: Option<MediaTime> },
    Marked(CommandOutcome),
}

/// The phase after an event, and the command that the event releases, if any.
pub open spec fn monitor_step(phase: MonitorPhase, event: MonitorEvent) -> (
    MonitorPhase,
    Option<MonitorCommand>,
) {
    match (phase, event) {
        (MonitorPhase::Grace, MonitorEvent::Waited) => (
            MonitorPhase::Polling,
            Some(MonitorCommand::PollState { after_millis: MONITOR_POLL_MILLIS }),
        ),
        (MonitorPhase::Polling, MonitorEvent::State(state)) => {
            if state is Stopped {
                (MonitorPhase::Evaluating, Some(MonitorCommand::ReadProgress))
            } else if state is Error {
                (MonitorPhase::Finished(Ending::PlayerFailed), Some(MonitorCommand::Finish))
            } else {
                (
                    MonitorPhase::Polling,
                    Some(MonitorCommand::PollState { after_millis: MONITOR_POLL_MILLIS }),
                )
            }
        },
        (MonitorPhase::Evaluating, MonitorEvent::Progress { position, duration }) => {
            if reading_is_watched(position, duration) {
                (MonitorPhase::Marking, Some(MonitorCommand::MarkWatched))
            } else {
                (MonitorPhase::Finished(Ending::NotWatched), Some(MonitorCommand::Finish))
            }
        },
        (MonitorPhase::Marking, MonitorEvent::Marked(outcome)) => (
            MonitorPhase::Finished(
                if outcome is Failed {
                    Ending::NotificationFailed
                } else {
                    Ending::Watched
                },
            ),
            Some(MonitorCommand::Finish),
        ),
        _ => (phase, None),
    }
}

/// The monitor of one session.
#[derive(Debug)]
pub struct CompletionMonitor {
    media_id: String,
    phase: MonitorPhase,
}

/// A monitor as contracts see it.
pub struct MonitorView {
    pub media_id: Seq<char>,
    pub phase: MonitorPhase,
}

impl View for CompletionMonitor {
    type V = MonitorView;

    closed spec fn view(&self) -> MonitorView {
        MonitorView { media_id: self.media_id@, phase: self.phase }
    }
}

impl CompletionMonitor {
    /// A monitor for the item `media_id`, in its grace period.
    pub fn start(media_id: String) -> (monitor: CompletionMonitor)
        ensures
            monitor@.media_id == media_id@,
            monitor@.phase == MonitorPhase::Grace,
    {
        CompletionMonitor { media_id, phase: MonitorPhase::Grace }
    }

    /// The command that a fresh monitor starts with: wait out the grace period.
    pub fn first_command() -> (command: MonitorCommand)
        ensures
            command == (MonitorCommand::Wait { millis: MONITOR_GRACE_MILLIS }),
    {
        MonitorCommand::Wait { millis: MONITOR_GRACE_MILLIS }
    }

    pub fn phase(&self) -> (phase: MonitorPhase)
        ensures
            phase == self@.phase,
    {
        self.phase
    }

    /// The item that a `MarkWatched` command is about.
    pub fn media_id(&self) -> (media_id: &String)
        ensures
            media_id@ == self@.media_id,
    {
        &self.media_id
    }

    /// Takes an event and gives the next command. `None` means that the event
    /// was not the one awaited: the command issued before still stands.
    pub fn step(&mut self, event: &MonitorEvent) -> (command: Option<MonitorCommand>)
        ensures
            final(self)@.media_id == old(self)@.media_id,
            final(self)@.phase == monitor_step(old(self)@.phase, *event).0,
            command == monitor_step(old(self)@.phase, *event).1,
    {
        match self.phase {
            MonitorPhase::Grace => match event {
                MonitorEvent::Waited => {
                    self.phase = MonitorPhase::Polling;
                    Some(MonitorCommand::PollState { after_millis: MONITOR_POLL_MILLIS })
                },
                _ => None,
            },
            MonitorPhase::Polling => match event {
                MonitorEvent::State(state) => match state {
                    PlaybackState::Stopped => {
                        self.phase = MonitorPhase::Evaluating;
                        Some(MonitorCommand::ReadProgress)
                    },
                    PlaybackState::Error(_) => {
                        self.phase = MonitorPhase::Finished(Ending::PlayerFailed);
                        Some(MonitorCommand::Finish)
                    },
                    _ => Some(MonitorCommand::PollState { after_millis: MONITOR_POLL_MILLIS }),
                },
                _ => None,
            },
            MonitorPhase::Evaluating => match event {
                MonitorEvent::Progress { position, duration } => {
                    if watched(*position, *duration) {
                        self.phase = MonitorPhase::Marking;
                        Some(MonitorCommand::MarkWatched)
                    } else {
                        self.phase = MonitorPhase::Finished(Ending::NotWatched);
                        Some(MonitorCommand::Finish)
                    }
                },
                _ => None,
            },
            MonitorPhase::Marking => match event {
                MonitorEvent::Marked(outcome) => {
                    self.phase = MonitorPhase::Finished(
                        match outcome {
                            CommandOutcome::Failed => Ending::NotificationFailed,
                            CommandOutcome::Succeeded => Ending::Watched,
                        },
                    );
                    Some(MonitorCommand::Finish)
                },
                _ => None,
            },
            MonitorPhase::Finished(_) => None,
        }
    }

    /// What the monitor has come to: `None` while it runs.
    pub fn result(&self) -> (result: Option<Result<bool, MonitorError>>)
        ensures
            result == monitor_result(self@.phase),
    {
        match self.phase {
            MonitorPhase::Finished(Ending::Watched) => Some(Ok(true)),
            MonitorPhase::Finished(Ending::NotWatched) => Some(Ok(false)),
            MonitorPhase::Finished(Ending::PlayerFailed) => Some(Ok(false)),
            MonitorPhase::Finished(Ending::NotificationFailed) => Some(
                Err(MonitorError::WatchedNotificationFailed),
            ),
            _ => None,
        }
    }
}

/// A monitor's phase and the commands it has issued so far.
pub struct MonitorRun {
    pub phase: MonitorPhase,
    pub commands: Seq<MonitorCommand>,
}

/// The run that `events` lead to, from the phase `phase` with nothing issued yet.
pub open spec fn run_from(phase: MonitorPhase, events: Seq<MonitorEvent>) -> MonitorRun
    decreases events.len(),
{
    if events.len() == 0 {
        MonitorRun { phase, commands: Seq::empty() }
    } else {
        let before = run_from(phase, events.drop_last());
        let step = monitor_step(before.phase, events.last());
        MonitorRun {
            phase: step.0,
            commands: match step.1 {
                Some(command) => before.commands.push(command),
                None => before.commands,
            },
        }
    }
}

/// How often `commands` holds the watched notification.
pub open spec fn marks(commands: Seq<MonitorCommand>) -> nat
    decreases commands.len(),
{
    if commands.len() == 0 {
        0
    } else {
        marks(commands.drop_last()) + if commands.last() is MarkWatched {
            1nat
        } else {
            0nat
        }
    }
}

/// Whatever events arrive, in whatever order, a monitor issues the watched
/// notification at most once; and it has issued it exactly where it waits for
/// the backend's answer or has finished after it.
pub proof fn marks_at_most_once(events: Seq<MonitorEvent>)
    ensures
        marks(run_from(MonitorPhase::Grace, events).commands) <= 1,
        run_from(MonitorPhase::Grace, events).phase is Marking ==> marks(
            run_from(MonitorPhase::Grace, events).commands,
        ) == 1,
        !(run_from(MonitorPhase::Grace, events).phase is Marking) && !(run_from(
            MonitorPhase::Grace,
            events,
        ).phase is Finished) ==> marks(run_from(MonitorPhase::Grace, events).commands) == 0,
    decreases events.len(),
{
    if events.len() > 0 {
        marks_at_most_once(events.drop_last());
        let before = run_from(MonitorPhase::Grace, events.drop_last());
        let step = monitor_step(before.phase, events.last());
        match step.1 {
            Some(command) => {
                assert(before.commands.push(command).drop_last() =~= before.commands);
            },
            None => {},
        }
    }
}

/// The events by which a driver reports the states `states`, one after another.
pub open spec fn state_events(states: Seq<PlaybackState>) -> Seq<MonitorEvent> {
    Seq::new(states.len(), |i: int| MonitorEvent::State(states[i]))
}

/// Whether `states` reaches `Stopped` before any `Error`.
pub open spec fn stops_first(states: Seq<PlaybackState>) -> bool {
    exists|k: int|
        0 <= k < states.len() && #[trigger] states[k] is Stopped && forall|j: int|
            0 <= j < k ==> !(#[trigger] states[j]).is_terminal()
}

/// Whether no state of `states` is terminal.
pub open spec fn none_terminal(states: Seq<PlaybackState>) -> bool {
    forall|j: int| 0 <= j < states.len() ==> !(#[trigger] states[j]).is_terminal()
}

/// A polling monitor that is told the states `states` then: issues no watched
/// notification yet; reads the progress exactly where the player reached
/// `Stopped` before any `Error`; keeps polling exactly where no state was
/// terminal; and otherwise has finished.
pub proof fn polling_ends_at_first_terminal(states: Seq<PlaybackState>)
    ensures
        marks(run_from(MonitorPhase::Polling, state_events(states)).commands) == 0,
        run_from(MonitorPhase::Polling, state_events(states)).phase is Evaluating <==> stops_first(states),
        run_from(MonitorPhase::Polling, state_events(states)).phase is Polling <==> none_terminal(states),
        run_from(MonitorPhase::Polling, state_events(states)).phase is Evaluating || run_from(
            MonitorPhase::Polling,
            state_events(states),
        ).phase is Polling || run_from(MonitorPhase::Polling, state_events(states)).phase is Finished,
    decreases states.len(),
{
    let events = state_events(states);
    if states.len() > 0 {
        let earlier = states.drop_last();
        polling_ends_at_first_terminal(earlier);
        assert(events.drop_last() =~= state_events(earlier));
        assert(events.last() == MonitorEvent::State(states.last()));
        let before = run_from(MonitorPhase::Polling, state_events(earlier));
        let step = monitor_step(before.phase, events.last());
        match step.1 {
            Some(command) => {
                assert(before.commands.push(command).drop_last() =~= before.commands);
            },
            None => {},
        }
        let last = states.len() - 1;
        assert forall|j: int| 0 <= j < earlier.len() implies earlier[j] == states[j] by {}
        if stops_first(earlier) {
            let k = choose|k: int|
                0 <= k < earlier.len() && #[trigger] earlier[k] is Stopped && forall|j: int|
                    0 <= j < k ==> !(#[trigger] earlier[j]).is_terminal();
            assert(states[k] is Stopped);
            assert(stops_first(states));
            assert(states[k].is_terminal());
        } else if none_terminal(earlier) {
            if states.last() is Stopped {
                assert(states[last] is Stopped);
                assert(stops_first(states));
                assert(states[last].is_terminal());
            } else if states.last() is Error {
                assert(states[last].is_terminal());
                assert(!stops_first(states)) by {
                    if stops_first(states) {
                        let k = choose|k: int|
                            0 <= k < states.len() && #[trigger] states[k] is Stopped
                                && forall|j: int|
                                0 <= j < k ==> !(#[trigger] states[j]).is_terminal();
                        assert(k < last);
                        assert(earlier[k].is_terminal());
                    }
                }
            } else {
                assert(none_terminal(states));
                assert(!stops_first(states)) by {
                    if stops_first(states) {
                        let k = choose|k: int|
                            0 <= k < states.len() && #[trigger] states[k] is Stopped
                                && forall|j: int|
                                0 <= j < k ==> !(#[trigger] states[j]).is_terminal();
                        assert(states[k].is_terminal());
                    }
                }
            }
        } else {
            // An `Error` came first: the monitor has finished.
            let bad = choose|j: int| 0 <= j < earlier.len() && (#[trigger] earlier[j]).is_terminal();
            assert(states[bad].is_terminal());
            assert(!none_terminal(states));
            assert(!stops_first(states)) by {
                if stops_first(states) {
                    let k = choose|k: int|
                        0 <= k < states.len() && #[trigger] states[k] is Stopped && forall|j: int|
                            0 <= j < k ==> !(#[trigger] states[j]).is_terminal();
                    if k < last {
                        assert(earlier[k] is Stopped);
                        assert forall|j: int| 0 <= j < k implies !(#[trigger] earlier[j]).is_terminal() by {
                            assert(!states[j].is_terminal());
                        }
                        assert(stops_first(earlier));
                    } else {
                        assert(!states[bad].is_terminal());
                    }
                }
            }
        }
    } else {
        assert(none_terminal(states));
    }
}

/// A run over two stretches of events is the run over the first, carried on
/// over the second.
pub proof fn run_continues(phase: MonitorPhase, first: Seq<MonitorEvent>, then: Seq<MonitorEvent>)
    ensures
        run_from(phase, first + then).phase == run_from(run_from(phase, first).phase, then).phase,
        run_from(phase, first + then).commands == run_from(phase, first).commands + run_from(
            run_from(phase, first).phase,
            then,
        ).commands,
    decreases then.len(),
{
    let middle = run_from(phase, first);
    if then.len() == 0 {
        assert(first + then =~= first);
        assert(middle.commands + Seq::<MonitorCommand>::empty() =~= middle.commands);
    } else {
        run_continues(phase, first, then.drop_last());
        assert((first + then).drop_last() =~= first + then.drop_last());
        let before = run_from(middle.phase, then.drop_last());
        match monitor_step(before.phase, then.last()).1 {
            Some(command) => {
                assert((middle.commands + before.commands).push(command) =~= middle.commands
                    + before.commands.push(command));
            },
            None => {},
        }
    }
}

/// The run over one event is one step.
pub proof fn run_of_one(phase: MonitorPhase, event: MonitorEvent)
    ensures
        run_from(phase, seq![event]).phase == monitor_step(phase, event).0,
        marks(run_from(phase, seq![event]).commands) == if monitor_step(phase, event).1 == Some(
            MonitorCommand::MarkWatched,
        ) {
            1nat
        } else {
            0nat
        },
{
    let events = seq![event];
    let before = run_from(phase, events.drop_last());
    assert(before.phase == phase && before.commands =~= Seq::<MonitorCommand>::empty()) by {
        assert(events.drop_last() =~= Seq::<MonitorEvent>::empty());
    }
    match monitor_step(phase, event).1 {
        Some(command) => {
            let issued = run_from(phase, events).commands;
            assert(issued.drop_last() =~= Seq::<MonitorCommand>::empty());
            assert(marks(issued.drop_last()) == 0);
        },
        None => {},
    }
}

/// The watched notifications of two stretches of commands add up.
pub proof fn marks_add_up(first: Seq<MonitorCommand>, then: Seq<MonitorCommand>)
    ensures
        marks(first + then) == marks(first) + marks(then),
    decreases then.len(),
{
    if then.len() == 0 {
        assert(first + then =~= first);
    } else {
        marks_add_up(first, then.drop_last());
        assert((first + then).drop_last() =~= first + then.drop_last());
    }
}

/// The events of a monitor that is driven in turn: the grace period passes,
/// the player reports the states `states`, and the driver reports the
/// reading that it took.
pub open spec fn driven_events(
    states: Seq<PlaybackState>,
    position: Option<MediaTime>,
    duration: Option<MediaTime>,
) -> Seq<MonitorEvent> {
    seq![MonitorEvent::Waited] + state_events(states) + seq![
        MonitorEvent::Progress { position, duration },
    ]
}

/// From the start of a monitor on: the backend is notified if and only if the
/// player reaches `Stopped` before any `Error` and the reading taken then is
/// past nine tenths of the duration; and then it is notified once.
pub proof fn notified_exactly_when_watched(
    states: Seq<PlaybackState>,
    position: Option<MediaTime>,
    duration: Option<MediaTime>,
)
    ensures
        marks(run_from(MonitorPhase::Grace, driven_events(states, position, duration)).commands)
            == if stops_first(states) && reading_is_watched(position, duration) {
            1nat
        } else {
            0nat
        },
{
    let grace = seq![MonitorEvent::Waited];
    let polls = state_events(states);
    let reading = MonitorEvent::Progress { position, duration };
    let started = run_from(MonitorPhase::Grace, grace);
    let polled = run_from(MonitorPhase::Polling, polls);
    let read = run_from(polled.phase, seq![reading]);
    run_of_one(MonitorPhase::Grace, MonitorEvent::Waited);
    polling_ends_at_first_terminal(states);
    run_of_one(polled.phase, reading);
    run_continues(MonitorPhase::Grace, grace, polls);
    run_continues(MonitorPhase::Grace, grace + polls, seq![reading]);
    marks_add_up(started.commands, polled.commands);
    marks_add_up(started.commands + polled.commands, read.commands);
}

} // verus!

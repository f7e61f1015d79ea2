//! The playback session: what is loaded, whether it plays, the seek gate and
//! the suspend inhibition, and the steps by which an item is loaded.
//!
//! The session performs nothing itself. A load is a run of steps: for each
//! step the driver does the work and reports what came of it. Every method
//! that changes the inhibition hands back the handle that the driver has to
//! release to the windowing system.

use crate::inhibitor::{acquire_begun, acquire_finished, granting, only, released, releasing, SuspendInhibitor};
use crate::media::{MediaItem, MediaItemView, StreamInfo, StreamInfoView};
use crate::player::{CommandOutcome, TransportCommand};
use crate::quality::{QualitySwitch, SwitchPhase, SwitchView};
use crate::seek::{drag_step, DragCommand, DragEvent, DragPhase, DragSeek, DragView, SeekGate};
use crate::time::MediaTime;
use vstd::prelude::*;
use vstd::string::*;

verus! {

/// How long after the start of playback the track catalog is populated.
pub const POPULATE_DELAY_MILLIS: u64 = 500;

/// Why a load did not go through.
#[derive(Clone, Copy, Debug, PartialEq, Eq, Structural)]
pub enum LoadError {
    /// No backend is active.
    BackendUnavailable,
    /// The backend could not resolve a stream for the item.
    StreamResolutionFailed,
}

/// The steps of a load, in the order in which they are taken, and its two ends.
#[derive(Clone, Copy, Debug, PartialEq, Eq, Structural)]
pub enum LoadStep {
    /// Ask the backend for the stream of the item that is loaded.
    ResolveStream,
    /// Take the old rendering target out of the presentation.
    ClearRenderTarget,
    /// Put the player's new rendering target in.
    AttachRenderTarget,
    /// Have the player load the stream at the address that the backend resolved.
    LoadMedia,
    /// Show the title and the quality selector.
    SetDisplayMetadata,
    /// Have the player play.
    Play,
    /// Request a suspend inhibition.
    AcquireInhibition,
    /// Schedule the population of the track catalog, `POPULATE_DELAY_MILLIS` from now.
    SchedulePopulation,
    /// Start the completion monitor for the item that is loaded.
    StartMonitor,
    /// The load went through.
    Finished,
    /// The load stopped where the player failed to load or to play. That is
    /// for the driver to log, and no error of the load: the caller is not told.
    PlayerFailed,
    /// The load was given up, and the caller is told why.
    Failed(LoadError),
}

/// What the driver reports of a step.
#[derive(Debug)]
pub enum LoadEvent {
    /// The backend resolved the stream.
    StreamResolved(StreamInfo),
    /// The step is done.
    Done,
    /// The call of the step failed.
    Failed,
    /// The windowing system answered the request for an inhibition: with a
    /// handle, or with none.
    InhibitionAnswered(Option<u32>),
}

/// The session as contracts see it.
pub struct SessionView {
    /// The item that was loaded last.
    pub media: Option<MediaItemView>,
    /// The stream that the backend resolved for it.
    pub stream: Option<StreamInfoView>,
    /// The address that the player was last given and took: that of the
    /// stream, or that of the quality that was switched to since.
    pub address: Option<Seq<char>>,
    /// Whether a seek of the user is in flight.
    pub seeking: bool,
    /// The inhibition handle that the session holds.
    pub handle: Option<u32>,
    /// Whether the session plays, as far as the play button knows.
    pub playing: bool,
}

/// The session before anything was loaded.
pub open spec fn fresh_session() -> SessionView {
    SessionView {
        media: None,
        stream: None,
        address: None,
        seeking: false,
        handle: None,
        playing: false,
    }
}

/// The session once playback was started or resumed, and the handle to
/// release: an inhibition that is held is given up before a new one is requested.
pub open spec fn entered_playing(session: SessionView) -> (SessionView, Option<u32>) {
    (
        SessionView { handle: acquire_begun(session.handle).0, playing: true, ..session },
        acquire_begun(session.handle).1,
    )
}

/// The session once playback was paused or stopped, and the handle to release.
pub open spec fn left_playing(session: SessionView) -> (SessionView, Option<u32>) {
    (
        SessionView { handle: released(session.handle).0, playing: false, ..session },
        released(session.handle).1,
    )
}

/// The session once the windowing system answered a request, and the handle
/// to release. A session that plays keeps the handle that was granted. A
/// session that does not play any more keeps nothing: the grant goes back.
pub open spec fn inhibition_answered(session: SessionView, granted: Option<u32>) -> (
    SessionView,
    Option<u32>,
) {
    if session.playing {
        (
            SessionView { handle: acquire_finished(session.handle, granted).0, ..session },
            acquire_finished(session.handle, granted).1,
        )
    } else {
        (session, granted)
    }
}

/// The session once it took note of the switch of quality `switch`.
pub open spec fn switched(session: SessionView, switch: SwitchView) -> SessionView {
    if switch.phase is Loading || switch.phase is Aborted {
        session
    } else {
        SessionView { address: Some(switch.url), ..session }
    }
}

/// What a press of the play button asks of the windowing system.
#[derive(Clone, Copy, Debug, PartialEq, Eq, Structural)]
pub struct InhibitionChange {
    /// The handle to release, first.
    pub release: Option<u32>,
    /// Whether to request a new inhibition then, and to report the answer.
    pub request: bool,
}

/// The command that a press of the play button sends to the player.
pub open spec fn toggle_command(session: SessionView) -> TransportCommand {
    if session.playing {
        TransportCommand::Pause
    } else {
        TransportCommand::Play
    }
}

/// The session once the player answered the command of the play button. A
/// command that failed changes nothing.
pub open spec fn toggled(session: SessionView, outcome: CommandOutcome) -> (
    SessionView,
    InhibitionChange,
) {
    if outcome is Failed {
        (session, InhibitionChange { release: None, request: false })
    } else if session.playing {
        (
            left_playing(session).0,
            InhibitionChange { release: left_playing(session).1, request: false },
        )
    } else {
        (
            entered_playing(session).0,
            InhibitionChange { release: entered_playing(session).1, request: true },
        )
    }
}

/// The step that follows `step` in a load that goes through.
pub open spec fn following(step: LoadStep) -> LoadStep {
    match step {
        LoadStep::ResolveStream => LoadStep::ClearRenderTarget,
        LoadStep::ClearRenderTarget => LoadStep::AttachRenderTarget,
        LoadStep::AttachRenderTarget => LoadStep::LoadMedia,
        LoadStep::LoadMedia => LoadStep::SetDisplayMetadata,
        LoadStep::SetDisplayMetadata => LoadStep::Play,
        LoadStep::Play => LoadStep::AcquireInhibition,
        LoadStep::AcquireInhibition => LoadStep::SchedulePopulation,
        LoadStep::SchedulePopulation => LoadStep::StartMonitor,
        LoadStep::StartMonitor => LoadStep::Finished,
        LoadStep::Finished => LoadStep::Finished,
        LoadStep::PlayerFailed => LoadStep::PlayerFailed,
        LoadStep::Failed(error) => LoadStep::Failed(error),
    }
}

/// The session, the next step and the handle to release, once the driver
/// reported `event` of the step `step` of a load of `media`, which hands the
/// address `address` to the player.
///
/// The item and its stream are kept as soon as the backend resolved the
/// stream, the address as soon as the player has loaded it. A load ends
/// early where the backend resolves no stream, which is its error, or where
/// the player fails to load or to play, which is none: the session stays as
/// it is then, nothing is handed back, and no inhibition is requested.
pub open spec fn load_advanced(
    session: SessionView,
    media: MediaItemView,
    address: Option<Seq<char>>,
    step: LoadStep,
    event: LoadEvent,
) -> (SessionView, LoadStep, Option<u32>) {
    match step {
        LoadStep::ResolveStream => match event {
            LoadEvent::StreamResolved(stream) => (
                SessionView { media: Some(media), stream: Some(stream@), ..session },
                LoadStep::ClearRenderTarget,
                None,
            ),
            _ => (session, LoadStep::Failed(LoadError::StreamResolutionFailed), None),
        },
        LoadStep::LoadMedia => if event is Failed {
            (session, LoadStep::PlayerFailed, None)
        } else {
            (SessionView { address, ..session }, LoadStep::SetDisplayMetadata, None)
        },
        LoadStep::Play => if event is Failed {
            (session, LoadStep::PlayerFailed, None)
        } else {
            (entered_playing(session).0, LoadStep::AcquireInhibition, entered_playing(session).1)
        },
        LoadStep::AcquireInhibition => match event {
            LoadEvent::InhibitionAnswered(granted) => (
                inhibition_answered(session, granted).0,
                LoadStep::SchedulePopulation,
                inhibition_answered(session, granted).1,
            ),
            _ => (session, LoadStep::SchedulePopulation, None),
        },
        _ => (session, following(step), None),
    }
}

/// The address that a load has to hand to the player once the driver
/// reported `event` of the step `step`: that of the stream that the backend
/// resolved, from then on.
pub open spec fn load_address(
    address: Option<Seq<char>>,
    step: LoadStep,
    event: LoadEvent,
) -> Option<Seq<char>> {
    match (step, event) {
        (LoadStep::ResolveStream, LoadEvent::StreamResolved(stream)) => Some(stream@.url),
        _ => address,
    }
}

/// How a load at the step `step` has ended for its caller, if it has. A load
/// that stopped at a failure of the player has ended without an error.
pub open spec fn load_result(step: LoadStep) -> Option<Result<(), LoadError>> {
    match step {
        LoadStep::Finished => Some(Ok(())),
        LoadStep::PlayerFailed => Some(Ok(())),
        LoadStep::Failed(error) => Some(Err(error)),
        _ => None,
    }
}

/// The state of one playback session.
#[derive(Debug)]
pub struct PlaybackSession {
    media: Option<MediaItem>,
    stream: Option<StreamInfo>,
    address: Option<String>,
    gate: SeekGate,
    inhibitor: SuspendInhibitor,
    playing: bool,
}

impl View for PlaybackSession {
    type V = SessionView;

    closed spec fn view(&self) -> SessionView {
        SessionView {
            media: match self.media {
                Some(media) => Some(media@),
                None => None,
            },
            stream: match self.stream {
                Some(stream) => Some(stream@),
                None => None,
            },
            address: match self.address {
                Some(address) => Some(address@),
                None => None,
            },
            seeking: self.gate@,
            handle: self.inhibitor@,
            playing: self.playing,
        }
    }
}

impl PlaybackSession {
    /// A session with nothing loaded.
    pub fn new() -> (session: PlaybackSession)
        ensures
            session@ == fresh_session(),
    {
        PlaybackSession {
            media: None,
            stream: None,
            address: None,
            gate: SeekGate::new(),
            inhibitor: SuspendInhibitor::new(),
            playing: false,
        }
    }

    /// The item that was loaded last.
    pub fn media(&self) -> (media: Option<&MediaItem>)
        ensures
            media is Some <==> self@.media is Some,
            media is Some ==> media.unwrap()@ == self@.media.unwrap(),
    {
        self.media.as_ref()
    }

    /// The stream that was resolved last.
    pub fn stream(&self) -> (stream: Option<&StreamInfo>)
        ensures
            stream is Some <==> self@.stream is Some,
            stream is Some ==> stream.unwrap()@ == self@.stream.unwrap(),
    {
        self.stream.as_ref()
    }

    /// The address that the player was last given and took.
    pub fn address(&self) -> (address: Option<&String>)
        ensures
            address is Some <==> self@.address is Some,
            address is Some ==> address.unwrap()@ == self@.address.unwrap(),
    {
        self.address.as_ref()
    }

    pub fn is_playing(&self) -> (playing: bool)
        ensures
            playing == self@.playing,
    {
        self.playing
    }

    pub fn is_seeking(&self) -> (seeking: bool)
        ensures
            seeking == self@.seeking,
    {
        self.gate.is_seeking()
    }

    /// The seek gate, for the poller to look at.
    pub fn gate(&self) -> (gate: &SeekGate)
        ensures
            gate@ == self@.seeking,
    {
        &self.gate
    }

    /// The inhibition handle that the session holds.
    pub fn inhibition(&self) -> (handle: Option<u32>)
        ensures
            handle == self@.handle,
    {
        self.inhibitor.handle()
    }

    /// Begins a seek by a drag of the slider to `slider`: shuts the seek gate,
    /// before anything is asked of the player.
    pub fn begin_drag(&mut self, slider: u32) -> (run: DragSeek)
        ensures
            final(self)@ == (SessionView { seeking: true, ..old(self)@ }),
            run@ == (DragView { slider, phase: DragPhase::Reading }),
    {
        DragSeek::begin(&mut self.gate, slider)
    }

    /// Takes what the driver reports of a drag seek and gives the next
    /// command; the seek gate is opened when the settle delay has passed.
    pub fn advance_drag(&mut self, run: &mut DragSeek, event: DragEvent) -> (command: Option<
        DragCommand,
    >)
        ensures
            final(run)@.slider == old(run)@.slider,
            final(run)@.phase == drag_step(
                old(run)@.phase,
                old(run)@.slider,
                old(self)@.seeking,
                event,
            ).0,
            final(self)@ == (SessionView {
                seeking: drag_step(old(run)@.phase, old(run)@.slider, old(self)@.seeking, event).1,
                ..old(self)@
            }),
            command == drag_step(old(run)@.phase, old(run)@.slider, old(self)@.seeking, event).2,
    {
        run.step(&mut self.gate, event)
    }

    /// The command that a press of the play button sends to the player.
    pub fn toggle_command(&self) -> (command: TransportCommand)
        ensures
            command == toggle_command(self@),
    {
        if self.playing {
            TransportCommand::Pause
        } else {
            TransportCommand::Play
        }
    }

    /// Takes the player's answer to the command of the play button.
    pub fn toggled(&mut self, outcome: CommandOutcome) -> (change: InhibitionChange)
        ensures
            final(self)@ == toggled(old(self)@, outcome).0,
            change == toggled(old(self)@, outcome).1,
    {
        match outcome {
            CommandOutcome::Failed => InhibitionChange { release: None, request: false },
            CommandOutcome::Succeeded => {
                if self.playing {
                    self.playing = false;
                    InhibitionChange { release: self.inhibitor.release(), request: false }
                } else {
                    self.playing = true;
                    InhibitionChange { release: self.inhibitor.begin_acquire(), request: true }
                }
            },
        }
    }

    /// Takes the answer of the windowing system to a request for an
    /// inhibition, and hands back the handle to release.
    pub fn inhibition_answered(&mut self, granted: Option<u32>) -> (release: Option<u32>)
        ensures
            final(self)@ == inhibition_answered(old(self)@, granted).0,
            release == inhibition_answered(old(self)@, granted).1,
    {
        if self.playing {
            self.inhibitor.finish_acquire(granted)
        } else {
            granted
        }
    }

    /// Takes note that the player was told to stop, whatever came of it, and
    /// hands back the handle to release. Item and stream stay as they are.
    pub fn stopped(&mut self) -> (release: Option<u32>)
        ensures
            final(self)@ == left_playing(old(self)@).0,
            release == left_playing(old(self)@).1,
    {
        self.playing = false;
        self.inhibitor.release()
    }

    /// Takes note of a switch of quality: once the player has loaded the
    /// stream of the new quality, that stream's address is the session's. A
    /// switch that has not come that far, or was given up, changes nothing.
    pub fn quality_switched(&mut self, switch: &QualitySwitch)
        ensures
            final(self)@ == switched(old(self)@, switch@),
    {
        match switch.phase() {
            SwitchPhase::Loading => {},
            SwitchPhase::Aborted => {},
            _ => {
                self.address = Some(switch.url().clone());
            },
        }
    }

    /// Begins a switch to the quality option at `index` of the stream that
    /// was resolved last. `position` is what the player gave as its position
    /// just before. There is no switch without a stream, or without an
    /// option at `index`.
    pub fn begin_quality_switch(&self, index: usize, position: Option<MediaTime>) -> (switch:
        Option<QualitySwitch>)
        ensures
            switch is Some <==> self@.stream is Some && index
                < self@.stream.unwrap().quality_options.len(),
            switch is Some ==> switch.unwrap()@ == (SwitchView {
                url: self@.stream.unwrap().quality_options[index as int].url,
                position,
                resume: self@.playing,
                phase: SwitchPhase::Loading,
            }),
    {
        match &self.stream {
            Some(stream) => {
                if index < stream.quality_options.len() {
                    let url = stream.quality_options[index].url.clone();
                    Some(QualitySwitch::begin(url, position, self.playing))
                } else {
                    None
                }
            },
            None => None,
        }
    }
}

/// A load under way: the item, and the step that is due.
#[derive(Debug)]
pub struct LoadRun {
    media: MediaItem,
    step: LoadStep,
    address: Option<String>,
}

/// A load as contracts see it.
pub struct LoadRunView {
    /// The item that is loaded.
    pub media: MediaItemView,
    /// The step that is due.
    pub step: LoadStep,
    /// The address of the stream, once the backend has resolved it.
    pub address: Option<Seq<char>>,
}

impl View for LoadRun {
    type V = LoadRunView;

    closed spec fn view(&self) -> LoadRunView {
        LoadRunView {
            media: self.media@,
            step: self.step,
            address: match self.address {
                Some(address) => Some(address@),
                None => None,
            },
        }
    }
}

impl LoadRun {
    /// Begins a load of `media`. Without an active backend there is no load,
    /// and nothing has happened to any session.
    pub fn begin(media: MediaItem, backend_available: bool) -> (run: Result<LoadRun, LoadError>)
        ensures
            backend_available ==> run is Ok && run.unwrap()@ == (LoadRunView {
                media: media@,
                step: LoadStep::ResolveStream,
                address: None,
            }),
            !backend_available ==> run is Err && run.unwrap_err() == LoadError::BackendUnavailable,
    {
        if backend_available {
            Ok(LoadRun { media, step: LoadStep::ResolveStream, address: None })
        } else {
            Err(LoadError::BackendUnavailable)
        }
    }

    /// The item that is loaded.
    pub fn media(&self) -> (media: &MediaItem)
        ensures
            media@ == self@.media,
    {
        &self.media
    }

    /// The address that the step `LoadMedia` hands to the player: that of the
    /// stream that the backend resolved, `None` before it has.
    pub fn address(&self) -> (address: Option<&String>)
        ensures
            address is Some <==> self@.address is Some,
            address is Some ==> address.unwrap()@ == self@.address.unwrap(),
    {
        self.address.as_ref()
    }

    /// The step that is due.
    pub fn step(&self) -> (step: LoadStep)
        ensures
            step == self@.step,
    {
        self.step
    }

    /// How the load has ended: `None` while it is under way.
    pub fn result(&self) -> (result: Option<Result<(), LoadError>>)
        ensures
            result == load_result(self@.step),
    {
        match self.step {
            LoadStep::Finished => Some(Ok(())),
            LoadStep::PlayerFailed => Some(Ok(())),
            LoadStep::Failed(error) => Some(Err(error)),
            _ => None,
        }
    }

    /// Takes what the driver reports of the step that is due, changes the
    /// session accordingly and moves on to the next step. Hands back the
    /// handle that the driver has to release before it takes that step.
    pub fn advance(&mut self, session: &mut PlaybackSession, event: LoadEvent) -> (release: Option<
        u32,
    >)
        ensures
            final(self)@.media == old(self)@.media,
            final(self)@.address == load_address(old(self)@.address, old(self)@.step, event),
            final(session)@ == load_advanced(
                old(session)@,
                old(self)@.media,
                old(self)@.address,
                old(self)@.step,
                event,
            ).0,
            final(self)@.step == load_advanced(
                old(session)@,
                old(self)@.media,
                old(self)@.address,
                old(self)@.step,
                event,
            ).1,
            release == load_advanced(
                old(session)@,
                old(self)@.media,
                old(self)@.address,
                old(self)@.step,
                event,
            ).2,
    {
        match self.step {
            LoadStep::ResolveStream => match event {
                LoadEvent::StreamResolved(stream) => {
                    self.address = Some(stream.url.clone());
                    session.media = Some(self.media.duplicate());
                    session.stream = Some(stream);
                    self.step = LoadStep::ClearRenderTarget;
                    None
                },
                _ => {
                    self.step = LoadStep::Failed(LoadError::StreamResolutionFailed);
                    None
                },
            },
            LoadStep::ClearRenderTarget => {
                self.step = LoadStep::AttachRenderTarget;
                None
            },
            LoadStep::AttachRenderTarget => {
                self.step = LoadStep::LoadMedia;
                None
            },
            LoadStep::LoadMedia => match event {
                LoadEvent::Failed => {
                    self.step = LoadStep::PlayerFailed;
                    None
                },
                _ => {
                    session.address = match &self.address {
                        Some(address) => Some(address.clone()),
                        None => None,
                    };
                    self.step = LoadStep::SetDisplayMetadata;
                    None
                },
            },
            LoadStep::SetDisplayMetadata => {
                self.step = LoadStep::Play;
                None
            },
            LoadStep::Play => match event {
                LoadEvent::Failed => {
                    self.step = LoadStep::PlayerFailed;
                    None
                },
                _ => {
                    self.step = LoadStep::AcquireInhibition;
                    session.playing = true;
                    session.inhibitor.begin_acquire()
                },
            },
            LoadStep::AcquireInhibition => {
                self.step = LoadStep::SchedulePopulation;
                match event {
                    LoadEvent::InhibitionAnswered(granted) => session.inhibition_answered(granted),
                    _ => None,
                }
            },
            LoadStep::SchedulePopulation => {
                self.step = LoadStep::StartMonitor;
                None
            },
            LoadStep::StartMonitor => {
                self.step = LoadStep::Finished;
                None
            },
            LoadStep::Finished => None,
            LoadStep::PlayerFailed => None,
            LoadStep::Failed(_) => None,
        }
    }
}

/// The steps of a load are taken strictly in order. Whatever the driver
/// reports, the step after it is the one that follows in the order, or the
/// load ends early. It ends with an error only where the backend resolves no
/// stream, and the error is `StreamResolutionFailed`. It stops without an
/// error only where the player fails to load or to play; the session is then
/// as it was before that step, and nothing is handed back for release. A
/// load that has ended stays as it is.
pub proof fn load_steps_in_order(
    session: SessionView,
    media: MediaItemView,
    address: Option<Seq<char>>,
    step: LoadStep,
    event: LoadEvent,
)
    ensures
        ({
            let after = load_advanced(session, media, address, step, event);
            let next = after.1;
            &&& next == following(step) || next is Failed || next is PlayerFailed
            &&& load_result(step) is Some ==> next == step
            &&& next is Failed && !(step is Failed) ==> step is ResolveStream && !(event
                is StreamResolved) && next == LoadStep::Failed(LoadError::StreamResolutionFailed)
            &&& next is PlayerFailed && !(step is PlayerFailed) ==> (step is LoadMedia || step
                is Play) && event is Failed && after.0 == session && after.2 is None
            &&& next is PlayerFailed ==> load_result(next) == Some(Ok::<(), LoadError>(()))
        }),
{
}

/// A load that goes through leaves the session playing, with the item, the
/// stream that the backend resolved for it and that stream's address, and
/// with the inhibition that the windowing system granted; the inhibition
/// that was held before is handed back when playback starts, before the new
/// one is requested.
pub proof fn load_goes_through(
    session: SessionView,
    media: MediaItemView,
    stream: StreamInfo,
    granted: Option<u32>,
)
    ensures
        ({
            let resolve = LoadEvent::StreamResolved(stream);
            let address = load_address(None, LoadStep::ResolveStream, resolve);
            let resolved = load_advanced(session, media, None, LoadStep::ResolveStream, resolve);
            let loaded = load_advanced(
                resolved.0,
                media,
                address,
                LoadStep::LoadMedia,
                LoadEvent::Done,
            );
            let played = load_advanced(loaded.0, media, address, LoadStep::Play, LoadEvent::Done);
            let answered = load_advanced(
                played.0,
                media,
                address,
                LoadStep::AcquireInhibition,
                LoadEvent::InhibitionAnswered(granted),
            );
            &&& resolved.2 is None
            &&& loaded.2 is None
            &&& played.2 == session.handle
            &&& answered.2 is None
            &&& answered.0 == (SessionView {
                media: Some(media),
                stream: Some(stream@),
                address: Some(stream@.url),
                seeking: session.seeking,
                handle: granted,
                playing: true,
            })
        }),
{
}

/// A load that fails at the backend leaves the session as it was: until the
/// stream is resolved nothing of the session changes, and nothing is handed
/// back for release.
pub proof fn failed_resolution_changes_nothing(
    session: SessionView,
    media: MediaItemView,
    address: Option<Seq<char>>,
    event: LoadEvent,
)
    requires
        !(event is StreamResolved),
    ensures
        load_advanced(session, media, address, LoadStep::ResolveStream, event) == (
            session,
            LoadStep::Failed(LoadError::StreamResolutionFailed),
            None::<u32>,
        ),
{
}

/// What happens to the inhibition of a session.
pub enum SessionCall {
    /// Playback was started or resumed.
    EnterPlaying,
    /// Playback was paused or stopped.
    LeavePlaying,
    /// The windowing system answered a request.
    Answer { granted: Option<u32> },
}

/// The session together with the handles that are live in the windowing system.
pub struct SessionWorld {
    pub session: SessionView,
    pub live: Set<u32>,
}

/// The effect of one call, where the driver releases every handle that is
/// handed back to it.
pub open spec fn world_after(world: SessionWorld, call: SessionCall) -> SessionWorld {
    match call {
        SessionCall::EnterPlaying => SessionWorld {
            session: entered_playing(world.session).0,
            live: releasing(world.live, entered_playing(world.session).1),
        },
        SessionCall::LeavePlaying => SessionWorld {
            session: left_playing(world.session).0,
            live: releasing(world.live, left_playing(world.session).1),
        },
        SessionCall::Answer { granted } => SessionWorld {
            session: inhibition_answered(world.session, granted).0,
            live: releasing(
                granting(world.live, granted),
                inhibition_answered(world.session, granted).1,
            ),
        },
    }
}

/// The effect of a sequence of calls on a fresh session, with nothing live.
pub open spec fn world_after_all(calls: Seq<SessionCall>) -> SessionWorld
    decreases calls.len(),
{
    if calls.len() == 0 {
        SessionWorld { session: fresh_session(), live: Set::empty() }
    } else {
        world_after(world_after_all(calls.drop_last()), calls.last())
    }
}

/// Whether the windowing system never grants a handle that is live already.
pub open spec fn grants_are_fresh(calls: Seq<SessionCall>) -> bool
    decreases calls.len(),
{
    calls.len() > 0 ==> {
        &&& grants_are_fresh(calls.drop_last())
        &&& calls.last() matches SessionCall::Answer { granted: Some(handle) }
            ==> !world_after_all(calls.drop_last()).live.contains(handle)
    }
}

/// However starts, pauses, stops and answers of the windowing system follow
/// one another: the live handles are exactly the one that the session holds,
/// so at most one; none is live unless the session plays; and a handle that
/// is granted to a session that plays is live from then on.
pub proof fn session_inhibition_is_exclusive(calls: Seq<SessionCall>)
    requires
        grants_are_fresh(calls),
    ensures
        world_after_all(calls).live == only(world_after_all(calls).session.handle),
        world_after_all(calls).live.finite(),
        world_after_all(calls).live.len() <= 1,
        !world_after_all(calls).session.playing ==> world_after_all(calls).live.len() == 0,
        forall|handle: u32|
            calls.len() > 0 && calls.last() == (SessionCall::Answer { granted: Some(handle) })
                && world_after_all(calls).session.playing ==> world_after_all(calls).live.contains(
                handle,
            ),
    decreases calls.len(),
{
    if calls.len() > 0 {
        let before = world_after_all(calls.drop_last());
        session_inhibition_is_exclusive(calls.drop_last());
        let after = world_after(before, calls.last());
        assert(after.live =~= only(after.session.handle));
    }
    let held = world_after_all(calls).session.handle;
    match held {
        Some(handle) => {
            assert(only(held) =~= Set::<u32>::empty().insert(handle));
        },
        None => {},
    }
}

} // verus!

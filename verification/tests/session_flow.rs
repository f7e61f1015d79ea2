use playback_session::media::{MediaItem, QualityOption, Resolution, StreamInfo};
use playback_session::player::{CommandOutcome, TransportCommand};
use playback_session::quality::SwitchCommand;
use playback_session::seek::{DragCommand, DragEvent, DragPhase, DragSeek};
use playback_session::session::{
    InhibitionChange, LoadError, LoadEvent, LoadRun, LoadStep, PlaybackSession,
    POPULATE_DELAY_MILLIS,
};
use playback_session::time::MediaTime;

fn item() -> MediaItem {
    MediaItem::new(String::from("movie-1"), String::from("A Movie"))
}

fn stream() -> StreamInfo {
    StreamInfo {
        url: String::from("http://server/direct"),
        resolution: Resolution { width: 1280, height: 720 },
        bitrate: 4_000_000,
        video_codec: String::from("hevc"),
        quality_options: vec![
            QualityOption::new(String::from("Direct"), String::from("http://server/o"), false),
            QualityOption::new(String::from("480p"), String::from("http://server/480"), true),
        ],
    }
}

/// Drives a load in which every step succeeds and the system grants `granted`.
fn load(session: &mut PlaybackSession, granted: Option<u32>) -> (Vec<LoadStep>, Vec<Option<u32>>) {
    let mut run = LoadRun::begin(item(), true).expect("a backend is active");
    let mut steps = Vec::new();
    let mut releases = Vec::new();
    while run.result().is_none() {
        steps.push(run.step());
        let event = match run.step() {
            LoadStep::ResolveStream => LoadEvent::StreamResolved(stream()),
            LoadStep::AcquireInhibition => LoadEvent::InhibitionAnswered(granted),
            _ => LoadEvent::Done,
        };
        releases.push(run.advance(session, event));
    }
    assert_eq!(run.result(), Some(Ok(())));
    (steps, releases)
}

#[test]
fn fresh_session_is_empty() {
    let session = PlaybackSession::new();
    assert!(session.media().is_none());
    assert!(session.stream().is_none());
    assert!(session.address().is_none());
    assert!(!session.is_playing());
    assert!(!session.is_seeking());
    assert_eq!(session.inhibition(), None);
}

#[test]
fn load_takes_its_steps_in_order() {
    let mut session = PlaybackSession::new();
    let (steps, releases) = load(&mut session, Some(11));
    assert_eq!(
        steps,
        vec![
            LoadStep::ResolveStream,
            LoadStep::ClearRenderTarget,
            LoadStep::AttachRenderTarget,
            LoadStep::LoadMedia,
            LoadStep::SetDisplayMetadata,
            LoadStep::Play,
            LoadStep::AcquireInhibition,
            LoadStep::SchedulePopulation,
            LoadStep::StartMonitor,
        ]
    );
    assert!(releases.iter().all(|r| r.is_none()));
    assert_eq!(POPULATE_DELAY_MILLIS, 500);
}

#[test]
fn load_stores_item_and_stream_and_plays_inhibited() {
    let mut session = PlaybackSession::new();
    load(&mut session, Some(11));
    let media = session.media().expect("an item");
    assert_eq!(media.id, "movie-1");
    assert_eq!(media.title, "A Movie");
    let info = session.stream().expect("a stream");
    assert_eq!(info.url, "http://server/direct");
    assert_eq!(info.resolution, Resolution { width: 1280, height: 720 });
    assert_eq!(info.bitrate, 4_000_000);
    assert_eq!(info.video_codec, "hevc");
    assert_eq!(info.quality_options.len(), 2);
    assert_eq!(info.quality_options[1].url, "http://server/480");
    assert_eq!(session.address().map(String::as_str), Some("http://server/direct"));
    assert!(session.is_playing());
    assert_eq!(session.inhibition(), Some(11));
}

#[test]
fn load_without_a_backend_fails_at_once() {
    assert_eq!(LoadRun::begin(item(), false).err(), Some(LoadError::BackendUnavailable));
}

#[test]
fn load_run_begins_with_the_resolution() {
    let run = LoadRun::begin(item(), true).expect("a backend is active");
    assert_eq!(run.step(), LoadStep::ResolveStream);
    assert_eq!(run.media().id, "movie-1");
    assert_eq!(run.address(), None);
    assert_eq!(run.result(), None);
}

#[test]
fn load_hands_the_resolved_address_to_the_player() {
    let mut session = PlaybackSession::new();
    let mut run = LoadRun::begin(item(), true).expect("a backend is active");
    run.advance(&mut session, LoadEvent::StreamResolved(stream()));
    assert_eq!(run.address().map(String::as_str), Some("http://server/direct"));
    run.advance(&mut session, LoadEvent::Done);
    run.advance(&mut session, LoadEvent::Done);
    assert_eq!(run.step(), LoadStep::LoadMedia);
    assert_eq!(run.address().map(String::as_str), Some("http://server/direct"));
    // A stream that turns up later does not change the address.
    let mut other = stream();
    other.url = String::from("http://server/other");
    run.advance(&mut session, LoadEvent::StreamResolved(other));
    assert_eq!(run.address().map(String::as_str), Some("http://server/direct"));
    assert_eq!(session.stream().expect("a stream").url, "http://server/direct");
}

#[test]
fn failed_resolution_leaves_the_session_as_it_was() {
    let mut session = PlaybackSession::new();
    load(&mut session, Some(11));
    let other = MediaItem::new(String::from("movie-2"), String::from("Another"));
    let mut run = LoadRun::begin(other, true).expect("a backend is active");
    assert_eq!(run.advance(&mut session, LoadEvent::Failed), None);
    assert_eq!(run.step(), LoadStep::Failed(LoadError::StreamResolutionFailed));
    assert_eq!(run.result(), Some(Err(LoadError::StreamResolutionFailed)));
    assert_eq!(session.media().expect("the first item").id, "movie-1");
    assert_eq!(session.stream().expect("the first stream").url, "http://server/direct");
    assert!(session.is_playing());
    assert_eq!(session.inhibition(), Some(11));
    // A load that has ended stays as it is.
    assert_eq!(run.advance(&mut session, LoadEvent::StreamResolved(stream())), None);
    assert_eq!(run.result(), Some(Err(LoadError::StreamResolutionFailed)));
    assert_eq!(session.media().expect("the first item").id, "movie-1");
}

#[test]
fn resolution_answered_without_a_stream_counts_as_failed() {
    let mut session = PlaybackSession::new();
    let mut run = LoadRun::begin(item(), true).expect("a backend is active");
    run.advance(&mut session, LoadEvent::Done);
    assert_eq!(run.result(), Some(Err(LoadError::StreamResolutionFailed)));
    assert!(session.media().is_none());
    assert!(session.stream().is_none());
}

#[test]
fn load_stops_without_an_error_when_the_player_cannot_load() {
    let mut session = PlaybackSession::new();
    let mut run = LoadRun::begin(item(), true).expect("a backend is active");
    run.advance(&mut session, LoadEvent::StreamResolved(stream()));
    run.advance(&mut session, LoadEvent::Done);
    run.advance(&mut session, LoadEvent::Done);
    assert_eq!(run.step(), LoadStep::LoadMedia);
    assert_eq!(run.advance(&mut session, LoadEvent::Failed), None);
    assert_eq!(run.step(), LoadStep::PlayerFailed);
    assert_eq!(run.result(), Some(Ok(())));
    assert!(!session.is_playing());
    assert_eq!(session.inhibition(), None);
    assert_eq!(session.media().expect("the item").id, "movie-1");
    assert!(session.address().is_none());
}

#[test]
fn load_stops_without_an_error_when_the_player_cannot_play() {
    let mut session = PlaybackSession::new();
    let mut run = LoadRun::begin(item(), true).expect("a backend is active");
    run.advance(&mut session, LoadEvent::StreamResolved(stream()));
    for _ in 0..4 {
        run.advance(&mut session, LoadEvent::Done);
    }
    assert_eq!(run.step(), LoadStep::Play);
    run.advance(&mut session, LoadEvent::Failed);
    assert_eq!(run.step(), LoadStep::PlayerFailed);
    assert_eq!(run.result(), Some(Ok(())));
    assert!(!session.is_playing());
    assert_eq!(session.inhibition(), None);
}

#[test]
fn second_load_releases_the_first_inhibition() {
    let mut session = PlaybackSession::new();
    load(&mut session, Some(11));
    let (steps, releases) = load(&mut session, Some(12));
    // The old handle goes back when playback starts, before the new request.
    let play = steps.iter().position(|s| *s == LoadStep::Play).expect("a play step");
    assert_eq!(releases[play], Some(11));
    assert_eq!(releases.iter().filter(|r| r.is_some()).count(), 1);
    assert_eq!(session.inhibition(), Some(12));
}

#[test]
fn load_without_a_grant_plays_uninhibited() {
    let mut session = PlaybackSession::new();
    load(&mut session, None);
    assert!(session.is_playing());
    assert_eq!(session.inhibition(), None);
}

#[test]
fn play_button_pauses_and_resumes() {
    let mut session = PlaybackSession::new();
    load(&mut session, Some(11));
    assert_eq!(session.toggle_command(), TransportCommand::Pause);
    assert_eq!(
        session.toggled(CommandOutcome::Succeeded),
        InhibitionChange { release: Some(11), request: false }
    );
    assert!(!session.is_playing());
    assert_eq!(session.inhibition(), None);
    assert_eq!(session.toggle_command(), TransportCommand::Play);
    assert_eq!(
        session.toggled(CommandOutcome::Succeeded),
        InhibitionChange { release: None, request: true }
    );
    assert!(session.is_playing());
    assert_eq!(session.inhibition_answered(Some(12)), None);
    assert_eq!(session.inhibition(), Some(12));
}

#[test]
fn failed_command_of_the_play_button_changes_nothing() {
    let mut session = PlaybackSession::new();
    load(&mut session, Some(11));
    assert_eq!(
        session.toggled(CommandOutcome::Failed),
        InhibitionChange { release: None, request: false }
    );
    assert!(session.is_playing());
    assert_eq!(session.inhibition(), Some(11));
    assert_eq!(session.toggle_command(), TransportCommand::Pause);
}

#[test]
fn stop_releases_the_inhibition_and_keeps_item_and_stream() {
    let mut session = PlaybackSession::new();
    load(&mut session, Some(11));
    assert_eq!(session.stopped(), Some(11));
    assert!(!session.is_playing());
    assert_eq!(session.inhibition(), None);
    assert_eq!(session.media().expect("the item").id, "movie-1");
    assert!(session.stream().is_some());
    assert_eq!(session.stopped(), None);
}

#[test]
fn grant_that_arrives_after_a_pause_goes_back() {
    let mut session = PlaybackSession::new();
    let change = session.toggled(CommandOutcome::Succeeded);
    assert!(change.request);
    // The user pauses before the windowing system has answered.
    session.toggled(CommandOutcome::Succeeded);
    assert_eq!(session.inhibition_answered(Some(21)), Some(21));
    assert_eq!(session.inhibition(), None);
    assert!(!session.is_playing());
}

#[test]
fn later_grant_supersedes_an_earlier_one() {
    let mut session = PlaybackSession::new();
    session.toggled(CommandOutcome::Succeeded);
    assert_eq!(session.inhibition_answered(Some(1)), None);
    assert_eq!(session.inhibition_answered(Some(2)), Some(1));
    assert_eq!(session.inhibition(), Some(2));
    assert_eq!(session.inhibition_answered(None), None);
    assert_eq!(session.inhibition(), Some(2));
}

#[test]
fn inhibition_follows_playing_over_a_long_sequence() {
    let mut live: Vec<u32> = Vec::new();
    let mut next: u32 = 0;
    let mut session = PlaybackSession::new();
    for round in 0..12u32 {
        let change = if round % 5 == 4 {
            InhibitionChange { release: session.stopped(), request: false }
        } else {
            session.toggled(CommandOutcome::Succeeded)
        };
        if let Some(stale) = change.release {
            live.retain(|h| *h != stale);
        }
        if change.request {
            next += 1;
            live.push(next);
            if let Some(stale) = session.inhibition_answered(Some(next)) {
                live.retain(|h| *h != stale);
            }
        }
        assert!(live.len() <= 1);
        assert_eq!(live.first().copied(), session.inhibition());
        assert_eq!(session.inhibition().is_some(), session.is_playing());
    }
}

#[test]
fn drag_seek_holds_the_seek_gate_shut_until_it_has_settled() {
    let mut session = PlaybackSession::new();
    let mut run = session.begin_drag(500_000);
    assert!(session.is_seeking());
    assert!(session.gate().is_seeking());
    assert_eq!(DragSeek::first_command(), DragCommand::ReadDuration);
    let read = DragEvent::Duration(Some(MediaTime::from_secs(90)));
    assert_eq!(
        session.advance_drag(&mut run, read),
        Some(DragCommand::Seek(MediaTime::from_secs(45)))
    );
    assert!(session.is_seeking());
    assert_eq!(
        session.advance_drag(&mut run, DragEvent::Sought(CommandOutcome::Succeeded)),
        Some(DragCommand::Settle { millis: 100 })
    );
    assert!(session.is_seeking());
    assert_eq!(session.advance_drag(&mut run, DragEvent::Settled), Some(DragCommand::Finish));
    assert!(!session.is_seeking());
    assert!(!session.gate().is_seeking());
    assert_eq!(run.phase(), DragPhase::Ended);
}

#[test]
fn drag_seek_opens_the_seek_gate_although_the_seek_failed() {
    let mut session = PlaybackSession::new();
    let mut run = session.begin_drag(250_000);
    session.advance_drag(&mut run, DragEvent::Duration(Some(MediaTime::from_secs(40))));
    assert_eq!(
        session.advance_drag(&mut run, DragEvent::Sought(CommandOutcome::Failed)),
        Some(DragCommand::Settle { millis: 100 })
    );
    assert!(session.is_seeking());
    assert_eq!(session.advance_drag(&mut run, DragEvent::Settled), Some(DragCommand::Finish));
    assert!(!session.is_seeking());
}

#[test]
fn drag_seek_without_a_duration_seeks_nowhere_and_opens_the_seek_gate() {
    let mut session = PlaybackSession::new();
    let mut run = session.begin_drag(250_000);
    assert_eq!(
        session.advance_drag(&mut run, DragEvent::Duration(None)),
        Some(DragCommand::Settle { millis: 100 })
    );
    assert!(session.is_seeking());
    assert_eq!(session.advance_drag(&mut run, DragEvent::Settled), Some(DragCommand::Finish));
    assert!(!session.is_seeking());
}

#[test]
fn drag_seek_leaves_the_rest_of_the_session() {
    let mut session = PlaybackSession::new();
    load(&mut session, Some(11));
    let mut run = session.begin_drag(0);
    session.advance_drag(&mut run, DragEvent::Duration(None));
    session.advance_drag(&mut run, DragEvent::Settled);
    assert!(session.is_playing());
    assert_eq!(session.inhibition(), Some(11));
    assert_eq!(session.media().expect("the item").id, "movie-1");
    assert_eq!(session.address().map(String::as_str), Some("http://server/direct"));
}

#[test]
fn quality_switch_takes_the_address_of_the_option() {
    let mut session = PlaybackSession::new();
    load(&mut session, Some(11));
    let at = Some(MediaTime::from_secs(120));
    let mut switch = session.begin_quality_switch(1, at).expect("an option at 1");
    assert_eq!(switch.url(), "http://server/480");
    assert_eq!(switch.step(CommandOutcome::Succeeded), SwitchCommand::Seek(MediaTime::from_secs(120)));
    assert_eq!(switch.step(CommandOutcome::Succeeded), SwitchCommand::Play);
}

#[test]
fn quality_switch_of_a_paused_session_does_not_resume() {
    let mut session = PlaybackSession::new();
    load(&mut session, Some(11));
    session.toggled(CommandOutcome::Succeeded);
    let mut switch =
        session.begin_quality_switch(0, Some(MediaTime::from_secs(5))).expect("an option at 0");
    assert_eq!(switch.url(), "http://server/o");
    assert_eq!(switch.step(CommandOutcome::Succeeded), SwitchCommand::Seek(MediaTime::from_secs(5)));
    assert_eq!(switch.step(CommandOutcome::Succeeded), SwitchCommand::Finish);
}

#[test]
fn quality_switch_changes_the_address_and_not_the_stream() {
    let mut session = PlaybackSession::new();
    load(&mut session, Some(11));
    let mut switch = session.begin_quality_switch(1, None).expect("an option at 1");
    // Nothing has been loaded yet.
    session.quality_switched(&switch);
    assert_eq!(session.address().map(String::as_str), Some("http://server/direct"));
    switch.step(CommandOutcome::Succeeded);
    session.quality_switched(&switch);
    assert_eq!(session.address().map(String::as_str), Some("http://server/480"));
    assert_eq!(session.stream().expect("the stream").url, "http://server/direct");
    switch.step(CommandOutcome::Failed);
    session.quality_switched(&switch);
    assert_eq!(session.address().map(String::as_str), Some("http://server/480"));
}

#[test]
fn quality_switch_that_is_given_up_leaves_the_address() {
    let mut session = PlaybackSession::new();
    load(&mut session, Some(11));
    let mut switch = session.begin_quality_switch(1, None).expect("an option at 1");
    switch.step(CommandOutcome::Failed);
    session.quality_switched(&switch);
    assert_eq!(session.address().map(String::as_str), Some("http://server/direct"));
}

#[test]
fn no_quality_switch_without_a_stream_or_an_option() {
    let mut session = PlaybackSession::new();
    assert!(session.begin_quality_switch(0, None).is_none());
    load(&mut session, Some(11));
    assert!(session.begin_quality_switch(2, None).is_none());
    assert!(session.begin_quality_switch(usize::MAX, None).is_none());
}

#[test]
fn item_can_be_duplicated() {
    let copy = item().duplicate();
    assert_eq!(copy.id, "movie-1");
    assert_eq!(copy.title, "A Movie");
}

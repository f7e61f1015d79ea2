use playback_session::menu::{scoped_name, MenuEntry, Selector, ACTION_SCOPE};
use playback_session::player::PlaybackState;
use playback_session::tracks::{
    audio_action_text, audio_selector, lacks_subtitles, subtitle_action_text, subtitle_selector,
    track_action_list, Track, TrackCatalog, TrackCommand, DISABLED_TRACK, NO_AUDIO_TRACKS,
    NO_SUBTITLES,
};

fn track(index: i32, name: &str) -> Track {
    Track::new(index, String::from(name))
}

fn lines(selector: &Selector) -> Vec<(String, Option<String>)> {
    selector.entries.iter().map(|e: &MenuEntry| (e.label.clone(), e.action.clone())).collect()
}

fn line(label: &str, action: Option<&str>) -> (String, Option<String>) {
    (String::from(label), action.map(String::from))
}

#[test]
fn action_names_carry_the_index() {
    assert_eq!(audio_action_text(0), "set-audio-track-0");
    assert_eq!(audio_action_text(12), "set-audio-track-12");
    assert_eq!(audio_action_text(-1), "set-audio-track--1");
    assert_eq!(subtitle_action_text(3), "set-subtitle-track-3");
    assert_eq!(subtitle_action_text(-1), "disable-subtitles");
    assert_eq!(subtitle_action_text(-7), "disable-subtitles");
}

#[test]
fn scoped_names_start_with_the_scope() {
    assert_eq!(ACTION_SCOPE, "player");
    assert_eq!(scoped_name(&String::from("set-audio-track-1")), "player.set-audio-track-1");
    assert_eq!(scoped_name(&String::new()), "player.");
}

#[test]
fn audio_selector_lists_the_tracks() {
    let tracks = vec![track(0, "English"), track(1, "Deutsch")];
    let selector = audio_selector(&tracks);
    assert!(selector.enabled);
    assert_eq!(
        lines(&selector),
        vec![
            line("English", Some("player.set-audio-track-0")),
            line("Deutsch", Some("player.set-audio-track-1")),
        ]
    );
}

#[test]
fn audio_selector_without_tracks_is_disabled() {
    let selector = audio_selector(&Vec::new());
    assert!(!selector.enabled);
    assert_eq!(lines(&selector), vec![line("No audio tracks available", None)]);
    assert_eq!(NO_AUDIO_TRACKS, "No audio tracks available");
}

#[test]
fn subtitle_selector_lists_the_tracks_and_the_way_to_switch_them_off() {
    let tracks = vec![track(-1, "None"), track(0, "English"), track(2, "Español")];
    let selector = subtitle_selector(&tracks);
    assert!(selector.enabled);
    assert_eq!(
        lines(&selector),
        vec![
            line("None", Some("player.disable-subtitles")),
            line("English", Some("player.set-subtitle-track-0")),
            line("Español", Some("player.set-subtitle-track-2")),
        ]
    );
}

#[test]
fn subtitle_selector_with_nothing_but_off_is_disabled() {
    assert_eq!(DISABLED_TRACK, -1);
    let selector = subtitle_selector(&vec![track(-1, "None")]);
    assert!(!selector.enabled);
    assert_eq!(lines(&selector), vec![line("No subtitles available", None)]);
    assert_eq!(NO_SUBTITLES, "No subtitles available");
    let empty = subtitle_selector(&Vec::new());
    assert!(!empty.enabled);
    assert_eq!(lines(&empty), vec![line("No subtitles available", None)]);
}

#[test]
fn one_real_subtitle_track_enables_the_selector() {
    assert!(lacks_subtitles(&Vec::new()));
    assert!(lacks_subtitles(&vec![track(-1, "None")]));
    assert!(!lacks_subtitles(&vec![track(0, "English")]));
    assert!(!lacks_subtitles(&vec![track(-2, "Other")]));
    assert!(!lacks_subtitles(&vec![track(-1, "None"), track(-1, "None")]));
    let selector = subtitle_selector(&vec![track(0, "English")]);
    assert!(selector.enabled);
    assert_eq!(lines(&selector), vec![line("English", Some("player.set-subtitle-track-0"))]);
}

#[test]
fn actions_select_the_tracks() {
    let audio = vec![track(0, "English"), track(5, "Commentary")];
    let subtitles = vec![track(-1, "None"), track(1, "English")];
    let actions = track_action_list(&audio, &subtitles);
    let got: Vec<(String, TrackCommand)> =
        actions.iter().map(|a| (a.name.clone(), a.command)).collect();
    assert_eq!(
        got,
        vec![
            (String::from("set-audio-track-0"), TrackCommand::SetAudioTrack(0)),
            (String::from("set-audio-track-5"), TrackCommand::SetAudioTrack(5)),
            (String::from("disable-subtitles"), TrackCommand::SetSubtitleTrack(-1)),
            (String::from("set-subtitle-track-1"), TrackCommand::SetSubtitleTrack(1)),
        ]
    );
}

#[test]
fn every_negative_subtitle_index_switches_subtitles_off() {
    let actions = track_action_list(&Vec::new(), &vec![track(-5, "Off")]);
    assert_eq!(actions.len(), 1);
    assert_eq!(actions[0].name, "disable-subtitles");
    assert_eq!(actions[0].command, TrackCommand::SetSubtitleTrack(-1));
}

#[test]
fn actions_are_registered_for_the_off_track_alone() {
    // The selector shows a placeholder, the action is there all the same.
    let subtitles = vec![track(-1, "None")];
    let mut catalog = TrackCatalog::new();
    catalog.populate(&PlaybackState::Playing, &Vec::new(), &subtitles);
    assert!(!catalog.subtitles.enabled);
    assert_eq!(catalog.actions.len(), 1);
    assert_eq!(catalog.actions[0].name, "disable-subtitles");
}

#[test]
fn fresh_catalog_is_empty_and_disabled() {
    let catalog = TrackCatalog::new();
    assert!(!catalog.audio.enabled);
    assert!(!catalog.subtitles.enabled);
    assert!(catalog.actions.is_empty());
    assert_eq!(lines(&catalog.audio), vec![line("No audio tracks available", None)]);
    assert_eq!(lines(&catalog.subtitles), vec![line("No subtitles available", None)]);
}

#[test]
fn catalog_is_empty_before_the_player_is_ready_and_full_afterwards() {
    let audio = vec![track(0, "English"), track(1, "Deutsch")];
    let subtitles = vec![track(-1, "None"), track(0, "English")];
    let mut catalog = TrackCatalog::new();
    for state in [
        PlaybackState::Idle,
        PlaybackState::Loading,
        PlaybackState::Stopped,
        PlaybackState::Error(String::from("x")),
    ] {
        catalog.populate(&state, &audio, &subtitles);
        assert!(!catalog.audio.enabled);
        assert!(!catalog.subtitles.enabled);
        assert!(catalog.actions.is_empty());
        assert_eq!(lines(&catalog.audio), vec![line("No audio tracks available", None)]);
        assert_eq!(lines(&catalog.subtitles), vec![line("No subtitles available", None)]);
    }
    catalog.populate(&PlaybackState::Playing, &audio, &subtitles);
    assert!(catalog.audio.enabled);
    assert!(catalog.subtitles.enabled);
    assert_eq!(catalog.audio.entries.len(), 2);
    assert_eq!(catalog.subtitles.entries.len(), 2);
    assert_eq!(catalog.actions.len(), 4);
    assert_eq!(catalog.audio.entries[1].label, "Deutsch");
}

#[test]
fn population_replaces_what_was_there() {
    let mut catalog = TrackCatalog::new();
    let first = vec![track(0, "English"), track(1, "Deutsch"), track(2, "Français")];
    catalog.populate(&PlaybackState::Playing, &first, &Vec::new());
    assert_eq!(catalog.actions.len(), 3);
    let second = vec![track(7, "Commentary")];
    catalog.populate(&PlaybackState::Paused, &second, &Vec::new());
    assert_eq!(catalog.actions.len(), 1);
    assert_eq!(catalog.actions[0].name, "set-audio-track-7");
    assert_eq!(lines(&catalog.audio), vec![line("Commentary", Some("player.set-audio-track-7"))]);
    // The same population again gives the same catalog.
    catalog.populate(&PlaybackState::Paused, &second, &Vec::new());
    assert_eq!(catalog.actions.len(), 1);
    assert_eq!(lines(&catalog.audio), vec![line("Commentary", Some("player.set-audio-track-7"))]);
    catalog.populate(&PlaybackState::Idle, &second, &Vec::new());
    assert!(catalog.actions.is_empty());
}

#[test]
fn tracks_can_be_discovered_while_playing_or_paused() {
    assert!(PlaybackState::Playing.can_discover_tracks());
    assert!(PlaybackState::Paused.can_discover_tracks());
    assert!(!PlaybackState::Idle.can_discover_tracks());
    assert!(!PlaybackState::Loading.can_discover_tracks());
    assert!(!PlaybackState::Stopped.can_discover_tracks());
    assert!(!PlaybackState::Error(String::new()).can_discover_tracks());
}

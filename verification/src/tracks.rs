//! The track catalog: the audio and subtitle tracks that the player offers,
//! the menus that show them, and the actions that select them.
//!
//! The catalog is rebuilt whole on every population: nothing of an earlier
//! population survives.

use crate::media::views;
use crate::menu::{placeholder_menu, scoped, scoped_name, MenuEntry, MenuEntryView, Selector, SelectorView};
use crate::player::PlaybackState;
use crate::text::{push_signed_decimal, signed_decimal};
use vstd::prelude::*;
use vstd::string::*;

verus! {

/// The track index that stands for "no track": subtitles switched off.
pub const DISABLED_TRACK: i32 = -1;

/// The line that the audio menu shows where the player offers no audio track.
pub const NO_AUDIO_TRACKS: &'static str = "No audio tracks available";

/// The line that the subtitle menu shows where the player offers no subtitles.
pub const NO_SUBTITLES: &'static str = "No subtitles available";

/// A track that the player offers.
#[derive(Debug)]
pub struct Track {
    pub index: i32,
    pub name: String,
}

/// A track as contracts see it.
pub struct TrackView {
    pub index: i32,
    pub name: Seq<char>,
}

impl View for Track {
    type V = TrackView;

    open spec fn view(&self) -> TrackView {
        TrackView { index: self.index, name: self.name@ }
    }
}

impl Track {
    pub fn new(index: i32, name: String) -> (track: Track)
        ensures
            track@.index == index,
            track@.name == name@,
    {
        Track { index, name }
    }
}

/// The command that an action sends to the player.
#[derive(Clone, Copy, Debug, PartialEq, Eq, Structural)]
pub enum TrackCommand {
    SetAudioTrack(i32),
    /// `DISABLED_TRACK` switches the subtitles off.
    SetSubtitleTrack(i32),
}

/// An action of the controls: its name within the scope, and what it does.
#[derive(Debug)]
pub struct TrackAction {
    pub name: String,
    pub command: TrackCommand,
}

/// An action as contracts see it.
pub struct TrackActionView {
    pub name: Seq<char>,
    pub command: TrackCommand,
}

impl View for TrackAction {
    type V = TrackActionView;

    open spec fn view(&self) -> TrackActionView {
        TrackActionView { name: self.name@, command: self.command }
    }
}

/// The name of the action that selects the audio track `index`.
pub open spec fn audio_action_name(index: i32) -> Seq<char> {
    "set-audio-track-"@ + signed_decimal(index as int)
}

/// The name of the action that selects the subtitle track `index`; every
/// negative index names the one action that switches subtitles off.
pub open spec fn subtitle_action_name(index: i32) -> Seq<char> {
    if index < 0 {
        "disable-subtitles"@
    } else {
        "set-subtitle-track-"@ + signed_decimal(index as int)
    }
}

/// The action that selects an audio track.
pub open spec fn audio_action(track: TrackView) -> TrackActionView {
    TrackActionView {
        name: audio_action_name(track.index),
        command: TrackCommand::SetAudioTrack(track.index),
    }
}

/// The action that selects a subtitle track, or switches subtitles off for a
/// track with a negative index.
pub open spec fn subtitle_action(track: TrackView) -> TrackActionView {
    TrackActionView {
        name: subtitle_action_name(track.index),
        command: TrackCommand::SetSubtitleTrack(
            if track.index < 0 {
                DISABLED_TRACK
            } else {
                track.index
            },
        ),
    }
}

/// The menu entry of an audio track.
pub open spec fn audio_entry(track: TrackView) -> MenuEntryView {
    MenuEntryView { label: track.name, action: Some(scoped(audio_action_name(track.index))) }
}

/// The menu entry of a subtitle track.
pub open spec fn subtitle_entry(track: TrackView) -> MenuEntryView {
    MenuEntryView { label: track.name, action: Some(scoped(subtitle_action_name(track.index))) }
}

/// The audio selector for the tracks `tracks`: one entry for each, in order;
/// with no track, a placeholder and a disabled selector.
pub open spec fn audio_menu(tracks: Seq<TrackView>) -> SelectorView {
    if tracks.len() == 0 {
        SelectorView { entries: placeholder_menu(NO_AUDIO_TRACKS@), enabled: false }
    } else {
        SelectorView {
            entries: Seq::new(tracks.len(), |i: int| audio_entry(tracks[i])),
            enabled: true,
        }
    }
}

/// Whether `tracks` offers no subtitles to choose from: it is empty, or holds
/// nothing but the track that stands for "off".
pub open spec fn no_subtitles(tracks: Seq<TrackView>) -> bool {
    tracks.len() == 0 || (tracks.len() == 1 && tracks[0].index == DISABLED_TRACK)
}

/// The subtitle selector for the tracks `tracks`: one entry for each, in
/// order; with no subtitles to choose from, a placeholder and a disabled selector.
pub open spec fn subtitle_menu(tracks: Seq<TrackView>) -> SelectorView {
    if no_subtitles(tracks) {
        SelectorView { entries: placeholder_menu(NO_SUBTITLES@), enabled: false }
    } else {
        SelectorView {
            entries: Seq::new(tracks.len(), |i: int| subtitle_entry(tracks[i])),
            enabled: true,
        }
    }
}

/// The actions for the tracks: one for each audio track, then one for each
/// subtitle track, in order.
pub open spec fn track_actions(audio: Seq<TrackView>, subtitles: Seq<TrackView>) -> Seq<
    TrackActionView,
> {
    Seq::new(audio.len(), |i: int| audio_action(audio[i])) + Seq::new(
        subtitles.len(),
        |i: int| subtitle_action(subtitles[i]),
    )
}

/// The catalog as contracts see it.
pub struct TrackCatalogView {
    pub audio: SelectorView,
    pub subtitles: SelectorView,
    pub actions: Seq<TrackActionView>,
}

/// The catalog for the tracks that the player reports. Before the player can
/// discover tracks, whatever it reports counts as no track at all.
pub open spec fn catalog_of(
    ready: bool,
    audio: Seq<TrackView>,
    subtitles: Seq<TrackView>,
) -> TrackCatalogView {
    if ready {
        TrackCatalogView {
            audio: audio_menu(audio),
            subtitles: subtitle_menu(subtitles),
            actions: track_actions(audio, subtitles),
        }
    } else {
        TrackCatalogView {
            audio: audio_menu(Seq::empty()),
            subtitles: subtitle_menu(Seq::empty()),
            actions: track_actions(Seq::empty(), Seq::empty()),
        }
    }
}

/// Population before the player can discover tracks gives an empty catalog
/// with both selectors disabled, whatever the player reports. Population
/// afterwards gives every track that the player reports, in order, with the
/// action that selects it: the audio selector is enabled where there is an
/// audio track, the subtitle selector where there are subtitles to choose from.
pub proof fn catalog_empty_before_ready(audio: Seq<TrackView>, subtitles: Seq<TrackView>)
    ensures
        catalog_of(false, audio, subtitles).audio == (SelectorView {
            entries: placeholder_menu(NO_AUDIO_TRACKS@),
            enabled: false,
        }),
        catalog_of(false, audio, subtitles).subtitles == (SelectorView {
            entries: placeholder_menu(NO_SUBTITLES@),
            enabled: false,
        }),
        catalog_of(false, audio, subtitles).actions.len() == 0,
        catalog_of(true, audio, subtitles).audio.enabled <==> audio.len() > 0,
        catalog_of(true, audio, subtitles).subtitles.enabled <==> !no_subtitles(subtitles),
        audio.len() > 0 ==> catalog_of(true, audio, subtitles).audio.entries.len() == audio.len(),
        forall|i: int|
            0 <= i < audio.len() ==> #[trigger] catalog_of(true, audio, subtitles).audio.entries[i]
                == audio_entry(audio[i]),
        !no_subtitles(subtitles) ==> catalog_of(true, audio, subtitles).subtitles.entries.len()
            == subtitles.len(),
        forall|i: int|
            0 <= i < subtitles.len() && !no_subtitles(subtitles) ==> #[trigger] catalog_of(
                true,
                audio,
                subtitles,
            ).subtitles.entries[i] == subtitle_entry(subtitles[i]),
        catalog_of(true, audio, subtitles).actions.len() == audio.len() + subtitles.len(),
        forall|i: int|
            0 <= i < audio.len() ==> #[trigger] catalog_of(true, audio, subtitles).actions[i]
                == audio_action(audio[i]),
        forall|i: int|
            0 <= i < subtitles.len() ==> #[trigger] catalog_of(true, audio, subtitles).actions[audio.len()
                + i] == subtitle_action(subtitles[i]),
{
}

/// The name of the action that selects the audio track `index`.
pub fn audio_action_text(index: i32) -> (name: String)
    ensures
        name@ == audio_action_name(index),
{
    let mut name = String::from_str("set-audio-track-");
    push_signed_decimal(&mut name, index);
    name
}

/// The name of the action that selects the subtitle track `index`.
pub fn subtitle_action_text(index: i32) -> (name: String)
    ensures
        name@ == subtitle_action_name(index),
{
    if index < 0 {
        String::from_str("disable-subtitles")
    } else {
        let mut name = String::from_str("set-subtitle-track-");
        push_signed_decimal(&mut name, index);
        name
    }
}

fn placeholder(text: &'static str) -> (selector: Selector)
    ensures
        selector@ == (SelectorView { entries: placeholder_menu(text@), enabled: false }),
{
    let mut entries: Vec<MenuEntry> = Vec::new();
    entries.push(MenuEntry { label: String::from_str(text), action: None });
    assert(views(entries@) =~= placeholder_menu(text@));
    Selector { entries, enabled: false }
}

/// The audio selector for the tracks that the player reports.
pub fn audio_selector(tracks: &Vec<Track>) -> (selector: Selector)
    ensures
        selector@ == audio_menu(views(tracks@)),
{
    if tracks.len() == 0 {
        return placeholder(NO_AUDIO_TRACKS);
    }
    let mut entries: Vec<MenuEntry> = Vec::new();
    let mut i: usize = 0;
    while i < tracks.len()
        invariant
            i <= tracks.len(),
            entries@.len() == i,
            forall|j: int| 0 <= j < i ==> (#[trigger] entries@[j])@ == audio_entry(tracks@[j]@),
        decreases tracks.len() - i,
    {
        let track = &tracks[i];
        let action = scoped_name(&audio_action_text(track.index));
        entries.push(MenuEntry { label: track.name.clone(), action: Some(action) });
        i += 1;
    }
    assert(views(entries@) =~= audio_menu(views(tracks@)).entries);
    Selector { entries, enabled: true }
}

/// Whether the tracks that the player reports offer no subtitles to choose from.
pub fn lacks_subtitles(tracks: &Vec<Track>) -> (none: bool)
    ensures
        none == no_subtitles(views(tracks@)),
{
    tracks.len() == 0 || (tracks.len() == 1 && tracks[0].index == DISABLED_TRACK)
}

/// The subtitle selector for the tracks that the player reports.
pub fn subtitle_selector(tracks: &Vec<Track>) -> (selector: Selector)
    ensures
        selector@ == subtitle_menu(views(tracks@)),
{
    if lacks_subtitles(tracks) {
        return placeholder(NO_SUBTITLES);
    }
    let mut entries: Vec<MenuEntry> = Vec::new();
    let mut i: usize = 0;
    while i < tracks.len()
        invariant
            i <= tracks.len(),
            entries@.len() == i,
            forall|j: int| 0 <= j < i ==> (#[trigger] entries@[j])@ == subtitle_entry(tracks@[j]@),
        decreases tracks.len() - i,
    {
        let track = &tracks[i];
        let action = scoped_name(&subtitle_action_text(track.index));
        entries.push(MenuEntry { label: track.name.clone(), action: Some(action) });
        i += 1;
    }
    assert(views(entries@) =~= subtitle_menu(views(tracks@)).entries);
    Selector { entries, enabled: true }
}

/// The actions that select the tracks that the player reports.
pub fn track_action_list(audio: &Vec<Track>, subtitles: &Vec<Track>) -> (actions: Vec<TrackAction>)
    ensures
        views(actions@) == track_actions(views(audio@), views(subtitles@)),
{
    let mut actions: Vec<TrackAction> = Vec::new();
    let mut i: usize = 0;
    while i < audio.len()
        invariant
            i <= audio.len(),
            actions@.len() == i,
            forall|j: int| 0 <= j < i ==> (#[trigger] actions@[j])@ == audio_action(audio@[j]@),
        decreases audio.len() - i,
    {
        let track = &audio[i];
        actions.push(
            TrackAction {
                name: audio_action_text(track.index),
                command: TrackCommand::SetAudioTrack(track.index),
            },
        );
        i += 1;
    }
    let mut k: usize = 0;
    while k < subtitles.len()
        invariant
            k <= subtitles.len(),
            actions@.len() == audio.len() + k,
            forall|j: int|
                0 <= j < audio.len() ==> (#[trigger] actions@[j])@ == audio_action(audio@[j]@),
            forall|j: int|
                0 <= j < k ==> (#[trigger] actions@[audio.len() + j])@ == subtitle_action(
                    subtitles@[j]@,
                ),
        decreases subtitles.len() - k,
    {
        let track = &subtitles[k];
        let target: i32 = if track.index < 0 {
            DISABLED_TRACK
        } else {
            track.index
        };
        actions.push(
            TrackAction {
                name: subtitle_action_text(track.index),
                command: TrackCommand::SetSubtitleTrack(target),
            },
        );
        k += 1;
    }
    assert forall|j: int| 0 <= j < actions@.len() implies views(actions@)[j] == track_actions(
        views(audio@),
        views(subtitles@),
    )[j] by {
        if j >= audio.len() {
            assert(actions@[audio.len() + (j - audio.len())]@ == subtitle_action(
                subtitles@[j - audio.len()]@,
            ));
        }
    }
    assert(views(actions@) =~= track_actions(views(audio@), views(subtitles@)));
    actions
}

/// The selectors and actions for the tracks of the stream that plays.
#[derive(Debug)]
pub struct TrackCatalog {
    pub audio: Selector,
    pub subtitles: Selector,
    pub actions: Vec<TrackAction>,
}

impl View for TrackCatalog {
    type V = TrackCatalogView;

    open spec fn view(&self) -> TrackCatalogView {
        TrackCatalogView {
            audio: self.audio@,
            subtitles: self.subtitles@,
            actions: views(self.actions@),
        }
    }
}

impl TrackCatalog {
    /// The catalog of a session that has not populated it yet: empty, with
    /// both selectors disabled.
    pub fn new() -> (catalog: TrackCatalog)
        ensures
            catalog@ == catalog_of(false, Seq::empty(), Seq::empty()),
    {
        let none: Vec<Track> = Vec::new();
        let catalog = TrackCatalog {
            audio: audio_selector(&none),
            subtitles: subtitle_selector(&none),
            actions: track_action_list(&none, &none),
        };
        assert(views(none@) =~= Seq::<TrackView>::empty());
        catalog
    }

    /// Rebuilds the catalog from the tracks that the player reports in the
    /// state `state`. The actions replace all that were registered before.
    pub fn populate(&mut self, state: &PlaybackState, audio: &Vec<Track>, subtitles: &Vec<Track>)
        ensures
            final(self)@ == catalog_of(
                state.tracks_discoverable(),
                views(audio@),
                views(subtitles@),
            ),
    {
        if state.can_discover_tracks() {
            self.audio = audio_selector(audio);
            self.subtitles = subtitle_selector(subtitles);
            self.actions = track_action_list(audio, subtitles);
        } else {
            let fresh = TrackCatalog::new();
            self.audio = fresh.audio;
            self.subtitles = fresh.subtitles;
            self.actions = fresh.actions;
        }
    }
}

} // verus!

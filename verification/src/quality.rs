//! Quality: the menu of the qualities that a stream is offered in, and the
//! switch to another quality that keeps the position and the play state.

use crate::media::{views, QualityOption, QualityOptionView, StreamInfo, StreamInfoView};
use crate::menu::{scoped, scoped_name, MenuEntry, MenuEntryView, Selector, SelectorView};
use crate::player::CommandOutcome;
use crate::text::{decimal, push_decimal};
use crate::time::MediaTime;
use vstd::prelude::*;
use vstd::string::*;

verus! {

/// What the label of a quality carries that the backend has to transcode.
pub const TRANSCODE_MARK: &'static str = " (Transcode)";

/// The label of a quality option: its name, marked where the backend has to
/// transcode for it.
pub open spec fn quality_label(option: QualityOptionView) -> Seq<char> {
    if option.requires_transcode {
        option.name + TRANSCODE_MARK@
    } else {
        option.name
    }
}

/// The name of the action that switches to the quality option at `index`.
pub open spec fn quality_action_name(index: nat) -> Seq<char> {
    "set-quality-"@ + decimal(index)
}

/// The label of a stream that is offered in one quality only: its picture height.
pub open spec fn height_label(height: u32) -> Seq<char> {
    decimal(height as nat) + seq!['p']
}

/// The menu entry of the quality option at `index`.
pub open spec fn quality_entry(option: QualityOptionView, index: nat) -> MenuEntryView {
    MenuEntryView {
        label: quality_label(option),
        action: Some(scoped(quality_action_name(index))),
    }
}

/// The quality selector of a stream: one entry for each option, in order;
/// with no option, one entry without an action that names the stream's own
/// quality. The selector is enabled either way.
pub open spec fn quality_menu(stream: StreamInfoView) -> SelectorView {
    if stream.quality_options.len() == 0 {
        SelectorView {
            entries: seq![
                MenuEntryView { label: height_label(stream.resolution.height), action: None },
            ],
            enabled: true,
        }
    } else {
        SelectorView {
            entries: Seq::new(
                stream.quality_options.len(),
                |i: int| quality_entry(stream.quality_options[i], i as nat),
            ),
            enabled: true,
        }
    }
}

/// An action that switches the quality: its name within the scope, and the
/// address of the stream in that quality.
#[derive(Debug)]
pub struct QualityAction {
    pub name: String,
    pub url: String,
}

/// A quality action as contracts see it.
pub struct QualityActionView {
    pub name: Seq<char>,
    pub url: Seq<char>,
}

impl View for QualityAction {
    type V = QualityActionView;

    open spec fn view(&self) -> QualityActionView {
        QualityActionView { name: self.name@, url: self.url@ }
    }
}

/// The actions of a stream: one for each quality option, in order.
pub open spec fn quality_actions(stream: StreamInfoView) -> Seq<QualityActionView> {
    Seq::new(
        stream.quality_options.len(),
        |i: int|
            QualityActionView {
                name: quality_action_name(i as nat),
                url: stream.quality_options[i].url,
            },
    )
}

/// The label of a quality option.
pub fn quality_label_text(option: &QualityOption) -> (label: String)
    ensures
        label@ == quality_label(option@),
{
    let mut label = option.name.clone();
    if option.requires_transcode {
        label.append(TRANSCODE_MARK);
    }
    label
}

/// The name of the action that switches to the quality option at `index`.
pub fn quality_action_text(index: usize) -> (name: String)
    ensures
        name@ == quality_action_name(index as nat),
{
    let mut name = String::from_str("set-quality-");
    push_decimal(&mut name, index as u64);
    name
}

/// The quality selector of a stream.
pub fn quality_selector(stream: &StreamInfo) -> (selector: Selector)
    ensures
        selector@ == quality_menu(stream@),
{
    let mut entries: Vec<MenuEntry> = Vec::new();
    if stream.quality_options.len() == 0 {
        let mut label = String::new();
        push_decimal(&mut label, stream.resolution.height as u64);
        proof {
            reveal_strlit("p");
        }
        label.append("p");
        assert(label@ =~= height_label(stream.resolution.height));
        entries.push(MenuEntry { label, action: None });
        assert(views(entries@) =~= quality_menu(stream@).entries);
        return Selector { entries, enabled: true };
    }
    let mut i: usize = 0;
    while i < stream.quality_options.len()
        invariant
            i <= stream.quality_options.len(),
            entries@.len() == i,
            forall|j: int|
                0 <= j < i ==> (#[trigger] entries@[j])@ == quality_entry(
                    stream.quality_options@[j]@,
                    j as nat,
                ),
        decreases stream.quality_options.len() - i,
    {
        let option = &stream.quality_options[i];
        let action = scoped_name(&quality_action_text(i));
        entries.push(MenuEntry { label: quality_label_text(option), action: Some(action) });
        i += 1;
    }
    assert(views(entries@) =~= quality_menu(stream@).entries);
    Selector { entries, enabled: true }
}

/// The actions that switch to the quality options of a stream.
pub fn quality_action_list(stream: &StreamInfo) -> (actions: Vec<QualityAction>)
    ensures
        views(actions@) == quality_actions(stream@),
{
    let mut actions: Vec<QualityAction> = Vec::new();
    let mut i: usize = 0;
    while i < stream.quality_options.len()
        invariant
            i <= stream.quality_options.len(),
            actions@.len() == i,
            forall|j: int|
                0 <= j < i ==> (#[trigger] actions@[j])@ == (QualityActionView {
                    name: quality_action_name(j as nat),
                    url: stream.quality_options@[j]@.url,
                }),
        decreases stream.quality_options.len() - i,
    {
        let option = &stream.quality_options[i];
        actions.push(QualityAction { name: quality_action_text(i), url: option.url.clone() });
        i += 1;
    }
    assert(views(actions@) =~= quality_actions(stream@));
    actions
}

/// Why a switch of quality did not go through.
#[derive(Clone, Copy, Debug, PartialEq, Eq, Structural)]
pub enum SwitchError {
    /// The player could not load the stream of the new quality. What the
    /// player plays then is left open: the switch takes nothing back.
    PlayerLoadFailed,
}

/// How far a switch of quality has come.
#[derive(Clone, Copy, Debug, PartialEq, Eq, Structural)]
pub enum SwitchPhase {
    /// The player loads the new stream.
    Loading,
    /// The player seeks to the position that was saved.
    Seeking,
    /// The player takes up playing again.
    Resuming,
    /// The new stream is in place.
    Switched,
    /// The player could not load the new stream.
    Aborted,
}

/// What a switch asks its driver to have the player do next.
#[derive(Clone, Copy, Debug, PartialEq, Eq, Structural)]
pub enum SwitchCommand {
    /// Load the stream at the address of the switch.
    LoadMedia,
    Seek(MediaTime),
    Play,
    /// Nothing more: the switch is over.
    Finish,
}

/// A switch of quality as contracts see it.
pub struct SwitchView {
    /// The address of the stream in the new quality.
    pub url: Seq<char>,
    /// The position at which the old stream stood, if the player told it.
    pub position: Option<MediaTime>,
    /// Whether the session was playing before the switch.
    pub resume: bool,
    pub phase: SwitchPhase,
}

/// The phase after the player answered the command of the phase `phase`, and
/// the command that follows. A seek or a resume that fails does not stop the
/// switch; only a load that fails does.
pub open spec fn switch_step(
    phase: SwitchPhase,
    position: Option<MediaTime>,
    resume: bool,
    outcome: CommandOutcome,
) -> (SwitchPhase, SwitchCommand) {
    match phase {
        SwitchPhase::Loading => {
            if outcome is Failed {
                (SwitchPhase::Aborted, SwitchCommand::Finish)
            } else if position is Some {
                (SwitchPhase::Seeking, SwitchCommand::Seek(position.unwrap()))
            } else if resume {
                (SwitchPhase::Resuming, SwitchCommand::Play)
            } else {
                (SwitchPhase::Switched, SwitchCommand::Finish)
            }
        },
        SwitchPhase::Seeking => {
            if resume {
                (SwitchPhase::Resuming, SwitchCommand::Play)
            } else {
                (SwitchPhase::Switched, SwitchCommand::Finish)
            }
        },
        SwitchPhase::Resuming => (SwitchPhase::Switched, SwitchCommand::Finish),
        SwitchPhase::Switched => (SwitchPhase::Switched, SwitchCommand::Finish),
        SwitchPhase::Aborted => (SwitchPhase::Aborted, SwitchCommand::Finish),
    }
}

/// How a switch in the phase `phase` has ended, if it has.
pub open spec fn switch_result(phase: SwitchPhase) -> Option<Result<(), SwitchError>> {
    match phase {
        SwitchPhase::Switched => Some(Ok(())),
        SwitchPhase::Aborted => Some(Err(SwitchError::PlayerLoadFailed)),
        _ => None,
    }
}

/// A switch to another quality of the stream that plays.
#[derive(Debug)]
pub struct QualitySwitch {
    url: String,
    position: Option<MediaTime>,
    resume: bool,
    phase: SwitchPhase,
}

impl View for QualitySwitch {
    type V = SwitchView;

    closed spec fn view(&self) -> SwitchView {
        SwitchView {
            url: self.url@,
            position: self.position,
            resume: self.resume,
            phase: self.phase,
        }
    }
}

impl QualitySwitch {
    /// Begins a switch to the stream at `url`. `position` is what the player
    /// gave as its position just before, `was_playing` whether the session
    /// was playing. The first command is `first_command`.
    pub fn begin(url: String, position: Option<MediaTime>, was_playing: bool) -> (switch:
        QualitySwitch)
        ensures
            switch@ == (SwitchView {
                url: url@,
                position,
                resume: was_playing,
                phase: SwitchPhase::Loading,
            }),
    {
        QualitySwitch { url, position, resume: was_playing, phase: SwitchPhase::Loading }
    }

    /// The command that every switch starts with: load the new stream.
    pub fn first_command() -> (command: SwitchCommand)
        ensures
            command == SwitchCommand::LoadMedia,
    {
        SwitchCommand::LoadMedia
    }

    /// The address that the command `LoadMedia` loads.
    pub fn url(&self) -> (url: &String)
        ensures
            url@ == self@.url,
    {
        &self.url
    }

    pub fn phase(&self) -> (phase: SwitchPhase)
        ensures
            phase == self@.phase,
    {
        self.phase
    }

    /// How the switch has ended: `None` while it is under way.
    pub fn result(&self) -> (result: Option<Result<(), SwitchError>>)
        ensures
            result == switch_result(self@.phase),
    {
        match self.phase {
            SwitchPhase::Switched => Some(Ok(())),
            SwitchPhase::Aborted => Some(Err(SwitchError::PlayerLoadFailed)),
            _ => None,
        }
    }

    /// Takes the outcome of the command that was issued last and gives the
    /// next one.
    pub fn step(&mut self, outcome: CommandOutcome) -> (command: SwitchCommand)
        ensures
            final(self)@.url == old(self)@.url,
            final(self)@.position == old(self)@.position,
            final(self)@.resume == old(self)@.resume,
            final(self)@.phase == switch_step(
                old(self)@.phase,
                old(self)@.position,
                old(self)@.resume,
                outcome,
            ).0,
            command == switch_step(
                old(self)@.phase,
                old(self)@.position,
                old(self)@.resume,
                outcome,
            ).1,
    {
        let failed = match outcome {
            CommandOutcome::Failed => true,
            CommandOutcome::Succeeded => false,
        };
        match self.phase {
            SwitchPhase::Loading => {
                if failed {
                    self.phase = SwitchPhase::Aborted;
                    SwitchCommand::Finish
                } else {
                    match self.position {
                        Some(position) => {
                            self.phase = SwitchPhase::Seeking;
                            SwitchCommand::Seek(position)
                        },
                        None => self.resume_or_finish(),
                    }
                }
            },
            SwitchPhase::Seeking => self.resume_or_finish(),
            SwitchPhase::Resuming => {
                self.phase = SwitchPhase::Switched;
                SwitchCommand::Finish
            },
            SwitchPhase::Switched => SwitchCommand::Finish,
            SwitchPhase::Aborted => SwitchCommand::Finish,
        }
    }

    fn resume_or_finish(&mut self) -> (command: SwitchCommand)
        ensures
            final(self)@.url == old(self)@.url,
            final(self)@.position == old(self)@.position,
            final(self)@.resume == old(self)@.resume,
            old(self)@.resume ==> final(self)@.phase == SwitchPhase::Resuming && command
                == SwitchCommand::Play,
            !old(self)@.resume ==> final(self)@.phase == SwitchPhase::Switched && command
                == SwitchCommand::Finish,
    {
        if self.resume {
            self.phase = SwitchPhase::Resuming;
            SwitchCommand::Play
        } else {
            self.phase = SwitchPhase::Switched;
            SwitchCommand::Finish
        }
    }
}

/// A switch keeps the resume point. Once the new stream is loaded, the next
/// command seeks to exactly the position that was saved; whether or not that
/// seek succeeds, playback is resumed next if and only if the session was
/// playing before; and the switch then ends well. A load that fails ends the
/// switch at once, with neither seek nor resume.
pub proof fn switch_keeps_resume_point(
    position: MediaTime,
    resume: bool,
    seek: CommandOutcome,
    play: CommandOutcome,
)
    ensures
        ({
            let loaded = switch_step(
                SwitchPhase::Loading,
                Some(position),
                resume,
                CommandOutcome::Succeeded,
            );
            let sought = switch_step(loaded.0, Some(position), resume, seek);
            let resumed = switch_step(sought.0, Some(position), resume, play);
            &&& loaded.1 == SwitchCommand::Seek(position)
            &&& resume ==> sought.1 == SwitchCommand::Play && resumed.1 == SwitchCommand::Finish
            &&& !resume ==> sought.1 == SwitchCommand::Finish
            &&& switch_result(resumed.0) == Some(Ok::<(), SwitchError>(()))
        }),
        ({
            let failed = switch_step(
                SwitchPhase::Loading,
                Some(position),
                resume,
                CommandOutcome::Failed,
            );
            &&& failed.1 == SwitchCommand::Finish
            &&& switch_result(failed.0) == Some(Err::<(), SwitchError>(SwitchError::PlayerLoadFailed))
        }),
{
}

} // verus!

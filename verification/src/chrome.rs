//! What the keys, buttons and timers of the player page decide: which command
//! a key stands for, where a skip lands, which icon a button shows, and which
//! timer is cancelled before another is scheduled.

use crate::seek::{forward_target, rewind_target};
use crate::time::{saturating_difference, saturating_product, saturating_sum, MediaTime, NANOS_PER_SEC};
use vstd::prelude::*;

verus! {

/// How far the rewind and forward buttons skip, and the left arrow key, in seconds.
pub const SKIP_SECS: u64 = 10;

/// How far the right arrow key skips ahead, in seconds.
pub const KEY_FORWARD_SECS: u64 = 30;

/// How long the controls stay visible after the pointer last moved.
pub const CONTROLS_HIDE_MILLIS: u64 = 2000;

/// How long after the start of playback pointer movement begins to show the controls.
pub const HOVER_ATTACH_MILLIS: u64 = 1000;

/// How often the pointer is hidden again while the window is fullscreen.
pub const CURSOR_HIDE_MILLIS: u64 = 3000;

/// The icon of the play button while the session plays.
pub const PAUSE_ICON: &'static str = "media-playback-pause-symbolic";

/// The icon of the play button while the session does not play.
pub const PLAY_ICON: &'static str = "media-playback-start-symbolic";

/// The icon of the fullscreen button while the window is fullscreen.
pub const RESTORE_ICON: &'static str = "view-restore-symbolic";

/// The icon of the fullscreen button while the window is not fullscreen.
pub const FULLSCREEN_ICON: &'static str = "view-fullscreen-symbolic";

/// The style class that the page carries while the window is fullscreen.
pub const FULLSCREEN_CLASS: &'static str = "fullscreen";

/// The keys that the player page knows; upper and lower case count as one.
#[derive(Clone, Copy, Debug, PartialEq, Eq, Structural)]
pub enum Key {
    F,
    F11,
    Escape,
    Space,
    Left,
    Right,
    M,
    Q,
    /// Any other key.
    Other,
}

/// A skip from the current position.
#[derive(Clone, Copy, Debug, PartialEq, Eq, Structural)]
pub enum Skip {
    Back { secs: u64 },
    Ahead { secs: u64 },
}

/// What a key asks for.
#[derive(Clone, Copy, Debug, PartialEq, Eq, Structural)]
pub enum KeyCommand {
    ToggleFullscreen,
    LeaveFullscreen,
    TogglePlay,
    Seek(Skip),
    ToggleMute,
    Quit,
}

/// The command that a key stands for; a key that stands for none is left to
/// others to handle.
pub open spec fn key_binding(key: Key) -> Option<KeyCommand> {
    match key {
        Key::F => Some(KeyCommand::ToggleFullscreen),
        Key::F11 => Some(KeyCommand::ToggleFullscreen),
        Key::Escape => Some(KeyCommand::LeaveFullscreen),
        Key::Space => Some(KeyCommand::TogglePlay),
        Key::Left => Some(KeyCommand::Seek(Skip::Back { secs: SKIP_SECS })),
        Key::Right => Some(KeyCommand::Seek(Skip::Ahead { secs: KEY_FORWARD_SECS })),
        Key::M => Some(KeyCommand::ToggleMute),
        Key::Q => Some(KeyCommand::Quit),
        Key::Other => None,
    }
}

/// The command that a key stands for.
pub fn command_for(key: Key) -> (command: Option<KeyCommand>)
    ensures
        command == key_binding(key),
{
    match key {
        Key::F => Some(KeyCommand::ToggleFullscreen),
        Key::F11 => Some(KeyCommand::ToggleFullscreen),
        Key::Escape => Some(KeyCommand::LeaveFullscreen),
        Key::Space => Some(KeyCommand::TogglePlay),
        Key::Left => Some(KeyCommand::Seek(Skip::Back { secs: SKIP_SECS })),
        Key::Right => Some(KeyCommand::Seek(Skip::Ahead { secs: KEY_FORWARD_SECS })),
        Key::M => Some(KeyCommand::ToggleMute),
        Key::Q => Some(KeyCommand::Quit),
        Key::Other => None,
    }
}

/// The command that a press of the pointer on the video stands for: the
/// second press of a double click turns fullscreen over, no other press
/// stands for anything.
pub fn press_command(presses: i32) -> (command: Option<KeyCommand>)
    ensures
        command == if presses == 2 {
            Some(KeyCommand::ToggleFullscreen)
        } else {
            None
        },
{
    if presses == 2 {
        Some(KeyCommand::ToggleFullscreen)
    } else {
        None
    }
}

/// The skip of the rewind button.
pub fn rewind_button_skip() -> (skip: Skip)
    ensures
        skip == (Skip::Back { secs: SKIP_SECS }),
{
    Skip::Back { secs: SKIP_SECS }
}

/// The skip of the forward button.
pub fn forward_button_skip() -> (skip: Skip)
    ensures
        skip == (Skip::Ahead { secs: SKIP_SECS }),
{
    Skip::Ahead { secs: SKIP_SECS }
}

/// Where a skip from `position` lands: not before the start of the stream,
/// and not past the largest time that can be told.
pub open spec fn skipped(position: nat, skip: Skip) -> nat {
    match skip {
        Skip::Back { secs } => saturating_difference(
            position,
            saturating_product(secs as nat, NANOS_PER_SEC as nat),
        ),
        Skip::Ahead { secs } => saturating_sum(
            position,
            saturating_product(secs as nat, NANOS_PER_SEC as nat),
        ),
    }
}

/// The position to seek to for a skip. Without a position there is nowhere
/// to skip from, and no seek.
pub fn skip_target(position: Option<MediaTime>, skip: Skip) -> (target: Option<MediaTime>)
    ensures
        target is Some <==> position is Some,
        position is Some ==> target.unwrap()@ == skipped(position.unwrap()@, skip),
{
    match position {
        Some(position) => {
            match skip {
                Skip::Back { secs } => {
                    let step = MediaTime::from_secs(secs);
                    Some(rewind_target(position, step))
                },
                Skip::Ahead { secs } => {
                    let step = MediaTime::from_secs(secs);
                    Some(forward_target(position, step))
                },
            }
        },
        None => None,
    }
}

/// The two volumes between which the mute key toggles.
#[derive(Clone, Copy, Debug, PartialEq, Eq, Structural)]
pub enum VolumeLevel {
    Muted,
    Full,
}

/// The volume that the mute key sets: silence where anything can be heard,
/// full volume where nothing can.
pub fn mute_toggle(audible: bool) -> (level: VolumeLevel)
    ensures
        level == if audible {
            VolumeLevel::Muted
        } else {
            VolumeLevel::Full
        },
{
    if audible {
        VolumeLevel::Muted
    } else {
        VolumeLevel::Full
    }
}

/// The icon of the play button.
pub fn play_icon(playing: bool) -> (icon: &'static str)
    ensures
        icon@ == if playing {
            PAUSE_ICON@
        } else {
            PLAY_ICON@
        },
{
    if playing {
        PAUSE_ICON
    } else {
        PLAY_ICON
    }
}

/// The icon of the fullscreen button.
pub fn fullscreen_icon(fullscreen: bool) -> (icon: &'static str)
    ensures
        icon@ == if fullscreen {
            RESTORE_ICON@
        } else {
            FULLSCREEN_ICON@
        },
{
    if fullscreen {
        RESTORE_ICON
    } else {
        FULLSCREEN_ICON
    }
}

/// Whether the window is fullscreen after a command, given whether it was
/// before: `ToggleFullscreen` turns it over, `LeaveFullscreen` ends it, no
/// other command touches it.
pub fn fullscreen_after(command: KeyCommand, fullscreen: bool) -> (after: bool)
    ensures
        after == match command {
            KeyCommand::ToggleFullscreen => !fullscreen,
            KeyCommand::LeaveFullscreen => false,
            _ => fullscreen,
        },
{
    match command {
        KeyCommand::ToggleFullscreen => !fullscreen,
        KeyCommand::LeaveFullscreen => false,
        _ => fullscreen,
    }
}

/// What a tick of the cursor timer does.
#[derive(Clone, Copy, Debug, PartialEq, Eq, Structural)]
pub struct CursorTick {
    /// Whether to hide the pointer.
    pub hide: bool,
    /// Whether the timer goes on.
    pub again: bool,
}

/// A tick of the cursor timer: while the page has a window and the window is
/// fullscreen, the pointer is hidden and the timer goes on; else the timer ends.
pub fn cursor_tick(has_window: bool, fullscreen: bool) -> (tick: CursorTick)
    ensures
        tick.hide == (has_window && fullscreen),
        tick.again == (has_window && fullscreen),
{
    let on = has_window && fullscreen;
    CursorTick { hide: on, again: on }
}

/// The place of the one timer that a purpose may have pending. A timer that
/// a method hands back is no longer the slot's: the caller cancels it.
#[derive(Debug)]
pub struct TimerSlot<T> {
    pending: Option<T>,
}

impl<T> View for TimerSlot<T> {
    type V = Option<T>;

    /// The timer that is pending, if any.
    closed spec fn view(&self) -> Option<T> {
        self.pending
    }
}

impl<T> TimerSlot<T> {
    /// A slot with no timer pending.
    pub fn new() -> (slot: TimerSlot<T>)
        ensures
            slot@ is None,
    {
        TimerSlot { pending: None }
    }

    /// Whether a timer is pending.
    pub fn is_pending(&self) -> (pending: bool)
        ensures
            pending == (self@ is Some),
    {
        self.pending.is_some()
    }

    /// Makes room for a new timer: hands back the pending one, for the caller
    /// to cancel before it schedules the new one.
    pub fn vacate(&mut self) -> (stale: Option<T>)
        ensures
            final(self)@ is None,
            stale == old(self)@,
    {
        self.pending.take()
    }

    /// Keeps the timer that was scheduled, and hands back the one it pushes out.
    pub fn keep(&mut self, timer: T) -> (stale: Option<T>)
        ensures
            final(self)@ == Some(timer),
            stale == old(self)@,
    {
        let stale = self.pending.take();
        self.pending = Some(timer);
        stale
    }

    /// Takes note that the pending timer has fired: nothing is pending any more.
    pub fn fired(&mut self)
        ensures
            final(self)@ is None,
    {
        self.pending = None;
    }
}

} // verus!

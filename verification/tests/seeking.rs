use playback_session::player::CommandOutcome;
use playback_session::seek::{
    drag_target, forward_target, progress_of, rewind_target, DragCommand, DragEvent, DragPhase,
    DragSeek, SeekGate, PROGRESS_FULL, SEEK_SETTLE_MILLIS,
};
use playback_session::time::MediaTime;

#[test]
fn progress_is_the_ratio_in_millionths() {
    let duration = MediaTime::from_secs(100);
    assert_eq!(progress_of(MediaTime::zero(), duration), 0);
    assert_eq!(progress_of(MediaTime::from_secs(25), duration), 250_000);
    assert_eq!(progress_of(MediaTime::from_secs(50), duration), 500_000);
    assert_eq!(progress_of(MediaTime::from_millis(99_999), duration), 999_990);
    assert_eq!(progress_of(duration, duration), 1_000_000);
}

#[test]
fn progress_rounds_down() {
    let duration = MediaTime::from_nanos(3);
    assert_eq!(progress_of(MediaTime::from_nanos(1), duration), 333_333);
    assert_eq!(progress_of(MediaTime::from_nanos(2), duration), 666_666);
}

#[test]
fn progress_is_held_at_full() {
    assert_eq!(PROGRESS_FULL, 1_000_000);
    assert_eq!(progress_of(MediaTime::from_secs(120), MediaTime::from_secs(100)), PROGRESS_FULL);
    assert_eq!(
        progress_of(MediaTime::from_nanos(u64::MAX), MediaTime::from_nanos(1)),
        PROGRESS_FULL
    );
    assert_eq!(
        progress_of(MediaTime::from_nanos(u64::MAX - 1), MediaTime::from_nanos(u64::MAX)),
        999_999
    );
}

#[test]
fn progress_in_a_stream_of_no_length() {
    assert_eq!(progress_of(MediaTime::zero(), MediaTime::zero()), 0);
    assert_eq!(progress_of(MediaTime::from_nanos(1), MediaTime::zero()), PROGRESS_FULL);
}

#[test]
fn drag_target_is_the_share_of_the_duration() {
    let duration = MediaTime::from_secs(200);
    assert_eq!(drag_target(0, duration), MediaTime::zero());
    assert_eq!(drag_target(500_000, duration), MediaTime::from_secs(100));
    assert_eq!(drag_target(250_000, duration), MediaTime::from_secs(50));
    assert_eq!(drag_target(1_000_000, duration), duration);
    assert_eq!(drag_target(1, MediaTime::from_nanos(999_999)), MediaTime::zero());
    assert_eq!(drag_target(1, MediaTime::from_nanos(1_000_000)), MediaTime::from_nanos(1));
}

#[test]
fn drag_target_stays_within_the_stream() {
    let duration = MediaTime::from_nanos(u64::MAX);
    assert_eq!(drag_target(u32::MAX, duration), duration);
    assert_eq!(drag_target(2_000_000, MediaTime::from_secs(10)), MediaTime::from_secs(10));
    assert_eq!(drag_target(999_999, duration).as_nanos(), 18_446_725_626_965_477_905);
}

#[test]
fn rewind_and_forward_by_a_step() {
    let step = MediaTime::from_secs(10);
    assert_eq!(rewind_target(MediaTime::from_secs(25), step), MediaTime::from_secs(15));
    assert_eq!(rewind_target(MediaTime::from_secs(4), step), MediaTime::zero());
    assert_eq!(forward_target(MediaTime::from_secs(25), step), MediaTime::from_secs(35));
    assert_eq!(
        forward_target(MediaTime::from_nanos(u64::MAX), step),
        MediaTime::from_nanos(u64::MAX)
    );
}

#[test]
fn seek_gate_opens_and_shuts() {
    let mut gate = SeekGate::new();
    assert!(!gate.is_seeking());
    gate.begin_seek();
    assert!(gate.is_seeking());
    gate.begin_seek();
    assert!(gate.is_seeking());
    gate.end_seek();
    assert!(!gate.is_seeking());
    gate.end_seek();
    assert!(!gate.is_seeking());
    assert_eq!(SEEK_SETTLE_MILLIS, 100);
}

#[test]
fn drag_seek_runs_from_shut_to_open() {
    let mut gate = SeekGate::new();
    let mut run = DragSeek::begin(&mut gate, 300_000);
    assert!(gate.is_seeking());
    assert_eq!(run.phase(), DragPhase::Reading);
    let read = DragEvent::Duration(Some(MediaTime::from_secs(1000)));
    assert_eq!(run.step(&mut gate, read), Some(DragCommand::Seek(MediaTime::from_secs(300))));
    assert_eq!(run.phase(), DragPhase::Seeking);
    assert!(gate.is_seeking());
    assert_eq!(
        run.step(&mut gate, DragEvent::Sought(CommandOutcome::Succeeded)),
        Some(DragCommand::Settle { millis: SEEK_SETTLE_MILLIS })
    );
    assert_eq!(run.phase(), DragPhase::Settling);
    assert!(gate.is_seeking());
    assert_eq!(run.step(&mut gate, DragEvent::Settled), Some(DragCommand::Finish));
    assert_eq!(run.phase(), DragPhase::Ended);
    assert!(!gate.is_seeking());
}

#[test]
fn drag_seek_ignores_events_out_of_turn() {
    let mut gate = SeekGate::new();
    let mut run = DragSeek::begin(&mut gate, 300_000);
    assert_eq!(run.step(&mut gate, DragEvent::Settled), None);
    assert_eq!(run.step(&mut gate, DragEvent::Sought(CommandOutcome::Succeeded)), None);
    assert_eq!(run.phase(), DragPhase::Reading);
    assert!(gate.is_seeking());
    run.step(&mut gate, DragEvent::Duration(Some(MediaTime::from_secs(10))));
    assert_eq!(run.step(&mut gate, DragEvent::Settled), None);
    assert_eq!(run.step(&mut gate, DragEvent::Duration(None)), None);
    assert_eq!(run.phase(), DragPhase::Seeking);
    assert!(gate.is_seeking());
}

#[test]
fn drag_seek_that_has_ended_leaves_the_seek_gate_to_the_next() {
    let mut gate = SeekGate::new();
    let mut first = DragSeek::begin(&mut gate, 1);
    first.step(&mut gate, DragEvent::Duration(None));
    first.step(&mut gate, DragEvent::Settled);
    let mut second = DragSeek::begin(&mut gate, 2);
    assert!(gate.is_seeking());
    assert_eq!(first.step(&mut gate, DragEvent::Settled), None);
    assert_eq!(first.step(&mut gate, DragEvent::Duration(None)), None);
    assert!(gate.is_seeking());
    second.step(&mut gate, DragEvent::Duration(None));
    assert_eq!(second.step(&mut gate, DragEvent::Settled), Some(DragCommand::Finish));
    assert!(!gate.is_seeking());
}

//! The suspend inhibition of a session: at most one handle of the windowing
//! system is held at a time.
//!
//! The windowing system grants and releases handles; the inhibitor decides
//! which handle to give back and which to keep. A handle that a method hands
//! back is no longer the inhibitor's: the caller releases it to the system.

use vstd::prelude::*;

verus! {

/// The reason that a request for an inhibition carries.
pub const INHIBIT_REASON: &'static str = "Playing video";

/// Holder of the one inhibition handle of a session.
#[derive(Debug)]
pub struct SuspendInhibitor {
    handle: Option<u32>,
}

impl View for SuspendInhibitor {
    type V = Option<u32>;

    /// The handle that is held, if any.
    closed spec fn view(&self) -> Option<u32> {
        self.handle
    }
}

impl SuspendInhibitor {
    /// An inhibitor that holds nothing.
    pub fn new() -> (inhibitor: SuspendInhibitor)
        ensures
            inhibitor@ is None,
    {
        SuspendInhibitor { handle: None }
    }

    pub fn handle(&self) -> (handle: Option<u32>)
        ensures
            handle == self@,
    {
        self.handle
    }

    /// Whether a handle is held.
    pub fn is_active(&self) -> (active: bool)
        ensures
            active == (self@ is Some),
    {
        self.handle.is_some()
    }

    /// First half of an acquisition: gives up the handle that is held, which
    /// the caller releases before it requests a new one.
    pub fn begin_acquire(&mut self) -> (stale: Option<u32>)
        ensures
            final(self)@ == acquire_begun(old(self)@).0,
            stale == acquire_begun(old(self)@).1,
    {
        self.handle.take()
    }

    /// Second half of an acquisition: keeps the handle that the system
    /// granted. Where the system granted none, nothing changes. A handle that
    /// was held meanwhile is superseded and handed back for release.
    pub fn finish_acquire(&mut self, granted: Option<u32>) -> (stale: Option<u32>)
        ensures
            final(self)@ == acquire_finished(old(self)@, granted).0,
            stale == acquire_finished(old(self)@, granted).1,
    {
        match granted {
            Some(handle) => {
                let stale = self.handle;
                self.handle = Some(handle);
                stale
            },
            None => None,
        }
    }

    /// Gives up the handle that is held, for the caller to release; nothing
    /// happens where none is held.
    pub fn release(&mut self) -> (stale: Option<u32>)
        ensures
            final(self)@ == released(old(self)@).0,
            stale == released(old(self)@).1,
    {
        self.handle.take()
    }
}

/// What `begin_acquire` leaves held, and what it hands back.
pub open spec fn acquire_begun(held: Option<u32>) -> (Option<u32>, Option<u32>) {
    (None, held)
}

/// What `finish_acquire` leaves held, and what it hands back.
pub open spec fn acquire_finished(held: Option<u32>, granted: Option<u32>) -> (
    Option<u32>,
    Option<u32>,
) {
    match granted {
        Some(handle) => (Some(handle), held),
        None => (held, None),
    }
}

/// What `release` leaves held, and what it hands back.
pub open spec fn released(held: Option<u32>) -> (Option<u32>, Option<u32>) {
    (None, held)
}

/// One call on the inhibitor, as a session makes it.
pub enum InhibitCall {
    /// A whole acquisition; `granted` is what the system answered the request with.
    Acquire { granted: Option<u32> },
    Release,
}

/// The inhibitor together with the handles that are live in the windowing system.
pub struct Inhibition {
    pub held: Option<u32>,
    pub live: Set<u32>,
}

/// The handles that are live once `stale` was released.
pub open spec fn releasing(live: Set<u32>, stale: Option<u32>) -> Set<u32> {
    match stale {
        Some(handle) => live.remove(handle),
        None => live,
    }
}

/// The handles that are live once the system granted `granted`.
pub open spec fn granting(live: Set<u32>, granted: Option<u32>) -> Set<u32> {
    match granted {
        Some(handle) => live.insert(handle),
        None => live,
    }
}

/// The effect of one call: every handle that the inhibitor hands back is
/// released, in the order in which an acquisition proceeds (give up the old
/// handle, request, keep the grant).
pub open spec fn after_call(before: Inhibition, call: InhibitCall) -> Inhibition {
    match call {
        InhibitCall::Acquire { granted } => {
            let begun = acquire_begun(before.held);
            let live = granting(releasing(before.live, begun.1), granted);
            let finished = acquire_finished(begun.0, granted);
            Inhibition { held: finished.0, live: releasing(live, finished.1) }
        },
        InhibitCall::Release => {
            let done = released(before.held);
            Inhibition { held: done.0, live: releasing(before.live, done.1) }
        },
    }
}

/// The effect of a sequence of calls on a fresh inhibitor, with nothing live.
pub open spec fn after_calls(calls: Seq<InhibitCall>) -> Inhibition
    decreases calls.len(),
{
    if calls.len() == 0 {
        Inhibition { held: None, live: Set::empty() }
    } else {
        after_call(after_calls(calls.drop_last()), calls.last())
    }
}

/// The handles that are live where exactly `held` is held.
pub open spec fn only(held: Option<u32>) -> Set<u32> {
    match held {
        Some(handle) => set![handle],
        None => Set::empty(),
    }
}

/// After any sequence of acquisitions and releases, the live handles are
/// exactly the one that is held, so at most one; and one is live exactly where
/// the last call was an acquisition that the system granted.
pub proof fn inhibition_is_exclusive(calls: Seq<InhibitCall>)
    ensures
        after_calls(calls).live == only(after_calls(calls).held),
        after_calls(calls).live.finite(),
        after_calls(calls).live.len() <= 1,
        after_calls(calls).held is Some <==> calls.len() > 0 && (calls.last() matches InhibitCall::Acquire {
            granted,
        } && granted is Some),
    decreases calls.len(),
{
    if calls.len() > 0 {
        let before = after_calls(calls.drop_last());
        inhibition_is_exclusive(calls.drop_last());
        let after = after_call(before, calls.last());
        assert(after.live =~= only(after.held));
    }
    let held = after_calls(calls).held;
    assert(only(held).finite() && only(held).len() <= 1) by {
        match held {
            Some(handle) => {
                assert(only(held) =~= Set::<u32>::empty().insert(handle));
            },
            None => {},
        }
    }
}

} // verus!

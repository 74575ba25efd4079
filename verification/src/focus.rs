//! The focus tracker: a single slot that remembers the handle of the external
//! window that last held operating-system keyboard focus, together with the
//! planning of how focus is handed back to it.
//!
//! A window handle is an opaque platform identifier; the value `0` is the
//! reserved sentinel meaning "no window". The slot starts at the sentinel,
//! is overwritten only by saves that observed a real handle, and is read,
//! never cleared, by restores.

use vstd::prelude::*;

verus! {

/// The reserved "no window" handle value.
pub const NO_WINDOW: isize = 0;

/// What one save does to the stored handle: a real observation overwrites,
/// the sentinel observation leaves the slot unchanged.
pub open spec fn save_step(stored: isize, observed: isize) -> isize {
    if observed != 0 {
        observed
    } else {
        stored
    }
}

/// The stored handle after a whole sequence of saves, oldest first,
/// starting from `init`.
pub open spec fn saved_after(init: isize, observations: Seq<isize>) -> isize
    decreases observations.len(),
{
    if observations.len() == 0 {
        init
    } else {
        save_step(saved_after(init, observations.drop_last()), observations.last())
    }
}

/// Whether some save in the sequence observed a real (non-sentinel) handle.
pub open spec fn has_real_observation(observations: Seq<isize>) -> bool {
    exists|i: int| 0 <= i < observations.len() && observations[i] != 0
}

/// The most recent real observation in the sequence (the sentinel if there
/// is none).
pub open spec fn latest_real_observation(observations: Seq<isize>) -> isize
    decreases observations.len(),
{
    if observations.len() == 0 {
        0
    } else if observations.last() != 0 {
        observations.last()
    } else {
        latest_real_observation(observations.drop_last())
    }
}

/// The handle a restore acts on: nothing while the slot still holds the
/// sentinel, otherwise the stored handle.
pub open spec fn restore_target_spec(stored: isize) -> Option<isize> {
    if stored == 0 {
        Option::None
    } else {
        Option::Some(stored)
    }
}

/// A restore reads the slot and leaves it unchanged; the pair is the slot
/// after the call and the handle acted on.
pub open spec fn restore_transition(stored: isize) -> (isize, Option<isize>) {
    (stored, restore_target_spec(stored))
}

/// The exact sequence of operating-system calls a restore performs.
///
/// The platform only grants a foreground-focus request to a thread that
/// shares input state with the thread owning the current foreground window,
/// so when both thread identifiers could be obtained the plan brackets the
/// request between an input-queue attach and a detach. All calls in a plan
/// are best-effort: their outcomes are deliberately discarded.
#[derive(PartialEq, Eq, Structural, Clone, Copy, Debug)]
pub enum RestoreAction {
    /// No call at all: the slot held the sentinel.
    Skip,
    /// Attach the calling thread's input to the target's thread, request
    /// the foreground, then detach.
    AttachSetDetach { hwnd: isize, cur_thread: u32, fg_thread: u32 },
    /// A direct foreground request, when a thread identifier could not be
    /// obtained.
    SetDirect { hwnd: isize },
}

/// Which calls a restore performs, from the stored handle and the two
/// thread identifiers (the target window's owning thread and the calling
/// thread, each `0` when it could not be obtained).
pub open spec fn restore_plan_spec(stored: isize, fg_thread: u32, cur_thread: u32) -> RestoreAction {
    if stored == 0 {
        RestoreAction::Skip
    } else if fg_thread != 0 && cur_thread != 0 {
        RestoreAction::AttachSetDetach { hwnd: stored, cur_thread, fg_thread }
    } else {
        RestoreAction::SetDirect { hwnd: stored }
    }
}

/// Decide the calls a restore makes for the handle `target` (the sentinel
/// meaning "nothing saved") and the two thread identifiers.
pub fn plan_restore(target: isize, fg_thread: u32, cur_thread: u32) -> (a: RestoreAction)
    ensures
        a == restore_plan_spec(target, fg_thread, cur_thread),
{
    if target == NO_WINDOW {
        RestoreAction::Skip
    } else if fg_thread != 0 && cur_thread != 0 {
        RestoreAction::AttachSetDetach { hwnd: target, cur_thread, fg_thread }
    } else {
        RestoreAction::SetDirect { hwnd: target }
    }
}

/// The process-wide focus slot. The unverified layer keeps one instance for
/// the whole run, behind its own mutual-exclusion lock; each method here is
/// the short critical section performed under that lock.
pub struct FocusTracker {
    stored: isize,
}

impl FocusTracker {
    /// The handle currently in the slot.
    pub closed spec fn saved(&self) -> isize {
        self.stored
    }

    /// A fresh tracker holds the sentinel: nothing has been saved yet.
    pub fn new() -> (t: Self)
        ensures
            t.saved() == 0,
    {
        FocusTracker { stored: NO_WINDOW }
    }

    /// Record the handle the operating system reported as the current
    /// foreground window. A sentinel reading means "no window has focus"
    /// and must not erase a previously saved real handle.
    pub fn save(&mut self, observed: isize)
        ensures
            final(self).saved() == save_step(old(self).saved(), observed),
    {
        if observed != NO_WINDOW {
            self.stored = observed;
        }
    }

    /// The handle a restore should act on right now, if any. Reading does
    /// not change the slot, so a later restore acts on the same handle.
    pub fn restore_target(&self) -> (r: Option<isize>)
        ensures
            r == restore_target_spec(self.saved()),
    {
        if self.stored == NO_WINDOW {
            Option::None
        } else {
            Option::Some(self.stored)
        }
    }
}

/// After any sequence of saves, the slot holds the most recently observed
/// real handle, and the initial contents whenever no save observed one:
/// sentinel readings never overwrite a previously saved handle.
pub proof fn lemma_saves_keep_latest_real_observation(init: isize, observations: Seq<isize>)
    ensures
        has_real_observation(observations) ==> saved_after(init, observations)
            == latest_real_observation(observations) && latest_real_observation(observations) != 0,
        !has_real_observation(observations) ==> saved_after(init, observations) == init,
    decreases observations.len(),
{
    if observations.len() > 0 {
        let head = observations.drop_last();
        lemma_saves_keep_latest_real_observation(init, head);
        if observations.last() != 0 {
            assert(observations[observations.len() - 1] != 0);
        } else {
            if has_real_observation(observations) {
                let i = choose|i: int| 0 <= i < observations.len() && observations[i] != 0;
                assert(head[i] == observations[i]);
            }
            if has_real_observation(head) {
                let i = choose|i: int| 0 <= i < head.len() && head[i] != 0;
                assert(observations[i] != 0);
            }
        }
    }
}

/// Starting from a fresh tracker, restore acts on exactly the most recently
/// observed real handle, and on nothing when every save read the sentinel.
pub proof fn lemma_restore_acts_on_latest_save(observations: Seq<isize>)
    ensures
        has_real_observation(observations) ==> restore_target_spec(saved_after(0, observations))
            == Option::Some(latest_real_observation(observations)),
        !has_real_observation(observations) ==> restore_target_spec(
            saved_after(0, observations),
        ) is None,
{
    lemma_saves_keep_latest_real_observation(0, observations);
}

/// On a freshly initialized tracker — the slot still holds the sentinel —
/// restore targets no window and its plan makes no operating-system call,
/// whatever the thread queries would have answered.
pub proof fn lemma_restore_fresh_is_noop(fg_thread: u32, cur_thread: u32)
    ensures
        restore_target_spec(0) is None,
        restore_plan_spec(0, fg_thread, cur_thread) == RestoreAction::Skip,
{
}

/// Once the slot holds a real handle it holds one forever: a save either
/// overwrites it with another real handle or leaves it alone, and a restore
/// never clears it. Restore therefore keeps retrying the last real handle,
/// even one gone stale — the platform silently ignores a foreground request
/// for an invalid window, so this is harmless by design.
pub proof fn lemma_slot_never_empties(stored: isize, observed: isize)
    ensures
        stored != 0 ==> save_step(stored, observed) != 0,
        stored != 0 ==> restore_transition(stored).0 == stored,
{
}

/// Restore is idempotent: it leaves the slot unchanged, so a second restore
/// with no intervening save acts on the same target as the first.
pub proof fn lemma_restore_idempotent(stored: isize)
    ensures
        ({
            let (after_first, first_target) = restore_transition(stored);
            let (after_second, second_target) = restore_transition(after_first);
            second_target == first_target && after_second == stored
        }),
{
}

} // verus!

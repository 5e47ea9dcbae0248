//! The one-time guard in front of the two background loops. The cache-ready
//! event can fire more than once per process; the guard makes sure the
//! caller schedules the loops on the first check only.

use vstd::prelude::*;

verus! {

/// Records whether the background loops have already been scheduled.
pub struct LoopGuard {
    is_loop_running: bool,
}

/// Whether a check of `g` tells the caller to schedule the loops now.
pub open spec fn spawn_decision(g: LoopGuard) -> bool {
    !g.spec_running()
}

/// The guard's state after one check, whatever it held before.
pub closed spec fn after_check(g: LoopGuard) -> LoopGuard {
    LoopGuard { is_loop_running: true }
}

impl LoopGuard {
    pub closed spec fn spec_running(&self) -> bool {
        self.is_loop_running
    }

    /// A fresh guard: nothing scheduled yet.
    pub fn new() -> (g: LoopGuard)
        ensures
            !g.spec_running(),
    {
        LoopGuard { is_loop_running: false }
    }

    /// One cache-ready check: reports whether to schedule the loops and
    /// marks them as running from here on.
    pub fn check_and_start(&mut self) -> (start: bool)
        ensures
            start == spawn_decision(*old(self)),
            *final(self) == after_check(*old(self)),
            final(self).spec_running(),
    {
        if self.is_loop_running {
            false
        } else {
            self.is_loop_running = true;
            true
        }
    }
}

/// Checking a fresh guard twice in sequence schedules the loops exactly
/// once: the first check says to start them, the second does not.
pub proof fn lemma_loops_start_once(g: LoopGuard)
    requires
        !g.spec_running(),
    ensures
        spawn_decision(g),
        !spawn_decision(after_check(g)),
{
}

} // verus!

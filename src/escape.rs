//! Iteration control of the escape-time kernel for `z <- z^2 + c`.
//!
//! The caller computes each step in floating point and reports two facts per
//! step: whether the squared magnitude passed the bailout, and whether the
//! point is back at the last snapshot. The control decides when to stop, what
//! count to report, and when to take a new snapshot.
use vstd::prelude::*;

verus! {

/// Number of steps between two snapshots of the orbit.
pub const PERIOD_CHECK: u32 = 20;

/// What the kernel does after one observed step.
#[derive(Clone, Copy, Debug, PartialEq, Eq)]
pub enum EscapeStep {
    /// The point escaped at this count.
    Escaped(u32),
    /// The orbit came back to its snapshot: the point is inside and reports
    /// this count, the cap.
    Periodic(u32),
    /// Iterate once more; store the current point as the new snapshot first
    /// when `snapshot` holds.
    Continue { snapshot: bool },
}

/// Iteration state of one escape-time pixel.
#[derive(Clone, Copy, Debug)]
pub struct EscapeControl {
    /// Steps taken so far.
    pub iteration: u32,
    /// Cap on the number of steps.
    pub max_iter: u32,
    /// Steps since the last snapshot.
    pub since_snapshot: u32,
    /// Steps between two snapshots.
    pub period_check: u32,
}

impl EscapeControl {
    pub open spec fn wf(&self) -> bool {
        &&& self.iteration <= self.max_iter
        &&& 0 < self.period_check
        &&& self.since_snapshot < self.period_check
    }

    /// Whether another step may be taken.
    pub open spec fn running(&self) -> bool {
        self.iteration < self.max_iter
    }

    /// The decision after a step: escape first, then a return to the
    /// snapshot (never at step 0), else go on.
    pub open spec fn step_spec(&self, escaped: bool, revisited: bool) -> EscapeStep {
        if escaped {
            EscapeStep::Escaped(self.iteration)
        } else if revisited && self.iteration > 0 {
            EscapeStep::Periodic(self.max_iter)
        } else {
            EscapeStep::Continue { snapshot: self.since_snapshot + 1 >= self.period_check }
        }
    }

    /// The state after a step.
    pub open spec fn next_spec(&self, escaped: bool, revisited: bool) -> EscapeControl {
        match self.step_spec(escaped, revisited) {
            EscapeStep::Continue { snapshot } => EscapeControl {
                iteration: (self.iteration + 1) as u32,
                since_snapshot: if snapshot {
                    0
                } else {
                    (self.since_snapshot + 1) as u32
                },
                ..*self
            },
            _ => *self,
        }
    }

    /// A fresh control, before step 0, with the start point as snapshot.
    pub fn new(max_iter: u32, period_check: u32) -> (r: EscapeControl)
        requires
            period_check > 0,
        ensures
            r.wf(),
            r.iteration == 0,
            r.since_snapshot == 0,
            r.max_iter == max_iter,
            r.period_check == period_check,
    {
        EscapeControl { iteration: 0, max_iter, since_snapshot: 0, period_check }
    }

    pub fn is_running(&self) -> (r: bool)
        ensures
            r == self.running(),
    {
        self.iteration < self.max_iter
    }

    /// Takes in what one step showed and says what comes next.
    pub fn observe(&mut self, escaped: bool, revisited: bool) -> (r: EscapeStep)
        requires
            old(self).wf(),
            old(self).running(),
        ensures
            r == old(self).step_spec(escaped, revisited),
            *final(self) == old(self).next_spec(escaped, revisited),
            final(self).wf(),
    {
        if escaped {
            EscapeStep::Escaped(self.iteration)
        } else if revisited && self.iteration > 0 {
            EscapeStep::Periodic(self.max_iter)
        } else {
            self.iteration = self.iteration + 1;
            let snapshot = self.since_snapshot + 1 >= self.period_check;
            if snapshot {
                self.since_snapshot = 0;
            } else {
                self.since_snapshot = self.since_snapshot + 1;
            }
            EscapeStep::Continue { snapshot }
        }
    }
}

/// No count that the escape-time control reports exceeds the cap, and each
/// step that goes on brings it one closer to the cap.
pub proof fn lemma_escape_count_capped(c: EscapeControl, escaped: bool, revisited: bool)
    requires
        c.wf(),
        c.running(),
    ensures
        match c.step_spec(escaped, revisited) {
            EscapeStep::Escaped(i) => i < c.max_iter,
            EscapeStep::Periodic(i) => i == c.max_iter,
            EscapeStep::Continue { .. } => {
                &&& c.next_spec(escaped, revisited).wf()
                &&& c.next_spec(escaped, revisited).iteration == c.iteration + 1
                &&& c.next_spec(escaped, revisited).max_iter == c.max_iter
            },
        },
{
}

} // verus!

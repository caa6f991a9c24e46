//! Iteration control of the Newton kernel for `z^n - 1`.
//!
//! The caller computes each Newton step in floating point and reports whether
//! the derivative vanished (the step stalls) and whether the step was shorter
//! than the tolerance (the step converged). The control decides when to stop
//! and which count to report.
use vstd::prelude::*;

verus! {

/// What the Newton kernel does after one observed step.
#[derive(Clone, Copy, Debug, PartialEq, Eq)]
pub enum NewtonStep {
    /// The derivative vanished: keep the point from before the step, with
    /// this count.
    Stalled(u32),
    /// The step was below the tolerance: keep the point after the step, with
    /// this count.
    Converged(u32),
    /// Take the new point and iterate once more.
    Continue,
}

/// Iteration state of one Newton pixel.
#[derive(Clone, Copy, Debug)]
pub struct NewtonControl {
    /// Steps taken so far.
    pub iteration: u32,
    /// Cap on the number of steps.
    pub max_iter: u32,
}

impl NewtonControl {
    pub open spec fn wf(&self) -> bool {
        self.iteration <= self.max_iter
    }

    /// Whether another step may be taken.
    pub open spec fn running(&self) -> bool {
        self.iteration < self.max_iter
    }

    /// The decision after a step: a vanished derivative first, then
    /// convergence, else go on.
    pub open spec fn step_spec(&self, stalled: bool, converged: bool) -> NewtonStep {
        if stalled {
            NewtonStep::Stalled(self.iteration)
        } else if converged {
            NewtonStep::Converged(self.iteration)
        } else {
            NewtonStep::Continue
        }
    }

    /// The state after a step.
    pub open spec fn next_spec(&self, stalled: bool, converged: bool) -> NewtonControl {
        match self.step_spec(stalled, converged) {
            NewtonStep::Continue => NewtonControl { iteration: (self.iteration + 1) as u32, ..*self },
            _ => *self,
        }
    }

    /// A fresh control, before step 0.
    pub fn new(max_iter: u32) -> (r: NewtonControl)
        ensures
            r.wf(),
            r.iteration == 0,
            r.max_iter == max_iter,
    {
        NewtonControl { iteration: 0, max_iter }
    }

    pub fn is_running(&self) -> (r: bool)
        ensures
            r == self.running(),
    {
        self.iteration < self.max_iter
    }

    /// Takes in what one step showed and says what comes next.
    pub fn observe(&mut self, stalled: bool, converged: bool) -> (r: NewtonStep)
        requires
            old(self).wf(),
            old(self).running(),
        ensures
            r == old(self).step_spec(stalled, converged),
            *final(self) == old(self).next_spec(stalled, converged),
            final(self).wf(),
    {
        if stalled {
            NewtonStep::Stalled(self.iteration)
        } else if converged {
            NewtonStep::Converged(self.iteration)
        } else {
            self.iteration = self.iteration + 1;
            NewtonStep::Continue
        }
    }
}

/// No count that the Newton control reports reaches past the cap, and each
/// step that goes on brings it one closer to the cap.
pub proof fn lemma_newton_count_capped(c: NewtonControl, stalled: bool, converged: bool)
    requires
        c.wf(),
        c.running(),
    ensures
        match c.step_spec(stalled, converged) {
            NewtonStep::Stalled(i) => i < c.max_iter,
            NewtonStep::Converged(i) => i < c.max_iter,
            NewtonStep::Continue => {
                &&& c.next_spec(stalled, converged).wf()
                &&& c.next_spec(stalled, converged).iteration == c.iteration + 1
                &&& c.next_spec(stalled, converged).max_iter == c.max_iter
            },
        },
{
}

} // verus!

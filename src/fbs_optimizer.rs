use std::time::Duration;
use vstd::prelude::*;

verus! {

/// Default cap on the number of forward-backward iterations.
pub const MAX_ITER: usize = 100;

/// Driver of a forward-backward splitting engine `E`, which it borrows
/// exclusively for its lifetime.
pub struct FBSOptimizer<'a, E> {
    fbs_engine: &'a mut E,
    max_iter: usize,
    max_duration: Option<Duration>,
}

/// Whether the iterations go on: the engine asks for another step, the cap
/// is not reached, and the time budget, if any, is not used up.
pub open spec fn fbs_continues(
    step_continues: bool,
    num_iter: usize,
    max_iter: usize,
    has_budget: bool,
    time_exceeded: bool,
) -> bool {
    step_continues && num_iter < max_iter && !(has_budget && time_exceeded)
}

impl<'a, E> FBSOptimizer<'a, E> {
    /// The engine as it currently stands.
    pub closed spec fn engine(&self) -> E {
        *self.fbs_engine
    }

    pub closed spec fn max_iter_spec(&self) -> usize {
        self.max_iter
    }

    pub closed spec fn max_duration_spec(&self) -> Option<Duration> {
        self.max_duration
    }

    /// A driver with the default iteration cap and no time budget.
    pub fn new(fbs_engine: &'a mut E) -> (r: Self)
        ensures
            r.engine() == *old(fbs_engine),
            r.max_iter_spec() == MAX_ITER,
            r.max_duration_spec() is None,
    {
        FBSOptimizer { fbs_engine, max_iter: MAX_ITER, max_duration: None }
    }

    /// Sets the maximum number of iterations.
    pub fn with_max_iter(&mut self, max_iter: usize) -> (r: &mut Self)
        ensures
            r.engine() == old(self).engine(),
            r.max_iter_spec() == max_iter,
            r.max_duration_spec() == old(self).max_duration_spec(),
            *final(self) == *final(r),
    {
        self.max_iter = max_iter;
        self
    }

    /// Sets the time budget.
    pub fn with_max_duration(&mut self, max_duration: Duration) -> (r: &mut Self)
        ensures
            r.engine() == old(self).engine(),
            r.max_iter_spec() == old(self).max_iter_spec(),
            r.max_duration_spec() == Some(max_duration),
            *final(self) == *final(r),
    {
        self.max_duration = Some(max_duration);
        self
    }

    /// The engine, for the caller to step it.
    pub fn fbs_engine_mut(&mut self) -> (r: &mut E)
        ensures
            *r == old(self).engine(),
            final(self).engine() == *final(r),
            final(self).max_iter_spec() == old(self).max_iter_spec(),
            final(self).max_duration_spec() == old(self).max_duration_spec(),
    {
        self.fbs_engine
    }

    pub fn max_iter(&self) -> (r: usize)
        ensures
            r == self.max_iter_spec(),
    {
        self.max_iter
    }

    pub fn max_duration(&self) -> (r: Option<Duration>)
        ensures
            r == self.max_duration_spec(),
    {
        self.max_duration
    }

    /// Whether to make another iteration after `num_iter` counted ones, when
    /// the engine's last step returned `step_continues` and `time_exceeded`
    /// tells whether the elapsed time is past the budget.
    pub fn should_continue(&self, step_continues: bool, num_iter: usize, time_exceeded: bool) -> (r: bool)
        ensures
            r == fbs_continues(step_continues, num_iter, self.max_iter_spec(),
                self.max_duration_spec() is Some, time_exceeded),
    {
        step_continues && num_iter < self.max_iter && !(self.max_duration.is_some() && time_exceeded)
    }

    /// Whether a run that ended after `num_iter` counted iterations converged,
    /// that is, stopped before the cap.
    pub fn is_converged(&self, num_iter: usize) -> (r: bool)
        ensures
            r == (num_iter < self.max_iter_spec()),
    {
        num_iter < self.max_iter
    }
}

} // verus!

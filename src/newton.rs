use vstd::prelude::*;

verus! {

/// The iteration count of one Newton solve: each iteration evaluates the
/// residual and either accepts the current iterate or takes a step.
#[derive(Debug, Clone, Copy)]
pub struct NewtonCount {
    pub max_iter: usize,
    /// Iterations completed without convergence.
    pub iter: usize,
}

impl NewtonCount {
    pub open spec fn wf(&self) -> bool {
        self.iter <= self.max_iter
    }

    pub fn new(max_iter: usize) -> (r: Self)
        ensures
            r.wf(),
            r.max_iter == max_iter,
            r.iter == 0,
    {
        NewtonCount { max_iter, iter: 0 }
    }

    /// Whether another iteration is within the budget.
    pub fn has_budget(&self) -> (r: bool)
        ensures
            r == (self.iter < self.max_iter),
    {
        self.iter < self.max_iter
    }

    /// Records the residual test of the current iteration. On convergence
    /// this iteration counts as the one that achieved it, and the number of
    /// iterations used is returned; otherwise a step is taken.
    pub fn observe(&mut self, converged: bool) -> (r: Option<usize>)
        requires
            old(self).wf(),
            old(self).iter < old(self).max_iter,
        ensures
            final(self).wf(),
            final(self).max_iter == old(self).max_iter,
            converged ==> r == Some((old(self).iter + 1) as usize) && final(self).iter == old(
                self,
            ).iter,
            !converged ==> r is None && final(self).iter == old(self).iter + 1,
            r matches Some(k) ==> 1 <= k <= old(self).max_iter,
    {
        if converged {
            Some(self.iter + 1)
        } else {
            self.iter = self.iter + 1;
            None
        }
    }

    /// The iterations performed so far without convergence: after a failed
    /// solve, the iterations it actually took (the whole budget when it ran
    /// out, fewer when a linear solve failed).
    pub fn performed(&self) -> (r: usize)
        requires
            self.wf(),
        ensures
            r == self.iter,
            r <= self.max_iter,
    {
        self.iter
    }

    /// The count a failed solve reports: the whole budget.
    pub fn budget(&self) -> (r: usize)
        ensures
            r == self.max_iter,
    {
        self.max_iter
    }
}

} // verus!

use vstd::prelude::*;

verus! {

/// Counters kept over one continuation run.
#[derive(Debug, Clone, Copy, PartialEq, Eq, Structural)]
pub struct ComputationStats {
    /// Continuation steps completed.
    pub total_steps: usize,
    /// Newton iterations over all corrector calls.
    pub newton_iterations: usize,
    /// Jacobian evaluations over all corrector calls.
    pub jacobian_evaluations: usize,
    /// Times the arclength step was halved after a failed corrector.
    pub step_size_reductions: usize,
    /// Bifurcation points tagged on the branch.
    pub bifurcations_detected: usize,
    /// Branch switches performed to reach this branch.
    pub branch_switches: usize,
}

impl ComputationStats {
    pub open spec fn is_zero(&self) -> bool {
        &&& self.total_steps == 0
        &&& self.newton_iterations == 0
        &&& self.jacobian_evaluations == 0
        &&& self.step_size_reductions == 0
        &&& self.bifurcations_detected == 0
        &&& self.branch_switches == 0
    }

    /// All counters at zero.
    pub fn new() -> (r: Self)
        ensures
            r.is_zero(),
    {
        ComputationStats {
            total_steps: 0,
            newton_iterations: 0,
            jacobian_evaluations: 0,
            step_size_reductions: 0,
            bifurcations_detected: 0,
            branch_switches: 0,
        }
    }

    /// The counters of a branch reached by one branch switch: those of the
    /// run that traced it, with the switch counter set to one.
    pub fn after_branch_switch(self) -> (r: Self)
        ensures
            r == (ComputationStats { branch_switches: 1, ..self }),
    {
        ComputationStats { branch_switches: 1, ..self }
    }
}

impl Default for ComputationStats {
    fn default() -> (r: Self)
        ensures
            r.is_zero(),
    {
        ComputationStats::new()
    }
}

} // verus!

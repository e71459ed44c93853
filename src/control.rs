use vstd::prelude::*;
use crate::stats::ComputationStats;

verus! {

/// What an arclength run does after its corrector failed and the step was
/// halved.
#[derive(Debug, Clone, Copy, PartialEq, Eq, Structural)]
pub enum RetryDecision {
    /// Try the predictor and corrector again from the last accepted point.
    Retry,
    /// The halved step fell below the minimum: the run fails.
    StepTooSmall,
}

/// The counters that both drivers keep consistent: every corrector iteration
/// is one Newton iteration and one Jacobian evaluation, and every step
/// attempted was either accepted or ended in a step-size reduction.
pub open spec fn counters_consistent(
    stats: ComputationStats,
    step: usize,
    newton_max_iter: usize,
) -> bool {
    &&& stats.newton_iterations == stats.jacobian_evaluations
    &&& stats.newton_iterations <= step * newton_max_iter
    &&& stats.bifurcations_detected <= step
    &&& stats.total_steps + stats.step_size_reductions == step
    &&& stats.branch_switches == 0
}

/// Step control of natural-parameter continuation: the parameter advances by
/// a fixed step and the state is corrected at each value.
#[derive(Debug, Clone, Copy)]
pub struct NaturalRun {
    pub max_steps: usize,
    pub newton_max_iter: usize,
    pub detect_bifurcations: bool,
    /// Steps attempted so far.
    pub step: usize,
    /// Set once the parameter has passed its end value.
    pub finished: bool,
    pub stats: ComputationStats,
}

impl NaturalRun {
    pub open spec fn wf(&self) -> bool {
        &&& self.step <= self.max_steps
        &&& self.max_steps * self.newton_max_iter <= usize::MAX
        &&& counters_consistent(self.stats, self.step, self.newton_max_iter)
        &&& self.stats.step_size_reductions == 0
        &&& self.stats.total_steps == self.step
    }

    pub open spec fn spec_wants_step(&self) -> bool {
        !self.finished && self.step < self.max_steps
    }

    /// A run that has taken no step.
    pub fn new(max_steps: usize, newton_max_iter: usize, detect_bifurcations: bool) -> (r: Self)
        requires
            max_steps * newton_max_iter <= usize::MAX,
        ensures
            r.wf(),
            r.max_steps == max_steps,
            r.newton_max_iter == newton_max_iter,
            r.detect_bifurcations == detect_bifurcations,
            r.step == 0,
            !r.finished,
            r.stats.is_zero(),
    {
        NaturalRun {
            max_steps,
            newton_max_iter,
            detect_bifurcations,
            step: 0,
            finished: false,
            stats: ComputationStats::new(),
        }
    }

    /// Whether another step is to be taken: the parameter has not passed its
    /// end and the step budget is not spent.
    pub fn wants_step(&self) -> (r: bool)
        ensures
            r == self.spec_wants_step(),
    {
        !self.finished && self.step < self.max_steps
    }

    /// Whether the point of the coming step is compared with the previous one
    /// for a bifurcation: detection is on and a previous point exists.
    pub fn compares_eigenvalues(&self) -> (r: bool)
        ensures
            r == (self.detect_bifurcations && self.step > 0),
    {
        self.detect_bifurcations && self.step > 0
    }

    /// Records a step whose corrector converged in `newton_iters` iterations.
    /// `bifurcation_found` says whether the new point was tagged, `past_end`
    /// whether the advanced parameter has passed its end value. Every accepted
    /// step counts, the one that passes the end included.
    pub fn accept(&mut self, newton_iters: usize, bifurcation_found: bool, past_end: bool)
        requires
            old(self).wf(),
            old(self).spec_wants_step(),
            newton_iters <= old(self).newton_max_iter,
            bifurcation_found ==> old(self).detect_bifurcations && old(self).step > 0,
        ensures
            final(self).wf(),
            final(self).max_steps == old(self).max_steps,
            final(self).newton_max_iter == old(self).newton_max_iter,
            final(self).detect_bifurcations == old(self).detect_bifurcations,
            final(self).step == old(self).step + 1,
            final(self).finished == past_end,
            final(self).stats.total_steps == old(self).stats.total_steps + 1,
            final(self).stats.newton_iterations == old(self).stats.newton_iterations + newton_iters,
            final(self).stats.jacobian_evaluations == old(self).stats.jacobian_evaluations
                + newton_iters,
            final(self).stats.bifurcations_detected == old(self).stats.bifurcations_detected + (
            if bifurcation_found {
                1int
            } else {
                0int
            }),
            final(self).stats.step_size_reductions == old(self).stats.step_size_reductions,
            final(self).stats.branch_switches == old(self).stats.branch_switches,
    {
        proof {
            let s = self.step as int;
            let m = self.newton_max_iter as int;
            let k = self.max_steps as int;
            assert((s + 1) * m <= k * m) by (nonlinear_arith)
                requires
                    s + 1 <= k,
                    0 <= m,
            ;
            assert((s + 1) * m == s * m + m) by (nonlinear_arith);
        }
        self.stats.newton_iterations = self.stats.newton_iterations + newton_iters;
        self.stats.jacobian_evaluations = self.stats.jacobian_evaluations + newton_iters;
        if bifurcation_found {
            self.stats.bifurcations_detected = self.stats.bifurcations_detected + 1;
        }
        self.step = self.step + 1;
        self.stats.total_steps = self.stats.total_steps + 1;
        if past_end {
            self.finished = true;
        }
    }
}

/// Step control of pseudo-arclength continuation: the step along the branch
/// grows after quick corrections and is halved after failed ones.
#[derive(Debug, Clone, Copy)]
pub struct ArclengthRun {
    pub max_steps: usize,
    pub newton_max_iter: usize,
    pub detect_bifurcations: bool,
    /// Steps attempted so far, failed corrections included.
    pub step: usize,
    /// Set once the parameter has passed its end value, or the step has
    /// become too small.
    pub finished: bool,
    pub stats: ComputationStats,
}

/// A correction that took fewer than three iterations lets the step grow.
pub open spec fn spec_grows_step(newton_iters: usize) -> bool {
    newton_iters < 3
}

impl ArclengthRun {
    pub open spec fn wf(&self) -> bool {
        &&& self.step <= self.max_steps
        &&& self.max_steps * self.newton_max_iter <= usize::MAX
        &&& counters_consistent(self.stats, self.step, self.newton_max_iter)
    }

    pub open spec fn spec_wants_step(&self) -> bool {
        !self.finished && self.step < self.max_steps
    }

    /// A run whose first point is recorded and that has taken no step.
    pub fn new(max_steps: usize, newton_max_iter: usize, detect_bifurcations: bool) -> (r: Self)
        requires
            max_steps * newton_max_iter <= usize::MAX,
        ensures
            r.wf(),
            r.max_steps == max_steps,
            r.newton_max_iter == newton_max_iter,
            r.detect_bifurcations == detect_bifurcations,
            r.step == 0,
            !r.finished,
            r.stats.is_zero(),
    {
        ArclengthRun {
            max_steps,
            newton_max_iter,
            detect_bifurcations,
            step: 0,
            finished: false,
            stats: ComputationStats::new(),
        }
    }

    /// Whether another predictor-corrector cycle is to be run.
    pub fn wants_step(&self) -> (r: bool)
        ensures
            r == self.spec_wants_step(),
    {
        !self.finished && self.step < self.max_steps
    }

    /// Whether a newly accepted point is compared with the previous one: the
    /// first point is recorded before any step, so this is the detection
    /// switch alone.
    pub fn compares_eigenvalues(&self) -> (r: bool)
        ensures
            r == self.detect_bifurcations,
    {
        self.detect_bifurcations
    }

    /// Records a step whose corrector converged in `newton_iters` iterations,
    /// and says whether the step size grows (by half, up to its maximum).
    pub fn accept(&mut self, newton_iters: usize, bifurcation_found: bool, past_end: bool) -> (grow:
        bool)
        requires
            old(self).wf(),
            old(self).spec_wants_step(),
            newton_iters <= old(self).newton_max_iter,
            bifurcation_found ==> old(self).detect_bifurcations,
        ensures
            grow == spec_grows_step(newton_iters),
            final(self).wf(),
            final(self).max_steps == old(self).max_steps,
            final(self).newton_max_iter == old(self).newton_max_iter,
            final(self).detect_bifurcations == old(self).detect_bifurcations,
            final(self).step == old(self).step + 1,
            final(self).finished == past_end,
            final(self).stats.total_steps == old(self).stats.total_steps + 1,
            final(self).stats.newton_iterations == old(self).stats.newton_iterations + newton_iters,
            final(self).stats.jacobian_evaluations == old(self).stats.jacobian_evaluations
                + newton_iters,
            final(self).stats.bifurcations_detected == old(self).stats.bifurcations_detected + (
            if bifurcation_found {
                1int
            } else {
                0int
            }),
            final(self).stats.step_size_reductions == old(self).stats.step_size_reductions,
            final(self).stats.branch_switches == old(self).stats.branch_switches,
    {
        proof {
            let s = self.step as int;
            let m = self.newton_max_iter as int;
            let k = self.max_steps as int;
            assert((s + 1) * m <= k * m) by (nonlinear_arith)
                requires
                    s + 1 <= k,
                    0 <= m,
            ;
            assert((s + 1) * m == s * m + m) by (nonlinear_arith);
        }
        self.stats.newton_iterations = self.stats.newton_iterations + newton_iters;
        self.stats.jacobian_evaluations = self.stats.jacobian_evaluations + newton_iters;
        if bifurcation_found {
            self.stats.bifurcations_detected = self.stats.bifurcations_detected + 1;
        }
        self.step = self.step + 1;
        self.stats.total_steps = self.stats.total_steps + 1;
        if past_end {
            self.finished = true;
        }
        newton_iters < 3
    }

    /// Records a failed correction that performed `newton_iters` iterations,
    /// after which the step was halved; `below_min` says whether the halved
    /// step is below the minimum step. A failed correction is no accepted
    /// step, but its iterations are counted.
    pub fn reject(&mut self, newton_iters: usize, below_min: bool) -> (r: RetryDecision)
        requires
            old(self).wf(),
            old(self).spec_wants_step(),
            newton_iters <= old(self).newton_max_iter,
        ensures
            r == (if below_min {
                RetryDecision::StepTooSmall
            } else {
                RetryDecision::Retry
            }),
            final(self).wf(),
            final(self).max_steps == old(self).max_steps,
            final(self).newton_max_iter == old(self).newton_max_iter,
            final(self).detect_bifurcations == old(self).detect_bifurcations,
            final(self).step == old(self).step + 1,
            final(self).finished == below_min,
            final(self).stats.total_steps == old(self).stats.total_steps,
            final(self).stats.newton_iterations == old(self).stats.newton_iterations + newton_iters,
            final(self).stats.jacobian_evaluations == old(self).stats.jacobian_evaluations
                + newton_iters,
            final(self).stats.bifurcations_detected == old(self).stats.bifurcations_detected,
            final(self).stats.step_size_reductions == old(self).stats.step_size_reductions + 1,
            final(self).stats.branch_switches == old(self).stats.branch_switches,
    {
        proof {
            let s = self.step as int;
            let m = self.newton_max_iter as int;
            let k = self.max_steps as int;
            assert((s + 1) * m <= k * m) by (nonlinear_arith)
                requires
                    s + 1 <= k,
                    0 <= m,
            ;
            assert((s + 1) * m == s * m + m) by (nonlinear_arith);
        }
        self.stats.newton_iterations = self.stats.newton_iterations + newton_iters;
        self.stats.jacobian_evaluations = self.stats.jacobian_evaluations + newton_iters;
        self.stats.step_size_reductions = self.stats.step_size_reductions + 1;
        self.step = self.step + 1;
        if below_min {
            self.finished = true;
            RetryDecision::StepTooSmall
        } else {
            RetryDecision::Retry
        }
    }
}

} // verus!

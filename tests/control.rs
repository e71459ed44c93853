use oldies::{ArclengthRun, ComputationStats, NaturalRun, NewtonCount, RetryDecision};

#[test]
fn natural_run_counts_steps_and_iterations() {
    let mut run = NaturalRun::new(30, 20, true);
    assert!(run.wants_step());
    assert!(!run.compares_eigenvalues());
    run.accept(4, false, false);
    assert!(run.compares_eigenvalues());
    run.accept(3, true, false);
    assert_eq!(run.stats.total_steps, 2);
    assert_eq!(run.stats.newton_iterations, 7);
    assert_eq!(run.stats.jacobian_evaluations, 7);
    assert_eq!(run.stats.bifurcations_detected, 1);
    // the step that passes the end is accepted and counted like the others
    run.accept(2, false, true);
    assert!(!run.wants_step());
    assert_eq!(run.stats.total_steps, 3);
    assert_eq!(run.stats.newton_iterations, 9);
    assert_eq!(run.step, 3);
}

#[test]
fn natural_run_stops_at_the_step_budget() {
    let mut run = NaturalRun::new(2, 5, false);
    assert!(!run.compares_eigenvalues());
    run.accept(1, false, false);
    assert!(!run.compares_eigenvalues());
    run.accept(1, false, false);
    assert!(!run.wants_step());
    assert_eq!(run.stats.total_steps, 2);
    assert_eq!(run.stats.step_size_reductions, 0);
}

#[test]
fn arclength_run_grows_after_quick_corrections_only() {
    let mut run = ArclengthRun::new(10, 20, true);
    assert!(run.compares_eigenvalues());
    assert!(run.accept(2, false, false));
    assert!(!run.accept(3, false, false));
    assert!(!run.accept(7, true, false));
    assert_eq!(run.stats.total_steps, 3);
    assert_eq!(run.stats.newton_iterations, 12);
    assert_eq!(run.stats.bifurcations_detected, 1);
    // the step that passes the end is counted too
    run.accept(1, false, true);
    assert!(!run.wants_step());
    assert_eq!(run.stats.total_steps, 4);
}

#[test]
fn arclength_run_retries_then_gives_up() {
    let mut run = ArclengthRun::new(10, 20, false);
    assert_eq!(run.reject(20, false), RetryDecision::Retry);
    assert_eq!(run.stats.step_size_reductions, 1);
    // a failed correction is no accepted step, but its iterations count
    assert_eq!(run.stats.total_steps, 0);
    assert_eq!(run.stats.newton_iterations, 20);
    assert_eq!(run.stats.jacobian_evaluations, 20);
    assert!(run.wants_step());
    assert!(run.accept(2, false, false));
    assert_eq!(run.stats.total_steps, 1);
    assert_eq!(run.reject(5, true), RetryDecision::StepTooSmall);
    assert_eq!(run.stats.step_size_reductions, 2);
    assert_eq!(run.stats.total_steps, 1);
    assert_eq!(run.stats.newton_iterations, 27);
    assert!(!run.wants_step());
}

#[test]
fn newton_count_reports_the_converging_iteration() {
    let mut count = NewtonCount::new(3);
    assert!(count.has_budget());
    assert_eq!(count.observe(false), None);
    assert_eq!(count.observe(true), Some(2));
    let mut count = NewtonCount::new(2);
    assert_eq!(count.observe(false), None);
    assert_eq!(count.observe(false), None);
    assert!(!count.has_budget());
    assert_eq!(count.budget(), 2);
    assert_eq!(count.performed(), 2);
    let mut count = NewtonCount::new(1);
    assert_eq!(count.observe(true), Some(1));
    assert_eq!(count.performed(), 0);
    let mut count = NewtonCount::new(5);
    assert_eq!(count.observe(false), None);
    // a linear solve failing after this iteration leaves one performed
    assert_eq!(count.performed(), 1);
}

#[test]
fn stats_start_at_zero_and_switch_sets_one() {
    let stats = ComputationStats::default();
    assert_eq!(stats, ComputationStats::new());
    assert_eq!(stats.total_steps, 0);
    let mut run = ArclengthRun::new(5, 4, false);
    run.accept(4, false, false);
    let switched = run.stats.after_branch_switch();
    assert_eq!(switched.branch_switches, 1);
    assert_eq!(switched.newton_iterations, 4);
    assert_eq!(switched.total_steps, 1);
}

#[test]
fn natural_run_replays_identically() {
    let outcomes = [(3, false, false), (2, true, false), (4, false, false), (1, false, true)];
    let mut first = NaturalRun::new(10, 20, true);
    let mut second = NaturalRun::new(10, 20, true);
    for &(iters, found, past_end) in outcomes.iter() {
        let found_first = found && first.compares_eigenvalues();
        let found_second = found && second.compares_eigenvalues();
        first.accept(iters, found_first, past_end);
        second.accept(iters, found_second, past_end);
    }
    assert_eq!(first.stats, second.stats);
    assert_eq!(first.step, second.step);
    assert_eq!(first.finished, second.finished);
    assert_eq!(first.stats.total_steps, 4);
    assert_eq!(first.stats.bifurcations_detected, 1);
}

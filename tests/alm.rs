use optimization_engine::alm_cache::AlmCache;
use optimization_engine::alm_optimizer::{
    AlmOptimizer, AlmParameters, InfeasibilityTests, SolveState, DEFAULT_MAX_INNER_ITERATIONS,
    DEFAULT_MAX_OUTER_ITERATIONS,
};
use optimization_engine::SolverError;
use std::time::Duration;

fn parameters() -> AlmParameters<f64> {
    AlmParameters {
        epsilon_tolerance: 1e-6,
        delta_tolerance: 1e-4,
        penalty_update_factor: 5.0,
        epsilon_update_factor: 0.1,
        sufficient_decrease_coeff: 0.1,
        epsilon_inner_initial: 0.1,
    }
}

fn no_progress() -> InfeasibilityTests {
    InfeasibilityTests {
        alm_within_tolerance: false,
        pm_within_tolerance: false,
        alm_sufficient_decrease: false,
        pm_sufficient_decrease: false,
    }
}

fn assert_nearly_equal(a: f64, b: f64, tol: f64, msg: &str) {
    assert!((a - b).abs() <= tol, "{}: {} vs {}", msg, a, b);
}

#[test]
fn t_with_initial_penalty() {
    let tolerance = 1e-8;
    let n1 = 5;
    let n2 = 0;
    let mut alm_cache = AlmCache::new(n1, n2, 0.0, 1.0, tolerance);

    let alm_optimizer = AlmOptimizer::new(&mut alm_cache, (), parameters()).with_initial_penalty(7.0);
    assert!(!alm_optimizer.alm_cache().xi.is_none());
    if let Some(xi) = &alm_optimizer.alm_cache().xi {
        assert_nearly_equal(7.0, xi[0], 1e-10, "initial penalty parameter not set properly");
    }

    let y_init = vec![2.0, 3.0, 4.0, 5.0, 6.0];
    let alm_optimizer = alm_optimizer.with_initial_lagrange_multipliers(&y_init);
    if let Some(xi) = &alm_optimizer.alm_cache().xi {
        for (a, b) in y_init.iter().zip(xi[1..].iter()) {
            assert_nearly_equal(*a, *b, 1e-10, "initial Langrange multipliers not set properly");
        }
    }
}

#[test]
fn cache_layout_follows_dimensions() {
    let cache = AlmCache::new(3, 2, 0.0, 1.0, 0.1);
    assert_eq!(cache.xi, Some(vec![1.0, 0.0, 0.0, 0.0]));
    assert_eq!(cache.y_plus, Some(vec![0.0; 3]));
    assert_eq!(cache.w_alm_aux, Some(vec![0.0; 3]));
    assert_eq!(cache.w_pm, Some(vec![0.0; 2]));
    assert_eq!(cache.iteration, 0);

    let empty = AlmCache::new(0, 0, 0.0, 1.0, 0.1);
    assert!(empty.xi.is_none());
    assert!(empty.y_plus.is_none());
    assert!(empty.w_alm_aux.is_none());
    assert!(empty.w_pm.is_none());
}

#[test]
fn new_uses_defaults_and_initial_inner_tolerance() {
    let mut cache = AlmCache::new(2, 1, 0.0, 1.0, 1e-8);
    let opt = AlmOptimizer::new(&mut cache, (), parameters());
    assert_eq!(opt.max_outer_iterations(), 50);
    assert_eq!(opt.max_inner_iterations(), 5000);
    assert_eq!(DEFAULT_MAX_OUTER_ITERATIONS, 50);
    assert_eq!(DEFAULT_MAX_INNER_ITERATIONS, 5000);
    assert!(opt.max_duration().is_none());
    assert_eq!(opt.alm_cache().akkt_tolerance, 0.1);

    let opt = opt
        .with_max_outer_iterations(10)
        .with_max_inner_iterations(20)
        .with_max_duration(Duration::from_millis(30))
        .with_delta_tolerance(1e-3)
        .with_epsilon_tolerance(1e-5)
        .with_penalty_update_factor(10.0)
        .with_inner_tolerance_update_factor(0.5)
        .with_sufficient_decrease_coefficient(0.2)
        .with_initial_inner_tolerance(0.01);
    assert_eq!(opt.max_outer_iterations(), 10);
    assert_eq!(opt.max_inner_iterations(), 20);
    assert_eq!(opt.max_duration(), Some(Duration::from_millis(30)));
    let p = opt.parameters();
    assert_eq!(p.delta_tolerance, 1e-3);
    assert_eq!(p.epsilon_tolerance, 1e-5);
    assert_eq!(p.penalty_update_factor, 10.0);
    assert_eq!(p.epsilon_update_factor, 0.5);
    assert_eq!(p.sufficient_decrease_coeff, 0.2);
    assert_eq!(p.epsilon_inner_initial, 0.01);
    assert_eq!(opt.alm_cache().akkt_tolerance, 0.01);
}

#[test]
fn penalty_stalls_at_first_iteration() {
    let mut cache = AlmCache::new(2, 0, 0.0, 3.0, 0.1);
    let mut opt = AlmOptimizer::new(&mut cache, (), parameters());
    opt.alm_cache_mut().set_infeasibilities(10.0, 0.0);
    assert!(opt.is_penalty_stall_criterion(&no_progress()));
    assert!(opt.conclude_step(&no_progress(), 15.0, 0.01));
    assert_eq!(opt.alm_cache().xi.as_ref().unwrap()[0], 3.0);
    assert_eq!(opt.alm_cache().iteration, 1);
    assert_eq!(opt.alm_cache().akkt_tolerance, 0.01);
}

#[test]
fn penalty_escalates_without_progress() {
    let c0 = 2.0;
    let rho = 5.0;
    let mut cache = AlmCache::new(1, 1, 0.0, c0, 0.1);
    let mut opt = AlmOptimizer::new(&mut cache, (), parameters());
    // the first step holds the penalty
    assert!(opt.conclude_step(&no_progress(), c0 * rho, 0.01));
    // two more steps without sufficient decrease raise it twice
    for _ in 0..2 {
        let c = opt.alm_cache().xi.as_ref().unwrap()[0];
        assert!(!opt.is_penalty_stall_criterion(&no_progress()));
        assert!(opt.conclude_step(&no_progress(), c * rho, 0.01));
    }
    assert_eq!(opt.alm_cache().xi.as_ref().unwrap()[0], c0 * rho * rho);
    assert_eq!(opt.alm_cache().iteration, 3);
}

#[test]
fn sufficient_decrease_keeps_penalty() {
    let mut cache = AlmCache::new(1, 1, 0.0, 4.0, 0.1);
    let mut opt = AlmOptimizer::new(&mut cache, (), parameters());
    assert!(opt.conclude_step(&no_progress(), 20.0, 0.01));
    let alm_decrease = InfeasibilityTests { alm_sufficient_decrease: true, ..no_progress() };
    assert!(opt.conclude_step(&alm_decrease, 20.0, 0.001));
    let pm_decrease = InfeasibilityTests { pm_sufficient_decrease: true, ..no_progress() };
    assert!(opt.conclude_step(&pm_decrease, 20.0, 0.0001));
    assert_eq!(opt.alm_cache().xi.as_ref().unwrap()[0], 4.0);
}

#[test]
fn exit_stops_and_leaves_cache() {
    let mut cache = AlmCache::new(2, 1, 0.0, 1.0, 0.1);
    let mut opt = AlmOptimizer::new(&mut cache, (), parameters());
    opt.alm_cache_mut().set_infeasibilities(1e-6, 1e-7);
    let within = InfeasibilityTests {
        alm_within_tolerance: true,
        pm_within_tolerance: true,
        ..no_progress()
    };
    assert!(opt.is_exit_criterion_satisfied(&within));
    assert!(!opt.conclude_step(&within, 5.0, 0.01));
    assert_eq!(opt.alm_cache().iteration, 0);
    assert_eq!(opt.alm_cache().akkt_tolerance, 0.1);
    assert_eq!(opt.alm_cache().delta_y_norm, 0.0);
    assert_eq!(opt.after_step(Ok(false), false), SolveState::Converged);

    let alm_only = InfeasibilityTests { alm_within_tolerance: true, ..no_progress() };
    assert!(!opt.is_exit_criterion_satisfied(&alm_only));
}

#[test]
fn final_update_moves_current_infeasibilities() {
    let mut cache = AlmCache::new(2, 2, 0.0, 1.0, 0.1);
    cache.set_infeasibilities(0.5, 0.25);
    assert_eq!(cache.delta_y_norm_plus, 0.5);
    assert_eq!(cache.f2_norm_plus, 0.25);
    cache.final_cache_update();
    assert_eq!(cache.delta_y_norm, 0.5);
    assert_eq!(cache.f2_norm, 0.25);
    assert_eq!(cache.iteration, 1);
}

#[test]
fn unconstrained_problem_converges_in_one_step() {
    let mut cache = AlmCache::new(0, 0, 0.0, 1.0, 0.1);
    let mut opt = AlmOptimizer::new(&mut cache, (), parameters());
    assert_eq!(opt.start_solve(), SolveState::OuterRunning);
    opt.alm_cache_mut().set_infeasibilities(3.0, 4.0);
    assert_eq!(opt.alm_cache().delta_y_norm_plus, 0.0);
    assert_eq!(opt.alm_cache().f2_norm_plus, 0.0);
    let go_on = opt.conclude_step(&no_progress(), 5.0, 0.01);
    assert!(!go_on);
    assert_eq!(opt.after_step(Ok(go_on), false), SolveState::Converged);
    assert_eq!(opt.alm_cache().delta_y_norm, 0.0);
    assert_eq!(opt.alm_cache().f2_norm, 0.0);
}

#[test]
fn buffers_keep_their_length() {
    let mut cache = AlmCache::new(3, 2, 0.0, 1.0, 0.1);
    let mut opt = AlmOptimizer::new(&mut cache, (), parameters()).with_initial_penalty(2.0);
    let opt2 = {
        for _ in 0..4 {
            let c = opt.alm_cache().xi.as_ref().unwrap()[0];
            opt.conclude_step(&no_progress(), c * 5.0, 0.01);
        }
        opt.with_initial_lagrange_multipliers(&[1.0, 2.0, 3.0])
    };
    let c = opt2.alm_cache();
    assert_eq!(c.xi.as_ref().unwrap().len(), 4);
    assert_eq!(c.y_plus.as_ref().unwrap().len(), 3);
    assert_eq!(c.w_alm_aux.as_ref().unwrap().len(), 3);
    assert_eq!(c.w_pm.as_ref().unwrap().len(), 2);
    assert_eq!(c.xi.as_ref().unwrap()[1..], [1.0, 2.0, 3.0]);
}

#[test]
fn solve_state_transitions() {
    let mut cache = AlmCache::new(1, 0, 0.0, 1.0, 0.1);
    let mut opt = AlmOptimizer::new(&mut cache, (), parameters()).with_max_outer_iterations(2);
    assert_eq!(opt.after_step(Ok(true), false), SolveState::OuterRunning);
    assert_eq!(opt.after_step(Ok(true), true), SolveState::Timeout);
    assert_eq!(opt.after_step(Ok(false), true), SolveState::Converged);
    assert_eq!(
        opt.after_step(Err(SolverError::Cost), false),
        SolveState::Failed(SolverError::Cost)
    );
    assert_eq!(
        opt.after_step(Err(SolverError::CostGradientEval), false),
        SolveState::Failed(SolverError::CostGradientEval)
    );
    assert_eq!(
        opt.after_step(Err(SolverError::Constraint), false),
        SolveState::Failed(SolverError::Constraint)
    );
    assert_eq!(
        opt.after_step(Err(SolverError::Other), false),
        SolveState::Failed(SolverError::Other)
    );
    opt.conclude_step(&no_progress(), 1.0, 0.01);
    opt.conclude_step(&no_progress(), 1.0, 0.01);
    assert_eq!(opt.after_step(Ok(true), false), SolveState::Exhausted);
    assert_eq!(opt.start_solve(), SolveState::Exhausted);
}

use crate::alm_cache::AlmCache;
use crate::SolverError;
use std::time::Duration;
use vstd::prelude::*;

verus! {

/// Default cap on the number of outer iterations.
pub const DEFAULT_MAX_OUTER_ITERATIONS: usize = 50;

/// Default cap on the number of inner iterations.
pub const DEFAULT_MAX_INNER_ITERATIONS: usize = 5000;

/// The real-valued parameters of the outer loop.
#[derive(Clone, Copy, Debug)]
pub struct AlmParameters<T> {
    /// Target tolerance of the inner (AKKT) problem
    pub epsilon_tolerance: T,
    /// Tolerance of the outer feasibility test
    pub delta_tolerance: T,
    /// Factor by which the penalty grows when it does not stall
    pub penalty_update_factor: T,
    /// Factor by which the inner tolerance shrinks at each iteration
    pub epsilon_update_factor: T,
    /// Threshold of sufficient decrease of an infeasibility
    pub sufficient_decrease_coeff: T,
    /// Initial tolerance of the inner problem
    pub epsilon_inner_initial: T,
}

/// What the tests on the measured infeasibilities found at the end of an
/// outer iteration.
#[derive(Clone, Copy, Debug, PartialEq, Eq, Structural)]
pub struct InfeasibilityTests {
    /// `delta_y_norm_plus <= c * delta_tolerance`
    pub alm_within_tolerance: bool,
    /// `f2_norm_plus <= delta_tolerance`
    pub pm_within_tolerance: bool,
    /// `delta_y_norm_plus < sufficient_decrease_coeff * delta_y_norm`
    pub alm_sufficient_decrease: bool,
    /// `f2_norm_plus < sufficient_decrease_coeff * f2_norm`
    pub pm_sufficient_decrease: bool,
}

/// State of a solve.
#[derive(Clone, Copy, Debug, PartialEq, Eq, Structural)]
pub enum SolveState {
    /// Outer iterations go on
    OuterRunning,
    /// The exit criterion was met
    Converged,
    /// The cap on outer iterations was reached
    Exhausted,
    /// The time budget was used up
    Timeout,
    /// An oracle failed
    Failed(SolverError),
}

/// The exit test: the ALM infeasibility is within tolerance (trivially so
/// without ALM constraints) and so is the PM infeasibility (trivially so
/// without PM constraints).
pub open spec fn exit_criterion(n1: usize, n2: usize, tests: InfeasibilityTests) -> bool {
    (n1 == 0 || tests.alm_within_tolerance) && (n2 == 0 || tests.pm_within_tolerance)
}

/// The penalty is held at the first iteration and whenever either
/// infeasibility decreased sufficiently.
pub open spec fn penalty_stalls(iteration: usize, tests: InfeasibilityTests) -> bool {
    iteration == 0 || tests.alm_sufficient_decrease || tests.pm_sufficient_decrease
}

/// The state of a solve after a step that returned `step` (`Ok(true)`: go
/// on, `Ok(false)`: stop) with `iteration` outer iterations completed.
pub open spec fn solve_transition(
    iteration: usize,
    max_outer_iterations: usize,
    step: Result<bool, SolverError>,
    time_exceeded: bool,
) -> SolveState {
    match step {
        Err(e) => SolveState::Failed(e),
        Ok(false) => SolveState::Converged,
        Ok(true) => if iteration >= max_outer_iterations {
            SolveState::Exhausted
        } else if time_exceeded {
            SolveState::Timeout
        } else {
            SolveState::OuterRunning
        },
    }
}

/// Augmented Lagrangian / penalty method outer driver.
///
/// It borrows the cache exclusively and owns the problem `P`, which it
/// carries on behalf of the caller.
pub struct AlmOptimizer<'life, T, P> {
    alm_cache: &'life mut AlmCache<T>,
    alm_problem: P,
    max_outer_iterations: usize,
    max_inner_iterations: usize,
    max_duration: Option<Duration>,
    parameters: AlmParameters<T>,
}

impl<'life, T: Copy, P> AlmOptimizer<'life, T, P> {
    /// The cache as it currently stands.
    pub closed spec fn cache(&self) -> AlmCache<T> {
        *self.alm_cache
    }

    pub closed spec fn problem_spec(&self) -> P {
        self.alm_problem
    }

    pub closed spec fn max_outer_iterations_spec(&self) -> usize {
        self.max_outer_iterations
    }

    pub closed spec fn max_inner_iterations_spec(&self) -> usize {
        self.max_inner_iterations
    }

    pub closed spec fn max_duration_spec(&self) -> Option<Duration> {
        self.max_duration
    }

    pub closed spec fn parameters_spec(&self) -> AlmParameters<T> {
        self.parameters
    }

    /// Creates the driver with the default iteration caps, no time budget,
    /// and the given parameters; the inner tolerance of the cache is set to
    /// the initial inner tolerance.
    pub fn new(alm_cache: &'life mut AlmCache<T>, alm_problem: P, parameters: AlmParameters<T>) -> (r: Self)
        requires
            old(alm_cache).wf(),
        ensures
            r.cache() == (AlmCache { akkt_tolerance: parameters.epsilon_inner_initial, ..*old(alm_cache) }),
            r.cache().wf(),
            r.problem_spec() == alm_problem,
            r.max_outer_iterations_spec() == DEFAULT_MAX_OUTER_ITERATIONS,
            r.max_inner_iterations_spec() == DEFAULT_MAX_INNER_ITERATIONS,
            r.max_duration_spec() is None,
            r.parameters_spec() == parameters,
    {
        alm_cache.set_akkt_tolerance(parameters.epsilon_inner_initial);
        AlmOptimizer {
            alm_cache,
            alm_problem,
            max_outer_iterations: DEFAULT_MAX_OUTER_ITERATIONS,
            max_inner_iterations: DEFAULT_MAX_INNER_ITERATIONS,
            max_duration: None,
            parameters,
        }
    }
    /// Everything but the cache.
    pub open spec fn settings(&self) -> (P, usize, usize, Option<Duration>, AlmParameters<T>) {
        (
            self.problem_spec(),
            self.max_outer_iterations_spec(),
            self.max_inner_iterations_spec(),
            self.max_duration_spec(),
            self.parameters_spec(),
        )
    }

    pub fn with_max_outer_iterations(self, max_outer_iterations: usize) -> (r: Self)
        ensures
            r.cache() == self.cache(),
            r.settings() == (self.problem_spec(), max_outer_iterations, self.max_inner_iterations_spec(),
                self.max_duration_spec(), self.parameters_spec()),
    {
        let mut opt = self;
        opt.max_outer_iterations = max_outer_iterations;
        opt
    }

    pub fn with_max_inner_iterations(self, max_inner_iterations: usize) -> (r: Self)
        ensures
            r.cache() == self.cache(),
            r.settings() == (self.problem_spec(), self.max_outer_iterations_spec(), max_inner_iterations,
                self.max_duration_spec(), self.parameters_spec()),
    {
        let mut opt = self;
        opt.max_inner_iterations = max_inner_iterations;
        opt
    }

    pub fn with_max_duration(self, max_duration: Duration) -> (r: Self)
        ensures
            r.cache() == self.cache(),
            r.settings() == (self.problem_spec(), self.max_outer_iterations_spec(),
                self.max_inner_iterations_spec(), Some(max_duration), self.parameters_spec()),
    {
        let mut opt = self;
        opt.max_duration = Some(max_duration);
        opt
    }

    pub fn with_delta_tolerance(self, delta_tolerance: T) -> (r: Self)
        ensures
            r.cache() == self.cache(),
            r.settings() == (self.problem_spec(), self.max_outer_iterations_spec(),
                self.max_inner_iterations_spec(), self.max_duration_spec(),
                AlmParameters { delta_tolerance, ..self.parameters_spec() }),
    {
        let mut opt = self;
        opt.parameters.delta_tolerance = delta_tolerance;
        opt
    }

    pub fn with_epsilon_tolerance(self, epsilon_tolerance: T) -> (r: Self)
        ensures
            r.cache() == self.cache(),
            r.settings() == (self.problem_spec(), self.max_outer_iterations_spec(),
                self.max_inner_iterations_spec(), self.max_duration_spec(),
                AlmParameters { epsilon_tolerance, ..self.parameters_spec() }),
    {
        let mut opt = self;
        opt.parameters.epsilon_tolerance = epsilon_tolerance;
        opt
    }

    pub fn with_penalty_update_factor(self, penalty_update_factor: T) -> (r: Self)
        ensures
            r.cache() == self.cache(),
            r.settings() == (self.problem_spec(), self.max_outer_iterations_spec(),
                self.max_inner_iterations_spec(), self.max_duration_spec(),
                AlmParameters { penalty_update_factor, ..self.parameters_spec() }),
    {
        let mut opt = self;
        opt.parameters.penalty_update_factor = penalty_update_factor;
        opt
    }

    pub fn with_inner_tolerance_update_factor(self, inner_tolerance_update_factor: T) -> (r: Self)
        ensures
            r.cache() == self.cache(),
            r.settings() == (self.problem_spec(), self.max_outer_iterations_spec(),
                self.max_inner_iterations_spec(), self.max_duration_spec(),
                AlmParameters { epsilon_update_factor: inner_tolerance_update_factor, ..self.parameters_spec() }),
    {
        let mut opt = self;
        opt.parameters.epsilon_update_factor = inner_tolerance_update_factor;
        opt
    }

    pub fn with_sufficient_decrease_coefficient(self, sufficient_decrease_coefficient: T) -> (r: Self)
        ensures
            r.cache() == self.cache(),
            r.settings() == (self.problem_spec(), self.max_outer_iterations_spec(),
                self.max_inner_iterations_spec(), self.max_duration_spec(),
                AlmParameters { sufficient_decrease_coeff: sufficient_decrease_coefficient, ..self.parameters_spec() }),
    {
        let mut opt = self;
        opt.parameters.sufficient_decrease_coeff = sufficient_decrease_coefficient;
        opt
    }

    /// Sets the initial inner tolerance, both as a parameter and as the
    /// current inner tolerance of the cache.
    pub fn with_initial_inner_tolerance(self, initial_inner_tolerance: T) -> (r: Self)
        ensures
            r.cache() == (AlmCache { akkt_tolerance: initial_inner_tolerance, ..self.cache() }),
            r.settings() == (self.problem_spec(), self.max_outer_iterations_spec(),
                self.max_inner_iterations_spec(), self.max_duration_spec(),
                AlmParameters { epsilon_inner_initial: initial_inner_tolerance, ..self.parameters_spec() }),
    {
        let mut opt = self;
        opt.parameters.epsilon_inner_initial = initial_inner_tolerance;
        opt.alm_cache.set_akkt_tolerance(initial_inner_tolerance);
        opt
    }

    /// Seeds the Lagrange multipliers `xi[1..]`.
    pub fn with_initial_lagrange_multipliers(self, y_init: &[T]) -> (r: Self)
        requires
            self.cache().wf(),
            y_init@.len() == self.cache().n1,
        ensures
            r.cache().wf(),
            r.settings() == self.settings(),
            r.cache().scalars() == self.cache().scalars(),
            r.cache().work_buffers() == self.cache().work_buffers(),
            self.cache().n1 > 0 ==> r.cache().xi->0@ == seq![self.cache().xi->0@[0]] + y_init@,
            self.cache().n1 == 0 ==> r.cache().xi == self.cache().xi,
    {
        let mut opt = self;
        opt.alm_cache.set_multipliers(y_init);
        opt
    }

    /// Seeds the penalty parameter `xi[0]`.
    pub fn with_initial_penalty(self, c0: T) -> (r: Self)
        requires
            self.cache().wf(),
        ensures
            r.cache().wf(),
            r.settings() == self.settings(),
            r.cache().scalars() == self.cache().scalars(),
            r.cache().work_buffers() == self.cache().work_buffers(),
            self.cache().n1 > 0 ==> r.cache().xi->0@ == self.cache().xi->0@.update(0, c0),
            self.cache().n1 == 0 ==> r.cache().xi == self.cache().xi,
    {
        let mut opt = self;
        opt.alm_cache.set_penalty(c0);
        opt
    }
    /// The cache.
    pub fn alm_cache(&self) -> (r: &AlmCache<T>)
        ensures
            *r == self.cache(),
    {
        self.alm_cache
    }

    /// The cache, for the caller to fill its buffers.
    pub fn alm_cache_mut(&mut self) -> (r: &mut AlmCache<T>)
        ensures
            *r == old(self).cache(),
            final(self).cache() == *final(r),
            final(self).settings() == old(self).settings(),
    {
        self.alm_cache
    }

    /// The problem and the cache together, for the caller to evaluate the
    /// problem's oracles into the cache's buffers.
    pub fn problem_and_cache_mut(&mut self) -> (r: (&P, &mut AlmCache<T>))
        ensures
            *r.0 == old(self).problem_spec(),
            *r.1 == old(self).cache(),
            final(self).cache() == *final(r.1),
            final(self).settings() == old(self).settings(),
    {
        (&self.alm_problem, self.alm_cache)
    }

    /// The problem carried for the caller.
    pub fn problem(&self) -> (r: &P)
        ensures
            *r == self.problem_spec(),
    {
        &self.alm_problem
    }

    pub fn max_outer_iterations(&self) -> (r: usize)
        ensures
            r == self.max_outer_iterations_spec(),
    {
        self.max_outer_iterations
    }

    pub fn max_inner_iterations(&self) -> (r: usize)
        ensures
            r == self.max_inner_iterations_spec(),
    {
        self.max_inner_iterations
    }

    pub fn max_duration(&self) -> (r: Option<Duration>)
        ensures
            r == self.max_duration_spec(),
    {
        self.max_duration
    }

    pub fn parameters(&self) -> (r: AlmParameters<T>)
        ensures
            r == self.parameters_spec(),
    {
        self.parameters
    }

    /// Whether the outer loop may stop.
    pub fn is_exit_criterion_satisfied(&self, tests: &InfeasibilityTests) -> (r: bool)
        ensures
            r == exit_criterion(self.cache().n1, self.cache().n2, *tests),
    {
        (self.alm_cache.n1 == 0 || tests.alm_within_tolerance) && (self.alm_cache.n2 == 0
            || tests.pm_within_tolerance)
    }

    /// Whether the penalty parameter is to be kept.
    pub fn is_penalty_stall_criterion(&self, tests: &InfeasibilityTests) -> (r: bool)
        ensures
            r == penalty_stalls(self.cache().iteration, *tests),
    {
        self.alm_cache.iteration == 0 || tests.alm_sufficient_decrease
            || tests.pm_sufficient_decrease
    }

    /// Concludes an outer iteration whose infeasibilities are recorded in the
    /// cache and whose tests gave `tests`. Returns whether the outer loop goes
    /// on.
    ///
    /// When it stops, the cache is left as it is. Otherwise the penalty
    /// becomes `raised_penalty` unless it stalls, the inner tolerance becomes
    /// `tightened_tolerance`, the iteration is counted and the current
    /// infeasibilities become the previous ones. No buffer changes length.
    pub fn conclude_step(&mut self, tests: &InfeasibilityTests, raised_penalty: T, tightened_tolerance: T) -> (r: bool)
        requires
            old(self).cache().wf(),
            old(self).cache().iteration < usize::MAX,
        ensures
            final(self).settings() == old(self).settings(),
            final(self).cache().wf(),
            final(self).cache().buffer_lengths() == old(self).cache().buffer_lengths(),
            r == !exit_criterion(old(self).cache().n1, old(self).cache().n2, *tests),
            !r ==> final(self).cache() == old(self).cache(),
            r ==> final(self).cache().scalars() == (
                old(self).cache().delta_y_norm_plus,
                old(self).cache().delta_y_norm_plus,
                old(self).cache().f2_norm_plus,
                old(self).cache().f2_norm_plus,
                tightened_tolerance,
                (old(self).cache().iteration + 1) as usize,
                old(self).cache().n1,
                old(self).cache().n2,
                old(self).cache().zero,
            ),
            r ==> final(self).cache().work_buffers() == old(self).cache().work_buffers(),
            r && penalty_stalls(old(self).cache().iteration, *tests) ==> final(self).cache().xi
                == old(self).cache().xi,
            r && !penalty_stalls(old(self).cache().iteration, *tests) && old(self).cache().n1 > 0
                ==> final(self).cache().xi->0@ == old(self).cache().xi->0@.update(0, raised_penalty),
            old(self).cache().n1 == 0 ==> final(self).cache().xi is None,
    {
        if self.is_exit_criterion_satisfied(tests) {
            return false;
        }
        if !self.is_penalty_stall_criterion(tests) {
            self.alm_cache.set_penalty(raised_penalty);
        }
        self.alm_cache.set_akkt_tolerance(tightened_tolerance);
        self.alm_cache.final_cache_update();
        true
    }

    /// The state in which a solve begins.
    pub fn start_solve(&self) -> (r: SolveState)
        ensures
            r == (if self.cache().iteration >= self.max_outer_iterations_spec() {
                SolveState::Exhausted
            } else {
                SolveState::OuterRunning
            }),
    {
        if self.alm_cache.iteration >= self.max_outer_iterations {
            SolveState::Exhausted
        } else {
            SolveState::OuterRunning
        }
    }

    /// The state of a solve after a step that returned `step`; `time_exceeded`
    /// tells whether the time budget is used up.
    pub fn after_step(&self, step: Result<bool, SolverError>, time_exceeded: bool) -> (r: SolveState)
        ensures
            r == solve_transition(self.cache().iteration, self.max_outer_iterations_spec(), step, time_exceeded),
    {
        match step {
            Err(e) => SolveState::Failed(e),
            Ok(false) => SolveState::Converged,
            Ok(true) => if self.alm_cache.iteration >= self.max_outer_iterations {
                SolveState::Exhausted
            } else if time_exceeded {
                SolveState::Timeout
            } else {
                SolveState::OuterRunning
            },
        }
    }
}


/// Without ALM and without PM constraints an outer iteration records zero
/// infeasibilities, passes the exit test whatever the measurements, and so
/// ends the solve as converged after that single step, with a cache whose
/// infeasibilities are all zero when they were zero before.
pub proof fn lemma_unconstrained_single_step<T: Copy>(
    cache: AlmCache<T>,
    tests: InfeasibilityTests,
    alm: T,
    pm: T,
    max_outer_iterations: usize,
    time_exceeded: bool,
)
    requires
        cache.n1 == 0,
        cache.n2 == 0,
    ensures
        exit_criterion(cache.n1, cache.n2, tests),
        cache.with_infeasibilities(alm, pm).delta_y_norm_plus == cache.zero,
        cache.with_infeasibilities(alm, pm).f2_norm_plus == cache.zero,
        solve_transition(
            cache.iteration,
            max_outer_iterations,
            Ok(!exit_criterion(cache.n1, cache.n2, tests)),
            time_exceeded,
        ) == SolveState::Converged,
        cache.delta_y_norm == cache.zero && cache.f2_norm == cache.zero ==> {
            let c = cache.with_infeasibilities(alm, pm);
            c.delta_y_norm == c.zero && c.f2_norm == c.zero
        },
{
}

} // verus!

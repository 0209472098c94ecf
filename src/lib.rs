use vstd::prelude::*;

pub mod alm_cache;
pub mod alm_optimizer;
pub mod fbs_optimizer;

verus! {

/// Kinds of failure that an oracle (cost, gradient or constraint mapping) reports.
#[derive(Clone, Copy, Debug, PartialEq, Eq, Structural)]
pub enum SolverError {
    /// The cost or its gradient could not be evaluated
    CostGradientEval,
    /// The cost could not be evaluated
    Cost,
    /// A constraint mapping could not be evaluated
    Constraint,
    /// Any other failure
    Other,
}

} // verus!

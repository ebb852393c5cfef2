//! What an optimisation asks for and how it ended.
use vstd::prelude::*;

verus! {

/// Optimisation objective.
#[derive(Debug, Clone, Copy, PartialEq, Eq, Hash, Structural)]
pub enum ObjectiveType {
    /// Minimise variance.
    MinimizeVariance,
    /// Maximise expected return.
    MaximizeReturn,
    /// Maximise the Sharpe ratio.
    MaximizeSharpe,
    /// Equal risk contribution per asset.
    RiskParity,
    /// Mean-variance with a risk-aversion parameter.
    MeanVariance,
}

/// How a solve ended.
#[derive(Debug, Clone, Copy, PartialEq, Eq, Hash, Structural)]
pub enum SolverStatus {
    /// Optimal solution found.
    Optimal,
    /// Feasible, perhaps not optimal.
    SubOptimal,
    /// The problem is infeasible.
    Infeasible,
    /// The problem is unbounded.
    Unbounded,
    /// The iteration limit was reached.
    MaxIterations,
    /// Numerical trouble stopped the solve.
    NumericalError,
}

} // verus!

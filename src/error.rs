//! Error kinds of each subsystem.
use vstd::prelude::*;

verus! {

/// Errors of covariance estimation and matrix conditioning.
#[derive(Debug, PartialEq, Eq)]
pub enum CovarianceError {
    InvalidInput(String),
    DimensionMismatch { expected: usize, got: usize },
    NotPositiveSemiDefinite,
    SingularMatrix,
    NumericalError(String),
    InsufficientObservations { needed: usize, got: usize },
}

/// Errors of problem construction and optimisation.
#[derive(Debug, PartialEq, Eq)]
pub enum OptimizerError {
    InvalidInput(String),
    DimensionMismatch { expected: usize, got: usize },
    NotPositiveSemiDefinite,
    Infeasible(String),
    SolverFailed(String),
    MaxIterationsExceeded,
    NumericalError(String),
}

/// Errors of portfolio risk computation.
#[derive(Debug, PartialEq, Eq)]
pub enum RiskError {
    InvalidWeights(String),
    MissingExposure(String),
    NonPositiveDefinite,
    DimensionMismatch { expected: usize, actual: usize },
    CalculationError(String),
}

/// Errors of tick validation, aggregation and snapshots.
///
/// Prices carry the fixed-point value that was rejected.
#[derive(Debug, PartialEq, Eq)]
pub enum MarketDataError {
    InvalidSymbol(String),
    InvalidPrice(i64),
    InvalidVolume(i64),
    InvalidTimestamp(i64),
    NotSubscribed(String),
    AggregationError(String),
    SnapshotError(String),
}

} // verus!

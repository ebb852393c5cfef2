//! Shape checks of the numerical inputs: the decisions that precede any
//! arithmetic on a problem or a factor model.
use vstd::prelude::*;
use crate::error::{CovarianceError, OptimizerError};

verus! {

/// Checks that an optimisation problem over `n_assets` has as many expected
/// returns as assets and a square covariance of that size, given the length of
/// each covariance row. The first disagreement found, in that order, is
/// reported with the size expected and the size found.
pub fn check_problem_dimensions(n_assets: usize, returns_len: usize, row_lens: &Vec<usize>) -> (r:
    Result<(), OptimizerError>)
    ensures
        returns_len != n_assets ==> r == Err::<(), OptimizerError>(
            OptimizerError::DimensionMismatch { expected: n_assets, got: returns_len },
        ),
        returns_len == n_assets && row_lens@.len() != n_assets ==> r == Err::<(), OptimizerError>(
            OptimizerError::DimensionMismatch { expected: n_assets, got: row_lens@.len() as usize },
        ),
        returns_len == n_assets && row_lens@.len() == n_assets && (forall|i: int|
            0 <= i < row_lens@.len() ==> row_lens@[i] == n_assets) ==> r is Ok,
        returns_len == n_assets && row_lens@.len() == n_assets && !(forall|i: int|
            0 <= i < row_lens@.len() ==> row_lens@[i] == n_assets) ==> exists|k: int|
            {
                &&& 0 <= k < row_lens@.len()
                &&& row_lens@[k] != n_assets
                &&& forall|j: int| 0 <= j < k ==> row_lens@[j] == n_assets
                &&& r == Err::<(), OptimizerError>(
                    OptimizerError::DimensionMismatch { expected: n_assets, got: row_lens@[k] },
                )
            },
{
    if returns_len != n_assets {
        return Err(OptimizerError::DimensionMismatch { expected: n_assets, got: returns_len });
    }
    if row_lens.len() != n_assets {
        return Err(OptimizerError::DimensionMismatch { expected: n_assets, got: row_lens.len() });
    }
    let mut i: usize = 0;
    while i < row_lens.len()
        invariant
            0 <= i <= row_lens@.len(),
            returns_len == n_assets,
            row_lens@.len() == n_assets,
            forall|j: int| 0 <= j < i ==> row_lens@[j] == n_assets,
        decreases row_lens@.len() - i,
    {
        if row_lens[i] != n_assets {
            return Err(OptimizerError::DimensionMismatch { expected: n_assets, got: row_lens[i] });
        }
        i = i + 1;
    }
    Ok(())
}

/// Whether an optional length is present and differs from `n`.
pub open spec fn mismatched(len: Option<usize>, n: usize) -> bool {
    len matches Some(l) && l != n
}

/// Checks the optional per-asset vectors attached to a problem over
/// `n_assets`: the box's lower bounds, then its upper bounds, then the current
/// weights. The first whose length differs is reported.
pub fn check_attached_lengths(
    n_assets: usize,
    lower_len: Option<usize>,
    upper_len: Option<usize>,
    current_len: Option<usize>,
) -> (r: Result<(), OptimizerError>)
    ensures
        mismatched(lower_len, n_assets) ==> r == Err::<(), OptimizerError>(
            OptimizerError::DimensionMismatch { expected: n_assets, got: lower_len->Some_0 },
        ),
        !mismatched(lower_len, n_assets) && mismatched(upper_len, n_assets) ==> r == Err::<
            (),
            OptimizerError,
        >(OptimizerError::DimensionMismatch { expected: n_assets, got: upper_len->Some_0 }),
        !mismatched(lower_len, n_assets) && !mismatched(upper_len, n_assets) && mismatched(
            current_len,
            n_assets,
        ) ==> r == Err::<(), OptimizerError>(
            OptimizerError::DimensionMismatch { expected: n_assets, got: current_len->Some_0 },
        ),
        !mismatched(lower_len, n_assets) && !mismatched(upper_len, n_assets) && !mismatched(
            current_len,
            n_assets,
        ) ==> r is Ok,
{
    if let Some(l) = lower_len {
        if l != n_assets {
            return Err(OptimizerError::DimensionMismatch { expected: n_assets, got: l });
        }
    }
    if let Some(u) = upper_len {
        if u != n_assets {
            return Err(OptimizerError::DimensionMismatch { expected: n_assets, got: u });
        }
    }
    if let Some(c) = current_len {
        if c != n_assets {
            return Err(OptimizerError::DimensionMismatch { expected: n_assets, got: c });
        }
    }
    Ok(())
}

/// Checks the shapes of a factor model: a square factor covariance of the
/// loadings' factor count, then one specific variance per asset.
pub fn check_factor_dimensions(
    n_assets: usize,
    n_factors: usize,
    factor_rows: usize,
    factor_cols: usize,
    specific_len: usize,
) -> (r: Result<(), CovarianceError>)
    ensures
        factor_rows != n_factors || factor_cols != n_factors ==> r == Err::<(), CovarianceError>(
            CovarianceError::DimensionMismatch { expected: n_factors, got: factor_rows },
        ),
        factor_rows == n_factors && factor_cols == n_factors && specific_len != n_assets ==> r
            == Err::<(), CovarianceError>(
            CovarianceError::DimensionMismatch { expected: n_assets, got: specific_len },
        ),
        factor_rows == n_factors && factor_cols == n_factors && specific_len == n_assets ==> r is Ok,
{
    if factor_rows != n_factors || factor_cols != n_factors {
        return Err(CovarianceError::DimensionMismatch { expected: n_factors, got: factor_rows });
    }
    if specific_len != n_assets {
        return Err(CovarianceError::DimensionMismatch { expected: n_assets, got: specific_len });
    }
    Ok(())
}

/// Checks that a vector has `expected` entries.
pub fn check_length(expected: usize, got: usize) -> (r: Result<(), CovarianceError>)
    ensures
        got != expected ==> r == Err::<(), CovarianceError>(
            CovarianceError::DimensionMismatch { expected, got },
        ),
        got == expected ==> r is Ok,
{
    if got != expected {
        return Err(CovarianceError::DimensionMismatch { expected, got });
    }
    Ok(())
}

/// Checks that an estimator has at least `needed` observations.
pub fn check_observations(needed: usize, got: usize) -> (r: Result<(), CovarianceError>)
    ensures
        got < needed ==> r == Err::<(), CovarianceError>(
            CovarianceError::InsufficientObservations { needed, got },
        ),
        got >= needed ==> r is Ok,
{
    if got < needed {
        return Err(CovarianceError::InsufficientObservations { needed, got });
    }
    Ok(())
}

/// Every entry of `s` equals its first.
pub open spec fn all_equal(s: Seq<usize>) -> bool {
    forall|i: int| 0 <= i < s.len() ==> #[trigger] s[i] == s[0]
}

/// Checks that rows of data, given by their lengths, form a non-empty
/// rectangle, and returns its column count (the first row's length).
pub fn check_rectangular(row_lens: &Vec<usize>) -> (r: Result<usize, CovarianceError>)
    ensures
        row_lens@.len() == 0 ==> r matches Err(CovarianceError::InvalidInput(_)),
        row_lens@.len() > 0 && all_equal(row_lens@) ==> r == Ok::<usize, CovarianceError>(
            row_lens@[0],
        ),
        row_lens@.len() > 0 && !all_equal(row_lens@) ==> r matches Err(
            CovarianceError::InvalidInput(_),
        ),
{
    if row_lens.len() == 0 {
        return Err(CovarianceError::InvalidInput("Empty data".to_string()));
    }
    let ncols = row_lens[0];
    let mut i: usize = 0;
    while i < row_lens.len()
        invariant
            0 <= i <= row_lens@.len(),
            row_lens@.len() > 0,
            ncols == row_lens@[0],
            forall|j: int| 0 <= j < i ==> row_lens@[j] == ncols,
        decreases row_lens@.len() - i,
    {
        if row_lens[i] != ncols {
            return Err(CovarianceError::InvalidInput("Inconsistent row lengths".to_string()));
        }
        i = i + 1;
    }
    Ok(ncols)
}

} // verus!

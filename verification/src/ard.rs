//! Input validation of BLR+ARD fitting: the shape rules of a custom prior
//! and of the training data, in the order the fitting routines apply them.

use vstd::prelude::*;
use crate::error::BLRError;

verus! {

/// The lengths of the three vectors of a `BLRPrior`.
#[derive(Debug, Clone, Copy, PartialEq, Eq, Structural)]
pub struct PriorShape {
    /// Length of the prior mean (the feature dimension D).
    pub mean_len: usize,
    /// Length of the row-major prior covariance (must be D·D).
    pub cov_len: usize,
    /// Length of the ARD precisions (must be D).
    pub alphas_len: usize,
}

/// What the shape part of `BLRPrior::validate` answers: the ARD precisions
/// must have `D` entries, the covariance `D·D`, and `D` must be positive;
/// the first rule broken decides the error.
pub open spec fn prior_shape_result(shape: PriorShape) -> Result<(), BLRError> {
    let d = shape.mean_len;
    if shape.alphas_len != d {
        Err(BLRError::DimMismatch { expected: d, got: shape.alphas_len })
    } else if shape.cov_len != d * d {
        Err(BLRError::DimMismatch { expected: (d * d) as usize, got: shape.cov_len })
    } else if d == 0 {
        Err(BLRError::DimMismatch { expected: 1, got: 0 })
    } else {
        Ok(())
    }
}

/// The shape checks of `BLRPrior::validate`, made before its covariance is
/// factorised.
pub fn validate_prior_shape(shape: PriorShape) -> (r: Result<(), BLRError>)
    requires
        shape.mean_len * shape.mean_len <= usize::MAX,
    ensures
        r == prior_shape_result(shape),
        r is Ok <==> (shape.alphas_len == shape.mean_len && shape.cov_len == shape.mean_len
            * shape.mean_len && shape.mean_len > 0),
        shape.alphas_len != shape.mean_len ==> r == Err::<(), BLRError>(
            BLRError::DimMismatch { expected: shape.mean_len, got: shape.alphas_len },
        ),
{
    let d = shape.mean_len;
    if shape.alphas_len != d {
        return Err(BLRError::DimMismatch { expected: d, got: shape.alphas_len });
    }
    if shape.cov_len != d * d {
        return Err(BLRError::DimMismatch { expected: d * d, got: shape.cov_len });
    }
    if d == 0 {
        return Err(BLRError::DimMismatch { expected: 1, got: 0 });
    }
    Ok(())
}

/// What `BLRPrior::validate` answers, given whether the Cholesky
/// factorisation of its covariance succeeds.
pub open spec fn prior_validation_result(shape: PriorShape, factorizes: bool) -> Result<(), BLRError> {
    match prior_shape_result(shape) {
        Err(e) => Err(e),
        Ok(()) => if factorizes {
            Ok(())
        } else {
            Err(BLRError::SingularMatrix)
        },
    }
}

/// The decision of `BLRPrior::validate` once the covariance has been
/// factorised (only done when the shape checks pass): a failed
/// factorisation means the covariance is not positive-definite.
pub fn validate_prior(shape: PriorShape, factorizes: bool) -> (r: Result<(), BLRError>)
    requires
        shape.mean_len * shape.mean_len <= usize::MAX,
    ensures
        r == prior_validation_result(shape, factorizes),
        r is Ok <==> (prior_shape_result(shape) is Ok && factorizes),
        !factorizes ==> r is Err,
        prior_shape_result(shape) is Ok && !factorizes ==> r == Err::<(), BLRError>(
            BLRError::SingularMatrix,
        ),
{
    match validate_prior_shape(shape) {
        Err(e) => Err(e),
        Ok(()) => if factorizes {
            Ok(())
        } else {
            Err(BLRError::SingularMatrix)
        },
    }
}

/// Prior shapes: a prior passes the shape checks exactly when it has as many
/// ARD precisions as mean entries, a `D·D` covariance and `D > 0`. Any other
/// number of precisions — more as well as fewer — is reported first, with
/// the required and the actual count; then a covariance of any length other
/// than `D·D`; then an empty prior.
pub proof fn lemma_prior_shape_exact(shape: PriorShape)
    ensures
        prior_shape_result(shape) is Ok <==> (shape.alphas_len == shape.mean_len
            && shape.cov_len == shape.mean_len * shape.mean_len && shape.mean_len > 0),
        shape.alphas_len != shape.mean_len ==> prior_shape_result(shape) == Err::<(), BLRError>(
            BLRError::DimMismatch { expected: shape.mean_len, got: shape.alphas_len },
        ),
        shape.alphas_len == shape.mean_len && shape.cov_len != shape.mean_len * shape.mean_len
            ==> prior_shape_result(shape) == Err::<(), BLRError>(
            BLRError::DimMismatch {
                expected: (shape.mean_len * shape.mean_len) as usize,
                got: shape.cov_len,
            },
        ),
        shape.alphas_len == shape.mean_len && shape.cov_len == shape.mean_len * shape.mean_len
            && shape.mean_len == 0 ==> prior_shape_result(shape) == Err::<(), BLRError>(
            BLRError::DimMismatch { expected: 1, got: 0 },
        ),
{
}

/// Prior validation: a prior is valid exactly when its shape is right and its
/// covariance factorises. A covariance that does not factorise is refused
/// whatever the dimension; with a right shape the refusal is `SingularMatrix`;
/// a wrong shape is reported as its shape error, before the factorisation
/// counts.
pub proof fn lemma_prior_validation_exact(shape: PriorShape, factorizes: bool)
    ensures
        prior_validation_result(shape, factorizes) is Ok <==> (prior_shape_result(shape) is Ok
            && factorizes),
        !factorizes ==> prior_validation_result(shape, factorizes) is Err,
        prior_shape_result(shape) is Ok && !factorizes ==> prior_validation_result(
            shape,
            factorizes,
        ) == Err::<(), BLRError>(BLRError::SingularMatrix),
        prior_shape_result(shape) is Err ==> prior_validation_result(shape, factorizes)
            == prior_shape_result(shape),
{
}

/// Training data: `fit` accepts its inputs exactly when the feature matrix
/// holds `n·d` entries and the targets `n`. A feature matrix of any other
/// length — longer as well as shorter — is refused first, reporting `n·d`
/// and the actual length; then targets of any length other than `n`.
pub proof fn lemma_fit_shape_exact(phi_len: nat, y_len: nat, n: nat, d: nat)
    ensures
        fit_shape_result(phi_len, y_len, n, d) is Ok <==> (phi_len == n * d && y_len == n),
        phi_len != n * d ==> fit_shape_result(phi_len, y_len, n, d) == Err::<(), BLRError>(
            BLRError::DimMismatch { expected: (n * d) as usize, got: phi_len as usize },
        ),
        phi_len == n * d && y_len != n ==> fit_shape_result(phi_len, y_len, n, d) == Err::<
            (),
            BLRError,
        >(BLRError::DimMismatch { expected: n as usize, got: y_len as usize }),
{
}

/// What `fit` answers about its inputs before any arithmetic: the feature
/// matrix must hold `n·d` entries, then the targets `n`.
pub open spec fn fit_shape_result(phi_len: nat, y_len: nat, n: nat, d: nat) -> Result<(), BLRError> {
    if phi_len != n * d {
        Err(BLRError::DimMismatch { expected: (n * d) as usize, got: phi_len as usize })
    } else if y_len != n {
        Err(BLRError::DimMismatch { expected: n as usize, got: y_len as usize })
    } else {
        Ok(())
    }
}

/// The shape checks that `fit` and `fit_with_prior` make first.
pub fn check_fit_shape(phi_len: usize, y_len: usize, n: usize, d: usize) -> (r: Result<(), BLRError>)
    requires
        n * d <= usize::MAX,
    ensures
        r == fit_shape_result(phi_len as nat, y_len as nat, n as nat, d as nat),
        r is Ok <==> (phi_len == n * d && y_len == n),
        phi_len != n * d ==> r == Err::<(), BLRError>(
            BLRError::DimMismatch { expected: (n * d) as usize, got: phi_len },
        ),
        phi_len == n * d && y_len != n ==> r == Err::<(), BLRError>(
            BLRError::DimMismatch { expected: n, got: y_len },
        ),
{
    let expected = n * d;
    if phi_len != expected {
        return Err(BLRError::DimMismatch { expected, got: phi_len });
    }
    if y_len != n {
        return Err(BLRError::DimMismatch { expected: n, got: y_len });
    }
    Ok(())
}

/// The last check of `fit_with_prior` on a prior that validated: its
/// dimension must be the number of features.
pub fn check_prior_dim(prior_mean_len: usize, d: usize) -> (r: Result<(), BLRError>)
    ensures
        r == (if prior_mean_len == d {
            Ok(())
        } else {
            Err(BLRError::DimMismatch { expected: d, got: prior_mean_len })
        }),
{
    if prior_mean_len != d {
        return Err(BLRError::DimMismatch { expected: d, got: prior_mean_len });
    }
    Ok(())
}

/// Which log-evidence differences decide convergence of the EM loop after
/// `n_evidences` iterations.
#[derive(Debug, Clone, Copy, PartialEq, Eq, Structural)]
pub enum ConvergenceWindow {
    /// Fewer than two evidences: no difference yet, the loop goes on.
    Undecided,
    /// Two or three evidences: the difference of the last two.
    Consecutive,
    /// Four or more: the difference of the means of the last two pairs
    /// (robust to period-2 oscillation of the evidence).
    Paired,
}

/// The convergence window the EM loop uses after `n_evidences` iterations.
pub fn convergence_window(n_evidences: usize) -> (r: ConvergenceWindow)
    ensures
        r == (if n_evidences >= 4 {
            ConvergenceWindow::Paired
        } else if n_evidences >= 2 {
            ConvergenceWindow::Consecutive
        } else {
            ConvergenceWindow::Undecided
        }),
{
    if n_evidences >= 4 {
        ConvergenceWindow::Paired
    } else if n_evidences >= 2 {
        ConvergenceWindow::Consecutive
    } else {
        ConvergenceWindow::Undecided
    }
}

/// A feature row cut or padded to exactly `d` entries: the first
/// `min(len, d)` entries of `feats`, then `pad` up to width `d`. This is how
/// the grid evaluation of the posterior spread fits each feature vector to
/// the model's dimension.
pub fn fit_row_to_width<T: Copy>(feats: &[T], d: usize, pad: T) -> (r: Vec<T>)
    ensures
        r@.len() == d,
        forall|j: int| 0 <= j < d ==> #[trigger] r@[j] == (if j < feats@.len() {
            feats@[j]
        } else {
            pad
        }),
{
    let mut row: Vec<T> = Vec::with_capacity(d);
    let actual = if feats.len() < d {
        feats.len()
    } else {
        d
    };
    for j in 0..actual
        invariant
            actual <= d,
            actual <= feats@.len(),
            row@.len() == j,
            forall|k: int| 0 <= k < j ==> #[trigger] row@[k] == feats@[k],
    {
        row.push(feats[j]);
    }
    for j in actual..d
        invariant
            actual <= d,
            actual == feats@.len() || actual == d,
            actual <= feats@.len(),
            row@.len() == j,
            forall|k: int| 0 <= k < actual ==> #[trigger] row@[k] == feats@[k],
            forall|k: int| actual <= k < j ==> #[trigger] row@[k] == pad,
    {
        row.push(pad);
    }
    row
}

} // verus!

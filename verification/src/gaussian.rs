//! Shape rules of the multivariate Gaussian `N(mean, cov)` and the choice
//! between the two algebraically equivalent conditioning forms.

use vstd::prelude::*;
use crate::error::BLRError;

verus! {

/// What `Gaussian::new` answers for a mean of `mean_len` entries and a
/// row-major covariance buffer of `cov_len` entries.
pub open spec fn covariance_shape_result(mean_len: nat, cov_len: nat) -> Result<(), BLRError> {
    if cov_len == mean_len * mean_len {
        Ok(())
    } else {
        Err(BLRError::DimMismatch { expected: (mean_len * mean_len) as usize, got: cov_len as usize })
    }
}

/// The shape check of `Gaussian::new`: the covariance must hold `D·D`
/// entries for a mean of `D` entries.
pub fn check_covariance_shape(mean_len: usize, cov_len: usize) -> (r: Result<(), BLRError>)
    requires
        mean_len * mean_len <= usize::MAX,
    ensures
        r == covariance_shape_result(mean_len as nat, cov_len as nat),
        r is Ok <==> cov_len == mean_len * mean_len,
        cov_len != mean_len * mean_len ==> r == Err::<(), BLRError>(
            BLRError::DimMismatch { expected: (mean_len * mean_len) as usize, got: cov_len },
        ),
{
    let expected = mean_len * mean_len;
    if cov_len != expected {
        return Err(BLRError::DimMismatch { expected, got: cov_len });
    }
    Ok(())
}

/// A covariance buffer is accepted exactly when it holds `D·D` entries for
/// a mean of `D` entries — a longer buffer is refused as surely as a shorter
/// one — and a refusal reports the required and the actual length.
pub proof fn lemma_covariance_shape_exact(mean_len: nat, cov_len: nat)
    ensures
        covariance_shape_result(mean_len, cov_len) is Ok <==> cov_len == mean_len * mean_len,
        cov_len != mean_len * mean_len ==> covariance_shape_result(mean_len, cov_len)
            == Err::<(), BLRError>(
            BLRError::DimMismatch { expected: (mean_len * mean_len) as usize, got: cov_len as usize },
        ),
{
}

/// The two algebraically equivalent forms of Bayesian conditioning.
#[derive(Debug, Clone, Copy, PartialEq, Eq, Structural)]
pub enum ConditionForm {
    /// Observation-space (N×N Gram / Kalman-gain) form.
    Gram,
    /// Parameter-space (D×D precision / Woodbury) form.
    Precision,
}

/// The form `Gaussian::condition` uses: the one whose Cholesky factorisation
/// is the smaller — the Gram form when there are fewer observations than
/// features, the precision form otherwise.
pub fn condition_form(n_obs: usize, d_feat: usize) -> (r: ConditionForm)
    ensures
        r == (if n_obs < d_feat {
            ConditionForm::Gram
        } else {
            ConditionForm::Precision
        }),
{
    if n_obs < d_feat {
        ConditionForm::Gram
    } else {
        ConditionForm::Precision
    }
}

} // verus!

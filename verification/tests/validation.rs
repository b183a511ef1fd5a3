use blr_core::ard::{
    check_fit_shape, check_prior_dim, convergence_window, fit_row_to_width, validate_prior,
    validate_prior_shape, ConvergenceWindow, PriorShape,
};
use blr_core::gaussian::{check_covariance_shape, condition_form, ConditionForm};
use blr_core::noise_estimation::{confidence_label, degrees_of_freedom, SensorType};
use blr_core::BLRError;

#[test]
fn covariance_shape_accepts_square() {
    assert_eq!(check_covariance_shape(2, 4), Ok(()));
    assert_eq!(check_covariance_shape(0, 0), Ok(()));
}

#[test]
fn covariance_shape_rejects_mismatch() {
    // mean of 3, covariance of 4 entries
    assert_eq!(
        check_covariance_shape(3, 4),
        Err(BLRError::DimMismatch { expected: 9, got: 4 })
    );
}

#[test]
fn condition_dispatch() {
    assert_eq!(condition_form(3, 10), ConditionForm::Gram);
    assert_eq!(condition_form(100, 6), ConditionForm::Precision);
    assert_eq!(condition_form(6, 6), ConditionForm::Precision);
}

#[test]
fn prior_shape_valid() {
    let s = PriorShape { mean_len: 3, cov_len: 9, alphas_len: 3 };
    assert_eq!(validate_prior_shape(s), Ok(()));
    assert_eq!(validate_prior(s, true), Ok(()));
}

#[test]
fn prior_shape_bad_alphas_first() {
    let s = PriorShape { mean_len: 3, cov_len: 4, alphas_len: 2 };
    assert_eq!(
        validate_prior_shape(s),
        Err(BLRError::DimMismatch { expected: 3, got: 2 })
    );
}

#[test]
fn prior_shape_bad_covariance() {
    let s = PriorShape { mean_len: 3, cov_len: 4, alphas_len: 3 };
    assert_eq!(
        validate_prior_shape(s),
        Err(BLRError::DimMismatch { expected: 9, got: 4 })
    );
    // shape errors come before the factorisation outcome
    assert_eq!(
        validate_prior(s, false),
        Err(BLRError::DimMismatch { expected: 9, got: 4 })
    );
}

#[test]
fn prior_shape_empty() {
    let s = PriorShape { mean_len: 0, cov_len: 0, alphas_len: 0 };
    assert_eq!(
        validate_prior_shape(s),
        Err(BLRError::DimMismatch { expected: 1, got: 0 })
    );
}

#[test]
fn prior_not_factorizable_is_singular() {
    let s = PriorShape { mean_len: 2, cov_len: 4, alphas_len: 2 };
    assert_eq!(validate_prior(s, false), Err(BLRError::SingularMatrix));
}

#[test]
fn fit_shape_checks() {
    assert_eq!(check_fit_shape(60, 20, 20, 3), Ok(()));
    assert_eq!(
        check_fit_shape(59, 20, 20, 3),
        Err(BLRError::DimMismatch { expected: 60, got: 59 })
    );
    assert_eq!(
        check_fit_shape(60, 19, 20, 3),
        Err(BLRError::DimMismatch { expected: 20, got: 19 })
    );
    // the feature matrix is checked before the targets
    assert_eq!(
        check_fit_shape(1, 1, 20, 3),
        Err(BLRError::DimMismatch { expected: 60, got: 1 })
    );
}

#[test]
fn prior_dim_check() {
    assert_eq!(check_prior_dim(3, 3), Ok(()));
    assert_eq!(
        check_prior_dim(2, 3),
        Err(BLRError::DimMismatch { expected: 3, got: 2 })
    );
}

#[test]
fn dof_values() {
    assert_eq!(degrees_of_freedom(20, 3), 17);
    assert_eq!(degrees_of_freedom(4, 3), 1);
    assert_eq!(degrees_of_freedom(3, 3), 1);
    assert_eq!(degrees_of_freedom(2, 5), 1);
    assert_eq!(degrees_of_freedom(100, 3), 97);
}

#[test]
fn confidence_labels() {
    assert_eq!(confidence_label(10), "preliminary");
    assert_eq!(confidence_label(29), "preliminary");
    assert_eq!(confidence_label(30), "transitional");
    assert_eq!(confidence_label(40), "transitional");
    assert_eq!(confidence_label(50), "transitional");
    assert_eq!(confidence_label(51), "stable");
    assert_eq!(confidence_label(100), "stable");
}

#[test]
fn sensor_type_equality() {
    assert_eq!(SensorType::Hall, SensorType::Hall);
    assert_ne!(SensorType::Hall, SensorType::Gas);
    let t = SensorType::Rtd;
    let u = t;
    assert_eq!(t, u);
}

#[test]
fn convergence_windows() {
    assert_eq!(convergence_window(0), ConvergenceWindow::Undecided);
    assert_eq!(convergence_window(1), ConvergenceWindow::Undecided);
    assert_eq!(convergence_window(2), ConvergenceWindow::Consecutive);
    assert_eq!(convergence_window(3), ConvergenceWindow::Consecutive);
    assert_eq!(convergence_window(4), ConvergenceWindow::Paired);
    assert_eq!(convergence_window(200), ConvergenceWindow::Paired);
}

#[test]
fn feature_rows_fit_width() {
    let feats = [1.0_f64, 0.5, 0.25, 0.125];
    assert_eq!(fit_row_to_width(&feats, 4, 0.0), vec![1.0, 0.5, 0.25, 0.125]);
    assert_eq!(fit_row_to_width(&feats, 2, 0.0), vec![1.0, 0.5]);
    assert_eq!(fit_row_to_width(&feats, 6, 0.0), vec![1.0, 0.5, 0.25, 0.125, 0.0, 0.0]);
    assert_eq!(fit_row_to_width(&feats[..0], 3, 7.0), vec![7.0, 7.0, 7.0]);
    assert!(fit_row_to_width(&feats, 0, 0.0).is_empty());
}

//! Sensor types and the sample-count bookkeeping of the noise estimate.

use vstd::prelude::*;

verus! {

/// Physical sensing principle that produced the calibration data.
#[derive(Debug, Clone, Copy, PartialEq, Eq, Structural)]
pub enum SensorType {
    /// Hall-effect position / magnetic-field sensor.
    Hall,
    /// Capacitive displacement sensor.
    Capacitive,
    /// Metal-oxide (MOX) gas sensor.
    Gas,
    /// Resistance Temperature Detector.
    Rtd,
    /// Thermistor (NTC/PTC).
    Thermistor,
    /// Generic sensor with no physics-specific feature set.
    Generic,
}

/// Fewer samples than this make an estimate preliminary.
pub const PRELIMINARY_BELOW: usize = 30;

/// More samples than this make an estimate stable.
pub const STABLE_ABOVE: usize = 50;

/// Effective degrees of freedom of a fit: `n - d`, at least 1.
pub open spec fn dof_spec(n_samples: nat, d_features: nat) -> nat {
    let diff: nat = if n_samples > d_features { (n_samples - d_features) as nat } else { 0 };
    if diff >= 1 { diff } else { 1 }
}

/// Degrees of freedom: with more samples than features they are exactly
/// the surplus `n - d`, whatever the ratio of `n` to `d`; otherwise 1. They
/// are never below 1 and never above `max(n, 1)`.
pub proof fn lemma_dof_exact(n_samples: nat, d_features: nat)
    ensures
        n_samples > d_features ==> dof_spec(n_samples, d_features) == n_samples - d_features,
        n_samples <= d_features ==> dof_spec(n_samples, d_features) == 1,
        dof_spec(n_samples, d_features) >= 1,
        dof_spec(n_samples, d_features) <= n_samples || dof_spec(n_samples, d_features) == 1,
{
}

/// Effective degrees of freedom used by the noise estimate: the number of
/// samples minus the number of features, saturating, and at least 1.
pub fn degrees_of_freedom(n_samples: usize, d_features: usize) -> (r: usize)
    ensures
        r == dof_spec(n_samples as nat, d_features as nat),
        r >= 1,
        n_samples > d_features ==> r == n_samples - d_features,
        n_samples <= d_features ==> r == 1,
{
    let dof = n_samples.saturating_sub(d_features);
    if dof > 1 {
        dof
    } else {
        1
    }
}

/// Qualitative reliability label of a noise estimate from `n_samples`
/// training samples: "preliminary" below 30, "stable" above 50,
/// "transitional" in between.
pub fn confidence_label(n_samples: usize) -> (r: &'static str)
    ensures
        n_samples < PRELIMINARY_BELOW ==> r@ == "preliminary"@,
        n_samples > STABLE_ABOVE ==> r@ == "stable"@,
        PRELIMINARY_BELOW <= n_samples <= STABLE_ABOVE ==> r@ == "transitional"@,
{
    if n_samples < PRELIMINARY_BELOW {
        "preliminary"
    } else if n_samples > STABLE_ABOVE {
        "stable"
    } else {
        "transitional"
    }
}

} // verus!

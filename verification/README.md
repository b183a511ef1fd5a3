# blr_core

Bayesian linear regression with automatic relevance determination (ARD).

- `src/` — the verified library (Verus): the seeded xorshift64 generator
  behind the synthetic Hall-sensor data (its state is never zero, distinct
  seeds give distinct streams), the shape checks of Gaussians, priors and
  training data, the choice between the Gram and precision conditioning
  forms, the EM convergence window, feature-row fitting, and the
  degrees-of-freedom and confidence-label rules of the noise estimate.
- `app/` — the floating-point side (posterior Gaussians, the EM fit with
  `faer`, predictions, feature maps, noise estimates, synthetic data), which
  calls the library for every integer decision.
- `tests/` — tests of the library.

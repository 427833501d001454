//! Calibration of an adaptive motion-smoothing filter: the ordering of the calibration
//! stages, the robust peak-jump slots, the sliding sample window of the noise estimator,
//! the shape of the precision table, and the search over cutoff and beta.

pub mod calibrator;
pub mod lattice;
pub mod peak;
pub mod search;
pub mod window;

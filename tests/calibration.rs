use euro_calibration::calibrator::{CalibrationError, StartCalibration};
use euro_calibration::peak::TopSpeeds;

#[test]
fn start_calibration_new_is_unit() {
    assert_eq!(StartCalibration::new(), StartCalibration);
    assert_eq!(StartCalibration::new(), StartCalibration::default());
}

#[test]
fn next_refused_before_convergence() {
    let stage = StartCalibration::new().first_stage();
    assert!(!stage.is_converged());
    assert_eq!(stage.next(), Err(CalibrationError::NotReady));
}

#[test]
fn next_refused_after_negative_reports() {
    let mut stage = StartCalibration::new().first_stage();
    for _ in 0..10 {
        assert!(!stage.record(false));
    }
    assert_eq!(stage.next(), Err(CalibrationError::NotReady));
}

#[test]
fn next_allowed_once_converged_even_if_later_reports_are_negative() {
    let mut stage = StartCalibration::new().first_stage();
    assert!(!stage.record(false));
    assert!(stage.record(true));
    assert!(!stage.record(false));
    assert!(stage.is_converged());
    assert!(stage.next().is_ok());
}

fn jumps_above(samples: &[f64], stddev: f64) -> TopSpeeds {
    let mut speeds = TopSpeeds::new();
    let mut previous: Option<f64> = None;
    for &s in samples {
        if let Some(p) = previous {
            let delta = (p - s).abs();
            if delta > 3.0 * stddev {
                speeds.record(delta.to_bits());
            }
        }
        previous = Some(s);
    }
    speeds
}

#[test]
fn peak_of_alternating_jumps() {
    let samples = [0.0, 0.01, 10.0, 0.01, 10.0, 0.01, 10.0, 0.01, 10.0, 0.01, 10.0];
    let speeds = jumps_above(&samples, 0.001);
    let peak = f64::from_bits(speeds.max_within_reason());
    assert_eq!(peak, 10.0 - 0.01);
    assert!(peak <= 10.0 - 0.01);
}

#[test]
fn peak_ignores_noise_sized_steps() {
    let samples = [0.0, 0.001, 0.002, 0.001, 0.0, 0.001, 0.002];
    let speeds = jumps_above(&samples, 0.001);
    assert_eq!(f64::from_bits(speeds.max_within_reason()), 0.0);
}

#[test]
fn peak_rejects_a_single_spike() {
    let samples = [0.0, 1.0, 0.0, 1.0, 0.0, 1.0, 0.0, 100.0];
    let speeds = jumps_above(&samples, 0.01);
    assert_eq!(f64::from_bits(speeds.max_within_reason()), 1.0);
}

#[test]
fn peak_is_zero_with_fewer_than_five_jumps() {
    let mut speeds = TopSpeeds::new();
    speeds.record(5);
    speeds.record(3);
    speeds.record(7);
    assert_eq!(speeds.max_within_reason(), 0);
}

#[test]
fn record_replaces_the_smallest_slot() {
    let mut speeds = TopSpeeds::new();
    for v in [5u64, 3, 7, 1, 2] {
        speeds.record(v);
    }
    assert_eq!(speeds.max_within_reason(), 1);
    speeds.record(4);
    assert_eq!(speeds.max_within_reason(), 2);
    speeds.record(2);
    assert_eq!(speeds.max_within_reason(), 2);
    speeds.record(9);
    assert_eq!(speeds.max_within_reason(), 3);
}

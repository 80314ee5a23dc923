use njord::gy521::{
    AccelerometerSensitivity, Bias, AxisTotals, Cadence, CalibrationError, CalibrationRun, RawAxes,
    RawSample, TimedSample, GY521,
};
use njord::utilites::Memory;

fn reading(acceleration: (i16, i16, i16), angular_velocity: (i16, i16, i16)) -> RawSample {
    RawSample {
        acceleration: RawAxes { x: acceleration.0, y: acceleration.1, z: acceleration.2 },
        temperature: 0,
        angular_velocity: RawAxes {
            x: angular_velocity.0,
            y: angular_velocity.1,
            z: angular_velocity.2,
        },
    }
}

fn log_of(samples: &[RawSample]) -> Memory<TimedSample> {
    let mut log = Memory::new(samples.len().max(1));
    for (index, sample) in samples.iter().enumerate() {
        log.push(TimedSample { sample: *sample, elapsed_nanos: index as u64 });
    }
    log
}

#[test]
fn cadence_lets_the_first_event_through_at_once() {
    let mut cadence = Cadence::starting_now(100);
    assert!(cadence.accept(0));
    assert!(!cadence.accept(0));
    assert!(!cadence.accept(99));
    assert!(cadence.accept(100));
    assert!(!cadence.accept(199));
    assert!(cadence.accept(1000));
    assert!(cadence.accept(1000));
    assert!(!cadence.accept(399));
    assert!(cadence.accept(400));
}

#[test]
fn delayed_cadence_waits_one_period() {
    let mut cadence = Cadence::starting_after_one_period(100);
    assert!(!cadence.accept(0));
    assert!(!cadence.accept(99));
    assert!(cadence.accept(100));
    assert!(!cadence.accept(150));
    assert!(cadence.accept(200));
}

#[test]
fn cadence_without_period_lets_everything_through() {
    let mut cadence = Cadence::starting_now(0);
    for elapsed in 0..50u64 {
        assert!(cadence.accept(elapsed));
    }
}

#[test]
fn cadence_at_the_largest_times() {
    let mut cadence = Cadence::starting_now(u64::MAX);
    assert!(cadence.accept(7));
    assert!(!cadence.accept(u64::MAX - 1));
    assert!(cadence.accept(u64::MAX));
    assert!(!cadence.accept(u64::MAX));
}

#[test]
fn dense_stream_is_thinned_to_the_sampling_period() {
    let mut cadence = Cadence::starting_now(100_000_000);
    let mut kept = Vec::new();
    for millisecond in 0..1000u64 {
        let elapsed = millisecond * 1_000_000;
        if cadence.accept(elapsed) {
            kept.push(elapsed);
        }
    }
    assert_eq!(kept.len(), 10);
    for (number, elapsed) in kept.iter().enumerate() {
        assert_eq!(*elapsed, number as u64 * 100_000_000);
    }
}

#[test]
fn dense_stream_off_the_grid_is_thinned_alike() {
    let mut cadence = Cadence::starting_now(100_000_000);
    let mut kept = 0u64;
    let mut elapsed = 700_000;
    while elapsed < 1_000_000_000 {
        if cadence.accept(elapsed) {
            assert!(elapsed >= kept * 100_000_000);
            kept += 1;
        }
        elapsed += 1_000_000;
    }
    assert!((9..=11).contains(&kept));
    assert_eq!(kept, 10);
}

#[test]
fn calibration_without_samples_is_reported() {
    let sensor = GY521::default();
    let log: Memory<TimedSample> = Memory::new(10);
    assert_eq!(sensor.calibrate(&log), Err(CalibrationError::InsufficientSamples));
    assert_eq!(
        CalibrationError::InsufficientSamples.message(),
        "Insufficient samples to calibrate."
    );
}

#[test]
fn samples_at_one_g_have_no_bias_on_z() {
    let sensor = GY521::default();
    for count in 1..40usize {
        let samples = vec![reading((0, 0, 16_384), (0, 0, 0)); count];
        let bias = sensor.calibrate(&log_of(&samples)).expect("samples");
        assert_eq!(bias.samples, count);
        assert_eq!(bias.acceleration, AxisTotals { x: 0, y: 0, z: 0 });
        assert_eq!(bias.angular_velocity, AxisTotals { x: 0, y: 0, z: 0 });
    }
}

#[test]
fn bias_is_the_opposite_of_a_constant_error() {
    let sensor = GY521::default();
    let samples = vec![reading((100, -200, 16_384 + 50), (7, -8, 9)); 25];
    let bias = sensor.calibrate(&log_of(&samples)).expect("samples");
    assert_eq!(
        bias,
        Bias {
            acceleration: AxisTotals { x: -2500, y: 5000, z: -1250 },
            angular_velocity: AxisTotals { x: -175, y: 200, z: -225 },
            samples: 25,
        }
    );
}

#[test]
fn bias_sums_unequal_samples() {
    let sensor = GY521::default();
    let samples = [
        reading((1, 2, 3), (4, 5, 6)),
        reading((-10, 20, -30), (40, -50, 60)),
        reading((32767, -32768, 16384), (0, 0, -1)),
    ];
    let bias = sensor.calibrate(&log_of(&samples)).expect("samples");
    assert_eq!(
        bias,
        Bias {
            acceleration: AxisTotals { x: -32758, y: 32746, z: 3 * 16384 - 16357 },
            angular_velocity: AxisTotals { x: -44, y: 45, z: -65 },
            samples: 3,
        }
    );
}

#[test]
fn bias_uses_the_sensitivity_of_the_sensor() {
    let mut sensor = GY521::default();
    sensor.accelerometer_sensitivity = AccelerometerSensitivity::d();
    let samples = vec![reading((0, 0, 2048), (0, 0, 0)); 4];
    let bias = sensor.calibrate(&log_of(&samples)).expect("samples");
    assert_eq!(bias.acceleration.z, 0);
    sensor.accelerometer_sensitivity = AccelerometerSensitivity::a();
    let bias = sensor.calibrate(&log_of(&samples)).expect("samples");
    assert_eq!(bias.acceleration.z, 4 * (16_384 - 2048));
}

#[test]
fn bias_covers_only_the_samples_still_in_the_log() {
    let sensor = GY521::default();
    let mut log = Memory::new(2);
    for x in [1000i16, 10, 20] {
        log.push(TimedSample { sample: reading((x, 0, 16_384), (0, 0, 0)), elapsed_nanos: 0 });
    }
    let bias = sensor.calibrate(&log).expect("samples");
    assert_eq!(bias.samples, 2);
    assert_eq!(bias.acceleration.x, -30);
}

#[test]
fn calibration_run_keeps_one_sample_per_period() {
    let mut run = CalibrationRun::new(10_000, 100_000_000, 1_000_000_000, 300_000_000);
    let mut elapsed = 0u64;
    let mut reports = 0;
    while run.proceeds(elapsed, false) {
        run.offer(reading((0, 0, 16_384), (1, 1, 1)), elapsed);
        if run.status_due(elapsed) {
            reports += 1;
        }
        elapsed += 1_000_000;
    }
    assert_eq!(elapsed, 1_000_000_000);
    assert_eq!(run.samples().len(), 10);
    assert_eq!(run.samples().count(), 10);
    assert_eq!(reports, 3);
    for index in 0..10 {
        let entry = run.samples().get(index).expect("kept");
        assert_eq!(entry.elapsed_nanos, index as u64 * 100_000_000);
    }
    let bias = GY521::default().calibrate(run.samples()).expect("samples");
    assert_eq!(bias.samples, 10);
    assert_eq!(bias.acceleration.z, 0);
    assert_eq!(bias.angular_velocity, AxisTotals { x: -10, y: -10, z: -10 });
}

#[test]
fn calibration_run_ends_when_cancelled() {
    let run = CalibrationRun::new(10, 100, 1000, 100);
    assert!(run.proceeds(0, false));
    assert!(run.proceeds(999, false));
    assert!(!run.proceeds(1000, false));
    assert!(!run.proceeds(0, true));
    assert!(run.samples().is_empty());
    assert_eq!(
        GY521::default().calibrate(run.samples()),
        Err(CalibrationError::InsufficientSamples)
    );
}

#[test]
fn calibration_run_keeps_the_newest_samples() {
    let mut run = CalibrationRun::new(3, 10, 1000, 1000);
    for step in 0..8u64 {
        let kept = run.offer(reading((step as i16, 0, 0), (0, 0, 0)), step * 10);
        assert!(kept);
        assert!(!run.offer(reading((-1, 0, 0), (0, 0, 0)), step * 10 + 5));
    }
    assert_eq!(run.samples().len(), 3);
    assert_eq!(run.samples().count(), 8);
    for index in 0..3 {
        let entry = run.samples().get(index).expect("kept");
        assert_eq!(entry.sample.acceleration.x, 5 + index as i16);
        assert_eq!(entry.elapsed_nanos, (5 + index as u64) * 10);
    }
}

#[test]
fn calibration_run_keeps_the_newest_errors_apart_from_the_samples() {
    let mut run = CalibrationRun::new(2, 10, 1000, 1000);
    assert!(run.errors().is_empty());
    run.note_error(String::from("first"), 5);
    assert!(run.offer(reading((1, 2, 3), (4, 5, 6)), 7));
    run.note_error(String::from("second"), 9);
    run.note_error(String::from("third"), 11);
    assert_eq!(run.errors().len(), 2);
    assert_eq!(run.errors().count(), 3);
    let kept = run.errors().get(0).expect("kept");
    assert_eq!(kept.message, "second");
    assert_eq!(kept.elapsed_nanos, 9);
    let kept = run.errors().get(1).expect("kept");
    assert_eq!(kept.message, "third");
    assert_eq!(kept.elapsed_nanos, 11);
    assert_eq!(run.samples().len(), 1);
    assert!(run.proceeds(12, false));
}

#[test]
fn second_calibration_pass_finds_no_bias() {
    let sensor = GY521::default();
    let biased = vec![reading((300, -70, 16_384 + 12), (-5, 40, 1)); 16];
    let first = sensor.calibrate(&log_of(&biased)).expect("samples");
    let count = first.samples as i128;
    let offset = |total: i128| {
        assert_eq!(total % count, 0);
        (total / count) as i16
    };
    assert_eq!(offset(first.acceleration.x), -300);
    assert_eq!(offset(first.acceleration.y), 70);
    assert_eq!(offset(first.acceleration.z), -12);
    assert_eq!(offset(first.angular_velocity.x), 5);
    assert_eq!(offset(first.angular_velocity.y), -40);
    assert_eq!(offset(first.angular_velocity.z), -1);
    let corrected: Vec<RawSample> = biased
        .iter()
        .map(|sample| {
            reading(
                (
                    sample.acceleration.x + offset(first.acceleration.x),
                    sample.acceleration.y + offset(first.acceleration.y),
                    sample.acceleration.z + offset(first.acceleration.z),
                ),
                (
                    sample.angular_velocity.x + offset(first.angular_velocity.x),
                    sample.angular_velocity.y + offset(first.angular_velocity.y),
                    sample.angular_velocity.z + offset(first.angular_velocity.z),
                ),
            )
        })
        .collect();
    let second = sensor.calibrate(&log_of(&corrected)).expect("samples");
    assert_eq!(second.acceleration, AxisTotals { x: 0, y: 0, z: 0 });
    assert_eq!(second.angular_velocity, AxisTotals { x: 0, y: 0, z: 0 });
}

#[test]
fn calibration_run_of_capacity_zero_retains_nothing() {
    let mut run = CalibrationRun::new(0, 10, 1000, 1000);
    assert!(run.offer(reading((1, 2, 3), (4, 5, 6)), 0));
    assert!(run.offer(reading((1, 2, 3), (4, 5, 6)), 10));
    run.note_error(String::from("lost"), 12);
    assert_eq!(run.samples().len(), 0);
    assert_eq!(run.samples().count(), 2);
    assert_eq!(run.errors().len(), 0);
    assert_eq!(run.errors().count(), 1);
    assert_eq!(
        GY521::default().calibrate(run.samples()),
        Err(CalibrationError::InsufficientSamples)
    );
}

use njord::gy521::{
    concat_bytes, shift_to_signed, ByteRange, DataRegisters, RawAxes, RawSample,
    RegisterRangeError, ShortBurst, GY521,
};

#[test]
fn twos_complement_of_the_corner_words() {
    assert_eq!(shift_to_signed(0x0000), 0);
    assert_eq!(shift_to_signed(0x7FFF), 32767);
    assert_eq!(shift_to_signed(0x8000), -32768);
    assert_eq!(shift_to_signed(0xFFFF), -1);
}

#[test]
fn twos_complement_of_every_word() {
    for word in 0..=u16::MAX {
        assert_eq!(shift_to_signed(word), word as i16);
    }
}

#[test]
fn bytes_join_high_byte_last() {
    assert_eq!(concat_bytes(0x34, 0x12), 0x1234);
    assert_eq!(concat_bytes(0xFF, 0x00), 0x00FF);
    assert_eq!(concat_bytes(0x00, 0xFF), 0xFF00);
    assert_eq!(concat_bytes(0x00, 0x80), 0x8000);
}

#[test]
fn default_map_is_the_sensors() {
    let map = DataRegisters::default();
    assert_eq!(map.burst_start(), 0x3B);
    assert_eq!(map.burst_len(), 14);
    assert_eq!(map.accelerometer_offsets(), ByteRange::new(0, 5));
    assert_eq!(map.thermometer_offsets(), ByteRange::new(6, 7));
    assert_eq!(map.gyroscope_offsets(), ByteRange::new(8, 13));
    assert!(map.holds_sample());
}

#[test]
fn continuous_ranges_make_a_map() {
    for first in 0..20u8 {
        for a in 1..5u8 {
            for t in 1..5u8 {
                for g in 1..5u8 {
                    let accelerometer = ByteRange::new(first, first + a - 1);
                    let thermometer = ByteRange::new(first + a, first + a + t - 1);
                    let gyroscope = ByteRange::new(first + a + t, first + a + t + g - 1);
                    let map = DataRegisters::new(accelerometer, thermometer, gyroscope)
                        .expect("continuous ranges");
                    assert_eq!(map.burst_start(), first);
                    assert_eq!(map.burst_len(), (a + t + g) as usize);
                    assert_eq!(map.accelerometer_offsets(), ByteRange::new(0, a - 1));
                    assert_eq!(map.thermometer_offsets(), ByteRange::new(a, a + t - 1));
                    assert_eq!(map.gyroscope_offsets(), ByteRange::new(a + t, a + t + g - 1));
                    assert_eq!(map.accelerometer_offsets().len(), accelerometer.len());
                    assert_eq!(map.thermometer_offsets().len(), thermometer.len());
                    assert_eq!(map.gyroscope_offsets().len(), gyroscope.len());
                }
            }
        }
    }
}

#[test]
fn offsets_select_each_sensors_registers() {
    let registers: Vec<u8> = (0..=255u8).map(|address| address.wrapping_mul(7)).collect();
    let accelerometer = ByteRange::new(0x3B, 0x40);
    let thermometer = ByteRange::new(0x41, 0x42);
    let gyroscope = ByteRange::new(0x43, 0x48);
    let map = DataRegisters::new(accelerometer, thermometer, gyroscope).expect("continuous");
    let start = map.burst_start() as usize;
    let burst = &registers[start..start + map.burst_len()];
    let select = |range: ByteRange, bytes: &[u8]| {
        bytes[range.start as usize..=range.end as usize].to_vec()
    };
    assert_eq!(select(map.accelerometer_offsets(), burst), select(accelerometer, &registers));
    assert_eq!(select(map.thermometer_offsets(), burst), select(thermometer, &registers));
    assert_eq!(select(map.gyroscope_offsets(), burst), select(gyroscope, &registers));
}

#[test]
fn ranges_with_a_gap_make_no_map() {
    let made = DataRegisters::new(
        ByteRange::new(0x3B, 0x40),
        ByteRange::new(0x42, 0x43),
        ByteRange::new(0x44, 0x49),
    );
    assert_eq!(made.err(), Some(RegisterRangeError::Discontinuous));
    let made = DataRegisters::new(
        ByteRange::new(0x3B, 0x40),
        ByteRange::new(0x41, 0x42),
        ByteRange::new(0x44, 0x49),
    );
    assert_eq!(made.err(), Some(RegisterRangeError::Discontinuous));
}

#[test]
fn ranges_that_overlap_make_no_map() {
    let made = DataRegisters::new(
        ByteRange::new(0x3B, 0x40),
        ByteRange::new(0x40, 0x42),
        ByteRange::new(0x43, 0x48),
    );
    assert_eq!(made.err(), Some(RegisterRangeError::Discontinuous));
}

#[test]
fn ranges_out_of_order_make_no_map() {
    let made = DataRegisters::new(
        ByteRange::new(0x43, 0x48),
        ByteRange::new(0x41, 0x42),
        ByteRange::new(0x3B, 0x40),
    );
    assert_eq!(made.err(), Some(RegisterRangeError::Discontinuous));
    let made =
        DataRegisters::new(ByteRange::new(5, 9), ByteRange::new(0, 4), ByteRange::new(5, 9));
    assert_eq!(made.err(), Some(RegisterRangeError::Discontinuous));
}

#[test]
fn an_empty_range_makes_no_map() {
    let made =
        DataRegisters::new(ByteRange::new(5, 3), ByteRange::new(4, 10), ByteRange::new(11, 12));
    assert_eq!(made.err(), Some(RegisterRangeError::Empty));
    assert_eq!(ByteRange::new(5, 3).len(), 0);
    assert_eq!(ByteRange::new(0, 255).len(), 256);
}

#[test]
fn range_errors_have_messages() {
    assert_eq!(
        RegisterRangeError::Discontinuous.message(),
        "Register range expected to be continuous."
    );
    assert_eq!(RegisterRangeError::Empty.message(), "Register range expected to hold a register.");
}

#[test]
fn burst_decodes_high_byte_first() {
    let map = DataRegisters::default();
    let burst = [
        0x40, 0x00, 0xFF, 0xFF, 0x80, 0x00, 0x0D, 0xE0, 0x00, 0x83, 0x7F, 0xFF, 0xFE, 0x0C,
    ];
    assert_eq!(
        map.decode(&burst),
        Some(RawSample {
            acceleration: RawAxes { x: 16384, y: -1, z: -32768 },
            temperature: 3552,
            angular_velocity: RawAxes { x: 131, y: 32767, z: -500 },
        })
    );
}

#[test]
fn burst_decodes_from_a_longer_buffer() {
    let map = DataRegisters::default();
    let mut burst = vec![0u8; 20];
    burst[1] = 1;
    burst[13] = 2;
    burst[14] = 0xFF;
    let sample = map.decode(&burst).expect("long enough");
    assert_eq!(sample.acceleration, RawAxes { x: 1, y: 0, z: 0 });
    assert_eq!(sample.angular_velocity, RawAxes { x: 0, y: 0, z: 2 });
}

#[test]
fn short_burst_decodes_to_nothing() {
    let map = DataRegisters::default();
    assert_eq!(map.decode(&[0u8; 13]), None);
    assert_eq!(map.decode(&[]), None);
    assert!(map.decode(&[0u8; 14]).is_some());
}

#[test]
fn narrow_map_holds_no_sample() {
    let map = DataRegisters::new(ByteRange::new(0, 5), ByteRange::new(6, 6), ByteRange::new(7, 12))
        .expect("continuous");
    assert!(!map.holds_sample());
    let map = DataRegisters::new(ByteRange::new(0, 6), ByteRange::new(7, 9), ByteRange::new(10, 15))
        .expect("continuous");
    assert!(map.holds_sample());
}

#[test]
fn wide_map_decodes_from_the_start_of_each_range() {
    let map = DataRegisters::new(ByteRange::new(2, 8), ByteRange::new(9, 11), ByteRange::new(12, 17))
        .expect("continuous");
    let mut burst = [0u8; 16];
    burst[0] = 0x01;
    burst[1] = 0x02;
    burst[7] = 0x03;
    burst[8] = 0x04;
    burst[10] = 0x05;
    burst[11] = 0x06;
    let sample = map.decode(&burst).expect("long enough");
    assert_eq!(sample.acceleration.x, 0x0102);
    assert_eq!(sample.temperature, 0x0304);
    assert_eq!(sample.angular_velocity.x, 0x0506);
}

#[test]
fn driver_reads_raw_values() {
    let sensor = GY521::default();
    let burst = [0x00, 0x01, 0x00, 0x02, 0x00, 0x03, 0xFF, 0xFE, 0x00, 0x04, 0x00, 0x05, 0x00, 0x06];
    assert_eq!(
        sensor.read_raw(&burst),
        Ok(RawSample {
            acceleration: RawAxes { x: 1, y: 2, z: 3 },
            temperature: -2,
            angular_velocity: RawAxes { x: 4, y: 5, z: 6 },
        })
    );
}

#[test]
fn driver_reports_a_short_burst() {
    let sensor = GY521::default();
    assert_eq!(sensor.read_raw(&[0u8; 9]), Err(ShortBurst { expected: 14, received: 9 }));
}

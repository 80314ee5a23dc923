//! The GY-521 sensor: its settings, its register map and the driver's decisions.

pub mod calibration;
pub mod decoding;
pub mod driver;
pub mod encoding;
pub mod registers;
pub mod sampling;
pub mod sensitivity;
pub mod settings;

pub use self::settings::{
    ClockSource, Configuration, ExternalFrameSynchronization, Filter, InterruptConfiguration,
    InterruptStatus, PowerMode, PowerSettings, Trigger, WakeFrequency,
};
pub use self::registers::{
    ByteRange, DataRegisters, Register, RegisterRangeError, SettingsRegisters,
};
pub use self::decoding::{concat_bytes, shift_to_signed, RawAxes, RawSample};
pub use self::sampling::Cadence;
pub use self::sensitivity::{
    AccelerometerSensitivity, GyroscopeSensitivity, ThermometerSensitivity,
};
pub use self::driver::{BusRequest, InitializeStage, InitializeStep, ShortBurst, GY521};
pub use self::calibration::{
    AxisTotals, Bias, CalibrationError, CalibrationRun, Channel, TimedError, TimedSample,
};

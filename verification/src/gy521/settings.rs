use vstd::prelude::*;

verus! {

/// Sensor output whose least significant bit carries the sampled frame
/// synchronisation input.
#[derive(Clone, Copy, Debug, PartialEq, Eq, Structural)]
pub enum ExternalFrameSynchronization {
    InputDisabled,
    TempLow,
    GyroXLow,
    GyroYLow,
    GyroZLow,
    AccelXLow,
    AccelYLow,
    AccelZLow,
}

impl ExternalFrameSynchronization {
    /// The value of the three-bit frame synchronisation field.
    pub open spec fn spec_bits(self) -> u8 {
        match self {
            Self::InputDisabled => 0,
            Self::TempLow => 1,
            Self::GyroXLow => 2,
            Self::GyroYLow => 3,
            Self::GyroZLow => 4,
            Self::AccelXLow => 5,
            Self::AccelYLow => 6,
            Self::AccelZLow => 7,
        }
    }

    #[verifier::when_used_as_spec(spec_bits)]
    pub fn bits(self) -> (b: u8)
        ensures
            b == self.spec_bits(),
            b <= 7,
    {
        match self {
            Self::InputDisabled => 0,
            Self::TempLow => 1,
            Self::GyroXLow => 2,
            Self::GyroYLow => 3,
            Self::GyroZLow => 4,
            Self::AccelXLow => 5,
            Self::AccelYLow => 6,
            Self::AccelZLow => 7,
        }
    }
}

impl ExternalFrameSynchronization {
    /// The source that a value of the three-bit field selects.
    pub open spec fn spec_from_bits(bits: u8) -> Self {
        if bits == 0 {
            Self::InputDisabled
        } else if bits == 1 {
            Self::TempLow
        } else if bits == 2 {
            Self::GyroXLow
        } else if bits == 3 {
            Self::GyroYLow
        } else if bits == 4 {
            Self::GyroZLow
        } else if bits == 5 {
            Self::AccelXLow
        } else if bits == 6 {
            Self::AccelYLow
        } else {
            Self::AccelZLow
        }
    }
}

impl Default for ExternalFrameSynchronization {
    fn default() -> (efs: Self)
        ensures
            efs == Self::InputDisabled,
    {
        Self::InputDisabled
    }
}

/// Setting of the digital low pass filter, named by the accelerometer and
/// gyroscope bandwidths it selects.
#[derive(Clone, Copy, Debug, PartialEq, Eq, Structural)]
pub enum Filter {
    Disabled,
    BwAc260HzBwGy256Hz,
    BwAc184HzBwGy188Hz,
    BwAc94HzBwGy98Hz,
    BwAc44HzBwGy42Hz,
    BwAc21HzBwGy20Hz,
    BwAc10HzBwGy10Hz,
    BwAc5HzBwGy5Hz,
}

impl Filter {
    /// The value of the three-bit filter field.
    pub open spec fn spec_bits(self) -> u8 {
        match self {
            Self::Disabled => 0,
            Self::BwAc260HzBwGy256Hz => 1,
            Self::BwAc184HzBwGy188Hz => 2,
            Self::BwAc94HzBwGy98Hz => 3,
            Self::BwAc44HzBwGy42Hz => 4,
            Self::BwAc21HzBwGy20Hz => 5,
            Self::BwAc10HzBwGy10Hz => 6,
            Self::BwAc5HzBwGy5Hz => 7,
        }
    }

    #[verifier::when_used_as_spec(spec_bits)]
    pub fn bits(self) -> (b: u8)
        ensures
            b == self.spec_bits(),
            b <= 7,
    {
        match self {
            Self::Disabled => 0,
            Self::BwAc260HzBwGy256Hz => 1,
            Self::BwAc184HzBwGy188Hz => 2,
            Self::BwAc94HzBwGy98Hz => 3,
            Self::BwAc44HzBwGy42Hz => 4,
            Self::BwAc21HzBwGy20Hz => 5,
            Self::BwAc10HzBwGy10Hz => 6,
            Self::BwAc5HzBwGy5Hz => 7,
        }
    }

    /// The gyroscope's output rate in hertz under this setting: 8 kHz with the
    /// filter disabled or at its widest bandwidth, 1 kHz otherwise.
    pub open spec fn spec_gyroscope_output_rate(self) -> u32 {
        match self {
            Self::Disabled | Self::BwAc260HzBwGy256Hz => 8000,
            _ => 1000,
        }
    }

    #[verifier::when_used_as_spec(spec_gyroscope_output_rate)]
    pub fn gyroscope_output_rate(self) -> (rate: u32)
        ensures
            rate == self.spec_gyroscope_output_rate(),
    {
        match self {
            Self::Disabled | Self::BwAc260HzBwGy256Hz => 8000,
            _ => 1000,
        }
    }
}

impl Filter {
    /// The time between two outputs of the gyroscope, in nanoseconds.
    pub open spec fn spec_gyroscope_output_period_nanos(self) -> u64 {
        match self {
            Self::Disabled | Self::BwAc260HzBwGy256Hz => 125_000,
            _ => 1_000_000,
        }
    }

    #[verifier::when_used_as_spec(spec_gyroscope_output_period_nanos)]
    pub fn gyroscope_output_period_nanos(self) -> (period: u64)
        ensures
            period == self.spec_gyroscope_output_period_nanos(),
            period * self.spec_gyroscope_output_rate() == 1_000_000_000,
    {
        match self {
            Self::Disabled | Self::BwAc260HzBwGy256Hz => 125_000,
            _ => 1_000_000,
        }
    }

    /// The setting that a value of the three-bit field selects.
    pub open spec fn spec_from_bits(bits: u8) -> Self {
        if bits == 0 {
            Self::Disabled
        } else if bits == 1 {
            Self::BwAc260HzBwGy256Hz
        } else if bits == 2 {
            Self::BwAc184HzBwGy188Hz
        } else if bits == 3 {
            Self::BwAc94HzBwGy98Hz
        } else if bits == 4 {
            Self::BwAc44HzBwGy42Hz
        } else if bits == 5 {
            Self::BwAc21HzBwGy20Hz
        } else if bits == 6 {
            Self::BwAc10HzBwGy10Hz
        } else {
            Self::BwAc5HzBwGy5Hz
        }
    }
}

impl Default for Filter {
    fn default() -> (filter: Self)
        ensures
            filter == Self::Disabled,
    {
        Self::Disabled
    }
}

/// Filter and frame synchronisation settings, held in one register.
#[derive(Clone, Copy, Debug, PartialEq, Eq, Structural)]
pub struct Configuration {
    pub external_frame_synchronization: ExternalFrameSynchronization,
    pub filter: Filter,
}

impl Configuration {
    /// Frame synchronisation and filter both disabled.
    pub open spec fn spec_default() -> Self {
        Configuration {
            external_frame_synchronization: ExternalFrameSynchronization::InputDisabled,
            filter: Filter::Disabled,
        }
    }
}

impl Default for Configuration {
    fn default() -> (configuration: Self)
        ensures
            configuration == Self::spec_default(),
    {
        Configuration {
            external_frame_synchronization: ExternalFrameSynchronization::InputDisabled,
            filter: Filter::Disabled,
        }
    }
}

/// How often the sensor wakes to take one accelerometer sample in cycle mode.
#[derive(Clone, Copy, Debug, PartialEq, Eq, Structural)]
pub enum WakeFrequency {
    Freq1_25Hz,
    Freq5Hz,
    Freq20Hz,
    Freq40Hz,
}

impl WakeFrequency {
    /// The value of the two-bit wake frequency field.
    pub open spec fn spec_bits(self) -> u8 {
        match self {
            Self::Freq1_25Hz => 0,
            Self::Freq5Hz => 1,
            Self::Freq20Hz => 2,
            Self::Freq40Hz => 3,
        }
    }

    #[verifier::when_used_as_spec(spec_bits)]
    pub fn bits(self) -> (b: u8)
        ensures
            b == self.spec_bits(),
            b <= 3,
    {
        match self {
            Self::Freq1_25Hz => 0,
            Self::Freq5Hz => 1,
            Self::Freq20Hz => 2,
            Self::Freq40Hz => 3,
        }
    }
}

impl WakeFrequency {
    /// The frequency that a value of the two-bit field selects.
    pub open spec fn spec_from_bits(bits: u8) -> Self {
        if bits == 0 {
            Self::Freq1_25Hz
        } else if bits == 1 {
            Self::Freq5Hz
        } else if bits == 2 {
            Self::Freq20Hz
        } else {
            Self::Freq40Hz
        }
    }
}

/// What the device does between measurements.
#[derive(Clone, Copy, Debug, PartialEq, Eq, Structural)]
pub enum PowerMode {
    Active,
    Cycle(WakeFrequency),
    Reset,
    Sleep,
}

impl Default for PowerMode {
    fn default() -> (mode: Self)
        ensures
            mode == Self::Active,
    {
        Self::Active
    }
}

/// The oscillator that clocks the device.
#[derive(Clone, Copy, Debug, PartialEq, Eq, Structural)]
pub enum ClockSource {
    InternalOscillator8MHz,
    GyroX,
    GyroY,
    GyroZ,
    External33kHz,
    External19MHz,
    Stop,
}

impl ClockSource {
    /// The value of the three-bit clock selection field. The value 6 is reserved.
    pub open spec fn spec_bits(self) -> u8 {
        match self {
            Self::InternalOscillator8MHz => 0,
            Self::GyroX => 1,
            Self::GyroY => 2,
            Self::GyroZ => 3,
            Self::External33kHz => 4,
            Self::External19MHz => 5,
            Self::Stop => 7,
        }
    }

    #[verifier::when_used_as_spec(spec_bits)]
    pub fn bits(self) -> (b: u8)
        ensures
            b == self.spec_bits(),
            b <= 7,
    {
        match self {
            Self::InternalOscillator8MHz => 0,
            Self::GyroX => 1,
            Self::GyroY => 2,
            Self::GyroZ => 3,
            Self::External33kHz => 4,
            Self::External19MHz => 5,
            Self::Stop => 7,
        }
    }
}

impl ClockSource {
    /// The source that a value of the three-bit field selects, if it selects one.
    pub open spec fn spec_from_bits(bits: u8) -> Option<Self> {
        if bits == 0 {
            Some(Self::InternalOscillator8MHz)
        } else if bits == 1 {
            Some(Self::GyroX)
        } else if bits == 2 {
            Some(Self::GyroY)
        } else if bits == 3 {
            Some(Self::GyroZ)
        } else if bits == 4 {
            Some(Self::External33kHz)
        } else if bits == 5 {
            Some(Self::External19MHz)
        } else if bits == 7 {
            Some(Self::Stop)
        } else {
            None
        }
    }
}

impl Default for ClockSource {
    fn default() -> (source: Self)
        ensures
            source == Self::InternalOscillator8MHz,
    {
        Self::InternalOscillator8MHz
    }
}

/// Power mode, clock source, and which of the sensors are switched on.
#[derive(Clone, Copy, Debug, PartialEq, Eq, Structural)]
pub struct PowerSettings {
    pub mode: PowerMode,
    pub clock_source: ClockSource,
    pub accelerometer_x_active: bool,
    pub accelerometer_y_active: bool,
    pub accelerometer_z_active: bool,
    pub gyroscope_x_active: bool,
    pub gyroscope_y_active: bool,
    pub gyroscope_z_active: bool,
    pub thermometer_active: bool,
}

impl PowerSettings {
    /// Active mode on the internal oscillator, with every sensor switched on.
    pub open spec fn spec_default() -> Self {
        PowerSettings {
            mode: PowerMode::Active,
            clock_source: ClockSource::InternalOscillator8MHz,
            accelerometer_x_active: true,
            accelerometer_y_active: true,
            accelerometer_z_active: true,
            gyroscope_x_active: true,
            gyroscope_y_active: true,
            gyroscope_z_active: true,
            thermometer_active: true,
        }
    }
}

impl Default for PowerSettings {
    fn default() -> (settings: Self)
        ensures
            settings == Self::spec_default(),
    {
        PowerSettings {
            mode: PowerMode::Active,
            clock_source: ClockSource::InternalOscillator8MHz,
            accelerometer_x_active: true,
            accelerometer_y_active: true,
            accelerometer_z_active: true,
            gyroscope_x_active: true,
            gyroscope_y_active: true,
            gyroscope_z_active: true,
            thermometer_active: true,
        }
    }
}

/// The edge of the interrupt line on which the host is to wake.
#[derive(Clone, Copy, Debug, PartialEq, Eq, Structural)]
pub enum Trigger {
    RisingEdge,
    FallingEdge,
}

/// Causes reported by the interrupt status register.
#[derive(Clone, Copy, Debug, PartialEq, Eq, Structural)]
pub struct InterruptStatus {
    /// The FIFO buffer overflowed.
    pub fifo_buffer_overflow: bool,
    /// An I2C master interrupt source fired.
    pub i2c_master_interrupt: bool,
    /// All sensor registers hold a fresh measurement.
    pub data_ready: bool,
}

impl Default for InterruptStatus {
    fn default() -> (status: Self)
        ensures
            status == (InterruptStatus {
                fifo_buffer_overflow: false,
                i2c_master_interrupt: false,
                data_ready: false,
            }),
    {
        InterruptStatus {
            fifo_buffer_overflow: false,
            i2c_master_interrupt: false,
            data_ready: false,
        }
    }
}

/// Behaviour of the sensor's interrupt pin, and the causes that raise it.
#[derive(Clone, Copy, Debug, PartialEq, Eq, Structural)]
pub struct InterruptConfiguration {
    /// false: active high; true: active low.
    pub level: bool,
    /// false: push-pull; true: open drain.
    pub open: bool,
    /// false: 50 us pulse; true: held until cleared.
    pub launch: bool,
    /// false: cleared only by reading the status register; true: cleared by any read.
    pub clear: bool,
    /// false: frame synchronisation pin active high; true: active low.
    pub fsync_level: bool,
    /// Frame synchronisation pin raises interrupts.
    pub fsync_interrupt: bool,
    /// The host may reach the auxiliary bus directly.
    pub i2c_bypass: bool,
    /// A FIFO buffer overflow raises the interrupt.
    pub fifo_buffer_overflow: bool,
    /// An I2C master interrupt source raises the interrupt.
    pub i2c_master_interrupt: bool,
    /// A completed measurement raises the interrupt.
    pub data_ready: bool,
    /// Number of the host input pin wired to the interrupt line, if one is.
    /// Without one the sensor can only be polled.
    pub interrupt_pin: Option<u8>,
}

impl InterruptConfiguration {
    /// The edge on which an interrupt begins: falling when the line is active
    /// low, rising when it is active high.
    pub open spec fn spec_trigger(&self) -> Trigger {
        if self.level {
            Trigger::FallingEdge
        } else {
            Trigger::RisingEdge
        }
    }

    #[verifier::when_used_as_spec(spec_trigger)]
    pub fn trigger(&self) -> (edge: Trigger)
        ensures
            edge == self.spec_trigger(),
    {
        if self.level {
            Trigger::FallingEdge
        } else {
            Trigger::RisingEdge
        }
    }
}

impl InterruptConfiguration {
    /// Every flag cleared and no interrupt pin.
    pub open spec fn spec_default() -> Self {
        InterruptConfiguration {
            level: false,
            open: false,
            launch: false,
            clear: false,
            fsync_level: false,
            fsync_interrupt: false,
            i2c_bypass: false,
            fifo_buffer_overflow: false,
            i2c_master_interrupt: false,
            data_ready: false,
            interrupt_pin: None,
        }
    }
}

impl Default for InterruptConfiguration {
    fn default() -> (configuration: Self)
        ensures
            configuration == Self::spec_default(),
    {
        InterruptConfiguration {
            level: false,
            open: false,
            launch: false,
            clear: false,
            fsync_level: false,
            fsync_interrupt: false,
            i2c_bypass: false,
            fifo_buffer_overflow: false,
            i2c_master_interrupt: false,
            data_ready: false,
            interrupt_pin: None,
        }
    }
}

} // verus!

use crate::gy521::decoding::RawSample;
use crate::gy521::encoding::bit;
use crate::gy521::registers::{DataRegisters, Register, SettingsRegisters};
use crate::gy521::sensitivity::{
    AccelerometerSensitivity, GyroscopeSensitivity, ThermometerSensitivity,
};
use crate::gy521::settings::{
    ClockSource, Configuration, InterruptConfiguration, InterruptStatus, PowerSettings, Trigger,
};
use vstd::prelude::*;

verus! {

/// One thing the driver asks of the bus or of the host's interrupt pin. The
/// driver decides; its caller performs the request and reports how it went.
#[derive(Clone, Copy, Debug, PartialEq, Eq, Structural)]
pub enum BusRequest {
    /// Address the device at this bus address.
    SetSlaveAddress(u16),
    /// Write `value` to the register at `address`.
    WriteByte(Register),
    /// Have the host's interrupt pin wake on this edge.
    SetInterrupt(Trigger),
    /// Read the register at this address.
    ReadByte(u8),
    /// Read `length` registers in one burst, from the one at `start` on.
    BlockRead { start: u8, length: usize },
}

/// The writes of an initialization, in the order they are made.
#[derive(Clone, Copy, Debug, PartialEq, Eq, Structural)]
pub enum InitializeStage {
    SlaveAddress,
    PowerManagement1,
    PowerManagement2,
    InterruptTrigger,
    InterruptPinConfiguration,
    InterruptEnable,
    Configuration,
}

/// How an initialization goes on after one of its stages.
#[derive(Clone, Copy, Debug, PartialEq, Eq, Structural)]
pub enum InitializeStep {
    /// The stage succeeded and this one is next.
    Continue(InitializeStage),
    /// The last stage succeeded.
    Done,
    /// The stage failed, and the initialization ends with it.
    Failed(InitializeStage),
}

/// A burst that came back with fewer bytes than the data registers hold.
#[derive(Clone, Copy, Debug, PartialEq, Eq, Structural)]
pub struct ShortBurst {
    pub expected: usize,
    pub received: usize,
}

/// The sensor as the driver knows it: its settings, and in the settings
/// registers the values that the device is known to hold.
///
/// All sensors are read in one burst, so that their values belong to one
/// sampling instant; the driver is therefore not split by sensor.
#[derive(Clone, Copy, Debug)]
pub struct GY521 {
    pub data_registers: DataRegisters,
    pub settings_registers: SettingsRegisters,
    pub power_settings: PowerSettings,
    pub i2c_address: u16,
    /// Clock rate of the bus, in hertz.
    pub i2c_data_access_rate: u32,
    pub gyroscope_sensitivity: GyroscopeSensitivity,
    pub accelerometer_sensitivity: AccelerometerSensitivity,
    pub thermometer_sensitvity: ThermometerSensitivity,
    /// In hertz.
    pub gyroscope_output_rate: u32,
    /// In hertz.
    pub accelerometer_output_rate: u32,
    pub configuration: Configuration,
    /// The gyroscope's output rate is divided by one more than this to give the
    /// rate at which the data registers are written.
    pub sample_rate_divider: u8,
    pub interrupt_configuration: InterruptConfiguration,
}

impl GY521 {
    /// A sensor with the given settings. The gyroscope's output rate follows from
    /// the filter; the accelerometer's is 1 kHz.
    pub fn new(
        data_registers: DataRegisters,
        settings_registers: SettingsRegisters,
        power_settings: PowerSettings,
        i2c_address: u16,
        i2c_data_access_rate: u32,
        gyroscope_sensitivity: GyroscopeSensitivity,
        accelerometer_sensitivity: AccelerometerSensitivity,
        thermometer_sensitvity: ThermometerSensitivity,
        configuration: Configuration,
        sample_rate_divider: u8,
        interrupt_configuration: InterruptConfiguration,
    ) -> (sensor: Self)
        ensures
            sensor == (GY521 {
                data_registers,
                settings_registers,
                power_settings,
                i2c_address,
                i2c_data_access_rate,
                gyroscope_sensitivity,
                accelerometer_sensitivity,
                thermometer_sensitvity,
                gyroscope_output_rate: configuration.filter.spec_gyroscope_output_rate(),
                accelerometer_output_rate: 1000,
                configuration,
                sample_rate_divider,
                interrupt_configuration,
            }),
    {
        Self {
            data_registers,
            settings_registers,
            power_settings,
            i2c_address,
            i2c_data_access_rate,
            gyroscope_sensitivity,
            accelerometer_sensitivity,
            thermometer_sensitvity,
            gyroscope_output_rate: configuration.filter.gyroscope_output_rate(),
            accelerometer_output_rate: 1000,
            configuration,
            sample_rate_divider,
            interrupt_configuration,
        }
    }

    /// The time between two writes of the data registers, in nanoseconds: one
    /// more than the divider, times the gyroscope's output period.
    pub open spec fn spec_sample_period_nanos(&self) -> u64 {
        ((1 + self.sample_rate_divider)
            * self.configuration.filter.spec_gyroscope_output_period_nanos()) as u64
    }

    #[verifier::when_used_as_spec(spec_sample_period_nanos)]
    pub fn sample_period_nanos(&self) -> (period: u64)
        ensures
            period == self.spec_sample_period_nanos(),
            period == (1 + self.sample_rate_divider)
                * self.configuration.filter.spec_gyroscope_output_period_nanos(),
            period * self.configuration.filter.spec_gyroscope_output_rate() == (1
                + self.sample_rate_divider) * 1_000_000_000,
    {
        let output_period: u64 = self.configuration.filter.gyroscope_output_period_nanos();
        let factor: u64 = 1 + self.sample_rate_divider as u64;
        factor * output_period
    }

    /// How long to wait for the interrupt, in nanoseconds: one and a half sample
    /// periods, so that one late sample is waited for and two are not.
    pub open spec fn spec_interrupt_timeout_nanos(&self) -> u64 {
        (self.spec_sample_period_nanos() / 2 * 3) as u64
    }

    #[verifier::when_used_as_spec(spec_interrupt_timeout_nanos)]
    pub fn interrupt_timeout_nanos(&self) -> (timeout: u64)
        ensures
            timeout == self.spec_interrupt_timeout_nanos(),
            2 * timeout == 3 * self.spec_sample_period_nanos(),
            self.spec_sample_period_nanos() < timeout < 2 * self.spec_sample_period_nanos(),
    {
        self.sample_period_nanos() / 2 * 3
    }

    /// What a stage of the initialization asks for: the device's address first,
    /// then the two power management registers, then, for a sensor with an
    /// interrupt pin, the pin's trigger and the two interrupt registers, and at
    /// last the filter configuration. Each register gets the encoding of the
    /// settings it holds.
    pub open spec fn spec_initialize_request(&self, stage: InitializeStage) -> BusRequest {
        match stage {
            InitializeStage::SlaveAddress => BusRequest::SetSlaveAddress(self.i2c_address),
            InitializeStage::PowerManagement1 => BusRequest::WriteByte(
                Register {
                    address: self.settings_registers.pwr_mgmt_1.address,
                    value: self.power_settings.spec_pwr_mgmt_1(),
                },
            ),
            InitializeStage::PowerManagement2 => BusRequest::WriteByte(
                Register {
                    address: self.settings_registers.pwr_mgmt_2.address,
                    value: self.power_settings.spec_pwr_mgmt_2(),
                },
            ),
            InitializeStage::InterruptTrigger => BusRequest::SetInterrupt(
                self.interrupt_configuration.spec_trigger(),
            ),
            InitializeStage::InterruptPinConfiguration => BusRequest::WriteByte(
                Register {
                    address: self.settings_registers.int_pin_cfg.address,
                    value: self.interrupt_configuration.spec_int_pin_cfg(),
                },
            ),
            InitializeStage::InterruptEnable => BusRequest::WriteByte(
                Register {
                    address: self.settings_registers.int_enable.address,
                    value: self.interrupt_configuration.spec_int_enable(),
                },
            ),
            InitializeStage::Configuration => BusRequest::WriteByte(
                Register {
                    address: self.settings_registers.config.address,
                    value: self.configuration.spec_register_value(),
                },
            ),
        }
    }

    /// The stage that follows a successful one, if any does. The three
    /// interrupt stages are left out for a sensor without an interrupt pin.
    pub open spec fn spec_next_stage(&self, stage: InitializeStage) -> Option<InitializeStage> {
        match stage {
            InitializeStage::SlaveAddress => Some(InitializeStage::PowerManagement1),
            InitializeStage::PowerManagement1 => Some(InitializeStage::PowerManagement2),
            InitializeStage::PowerManagement2 => if self.interrupt_configuration.interrupt_pin.is_some() {
                Some(InitializeStage::InterruptTrigger)
            } else {
                Some(InitializeStage::Configuration)
            },
            InitializeStage::InterruptTrigger => Some(InitializeStage::InterruptPinConfiguration),
            InitializeStage::InterruptPinConfiguration => Some(InitializeStage::InterruptEnable),
            InitializeStage::InterruptEnable => Some(InitializeStage::Configuration),
            InitializeStage::Configuration => None,
        }
    }

    /// The sensor once a stage has succeeded: the register that the stage wrote
    /// holds the value written, and nothing else has changed.
    pub open spec fn spec_acknowledged(self, stage: InitializeStage) -> Self {
        match self.spec_initialize_request(stage) {
            BusRequest::WriteByte(written) => self.spec_written(stage, written.value),
            _ => self,
        }
    }

    /// The sensor with `value` in the settings register that `stage` writes.
    pub open spec fn spec_written(self, stage: InitializeStage, value: u8) -> Self {
        let registers = self.settings_registers;
        let updated = match stage {
            InitializeStage::PowerManagement1 => SettingsRegisters {
                pwr_mgmt_1: Register { value, ..registers.pwr_mgmt_1 },
                ..registers
            },
            InitializeStage::PowerManagement2 => SettingsRegisters {
                pwr_mgmt_2: Register { value, ..registers.pwr_mgmt_2 },
                ..registers
            },
            InitializeStage::InterruptPinConfiguration => SettingsRegisters {
                int_pin_cfg: Register { value, ..registers.int_pin_cfg },
                ..registers
            },
            InitializeStage::InterruptEnable => SettingsRegisters {
                int_enable: Register { value, ..registers.int_enable },
                ..registers
            },
            InitializeStage::Configuration => SettingsRegisters {
                config: Register { value, ..registers.config },
                ..registers
            },
            _ => registers,
        };
        GY521 { settings_registers: updated, ..self }
    }

    /// The first stage of an initialization.
    pub fn initialize_begin(&self) -> (stage: InitializeStage)
        ensures
            stage == InitializeStage::SlaveAddress,
    {
        InitializeStage::SlaveAddress
    }

    /// What the caller is to do at `stage`.
    #[verifier::when_used_as_spec(spec_initialize_request)]
    pub fn initialize_request(&self, stage: InitializeStage) -> (request: BusRequest)
        ensures
            request == self.spec_initialize_request(stage),
    {
        match stage {
            InitializeStage::SlaveAddress => BusRequest::SetSlaveAddress(self.i2c_address),
            InitializeStage::PowerManagement1 => BusRequest::WriteByte(
                Register::new(
                    self.settings_registers.pwr_mgmt_1.address,
                    self.power_settings.pwr_mgmt_1(),
                ),
            ),
            InitializeStage::PowerManagement2 => BusRequest::WriteByte(
                Register::new(
                    self.settings_registers.pwr_mgmt_2.address,
                    self.power_settings.pwr_mgmt_2(),
                ),
            ),
            InitializeStage::InterruptTrigger => BusRequest::SetInterrupt(
                self.interrupt_configuration.trigger(),
            ),
            InitializeStage::InterruptPinConfiguration => BusRequest::WriteByte(
                Register::new(
                    self.settings_registers.int_pin_cfg.address,
                    self.interrupt_configuration.int_pin_cfg(),
                ),
            ),
            InitializeStage::InterruptEnable => BusRequest::WriteByte(
                Register::new(
                    self.settings_registers.int_enable.address,
                    self.interrupt_configuration.int_enable(),
                ),
            ),
            InitializeStage::Configuration => BusRequest::WriteByte(
                Register::new(
                    self.settings_registers.config.address,
                    self.configuration.register_value(),
                ),
            ),
        }
    }

    /// Takes the outcome of the request of `stage`. A value is recorded as the
    /// device's only if the device acknowledged it: on success the register
    /// written holds the new value and the next stage, if any, is returned; on
    /// failure nothing is recorded and the initialization ends, with the
    /// registers of earlier stages left as written.
    pub fn initialize(&mut self, stage: InitializeStage, acknowledged: bool) -> (step:
        InitializeStep)
        ensures
            !acknowledged ==> *final(self) == *old(self) && step == InitializeStep::Failed(stage),
            acknowledged ==> *final(self) == old(self).spec_acknowledged(stage),
            acknowledged ==> step == match old(self).spec_next_stage(stage) {
                Some(next) => InitializeStep::Continue(next),
                None => InitializeStep::Done,
            },
    {
        if !acknowledged {
            return InitializeStep::Failed(stage);
        }
        match stage {
            InitializeStage::SlaveAddress => InitializeStep::Continue(
                InitializeStage::PowerManagement1,
            ),
            InitializeStage::PowerManagement1 => {
                self.settings_registers.pwr_mgmt_1.value = self.power_settings.pwr_mgmt_1();
                InitializeStep::Continue(InitializeStage::PowerManagement2)
            },
            InitializeStage::PowerManagement2 => {
                self.settings_registers.pwr_mgmt_2.value = self.power_settings.pwr_mgmt_2();
                if self.interrupt_configuration.interrupt_pin.is_some() {
                    InitializeStep::Continue(InitializeStage::InterruptTrigger)
                } else {
                    InitializeStep::Continue(InitializeStage::Configuration)
                }
            },
            InitializeStage::InterruptTrigger => InitializeStep::Continue(
                InitializeStage::InterruptPinConfiguration,
            ),
            InitializeStage::InterruptPinConfiguration => {
                self.settings_registers.int_pin_cfg.value =
                self.interrupt_configuration.int_pin_cfg();
                InitializeStep::Continue(InitializeStage::InterruptEnable)
            },
            InitializeStage::InterruptEnable => {
                self.settings_registers.int_enable.value =
                self.interrupt_configuration.int_enable();
                InitializeStep::Continue(InitializeStage::Configuration)
            },
            InitializeStage::Configuration => {
                self.settings_registers.config.value = self.configuration.register_value();
                InitializeStep::Done
            },
        }
    }

    /// The sensor once every stage of an initialization, from `stage` on, has
    /// succeeded.
    pub open spec fn spec_initialized_from(self, stage: InitializeStage) -> Self
        decreases stage.spec_remaining(),
    {
        let recorded = self.spec_acknowledged(stage);
        match self.spec_next_stage(stage) {
            Some(next) => if next.spec_remaining() < stage.spec_remaining() {
                recorded.spec_initialized_from(next)
            } else {
                recorded
            },
            None => recorded,
        }
    }

    /// The settings registers of a sensor whose device holds its settings: the
    /// power management and configuration registers hold the encodings of their
    /// settings, and so do the interrupt registers if there is an interrupt
    /// pin. The addresses and all other values are those of `self`.
    pub open spec fn spec_configured_registers(&self) -> SettingsRegisters {
        let registers = self.settings_registers;
        let with_pin = self.interrupt_configuration.interrupt_pin.is_some();
        SettingsRegisters {
            pwr_mgmt_1: Register {
                value: self.power_settings.spec_pwr_mgmt_1(),
                ..registers.pwr_mgmt_1
            },
            pwr_mgmt_2: Register {
                value: self.power_settings.spec_pwr_mgmt_2(),
                ..registers.pwr_mgmt_2
            },
            int_pin_cfg: if with_pin {
                Register {
                    value: self.interrupt_configuration.spec_int_pin_cfg(),
                    ..registers.int_pin_cfg
                }
            } else {
                registers.int_pin_cfg
            },
            int_enable: if with_pin {
                Register {
                    value: self.interrupt_configuration.spec_int_enable(),
                    ..registers.int_enable
                }
            } else {
                registers.int_enable
            },
            int_status: registers.int_status,
            config: Register {
                value: self.configuration.spec_register_value(),
                ..registers.config
            },
        }
    }

    /// The value that the first power management register takes when only the
    /// clock source changes: its three lowest bits give way to the new source.
    pub open spec fn spec_clock_source_value(&self, clock_source: ClockSource) -> u8 {
        let held = self.settings_registers.pwr_mgmt_1.value;
        (held - held % 8 + clock_source.spec_bits()) as u8
    }

    /// The register value that names `clock_source` and keeps all else.
    fn clock_source_value(&self, clock_source: ClockSource) -> (value: u8)
        ensures
            value == self.spec_clock_source_value(clock_source),
    {
        let held: u8 = self.settings_registers.pwr_mgmt_1.value;
        let source: u8 = clock_source.bits();
        assert(((held & 0xF8) | source) == held - held % 8 + source) by (bit_vector)
            requires
                source <= 7u8,
        ;
        (held & 0xF8) | source
    }

    /// The write that changes the clock source and nothing else.
    pub fn set_clock_source_request(&self, clock_source: ClockSource) -> (request: BusRequest)
        ensures
            request == BusRequest::WriteByte(
                Register {
                    address: self.settings_registers.pwr_mgmt_1.address,
                    value: self.spec_clock_source_value(clock_source),
                },
            ),
    {
        BusRequest::WriteByte(
            Register::new(
                self.settings_registers.pwr_mgmt_1.address,
                self.clock_source_value(clock_source),
            ),
        )
    }

    /// Takes the outcome of the write that `set_clock_source_request` asks for.
    /// Once the device has acknowledged it, the power settings name the new
    /// source and the register holds the value written; otherwise nothing
    /// changes.
    pub fn set_clock_source(&mut self, clock_source: ClockSource, acknowledged: bool)
        ensures
            !acknowledged ==> *final(self) == *old(self),
            acknowledged ==> *final(self) == (GY521 {
                power_settings: PowerSettings { clock_source, ..old(self).power_settings },
                settings_registers: SettingsRegisters {
                    pwr_mgmt_1: Register {
                        value: old(self).spec_clock_source_value(clock_source),
                        ..old(self).settings_registers.pwr_mgmt_1
                    },
                    ..old(self).settings_registers
                },
                ..*old(self)
            }),
    {
        if acknowledged {
            let value: u8 = self.clock_source_value(clock_source);
            self.power_settings.clock_source = clock_source;
            self.settings_registers.pwr_mgmt_1.value = value;
        }
    }

    /// The value that the first power management register takes when the
    /// device is sent to sleep: bit 6 is set, the others stay.
    pub open spec fn spec_sleep_value(&self) -> u8 {
        let held = self.settings_registers.pwr_mgmt_1.value;
        if bit(held, 6) {
            held
        } else {
            (held + 64) as u8
        }
    }

    /// The register value that adds sleep and keeps all else.
    fn sleep_value(&self) -> (value: u8)
        ensures
            value == self.spec_sleep_value(),
    {
        let held: u8 = self.settings_registers.pwr_mgmt_1.value;
        assert((held | (1u8 << 6)) == if (held >> 6u8) & 1 == 1 {
            held
        } else {
            (held + 64) as u8
        }) by (bit_vector);
        held | (1 << 6)
    }

    /// The write that sends the device to sleep and changes nothing else.
    pub fn sleep_request(&self) -> (request: BusRequest)
        ensures
            request == BusRequest::WriteByte(
                Register {
                    address: self.settings_registers.pwr_mgmt_1.address,
                    value: self.spec_sleep_value(),
                },
            ),
    {
        BusRequest::WriteByte(
            Register::new(self.settings_registers.pwr_mgmt_1.address, self.sleep_value()),
        )
    }

    /// Takes the outcome of the write that `sleep_request` asks for. Once the
    /// device has acknowledged it, the register holds the value written;
    /// otherwise nothing changes.
    pub fn sleep(&mut self, acknowledged: bool)
        ensures
            !acknowledged ==> *final(self) == *old(self),
            acknowledged ==> *final(self) == (GY521 {
                settings_registers: SettingsRegisters {
                    pwr_mgmt_1: Register {
                        value: old(self).spec_sleep_value(),
                        ..old(self).settings_registers.pwr_mgmt_1
                    },
                    ..old(self).settings_registers
                },
                ..*old(self)
            }),
    {
        if acknowledged {
            self.settings_registers.pwr_mgmt_1.value = self.sleep_value();
        }
    }

    /// The read of the interrupt status register, to be made once the interrupt
    /// pin has shown its edge.
    pub fn interrupt_status_request(&self) -> (request: BusRequest)
        ensures
            request == BusRequest::ReadByte(self.settings_registers.int_status.address),
    {
        BusRequest::ReadByte(self.settings_registers.int_status.address)
    }

    /// Takes the outcome of waiting on the interrupt pin: nothing if the wait
    /// timed out, else the value then read from the interrupt status register.
    /// Returns the causes that the value reports, or nothing after a timeout.
    ///
    /// A sensor without an interrupt pin cannot be waited on.
    pub fn wait_for_interrupt(&self, polled: Option<u8>) -> (status: Option<InterruptStatus>)
        requires
            self.interrupt_configuration.interrupt_pin.is_some(),
        ensures
            status == match polled {
                Some(value) => Some(InterruptStatus::spec_from_byte(value)),
                None => None,
            },
    {
        match polled {
            Some(value) => Some(InterruptStatus::from_byte(value)),
            None => None,
        }
    }

    /// The burst that reads all data registers.
    pub open spec fn spec_read_request(&self) -> BusRequest {
        BusRequest::BlockRead {
            start: self.data_registers.data_range().start,
            length: self.data_registers.data_range().spec_len() as usize,
        }
    }

    /// The burst to ask for when a sample is to be read.
    pub fn read_request(&self) -> (request: BusRequest)
        ensures
            request == self.spec_read_request(),
    {
        BusRequest::BlockRead {
            start: self.data_registers.burst_start(),
            length: self.data_registers.burst_len(),
        }
    }

    /// Takes the outcome of waiting on the interrupt pin, as `wait_for_interrupt`
    /// does, and decides whether a sample is to be read: the burst over the data
    /// registers if the interrupt reports that data is ready, and nothing in
    /// this cycle if the wait timed out or the interrupt had another cause.
    pub fn wait_for_sample(&self, polled: Option<u8>) -> (request: Option<BusRequest>)
        requires
            self.interrupt_configuration.interrupt_pin.is_some(),
        ensures
            request == match polled {
                Some(value) => if bit(value, 0) {
                    Some(self.spec_read_request())
                } else {
                    None
                },
                None => None,
            },
    {
        match self.wait_for_interrupt(polled) {
            Some(status) => if status.data_ready {
                Some(self.read_request())
            } else {
                None
            },
            None => None,
        }
    }

    /// Decodes the bytes that the burst of `read_request` brought: the signed
    /// register values of all sensors. Fails exactly when the burst is shorter
    /// than the data registers.
    pub fn read_raw(&self, data: &[u8]) -> (sample: Result<RawSample, ShortBurst>)
        requires
            self.data_registers.spec_holds_sample(),
        ensures
            sample.is_ok() <==> data@.len() >= self.data_registers.data_range().spec_len(),
            sample matches Ok(decoded) ==> decoded == self.data_registers.spec_decode(data@),
            sample matches Err(short) ==> short.expected
                == self.data_registers.data_range().spec_len() && short.received == data@.len(),
    {
        match self.data_registers.decode(data) {
            Some(decoded) => Ok(decoded),
            None => Err(
                ShortBurst { expected: self.data_registers.burst_len(), received: data.len() },
            ),
        }
    }
}

impl InitializeStage {
    /// The number of stages that can still follow this one.
    pub open spec fn spec_remaining(self) -> nat {
        match self {
            InitializeStage::SlaveAddress => 6,
            InitializeStage::PowerManagement1 => 5,
            InitializeStage::PowerManagement2 => 4,
            InitializeStage::InterruptTrigger => 3,
            InitializeStage::InterruptPinConfiguration => 2,
            InitializeStage::InterruptEnable => 1,
            InitializeStage::Configuration => 0,
        }
    }
}

impl Default for GY521 {
    /// The sensor at its usual address 0x68 on a 400 kHz bus, with the default
    /// settings and register map.
    fn default() -> (sensor: Self)
        ensures
            sensor.settings_registers == SettingsRegisters::spec_default(),
            sensor.data_registers == DataRegisters::spec_default(),
            sensor.i2c_address == 0x68,
            sensor.i2c_data_access_rate == 400_000,
            sensor.gyroscope_sensitivity == GyroscopeSensitivity::preset(250, 1310),
            sensor.accelerometer_sensitivity == AccelerometerSensitivity::preset(2, 16_384),
            sensor.thermometer_sensitvity == ThermometerSensitivity::spec_default(),
            sensor.power_settings == PowerSettings::spec_default(),
            sensor.configuration == Configuration::spec_default(),
            sensor.interrupt_configuration == InterruptConfiguration::spec_default(),
            sensor.sample_rate_divider == 0,
            sensor.gyroscope_output_rate == 8000,
            sensor.accelerometer_output_rate == 1000,
    {
        Self::new(
            DataRegisters::default(),
            SettingsRegisters::default(),
            PowerSettings::default(),
            0x68,
            400_000,
            GyroscopeSensitivity::default(),
            AccelerometerSensitivity::default(),
            ThermometerSensitivity::default(),
            Configuration::default(),
            0,
            InterruptConfiguration::default(),
        )
    }
}

/// An initialization in which every stage succeeds leaves the settings
/// registers holding the encodings of the sensor's settings, the interrupt
/// registers only if there is an interrupt pin, and changes nothing else.
pub proof fn lemma_initialized_registers(sensor: GY521)
    ensures
        sensor.spec_initialized_from(InitializeStage::SlaveAddress) == (GY521 {
            settings_registers: sensor.spec_configured_registers(),
            ..sensor
        }),
{
    reveal_with_fuel(GY521::spec_initialized_from, 8);
}

/// Changing the clock source of a sensor whose device holds its power settings
/// leaves the device holding the new power settings: the register written is
/// the encoding of the settings with the new source.
pub proof fn lemma_clock_source_keeps_encoding(sensor: GY521, clock_source: ClockSource)
    requires
        sensor.settings_registers.pwr_mgmt_1.value == sensor.power_settings.spec_pwr_mgmt_1(),
    ensures
        sensor.spec_clock_source_value(clock_source) == (PowerSettings {
            clock_source,
            ..sensor.power_settings
        }).spec_pwr_mgmt_1(),
{
}

/// Sending an active device to sleep writes what an initialization in sleep
/// mode would: the register written is the encoding of the power settings
/// with the mode changed to sleep.
pub proof fn lemma_sleep_keeps_encoding(sensor: GY521)
    requires
        sensor.settings_registers.pwr_mgmt_1.value == sensor.power_settings.spec_pwr_mgmt_1(),
        sensor.power_settings.mode == crate::gy521::settings::PowerMode::Active,
    ensures
        sensor.spec_sleep_value() == (PowerSettings {
            mode: crate::gy521::settings::PowerMode::Sleep,
            ..sensor.power_settings
        }).spec_pwr_mgmt_1(),
{
    let held = sensor.settings_registers.pwr_mgmt_1.value;
    assert(!bit(held, 6)) by (bit_vector)
        requires
            held < 64u8,
    ;
}

} // verus!

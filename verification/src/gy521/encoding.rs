use crate::gy521::settings::{
    ClockSource, Configuration, ExternalFrameSynchronization, Filter, InterruptConfiguration,
    InterruptStatus, PowerMode, PowerSettings, WakeFrequency,
};
use vstd::prelude::*;

verus! {

/// One for a set flag, zero for a cleared one.
pub open spec fn flag(set: bool) -> u8 {
    if set {
        1
    } else {
        0
    }
}

/// Whether the bit at `position`, counted from the least significant, is set.
pub open spec fn bit(value: u8, position: u8) -> bool {
    (value >> position) & 1 == 1
}

fn flag_value(set: bool) -> (value: u8)
    ensures
        value == flag(set),
{
    if set {
        1
    } else {
        0
    }
}

impl PowerMode {
    /// What the mode contributes to the first power management register: bit 5
    /// for cycling, bit 6 for sleep, bit 7 for a device reset.
    pub open spec fn mode_bits(self) -> u8 {
        match self {
            PowerMode::Active => 0,
            PowerMode::Cycle(_) => 32,
            PowerMode::Sleep => 64,
            PowerMode::Reset => 128,
        }
    }

    /// What the mode contributes to the second power management register: the
    /// wake frequency in bits 6 and 7 when cycling, nothing otherwise.
    pub open spec fn wake_bits(self) -> u8 {
        match self {
            PowerMode::Cycle(frequency) => frequency.spec_bits(),
            _ => 0,
        }
    }
}

impl PowerSettings {
    /// Value of the first power management register: the mode in bits 5 to 7, the
    /// thermometer's disable flag in bit 3, the clock source in bits 0 to 2.
    pub open spec fn spec_pwr_mgmt_1(&self) -> u8 {
        (self.mode.mode_bits() + 8 * flag(!self.thermometer_active)
            + self.clock_source.spec_bits()) as u8
    }

    /// Value of the second power management register: the wake frequency in bits
    /// 6 and 7, then one disable flag per axis, accelerometer x, y, z in bits 5
    /// to 3 and gyroscope x, y, z in bits 2 to 0.
    pub open spec fn spec_pwr_mgmt_2(&self) -> u8 {
        (64 * self.mode.wake_bits() + 32 * flag(!self.accelerometer_x_active) + 16 * flag(
            !self.accelerometer_y_active,
        ) + 8 * flag(!self.accelerometer_z_active) + 4 * flag(!self.gyroscope_x_active) + 2
            * flag(!self.gyroscope_y_active) + flag(!self.gyroscope_z_active)) as u8
    }

    #[verifier::when_used_as_spec(spec_pwr_mgmt_1)]
    pub fn pwr_mgmt_1(&self) -> (value: u8)
        ensures
            value == self.spec_pwr_mgmt_1(),
    {
        let mode: u8 = match self.mode {
            PowerMode::Active => 0,
            PowerMode::Cycle(_) => 1 << 5,
            PowerMode::Reset => 1 << 7,
            PowerMode::Sleep => 1 << 6,
        };
        let thermometer: u8 = flag_value(!self.thermometer_active);
        let clock: u8 = self.clock_source.bits();
        assert(1u8 << 5 == 32u8 && 1u8 << 6 == 64u8 && 1u8 << 7 == 128u8) by (bit_vector);
        assert((mode | (thermometer << 3) | clock) == mode + 8 * thermometer + clock)
            by (bit_vector)
            requires
                mode == 0u8 || mode == 32u8 || mode == 64u8 || mode == 128u8,
                thermometer <= 1u8,
                clock <= 7u8,
        ;
        mode | (thermometer << 3) | clock
    }

    #[verifier::when_used_as_spec(spec_pwr_mgmt_2)]
    pub fn pwr_mgmt_2(&self) -> (value: u8)
        ensures
            value == self.spec_pwr_mgmt_2(),
    {
        let wake: u8 = match self.mode {
            PowerMode::Cycle(frequency) => frequency.bits(),
            _ => 0,
        };
        let ax: u8 = flag_value(!self.accelerometer_x_active);
        let ay: u8 = flag_value(!self.accelerometer_y_active);
        let az: u8 = flag_value(!self.accelerometer_z_active);
        let gx: u8 = flag_value(!self.gyroscope_x_active);
        let gy: u8 = flag_value(!self.gyroscope_y_active);
        let gz: u8 = flag_value(!self.gyroscope_z_active);
        assert(((wake << 6) | (ax << 5) | (ay << 4) | (az << 3) | (gx << 2) | (gy << 1) | gz) == 64
            * wake + 32 * ax + 16 * ay + 8 * az + 4 * gx + 2 * gy + gz) by (bit_vector)
            requires
                wake <= 3u8,
                ax <= 1u8,
                ay <= 1u8,
                az <= 1u8,
                gx <= 1u8,
                gy <= 1u8,
                gz <= 1u8,
        ;
        (wake << 6) | (ax << 5) | (ay << 4) | (az << 3) | (gx << 2) | (gy << 1) | gz
    }
}

impl InterruptConfiguration {
    /// Value of the interrupt pin configuration register: level, open, launch,
    /// clear, fsync level, fsync interrupt and bypass in bits 7 down to 1.
    pub open spec fn spec_int_pin_cfg(&self) -> u8 {
        (128 * flag(self.level) + 64 * flag(self.open) + 32 * flag(self.launch) + 16 * flag(
            self.clear,
        ) + 8 * flag(self.fsync_level) + 4 * flag(self.fsync_interrupt) + 2 * flag(
            self.i2c_bypass,
        )) as u8
    }

    /// Value of the interrupt enable register: FIFO overflow in bit 4, I2C
    /// master in bit 3, data ready in bit 0.
    pub open spec fn spec_int_enable(&self) -> u8 {
        (16 * flag(self.fifo_buffer_overflow) + 8 * flag(self.i2c_master_interrupt) + flag(
            self.data_ready,
        )) as u8
    }

    #[verifier::when_used_as_spec(spec_int_pin_cfg)]
    pub fn int_pin_cfg(&self) -> (value: u8)
        ensures
            value == self.spec_int_pin_cfg(),
    {
        let level: u8 = flag_value(self.level);
        let open: u8 = flag_value(self.open);
        let launch: u8 = flag_value(self.launch);
        let clear: u8 = flag_value(self.clear);
        let fsync_level: u8 = flag_value(self.fsync_level);
        let fsync_interrupt: u8 = flag_value(self.fsync_interrupt);
        let bypass: u8 = flag_value(self.i2c_bypass);
        assert(((level << 7) | (open << 6) | (launch << 5) | (clear << 4) | (fsync_level << 3) | (
        fsync_interrupt << 2) | (bypass << 1)) == 128 * level + 64 * open + 32 * launch + 16
            * clear + 8 * fsync_level + 4 * fsync_interrupt + 2 * bypass) by (bit_vector)
            requires
                level <= 1u8,
                open <= 1u8,
                launch <= 1u8,
                clear <= 1u8,
                fsync_level <= 1u8,
                fsync_interrupt <= 1u8,
                bypass <= 1u8,
        ;
        (level << 7) | (open << 6) | (launch << 5) | (clear << 4) | (fsync_level << 3) | (
        fsync_interrupt << 2) | (bypass << 1)
    }

    #[verifier::when_used_as_spec(spec_int_enable)]
    pub fn int_enable(&self) -> (value: u8)
        ensures
            value == self.spec_int_enable(),
    {
        let overflow: u8 = flag_value(self.fifo_buffer_overflow);
        let master: u8 = flag_value(self.i2c_master_interrupt);
        let ready: u8 = flag_value(self.data_ready);
        assert(((overflow << 4) | (master << 3) | ready) == 16 * overflow + 8 * master + ready)
            by (bit_vector)
            requires
                overflow <= 1u8,
                master <= 1u8,
                ready <= 1u8,
        ;
        (overflow << 4) | (master << 3) | ready
    }
}

impl Configuration {
    /// Value of the configuration register: the frame synchronisation source in
    /// bits 3 to 5, the filter setting in bits 0 to 2.
    pub open spec fn spec_register_value(&self) -> u8 {
        (8 * self.external_frame_synchronization.spec_bits() + self.filter.spec_bits()) as u8
    }

    #[verifier::when_used_as_spec(spec_register_value)]
    pub fn register_value(&self) -> (value: u8)
        ensures
            value == self.spec_register_value(),
    {
        let filter: u8 = self.filter.bits();
        let synchronization: u8 = self.external_frame_synchronization.bits();
        assert((filter | (synchronization << 3)) == 8 * synchronization + filter) by (bit_vector)
            requires
                filter <= 7u8,
                synchronization <= 7u8,
        ;
        filter | (synchronization << 3)
    }
}

impl InterruptStatus {
    /// The causes that a value of the interrupt status register reports: FIFO
    /// overflow in bit 4, I2C master in bit 3, data ready in bit 0.
    pub open spec fn spec_from_byte(value: u8) -> Self {
        InterruptStatus {
            fifo_buffer_overflow: bit(value, 4),
            i2c_master_interrupt: bit(value, 3),
            data_ready: bit(value, 0),
        }
    }

    #[verifier::when_used_as_spec(spec_from_byte)]
    pub fn from_byte(value: u8) -> (status: Self)
        ensures
            status == Self::spec_from_byte(value),
    {
        assert(((value & (1u8 << 4)) != 0) == ((value >> 4u8) & 1 == 1)) by (bit_vector);
        assert(((value & (1u8 << 3)) != 0) == ((value >> 3u8) & 1 == 1)) by (bit_vector);
        assert(((value & (1u8 << 0)) != 0) == ((value >> 0u8) & 1 == 1)) by (bit_vector);
        InterruptStatus {
            fifo_buffer_overflow: (value & (1 << 4)) != 0,
            i2c_master_interrupt: (value & (1 << 3)) != 0,
            data_ready: (value & (1 << 0)) != 0,
        }
    }
}

impl PowerSettings {
    /// The settings that the two power management registers stand for, read
    /// field by field; none if the clock selection holds the reserved value.
    pub open spec fn spec_from_registers(pwr_mgmt_1: u8, pwr_mgmt_2: u8) -> Option<Self> {
        match ClockSource::spec_from_bits(pwr_mgmt_1 & 7) {
            Some(clock_source) => Some(
                PowerSettings {
                    mode: if bit(pwr_mgmt_1, 7) {
                        PowerMode::Reset
                    } else if bit(pwr_mgmt_1, 6) {
                        PowerMode::Sleep
                    } else if bit(pwr_mgmt_1, 5) {
                        PowerMode::Cycle(WakeFrequency::spec_from_bits(pwr_mgmt_2 >> 6))
                    } else {
                        PowerMode::Active
                    },
                    clock_source,
                    accelerometer_x_active: !bit(pwr_mgmt_2, 5),
                    accelerometer_y_active: !bit(pwr_mgmt_2, 4),
                    accelerometer_z_active: !bit(pwr_mgmt_2, 3),
                    gyroscope_x_active: !bit(pwr_mgmt_2, 2),
                    gyroscope_y_active: !bit(pwr_mgmt_2, 1),
                    gyroscope_z_active: !bit(pwr_mgmt_2, 0),
                    thermometer_active: !bit(pwr_mgmt_1, 3),
                },
            ),
            None => None,
        }
    }
}

impl InterruptConfiguration {
    /// The configuration that the two interrupt registers stand for, read bit by
    /// bit, with the given host pin.
    pub open spec fn spec_from_registers(
        int_pin_cfg: u8,
        int_enable: u8,
        interrupt_pin: Option<u8>,
    ) -> Self {
        InterruptConfiguration {
            level: bit(int_pin_cfg, 7),
            open: bit(int_pin_cfg, 6),
            launch: bit(int_pin_cfg, 5),
            clear: bit(int_pin_cfg, 4),
            fsync_level: bit(int_pin_cfg, 3),
            fsync_interrupt: bit(int_pin_cfg, 2),
            i2c_bypass: bit(int_pin_cfg, 1),
            fifo_buffer_overflow: bit(int_enable, 4),
            i2c_master_interrupt: bit(int_enable, 3),
            data_ready: bit(int_enable, 0),
            interrupt_pin,
        }
    }
}

impl Configuration {
    /// The settings that a value of the configuration register stands for.
    pub open spec fn spec_from_register(value: u8) -> Self {
        Configuration {
            external_frame_synchronization: ExternalFrameSynchronization::spec_from_bits(
                (value >> 3) & 7,
            ),
            filter: Filter::spec_from_bits(value & 7),
        }
    }
}

/// Reading the two power management registers back field by field gives the
/// settings they were encoded from, whatever those settings are.
pub proof fn lemma_power_settings_round_trip(settings: PowerSettings)
    ensures
        PowerSettings::spec_from_registers(settings.spec_pwr_mgmt_1(), settings.spec_pwr_mgmt_2())
            == Some(settings),
        !bit(settings.spec_pwr_mgmt_1(), 4),
{
    let mode = settings.mode.mode_bits();
    let thermometer = flag(!settings.thermometer_active);
    let clock = settings.clock_source.spec_bits();
    let first = settings.spec_pwr_mgmt_1();
    assert(first & 7 == clock && bit(first, 7) == (mode == 128u8) && bit(first, 6) == (mode
        == 64u8) && bit(first, 5) == (mode == 32u8) && !bit(first, 4) && bit(first, 3) == (
    thermometer == 1u8)) by (bit_vector)
        requires
            mode == 0u8 || mode == 32u8 || mode == 64u8 || mode == 128u8,
            thermometer <= 1u8,
            clock <= 7u8,
            first == (mode + 8 * thermometer + clock) as u8,
    ;
    let wake = settings.mode.wake_bits();
    let ax = flag(!settings.accelerometer_x_active);
    let ay = flag(!settings.accelerometer_y_active);
    let az = flag(!settings.accelerometer_z_active);
    let gx = flag(!settings.gyroscope_x_active);
    let gy = flag(!settings.gyroscope_y_active);
    let gz = flag(!settings.gyroscope_z_active);
    let second = settings.spec_pwr_mgmt_2();
    assert(second >> 6 == wake && bit(second, 5) == (ax == 1u8) && bit(second, 4) == (ay == 1u8)
        && bit(second, 3) == (az == 1u8) && bit(second, 2) == (gx == 1u8) && bit(second, 1) == (gy
        == 1u8) && bit(second, 0) == (gz == 1u8)) by (bit_vector)
        requires
            wake <= 3u8,
            ax <= 1u8,
            ay <= 1u8,
            az <= 1u8,
            gx <= 1u8,
            gy <= 1u8,
            gz <= 1u8,
            second == (64 * wake + 32 * ax + 16 * ay + 8 * az + 4 * gx + 2 * gy + gz) as u8,
    ;
}

/// Reading the two interrupt registers back bit by bit gives the configuration
/// they were encoded from; the bits that carry no flag are clear.
pub proof fn lemma_interrupt_configuration_round_trip(configuration: InterruptConfiguration)
    ensures
        InterruptConfiguration::spec_from_registers(
            configuration.spec_int_pin_cfg(),
            configuration.spec_int_enable(),
            configuration.interrupt_pin,
        ) == configuration,
        !bit(configuration.spec_int_pin_cfg(), 0),
        configuration.spec_int_enable() & 0xE6 == 0,
{
    let level = flag(configuration.level);
    let open = flag(configuration.open);
    let launch = flag(configuration.launch);
    let clear = flag(configuration.clear);
    let fsync_level = flag(configuration.fsync_level);
    let fsync_interrupt = flag(configuration.fsync_interrupt);
    let bypass = flag(configuration.i2c_bypass);
    let pin = configuration.spec_int_pin_cfg();
    assert(bit(pin, 7) == (level == 1u8) && bit(pin, 6) == (open == 1u8) && bit(pin, 5) == (launch
        == 1u8) && bit(pin, 4) == (clear == 1u8) && bit(pin, 3) == (fsync_level == 1u8) && bit(
        pin,
        2,
    ) == (fsync_interrupt == 1u8) && bit(pin, 1) == (bypass == 1u8) && !bit(pin, 0))
        by (bit_vector)
        requires
            level <= 1u8,
            open <= 1u8,
            launch <= 1u8,
            clear <= 1u8,
            fsync_level <= 1u8,
            fsync_interrupt <= 1u8,
            bypass <= 1u8,
            pin == (128 * level + 64 * open + 32 * launch + 16 * clear + 8 * fsync_level + 4
                * fsync_interrupt + 2 * bypass) as u8,
    ;
    let overflow = flag(configuration.fifo_buffer_overflow);
    let master = flag(configuration.i2c_master_interrupt);
    let ready = flag(configuration.data_ready);
    let enable = configuration.spec_int_enable();
    assert(bit(enable, 4) == (overflow == 1u8) && bit(enable, 3) == (master == 1u8) && bit(
        enable,
        0,
    ) == (ready == 1u8) && enable & 0xE6 == 0) by (bit_vector)
        requires
            overflow <= 1u8,
            master <= 1u8,
            ready <= 1u8,
            enable == (16 * overflow + 8 * master + ready) as u8,
    ;
}

/// Reading the configuration register back gives the settings it was encoded
/// from; its two highest bits are clear.
pub proof fn lemma_configuration_round_trip(configuration: Configuration)
    ensures
        Configuration::spec_from_register(configuration.spec_register_value()) == configuration,
        configuration.spec_register_value() < 64,
{
    let filter = configuration.filter.spec_bits();
    let synchronization = configuration.external_frame_synchronization.spec_bits();
    let value = configuration.spec_register_value();
    assert(value & 7 == filter && (value >> 3) & 7 == synchronization && value < 64u8)
        by (bit_vector)
        requires
            filter <= 7u8,
            synchronization <= 7u8,
            value == (8 * synchronization + filter) as u8,
    ;
}

/// The interrupt status register reports a cause in the bit that enables it:
/// read as a status, the enable register of a configuration names exactly the
/// causes that the configuration enables.
pub proof fn lemma_status_mirrors_enable(configuration: InterruptConfiguration)
    ensures
        InterruptStatus::spec_from_byte(configuration.spec_int_enable()) == (InterruptStatus {
            fifo_buffer_overflow: configuration.fifo_buffer_overflow,
            i2c_master_interrupt: configuration.i2c_master_interrupt,
            data_ready: configuration.data_ready,
        }),
{
    lemma_interrupt_configuration_round_trip(configuration);
}

} // verus!

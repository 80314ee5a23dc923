use vstd::prelude::*;

verus! {

/// A register of the sensor, with the value last written to it.
#[derive(Clone, Copy, Debug, PartialEq, Eq, Structural)]
pub struct Register {
    pub address: u8,
    pub value: u8,
}

impl Register {
    pub fn new(address: u8, value: u8) -> (register: Self)
        ensures
            register == (Register { address, value }),
    {
        Self { address, value }
    }
}

/// The settings registers the driver writes and reads, each with the value it
/// last wrote successfully.
#[derive(Clone, Copy, Debug, PartialEq, Eq, Structural)]
pub struct SettingsRegisters {
    pub pwr_mgmt_1: Register,
    pub pwr_mgmt_2: Register,
    pub int_pin_cfg: Register,
    pub int_enable: Register,
    pub int_status: Register,
    /// Filter and frame synchronisation.
    pub config: Register,
}

impl SettingsRegisters {
    pub fn new(
        pwr_mgmt_1: Register,
        pwr_mgmt_2: Register,
        int_pin_cfg: Register,
        int_enable: Register,
        int_status: Register,
        config: Register,
    ) -> (registers: Self)
        ensures
            registers == (SettingsRegisters {
                pwr_mgmt_1,
                pwr_mgmt_2,
                int_pin_cfg,
                int_enable,
                int_status,
                config,
            }),
    {
        Self { pwr_mgmt_1, pwr_mgmt_2, int_pin_cfg, int_enable, int_status, config }
    }

    /// The registers at the addresses the sensor's register map gives them, all
    /// holding zero.
    pub open spec fn spec_default() -> Self {
        SettingsRegisters {
            pwr_mgmt_1: Register { address: 0x6B, value: 0 },
            pwr_mgmt_2: Register { address: 0x6C, value: 0 },
            int_pin_cfg: Register { address: 0x37, value: 0 },
            int_enable: Register { address: 0x38, value: 0 },
            int_status: Register { address: 0x3A, value: 0 },
            config: Register { address: 0x1A, value: 0 },
        }
    }
}

impl Default for SettingsRegisters {
    fn default() -> (registers: Self)
        ensures
            registers == Self::spec_default(),
    {
        SettingsRegisters::new(
            Register::new(0x6B, 0),
            Register::new(0x6C, 0),
            Register::new(0x37, 0),
            Register::new(0x38, 0),
            Register::new(0x3A, 0),
            Register::new(0x1A, 0),
        )
    }
}

/// A run of bytes from `start` to `end`, both included. It is empty when `end`
/// lies before `start`.
#[derive(Clone, Copy, Debug, PartialEq, Eq, Structural)]
pub struct ByteRange {
    pub start: u8,
    pub end: u8,
}

impl ByteRange {
    pub fn new(start: u8, end: u8) -> (range: Self)
        ensures
            range == (ByteRange { start, end }),
    {
        Self { start, end }
    }

    /// The number of bytes in the range.
    pub open spec fn spec_len(&self) -> nat {
        if self.start <= self.end {
            (self.end - self.start + 1) as nat
        } else {
            0
        }
    }

    pub fn len(&self) -> (n: usize)
        ensures
            n == self.spec_len(),
    {
        if self.start <= self.end {
            (self.end - self.start) as usize + 1
        } else {
            0
        }
    }

    /// The bytes of `bytes` that the range selects.
    pub open spec fn slice(&self, bytes: Seq<u8>) -> Seq<u8> {
        bytes.subrange(self.start as int, self.start + self.spec_len())
    }

    /// The range moved down by `base` bytes.
    pub open spec fn relative_to(&self, base: u8) -> ByteRange {
        ByteRange { start: (self.start - base) as u8, end: (self.end - base) as u8 }
    }
}

/// Why three register ranges do not make a register map.
#[derive(Clone, Copy, Debug, PartialEq, Eq, Structural)]
pub enum RegisterRangeError {
    /// One of the ranges holds no register.
    Empty,
    /// A range does not begin at the register after the one before it.
    Discontinuous,
}

impl RegisterRangeError {
    /// What is wrong, in words.
    pub fn message(&self) -> (text: &'static str)
        ensures
            text@ == match self {
                RegisterRangeError::Empty => "Register range expected to hold a register."@,
                RegisterRangeError::Discontinuous => "Register range expected to be continuous."@,
            },
    {
        match self {
            RegisterRangeError::Empty => "Register range expected to hold a register.",
            RegisterRangeError::Discontinuous => "Register range expected to be continuous.",
        }
    }
}

/// Whether none of the three ranges is empty.
pub open spec fn inhabited(
    accelerometer: ByteRange,
    thermometer: ByteRange,
    gyroscope: ByteRange,
) -> bool {
    &&& accelerometer.start <= accelerometer.end
    &&& thermometer.start <= thermometer.end
    &&& gyroscope.start <= gyroscope.end
}

/// Whether the thermometer's registers follow the accelerometer's, and the
/// gyroscope's the thermometer's, with no register between or shared.
pub open spec fn continuous(
    accelerometer: ByteRange,
    thermometer: ByteRange,
    gyroscope: ByteRange,
) -> bool {
    &&& accelerometer.end + 1 == thermometer.start
    &&& thermometer.end + 1 == gyroscope.start
}

/// Where the measurements lie: the registers read in one burst, and within the
/// bytes of such a burst the places of the three sensors' data.
#[derive(Clone, Copy, Debug)]
pub struct DataRegisters {
    accelerometer: ByteRange,
    thermometer: ByteRange,
    gyroscope: ByteRange,
    data_range: ByteRange,
}

impl DataRegisters {
    /// The accelerometer's bytes, as offsets into a burst.
    pub closed spec fn accelerometer(&self) -> ByteRange {
        self.accelerometer
    }

    /// The thermometer's bytes, as offsets into a burst.
    pub closed spec fn thermometer(&self) -> ByteRange {
        self.thermometer
    }

    /// The gyroscope's bytes, as offsets into a burst.
    pub closed spec fn gyroscope(&self) -> ByteRange {
        self.gyroscope
    }

    /// The addresses of the registers read in one burst.
    pub closed spec fn data_range(&self) -> ByteRange {
        self.data_range
    }

    /// The map that three inhabited, continuous ranges of register addresses
    /// make: a burst over all of them, and each range counted from its start.
    pub closed spec fn spec_new(
        accelerometer: ByteRange,
        thermometer: ByteRange,
        gyroscope: ByteRange,
    ) -> Self {
        DataRegisters {
            accelerometer: accelerometer.relative_to(accelerometer.start),
            thermometer: thermometer.relative_to(accelerometer.start),
            gyroscope: gyroscope.relative_to(accelerometer.start),
            data_range: ByteRange { start: accelerometer.start, end: gyroscope.end },
        }
    }

    /// The three sensors' bytes are inhabited, follow one another from offset
    /// zero, and end where the burst ends.
    #[verifier::type_invariant]
    pub closed spec fn wf(&self) -> bool {
        &&& inhabited(self.accelerometer, self.thermometer, self.gyroscope)
        &&& continuous(self.accelerometer, self.thermometer, self.gyroscope)
        &&& self.accelerometer.start == 0
        &&& self.data_range.start <= self.data_range.end
        &&& self.gyroscope.end == self.data_range.end - self.data_range.start
    }

    /// What well-formedness says of the map's parts.
    pub proof fn lemma_layout(&self)
        requires
            self.wf(),
        ensures
            inhabited(self.accelerometer(), self.thermometer(), self.gyroscope()),
            continuous(self.accelerometer(), self.thermometer(), self.gyroscope()),
            self.accelerometer().start == 0,
            self.gyroscope().end + 1 == self.data_range().spec_len(),
            self.accelerometer().spec_len() + self.thermometer().spec_len()
                + self.gyroscope().spec_len() == self.data_range().spec_len(),
    {
    }

    /// What `spec_new` makes of its arguments.
    pub proof fn lemma_spec_new(
        accelerometer: ByteRange,
        thermometer: ByteRange,
        gyroscope: ByteRange,
    )
        requires
            inhabited(accelerometer, thermometer, gyroscope),
            continuous(accelerometer, thermometer, gyroscope),
        ensures
            ({
                let map = Self::spec_new(accelerometer, thermometer, gyroscope);
                &&& map.wf()
                &&& map.data_range() == (ByteRange {
                    start: accelerometer.start,
                    end: gyroscope.end,
                })
                &&& map.accelerometer() == accelerometer.relative_to(accelerometer.start)
                &&& map.thermometer() == thermometer.relative_to(accelerometer.start)
                &&& map.gyroscope() == gyroscope.relative_to(accelerometer.start)
                &&& map.accelerometer().spec_len() == accelerometer.spec_len()
                &&& map.thermometer().spec_len() == thermometer.spec_len()
                &&& map.gyroscope().spec_len() == gyroscope.spec_len()
            }),
    {
    }

    /// Makes the map of three ranges of register addresses. It exists exactly
    /// when each range holds a register and each begins where the one before
    /// it ends.
    pub fn new(accelerometer: ByteRange, thermometer: ByteRange, gyroscope: ByteRange) -> (map:
        Result<Self, RegisterRangeError>)
        ensures
            map.is_ok() <==> inhabited(accelerometer, thermometer, gyroscope) && continuous(
                accelerometer,
                thermometer,
                gyroscope,
            ),
            map matches Ok(made) ==> {
                &&& made == Self::spec_new(accelerometer, thermometer, gyroscope)
                &&& made.wf()
                &&& made.data_range() == (ByteRange {
                    start: accelerometer.start,
                    end: gyroscope.end,
                })
                &&& made.accelerometer() == accelerometer.relative_to(accelerometer.start)
                &&& made.thermometer() == thermometer.relative_to(accelerometer.start)
                &&& made.gyroscope() == gyroscope.relative_to(accelerometer.start)
            },
            map matches Err(error) ==> error == if inhabited(
                accelerometer,
                thermometer,
                gyroscope,
            ) {
                RegisterRangeError::Discontinuous
            } else {
                RegisterRangeError::Empty
            },
    {
        if accelerometer.start > accelerometer.end || thermometer.start > thermometer.end
            || gyroscope.start > gyroscope.end {
            return Err(RegisterRangeError::Empty);
        }
        if thermometer.start == 0 || gyroscope.start == 0 || accelerometer.end != thermometer.start
            - 1 || thermometer.end != gyroscope.start - 1 {
            return Err(RegisterRangeError::Discontinuous);
        }
        let first: u8 = accelerometer.start;
        let last: u8 = gyroscope.end;
        Ok(
            Self {
                accelerometer: ByteRange::new(accelerometer.start - first, accelerometer.end - first),
                thermometer: ByteRange::new(thermometer.start - first, thermometer.end - first),
                gyroscope: ByteRange::new(gyroscope.start - first, gyroscope.end - first),
                data_range: ByteRange::new(first, last),
            },
        )
    }

    /// The sensor's own map: accelerometer at 0x3B to 0x40, thermometer at 0x41
    /// and 0x42, gyroscope at 0x43 to 0x48.
    pub open spec fn spec_default() -> Self {
        Self::spec_new(
            ByteRange { start: 0x3B, end: 0x40 },
            ByteRange { start: 0x41, end: 0x42 },
            ByteRange { start: 0x43, end: 0x48 },
        )
    }

    /// The address of the first register of a burst.
    pub fn burst_start(&self) -> (address: u8)
        ensures
            address == self.data_range().start,
    {
        self.data_range.start
    }

    /// The number of registers in a burst.
    pub fn burst_len(&self) -> (n: usize)
        ensures
            n == self.data_range().spec_len(),
            n >= 3,
    {
        proof {
            use_type_invariant(self);
        }
        self.data_range.len()
    }

    /// Where the accelerometer's bytes lie in a burst.
    pub fn accelerometer_offsets(&self) -> (range: ByteRange)
        ensures
            range == self.accelerometer(),
            self.wf(),
    {
        proof {
            use_type_invariant(self);
        }
        self.accelerometer
    }

    /// Where the thermometer's bytes lie in a burst.
    pub fn thermometer_offsets(&self) -> (range: ByteRange)
        ensures
            range == self.thermometer(),
            self.wf(),
    {
        proof {
            use_type_invariant(self);
        }
        self.thermometer
    }

    /// Where the gyroscope's bytes lie in a burst.
    pub fn gyroscope_offsets(&self) -> (range: ByteRange)
        ensures
            range == self.gyroscope(),
            self.wf(),
    {
        proof {
            use_type_invariant(self);
        }
        self.gyroscope
    }
}

impl Default for DataRegisters {
    fn default() -> (map: Self)
        ensures
            map == Self::spec_default(),
            map.wf(),
            map.data_range() == (ByteRange { start: 0x3B, end: 0x48 }),
            map.accelerometer() == (ByteRange { start: 0, end: 5 }),
            map.thermometer() == (ByteRange { start: 6, end: 7 }),
            map.gyroscope() == (ByteRange { start: 8, end: 13 }),
    {
        DataRegisters::new(
            ByteRange::new(0x3B, 0x40),
            ByteRange::new(0x41, 0x42),
            ByteRange::new(0x43, 0x48),
        ).expect("Unable to create data registers.")
    }
}

/// The bytes of one burst fall apart into the three sensors' bytes, in register
/// order and with nothing left over.
pub proof fn lemma_burst_is_partitioned(map: DataRegisters, burst: Seq<u8>)
    requires
        map.wf(),
        burst.len() == map.data_range().spec_len(),
    ensures
        map.accelerometer().slice(burst) + map.thermometer().slice(burst) + map.gyroscope().slice(
            burst,
        ) == burst,
{
    assert(map.accelerometer().slice(burst) + map.thermometer().slice(burst)
        + map.gyroscope().slice(burst) =~= burst);
}

/// For every three inhabited, continuous ranges of register addresses, the
/// offsets of the map they make select from a burst exactly the registers of
/// each range.
pub proof fn lemma_offsets_recover_registers(
    accelerometer: ByteRange,
    thermometer: ByteRange,
    gyroscope: ByteRange,
    registers: Seq<u8>,
)
    requires
        inhabited(accelerometer, thermometer, gyroscope),
        continuous(accelerometer, thermometer, gyroscope),
        registers.len() == 256,
    ensures
        ({
            let map = DataRegisters::spec_new(accelerometer, thermometer, gyroscope);
            let burst = map.data_range().slice(registers);
            &&& burst.len() == map.data_range().spec_len()
            &&& map.accelerometer().slice(burst) == accelerometer.slice(registers)
            &&& map.thermometer().slice(burst) == thermometer.slice(registers)
            &&& map.gyroscope().slice(burst) == gyroscope.slice(registers)
        }),
{
    let map = DataRegisters::spec_new(accelerometer, thermometer, gyroscope);
    let burst = map.data_range().slice(registers);
    assert(map.accelerometer().slice(burst) =~= accelerometer.slice(registers));
    assert(map.thermometer().slice(burst) =~= thermometer.slice(registers));
    assert(map.gyroscope().slice(burst) =~= gyroscope.slice(registers));
}

} // verus!

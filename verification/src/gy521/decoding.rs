use crate::gy521::registers::DataRegisters;
use vstd::prelude::*;

verus! {

/// One reading of a three-axis sensor, as the signed register values.
#[derive(Clone, Copy, Debug, PartialEq, Eq, Structural)]
pub struct RawAxes {
    pub x: i16,
    pub y: i16,
    pub z: i16,
}

/// One reading of all sensors, taken from a single burst, as the signed
/// register values.
#[derive(Clone, Copy, Debug, PartialEq, Eq, Structural)]
pub struct RawSample {
    pub acceleration: RawAxes,
    pub temperature: i16,
    pub angular_velocity: RawAxes,
}

/// The 16-bit word with the given low and high bytes.
pub open spec fn spec_concat_bytes(low: u8, high: u8) -> u16 {
    (low + 256 * high) as u16
}

/// The number that a 16-bit word stands for in two's complement: the word
/// itself below 0x8000, the word less 65536 from there on.
pub open spec fn spec_shift_to_signed(value: u16) -> i16 {
    if value >= 0x8000 {
        (value - 0x1_0000) as i16
    } else {
        value as i16
    }
}

#[verifier::when_used_as_spec(spec_concat_bytes)]
pub fn concat_bytes(low: u8, high: u8) -> (word: u16)
    ensures
        word == spec_concat_bytes(low, high),
        word == low + 256 * high,
{
    assert(((low as u16) | ((high as u16) << 8)) == low + 256 * high) by (bit_vector);
    (low as u16) | ((high as u16) << 8)
}

#[verifier::when_used_as_spec(spec_shift_to_signed)]
pub fn shift_to_signed(value: u16) -> (signed: i16)
    ensures
        signed == spec_shift_to_signed(value),
        value < 0x8000 ==> signed == value,
        value >= 0x8000 ==> signed == value - 0x1_0000,
{
    if value >= 0x8000 {
        -((0xFFFF - value) as i16) - 1
    } else {
        value as i16
    }
}

/// The signed value held at `offset` in `bytes`: two bytes, the high one first.
pub open spec fn word_at(bytes: Seq<u8>, offset: int) -> i16 {
    spec_shift_to_signed(spec_concat_bytes(bytes[offset + 1], bytes[offset]))
}

/// The three signed values held from `offset` on in `bytes`, x first, then y,
/// then z.
pub open spec fn axes_at(bytes: Seq<u8>, offset: int) -> RawAxes {
    RawAxes {
        x: word_at(bytes, offset),
        y: word_at(bytes, offset + 2),
        z: word_at(bytes, offset + 4),
    }
}

fn read_word(bytes: &[u8], offset: usize) -> (word: i16)
    requires
        offset + 1 < bytes@.len(),
        offset <= u8::MAX + 4,
    ensures
        word == word_at(bytes@, offset as int),
{
    shift_to_signed(concat_bytes(bytes[offset + 1], bytes[offset]))
}

fn read_axes(bytes: &[u8], offset: usize) -> (axes: RawAxes)
    requires
        offset + 5 < bytes@.len(),
        offset <= u8::MAX,
    ensures
        axes == axes_at(bytes@, offset as int),
{
    RawAxes {
        x: read_word(bytes, offset),
        y: read_word(bytes, offset + 2),
        z: read_word(bytes, offset + 4),
    }
}

impl DataRegisters {
    /// Whether the map gives each sensor the registers of a full reading: six
    /// for the accelerometer, two for the thermometer, six for the gyroscope.
    pub open spec fn spec_holds_sample(&self) -> bool {
        &&& self.accelerometer().spec_len() >= 6
        &&& self.thermometer().spec_len() >= 2
        &&& self.gyroscope().spec_len() >= 6
    }

    #[verifier::when_used_as_spec(spec_holds_sample)]
    pub fn holds_sample(&self) -> (holds: bool)
        ensures
            holds == self.spec_holds_sample(),
    {
        self.accelerometer_offsets().len() >= 6 && self.thermometer_offsets().len() >= 2
            && self.gyroscope_offsets().len() >= 6
    }

    /// The reading that the bytes of a burst hold: each sensor's values taken
    /// from the start of its own bytes.
    pub open spec fn spec_decode(&self, burst: Seq<u8>) -> RawSample {
        RawSample {
            acceleration: axes_at(burst, self.accelerometer().start as int),
            temperature: word_at(burst, self.thermometer().start as int),
            angular_velocity: axes_at(burst, self.gyroscope().start as int),
        }
    }

    /// Decodes the bytes of a burst. There is no reading exactly when the burst
    /// is shorter than the registers of the map.
    pub fn decode(&self, burst: &[u8]) -> (sample: Option<RawSample>)
        requires
            self.spec_holds_sample(),
        ensures
            sample.is_some() <==> burst@.len() >= self.data_range().spec_len(),
            sample matches Some(decoded) ==> decoded == self.spec_decode(burst@),
    {
        if burst.len() < self.burst_len() {
            return None;
        }
        let accelerometer = self.accelerometer_offsets();
        let thermometer = self.thermometer_offsets();
        let gyroscope = self.gyroscope_offsets();
        proof {
            self.lemma_layout();
        }
        Some(
            RawSample {
                acceleration: read_axes(burst, accelerometer.start as usize),
                temperature: read_word(burst, thermometer.start as usize),
                angular_velocity: read_axes(burst, gyroscope.start as usize),
            },
        )
    }
}

/// A word below 0x8000 stands for itself, and a word from 0x8000 on for the
/// negative number 65536 below it: the signed values cover -32768 to 32767, each
/// once.
pub proof fn lemma_shift_to_signed_is_twos_complement(value: u16)
    ensures
        -32768 <= spec_shift_to_signed(value) <= 32767,
        spec_shift_to_signed(value) as u16 == value,
        (spec_shift_to_signed(value) < 0) == (value >= 0x8000),
{
    let signed = spec_shift_to_signed(value);
    assert(signed as u16 == value) by (bit_vector)
        requires
            signed == if value >= 0x8000u16 {
                (value - 0x1_0000) as i16
            } else {
                value as i16
            },
    ;
}

} // verus!

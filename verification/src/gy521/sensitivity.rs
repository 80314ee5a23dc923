use vstd::prelude::*;

verus! {

/// A full-scale range of the accelerometer, with the register counts that one
/// g comes to under it.
#[derive(Clone, Copy, Debug)]
pub struct AccelerometerSensitivity {
    /// Lowest and highest acceleration measured, in g.
    pub range: (isize, isize),
    /// Counts per g.
    pub scale_factor: usize,
}

impl AccelerometerSensitivity {
    /// The setting that measures up to `limit` g with `scale_factor` counts per g.
    pub open spec fn preset(limit: isize, scale_factor: usize) -> Self {
        AccelerometerSensitivity { range: ((-limit) as isize, limit), scale_factor }
    }

    /// Up to 2 g at 16384 counts per g.
    pub fn a() -> (sensitivity: Self)
        ensures
            sensitivity == Self::preset(2, 16_384),
    {
        Self { range: (-2, 2), scale_factor: 16_384 }
    }

    /// Up to 4 g at 8192 counts per g.
    pub fn b() -> (sensitivity: Self)
        ensures
            sensitivity == Self::preset(4, 8_192),
    {
        Self { range: (-4, 4), scale_factor: 8_192 }
    }

    /// Up to 8 g at 4096 counts per g.
    pub fn c() -> (sensitivity: Self)
        ensures
            sensitivity == Self::preset(8, 4_096),
    {
        Self { range: (-8, 8), scale_factor: 4_096 }
    }

    /// Up to 16 g at 2048 counts per g.
    pub fn d() -> (sensitivity: Self)
        ensures
            sensitivity == Self::preset(16, 2_048),
    {
        Self { range: (-16, 16), scale_factor: 2_048 }
    }
}

impl Default for AccelerometerSensitivity {
    fn default() -> (sensitivity: Self)
        ensures
            sensitivity == Self::preset(2, 16_384),
    {
        Self::a()
    }
}

/// A full-scale range of the gyroscope, with the register counts that one
/// degree per second comes to under it.
#[derive(Clone, Copy, Debug)]
pub struct GyroscopeSensitivity {
    /// Lowest and highest angular velocity measured, in degrees per second.
    pub range: (isize, isize),
    /// Counts per degree per second, in tenths of a count.
    pub scale_factor_tenths: usize,
}

impl GyroscopeSensitivity {
    /// The setting that measures up to `limit` degrees per second with
    /// `scale_factor_tenths` tenths of a count per degree per second.
    pub open spec fn preset(limit: isize, scale_factor_tenths: usize) -> Self {
        GyroscopeSensitivity { range: ((-limit) as isize, limit), scale_factor_tenths }
    }

    /// Up to 250 degrees per second at 131.0 counts per degree per second.
    pub fn a() -> (sensitivity: Self)
        ensures
            sensitivity == Self::preset(250, 1310),
    {
        Self { range: (-250, 250), scale_factor_tenths: 1310 }
    }

    /// Up to 500 degrees per second at 65.5 counts per degree per second.
    pub fn b() -> (sensitivity: Self)
        ensures
            sensitivity == Self::preset(500, 655),
    {
        Self { range: (-500, 500), scale_factor_tenths: 655 }
    }

    /// Up to 1000 degrees per second at 32.8 counts per degree per second.
    pub fn c() -> (sensitivity: Self)
        ensures
            sensitivity == Self::preset(1000, 328),
    {
        Self { range: (-1000, 1000), scale_factor_tenths: 328 }
    }

    /// Up to 2000 degrees per second at 16.4 counts per degree per second.
    pub fn d() -> (sensitivity: Self)
        ensures
            sensitivity == Self::preset(2000, 164),
    {
        Self { range: (-2000, 2000), scale_factor_tenths: 164 }
    }
}

impl Default for GyroscopeSensitivity {
    fn default() -> (sensitivity: Self)
        ensures
            sensitivity == Self::preset(250, 1310),
    {
        Self::a()
    }
}

/// The thermometer's range and the constants that turn its register value
/// into a temperature.
#[derive(Clone, Copy, Debug)]
pub struct ThermometerSensitivity {
    /// Lowest and highest temperature measured, in degrees Celsius.
    pub range: (isize, isize),
    /// Counts per degree Celsius.
    pub sensitivity: usize,
    /// The register value at 35 degrees Celsius.
    pub offset: isize,
    /// The temperature at the register value zero, in hundredths of a degree
    /// Celsius.
    pub offset_centicelsius: isize,
}

impl ThermometerSensitivity {
    /// The thermometer as the register map describes it: 340 counts per degree,
    /// and 36.53 degrees Celsius at zero.
    pub open spec fn spec_default() -> Self {
        ThermometerSensitivity {
            range: ((-40) as isize, 85),
            sensitivity: 340,
            offset: (-521) as isize,
            offset_centicelsius: 3653,
        }
    }
}

impl Default for ThermometerSensitivity {
    fn default() -> (sensitivity: Self)
        ensures
            sensitivity == Self::spec_default(),
    {
        Self { range: (-40, 85), sensitivity: 340, offset: -521, offset_centicelsius: 3653 }
    }
}

} // verus!

//! Field encodings of the BMI323 configuration registers, and the small
//! value types that the driver hands back to its callers.
use vstd::prelude::*;

verus! {

/// Output data rate of the accelerometer or the gyroscope (`acc_odr` /
/// `gyr_odr`, bits 0..=3 of `ACC_CONF` / `GYR_CONF`).
#[derive(Debug, Clone, Copy, PartialEq, Eq, Structural)]
pub enum OutputDataRate {
    Odr0_78hz,
    Odr1_56hz,
    Odr3_12hz,
    Odr6_25hz,
    Odr12_5hz,
    Odr25hz,
    Odr50hz,
    Odr100hz,
    Odr200hz,
    Odr400hz,
    Odr800hz,
    Odr1600hz,
    Odr3200hz,
    Odr6400hz,
}

impl OutputDataRate {
    /// The field value of this rate.
    pub open spec fn spec_bits(self) -> u16 {
        match self {
            OutputDataRate::Odr0_78hz => 0x1,
            OutputDataRate::Odr1_56hz => 0x2,
            OutputDataRate::Odr3_12hz => 0x3,
            OutputDataRate::Odr6_25hz => 0x4,
            OutputDataRate::Odr12_5hz => 0x5,
            OutputDataRate::Odr25hz => 0x6,
            OutputDataRate::Odr50hz => 0x7,
            OutputDataRate::Odr100hz => 0x8,
            OutputDataRate::Odr200hz => 0x9,
            OutputDataRate::Odr400hz => 0xA,
            OutputDataRate::Odr800hz => 0xB,
            OutputDataRate::Odr1600hz => 0xC,
            OutputDataRate::Odr3200hz => 0xD,
            OutputDataRate::Odr6400hz => 0xE,
        }
    }

    /// The rate whose field value is `v`, if there is one.
    pub open spec fn spec_from_bits(v: u16) -> Option<Self> {
        if v == 0x1 {
            Some(OutputDataRate::Odr0_78hz)
        } else if v == 0x2 {
            Some(OutputDataRate::Odr1_56hz)
        } else if v == 0x3 {
            Some(OutputDataRate::Odr3_12hz)
        } else if v == 0x4 {
            Some(OutputDataRate::Odr6_25hz)
        } else if v == 0x5 {
            Some(OutputDataRate::Odr12_5hz)
        } else if v == 0x6 {
            Some(OutputDataRate::Odr25hz)
        } else if v == 0x7 {
            Some(OutputDataRate::Odr50hz)
        } else if v == 0x8 {
            Some(OutputDataRate::Odr100hz)
        } else if v == 0x9 {
            Some(OutputDataRate::Odr200hz)
        } else if v == 0xA {
            Some(OutputDataRate::Odr400hz)
        } else if v == 0xB {
            Some(OutputDataRate::Odr800hz)
        } else if v == 0xC {
            Some(OutputDataRate::Odr1600hz)
        } else if v == 0xD {
            Some(OutputDataRate::Odr3200hz)
        } else if v == 0xE {
            Some(OutputDataRate::Odr6400hz)
        } else {
            None
        }
    }

    #[verifier::when_used_as_spec(spec_bits)]
    pub fn bits(self) -> (r: u16)
        ensures
            r == self.spec_bits(),
    {
        match self {
            OutputDataRate::Odr0_78hz => 0x1,
            OutputDataRate::Odr1_56hz => 0x2,
            OutputDataRate::Odr3_12hz => 0x3,
            OutputDataRate::Odr6_25hz => 0x4,
            OutputDataRate::Odr12_5hz => 0x5,
            OutputDataRate::Odr25hz => 0x6,
            OutputDataRate::Odr50hz => 0x7,
            OutputDataRate::Odr100hz => 0x8,
            OutputDataRate::Odr200hz => 0x9,
            OutputDataRate::Odr400hz => 0xA,
            OutputDataRate::Odr800hz => 0xB,
            OutputDataRate::Odr1600hz => 0xC,
            OutputDataRate::Odr3200hz => 0xD,
            OutputDataRate::Odr6400hz => 0xE,
        }
    }

    #[verifier::when_used_as_spec(spec_from_bits)]
    pub fn from_bits(v: u16) -> (r: Option<Self>)
        ensures
            r == Self::spec_from_bits(v),
    {
        if v == 0x1 {
            Some(OutputDataRate::Odr0_78hz)
        } else if v == 0x2 {
            Some(OutputDataRate::Odr1_56hz)
        } else if v == 0x3 {
            Some(OutputDataRate::Odr3_12hz)
        } else if v == 0x4 {
            Some(OutputDataRate::Odr6_25hz)
        } else if v == 0x5 {
            Some(OutputDataRate::Odr12_5hz)
        } else if v == 0x6 {
            Some(OutputDataRate::Odr25hz)
        } else if v == 0x7 {
            Some(OutputDataRate::Odr50hz)
        } else if v == 0x8 {
            Some(OutputDataRate::Odr100hz)
        } else if v == 0x9 {
            Some(OutputDataRate::Odr200hz)
        } else if v == 0xA {
            Some(OutputDataRate::Odr400hz)
        } else if v == 0xB {
            Some(OutputDataRate::Odr800hz)
        } else if v == 0xC {
            Some(OutputDataRate::Odr1600hz)
        } else if v == 0xD {
            Some(OutputDataRate::Odr3200hz)
        } else if v == 0xE {
            Some(OutputDataRate::Odr6400hz)
        } else {
            None
        }
    }
}

impl Default for OutputDataRate {
    fn default() -> (r: Self)
        ensures
            r == OutputDataRate::Odr100hz,
    {
        OutputDataRate::Odr100hz
    }
}

/// Measurement range of the accelerometer (`acc_range`, bits 4..=6 of `ACC_CONF`).
#[derive(Debug, Clone, Copy, PartialEq, Eq, Structural)]
pub enum AccelerometerRange {
    G2,
    G4,
    G8,
    G16,
}

impl AccelerometerRange {
    pub open spec fn spec_bits(self) -> u16 {
        match self {
            AccelerometerRange::G2 => 0,
            AccelerometerRange::G4 => 1,
            AccelerometerRange::G8 => 2,
            AccelerometerRange::G16 => 3,
        }
    }

    pub open spec fn spec_from_bits(v: u16) -> Option<Self> {
        if v == 0 {
            Some(AccelerometerRange::G2)
        } else if v == 1 {
            Some(AccelerometerRange::G4)
        } else if v == 2 {
            Some(AccelerometerRange::G8)
        } else if v == 3 {
            Some(AccelerometerRange::G16)
        } else {
            None
        }
    }

    #[verifier::when_used_as_spec(spec_bits)]
    pub fn bits(self) -> (r: u16)
        ensures
            r == self.spec_bits(),
    {
        match self {
            AccelerometerRange::G2 => 0,
            AccelerometerRange::G4 => 1,
            AccelerometerRange::G8 => 2,
            AccelerometerRange::G16 => 3,
        }
    }

    #[verifier::when_used_as_spec(spec_from_bits)]
    pub fn from_bits(v: u16) -> (r: Option<Self>)
        ensures
            r == Self::spec_from_bits(v),
    {
        if v == 0 {
            Some(AccelerometerRange::G2)
        } else if v == 1 {
            Some(AccelerometerRange::G4)
        } else if v == 2 {
            Some(AccelerometerRange::G8)
        } else if v == 3 {
            Some(AccelerometerRange::G16)
        } else {
            None
        }
    }
}

impl Default for AccelerometerRange {
    fn default() -> (r: Self)
        ensures
            r == AccelerometerRange::G8,
    {
        AccelerometerRange::G8
    }
}

/// Measurement range of the gyroscope (`gyr_range`, bits 4..=6 of `GYR_CONF`).
#[derive(Debug, Clone, Copy, PartialEq, Eq, Structural)]
pub enum GyroscopeRange {
    DPS125,
    DPS250,
    DPS500,
    DPS1000,
    DPS2000,
}

impl GyroscopeRange {
    pub open spec fn spec_bits(self) -> u16 {
        match self {
            GyroscopeRange::DPS125 => 0,
            GyroscopeRange::DPS250 => 1,
            GyroscopeRange::DPS500 => 2,
            GyroscopeRange::DPS1000 => 3,
            GyroscopeRange::DPS2000 => 4,
        }
    }

    pub open spec fn spec_from_bits(v: u16) -> Option<Self> {
        if v == 0 {
            Some(GyroscopeRange::DPS125)
        } else if v == 1 {
            Some(GyroscopeRange::DPS250)
        } else if v == 2 {
            Some(GyroscopeRange::DPS500)
        } else if v == 3 {
            Some(GyroscopeRange::DPS1000)
        } else if v == 4 {
            Some(GyroscopeRange::DPS2000)
        } else {
            None
        }
    }

    #[verifier::when_used_as_spec(spec_bits)]
    pub fn bits(self) -> (r: u16)
        ensures
            r == self.spec_bits(),
    {
        match self {
            GyroscopeRange::DPS125 => 0,
            GyroscopeRange::DPS250 => 1,
            GyroscopeRange::DPS500 => 2,
            GyroscopeRange::DPS1000 => 3,
            GyroscopeRange::DPS2000 => 4,
        }
    }

    #[verifier::when_used_as_spec(spec_from_bits)]
    pub fn from_bits(v: u16) -> (r: Option<Self>)
        ensures
            r == Self::spec_from_bits(v),
    {
        if v == 0 {
            Some(GyroscopeRange::DPS125)
        } else if v == 1 {
            Some(GyroscopeRange::DPS250)
        } else if v == 2 {
            Some(GyroscopeRange::DPS500)
        } else if v == 3 {
            Some(GyroscopeRange::DPS1000)
        } else if v == 4 {
            Some(GyroscopeRange::DPS2000)
        } else {
            None
        }
    }
}

impl Default for GyroscopeRange {
    fn default() -> (r: Self)
        ensures
            r == GyroscopeRange::DPS2000,
    {
        GyroscopeRange::DPS2000
    }
}

/// Filter bandwidth (`acc_bw` / `gyr_bw`, bit 7 of `ACC_CONF` / `GYR_CONF`).
#[derive(Debug, Clone, Copy, PartialEq, Eq, Structural)]
pub enum Bandwidth {
    /// -3 dB cut-off at ODR/2
    OdrHalf,
    /// -3 dB cut-off at ODR/4
    OdrQuarter,
}

impl Bandwidth {
    pub open spec fn spec_bits(self) -> u16 {
        match self {
            Bandwidth::OdrHalf => 0,
            Bandwidth::OdrQuarter => 1,
        }
    }

    pub open spec fn spec_from_bits(v: u16) -> Option<Self> {
        if v == 0 {
            Some(Bandwidth::OdrHalf)
        } else if v == 1 {
            Some(Bandwidth::OdrQuarter)
        } else {
            None
        }
    }

    #[verifier::when_used_as_spec(spec_bits)]
    pub fn bits(self) -> (r: u16)
        ensures
            r == self.spec_bits(),
    {
        match self {
            Bandwidth::OdrHalf => 0,
            Bandwidth::OdrQuarter => 1,
        }
    }

    #[verifier::when_used_as_spec(spec_from_bits)]
    pub fn from_bits(v: u16) -> (r: Option<Self>)
        ensures
            r == Self::spec_from_bits(v),
    {
        if v == 0 {
            Some(Bandwidth::OdrHalf)
        } else if v == 1 {
            Some(Bandwidth::OdrQuarter)
        } else {
            None
        }
    }
}

impl Default for Bandwidth {
    fn default() -> (r: Self)
        ensures
            r == Bandwidth::OdrHalf,
    {
        Bandwidth::OdrHalf
    }
}

/// Number of samples averaged (`acc_avg_num` / `gyr_avg_num`, bits 8..=10).
#[derive(Debug, Clone, Copy, PartialEq, Eq, Structural)]
pub enum AverageNum {
    Avg1,
    Avg2,
    Avg4,
    Avg8,
    Avg16,
    Avg32,
    Avg64,
}

impl AverageNum {
    pub open spec fn spec_bits(self) -> u16 {
        match self {
            AverageNum::Avg1 => 0,
            AverageNum::Avg2 => 1,
            AverageNum::Avg4 => 2,
            AverageNum::Avg8 => 3,
            AverageNum::Avg16 => 4,
            AverageNum::Avg32 => 5,
            AverageNum::Avg64 => 6,
        }
    }

    pub open spec fn spec_from_bits(v: u16) -> Option<Self> {
        if v == 0 {
            Some(AverageNum::Avg1)
        } else if v == 1 {
            Some(AverageNum::Avg2)
        } else if v == 2 {
            Some(AverageNum::Avg4)
        } else if v == 3 {
            Some(AverageNum::Avg8)
        } else if v == 4 {
            Some(AverageNum::Avg16)
        } else if v == 5 {
            Some(AverageNum::Avg32)
        } else if v == 6 {
            Some(AverageNum::Avg64)
        } else {
            None
        }
    }

    #[verifier::when_used_as_spec(spec_bits)]
    pub fn bits(self) -> (r: u16)
        ensures
            r == self.spec_bits(),
    {
        match self {
            AverageNum::Avg1 => 0,
            AverageNum::Avg2 => 1,
            AverageNum::Avg4 => 2,
            AverageNum::Avg8 => 3,
            AverageNum::Avg16 => 4,
            AverageNum::Avg32 => 5,
            AverageNum::Avg64 => 6,
        }
    }

    #[verifier::when_used_as_spec(spec_from_bits)]
    pub fn from_bits(v: u16) -> (r: Option<Self>)
        ensures
            r == Self::spec_from_bits(v),
    {
        if v == 0 {
            Some(AverageNum::Avg1)
        } else if v == 1 {
            Some(AverageNum::Avg2)
        } else if v == 2 {
            Some(AverageNum::Avg4)
        } else if v == 3 {
            Some(AverageNum::Avg8)
        } else if v == 4 {
            Some(AverageNum::Avg16)
        } else if v == 5 {
            Some(AverageNum::Avg32)
        } else if v == 6 {
            Some(AverageNum::Avg64)
        } else {
            None
        }
    }
}

impl Default for AverageNum {
    fn default() -> (r: Self)
        ensures
            r == AverageNum::Avg1,
    {
        AverageNum::Avg1
    }
}

/// Power mode of the accelerometer (`acc_mode`, bits 12..=14 of `ACC_CONF`).
#[derive(Debug, Clone, Copy, PartialEq, Eq, Structural)]
pub enum AccelerometerPowerMode {
    Disable,
    LowPower,
    Normal,
    HighPerf,
}

impl AccelerometerPowerMode {
    pub open spec fn spec_bits(self) -> u16 {
        match self {
            AccelerometerPowerMode::Disable => 0,
            AccelerometerPowerMode::LowPower => 3,
            AccelerometerPowerMode::Normal => 4,
            AccelerometerPowerMode::HighPerf => 7,
        }
    }

    pub open spec fn spec_from_bits(v: u16) -> Option<Self> {
        if v == 0 {
            Some(AccelerometerPowerMode::Disable)
        } else if v == 3 {
            Some(AccelerometerPowerMode::LowPower)
        } else if v == 4 {
            Some(AccelerometerPowerMode::Normal)
        } else if v == 7 {
            Some(AccelerometerPowerMode::HighPerf)
        } else {
            None
        }
    }

    #[verifier::when_used_as_spec(spec_bits)]
    pub fn bits(self) -> (r: u16)
        ensures
            r == self.spec_bits(),
    {
        match self {
            AccelerometerPowerMode::Disable => 0,
            AccelerometerPowerMode::LowPower => 3,
            AccelerometerPowerMode::Normal => 4,
            AccelerometerPowerMode::HighPerf => 7,
        }
    }

    #[verifier::when_used_as_spec(spec_from_bits)]
    pub fn from_bits(v: u16) -> (r: Option<Self>)
        ensures
            r == Self::spec_from_bits(v),
    {
        if v == 0 {
            Some(AccelerometerPowerMode::Disable)
        } else if v == 3 {
            Some(AccelerometerPowerMode::LowPower)
        } else if v == 4 {
            Some(AccelerometerPowerMode::Normal)
        } else if v == 7 {
            Some(AccelerometerPowerMode::HighPerf)
        } else {
            None
        }
    }

    /// Whether this mode switches the accelerometer off.
    pub fn is_disabled(self) -> (r: bool)
        ensures
            r == (self == AccelerometerPowerMode::Disable),
    {
        match self {
            AccelerometerPowerMode::Disable => true,
            _ => false,
        }
    }
}

impl Default for AccelerometerPowerMode {
    fn default() -> (r: Self)
        ensures
            r == AccelerometerPowerMode::Normal,
    {
        AccelerometerPowerMode::Normal
    }
}

/// Power mode of the gyroscope (`gyr_mode`, bits 12..=14 of `GYR_CONF`).
#[derive(Debug, Clone, Copy, PartialEq, Eq, Structural)]
pub enum GyroscopePowerMode {
    Disable,
    /// Gyroscope off, but its drive kept running
    DriveEnabledOnly,
    LowPower,
    Normal,
    HighPerf,
}

impl GyroscopePowerMode {
    pub open spec fn spec_bits(self) -> u16 {
        match self {
            GyroscopePowerMode::Disable => 0,
            GyroscopePowerMode::DriveEnabledOnly => 1,
            GyroscopePowerMode::LowPower => 3,
            GyroscopePowerMode::Normal => 4,
            GyroscopePowerMode::HighPerf => 7,
        }
    }

    pub open spec fn spec_from_bits(v: u16) -> Option<Self> {
        if v == 0 {
            Some(GyroscopePowerMode::Disable)
        } else if v == 1 {
            Some(GyroscopePowerMode::DriveEnabledOnly)
        } else if v == 3 {
            Some(GyroscopePowerMode::LowPower)
        } else if v == 4 {
            Some(GyroscopePowerMode::Normal)
        } else if v == 7 {
            Some(GyroscopePowerMode::HighPerf)
        } else {
            None
        }
    }

    #[verifier::when_used_as_spec(spec_bits)]
    pub fn bits(self) -> (r: u16)
        ensures
            r == self.spec_bits(),
    {
        match self {
            GyroscopePowerMode::Disable => 0,
            GyroscopePowerMode::DriveEnabledOnly => 1,
            GyroscopePowerMode::LowPower => 3,
            GyroscopePowerMode::Normal => 4,
            GyroscopePowerMode::HighPerf => 7,
        }
    }

    #[verifier::when_used_as_spec(spec_from_bits)]
    pub fn from_bits(v: u16) -> (r: Option<Self>)
        ensures
            r == Self::spec_from_bits(v),
    {
        if v == 0 {
            Some(GyroscopePowerMode::Disable)
        } else if v == 1 {
            Some(GyroscopePowerMode::DriveEnabledOnly)
        } else if v == 3 {
            Some(GyroscopePowerMode::LowPower)
        } else if v == 4 {
            Some(GyroscopePowerMode::Normal)
        } else if v == 7 {
            Some(GyroscopePowerMode::HighPerf)
        } else {
            None
        }
    }

    /// Whether this mode is the one that switches the gyroscope off.
    pub fn is_disabled(self) -> (r: bool)
        ensures
            r == (self == GyroscopePowerMode::Disable),
    {
        match self {
            GyroscopePowerMode::Disable => true,
            _ => false,
        }
    }
}

impl Default for GyroscopePowerMode {
    fn default() -> (r: Self)
        ensures
            r == GyroscopePowerMode::Normal,
    {
        GyroscopePowerMode::Normal
    }
}

} // verus!

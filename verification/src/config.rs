//! Sensor configuration words (`ACC_CONF`, `GYR_CONF`) and their builders.
use crate::types::{
    AccelerometerPowerMode, AccelerometerRange, AverageNum, Bandwidth, GyroscopePowerMode,
    GyroscopeRange, OutputDataRate,
};
use vstd::prelude::*;

verus! {

/// The value of a sensor configuration register: output data rate in bits
/// 0..=3, range in bits 4..=6, bandwidth in bit 7, averaging in bits 8..=10
/// and power mode in bits 12..=14.
#[verifier::opaque]
pub open spec fn pack_sensor_conf(odr: u16, range: u16, bw: u16, avg: u16, mode: u16) -> u16 {
    (odr & 0x0F) | ((range & 0x07) << 4) | ((bw & 0x01) << 7) | ((avg & 0x07) << 8) | ((mode
        & 0x07) << 12)
}

/// Each field of `pack_sensor_conf` is read back unchanged where it fits its bits.
pub proof fn lemma_sensor_conf_fields(odr: u16, range: u16, bw: u16, avg: u16, mode: u16)
    requires
        odr < 16,
        range < 8,
        bw < 2,
        avg < 8,
        mode < 8,
    ensures
        pack_sensor_conf(odr, range, bw, avg, mode) & 0xF == odr,
        (pack_sensor_conf(odr, range, bw, avg, mode) >> 4) & 0x7 == range,
        (pack_sensor_conf(odr, range, bw, avg, mode) >> 7) & 0x1 == bw,
        (pack_sensor_conf(odr, range, bw, avg, mode) >> 8) & 0x7 == avg,
        (pack_sensor_conf(odr, range, bw, avg, mode) >> 12) & 0x7 == mode,
{
    reveal(pack_sensor_conf);
    assert(odr < 16 && range < 8 && bw < 2 && avg < 8 && mode < 8 ==> {
        let x = (odr & 0x0F) | ((range & 0x07) << 4) | ((bw & 0x01) << 7) | ((avg & 0x07) << 8)
            | ((mode & 0x07) << 12);
        &&& x & 0xF == odr
        &&& (x >> 4) & 0x7 == range
        &&& (x >> 7) & 0x1 == bw
        &&& (x >> 8) & 0x7 == avg
        &&& (x >> 12) & 0x7 == mode
    }) by (bit_vector);
}

/// Packing the fields read from a register gives back the register with its
/// unused bits (11 and 15) cleared.
pub proof fn lemma_sensor_conf_repack(v: u16)
    ensures
        pack_sensor_conf(v & 0xF, (v >> 4) & 0x7, (v >> 7) & 0x1, (v >> 8) & 0x7, (v >> 12) & 0x7)
            == v & 0x77FF,
{
    reveal(pack_sensor_conf);
    assert(((v & 0xF) & 0x0F) | ((((v >> 4) & 0x7) & 0x07) << 4) | ((((v >> 7) & 0x1) & 0x01)
        << 7) | ((((v >> 8) & 0x7) & 0x07) << 8) | ((((v >> 12) & 0x7) & 0x07) << 12) == v
        & 0x77FF) by (bit_vector);
}

/// Configuration of the accelerometer.
#[derive(Debug, Clone, Copy, PartialEq, Eq, Structural)]
pub struct AccelConfig {
    /// Output data rate
    pub odr: OutputDataRate,
    /// Measurement range
    pub range: AccelerometerRange,
    /// Bandwidth
    pub bw: Bandwidth,
    /// Number of samples to average
    pub avg_num: AverageNum,
    /// Power mode
    pub mode: AccelerometerPowerMode,
}

impl Default for AccelConfig {
    fn default() -> (r: Self)
        ensures
            r == (AccelConfig {
                odr: OutputDataRate::Odr100hz,
                range: AccelerometerRange::G8,
                bw: Bandwidth::OdrHalf,
                avg_num: AverageNum::Avg1,
                mode: AccelerometerPowerMode::Normal,
            }),
    {
        AccelConfig {
            odr: OutputDataRate::default(),
            range: AccelerometerRange::default(),
            bw: Bandwidth::default(),
            avg_num: AverageNum::default(),
            mode: AccelerometerPowerMode::default(),
        }
    }
}

impl AccelConfig {
    /// A builder whose every setting is still unset.
    pub fn builder() -> (r: AccelConfigBuilder)
        ensures
            r.spec_build() == AccelConfigBuilder::spec_defaults(),
    {
        AccelConfigBuilder::default()
    }

    /// The value of `ACC_CONF` for this configuration.
    pub open spec fn spec_register_value(self) -> u16 {
        pack_sensor_conf(
            self.odr.spec_bits(),
            self.range.spec_bits(),
            self.bw.spec_bits(),
            self.avg_num.spec_bits(),
            self.mode.spec_bits(),
        )
    }

    /// The configuration that register value `v` holds; a field whose bits
    /// name no setting reads as 100 Hz, ±2 g, ODR/2, no averaging, normal mode.
    pub open spec fn spec_from_register(v: u16) -> AccelConfig {
        AccelConfig {
            odr: match OutputDataRate::spec_from_bits(v & 0xF) {
                Some(x) => x,
                None => OutputDataRate::Odr100hz,
            },
            range: match AccelerometerRange::spec_from_bits((v >> 4) & 0x7) {
                Some(x) => x,
                None => AccelerometerRange::G2,
            },
            bw: match Bandwidth::spec_from_bits((v >> 7) & 0x1) {
                Some(x) => x,
                None => Bandwidth::OdrHalf,
            },
            avg_num: match AverageNum::spec_from_bits((v >> 8) & 0x7) {
                Some(x) => x,
                None => AverageNum::Avg1,
            },
            mode: match AccelerometerPowerMode::spec_from_bits((v >> 12) & 0x7) {
                Some(x) => x,
                None => AccelerometerPowerMode::Normal,
            },
        }
    }

    /// Whether every field of register value `v` names a setting.
    pub open spec fn spec_is_valid_register(v: u16) -> bool {
        &&& OutputDataRate::spec_from_bits(v & 0xF) is Some
        &&& AccelerometerRange::spec_from_bits((v >> 4) & 0x7) is Some
        &&& Bandwidth::spec_from_bits((v >> 7) & 0x1) is Some
        &&& AverageNum::spec_from_bits((v >> 8) & 0x7) is Some
        &&& AccelerometerPowerMode::spec_from_bits((v >> 12) & 0x7) is Some
    }

    #[verifier::when_used_as_spec(spec_register_value)]
    pub fn register_value(self) -> (r: u16)
        ensures
            r == self.spec_register_value(),
    {
        reveal(pack_sensor_conf);
        (self.odr.bits() & 0x0F) | ((self.range.bits() & 0x07) << 4) | ((self.bw.bits() & 0x01)
            << 7) | ((self.avg_num.bits() & 0x07) << 8) | ((self.mode.bits() & 0x07) << 12)
    }

    #[verifier::when_used_as_spec(spec_from_register)]
    pub fn from_register(v: u16) -> (r: AccelConfig)
        ensures
            r == Self::spec_from_register(v),
    {
        AccelConfig {
            odr: match OutputDataRate::from_bits(v & 0xF) {
                Some(x) => x,
                None => OutputDataRate::Odr100hz,
            },
            range: match AccelerometerRange::from_bits((v >> 4) & 0x7) {
                Some(x) => x,
                None => AccelerometerRange::G2,
            },
            bw: match Bandwidth::from_bits((v >> 7) & 0x1) {
                Some(x) => x,
                None => Bandwidth::OdrHalf,
            },
            avg_num: match AverageNum::from_bits((v >> 8) & 0x7) {
                Some(x) => x,
                None => AverageNum::Avg1,
            },
            mode: match AccelerometerPowerMode::from_bits((v >> 12) & 0x7) {
                Some(x) => x,
                None => AccelerometerPowerMode::Normal,
            },
        }
    }
}

/// Reading back the register value of an accelerometer configuration gives
/// the configuration itself.
pub proof fn lemma_accel_config_roundtrip(c: AccelConfig)
    ensures
        AccelConfig::spec_is_valid_register(c.spec_register_value()),
        AccelConfig::spec_from_register(c.spec_register_value()) == c,
{
    lemma_sensor_conf_fields(
        c.odr.spec_bits(),
        c.range.spec_bits(),
        c.bw.spec_bits(),
        c.avg_num.spec_bits(),
        c.mode.spec_bits(),
    );
}

/// A register value whose every field names a setting is written back as
/// itself, but for the unused bits 11 and 15, which are cleared.
pub proof fn lemma_accel_register_roundtrip(v: u16)
    requires
        AccelConfig::spec_is_valid_register(v),
    ensures
        AccelConfig::spec_from_register(v).spec_register_value() == v & 0x77FF,
{
    lemma_sensor_conf_repack(v);
}

impl From<AccelConfig> for u16 {
    /// The `ACC_CONF` register value of the configuration.
    fn from(config: AccelConfig) -> (r: u16) {
        config.register_value()
    }
}

impl vstd::std_specs::convert::FromSpecImpl<AccelConfig> for u16 {
    open spec fn obeys_from_spec() -> bool {
        true
    }

    open spec fn from_spec(config: AccelConfig) -> u16 {
        config.spec_register_value()
    }
}

impl From<u16> for AccelConfig {
    /// The configuration that an `ACC_CONF` register value holds.
    fn from(value: u16) -> (r: AccelConfig) {
        AccelConfig::from_register(value)
    }
}

impl vstd::std_specs::convert::FromSpecImpl<u16> for AccelConfig {
    open spec fn obeys_from_spec() -> bool {
        true
    }

    open spec fn from_spec(value: u16) -> AccelConfig {
        AccelConfig::spec_from_register(value)
    }
}

/// Builder for `AccelConfig`. Settings never set are 100 Hz, ±8 g, ODR/4,
/// no averaging and normal mode.
#[derive(Debug, Clone, Copy)]
pub struct AccelConfigBuilder {
    odr: Option<OutputDataRate>,
    range: Option<AccelerometerRange>,
    bw: Option<Bandwidth>,
    avg_num: Option<AverageNum>,
    mode: Option<AccelerometerPowerMode>,
}

impl Default for AccelConfigBuilder {
    fn default() -> (r: Self)
        ensures
            r.spec_build() == Self::spec_defaults(),
    {
        AccelConfigBuilder { odr: None, range: None, bw: None, avg_num: None, mode: None }
    }
}

impl AccelConfigBuilder {
    /// What a builder with nothing set builds.
    pub open spec fn spec_defaults() -> AccelConfig {
        AccelConfig {
            odr: OutputDataRate::Odr100hz,
            range: AccelerometerRange::G8,
            bw: Bandwidth::OdrQuarter,
            avg_num: AverageNum::Avg1,
            mode: AccelerometerPowerMode::Normal,
        }
    }

    /// The configuration that `build` makes of this builder.
    pub closed spec fn spec_build(self) -> AccelConfig {
        AccelConfig {
            odr: match self.odr {
                Some(x) => x,
                None => OutputDataRate::Odr100hz,
            },
            range: match self.range {
                Some(x) => x,
                None => AccelerometerRange::G8,
            },
            bw: match self.bw {
                Some(x) => x,
                None => Bandwidth::OdrQuarter,
            },
            avg_num: match self.avg_num {
                Some(x) => x,
                None => AverageNum::Avg1,
            },
            mode: match self.mode {
                Some(x) => x,
                None => AccelerometerPowerMode::Normal,
            },
        }
    }

    /// Set the output data rate
    pub fn odr(self, odr: OutputDataRate) -> (r: Self)
        ensures
            r.spec_build() == (AccelConfig { odr, ..self.spec_build() }),
    {
        AccelConfigBuilder { odr: Some(odr), ..self }
    }

    /// Set the measurement range
    pub fn range(self, range: AccelerometerRange) -> (r: Self)
        ensures
            r.spec_build() == (AccelConfig { range, ..self.spec_build() }),
    {
        AccelConfigBuilder { range: Some(range), ..self }
    }

    /// Set the bandwidth
    pub fn bw(self, bw: Bandwidth) -> (r: Self)
        ensures
            r.spec_build() == (AccelConfig { bw, ..self.spec_build() }),
    {
        AccelConfigBuilder { bw: Some(bw), ..self }
    }

    /// Set the number of samples to average
    pub fn avg_num(self, avg_num: AverageNum) -> (r: Self)
        ensures
            r.spec_build() == (AccelConfig { avg_num, ..self.spec_build() }),
    {
        AccelConfigBuilder { avg_num: Some(avg_num), ..self }
    }

    /// Set the power mode
    pub fn mode(self, mode: AccelerometerPowerMode) -> (r: Self)
        ensures
            r.spec_build() == (AccelConfig { mode, ..self.spec_build() }),
    {
        AccelConfigBuilder { mode: Some(mode), ..self }
    }

    /// Build the AccelConfig
    pub fn build(self) -> (r: AccelConfig)
        ensures
            r == self.spec_build(),
    {
        AccelConfig {
            odr: match self.odr {
                Some(x) => x,
                None => OutputDataRate::Odr100hz,
            },
            range: match self.range {
                Some(x) => x,
                None => AccelerometerRange::G8,
            },
            bw: match self.bw {
                Some(x) => x,
                None => Bandwidth::OdrQuarter,
            },
            avg_num: match self.avg_num {
                Some(x) => x,
                None => AverageNum::Avg1,
            },
            mode: match self.mode {
                Some(x) => x,
                None => AccelerometerPowerMode::Normal,
            },
        }
    }
}

/// Configuration of the gyroscope.
#[derive(Debug, Clone, Copy, PartialEq, Eq, Structural)]
pub struct GyroConfig {
    /// Output data rate
    pub odr: OutputDataRate,
    /// Measurement range
    pub range: GyroscopeRange,
    /// Bandwidth
    pub bw: Bandwidth,
    /// Number of samples to average
    pub avg_num: AverageNum,
    /// Power mode
    pub mode: GyroscopePowerMode,
}

impl Default for GyroConfig {
    fn default() -> (r: Self)
        ensures
            r == (GyroConfig {
                odr: OutputDataRate::Odr100hz,
                range: GyroscopeRange::DPS2000,
                bw: Bandwidth::OdrHalf,
                avg_num: AverageNum::Avg1,
                mode: GyroscopePowerMode::Normal,
            }),
    {
        GyroConfig {
            odr: OutputDataRate::default(),
            range: GyroscopeRange::default(),
            bw: Bandwidth::default(),
            avg_num: AverageNum::default(),
            mode: GyroscopePowerMode::default(),
        }
    }
}

impl GyroConfig {
    /// A builder whose every setting is still unset.
    pub fn builder() -> (r: GyroConfigBuilder)
        ensures
            r.spec_build() == GyroConfigBuilder::spec_defaults(),
    {
        GyroConfigBuilder::default()
    }

    /// The value of `GYR_CONF` for this configuration.
    pub open spec fn spec_register_value(self) -> u16 {
        pack_sensor_conf(
            self.odr.spec_bits(),
            self.range.spec_bits(),
            self.bw.spec_bits(),
            self.avg_num.spec_bits(),
            self.mode.spec_bits(),
        )
    }

    /// The configuration that register value `v` holds; a field whose bits
    /// name no setting reads as 100 Hz, ±2000 dps, ODR/2, no averaging,
    /// normal mode.
    pub open spec fn spec_from_register(v: u16) -> GyroConfig {
        GyroConfig {
            odr: match OutputDataRate::spec_from_bits(v & 0xF) {
                Some(x) => x,
                None => OutputDataRate::Odr100hz,
            },
            range: match GyroscopeRange::spec_from_bits((v >> 4) & 0x7) {
                Some(x) => x,
                None => GyroscopeRange::DPS2000,
            },
            bw: match Bandwidth::spec_from_bits((v >> 7) & 0x1) {
                Some(x) => x,
                None => Bandwidth::OdrHalf,
            },
            avg_num: match AverageNum::spec_from_bits((v >> 8) & 0x7) {
                Some(x) => x,
                None => AverageNum::Avg1,
            },
            mode: match GyroscopePowerMode::spec_from_bits((v >> 12) & 0x7) {
                Some(x) => x,
                None => GyroscopePowerMode::Normal,
            },
        }
    }

    /// Whether every field of register value `v` names a setting.
    pub open spec fn spec_is_valid_register(v: u16) -> bool {
        &&& OutputDataRate::spec_from_bits(v & 0xF) is Some
        &&& GyroscopeRange::spec_from_bits((v >> 4) & 0x7) is Some
        &&& Bandwidth::spec_from_bits((v >> 7) & 0x1) is Some
        &&& AverageNum::spec_from_bits((v >> 8) & 0x7) is Some
        &&& GyroscopePowerMode::spec_from_bits((v >> 12) & 0x7) is Some
    }

    #[verifier::when_used_as_spec(spec_register_value)]
    pub fn register_value(self) -> (r: u16)
        ensures
            r == self.spec_register_value(),
    {
        reveal(pack_sensor_conf);
        (self.odr.bits() & 0x0F) | ((self.range.bits() & 0x07) << 4) | ((self.bw.bits() & 0x01)
            << 7) | ((self.avg_num.bits() & 0x07) << 8) | ((self.mode.bits() & 0x07) << 12)
    }

    #[verifier::when_used_as_spec(spec_from_register)]
    pub fn from_register(v: u16) -> (r: GyroConfig)
        ensures
            r == Self::spec_from_register(v),
    {
        GyroConfig {
            odr: match OutputDataRate::from_bits(v & 0xF) {
                Some(x) => x,
                None => OutputDataRate::Odr100hz,
            },
            range: match GyroscopeRange::from_bits((v >> 4) & 0x7) {
                Some(x) => x,
                None => GyroscopeRange::DPS2000,
            },
            bw: match Bandwidth::from_bits((v >> 7) & 0x1) {
                Some(x) => x,
                None => Bandwidth::OdrHalf,
            },
            avg_num: match AverageNum::from_bits((v >> 8) & 0x7) {
                Some(x) => x,
                None => AverageNum::Avg1,
            },
            mode: match GyroscopePowerMode::from_bits((v >> 12) & 0x7) {
                Some(x) => x,
                None => GyroscopePowerMode::Normal,
            },
        }
    }
}

/// Reading back the register value of a gyroscope configuration gives the
/// configuration itself.
pub proof fn lemma_gyro_config_roundtrip(c: GyroConfig)
    ensures
        GyroConfig::spec_is_valid_register(c.spec_register_value()),
        GyroConfig::spec_from_register(c.spec_register_value()) == c,
{
    lemma_sensor_conf_fields(
        c.odr.spec_bits(),
        c.range.spec_bits(),
        c.bw.spec_bits(),
        c.avg_num.spec_bits(),
        c.mode.spec_bits(),
    );
}

/// A register value whose every field names a setting is written back as
/// itself, but for the unused bits 11 and 15, which are cleared.
pub proof fn lemma_gyro_register_roundtrip(v: u16)
    requires
        GyroConfig::spec_is_valid_register(v),
    ensures
        GyroConfig::spec_from_register(v).spec_register_value() == v & 0x77FF,
{
    lemma_sensor_conf_repack(v);
}

impl From<GyroConfig> for u16 {
    /// The `GYR_CONF` register value of the configuration.
    fn from(config: GyroConfig) -> (r: u16) {
        config.register_value()
    }
}

impl vstd::std_specs::convert::FromSpecImpl<GyroConfig> for u16 {
    open spec fn obeys_from_spec() -> bool {
        true
    }

    open spec fn from_spec(config: GyroConfig) -> u16 {
        config.spec_register_value()
    }
}

impl From<u16> for GyroConfig {
    /// The configuration that a `GYR_CONF` register value holds.
    fn from(value: u16) -> (r: GyroConfig) {
        GyroConfig::from_register(value)
    }
}

impl vstd::std_specs::convert::FromSpecImpl<u16> for GyroConfig {
    open spec fn obeys_from_spec() -> bool {
        true
    }

    open spec fn from_spec(value: u16) -> GyroConfig {
        GyroConfig::spec_from_register(value)
    }
}

/// Builder for `GyroConfig`. Settings never set are 100 Hz, ±2000 dps,
/// ODR/2, no averaging and normal mode.
#[derive(Debug, Clone, Copy)]
pub struct GyroConfigBuilder {
    odr: Option<OutputDataRate>,
    range: Option<GyroscopeRange>,
    bw: Option<Bandwidth>,
    avg_num: Option<AverageNum>,
    mode: Option<GyroscopePowerMode>,
}

impl Default for GyroConfigBuilder {
    fn default() -> (r: Self)
        ensures
            r.spec_build() == Self::spec_defaults(),
    {
        GyroConfigBuilder { odr: None, range: None, bw: None, avg_num: None, mode: None }
    }
}

impl GyroConfigBuilder {
    /// What a builder with nothing set builds.
    pub open spec fn spec_defaults() -> GyroConfig {
        GyroConfig {
            odr: OutputDataRate::Odr100hz,
            range: GyroscopeRange::DPS2000,
            bw: Bandwidth::OdrHalf,
            avg_num: AverageNum::Avg1,
            mode: GyroscopePowerMode::Normal,
        }
    }

    /// The configuration that `build` makes of this builder.
    pub closed spec fn spec_build(self) -> GyroConfig {
        GyroConfig {
            odr: match self.odr {
                Some(x) => x,
                None => OutputDataRate::Odr100hz,
            },
            range: match self.range {
                Some(x) => x,
                None => GyroscopeRange::DPS2000,
            },
            bw: match self.bw {
                Some(x) => x,
                None => Bandwidth::OdrHalf,
            },
            avg_num: match self.avg_num {
                Some(x) => x,
                None => AverageNum::Avg1,
            },
            mode: match self.mode {
                Some(x) => x,
                None => GyroscopePowerMode::Normal,
            },
        }
    }

    /// Set the output data rate
    pub fn odr(self, odr: OutputDataRate) -> (r: Self)
        ensures
            r.spec_build() == (GyroConfig { odr, ..self.spec_build() }),
    {
        GyroConfigBuilder { odr: Some(odr), ..self }
    }

    /// Set the measurement range
    pub fn range(self, range: GyroscopeRange) -> (r: Self)
        ensures
            r.spec_build() == (GyroConfig { range, ..self.spec_build() }),
    {
        GyroConfigBuilder { range: Some(range), ..self }
    }

    /// Set the bandwidth
    pub fn bw(self, bw: Bandwidth) -> (r: Self)
        ensures
            r.spec_build() == (GyroConfig { bw, ..self.spec_build() }),
    {
        GyroConfigBuilder { bw: Some(bw), ..self }
    }

    /// Set the number of samples to average
    pub fn avg_num(self, avg_num: AverageNum) -> (r: Self)
        ensures
            r.spec_build() == (GyroConfig { avg_num, ..self.spec_build() }),
    {
        GyroConfigBuilder { avg_num: Some(avg_num), ..self }
    }

    /// Set the power mode
    pub fn mode(self, mode: GyroscopePowerMode) -> (r: Self)
        ensures
            r.spec_build() == (GyroConfig { mode, ..self.spec_build() }),
    {
        GyroConfigBuilder { mode: Some(mode), ..self }
    }

    /// Build the GyroConfig
    pub fn build(self) -> (r: GyroConfig)
        ensures
            r == self.spec_build(),
    {
        GyroConfig {
            odr: match self.odr {
                Some(x) => x,
                None => OutputDataRate::Odr100hz,
            },
            range: match self.range {
                Some(x) => x,
                None => GyroscopeRange::DPS2000,
            },
            bw: match self.bw {
                Some(x) => x,
                None => Bandwidth::OdrHalf,
            },
            avg_num: match self.avg_num {
                Some(x) => x,
                None => AverageNum::Avg1,
            },
            mode: match self.mode {
                Some(x) => x,
                None => GyroscopePowerMode::Normal,
            },
        }
    }
}

} // verus!

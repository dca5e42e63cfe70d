//! Interrupt routing (`INT_MAP1`, `INT_MAP2`), interrupt pin electrical
//! behaviour (`IO_INT_CTRL`) and the interrupt status words.
use vstd::prelude::*;

verus! {

/// Where an interrupt source is routed.
#[derive(Debug, Clone, Copy, PartialEq, Eq, Structural)]
pub enum InterruptMapping {
    Disabled,
    Int1,
    Int2,
    /// The I3C in-band interrupt
    Ibi,
}

impl InterruptMapping {
    /// The 2-bit field value of this routing.
    pub open spec fn spec_bits(self) -> u16 {
        match self {
            InterruptMapping::Disabled => 0,
            InterruptMapping::Int1 => 1,
            InterruptMapping::Int2 => 2,
            InterruptMapping::Ibi => 3,
        }
    }

    #[verifier::when_used_as_spec(spec_bits)]
    pub fn bits(self) -> (r: u16)
        ensures
            r == self.spec_bits(),
    {
        match self {
            InterruptMapping::Disabled => 0,
            InterruptMapping::Int1 => 1,
            InterruptMapping::Int2 => 2,
            InterruptMapping::Ibi => 3,
        }
    }
}

impl Default for InterruptMapping {
    fn default() -> (r: Self)
        ensures
            r == InterruptMapping::Disabled,
    {
        InterruptMapping::Disabled
    }
}

/// Active level of an interrupt pin.
#[derive(Debug, Clone, Copy, PartialEq, Eq, Structural)]
pub enum InterruptLevel {
    ActiveLow,
    ActiveHigh,
}

impl InterruptLevel {
    pub open spec fn spec_bits(self) -> u16 {
        match self {
            InterruptLevel::ActiveLow => 0,
            InterruptLevel::ActiveHigh => 1,
        }
    }

    #[verifier::when_used_as_spec(spec_bits)]
    pub fn bits(self) -> (r: u16)
        ensures
            r == self.spec_bits(),
    {
        match self {
            InterruptLevel::ActiveLow => 0,
            InterruptLevel::ActiveHigh => 1,
        }
    }
}

/// Output driver of an interrupt pin.
#[derive(Debug, Clone, Copy, PartialEq, Eq, Structural)]
pub enum InterruptOd {
    PushPull,
    OpenDrain,
}

impl InterruptOd {
    pub open spec fn spec_bits(self) -> u16 {
        match self {
            InterruptOd::PushPull => 0,
            InterruptOd::OpenDrain => 1,
        }
    }

    #[verifier::when_used_as_spec(spec_bits)]
    pub fn bits(self) -> (r: u16)
        ensures
            r == self.spec_bits(),
    {
        match self {
            InterruptOd::PushPull => 0,
            InterruptOd::OpenDrain => 1,
        }
    }
}

/// Output enable of an interrupt pin.
#[derive(Debug, Clone, Copy, PartialEq, Eq, Structural)]
pub enum InterruptEnable {
    Disabled,
    Enabled,
}

impl InterruptEnable {
    pub open spec fn spec_bits(self) -> u16 {
        match self {
            InterruptEnable::Disabled => 0,
            InterruptEnable::Enabled => 1,
        }
    }

    #[verifier::when_used_as_spec(spec_bits)]
    pub fn bits(self) -> (r: u16)
        ensures
            r == self.spec_bits(),
    {
        match self {
            InterruptEnable::Disabled => 0,
            InterruptEnable::Enabled => 1,
        }
    }
}

/// Whether interrupts stay asserted until their status is read.
#[derive(Debug, Clone, Copy, PartialEq, Eq, Structural)]
pub enum InterruptLatch {
    NonLatched,
    Latched,
}

impl InterruptLatch {
    pub open spec fn spec_bits(self) -> u16 {
        match self {
            InterruptLatch::NonLatched => 0,
            InterruptLatch::Latched => 1,
        }
    }

    #[verifier::when_used_as_spec(spec_bits)]
    pub fn bits(self) -> (r: u16)
        ensures
            r == self.spec_bits(),
    {
        match self {
            InterruptLatch::NonLatched => 0,
            InterruptLatch::Latched => 1,
        }
    }
}

/// An interrupt output whose status register can be read.
#[derive(Debug, Clone, Copy, PartialEq, Eq, Structural)]
pub enum InterruptPin {
    Int1,
    Int2,
    IC3IBI,
}

/// Routing of every interrupt source of the sensor.
#[derive(Debug, Clone, Copy, PartialEq, Eq, Structural)]
pub struct InterruptMapConfig {
    pub no_motion: InterruptMapping,
    pub any_motion: InterruptMapping,
    pub flat: InterruptMapping,
    pub orientation: InterruptMapping,
    pub step_detector: InterruptMapping,
    pub step_counter: InterruptMapping,
    pub sig_motion: InterruptMapping,
    pub tilt_out: InterruptMapping,
    pub tap: InterruptMapping,
    pub i3c: InterruptMapping,
    pub err_status: InterruptMapping,
    pub temp_drdy: InterruptMapping,
    pub gyr_drdy: InterruptMapping,
    pub acc_drdy: InterruptMapping,
    pub fifo_watermark: InterruptMapping,
    pub fifo_full: InterruptMapping,
}

/// The value of a 16-bit register made of eight 2-bit fields, lowest field first.
#[verifier::opaque]
pub open spec fn pack2(
    f0: u16,
    f1: u16,
    f2: u16,
    f3: u16,
    f4: u16,
    f5: u16,
    f6: u16,
    f7: u16,
) -> u16 {
    (f0 & 0x03) | (f1 & 0x03) << 2 | (f2 & 0x03) << 4 | (f3 & 0x03) << 6 | (f4 & 0x03) << 8 | (f5
        & 0x03) << 10 | (f6 & 0x03) << 12 | (f7 & 0x03) << 14
}

/// Each 2-bit field of `pack2` is read back unchanged.
pub proof fn lemma_pack2_fields(
    f0: u16,
    f1: u16,
    f2: u16,
    f3: u16,
    f4: u16,
    f5: u16,
    f6: u16,
    f7: u16,
)
    requires
        f0 < 4,
        f1 < 4,
        f2 < 4,
        f3 < 4,
        f4 < 4,
        f5 < 4,
        f6 < 4,
        f7 < 4,
    ensures
        pack2(f0, f1, f2, f3, f4, f5, f6, f7) & 0x03 == f0,
        (pack2(f0, f1, f2, f3, f4, f5, f6, f7) >> 2) & 0x03 == f1,
        (pack2(f0, f1, f2, f3, f4, f5, f6, f7) >> 4) & 0x03 == f2,
        (pack2(f0, f1, f2, f3, f4, f5, f6, f7) >> 6) & 0x03 == f3,
        (pack2(f0, f1, f2, f3, f4, f5, f6, f7) >> 8) & 0x03 == f4,
        (pack2(f0, f1, f2, f3, f4, f5, f6, f7) >> 10) & 0x03 == f5,
        (pack2(f0, f1, f2, f3, f4, f5, f6, f7) >> 12) & 0x03 == f6,
        (pack2(f0, f1, f2, f3, f4, f5, f6, f7) >> 14) & 0x03 == f7,
{
    reveal(pack2);
    assert(f0 < 4 && f1 < 4 && f2 < 4 && f3 < 4 && f4 < 4 && f5 < 4 && f6 < 4 && f7 < 4 ==> {
        let p = (f0 & 0x03) | (f1 & 0x03) << 2 | (f2 & 0x03) << 4 | (f3 & 0x03) << 6 | (f4
            & 0x03) << 8 | (f5 & 0x03) << 10 | (f6 & 0x03) << 12 | (f7 & 0x03) << 14;
        &&& p & 0x03 == f0
        &&& (p >> 2) & 0x03 == f1
        &&& (p >> 4) & 0x03 == f2
        &&& (p >> 6) & 0x03 == f3
        &&& (p >> 8) & 0x03 == f4
        &&& (p >> 10) & 0x03 == f5
        &&& (p >> 12) & 0x03 == f6
        &&& (p >> 14) & 0x03 == f7
    }) by (bit_vector);
}

impl InterruptMapConfig {
    /// Every source routed nowhere.
    pub open spec fn spec_all_disabled() -> InterruptMapConfig {
        InterruptMapConfig {
            no_motion: InterruptMapping::Disabled,
            any_motion: InterruptMapping::Disabled,
            flat: InterruptMapping::Disabled,
            orientation: InterruptMapping::Disabled,
            step_detector: InterruptMapping::Disabled,
            step_counter: InterruptMapping::Disabled,
            sig_motion: InterruptMapping::Disabled,
            tilt_out: InterruptMapping::Disabled,
            tap: InterruptMapping::Disabled,
            i3c: InterruptMapping::Disabled,
            err_status: InterruptMapping::Disabled,
            temp_drdy: InterruptMapping::Disabled,
            gyr_drdy: InterruptMapping::Disabled,
            acc_drdy: InterruptMapping::Disabled,
            fifo_watermark: InterruptMapping::Disabled,
            fifo_full: InterruptMapping::Disabled,
        }
    }

    /// The value of `INT_MAP1`.
    pub open spec fn spec_map1(&self) -> u16 {
        pack2(
            self.no_motion.spec_bits(),
            self.any_motion.spec_bits(),
            self.flat.spec_bits(),
            self.orientation.spec_bits(),
            self.step_detector.spec_bits(),
            self.step_counter.spec_bits(),
            self.sig_motion.spec_bits(),
            self.tilt_out.spec_bits(),
        )
    }

    /// The value of `INT_MAP2`.
    pub open spec fn spec_map2(&self) -> u16 {
        pack2(
            self.tap.spec_bits(),
            self.i3c.spec_bits(),
            self.err_status.spec_bits(),
            self.temp_drdy.spec_bits(),
            self.gyr_drdy.spec_bits(),
            self.acc_drdy.spec_bits(),
            self.fifo_watermark.spec_bits(),
            self.fifo_full.spec_bits(),
        )
    }

    /// A builder whose every routing is still unset.
    pub fn builder() -> (r: InterruptMapConfigBuilder)
        ensures
            r.spec_build() == InterruptMapConfig::spec_all_disabled(),
    {
        InterruptMapConfigBuilder::default()
    }

    /// The value of `INT_MAP1`: the routings of no-motion, any-motion, flat,
    /// orientation, step detector, step counter, significant motion and tilt,
    /// two bits each, lowest first.
    #[verifier::when_used_as_spec(spec_map1)]
    pub fn map1(&self) -> (r: u16)
        ensures
            r == self.spec_map1(),
    {
        reveal(pack2);
        self.no_motion.bits() & 0x03 | (self.any_motion.bits() & 0x03) << 2 | (self.flat.bits()
            & 0x03) << 4 | (self.orientation.bits() & 0x03) << 6 | (self.step_detector.bits()
            & 0x03) << 8 | (self.step_counter.bits() & 0x03) << 10 | (self.sig_motion.bits()
            & 0x03) << 12 | (self.tilt_out.bits() & 0x03) << 14
    }

    /// The value of `INT_MAP2`: the routings of tap, I3C, error status,
    /// temperature, gyroscope and accelerometer data ready, FIFO watermark and
    /// FIFO full, two bits each, lowest first.
    #[verifier::when_used_as_spec(spec_map2)]
    pub fn map2(&self) -> (r: u16)
        ensures
            r == self.spec_map2(),
    {
        reveal(pack2);
        self.tap.bits() & 0x03 | (self.i3c.bits() & 0x03) << 2 | (self.err_status.bits() & 0x03)
            << 4 | (self.temp_drdy.bits() & 0x03) << 6 | (self.gyr_drdy.bits() & 0x03) << 8 | (
        self.acc_drdy.bits() & 0x03) << 10 | (self.fifo_watermark.bits() & 0x03) << 12 | (
        self.fifo_full.bits() & 0x03) << 14
    }
}

/// Every routing of an `InterruptMapConfig` can be read back from the two
/// register values that it is written as.
pub proof fn lemma_interrupt_map_fields(c: InterruptMapConfig)
    ensures
        c.map1() & 0x03 == c.no_motion.bits(),
        (c.map1() >> 2) & 0x03 == c.any_motion.bits(),
        (c.map1() >> 4) & 0x03 == c.flat.bits(),
        (c.map1() >> 6) & 0x03 == c.orientation.bits(),
        (c.map1() >> 8) & 0x03 == c.step_detector.bits(),
        (c.map1() >> 10) & 0x03 == c.step_counter.bits(),
        (c.map1() >> 12) & 0x03 == c.sig_motion.bits(),
        (c.map1() >> 14) & 0x03 == c.tilt_out.bits(),
        c.map2() & 0x03 == c.tap.bits(),
        (c.map2() >> 2) & 0x03 == c.i3c.bits(),
        (c.map2() >> 4) & 0x03 == c.err_status.bits(),
        (c.map2() >> 6) & 0x03 == c.temp_drdy.bits(),
        (c.map2() >> 8) & 0x03 == c.gyr_drdy.bits(),
        (c.map2() >> 10) & 0x03 == c.acc_drdy.bits(),
        (c.map2() >> 12) & 0x03 == c.fifo_watermark.bits(),
        (c.map2() >> 14) & 0x03 == c.fifo_full.bits(),
{
    lemma_pack2_fields(
        c.no_motion.bits(),
        c.any_motion.bits(),
        c.flat.bits(),
        c.orientation.bits(),
        c.step_detector.bits(),
        c.step_counter.bits(),
        c.sig_motion.bits(),
        c.tilt_out.bits(),
    );
    lemma_pack2_fields(
        c.tap.bits(),
        c.i3c.bits(),
        c.err_status.bits(),
        c.temp_drdy.bits(),
        c.gyr_drdy.bits(),
        c.acc_drdy.bits(),
        c.fifo_watermark.bits(),
        c.fifo_full.bits(),
    );
}

/// Builder for `InterruptMapConfig`: each routing that is never set is `Disabled`.
#[derive(Debug, Clone, Copy)]
pub struct InterruptMapConfigBuilder {
    pub(crate) no_motion: Option<InterruptMapping>,
    pub(crate) any_motion: Option<InterruptMapping>,
    pub(crate) flat: Option<InterruptMapping>,
    pub(crate) orientation: Option<InterruptMapping>,
    pub(crate) step_detector: Option<InterruptMapping>,
    pub(crate) step_counter: Option<InterruptMapping>,
    pub(crate) sig_motion: Option<InterruptMapping>,
    pub(crate) tilt_out: Option<InterruptMapping>,
    pub(crate) tap: Option<InterruptMapping>,
    pub(crate) i3c: Option<InterruptMapping>,
    pub(crate) err_status: Option<InterruptMapping>,
    pub(crate) temp_drdy: Option<InterruptMapping>,
    pub(crate) gyr_drdy: Option<InterruptMapping>,
    pub(crate) acc_drdy: Option<InterruptMapping>,
    pub(crate) fifo_watermark: Option<InterruptMapping>,
    pub(crate) fifo_full: Option<InterruptMapping>,
}

/// The routing a builder field stands for: the value set, else `Disabled`.
pub open spec fn mapping_or_disabled(m: Option<InterruptMapping>) -> InterruptMapping {
    match m {
        Some(v) => v,
        None => InterruptMapping::Disabled,
    }
}

impl Default for InterruptMapConfigBuilder {
    fn default() -> (r: Self)
        ensures
            r.spec_build() == InterruptMapConfig::spec_all_disabled(),
    {
        InterruptMapConfigBuilder {
            no_motion: None,
            any_motion: None,
            flat: None,
            orientation: None,
            step_detector: None,
            step_counter: None,
            sig_motion: None,
            tilt_out: None,
            tap: None,
            i3c: None,
            err_status: None,
            temp_drdy: None,
            gyr_drdy: None,
            acc_drdy: None,
            fifo_watermark: None,
            fifo_full: None,
        }
    }
}

impl InterruptMapConfigBuilder {
    /// The configuration that `build` makes of this builder.
    pub closed spec fn spec_build(self) -> InterruptMapConfig {
        InterruptMapConfig {
            no_motion: mapping_or_disabled(self.no_motion),
            any_motion: mapping_or_disabled(self.any_motion),
            flat: mapping_or_disabled(self.flat),
            orientation: mapping_or_disabled(self.orientation),
            step_detector: mapping_or_disabled(self.step_detector),
            step_counter: mapping_or_disabled(self.step_counter),
            sig_motion: mapping_or_disabled(self.sig_motion),
            tilt_out: mapping_or_disabled(self.tilt_out),
            tap: mapping_or_disabled(self.tap),
            i3c: mapping_or_disabled(self.i3c),
            err_status: mapping_or_disabled(self.err_status),
            temp_drdy: mapping_or_disabled(self.temp_drdy),
            gyr_drdy: mapping_or_disabled(self.gyr_drdy),
            acc_drdy: mapping_or_disabled(self.acc_drdy),
            fifo_watermark: mapping_or_disabled(self.fifo_watermark),
            fifo_full: mapping_or_disabled(self.fifo_full),
        }
    }

    pub fn no_motion(self, mapping: InterruptMapping) -> (r: Self)
        ensures
            r.spec_build() == (InterruptMapConfig { no_motion: mapping, ..self.spec_build() }),
    {
        InterruptMapConfigBuilder { no_motion: Some(mapping), ..self }
    }

    pub fn any_motion(self, mapping: InterruptMapping) -> (r: Self)
        ensures
            r.spec_build() == (InterruptMapConfig { any_motion: mapping, ..self.spec_build() }),
    {
        InterruptMapConfigBuilder { any_motion: Some(mapping), ..self }
    }

    pub fn flat(self, mapping: InterruptMapping) -> (r: Self)
        ensures
            r.spec_build() == (InterruptMapConfig { flat: mapping, ..self.spec_build() }),
    {
        InterruptMapConfigBuilder { flat: Some(mapping), ..self }
    }

    pub fn orientation(self, mapping: InterruptMapping) -> (r: Self)
        ensures
            r.spec_build() == (InterruptMapConfig { orientation: mapping, ..self.spec_build() }),
    {
        InterruptMapConfigBuilder { orientation: Some(mapping), ..self }
    }

    pub fn step_detector(self, mapping: InterruptMapping) -> (r: Self)
        ensures
            r.spec_build() == (InterruptMapConfig { step_detector: mapping, ..self.spec_build() }),
    {
        InterruptMapConfigBuilder { step_detector: Some(mapping), ..self }
    }

    pub fn step_counter(self, mapping: InterruptMapping) -> (r: Self)
        ensures
            r.spec_build() == (InterruptMapConfig { step_counter: mapping, ..self.spec_build() }),
    {
        InterruptMapConfigBuilder { step_counter: Some(mapping), ..self }
    }

    pub fn sig_motion(self, mapping: InterruptMapping) -> (r: Self)
        ensures
            r.spec_build() == (InterruptMapConfig { sig_motion: mapping, ..self.spec_build() }),
    {
        InterruptMapConfigBuilder { sig_motion: Some(mapping), ..self }
    }

    pub fn tilt_out(self, mapping: InterruptMapping) -> (r: Self)
        ensures
            r.spec_build() == (InterruptMapConfig { tilt_out: mapping, ..self.spec_build() }),
    {
        InterruptMapConfigBuilder { tilt_out: Some(mapping), ..self }
    }

    pub fn tap(self, mapping: InterruptMapping) -> (r: Self)
        ensures
            r.spec_build() == (InterruptMapConfig { tap: mapping, ..self.spec_build() }),
    {
        InterruptMapConfigBuilder { tap: Some(mapping), ..self }
    }

    pub fn i3c(self, mapping: InterruptMapping) -> (r: Self)
        ensures
            r.spec_build() == (InterruptMapConfig { i3c: mapping, ..self.spec_build() }),
    {
        InterruptMapConfigBuilder { i3c: Some(mapping), ..self }
    }

    pub fn err_status(self, mapping: InterruptMapping) -> (r: Self)
        ensures
            r.spec_build() == (InterruptMapConfig { err_status: mapping, ..self.spec_build() }),
    {
        InterruptMapConfigBuilder { err_status: Some(mapping), ..self }
    }

    pub fn temp_drdy(self, mapping: InterruptMapping) -> (r: Self)
        ensures
            r.spec_build() == (InterruptMapConfig { temp_drdy: mapping, ..self.spec_build() }),
    {
        InterruptMapConfigBuilder { temp_drdy: Some(mapping), ..self }
    }

    pub fn gyr_drdy(self, mapping: InterruptMapping) -> (r: Self)
        ensures
            r.spec_build() == (InterruptMapConfig { gyr_drdy: mapping, ..self.spec_build() }),
    {
        InterruptMapConfigBuilder { gyr_drdy: Some(mapping), ..self }
    }

    pub fn acc_drdy(self, mapping: InterruptMapping) -> (r: Self)
        ensures
            r.spec_build() == (InterruptMapConfig { acc_drdy: mapping, ..self.spec_build() }),
    {
        InterruptMapConfigBuilder { acc_drdy: Some(mapping), ..self }
    }

    pub fn fifo_watermark(self, mapping: InterruptMapping) -> (r: Self)
        ensures
            r.spec_build() == (InterruptMapConfig { fifo_watermark: mapping, ..self.spec_build() }),
    {
        InterruptMapConfigBuilder { fifo_watermark: Some(mapping), ..self }
    }

    pub fn fifo_full(self, mapping: InterruptMapping) -> (r: Self)
        ensures
            r.spec_build() == (InterruptMapConfig { fifo_full: mapping, ..self.spec_build() }),
    {
        InterruptMapConfigBuilder { fifo_full: Some(mapping), ..self }
    }

    /// The configuration: each routing as set, `Disabled` where it was not.
    pub fn build(self) -> (r: InterruptMapConfig)
        ensures
            r == self.spec_build(),
    {
        InterruptMapConfig {
            no_motion: unwrap_mapping(self.no_motion),
            any_motion: unwrap_mapping(self.any_motion),
            flat: unwrap_mapping(self.flat),
            orientation: unwrap_mapping(self.orientation),
            step_detector: unwrap_mapping(self.step_detector),
            step_counter: unwrap_mapping(self.step_counter),
            sig_motion: unwrap_mapping(self.sig_motion),
            tilt_out: unwrap_mapping(self.tilt_out),
            tap: unwrap_mapping(self.tap),
            i3c: unwrap_mapping(self.i3c),
            err_status: unwrap_mapping(self.err_status),
            temp_drdy: unwrap_mapping(self.temp_drdy),
            gyr_drdy: unwrap_mapping(self.gyr_drdy),
            acc_drdy: unwrap_mapping(self.acc_drdy),
            fifo_watermark: unwrap_mapping(self.fifo_watermark),
            fifo_full: unwrap_mapping(self.fifo_full),
        }
    }
}

fn unwrap_mapping(m: Option<InterruptMapping>) -> (r: InterruptMapping)
    ensures
        r == mapping_or_disabled(m),
{
    match m {
        Some(v) => v,
        None => InterruptMapping::Disabled,
    }
}

impl Default for InterruptMapConfig {
    fn default() -> (r: Self)
        ensures
            r == InterruptMapConfig::spec_all_disabled(),
    {
        InterruptMapConfigBuilder::default().build()
    }
}

/// Electrical configuration of both interrupt pins (`IO_INT_CTRL`).
#[derive(Debug, Clone, Copy, PartialEq, Eq, Structural)]
pub struct IOInterruptConfig {
    pub(crate) int1_lvl: InterruptLevel,
    pub(crate) int1_od: InterruptOd,
    pub(crate) int1_en: InterruptEnable,
    pub(crate) int2_lvl: InterruptLevel,
    pub(crate) int2_od: InterruptOd,
    pub(crate) int2_en: InterruptEnable,
}

impl IOInterruptConfig {
    /// A builder with nothing set.
    pub fn builder() -> (r: IOInterruptConfigBuilder)
        ensures
            r.spec_build().spec_fields() == IOInterruptConfig::spec_default_fields(),
    {
        IOInterruptConfigBuilder::default()
    }

    /// The settings, in the order pin 1 level, open drain, enable, then pin 2
    /// level, open drain, enable.
    pub closed spec fn spec_fields(self) -> (
        InterruptLevel,
        InterruptOd,
        InterruptEnable,
        InterruptLevel,
        InterruptOd,
        InterruptEnable,
    ) {
        (self.int1_lvl, self.int1_od, self.int1_en, self.int2_lvl, self.int2_od, self.int2_en)
    }

    /// Settings of a pin that nothing was set for.
    pub open spec fn spec_default_fields() -> (
        InterruptLevel,
        InterruptOd,
        InterruptEnable,
        InterruptLevel,
        InterruptOd,
        InterruptEnable,
    ) {
        (
            InterruptLevel::ActiveLow,
            InterruptOd::PushPull,
            InterruptEnable::Disabled,
            InterruptLevel::ActiveLow,
            InterruptOd::PushPull,
            InterruptEnable::Disabled,
        )
    }

    /// The value of `IO_INT_CTRL`: level, open drain and enable of pin 1 in
    /// bits 0..=2, of pin 2 in bits 7..=9.
    pub open spec fn spec_register_value(self) -> u16 {
        let (l1, o1, e1, l2, o2, e2) = self.spec_fields();
        (l1.spec_bits() & 0x1) | (o1.spec_bits() & 0x1) << 1 | (e1.spec_bits() & 0x1) << 2 | (
        l2.spec_bits() & 0x1) << 7 | (o2.spec_bits() & 0x1) << 8 | (e2.spec_bits() & 0x1) << 9
    }

    #[verifier::when_used_as_spec(spec_register_value)]
    pub fn register_value(self) -> (r: u16)
        ensures
            r == self.spec_register_value(),
    {
        (self.int1_lvl.bits() & 0x1) | (self.int1_od.bits() & 0x1) << 1 | (self.int1_en.bits()
            & 0x1) << 2 | (self.int2_lvl.bits() & 0x1) << 7 | (self.int2_od.bits() & 0x1) << 8 | (
        self.int2_en.bits() & 0x1) << 9
    }
}

/// Every pin setting can be read back from the `IO_INT_CTRL` value.
pub proof fn lemma_io_interrupt_fields(c: IOInterruptConfig)
    ensures
        ({
            let (l1, o1, e1, l2, o2, e2) = c.spec_fields();
            let v = c.spec_register_value();
            &&& v & 0x1 == l1.spec_bits()
            &&& (v >> 1) & 0x1 == o1.spec_bits()
            &&& (v >> 2) & 0x1 == e1.spec_bits()
            &&& (v >> 7) & 0x1 == l2.spec_bits()
            &&& (v >> 8) & 0x1 == o2.spec_bits()
            &&& (v >> 9) & 0x1 == e2.spec_bits()
        }),
{
    let (l1, o1, e1, l2, o2, e2) = c.spec_fields();
    let (a, b, d, f, g, h) = (
        l1.spec_bits(),
        o1.spec_bits(),
        e1.spec_bits(),
        l2.spec_bits(),
        o2.spec_bits(),
        e2.spec_bits(),
    );
    assert(a < 2 && b < 2 && d < 2 && f < 2 && g < 2 && h < 2 ==> {
        let v = (a & 0x1) | (b & 0x1) << 1 | (d & 0x1) << 2 | (f & 0x1) << 7 | (g & 0x1) << 8 | (h
            & 0x1) << 9;
        &&& v & 0x1 == a
        &&& (v >> 1) & 0x1 == b
        &&& (v >> 2) & 0x1 == d
        &&& (v >> 7) & 0x1 == f
        &&& (v >> 8) & 0x1 == g
        &&& (v >> 9) & 0x1 == h
    }) by (bit_vector);
}

impl From<IOInterruptConfig> for u16 {
    fn from(config: IOInterruptConfig) -> (r: u16) {
        config.register_value()
    }
}

impl vstd::std_specs::convert::FromSpecImpl<IOInterruptConfig> for u16 {
    open spec fn obeys_from_spec() -> bool {
        true
    }

    open spec fn from_spec(config: IOInterruptConfig) -> u16 {
        config.spec_register_value()
    }
}

/// Builder for `IOInterruptConfig`: unset pins are active low, push-pull and
/// disabled.
#[derive(Debug, Clone, Copy)]
pub struct IOInterruptConfigBuilder {
    pub(crate) int1_lvl: Option<InterruptLevel>,
    pub(crate) int1_od: Option<InterruptOd>,
    pub(crate) int1_en: Option<InterruptEnable>,
    pub(crate) int2_lvl: Option<InterruptLevel>,
    pub(crate) int2_od: Option<InterruptOd>,
    pub(crate) int2_en: Option<InterruptEnable>,
}

impl Default for IOInterruptConfigBuilder {
    fn default() -> (r: Self)
        ensures
            r.spec_build().spec_fields() == IOInterruptConfig::spec_default_fields(),
    {
        IOInterruptConfigBuilder {
            int1_lvl: None,
            int1_od: None,
            int1_en: None,
            int2_lvl: None,
            int2_od: None,
            int2_en: None,
        }
    }
}

pub open spec fn level_or_low(v: Option<InterruptLevel>) -> InterruptLevel {
    match v {
        Some(l) => l,
        None => InterruptLevel::ActiveLow,
    }
}

pub open spec fn od_or_push_pull(v: Option<InterruptOd>) -> InterruptOd {
    match v {
        Some(o) => o,
        None => InterruptOd::PushPull,
    }
}

pub open spec fn enable_or_disabled(v: Option<InterruptEnable>) -> InterruptEnable {
    match v {
        Some(e) => e,
        None => InterruptEnable::Disabled,
    }
}

impl IOInterruptConfigBuilder {
    pub closed spec fn spec_build(self) -> IOInterruptConfig {
        IOInterruptConfig {
            int1_lvl: level_or_low(self.int1_lvl),
            int1_od: od_or_push_pull(self.int1_od),
            int1_en: enable_or_disabled(self.int1_en),
            int2_lvl: level_or_low(self.int2_lvl),
            int2_od: od_or_push_pull(self.int2_od),
            int2_en: enable_or_disabled(self.int2_en),
        }
    }

    pub fn int1_lvl(self, level: InterruptLevel) -> (r: Self)
        ensures
            ({
                let (a, b, c, d, e, g) = self.spec_build().spec_fields();
                r.spec_build().spec_fields() == (level, b, c, d, e, g)
            }),
    {
        IOInterruptConfigBuilder { int1_lvl: Some(level), ..self }
    }

    pub fn int1_od(self, od: InterruptOd) -> (r: Self)
        ensures
            ({
                let (a, b, c, d, e, g) = self.spec_build().spec_fields();
                r.spec_build().spec_fields() == (a, od, c, d, e, g)
            }),
    {
        IOInterruptConfigBuilder { int1_od: Some(od), ..self }
    }

    pub fn int1_enable(self, enable: InterruptEnable) -> (r: Self)
        ensures
            ({
                let (a, b, c, d, e, g) = self.spec_build().spec_fields();
                r.spec_build().spec_fields() == (a, b, enable, d, e, g)
            }),
    {
        IOInterruptConfigBuilder { int1_en: Some(enable), ..self }
    }

    pub fn int2_lvl(self, level: InterruptLevel) -> (r: Self)
        ensures
            ({
                let (a, b, c, d, e, g) = self.spec_build().spec_fields();
                r.spec_build().spec_fields() == (a, b, c, level, e, g)
            }),
    {
        IOInterruptConfigBuilder { int2_lvl: Some(level), ..self }
    }

    /// Sets the output driver. The value is
    /// stored for pin 1; pin 2 keeps its own setting.
    pub fn int2_od(self, od: InterruptOd) -> (r: Self)
        ensures
            ({
                let (a, b, c, d, e, g) = self.spec_build().spec_fields();
                r.spec_build().spec_fields() == (a, od, c, d, e, g)
            }),
    {
        IOInterruptConfigBuilder { int1_od: Some(od), ..self }
    }

    pub fn int2_enable(self, enable: InterruptEnable) -> (r: Self)
        ensures
            ({
                let (a, b, c, d, e, g) = self.spec_build().spec_fields();
                r.spec_build().spec_fields() == (a, b, c, d, e, enable)
            }),
    {
        IOInterruptConfigBuilder { int2_en: Some(enable), ..self }
    }

    /// The configuration: each setting as set, else active low, push-pull,
    /// disabled.
    pub fn build(self) -> (r: IOInterruptConfig)
        ensures
            r.spec_fields() == self.spec_build().spec_fields(),
    {
        IOInterruptConfig {
            int1_lvl: match self.int1_lvl {
                Some(l) => l,
                None => InterruptLevel::ActiveLow,
            },
            int1_od: match self.int1_od {
                Some(o) => o,
                None => InterruptOd::PushPull,
            },
            int1_en: match self.int1_en {
                Some(e) => e,
                None => InterruptEnable::Disabled,
            },
            int2_lvl: match self.int2_lvl {
                Some(l) => l,
                None => InterruptLevel::ActiveLow,
            },
            int2_od: match self.int2_od {
                Some(o) => o,
                None => InterruptOd::PushPull,
            },
            int2_en: match self.int2_en {
                Some(e) => e,
                None => InterruptEnable::Disabled,
            },
        }
    }
}

/// The data-ready and FIFO flags of an interrupt status word.
#[derive(Debug, Clone, Copy, PartialEq, Eq, Structural)]
pub struct InterruptSource {
    pub gyr_drdy: bool,
    pub acc_drdy: bool,
    pub fifo_watermark: bool,
    pub fifo_full: bool,
}

impl InterruptSource {
    /// The flags of status word `value`: bits 12, 13, 14 and 15.
    pub open spec fn spec_from_status(value: u16) -> InterruptSource {
        InterruptSource {
            gyr_drdy: (value & 0x1000) != 0,
            acc_drdy: (value & 0x2000) != 0,
            fifo_watermark: (value & 0x4000) != 0,
            fifo_full: (value & 0x8000) != 0,
        }
    }

    #[verifier::when_used_as_spec(spec_from_status)]
    pub fn from_status(value: u16) -> (r: InterruptSource)
        ensures
            r == Self::spec_from_status(value),
    {
        InterruptSource {
            gyr_drdy: (value & 0x1000) != 0,
            acc_drdy: (value & 0x2000) != 0,
            fifo_watermark: (value & 0x4000) != 0,
            fifo_full: (value & 0x8000) != 0,
        }
    }
}

impl Default for InterruptSource {
    fn default() -> (r: Self)
        ensures
            r == (InterruptSource {
                gyr_drdy: false,
                acc_drdy: false,
                fifo_watermark: false,
                fifo_full: false,
            }),
    {
        InterruptSource {
            gyr_drdy: false,
            acc_drdy: false,
            fifo_watermark: false,
            fifo_full: false,
        }
    }
}

/// Each flag is one bit of the status word: gyroscope data ready is bit 12,
/// accelerometer data ready bit 13, FIFO watermark bit 14 and FIFO full
/// bit 15; the lower bits change nothing.
pub proof fn lemma_interrupt_source_bits(value: u16)
    ensures
        InterruptSource::spec_from_status(value).gyr_drdy == ((value >> 12) % 2 == 1),
        InterruptSource::spec_from_status(value).acc_drdy == ((value >> 13) % 2 == 1),
        InterruptSource::spec_from_status(value).fifo_watermark == ((value >> 14) % 2 == 1),
        InterruptSource::spec_from_status(value).fifo_full == ((value >> 15) % 2 == 1),
        InterruptSource::spec_from_status(value) == InterruptSource::spec_from_status(
            value & 0xF000,
        ),
{
    assert(((value & 0x1000) != 0) == ((value >> 12) % 2 == 1)) by (bit_vector);
    assert(((value & 0x2000) != 0) == ((value >> 13) % 2 == 1)) by (bit_vector);
    assert(((value & 0x4000) != 0) == ((value >> 14) % 2 == 1)) by (bit_vector);
    assert(((value & 0x8000) != 0) == ((value >> 15) % 2 == 1)) by (bit_vector);
    assert(((value & 0x1000) != 0) == (((value & 0xF000) & 0x1000) != 0)) by (bit_vector);
    assert(((value & 0x2000) != 0) == (((value & 0xF000) & 0x2000) != 0)) by (bit_vector);
    assert(((value & 0x4000) != 0) == (((value & 0xF000) & 0x4000) != 0)) by (bit_vector);
    assert(((value & 0x8000) != 0) == (((value & 0xF000) & 0x8000) != 0)) by (bit_vector);
}

impl From<u16> for InterruptSource {
    fn from(value: u16) -> (r: InterruptSource) {
        InterruptSource::from_status(value)
    }
}

impl vstd::std_specs::convert::FromSpecImpl<u16> for InterruptSource {
    open spec fn obeys_from_spec() -> bool {
        true
    }

    open spec fn from_spec(value: u16) -> InterruptSource {
        InterruptSource::spec_from_status(value)
    }
}

} // verus!

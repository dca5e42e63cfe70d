//! Any-motion and no-motion detection of the feature engine: their
//! parameters, the words those parameters are written as, and the axis
//! enables in `FEATURE_IO0`.
use vstd::prelude::*;

verus! {

/// When the detector refreshes its reference acceleration.
#[derive(Debug, Clone, Copy, PartialEq, Eq, Structural)]
pub enum ReferenceUpdate {
    /// Only when motion is detected
    OnDetection,
    /// With every sample
    EverySample,
}

impl ReferenceUpdate {
    pub open spec fn spec_bits(self) -> u16 {
        match self {
            ReferenceUpdate::OnDetection => 0,
            ReferenceUpdate::EverySample => 1,
        }
    }

    #[verifier::when_used_as_spec(spec_bits)]
    pub fn bits(self) -> (r: u16)
        ensures
            r == self.spec_bits(),
    {
        match self {
            ReferenceUpdate::OnDetection => 0,
            ReferenceUpdate::EverySample => 1,
        }
    }
}

/// Largest slope threshold (12 bits).
pub const MOTION_THRESHOLD_MAX: u16 = 0x0FFF;

/// Largest hysteresis (10 bits).
pub const MOTION_HYSTERESIS_MAX: u16 = 0x03FF;

/// Largest duration (13 bits).
pub const MOTION_DURATION_MAX: u16 = 0x1FFF;

/// Largest wait time (3 bits).
pub const MOTION_WAIT_TIME_MAX: u8 = 7;

/// Whether the parameters fit their fields of the feature configuration.
pub open spec fn spec_motion_params_fit(
    threshold: u16,
    hysteresis: u16,
    duration: u16,
    wait_time: u8,
) -> bool {
    &&& threshold <= MOTION_THRESHOLD_MAX
    &&& hysteresis <= MOTION_HYSTERESIS_MAX
    &&& duration <= MOTION_DURATION_MAX
    &&& wait_time <= MOTION_WAIT_TIME_MAX
}

/// The three configuration words of a motion detector: threshold and
/// reference update (bit 12), hysteresis, duration and wait time (bits 13..=15).
pub open spec fn spec_motion_words(
    threshold: u16,
    reference_update: ReferenceUpdate,
    hysteresis: u16,
    duration: u16,
    wait_time: u8,
) -> [u16; 3] {
    [
        threshold | (reference_update.spec_bits() << 12),
        hysteresis,
        duration | ((wait_time as u16) << 13),
    ]
}

/// Every parameter can be read back from the words it is written as.
pub proof fn lemma_motion_words_fields(
    threshold: u16,
    reference_update: ReferenceUpdate,
    hysteresis: u16,
    duration: u16,
    wait_time: u8,
)
    requires
        spec_motion_params_fit(threshold, hysteresis, duration, wait_time),
    ensures
        ({
            let w = spec_motion_words(threshold, reference_update, hysteresis, duration, wait_time);
            &&& w[0] & 0x0FFF == threshold
            &&& (w[0] >> 12) == reference_update.spec_bits()
            &&& w[1] == hysteresis
            &&& w[2] & 0x1FFF == duration
            &&& (w[2] >> 13) == wait_time as u16
        }),
{
    let r = reference_update.spec_bits();
    let wt = wait_time as u16;
    assert(threshold <= 0x0FFF && r <= 1 ==> (threshold | (r << 12)) & 0x0FFF == threshold && (
    threshold | (r << 12)) >> 12 == r) by (bit_vector);
    assert(duration <= 0x1FFF && wt <= 7 ==> (duration | (wt << 13)) & 0x1FFF == duration && (
    duration | (wt << 13)) >> 13 == wt) by (bit_vector);
}

/// Parameters of the no-motion detector.
#[derive(Debug, Clone, Copy, PartialEq, Eq, Structural)]
pub struct NoMotionConfig {
    /// Slope threshold, at most 0xFFF
    pub threshold: u16,
    pub reference_update: ReferenceUpdate,
    /// At most 0x3FF
    pub hysteresis: u16,
    /// At most 0x1FFF
    pub duration: u16,
    /// At most 7
    pub wait_time: u8,
}

impl Default for NoMotionConfig {
    fn default() -> (r: Self)
        ensures
            r == (NoMotionConfig {
                threshold: 0x1E,
                reference_update: ReferenceUpdate::EverySample,
                hysteresis: 3,
                duration: 0xFA,
                wait_time: 5,
            }),
    {
        NoMotionConfig {
            threshold: 0x1E,
            reference_update: ReferenceUpdate::EverySample,
            hysteresis: 3,
            duration: 0xFA,
            wait_time: 5,
        }
    }
}

impl NoMotionConfig {
    /// The configuration words, if every parameter fits its field.
    pub open spec fn spec_config_words(self) -> Option<[u16; 3]> {
        if spec_motion_params_fit(self.threshold, self.hysteresis, self.duration, self.wait_time) {
            Some(
                spec_motion_words(
                    self.threshold,
                    self.reference_update,
                    self.hysteresis,
                    self.duration,
                    self.wait_time,
                ),
            )
        } else {
            None
        }
    }

    /// The three words of the feature configuration, or `None` when a
    /// parameter does not fit its field.
    #[verifier::when_used_as_spec(spec_config_words)]
    pub fn config_words(self) -> (r: Option<[u16; 3]>)
        ensures
            r == self.spec_config_words(),
    {
        if self.threshold > MOTION_THRESHOLD_MAX || self.hysteresis > MOTION_HYSTERESIS_MAX
            || self.duration > MOTION_DURATION_MAX || self.wait_time > MOTION_WAIT_TIME_MAX {
            return None;
        }
        let w0 = self.threshold | (self.reference_update.bits() << 12);
        let w2 = self.duration | ((self.wait_time as u16) << 13);
        let words = [w0, self.hysteresis, w2];
        assert(words@ =~= spec_motion_words(
            self.threshold,
            self.reference_update,
            self.hysteresis,
            self.duration,
            self.wait_time,
        )@);
        Some(words)
    }
}

/// Parameters of the any-motion detector.
#[derive(Debug, Clone, Copy, PartialEq, Eq, Structural)]
pub struct AnyMotionConfig {
    /// Slope threshold, at most 0xFFF
    pub threshold: u16,
    pub reference_update: ReferenceUpdate,
    /// At most 0x3FF
    pub hysteresis: u16,
    /// At most 0x1FFF
    pub duration: u16,
    /// At most 7
    pub wait_time: u8,
}

impl Default for AnyMotionConfig {
    fn default() -> (r: Self)
        ensures
            r == (AnyMotionConfig {
                threshold: 0x08,
                reference_update: ReferenceUpdate::EverySample,
                hysteresis: 5,
                duration: 0xFA,
                wait_time: 5,
            }),
    {
        AnyMotionConfig {
            threshold: 0x08,
            reference_update: ReferenceUpdate::EverySample,
            hysteresis: 5,
            duration: 0xFA,
            wait_time: 5,
        }
    }
}

impl AnyMotionConfig {
    /// The same parameters, as taken by the no-motion detector, whose words
    /// have the same layout.
    pub open spec fn spec_as_no_motion(self) -> NoMotionConfig {
        NoMotionConfig {
            threshold: self.threshold,
            reference_update: self.reference_update,
            hysteresis: self.hysteresis,
            duration: self.duration,
            wait_time: self.wait_time,
        }
    }

    #[verifier::when_used_as_spec(spec_as_no_motion)]
    pub fn as_no_motion(self) -> (r: NoMotionConfig)
        ensures
            r == self.spec_as_no_motion(),
            r.threshold == self.threshold,
            r.reference_update == self.reference_update,
            r.hysteresis == self.hysteresis,
            r.duration == self.duration,
            r.wait_time == self.wait_time,
    {
        NoMotionConfig {
            threshold: self.threshold,
            reference_update: self.reference_update,
            hysteresis: self.hysteresis,
            duration: self.duration,
            wait_time: self.wait_time,
        }
    }
}

/// The any-motion words carry the caller's parameters: when they fit, the
/// threshold is in bits 0..=11 of the first word and the reference update in
/// its bit 12 (set for every sample), the hysteresis is the second word, and
/// the duration and wait time are bits 0..=12 and 13..=15 of the third; when
/// one does not fit, there are no words.
pub proof fn lemma_any_motion_words(c: AnyMotionConfig)
    ensures
        c.threshold <= 0x0FFF && c.hysteresis <= 0x03FF && c.duration <= 0x1FFF && c.wait_time
            <= 7 <==> c.spec_as_no_motion().spec_config_words() is Some,
        c.spec_as_no_motion().spec_config_words() matches Some(w) ==> {
            &&& w[0] & 0x0FFF == c.threshold
            &&& (w[0] >> 12 == 1) == (c.reference_update == ReferenceUpdate::EverySample)
            &&& (w[0] >> 12 == 0) == (c.reference_update == ReferenceUpdate::OnDetection)
            &&& w[1] == c.hysteresis
            &&& w[2] & 0x1FFF == c.duration
            &&& w[2] >> 13 == c.wait_time as u16
        },
{
    if c.spec_as_no_motion().spec_config_words() is Some {
        lemma_motion_words_fields(
            c.threshold,
            c.reference_update,
            c.hysteresis,
            c.duration,
            c.wait_time,
        );
    }
}

/// The no-motion words carry the caller's parameters, in the same layout as
/// the any-motion words.
pub proof fn lemma_no_motion_words(c: NoMotionConfig)
    ensures
        c.threshold <= 0x0FFF && c.hysteresis <= 0x03FF && c.duration <= 0x1FFF && c.wait_time
            <= 7 <==> c.spec_config_words() is Some,
        c.spec_config_words() matches Some(w) ==> {
            &&& w[0] & 0x0FFF == c.threshold
            &&& (w[0] >> 12 == 1) == (c.reference_update == ReferenceUpdate::EverySample)
            &&& (w[0] >> 12 == 0) == (c.reference_update == ReferenceUpdate::OnDetection)
            &&& w[1] == c.hysteresis
            &&& w[2] & 0x1FFF == c.duration
            &&& w[2] >> 13 == c.wait_time as u16
        },
{
    if c.spec_config_words() is Some {
        lemma_motion_words_fields(
            c.threshold,
            c.reference_update,
            c.hysteresis,
            c.duration,
            c.wait_time,
        );
    }
}

/// Which axes a motion detector watches.
#[derive(Debug, Clone, Copy, PartialEq, Eq, Structural)]
pub struct MotionAxes {
    pub x: bool,
    pub y: bool,
    pub z: bool,
}

impl MotionAxes {
    /// All three axes.
    pub fn all() -> (r: MotionAxes)
        ensures
            r == (MotionAxes { x: true, y: true, z: true }),
    {
        MotionAxes { x: true, y: true, z: true }
    }

    /// No axis: the detector is off.
    pub fn none() -> (r: MotionAxes)
        ensures
            r == (MotionAxes { x: false, y: false, z: false }),
    {
        MotionAxes { x: false, y: false, z: false }
    }

    /// The enable bits: x in bit 0, y in bit 1, z in bit 2.
    pub open spec fn spec_bits(self) -> u16 {
        ((if self.x {
            1int
        } else {
            0
        }) + (if self.y {
            2int
        } else {
            0
        }) + (if self.z {
            4int
        } else {
            0
        })) as u16
    }

    #[verifier::when_used_as_spec(spec_bits)]
    pub fn bits(self) -> (r: u16)
        ensures
            r == self.spec_bits(),
            r <= 7,
    {
        let mut b: u16 = 0;
        if self.x {
            b = b + 1;
        }
        if self.y {
            b = b + 2;
        }
        if self.z {
            b = b + 4;
        }
        b
    }
}

/// Each axis has its own enable bit: x is bit 0, y bit 1 and z bit 2.
pub proof fn lemma_axes_bits(axes: MotionAxes)
    ensures
        axes.spec_bits() < 8,
        (axes.spec_bits() % 2 == 1) == axes.x,
        ((axes.spec_bits() / 2) % 2 == 1) == axes.y,
        ((axes.spec_bits() / 4) % 2 == 1) == axes.z,
{
}

/// Position of the no-motion enables in `FEATURE_IO0`.
pub const NO_MOTION_SHIFT: u8 = 0;

/// Position of the any-motion enables in `FEATURE_IO0`.
pub const ANY_MOTION_SHIFT: u8 = 3;

/// `FEATURE_IO0` with the three enable bits at `shift` replaced by `axes`.
pub open spec fn spec_update_axes(current: u16, axes: MotionAxes, shift: u8) -> u16 {
    (current & !((0x07u16) << shift)) | (axes.spec_bits() << shift)
}

/// Replacing the enables of one detector sets exactly them and leaves every
/// other bit of `FEATURE_IO0` as it was.
pub proof fn lemma_update_axes(current: u16, axes: MotionAxes, shift: u8)
    requires
        shift <= 13,
    ensures
        spec_update_axes(current, axes, shift) & !((0x07u16) << shift) == current & !((0x07u16)
            << shift),
        (spec_update_axes(current, axes, shift) >> shift) & 0x07 == axes.spec_bits(),
{
    let b = axes.spec_bits();
    assert(b <= 7);
    assert(b <= 7 && shift <= 13 ==> ((current & !((0x07u16) << shift)) | (b << shift)) & !((
    0x07u16) << shift) == current & !((0x07u16) << shift) && (((current & !((0x07u16) << shift))
        | (b << shift)) >> shift) & 0x07 == b) by (bit_vector);
}

/// `FEATURE_IO0` with the enables at `shift` replaced by `axes`.
pub fn update_axes(current: u16, axes: MotionAxes, shift: u8) -> (r: u16)
    requires
        shift <= 13,
    ensures
        r == spec_update_axes(current, axes, shift),
{
    let mask: u16 = 0x07u16 << shift;
    (current & !mask) | (axes.bits() << shift)
}

} // verus!

//! Raw sensor samples, the FIFO configuration and the decoding of FIFO frames.
use crate::wire::{
    le_i16, le_u16, lemma_le_i16_roundtrip, lemma_le_u16_value, spec_hi, spec_le_i16, spec_le_u16,
    spec_lo,
};
use vstd::prelude::*;

verus! {

/// Errors of the driver. `Comm` carries an error of the bus.
#[derive(Debug, Clone, Copy, PartialEq, Eq)]
pub enum Error<E> {
    /// The bus reported an error
    Comm(E),
    /// The device reported an error after reset, or its chip id is not the
    /// BMI323's
    InvalidDevice,
    /// The device did not become ready in time
    Timeout,
    /// A configuration value does not fit its register field
    InvalidConfig,
    /// The FIFO holds less than one complete frame
    FifoEmpty,
}

/// Which motion sensor.
#[derive(Debug, Clone, Copy, PartialEq, Eq, Structural)]
pub enum SensorType {
    Accelerometer,
    Gyroscope,
}

/// One raw three-axis sample, in LSB.
#[derive(Debug, Clone, Copy, PartialEq, Eq, Structural)]
pub struct Sensor3DData {
    pub x: i16,
    pub y: i16,
    pub z: i16,
}

impl Default for Sensor3DData {
    fn default() -> (r: Self)
        ensures
            r == (Sensor3DData { x: 0, y: 0, z: 0 }),
    {
        Sensor3DData { x: 0, y: 0, z: 0 }
    }
}

/// The sample held by the six bytes of `data` starting at `at`: x, y and z,
/// each a signed little-endian word.
pub open spec fn spec_sensor3d_at(data: Seq<u8>, at: int) -> Sensor3DData {
    Sensor3DData {
        x: spec_le_i16(data[at], data[at + 1]) as i16,
        y: spec_le_i16(data[at + 2], data[at + 3]) as i16,
        z: spec_le_i16(data[at + 4], data[at + 5]) as i16,
    }
}

/// Six bytes written x, y, z, each low byte first, decode back to the sample.
pub proof fn lemma_sensor3d_roundtrip(s: Sensor3DData)
    ensures
        ({
            let x = #[verifier::truncate] (s.x as u16);
            let y = #[verifier::truncate] (s.y as u16);
            let z = #[verifier::truncate] (s.z as u16);
            spec_sensor3d_at(
                seq![spec_lo(x), spec_hi(x), spec_lo(y), spec_hi(y), spec_lo(z), spec_hi(z)],
                0,
            ) == s
        }),
{
    lemma_le_i16_roundtrip(s.x);
    lemma_le_i16_roundtrip(s.y);
    lemma_le_i16_roundtrip(s.z);
}

/// The sample held by the six bytes of `data` starting at `at`.
pub fn sensor3d_at(data: &[u8], at: usize) -> (r: Sensor3DData)
    requires
        at + 6 <= data@.len(),
    ensures
        r == spec_sensor3d_at(data@, at as int),
        r.x == spec_le_i16(data@[at as int], data@[at + 1]),
        r.y == spec_le_i16(data@[at + 2], data@[at + 3]),
        r.z == spec_le_i16(data@[at + 4], data@[at + 5]),
{
    Sensor3DData {
        x: le_i16(data[at], data[at + 1]),
        y: le_i16(data[at + 2], data[at + 3]),
        z: le_i16(data[at + 4], data[at + 5]),
    }
}

/// The sample held by the first six bytes of `data`.
pub fn get_sensor3d_data(data: &[u8]) -> (r: Sensor3DData)
    requires
        6 <= data@.len(),
    ensures
        r == spec_sensor3d_at(data@, 0),
{
    sensor3d_at(data, 0)
}

/// Which data the FIFO records, and its watermark in frames.
#[derive(Debug, Clone, Copy, PartialEq, Eq, Structural)]
pub struct FifoConfig {
    pub stop_on_full: bool,
    pub timestamp_enabled: bool,
    pub accel_enabled: bool,
    pub gyro_enabled: bool,
    pub temp_enabled: bool,
    pub watermark_level: Option<u16>,
}

impl Default for FifoConfig {
    fn default() -> (r: Self)
        ensures
            r == (FifoConfig {
                stop_on_full: false,
                timestamp_enabled: false,
                accel_enabled: false,
                gyro_enabled: false,
                temp_enabled: false,
                watermark_level: None,
            }),
    {
        FifoConfig {
            stop_on_full: false,
            timestamp_enabled: false,
            accel_enabled: false,
            gyro_enabled: false,
            temp_enabled: false,
            watermark_level: None,
        }
    }
}

impl FifoConfig {
    /// Words per FIFO frame: three for each enabled motion sensor, one for the
    /// temperature and one for the timestamp.
    pub open spec fn spec_message_len(&self) -> u16 {
        ((if self.accel_enabled {
            3int
        } else {
            0
        }) + (if self.gyro_enabled {
            3int
        } else {
            0
        }) + (if self.temp_enabled {
            1int
        } else {
            0
        }) + (if self.timestamp_enabled {
            1int
        } else {
            0
        })) as u16
    }

    /// The value of `FIFO_CONF`: stop-on-full in bit 0, then timestamp,
    /// accelerometer, gyroscope and temperature in bits 8, 9, 10 and 11.
    pub open spec fn spec_register_value(&self) -> u16 {
        ((if self.stop_on_full {
            0x0001int
        } else {
            0
        }) + (if self.timestamp_enabled {
            0x0100int
        } else {
            0
        }) + (if self.accel_enabled {
            0x0200int
        } else {
            0
        }) + (if self.gyro_enabled {
            0x0400int
        } else {
            0
        }) + (if self.temp_enabled {
            0x0800int
        } else {
            0
        })) as u16
    }

    /// Words per FIFO frame.
    #[verifier::when_used_as_spec(spec_message_len)]
    pub fn fifo_message_len(&self) -> (r: u16)
        ensures
            r == self.spec_message_len(),
            r <= 8,
    {
        let mut len: u16 = 0;
        if self.accel_enabled {
            len = len + 3;
        }
        if self.gyro_enabled {
            len = len + 3;
        }
        if self.temp_enabled {
            len = len + 1;
        }
        if self.timestamp_enabled {
            len = len + 1;
        }
        len
    }

    /// The value of `FIFO_CONF`.
    #[verifier::when_used_as_spec(spec_register_value)]
    pub fn to_register_value(&self) -> (r: u16)
        ensures
            r == self.spec_register_value(),
    {
        let mut v: u16 = 0;
        if self.stop_on_full {
            v = v + 0x0001;
        }
        if self.timestamp_enabled {
            v = v + 0x0100;
        }
        if self.accel_enabled {
            v = v + 0x0200;
        }
        if self.gyro_enabled {
            v = v + 0x0400;
        }
        if self.temp_enabled {
            v = v + 0x0800;
        }
        v
    }

    /// The watermark in words that setting this configuration writes: the
    /// watermark in frames times the frame length, at most 0x3FF.
    pub open spec fn spec_watermark_words(&self, frames: u16) -> u16 {
        let words = frames * self.spec_message_len();
        if words < 0x3FF {
            words as u16
        } else {
            0x3FF
        }
    }

    /// The watermark written is the watermark in frames times the frame
    /// length, capped at 0x3FF (the largest the 10-bit register holds).
    pub proof fn lemma_watermark_words(&self, frames: u16)
        ensures
            self.spec_watermark_words(frames) <= 0x3FF,
            frames * self.spec_message_len() <= 0x3FF ==> self.spec_watermark_words(frames)
                == frames * self.spec_message_len(),
            frames * self.spec_message_len() >= 0x3FF ==> self.spec_watermark_words(frames)
                == 0x3FF,
    {
    }

    /// Byte offset, in a FIFO frame, of the gyroscope sample.
    pub open spec fn spec_gyro_offset(&self) -> int {
        if self.accel_enabled {
            6
        } else {
            0
        }
    }

    /// Byte offset, in a FIFO frame, of the temperature word.
    pub open spec fn spec_temp_offset(&self) -> int {
        self.spec_gyro_offset() + if self.gyro_enabled {
            6int
        } else {
            0
        }
    }

    /// Byte offset, in a FIFO frame, of the timestamp word.
    pub open spec fn spec_timestamp_offset(&self) -> int {
        self.spec_temp_offset() + if self.temp_enabled {
            2int
        } else {
            0
        }
    }
}

/// Every flag of a FIFO configuration can be read back from its `FIFO_CONF`
/// value.
pub proof fn lemma_fifo_register_flags(c: FifoConfig)
    ensures
        (c.spec_register_value() & 0x0001 != 0) == c.stop_on_full,
        (c.spec_register_value() & 0x0100 != 0) == c.timestamp_enabled,
        (c.spec_register_value() & 0x0200 != 0) == c.accel_enabled,
        (c.spec_register_value() & 0x0400 != 0) == c.gyro_enabled,
        (c.spec_register_value() & 0x0800 != 0) == c.temp_enabled,
{
    let b0: u16 = if c.stop_on_full { 1 } else { 0 };
    let b1: u16 = if c.timestamp_enabled { 1 } else { 0 };
    let b2: u16 = if c.accel_enabled { 1 } else { 0 };
    let b3: u16 = if c.gyro_enabled { 1 } else { 0 };
    let b4: u16 = if c.temp_enabled { 1 } else { 0 };
    let v = c.spec_register_value();
    assert(v == b0 + 0x100 * b1 + 0x200 * b2 + 0x400 * b3 + 0x800 * b4);
    assert(b0 < 2 && b1 < 2 && b2 < 2 && b3 < 2 && b4 < 2 && v == b0 + 0x100 * b1 + 0x200 * b2
        + 0x400 * b3 + 0x800 * b4 ==> {
        &&& (v & 0x0001 != 0) == (b0 == 1)
        &&& (v & 0x0100 != 0) == (b1 == 1)
        &&& (v & 0x0200 != 0) == (b2 == 1)
        &&& (v & 0x0400 != 0) == (b3 == 1)
        &&& (v & 0x0800 != 0) == (b4 == 1)
    }) by (bit_vector);
}

/// Marks an accelerometer sample that the FIFO holds no data for.
pub const FIFO_ACCEL_INVALID: i16 = 0x7f01;

/// Marks a gyroscope sample that the FIFO holds no data for.
pub const FIFO_GYRO_INVALID: i16 = 0x7f02;

/// The contents of one FIFO frame, as raw values.
#[derive(Debug, Clone, Copy, PartialEq, Eq, Structural)]
pub struct FifoFrame {
    pub accel: Option<Sensor3DData>,
    pub gyro: Option<Sensor3DData>,
    pub temp: Option<u16>,
    pub timestamp: Option<u16>,
}

/// The frame that the bytes `data` hold under FIFO configuration `config`:
/// the enabled parts in the order accelerometer, gyroscope, temperature,
/// timestamp; a motion sample whose x value is the invalid marker is absent.
pub open spec fn spec_fifo_frame(config: FifoConfig, data: Seq<u8>) -> FifoFrame {
    let g = config.spec_gyro_offset();
    let t = config.spec_temp_offset();
    let ts = config.spec_timestamp_offset();
    FifoFrame {
        accel: if config.accel_enabled && spec_sensor3d_at(data, 0).x != FIFO_ACCEL_INVALID {
            Some(spec_sensor3d_at(data, 0))
        } else {
            None
        },
        gyro: if config.gyro_enabled && spec_sensor3d_at(data, g).x != FIFO_GYRO_INVALID {
            Some(spec_sensor3d_at(data, g))
        } else {
            None
        },
        temp: if config.temp_enabled {
            Some(spec_le_u16(data[t], data[t + 1]))
        } else {
            None
        },
        timestamp: if config.timestamp_enabled {
            Some(spec_le_u16(data[ts], data[ts + 1]))
        } else {
            None
        },
    }
}

/// The frame length in bytes covers every enabled part.
pub proof fn lemma_fifo_frame_len(config: FifoConfig)
    ensures
        config.spec_timestamp_offset() + (if config.timestamp_enabled {
            2int
        } else {
            0
        }) == 2 * config.spec_message_len(),
{
}

/// Where the parts of a FIFO frame stand: the accelerometer sample at byte 0,
/// the gyroscope sample after it, the temperature after that and the
/// timestamp last, each part present only where enabled. A motion sample that
/// holds the invalid marker is reported absent but still takes its six bytes,
/// so the words after it are read at the same offsets whatever it holds.
pub proof fn lemma_fifo_frame_layout(config: FifoConfig, data: Seq<u8>)
    requires
        data.len() >= 2 * config.spec_message_len(),
    ensures
        ({
            let f = spec_fifo_frame(config, data);
            let g: int = if config.accel_enabled { 6 } else { 0 };
            let t: int = g + if config.gyro_enabled { 6int } else { 0 };
            let ts: int = t + if config.temp_enabled { 2int } else { 0 };
            &&& f.accel == if config.accel_enabled && (data[0] != 0x01 || data[1] != 0x7F) {
                Some(spec_sensor3d_at(data, 0))
            } else {
                None
            }
            &&& f.gyro == if config.gyro_enabled && (data[g] != 0x02 || data[g + 1] != 0x7F) {
                Some(spec_sensor3d_at(data, g))
            } else {
                None
            }
            &&& f.temp == if config.temp_enabled {
                Some((data[t] + 256 * data[t + 1]) as u16)
            } else {
                None::<u16>
            }
            &&& f.timestamp == if config.timestamp_enabled {
                Some((data[ts] + 256 * data[ts + 1]) as u16)
            } else {
                None::<u16>
            }
        }),
{
    lemma_fifo_frame_len(config);
    let g: int = if config.accel_enabled { 6 } else { 0 };
    let t: int = g + if config.gyro_enabled { 6int } else { 0 };
    let ts: int = t + if config.temp_enabled { 2int } else { 0 };
    if config.accel_enabled {
        lemma_le_u16_value(data[0], data[1]);
    }
    if config.gyro_enabled {
        lemma_le_u16_value(data[g], data[g + 1]);
    }
    if config.temp_enabled {
        lemma_le_u16_value(data[t], data[t + 1]);
    }
    if config.timestamp_enabled {
        lemma_le_u16_value(data[ts], data[ts + 1]);
    }
}

/// Decodes one FIFO frame of `data` under FIFO configuration `config`.
pub fn parse_fifo_frame(config: &FifoConfig, data: &[u8]) -> (r: FifoFrame)
    requires
        data@.len() >= 2 * config.spec_message_len(),
    ensures
        r == spec_fifo_frame(*config, data@),
        ({
            let g: int = if config.accel_enabled { 6 } else { 0 };
            let t: int = g + if config.gyro_enabled { 6int } else { 0 };
            let ts: int = t + if config.temp_enabled { 2int } else { 0 };
            &&& r.temp == if config.temp_enabled {
                Some((data@[t] + 256 * data@[t + 1]) as u16)
            } else {
                None::<u16>
            }
            &&& r.timestamp == if config.timestamp_enabled {
                Some((data@[ts] + 256 * data@[ts + 1]) as u16)
            } else {
                None::<u16>
            }
        }),
{
    proof {
        lemma_fifo_frame_len(*config);
        lemma_fifo_frame_layout(*config, data@);
    }
    let mut index: usize = 0;
    let mut frame = FifoFrame { accel: None, gyro: None, temp: None, timestamp: None };
    if config.accel_enabled {
        let sample = sensor3d_at(data, index);
        if sample.x != FIFO_ACCEL_INVALID {
            frame.accel = Some(sample);
        }
        index = index + 6;
    }
    assert(index == config.spec_gyro_offset());
    if config.gyro_enabled {
        let sample = sensor3d_at(data, index);
        if sample.x != FIFO_GYRO_INVALID {
            frame.gyro = Some(sample);
        }
        index = index + 6;
    }
    assert(index == config.spec_temp_offset());
    if config.temp_enabled {
        frame.temp = Some(le_u16(data[index], data[index + 1]));
        index = index + 2;
    }
    assert(index == config.spec_timestamp_offset());
    if config.timestamp_enabled {
        frame.timestamp = Some(le_u16(data[index], data[index + 1]));
    }
    frame
}

} // verus!

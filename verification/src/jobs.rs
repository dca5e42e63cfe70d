//! The operations of the driver after their first step: each job says which
//! transfer it waits for, and its `resume` decides, from what that transfer
//! read, what happens next.
use crate::device::{spec_fifo_config_start, Bmi323, DriverState};
use crate::interrupt::InterruptSource;
use crate::motion::{spec_update_axes, update_axes, MotionAxes};
use crate::registers::Register;
use crate::sensor::{
    get_sensor3d_data, parse_fifo_frame, spec_fifo_frame, spec_sensor3d_at, Error, FifoConfig,
    FifoFrame, Sensor3DData, SensorType,
};
use crate::transfer::{Command, CommandView, Step, StepView};
use crate::types::{AccelerometerRange, GyroscopeRange};
use crate::wire::{
    le_u16, le_u32, lemma_le_u16_roundtrip, lemma_le_u16_value, spec_hi, spec_le_u16,
    spec_le_u32, spec_lo, spec_write_frame, write_frame,
};
use vstd::prelude::*;

verus! {

/// The chip id read during initialisation.
pub open spec fn spec_chip_id_ok(id: u8) -> bool {
    id == Register::BMI323_CHIP_ID
}

/// Whether the error register reports a fatal error (bit 0).
pub open spec fn spec_fatal_error(err: u8) -> bool {
    err & 0x01 != 0
}

/// Initialisation after its first write.
#[derive(Debug, Clone, Copy, PartialEq, Eq)]
pub enum InitJob {
    /// The soft reset was sent
    AfterReset,
    /// The device had time to reset
    AfterDelay,
    /// The error register was read
    AfterErrorRead,
    /// The chip id was read
    AfterChipIdRead,
}

impl InitJob {
    /// Every initialisation job is well formed.
    pub open spec fn wf(self) -> bool {
        true
    }

    /// How many bytes the transfer that this job waits for reads.
    pub open spec fn spec_reply_len(self) -> nat {
        match self {
            InitJob::AfterErrorRead | InitJob::AfterChipIdRead => 1,
            _ => 0,
        }
    }

    /// What follows, given the bytes that the awaited transfer read.
    pub open spec fn spec_resume<E>(self, reply: Seq<u8>) -> StepView<InitJob, (), E> {
        match self {
            InitJob::AfterReset => StepView::Next(InitJob::AfterDelay, CommandView::DelayUs(2000)),
            InitJob::AfterDelay => StepView::Next(
                InitJob::AfterErrorRead,
                CommandView::Read { reg: Register::ERR_REG, len: 1 },
            ),
            InitJob::AfterErrorRead => if spec_fatal_error(reply[0]) {
                StepView::Done(Err(Error::InvalidDevice))
            } else {
                StepView::Next(
                    InitJob::AfterChipIdRead,
                    CommandView::Read { reg: Register::CHIPID, len: 1 },
                )
            },
            InitJob::AfterChipIdRead => if spec_chip_id_ok(reply[0]) {
                StepView::Done(Ok(()))
            } else {
                StepView::Done(Err(Error::InvalidDevice))
            },
        }
    }

    pub fn resume<E>(self, reply: &[u8]) -> (r: Step<InitJob, (), E>)
        requires
            self.wf(),
            reply@.len() == self.spec_reply_len(),
        ensures
            r matches Step::Next(job, command) ==> command@.reply_len() == job.spec_reply_len()
                && job.wf(),
            r@ == self.spec_resume::<E>(reply@),
    {
        match self {
            InitJob::AfterReset => Step::Next(InitJob::AfterDelay, Command::DelayUs(2000)),
            InitJob::AfterDelay => Step::Next(
                InitJob::AfterErrorRead,
                Command::Read { reg: Register::ERR_REG, len: 1 },
            ),
            InitJob::AfterErrorRead => {
                if reply[0] & 0x01 != 0 {
                    Step::Done(Err(Error::InvalidDevice))
                } else {
                    Step::Next(
                        InitJob::AfterChipIdRead,
                        Command::Read { reg: Register::CHIPID, len: 1 },
                    )
                }
            },
            InitJob::AfterChipIdRead => {
                if reply[0] == Register::BMI323_CHIP_ID {
                    Step::Done(Ok(()))
                } else {
                    Step::Done(Err(Error::InvalidDevice))
                }
            },
        }
    }
}

/// The frames of a list of frames, as byte sequences.
pub open spec fn spec_frames_view(frames: Seq<Vec<u8>>) -> Seq<Seq<u8>> {
    frames.map_values(|f: Vec<u8>| f@)
}

/// A series of register writes, sent in order.
#[derive(Debug)]
pub struct WriteJob {
    remaining: Vec<Vec<u8>>,
}

/// Whether `step` is the step of a write series that still has `frames` to
/// send: the first of them next, or success when none is left.
pub open spec fn spec_write_series_step<E>(
    step: StepView<WriteJob, (), E>,
    frames: Seq<Seq<u8>>,
) -> bool {
    match step {
        StepView::Next(job, command) => {
            &&& frames.len() > 0
            &&& command == CommandView::Write(frames[0])
            &&& job.spec_remaining() == frames.drop_first()
        },
        StepView::Done(result) => frames.len() == 0 && result == Ok::<(), Error<E>>(()),
    }
}

impl WriteJob {
    /// Every write series is well formed.
    pub open spec fn wf(&self) -> bool {
        true
    }

    /// A write reads nothing.
    pub open spec fn spec_reply_len(&self) -> nat {
        0
    }

    /// The frames still to send, in order.
    pub closed spec fn spec_remaining(&self) -> Seq<Seq<u8>> {
        spec_frames_view(self.remaining@)
    }

    /// Sends `frames` in order.
    pub fn start<E>(frames: Vec<Vec<u8>>) -> (r: Step<WriteJob, (), E>)
        ensures
            r matches Step::Next(job, command) ==> command@.reply_len() == job.spec_reply_len()
                && job.wf(),
            spec_write_series_step(r@, spec_frames_view(frames@)),
    {
        let job = WriteJob { remaining: frames };
        job.next()
    }

    fn next<E>(self) -> (r: Step<WriteJob, (), E>)
        ensures
            r matches Step::Next(job, command) ==> command@.reply_len() == job.spec_reply_len()
                && job.wf(),
            spec_write_series_step(r@, self.spec_remaining()),
    {
        let mut remaining = self.remaining;
        if remaining.len() == 0 {
            Step::Done(Ok(()))
        } else {
            let ghost old_remaining = remaining@;
            let first = remaining.remove(0);
            let job = WriteJob { remaining };
            assert(spec_frames_view(old_remaining).drop_first() =~= job.spec_remaining());
            Step::Next(job, Command::Write(first))
        }
    }

    /// Continues after the previous frame was sent.
    pub fn resume<E>(self, reply: &[u8]) -> (r: Step<WriteJob, (), E>)
        requires
            self.wf(),
            reply@.len() == self.spec_reply_len(),
        ensures
            r matches Step::Next(job, command) ==> command@.reply_len() == job.spec_reply_len()
                && job.wf(),
            spec_write_series_step(r@, self.spec_remaining()),
    {
        self.next()
    }
}

/// Polls of the feature engine status before giving up.
pub const FEATURE_ENGINE_POLLS: u8 = 10;

/// Enabling the feature engine after its first write.
#[derive(Debug, Clone, Copy, PartialEq, Eq)]
pub enum FeatureEngineJob {
    /// The initialisation value was written to `FEATURE_IO2`
    AfterInit,
    /// The I/O synchronisation was requested
    AfterSync,
    /// The engine was switched on
    AfterEnable,
    /// The wait before poll number `attempt` (counted from 0) passed
    AfterDelay { attempt: u8 },
    /// `FEATURE_IO1` was read by poll number `attempt`
    AfterPoll { attempt: u8 },
}

impl FeatureEngineJob {
    pub open spec fn wf(self) -> bool {
        match self {
            FeatureEngineJob::AfterDelay { attempt } => attempt < FEATURE_ENGINE_POLLS,
            FeatureEngineJob::AfterPoll { attempt } => attempt < FEATURE_ENGINE_POLLS,
            _ => true,
        }
    }

    pub open spec fn spec_reply_len(self) -> nat {
        match self {
            FeatureEngineJob::AfterPoll { .. } => 2,
            _ => 0,
        }
    }

    pub open spec fn spec_resume<E>(self, reply: Seq<u8>) -> StepView<FeatureEngineJob, (), E> {
        match self {
            FeatureEngineJob::AfterInit => StepView::Next(
                FeatureEngineJob::AfterSync,
                CommandView::Write(
                    spec_write_frame(Register::FEATURE_IO_STATUS, Register::FEATURE_IO_SYNC),
                ),
            ),
            FeatureEngineJob::AfterSync => StepView::Next(
                FeatureEngineJob::AfterEnable,
                CommandView::Write(
                    spec_write_frame(Register::FEATURE_CTRL, Register::FEATURE_ENGINE_ENABLED),
                ),
            ),
            FeatureEngineJob::AfterEnable => StepView::Next(
                FeatureEngineJob::AfterDelay { attempt: 0 },
                CommandView::DelayMs(10),
            ),
            FeatureEngineJob::AfterDelay { attempt } => StepView::Next(
                FeatureEngineJob::AfterPoll { attempt },
                CommandView::Read { reg: Register::FEATURE_IO1, len: 2 },
            ),
            FeatureEngineJob::AfterPoll { attempt } => if spec_le_u16(reply[0], reply[1]) & 1 != 0 {
                StepView::Done(Ok(()))
            } else if attempt + 1 < FEATURE_ENGINE_POLLS {
                StepView::Next(
                    FeatureEngineJob::AfterDelay { attempt: (attempt + 1) as u8 },
                    CommandView::DelayMs(10),
                )
            } else {
                StepView::Done(Err(Error::Timeout))
            },
        }
    }

    pub fn resume<E>(self, reply: &[u8]) -> (r: Step<FeatureEngineJob, (), E>)
        requires
            self.wf(),
            reply@.len() == self.spec_reply_len(),
        ensures
            r@ == self.spec_resume::<E>(reply@),
            r matches Step::Next(job, command) ==> command@.reply_len() == job.spec_reply_len()
                && job.wf(),
    {
        match self {
            FeatureEngineJob::AfterInit => Step::Next(
                FeatureEngineJob::AfterSync,
                Command::Write(write_frame(Register::FEATURE_IO_STATUS, Register::FEATURE_IO_SYNC)),
            ),
            FeatureEngineJob::AfterSync => Step::Next(
                FeatureEngineJob::AfterEnable,
                Command::Write(
                    write_frame(Register::FEATURE_CTRL, Register::FEATURE_ENGINE_ENABLED),
                ),
            ),
            FeatureEngineJob::AfterEnable => Step::Next(
                FeatureEngineJob::AfterDelay { attempt: 0 },
                Command::DelayMs(10),
            ),
            FeatureEngineJob::AfterDelay { attempt } => Step::Next(
                FeatureEngineJob::AfterPoll { attempt },
                Command::Read { reg: Register::FEATURE_IO1, len: 2 },
            ),
            FeatureEngineJob::AfterPoll { attempt } => {
                if le_u16(reply[0], reply[1]) & 1 != 0 {
                    Step::Done(Ok(()))
                } else if attempt + 1 < FEATURE_ENGINE_POLLS {
                    Step::Next(
                        FeatureEngineJob::AfterDelay { attempt: attempt + 1 },
                        Command::DelayMs(10),
                    )
                } else {
                    Step::Done(Err(Error::Timeout))
                }
            },
        }
    }
}

/// Delays of 1 ms that waiting for data allows before it gives up.
pub const DATA_READY_MAX_RETRIES: u16 = 1200;

/// Whether status register value `status` reports new data of `sensor`:
/// bit 7 for the accelerometer, bit 6 for the gyroscope.
pub open spec fn spec_data_ready(sensor: SensorType, status: u8) -> bool {
    match sensor {
        SensorType::Accelerometer => status & 0x80 != 0,
        SensorType::Gyroscope => status & 0x40 != 0,
    }
}

/// Readiness depends only on the sensor's own bit of the status register:
/// bit 7 (`drdy_acc`) for the accelerometer, bit 6 (`drdy_gyr`) for the
/// gyroscope, whatever the other bits hold.
pub proof fn lemma_data_ready_bits(status: u8)
    ensures
        spec_data_ready(SensorType::Accelerometer, status) == (status & 0x80 != 0),
        spec_data_ready(SensorType::Gyroscope, status) == (status & 0x40 != 0),
        spec_data_ready(SensorType::Accelerometer, status) == spec_data_ready(
            SensorType::Accelerometer,
            status | 0x7F,
        ),
        spec_data_ready(SensorType::Gyroscope, status) == spec_data_ready(
            SensorType::Gyroscope,
            status | 0xBF,
        ),
{
    assert((status & 0x80 != 0) == ((status | 0x7F) & 0x80 != 0)) by (bit_vector);
    assert((status & 0x40 != 0) == ((status | 0xBF) & 0x40 != 0)) by (bit_vector);
}

/// Whether status register value `status` reports new data of `sensor`.
pub fn is_data_ready(sensor: SensorType, status: u8) -> (r: bool)
    ensures
        r == spec_data_ready(sensor, status),
        sensor == SensorType::Accelerometer ==> r == (status & 0x80 != 0),
        sensor == SensorType::Gyroscope ==> r == (status & 0x40 != 0),
{
    match sensor {
        SensorType::Accelerometer => (status & 0x80) != 0,
        SensorType::Gyroscope => (status & 0x40) != 0,
    }
}

/// Waiting for new data of a sensor.
#[derive(Debug, Clone, Copy, PartialEq, Eq)]
pub enum DataReadyJob {
    /// The status register was read after `retries` delays
    AfterStatus { sensor: SensorType, retries: u16 },
    /// Delay number `retries + 1` passed
    AfterDelay { sensor: SensorType, retries: u16 },
}

impl DataReadyJob {
    pub open spec fn wf(self) -> bool {
        match self {
            DataReadyJob::AfterStatus { retries, .. } => retries <= DATA_READY_MAX_RETRIES,
            DataReadyJob::AfterDelay { retries, .. } => retries < DATA_READY_MAX_RETRIES,
        }
    }

    pub open spec fn spec_reply_len(self) -> nat {
        match self {
            DataReadyJob::AfterStatus { .. } => 1,
            DataReadyJob::AfterDelay { .. } => 0,
        }
    }

    /// The first step of waiting for `sensor`: read the status register.
    pub open spec fn spec_start<E>(sensor: SensorType) -> StepView<DataReadyJob, (), E> {
        StepView::Next(
            DataReadyJob::AfterStatus { sensor, retries: 0 },
            CommandView::Read { reg: Register::STATUS, len: 1 },
        )
    }

    pub open spec fn spec_resume<E>(self, reply: Seq<u8>) -> StepView<DataReadyJob, (), E> {
        match self {
            DataReadyJob::AfterStatus { sensor, retries } => if spec_data_ready(sensor, reply[0]) {
                StepView::Done(Ok(()))
            } else if retries >= DATA_READY_MAX_RETRIES {
                StepView::Done(Err(Error::Timeout))
            } else {
                StepView::Next(
                    DataReadyJob::AfterDelay { sensor, retries },
                    CommandView::DelayMs(1),
                )
            },
            DataReadyJob::AfterDelay { sensor, retries } => StepView::Next(
                DataReadyJob::AfterStatus { sensor, retries: (retries + 1) as u16 },
                CommandView::Read { reg: Register::STATUS, len: 1 },
            ),
        }
    }

    pub fn start<E>(sensor: SensorType) -> (r: Step<DataReadyJob, (), E>)
        ensures
            r@ == Self::spec_start::<E>(sensor),
            r matches Step::Next(job, command) ==> command@.reply_len() == job.spec_reply_len()
                && job.wf(),
    {
        Step::Next(
            DataReadyJob::AfterStatus { sensor, retries: 0 },
            Command::Read { reg: Register::STATUS, len: 1 },
        )
    }

    pub fn resume<E>(self, reply: &[u8]) -> (r: Step<DataReadyJob, (), E>)
        requires
            self.wf(),
            reply@.len() == self.spec_reply_len(),
        ensures
            r@ == self.spec_resume::<E>(reply@),
            r matches Step::Next(job, command) ==> command@.reply_len() == job.spec_reply_len()
                && job.wf(),
    {
        match self {
            DataReadyJob::AfterStatus { sensor, retries } => {
                if is_data_ready(sensor, reply[0]) {
                    Step::Done(Ok(()))
                } else if retries >= DATA_READY_MAX_RETRIES {
                    Step::Done(Err(Error::Timeout))
                } else {
                    Step::Next(DataReadyJob::AfterDelay { sensor, retries }, Command::DelayMs(1))
                }
            },
            DataReadyJob::AfterDelay { sensor, retries } => Step::Next(
                DataReadyJob::AfterStatus { sensor, retries: retries + 1 },
                Command::Read { reg: Register::STATUS, len: 1 },
            ),
        }
    }
}

/// Lifts a step of waiting for data into a step of configuring a sensor.
pub open spec fn spec_waiting<E>(step: StepView<DataReadyJob, (), E>) -> StepView<
    SensorConfigJob,
    (),
    E,
> {
    match step {
        StepView::Next(job, command) => StepView::Next(SensorConfigJob::Waiting(job), command),
        StepView::Done(result) => StepView::Done(result),
    }
}

fn waiting<E>(step: Step<DataReadyJob, (), E>) -> (r: Step<SensorConfigJob, (), E>)
    requires
        step matches Step::Next(job, command) ==> command@.reply_len() == job.spec_reply_len()
            && job.wf(),
    ensures
        r matches Step::Next(job, command) ==> command@.reply_len() == job.spec_reply_len()
            && job.wf(),
        r@ == spec_waiting(step@),
{
    match step {
        Step::Next(job, command) => Step::Next(SensorConfigJob::Waiting(job), command),
        Step::Done(result) => Step::Done(result),
    }
}

/// Configuring the accelerometer or the gyroscope after the configuration
/// register was written.
#[derive(Debug, Clone, Copy, PartialEq, Eq)]
pub enum SensorConfigJob {
    /// `ACC_CONF` was written with range `accel_range`; `wait` tells whether the
    /// accelerometer is on, so that its first data must be waited for
    AfterAccelWrite { accel_range: AccelerometerRange, wait: bool },
    /// `GYR_CONF` was written with range `gyro_range`; `wait` as above
    AfterGyroWrite { gyro_range: GyroscopeRange, wait: bool },
    /// Waiting for the first data
    Waiting(DataReadyJob),
}

impl SensorConfigJob {
    pub open spec fn wf(self) -> bool {
        match self {
            SensorConfigJob::Waiting(job) => job.wf(),
            _ => true,
        }
    }

    pub open spec fn spec_reply_len(self) -> nat {
        match self {
            SensorConfigJob::Waiting(job) => job.spec_reply_len(),
            _ => 0,
        }
    }

    pub open spec fn spec_resume<E>(self, reply: Seq<u8>) -> StepView<SensorConfigJob, (), E> {
        match self {
            SensorConfigJob::AfterAccelWrite { accel_range: range, wait } => if wait {
                spec_waiting(DataReadyJob::spec_start(SensorType::Accelerometer))
            } else {
                StepView::Done(Ok(()))
            },
            SensorConfigJob::AfterGyroWrite { gyro_range: range, wait } => if wait {
                spec_waiting(DataReadyJob::spec_start(SensorType::Gyroscope))
            } else {
                StepView::Done(Ok(()))
            },
            SensorConfigJob::Waiting(job) => spec_waiting(job.spec_resume(reply)),
        }
    }

    /// The driver state once this job resumed from `state`: the range
    /// written is recorded.
    pub open spec fn spec_state_after(self, state: DriverState) -> DriverState {
        match self {
            SensorConfigJob::AfterAccelWrite { accel_range, .. } => DriverState {
                accel_range,
                ..state
            },
            SensorConfigJob::AfterGyroWrite { gyro_range, .. } => DriverState {
                gyro_range,
                ..state
            },
            SensorConfigJob::Waiting(_) => state,
        }
    }

    /// Records the new range once the configuration register was written,
    /// then waits for data where the sensor is on.
    pub fn resume<DI, D, E>(self, dev: &mut Bmi323<DI, D>, reply: &[u8]) -> (r: Step<
        SensorConfigJob,
        (),
        E,
    >)
        requires
            self.wf(),
            old(dev).wf(),
            reply@.len() == self.spec_reply_len(),
        ensures
            r@ == self.spec_resume::<E>(reply@),
            r matches Step::Next(job, command) ==> command@.reply_len() == job.spec_reply_len()
                && job.wf(),
            final(dev).wf(),
            final(dev).spec_iface() == old(dev).spec_iface(),
            final(dev).spec_delay() == old(dev).spec_delay(),
            final(dev).state() == self.spec_state_after(old(dev).state()),
    {
        match self {
            SensorConfigJob::AfterAccelWrite { accel_range: range, wait } => {
                dev.record_accel_range(range);
                if wait {
                    waiting(DataReadyJob::start(SensorType::Accelerometer))
                } else {
                    Step::Done(Ok(()))
                }
            },
            SensorConfigJob::AfterGyroWrite { gyro_range: range, wait } => {
                dev.record_gyro_range(range);
                if wait {
                    waiting(DataReadyJob::start(SensorType::Gyroscope))
                } else {
                    Step::Done(Ok(()))
                }
            },
            SensorConfigJob::Waiting(job) => waiting(job.resume(reply)),
        }
    }
}

/// Reading a three-axis sample: waits for the six data bytes.
#[derive(Debug, Clone, Copy, PartialEq, Eq)]
pub struct SensorReadJob;

impl SensorReadJob {
    /// Every such job is well formed.
    pub open spec fn wf(self) -> bool {
        true
    }

    /// The bytes read.
    pub open spec fn spec_reply_len(self) -> nat {
        6
    }

    /// The sample that the six bytes read hold.
    pub fn resume<E>(self, reply: &[u8]) -> (r: Step<SensorReadJob, Sensor3DData, E>)
        requires
            self.wf(),
            reply@.len() == self.spec_reply_len(),
        ensures
            r matches Step::Next(job, command) ==> command@.reply_len() == job.spec_reply_len()
                && job.wf(),
            r@ == StepView::<SensorReadJob, Sensor3DData, E>::Done(
                Ok(spec_sensor3d_at(reply@, 0)),
            ),
    {
        Step::Done(Ok(get_sensor3d_data(reply)))
    }
}

/// Reading the sensor time: waits for its four bytes.
#[derive(Debug, Clone, Copy, PartialEq, Eq)]
pub struct TimestampJob;

impl TimestampJob {
    /// Every such job is well formed.
    pub open spec fn wf(self) -> bool {
        true
    }

    /// The bytes read.
    pub open spec fn spec_reply_len(self) -> nat {
        4
    }

    /// The little-endian time that the four bytes read hold.
    pub fn resume<E>(self, reply: &[u8]) -> (r: Step<TimestampJob, u32, E>)
        requires
            self.wf(),
            reply@.len() == self.spec_reply_len(),
        ensures
            r matches Step::Next(job, command) ==> command@.reply_len() == job.spec_reply_len()
                && job.wf(),
            r@ == StepView::<TimestampJob, u32, E>::Done(
                Ok(spec_le_u32(reply@[0], reply@[1], reply@[2], reply@[3]) as u32),
            ),
    {
        Step::Done(Ok(le_u32(reply[0], reply[1], reply[2], reply[3])))
    }
}

/// Reading an interrupt status register: waits for its two bytes.
#[derive(Debug, Clone, Copy, PartialEq, Eq)]
pub struct IntStatusJob;

impl IntStatusJob {
    /// Every such job is well formed.
    pub open spec fn wf(self) -> bool {
        true
    }

    /// The bytes read.
    pub open spec fn spec_reply_len(self) -> nat {
        2
    }

    /// The flags of the status word read.
    pub fn resume<E>(self, reply: &[u8]) -> (r: Step<IntStatusJob, InterruptSource, E>)
        requires
            self.wf(),
            reply@.len() == self.spec_reply_len(),
        ensures
            r matches Step::Next(job, command) ==> command@.reply_len() == job.spec_reply_len()
                && job.wf(),
            r@ == StepView::<IntStatusJob, InterruptSource, E>::Done(
                Ok(InterruptSource::spec_from_status(spec_le_u16(reply@[0], reply@[1]))),
            ),
    {
        Step::Done(Ok(InterruptSource::from_status(le_u16(reply[0], reply[1]))))
    }
}

/// Reading one 16-bit register: waits for its two bytes.
#[derive(Debug, Clone, Copy, PartialEq, Eq)]
pub struct WordReadJob;

impl WordReadJob {
    /// Every such job is well formed.
    pub open spec fn wf(self) -> bool {
        true
    }

    /// The bytes read.
    pub open spec fn spec_reply_len(self) -> nat {
        2
    }

    /// The little-endian word read.
    pub fn resume<E>(self, reply: &[u8]) -> (r: Step<WordReadJob, u16, E>)
        requires
            self.wf(),
            reply@.len() == self.spec_reply_len(),
        ensures
            r matches Step::Next(job, command) ==> command@.reply_len() == job.spec_reply_len()
                && job.wf(),
            r@ == StepView::<WordReadJob, u16, E>::Done(Ok(spec_le_u16(reply@[0], reply@[1]))),
    {
        Step::Done(Ok(le_u16(reply[0], reply[1])))
    }
}

/// Counting the frames in the FIFO: waits for the fill level, in words.
#[derive(Debug, Clone, Copy, PartialEq, Eq)]
pub struct FifoCountJob {
    /// Words per frame
    pub message_len: u16,
}

impl FifoCountJob {
    /// The frame length is not zero.
    pub open spec fn wf(self) -> bool {
        self.message_len != 0
    }

    /// The fill level is two bytes.
    pub open spec fn spec_reply_len(self) -> nat {
        2
    }

    /// The number of complete frames: the fill level divided by the frame
    /// length, rounded down.
    pub fn resume<E>(self, reply: &[u8]) -> (r: Step<FifoCountJob, u16, E>)
        requires
            self.wf(),
            reply@.len() == self.spec_reply_len(),
        ensures
            r matches Step::Next(job, command) ==> command@.reply_len() == job.spec_reply_len()
                && job.wf(),
            r@ == StepView::<FifoCountJob, u16, E>::Done(
                Ok((spec_le_u16(reply@[0], reply@[1]) / self.message_len) as u16),
            ),
            r matches Step::Done(Ok(count)) && count * self.message_len <= reply@[0] + 256
                * reply@[1] < (count + 1) * self.message_len,
    {
        proof {
            lemma_le_u16_value(reply@[0], reply@[1]);
            let fill = spec_le_u16(reply@[0], reply@[1]) as int;
            let n = self.message_len as int;
            let q = fill / n;
            assert(q * n <= fill < (q + 1) * n) by (nonlinear_arith)
                requires
                    n > 0,
                    q == fill / n,
                    fill >= 0,
            ;
        }
        Step::Done(Ok(le_u16(reply[0], reply[1]) / self.message_len))
    }
}

/// Reading one FIFO frame.
#[derive(Debug, Clone, Copy, PartialEq, Eq)]
pub enum FifoEntryJob {
    /// The fill level was read
    AfterFillRead { config: FifoConfig },
    /// The frame was read
    AfterDataRead { config: FifoConfig },
}

impl FifoEntryJob {
    /// Every FIFO entry job is well formed.
    pub open spec fn wf(self) -> bool {
        true
    }

    pub open spec fn spec_reply_len(self) -> nat {
        match self {
            FifoEntryJob::AfterFillRead { .. } => 2,
            FifoEntryJob::AfterDataRead { config } => (2 * config.spec_message_len()) as nat,
        }
    }

    pub open spec fn spec_resume<E>(self, reply: Seq<u8>) -> StepView<FifoEntryJob, FifoFrame, E> {
        match self {
            FifoEntryJob::AfterFillRead { config } => if config.spec_message_len() > spec_le_u16(
                reply[0],
                reply[1],
            ) {
                StepView::Done(Err(Error::FifoEmpty))
            } else {
                StepView::Next(
                    FifoEntryJob::AfterDataRead { config },
                    CommandView::Read {
                        reg: Register::FIFO_DATA,
                        len: (2 * config.spec_message_len()) as nat,
                    },
                )
            },
            FifoEntryJob::AfterDataRead { config } => StepView::Done(
                Ok(spec_fifo_frame(config, reply)),
            ),
        }
    }

    /// Fails with `FifoEmpty` when the FIFO holds less than a frame, else
    /// reads one frame and decodes it.
    pub fn resume<E>(self, reply: &[u8]) -> (r: Step<FifoEntryJob, FifoFrame, E>)
        requires
            self.wf(),
            reply@.len() == self.spec_reply_len(),
        ensures
            r matches Step::Next(job, command) ==> command@.reply_len() == job.spec_reply_len()
                && job.wf(),
            r@ == self.spec_resume::<E>(reply@),
    {
        match self {
            FifoEntryJob::AfterFillRead { config } => {
                let len = config.fifo_message_len();
                if len > le_u16(reply[0], reply[1]) {
                    Step::Done(Err(Error::FifoEmpty))
                } else {
                    Step::Next(
                        FifoEntryJob::AfterDataRead { config },
                        Command::Read { reg: Register::FIFO_DATA, len: 2 * len as usize },
                    )
                }
            },
            FifoEntryJob::AfterDataRead { config } => Step::Done(
                Ok(parse_fifo_frame(&config, reply)),
            ),
        }
    }
}

/// Reading a FIFO entry goes on to read the frame exactly when the fill level
/// read covers a whole frame, and then reads twice the frame length in bytes;
/// otherwise it fails with `FifoEmpty`.
pub proof fn lemma_fifo_entry_needs_full_frame<E>(config: FifoConfig, lo: u8, hi: u8)
    ensures
        ({
            let fill = lo + 256 * hi;
            let len = config.spec_message_len();
            let step = FifoEntryJob::AfterFillRead { config }.spec_resume::<E>(seq![lo, hi]);
            &&& fill >= len ==> step == StepView::<FifoEntryJob, FifoFrame, E>::Next(
                FifoEntryJob::AfterDataRead { config },
                CommandView::Read { reg: Register::FIFO_DATA, len: (2 * len) as nat },
            )
            &&& fill < len ==> step == StepView::<FifoEntryJob, FifoFrame, E>::Done(
                Err(Error::FifoEmpty),
            )
        }),
{
    lemma_le_u16_value(lo, hi);
}

/// The watermark in words written for a watermark of `frames` frames of
/// `message_len` words: their product, at most 0x3FF.
pub fn watermark_words(frames: u16, message_len: u16) -> (r: u16)
    requires
        frames * message_len <= u16::MAX,
    ensures
        r == (if frames * message_len < 0x3FF {
            frames * message_len
        } else {
            0x3FF
        }),
{
    let words = frames * message_len;
    if words < 0x3FF {
        words
    } else {
        0x3FF
    }
}

/// Whether the watermark of `config`, in words, fits 16 bits.
pub open spec fn spec_watermark_fits(config: FifoConfig) -> bool {
    config.watermark_level matches Some(w) ==> w * config.spec_message_len() <= u16::MAX
}

/// Writing a new FIFO configuration, after `FIFO_CONF` was written.
#[derive(Debug, Clone, Copy, PartialEq, Eq)]
pub enum FifoConfigJob {
    /// `FIFO_CONF` was written
    AfterConfWrite { config: FifoConfig },
    /// `FIFO_WATERMARK` was written
    AfterWatermarkWrite { config: FifoConfig },
}

impl FifoConfigJob {
    pub open spec fn wf(self) -> bool {
        match self {
            FifoConfigJob::AfterConfWrite { config } => spec_watermark_fits(config),
            FifoConfigJob::AfterWatermarkWrite { .. } => true,
        }
    }

    /// A write reads nothing.
    pub open spec fn spec_reply_len(self) -> nat {
        0
    }

    /// The configuration being written.
    pub open spec fn spec_config(self) -> FifoConfig {
        match self {
            FifoConfigJob::AfterConfWrite { config } => config,
            FifoConfigJob::AfterWatermarkWrite { config } => config,
        }
    }

    pub open spec fn spec_resume<E>(self) -> StepView<FifoConfigJob, (), E> {
        match self {
            FifoConfigJob::AfterConfWrite { config } => match config.watermark_level {
                Some(w) => StepView::Next(
                    FifoConfigJob::AfterWatermarkWrite { config },
                    CommandView::Write(
                        spec_write_frame(
                            Register::FIFO_WATERMARK,
                            config.spec_watermark_words(w),
                        ),
                    ),
                ),
                None => StepView::Done(Ok(())),
            },
            FifoConfigJob::AfterWatermarkWrite { .. } => StepView::Done(Ok(())),
        }
    }

    /// The driver state once this job resumed from `state`: when no write is
    /// left, the configuration and its frame length are recorded.
    pub open spec fn spec_state_after<E>(self, state: DriverState) -> DriverState {
        if self.spec_resume::<E>() is Done {
            DriverState {
                fifo_config: self.spec_config(),
                fifo_message_len: self.spec_config().spec_message_len(),
                ..state
            }
        } else {
            state
        }
    }

    /// Writes the watermark where the configuration has one; once every
    /// write went out, records the configuration and its frame length.
    pub fn resume<DI, D, E>(self, dev: &mut Bmi323<DI, D>, reply: &[u8]) -> (r: Step<
        FifoConfigJob,
        (),
        E,
    >)
        requires
            self.wf(),
            old(dev).wf(),
            reply@.len() == self.spec_reply_len(),
        ensures
            r@ == self.spec_resume::<E>(),
            r matches Step::Next(job, command) ==> command@.reply_len() == job.spec_reply_len()
                && job.wf(),
            final(dev).wf(),
            final(dev).spec_iface() == old(dev).spec_iface(),
            final(dev).spec_delay() == old(dev).spec_delay(),
            final(dev).state() == self.spec_state_after::<E>(old(dev).state()),
    {
        match self {
            FifoConfigJob::AfterConfWrite { config } => {
                match config.watermark_level {
                    Some(w) => {
                        let words = watermark_words(w, config.fifo_message_len());
                        Step::Next(
                            FifoConfigJob::AfterWatermarkWrite { config },
                            Command::Write(write_frame(Register::FIFO_WATERMARK, words)),
                        )
                    },
                    None => {
                        dev.record_fifo_config(config);
                        Step::Done(Ok(()))
                    },
                }
            },
            FifoConfigJob::AfterWatermarkWrite { config } => {
                dev.record_fifo_config(config);
                Step::Done(Ok(()))
            },
        }
    }
}

/// The three writes that enable motion axes: clear `FEATURE_IO0`, write its
/// new value, then hand it to the feature engine.
pub open spec fn spec_axes_frames(updated: u16) -> Seq<Seq<u8>> {
    seq![
        spec_write_frame(Register::FEATURE_IO0, 0),
        spec_write_frame(Register::FEATURE_IO0, updated),
        spec_write_frame(Register::FEATURE_IO_STATUS, Register::FEATURE_IO_SYNC),
    ]
}

/// Whether `step` is the step of enabling motion axes that still has
/// `frames` to send.
pub open spec fn spec_axes_write_step<E>(
    step: StepView<MotionAxesJob, (), E>,
    frames: Seq<Seq<u8>>,
) -> bool {
    match step {
        StepView::Next(MotionAxesJob::Writing(job), command) => {
            &&& frames.len() > 0
            &&& command == CommandView::Write(frames[0])
            &&& job.spec_remaining() == frames.drop_first()
        },
        StepView::Next(_, _) => false,
        StepView::Done(result) => frames.len() == 0 && result == Ok::<(), Error<E>>(()),
    }
}

fn axes_writing<E>(step: Step<WriteJob, (), E>) -> (r: Step<MotionAxesJob, (), E>)
    requires
        step matches Step::Next(job, command) ==> command@.reply_len() == job.spec_reply_len()
            && job.wf(),
        step@ is Done ==> step@ == StepView::<WriteJob, (), E>::Done(Ok(())),
    ensures
        r matches Step::Next(job, command) ==> command@.reply_len() == job.spec_reply_len()
            && job.wf(),
        forall|frames: Seq<Seq<u8>>|
            spec_write_series_step(step@, frames) ==> spec_axes_write_step(r@, frames),
{
    match step {
        Step::Next(job, command) => Step::Next(MotionAxesJob::Writing(job), command),
        Step::Done(result) => Step::Done(result),
    }
}

/// Enabling the axes of a motion detector, after `FEATURE_IO0` was asked for.
#[derive(Debug)]
pub enum MotionAxesJob {
    /// `FEATURE_IO0` was read; the enables at `shift` become `axes`
    AfterRead { axes: MotionAxes, shift: u8 },
    /// Writing the new value
    Writing(WriteJob),
}

impl MotionAxesJob {
    pub open spec fn wf(&self) -> bool {
        match self {
            MotionAxesJob::AfterRead { shift, .. } => *shift <= 13,
            MotionAxesJob::Writing(_) => true,
        }
    }

    pub open spec fn spec_reply_len(&self) -> nat {
        match self {
            MotionAxesJob::AfterRead { .. } => 2,
            MotionAxesJob::Writing(_) => 0,
        }
    }

    /// Where `FEATURE_IO0` was read, writes it back with the enables at
    /// `shift` replaced and every other bit kept; then sends what is left.
    pub fn resume<E>(self, reply: &[u8]) -> (r: Step<MotionAxesJob, (), E>)
        requires
            self.wf(),
            reply@.len() == self.spec_reply_len(),
        ensures
            r matches Step::Next(job, command) ==> command@.reply_len() == job.spec_reply_len()
                && job.wf(),
            match self {
                MotionAxesJob::AfterRead { axes, shift } => spec_axes_write_step(
                    r@,
                    spec_axes_frames(
                        spec_update_axes(spec_le_u16(reply@[0], reply@[1]), axes, shift),
                    ),
                ),
                MotionAxesJob::Writing(job) => spec_axes_write_step(r@, job.spec_remaining()),
            },
    {
        match self {
            MotionAxesJob::AfterRead { axes, shift } => {
                let current = le_u16(reply[0], reply[1]);
                let updated = update_axes(current, axes, shift);
                let frames = vec![
                    write_frame(Register::FEATURE_IO0, 0),
                    write_frame(Register::FEATURE_IO0, updated),
                    write_frame(Register::FEATURE_IO_STATUS, Register::FEATURE_IO_SYNC),
                ];
                assert(spec_frames_view(frames@) =~= spec_axes_frames(updated));
                axes_writing(WriteJob::start(frames))
            },
            MotionAxesJob::Writing(job) => axes_writing(job.resume(reply)),
        }
    }
}

/// Writing a motion detector's configuration, then enabling its axes.
#[derive(Debug)]
pub enum MotionSetupJob {
    /// Writing the configuration; then the enables at `shift` become `axes`
    Configuring { writes: WriteJob, axes: MotionAxes, shift: u8 },
    /// Enabling the axes
    Enabling(MotionAxesJob),
}

/// The first step of enabling `axes` at `shift`: read `FEATURE_IO0`.
pub open spec fn spec_axes_start<E>(axes: MotionAxes, shift: u8) -> StepView<MotionAxesJob, (), E> {
    StepView::Next(
        MotionAxesJob::AfterRead { axes, shift },
        CommandView::Read { reg: Register::FEATURE_IO0, len: 2 },
    )
}

/// Enables `axes` at `shift`: reads `FEATURE_IO0` first.
pub fn axes_start<E>(axes: MotionAxes, shift: u8) -> (r: Step<MotionAxesJob, (), E>)
    requires
        shift <= 13,
    ensures
        r@ == spec_axes_start::<E>(axes, shift),
        r matches Step::Next(job, command) ==> command@.reply_len() == job.spec_reply_len()
            && job.wf(),
{
    Step::Next(
        MotionAxesJob::AfterRead { axes, shift },
        Command::Read { reg: Register::FEATURE_IO0, len: 2 },
    )
}

/// Whether `step` is the step of a motion setup that is still writing the
/// configuration `frames`, or has written them all and asks for
/// `FEATURE_IO0`.
pub open spec fn spec_setup_step<E>(
    step: StepView<MotionSetupJob, (), E>,
    frames: Seq<Seq<u8>>,
    axes: MotionAxes,
    shift: u8,
) -> bool {
    match step {
        StepView::Next(MotionSetupJob::Configuring { writes, axes: a, shift: s }, command) => {
            &&& frames.len() > 0
            &&& command == CommandView::Write(frames[0])
            &&& writes.spec_remaining() == frames.drop_first()
            &&& a == axes
            &&& s == shift
        },
        StepView::Next(MotionSetupJob::Enabling(job), command) => {
            &&& frames.len() == 0
            &&& job == MotionAxesJob::AfterRead { axes, shift }
            &&& command == CommandView::Read { reg: Register::FEATURE_IO0, len: 2 }
        },
        StepView::Done(_) => false,
    }
}

/// Whether `step` is a step of a motion setup that has passed on to
/// enabling the axes and stands where the enabling step `inner` stands.
pub open spec fn spec_enabling_step<E>(
    step: StepView<MotionSetupJob, (), E>,
    inner: StepView<MotionAxesJob, (), E>,
) -> bool {
    match (step, inner) {
        (
            StepView::Next(MotionSetupJob::Enabling(job), command),
            StepView::Next(inner_job, inner_command),
        ) => job == inner_job && command == inner_command,
        (StepView::Done(result), StepView::Done(inner_result)) => result == inner_result,
        _ => false,
    }
}

/// Continues writing the configuration, or passes on to the axes.
pub fn setup_configuring<E>(step: Step<WriteJob, (), E>, axes: MotionAxes, shift: u8) -> (r: Step<
    MotionSetupJob,
    (),
    E,
>)
    requires
        shift <= 13,
        step matches Step::Next(job, command) ==> command@.reply_len() == job.spec_reply_len()
            && job.wf(),
        step@ is Done ==> step@ == StepView::<WriteJob, (), E>::Done(Ok(())),
    ensures
        forall|frames: Seq<Seq<u8>>|
            spec_write_series_step(step@, frames) ==> spec_setup_step(r@, frames, axes, shift),
        r matches Step::Next(job, command) ==> command@.reply_len() == job.spec_reply_len()
            && job.wf(),
{
    match step {
        Step::Next(writes, command) => Step::Next(
            MotionSetupJob::Configuring { writes, axes, shift },
            command,
        ),
        Step::Done(_) => Step::Next(
            MotionSetupJob::Enabling(MotionAxesJob::AfterRead { axes, shift }),
            Command::Read { reg: Register::FEATURE_IO0, len: 2 },
        ),
    }
}

fn setup_enabling<E>(step: Step<MotionAxesJob, (), E>) -> (r: Step<MotionSetupJob, (), E>)
    requires
        step matches Step::Next(job, command) ==> command@.reply_len() == job.spec_reply_len()
            && job.wf(),
    ensures
        r matches Step::Next(job, command) ==> command@.reply_len() == job.spec_reply_len()
            && job.wf(),
        spec_enabling_step(r@, step@),
{
    match step {
        Step::Next(job, command) => Step::Next(MotionSetupJob::Enabling(job), command),
        Step::Done(result) => Step::Done(result),
    }
}

impl MotionSetupJob {
    pub open spec fn wf(&self) -> bool {
        match self {
            MotionSetupJob::Configuring { shift, .. } => *shift <= 13,
            MotionSetupJob::Enabling(job) => job.wf(),
        }
    }

    pub open spec fn spec_reply_len(&self) -> nat {
        match self {
            MotionSetupJob::Configuring { .. } => 0,
            MotionSetupJob::Enabling(job) => job.spec_reply_len(),
        }
    }

    pub fn resume<E>(self, reply: &[u8]) -> (r: Step<MotionSetupJob, (), E>)
        requires
            self.wf(),
            reply@.len() == self.spec_reply_len(),
        ensures
            r matches Step::Next(job, command) ==> command@.reply_len() == job.spec_reply_len()
                && job.wf(),
            match self {
                MotionSetupJob::Configuring { writes, axes, shift } => spec_setup_step(
                    r@,
                    writes.spec_remaining(),
                    axes,
                    shift,
                ),
                MotionSetupJob::Enabling(job) => match job {
                    MotionAxesJob::AfterRead { axes, shift } => exists|
                        inner: StepView<MotionAxesJob, (), E>,
                    |
                        spec_enabling_step(r@, inner) && spec_axes_write_step(
                            inner,
                            spec_axes_frames(
                                spec_update_axes(spec_le_u16(reply@[0], reply@[1]), axes, shift),
                            ),
                        ),
                    MotionAxesJob::Writing(writes) => exists|
                        inner: StepView<MotionAxesJob, (), E>,
                    |
                        spec_enabling_step(r@, inner) && spec_axes_write_step(
                            inner,
                            writes.spec_remaining(),
                        ),
                },
            },
    {
        match self {
            MotionSetupJob::Configuring { writes, axes, shift } => setup_configuring(
                writes.resume(reply),
                axes,
                shift,
            ),
            MotionSetupJob::Enabling(job) => {
                let inner = job.resume(reply);
                let ghost inner_view = inner@;
                let r = setup_enabling(inner);
                assert(spec_enabling_step(r@, inner_view));
                r
            },
        }
    }
}

/// What a run of a job yields when the host answers the transfers asked for
/// with `replies`, in order: the transfers asked for, and the result where the
/// run finished.
pub open spec fn spec_run<J, T, E>(
    resume: spec_fn(J, Seq<u8>) -> StepView<J, T, E>,
    step: StepView<J, T, E>,
    replies: Seq<Seq<u8>>,
) -> (Seq<CommandView>, Option<Result<T, Error<E>>>)
    decreases replies.len(),
{
    match step {
        StepView::Done(result) => (Seq::empty(), Some(result)),
        StepView::Next(job, command) => if replies.len() == 0 {
            (seq![command], None)
        } else {
            let rest = spec_run(resume, resume(job, replies[0]), replies.drop_first());
            (seq![command] + rest.0, rest.1)
        },
    }
}

/// Initialisation resets the device, waits 2 ms and reads the error
/// register; it fails with `InvalidDevice` at once when that reports a fatal
/// error, else reads the chip id and succeeds exactly when it is the
/// BMI323's.
pub proof fn lemma_init_run<E>(err: u8, id: u8)
    ensures
        spec_fatal_error(err) == (err % 2 == 1),
        spec_chip_id_ok(id) == (id == 0x43),
        Register::ERR_REG == 0x01 && Register::CHIPID == 0x00 && Register::CMD == 0x7E,
        Register::CMD_SOFT_RESET == 0xDEAF,
        ({
            let resume = |job: InitJob, reply: Seq<u8>| job.spec_resume::<E>(reply);
            let start = StepView::<InitJob, (), E>::Next(
                InitJob::AfterReset,
                CommandView::Write(spec_write_frame(Register::CMD, Register::CMD_SOFT_RESET)),
            );
            let head = seq![
                CommandView::Write(spec_write_frame(Register::CMD, Register::CMD_SOFT_RESET)),
                CommandView::DelayUs(2000),
                CommandView::Read { reg: Register::ERR_REG, len: 1 },
            ];
            &&& spec_fatal_error(err) ==> spec_run(resume, start, seq![seq![], seq![], seq![err]])
                == (head, Some(Err::<(), Error<E>>(Error::InvalidDevice)))
            &&& !spec_fatal_error(err) ==> spec_run(
                resume,
                start,
                seq![seq![], seq![], seq![err], seq![id]],
            ) == (head.push(CommandView::Read { reg: Register::CHIPID, len: 1 }), Some(
                if spec_chip_id_ok(id) {
                    Ok::<(), Error<E>>(())
                } else {
                    Err(Error::InvalidDevice)
                },
            ))
        }),
{
    assert((err & 0x01 != 0) == (err % 2 == 1)) by (bit_vector);
    let resume = |job: InitJob, reply: Seq<u8>| job.spec_resume::<E>(reply);
    let w = CommandView::Write(spec_write_frame(Register::CMD, Register::CMD_SOFT_RESET));
    let start = StepView::<InitJob, (), E>::Next(InitJob::AfterReset, w);
    let r1: Seq<Seq<u8>> = seq![seq![], seq![], seq![err]];
    assert(r1.drop_first() =~= seq![seq![], seq![err]]);
    assert(r1.drop_first().drop_first() =~= seq![seq![err]]);
    assert(r1.drop_first().drop_first().drop_first() =~= Seq::<Seq<u8>>::empty());
    let r2: Seq<Seq<u8>> = seq![seq![], seq![], seq![err], seq![id]];
    assert(r2.drop_first() =~= seq![seq![], seq![err], seq![id]]);
    assert(r2.drop_first().drop_first() =~= seq![seq![err], seq![id]]);
    assert(r2.drop_first().drop_first().drop_first() =~= seq![seq![id]]);
    assert(r2.drop_first().drop_first().drop_first().drop_first() =~= Seq::<Seq<u8>>::empty());
    reveal_with_fuel(spec_run, 6);
    if spec_fatal_error(err) {
        assert(spec_run(resume, start, r1).0 =~= seq![
            w,
            CommandView::DelayUs(2000),
            CommandView::Read { reg: Register::ERR_REG, len: 1 },
        ]);
    } else {
        assert(spec_run(resume, start, r2).0 =~= seq![
            w,
            CommandView::DelayUs(2000),
            CommandView::Read { reg: Register::ERR_REG, len: 1 },
            CommandView::Read { reg: Register::CHIPID, len: 1 },
        ]);
    }
}

impl DataReadyJob {
    /// A bound on the steps left: it falls with every step.
    pub open spec fn spec_measure(self) -> int {
        match self {
            DataReadyJob::AfterStatus { retries, .. } => 2 * (DATA_READY_MAX_RETRIES - retries),
            DataReadyJob::AfterDelay { retries, .. } => 2 * (DATA_READY_MAX_RETRIES - retries) - 1,
        }
    }
}

/// Waiting for data always ends: every step lowers a measure that starts at
/// 2400, so that the wait reads the status register at most 1201 times; and
/// it times out only after the last of its 1200 delays.
pub proof fn lemma_data_ready_progress<E>(job: DataReadyJob, reply: Seq<u8>)
    requires
        job.wf(),
        reply.len() == job.spec_reply_len(),
    ensures
        0 <= job.spec_measure() <= 2 * DATA_READY_MAX_RETRIES,
        job.spec_resume::<E>(reply) matches StepView::Next(next, _) ==> next.wf()
            && next.spec_measure() < job.spec_measure(),
        DataReadyJob::spec_start::<E>(SensorType::Accelerometer) matches StepView::Next(first, _)
            ==> first.spec_measure() == 2 * DATA_READY_MAX_RETRIES,
        job.spec_resume::<E>(reply) == StepView::<DataReadyJob, (), E>::Done(Err(Error::Timeout))
            ==> (job matches DataReadyJob::AfterStatus { retries, .. } && retries
            == DATA_READY_MAX_RETRIES),
{
}

impl FeatureEngineJob {
    /// A bound on the steps left: it falls with every step.
    pub open spec fn spec_measure(self) -> int {
        match self {
            FeatureEngineJob::AfterInit => 23,
            FeatureEngineJob::AfterSync => 22,
            FeatureEngineJob::AfterEnable => 21,
            FeatureEngineJob::AfterDelay { attempt } => 20 - 2 * attempt,
            FeatureEngineJob::AfterPoll { attempt } => 19 - 2 * attempt,
        }
    }
}

/// Enabling the feature engine always ends: every step lowers a measure that
/// starts at 23, so that the engine is polled at most ten times; and it times
/// out only after the tenth poll.
pub proof fn lemma_feature_engine_progress<E>(job: FeatureEngineJob, reply: Seq<u8>)
    requires
        job.wf(),
        reply.len() == job.spec_reply_len(),
    ensures
        0 <= job.spec_measure() <= 23,
        job.spec_resume::<E>(reply) matches StepView::Next(next, _) ==> next.wf()
            && next.spec_measure() < job.spec_measure(),
        job.spec_resume::<E>(reply) == StepView::<FeatureEngineJob, (), E>::Done(
            Err(Error::Timeout),
        ) ==> job == (FeatureEngineJob::AfterPoll { attempt: (FEATURE_ENGINE_POLLS - 1) as u8 }),
{
}

/// Once a FIFO configuration has been written in full, asking for the same
/// configuration again sends nothing and succeeds.
pub proof fn lemma_fifo_config_settles<E>(job: FifoConfigJob, state: DriverState)
    requires
        job.spec_resume::<E>() is Done,
    ensures
        spec_fifo_config_start::<E>(job.spec_state_after::<E>(state), job.spec_config())
            == StepView::<FifoConfigJob, (), E>::Done(Ok(())),
{
}

/// One step of enabling the feature engine, as a function.
pub open spec fn spec_feature_engine_resume<E>() -> spec_fn(FeatureEngineJob, Seq<u8>) -> StepView<
    FeatureEngineJob,
    (),
    E,
> {
    |job: FeatureEngineJob, reply: Seq<u8>| job.spec_resume::<E>(reply)
}

/// Whether a `FEATURE_IO1` word reports the feature engine running (bit 0).
pub open spec fn spec_engine_running(word: u16) -> bool {
    word & 1 != 0
}

/// What the host hands back over polls that read `words`: nothing for each
/// wait, then the word's two bytes.
pub open spec fn spec_poll_replies(words: Seq<u16>) -> Seq<Seq<u8>>
    decreases words.len(),
{
    if words.len() == 0 {
        Seq::empty()
    } else {
        seq![Seq::<u8>::empty(), seq![spec_lo(words[0]), spec_hi(words[0])]] + spec_poll_replies(
            words.drop_first(),
        )
    }
}

/// The transfers of `n` polls of the feature engine: a 10 ms wait, then a
/// read of `FEATURE_IO1`, each time.
pub open spec fn spec_poll_commands(n: nat) -> Seq<CommandView>
    decreases n,
{
    if n == 0 {
        Seq::empty()
    } else {
        seq![CommandView::DelayMs(10), CommandView::Read { reg: Register::FEATURE_IO1, len: 2 }]
            + spec_poll_commands((n - 1) as nat)
    }
}

/// Polling from poll number `attempt` on: the run stops at the first word
/// that reports the engine running, or times out after the tenth poll.
proof fn lemma_feature_engine_polls<E>(attempt: u8, words: Seq<u16>)
    requires
        attempt < FEATURE_ENGINE_POLLS,
        0 < words.len() <= FEATURE_ENGINE_POLLS - attempt,
        forall|i: int| 0 <= i < words.len() - 1 ==> !spec_engine_running(#[trigger] words[i]),
        spec_engine_running(words.last()) || words.len() == FEATURE_ENGINE_POLLS - attempt,
    ensures
        spec_run(
            spec_feature_engine_resume::<E>(),
            StepView::Next(FeatureEngineJob::AfterDelay { attempt }, CommandView::DelayMs(10)),
            spec_poll_replies(words),
        ) == (spec_poll_commands(words.len()), Some(
            if spec_engine_running(words.last()) {
                Ok::<(), Error<E>>(())
            } else {
                Err(Error::Timeout)
            },
        )),
    decreases words.len(),
{
    let resume = spec_feature_engine_resume::<E>();
    let w0 = words[0];
    let tail = words.drop_first();
    let replies = spec_poll_replies(words);
    let rest = spec_poll_replies(tail);
    let bytes = seq![spec_lo(w0), spec_hi(w0)];
    lemma_le_u16_roundtrip(w0, 0, 0);
    assert(replies =~= seq![Seq::<u8>::empty(), bytes] + rest);
    assert(replies.drop_first() =~= seq![bytes] + rest);
    assert(replies.drop_first().drop_first() =~= rest);
    let poll = StepView::<FeatureEngineJob, (), E>::Next(
        FeatureEngineJob::AfterPoll { attempt },
        CommandView::Read { reg: Register::FEATURE_IO1, len: 2 },
    );
    assert(resume(FeatureEngineJob::AfterDelay { attempt }, Seq::empty()) == poll);
    let after = resume(FeatureEngineJob::AfterPoll { attempt }, bytes);
    let two = seq![
        CommandView::DelayMs(10),
        CommandView::Read { reg: Register::FEATURE_IO1, len: 2 },
    ];
    if spec_engine_running(w0) {
        if words.len() > 1 {
            assert(!spec_engine_running(words[0]));
        }
        assert(tail.len() == 0);
        assert(rest =~= Seq::<Seq<u8>>::empty());
        assert(after == StepView::<FeatureEngineJob, (), E>::Done(Ok(())));
        reveal_with_fuel(spec_run, 3);
        reveal_with_fuel(spec_poll_commands, 2);
        assert(spec_poll_commands(words.len()) =~= two);
        assert(spec_run(resume, poll, replies.drop_first()).0 =~= seq![
            CommandView::Read { reg: Register::FEATURE_IO1, len: 2 },
        ]);
    } else if attempt + 1 < FEATURE_ENGINE_POLLS {
        assert(words.len() > 1);
        let next = StepView::<FeatureEngineJob, (), E>::Next(
            FeatureEngineJob::AfterDelay { attempt: (attempt + 1) as u8 },
            CommandView::DelayMs(10),
        );
        assert(after == next);
        assert forall|i: int| 0 <= i < tail.len() - 1 implies !spec_engine_running(
            #[trigger] tail[i],
        ) by {
            assert(tail[i] == words[i + 1]);
        }
        assert(tail.last() == words.last());
        lemma_feature_engine_polls::<E>((attempt + 1) as u8, tail);
        assert(spec_run(resume, poll, replies.drop_first()) == (
            seq![CommandView::Read { reg: Register::FEATURE_IO1, len: 2 }] + spec_run(
                resume,
                next,
                rest,
            ).0,
            spec_run(resume, next, rest).1,
        ));
        assert(spec_poll_commands(words.len()) == two + spec_poll_commands(tail.len()));
        assert(spec_run(resume, poll, replies.drop_first()).0 =~= seq![
            CommandView::Read { reg: Register::FEATURE_IO1, len: 2 },
        ] + spec_poll_commands(tail.len()));
        assert(spec_run(
            resume,
            StepView::Next(FeatureEngineJob::AfterDelay { attempt }, CommandView::DelayMs(10)),
            replies,
        ).0 =~= two + spec_poll_commands(tail.len()));
    } else {
        assert(words.len() == 1);
        assert(tail.len() == 0);
        assert(rest =~= Seq::<Seq<u8>>::empty());
        assert(after == StepView::<FeatureEngineJob, (), E>::Done(Err(Error::Timeout)));
        reveal_with_fuel(spec_run, 3);
        reveal_with_fuel(spec_poll_commands, 2);
        assert(spec_poll_commands(words.len()) =~= two);
        assert(spec_run(resume, poll, replies.drop_first()).0 =~= seq![
            CommandView::Read { reg: Register::FEATURE_IO1, len: 2 },
        ]);
    }
}

/// Enabling the feature engine writes `FEATURE_IO2`, the I/O
/// synchronisation and `FEATURE_CTRL`, then polls `FEATURE_IO1` after a 10 ms
/// wait each time. It succeeds at the first poll, among the first ten, that
/// reads bit 0 set, and fails with `Timeout` when ten polls in a row read it
/// clear.
pub proof fn lemma_feature_engine_run<E>(words: Seq<u16>)
    requires
        0 < words.len() <= FEATURE_ENGINE_POLLS,
        forall|i: int| 0 <= i < words.len() - 1 ==> !spec_engine_running(#[trigger] words[i]),
        spec_engine_running(words.last()) || words.len() == FEATURE_ENGINE_POLLS,
    ensures
        FEATURE_ENGINE_POLLS == 10,
        forall|w: u16| spec_engine_running(w) == (w % 2 == 1),
        spec_run(
            spec_feature_engine_resume::<E>(),
            StepView::Next(
                FeatureEngineJob::AfterInit,
                CommandView::Write(
                    spec_write_frame(Register::FEATURE_IO2, Register::FEATURE_ENGINE_INIT),
                ),
            ),
            seq![Seq::<u8>::empty(), Seq::<u8>::empty(), Seq::<u8>::empty()] + spec_poll_replies(
                words,
            ),
        ) == (
            seq![
                CommandView::Write(
                    spec_write_frame(Register::FEATURE_IO2, Register::FEATURE_ENGINE_INIT),
                ),
                CommandView::Write(
                    spec_write_frame(Register::FEATURE_IO_STATUS, Register::FEATURE_IO_SYNC),
                ),
                CommandView::Write(
                    spec_write_frame(Register::FEATURE_CTRL, Register::FEATURE_ENGINE_ENABLED),
                ),
            ] + spec_poll_commands(words.len()),
            Some(
                if spec_engine_running(words.last()) {
                    Ok::<(), Error<E>>(())
                } else {
                    Err(Error::Timeout)
                },
            ),
        ),
{
    assert forall|w: u16| spec_engine_running(w) == (w % 2 == 1) by {
        assert((w & 1 != 0) == (w % 2 == 1)) by (bit_vector);
    }
    let resume = spec_feature_engine_resume::<E>();
    let x = spec_poll_replies(words);
    let e = Seq::<u8>::empty();
    let r3 = seq![e, e, e] + x;
    assert(r3.drop_first() =~= seq![e, e] + x);
    assert(r3.drop_first().drop_first() =~= seq![e] + x);
    assert(r3.drop_first().drop_first().drop_first() =~= x);
    lemma_feature_engine_polls::<E>(0, words);
    let w1 = CommandView::Write(
        spec_write_frame(Register::FEATURE_IO2, Register::FEATURE_ENGINE_INIT),
    );
    let w2 = CommandView::Write(
        spec_write_frame(Register::FEATURE_IO_STATUS, Register::FEATURE_IO_SYNC),
    );
    let w3 = CommandView::Write(
        spec_write_frame(Register::FEATURE_CTRL, Register::FEATURE_ENGINE_ENABLED),
    );
    let polling = StepView::<FeatureEngineJob, (), E>::Next(
        FeatureEngineJob::AfterDelay { attempt: 0 },
        CommandView::DelayMs(10),
    );
    let tail = spec_run(resume, polling, x);
    reveal_with_fuel(spec_run, 4);
    assert(spec_run(
        resume,
        StepView::Next(FeatureEngineJob::AfterEnable, w3),
        seq![e] + x,
    ) == (seq![w3] + tail.0, tail.1));
    assert(spec_run(
        resume,
        StepView::Next(FeatureEngineJob::AfterSync, w2),
        seq![e, e] + x,
    ) == (seq![w2] + (seq![w3] + tail.0), tail.1));
    assert(seq![w1] + (seq![w2] + (seq![w3] + tail.0)) =~= seq![w1, w2, w3] + tail.0);
}

/// One step of waiting for data, as a function.
pub open spec fn spec_data_ready_resume<E>() -> spec_fn(DataReadyJob, Seq<u8>) -> StepView<
    DataReadyJob,
    (),
    E,
> {
    |job: DataReadyJob, reply: Seq<u8>| job.spec_resume::<E>(reply)
}

/// What the host hands back over status reads that read `statuses`: each
/// status byte, and nothing for the wait between two reads.
pub open spec fn spec_status_replies(statuses: Seq<u8>) -> Seq<Seq<u8>>
    decreases statuses.len(),
{
    if statuses.len() == 0 {
        Seq::empty()
    } else if statuses.len() == 1 {
        seq![seq![statuses[0]]]
    } else {
        seq![seq![statuses[0]], Seq::<u8>::empty()] + spec_status_replies(statuses.drop_first())
    }
}

/// The transfers of `n` status reads with a 1 ms wait between two of them.
pub open spec fn spec_status_commands(n: nat) -> Seq<CommandView>
    decreases n,
{
    if n == 0 {
        Seq::empty()
    } else if n == 1 {
        seq![CommandView::Read { reg: Register::STATUS, len: 1 }]
    } else {
        seq![CommandView::Read { reg: Register::STATUS, len: 1 }, CommandView::DelayMs(1)]
            + spec_status_commands((n - 1) as nat)
    }
}

/// Waiting after `retries` delays: the run stops at the first status that
/// reports data, or times out at the read after the last delay.
proof fn lemma_data_ready_reads<E>(sensor: SensorType, retries: u16, statuses: Seq<u8>)
    requires
        retries <= DATA_READY_MAX_RETRIES,
        0 < statuses.len() <= DATA_READY_MAX_RETRIES + 1 - retries,
        forall|i: int|
            0 <= i < statuses.len() - 1 ==> !spec_data_ready(sensor, #[trigger] statuses[i]),
        spec_data_ready(sensor, statuses.last()) || statuses.len() == DATA_READY_MAX_RETRIES + 1
            - retries,
    ensures
        spec_run(
            spec_data_ready_resume::<E>(),
            StepView::Next(
                DataReadyJob::AfterStatus { sensor, retries },
                CommandView::Read { reg: Register::STATUS, len: 1 },
            ),
            spec_status_replies(statuses),
        ) == (spec_status_commands(statuses.len()), Some(
            if spec_data_ready(sensor, statuses.last()) {
                Ok::<(), Error<E>>(())
            } else {
                Err(Error::Timeout)
            },
        )),
    decreases statuses.len(),
{
    let resume = spec_data_ready_resume::<E>();
    let s0 = statuses[0];
    let tail = statuses.drop_first();
    let replies = spec_status_replies(statuses);
    let read = CommandView::Read { reg: Register::STATUS, len: 1 };
    let after = resume(DataReadyJob::AfterStatus { sensor, retries }, seq![s0]);
    let start = StepView::<DataReadyJob, (), E>::Next(
        DataReadyJob::AfterStatus { sensor, retries },
        read,
    );
    if spec_data_ready(sensor, s0) || retries >= DATA_READY_MAX_RETRIES {
        if statuses.len() > 1 {
            assert(!spec_data_ready(sensor, statuses[0]));
        }
        assert(statuses.len() == 1);
        assert(replies =~= seq![seq![s0]]);
        assert(replies.drop_first() =~= Seq::<Seq<u8>>::empty());
        reveal_with_fuel(spec_run, 2);
        reveal_with_fuel(spec_status_commands, 2);
        assert(spec_run(resume, start, replies).0 =~= seq![read]);
    } else {
        assert(statuses.len() > 1);
        let rest = spec_status_replies(tail);
        let e = Seq::<u8>::empty();
        assert(replies =~= seq![seq![s0], e] + rest);
        assert(replies.drop_first() =~= seq![e] + rest);
        assert(replies.drop_first().drop_first() =~= rest);
        let delay = StepView::<DataReadyJob, (), E>::Next(
            DataReadyJob::AfterDelay { sensor, retries },
            CommandView::DelayMs(1),
        );
        let next = StepView::<DataReadyJob, (), E>::Next(
            DataReadyJob::AfterStatus { sensor, retries: (retries + 1) as u16 },
            read,
        );
        assert(after == delay);
        assert(resume(DataReadyJob::AfterDelay { sensor, retries }, e) == next);
        assert forall|i: int| 0 <= i < tail.len() - 1 implies !spec_data_ready(
            sensor,
            #[trigger] tail[i],
        ) by {
            assert(tail[i] == statuses[i + 1]);
        }
        assert(tail.last() == statuses.last());
        lemma_data_ready_reads::<E>(sensor, (retries + 1) as u16, tail);
        let inner = spec_run(resume, next, rest);
        assert(spec_run(resume, delay, replies.drop_first()) == (
            seq![CommandView::DelayMs(1)] + inner.0,
            inner.1,
        ));
        assert(spec_run(resume, start, replies) == (
            seq![read] + (seq![CommandView::DelayMs(1)] + inner.0),
            inner.1,
        ));
        assert(spec_status_commands(statuses.len()) == seq![read, CommandView::DelayMs(1)]
            + spec_status_commands(tail.len()));
        assert(seq![read] + (seq![CommandView::DelayMs(1)] + inner.0) =~= seq![
            read,
            CommandView::DelayMs(1),
        ] + inner.0);
    }
}

/// Waiting for data of `sensor` reads the status register, with a 1 ms wait
/// between two reads. It succeeds at the first read, among the first 1201,
/// that reports new data, and fails with `Timeout` when 1201 reads in a row,
/// with their 1200 waits, report none.
pub proof fn lemma_data_ready_run<E>(sensor: SensorType, statuses: Seq<u8>)
    requires
        0 < statuses.len() <= DATA_READY_MAX_RETRIES + 1,
        forall|i: int|
            0 <= i < statuses.len() - 1 ==> !spec_data_ready(sensor, #[trigger] statuses[i]),
        spec_data_ready(sensor, statuses.last()) || statuses.len() == DATA_READY_MAX_RETRIES + 1,
    ensures
        DATA_READY_MAX_RETRIES == 1200,
        spec_run(
            spec_data_ready_resume::<E>(),
            DataReadyJob::spec_start::<E>(sensor),
            spec_status_replies(statuses),
        ) == (spec_status_commands(statuses.len()), Some(
            if spec_data_ready(sensor, statuses.last()) {
                Ok::<(), Error<E>>(())
            } else {
                Err(Error::Timeout)
            },
        )),
{
    lemma_data_ready_reads::<E>(sensor, 0, statuses);
}

} // verus!

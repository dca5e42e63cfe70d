//! The driver: its state, the bus interfaces it is built on, and the first
//! step of each of its operations.
use crate::config::{AccelConfig, GyroConfig};
use crate::interrupt::{
    IOInterruptConfig, InterruptLatch, InterruptMapConfig, InterruptPin, InterruptSource,
};
use crate::jobs::{
    axes_start, setup_configuring, spec_axes_start, spec_frames_view, spec_setup_step,
    spec_watermark_fits, spec_write_series_step, DataReadyJob, FeatureEngineJob, FifoConfigJob,
    FifoCountJob, FifoEntryJob, InitJob, IntStatusJob, MotionAxesJob, MotionSetupJob,
    SensorConfigJob, SensorReadJob, TimestampJob, WordReadJob, WriteJob,
};
use crate::motion::{AnyMotionConfig, MotionAxes, NoMotionConfig, ANY_MOTION_SHIFT, NO_MOTION_SHIFT};
use crate::registers::Register;
use crate::sensor::{Error, FifoConfig, FifoFrame, Sensor3DData, SensorType};
use crate::transfer::{Command, CommandView, Step, StepView};
use crate::types::{
    AccelerometerPowerMode, AccelerometerRange, GyroscopePowerMode, GyroscopeRange,
};
use crate::wire::{spec_write_frame, spec_write_words_frame, write_frame, write_words_frame};
use vstd::prelude::*;

verus! {

/// An I2C bus and the device address on it.
pub struct I2cInterface<I2C> {
    pub i2c: I2C,
    pub address: u8,
}

/// An SPI device.
pub struct SpiInterface<SPI> {
    pub spi: SPI,
}

/// Bytes that an I2C read returns before the register data.
pub const I2C_READ_DUMMY_BYTES: usize = 2;

/// Bytes that an SPI read returns before the register data.
pub const SPI_READ_DUMMY_BYTES: usize = 1;

/// The first byte of an SPI read of register `reg`: the address with the
/// read bit (bit 7) set.
pub fn spi_read_address(reg: u8) -> (r: u8)
    ensures
        r == reg | 0x80,
{
    reg | 0x80
}

/// The register data of a raw read: what follows the `dummy` leading bytes.
pub fn read_payload(raw: &[u8], dummy: usize) -> (r: Vec<u8>)
    requires
        dummy <= raw@.len(),
    ensures
        r@ == raw@.skip(dummy as int),
{
    let mut out: Vec<u8> = Vec::new();
    let mut i: usize = dummy;
    while i < raw.len()
        invariant
            dummy <= i <= raw@.len(),
            out@ == raw@.subrange(dummy as int, i as int),
        decreases raw@.len() - i,
    {
        out.push(raw[i]);
        i = i + 1;
    }
    assert(out@ =~= raw@.skip(dummy as int));
    out
}

/// The driver state that the operations read and change.
pub struct DriverState {
    pub accel_range: AccelerometerRange,
    pub gyro_range: GyroscopeRange,
    pub fifo_config: FifoConfig,
    pub fifo_message_len: u16,
}

/// Main struct representing the BMI323 device
pub struct Bmi323<DI, D> {
    /// Communication interface (I2C or SPI)
    pub iface: DI,
    /// Delay provider
    pub delay: D,
    accel_range: AccelerometerRange,
    gyro_range: GyroscopeRange,
    fifo_config: FifoConfig,
    fifo_message_len: u16,
}

/// The first step of writing FIFO configuration `config` when `state` is the
/// driver state: nothing to do when `config` is the one last written, else
/// write `FIFO_CONF`.
pub open spec fn spec_fifo_config_start<E>(state: DriverState, config: FifoConfig) -> StepView<
    FifoConfigJob,
    (),
    E,
> {
    if config == state.fifo_config {
        StepView::Done(Ok(()))
    } else {
        StepView::Next(
            FifoConfigJob::AfterConfWrite { config },
            CommandView::Write(spec_write_frame(Register::FIFO_CONF, config.spec_register_value())),
        )
    }
}

/// The state of a freshly created driver.
pub open spec fn spec_initial_state() -> DriverState {
    DriverState {
        accel_range: AccelerometerRange::G8,
        gyro_range: GyroscopeRange::DPS2000,
        fifo_config: FifoConfig {
            stop_on_full: false,
            timestamp_enabled: false,
            accel_enabled: false,
            gyro_enabled: false,
            temp_enabled: false,
            watermark_level: None,
        },
        fifo_message_len: 0,
    }
}

impl<I2C, D> Bmi323<I2cInterface<I2C>, D> {
    /// Create a new BMI323 device instance on an I2C bus
    pub fn new_with_i2c(i2c: I2C, address: u8, delay: D) -> (r: Self)
        ensures
            r.wf(),
            r.state() == spec_initial_state(),
            r.spec_iface() == (I2cInterface { i2c, address }),
            r.spec_delay() == delay,
    {
        Bmi323 {
            iface: I2cInterface { i2c, address },
            delay,
            accel_range: AccelerometerRange::default(),
            gyro_range: GyroscopeRange::default(),
            fifo_config: FifoConfig::default(),
            fifo_message_len: 0,
        }
    }
}

impl<SPI, D> Bmi323<SpiInterface<SPI>, D> {
    /// Create a new BMI323 device instance on an SPI bus
    pub fn new_with_spi(spi: SPI, delay: D) -> (r: Self)
        ensures
            r.wf(),
            r.state() == spec_initial_state(),
            r.spec_iface() == (SpiInterface { spi }),
            r.spec_delay() == delay,
    {
        Bmi323 {
            iface: SpiInterface { spi },
            delay,
            accel_range: AccelerometerRange::default(),
            gyro_range: GyroscopeRange::default(),
            fifo_config: FifoConfig::default(),
            fifo_message_len: 0,
        }
    }
}

impl<DI, D> Bmi323<DI, D> {
    /// The bus interface.
    pub closed spec fn spec_iface(&self) -> DI {
        self.iface
    }

    /// The delay provider.
    pub closed spec fn spec_delay(&self) -> D {
        self.delay
    }

    /// The driver state.
    pub closed spec fn state(&self) -> DriverState {
        DriverState {
            accel_range: self.accel_range,
            gyro_range: self.gyro_range,
            fifo_config: self.fifo_config,
            fifo_message_len: self.fifo_message_len,
        }
    }

    /// The stored frame length is that of the stored FIFO configuration.
    pub open spec fn wf(&self) -> bool {
        self.state().fifo_message_len == self.state().fifo_config.spec_message_len()
    }

    /// The accelerometer range last written.
    pub fn accel_range(&self) -> (r: AccelerometerRange)
        ensures
            r == self.state().accel_range,
    {
        self.accel_range
    }

    /// The gyroscope range last written.
    pub fn gyro_range(&self) -> (r: GyroscopeRange)
        ensures
            r == self.state().gyro_range,
    {
        self.gyro_range
    }

    /// The FIFO configuration last written.
    pub fn fifo_config(&self) -> (r: FifoConfig)
        ensures
            r == self.state().fifo_config,
    {
        self.fifo_config
    }

    /// Words per FIFO frame under the FIFO configuration last written.
    pub fn fifo_message_len(&self) -> (r: u16)
        ensures
            r == self.state().fifo_message_len,
    {
        self.fifo_message_len
    }

    /// Records the accelerometer range written to the device.
    pub(crate) fn record_accel_range(&mut self, range: AccelerometerRange)
        ensures
            final(self).state() == (DriverState { accel_range: range, ..old(self).state() }),
            final(self).spec_iface() == old(self).spec_iface(),
            final(self).spec_delay() == old(self).spec_delay(),
    {
        self.accel_range = range;
    }

    /// Records the gyroscope range written to the device.
    pub(crate) fn record_gyro_range(&mut self, range: GyroscopeRange)
        ensures
            final(self).state() == (DriverState { gyro_range: range, ..old(self).state() }),
            final(self).spec_iface() == old(self).spec_iface(),
            final(self).spec_delay() == old(self).spec_delay(),
    {
        self.gyro_range = range;
    }

    /// Records the FIFO configuration written to the device.
    pub(crate) fn record_fifo_config(&mut self, config: FifoConfig)
        ensures
            final(self).state() == (DriverState {
                fifo_config: config,
                fifo_message_len: config.spec_message_len(),
                ..old(self).state()
            }),
            final(self).wf(),
            final(self).spec_iface() == old(self).spec_iface(),
            final(self).spec_delay() == old(self).spec_delay(),
    {
        self.fifo_config = config;
        self.fifo_message_len = config.fifo_message_len();
    }

    /// Initialize the device: soft reset, wait 2 ms, then check that the
    /// error register reports no fatal error and that the chip id is the
    /// BMI323's.
    pub fn init<E>(&self) -> (r: Step<InitJob, (), E>)
        ensures
            r matches Step::Next(job, command) ==> command@.reply_len() == job.spec_reply_len()
                && job.wf(),
            r@ == StepView::<InitJob, (), E>::Next(
                InitJob::AfterReset,
                CommandView::Write(spec_write_frame(Register::CMD, Register::CMD_SOFT_RESET)),
            ),
    {
        Step::Next(
            InitJob::AfterReset,
            Command::Write(write_frame(Register::CMD, Register::CMD_SOFT_RESET)),
        )
    }

    /// Enable the feature engine.
    ///
    /// This must be called after a reset. Once the engine is disabled, the
    /// device must be reset before it can be enabled again. The engine is
    /// polled up to ten times, 10 ms apart, and the operation fails with
    /// `Timeout` if it never reports that it runs.
    pub fn enable_feature_engine<E>(&self) -> (r: Step<FeatureEngineJob, (), E>)
        ensures
            r matches Step::Next(job, command) ==> command@.reply_len() == job.spec_reply_len()
                && job.wf(),
            r@ == StepView::<FeatureEngineJob, (), E>::Next(
                FeatureEngineJob::AfterInit,
                CommandView::Write(
                    spec_write_frame(Register::FEATURE_IO2, Register::FEATURE_ENGINE_INIT),
                ),
            ),
    {
        Step::Next(
            FeatureEngineJob::AfterInit,
            Command::Write(write_frame(Register::FEATURE_IO2, Register::FEATURE_ENGINE_INIT)),
        )
    }

    /// Disable the feature engine.
    ///
    /// A soft reset or power cycle is required before the feature engine can
    /// be enabled again.
    pub fn disable_feature_engine<E>(&self) -> (r: Step<WriteJob, (), E>)
        ensures
            r matches Step::Next(job, command) ==> command@.reply_len() == job.spec_reply_len()
                && job.wf(),
            spec_write_series_step(
                r@,
                seq![spec_write_frame(Register::FEATURE_CTRL, Register::FEATURE_ENGINE_DISABLED)],
            ),
    {
        let frames = vec![write_frame(Register::FEATURE_CTRL, Register::FEATURE_ENGINE_DISABLED)];
        assert(spec_frames_view(frames@) =~= seq![
            spec_write_frame(Register::FEATURE_CTRL, Register::FEATURE_ENGINE_DISABLED),
        ]);
        WriteJob::start(frames)
    }

    /// The frames that write three configuration words to feature memory
    /// address `address`.
    pub open spec fn spec_feature_config_frames(address: u16, words: [u16; 3]) -> Seq<Seq<u8>> {
        seq![
            spec_write_frame(Register::FEATURE_DATA_ADDR, address),
            spec_write_words_frame(Register::FEATURE_DATA_TX, words),
        ]
    }

    /// The frames that write three configuration words to feature memory:
    /// the address, then the words through the data port.
    fn write_feature_config(address: u16, words: [u16; 3]) -> (r: Vec<Vec<u8>>)
        ensures
            spec_frames_view(r@) == Self::spec_feature_config_frames(address, words),
    {
        let frames = vec![
            write_frame(Register::FEATURE_DATA_ADDR, address),
            write_words_frame(Register::FEATURE_DATA_TX, words),
        ];
        assert(spec_frames_view(frames@) =~= Self::spec_feature_config_frames(address, words));
        frames
    }

    /// Configure and enable any-motion detection on the selected axes.
    ///
    /// The accelerometer must already be configured and enabled. Fails with
    /// `InvalidConfig`, before any transfer, when a parameter does not fit.
    pub fn configure_any_motion<E>(&self, config: AnyMotionConfig, axes: MotionAxes) -> (r: Step<
        MotionSetupJob,
        (),
        E,
    >)
        ensures
            r matches Step::Next(job, command) ==> command@.reply_len() == job.spec_reply_len()
                && job.wf(),
            match config.spec_as_no_motion().spec_config_words() {
                Some(words) => spec_setup_step(
                    r@,
                    Self::spec_feature_config_frames(Register::ANY_MOTION_CONFIG_ADDR, words),
                    axes,
                    ANY_MOTION_SHIFT,
                ),
                None => r@ == StepView::<MotionSetupJob, (), E>::Done(Err(Error::InvalidConfig)),
            },
    {
        match config.as_no_motion().config_words() {
            Some(words) => setup_configuring(
                WriteJob::start(
                    Self::write_feature_config(Register::ANY_MOTION_CONFIG_ADDR, words),
                ),
                axes,
                ANY_MOTION_SHIFT,
            ),
            None => Step::Done(Err(Error::InvalidConfig)),
        }
    }

    /// Configure and enable no-motion detection on the selected axes.
    ///
    /// The accelerometer must already be configured and enabled. Fails with
    /// `InvalidConfig`, before any transfer, when a parameter does not fit.
    pub fn configure_no_motion<E>(&self, config: NoMotionConfig, axes: MotionAxes) -> (r: Step<
        MotionSetupJob,
        (),
        E,
    >)
        ensures
            r matches Step::Next(job, command) ==> command@.reply_len() == job.spec_reply_len()
                && job.wf(),
            match config.spec_config_words() {
                Some(words) => spec_setup_step(
                    r@,
                    Self::spec_feature_config_frames(Register::NO_MOTION_CONFIG_ADDR, words),
                    axes,
                    NO_MOTION_SHIFT,
                ),
                None => r@ == StepView::<MotionSetupJob, (), E>::Done(Err(Error::InvalidConfig)),
            },
    {
        match config.config_words() {
            Some(words) => setup_configuring(
                WriteJob::start(
                    Self::write_feature_config(Register::NO_MOTION_CONFIG_ADDR, words),
                ),
                axes,
                NO_MOTION_SHIFT,
            ),
            None => Step::Done(Err(Error::InvalidConfig)),
        }
    }

    /// Set the feature engine's any-motion parameters. Fails with
    /// `InvalidConfig`, before any transfer, when a parameter does not fit.
    pub fn set_any_motion_config<E>(&self, config: AnyMotionConfig) -> (r: Step<WriteJob, (), E>)
        ensures
            r matches Step::Next(job, command) ==> command@.reply_len() == job.spec_reply_len()
                && job.wf(),
            match config.spec_as_no_motion().spec_config_words() {
                Some(words) => spec_write_series_step(
                    r@,
                    Self::spec_feature_config_frames(Register::ANY_MOTION_CONFIG_ADDR, words),
                ),
                None => r@ == StepView::<WriteJob, (), E>::Done(Err(Error::InvalidConfig)),
            },
    {
        match config.as_no_motion().config_words() {
            Some(words) => WriteJob::start(
                Self::write_feature_config(Register::ANY_MOTION_CONFIG_ADDR, words),
            ),
            None => Step::Done(Err(Error::InvalidConfig)),
        }
    }

    /// Set the feature engine's no-motion parameters. Fails with
    /// `InvalidConfig`, before any transfer, when a parameter does not fit.
    pub fn set_no_motion_config<E>(&self, config: NoMotionConfig) -> (r: Step<WriteJob, (), E>)
        ensures
            r matches Step::Next(job, command) ==> command@.reply_len() == job.spec_reply_len()
                && job.wf(),
            match config.spec_config_words() {
                Some(words) => spec_write_series_step(
                    r@,
                    Self::spec_feature_config_frames(Register::NO_MOTION_CONFIG_ADDR, words),
                ),
                None => r@ == StepView::<WriteJob, (), E>::Done(Err(Error::InvalidConfig)),
            },
    {
        match config.config_words() {
            Some(words) => WriteJob::start(
                Self::write_feature_config(Register::NO_MOTION_CONFIG_ADDR, words),
            ),
            None => Step::Done(Err(Error::InvalidConfig)),
        }
    }

    /// Enable any-motion detection on selected axes. Pass `MotionAxes::none`
    /// to disable it. The other bits of `FEATURE_IO0` are kept.
    pub fn set_any_motion_axes<E>(&self, axes: MotionAxes) -> (r: Step<MotionAxesJob, (), E>)
        ensures
            r@ == spec_axes_start::<E>(axes, ANY_MOTION_SHIFT),
            r matches Step::Next(job, command) ==> command@.reply_len() == job.spec_reply_len()
                && job.wf(),
    {
        self.update_motion_axes(axes, ANY_MOTION_SHIFT)
    }

    /// Enable no-motion detection on selected axes. Pass `MotionAxes::none`
    /// to disable it. The other bits of `FEATURE_IO0` are kept.
    pub fn set_no_motion_axes<E>(&self, axes: MotionAxes) -> (r: Step<MotionAxesJob, (), E>)
        ensures
            r@ == spec_axes_start::<E>(axes, NO_MOTION_SHIFT),
            r matches Step::Next(job, command) ==> command@.reply_len() == job.spec_reply_len()
                && job.wf(),
    {
        self.update_motion_axes(axes, NO_MOTION_SHIFT)
    }

    fn update_motion_axes<E>(&self, axes: MotionAxes, shift: u8) -> (r: Step<MotionAxesJob, (), E>)
        requires
            shift <= 13,
        ensures
            r@ == spec_axes_start::<E>(axes, shift),
            r matches Step::Next(job, command) ==> command@.reply_len() == job.spec_reply_len()
                && job.wf(),
    {
        axes_start(axes, shift)
    }

    /// Set the accelerometer configuration: write `ACC_CONF`, record the
    /// range, then, unless the accelerometer is disabled, wait for its data.
    pub fn set_accel_config<E>(&self, config: AccelConfig) -> (r: Step<SensorConfigJob, (), E>)
        ensures
            r matches Step::Next(job, command) ==> command@.reply_len() == job.spec_reply_len()
                && job.wf(),
            r@ == StepView::<SensorConfigJob, (), E>::Next(
                SensorConfigJob::AfterAccelWrite {
                    accel_range: config.range,
                    wait: config.mode != AccelerometerPowerMode::Disable,
                },
                CommandView::Write(
                    spec_write_frame(Register::ACC_CONF, config.spec_register_value()),
                ),
            ),
    {
        Step::Next(
            SensorConfigJob::AfterAccelWrite {
                accel_range: config.range,
                wait: !config.mode.is_disabled(),
            },
            Command::Write(write_frame(Register::ACC_CONF, config.register_value())),
        )
    }

    /// Set the gyroscope configuration: write `GYR_CONF`, record the range,
    /// then, unless the gyroscope is disabled, wait for its data.
    pub fn set_gyro_config<E>(&self, config: GyroConfig) -> (r: Step<SensorConfigJob, (), E>)
        ensures
            r matches Step::Next(job, command) ==> command@.reply_len() == job.spec_reply_len()
                && job.wf(),
            r@ == StepView::<SensorConfigJob, (), E>::Next(
                SensorConfigJob::AfterGyroWrite {
                    gyro_range: config.range,
                    wait: config.mode != GyroscopePowerMode::Disable,
                },
                CommandView::Write(
                    spec_write_frame(Register::GYR_CONF, config.spec_register_value()),
                ),
            ),
    {
        Step::Next(
            SensorConfigJob::AfterGyroWrite {
                gyro_range: config.range,
                wait: !config.mode.is_disabled(),
            },
            Command::Write(write_frame(Register::GYR_CONF, config.register_value())),
        )
    }

    /// Set interrupt register configuration: `INT_MAP1`, then `INT_MAP2`.
    /// Note: Interrupt pins are disabled by default use set_io_interrupt_config to configure them
    pub fn set_interrupt_mapping_config<E>(&self, config: InterruptMapConfig) -> (r: Step<
        WriteJob,
        (),
        E,
    >)
        ensures
            r matches Step::Next(job, command) ==> command@.reply_len() == job.spec_reply_len()
                && job.wf(),
            spec_write_series_step(
                r@,
                seq![
                    spec_write_frame(Register::INT_MAP1, config.spec_map1()),
                    spec_write_frame(Register::INT_MAP2, config.spec_map2()),
                ],
            ),
    {
        let frames = vec![
            write_frame(Register::INT_MAP1, config.map1()),
            write_frame(Register::INT_MAP2, config.map2()),
        ];
        assert(spec_frames_view(frames@) =~= seq![
            spec_write_frame(Register::INT_MAP1, config.spec_map1()),
            spec_write_frame(Register::INT_MAP2, config.spec_map2()),
        ]);
        WriteJob::start(frames)
    }

    /// Set IO interrupt register configuration (`IO_INT_CTRL`)
    pub fn set_io_interrupt_config<E>(&self, config: IOInterruptConfig) -> (r: Step<
        WriteJob,
        (),
        E,
    >)
        ensures
            r matches Step::Next(job, command) ==> command@.reply_len() == job.spec_reply_len()
                && job.wf(),
            spec_write_series_step(
                r@,
                seq![spec_write_frame(Register::INT_CTRL, config.spec_register_value())],
            ),
    {
        let frames = vec![write_frame(Register::INT_CTRL, u16::from(config))];
        assert(spec_frames_view(frames@) =~= seq![
            spec_write_frame(Register::INT_CTRL, config.spec_register_value()),
        ]);
        WriteJob::start(frames)
    }

    /// Set latching interrupt register configuration: the latch mode is
    /// written to the interrupt configuration register `INT_CONF`.
    pub fn set_interrupt_lachting_config<E>(&self, config: InterruptLatch) -> (r: Step<
        WriteJob,
        (),
        E,
    >)
        ensures
            r matches Step::Next(job, command) ==> command@.reply_len() == job.spec_reply_len()
                && job.wf(),
            spec_write_series_step(
                r@,
                seq![spec_write_frame(Register::INT_CONF, config.spec_bits())],
            ),
    {
        let frames = vec![write_frame(Register::INT_CONF, config.bits())];
        assert(spec_frames_view(frames@) =~= seq![
            spec_write_frame(Register::INT_CONF, config.spec_bits()),
        ]);
        WriteJob::start(frames)
    }

    /// The first data register of a sensor.
    pub open spec fn spec_data_register(sensor_type: SensorType) -> u8 {
        match sensor_type {
            SensorType::Accelerometer => Register::ACC_DATA_X,
            SensorType::Gyroscope => Register::GYR_DATA_X,
        }
    }

    fn read_sensor_data<E>(&self, sensor_type: SensorType) -> (r: Step<
        SensorReadJob,
        Sensor3DData,
        E,
    >)
        ensures
            r matches Step::Next(job, command) ==> command@.reply_len() == job.spec_reply_len()
                && job.wf(),
            r@ == StepView::<SensorReadJob, Sensor3DData, E>::Next(
                SensorReadJob,
                CommandView::Read { reg: Self::spec_data_register(sensor_type), len: 6 },
            ),
    {
        let base_reg = match sensor_type {
            SensorType::Accelerometer => Register::ACC_DATA_X,
            SensorType::Gyroscope => Register::GYR_DATA_X,
        };
        Step::Next(SensorReadJob, Command::Read { reg: base_reg, len: 6 })
    }

    /// Read the LSB for the accelerometer: six bytes from `ACC_DATA_X`.
    pub fn read_accel_data<E>(&self) -> (r: Step<SensorReadJob, Sensor3DData, E>)
        ensures
            r matches Step::Next(job, command) ==> command@.reply_len() == job.spec_reply_len()
                && job.wf(),
            r@ == StepView::<SensorReadJob, Sensor3DData, E>::Next(
                SensorReadJob,
                CommandView::Read { reg: Register::ACC_DATA_X, len: 6 },
            ),
    {
        self.read_sensor_data(SensorType::Accelerometer)
    }

    /// Read the LSB for the gyroscope: six bytes from `GYR_DATA_X`.
    pub fn read_gyro_data<E>(&self) -> (r: Step<SensorReadJob, Sensor3DData, E>)
        ensures
            r matches Step::Next(job, command) ==> command@.reply_len() == job.spec_reply_len()
                && job.wf(),
            r@ == StepView::<SensorReadJob, Sensor3DData, E>::Next(
                SensorReadJob,
                CommandView::Read { reg: Register::GYR_DATA_X, len: 6 },
            ),
    {
        self.read_sensor_data(SensorType::Gyroscope)
    }

    /// Wait until the status register reports new data of `sensor_type`,
    /// checking it, then waiting 1 ms, at most 1200 times before failing with
    /// `Timeout`.
    pub fn wait_for_data_ready<E>(&self, sensor_type: SensorType) -> (r: Step<DataReadyJob, (), E>)
        ensures
            r@ == DataReadyJob::spec_start::<E>(sensor_type),
            r matches Step::Next(job, command) ==> command@.reply_len() == job.spec_reply_len()
                && job.wf(),
    {
        DataReadyJob::start(sensor_type)
    }

    /// Read the Timestamp from the device: four bytes from `SENSOR_TIME_0`.
    pub fn read_sensor_timestamp<E>(&self) -> (r: Step<TimestampJob, u32, E>)
        ensures
            r matches Step::Next(job, command) ==> command@.reply_len() == job.spec_reply_len()
                && job.wf(),
            r@ == StepView::<TimestampJob, u32, E>::Next(
                TimestampJob,
                CommandView::Read { reg: Register::SENSOR_TIME_0, len: 4 },
            ),
    {
        Step::Next(TimestampJob, Command::Read { reg: Register::SENSOR_TIME_0, len: 4 })
    }

    /// Configures the FIFO. Nothing is sent when `config` is the
    /// configuration last written; otherwise `FIFO_CONF` is written, then the
    /// watermark in words where `config` has one, and then `config` is
    /// recorded.
    pub fn set_fifo_config<E>(&self, config: &FifoConfig) -> (r: Step<FifoConfigJob, (), E>)
        requires
            *config != self.state().fifo_config ==> spec_watermark_fits(*config),
        ensures
            r matches Step::Next(job, command) ==> command@.reply_len() == job.spec_reply_len()
                && job.wf(),
            r@ == spec_fifo_config_start::<E>(self.state(), *config),
    {
        if *config == self.fifo_config {
            return Step::Done(Ok(()));
        }
        Step::Next(
            FifoConfigJob::AfterConfWrite { config: *config },
            Command::Write(write_frame(Register::FIFO_CONF, config.to_register_value())),
        )
    }

    /// Flushes the FIFO
    pub fn flush_fifo<E>(&self) -> (r: Step<WriteJob, (), E>)
        ensures
            r matches Step::Next(job, command) ==> command@.reply_len() == job.spec_reply_len()
                && job.wf(),
            spec_write_series_step(r@, seq![spec_write_frame(Register::FIFO_CTRL, 0x01)]),
    {
        let frames = vec![write_frame(Register::FIFO_CTRL, 0x01)];
        assert(spec_frames_view(frames@) =~= seq![spec_write_frame(Register::FIFO_CTRL, 0x01)]);
        WriteJob::start(frames)
    }

    /// Reads the number of entries in the FIFO: its fill level in words,
    /// divided by the frame length.
    pub fn get_fifo_entry_count<E>(&self) -> (r: Step<FifoCountJob, u16, E>)
        requires
            self.state().fifo_message_len != 0,
        ensures
            r matches Step::Next(job, command) ==> command@.reply_len() == job.spec_reply_len()
                && job.wf(),
            r@ == StepView::<FifoCountJob, u16, E>::Next(
                FifoCountJob { message_len: self.state().fifo_message_len },
                CommandView::Read { reg: Register::FIFO_FILL_LEVEL, len: 2 },
            ),
    {
        Step::Next(
            FifoCountJob { message_len: self.fifo_message_len },
            Command::Read { reg: Register::FIFO_FILL_LEVEL, len: 2 },
        )
    }

    /// Reads one entry from the FIFO, under the FIFO configuration last
    /// written.
    pub fn read_fifo_entry<E>(&self) -> (r: Step<FifoEntryJob, FifoFrame, E>)
        ensures
            r matches Step::Next(job, command) ==> command@.reply_len() == job.spec_reply_len()
                && job.wf(),
            r@ == StepView::<FifoEntryJob, FifoFrame, E>::Next(
                FifoEntryJob::AfterFillRead { config: self.state().fifo_config },
                CommandView::Read { reg: Register::FIFO_FILL_LEVEL, len: 2 },
            ),
    {
        Step::Next(
            FifoEntryJob::AfterFillRead { config: self.fifo_config },
            Command::Read { reg: Register::FIFO_FILL_LEVEL, len: 2 },
        )
    }

    /// The interrupt status register of a pin.
    pub open spec fn spec_int_status_register(pin: InterruptPin) -> u8 {
        match pin {
            InterruptPin::Int1 => Register::INT_STATUS_INT1,
            InterruptPin::Int2 => Register::INT_STATUS_INT2,
            InterruptPin::IC3IBI => Register::INT_STATUS_INT_IBI,
        }
    }

    /// Each pin's status is read from its own status register: `INT_STATUS_INT1`
    /// (0x0D), `INT_STATUS_INT2` (0x0E) and `INT_STATUS_INT_IBI` (0x0F), three
    /// distinct registers.
    pub proof fn lemma_int_status_registers()
        ensures
            Self::spec_int_status_register(InterruptPin::Int1) == Register::INT_STATUS_INT1,
            Self::spec_int_status_register(InterruptPin::Int2) == Register::INT_STATUS_INT2,
            Self::spec_int_status_register(InterruptPin::IC3IBI) == Register::INT_STATUS_INT_IBI,
            Register::INT_STATUS_INT1 == 0x0D,
            Register::INT_STATUS_INT2 == 0x0E,
            Register::INT_STATUS_INT_IBI == 0x0F,
            forall|a: InterruptPin, b: InterruptPin|
                a != b ==> Self::spec_int_status_register(a) != Self::spec_int_status_register(b),
    {
    }

    /// Reads the interrupt source for the given pin. This resets the interrupt.
    pub fn get_int_status<E>(&self, pin: InterruptPin) -> (r: Step<
        IntStatusJob,
        InterruptSource,
        E,
    >)
        ensures
            r matches Step::Next(job, command) ==> command@.reply_len() == job.spec_reply_len()
                && job.wf(),
            r@ == StepView::<IntStatusJob, InterruptSource, E>::Next(
                IntStatusJob,
                CommandView::Read { reg: Self::spec_int_status_register(pin), len: 2 },
            ),
            r matches Step::Next(_, Command::Read { reg, len }) && len == 2 && reg == match pin {
                InterruptPin::Int1 => Register::INT_STATUS_INT1,
                InterruptPin::Int2 => Register::INT_STATUS_INT2,
                InterruptPin::IC3IBI => Register::INT_STATUS_INT_IBI,
            },
    {
        let reg = match pin {
            InterruptPin::Int1 => Register::INT_STATUS_INT1,
            InterruptPin::Int2 => Register::INT_STATUS_INT2,
            InterruptPin::IC3IBI => Register::INT_STATUS_INT_IBI,
        };
        Step::Next(IntStatusJob, Command::Read { reg, len: 2 })
    }

    /// Reads any 16-bit register.
    pub fn debug_read<E>(&self, register: u8) -> (r: Step<WordReadJob, u16, E>)
        ensures
            r matches Step::Next(job, command) ==> command@.reply_len() == job.spec_reply_len()
                && job.wf(),
            r@ == StepView::<WordReadJob, u16, E>::Next(
                WordReadJob,
                CommandView::Read { reg: register, len: 2 },
            ),
    {
        Step::Next(WordReadJob, Command::Read { reg: register, len: 2 })
    }

    /// Writes any 16-bit register.
    pub fn debug_write<E>(&self, register: u8, value: u16) -> (r: Step<WriteJob, (), E>)
        ensures
            r matches Step::Next(job, command) ==> command@.reply_len() == job.spec_reply_len()
                && job.wf(),
            spec_write_series_step(r@, seq![spec_write_frame(register, value)]),
    {
        let frames = vec![write_frame(register, value)];
        assert(spec_frames_view(frames@) =~= seq![spec_write_frame(register, value)]);
        WriteJob::start(frames)
    }
}

} // verus!

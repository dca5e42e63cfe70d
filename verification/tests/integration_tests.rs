use bmi323::device::{read_payload, I2C_READ_DUMMY_BYTES};
use bmi323::jobs::{
    DataReadyJob, FeatureEngineJob, FifoConfigJob, FifoCountJob, FifoEntryJob, InitJob,
    IntStatusJob, MotionAxesJob, MotionSetupJob, SensorConfigJob, SensorReadJob, TimestampJob,
    WordReadJob, WriteJob,
};
use bmi323::{
    AccelConfig, AccelerometerPowerMode, AccelerometerRange, AnyMotionConfig, AverageNum,
    Bandwidth, Bmi323, Command, Error, FifoConfig, GyroConfig, GyroscopePowerMode,
    GyroscopeRange, I2cInterface, MotionAxes, NoMotionConfig, OutputDataRate, SensorType, Step,
};

/// One expected I2C transaction, as the sensor's bus would see it.
#[derive(Debug, Clone, PartialEq)]
enum I2cTransaction {
    Write(u8, Vec<u8>),
    WriteRead(u8, Vec<u8>, Vec<u8>),
}

impl I2cTransaction {
    fn write(address: u8, bytes: Vec<u8>) -> Self {
        I2cTransaction::Write(address, bytes)
    }

    fn write_read(address: u8, bytes: Vec<u8>, read: Vec<u8>) -> Self {
        I2cTransaction::WriteRead(address, bytes, read)
    }
}

/// An I2C bus that checks each transaction against a script.
struct I2cMock {
    expected: Vec<I2cTransaction>,
    next: usize,
}

impl I2cMock {
    fn new(expected: &[I2cTransaction]) -> Self {
        I2cMock { expected: expected.to_vec(), next: 0 }
    }

    fn take(&mut self) -> I2cTransaction {
        assert!(self.next < self.expected.len(), "unexpected transaction");
        let t = self.expected[self.next].clone();
        self.next += 1;
        t
    }

    fn done(&self) {
        assert_eq!(self.next, self.expected.len(), "transactions left over");
    }
}

/// A delay that does not wait, and counts.
#[derive(Default)]
struct MockDelay {
    delays_us: u64,
}

type Dev = Bmi323<I2cInterface<I2cMock>, MockDelay>;

/// Performs one command on the mock bus, the way the I2C interface does.
fn perform(dev: &mut Dev, command: Command) -> Vec<u8> {
    let address = dev.iface.address;
    match command {
        Command::Write(bytes) => {
            assert_eq!(dev.iface.i2c.take(), I2cTransaction::Write(address, bytes));
            Vec::new()
        }
        Command::Read { reg, len } => match dev.iface.i2c.take() {
            I2cTransaction::WriteRead(a, w, raw) => {
                assert_eq!(a, address);
                assert_eq!(w, vec![reg]);
                assert_eq!(raw.len(), len + I2C_READ_DUMMY_BYTES);
                read_payload(&raw, I2C_READ_DUMMY_BYTES)
            }
            other => panic!("expected a read of {:#x}, script has {:?}", reg, other),
        },
        Command::DelayUs(us) => {
            dev.delay.delays_us += us as u64;
            Vec::new()
        }
        Command::DelayMs(ms) => {
            dev.delay.delays_us += 1000 * ms as u64;
            Vec::new()
        }
    }
}

trait Job: Sized {
    type Out;
    fn resume_on(self, dev: &mut Dev, reply: &[u8]) -> Step<Self, Self::Out, ()>;
}

impl Job for InitJob {
    type Out = ();
    fn resume_on(self, _dev: &mut Dev, reply: &[u8]) -> Step<Self, (), ()> {
        self.resume(reply)
    }
}

impl Job for WriteJob {
    type Out = ();
    fn resume_on(self, _dev: &mut Dev, reply: &[u8]) -> Step<Self, (), ()> {
        self.resume(reply)
    }
}

impl Job for FeatureEngineJob {
    type Out = ();
    fn resume_on(self, _dev: &mut Dev, reply: &[u8]) -> Step<Self, (), ()> {
        self.resume(reply)
    }
}

impl Job for DataReadyJob {
    type Out = ();
    fn resume_on(self, _dev: &mut Dev, reply: &[u8]) -> Step<Self, (), ()> {
        self.resume(reply)
    }
}

impl Job for SensorConfigJob {
    type Out = ();
    fn resume_on(self, dev: &mut Dev, reply: &[u8]) -> Step<Self, (), ()> {
        self.resume(dev, reply)
    }
}

impl Job for SensorReadJob {
    type Out = bmi323::Sensor3DData;
    fn resume_on(self, _dev: &mut Dev, reply: &[u8]) -> Step<Self, Self::Out, ()> {
        self.resume(reply)
    }
}

impl Job for TimestampJob {
    type Out = u32;
    fn resume_on(self, _dev: &mut Dev, reply: &[u8]) -> Step<Self, u32, ()> {
        self.resume(reply)
    }
}

impl Job for IntStatusJob {
    type Out = bmi323::InterruptSource;
    fn resume_on(self, _dev: &mut Dev, reply: &[u8]) -> Step<Self, Self::Out, ()> {
        self.resume(reply)
    }
}

impl Job for WordReadJob {
    type Out = u16;
    fn resume_on(self, _dev: &mut Dev, reply: &[u8]) -> Step<Self, u16, ()> {
        self.resume(reply)
    }
}

impl Job for FifoCountJob {
    type Out = u16;
    fn resume_on(self, _dev: &mut Dev, reply: &[u8]) -> Step<Self, u16, ()> {
        self.resume(reply)
    }
}

impl Job for FifoEntryJob {
    type Out = bmi323::FifoFrame;
    fn resume_on(self, _dev: &mut Dev, reply: &[u8]) -> Step<Self, Self::Out, ()> {
        self.resume(reply)
    }
}

impl Job for FifoConfigJob {
    type Out = ();
    fn resume_on(self, dev: &mut Dev, reply: &[u8]) -> Step<Self, (), ()> {
        self.resume(dev, reply)
    }
}

impl Job for MotionAxesJob {
    type Out = ();
    fn resume_on(self, _dev: &mut Dev, reply: &[u8]) -> Step<Self, (), ()> {
        self.resume(reply)
    }
}

impl Job for MotionSetupJob {
    type Out = ();
    fn resume_on(self, _dev: &mut Dev, reply: &[u8]) -> Step<Self, (), ()> {
        self.resume(reply)
    }
}

/// Runs an operation to its end on the mock bus.
fn run<J: Job>(dev: &mut Dev, first: Step<J, J::Out, ()>) -> Result<J::Out, Error<()>> {
    let mut step = first;
    loop {
        match step {
            Step::Done(result) => return result,
            Step::Next(job, command) => {
                let reply = perform(dev, command);
                step = job.resume_on(dev, &reply);
            }
        }
    }
}

fn device(expectations: &[I2cTransaction]) -> Dev {
    Bmi323::new_with_i2c(I2cMock::new(expectations), 0x68, MockDelay::default())
}

#[test]
fn test_conversion() {
    let accel_config = AccelConfig::builder()
        .odr(OutputDataRate::Odr100hz)
        .range(AccelerometerRange::G16)
        .bw(Bandwidth::OdrQuarter) // ODR/4
        .avg_num(AverageNum::Avg64)
        .mode(AccelerometerPowerMode::Normal)
        .build();
    assert_eq!(
        accel_config,
        AccelConfig::from(u16::from(accel_config.clone()))
    );

    let gyro_config = GyroConfig::builder()
        .odr(OutputDataRate::Odr100hz)
        .range(GyroscopeRange::DPS2000)
        .bw(Bandwidth::OdrQuarter)
        .avg_num(AverageNum::Avg64)
        .mode(GyroscopePowerMode::Normal)
        .build();
    assert_eq!(
        gyro_config,
        GyroConfig::from(u16::from(gyro_config.clone()))
    );
}

//I2C has two dummy bytes at the start of read
#[test]
fn test_bmi323_init() {
    let expectations = [
        I2cTransaction::write(0x68, vec![0x7E, 0xAF, 0xDE]), //soft reset
        I2cTransaction::write_read(0x68, vec![0x01], vec![0x00, 0x00, 0x00]), //state after reset
        I2cTransaction::write_read(0x68, vec![0x00], vec![0x00, 0x00, 0x43]), //chip ID
    ];

    let mut bmi323 = device(&expectations);
    let first = bmi323.init();
    run(&mut bmi323, first).unwrap();
    assert_eq!(bmi323.delay.delays_us, 2000);

    bmi323.iface.i2c.done();
}

#[test]
fn test_disable_feature_engine() {
    let expectations = [I2cTransaction::write(0x68, vec![0x40, 0x00, 0x00])];
    let mut bmi323 = device(&expectations);

    let first = bmi323.disable_feature_engine();
    run(&mut bmi323, first).unwrap();

    bmi323.iface.i2c.done();
}

#[test]
fn test_configure_any_motion() {
    let expectations = [
        I2cTransaction::write(0x68, vec![0x41, 0x05, 0x00]),
        I2cTransaction::write(0x68, vec![0x42, 0x08, 0x10, 0x05, 0x00, 0xFA, 0xA0]),
        I2cTransaction::write_read(0x68, vec![0x10], vec![0x00, 0x00, 0x00, 0x00]),
        I2cTransaction::write(0x68, vec![0x10, 0x00, 0x00]),
        I2cTransaction::write(0x68, vec![0x10, 0x38, 0x00]),
        I2cTransaction::write(0x68, vec![0x14, 0x01, 0x00]),
    ];

    let mut bmi323 = device(&expectations);

    let first = bmi323.configure_any_motion(AnyMotionConfig::default(), MotionAxes::all());
    run(&mut bmi323, first).unwrap();

    bmi323.iface.i2c.done();
}

#[test]
fn test_configure_no_motion_preserves_other_features() {
    let expectations = [
        I2cTransaction::write(0x68, vec![0x41, 0x08, 0x00]),
        I2cTransaction::write(0x68, vec![0x42, 0x1E, 0x10, 0x03, 0x00, 0xFA, 0xA0]),
        I2cTransaction::write_read(0x68, vec![0x10], vec![0x00, 0x00, 0x38, 0x00]),
        I2cTransaction::write(0x68, vec![0x10, 0x00, 0x00]),
        I2cTransaction::write(0x68, vec![0x10, 0x3F, 0x00]),
        I2cTransaction::write(0x68, vec![0x14, 0x01, 0x00]),
    ];

    let mut bmi323 = device(&expectations);

    let first = bmi323.configure_no_motion(NoMotionConfig::default(), MotionAxes::all());
    run(&mut bmi323, first).unwrap();

    bmi323.iface.i2c.done();
}

#[test]
fn test_motion_config_rejects_values_that_do_not_fit() {
    let expectations = [];
    let mut bmi323 = device(&expectations);
    let config = AnyMotionConfig {
        threshold: 4096,
        ..AnyMotionConfig::default()
    };

    let first = bmi323.set_any_motion_config(config);
    assert!(matches!(
        run(&mut bmi323, first),
        Err(bmi323::Error::InvalidConfig)
    ));

    bmi323.iface.i2c.done();
}

#[test]
fn test_bmi323_set_sensor_config() {
    let expectations = [
        I2cTransaction::write(0x68, vec![0x20, 0xB8, 0x46]), // Accelerometer config
        I2cTransaction::write_read(0x68, vec![0x02], vec![0x00, 0x00, 0x80]), //check for data ready
        I2cTransaction::write(0x68, vec![0x21, 0x48, 0x46]), // Gyroscope config
        I2cTransaction::write_read(0x68, vec![0x02], vec![0x00, 0x00, 0x40]), //check for data ready
    ];

    let mut bmi323 = device(&expectations);

    let accel_config = AccelConfig::builder()
        .odr(OutputDataRate::Odr100hz)
        .range(AccelerometerRange::G16)
        .bw(Bandwidth::OdrQuarter) // ODR/4
        .avg_num(AverageNum::Avg64)
        .mode(AccelerometerPowerMode::Normal)
        .build();

    let gyro_config = GyroConfig::builder()
        .odr(OutputDataRate::Odr100hz)
        .range(GyroscopeRange::DPS2000)
        .bw(Bandwidth::OdrHalf) // ODR/2
        .avg_num(AverageNum::Avg64)
        .mode(GyroscopePowerMode::Normal)
        .build();

    let first = bmi323.set_accel_config(accel_config);
    run(&mut bmi323, first).unwrap();
    let first = bmi323.set_gyro_config(gyro_config);
    run(&mut bmi323, first).unwrap();
    assert_eq!(bmi323.accel_range(), AccelerometerRange::G16);
    assert_eq!(bmi323.gyro_range(), GyroscopeRange::DPS2000);

    bmi323.iface.i2c.done();
}

#[test]
fn test_bmi323_read_sensor_data() {
    let expectations = [I2cTransaction::write_read(
        0x68,
        vec![0x03],
        vec![0x00, 0x00, 0, 0, 0, 0, 0, 0],
    )];

    let mut bmi323 = device(&expectations);

    let first = bmi323.read_accel_data();
    let sensor_data = run(&mut bmi323, first).unwrap();
    assert_eq!(sensor_data.x, 0);
    assert_eq!(sensor_data.y, 0);
    assert_eq!(sensor_data.z, 0);

    bmi323.iface.i2c.done();
}

#[test]
fn test_bmi323_read_int_source() {
    let expectations = [I2cTransaction::write_read(
        0x68,
        vec![0x0D],
        vec![0x00, 0x00, 0x00, 0x30],
    )];

    let mut bmi323 = device(&expectations);

    let first = bmi323.get_int_status(bmi323::InterruptPin::Int1);
    let source = run(&mut bmi323, first).unwrap();
    assert!(source.gyr_drdy);
    assert!(source.acc_drdy);
    assert!(!source.fifo_full);
    assert!(!source.fifo_watermark);

    bmi323.iface.i2c.done();
}

#[test]
fn init_rejects_device_reporting_fatal_error() {
    let expectations = [
        I2cTransaction::write(0x68, vec![0x7E, 0xAF, 0xDE]),
        I2cTransaction::write_read(0x68, vec![0x01], vec![0x00, 0x00, 0x01]),
    ];
    let mut bmi323 = device(&expectations);
    let first = bmi323.init();
    assert_eq!(run(&mut bmi323, first), Err(Error::InvalidDevice));
    bmi323.iface.i2c.done();
}

#[test]
fn init_rejects_wrong_chip_id() {
    let expectations = [
        I2cTransaction::write(0x68, vec![0x7E, 0xAF, 0xDE]),
        I2cTransaction::write_read(0x68, vec![0x01], vec![0x00, 0x00, 0x00]),
        I2cTransaction::write_read(0x68, vec![0x00], vec![0x00, 0x00, 0x44]),
    ];
    let mut bmi323 = device(&expectations);
    let first = bmi323.init();
    assert_eq!(run(&mut bmi323, first), Err(Error::InvalidDevice));
    bmi323.iface.i2c.done();
}

#[test]
fn enable_feature_engine_succeeds_on_third_poll() {
    let mut expectations = vec![
        I2cTransaction::write(0x68, vec![0x12, 0x2C, 0x01]),
        I2cTransaction::write(0x68, vec![0x14, 0x01, 0x00]),
        I2cTransaction::write(0x68, vec![0x40, 0x01, 0x00]),
    ];
    expectations.push(I2cTransaction::write_read(0x68, vec![0x11], vec![0, 0, 0x00, 0x00]));
    expectations.push(I2cTransaction::write_read(0x68, vec![0x11], vec![0, 0, 0x02, 0x00]));
    expectations.push(I2cTransaction::write_read(0x68, vec![0x11], vec![0, 0, 0x01, 0x00]));
    let mut bmi323 = device(&expectations);
    let first = bmi323.enable_feature_engine();
    run(&mut bmi323, first).unwrap();
    assert_eq!(bmi323.delay.delays_us, 30_000);
    bmi323.iface.i2c.done();
}

#[test]
fn enable_feature_engine_times_out_after_ten_polls() {
    let mut expectations = vec![
        I2cTransaction::write(0x68, vec![0x12, 0x2C, 0x01]),
        I2cTransaction::write(0x68, vec![0x14, 0x01, 0x00]),
        I2cTransaction::write(0x68, vec![0x40, 0x01, 0x00]),
    ];
    for _ in 0..10 {
        expectations.push(I2cTransaction::write_read(0x68, vec![0x11], vec![0, 0, 0x00, 0x00]));
    }
    let mut bmi323 = device(&expectations);
    let first = bmi323.enable_feature_engine();
    assert_eq!(run(&mut bmi323, first), Err(Error::Timeout));
    assert_eq!(bmi323.delay.delays_us, 100_000);
    bmi323.iface.i2c.done();
}

#[test]
fn wait_for_data_ready_times_out_after_1200_delays() {
    let expectations: Vec<I2cTransaction> = (0..1201)
        .map(|_| I2cTransaction::write_read(0x68, vec![0x02], vec![0, 0, 0x40]))
        .collect();
    let mut bmi323 = device(&expectations);
    let first = bmi323.wait_for_data_ready(SensorType::Accelerometer);
    assert_eq!(run(&mut bmi323, first), Err(Error::Timeout));
    assert_eq!(bmi323.delay.delays_us, 1_200_000);
    bmi323.iface.i2c.done();
}

#[test]
fn wait_for_data_ready_stops_when_ready() {
    let expectations = [
        I2cTransaction::write_read(0x68, vec![0x02], vec![0, 0, 0x80]),
        I2cTransaction::write_read(0x68, vec![0x02], vec![0, 0, 0x40]),
    ];
    let mut bmi323 = device(&expectations);
    let first = bmi323.wait_for_data_ready(SensorType::Gyroscope);
    run(&mut bmi323, first).unwrap();
    assert_eq!(bmi323.delay.delays_us, 1000);
    bmi323.iface.i2c.done();
}

#[test]
fn disabled_sensor_is_not_waited_for() {
    let expectations = [I2cTransaction::write(0x68, vec![0x20, 0x28, 0x00])];
    let mut bmi323 = device(&expectations);
    let config = AccelConfig::builder()
        .range(AccelerometerRange::G8)
        .bw(Bandwidth::OdrHalf)
        .mode(AccelerometerPowerMode::Disable)
        .build();
    let first = bmi323.set_accel_config(config);
    run(&mut bmi323, first).unwrap();
    bmi323.iface.i2c.done();
}

#[test]
fn set_any_motion_axes_keeps_other_bits() {
    let expectations = [
        I2cTransaction::write_read(0x68, vec![0x10], vec![0, 0, 0xFF, 0xA5]),
        I2cTransaction::write(0x68, vec![0x10, 0x00, 0x00]),
        I2cTransaction::write(0x68, vec![0x10, 0xC7 | (0b101 << 3), 0xA5]),
        I2cTransaction::write(0x68, vec![0x14, 0x01, 0x00]),
    ];
    let mut bmi323 = device(&expectations);
    let axes = MotionAxes { x: true, y: false, z: true };
    let first = bmi323.set_any_motion_axes(axes);
    run(&mut bmi323, first).unwrap();
    bmi323.iface.i2c.done();
}

#[test]
fn fifo_config_written_once_then_skipped() {
    let config = FifoConfig {
        accel_enabled: true,
        gyro_enabled: true,
        watermark_level: Some(10),
        ..FifoConfig::default()
    };
    let expectations = [
        I2cTransaction::write(0x68, vec![0x36, 0x00, 0x06]),
        I2cTransaction::write(0x68, vec![0x35, 60, 0x00]),
    ];
    let mut bmi323 = device(&expectations);
    let first = bmi323.set_fifo_config(&config);
    run(&mut bmi323, first).unwrap();
    assert_eq!(bmi323.fifo_config(), config);
    assert_eq!(bmi323.fifo_message_len(), 6);
    let first = bmi323.set_fifo_config(&config);
    run(&mut bmi323, first).unwrap();
    bmi323.iface.i2c.done();
}

#[test]
fn fifo_watermark_is_capped() {
    let config = FifoConfig {
        accel_enabled: true,
        gyro_enabled: true,
        temp_enabled: true,
        timestamp_enabled: true,
        stop_on_full: true,
        watermark_level: Some(200),
    };
    let expectations = [
        I2cTransaction::write(0x68, vec![0x36, 0x01, 0x0F]),
        I2cTransaction::write(0x68, vec![0x35, 0xFF, 0x03]),
    ];
    let mut bmi323 = device(&expectations);
    let first = bmi323.set_fifo_config(&config);
    run(&mut bmi323, first).unwrap();
    assert_eq!(bmi323.fifo_message_len(), 8);
    bmi323.iface.i2c.done();
}

#[test]
fn fifo_entry_count_and_entry() {
    let config = FifoConfig {
        accel_enabled: true,
        temp_enabled: true,
        timestamp_enabled: true,
        ..FifoConfig::default()
    };
    let expectations = [
        I2cTransaction::write(0x68, vec![0x36, 0x00, 0x0B]),
        I2cTransaction::write_read(0x68, vec![0x15], vec![0, 0, 11, 0]),
        I2cTransaction::write_read(0x68, vec![0x15], vec![0, 0, 5, 0]),
        I2cTransaction::write_read(
            0x68,
            vec![0x16],
            vec![0, 0, 0x01, 0x00, 0xFF, 0xFF, 0x00, 0x80, 0x34, 0x12, 0x78, 0x56],
        ),
        I2cTransaction::write_read(0x68, vec![0x15], vec![0, 0, 4, 0]),
    ];
    let mut bmi323 = device(&expectations);
    let first = bmi323.set_fifo_config(&config);
    run(&mut bmi323, first).unwrap();
    let first = bmi323.get_fifo_entry_count();
    assert_eq!(run(&mut bmi323, first), Ok(2));
    let first = bmi323.read_fifo_entry();
    let frame = run(&mut bmi323, first).unwrap();
    assert_eq!(frame.accel, Some(bmi323::Sensor3DData { x: 1, y: -1, z: -32768 }));
    assert_eq!(frame.gyro, None);
    assert_eq!(frame.temp, Some(0x1234));
    assert_eq!(frame.timestamp, Some(0x5678));
    let first = bmi323.read_fifo_entry();
    assert_eq!(run(&mut bmi323, first), Err(Error::FifoEmpty));
    bmi323.iface.i2c.done();
}

#[test]
fn fifo_entry_with_invalid_marker_has_no_sample() {
    let config = FifoConfig { accel_enabled: true, gyro_enabled: true, ..FifoConfig::default() };
    let expectations = [
        I2cTransaction::write(0x68, vec![0x36, 0x00, 0x06]),
        I2cTransaction::write_read(0x68, vec![0x15], vec![0, 0, 6, 0]),
        I2cTransaction::write_read(
            0x68,
            vec![0x16],
            vec![0, 0, 0x01, 0x7F, 0, 0, 0, 0, 0x02, 0x7F, 0, 0, 0, 0],
        ),
    ];
    let mut bmi323 = device(&expectations);
    let first = bmi323.set_fifo_config(&config);
    run(&mut bmi323, first).unwrap();
    let first = bmi323.read_fifo_entry();
    let frame = run(&mut bmi323, first).unwrap();
    assert_eq!(frame.accel, None);
    assert_eq!(frame.gyro, None);
    bmi323.iface.i2c.done();
}

#[test]
fn timestamp_is_little_endian() {
    let expectations = [I2cTransaction::write_read(
        0x68,
        vec![0x0A],
        vec![0, 0, 0x78, 0x56, 0x34, 0x12],
    )];
    let mut bmi323 = device(&expectations);
    let first = bmi323.read_sensor_timestamp();
    assert_eq!(run(&mut bmi323, first), Ok(0x1234_5678));
    bmi323.iface.i2c.done();
}

#[test]
fn gyro_data_and_debug_access() {
    let expectations = [
        I2cTransaction::write_read(0x68, vec![0x06], vec![0, 0, 0x0B, 0x86, 0x01, 0x00, 0xFF, 0x7F]),
        I2cTransaction::write_read(0x68, vec![0x21], vec![0, 0, 0x48, 0x40]),
        I2cTransaction::write(0x68, vec![0x21, 0x48, 0x46]),
    ];
    let mut bmi323 = device(&expectations);
    let first = bmi323.read_gyro_data();
    let sample = run(&mut bmi323, first).unwrap();
    assert_eq!(sample, bmi323::Sensor3DData { x: -31221, y: 1, z: 0x7FFF });
    let first = bmi323.debug_read(0x21);
    assert_eq!(run(&mut bmi323, first), Ok(0x4048));
    let first = bmi323.debug_write(0x21, 0x4648);
    run(&mut bmi323, first).unwrap();
    bmi323.iface.i2c.done();
}

#[test]
fn interrupt_and_fifo_control_writes() {
    let map = bmi323::InterruptMapConfig::builder()
        .any_motion(bmi323::InterruptMapping::Int1)
        .fifo_full(bmi323::InterruptMapping::Int2)
        .build();
    let io = bmi323::IOInterruptConfig::builder()
        .int1_lvl(bmi323::InterruptLevel::ActiveHigh)
        .int1_enable(bmi323::InterruptEnable::Enabled)
        .int2_enable(bmi323::InterruptEnable::Enabled)
        .build();
    let expectations = [
        I2cTransaction::write(0x68, vec![0x3A, 0x04, 0x00]),
        I2cTransaction::write(0x68, vec![0x3B, 0x00, 0x80]),
        I2cTransaction::write(0x68, vec![0x38, 0x05, 0x02]),
        I2cTransaction::write(0x68, vec![0x39, 0x01, 0x00]),
        I2cTransaction::write(0x68, vec![0x37, 0x01, 0x00]),
    ];
    let mut bmi323 = device(&expectations);
    let first = bmi323.set_interrupt_mapping_config(map);
    run(&mut bmi323, first).unwrap();
    let first = bmi323.set_io_interrupt_config(io);
    run(&mut bmi323, first).unwrap();
    let first = bmi323.set_interrupt_lachting_config(bmi323::InterruptLatch::Latched);
    run(&mut bmi323, first).unwrap();
    let first = bmi323.flush_fifo();
    run(&mut bmi323, first).unwrap();
    bmi323.iface.i2c.done();
}

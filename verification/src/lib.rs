//! Driver logic for the Bosch BMI323 inertial measurement unit.
//!
//! The library computes every register value the sensor is configured with,
//! decodes every value read from it, and decides, step by step, which bus
//! transfer each operation needs next. The transfers themselves are made by
//! the host: see `transfer` for how an operation is run.
pub mod config;
pub mod device;
pub mod interrupt;
pub mod jobs;
pub mod motion;
pub mod registers;
pub mod sensor;
pub mod transfer;
pub mod types;
pub mod wire;

pub use config::{AccelConfig, AccelConfigBuilder, GyroConfig, GyroConfigBuilder};
pub use device::{Bmi323, DriverState, I2cInterface, SpiInterface};
pub use interrupt::{
    IOInterruptConfig, IOInterruptConfigBuilder, InterruptEnable, InterruptLatch, InterruptLevel,
    InterruptMapConfig, InterruptMapConfigBuilder, InterruptMapping, InterruptOd, InterruptPin,
    InterruptSource,
};
pub use motion::{AnyMotionConfig, MotionAxes, NoMotionConfig, ReferenceUpdate};
pub use registers::Register;
pub use sensor::{get_sensor3d_data, Error, FifoConfig, FifoFrame, Sensor3DData, SensorType};
pub use transfer::{Command, Step};
pub use types::{
    AccelerometerPowerMode, AccelerometerRange, AverageNum, Bandwidth, GyroscopePowerMode,
    GyroscopeRange, OutputDataRate,
};

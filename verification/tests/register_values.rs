use bmi323::device::{read_payload, spi_read_address, SPI_READ_DUMMY_BYTES};
use bmi323::motion::update_axes;
use bmi323::wire::{le_i16, le_u16, le_u32, write_frame, write_words_frame};
use bmi323::{
    AccelConfig, AccelerometerPowerMode, AccelerometerRange, AnyMotionConfig, AverageNum,
    Bandwidth, GyroConfig, GyroscopePowerMode, GyroscopeRange, InterruptMapConfig,
    InterruptMapping, MotionAxes, NoMotionConfig, OutputDataRate, ReferenceUpdate,
};

const ODRS: [OutputDataRate; 14] = [
    OutputDataRate::Odr0_78hz,
    OutputDataRate::Odr1_56hz,
    OutputDataRate::Odr3_12hz,
    OutputDataRate::Odr6_25hz,
    OutputDataRate::Odr12_5hz,
    OutputDataRate::Odr25hz,
    OutputDataRate::Odr50hz,
    OutputDataRate::Odr100hz,
    OutputDataRate::Odr200hz,
    OutputDataRate::Odr400hz,
    OutputDataRate::Odr800hz,
    OutputDataRate::Odr1600hz,
    OutputDataRate::Odr3200hz,
    OutputDataRate::Odr6400hz,
];

const AVGS: [AverageNum; 7] = [
    AverageNum::Avg1,
    AverageNum::Avg2,
    AverageNum::Avg4,
    AverageNum::Avg8,
    AverageNum::Avg16,
    AverageNum::Avg32,
    AverageNum::Avg64,
];

#[test]
fn every_accel_config_reads_back_from_its_register() {
    let ranges = [
        AccelerometerRange::G2,
        AccelerometerRange::G4,
        AccelerometerRange::G8,
        AccelerometerRange::G16,
    ];
    let modes = [
        AccelerometerPowerMode::Disable,
        AccelerometerPowerMode::LowPower,
        AccelerometerPowerMode::Normal,
        AccelerometerPowerMode::HighPerf,
    ];
    for odr in ODRS {
        for range in ranges {
            for bw in [Bandwidth::OdrHalf, Bandwidth::OdrQuarter] {
                for avg_num in AVGS {
                    for mode in modes {
                        let c = AccelConfig { odr, range, bw, avg_num, mode };
                        let v = u16::from(c);
                        assert_eq!(AccelConfig::from(v), c);
                        assert_eq!(v & !0x77FF, 0);
                    }
                }
            }
        }
    }
}

#[test]
fn every_gyro_config_reads_back_from_its_register() {
    let ranges = [
        GyroscopeRange::DPS125,
        GyroscopeRange::DPS250,
        GyroscopeRange::DPS500,
        GyroscopeRange::DPS1000,
        GyroscopeRange::DPS2000,
    ];
    let modes = [
        GyroscopePowerMode::Disable,
        GyroscopePowerMode::DriveEnabledOnly,
        GyroscopePowerMode::LowPower,
        GyroscopePowerMode::Normal,
        GyroscopePowerMode::HighPerf,
    ];
    for odr in ODRS {
        for range in ranges {
            for bw in [Bandwidth::OdrHalf, Bandwidth::OdrQuarter] {
                for avg_num in AVGS {
                    for mode in modes {
                        let c = GyroConfig { odr, range, bw, avg_num, mode };
                        assert_eq!(GyroConfig::from(u16::from(c)), c);
                    }
                }
            }
        }
    }
}

#[test]
fn valid_register_value_is_written_back_without_unused_bits() {
    let v: u16 = 0x4000 | 0x0800 | 0x0600 | 0x0080 | 0x0030 | 0x0009 | 0x8000;
    assert_eq!(u16::from(AccelConfig::from(v)), v & 0x77FF);
}

#[test]
fn unknown_register_fields_read_as_fallbacks() {
    // odr 0, range 7, avg 7, mode 1: none of them names a setting
    let v: u16 = 0x1770;
    let a = AccelConfig::from(v);
    assert_eq!(a.odr, OutputDataRate::Odr100hz);
    assert_eq!(a.range, AccelerometerRange::G2);
    assert_eq!(a.avg_num, AverageNum::Avg1);
    assert_eq!(a.mode, AccelerometerPowerMode::Normal);
    let g = GyroConfig::from(0x2070);
    assert_eq!(g.range, GyroscopeRange::DPS2000);
    assert_eq!(g.mode, GyroscopePowerMode::Normal);
}

#[test]
fn builders_fill_unset_fields_with_defaults() {
    let a = AccelConfig::builder().build();
    assert_eq!(a.range, AccelerometerRange::G8);
    assert_eq!(a.bw, Bandwidth::OdrQuarter);
    let g = GyroConfig::builder().build();
    assert_eq!(g.bw, Bandwidth::OdrHalf);
    assert_eq!(u16::from(g), 0x4048);
    assert_eq!(AccelConfig::default().bw, Bandwidth::OdrHalf);
}

#[test]
fn interrupt_map_fields_read_back() {
    let c = InterruptMapConfig::builder()
        .no_motion(InterruptMapping::Int1)
        .any_motion(InterruptMapping::Int2)
        .flat(InterruptMapping::Ibi)
        .orientation(InterruptMapping::Int1)
        .step_detector(InterruptMapping::Int2)
        .step_counter(InterruptMapping::Ibi)
        .sig_motion(InterruptMapping::Int1)
        .tilt_out(InterruptMapping::Int2)
        .tap(InterruptMapping::Ibi)
        .i3c(InterruptMapping::Int1)
        .err_status(InterruptMapping::Int2)
        .temp_drdy(InterruptMapping::Ibi)
        .build();
    assert_eq!(c.map1(), 0b10_01_11_10_01_11_10_01);
    assert_eq!(c.map2(), 0b00_00_00_00_11_10_01_11);
    assert_eq!(InterruptMapConfig::default().map1(), 0);
}

#[test]
fn io_interrupt_int2_od_sets_pin_one() {
    let c = bmi323::IOInterruptConfig::builder()
        .int2_od(bmi323::InterruptOd::OpenDrain)
        .build();
    assert_eq!(u16::from(c), 0x0002);
}

#[test]
fn motion_words_and_limits() {
    assert_eq!(AnyMotionConfig::default().as_no_motion().config_words(), Some([0x1008, 0x0005, 0xA0FA]));
    assert_eq!(NoMotionConfig::default().config_words(), Some([0x101E, 0x0003, 0xA0FA]));
    let max = NoMotionConfig {
        threshold: 0x0FFF,
        reference_update: ReferenceUpdate::OnDetection,
        hysteresis: 0x03FF,
        duration: 0x1FFF,
        wait_time: 7,
    };
    assert_eq!(max.config_words(), Some([0x0FFF, 0x03FF, 0xFFFF]));
    assert_eq!(NoMotionConfig { hysteresis: 0x0400, ..max }.config_words(), None);
    assert_eq!(NoMotionConfig { duration: 0x2000, ..max }.config_words(), None);
    assert_eq!(NoMotionConfig { wait_time: 8, ..max }.config_words(), None);
}

#[test]
fn axes_update_replaces_only_its_field() {
    assert_eq!(update_axes(0x0038, MotionAxes::all(), 0), 0x003F);
    assert_eq!(update_axes(0xFFFF, MotionAxes::none(), 3), 0xFFC7);
    assert_eq!(MotionAxes { x: false, y: true, z: false }.bits(), 2);
}

#[test]
fn byte_helpers() {
    assert_eq!(le_u16(0x34, 0x12), 0x1234);
    assert_eq!(le_i16(0x00, 0x80), -32768);
    assert_eq!(le_i16(0xFF, 0xFF), -1);
    assert_eq!(le_u32(0x78, 0x56, 0x34, 0x12), 0x1234_5678);
    assert_eq!(write_frame(0x20, 0x46B8), vec![0x20, 0xB8, 0x46]);
    assert_eq!(write_words_frame(0x42, [0x1008, 0x0005, 0xA0FA]), vec![0x42, 0x08, 0x10, 0x05, 0x00, 0xFA, 0xA0]);
    assert_eq!(spi_read_address(0x02), 0x82);
    assert_eq!(read_payload(&[0xAA, 1, 2], SPI_READ_DUMMY_BYTES), vec![1, 2]);
}

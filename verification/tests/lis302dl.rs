use j1_accel::lis302dl::{
    control_byte, read_command, register_value, write_command, Config, DataRate, DriverOutput,
    Lis302Dl, Lis302dlError, Phase, PowerMode, Scale, SpiCommand, SpiEvent, CTRL_REG1,
    DEVICE_NAME, OUT_X, OUT_Y, OUT_Z, WHO_AM_I,
};

#[test]
fn default_config_is_active_2g_400hz() {
    let c = Config::default();
    assert_eq!(c.power_mode, PowerMode::Active);
    assert_eq!(c.scale, Scale::TwoG);
    assert_eq!(c.data_rate, DataRate::Rate400Hz);
}

#[test]
fn control_byte_of_default_config() {
    assert_eq!(control_byte(&Config::default()), 0xC7);
}

#[test]
fn control_byte_of_every_config() {
    let cases = [
        (PowerMode::Powerdown, Scale::TwoG, DataRate::Rate100Hz, 0x07u8),
        (PowerMode::Active, Scale::TwoG, DataRate::Rate100Hz, 0x47),
        (PowerMode::Powerdown, Scale::EightG, DataRate::Rate100Hz, 0x27),
        (PowerMode::Powerdown, Scale::TwoG, DataRate::Rate400Hz, 0x87),
        (PowerMode::Active, Scale::EightG, DataRate::Rate400Hz, 0xE7),
        (PowerMode::Active, Scale::EightG, DataRate::Rate100Hz, 0x67),
    ];
    for (power_mode, scale, data_rate, expected) in cases {
        let c = Config { power_mode, scale, data_rate };
        assert_eq!(control_byte(&c), expected);
    }
}

#[test]
fn control_byte_keeps_axes_on_and_self_test_off() {
    for p in [PowerMode::Active, PowerMode::Powerdown] {
        for s in [Scale::TwoG, Scale::EightG] {
            for r in [DataRate::Rate100Hz, DataRate::Rate400Hz] {
                let b = control_byte(&Config { power_mode: p, scale: s, data_rate: r });
                assert_eq!(b & 0x07, 0x07);
                assert_eq!(b & 0x18, 0);
                assert_eq!(b & 0x40 != 0, p == PowerMode::Active);
                assert_eq!(b & 0x20 != 0, s == Scale::EightG);
                assert_eq!(b & 0x80 != 0, r == DataRate::Rate400Hz);
            }
        }
    }
}

#[test]
fn spi_frames() {
    assert_eq!(read_command(WHO_AM_I), [0x8F, 0x00]);
    assert_eq!(read_command(OUT_X), [0xA9, 0x00]);
    assert_eq!(write_command(CTRL_REG1, 0xC7), [0x20, 0xC7]);
    assert_eq!(register_value(&[0xFF, 0x3F]), 0x3F);
}

#[test]
fn init_reads_identity_then_writes_ctrl_reg1() {
    let mut dev = Lis302Dl::new((), Config::default());
    assert_eq!(dev.phase(), Phase::Idle);
    assert_eq!(dev.init(), SpiCommand::Transfer { tx: [0x8F, 0x00] });
    assert!(dev.awaits(&SpiEvent::Transferred { rx: [0, 0] }));
    assert!(!dev.awaits(&SpiEvent::Written));
    let out = dev.resume(SpiEvent::Transferred { rx: [0x00, DEVICE_NAME] });
    assert_eq!(out, DriverOutput::Spi(SpiCommand::Write { tx: [0x20, 0xC7] }));
    assert!(dev.awaits(&SpiEvent::Written));
    let out = dev.resume(SpiEvent::Written);
    assert_eq!(out, DriverOutput::Initialized { device_name: 0x3F, name_matches: true });
    assert_eq!(dev.phase(), Phase::Idle);
    assert!(!dev.awaits(&SpiEvent::Written));
}

#[test]
fn init_with_wrong_identity_still_configures() {
    let config = Config {
        power_mode: PowerMode::Powerdown,
        scale: Scale::EightG,
        data_rate: DataRate::Rate100Hz,
    };
    let mut dev = Lis302Dl::new(7u8, config);
    dev.init();
    let out = dev.resume(SpiEvent::Transferred { rx: [0, 0] });
    assert_eq!(out, DriverOutput::Spi(SpiCommand::Write { tx: [0x20, 0x27] }));
    let out = dev.resume(SpiEvent::Written);
    assert_eq!(out, DriverOutput::Initialized { device_name: 0, name_matches: false });
    assert_eq!(dev.spi, 7u8);
    assert_eq!(dev.config(), config);
}

#[test]
fn read_accel_reads_three_axes() {
    let mut dev = Lis302Dl::new((), Config::default());
    assert_eq!(dev.read_accel(), SpiCommand::Transfer { tx: [OUT_X | 0x80, 0] });
    let out = dev.resume(SpiEvent::Transferred { rx: [0, 12] });
    assert_eq!(out, DriverOutput::Spi(SpiCommand::Transfer { tx: [OUT_Y | 0x80, 0] }));
    let out = dev.resume(SpiEvent::Transferred { rx: [0, 250] });
    assert_eq!(out, DriverOutput::Spi(SpiCommand::Transfer { tx: [OUT_Z | 0x80, 0] }));
    let out = dev.resume(SpiEvent::Transferred { rx: [0, 64] });
    assert_eq!(out, DriverOutput::Sample { x: 12, y: 250, z: 64 });
    assert_eq!(dev.phase(), Phase::Idle);
}

#[test]
fn starting_an_operation_abandons_the_previous_one() {
    let mut dev = Lis302Dl::new((), Config::default());
    dev.read_accel();
    dev.resume(SpiEvent::Transferred { rx: [0, 1] });
    assert_eq!(dev.init(), SpiCommand::Transfer { tx: [0x8F, 0] });
    assert_eq!(dev.phase(), Phase::AwaitDeviceName);
}

#[test]
fn error_message_and_conversion() {
    let e: Lis302dlError<u32> = Lis302dlError::from(5u32);
    assert!(matches!(e, Lis302dlError::SpiError(5)));
    assert_eq!(
        e.message(),
        "An error occured while attempting to reach the Lis302dl over SPI."
    );
}

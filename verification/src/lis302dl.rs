//! Register-level driver logic for the ST LIS302DL three-axis accelerometer.
//!
//! The driver never touches the bus itself: each operation is a small state machine
//! that hands the caller the SPI frame to send and is resumed with what the bus
//! returned.
use vstd::prelude::*;

verus! {

pub const WHO_AM_I: u8 = 0x0F;
pub const DEVICE_NAME: u8 = 0x3F;

pub const CTRL_REG1: u8 = 0x20;
pub const CTRL_REG2: u8 = 0x21;
pub const CTRL_REG3: u8 = 0x22;

pub const HP_FILTER_RESET: u8 = 0x23;
pub const STATUS_REG: u8 = 0x27;
pub const OUT_X: u8 = 0x29;
pub const OUT_Y: u8 = 0x2B;
pub const OUT_Z: u8 = 0x2D;
pub const FF_WU_CFG_1: u8 = 0x30;
pub const FF_WU_SRC_1: u8 = 0x31;
pub const FF_WU_THS_1: u8 = 0x32;
pub const FF_WU_DURATION_1: u8 = 0x33;
pub const FF_WU_CFG_2: u8 = 0x34;
pub const FF_WU_SRC_2: u8 = 0x35;
pub const FF_WU_THS_2: u8 = 0x36;
pub const WU_DURATION_2: u8 = 0x37;
pub const CLICK_CFG: u8 = 0x38;
pub const CLICK_SRC: u8 = 0x39;
pub const CLICK_THSY_X: u8 = 0x3B;
pub const CLICK_THSZ: u8 = 0x3C;
pub const CLICK_TIMELIMIT: u8 = 0x3D;
pub const CLICK_LATENCY: u8 = 0x3E;
pub const CLICK_WINDOW: u8 = 0x3F;

pub const DATA_RATE_100_HZ: u8 = 0x00;
pub const DATA_RATE_400_HZ: u8 = 0x80;
pub const POWER_DOWN_MODE: u8 = 0x00;
pub const ACTIVE_MODE: u8 = 0x40;
pub const SCALE_PLUS_MINUS_2G: u8 = 0x00;
pub const SCALE_PLUS_MINUS_8G: u8 = 0x20;
pub const Z_ENABLE: u8 = 0x04;
pub const Y_ENABLE: u8 = 0x02;
pub const X_ENABLE: u8 = 0x01;

/// Set in the first byte of an SPI frame to read the addressed register.
pub const READ_FLAG: u8 = 0x80;

#[derive(Clone, Copy, Debug, PartialEq, Eq, Structural)]
pub enum PowerMode {
    Active,
    Powerdown,
}

#[derive(Clone, Copy, Debug, PartialEq, Eq, Structural)]
pub enum Scale {
    TwoG,
    EightG,
}

#[derive(Clone, Copy, Debug, PartialEq, Eq, Structural)]
pub enum DataRate {
    Rate100Hz,
    Rate400Hz,
}

/// The user-selectable part of CTRL_REG1.
#[derive(Clone, Copy, Debug, PartialEq, Eq, Structural)]
pub struct Config {
    pub power_mode: PowerMode,
    pub scale: Scale,
    pub data_rate: DataRate,
}

impl Default for Config {
    /// Active, +/-2g, 400 Hz.
    fn default() -> (c: Self)
        ensures
            c == (Config {
                power_mode: PowerMode::Active,
                scale: Scale::TwoG,
                data_rate: DataRate::Rate400Hz,
            }),
    {
        Config { power_mode: PowerMode::Active, scale: Scale::TwoG, data_rate: DataRate::Rate400Hz }
    }
}

/// CTRL_REG1 as the data sheet lays it out: DR (bit 7) selects 400 Hz, PD (bit 6)
/// selects active mode, FS (bit 5) selects the +/-8g range, STP and STM (bits 4, 3)
/// stay clear, and Zen, Yen, Xen (bits 2..0) enable all three axes.
pub open spec fn control_register_value(c: Config) -> int {
    (if c.data_rate == DataRate::Rate400Hz { 0x80int } else { 0 })
        + (if c.power_mode == PowerMode::Active { 0x40int } else { 0 })
        + (if c.scale == Scale::EightG { 0x20int } else { 0 })
        + 0x07
}

/// The configuration that a CTRL_REG1 value selects.
pub open spec fn config_of_control_register(b: u8) -> Config {
    Config {
        power_mode: if b & 0x40 != 0 { PowerMode::Active } else { PowerMode::Powerdown },
        scale: if b & 0x20 != 0 { Scale::EightG } else { Scale::TwoG },
        data_rate: if b & 0x80 != 0 { DataRate::Rate400Hz } else { DataRate::Rate100Hz },
    }
}

/// The CTRL_REG1 value that enables all three axes with the given configuration.
pub fn control_byte(config: &Config) -> (b: u8)
    ensures
        b == control_register_value(*config),
{
    let mut control_byte: u8 = X_ENABLE | Y_ENABLE | Z_ENABLE;
    let power: u8 = match config.power_mode {
        PowerMode::Active => ACTIVE_MODE,
        PowerMode::Powerdown => POWER_DOWN_MODE,
    };
    let scale: u8 = match config.scale {
        Scale::TwoG => SCALE_PLUS_MINUS_2G,
        Scale::EightG => SCALE_PLUS_MINUS_8G,
    };
    let rate: u8 = match config.data_rate {
        DataRate::Rate100Hz => DATA_RATE_100_HZ,
        DataRate::Rate400Hz => DATA_RATE_400_HZ,
    };
    assert(control_byte == 7) by (bit_vector)
        requires
            control_byte == 0x01u8 | 0x02u8 | 0x04u8,
    ;
    assert((control_byte | power | scale | rate) == control_byte + power + scale + rate)
        by (bit_vector)
        requires
            control_byte == 7,
            power == 0 || power == 0x40,
            scale == 0 || scale == 0x20,
            rate == 0 || rate == 0x80,
    ;
    control_byte |= power;
    control_byte |= scale;
    control_byte |= rate;
    control_byte
}

/// Law: the value written to CTRL_REG1 always enables the three axes, keeps the
/// self-test bits clear, and reads back as the configuration it was made from; so
/// two configurations never share a register value.
pub proof fn lemma_control_register_round_trip(c: Config)
    ensures
        0 <= control_register_value(c) <= 0xFF,
        (control_register_value(c) as u8) & 0x07 == 0x07,
        (control_register_value(c) as u8) & 0x18 == 0,
        config_of_control_register(control_register_value(c) as u8) == c,
{
    let b = control_register_value(c) as u8;
    let r: u8 = if c.data_rate == DataRate::Rate400Hz { 0x80 } else { 0 };
    let p: u8 = if c.power_mode == PowerMode::Active { 0x40 } else { 0 };
    let s: u8 = if c.scale == Scale::EightG { 0x20 } else { 0 };
    assert(b == r + p + s + 7);
    assert(b & 0x07 == 0x07 && b & 0x18 == 0 && ((b & 0x80 != 0) == (r != 0)) && ((b & 0x40
        != 0) == (p != 0)) && ((b & 0x20 != 0) == (s != 0))) by (bit_vector)
        requires
            b == r + p + s + 7,
            r == 0 || r == 0x80,
            p == 0 || p == 0x40,
            s == 0 || s == 0x20,
    ;
}

/// Law: distinct configurations program distinct CTRL_REG1 values.
pub proof fn lemma_control_register_injective(a: Config, b: Config)
    requires
        control_register_value(a) == control_register_value(b),
    ensures
        a == b,
{
    lemma_control_register_round_trip(a);
    lemma_control_register_round_trip(b);
}

/// The two-byte SPI frame that reads register `reg_address`: the address with the
/// read flag, then a dummy byte during which the device shifts the value out.
pub fn read_command(reg_address: u8) -> (tx: [u8; 2])
    ensures
        tx@ == seq![reg_address | READ_FLAG, 0u8],
{
    [reg_address | READ_FLAG, 0]
}

/// The two-byte SPI frame that writes `val` into register `reg_address`.
pub fn write_command(reg_address: u8, val: u8) -> (tx: [u8; 2])
    ensures
        tx@ == seq![reg_address, val],
{
    [reg_address, val]
}

/// The register value in the bytes clocked in during a read frame.
pub fn register_value(rx: &[u8; 2]) -> (v: u8)
    ensures
        v == rx@[1],
{
    rx[1]
}

/// An SPI operation that the driver asks its caller to perform.
#[derive(Clone, Copy, Debug, PartialEq, Eq)]
pub enum SpiCommand {
    /// Full-duplex transfer: send `tx`, report the two bytes received.
    Transfer { tx: [u8; 2] },
    /// Write `tx`.
    Write { tx: [u8; 2] },
}

/// What the bus did with the last command.
#[derive(Clone, Copy, Debug, PartialEq, Eq)]
pub enum SpiEvent {
    /// A transfer completed; `rx` holds what the receive buffer holds afterwards.
    Transferred { rx: [u8; 2] },
    /// A write completed.
    Written,
}

/// Where an operation in progress stands.
#[derive(Clone, Copy, Debug, PartialEq, Eq)]
pub enum Phase {
    Idle,
    AwaitDeviceName,
    AwaitConfigWrite { device_name: u8 },
    AwaitX,
    AwaitY { x: u8 },
    AwaitZ { x: u8, y: u8 },
}

/// What the driver hands back after an event.
#[derive(Clone, Copy, Debug, PartialEq, Eq)]
pub enum DriverOutput {
    /// The operation continues with this bus command.
    Spi(SpiCommand),
    /// Initialisation finished; `name_matches` tells whether WHO_AM_I read back the
    /// LIS302DL's identity.
    Initialized { device_name: u8, name_matches: bool },
    /// A reading of the three output registers finished.
    Sample { x: u8, y: u8, z: u8 },
}

/// Whether `phase` is waiting for an event of the kind of `event`.
pub open spec fn phase_awaits(phase: Phase, event: SpiEvent) -> bool {
    match phase {
        Phase::Idle => false,
        Phase::AwaitConfigWrite { .. } => event is Written,
        _ => event is Transferred,
    }
}

/// One step of the driver: the next phase and the output for an awaited event.
pub open spec fn driver_step(phase: Phase, config: Config, event: SpiEvent) -> (Phase, DriverOutput) {
    match (phase, event) {
        (Phase::AwaitDeviceName, SpiEvent::Transferred { rx }) => (
            Phase::AwaitConfigWrite { device_name: rx@[1] },
            DriverOutput::Spi(
                SpiCommand::Write {
                    tx: [CTRL_REG1, control_register_value(config) as u8],
                },
            ),
        ),
        (Phase::AwaitConfigWrite { device_name }, _) => (
            Phase::Idle,
            DriverOutput::Initialized {
                device_name,
                name_matches: device_name == DEVICE_NAME,
            },
        ),
        (Phase::AwaitX, SpiEvent::Transferred { rx }) => (
            Phase::AwaitY { x: rx@[1] },
            DriverOutput::Spi(SpiCommand::Transfer { tx: [OUT_Y | READ_FLAG, 0] }),
        ),
        (Phase::AwaitY { x }, SpiEvent::Transferred { rx }) => (
            Phase::AwaitZ { x, y: rx@[1] },
            DriverOutput::Spi(SpiCommand::Transfer { tx: [OUT_Z | READ_FLAG, 0] }),
        ),
        (Phase::AwaitZ { x, y }, SpiEvent::Transferred { rx }) => (
            Phase::Idle,
            DriverOutput::Sample { x, y, z: rx@[1] },
        ),
        _ => (phase, DriverOutput::Spi(SpiCommand::Write { tx: [0, 0] })),
    }
}

/// The LIS302DL driver: the bus it talks over, the configuration it programs and
/// the operation in progress.
pub struct Lis302Dl<SPI> {
    pub spi: SPI,
    config: Config,
    phase: Phase,
}

impl<SPI> Lis302Dl<SPI> {
    pub closed spec fn spec_bus(&self) -> SPI {
        self.spi
    }

    pub closed spec fn spec_config(&self) -> Config {
        self.config
    }

    pub closed spec fn spec_phase(&self) -> Phase {
        self.phase
    }

    /// A driver on `spi` that will program `config`; no operation in progress.
    pub fn new(spi: SPI, config: Config) -> (d: Self)
        ensures
            d.spec_bus() == spi,
            d.spec_config() == config,
            d.spec_phase() == Phase::Idle,
    {
        Lis302Dl { spi, config, phase: Phase::Idle }
    }

    pub fn config(&self) -> (c: Config)
        ensures
            c == self.spec_config(),
    {
        self.config
    }

    pub fn phase(&self) -> (p: Phase)
        ensures
            p == self.spec_phase(),
    {
        self.phase
    }

    /// Starts initialisation: read WHO_AM_I, then program CTRL_REG1. An operation in
    /// progress is abandoned.
    pub fn init(&mut self) -> (cmd: SpiCommand)
        ensures
            final(self).spec_bus() == old(self).spec_bus(),
            final(self).spec_config() == old(self).spec_config(),
            final(self).spec_phase() == Phase::AwaitDeviceName,
            cmd == (SpiCommand::Transfer { tx: [WHO_AM_I | READ_FLAG, 0] }),
    {
        self.phase = Phase::AwaitDeviceName;
        let tx = read_command(WHO_AM_I);
        assert(tx == [WHO_AM_I | READ_FLAG, 0u8]);
        SpiCommand::Transfer { tx }
    }

    /// Starts reading the three output registers, X first. An operation in progress
    /// is abandoned.
    pub fn read_accel(&mut self) -> (cmd: SpiCommand)
        ensures
            final(self).spec_bus() == old(self).spec_bus(),
            final(self).spec_config() == old(self).spec_config(),
            final(self).spec_phase() == Phase::AwaitX,
            cmd == (SpiCommand::Transfer { tx: [OUT_X | READ_FLAG, 0] }),
    {
        self.phase = Phase::AwaitX;
        let tx = read_command(OUT_X);
        assert(tx == [OUT_X | READ_FLAG, 0u8]);
        SpiCommand::Transfer { tx }
    }

    /// Whether the operation in progress waits for an event of this kind.
    pub fn awaits(&self, event: &SpiEvent) -> (b: bool)
        ensures
            b == phase_awaits(self.spec_phase(), *event),
    {
        match self.phase {
            Phase::Idle => false,
            Phase::AwaitConfigWrite { .. } => match event {
                SpiEvent::Written => true,
                SpiEvent::Transferred { .. } => false,
            },
            _ => match event {
                SpiEvent::Written => false,
                SpiEvent::Transferred { .. } => true,
            },
        }
    }

    /// Advances the operation in progress with what the bus returned.
    pub fn resume(&mut self, event: SpiEvent) -> (out: DriverOutput)
        requires
            phase_awaits(old(self).spec_phase(), event),
        ensures
            final(self).spec_bus() == old(self).spec_bus(),
            final(self).spec_config() == old(self).spec_config(),
            (final(self).spec_phase(), out) == driver_step(
                old(self).spec_phase(),
                old(self).spec_config(),
                event,
            ),
    {
        match (self.phase, event) {
            (Phase::AwaitDeviceName, SpiEvent::Transferred { rx }) => {
                let name = register_value(&rx);
                self.phase = Phase::AwaitConfigWrite { device_name: name };
                let tx = write_command(CTRL_REG1, control_byte(&self.config));
                assert(tx == [CTRL_REG1, control_register_value(self.config) as u8]);
                DriverOutput::Spi(SpiCommand::Write { tx })
            },
            (Phase::AwaitConfigWrite { device_name }, _) => {
                self.phase = Phase::Idle;
                DriverOutput::Initialized { device_name, name_matches: device_name == DEVICE_NAME }
            },
            (Phase::AwaitX, SpiEvent::Transferred { rx }) => {
                self.phase = Phase::AwaitY { x: register_value(&rx) };
                let tx = read_command(OUT_Y);
                assert(tx == [OUT_Y | READ_FLAG, 0u8]);
                DriverOutput::Spi(SpiCommand::Transfer { tx })
            },
            (Phase::AwaitY { x }, SpiEvent::Transferred { rx }) => {
                self.phase = Phase::AwaitZ { x, y: register_value(&rx) };
                let tx = read_command(OUT_Z);
                assert(tx == [OUT_Z | READ_FLAG, 0u8]);
                DriverOutput::Spi(SpiCommand::Transfer { tx })
            },
            (Phase::AwaitZ { x, y }, SpiEvent::Transferred { rx }) => {
                self.phase = Phase::Idle;
                DriverOutput::Sample { x, y, z: register_value(&rx) }
            },
            _ => {
                proof {
                    assert(false);
                }
                DriverOutput::Spi(SpiCommand::Write { tx: [0, 0] })
            },
        }
    }
}

/// Law: initialisation reads WHO_AM_I, then writes the configuration into CTRL_REG1,
/// then reports the identity it read, whatever the bus returned, and leaves the driver
/// idle.
pub proof fn lemma_init_protocol(config: Config, rx: [u8; 2])
    ensures
        ({
            let (p1, o1) = driver_step(Phase::AwaitDeviceName, config, SpiEvent::Transferred { rx });
            let (p2, o2) = driver_step(p1, config, SpiEvent::Written);
            &&& phase_awaits(Phase::AwaitDeviceName, SpiEvent::Transferred { rx })
            &&& phase_awaits(p1, SpiEvent::Written)
            &&& o1 == DriverOutput::Spi(
                SpiCommand::Write { tx: [CTRL_REG1, control_register_value(config) as u8] },
            )
            &&& p2 == Phase::Idle
            &&& o2 == (DriverOutput::Initialized {
                device_name: rx@[1],
                name_matches: rx@[1] == DEVICE_NAME,
            })
        }),
{
}

/// Law: a reading transfers OUT_X, OUT_Y and OUT_Z in turn and reports the value
/// byte of each transfer, then leaves the driver idle.
pub proof fn lemma_read_accel_protocol(config: Config, rx: [u8; 2], ry: [u8; 2], rz: [u8; 2])
    ensures
        ({
            let (p1, o1) = driver_step(Phase::AwaitX, config, SpiEvent::Transferred { rx: rx });
            let (p2, o2) = driver_step(p1, config, SpiEvent::Transferred { rx: ry });
            let (p3, o3) = driver_step(p2, config, SpiEvent::Transferred { rx: rz });
            &&& phase_awaits(Phase::AwaitX, SpiEvent::Transferred { rx: rx })
            &&& phase_awaits(p1, SpiEvent::Transferred { rx: ry })
            &&& phase_awaits(p2, SpiEvent::Transferred { rx: rz })
            &&& o1 == DriverOutput::Spi(SpiCommand::Transfer { tx: [OUT_Y | READ_FLAG, 0] })
            &&& o2 == DriverOutput::Spi(SpiCommand::Transfer { tx: [OUT_Z | READ_FLAG, 0] })
            &&& p3 == Phase::Idle
            &&& o3 == (DriverOutput::Sample { x: rx@[1], y: ry@[1], z: rz@[1] })
        }),
{
}

/// Errors of the driver's bus.
#[derive(Clone, Copy)]
pub enum Lis302dlError<Spi> {
    SpiError(Spi),
}

impl<Spi> Lis302dlError<Spi> {
    /// A human-readable description of the error.
    pub fn message(&self) -> (m: &'static str)
        ensures
            m@ == "An error occured while attempting to reach the Lis302dl over SPI."@,
    {
        match self {
            Lis302dlError::SpiError(_) => {
                "An error occured while attempting to reach the Lis302dl over SPI."
            },
        }
    }
}

impl<Spi> From<Spi> for Lis302dlError<Spi> {
    /// Wraps a bus error.
    fn from(value: Spi) -> (e: Self) {
        Lis302dlError::SpiError(value)
    }
}

impl<Spi> vstd::std_specs::convert::FromSpecImpl<Spi> for Lis302dlError<Spi> {
    open spec fn obeys_from_spec() -> bool {
        true
    }

    open spec fn from_spec(value: Spi) -> Self {
        Lis302dlError::SpiError(value)
    }
}

} // verus!

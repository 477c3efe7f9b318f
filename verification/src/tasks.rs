//! Decisions of the firmware's periodic tasks. Each task waits, then acts; the
//! waiting and the pin and bus operations are its caller's, the state and the choice
//! of what to do next are here.
use vstd::prelude::*;

verus! {

/// Output level of an LED pin.
#[derive(Clone, Copy, Debug, PartialEq, Eq, Structural)]
pub enum Level {
    Low,
    High,
}

pub open spec fn toggled(l: Level) -> Level {
    match l {
        Level::Low => Level::High,
        Level::High => Level::Low,
    }
}

/// The opposite level.
pub fn toggle(l: Level) -> (t: Level)
    ensures
        t == toggled(l),
{
    match l {
        Level::Low => Level::High,
        Level::High => Level::Low,
    }
}

/// Law: toggling twice restores the level.
pub proof fn lemma_toggle_involution(l: Level)
    ensures
        toggled(toggled(l)) == l,
        toggled(l) != l,
{
}

/// The heartbeat LED: it starts low and flips after every delay.
pub struct HeartBeat {
    led: Level,
    del: u32,
}

impl HeartBeat {
    pub closed spec fn spec_led(&self) -> Level {
        self.led
    }

    pub closed spec fn spec_delay(&self) -> u32 {
        self.del
    }

    /// A heartbeat that blinks every `delay` milliseconds, LED off.
    pub fn init(delay: u32) -> (h: HeartBeat)
        ensures
            h.spec_led() == Level::Low,
            h.spec_delay() == delay,
    {
        HeartBeat { led: Level::Low, del: delay }
    }

    /// The level the LED is driven to.
    pub fn led(&self) -> (l: Level)
        ensures
            l == self.spec_led(),
    {
        self.led
    }

    /// How long to wait before the next beat.
    pub fn delay_ms(&self) -> (ms: u64)
        ensures
            ms == self.spec_delay(),
    {
        self.del as u64
    }

    /// One beat: the LED flips; the new level is returned.
    pub fn beat(&mut self) -> (l: Level)
        ensures
            l == toggled(old(self).spec_led()),
            final(self).spec_led() == l,
            final(self).spec_delay() == old(self).spec_delay(),
    {
        self.led = toggle(self.led);
        self.led
    }
}

/// Quiet time after a button press before the next press is looked for.
pub const BUTTON_DEBOUNCE_MS: u64 = 250;

/// The button monitor: each rising edge on the button flips the LED, then the
/// monitor rests for the debounce time.
pub struct ButtonMon {
    led: Level,
}

impl ButtonMon {
    pub closed spec fn spec_led(&self) -> Level {
        self.led
    }

    /// A monitor whose LED is at `led`.
    pub fn init(led: Level) -> (b: ButtonMon)
        ensures
            b.spec_led() == led,
    {
        ButtonMon { led }
    }

    /// A press: the LED flips; returns the new level and how long to rest.
    pub fn on_press(&mut self) -> (r: (Level, u64))
        ensures
            r.0 == toggled(old(self).spec_led()),
            final(self).spec_led() == r.0,
            r.1 == BUTTON_DEBOUNCE_MS,
    {
        self.led = toggle(self.led);
        (self.led, BUTTON_DEBOUNCE_MS)
    }
}

/// Period of the accelerometer sampling task.
pub const ACCEL_PERIOD_MS: u64 = 1000;

/// Period of the telemetry stream.
pub const TELEMETRY_PERIOD_MS: u64 = 100;

/// Why a USB endpoint operation failed (mirrors `embassy_usb::driver::EndpointError`).
#[derive(Clone, Copy, Debug, PartialEq, Eq, Structural)]
pub enum EndpointFault {
    /// The packet was larger than the endpoint's buffer.
    BufferOverflow,
    /// The endpoint is disabled: the host went away.
    Disabled,
}

/// The telemetry stream stopped because the host disconnected.
#[derive(Clone, Copy, Debug, PartialEq, Eq, Structural)]
pub struct Disconnected {}

/// A disabled endpoint means the host disconnected. A buffer overflow is a
/// programming error that the stream does not recover from; it is not accepted here.
pub fn disconnected_from(val: EndpointFault) -> (d: Disconnected)
    requires
        val == EndpointFault::Disabled,
    ensures
        d == (Disconnected {}),
{
    Disconnected {}
}

/// What the stream does after writing a packet: wait for the next tick, or stop
/// because the host disconnected.
pub fn after_packet_write(r: Result<(), EndpointFault>) -> (next: Result<u64, Disconnected>)
    requires
        r != Err::<(), EndpointFault>(EndpointFault::BufferOverflow),
    ensures
        r is Ok ==> next == Ok::<u64, Disconnected>(TELEMETRY_PERIOD_MS),
        r is Err ==> next == Err::<u64, Disconnected>(Disconnected {}),
{
    match r {
        Ok(()) => Ok(TELEMETRY_PERIOD_MS),
        Err(e) => Err(disconnected_from(e)),
    }
}

/// The USB device description and the buffer sizes the firmware builds it with.
#[derive(Clone, Copy, Debug)]
pub struct UsbSettings {
    pub vendor_id: u16,
    pub product_id: u16,
    pub manufacturer: &'static str,
    pub product: &'static str,
    pub serial_number: &'static str,
    pub device_class: u8,
    pub device_sub_class: u8,
    pub device_protocol: u8,
    pub composite_with_iads: bool,
    pub vbus_detection: bool,
    pub ep_out_buffer_len: usize,
    pub config_descriptor_len: usize,
    pub bos_descriptor_len: usize,
    pub control_buf_len: usize,
    pub msos_descriptor_len: usize,
    pub cdc_acm_classes: usize,
    pub max_packet_size: u16,
}

/// The J1's USB identity: one CDC-ACM serial class with 64-byte packets in a
/// composite device with interface association descriptors (class 0xEF/0x02/0x01,
/// which Windows needs), VBUS detection on, and no Microsoft OS descriptors.
pub fn usb_settings() -> (s: UsbSettings)
    ensures
        s.vendor_id == 0xcafe,
        s.product_id == 0xc0de,
        s.manufacturer@ == "J1 USB"@,
        s.product@ == "Accelerometer_Prototype"@,
        s.serial_number@ == "12345678"@,
        s.device_class == 0xEF,
        s.device_sub_class == 0x02,
        s.device_protocol == 0x01,
        s.composite_with_iads,
        s.vbus_detection,
        s.ep_out_buffer_len == 256,
        s.config_descriptor_len == 256,
        s.bos_descriptor_len == 256,
        s.control_buf_len == 64,
        s.msos_descriptor_len == 0,
        s.cdc_acm_classes == 1,
        s.max_packet_size == 64,
{
    UsbSettings {
        vendor_id: 0xcafe,
        product_id: 0xc0de,
        manufacturer: "J1 USB",
        product: "Accelerometer_Prototype",
        serial_number: "12345678",
        device_class: 0xEF,
        device_sub_class: 0x02,
        device_protocol: 0x01,
        composite_with_iads: true,
        vbus_detection: true,
        ep_out_buffer_len: 256,
        config_descriptor_len: 256,
        bos_descriptor_len: 256,
        control_buf_len: 64,
        msos_descriptor_len: 0,
        cdc_acm_classes: 1,
        max_packet_size: 64,
    }
}

} // verus!

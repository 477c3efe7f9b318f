use j1_accel::messages::{Acceleration, StartAccel};
use j1_accel::rtc::{get_ticks_since_boot, DateTime, LocalRtc};
use j1_accel::tasks::{
    after_packet_write, disconnected_from, toggle, usb_settings, ButtonMon, Disconnected,
    EndpointFault, HeartBeat, Level, BUTTON_DEBOUNCE_MS, TELEMETRY_PERIOD_MS,
};

fn at(days: i32, secs: u32, nanos: u32) -> DateTime {
    DateTime { days_from_ce: days, secs_from_midnight: secs, nanos }
}

#[test]
fn ticks_at_boot_are_zero() {
    let boot = at(739_000, 3600, 5);
    let rtc = LocalRtc::new((), boot);
    assert_eq!(get_ticks_since_boot(&rtc, boot), 0);
}

#[test]
fn ticks_count_milliseconds() {
    let rtc = LocalRtc::new((), at(739_000, 3600, 0));
    assert_eq!(get_ticks_since_boot(&rtc, at(739_000, 3601, 0)), 1000);
    assert_eq!(get_ticks_since_boot(&rtc, at(739_000, 3600, 2_500_000)), 2);
    assert_eq!(get_ticks_since_boot(&rtc, at(739_001, 3600, 0)), 86_400_000);
    assert_eq!(get_ticks_since_boot(&rtc, at(739_000, 3598, 500_000_000)), -1500);
}

#[test]
fn ticks_across_a_leap_second() {
    let rtc = LocalRtc::new((), at(739_000, 59, 0));
    assert_eq!(get_ticks_since_boot(&rtc, at(739_000, 59, 1_500_000_000)), 1500);
    assert_eq!(get_ticks_since_boot(&rtc, at(739_000, 60, 0)), 1000);
}

#[test]
fn validity_of_readings() {
    assert!(at(1, 0, 0).is_valid());
    assert!(at(739_000, 59, 1_999_999_999).is_valid());
    assert!(!at(739_000, 58, 1_000_000_000).is_valid());
    assert!(!at(739_000, 86_400, 0).is_valid());
    assert!(!at(739_000, 0, 2_000_000_000).is_valid());
    assert!(!at(i32::MAX, 0, 0).is_valid());
    assert!(!at(i32::MIN, 0, 0).is_valid());
}

#[test]
fn heartbeat_blinks() {
    let mut h = HeartBeat::init(1000);
    assert_eq!(h.led(), Level::Low);
    assert_eq!(h.delay_ms(), 1000);
    assert_eq!(h.beat(), Level::High);
    assert_eq!(h.beat(), Level::Low);
    assert_eq!(h.delay_ms(), 1000);
}

#[test]
fn toggle_twice_restores() {
    for l in [Level::Low, Level::High] {
        assert_ne!(toggle(l), l);
        assert_eq!(toggle(toggle(l)), l);
    }
}

#[test]
fn button_press_flips_and_rests() {
    let mut b = ButtonMon::init(Level::High);
    assert_eq!(b.on_press(), (Level::Low, BUTTON_DEBOUNCE_MS));
    assert_eq!(b.on_press(), (Level::High, 250));
}

#[test]
fn stream_continues_or_stops() {
    assert_eq!(after_packet_write(Ok(())), Ok(TELEMETRY_PERIOD_MS));
    assert_eq!(after_packet_write(Ok(())), Ok(100));
    assert_eq!(after_packet_write(Err(EndpointFault::Disabled)), Err(Disconnected {}));
    assert_eq!(disconnected_from(EndpointFault::Disabled), Disconnected {});
}

#[test]
fn usb_identity() {
    let s = usb_settings();
    assert_eq!((s.vendor_id, s.product_id), (0xcafe, 0xc0de));
    assert_eq!(s.manufacturer, "J1 USB");
    assert_eq!(s.product, "Accelerometer_Prototype");
    assert_eq!(s.serial_number, "12345678");
    assert_eq!((s.device_class, s.device_sub_class, s.device_protocol), (0xEF, 0x02, 0x01));
    assert!(s.composite_with_iads && s.vbus_detection);
    assert_eq!(s.max_packet_size, 64);
    assert_eq!(s.control_buf_len, 64);
    assert_eq!(s.msos_descriptor_len, 0);
    assert_eq!(s.cdc_acm_classes, 1);
    assert_eq!(s.config_descriptor_len, 256);
}

#[test]
fn rpc_messages() {
    let a = Acceleration { x: -1, y: 0, z: 512 };
    assert_eq!(a, Acceleration { x: -1, y: 0, z: 512 });
    assert_eq!(StartAccel { interval_ms: 100 }.interval_ms, 100);
}

#[test]
fn ticks_grow_across_midnight() {
    let rtc = LocalRtc::new((), at(739_000, 86_000, 250_000_000));
    let before_midnight = get_ticks_since_boot(&rtc, at(739_000, 86_399, 999_000_000));
    let after_midnight = get_ticks_since_boot(&rtc, at(739_001, 0, 0));
    assert_eq!(before_midnight, 399_749);
    assert_eq!(after_midnight, 399_750);
    assert!(before_midnight <= after_midnight);
    assert!(before_midnight >= 0);
}

#[test]
fn tick_differences_are_time_between_readings() {
    let boot = at(739_000, 100, 7_000_000);
    let rtc = LocalRtc::new((), boot);
    let t1 = at(739_000, 200, 3_000_000);
    let t2 = at(739_002, 5, 999_000_000);
    let between = LocalRtc::new((), t1);
    assert_eq!(
        get_ticks_since_boot(&rtc, t2) - get_ticks_since_boot(&rtc, t1),
        get_ticks_since_boot(&between, t2)
    );
    assert_eq!(get_ticks_since_boot(&between, t2), 172_605_996);
}

#[test]
fn ticks_before_boot_are_negative_and_truncate_toward_zero() {
    let rtc = LocalRtc::new((), at(739_000, 100, 0));
    assert_eq!(get_ticks_since_boot(&rtc, at(739_000, 99, 999_500_000)), 0);
    assert_eq!(get_ticks_since_boot(&rtc, at(738_999, 100, 0)), -86_400_000);
}

#[test]
fn chrono_date_range_is_accepted() {
    assert!(at(-95_746_129, 0, 0).is_valid());
    assert!(at(95_745_399, 86_399, 999_999_999).is_valid());
    assert!(!at(-95_746_130, 0, 0).is_valid());
    assert!(!at(95_745_400, 0, 0).is_valid());
    let rtc = LocalRtc::new((), at(-95_746_129, 0, 0));
    assert_eq!(
        get_ticks_since_boot(&rtc, at(95_745_399, 0, 0)),
        (95_745_399i64 + 95_746_129) * 86_400_000
    );
}

#[test]
fn ticks_inside_a_leap_second_after_boot_are_not_negative() {
    let rtc = LocalRtc::new((), at(739_000, 59, 900_000_000));
    assert_eq!(get_ticks_since_boot(&rtc, at(739_000, 59, 1_000_000_000)), 100);
    assert_eq!(get_ticks_since_boot(&rtc, at(739_000, 59, 1_999_000_000)), 1_099);
    let rtc = LocalRtc::new((), at(739_000, 120, 999_000_000));
    assert_eq!(get_ticks_since_boot(&rtc, at(739_001, 59, 1_000_000_000)), 86_338_001);
}

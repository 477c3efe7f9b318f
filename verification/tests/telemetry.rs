use j1_accel::telemetry::{
    compute_size, construct_telem, decode_telemetry_frame, fill_telemetry_packet, Accel, AccelBits,
};
use j1_accel::wire::DecodeError;

fn frame_of(m: &Accel) -> Vec<u8> {
    let mut stream = heapless::Vec::<u8, 64>::new();
    fill_telemetry_packet(&mut stream, m);
    stream.as_slice().to_vec()
}

fn sample() -> Accel {
    Accel {
        time: 1000,
        x_accel: Some(1.0f32.to_bits()),
        y_accel: Some(0.0f32.to_bits()),
        z_accel: Some((-1.0f32).to_bits()),
    }
}

#[test]
fn construct_telem_sets_every_field() {
    let a = construct_telem(42, AccelBits { x: 1, y: 2, z: 3 });
    assert_eq!(a, Accel { time: 42, x_accel: Some(1), y_accel: Some(2), z_accel: Some(3) });
}

#[test]
fn frame_bytes_of_a_sample() {
    let expected: Vec<u8> = vec![
        0x12, 0x08, 0xE8, 0x07, 0x15, 0x00, 0x00, 0x80, 0x3F, 0x1D, 0x00, 0x00, 0x00, 0x00, 0x25,
        0x00, 0x00, 0x80, 0xBF,
    ];
    assert_eq!(frame_of(&sample()), expected);
    assert_eq!(compute_size(&sample()), 18);
}

#[test]
fn zero_time_and_absent_axes_are_left_out() {
    let m = Accel { time: 0, x_accel: None, y_accel: Some(7), z_accel: None };
    assert_eq!(frame_of(&m), vec![0x05, 0x1D, 0x07, 0x00, 0x00, 0x00]);
    assert_eq!(frame_of(&Accel::default()), vec![0x00]);
    assert_eq!(compute_size(&Accel::default()), 0);
}

#[test]
fn negative_time_takes_ten_bytes() {
    let m = Accel { time: -1, x_accel: None, y_accel: None, z_accel: None };
    assert_eq!(
        frame_of(&m),
        vec![0x0B, 0x08, 0xFF, 0xFF, 0xFF, 0xFF, 0xFF, 0xFF, 0xFF, 0xFF, 0xFF, 0x01]
    );
}

#[test]
fn largest_frame_fits_the_packet() {
    let m = Accel {
        time: i64::MIN,
        x_accel: Some(u32::MAX),
        y_accel: Some(u32::MAX),
        z_accel: Some(u32::MAX),
    };
    let f = frame_of(&m);
    assert_eq!(f.len(), 27);
    assert_eq!(f[0], 26);
}

#[test]
fn refilling_replaces_the_previous_frame() {
    let mut stream = heapless::Vec::<u8, 64>::new();
    fill_telemetry_packet(&mut stream, &sample());
    fill_telemetry_packet(&mut stream, &Accel::default());
    assert_eq!(stream.as_slice(), &[0x00]);
}

#[test]
fn round_trip_with_trailing_bytes() {
    let cases = [
        sample(),
        Accel::default(),
        Accel { time: i64::MAX, x_accel: None, y_accel: Some(u32::MAX), z_accel: None },
        Accel { time: i64::MIN, x_accel: Some(0), y_accel: None, z_accel: Some(1) },
        Accel { time: 127, x_accel: None, y_accel: None, z_accel: None },
        Accel { time: 128, x_accel: None, y_accel: None, z_accel: None },
    ];
    for m in cases {
        let mut buf = frame_of(&m);
        buf.extend_from_slice(&[0u8; 100]);
        assert_eq!(decode_telemetry_frame(&buf), Ok(m));
        assert_eq!(decode_telemetry_frame(&frame_of(&m)), Ok(m));
    }
}

#[test]
fn decodes_the_sample_frame() {
    let bytes = [
        0x12, 0x08, 0xE8, 0x07, 0x15, 0x00, 0x00, 0x80, 0x3F, 0x1D, 0x00, 0x00, 0x00, 0x00, 0x25,
        0x00, 0x00, 0x80, 0xBF,
    ];
    let m = decode_telemetry_frame(&bytes).unwrap();
    assert_eq!(m.time, 1000);
    assert_eq!(f32::from_bits(m.x_accel.unwrap()), 1.0);
    assert_eq!(f32::from_bits(m.y_accel.unwrap()), 0.0);
    assert_eq!(f32::from_bits(m.z_accel.unwrap()), -1.0);
}

#[test]
fn later_field_occurrence_wins_and_order_is_free() {
    // z, then x twice.
    let bytes = [0x0F, 0x25, 1, 0, 0, 0, 0x15, 2, 0, 0, 0, 0x15, 3, 0, 0, 0];
    let m = decode_telemetry_frame(&bytes).unwrap();
    assert_eq!(m, Accel { time: 0, x_accel: Some(3), y_accel: None, z_accel: Some(1) });
}

#[test]
fn unknown_fields_are_skipped() {
    // field 5 varint 300, field 6 length-delimited 2 bytes, field 7 fixed64, field 8 fixed32,
    // then time 1.
    let bytes = [
        0x17, 0x28, 0xAC, 0x02, 0x32, 0x02, 0xAA, 0xBB, 0x39, 1, 2, 3, 4, 5, 6, 7, 8, 0x45, 9, 9,
        9, 9, 0x08, 0x01,
    ];
    let m = decode_telemetry_frame(&bytes).unwrap();
    assert_eq!(m, Accel { time: 1, x_accel: None, y_accel: None, z_accel: None });
}

#[test]
fn empty_input_is_unexpected_eof() {
    assert_eq!(decode_telemetry_frame(&[]), Err(DecodeError::UnexpectedEof));
}

#[test]
fn truncated_record_is_unexpected_eof() {
    assert_eq!(decode_telemetry_frame(&[0x05, 0x15, 0x00, 0x00]), Err(DecodeError::UnexpectedEof));
    assert_eq!(decode_telemetry_frame(&[0x03, 0x08, 0x80]), Err(DecodeError::UnexpectedEof));
}

#[test]
fn field_zero_is_rejected() {
    assert_eq!(decode_telemetry_frame(&[0x02, 0x00, 0x00]), Err(DecodeError::ZeroField));
}

#[test]
fn record_overrunning_its_length_is_wrong_len() {
    // The length says 1 byte, but the time field takes 2.
    assert_eq!(decode_telemetry_frame(&[0x01, 0x08, 0x05]), Err(DecodeError::WrongLen));
}

#[test]
fn group_wire_types_are_deprecated() {
    assert_eq!(decode_telemetry_frame(&[0x02, 0x2B, 0x00]), Err(DecodeError::Deprecation));
    assert_eq!(decode_telemetry_frame(&[0x02, 0x2C, 0x00]), Err(DecodeError::Deprecation));
}

#[test]
fn wire_types_above_five_are_unknown() {
    assert_eq!(decode_telemetry_frame(&[0x02, 0x2E, 0x00]), Err(DecodeError::UnknownWireType));
}

#[test]
fn overlong_varint_hits_the_limit() {
    let mut bytes = vec![0x0C, 0x08];
    bytes.extend_from_slice(&[0x80; 10]);
    bytes.push(0x01);
    assert_eq!(decode_telemetry_frame(&bytes), Err(DecodeError::VarIntLimit));
    assert_eq!(decode_telemetry_frame(&[0x80; 11]), Err(DecodeError::VarIntLimit));
}

#[test]
fn overlong_but_terminated_varint_is_accepted() {
    // time = 1, written with a redundant continuation byte.
    assert_eq!(
        decode_telemetry_frame(&[0x03, 0x08, 0x81, 0x00]),
        Ok(Accel { time: 1, x_accel: None, y_accel: None, z_accel: None })
    );
}

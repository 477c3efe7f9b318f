//! The `Accel` telemetry message that the firmware streams over USB every 100 ms,
//! and the host-side decoder for it.
//!
//! On the wire the message is
//! `message Accel { int64 time = 1; optional float x_accel = 2; optional float y_accel = 3; optional float z_accel = 4; }`,
//! sent length-delimited: the varint length of the encoded message, then the message.
//! `time` is left out when it is 0; each acceleration is left out when absent. The
//! accelerations are IEEE-754 single-precision values, carried here as their bit
//! patterns (`f32::to_bits`).
use vstd::prelude::*;
use crate::wire::{
    DecodeError, varint_bytes, le_bytes32, varint_answer,
    fixed32_answer, skip_answer, pow2_32, pow2_64, packet_bytes, PACKET_CAPACITY,
    lemma_varint_len_u64, lemma_varint_round_trip, lemma_parse_varint_len, lemma_le_round_trip,
    packet_clear, pb_encode_varint32, pb_encode_int64, pb_encode_fixed32, pb_sizeof_int64,
    pb_decode_varint32, pb_decode_int64, pb_decode_fixed32, pb_skip_wire_value,
};

verus! {

/// Field 1, wire type varint.
pub const TIME_TAG: u32 = 8;
/// Field 2, wire type fixed32.
pub const X_ACCEL_TAG: u32 = 21;
/// Field 3, wire type fixed32.
pub const Y_ACCEL_TAG: u32 = 29;
/// Field 4, wire type fixed32.
pub const Z_ACCEL_TAG: u32 = 37;

/// One telemetry record: milliseconds since boot and the three accelerations (as
/// `f32` bit patterns), each of which may be absent.
#[derive(Clone, Copy, Debug, PartialEq, Eq, Structural)]
pub struct Accel {
    pub time: i64,
    pub x_accel: Option<u32>,
    pub y_accel: Option<u32>,
    pub z_accel: Option<u32>,
}

/// The message with every field at its default: time 0, no accelerations.
pub open spec fn empty_accel() -> Accel {
    Accel { time: 0, x_accel: None, y_accel: None, z_accel: None }
}

impl Default for Accel {
    fn default() -> (a: Self)
        ensures
            a == empty_accel(),
    {
        Accel { time: 0, x_accel: None, y_accel: None, z_accel: None }
    }
}

/// A sample of the three acceleration channels, as `f32` bit patterns.
#[derive(Clone, Copy, Debug, PartialEq, Eq, Structural)]
pub struct AccelBits {
    pub x: u32,
    pub y: u32,
    pub z: u32,
}

/// The telemetry record for time `now` and the latest sample: all three
/// accelerations present.
pub fn construct_telem(now: i64, accel_data: AccelBits) -> (a: Accel)
    ensures
        a == (Accel {
            time: now,
            x_accel: Some(accel_data.x),
            y_accel: Some(accel_data.y),
            z_accel: Some(accel_data.z),
        }),
{
    Accel {
        time: now,
        x_accel: Some(accel_data.x),
        y_accel: Some(accel_data.y),
        z_accel: Some(accel_data.z),
    }
}

// ---------------------------------------------------------------------------
// Encoding.
// ---------------------------------------------------------------------------

/// An `int64` field: tag, then the varint of the two's-complement bits; nothing
/// when the value is 0.
pub open spec fn int64_field(tag: u32, v: i64) -> Seq<u8> {
    if v == 0 {
        Seq::empty()
    } else {
        varint_bytes(tag as nat) + varint_bytes((v as u64) as nat)
    }
}

/// An optional `float` field: tag, then the four little-endian bytes of the bit
/// pattern; nothing when absent.
pub open spec fn float_field(tag: u32, bits: Option<u32>) -> Seq<u8> {
    match bits {
        Some(b) => varint_bytes(tag as nat) + le_bytes32(b),
        None => Seq::empty(),
    }
}

/// The encoded message, fields in order of their numbers.
pub open spec fn accel_body(m: Accel) -> Seq<u8> {
    int64_field(TIME_TAG, m.time) + float_field(X_ACCEL_TAG, m.x_accel) + float_field(
        Y_ACCEL_TAG,
        m.y_accel,
    ) + float_field(Z_ACCEL_TAG, m.z_accel)
}

/// The length-delimited frame: the varint length of the message, then the message.
pub open spec fn telemetry_frame(m: Accel) -> Seq<u8> {
    varint_bytes(accel_body(m).len()) + accel_body(m)
}

proof fn lemma_tags()
    ensures
        varint_bytes(TIME_TAG as nat) == seq![8u8],
        varint_bytes(X_ACCEL_TAG as nat) == seq![21u8],
        varint_bytes(Y_ACCEL_TAG as nat) == seq![29u8],
        varint_bytes(Z_ACCEL_TAG as nat) == seq![37u8],
{
}

/// Sizes of the pieces of the message.
proof fn lemma_field_lens(m: Accel)
    ensures
        m.time != 0 ==> int64_field(TIME_TAG, m.time).len() == 1 + varint_bytes(
            (m.time as u64) as nat,
        ).len(),
        int64_field(TIME_TAG, m.time).len() <= 11,
        float_field(X_ACCEL_TAG, m.x_accel).len() == if m.x_accel is Some { 5int } else { 0 },
        float_field(Y_ACCEL_TAG, m.y_accel).len() == if m.y_accel is Some { 5int } else { 0 },
        float_field(Z_ACCEL_TAG, m.z_accel).len() == if m.z_accel is Some { 5int } else { 0 },
        accel_body(m).len() <= 26,
{
    lemma_tags();
    lemma_varint_len_u64((m.time as u64) as nat);
}

/// Law: every telemetry frame fits in one 64-byte packet, with a one-byte length
/// prefix.
pub proof fn lemma_frame_fits_packet(m: Accel)
    ensures
        varint_bytes(accel_body(m).len()) == seq![accel_body(m).len() as u8],
        telemetry_frame(m).len() == accel_body(m).len() + 1,
        telemetry_frame(m).len() <= 27,
        telemetry_frame(m).len() <= PACKET_CAPACITY,
{
    lemma_field_lens(m);
}

/// `MessageEncode::compute_size`: the length of the encoded message.
pub fn compute_size(m: &Accel) -> (n: usize)
    ensures
        n == accel_body(*m).len(),
{
    proof {
        lemma_field_lens(*m);
    }
    let mut size: usize = 0;
    if m.time != 0 {
        let t = pb_sizeof_int64(m.time);
        size = 1 + t;
    }
    if m.x_accel.is_some() {
        size = size + 5;
    }
    if m.y_accel.is_some() {
        size = size + 5;
    }
    if m.z_accel.is_some() {
        size = size + 5;
    }
    size
}

/// Appends an optional float field.
fn encode_float_field(buf: &mut heapless::Vec<u8, 64>, tag: u32, bits: Option<u32>)
    requires
        tag < 0x80,
        packet_bytes(*old(buf)).len() + float_field(tag, bits).len() <= PACKET_CAPACITY,
    ensures
        packet_bytes(*final(buf)) == packet_bytes(*old(buf)) + float_field(tag, bits),
{
    if let Some(b) = bits {
        let r1 = pb_encode_varint32(buf, tag);
        let r2 = pb_encode_fixed32(buf, b);
        proof {
            assert(r1 is Ok);
            assert(r2 is Ok);
            assert(packet_bytes(*buf) =~= packet_bytes(*old(buf)) + float_field(tag, bits));
        }
    } else {
        assert(packet_bytes(*buf) =~= packet_bytes(*old(buf)) + float_field(tag, bits));
    }
}

/// `MessageEncode::encode`: appends the encoded message.
fn encode_accel(buf: &mut heapless::Vec<u8, 64>, m: &Accel)
    requires
        packet_bytes(*old(buf)).len() + accel_body(*m).len() <= PACKET_CAPACITY,
    ensures
        packet_bytes(*final(buf)) == packet_bytes(*old(buf)) + accel_body(*m),
{
    proof {
        lemma_field_lens(*m);
        lemma_tags();
    }
    let ghost start = packet_bytes(*buf);
    if m.time != 0 {
        let r1 = pb_encode_varint32(buf, TIME_TAG);
        let r2 = pb_encode_int64(buf, m.time);
        proof {
            assert(r1 is Ok);
            assert(r2 is Ok);
        }
    }
    assert(packet_bytes(*buf) =~= start + int64_field(TIME_TAG, m.time));
    encode_float_field(buf, X_ACCEL_TAG, m.x_accel);
    encode_float_field(buf, Y_ACCEL_TAG, m.y_accel);
    encode_float_field(buf, Z_ACCEL_TAG, m.z_accel);
    assert(packet_bytes(*buf) =~= start + accel_body(*m));
}

/// Fills the packet buffer with the length-delimited frame of `telem`, as the
/// streaming task does before each USB write. The frame always fits, so the
/// encoder never fails.
pub fn fill_telemetry_packet(stream: &mut heapless::Vec<u8, 64>, telem: &Accel)
    ensures
        packet_bytes(*final(stream)) == telemetry_frame(*telem),
{
    proof {
        lemma_frame_fits_packet(*telem);
    }
    packet_clear(stream);
    let size = compute_size(telem);
    let r = pb_encode_varint32(stream, size as u32);
    proof {
        assert(r is Ok);
    }
    encode_accel(stream, telem);
    assert(packet_bytes(*stream) =~= telemetry_frame(*telem));
}

// ---------------------------------------------------------------------------
// Decoding.
// ---------------------------------------------------------------------------

/// The decoder's answer for the value of field `field` at the start of `after`,
/// given the message decoded so far: the updated message and the bytes taken.
/// Known fields are read by their declared type; others are skipped by wire type.
pub open spec fn field_answer(after: Seq<u8>, field: nat, wire_type: u8, msg: Accel) -> Result<
    (Accel, nat),
    DecodeError,
> {
    if field == 1 {
        match varint_answer(after, pow2_64()) {
            Ok((v, len)) => Ok((Accel { time: (v as u64) as i64, ..msg }, len)),
            Err(e) => Err(e),
        }
    } else if 2 <= field <= 4 {
        match fixed32_answer(after) {
            Ok((b, len)) => Ok(
                (
                    if field == 2 {
                        Accel { x_accel: Some(b), ..msg }
                    } else if field == 3 {
                        Accel { y_accel: Some(b), ..msg }
                    } else {
                        Accel { z_accel: Some(b), ..msg }
                    },
                    len as nat,
                ),
            ),
            Err(e) => Err(e),
        }
    } else {
        match skip_answer(after, wire_type) {
            Ok(len) => Ok((msg, len)),
            Err(e) => Err(e),
        }
    }
}

#[verifier::opaque]
/// Decodes fields from `rest` while fewer than `budget` bytes of the record have
/// been read, starting from `msg`; a later occurrence of a field replaces an earlier
/// one. A record that overruns its length is an error. (Every successful read stays
/// inside its input, so the last branch, which only bounds the recursion, is never
/// taken.)
pub open spec fn decode_fields(rest: Seq<u8>, budget: int, msg: Accel) -> Result<
    Accel,
    DecodeError,
>
    decreases rest.len(),
{
    if budget <= 0 {
        if budget == 0 {
            Ok(msg)
        } else {
            Err(DecodeError::WrongLen)
        }
    } else {
        match varint_answer(rest, pow2_32()) {
            Err(e) => Err(e),
            Ok((tag, n)) => if tag / 8 == 0 {
                Err(DecodeError::ZeroField)
            } else {
                match field_answer(rest.skip(n as int), tag / 8, (tag % 8) as u8, msg) {
                    Err(e) => Err(e),
                    Ok((next, k)) => if 1 <= n && n + k <= rest.len() {
                        decode_fields(rest.skip((n + k) as int), budget - (n + k), next)
                    } else {
                        Err(DecodeError::UnexpectedEof)
                    },
                }
            },
        }
    }
}

/// The decoder's answer for a frame at the start of `s`: the varint length of the
/// record, then the record's fields.
pub open spec fn telemetry_frame_answer(s: Seq<u8>) -> Result<Accel, DecodeError> {
    match varint_answer(s, pow2_32()) {
        Ok((len, n)) => decode_fields(s.skip(n as int), len as int, empty_accel()),
        Err(e) => Err(e),
    }
}

/// One step of `decode_fields` on a record that is not finished.
proof fn lemma_decode_fields_unfold(rest: Seq<u8>, budget: int, msg: Accel)
    ensures
        budget <= 0 ==> decode_fields(rest, budget, msg) == if budget == 0 {
            Ok::<Accel, DecodeError>(msg)
        } else {
            Err::<Accel, DecodeError>(DecodeError::WrongLen)
        },
        budget > 0 ==> (varint_answer(rest, pow2_32()) matches Err(e) ==> decode_fields(
            rest,
            budget,
            msg,
        ) == Err::<Accel, DecodeError>(e)),
        budget > 0 ==> (varint_answer(rest, pow2_32()) matches Ok((tag, n)) ==> (tag / 8 == 0
            ==> decode_fields(rest, budget, msg) == Err::<Accel, DecodeError>(
            DecodeError::ZeroField,
        ))),
        budget > 0 ==> (varint_answer(rest, pow2_32()) matches Ok((tag, n)) ==> (tag / 8 != 0
            ==> (field_answer(rest.skip(n as int), tag / 8, (tag % 8) as u8, msg) matches Err(e)
            ==> decode_fields(rest, budget, msg) == Err::<Accel, DecodeError>(e)))),
        budget > 0 ==> (varint_answer(rest, pow2_32()) matches Ok((tag, n)) ==> (tag / 8 != 0
            ==> (field_answer(rest.skip(n as int), tag / 8, (tag % 8) as u8, msg) matches Ok(
            (next, k),
        ) ==> (1 <= n && n + k <= rest.len() ==> decode_fields(rest, budget, msg)
            == decode_fields(rest.skip((n + k) as int), budget - (n + k), next))))),
{
    reveal(decode_fields);
}

/// Every successful skip stays inside its input.
proof fn lemma_skip_answer_len(after: Seq<u8>, wire_type: u8)
    ensures
        skip_answer(after, wire_type) matches Ok(k) ==> k <= after.len(),
{
    lemma_parse_varint_len(after, 10);
}

/// Decodes the value of field `field` at the start of `after` into `msg`.
fn decode_field(after: &[u8], field: u32, wire_type: u8, msg: Accel) -> (r: Result<
    (Accel, usize),
    DecodeError,
>)
    ensures
        match field_answer(after@, field as nat, wire_type, msg) {
            Ok((m, k)) => r matches Ok((m2, k2)) && m2 == m && k2 == k && k <= after@.len(),
            Err(e) => r matches Err(f) && f == e,
        },
{
    proof {
        lemma_parse_varint_len(after@, 10);
        lemma_skip_answer_len(after@, wire_type);
    }
    if field == 1 {
        match pb_decode_int64(after) {
            Ok((v, k)) => Ok((Accel { time: v, ..msg }, k)),
            Err(e) => Err(e),
        }
    } else if field == 2 || field == 3 || field == 4 {
        match pb_decode_fixed32(after) {
            Ok((b, k)) => {
                let next = if field == 2 {
                    Accel { x_accel: Some(b), ..msg }
                } else if field == 3 {
                    Accel { y_accel: Some(b), ..msg }
                } else {
                    Accel { z_accel: Some(b), ..msg }
                };
                Ok((next, k))
            },
            Err(e) => Err(e),
        }
    } else {
        match pb_skip_wire_value(after, wire_type) {
            Ok(k) => Ok((msg, k)),
            Err(e) => Err(e),
        }
    }
}

/// Decodes the fields of one record, continuing from `pos`.
fn decode_record(input: &[u8], start: usize, len: usize) -> (r: Result<Accel, DecodeError>)
    requires
        start <= input@.len(),
    ensures
        r == decode_fields(input@.skip(start as int), len as int, empty_accel()),
{
    let mut msg = Accel::default();
    let mut pos = start;
    let total = input.len();
    while pos - start < len
        invariant
            total == input@.len(),
            start <= pos <= input@.len(),
            decode_fields(input@.skip(pos as int), len - (pos - start), msg) == decode_fields(
                input@.skip(start as int),
                len as int,
                empty_accel(),
            ),
        decreases input@.len() - pos,
    {
        let ghost rest = input@.skip(pos as int);
        let ghost budget = len - (pos - start);
        proof {
            lemma_decode_fields_unfold(rest, budget, msg);
        }
        let (_, here) = input.split_at(pos);
        assert(here@ == rest);
        assert(rest.len() == input@.len() - pos);
        let (tag, n) = match pb_decode_varint32(here) {
            Ok(p) => p,
            Err(e) => {
                return Err(e);
            },
        };
        proof {
            lemma_parse_varint_len(rest, 10);
        }
        let field = tag >> 3;
        let wt: u32 = tag & 7;
        assert(field == tag / 8 && wt == tag % 8 && wt < 8) by (bit_vector)
            requires
                field == tag >> 3,
                wt == tag & 7,
        ;
        let wire_type = wt as u8;
        if field == 0 {
            return Err(DecodeError::ZeroField);
        }
        let (_, after) = here.split_at(n);
        assert(after@ == rest.skip(n as int));
        let (next, k) = match decode_field(after, field, wire_type, msg) {
            Ok(p) => p,
            Err(e) => {
                return Err(e);
            },
        };
        msg = next;
        assert(rest.skip((n + k) as int) =~= input@.skip(pos + n + k));
        pos = pos + n + k;
    }
    proof {
        lemma_decode_fields_unfold(input@.skip(pos as int), len - (pos - start), msg);
    }
    if pos - start == len {
        Ok(msg)
    } else {
        Err(DecodeError::WrongLen)
    }
}

/// `MessageDecode::decode_len_delimited`: decodes one length-delimited telemetry
/// frame from the start of `input`; bytes after the frame are not read.
pub fn decode_telemetry_frame(input: &[u8]) -> (r: Result<Accel, DecodeError>)
    ensures
        r == telemetry_frame_answer(input@),
{
    let (len, n) = match pb_decode_varint32(input) {
        Ok(p) => p,
        Err(e) => {
            return Err(e);
        },
    };
    proof {
        lemma_parse_varint_len(input@, 10);
    }
    decode_record(input, n, len as usize)
}

// ---------------------------------------------------------------------------
// Round trip.
// ---------------------------------------------------------------------------

proof fn lemma_time_field_step(t: i64, tail: Seq<u8>, budget: int, msg: Accel)
    requires
        t != 0,
        budget > 0,
    ensures
        decode_fields(int64_field(TIME_TAG, t) + tail, budget, msg) == decode_fields(
            tail,
            budget - int64_field(TIME_TAG, t).len(),
            Accel { time: t, ..msg },
        ),
{
    reveal(decode_fields);
    lemma_tags();
    let tv = (t as u64) as nat;
    lemma_varint_len_u64(tv);
    let s = int64_field(TIME_TAG, t) + tail;
    assert(s =~= varint_bytes(TIME_TAG as nat) + (varint_bytes(tv) + tail));
    lemma_varint_round_trip(TIME_TAG as nat, varint_bytes(tv) + tail, 10);
    assert(s.skip(1) =~= varint_bytes(tv) + tail);
    lemma_varint_round_trip(tv, tail, 10);
    assert(((tv % pow2_64()) as u64) as i64 == t) by {
        assert(tv % pow2_64() == tv);
        assert(((t as u64) as i64) == t) by (bit_vector);
    }
    let k = varint_bytes(tv).len();
    assert(s.skip((1 + k) as int) =~= tail);
}

proof fn lemma_float_field_step(tag: u32, b: u32, tail: Seq<u8>, budget: int, msg: Accel)
    requires
        tag == X_ACCEL_TAG || tag == Y_ACCEL_TAG || tag == Z_ACCEL_TAG,
        budget > 0,
    ensures
        decode_fields(float_field(tag, Some(b)) + tail, budget, msg) == decode_fields(
            tail,
            budget - 5,
            if tag == X_ACCEL_TAG {
                Accel { x_accel: Some(b), ..msg }
            } else if tag == Y_ACCEL_TAG {
                Accel { y_accel: Some(b), ..msg }
            } else {
                Accel { z_accel: Some(b), ..msg }
            },
        ),
{
    reveal(decode_fields);
    lemma_tags();
    let s = float_field(tag, Some(b)) + tail;
    assert(s =~= varint_bytes(tag as nat) + (le_bytes32(b) + tail));
    lemma_varint_round_trip(tag as nat, le_bytes32(b) + tail, 10);
    assert(s.skip(1) =~= le_bytes32(b) + tail);
    lemma_le_round_trip(b, tail);
    assert(s.skip(5) =~= tail);
}

/// An absent optional float adds nothing to the decoding.
proof fn lemma_float_field_any(
    tag: u32,
    v: Option<u32>,
    tail: Seq<u8>,
    budget: int,
    msg: Accel,
    done: Accel,
)
    requires
        tag == X_ACCEL_TAG || tag == Y_ACCEL_TAG || tag == Z_ACCEL_TAG,
        budget >= float_field(tag, v).len(),
        v is Some ==> budget > 0,
        decode_fields(
            tail,
            budget - float_field(tag, v).len(),
            match v {
                Some(b) => if tag == X_ACCEL_TAG {
                    Accel { x_accel: Some(b), ..msg }
                } else if tag == Y_ACCEL_TAG {
                    Accel { y_accel: Some(b), ..msg }
                } else {
                    Accel { z_accel: Some(b), ..msg }
                },
                None => msg,
            },
        ) == Ok::<Accel, DecodeError>(done),
    ensures
        decode_fields(float_field(tag, v) + tail, budget, msg) == Ok::<Accel, DecodeError>(done),
{
    lemma_tags();
    match v {
        Some(b) => {
            lemma_float_field_step(tag, b, tail, budget, msg);
        },
        None => {
            assert(float_field(tag, v) + tail =~= tail);
        },
    }
}

/// Law: the host reads back exactly the record the firmware sent, whatever follows
/// the frame in its receive buffer.
pub proof fn lemma_frame_round_trip(m: Accel, rest: Seq<u8>)
    ensures
        telemetry_frame_answer(telemetry_frame(m) + rest) == Ok::<Accel, DecodeError>(m),
{
    lemma_frame_fits_packet(m);
    lemma_field_lens(m);
    let body = accel_body(m);
    let len = body.len();
    let s = telemetry_frame(m) + rest;
    assert(s =~= varint_bytes(len) + (body + rest));
    lemma_varint_round_trip(len, body + rest, 10);
    assert(s.skip(1) =~= body + rest);
    assert(len % pow2_32() == len);

    let f1 = int64_field(TIME_TAG, m.time);
    let fx = float_field(X_ACCEL_TAG, m.x_accel);
    let fy = float_field(Y_ACCEL_TAG, m.y_accel);
    let fz = float_field(Z_ACCEL_TAG, m.z_accel);
    let tail_z = fz + rest;
    let tail_y = fy + tail_z;
    let tail_x = fx + tail_y;
    assert(body + rest =~= f1 + tail_x);

    let m1 = Accel { time: m.time, ..empty_accel() };
    let m2 = Accel { x_accel: m.x_accel, ..m1 };
    let m3 = Accel { y_accel: m.y_accel, ..m2 };
    assert(m == Accel { z_accel: m.z_accel, ..m3 });

    // The last field, then the end of the record.
    lemma_decode_fields_unfold(rest, 0, m);
    let b_z = fz.len() as int;
    lemma_float_field_any(Z_ACCEL_TAG, m.z_accel, rest, b_z, m3, m);
    let b_y = b_z + fy.len();
    lemma_float_field_any(Y_ACCEL_TAG, m.y_accel, tail_z, b_y, m2, m);
    let b_x = b_y + fx.len();
    lemma_float_field_any(X_ACCEL_TAG, m.x_accel, tail_y, b_x, m1, m);
    assert(b_x + f1.len() == len);
    if m.time != 0 {
        lemma_time_field_step(m.time, tail_x, len as int, empty_accel());
    } else {
        assert(f1 + tail_x =~= tail_x);
        assert(m1 == empty_accel());
    }
}

/// Law: distinct records are sent as distinct frames.
pub proof fn lemma_frame_injective(a: Accel, b: Accel)
    requires
        telemetry_frame(a) == telemetry_frame(b),
    ensures
        a == b,
{
    lemma_frame_round_trip(a, Seq::empty());
    lemma_frame_round_trip(b, Seq::empty());
}

/// Law: the frame of a record with a nonzero time and all three accelerations is,
/// byte for byte, the Protobuf encoding: its length, then tag 0x08 and the varint of
/// the time's two's-complement bits, then tags 0x15, 0x1D, 0x25 each followed by
/// the four little-endian bytes of an acceleration. Those bytes decode to that
/// record, whatever follows them.
pub proof fn lemma_telemetry_wire_bytes(t: i64, x: u32, y: u32, z: u32, rest: Seq<u8>)
    requires
        t != 0,
    ensures
        ({
            let time_bytes = varint_bytes((t as u64) as nat);
            let body = seq![0x08u8] + time_bytes + seq![0x15u8] + le_bytes32(x) + seq![0x1Du8]
                + le_bytes32(y) + seq![0x25u8] + le_bytes32(z);
            let m = Accel { time: t, x_accel: Some(x), y_accel: Some(y), z_accel: Some(z) };
            &&& body.len() < 0x80
            &&& telemetry_frame(m) == seq![body.len() as u8] + body
            &&& telemetry_frame_answer(seq![body.len() as u8] + body + rest) == Ok::<
                Accel,
                DecodeError,
            >(m)
        }),
{
    let time_bytes = varint_bytes((t as u64) as nat);
    let body = seq![0x08u8] + time_bytes + seq![0x15u8] + le_bytes32(x) + seq![0x1Du8]
        + le_bytes32(y) + seq![0x25u8] + le_bytes32(z);
    let m = Accel { time: t, x_accel: Some(x), y_accel: Some(y), z_accel: Some(z) };
    lemma_tags();
    lemma_frame_fits_packet(m);
    assert(accel_body(m) =~= body);
    assert(telemetry_frame(m) =~= seq![body.len() as u8] + body);
    lemma_frame_round_trip(m, rest);
}

/// Law: the frame of a record whose time is 0 (a sample taken at boot) leaves the
/// time out: its length, then tags 0x15, 0x1D, 0x25 each followed by the four
/// little-endian bytes of an acceleration. Those bytes decode to that record,
/// whatever follows them.
pub proof fn lemma_telemetry_wire_bytes_at_boot(x: u32, y: u32, z: u32, rest: Seq<u8>)
    ensures
        ({
            let body = seq![0x15u8] + le_bytes32(x) + seq![0x1Du8] + le_bytes32(y) + seq![0x25u8]
                + le_bytes32(z);
            let m = Accel { time: 0, x_accel: Some(x), y_accel: Some(y), z_accel: Some(z) };
            &&& telemetry_frame(m) == seq![15u8] + body
            &&& telemetry_frame_answer(seq![15u8] + body + rest) == Ok::<Accel, DecodeError>(m)
        }),
{
    let body = seq![0x15u8] + le_bytes32(x) + seq![0x1Du8] + le_bytes32(y) + seq![0x25u8]
        + le_bytes32(z);
    let m = Accel { time: 0, x_accel: Some(x), y_accel: Some(y), z_accel: Some(z) };
    lemma_tags();
    lemma_frame_fits_packet(m);
    assert(accel_body(m) =~= body);
    assert(telemetry_frame(m) =~= seq![15u8] + body);
    lemma_frame_round_trip(m, rest);
}

/// Law: a record that holds only a time field, written as the wire format writes
/// it (tag 0x08, then the varint of the time's two's-complement bits), decodes to
/// that time, whatever follows the frame.
pub proof fn lemma_time_field_decodes_to_time(t: i64, rest: Seq<u8>)
    requires
        t != 0,
    ensures
        ({
            let body = seq![0x08u8] + varint_bytes((t as u64) as nat);
            &&& body.len() < 0x80
            &&& telemetry_frame_answer(seq![body.len() as u8] + body + rest) == Ok::<
                Accel,
                DecodeError,
            >(Accel { time: t, ..empty_accel() })
        }),
{
    let body = seq![0x08u8] + varint_bytes((t as u64) as nat);
    let m = Accel { time: t, ..empty_accel() };
    lemma_tags();
    lemma_frame_fits_packet(m);
    assert(accel_body(m) =~= body);
    assert(telemetry_frame(m) =~= seq![body.len() as u8] + body);
    lemma_frame_round_trip(m, rest);
}

} // verus!

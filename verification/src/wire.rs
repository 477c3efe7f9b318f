//! The Protobuf wire format of the telemetry link, and the `micropb` primitives
//! that read and write it.
//!
//! A value is encoded as a base-128 varint (seven payload bits per byte, least
//! significant group first, high bit set on every byte but the last) or as four
//! little-endian bytes (`fixed32`). Frames are built in a `heapless::Vec<u8, 64>`,
//! the size of one USB full-speed packet.
use vstd::prelude::*;

verus! {

/// Largest number of bytes a varint reader looks at.
pub const VARINT_MAX_BYTES: u8 = 10;

/// Capacity of the packet buffer frames are built in.
pub const PACKET_CAPACITY: usize = 64;

pub const WIRE_TYPE_VARINT: u8 = 0;
pub const WIRE_TYPE_I64: u8 = 1;
pub const WIRE_TYPE_LEN: u8 = 2;
pub const WIRE_TYPE_I32: u8 = 5;

/// Why decoding failed.
#[derive(Clone, Copy, Debug, PartialEq, Eq, Structural)]
pub enum DecodeError {
    /// A varint ran over ten bytes.
    VarIntLimit,
    /// The input ended inside a value.
    UnexpectedEof,
    /// A field used the deprecated group wire types 3 or 4.
    Deprecation,
    /// A field used a wire type above 5.
    UnknownWireType,
    /// A field carried the number 0.
    ZeroField,
    /// A length-delimited record did not end where its length said.
    WrongLen,
}

/// The base-128 varint encoding of `v`.
pub open spec fn varint_bytes(v: nat) -> Seq<u8>
    decreases v,
{
    if v < 0x80 {
        seq![v as u8]
    } else {
        seq![(v % 0x80 + 0x80) as u8] + varint_bytes(v / 0x80)
    }
}

/// `u` as four little-endian bytes.
pub open spec fn le_bytes32(u: u32) -> Seq<u8> {
    seq![
        (u % 0x100) as u8,
        ((u / 0x100) % 0x100) as u8,
        ((u / 0x1_0000) % 0x100) as u8,
        (u / 0x100_0000) as u8,
    ]
}

/// The `u32` whose little-endian bytes start `s`.
pub open spec fn le_u32(s: Seq<u8>) -> u32
    recommends
        s.len() >= 4,
{
    (s[0] + s[1] * 0x100int + s[2] * 0x1_0000int + s[3] * 0x100_0000int) as u32
}

/// The outcome of reading a varint: its value and its length in bytes, or the
/// input ended first, or more than the allowed number of bytes carried the
/// continuation bit.
pub enum VarintParse {
    Value { value: nat, len: nat },
    Eof,
    Limit,
}

/// Reads a varint from the start of `s`, looking at no more than `budget` bytes.
pub open spec fn parse_varint(s: Seq<u8>, budget: nat) -> VarintParse
    decreases budget,
{
    if budget == 0 {
        VarintParse::Limit
    } else if s.len() == 0 {
        VarintParse::Eof
    } else if s[0] < 0x80 {
        VarintParse::Value { value: s[0] as nat, len: 1 }
    } else {
        match parse_varint(s.drop_first(), (budget - 1) as nat) {
            VarintParse::Value { value, len } => VarintParse::Value {
                value: ((s[0] - 0x80) + 0x80 * value) as nat,
                len: len + 1,
            },
            other => other,
        }
    }
}

/// A varint read the way the decoder reads one: ten bytes at most.
pub open spec fn read_varint(s: Seq<u8>) -> VarintParse {
    parse_varint(s, VARINT_MAX_BYTES as nat)
}

/// The decoder's answer for a varint whose value is kept modulo `modulus` (2^32 or
/// 2^64, by the width it is read into): the value and the number of bytes it took.
pub open spec fn varint_answer(s: Seq<u8>, modulus: nat) -> Result<(nat, nat), DecodeError> {
    match read_varint(s) {
        VarintParse::Value { value, len } => Ok((value % modulus, len)),
        VarintParse::Eof => Err(DecodeError::UnexpectedEof),
        VarintParse::Limit => Err(DecodeError::VarIntLimit),
    }
}

/// The decoder's answer for four little-endian bytes at the start of `s`.
pub open spec fn fixed32_answer(s: Seq<u8>) -> Result<(u32, usize), DecodeError> {
    if s.len() >= 4 {
        Ok((le_u32(s), 4))
    } else {
        Err(DecodeError::UnexpectedEof)
    }
}

pub open spec fn pow2_32() -> nat {
    0x1_0000_0000
}

pub open spec fn pow2_64() -> nat {
    0x1_0000_0000_0000_0000
}

/// How many bytes skipping one value of wire type `wire_type` at the start of `s`
/// takes.
pub open spec fn skip_answer(s: Seq<u8>, wire_type: u8) -> Result<nat, DecodeError> {
    if wire_type == WIRE_TYPE_VARINT {
        match varint_answer(s, pow2_64()) {
            Ok((_, len)) => Ok(len),
            Err(e) => Err(e),
        }
    } else if wire_type == WIRE_TYPE_I64 {
        if s.len() >= 8 {
            Ok(8)
        } else {
            Err(DecodeError::UnexpectedEof)
        }
    } else if wire_type == WIRE_TYPE_LEN {
        match varint_answer(s, pow2_32()) {
            Ok((n, len)) => if len + n <= s.len() {
                Ok(len + n)
            } else {
                Err(DecodeError::UnexpectedEof)
            },
            Err(e) => Err(e),
        }
    } else if wire_type == 3 || wire_type == 4 {
        Err(DecodeError::Deprecation)
    } else if wire_type == WIRE_TYPE_I32 {
        if s.len() >= 4 {
            Ok(4)
        } else {
            Err(DecodeError::UnexpectedEof)
        }
    } else {
        Err(DecodeError::UnknownWireType)
    }
}

// ---------------------------------------------------------------------------
// Facts about the encoding.
// ---------------------------------------------------------------------------

/// 128 to the power `k`.
pub open spec fn pow128(k: nat) -> nat
    decreases k,
{
    if k == 0 {
        1
    } else {
        0x80 * pow128((k - 1) as nat)
    }
}

/// A varint is never empty, and a value below 128^k takes at most k bytes.
pub proof fn lemma_varint_len(v: nat, k: nat)
    requires
        v < pow128(k),
        k >= 1,
    ensures
        1 <= varint_bytes(v).len() <= k,
    decreases v,
{
    if v >= 0x80 {
        assert(k >= 2) by {
            if k == 1 {
                assert(pow128(1) == 0x80 * pow128(0));
            }
        }
        let p = pow128((k - 1) as nat);
        assert(v / 0x80 < p) by (nonlinear_arith)
            requires
                v < 0x80 * p,
        ;
        lemma_varint_len(v / 0x80, (k - 1) as nat);
    }
}

/// A value of 64 bits takes at most ten bytes; one below 2^7 takes one.
pub proof fn lemma_varint_len_u64(v: nat)
    requires
        v < pow2_64(),
    ensures
        1 <= varint_bytes(v).len() <= 10,
        v < 0x80 ==> varint_bytes(v) == seq![v as u8],
{
    reveal_with_fuel(pow128, 11);
    assert(pow128(10) == 0x40_0000_0000_0000_0000);
    lemma_varint_len(v, 10);
}

/// Reading a varint back from its encoding, whatever follows it, gives the value and
/// the encoding's length.
pub proof fn lemma_varint_round_trip(v: nat, rest: Seq<u8>, budget: nat)
    requires
        varint_bytes(v).len() <= budget,
    ensures
        parse_varint(varint_bytes(v) + rest, budget) == (VarintParse::Value {
            value: v,
            len: varint_bytes(v).len(),
        }),
    decreases v,
{
    let s = varint_bytes(v) + rest;
    if v < 0x80 {
        assert(s[0] == v as u8);
    } else {
        let tail = varint_bytes(v / 0x80);
        assert(varint_bytes(v) == seq![(v % 0x80 + 0x80) as u8] + tail);
        assert(s.drop_first() =~= tail + rest);
        assert(s[0] == (v % 0x80 + 0x80) as u8);
        lemma_varint_round_trip(v / 0x80, rest, (budget - 1) as nat);
    }
}

/// A successfully read varint spans between one byte and the whole input.
pub proof fn lemma_parse_varint_len(s: Seq<u8>, budget: nat)
    ensures
        parse_varint(s, budget) matches VarintParse::Value { len, .. } ==> 1 <= len <= s.len(),
    decreases budget,
{
    if budget > 0 && s.len() > 0 && s[0] >= 0x80 {
        lemma_parse_varint_len(s.drop_first(), (budget - 1) as nat);
    }
}

/// The little-endian bytes of `u` read back as `u`, whatever follows them.
pub proof fn lemma_le_round_trip(u: u32, rest: Seq<u8>)
    ensures
        (le_bytes32(u) + rest).len() >= 4,
        le_u32(le_bytes32(u) + rest) == u,
{
    let s = le_bytes32(u) + rest;
    assert(s[0] == (u % 0x100) as u8);
    assert(s[1] == ((u / 0x100) % 0x100) as u8);
    assert(s[2] == ((u / 0x1_0000) % 0x100) as u8);
    assert(s[3] == (u / 0x100_0000) as u8);
}

// ---------------------------------------------------------------------------
// The packet buffer (`heapless::Vec<u8, 64>`).
// ---------------------------------------------------------------------------

#[verifier::external_type_specification]
#[verifier::external_body]
#[verifier::reject_recursive_types(T)]
pub struct ExHeaplessVec<T, const N: usize>(heapless::Vec<T, N>);

/// The bytes held by a packet buffer.
pub uninterp spec fn packet_bytes(v: heapless::Vec<u8, 64>) -> Seq<u8>;

/// `heapless::Vec::clear`: the buffer afterwards holds nothing.
#[verifier::external_body]
pub(crate) fn packet_clear(v: &mut heapless::Vec<u8, 64>)
    ensures
        packet_bytes(*final(v)) == Seq::<u8>::empty(),
{
    v.clear()
}

// ---------------------------------------------------------------------------
// micropb encoder primitives, writing into the packet buffer.
//
// `micropb::PbWrite for heapless::Vec` appends with `extend_from_slice`, which
// fails without writing when the bytes do not fit. A varint is written one byte at
// a time, so when it does not fit the bytes that did fit stay in the buffer; the
// contracts below say nothing of the buffer in that case.
// ---------------------------------------------------------------------------

/// `PbEncoder::encode_varint32`: appends the varint encoding of `u`; fails exactly
/// when it does not fit in the buffer.
#[verifier::external_body]
pub(crate) fn pb_encode_varint32(buf: &mut heapless::Vec<u8, 64>, u: u32) -> (r: Result<(), ()>)
    ensures
        packet_bytes(*final(buf)).len() <= PACKET_CAPACITY,
        r is Ok <==> packet_bytes(*old(buf)).len() + varint_bytes(u as nat).len()
            <= PACKET_CAPACITY,
        r is Ok ==> packet_bytes(*final(buf)) == packet_bytes(*old(buf)) + varint_bytes(u as nat),
{
    micropb::PbEncoder::new(buf).encode_varint32(u)
}

/// `PbEncoder::encode_int64`: appends the varint encoding of the two's-complement
/// bits of `i`; fails exactly when it does not fit in the buffer.
#[verifier::external_body]
pub(crate) fn pb_encode_int64(buf: &mut heapless::Vec<u8, 64>, i: i64) -> (r: Result<(), ()>)
    ensures
        packet_bytes(*final(buf)).len() <= PACKET_CAPACITY,
        r is Ok <==> packet_bytes(*old(buf)).len() + varint_bytes((i as u64) as nat).len()
            <= PACKET_CAPACITY,
        r is Ok ==> packet_bytes(*final(buf)) == packet_bytes(*old(buf)) + varint_bytes(
            (i as u64) as nat,
        ),
{
    micropb::PbEncoder::new(buf).encode_int64(i)
}

/// `PbEncoder::encode_fixed32`: appends the four little-endian bytes of `u`; fails,
/// leaving the buffer as it was, exactly when they do not fit.
#[verifier::external_body]
pub(crate) fn pb_encode_fixed32(buf: &mut heapless::Vec<u8, 64>, u: u32) -> (r: Result<(), ()>)
    ensures
        packet_bytes(*final(buf)).len() <= PACKET_CAPACITY,
        r is Ok <==> packet_bytes(*old(buf)).len() + 4 <= PACKET_CAPACITY,
        r is Ok ==> packet_bytes(*final(buf)) == packet_bytes(*old(buf)) + le_bytes32(u),
        r is Err ==> packet_bytes(*final(buf)) == packet_bytes(*old(buf)),
{
    micropb::PbEncoder::new(buf).encode_fixed32(u)
}

/// `micropb::size::sizeof_int64`: the length of the varint encoding of the
/// two's-complement bits of `i`.
#[verifier::external_body]
pub(crate) fn pb_sizeof_int64(i: i64) -> (n: usize)
    ensures
        n == varint_bytes((i as u64) as nat).len(),
{
    micropb::size::sizeof_int64(i)
}

// ---------------------------------------------------------------------------
// micropb decoder primitives, reading from the start of a byte slice. Each returns
// what it read and how many bytes it consumed.
// ---------------------------------------------------------------------------

/// `PbDecoder::decode_varint32`: a varint of at most ten bytes, truncated to 32 bits.
#[verifier::external_body]
pub(crate) fn pb_decode_varint32(input: &[u8]) -> (r: Result<(u32, usize), DecodeError>)
    ensures
        match varint_answer(input@, pow2_32()) {
            Ok((value, len)) => r matches Ok((v, n)) && v == value as u32 && n == len,
            Err(e) => r matches Err(f) && f == e,
        },
{
    let mut d = micropb::PbDecoder::new(input);
    match d.decode_varint32() {
        Ok(v) => Ok((v, d.bytes_read())),
        Err(micropb::DecodeError::VarIntLimit) => Err(DecodeError::VarIntLimit),
        Err(_) => Err(DecodeError::UnexpectedEof),
    }
}

/// `PbDecoder::decode_int64`: a varint of at most ten bytes, truncated to 64 bits
/// and read as two's complement.
#[verifier::external_body]
pub(crate) fn pb_decode_int64(input: &[u8]) -> (r: Result<(i64, usize), DecodeError>)
    ensures
        match varint_answer(input@, pow2_64()) {
            Ok((value, len)) => r matches Ok((v, n)) && v == (value as u64) as i64 && n == len,
            Err(e) => r matches Err(f) && f == e,
        },
{
    let mut d = micropb::PbDecoder::new(input);
    match d.decode_int64() {
        Ok(v) => Ok((v, d.bytes_read())),
        Err(micropb::DecodeError::VarIntLimit) => Err(DecodeError::VarIntLimit),
        Err(_) => Err(DecodeError::UnexpectedEof),
    }
}

/// `PbDecoder::decode_fixed32`: four little-endian bytes.
#[verifier::external_body]
pub(crate) fn pb_decode_fixed32(input: &[u8]) -> (r: Result<(u32, usize), DecodeError>)
    ensures
        r == fixed32_answer(input@),
{
    let mut d = micropb::PbDecoder::new(input);
    match d.decode_fixed32() {
        Ok(v) => Ok((v, d.bytes_read())),
        Err(_) => Err(DecodeError::UnexpectedEof),
    }
}

/// `PbDecoder::skip_wire_value`: skips one value of the given wire type.
#[verifier::external_body]
pub(crate) fn pb_skip_wire_value(input: &[u8], wire_type: u8) -> (r: Result<usize, DecodeError>)
    ensures
        match skip_answer(input@, wire_type) {
            Ok(len) => r matches Ok(n) && n == len,
            Err(e) => r matches Err(f) && f == e,
        },
{
    let mut d = micropb::PbDecoder::new(input);
    match d.skip_wire_value(wire_type) {
        Ok(()) => Ok(d.bytes_read()),
        Err(micropb::DecodeError::VarIntLimit) => Err(DecodeError::VarIntLimit),
        Err(micropb::DecodeError::Deprecation) => Err(DecodeError::Deprecation),
        Err(micropb::DecodeError::UnknownWireType) => Err(DecodeError::UnknownWireType),
        Err(_) => Err(DecodeError::UnexpectedEof),
    }
}

} // verus!

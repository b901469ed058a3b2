//! Encoding and decoding of system-setting feature reports.
//!
//! Every command to the chip is a feature report that starts with the
//! system-setting identifier and a request opcode, followed by zero, one,
//! two, a 16-bit little-endian or a 32-bit little-endian parameter.  The
//! encoders here build those buffers; the decoders recover opcode and
//! parameter from them, and the round-trip laws tie the two together.

use crate::consts::{REPORT_BUFFER_LEN, REPORT_ID_CHIP_CODE, REPORT_ID_SYSTEM_SETTING};
use crate::error::Ft260Error;
use crate::Ft260Result;
use vstd::prelude::*;

verus! {

/// Little-endian low byte of a 16-bit value.
pub open spec fn le16_lo(v: u16) -> u8 {
    (v & 0xFF) as u8
}

/// Little-endian high byte of a 16-bit value.
pub open spec fn le16_hi(v: u16) -> u8 {
    ((v >> 8) & 0xFF) as u8
}

/// A 16-bit value reassembled from its little-endian bytes.
pub open spec fn u16_from_le(lo: u8, hi: u8) -> u16 {
    (lo as u16) | ((hi as u16) << 8)
}

/// Byte `i` (0 = least significant) of a 32-bit value in little-endian order.
pub open spec fn le32_byte(v: u32, i: int) -> u8 {
    if i == 0 {
        (v & 0xFF) as u8
    } else if i == 1 {
        ((v >> 8) & 0xFF) as u8
    } else if i == 2 {
        ((v >> 16) & 0xFF) as u8
    } else {
        ((v >> 24) & 0xFF) as u8
    }
}

/// A 32-bit value reassembled from its little-endian bytes.
pub open spec fn u32_from_le(b0: u8, b1: u8, b2: u8, b3: u8) -> u32 {
    (b0 as u32) | ((b1 as u32) << 8) | ((b2 as u32) << 16) | ((b3 as u32) << 24)
}

/// Splitting a 16-bit value into little-endian bytes and reassembling them
/// gives the value back.
pub proof fn lemma_u16_le_round_trip(v: u16)
    ensures
        u16_from_le(le16_lo(v), le16_hi(v)) == v,
{
    assert(((v & 0xFF) as u8 as u16) | ((((v >> 8) & 0xFF) as u8 as u16) << 8) == v)
        by (bit_vector);
}

/// Splitting a 32-bit value into little-endian bytes and reassembling them
/// gives the value back.
pub proof fn lemma_u32_le_round_trip(v: u32)
    ensures
        u32_from_le(le32_byte(v, 0), le32_byte(v, 1), le32_byte(v, 2), le32_byte(v, 3)) == v,
{
    assert(((v & 0xFF) as u8 as u32) | ((((v >> 8) & 0xFF) as u8 as u32) << 8)
        | ((((v >> 16) & 0xFF) as u8 as u32) << 16) | ((((v >> 24) & 0xFF) as u8 as u32) << 24)
        == v) by (bit_vector);
}

/// The bytes of a bare system-setting request.
pub open spec fn spec_request(request: u8) -> Seq<u8> {
    seq![REPORT_ID_SYSTEM_SETTING, request]
}

/// The bytes of a system-setting request with one parameter byte.
pub open spec fn spec_request_u8(request: u8, value: u8) -> Seq<u8> {
    seq![REPORT_ID_SYSTEM_SETTING, request, value]
}

/// The bytes of a system-setting request with two parameter bytes.
pub open spec fn spec_request_u8x2(request: u8, value1: u8, value2: u8) -> Seq<u8> {
    seq![REPORT_ID_SYSTEM_SETTING, request, value1, value2]
}

/// The bytes of a system-setting request with a 16-bit little-endian
/// parameter.
pub open spec fn spec_request_u16(request: u8, value: u16) -> Seq<u8> {
    seq![REPORT_ID_SYSTEM_SETTING, request, le16_lo(value), le16_hi(value)]
}

/// The bytes of a system-setting request with a 32-bit little-endian
/// parameter.
pub open spec fn spec_request_u32(request: u8, value: u32) -> Seq<u8> {
    seq![
        REPORT_ID_SYSTEM_SETTING,
        request,
        le32_byte(value, 0),
        le32_byte(value, 1),
        le32_byte(value, 2),
        le32_byte(value, 3),
    ]
}

/// Opcode of a bare request, recovered from its bytes.
pub open spec fn spec_decode_request(buf: Seq<u8>) -> Option<u8> {
    if buf.len() == 2 && buf[0] == REPORT_ID_SYSTEM_SETTING {
        Some(buf[1])
    } else {
        None
    }
}

/// Opcode and byte parameter of a request, recovered from its bytes.
pub open spec fn spec_decode_request_u8(buf: Seq<u8>) -> Option<(u8, u8)> {
    if buf.len() == 3 && buf[0] == REPORT_ID_SYSTEM_SETTING {
        Some((buf[1], buf[2]))
    } else {
        None
    }
}

/// Opcode and two byte parameters of a request, recovered from its bytes.
pub open spec fn spec_decode_request_u8x2(buf: Seq<u8>) -> Option<(u8, u8, u8)> {
    if buf.len() == 4 && buf[0] == REPORT_ID_SYSTEM_SETTING {
        Some((buf[1], buf[2], buf[3]))
    } else {
        None
    }
}

/// Opcode and 16-bit parameter of a request, recovered from its bytes.
pub open spec fn spec_decode_request_u16(buf: Seq<u8>) -> Option<(u8, u16)> {
    if buf.len() == 4 && buf[0] == REPORT_ID_SYSTEM_SETTING {
        Some((buf[1], u16_from_le(buf[2], buf[3])))
    } else {
        None
    }
}

/// Opcode and 32-bit parameter of a request, recovered from its bytes.
pub open spec fn spec_decode_request_u32(buf: Seq<u8>) -> Option<(u8, u32)> {
    if buf.len() == 6 && buf[0] == REPORT_ID_SYSTEM_SETTING {
        Some((buf[1], u32_from_le(buf[2], buf[3], buf[4], buf[5])))
    } else {
        None
    }
}

/// A zeroed feature-report buffer of the fixed report size.
pub fn feat_rep_buf() -> (buf: Vec<u8>)
    ensures
        buf@.len() == REPORT_BUFFER_LEN,
        forall|i: int| 0 <= i < buf@.len() ==> buf@[i] == 0u8,
{
    let mut buf: Vec<u8> = Vec::new();
    while buf.len() < REPORT_BUFFER_LEN
        invariant
            buf@.len() <= REPORT_BUFFER_LEN,
            forall|i: int| 0 <= i < buf@.len() ==> buf@[i] == 0u8,
        decreases REPORT_BUFFER_LEN - buf@.len(),
    {
        buf.push(0u8);
    }
    buf
}

/// Feature report for a bare system-setting request.
pub fn encode_request(request: u8) -> (buf: Vec<u8>)
    ensures
        buf@ == spec_request(request),
{
    let mut buf: Vec<u8> = Vec::new();
    buf.push(REPORT_ID_SYSTEM_SETTING);
    buf.push(request);
    proof {
        assert(buf@ =~= spec_request(request));
    }
    buf
}

/// Feature report for a system-setting request with one parameter byte.
pub fn encode_request_u8(request: u8, value: u8) -> (buf: Vec<u8>)
    ensures
        buf@ == spec_request_u8(request, value),
{
    let mut buf: Vec<u8> = Vec::new();
    buf.push(REPORT_ID_SYSTEM_SETTING);
    buf.push(request);
    buf.push(value);
    proof {
        assert(buf@ =~= spec_request_u8(request, value));
    }
    buf
}

/// Feature report for a system-setting request with two parameter bytes.
pub fn encode_request_u8x2(request: u8, value1: u8, value2: u8) -> (buf: Vec<u8>)
    ensures
        buf@ == spec_request_u8x2(request, value1, value2),
{
    let mut buf: Vec<u8> = Vec::new();
    buf.push(REPORT_ID_SYSTEM_SETTING);
    buf.push(request);
    buf.push(value1);
    buf.push(value2);
    proof {
        assert(buf@ =~= spec_request_u8x2(request, value1, value2));
    }
    buf
}

/// Feature report for a system-setting request with a 16-bit little-endian
/// parameter.
pub fn encode_request_u16(request: u8, value: u16) -> (buf: Vec<u8>)
    ensures
        buf@ == spec_request_u16(request, value),
{
    let mut buf: Vec<u8> = Vec::new();
    buf.push(REPORT_ID_SYSTEM_SETTING);
    buf.push(request);
    buf.push((value & 0xFF) as u8);
    buf.push(((value >> 8) & 0xFF) as u8);
    proof {
        assert(buf@ =~= spec_request_u16(request, value));
    }
    buf
}

/// Feature report for a system-setting request with a 32-bit little-endian
/// parameter.
pub fn encode_request_u32(request: u8, value: u32) -> (buf: Vec<u8>)
    ensures
        buf@ == spec_request_u32(request, value),
{
    let mut buf: Vec<u8> = Vec::new();
    buf.push(REPORT_ID_SYSTEM_SETTING);
    buf.push(request);
    buf.push((value & 0xFF) as u8);
    buf.push(((value >> 8) & 0xFF) as u8);
    buf.push(((value >> 16) & 0xFF) as u8);
    buf.push(((value >> 24) & 0xFF) as u8);
    proof {
        assert(buf@ =~= spec_request_u32(request, value));
    }
    buf
}

/// Opcode of an encoded bare request.
pub fn decode_request(buf: &Vec<u8>) -> (r: Option<u8>)
    ensures
        r == spec_decode_request(buf@),
{
    if buf.len() == 2 && buf[0] == REPORT_ID_SYSTEM_SETTING {
        Some(buf[1])
    } else {
        None
    }
}

/// Opcode and parameter byte of an encoded one-byte request.
pub fn decode_request_u8(buf: &Vec<u8>) -> (r: Option<(u8, u8)>)
    ensures
        r == spec_decode_request_u8(buf@),
{
    if buf.len() == 3 && buf[0] == REPORT_ID_SYSTEM_SETTING {
        Some((buf[1], buf[2]))
    } else {
        None
    }
}

/// Opcode and parameter bytes of an encoded two-byte request.
pub fn decode_request_u8x2(buf: &Vec<u8>) -> (r: Option<(u8, u8, u8)>)
    ensures
        r == spec_decode_request_u8x2(buf@),
{
    if buf.len() == 4 && buf[0] == REPORT_ID_SYSTEM_SETTING {
        Some((buf[1], buf[2], buf[3]))
    } else {
        None
    }
}

/// Opcode and 16-bit parameter of an encoded request.
pub fn decode_request_u16(buf: &Vec<u8>) -> (r: Option<(u8, u16)>)
    ensures
        r == spec_decode_request_u16(buf@),
{
    if buf.len() == 4 && buf[0] == REPORT_ID_SYSTEM_SETTING {
        let value = (buf[2] as u16) | ((buf[3] as u16) << 8);
        Some((buf[1], value))
    } else {
        None
    }
}

/// Opcode and 32-bit parameter of an encoded request.
pub fn decode_request_u32(buf: &Vec<u8>) -> (r: Option<(u8, u32)>)
    ensures
        r == spec_decode_request_u32(buf@),
{
    if buf.len() == 6 && buf[0] == REPORT_ID_SYSTEM_SETTING {
        let value = (buf[2] as u32) | ((buf[3] as u32) << 8) | ((buf[4] as u32) << 16)
            | ((buf[5] as u32) << 24);
        Some((buf[1], value))
    } else {
        None
    }
}

/// Law: a bare request decodes back to its opcode.
pub proof fn lemma_request_round_trip(request: u8)
    ensures
        spec_decode_request(spec_request(request)) == Some(request),
{
}

/// Law: a one-byte request decodes back to its opcode and parameter.
pub proof fn lemma_request_u8_round_trip(request: u8, value: u8)
    ensures
        spec_decode_request_u8(spec_request_u8(request, value)) == Some((request, value)),
{
}

/// Law: a two-byte request decodes back to its opcode and parameters.
pub proof fn lemma_request_u8x2_round_trip(request: u8, value1: u8, value2: u8)
    ensures
        spec_decode_request_u8x2(spec_request_u8x2(request, value1, value2))
            == Some((request, value1, value2)),
{
}

/// Law: a 16-bit request decodes back to its opcode and parameter.
pub proof fn lemma_request_u16_round_trip(request: u8, value: u16)
    ensures
        spec_decode_request_u16(spec_request_u16(request, value)) == Some((request, value)),
{
    lemma_u16_le_round_trip(value);
}

/// Law: a 32-bit request decodes back to its opcode and parameter.
pub proof fn lemma_request_u32_round_trip(request: u8, value: u32)
    ensures
        spec_decode_request_u32(spec_request_u32(request, value)) == Some((request, value)),
{
    lemma_u32_le_round_trip(value);
}

/// Chip version carried by a chip-code feature report: the 32-bit
/// little-endian value of bytes 1 to 4.  `size` is the byte count the
/// transport reported; anything shorter than six bytes is an error.
pub fn decode_chip_version(buf: &Vec<u8>, size: usize) -> (r: Ft260Result<u32>)
    requires
        buf@.len() >= 5,
    ensures
        match r {
            Ok(v) => size > 5 && v == u32_from_le(buf@[1], buf@[2], buf@[3], buf@[4]),
            Err(e) => size <= 5 && e.is_hid(),
        },
{
    if size > 5 {
        let v = (buf[1] as u32) | ((buf[2] as u32) << 8) | ((buf[3] as u32) << 16)
            | ((buf[4] as u32) << 24);
        Ok(v)
    } else {
        Err(Ft260Error::HidError { message: "Feature Report gotten is short".to_owned() })
    }
}

/// A zeroed feature buffer carrying the chip-code identifier in byte 0,
/// ready to be handed to the transport's feature-report read.
pub fn chip_code_query_buf() -> (buf: Vec<u8>)
    ensures
        buf@.len() == REPORT_BUFFER_LEN,
        buf@[0] == REPORT_ID_CHIP_CODE,
        forall|i: int| 0 < i < buf@.len() ==> buf@[i] == 0u8,
{
    let mut buf = feat_rep_buf();
    buf[0] = REPORT_ID_CHIP_CODE;
    buf
}

/// True of every byte that is a defined report identifier: the fixed
/// feature/input identifiers and the two bucketed data ranges.
pub open spec fn known_report_id(id: u8) -> bool {
    ||| id == 0xA0
    ||| id == 0xA1
    ||| id == 0xB0
    ||| id == 0xB1
    ||| id == 0xC0
    ||| id == 0xC2
    ||| (0xD0 <= id && id <= 0xDF)
    ||| id == 0xE0
    ||| id == 0xE2
    ||| 0xF0 <= id
}

/// Whether a byte is a defined report identifier.
pub fn is_known_report_id(id: u8) -> (r: bool)
    ensures
        r == known_report_id(id),
{
    id == 0xA0 || id == 0xA1 || id == 0xB0 || id == 0xB1 || id == 0xC0 || id == 0xC2
        || (0xD0 <= id && id <= 0xDF) || id == 0xE0 || id == 0xE2 || 0xF0 <= id
}

/// Capacity of the payload-size bucket chosen for a chunk of the given
/// length: the smallest of the sizes 4, 8, ..., 60 that holds it.
pub open spec fn bucket_capacity(len: int) -> int {
    if len <= 4 {
        4
    } else {
        ((len + 3) / 4) * 4
    }
}

/// Law: bucket selection is total and monotonic.  For every chunk length
/// up to the chunk maximum, the chosen bucket is a multiple of four between
/// four and sixty that holds the length, no smaller bucket holds it, and a
/// longer chunk never gets a smaller bucket.
pub proof fn lemma_bucket_selection(len1: int, len2: int)
    requires
        0 <= len1 <= 60,
        len1 <= len2 <= 60,
    ensures
        bucket_capacity(len1) % 4 == 0,
        4 <= bucket_capacity(len1) <= 60,
        len1 <= bucket_capacity(len1),
        len1 > 4 ==> bucket_capacity(len1) - 4 < len1,
        bucket_capacity(len1) <= bucket_capacity(len2),
{
}

/// Number of chunk reports a transfer of `n` bytes produces: one per 60
/// bytes begun, and a single empty report when there is nothing to send.
pub open spec fn chunk_count(n: int) -> int {
    if n <= 0 {
        1
    } else {
        (n - 1) / 60 + 1
    }
}

/// Length of chunk `i` of an `n`-byte transfer: 60 for every chunk but the
/// last, which carries the remainder.
pub open spec fn chunk_len(n: int, i: int) -> int {
    if i < chunk_count(n) - 1 {
        60
    } else {
        n - 60 * (chunk_count(n) - 1)
    }
}

/// Sum of the lengths of the first `k` chunks of an `n`-byte transfer.
pub open spec fn chunk_total(n: int, k: int) -> int
    decreases k,
{
    if k <= 0 {
        0
    } else {
        chunk_total(n, k - 1) + chunk_len(n, k - 1)
    }
}

proof fn lemma_chunk_total_prefix(n: int, k: int)
    requires
        0 <= n,
        0 <= k <= chunk_count(n) - 1,
    ensures
        chunk_total(n, k) == 60 * k,
    decreases k,
{
    if k > 0 {
        lemma_chunk_total_prefix(n, k - 1);
    }
}

/// Sum of the length bytes the chunk reports declare at offset `at`.
pub open spec fn declared_total(reps: Seq<Seq<u8>>, at: int) -> int
    decreases reps.len(),
{
    if reps.len() == 0 {
        0
    } else {
        declared_total(reps.drop_last(), at) + reps.last()[at]
    }
}

/// Law: chunking covers a transfer exactly.  An `n`-byte transfer is split
/// into the ceiling of `n / 60` chunks (one chunk when `n` is zero), every
/// chunk holds at most 60 bytes, every chunk before the last holds exactly
/// 60, and the chunk lengths sum to `n`.
pub proof fn lemma_chunk_cover(n: int)
    requires
        0 <= n,
    ensures
        n > 0 ==> chunk_count(n) == (n + 59) / 60,
        chunk_count(n) >= 1,
        chunk_total(n, chunk_count(n)) == n,
        forall|i: int| 0 <= i < chunk_count(n) ==> 0 <= #[trigger] chunk_len(n, i) <= 60,
        forall|i: int| 0 <= i < chunk_count(n) - 1 ==> #[trigger] chunk_len(n, i) == 60,
{
    lemma_chunk_total_prefix(n, chunk_count(n) - 1);
}

} // verus!

use vstd::prelude::*;
use vstd::string::StringExecFns;
use vstd::utf8::{decode_utf8, valid_utf8};

use crate::error::error_code::{MajorCode, UtilMinorCode};
use crate::error::{construct_error, CustomError};

pub mod bit_reader;

verus! {

/// The big-endian value of two bytes.
pub open spec fn be_u16(b0: u8, b1: u8) -> u16 {
    ((b0 as u16) << 8u16) | (b1 as u16)
}

/// The big-endian value of four bytes.
pub open spec fn be_u32(b0: u8, b1: u8, b2: u8, b3: u8) -> u32 {
    ((b0 as u32) << 24u32) | ((b1 as u32) << 16u32) | ((b2 as u32) << 8u32) | (b3 as u32)
}

/// The big-endian `u16` that starts at `i` in `s`.
pub open spec fn read_u16(s: Seq<u8>, i: int) -> u16 {
    be_u16(s[i], s[i + 1])
}

/// The big-endian `u32` that starts at `i` in `s`.
pub open spec fn read_u32(s: Seq<u8>, i: int) -> u32 {
    be_u32(s[i], s[i + 1], s[i + 2], s[i + 3])
}

/// The big-endian `u64` that starts at `i` in `s`.
pub open spec fn read_u64(s: Seq<u8>, i: int) -> u64 {
    ((read_u32(s, i) as u64) << 32u64) | (read_u32(s, i + 4) as u64)
}

/// The big-endian bytes of a `u16`.
pub open spec fn be16_bytes(v: u16) -> Seq<u8> {
    seq![(v >> 8u16) as u8, v as u8]
}

/// The big-endian bytes of a `u32`.
pub open spec fn be32_bytes(v: u32) -> Seq<u8> {
    seq![(v >> 24u32) as u8, (v >> 16u32) as u8, (v >> 8u32) as u8, v as u8]
}

/// The big-endian bytes of the low 32 bits of a `u64`.
pub open spec fn low32_bytes(v: u64) -> Seq<u8> {
    seq![(v >> 24u64) as u8, (v >> 16u64) as u8, (v >> 8u64) as u8, v as u8]
}

/// The big-endian bytes of a `u64`.
pub open spec fn be64_bytes(v: u64) -> Seq<u8> {
    seq![
        (v >> 56u64) as u8,
        (v >> 48u64) as u8,
        (v >> 40u64) as u8,
        (v >> 32u64) as u8,
        (v >> 24u64) as u8,
        (v >> 16u64) as u8,
        (v >> 8u64) as u8,
        v as u8,
    ]
}

/// Reading back the bytes of a `u32` gives the `u32`.
pub proof fn lemma_be32_roundtrip(v: u32)
    ensures
        read_u32(be32_bytes(v), 0) == v,
{
    let b = be32_bytes(v);
    assert(be_u32((v >> 24u32) as u8, (v >> 16u32) as u8, (v >> 8u32) as u8, v as u8) == v)
        by (bit_vector);
}

/// Reading back the low 32 bits of a `u64` gives the `u64` truncated.
pub proof fn lemma_low32_roundtrip(v: u64)
    ensures
        read_u32(low32_bytes(v), 0) == v as u32,
        v <= u32::MAX ==> read_u32(low32_bytes(v), 0) == v,
{
    let b = low32_bytes(v);
    assert(be_u32((v >> 24u64) as u8, (v >> 16u64) as u8, (v >> 8u64) as u8, v as u8) == v as u32)
        by (bit_vector);
}

/// Reading back the bytes of a `u64` gives the `u64`.
pub proof fn lemma_be64_roundtrip(v: u64)
    ensures
        read_u64(be64_bytes(v), 0) == v,
{
    let b = be64_bytes(v);
    let hi = be_u32((v >> 56u64) as u8, (v >> 48u64) as u8, (v >> 40u64) as u8, (v >> 32u64) as u8);
    let lo = be_u32((v >> 24u64) as u8, (v >> 16u64) as u8, (v >> 8u64) as u8, v as u8);
    assert(((be_u32((v >> 56u64) as u8, (v >> 48u64) as u8, (v >> 40u64) as u8, (v >> 32u64) as u8)
        as u64) << 32u64) | (be_u32((v >> 24u64) as u8, (v >> 16u64) as u8, (v >> 8u64) as u8, v as u8)
        as u64) == v) by (bit_vector);
}

/// A `u32` read inside a part of a sequence reads the same in the part.
pub proof fn lemma_read_u32_shift(s: Seq<u8>, t: Seq<u8>, k: int, o: int)
    requires
        0 <= k,
        0 <= o,
        o + 4 <= t.len(),
        k + t.len() <= s.len(),
        s.subrange(k, k + t.len()) == t,
    ensures
        read_u32(s, k + o) == read_u32(t, o),
{
    assert(s[k + o] == s.subrange(k, k + t.len())[o]);
    assert(s[k + o + 1] == s.subrange(k, k + t.len())[o + 1]);
    assert(s[k + o + 2] == s.subrange(k, k + t.len())[o + 2]);
    assert(s[k + o + 3] == s.subrange(k, k + t.len())[o + 3]);
}

/// The header bytes of a size below 256.
pub proof fn lemma_low32_small(v: u64)
    requires
        v < 256,
    ensures
        low32_bytes(v) == seq![0u8, 0u8, 0u8, v as u8],
{
    assert((v >> 24u64) as u8 == 0) by (bit_vector)
        requires
            v < 256,
    ;
    assert((v >> 16u64) as u8 == 0) by (bit_vector)
        requires
            v < 256,
    ;
    assert((v >> 8u64) as u8 == 0) by (bit_vector)
        requires
            v < 256,
    ;
    assert(low32_bytes(v) =~= seq![0u8, 0u8, 0u8, v as u8]);
}

fn unsigned_error() -> (e: CustomError)
    ensures
        e.major == MajorCode::UTIL,
        e.minor == 0,
{
    construct_error(
        MajorCode::UTIL,
        UtilMinorCode::PARSING_UNSIGNED_ERROR,
        String::from_str("Not enough bytes to read the value"),
    )
}

/// `core::str::from_utf8`, taken to an owned `String`: the text the bytes
/// encode when they are valid UTF-8, `None` otherwise. Trusted: the contract
/// states that the standard library's validation and decoding agree with
/// vstd's `valid_utf8` and `decode_utf8`.
#[verifier::external_body]
pub(crate) fn utf8_to_string(bytes: &[u8]) -> (r: Option<String>)
    ensures
        r is Some <==> valid_utf8(bytes@),
        r matches Some(s) ==> s@ == decode_utf8(bytes@),
{
    match core::str::from_utf8(bytes) {
        Ok(s) => Some(String::from(s)),
        Err(_) => None,
    }
}

/// Appends the bytes of `src` to `out`.
pub fn extend_bytes(out: &mut Vec<u8>, src: &[u8])
    ensures
        final(out)@ == old(out)@ + src@,
{
    let ghost start = out@;
    let mut i: usize = 0;
    while i < src.len()
        invariant
            i <= src@.len(),
            out@ == start + src@.subrange(0, i as int),
        decreases src@.len() - i,
    {
        out.push(src[i]);
        i = i + 1;
        assert(out@ =~= start + src@.subrange(0, i as int));
    }
    assert(src@.subrange(0, src@.len() as int) =~= src@);
}

/// The big-endian `u16` at `offset`, which the bytes hold.
pub fn u16_at(data: &[u8], offset: usize) -> (v: u16)
    requires
        offset + 2 <= data@.len(),
    ensures
        v == read_u16(data@, offset as int),
{
    ((data[offset] as u16) << 8u16) | (data[offset + 1] as u16)
}

/// The big-endian `u32` at `offset`, which the bytes hold.
pub fn u32_at(data: &[u8], offset: usize) -> (v: u32)
    requires
        offset + 4 <= data@.len(),
    ensures
        v == read_u32(data@, offset as int),
{
    ((data[offset] as u32) << 24u32) | ((data[offset + 1] as u32) << 16u32) | ((data[offset + 2]
        as u32) << 8u32) | (data[offset + 3] as u32)
}

/// The byte at `offset`, or an error when `offset` is past the end.
pub fn get_u8(data: &[u8], offset: usize) -> (r: Result<u8, CustomError>)
    ensures
        r is Ok <==> offset < data@.len(),
        r matches Ok(v) ==> v == data@[offset as int],
        r matches Err(e) ==> e.major == MajorCode::UTIL && e.minor == 0,
{
    if offset < data.len() {
        Ok(data[offset])
    } else {
        Err(unsigned_error())
    }
}

/// The big-endian `u16` at `offset`, or an error when it does not fit.
pub fn get_u16(data: &[u8], offset: usize) -> (r: Result<u16, CustomError>)
    ensures
        r is Ok <==> offset + 2 <= data@.len(),
        r matches Ok(v) ==> v == read_u16(data@, offset as int),
        r matches Err(e) ==> e.major == MajorCode::UTIL && e.minor == 0,
{
    if offset < data.len() && data.len() - offset >= 2 {
        Ok(((data[offset] as u16) << 8u16) | (data[offset + 1] as u16))
    } else {
        Err(unsigned_error())
    }
}

/// The big-endian `u32` at `offset`, or an error when it does not fit.
pub fn get_u32(data: &[u8], offset: usize) -> (r: Result<u32, CustomError>)
    ensures
        r is Ok <==> offset + 4 <= data@.len(),
        r matches Ok(v) ==> v == read_u32(data@, offset as int),
        r matches Err(e) ==> e.major == MajorCode::UTIL && e.minor == 0,
{
    if offset < data.len() && data.len() - offset >= 4 {
        Ok(((data[offset] as u32) << 24u32) | ((data[offset + 1] as u32) << 16u32) | ((data[offset
            + 2] as u32) << 8u32) | (data[offset + 3] as u32))
    } else {
        Err(unsigned_error())
    }
}

/// The big-endian `u64` at `offset`, or an error when it does not fit.
pub fn get_u64(data: &[u8], offset: usize) -> (r: Result<u64, CustomError>)
    ensures
        r is Ok <==> offset + 8 <= data@.len(),
        r matches Ok(v) ==> v == read_u64(data@, offset as int),
        r matches Err(e) ==> e.major == MajorCode::UTIL && e.minor == 0,
{
    if offset < data.len() && data.len() - offset >= 8 {
        let hi = ((data[offset] as u32) << 24u32) | ((data[offset + 1] as u32) << 16u32) | ((data[offset
            + 2] as u32) << 8u32) | (data[offset + 3] as u32);
        let lo = ((data[offset + 4] as u32) << 24u32) | ((data[offset + 5] as u32) << 16u32) | ((data[offset
            + 6] as u32) << 8u32) | (data[offset + 7] as u32);
        Ok(((hi as u64) << 32u64) | (lo as u64))
    } else {
        Err(unsigned_error())
    }
}

/// The big-endian two's complement `i32` at `offset`, or an error when it does not fit.
pub fn get_i32(data: &[u8], offset: usize) -> (r: Result<i32, CustomError>)
    ensures
        r is Ok <==> offset + 4 <= data@.len(),
        r matches Ok(v) ==> v == read_u32(data@, offset as int) as i32,
        r matches Err(e) ==> e.major == MajorCode::UTIL && e.minor == 0,
{
    let v = get_u32(data, offset)?;
    Ok(v as i32)
}

/// The bytes of a `u32`, least significant first.
pub fn transform_u32_to_u8_array(v: u32) -> (r: [u8; 4])
    ensures
        r@ == seq![v as u8, (v >> 8u32) as u8, (v >> 16u32) as u8, (v >> 24u32) as u8],
{
    [v as u8, (v >> 8u32) as u8, (v >> 16u32) as u8, (v >> 24u32) as u8]
}

/// The bytes of an `i32` in two's complement, least significant first.
pub fn transform_i32_to_u8_array(v: i32) -> (r: [u8; 4])
    ensures
        r@ == seq![
            (v as u32) as u8,
            ((v as u32) >> 8u32) as u8,
            ((v as u32) >> 16u32) as u8,
            ((v as u32) >> 24u32) as u8,
        ],
{
    transform_u32_to_u8_array(v as u32)
}

/// The eight bytes of a `usize` taken as a `u64`, least significant first.
pub fn transform_usize_to_u8_array(v: usize) -> (r: [u8; 8])
    ensures
        r@ == seq![
            (v as u64) as u8,
            ((v as u64) >> 8u64) as u8,
            ((v as u64) >> 16u64) as u8,
            ((v as u64) >> 24u64) as u8,
            ((v as u64) >> 32u64) as u8,
            ((v as u64) >> 40u64) as u8,
            ((v as u64) >> 48u64) as u8,
            ((v as u64) >> 56u64) as u8,
        ],
{
    let w = v as u64;
    [
        w as u8,
        (w >> 8u64) as u8,
        (w >> 16u64) as u8,
        (w >> 24u64) as u8,
        (w >> 32u64) as u8,
        (w >> 40u64) as u8,
        (w >> 48u64) as u8,
        (w >> 56u64) as u8,
    ]
}

} // verus!

use vstd::prelude::*;

use crate::error::CustomError;
use crate::util::{
    be16_bytes, be32_bytes, extend_bytes, low32_bytes, read_u32, transform_u32_to_u8_array,
    transform_usize_to_u8_array,
};

pub mod boxes;
pub mod configuration_records;
pub mod descriptors;
pub mod nal;
pub mod sample_entry;

verus! {

/// A builder of a box whose bytes are produced on demand.
pub trait BoxBuilder {
    fn build(&self) -> Result<Vec<u8>, CustomError>;
}

/// The kind of media a track carries (ISO/IEC 14496-12, 8.4.3).
#[derive(Debug, PartialEq, Eq, Structural, Clone, Copy)]
pub enum HandlerType {
    VIDE,
    SOUN,
    HINT,
    META,
    AUXV,
}

/// A box: the 32-bit size of the whole box (the low 32 bits of it), the
/// four-character type and the payload.
pub open spec fn spec_box(fourcc: Seq<u8>, payload: Seq<u8>) -> Seq<u8> {
    low32_bytes((8 + payload.len()) as u64) + fourcc + payload
}

/// A box that fits in 32 bits declares its own length in its first four bytes,
/// and carries its type and then its payload.
pub proof fn lemma_box_layout(fourcc: Seq<u8>, payload: Seq<u8>)
    requires
        fourcc.len() == 4,
        8 + payload.len() <= u32::MAX,
    ensures
        spec_box(fourcc, payload).len() == 8 + payload.len(),
        read_u32(spec_box(fourcc, payload), 0) == spec_box(fourcc, payload).len(),
        spec_box(fourcc, payload).subrange(4, 8) == fourcc,
        spec_box(fourcc, payload).subrange(8, 8 + payload.len() as int) == payload,
{
    let b = spec_box(fourcc, payload);
    crate::util::lemma_low32_roundtrip((8 + payload.len()) as u64);
    assert(b.subrange(0, 4) =~= low32_bytes((8 + payload.len()) as u64));
    assert(read_u32(b, 0) == read_u32(low32_bytes((8 + payload.len()) as u64), 0));
    assert(b.subrange(4, 8) =~= fourcc);
    assert(b.subrange(8, 8 + payload.len() as int) =~= payload);
}

/// The four size bytes of a box header, most significant first.
pub fn size_header(size: usize) -> (r: Vec<u8>)
    ensures
        r@ == low32_bytes(size as u64),
{
    let size_array = transform_usize_to_u8_array(size);
    vec![size_array[3], size_array[2], size_array[1], size_array[0]]
}

/// A box of the given type around the given payload.
pub fn make_box(fourcc: [u8; 4], payload: &[u8]) -> (r: Vec<u8>)
    requires
        8 + payload@.len() <= usize::MAX,
    ensures
        r@ == spec_box(fourcc@, payload@),
{
    let size = 8 + payload.len();
    let mut r = size_header(size);
    extend_bytes(&mut r, &fourcc);
    extend_bytes(&mut r, payload);
    r
}

/// Appends the big-endian bytes of the low 32 bits of `v`.
pub fn push_low32(out: &mut Vec<u8>, v: usize)
    ensures
        final(out)@ == old(out)@ + low32_bytes(v as u64),
{
    let a = transform_usize_to_u8_array(v);
    out.push(a[3]);
    out.push(a[2]);
    out.push(a[1]);
    out.push(a[0]);
    assert(out@ =~= old(out)@ + low32_bytes(v as u64));
}

/// Appends the big-endian bytes of `v`.
pub fn push_be32(out: &mut Vec<u8>, v: u32)
    ensures
        final(out)@ == old(out)@ + be32_bytes(v),
{
    let a = transform_u32_to_u8_array(v);
    out.push(a[3]);
    out.push(a[2]);
    out.push(a[1]);
    out.push(a[0]);
    assert(out@ =~= old(out)@ + be32_bytes(v));
}

/// Appends the big-endian bytes of `v`.
pub fn push_be16(out: &mut Vec<u8>, v: u16)
    ensures
        final(out)@ == old(out)@ + be16_bytes(v),
{
    out.push((v >> 8u16) as u8);
    out.push(v as u8);
    assert(out@ =~= old(out)@ + be16_bytes(v));
}

/// The length of a built box fits in `usize`, where a box is built.
pub open spec fn fits(b: Option<Seq<u8>>) -> bool {
    b matches Some(x) ==> x.len() <= usize::MAX
}

} // verus!

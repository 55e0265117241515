use vstd::prelude::*;
use vstd::slice::slice_subrange;
use vstd::utf8::{decode_utf8, valid_utf8};

use crate::util::{get_u32, read_u32, utf8_to_string};

verus! {

/// A box: its declared size and its type.
pub trait IsoBox {
    fn get_size(&self) -> u32;

    fn get_type(&self) -> &String;
}

/// A full box: a box with a version and 24 bits of flags.
pub trait IsoFullBox {
    fn get_version(&self) -> u8;

    fn get_flags(&self) -> u32;
}

/// Where the first box of type `fourcc` lies, searching the sequence of
/// boxes that starts at `i`: its start and end. `None` when the boxes run
/// out, a box header does not fit, or a box declares a size below 8 or
/// past the end of `s`.
pub open spec fn spec_find_box(s: Seq<u8>, fourcc: Seq<u8>, i: int) -> Option<(int, int)>
    decreases s.len() - i,
{
    if i < 0 || i + 8 > s.len() {
        None
    } else {
        let size = read_u32(s, i) as int;
        if size < 8 {
            None
        } else if s.subrange(i + 4, i + 8) == fourcc {
            if i + size <= s.len() {
                Some((i, i + size))
            } else {
                None
            }
        } else if i + size > s.len() {
            None
        } else {
            spec_find_box(s, fourcc, i + size)
        }
    }
}

/// A box found lies within `s`, holds at least its header, and has the type
/// searched for.
pub proof fn lemma_find_box_found(s: Seq<u8>, fourcc: Seq<u8>, i: int)
    ensures
        spec_find_box(s, fourcc, i) matches Some((a, b)) ==> 0 <= a && a + 8 <= b && b <= s.len()
            && s.subrange(a + 4, a + 8) == fourcc && read_u32(s, a) == b - a,
    decreases s.len() - i,
{
    if 0 <= i && i + 8 <= s.len() {
        let size = read_u32(s, i) as int;
        if size >= 8 && s.subrange(i + 4, i + 8) != fourcc && i + size <= s.len() {
            lemma_find_box_found(s, fourcc, i + size);
        }
    }
}

/// Bytes below 0x80 are valid UTF-8.
pub proof fn lemma_ascii_valid_utf8(s: Seq<u8>)
    requires
        forall|k: int| 0 <= k < s.len() ==> s[k] < 0x80,
    ensures
        valid_utf8(s),
    decreases s.len(),
{
    if s.len() > 0 {
        let rest = s.subrange(1, s.len() as int);
        assert forall|k: int| 0 <= k < rest.len() implies rest[k] < 0x80 by {
            assert(rest[k] == s[k + 1]);
        }
        lemma_ascii_valid_utf8(rest);
    }
}

/// The first box of type `fourcc` in the boxes that start at `offset`.
pub fn find_box<'a>(fourcc: &[u8; 4], offset: usize, data: &'a [u8]) -> (r: Option<&'a [u8]>)
    ensures
        match spec_find_box(data@, fourcc@, offset as int) {
            Some((start, end)) => r matches Some(b) && b@ == data@.subrange(start, end),
            None => r is None,
        },
{
    let mut i = offset;
    while i <= data.len() && data.len() - i >= 8
        invariant
            spec_find_box(data@, fourcc@, offset as int) == spec_find_box(data@, fourcc@, i as int),
        decreases data@.len() - i,
    {
        let size = match get_u32(data, i) {
            Ok(v) => v as usize,
            Err(_) => {
                return None;
            },
        };
        if size < 8 {
            return None;
        }
        if data[i + 4] == fourcc[0] && data[i + 5] == fourcc[1] && data[i + 6] == fourcc[2]
            && data[i + 7] == fourcc[3] {
            assert(data@.subrange(i + 4, i + 8) =~= fourcc@);
            if size <= data.len() - i {
                return Some(slice_subrange(data, i, i + size));
            } else {
                return None;
            }
        }
        assert(data@.subrange(i + 4, i + 8) != fourcc@) by {
            let k = if data[i + 4] != fourcc[0] {
                0
            } else if data[i + 5] != fourcc[1] {
                1
            } else if data[i + 6] != fourcc[2] {
                2
            } else {
                3
            };
            assert(data@.subrange(i + 4, i + 8)[k] != fourcc@[k]);
        }
        if size > data.len() - i {
            return None;
        }
        i = i + size;
    }
    None
}

/// The box type that bytes 4 to 8 hold, as text.
pub fn read_box_type(data: &[u8]) -> (r: String)
    requires
        data@.len() >= 8,
        valid_utf8(data@.subrange(4, 8)),
    ensures
        r@ == decode_utf8(data@.subrange(4, 8)),
{
    let bytes = slice_subrange(data, 4, 8);
    match utf8_to_string(bytes) {
        Some(s) => s,
        None => {
            assert(false);
            String::new()
        },
    }
}

/// Reading a box header: the size, then a type that can be read as text.
/// A buffer of four to seven bytes, or a type that is not UTF-8, makes the
/// readers of this crate panic.
pub open spec fn box_type_readable(s: Seq<u8>) -> bool {
    &&& !(4 <= s.len() < 8)
    &&& s.len() >= 8 ==> valid_utf8(s.subrange(4, 8))
}

} // verus!

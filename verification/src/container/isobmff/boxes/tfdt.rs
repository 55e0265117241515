use vstd::prelude::*;
use vstd::std_specs::cmp::PartialEqSpecImpl;
use vstd::string::StringExecFns;
use vstd::utf8::decode_utf8;

use crate::container::isobmff::boxes::iso_box::{
    box_type_readable, find_box, lemma_ascii_valid_utf8, lemma_find_box_found, read_box_type,
    spec_find_box, IsoBox, IsoFullBox,
};
use crate::container::isobmff::{make_box, spec_box};
use crate::error::error_code::{ISOBMFFMinorCode, MajorCode};
use crate::error::{construct_error, CustomError};
use crate::util::{be64_bytes, get_u32, get_u64, get_u8, read_u32, read_u64, transform_usize_to_u8_array};

verus! {

// TrackFragmentBaseMediaDecodeTimeBox 14496-12; 8.8.12

#[derive(Debug)]
pub struct TFDT {
    pub size: u32,
    pub box_type: String,
    pub version: u8,
    pub base_media_decode_time: u64,
}

impl PartialEq for TFDT {
    fn eq(&self, other: &Self) -> (r: bool) {
        self.size == other.size && self.base_media_decode_time == other.base_media_decode_time
    }
}

impl PartialEqSpecImpl for TFDT {
    open spec fn obeys_eq_spec() -> bool {
        true
    }

    open spec fn eq_spec(&self, other: &Self) -> bool {
        self.size == other.size && self.base_media_decode_time == other.base_media_decode_time
    }
}

impl IsoBox for TFDT {
    fn get_size(&self) -> (s: u32)
        ensures
            s == self.size,
    {
        self.size
    }

    fn get_type(&self) -> (t: &String)
        ensures
            t == &self.box_type,
    {
        &self.box_type
    }
}

impl IsoFullBox for TFDT {
    fn get_version(&self) -> (v: u8)
        ensures
            v == self.version,
    {
        self.version
    }

    fn get_flags(&self) -> (f: u32)
        ensures
            f == 0,
    {
        0u32
    }
}

/// The bytes hold the decode time that the version announces: 32 bits for
/// version 0, 64 bits otherwise.
pub open spec fn tfdt_parsable(s: Seq<u8>) -> bool {
    s.len() >= 9 && s.len() >= if s[8] == 0 {
        16int
    } else {
        20int
    }
}

/// The fields of a parsed decode time box are those that `s` holds.
pub open spec fn tfdt_matches(t: TFDT, s: Seq<u8>) -> bool {
    &&& t.size == read_u32(s, 0)
    &&& t.box_type@ == decode_utf8(s.subrange(4, 8))
    &&& t.version == s[8]
    &&& t.base_media_decode_time == if s[8] == 0 {
        read_u32(s, 12) as u64
    } else {
        read_u64(s, 12)
    }
}

/// The bytes of the decode time box inside the first track fragment box of
/// a movie fragment box.
pub open spec fn spec_tfdt_in_moof(moof: Seq<u8>) -> Option<Seq<u8>> {
    match spec_find_box(moof, seq![0x74u8, 0x72, 0x61, 0x66], 8) {
        None => None,
        Some((a, b)) => {
            let traf = moof.subrange(a, b);
            match spec_find_box(traf, seq![0x74u8, 0x66, 0x64, 0x74], 8) {
                None => None,
                Some((c, d)) => Some(traf.subrange(c, d)),
            }
        },
    }
}

impl TFDT {
    pub fn get_base_media_decode_time(&self) -> (t: u64)
        ensures
            t == self.base_media_decode_time,
    {
        self.base_media_decode_time
    }

    /// Finds the decode time box of the first track fragment of a movie
    /// fragment box and parses it.
    pub fn parse(moof: &[u8]) -> (r: Result<TFDT, CustomError>)
        ensures
            match spec_tfdt_in_moof(moof@) {
                None => r matches Err(e) && e.major == MajorCode::ISOBMFF && e.minor == 0,
                Some(tfdt) => (r is Ok <==> tfdt_parsable(tfdt)) && (r matches Ok(t)
                    ==> tfdt_matches(t, tfdt)),
            },
    {
        let traf = find_box(&[0x74, 0x72, 0x61, 0x66], 8, moof);
        let tfdt = match traf {
            None => None,
            Some(traf) => find_box(&[0x74, 0x66, 0x64, 0x74], 8, traf),
        };
        match tfdt {
            Some(tfdt_data) => {
                proof {
                    let (a, b) = spec_find_box(moof@, seq![0x74u8, 0x72, 0x61, 0x66], 8).unwrap();
                    let traf_s = moof@.subrange(a, b);
                    lemma_find_box_found(traf_s, seq![0x74u8, 0x66, 0x64, 0x74], 8);
                    let (c, d) = spec_find_box(traf_s, seq![0x74u8, 0x66, 0x64, 0x74], 8).unwrap();
                    assert(tfdt_data@.subrange(4, 8) =~= traf_s.subrange(c + 4, c + 8));
                    lemma_ascii_valid_utf8(tfdt_data@.subrange(4, 8));
                }
                TFDT::parse_tfdt(tfdt_data)
            },
            None => Err(
                construct_error(
                    MajorCode::ISOBMFF,
                    ISOBMFFMinorCode::UNABLE_TO_FIND_BOX_ERROR,
                    String::from_str("TFDT: Unable to find box"),
                ),
            ),
        }
    }

    /// Parses a track fragment decode time box.
    pub fn parse_tfdt(tfdt_data: &[u8]) -> (r: Result<TFDT, CustomError>)
        requires
            box_type_readable(tfdt_data@),
        ensures
            r is Ok <==> tfdt_parsable(tfdt_data@),
            r matches Ok(t) ==> tfdt_matches(t, tfdt_data@),
            r matches Err(e) ==> e.major == MajorCode::UTIL && e.minor == 0,
    {
        let mut start = 0usize;
        let size = get_u32(tfdt_data, start)?;
        let box_type = read_box_type(tfdt_data);
        start = start + 8;
        let version = get_u8(tfdt_data, start)?;
        start = start + 4;
        let base_media_decode_time: u64;
        if version == 0 {
            base_media_decode_time = get_u32(tfdt_data, start)? as u64;
        } else {
            base_media_decode_time = get_u64(tfdt_data, start)?;
        }
        Ok(TFDT { box_type, size, base_media_decode_time, version })
    }
}

pub struct TFDTBuilder {
    pub base_media_decode_time: usize,
}

impl TFDTBuilder {
    /// A version 1 box: no flags, the decode time in 64 bits.
    pub open spec fn spec_build(&self) -> Seq<u8> {
        spec_box(
            seq![0x74u8, 0x66, 0x64, 0x74],
            seq![1u8, 0, 0, 0] + be64_bytes(self.base_media_decode_time as u64),
        )
    }

    pub fn create_builder() -> (b: TFDTBuilder)
        ensures
            b.base_media_decode_time == 0,
    {
        TFDTBuilder { base_media_decode_time: 0 }
    }

    pub fn base_media_decode_time(self, base_media_decode_time: usize) -> (b: TFDTBuilder)
        ensures
            b.base_media_decode_time == base_media_decode_time,
    {
        TFDTBuilder { base_media_decode_time }
    }

    pub fn build(&self) -> (r: Vec<u8>)
        ensures
            r@ == self.spec_build(),
    {
        let t = transform_usize_to_u8_array(self.base_media_decode_time);
        let payload = vec![
            // version
            0x01,
            // flag
            0x00, 0x00, 0x00,
            // baseMediaDecodeTime
            t[7], t[6], t[5], t[4], t[3], t[2], t[1], t[0],
        ];
        assert(payload@ =~= seq![1u8, 0, 0, 0] + be64_bytes(self.base_media_decode_time as u64));
        make_box([0x74, 0x66, 0x64, 0x74], payload.as_slice())
    }
}

/// What a decode time box builder writes, the parser reads back: a
/// version 1 box of 20 bytes holding the decode time.
pub proof fn lemma_tfdt_roundtrip(b: TFDTBuilder, t: TFDT)
    requires
        tfdt_matches(t, b.spec_build()),
    ensures
        tfdt_parsable(b.spec_build()),
        box_type_readable(b.spec_build()),
        t.size == 20,
        t.version == 1,
        t.base_media_decode_time == b.base_media_decode_time as u64,
{
    let s = b.spec_build();
    let payload = seq![1u8, 0, 0, 0] + be64_bytes(b.base_media_decode_time as u64);
    crate::container::isobmff::lemma_box_layout(seq![0x74u8, 0x66, 0x64, 0x74], payload);
    crate::util::lemma_be64_roundtrip(b.base_media_decode_time as u64);
    assert(s.subrange(12, 20) =~= be64_bytes(b.base_media_decode_time as u64));
    assert(read_u64(s, 12) == read_u64(s.subrange(12, 20), 0));
    lemma_ascii_valid_utf8(s.subrange(4, 8));
}

} // verus!

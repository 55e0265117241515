use vstd::prelude::*;
use vstd::std_specs::cmp::PartialEqSpecImpl;
use vstd::string::StringExecFns;
use vstd::utf8::decode_utf8;

use crate::container::isobmff::boxes::iso_box::{
    box_type_readable, find_box, lemma_ascii_valid_utf8, lemma_find_box_found, read_box_type,
    spec_find_box, IsoBox, IsoFullBox,
};
use crate::container::isobmff::{make_box, spec_box};
use crate::error::error_code::{ISOBMFFMinorCode, MajorCode};
use crate::error::{construct_error, CustomError};
use crate::util::{
    be32_bytes, be64_bytes, get_u32, get_u64, low32_bytes, read_u32, read_u64,
    transform_u32_to_u8_array, transform_usize_to_u8_array,
};

verus! {

// TrackFragmentHeaderBox 14496-12; 8.8.7

#[derive(Debug)]
pub struct TFHD {
    pub size: u32,
    pub box_type: String,
    pub version: u8,
    pub flags: u32,
    pub track_id: u32,
    pub base_data_offset: Option<u64>,
    pub sample_description_index: Option<u32>,
    pub default_sample_duration: Option<u32>,
    pub default_sample_size: Option<u32>,
    pub default_sample_flags: Option<u32>,
    pub duration_is_empty: bool,
    pub default_base_is_moof: bool,
}

impl PartialEq for TFHD {
    fn eq(&self, other: &Self) -> (r: bool) {
        self.size == other.size && self.flags == other.flags && self.base_data_offset
            == other.base_data_offset && self.sample_description_index
            == other.sample_description_index && self.default_sample_duration
            == other.default_sample_duration && self.default_sample_size
            == other.default_sample_size && self.default_sample_flags == other.default_sample_flags
            && self.default_base_is_moof == other.default_base_is_moof && self.duration_is_empty
            == other.duration_is_empty
    }
}

impl PartialEqSpecImpl for TFHD {
    open spec fn obeys_eq_spec() -> bool {
        true
    }

    open spec fn eq_spec(&self, other: &Self) -> bool {
        self.size == other.size && self.flags == other.flags && self.base_data_offset
            == other.base_data_offset && self.sample_description_index
            == other.sample_description_index && self.default_sample_duration
            == other.default_sample_duration && self.default_sample_size
            == other.default_sample_size && self.default_sample_flags == other.default_sample_flags
            && self.default_base_is_moof == other.default_base_is_moof && self.duration_is_empty
            == other.duration_is_empty
    }
}

impl IsoBox for TFHD {
    fn get_size(&self) -> (s: u32)
        ensures
            s == self.size,
    {
        self.size
    }

    fn get_type(&self) -> (t: &String)
        ensures
            t == &self.box_type,
    {
        &self.box_type
    }
}

impl IsoFullBox for TFHD {
    fn get_version(&self) -> (v: u8)
        ensures
            v == 0,
    {
        0u8
    }

    fn get_flags(&self) -> (f: u32)
        ensures
            f == self.flags,
    {
        self.flags
    }
}

/// The 24 flag bits of a track fragment header.
pub open spec fn tfhd_flags(s: Seq<u8>) -> u32 {
    read_u32(s, 8) & 0xFFFFFFu32
}

/// Where each optional field starts: the base data offset, the sample
/// description index, the default duration, size and flags, and the end.
pub open spec fn tfhd_offsets(f: u32) -> (int, int, int, int, int, int) {
    let o1 = 16int;
    let o2 = o1 + if f & 0x1u32 != 0 { 8int } else { 0int };
    let o3 = o2 + if f & 0x2u32 != 0 { 4int } else { 0int };
    let o4 = o3 + if f & 0x8u32 != 0 { 4int } else { 0int };
    let o5 = o4 + if f & 0x10u32 != 0 { 4int } else { 0int };
    let end = o5 + if f & 0x20u32 != 0 { 4int } else { 0int };
    (o1, o2, o3, o4, o5, end)
}

/// The bytes hold every field that the flags announce.
pub open spec fn tfhd_parsable(s: Seq<u8>) -> bool {
    s.len() >= 16 && s.len() >= tfhd_offsets(tfhd_flags(s)).5
}

/// The fields of a parsed track fragment header are those that `s` holds.
pub open spec fn tfhd_matches(t: TFHD, s: Seq<u8>) -> bool {
    let f = tfhd_flags(s);
    let (o1, o2, o3, o4, o5, _end) = tfhd_offsets(f);
    &&& t.size == read_u32(s, 0)
    &&& t.box_type@ == decode_utf8(s.subrange(4, 8))
    &&& t.version == 0
    &&& t.flags == f
    &&& t.track_id == read_u32(s, 12)
    &&& t.base_data_offset == if f & 0x1u32 != 0 {
        Some(read_u64(s, o1))
    } else {
        None
    }
    &&& t.sample_description_index == if f & 0x2u32 != 0 {
        Some(read_u32(s, o2))
    } else {
        None
    }
    &&& t.default_sample_duration == if f & 0x8u32 != 0 {
        Some(read_u32(s, o3))
    } else {
        None
    }
    &&& t.default_sample_size == if f & 0x10u32 != 0 {
        Some(read_u32(s, o4))
    } else {
        None
    }
    &&& t.default_sample_flags == if f & 0x20u32 != 0 {
        Some(read_u32(s, o5))
    } else {
        None
    }
    &&& t.duration_is_empty == (f & 0x010000u32 != 0)
    &&& t.default_base_is_moof == (f & 0x020000u32 != 0)
}

/// The bytes of the track fragment header inside the first track fragment
/// box of a movie fragment box.
pub open spec fn spec_tfhd_in_moof(moof: Seq<u8>) -> Option<Seq<u8>> {
    match spec_find_box(moof, seq![0x74u8, 0x72, 0x61, 0x66], 8) {
        None => None,
        Some((a, b)) => {
            let traf = moof.subrange(a, b);
            match spec_find_box(traf, seq![0x74u8, 0x66, 0x68, 0x64], 8) {
                None => None,
                Some((c, d)) => Some(traf.subrange(c, d)),
            }
        },
    }
}

impl TFHD {
    /// Finds the track fragment header of the first track fragment of a movie
    /// fragment box and parses it.
    pub fn parse(moof: &[u8]) -> (r: Result<TFHD, CustomError>)
        ensures
            match spec_tfhd_in_moof(moof@) {
                None => r matches Err(e) && e.major == MajorCode::ISOBMFF && e.minor == 0,
                Some(tfhd) => (r is Ok <==> tfhd_parsable(tfhd)) && (r matches Ok(t)
                    ==> tfhd_matches(t, tfhd)),
            },
    {
        let traf = find_box(&[0x74, 0x72, 0x61, 0x66], 8, moof);
        let tfhd = match traf {
            None => None,
            Some(traf) => find_box(&[0x74, 0x66, 0x68, 0x64], 8, traf),
        };
        match tfhd {
            Some(tfhd_data) => {
                proof {
                    let (a, b) = spec_find_box(moof@, seq![0x74u8, 0x72, 0x61, 0x66], 8).unwrap();
                    let traf_s = moof@.subrange(a, b);
                    lemma_find_box_found(traf_s, seq![0x74u8, 0x66, 0x68, 0x64], 8);
                    let (c, d) = spec_find_box(traf_s, seq![0x74u8, 0x66, 0x68, 0x64], 8).unwrap();
                    assert(tfhd_data@.subrange(4, 8) =~= traf_s.subrange(c + 4, c + 8));
                    lemma_ascii_valid_utf8(tfhd_data@.subrange(4, 8));
                }
                TFHD::parse_tfhd(tfhd_data)
            },
            None => Err(
                construct_error(
                    MajorCode::ISOBMFF,
                    ISOBMFFMinorCode::UNABLE_TO_FIND_BOX_ERROR,
                    String::from_str("TFHD: Unable to find box"),
                ),
            ),
        }
    }

    /// Parses a track fragment header box.
    pub fn parse_tfhd(tfhd_data: &[u8]) -> (r: Result<TFHD, CustomError>)
        requires
            box_type_readable(tfhd_data@),
        ensures
            r is Ok <==> tfhd_parsable(tfhd_data@),
            r matches Ok(t) ==> tfhd_matches(t, tfhd_data@),
            r matches Err(e) ==> e.major == MajorCode::UTIL && e.minor == 0,
    {
        let ghost s = tfhd_data@;
        let mut start = 0usize;
        let size = get_u32(tfhd_data, start)?;
        let box_type = read_box_type(tfhd_data);
        start = start + 8;
        let flags = get_u32(tfhd_data, start)? & 0xFFFFFF;
        start = start + 4;
        let track_id = get_u32(tfhd_data, start)?;
        start = start + 4;
        // base-data-offset-present
        let mut base_data_offset: Option<u64> = None;
        if (flags & 0x000001) != 0 {
            base_data_offset = Some(get_u64(tfhd_data, start)?);
            start = start + 8;
        }
        // sample-description-index-present
        let mut sample_description_index: Option<u32> = None;
        if (flags & 0x000002) != 0 {
            sample_description_index = Some(get_u32(tfhd_data, start)?);
            start = start + 4;
        }
        // default-sample-duration-present
        let mut default_sample_duration: Option<u32> = None;
        if (flags & 0x000008) != 0 {
            default_sample_duration = Some(get_u32(tfhd_data, start)?);
            start = start + 4;
        }
        // default-sample-size-present
        let mut default_sample_size: Option<u32> = None;
        if (flags & 0x0000010) != 0 {
            default_sample_size = Some(get_u32(tfhd_data, start)?);
            start = start + 4;
        }
        // default-sample-flags-present
        let mut default_sample_flags: Option<u32> = None;
        if (flags & 0x0000020) != 0 {
            default_sample_flags = Some(get_u32(tfhd_data, start)?);
        }
        let duration_is_empty = (flags & 0x010000) != 0;
        let default_base_is_moof = (flags & 0x020000) != 0;
        Ok(
            TFHD {
                size,
                box_type,
                version: 0,
                flags,
                track_id,
                base_data_offset,
                sample_description_index,
                default_sample_duration,
                default_sample_size,
                default_sample_flags,
                duration_is_empty,
                default_base_is_moof,
            },
        )
    }
}

pub struct TFHDBuilder {
    pub track_id: usize,
    pub base_data_offset: Option<usize>,
    pub sample_description_index: Option<u32>,
    pub sample_duration: Option<u32>,
    pub sample_size: Option<u32>,
    pub sample_flags: Option<u32>,
    pub duration_is_empty: bool,
    pub default_base_is_moof: bool,
}

pub open spec fn opt_be32(v: Option<u32>) -> Seq<u8> {
    match v {
        Some(x) => be32_bytes(x),
        None => Seq::empty(),
    }
}

impl TFHDBuilder {
    /// The flags: one bit for each optional field present, then
    /// duration-is-empty and default-base-is-moof.
    pub open spec fn spec_flag(&self) -> u32 {
        ((if self.base_data_offset is Some { 0x1int } else { 0 }) + (
        if self.sample_description_index is Some { 0x2int } else { 0 }) + (
        if self.sample_duration is Some { 0x8int } else { 0 }) + (if self.sample_size is Some {
            0x10int
        } else {
            0
        }) + (if self.sample_flags is Some { 0x20int } else { 0 }) + (if self.duration_is_empty {
            0x10000int
        } else {
            0
        }) + (if self.default_base_is_moof { 0x20000int } else { 0 })) as u32
    }

    /// The optional fields that are present, in order.
    pub open spec fn spec_data(&self) -> Seq<u8> {
        (match self.base_data_offset {
            Some(v) => be64_bytes(v as u64),
            None => Seq::empty(),
        }) + opt_be32(self.sample_description_index) + opt_be32(self.sample_duration) + opt_be32(
            self.sample_size,
        ) + opt_be32(self.sample_flags)
    }

    /// The box: version 0, the 24 flag bits, the track id (its low 32 bits)
    /// and the optional fields.
    pub open spec fn spec_build(&self) -> Seq<u8> {
        let f = self.spec_flag();
        spec_box(
            seq![0x74u8, 0x66, 0x68, 0x64],
            seq![0u8, (f >> 16u32) as u8, (f >> 8u32) as u8, f as u8] + low32_bytes(
                self.track_id as u64,
            ) + self.spec_data(),
        )
    }

    /// Track 1, no optional field, the base of data offsets being the
    /// movie fragment box.
    pub fn create_builder() -> (b: TFHDBuilder)
        ensures
            b == (TFHDBuilder {
                track_id: 1,
                base_data_offset: None,
                sample_description_index: None,
                sample_duration: None,
                sample_size: None,
                sample_flags: None,
                duration_is_empty: false,
                default_base_is_moof: true,
            }),
    {
        TFHDBuilder {
            track_id: 1,
            base_data_offset: None,
            sample_description_index: None,
            sample_duration: None,
            sample_size: None,
            sample_flags: None,
            duration_is_empty: false,
            default_base_is_moof: true,
        }
    }

    pub fn track_id(self, track_id: usize) -> (b: TFHDBuilder)
        ensures
            b == (TFHDBuilder { track_id, ..self }),
    {
        TFHDBuilder { track_id, ..self }
    }

    pub fn base_data_offset(self, base_data_offset: usize) -> (b: TFHDBuilder)
        ensures
            b == (TFHDBuilder { base_data_offset: Some(base_data_offset), ..self }),
    {
        TFHDBuilder { base_data_offset: Some(base_data_offset), ..self }
    }

    pub fn sample_description_index(self, sample_description_index: u32) -> (b: TFHDBuilder)
        ensures
            b == (TFHDBuilder { sample_description_index: Some(sample_description_index), ..self }),
    {
        TFHDBuilder { sample_description_index: Some(sample_description_index), ..self }
    }

    pub fn sample_duration(self, sample_duration: Option<u32>) -> (b: TFHDBuilder)
        ensures
            b == (TFHDBuilder { sample_duration, ..self }),
    {
        TFHDBuilder { sample_duration, ..self }
    }

    pub fn sample_size(self, sample_size: u32) -> (b: TFHDBuilder)
        ensures
            b == (TFHDBuilder { sample_size: Some(sample_size), ..self }),
    {
        TFHDBuilder { sample_size: Some(sample_size), ..self }
    }

    pub fn sample_flags(self, sample_flags: u32) -> (b: TFHDBuilder)
        ensures
            b == (TFHDBuilder { sample_flags: Some(sample_flags), ..self }),
    {
        TFHDBuilder { sample_flags: Some(sample_flags), ..self }
    }

    fn push_be32(data: &mut Vec<u8>, v: u32)
        ensures
            final(data)@ == old(data)@ + be32_bytes(v),
    {
        let array_val = transform_u32_to_u8_array(v);
        data.push(array_val[3]);
        data.push(array_val[2]);
        data.push(array_val[1]);
        data.push(array_val[0]);
        assert(data@ =~= old(data)@ + be32_bytes(v));
    }

    /// The flags and the bytes of the optional fields that are present.
    fn generate_flag(&self) -> (r: (u32, Vec<u8>))
        ensures
            r.0 == self.spec_flag(),
            r.1@ == self.spec_data(),
    {
        let mut flag: u32 = 0x00000000;
        let mut data: Vec<u8> = Vec::new();
        // base-data-offset-present
        if let Some(base_data_offset) = self.base_data_offset {
            flag = flag + 0x000001;
            let array_val = transform_usize_to_u8_array(base_data_offset);
            data.push(array_val[7]);
            data.push(array_val[6]);
            data.push(array_val[5]);
            data.push(array_val[4]);
            data.push(array_val[3]);
            data.push(array_val[2]);
            data.push(array_val[1]);
            data.push(array_val[0]);
            assert(data@ =~= be64_bytes(base_data_offset as u64));
        }
        let ghost d1 = data@;
        // sample-description-index-present
        if let Some(sample_description_index) = self.sample_description_index {
            flag = flag + 0x000002;
            Self::push_be32(&mut data, sample_description_index);
        }
        let ghost d2 = data@;
        assert(d2 == d1 + opt_be32(self.sample_description_index));
        // default-sample-duration-present
        if let Some(sample_duration) = self.sample_duration {
            flag = flag + 0x000008;
            Self::push_be32(&mut data, sample_duration);
        }
        let ghost d3 = data@;
        assert(d3 == d2 + opt_be32(self.sample_duration));
        // default-sample-size-present
        if let Some(sample_size) = self.sample_size {
            flag = flag + 0x000010;
            Self::push_be32(&mut data, sample_size);
        }
        let ghost d4 = data@;
        assert(d4 == d3 + opt_be32(self.sample_size));
        // default-sample-flags-present
        if let Some(sample_flags) = self.sample_flags {
            flag = flag + 0x000020;
            Self::push_be32(&mut data, sample_flags);
        }
        assert(data@ == d4 + opt_be32(self.sample_flags));
        // duration-is-empty
        if self.duration_is_empty {
            flag = flag + 0x010000;
        }
        // default-base-is-moof
        if self.default_base_is_moof {
            flag = flag + 0x020000;
        }
        (flag, data)
    }

    pub fn build(&self) -> (r: Vec<u8>)
        ensures
            r@ == self.spec_build(),
    {
        let track_id_array = transform_usize_to_u8_array(self.track_id);
        let (flag, data) = self.generate_flag();
        let flag_array = transform_u32_to_u8_array(flag);
        let mut payload = vec![
            // version
            0x00,
            // flag
            flag_array[2], flag_array[1], flag_array[0],
            // track id
            track_id_array[3], track_id_array[2], track_id_array[1], track_id_array[0],
        ];
        proof {
            lemma_spec_data_len(self);
        }
        crate::util::extend_bytes(&mut payload, data.as_slice());
        assert(payload@ =~= seq![0u8, (flag >> 16u32) as u8, (flag >> 8u32) as u8, flag as u8]
            + low32_bytes(self.track_id as u64) + self.spec_data());
        make_box([0x74, 0x66, 0x68, 0x64], payload.as_slice())
    }
}

/// The optional fields take at most 24 bytes.
pub proof fn lemma_spec_data_len(b: &TFHDBuilder)
    ensures
        b.spec_data().len() <= 24,
{
}

/// The flag bits of a builder say which optional fields it holds.
proof fn lemma_flag_bits(b: TFHDBuilder)
    ensures
        b.spec_flag() < 0x1000000,
        (b.spec_flag() & 0x1u32 != 0) == (b.base_data_offset is Some),
        (b.spec_flag() & 0x2u32 != 0) == (b.sample_description_index is Some),
        (b.spec_flag() & 0x8u32 != 0) == (b.sample_duration is Some),
        (b.spec_flag() & 0x10u32 != 0) == (b.sample_size is Some),
        (b.spec_flag() & 0x20u32 != 0) == (b.sample_flags is Some),
        (b.spec_flag() & 0x010000u32 != 0) == b.duration_is_empty,
        (b.spec_flag() & 0x020000u32 != 0) == b.default_base_is_moof,
{
    let a = b.base_data_offset is Some;
    let c = b.sample_description_index is Some;
    let d = b.sample_duration is Some;
    let e = b.sample_size is Some;
    let g = b.sample_flags is Some;
    let h = b.duration_is_empty;
    let k = b.default_base_is_moof;
    let f: u32 = ((if a { 0x1u32 } else { 0u32 }) | (if c { 0x2u32 } else { 0u32 }) | (if d {
        0x8u32
    } else {
        0u32
    }) | (if e { 0x10u32 } else { 0u32 }) | (if g { 0x20u32 } else { 0u32 }) | (if h {
        0x10000u32
    } else {
        0u32
    }) | (if k { 0x20000u32 } else { 0u32 }));
    assert(f == (if a { 0x1u32 } else { 0u32 }) + (if c { 0x2u32 } else { 0u32 }) + (if d {
        0x8u32
    } else {
        0u32
    }) + (if e { 0x10u32 } else { 0u32 }) + (if g { 0x20u32 } else { 0u32 }) + (if h {
        0x10000u32
    } else {
        0u32
    }) + (if k { 0x20000u32 } else { 0u32 })) by (bit_vector)
        requires
            f == ((if a { 0x1u32 } else { 0u32 }) | (if c { 0x2u32 } else { 0u32 }) | (if d {
                0x8u32
            } else {
                0u32
            }) | (if e { 0x10u32 } else { 0u32 }) | (if g { 0x20u32 } else { 0u32 }) | (if h {
                0x10000u32
            } else {
                0u32
            }) | (if k { 0x20000u32 } else { 0u32 })),
    ;
    assert(b.spec_flag() == f);
    assert(f < 0x1000000 && ((f & 0x1u32 != 0) == a) && ((f & 0x2u32 != 0) == c) && ((f & 0x8u32
        != 0) == d) && ((f & 0x10u32 != 0) == e) && ((f & 0x20u32 != 0) == g) && ((f & 0x10000u32
        != 0) == h) && ((f & 0x20000u32 != 0) == k)) by (bit_vector)
        requires
            f == ((if a { 0x1u32 } else { 0u32 }) | (if c { 0x2u32 } else { 0u32 }) | (if d {
                0x8u32
            } else {
                0u32
            }) | (if e { 0x10u32 } else { 0u32 }) | (if g { 0x20u32 } else { 0u32 }) | (if h {
                0x10000u32
            } else {
                0u32
            }) | (if k { 0x20000u32 } else { 0u32 })),
    ;
}

/// A 32-bit optional field reads back from its place.
proof fn lemma_opt_be32_at(s: Seq<u8>, o: int, v: Option<u32>)
    requires
        0 <= o,
        o + opt_be32(v).len() <= s.len(),
        s.subrange(o, o + opt_be32(v).len()) == opt_be32(v),
    ensures
        v matches Some(x) ==> read_u32(s, o) == x,
{
    if let Some(x) = v {
        crate::util::lemma_be32_roundtrip(x);
        assert(s.subrange(o, o + 4) =~= be32_bytes(x));
        assert(read_u32(s, o) == read_u32(s.subrange(o, o + 4), 0));
    }
}

/// What a track fragment header builder writes, the parser reads back: the
/// flags it derives, the track id (its low 32 bits), each optional field it
/// holds, and its two flag-only settings.
#[verifier::rlimit(60)]
pub proof fn lemma_tfhd_roundtrip(b: TFHDBuilder, t: TFHD)
    requires
        tfhd_matches(t, b.spec_build()),
    ensures
        tfhd_parsable(b.spec_build()),
        box_type_readable(b.spec_build()),
        t.size == b.spec_build().len(),
        t.version == 0,
        t.flags == b.spec_flag(),
        t.track_id == b.track_id as u32,
        t.base_data_offset == match b.base_data_offset {
            Some(v) => Some(v as u64),
            None => None::<u64>,
        },
        t.sample_description_index == b.sample_description_index,
        t.default_sample_duration == b.sample_duration,
        t.default_sample_size == b.sample_size,
        t.default_sample_flags == b.sample_flags,
        t.duration_is_empty == b.duration_is_empty,
        t.default_base_is_moof == b.default_base_is_moof,
{
    let s = b.spec_build();
    let f = b.spec_flag();
    let head = seq![0u8, (f >> 16u32) as u8, (f >> 8u32) as u8, f as u8];
    let payload = head + low32_bytes(b.track_id as u64) + b.spec_data();
    lemma_spec_data_len(&b);
    crate::container::isobmff::lemma_box_layout(seq![0x74u8, 0x66, 0x68, 0x64], payload);
    lemma_flag_bits(b);
    // flags
    assert(s.subrange(8, 12) =~= head);
    assert(read_u32(s, 8) & 0xFFFFFFu32 == f) by {
        assert(s[8] == 0u8 && s[9] == (f >> 16u32) as u8 && s[10] == (f >> 8u32) as u8 && s[11]
            == f as u8);
        assert(crate::util::be_u32(0u8, (f >> 16u32) as u8, (f >> 8u32) as u8, f as u8)
            & 0xFFFFFFu32 == f) by (bit_vector)
            requires
                f < 0x1000000,
        ;
    }
    // track id
    crate::util::lemma_low32_roundtrip(b.track_id as u64);
    assert(s.subrange(12, 16) =~= low32_bytes(b.track_id as u64));
    assert(read_u32(s, 12) == read_u32(s.subrange(12, 16), 0));
    assert(((b.track_id as u64) as u32) == b.track_id as u32);
    // optional fields
    let base = match b.base_data_offset {
        Some(v) => be64_bytes(v as u64),
        None => Seq::<u8>::empty(),
    };
    let d1 = opt_be32(b.sample_description_index);
    let d2 = opt_be32(b.sample_duration);
    let d3 = opt_be32(b.sample_size);
    let d4 = opt_be32(b.sample_flags);
    let (o1, o2, o3, o4, o5, end) = tfhd_offsets(f);
    assert(b.spec_data() == base + d1 + d2 + d3 + d4);
    assert(o2 == 16 + base.len());
    assert(o3 == o2 + d1.len());
    assert(o4 == o3 + d2.len());
    assert(o5 == o4 + d3.len());
    assert(end == o5 + d4.len());
    assert(s.len() == end);
    if let Some(v) = b.base_data_offset {
        crate::util::lemma_be64_roundtrip(v as u64);
        assert(s.subrange(16, 24) =~= be64_bytes(v as u64));
        assert(read_u64(s, 16) == read_u64(s.subrange(16, 24), 0));
    }
    assert(s.subrange(o2, o3) =~= d1);
    lemma_opt_be32_at(s, o2, b.sample_description_index);
    assert(s.subrange(o3, o4) =~= d2);
    lemma_opt_be32_at(s, o3, b.sample_duration);
    assert(s.subrange(o4, o5) =~= d3);
    lemma_opt_be32_at(s, o4, b.sample_size);
    assert(s.subrange(o5, end) =~= d4);
    lemma_opt_be32_at(s, o5, b.sample_flags);
    lemma_ascii_valid_utf8(s.subrange(4, 8));
}

} // verus!

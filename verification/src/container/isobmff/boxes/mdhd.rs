use vstd::prelude::*;
use vstd::std_specs::cmp::PartialEqSpecImpl;
use vstd::string::StringExecFns;
use vstd::utf8::decode_utf8;

use crate::container::isobmff::boxes::iso_box::{
    box_type_readable, find_box, lemma_ascii_valid_utf8, lemma_find_box_found, read_box_type,
    spec_find_box,
};
use crate::container::isobmff::{make_box, push_low32, spec_box};
use crate::error::error_code::{ISOBMFFMinorCode, MajorCode};
use crate::error::{construct_error, CustomError};
use crate::util::{
    be16_bytes, be32_bytes, be64_bytes, get_u16, get_u32, get_u64, get_u8, low32_bytes, read_u16,
    read_u32, read_u64, utf8_to_string,
};

verus! {

// MediaHeaderBox 14496-12; 8.4.2

/// A reader of a media header box that reads each field on first use.
#[derive(Debug)]
pub struct MDHDReader {
    pub data: Vec<u8>,
    pub size: u32,
    pub box_type: String,
    pub version: u8,
    pub flags: u32,
    pub creation_time: Option<u64>,
    pub modification_time: Option<u64>,
    pub timescale: Option<u32>,
    pub duration: Option<u64>,
    pub language: Option<u16>,
}

impl PartialEq for MDHDReader {
    fn eq(&self, other: &Self) -> (r: bool) {
        self.size == other.size && self.flags == other.flags && self.duration == other.duration
            && self.creation_time == other.creation_time && self.modification_time
            == other.modification_time
    }
}

impl PartialEqSpecImpl for MDHDReader {
    open spec fn obeys_eq_spec() -> bool {
        true
    }

    open spec fn eq_spec(&self, other: &Self) -> bool {
        self.size == other.size && self.flags == other.flags && self.duration == other.duration
            && self.creation_time == other.creation_time && self.modification_time
            == other.modification_time
    }
}

/// A 32-bit field widened, or a 64-bit field, at `offset`; `None` when
/// the bytes end first.
pub open spec fn mdhd_time_field(s: Seq<u8>, wide: bool, offset: int) -> Option<u64> {
    if !wide {
        if offset + 4 <= s.len() {
            Some(read_u32(s, offset) as u64)
        } else {
            None
        }
    } else if offset + 8 <= s.len() {
        Some(read_u64(s, offset))
    } else {
        None
    }
}

/// The creation time: 32 bits at 12 in version 0, 64 bits at 12 otherwise.
pub open spec fn spec_mdhd_creation_time(s: Seq<u8>, version: u8) -> Option<u64> {
    mdhd_time_field(s, version != 0, 12)
}

/// The modification time: 32 bits at 16 in version 0, 64 bits at 20
/// otherwise.
pub open spec fn spec_mdhd_modification_time(s: Seq<u8>, version: u8) -> Option<u64> {
    mdhd_time_field(s, version != 0, if version == 0 { 16 } else { 20 })
}

/// The timescale: 32 bits at 20 in version 0, at 28 otherwise.
pub open spec fn spec_mdhd_timescale(s: Seq<u8>, version: u8) -> Option<u32> {
    let offset: int = if version == 0 { 20 } else { 28 };
    if offset + 4 <= s.len() {
        Some(read_u32(s, offset))
    } else {
        None
    }
}

/// The duration: 32 bits at 24 in version 0, 64 bits at 32 otherwise.
pub open spec fn spec_mdhd_duration(s: Seq<u8>, version: u8) -> Option<u64> {
    mdhd_time_field(s, version != 0, if version == 0 { 24 } else { 32 })
}

/// The packed language: 16 bits at 28 in version 0, at 40 otherwise.
pub open spec fn spec_mdhd_language(s: Seq<u8>, version: u8) -> Option<u16> {
    let offset: int = if version == 0 { 28 } else { 40 };
    if offset + 2 <= s.len() {
        Some(read_u16(s, offset))
    } else {
        None
    }
}

/// The three letters of a packed ISO-639-2/T language code, each five bits
/// plus 0x60, first letter in the high bits.
pub open spec fn spec_language_bytes(packed: u16) -> Seq<u8> {
    seq![
        (((packed >> 10u16) & 0x1Fu16) + 0x60u16) as u8,
        (((packed >> 5u16) & 0x1Fu16) + 0x60u16) as u8,
        ((packed & 0x1Fu16) + 0x60u16) as u8,
    ]
}

/// The bytes of the media header box of the first track of a movie box.
pub open spec fn spec_mdhd_in_mp4(mp4: Seq<u8>) -> Option<Seq<u8>> {
    match spec_find_box(mp4, seq![0x6Du8, 0x6F, 0x6F, 0x76], 0) {
        None => None,
        Some((a, b)) => {
            let moov = mp4.subrange(a, b);
            match spec_find_box(moov, seq![0x74u8, 0x72, 0x61, 0x6B], 8) {
                None => None,
                Some((c, d)) => {
                    let trak = moov.subrange(c, d);
                    match spec_find_box(trak, seq![0x6Du8, 0x64, 0x69, 0x61], 8) {
                        None => None,
                        Some((e, f)) => {
                            let mdia = trak.subrange(e, f);
                            match spec_find_box(mdia, seq![0x6Du8, 0x64, 0x68, 0x64], 8) {
                                None => None,
                                Some((g, h)) => Some(mdia.subrange(g, h)),
                            }
                        },
                    }
                },
            }
        },
    }
}

/// A reader holds the bytes it was made from, their size, type and
/// version, and no field read yet.
pub open spec fn mdhd_reader_of(r: MDHDReader, s: Seq<u8>) -> bool {
    &&& r.data@ == s
    &&& r.size == read_u32(s, 0)
    &&& r.box_type@ == decode_utf8(s.subrange(4, 8))
    &&& r.version == s[8]
    &&& r.flags == 0
    &&& r.creation_time is None
    &&& r.modification_time is None
    &&& r.timescale is None
    &&& r.duration is None
    &&& r.language is None
}

impl MDHDReader {
    /// Finds the media header box of the first track of the movie box and
    /// makes a reader of it.
    pub fn parse(mp4: &[u8]) -> (r: Result<MDHDReader, CustomError>)
        ensures
            match spec_mdhd_in_mp4(mp4@) {
                None => r matches Err(e) && e.major == MajorCode::ISOBMFF && e.minor == 0,
                Some(b) => (r is Ok <==> b.len() >= 9) && (r matches Ok(m) ==> mdhd_reader_of(
                    m,
                    b,
                )),
            },
    {
        let moov = find_box(&[0x6D, 0x6F, 0x6F, 0x76], 0, mp4);
        let trak = match moov {
            None => None,
            Some(moov) => find_box(&[0x74, 0x72, 0x61, 0x6B], 8, moov),
        };
        let mdia = match trak {
            None => None,
            Some(trak) => find_box(&[0x6D, 0x64, 0x69, 0x61], 8, trak),
        };
        let mdhd = match mdia {
            None => None,
            Some(mdia) => find_box(&[0x6D, 0x64, 0x68, 0x64], 8, mdia),
        };
        match mdhd {
            Some(mdhd_data) => {
                proof {
                    let (a, b) = spec_find_box(mp4@, seq![0x6Du8, 0x6F, 0x6F, 0x76], 0).unwrap();
                    let moov_s = mp4@.subrange(a, b);
                    let (c, d) = spec_find_box(moov_s, seq![0x74u8, 0x72, 0x61, 0x6B], 8).unwrap();
                    let trak_s = moov_s.subrange(c, d);
                    let (e, f) = spec_find_box(trak_s, seq![0x6Du8, 0x64, 0x69, 0x61], 8).unwrap();
                    let mdia_s = trak_s.subrange(e, f);
                    lemma_find_box_found(mdia_s, seq![0x6Du8, 0x64, 0x68, 0x64], 8);
                    let (g, h) = spec_find_box(mdia_s, seq![0x6Du8, 0x64, 0x68, 0x64], 8).unwrap();
                    assert(mdhd_data@.subrange(4, 8) =~= mdia_s.subrange(g + 4, g + 8));
                    lemma_ascii_valid_utf8(mdhd_data@.subrange(4, 8));
                }
                MDHDReader::get_reader(mdhd_data)
            },
            None => Err(
                construct_error(
                    MajorCode::ISOBMFF,
                    ISOBMFFMinorCode::UNABLE_TO_FIND_BOX_ERROR,
                    String::from_str("MDHD: Unable to find box"),
                ),
            ),
        }
    }

    /// A reader of the bytes of a media header box.
    pub fn get_reader(mdhd_data: &[u8]) -> (r: Result<MDHDReader, CustomError>)
        requires
            box_type_readable(mdhd_data@),
        ensures
            r is Ok <==> mdhd_data@.len() >= 9,
            r matches Ok(m) ==> mdhd_reader_of(m, mdhd_data@),
            r matches Err(e) ==> e.major == MajorCode::UTIL && e.minor == 0,
    {
        let size = get_u32(mdhd_data, 0)?;
        let box_type = read_box_type(mdhd_data);
        let version = get_u8(mdhd_data, 8)?;
        Ok(
            MDHDReader {
                data: vstd::slice::slice_to_vec(mdhd_data),
                size,
                box_type,
                version,
                flags: 0,
                creation_time: None,
                modification_time: None,
                duration: None,
                timescale: None,
                language: None,
            },
        )
    }

    fn read_time(&self, wide: bool, offset: usize) -> (r: Result<u64, CustomError>)
        requires
            offset <= 64,
        ensures
            match mdhd_time_field(self.data@, wide, offset as int) {
                Some(v) => r == Ok::<u64, CustomError>(v),
                None => r matches Err(e) && e.major == MajorCode::UTIL && e.minor == 0,
            },
    {
        if !wide {
            let v = get_u32(self.data.as_slice(), offset)?;
            Ok(v as u64)
        } else {
            get_u64(self.data.as_slice(), offset)
        }
    }

    /// The creation time, read on first use and kept.
    pub fn get_creation_time(&mut self) -> (r: Result<u64, CustomError>)
        ensures
            match old(self).creation_time {
                Some(v) => r == Ok::<u64, CustomError>(v) && *final(self) == *old(self),
                None => match spec_mdhd_creation_time(old(self).data@, old(self).version) {
                    Some(v) => r == Ok::<u64, CustomError>(v) && *final(self) == (MDHDReader {
                        creation_time: Some(v),
                        ..*old(self)
                    }),
                    None => r matches Err(e) && e.major == MajorCode::UTIL && *final(self)
                        == *old(self),
                },
            },
    {
        match self.creation_time {
            Some(v) => Ok(v),
            None => {
                let v = self.read_time(self.version != 0, 12)?;
                self.creation_time = Some(v);
                Ok(v)
            },
        }
    }

    /// The modification time, read on first use and kept.
    pub fn get_modification_time(&mut self) -> (r: Result<u64, CustomError>)
        ensures
            match old(self).modification_time {
                Some(v) => r == Ok::<u64, CustomError>(v) && *final(self) == *old(self),
                None => match spec_mdhd_modification_time(old(self).data@, old(self).version) {
                    Some(v) => r == Ok::<u64, CustomError>(v) && *final(self) == (MDHDReader {
                        modification_time: Some(v),
                        ..*old(self)
                    }),
                    None => r matches Err(e) && e.major == MajorCode::UTIL && *final(self)
                        == *old(self),
                },
            },
    {
        match self.modification_time {
            Some(v) => Ok(v),
            None => {
                let v = if self.version == 0 {
                    self.read_time(false, 16)?
                } else {
                    self.read_time(true, 20)?
                };
                self.modification_time = Some(v);
                Ok(v)
            },
        }
    }

    /// The timescale, read on first use and kept.
    pub fn get_timescale(&mut self) -> (r: Result<u32, CustomError>)
        ensures
            match old(self).timescale {
                Some(v) => r == Ok::<u32, CustomError>(v) && *final(self) == *old(self),
                None => match spec_mdhd_timescale(old(self).data@, old(self).version) {
                    Some(v) => r == Ok::<u32, CustomError>(v) && *final(self) == (MDHDReader {
                        timescale: Some(v),
                        ..*old(self)
                    }),
                    None => r matches Err(e) && e.major == MajorCode::UTIL && *final(self)
                        == *old(self),
                },
            },
    {
        match self.timescale {
            Some(v) => Ok(v),
            None => {
                let v = if self.version == 0 {
                    get_u32(self.data.as_slice(), 20)?
                } else {
                    get_u32(self.data.as_slice(), 28)?
                };
                self.timescale = Some(v);
                Ok(v)
            },
        }
    }

    /// The duration, read on first use and kept.
    pub fn get_duration(&mut self) -> (r: Result<u64, CustomError>)
        ensures
            match old(self).duration {
                Some(v) => r == Ok::<u64, CustomError>(v) && *final(self) == *old(self),
                None => match spec_mdhd_duration(old(self).data@, old(self).version) {
                    Some(v) => r == Ok::<u64, CustomError>(v) && *final(self) == (MDHDReader {
                        duration: Some(v),
                        ..*old(self)
                    }),
                    None => r matches Err(e) && e.major == MajorCode::UTIL && *final(self)
                        == *old(self),
                },
            },
    {
        match self.duration {
            Some(v) => Ok(v),
            None => {
                let v = if self.version == 0 {
                    self.read_time(false, 24)?
                } else {
                    self.read_time(true, 32)?
                };
                self.duration = Some(v);
                Ok(v)
            },
        }
    }

    /// The three-letter language code. The packed value is read unless a
    /// language is already held, in which case 0 is unpacked.
    pub fn get_language(&mut self) -> (r: Result<String, CustomError>)
        ensures
            *final(self) == *old(self),
            old(self).language is Some ==> (r matches Ok(s) && s@ == decode_utf8(
                spec_language_bytes(0),
            )),
            old(self).language is None ==> match spec_mdhd_language(
                old(self).data@,
                old(self).version,
            ) {
                Some(v) => r matches Ok(s) && s@ == decode_utf8(spec_language_bytes(v)),
                None => r matches Err(e) && e.major == MajorCode::UTIL,
            },
    {
        let mut temp: u16 = 0;
        if self.language.is_none() {
            if self.version == 0 {
                temp = get_u16(self.data.as_slice(), 28)?;
            } else {
                temp = get_u16(self.data.as_slice(), 40)?;
            }
        }
        // Three five-bit letters, the first in the high bits.
        assert((temp >> 10u16) & 0x1Fu16 <= 0x1F && (temp >> 5u16) & 0x1Fu16 <= 0x1F && temp
            & 0x1Fu16 <= 0x1F) by (bit_vector);
        let first = (((temp >> 10u16) & 0x1F) + 0x60) as u8;
        let second = (((temp >> 5u16) & 0x1F) + 0x60) as u8;
        let third = ((temp & 0x1F) + 0x60) as u8;
        let language_bytes: [u8; 3] = [first, second, third];
        assert(language_bytes@ =~= spec_language_bytes(temp));
        proof {
            let b = spec_language_bytes(temp);
            assert forall|k: int| 0 <= k < b.len() implies b[k] < 0x80 by {
                assert(((((temp >> 10u16) & 0x1Fu16) + 0x60u16) as u8) < 0x80) by (bit_vector);
                assert(((((temp >> 5u16) & 0x1Fu16) + 0x60u16) as u8) < 0x80) by (bit_vector);
                assert((((temp & 0x1Fu16) + 0x60u16) as u8) < 0x80) by (bit_vector);
            }
            lemma_ascii_valid_utf8(b);
        }
        match utf8_to_string(&language_bytes) {
            Some(s) => Ok(s),
            None => {
                assert(false);
                Ok(String::new())
            },
        }
    }
}

pub struct MDHDBuilder {
    pub timescale: usize,
}

impl MDHDBuilder {
    /// A version 0 box: no flags, creation and modification times 0, the
    /// timescale (its low 32 bits), duration 0, language `und`.
    pub open spec fn spec_build(&self) -> Seq<u8> {
        spec_box(
            seq![0x6Du8, 0x64, 0x68, 0x64],
            seq![0u8, 0, 0, 0, 0, 0, 0, 0, 0, 0, 0, 0] + low32_bytes(self.timescale as u64)
                + seq![0u8, 0, 0, 0, 0x55, 0xC4, 0, 0],
        )
    }

    pub fn create_builder() -> (b: MDHDBuilder)
        ensures
            b.timescale == 0,
    {
        MDHDBuilder { timescale: 0 }
    }

    pub fn timescale(self, timescale: usize) -> (b: MDHDBuilder)
        ensures
            b.timescale == timescale,
    {
        MDHDBuilder { timescale }
    }

    pub fn build(&self) -> (r: Result<Vec<u8>, CustomError>)
        ensures
            r matches Ok(v) && v@ == self.spec_build() && v@.len() == 32,
    {
        let mut payload: Vec<u8> = vec![0x00, 0x00, 0x00, 0x00, 0x00, 0x00, 0x00, 0x00, 0x00, 0x00, 0x00, 0x00];
        push_low32(&mut payload, self.timescale);
        let tail = vec![0x00, 0x00, 0x00, 0x00, 0x55, 0xC4, 0x00, 0x00];
        crate::util::extend_bytes(&mut payload, tail.as_slice());
        assert(payload@ =~= seq![0u8, 0, 0, 0, 0, 0, 0, 0, 0, 0, 0, 0] + low32_bytes(
            self.timescale as u64,
        ) + seq![0u8, 0, 0, 0, 0x55, 0xC4, 0, 0]);
        Ok(make_box([0x6D, 0x64, 0x68, 0x64], payload.as_slice()))
    }
}

/// A version 1 media header box (ISO/IEC 14496-12, 8.4.2): size 44, type
/// `mdhd`, version 1 and no flags, 64-bit creation and modification times,
/// a 32-bit timescale, a 64-bit duration, the packed language and 16
/// pre-defined bits.
pub open spec fn mdhd_v1_bytes(
    creation_time: u64,
    modification_time: u64,
    timescale: u32,
    duration: u64,
    language: u16,
) -> Seq<u8> {
    seq![0u8, 0, 0, 44, 0x6D, 0x64, 0x68, 0x64, 1, 0, 0, 0] + be64_bytes(creation_time)
        + be64_bytes(modification_time) + be32_bytes(timescale) + be64_bytes(duration)
        + be16_bytes(language) + seq![0u8, 0]
}

/// What a version 1 media header box holds, its fields read back: the
/// version, both times, the timescale and the duration.
pub proof fn lemma_mdhd_v1_fields(
    creation_time: u64,
    modification_time: u64,
    timescale: u32,
    duration: u64,
    language: u16,
)
    ensures
        ({
            let s = mdhd_v1_bytes(creation_time, modification_time, timescale, duration, language);
            &&& s.len() == 44
            &&& s[8] == 1
            &&& spec_mdhd_creation_time(s, 1) == Some(creation_time)
            &&& spec_mdhd_modification_time(s, 1) == Some(modification_time)
            &&& spec_mdhd_timescale(s, 1) == Some(timescale)
            &&& spec_mdhd_duration(s, 1) == Some(duration)
        }),
{
    let s = mdhd_v1_bytes(creation_time, modification_time, timescale, duration, language);
    crate::util::lemma_be64_roundtrip(creation_time);
    crate::util::lemma_be64_roundtrip(modification_time);
    crate::util::lemma_be64_roundtrip(duration);
    crate::util::lemma_be32_roundtrip(timescale);
    assert(s.subrange(12, 20) =~= be64_bytes(creation_time));
    assert(s.subrange(20, 28) =~= be64_bytes(modification_time));
    assert(s.subrange(28, 32) =~= be32_bytes(timescale));
    assert(s.subrange(32, 40) =~= be64_bytes(duration));
    assert(read_u64(s, 12) == read_u64(s.subrange(12, 20), 0));
    assert(read_u64(s, 20) == read_u64(s.subrange(20, 28), 0));
    assert(read_u32(s, 28) == read_u32(s.subrange(28, 32), 0));
    assert(read_u64(s, 32) == read_u64(s.subrange(32, 40), 0));
}

/// What a media header builder writes, a reader reads back: version 0,
/// zero times and duration, the builder's timescale (its low 32 bits) and
/// the language `und`.
pub proof fn lemma_mdhd_roundtrip(b: MDHDBuilder, r: MDHDReader)
    requires
        mdhd_reader_of(r, b.spec_build()),
    ensures
        r.size == 32,
        r.version == 0,
        spec_mdhd_creation_time(r.data@, r.version) == Some(0u64),
        spec_mdhd_modification_time(r.data@, r.version) == Some(0u64),
        spec_mdhd_timescale(r.data@, r.version) == Some(b.timescale as u32),
        spec_mdhd_duration(r.data@, r.version) == Some(0u64),
        spec_mdhd_language(r.data@, r.version) == Some(0x55C4u16),
        spec_language_bytes(0x55C4) == seq![0x75u8, 0x6E, 0x64],
{
    let s = b.spec_build();
    let payload = seq![0u8, 0, 0, 0, 0, 0, 0, 0, 0, 0, 0, 0] + low32_bytes(b.timescale as u64)
        + seq![0u8, 0, 0, 0, 0x55, 0xC4, 0, 0];
    crate::container::isobmff::lemma_box_layout(seq![0x6Du8, 0x64, 0x68, 0x64], payload);
    crate::util::lemma_low32_roundtrip(b.timescale as u64);
    assert(s.subrange(20, 24) =~= low32_bytes(b.timescale as u64));
    assert(read_u32(s, 20) == read_u32(s.subrange(20, 24), 0));
    assert(((b.timescale as u64) as u32) == b.timescale as u32);
    assert(s[12] == 0 && s[13] == 0 && s[14] == 0 && s[15] == 0);
    assert(s[16] == 0 && s[17] == 0 && s[18] == 0 && s[19] == 0);
    assert(s[24] == 0 && s[25] == 0 && s[26] == 0 && s[27] == 0);
    assert(s[28] == 0x55 && s[29] == 0xC4);
    assert(crate::util::be_u32(0u8, 0u8, 0u8, 0u8) == 0) by (bit_vector);
    assert(crate::util::be_u16(0x55u8, 0xC4u8) == 0x55C4u16) by (bit_vector);
    assert(spec_language_bytes(0x55C4) =~= seq![0x75u8, 0x6E, 0x64]) by {
        assert((((0x55C4u16 >> 10u16) & 0x1Fu16) + 0x60u16) as u8 == 0x75u8) by (bit_vector);
        assert((((0x55C4u16 >> 5u16) & 0x1Fu16) + 0x60u16) as u8 == 0x6Eu8) by (bit_vector);
        assert(((0x55C4u16 & 0x1Fu16) + 0x60u16) as u8 == 0x64u8) by (bit_vector);
    }
}

} // verus!

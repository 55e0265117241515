use vstd::prelude::*;
use vstd::std_specs::cmp::PartialEqSpecImpl;
use vstd::string::StringExecFns;
use vstd::utf8::decode_utf8;

use crate::container::isobmff::boxes::iso_box::{
    box_type_readable, find_box, lemma_ascii_valid_utf8, lemma_find_box_found, read_box_type,
    spec_find_box,
};
use crate::container::isobmff::spec_box;
use crate::error::error_code::{ISOBMFFMinorCode, MajorCode};
use crate::error::{construct_error, CustomError};
use crate::util::{get_u32, lemma_low32_small, read_u32};

verus! {

// TimeToSampleBox 14496-12; 8.6.1.2

#[derive(Debug, PartialEq, Eq, Structural)]
pub struct STTSBuilder {}

/// An empty time to sample box: version 0, no flags, no entries.
pub open spec fn spec_stts() -> Seq<u8> {
    spec_box(seq![0x73u8, 0x74, 0x74, 0x73], seq![0u8, 0, 0, 0, 0, 0, 0, 0])
}

impl STTSBuilder {
    pub fn create_builder() -> STTSBuilder {
        STTSBuilder {  }
    }

    pub fn build(&self) -> (r: Vec<u8>)
        ensures
            r@ == spec_stts(),
    {
        let r = vec![
            // size
            0x00, 0x00, 0x00, 0x10,
            // stts
            0x73, 0x74, 0x74, 0x73,
            // version and flags
            0x00, 0x00, 0x00, 0x00,
            // entry_count
            0x00, 0x00, 0x00, 0x00,
        ];
        proof {
            lemma_low32_small(16);
        }
        assert(r@ =~= spec_stts());
        r
    }
}

/// One entry of a time to sample box.
#[derive(Debug, PartialEq, Eq, Structural)]
pub struct STTSSample {
    pub sample_count: u32,
    pub sample_delta: u32,
}

/// A reader of a time to sample box that reads each field on first use.
#[derive(Debug)]
pub struct STTSReader {
    pub data: Vec<u8>,
    pub size: u32,
    pub box_type: String,
    pub entry_count: Option<u32>,
    pub samples: Option<Vec<STTSSample>>,
}

impl PartialEq for STTSReader {
    fn eq(&self, other: &Self) -> (r: bool) {
        self.size == other.size && self.entry_count == other.entry_count
    }
}

impl PartialEqSpecImpl for STTSReader {
    open spec fn obeys_eq_spec() -> bool {
        true
    }

    open spec fn eq_spec(&self, other: &Self) -> bool {
        self.size == other.size && self.entry_count == other.entry_count
    }
}

/// The bytes of the time to sample box of the first track of a movie box.
pub open spec fn spec_stts_in_mp4(mp4: Seq<u8>) -> Option<Seq<u8>> {
    match spec_find_box(mp4, seq![0x6Du8, 0x6F, 0x6F, 0x76], 0) {
        None => None,
        Some((a, b)) => spec_stts_in_moov(mp4.subrange(a, b)),
    }
}

/// The bytes of the time to sample box of the first track of the movie
/// box `moov`.
pub open spec fn spec_stts_in_moov(moov: Seq<u8>) -> Option<Seq<u8>> {
    match spec_find_box(moov, seq![0x74u8, 0x72, 0x61, 0x6B], 8) {
        None => None,
        Some((c, d)) => {
            let trak = moov.subrange(c, d);
            match spec_find_box(trak, seq![0x6Du8, 0x64, 0x69, 0x61], 8) {
                None => None,
                Some((e, f)) => {
                    let mdia = trak.subrange(e, f);
                    match spec_find_box(mdia, seq![0x6Du8, 0x69, 0x6E, 0x66], 8) {
                        None => None,
                        Some((g, h)) => {
                            let minf = mdia.subrange(g, h);
                            match spec_find_box(minf, seq![0x73u8, 0x74, 0x62, 0x6C], 8) {
                                None => None,
                                Some((i, j)) => {
                                    let stbl = minf.subrange(i, j);
                                    match spec_find_box(stbl, seq![0x73u8, 0x74, 0x74, 0x73], 8) {
                                        None => None,
                                        Some((k, l)) => Some(stbl.subrange(k, l)),
                                    }
                                },
                            }
                        },
                    }
                },
            }
        },
    }
}

/// A reader holds the bytes it was made from, their size and type, and no
/// field read yet.
pub open spec fn stts_reader_of(r: STTSReader, s: Seq<u8>) -> bool {
    &&& r.data@ == s
    &&& r.size == read_u32(s, 0)
    &&& r.box_type@ == decode_utf8(s.subrange(4, 8))
    &&& r.entry_count is None
    &&& r.samples is None
}

/// The box found at the end of a chain of nested boxes carries the type it
/// was looked up by, so its type is readable.
proof fn lemma_found_type_readable(s: Seq<u8>, fourcc: Seq<u8>, found: Seq<u8>)
    requires
        fourcc.len() == 4,
        forall|k: int| 0 <= k < 4 ==> fourcc[k] < 0x80,
        spec_find_box(s, fourcc, 8) matches Some((a, b)) && found == s.subrange(a, b),
    ensures
        box_type_readable(found),
{
    lemma_find_box_found(s, fourcc, 8);
    let (a, b) = spec_find_box(s, fourcc, 8).unwrap();
    assert(found.subrange(4, 8) =~= fourcc);
    lemma_ascii_valid_utf8(found.subrange(4, 8));
}

impl STTSReader {
    /// Finds the time to sample box of the first track of the movie box
    /// and makes a reader of it.
    pub fn parse(mp4: &[u8]) -> (r: Result<STTSReader, CustomError>)
        ensures
            match spec_stts_in_mp4(mp4@) {
                None => r matches Err(e) && e.major == MajorCode::ISOBMFF && e.minor == 0,
                Some(b) => r matches Ok(m) && stts_reader_of(m, b),
            },
    {
        let found = match find_box(&[0x6D, 0x6F, 0x6F, 0x76], 0, mp4) {
            None => None,
            Some(moov) => match find_box(&[0x74, 0x72, 0x61, 0x6B], 8, moov) {
                None => None,
                Some(trak) => match find_box(&[0x6D, 0x64, 0x69, 0x61], 8, trak) {
                    None => None,
                    Some(mdia) => match find_box(&[0x6D, 0x69, 0x6E, 0x66], 8, mdia) {
                        None => None,
                        Some(minf) => match find_box(&[0x73, 0x74, 0x62, 0x6C], 8, minf) {
                            None => None,
                            Some(stbl) => {
                                let stts = find_box(&[0x73, 0x74, 0x74, 0x73], 8, stbl);
                                proof {
                                    if let Some(b) = stts {
                                        lemma_found_type_readable(
                                            stbl@,
                                            seq![0x73u8, 0x74, 0x74, 0x73],
                                            b@,
                                        );
                                        lemma_find_box_found(
                                            stbl@,
                                            seq![0x73u8, 0x74, 0x74, 0x73],
                                            8,
                                        );
                                    }
                                }
                                stts
                            },
                        },
                    },
                },
            },
        };
        match found {
            Some(stts_data) => STTSReader::get_reader(stts_data),
            None => Err(
                construct_error(
                    MajorCode::ISOBMFF,
                    ISOBMFFMinorCode::UNABLE_TO_FIND_BOX_ERROR,
                    String::from_str("STTS: Unable to find box"),
                ),
            ),
        }
    }

    /// A reader of the bytes of a time to sample box.
    pub fn get_reader(stts_data: &[u8]) -> (r: Result<STTSReader, CustomError>)
        requires
            box_type_readable(stts_data@),
        ensures
            r is Ok <==> stts_data@.len() >= 8,
            r matches Ok(m) ==> stts_reader_of(m, stts_data@),
            r matches Err(e) ==> e.major == MajorCode::UTIL && e.minor == 0,
    {
        let size = get_u32(stts_data, 0)?;
        let box_type = read_box_type(stts_data);
        Ok(
            STTSReader {
                data: vstd::slice::slice_to_vec(stts_data),
                size,
                box_type,
                entry_count: None,
                samples: None,
            },
        )
    }

    /// The number of entries, read on first use and kept.
    pub fn get_entry_count(&mut self) -> (r: Result<u32, CustomError>)
        ensures
            match old(self).entry_count {
                Some(v) => r == Ok::<u32, CustomError>(v) && *final(self) == *old(self),
                None => if 16 <= old(self).data@.len() {
                    r == Ok::<u32, CustomError>(read_u32(old(self).data@, 12)) && *final(self)
                        == (STTSReader { entry_count: Some(read_u32(old(self).data@, 12)), ..*old(self) })
                } else {
                    r matches Err(e) && e.major == MajorCode::UTIL && *final(self) == *old(self)
                },
            },
    {
        match self.entry_count {
            Some(v) => Ok(v),
            None => {
                let v = get_u32(self.data.as_slice(), 12)?;
                self.entry_count = Some(v);
                Ok(v)
            },
        }
    }
}

} // verus!

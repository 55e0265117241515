use vstd::prelude::*;
use vstd::utf8::decode_utf8;

use crate::codec::h264::sequence_parameter_set::{spec_parse_sps, SequenceParameterSet, SpsParse};
use crate::container::isobmff::boxes::iso_box::lemma_ascii_valid_utf8;
use crate::error::CustomError;
use crate::util::{extend_bytes, read_u16, read_u32, u16_at, u32_at, utf8_to_string};

verus! {

// VisualSampleEntry 14496-12; 12.1.3

#[derive(Debug)]
pub struct VisualSampleEntry {
    pub width: u16,
    pub height: u16,
    pub horiz_resolution: u32,
    pub vert_resolution: u32,
    pub frame_count: u16,
    pub compressor_name: String,
    pub depth: u16,
    pub clean_aperture_box: Option<u32>,
    pub pixel_aspect_ratio_box: Option<u32>,
}

/// The bytes of the compressor name: as many as the count byte at 50 says.
pub open spec fn visual_compressor_name(s: Seq<u8>) -> Seq<u8> {
    s.subrange(51, 51 + s[50])
}

/// The visual fields can be read, and the compressor name is ASCII.
pub open spec fn visual_parsable(s: Seq<u8>) -> bool {
    &&& s.len() >= 84
    &&& 51 + s[50] <= s.len()
    &&& forall|k: int| 51 <= k < 51 + s[50] ==> s[k] < 0x80
}

/// The visual fields of a sample entry box.
pub open spec fn visual_matches(e: VisualSampleEntry, s: Seq<u8>) -> bool {
    &&& e.width == read_u16(s, 32)
    &&& e.height == read_u16(s, 34)
    &&& e.horiz_resolution == read_u32(s, 36)
    &&& e.vert_resolution == read_u32(s, 40)
    &&& e.frame_count == read_u16(s, 48)
    &&& e.compressor_name@ == decode_utf8(visual_compressor_name(s))
    &&& e.depth == read_u16(s, 82)
    &&& e.clean_aperture_box is None
    &&& e.pixel_aspect_ratio_box is None
}

impl VisualSampleEntry {
    /// Reads the visual fields of a sample entry box, and gives where the
    /// boxes after them start.
    pub fn parse(data: &[u8]) -> (r: (VisualSampleEntry, usize))
        requires
            visual_parsable(data@),
        ensures
            visual_matches(r.0, data@),
            r.1 == 86,
    {
        let offset = 32usize;
        let mut start = offset;
        let width = u16_at(data, start);
        start = start + 2;
        let height = u16_at(data, start);
        start = start + 2;
        let horiz_resolution = u32_at(data, start);
        start = start + 4;
        let vert_resolution = u32_at(data, start);
        // The reserved word is skipped.
        start = start + 8;
        let frame_count = u16_at(data, start);
        start = start + 2;
        let compressor_name_size = data[start];
        start = start + 1;
        let name_bytes = vstd::slice::slice_subrange(
            data,
            start,
            start + compressor_name_size as usize,
        );
        proof {
            assert forall|k: int| 0 <= k < name_bytes@.len() implies name_bytes@[k] < 0x80 by {
                assert(name_bytes@[k] == data@[51 + k]);
            }
            lemma_ascii_valid_utf8(name_bytes@);
        }
        let compressor_name = utf8_to_string(name_bytes).unwrap();
        // The compressor name field takes 32 bytes with its count.
        start = start + 31;
        let depth = u16_at(data, start);
        // The depth and the pre-defined word.
        start = start + 2;
        start = start + 2;
        (
            VisualSampleEntry {
                width,
                height,
                horiz_resolution,
                vert_resolution,
                frame_count,
                compressor_name,
                depth,
                clean_aperture_box: None,
                pixel_aspect_ratio_box: None,
            },
            start,
        )
    }
}

#[derive(Debug)]
pub struct VisualSampleEntryBuilder {
    pub sps_data: Vec<u8>,
}

/// The low 16 bits of a dimension, most significant first.
pub open spec fn dimension_bytes(v: int) -> Seq<u8> {
    seq![((v as u64) >> 8u64) as u8, (v as u64) as u8]
}

/// The compressor name field: its length 17, "Toofer AVC Coding", and
/// zeros up to 32 bytes.
pub open spec fn spec_compressor_name() -> Seq<u8> {
    seq![
        0x11u8, 0x54, 0x6f, 0x6f, 0x66, 0x65, 0x72, 0x20, 0x41, 0x56, 0x43, 0x20, 0x43, 0x6f,
        0x64, 0x69, 0x6e, 0x67, 0x00, 0x00, 0x00, 0x00, 0x00, 0x00, 0x00, 0x00, 0x00, 0x00,
        0x00, 0x00, 0x00, 0x00,
    ]
}

/// The resolution fields (72 dpi each), the reserved word and frame count 1.
pub open spec fn spec_visual_resolution() -> Seq<u8> {
    seq![
        0x00u8, 0x48, 0x00, 0x00, 0x00, 0x48, 0x00, 0x00, 0x00, 0x00, 0x00, 0x00, 0x00, 0x01,
    ]
}

impl VisualSampleEntryBuilder {
    /// The visual fields: 16 reserved bytes, the width and height of the
    /// sequence parameter set, the resolutions and frame count, the
    /// compressor name, depth 0 and pre-defined -1; `None` when the
    /// sequence parameter set does not parse.
    pub open spec fn spec_build(&self) -> Option<Seq<u8>> {
        match spec_parse_sps(self.sps_data@) {
            SpsParse::Parsed(sps) => Some(
                Seq::new(16, |i: int| 0u8) + dimension_bytes(sps.spec_width()) + dimension_bytes(
                    sps.spec_height(),
                ) + spec_visual_resolution() + spec_compressor_name() + seq![
                    0x00u8,
                    0x00,
                    0xFF,
                    0xFF,
                ],
            ),
            _ => None,
        }
    }

    /// The sequence parameter set is one the parser handles, and its
    /// dimensions compute within `usize`.
    pub open spec fn buildable(&self) -> bool {
        match spec_parse_sps(self.sps_data@) {
            SpsParse::Unsupported => false,
            SpsParse::Parsed(sps) => sps.width_in_range() && sps.height_in_range(),
            SpsParse::Malformed => true,
        }
    }

    pub fn create_builder() -> (b: VisualSampleEntryBuilder)
        ensures
            b.sps_data@.len() == 0,
    {
        VisualSampleEntryBuilder { sps_data: Vec::new() }
    }

    pub fn sps(self, sps_data: &[u8]) -> (b: VisualSampleEntryBuilder)
        ensures
            b.sps_data@ == sps_data@,
    {
        VisualSampleEntryBuilder { sps_data: vstd::slice::slice_to_vec(sps_data) }
    }

    pub fn build(&self) -> (r: Result<Vec<u8>, CustomError>)
        requires
            self.buildable(),
        ensures
            match self.spec_build() {
                Some(b) => r matches Ok(v) && v@ == b && b.len() == 70,
                None => r is Err,
            },
    {
        let sps = SequenceParameterSet::parse(self.sps_data.as_slice())?;
        let width = sps.width() as u64;
        let height = sps.height() as u64;
        let mut r = vec![0x00u8; 16];
        assert(r@ =~= Seq::new(16, |i: int| 0u8));
        r.push((width >> 8u64) as u8);
        r.push(width as u8);
        r.push((height >> 8u64) as u8);
        r.push(height as u8);
        let resolution = vec![
            // horizresolution
            0x00, 0x48, 0x00, 0x00,
            // vertresolution
            0x00, 0x48, 0x00, 0x00,
            // reserved
            0x00, 0x00, 0x00, 0x00,
            // frame_count
            0x00, 0x01,
        ];
        assert(resolution@ =~= spec_visual_resolution());
        extend_bytes(&mut r, resolution.as_slice());
        let compressor_name = vec![
            0x11, 0x54, 0x6f, 0x6f, 0x66, 0x65, 0x72, 0x20, 0x41, 0x56, 0x43, 0x20, 0x43, 0x6f,
            0x64, 0x69, 0x6e, 0x67, 0x00, 0x00, 0x00, 0x00, 0x00, 0x00, 0x00, 0x00, 0x00, 0x00,
            0x00, 0x00, 0x00, 0x00,
        ];
        assert(compressor_name@ =~= spec_compressor_name());
        extend_bytes(&mut r, compressor_name.as_slice());
        // depth
        r.push(0x00);
        r.push(0x00);
        // pre_defined
        r.push(0xFF);
        r.push(0xFF);
        assert(r@ =~= Seq::new(16, |i: int| 0u8) + dimension_bytes(sps.spec_width())
            + dimension_bytes(sps.spec_height()) + spec_visual_resolution() + spec_compressor_name()
            + seq![0x00u8, 0x00, 0xFF, 0xFF]);
        Ok(r)
    }
}

} // verus!

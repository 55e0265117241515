use vstd::prelude::*;

use crate::error::CustomError;
use crate::util::bit_reader::{lemma_two_pow_64, bits_value, spec_read_bits, spec_read_ue, BitReader};

verus! {

/// The fields of an H.264 sequence parameter set (ITU-T H.264, 7.3.2.1.1)
/// that the remuxer reads.
#[derive(Debug, PartialEq, Eq, Structural)]
pub struct SequenceParameterSet {
    pub profile_idc: u8,
    pub constraint_set0_flag: u8,
    pub constraint_set1_flag: u8,
    pub constraint_set2_flag: u8,
    pub constraint_set3_flag: u8,
    pub constraint_set4_flag: u8,
    pub constraint_set5_flag: u8,
    pub level_idc: u8,
    pub seq_parameter_set_id: usize,
    pub log2_max_frame_num_minus4: usize,
    pub max_num_ref_frames: usize,
    pub gaps_in_frame_num_value_allowed_flag: u8,
    pub direct_8x8_inference_flag: u8,
    pub pic_width_in_mbs_minus1: usize,
    pub pic_height_in_map_units_minus1: usize,
    pub frame_mbs_only_flag: usize,
    pub frame_crop_left_offset: usize,
    pub frame_crop_right_offset: usize,
    pub frame_crop_top_offset: usize,
    pub frame_crop_bottom_offset: usize,
}

/// What parsing a sequence parameter set gives: the fields, a stream that ends
/// too early, or a stream that uses a part of the syntax the parser does not
/// handle yet (profiles with chroma data, picture order count types 0 and 1,
/// field coding).
pub enum SpsParse {
    Parsed(SequenceParameterSet),
    Malformed,
    Unsupported,
}

/// The profiles whose sequence parameter set carries chroma format data.
pub open spec fn has_chroma_info(profile_idc: u8) -> bool {
    profile_idc == 100 || profile_idc == 110 || profile_idc == 122 || profile_idc == 244
        || profile_idc == 44 || profile_idc == 83 || profile_idc == 86 || profile_idc == 118
        || profile_idc == 128 || profile_idc == 138 || profile_idc == 139 || profile_idc == 134
        || profile_idc == 135
}

/// The frame cropping part, from the `frame_cropping_flag` at `pos`: the left,
/// right, top and bottom offsets and the position after them.
pub open spec fn spec_sps_cropping(s: Seq<u8>, pos: int) -> Option<(nat, nat, nat, nat, int)> {
    match spec_read_bits(s, pos, 1) {
        None => None,
        Some((flag, p0)) => if flag == 1 {
            match spec_read_ue(s, p0) {
                None => None,
                Some((l, p1)) => match spec_read_ue(s, p1) {
                    None => None,
                    Some((r, p2)) => match spec_read_ue(s, p2) {
                        None => None,
                        Some((t, p3)) => match spec_read_ue(s, p3) {
                            None => None,
                            Some((b, p4)) => Some((l, r, t, b, p4)),
                        },
                    },
                },
            }
        } else {
            Some((0, 0, 0, 0, p0))
        },
    }
}

/// The part from `pic_width_in_mbs_minus1` at `pos` to the end; the other
/// fields come in `sps`.
#[verifier::opaque]
pub open spec fn spec_sps_frame(s: Seq<u8>, pos: int, sps: SequenceParameterSet) -> SpsParse {
    match spec_read_ue(s, pos) {
        None => SpsParse::Malformed,
        Some((w, p0)) => match spec_read_ue(s, p0) {
            None => SpsParse::Malformed,
            Some((h, p1)) => match spec_read_bits(s, p1, 1) {
                None => SpsParse::Malformed,
                Some((mbs, p2)) => if mbs == 0 {
                    SpsParse::Unsupported
                } else {
                    spec_sps_crop_part(
                        s,
                        p2,
                        SequenceParameterSet {
                            pic_width_in_mbs_minus1: w as usize,
                            pic_height_in_map_units_minus1: h as usize,
                            frame_mbs_only_flag: mbs as usize,
                            ..sps
                        },
                    )
                },
            },
        },
    }
}

/// The part from `direct_8x8_inference_flag` at `pos` to the end.
#[verifier::opaque]
pub open spec fn spec_sps_crop_part(s: Seq<u8>, pos: int, sps: SequenceParameterSet) -> SpsParse {
    match spec_read_bits(s, pos, 1) {
        None => SpsParse::Malformed,
        Some((direct, p3)) => match spec_sps_cropping(s, p3) {
            None => SpsParse::Malformed,
            Some((l, r, t, b, _p)) => SpsParse::Parsed(
                SequenceParameterSet {
                    direct_8x8_inference_flag: direct as u8,
                    frame_crop_left_offset: l as usize,
                    frame_crop_right_offset: r as usize,
                    frame_crop_top_offset: t as usize,
                    frame_crop_bottom_offset: b as usize,
                    ..sps
                },
            ),
        },
    }
}

/// The part from `log2_max_frame_num_minus4` at `pos` on.
pub open spec fn spec_sps_order(s: Seq<u8>, pos: int, sps: SequenceParameterSet) -> SpsParse {
    match spec_read_ue(s, pos) {
        None => SpsParse::Malformed,
        Some((log2, p0)) => match spec_read_ue(s, p0) {
            None => SpsParse::Malformed,
            Some((poc, p1)) => if poc == 0 || poc == 1 {
                SpsParse::Unsupported
            } else {
                spec_sps_refs(
                    s,
                    p1,
                    SequenceParameterSet { log2_max_frame_num_minus4: log2 as usize, ..sps },
                )
            },
        },
    }
}

/// The part from `max_num_ref_frames` at `pos` on.
pub open spec fn spec_sps_refs(s: Seq<u8>, pos: int, sps: SequenceParameterSet) -> SpsParse {
    match spec_read_ue(s, pos) {
        None => SpsParse::Malformed,
        Some((refs, p2)) => match spec_read_bits(s, p2, 1) {
            None => SpsParse::Malformed,
            Some((gaps, p3)) => spec_sps_frame(
                s,
                p3,
                SequenceParameterSet {
                    max_num_ref_frames: refs as usize,
                    gaps_in_frame_num_value_allowed_flag: gaps as u8,
                    ..sps
                },
            ),
        },
    }
}

/// Parsing a sequence parameter set NAL unit: the one-byte NAL header, the
/// profile, the six constraint flags, two reserved bits, the level and the
/// Exp-Golomb coded fields after them.
#[verifier::opaque]
pub open spec fn spec_parse_sps(s: Seq<u8>) -> SpsParse {
    if s.len() < 4 {
        SpsParse::Malformed
    } else {
        match spec_read_ue(s, 32) {
            None => SpsParse::Malformed,
            Some((id, p0)) => if has_chroma_info(bits_value(s, 8, 8) as u8) {
                SpsParse::Unsupported
            } else {
                spec_sps_order(
                    s,
                    p0,
                    SequenceParameterSet { seq_parameter_set_id: id as usize, ..spec_sps_fixed(s) },
                )
            },
        }
    }
}

fn parse_cropping(reader: &mut BitReader) -> (r: Result<(usize, usize, usize, usize), CustomError>)
    requires
        old(reader).wf(),
    ensures
        final(reader).wf(),
        final(reader).bytes() == old(reader).bytes(),
        match spec_sps_cropping(old(reader).bytes(), old(reader).position()) {
            Some((l, rt, t, b, p)) => r == Ok::<(usize, usize, usize, usize), CustomError>(
                (l as usize, rt as usize, t as usize, b as usize),
            ) && final(reader).position() == p,
            None => r is Err,
        },
{
    let frame_cropping_flag = reader.read_bits(1)?;
    if frame_cropping_flag == 1 {
        let left = reader.unsigned_exp_golomb()?;
        let right = reader.unsigned_exp_golomb()?;
        let top = reader.unsigned_exp_golomb()?;
        let bottom = reader.unsigned_exp_golomb()?;
        Ok((left, right, top, bottom))
    } else {
        Ok((0, 0, 0, 0))
    }
}

fn parse_frame(reader: &mut BitReader, sps: SequenceParameterSet) -> (r: Result<
    SequenceParameterSet,
    CustomError,
>)
    requires
        old(reader).wf(),
        !(spec_sps_frame(old(reader).bytes(), old(reader).position(), sps) is Unsupported),
    ensures
        match spec_sps_frame(old(reader).bytes(), old(reader).position(), sps) {
            SpsParse::Parsed(x) => r == Ok::<SequenceParameterSet, CustomError>(x),
            _ => r is Err,
        },
{
    reveal(spec_sps_frame);
    proof {
        lemma_two_pow_64();
    }
    let pic_width_in_mbs_minus1 = reader.unsigned_exp_golomb()?;
    let pic_height_in_map_units_minus1 = reader.unsigned_exp_golomb()?;
    let frame_mbs_only_flag = reader.read_bits(1)? as usize;
    parse_crop_part(
        reader,
        SequenceParameterSet {
            pic_width_in_mbs_minus1,
            pic_height_in_map_units_minus1,
            frame_mbs_only_flag,
            ..sps
        },
    )
}

fn parse_crop_part(reader: &mut BitReader, sps: SequenceParameterSet) -> (r: Result<
    SequenceParameterSet,
    CustomError,
>)
    requires
        old(reader).wf(),
    ensures
        match spec_sps_crop_part(old(reader).bytes(), old(reader).position(), sps) {
            SpsParse::Parsed(x) => r == Ok::<SequenceParameterSet, CustomError>(x),
            _ => r is Err,
        },
{
    reveal(spec_sps_crop_part);
    proof {
        lemma_two_pow_64();
    }
    let direct_8x8_inference_flag = reader.read_bits(1)? as u8;
    let (left, right, top, bottom) = parse_cropping(reader)?;
    Ok(
        SequenceParameterSet {
            direct_8x8_inference_flag,
            frame_crop_left_offset: left,
            frame_crop_right_offset: right,
            frame_crop_top_offset: top,
            frame_crop_bottom_offset: bottom,
            ..sps
        },
    )
}

fn parse_order(reader: &mut BitReader, sps: SequenceParameterSet) -> (r: Result<
    SequenceParameterSet,
    CustomError,
>)
    requires
        old(reader).wf(),
        !(spec_sps_order(old(reader).bytes(), old(reader).position(), sps) is Unsupported),
    ensures
        match spec_sps_order(old(reader).bytes(), old(reader).position(), sps) {
            SpsParse::Parsed(x) => r == Ok::<SequenceParameterSet, CustomError>(x),
            _ => r is Err,
        },
{
    let log2_max_frame_num_minus4 = reader.unsigned_exp_golomb()?;
    let _pic_order_cnt_type = reader.unsigned_exp_golomb()?;
    parse_refs(reader, SequenceParameterSet { log2_max_frame_num_minus4, ..sps })
}

fn parse_refs(reader: &mut BitReader, sps: SequenceParameterSet) -> (r: Result<
    SequenceParameterSet,
    CustomError,
>)
    requires
        old(reader).wf(),
        !(spec_sps_refs(old(reader).bytes(), old(reader).position(), sps) is Unsupported),
    ensures
        match spec_sps_refs(old(reader).bytes(), old(reader).position(), sps) {
            SpsParse::Parsed(x) => r == Ok::<SequenceParameterSet, CustomError>(x),
            _ => r is Err,
        },
{
    proof {
        lemma_two_pow_64();
    }
    let max_num_ref_frames = reader.unsigned_exp_golomb()?;
    let gaps_in_frame_num_value_allowed_flag = reader.read_bits(1)? as u8;
    parse_frame(
        reader,
        SequenceParameterSet { max_num_ref_frames, gaps_in_frame_num_value_allowed_flag, ..sps },
    )
}

/// The fields in the first four bytes, with the Exp-Golomb coded fields left zero.
pub open spec fn spec_sps_fixed(s: Seq<u8>) -> SequenceParameterSet {
    SequenceParameterSet {
        profile_idc: bits_value(s, 8, 8) as u8,
        constraint_set0_flag: bits_value(s, 16, 1) as u8,
        constraint_set1_flag: bits_value(s, 17, 1) as u8,
        constraint_set2_flag: bits_value(s, 18, 1) as u8,
        constraint_set3_flag: bits_value(s, 19, 1) as u8,
        constraint_set4_flag: bits_value(s, 20, 1) as u8,
        constraint_set5_flag: bits_value(s, 21, 1) as u8,
        level_idc: bits_value(s, 24, 8) as u8,
        seq_parameter_set_id: 0,
        log2_max_frame_num_minus4: 0,
        max_num_ref_frames: 0,
        gaps_in_frame_num_value_allowed_flag: 0,
        direct_8x8_inference_flag: 0,
        pic_width_in_mbs_minus1: 0,
        pic_height_in_map_units_minus1: 0,
        frame_mbs_only_flag: 0,
        frame_crop_left_offset: 0,
        frame_crop_right_offset: 0,
        frame_crop_top_offset: 0,
        frame_crop_bottom_offset: 0,
    }
}

fn parse_fixed(reader: &mut BitReader) -> (r: Result<SequenceParameterSet, CustomError>)
    requires
        old(reader).wf(),
        old(reader).position() == 0,
    ensures
        final(reader).wf(),
        final(reader).bytes() == old(reader).bytes(),
        old(reader).bytes().len() >= 4 ==> r == Ok::<SequenceParameterSet, CustomError>(
            spec_sps_fixed(old(reader).bytes()),
        ) && final(reader).position() == 32,
        old(reader).bytes().len() < 4 ==> r is Err,
{
    proof {
        lemma_two_pow_64();
    }
    reader.read_bits(8)?;
    let profile_idc = reader.read_bits(8)? as u8;
    let constraint_set0_flag = reader.read_bits(1)? as u8;
    let constraint_set1_flag = reader.read_bits(1)? as u8;
    let constraint_set2_flag = reader.read_bits(1)? as u8;
    let constraint_set3_flag = reader.read_bits(1)? as u8;
    let constraint_set4_flag = reader.read_bits(1)? as u8;
    let constraint_set5_flag = reader.read_bits(1)? as u8;
    reader.read_bits(2)?;
    let level_idc = reader.read_bits(8)? as u8;
    Ok(
        SequenceParameterSet {
            profile_idc,
            constraint_set0_flag,
            constraint_set1_flag,
            constraint_set2_flag,
            constraint_set3_flag,
            constraint_set4_flag,
            constraint_set5_flag,
            level_idc,
            seq_parameter_set_id: 0,
            log2_max_frame_num_minus4: 0,
            max_num_ref_frames: 0,
            gaps_in_frame_num_value_allowed_flag: 0,
            direct_8x8_inference_flag: 0,
            pic_width_in_mbs_minus1: 0,
            pic_height_in_map_units_minus1: 0,
            frame_mbs_only_flag: 0,
            frame_crop_left_offset: 0,
            frame_crop_right_offset: 0,
            frame_crop_top_offset: 0,
            frame_crop_bottom_offset: 0,
        },
    )
}

impl SequenceParameterSet {
    /// Parses a sequence parameter set NAL unit, NAL header included.
    pub fn parse(data: &[u8]) -> (r: Result<SequenceParameterSet, CustomError>)
        requires
            !(spec_parse_sps(data@) is Unsupported),
        ensures
            match spec_parse_sps(data@) {
                SpsParse::Parsed(sps) => r == Ok::<SequenceParameterSet, CustomError>(sps),
                _ => r is Err,
            },
    {
        reveal(spec_parse_sps);
        let mut bit_reader = BitReader::create_bit_reader(data);
        let fixed = parse_fixed(&mut bit_reader)?;
        let seq_parameter_set_id = bit_reader.unsigned_exp_golomb()?;
        parse_order(&mut bit_reader, SequenceParameterSet { seq_parameter_set_id, ..fixed })
    }

    /// The picture width in luma samples, from the macroblock count and the
    /// horizontal cropping: `(pic_width_in_mbs_minus1 + 1) * 16 - 2 * (left + right)`.
    pub open spec fn spec_width(&self) -> int {
        (self.pic_width_in_mbs_minus1 + 1) * 16 - self.frame_crop_left_offset * 2
            - self.frame_crop_right_offset * 2
    }

    /// The width computes without overflow in `usize`.
    pub open spec fn width_in_range(&self) -> bool {
        &&& (self.pic_width_in_mbs_minus1 + 1) * 16 <= usize::MAX
        &&& self.frame_crop_left_offset * 2 <= usize::MAX
        &&& self.frame_crop_right_offset * 2 <= usize::MAX
        &&& (self.pic_width_in_mbs_minus1 + 1) * 16 - self.frame_crop_left_offset * 2 >= 0
        &&& self.spec_width() >= 0
    }

    /// The picture height in luma samples:
    /// `(2 - frame_mbs_only_flag) * (pic_height_in_map_units_minus1 + 1) * 16 - 2 * (top + bottom)`.
    pub open spec fn spec_height(&self) -> int {
        (2 - self.frame_mbs_only_flag) * (self.pic_height_in_map_units_minus1 + 1) * 16
            - self.frame_crop_top_offset * 2 - self.frame_crop_bottom_offset * 2
    }

    /// The height computes without overflow in `usize`.
    pub open spec fn height_in_range(&self) -> bool {
        &&& self.frame_mbs_only_flag <= 2
        &&& self.pic_height_in_map_units_minus1 + 1 <= usize::MAX
        &&& (2 - self.frame_mbs_only_flag) * (self.pic_height_in_map_units_minus1 + 1) <= usize::MAX
        &&& (2 - self.frame_mbs_only_flag) * (self.pic_height_in_map_units_minus1 + 1) * 16
            <= usize::MAX
        &&& self.frame_crop_top_offset * 2 <= usize::MAX
        &&& self.frame_crop_bottom_offset * 2 <= usize::MAX
        &&& (2 - self.frame_mbs_only_flag) * (self.pic_height_in_map_units_minus1 + 1) * 16
            - self.frame_crop_top_offset * 2 >= 0
        &&& self.spec_height() >= 0
    }

    pub fn width(&self) -> (w: usize)
        requires
            self.width_in_range(),
        ensures
            w == self.spec_width(),
    {
        ((self.pic_width_in_mbs_minus1 + 1) * 16) - self.frame_crop_left_offset * 2
            - self.frame_crop_right_offset * 2
    }

    pub fn height(&self) -> (h: usize)
        requires
            self.height_in_range(),
        ensures
            h == self.spec_height(),
    {
        ((2 - self.frame_mbs_only_flag) * (self.pic_height_in_map_units_minus1 + 1) * 16) - (
        self.frame_crop_top_offset * 2) - (self.frame_crop_bottom_offset * 2)
    }

    /// The byte of constraint flags as the avcC record carries it: the six
    /// flags in the six high bits, each flag's low bit taken.
    pub open spec fn spec_profile_compatability(&self) -> u8 {
        (self.constraint_set0_flag << 7u8) | (self.constraint_set1_flag << 6u8) | (
        self.constraint_set2_flag << 5u8) | (self.constraint_set3_flag << 4u8) | (
        self.constraint_set4_flag << 3u8) | (self.constraint_set5_flag << 2u8)
    }

    pub fn profile_compatability(&self) -> (c: u8)
        ensures
            c == self.spec_profile_compatability(),
    {
        (self.constraint_set0_flag << 7u8) | (self.constraint_set1_flag << 6u8) | (
        self.constraint_set2_flag << 5u8) | (self.constraint_set3_flag << 4u8) | (
        self.constraint_set4_flag << 3u8) | (self.constraint_set5_flag << 2u8)
    }
}

} // verus!

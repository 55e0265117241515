use vstd::prelude::*;
use vstd::string::StringExecFns;

use crate::error::error_code::{MajorCode, TransportStreamMinorCode};
use crate::error::{construct_error, CustomError};
use crate::util::{get_u16, get_u32, get_u64, get_u8, read_u32, read_u64};

verus! {

/// The packet start code prefix of a PES packet (ISO/IEC 13818-1, 2.4.3.7).
pub const PACKET_START_CODE_PREFIX: u32 = 0x000001;

pub struct PESPacket<'a> {
    pub packet_start_code_prefix: u32,
    pub stream_id: u8,
    pub pes_packet_length: u16,
    pub payload_data: &'a [u8],
    pub dts: Option<u64>,
    pub pts: Option<u64>,
}

/// The 90 kHz timestamp held in the 40 bits of a PTS or DTS field: three,
/// fifteen and fifteen bits, each followed by a marker bit.
pub open spec fn spec_timestamp(section: u64) -> u64 {
    (((section >> 33u64) & 0x7u64) << 30u64) | (((section >> 17u64) & 0x7fffu64) << 15u64) | ((
    section >> 1u64) & 0x7fffu64)
}

/// The stream id names an audio stream (`110x xxxx`) or a video stream
/// (`1110 xxxx`).
pub open spec fn pes_is_av(stream_id: u8) -> bool {
    (stream_id >> 4u8) == 0xEu8 || (stream_id >> 5u8) == 6u8
}

/// The bytes are long enough for a full PES header and start with the
/// packet start code prefix.
pub open spec fn pes_has_prefix(s: Seq<u8>) -> bool {
    s.len() >= 19 && (read_u32(s, 0) & 0xFFFFFF00u32) >> 8u32 == PACKET_START_CODE_PREFIX
}

/// The stream id of a PES packet.
pub open spec fn pes_stream_id(s: Seq<u8>) -> u8 {
    (read_u32(s, 0) & 0xFFu32) as u8
}

/// The PTS is present.
pub open spec fn pes_pts_present(s: Seq<u8>) -> bool {
    s[7] & 0xC0u8 != 0
}

/// The DTS is present.
pub open spec fn pes_dts_present(s: Seq<u8>) -> bool {
    s[7] & 0x40u8 != 0
}

/// Where the DTS field starts: after the PTS when there is one.
pub open spec fn pes_dts_offset(s: Seq<u8>) -> int {
    if pes_pts_present(s) {
        14
    } else {
        9
    }
}

/// The presentation time: read when present, 0 otherwise.
pub open spec fn pes_pts(s: Seq<u8>) -> u64 {
    if pes_pts_present(s) {
        spec_timestamp(read_u64(s, 9) >> 24u64)
    } else {
        0
    }
}

/// The decode time: read when present, the presentation time otherwise.
pub open spec fn pes_dts(s: Seq<u8>) -> u64 {
    if pes_dts_present(s) {
        spec_timestamp(read_u64(s, pes_dts_offset(s)) >> 24u64)
    } else {
        pes_pts(s)
    }
}

/// The header of an audio or video PES packet can be read, up to and with
/// its timestamps.
pub open spec fn pes_header_readable(s: Seq<u8>) -> bool {
    pes_dts_present(s) ==> pes_dts_offset(s) + 8 <= s.len()
}

/// Where the payload of an audio or video PES packet starts.
pub open spec fn pes_payload_start(s: Seq<u8>) -> int {
    s[8] + 9
}

/// The inputs on which parsing cannot go through: an audio or video packet
/// whose header data length runs past the end of the bytes or past 255.
pub open spec fn pes_malformed(s: Seq<u8>) -> bool {
    &&& pes_has_prefix(s)
    &&& pes_is_av(pes_stream_id(s))
    &&& pes_header_readable(s)
    &&& (s[8] > 246 || pes_payload_start(s) > s.len())
}

/// A timestamp read from a PTS or DTS field takes at most 33 bits.
pub proof fn lemma_timestamp_bits(section: u64)
    ensures
        spec_timestamp(section) < 0x2_0000_0000u64,
{
    assert((((section >> 33u64) & 0x7u64) << 30u64) | (((section >> 17u64) & 0x7fffu64) << 15u64)
        | ((section >> 1u64) & 0x7fffu64) < 0x2_0000_0000u64) by (bit_vector);
}

/// The 40-bit PTS or DTS field that carries a 33-bit time `t` (ISO/IEC
/// 13818-1, 2.4.3.7): a four-bit prefix, bits 32..30 of `t`, a marker bit,
/// bits 29..15, a marker bit, bits 14..0 and a marker bit.
pub open spec fn timestamp_field(prefix: u64, t: u64) -> u64 {
    ((prefix & 0xFu64) << 36u64) | (((t >> 30u64) & 0x7u64) << 33u64) | (1u64 << 32u64) | (((t
        >> 15u64) & 0x7FFFu64) << 17u64) | (1u64 << 16u64) | ((t & 0x7FFFu64) << 1u64) | 1u64
}

/// Reading a PTS or DTS field gives back the 33-bit time written into it,
/// whatever its prefix: the marker bits are dropped and the three parts of
/// the time put back together.
pub proof fn lemma_timestamp_roundtrip(prefix: u64, t: u64)
    requires
        t < 0x2_0000_0000u64,
    ensures
        spec_timestamp(timestamp_field(prefix, t)) == t,
{
    assert(spec_timestamp(timestamp_field(prefix, t)) == t) by (bit_vector)
        requires
            t < 0x2_0000_0000u64,
    ;
}

proof fn lemma_dts_flag_implies_pts_flag(f: u8)
    ensures
        f & 0x40u8 != 0 ==> f & 0xC0u8 != 0,
{
    assert(f & 0x40u8 != 0 ==> f & 0xC0u8 != 0) by (bit_vector);
}

impl<'a> PESPacket<'a> {
    /// Parses a PES packet. Bytes too short for a PES header, or without the
    /// start code prefix, give a packet that carries them all as payload and
    /// has no timestamps; an audio or video packet gives its timestamps and
    /// the payload after its header; any other stream is an error.
    pub fn parse(payload: &'a [u8]) -> (r: Result<PESPacket<'a>, CustomError>)
        requires
            !pes_malformed(payload@),
        ensures
            !pes_has_prefix(payload@) ==> (r matches Ok(p) && p.packet_start_code_prefix == 0
                && p.stream_id == 0 && p.pes_packet_length == 0 && p.payload_data@ == payload@
                && p.dts is None && p.pts is None),
            pes_has_prefix(payload@) && !pes_is_av(pes_stream_id(payload@)) ==> (r matches Err(e)
                && e.major == MajorCode::TRANSPORT_STREAM && e.minor == 0),
            pes_has_prefix(payload@) && pes_is_av(pes_stream_id(payload@)) ==> {
                &&& r is Ok <==> pes_header_readable(payload@)
                &&& r matches Err(e) ==> e.major == MajorCode::UTIL && e.minor == 0
                &&& r matches Ok(p) ==> {
                    &&& p.packet_start_code_prefix == PACKET_START_CODE_PREFIX
                    &&& p.stream_id == pes_stream_id(payload@)
                    &&& p.pes_packet_length == 0
                    &&& p.payload_data@ == payload@.subrange(
                        pes_payload_start(payload@),
                        payload@.len() as int,
                    )
                    &&& p.pts == Some(pes_pts(payload@))
                    &&& p.dts == Some(pes_dts(payload@))
                }
            },
    {
        PESPacket::parse_pes_packet(payload)
    }

    /// The timestamp fields of a PTS or DTS carry their three marker bits.
    pub fn is_timestamp_section_valid(timestamp_section: u64) -> (b: bool)
        ensures
            b == ((timestamp_section & 0x1u64) != 0 && (timestamp_section & 0x10000u64) != 0 && (
            timestamp_section & 0x100000000u64) != 0),
    {
        ((timestamp_section & 0x1) != 0) && ((timestamp_section & 0x10000) != 0) && ((
        timestamp_section & 0x100000000u64) != 0)
    }

    /// The timestamp that a 40-bit PTS or DTS field holds.
    pub fn convert_timestamp_section_to_timesamp(timestamp_section: u64) -> (t: u64)
        ensures
            t == spec_timestamp(timestamp_section),
    {
        (((timestamp_section >> 33) & 0x7) << 30) | (((timestamp_section >> 17) & 0x7fff) << 15)
            | ((timestamp_section >> 1) & 0x7fff)
    }

    fn unframed(payload: &'a [u8]) -> (p: PESPacket<'a>)
        ensures
            p.packet_start_code_prefix == 0 && p.stream_id == 0 && p.pes_packet_length == 0
                && p.payload_data@ == payload@ && p.dts is None && p.pts is None,
    {
        PESPacket {
            packet_start_code_prefix: 0,
            stream_id: 0,
            pes_packet_length: 0,
            payload_data: payload,
            dts: None,
            pts: None,
        }
    }

    fn parse_pes_packet(payload: &'a [u8]) -> (r: Result<PESPacket<'a>, CustomError>)
        requires
            !pes_malformed(payload@),
        ensures
            !pes_has_prefix(payload@) ==> (r matches Ok(p) && p.packet_start_code_prefix == 0
                && p.stream_id == 0 && p.pes_packet_length == 0 && p.payload_data@ == payload@
                && p.dts is None && p.pts is None),
            pes_has_prefix(payload@) && !pes_is_av(pes_stream_id(payload@)) ==> (r matches Err(e)
                && e.major == MajorCode::TRANSPORT_STREAM && e.minor == 0),
            pes_has_prefix(payload@) && pes_is_av(pes_stream_id(payload@)) ==> {
                &&& r is Ok <==> pes_header_readable(payload@)
                &&& r matches Err(e) ==> e.major == MajorCode::UTIL && e.minor == 0
                &&& r matches Ok(p) ==> {
                    &&& p.packet_start_code_prefix == PACKET_START_CODE_PREFIX
                    &&& p.stream_id == pes_stream_id(payload@)
                    &&& p.pes_packet_length == 0
                    &&& p.payload_data@ == payload@.subrange(
                        pes_payload_start(payload@),
                        payload@.len() as int,
                    )
                    &&& p.pts == Some(pes_pts(payload@))
                    &&& p.dts == Some(pes_dts(payload@))
                }
            },
    {
        let mut offset = 0usize;
        // A payload shorter than a PES header is carried as it is.
        if payload.len() < 19 {
            return Ok(PESPacket::unframed(payload));
        }
        let data = get_u32(payload, offset)?;
        offset = offset + 4;
        let start_prefix = (data & 0xFFFFFF00) >> 8;
        if start_prefix != PACKET_START_CODE_PREFIX {
            return Ok(PESPacket::unframed(payload));
        }
        let stream_id = (data & 0xFF) as u8;
        let _pes_packet_length = get_u16(payload, offset)?;
        // Skip the packet length and the first flag byte.
        offset = offset + 3;
        if (stream_id >> 4) == 0b1110 || (stream_id >> 5) == 0b110 {
            let pts_dts_flags = get_u8(payload, offset)?;
            offset = offset + 1;
            let pes_header_data_length = get_u8(payload, offset)?;
            offset = offset + 1;
            let mut pts: u64 = 0;
            let mut dts: Option<u64> = None;
            proof {
                lemma_dts_flag_implies_pts_flag(pts_dts_flags);
            }
            if (pts_dts_flags & 0xC0) != 0 {
                let pts_section_64 = get_u64(payload, offset)?;
                // Only the first 40 bits belong to the field.
                offset = offset + 5;
                let pts_section = pts_section_64 >> 24;
                pts = PESPacket::convert_timestamp_section_to_timesamp(pts_section);
            }
            if (pts_dts_flags & 0x40) != 0 {
                let dts_section_64 = get_u64(payload, offset)?;
                offset = offset + 5;
                let dts_section = dts_section_64 >> 24;
                dts = Some(PESPacket::convert_timestamp_section_to_timesamp(dts_section));
            }
            let dts = match dts {
                Some(d) => d,
                None => pts,
            };
            // Six bytes of PES header and three of PES header extension.
            let payload_start_offset = (pes_header_data_length + 9) as usize;
            return Ok(
                PESPacket {
                    packet_start_code_prefix: start_prefix,
                    stream_id,
                    pes_packet_length: 0,
                    payload_data: &payload[payload_start_offset..payload.len()],
                    dts: Some(dts),
                    pts: Some(pts),
                },
            );
        }
        Err(
            construct_error(
                MajorCode::TRANSPORT_STREAM,
                TransportStreamMinorCode::PARSE_TS_ERROR,
                String::from_str("Stream id is not valid"),
            ),
        )
    }
}

} // verus!

use vstd::prelude::*;

use crate::container::transport_stream::elementary_stream_type::{
    spec_stream_type, ElementaryStreamType,
};
use crate::error::error_code::MajorCode;
use crate::error::CustomError;
use crate::util::{get_u16, get_u8, read_u16};

verus! {

// Program map table, ISO/IEC 13818-1; 2.4.4.8

/// The packet id of an elementary stream and its type.
#[derive(Debug)]
pub struct StreamInfo {
    pub pid: u16,
    pub stream_type: ElementaryStreamType,
}

#[derive(Debug)]
pub struct ProgramMapTable {
    pub table_id: u8,
    pub section_syntax_indicator: bool,
    pub section_length: u16,
    pub program_number: u16,
    pub version_number: u8,
    pub current_next_indicator: bool,
    pub section_number: u8,
    pub last_section_number: u8,
    pub PCR_PID: u16,
    pub program_info_length: u16,
    pub audio_stream_info: Option<StreamInfo>,
    pub video_stream_info: Option<StreamInfo>,
}

/// Where the table starts: after the pointer field and the bytes it skips
/// when a payload unit starts in the packet.
pub open spec fn pmt_start(s: Seq<u8>, payload_unit_start_indicator: bool) -> int {
    if payload_unit_start_indicator {
        s[0] + 1
    } else {
        0
    }
}

/// The fixed part of the table can be read.
pub open spec fn pmt_header_readable(s: Seq<u8>, payload_unit_start_indicator: bool) -> bool {
    (payload_unit_start_indicator ==> s.len() >= 1) && pmt_start(s, payload_unit_start_indicator)
        + 12 <= s.len()
}

/// The section length field.
pub open spec fn pmt_section_length(s: Seq<u8>, start: int) -> u16 {
    read_u16(s, start + 1) & 0xFFFu16
}

/// The end of the section: after the section length field, plus the length.
pub open spec fn pmt_end(s: Seq<u8>, start: int) -> int {
    start + 3 + pmt_section_length(s, start)
}

/// Where the elementary stream loop starts: after the program descriptors.
pub open spec fn pmt_loop_start(s: Seq<u8>, start: int) -> int {
    start + 12 + (read_u16(s, start + 10) & 0xFFFu16)
}

/// The elementary stream loop, from `start` to four bytes before `end` (the
/// CRC): each entry is a stream type, a 13-bit packet id and a 12-bit
/// length of descriptors that are skipped. The last audio (AAC) and video
/// (H.264) streams are kept; `None` when an entry runs past the bytes.
pub open spec fn pmt_streams(
    s: Seq<u8>,
    start: int,
    end: int,
    audio: Option<StreamInfo>,
    video: Option<StreamInfo>,
) -> Option<(Option<StreamInfo>, Option<StreamInfo>)>
    decreases (if start < end { end - start } else { 0 }),
{
    if start >= end - 4 {
        Some((audio, video))
    } else if start + 5 > s.len() {
        None
    } else {
        let stream_type = spec_stream_type(s[start]);
        let info = StreamInfo { pid: read_u16(s, start + 1) & 0x1FFFu16, stream_type };
        let next = start + 5 + (read_u16(s, start + 3) & 0xFFFu16);
        match stream_type {
            ElementaryStreamType::AAC => pmt_streams(s, next, end, Some(info), video),
            ElementaryStreamType::H_264 => pmt_streams(s, next, end, audio, Some(info)),
            ElementaryStreamType::UNKNOWN => pmt_streams(s, next, end, audio, video),
        }
    }
}

/// The streams of a table whose fixed part can be read.
pub open spec fn pmt_spec_streams(s: Seq<u8>, payload_unit_start_indicator: bool) -> Option<
    (Option<StreamInfo>, Option<StreamInfo>),
> {
    let start = pmt_start(s, payload_unit_start_indicator);
    pmt_streams(s, pmt_loop_start(s, start), pmt_end(s, start), None, None)
}

/// The fields of a parsed table are those that `s` holds from `start`.
pub open spec fn pmt_matches(p: ProgramMapTable, s: Seq<u8>, start: int) -> bool {
    &&& p.table_id == s[start]
    &&& p.section_syntax_indicator == (read_u16(s, start + 1) & 0x8000u16 != 0)
    &&& p.section_length == pmt_section_length(s, start)
    &&& p.program_number == read_u16(s, start + 3)
    &&& p.version_number == (s[start + 5] & 0x3Eu8) >> 1u8
    &&& p.current_next_indicator == (s[start + 5] & 0x1u8 != 0)
    &&& p.section_number == s[start + 6]
    &&& p.last_section_number == s[start + 7]
    &&& p.PCR_PID == read_u16(s, start + 8) & 0x1FFFu16
    &&& p.program_info_length == read_u16(s, start + 10) & 0xFFFu16
}

/// The inputs on which the section end would come before the loop can
/// stop: a table at the start of the bytes with a zero section length.
pub open spec fn pmt_malformed(s: Seq<u8>, payload_unit_start_indicator: bool) -> bool {
    !payload_unit_start_indicator && s.len() >= 12 && pmt_section_length(s, 0) == 0
}

/// The audio stream a table names is an AAC stream, and its video stream
/// an H.264 stream.
pub proof fn lemma_pmt_stream_types(
    s: Seq<u8>,
    start: int,
    end: int,
    audio: Option<StreamInfo>,
    video: Option<StreamInfo>,
)
    requires
        audio matches Some(a) ==> a.stream_type == ElementaryStreamType::AAC,
        video matches Some(v) ==> v.stream_type == ElementaryStreamType::H_264,
    ensures
        pmt_streams(s, start, end, audio, video) matches Some((a, v)) ==> (a matches Some(x)
            ==> x.stream_type == ElementaryStreamType::AAC) && (v matches Some(y)
            ==> y.stream_type == ElementaryStreamType::H_264),
    decreases (if start < end { end - start } else { 0 }),
{
    if start >= end - 4 {
    } else if start + 5 > s.len() {
    } else {
        let stream_type = spec_stream_type(s[start]);
        let info = StreamInfo { pid: read_u16(s, start + 1) & 0x1FFFu16, stream_type };
        let next = start + 5 + (read_u16(s, start + 3) & 0xFFFu16);
        match stream_type {
            ElementaryStreamType::AAC => lemma_pmt_stream_types(s, next, end, Some(info), video),
            ElementaryStreamType::H_264 => lemma_pmt_stream_types(s, next, end, audio, Some(info)),
            ElementaryStreamType::UNKNOWN => lemma_pmt_stream_types(s, next, end, audio, video),
        }
    }
}

/// The elementary stream loop reads the same entries wherever it starts:
/// bytes that agree from `a` on, shifted by `d`, give the same streams.
proof fn lemma_pmt_streams_shift(
    s1: Seq<u8>,
    s2: Seq<u8>,
    d: int,
    a: int,
    e: int,
    audio: Option<StreamInfo>,
    video: Option<StreamInfo>,
)
    requires
        0 <= d,
        0 <= a,
        s2.len() == s1.len() + d,
        forall|i: int| a <= i < s1.len() ==> s2[i + d] == s1[i],
    ensures
        pmt_streams(s2, a + d, e + d, audio, video) == pmt_streams(s1, a, e, audio, video),
    decreases (if a < e { e - a } else { 0 }),
{
    if a >= e - 4 {
    } else if a + 5 > s1.len() {
    } else {
        assert(s2[a + d] == s1[a]);
        assert(s2[a + 1 + d] == s1[a + 1] && s2[a + 2 + d] == s1[a + 2]);
        assert(s2[a + 3 + d] == s1[a + 3] && s2[a + 4 + d] == s1[a + 4]);
        assert(read_u16(s2, a + d + 1) == read_u16(s1, a + 1));
        assert(read_u16(s2, a + d + 3) == read_u16(s1, a + 3));
        let stream_type = spec_stream_type(s1[a]);
        let info = StreamInfo { pid: read_u16(s1, a + 1) & 0x1FFFu16, stream_type };
        let next = a + 5 + (read_u16(s1, a + 3) & 0xFFFu16);
        assert(next + d == a + d + 5 + (read_u16(s2, a + d + 3) & 0xFFFu16));
        match stream_type {
            ElementaryStreamType::AAC => lemma_pmt_streams_shift(
                s1,
                s2,
                d,
                next,
                e,
                Some(info),
                video,
            ),
            ElementaryStreamType::H_264 => lemma_pmt_streams_shift(
                s1,
                s2,
                d,
                next,
                e,
                audio,
                Some(info),
            ),
            ElementaryStreamType::UNKNOWN => lemma_pmt_streams_shift(s1, s2, d, next, e, audio, video),
        }
    }
}

/// Program descriptors do not change the streams of a table: the same
/// table with `d` bytes of descriptors put in after its fixed fields (its
/// program info length and section length grown by `d`) names the same
/// audio and video streams.
pub proof fn lemma_pmt_descriptors_skipped(
    s1: Seq<u8>,
    s2: Seq<u8>,
    pusi: bool,
    d: int,
)
    requires
        0 <= d,
        pmt_header_readable(s1, pusi),
        pmt_start(s2, pusi) == pmt_start(s1, pusi),
        read_u16(s1, pmt_start(s1, pusi) + 10) & 0xFFFu16 == 0,
        read_u16(s2, pmt_start(s1, pusi) + 10) & 0xFFFu16 == d,
        pmt_section_length(s2, pmt_start(s1, pusi)) == pmt_section_length(
            s1,
            pmt_start(s1, pusi),
        ) + d,
        s2.len() == s1.len() + d,
        forall|i: int| pmt_start(s1, pusi) + 12 <= i < s1.len() ==> s2[i + d] == s1[i],
    ensures
        pmt_spec_streams(s2, pusi) == pmt_spec_streams(s1, pusi),
{
    let p = pmt_start(s1, pusi);
    lemma_pmt_streams_shift(s1, s2, d, p + 12, pmt_end(s1, p), None, None);
    assert(pmt_loop_start(s2, p) == p + 12 + d);
    assert(pmt_end(s2, p) == pmt_end(s1, p) + d);
}

proof fn lemma_streams_unroll(
    s: Seq<u8>,
    start: int,
    end: int,
    audio: Option<StreamInfo>,
    video: Option<StreamInfo>,
)
    requires
        start < end - 4,
        start + 5 <= s.len(),
    ensures
        pmt_streams(s, start, end, audio, video) == ({
            let stream_type = spec_stream_type(s[start]);
            let info = StreamInfo { pid: read_u16(s, start + 1) & 0x1FFFu16, stream_type };
            let next = start + 5 + (read_u16(s, start + 3) & 0xFFFu16);
            match stream_type {
                ElementaryStreamType::AAC => pmt_streams(s, next, end, Some(info), video),
                ElementaryStreamType::H_264 => pmt_streams(s, next, end, audio, Some(info)),
                ElementaryStreamType::UNKNOWN => pmt_streams(s, next, end, audio, video),
            }
        }),
{
}

impl ProgramMapTable {
    /// Parses a program map table section; with `payload_unit_start_indicator`
    /// the first byte is the pointer field.
    pub fn parse(data: &[u8], payload_unit_start_indicator: bool) -> (r: Result<
        ProgramMapTable,
        CustomError,
    >)
        requires
            !pmt_malformed(data@, payload_unit_start_indicator),
        ensures
            r is Ok <==> pmt_header_readable(data@, payload_unit_start_indicator)
                && pmt_spec_streams(data@, payload_unit_start_indicator) is Some,
            r matches Ok(p) ==> pmt_matches(p, data@, pmt_start(data@, payload_unit_start_indicator))
                && pmt_spec_streams(data@, payload_unit_start_indicator) == Some(
                (p.audio_stream_info, p.video_stream_info),
            ),
            r matches Err(e) ==> e.major == MajorCode::UTIL && e.minor == 0,
    {
        let mut start = 0usize;
        if payload_unit_start_indicator {
            start = get_u8(data, start)? as usize + 1;
        }
        let ghost start0 = start as int;
        let table_id = get_u8(data, start)?;
        start = start + 1;
        let buffer_16 = get_u16(data, start)?;
        let section_syntax_indicator = (buffer_16 & 0x8000) != 0;
        let section_length = buffer_16 & 0xFFF;
        assert(buffer_16 & 0xFFF <= 0xFFF) by (bit_vector);
        start = start + 2;
        let end = start + section_length as usize;
        let program_number = get_u16(data, start)?;
        start = start + 2;
        let buffer_8 = get_u8(data, start)?;
        let version_number = (buffer_8 & 0x3E) >> 1;
        let current_next_indicator = (buffer_8 & 0x1) != 0;
        start = start + 1;
        let section_number = get_u8(data, start)?;
        start = start + 1;
        let last_section_number = get_u8(data, start)?;
        start = start + 1;
        let PCR_PID = get_u16(data, start)? & 0x1FFF;
        start = start + 2;
        let program_info_length = get_u16(data, start)? & 0xFFF;
        start = start + 2;
        // The program descriptors are skipped.
        let program_end = start + program_info_length as usize;
        start = program_end;
        assert(end >= 4);
        let (audio_stream_info, video_stream_info) = ProgramMapTable::parse_streams(
            data,
            start,
            end,
        )?;
        Ok(
            ProgramMapTable {
                table_id,
                section_syntax_indicator,
                section_length,
                program_number,
                version_number,
                current_next_indicator,
                section_number,
                last_section_number,
                PCR_PID,
                program_info_length,
                audio_stream_info,
                video_stream_info,
            },
        )
    }

    fn parse_streams(data: &[u8], from: usize, end: usize) -> (r: Result<
        (Option<StreamInfo>, Option<StreamInfo>),
        CustomError,
    >)
        requires
            4 <= end <= 0x2000,
        ensures
            r is Ok <==> pmt_streams(data@, from as int, end as int, None, None) is Some,
            r matches Ok(v) ==> pmt_streams(data@, from as int, end as int, None, None) == Some(
                v,
            ),
            r matches Err(e) ==> e.major == MajorCode::UTIL && e.minor == 0,
    {
        let mut start = from;
        let mut video_stream_info: Option<StreamInfo> = None;
        let mut audio_stream_info: Option<StreamInfo> = None;
        while start < end - 4
            invariant
                4 <= end <= 0x2000,
                pmt_streams(data@, start as int, end as int, audio_stream_info, video_stream_info)
                    == pmt_streams(data@, from as int, end as int, None, None),
            decreases (if start < end { end - start } else { 0 }),
        {
            proof {
                if start + 5 <= data@.len() {
                    lemma_streams_unroll(
                        data@,
                        start as int,
                        end as int,
                        audio_stream_info,
                        video_stream_info,
                    );
                } else {
                    assert(pmt_streams(
                        data@,
                        start as int,
                        end as int,
                        audio_stream_info,
                        video_stream_info,
                    ) is None);
                }
            }
            let stream_type = get_u8(data, start)?;
            start = start + 1;
            let elementary_pid = get_u16(data, start)? & 0x1FFF;
            start = start + 2;
            let es_info_length = get_u16(data, start)? & 0xFFF;
            start = start + 2;
            // The descriptors of the stream are skipped.
            let es_info_end = start + es_info_length as usize;
            start = es_info_end;
            let stream = ElementaryStreamType::get_type(stream_type);
            match stream {
                ElementaryStreamType::AAC => {
                    audio_stream_info = Some(
                        StreamInfo { pid: elementary_pid, stream_type: stream },
                    );
                },
                ElementaryStreamType::H_264 => {
                    video_stream_info = Some(
                        StreamInfo { pid: elementary_pid, stream_type: stream },
                    );
                },
                ElementaryStreamType::UNKNOWN => {},
            }
        }
        Ok((audio_stream_info, video_stream_info))
    }
}

} // verus!

use vstd::prelude::*;

use crate::error::error_code::MajorCode;
use crate::error::CustomError;
use crate::util::{get_u16, get_u8, read_u16};

verus! {

// Program association table, ISO/IEC 13818-1; 2.4.4.3

/// The header of a program association section and its first program: the
/// program number and the packet id of the program map table.
#[derive(Debug)]
pub struct ProgramAssociationTable {
    pub table_id: u8,
    pub section_syntax_indicator: bool,
    pub section_length: u16,
    pub transport_stream_id: u16,
    pub version_number: u8,
    pub current_next_indicator: bool,
    pub section_number: u8,
    pub last_section_number: u8,
    pub program_number: u16,
    pub program_map_pid: u16,
}

/// Where the section starts: after the pointer field and the bytes it skips
/// when a payload unit starts in the packet.
pub open spec fn pat_start(s: Seq<u8>, payload_unit_start_indicator: bool) -> int {
    if payload_unit_start_indicator {
        s[0] + 1
    } else {
        0
    }
}

/// The header and the first program entry can be read.
pub open spec fn pat_readable(s: Seq<u8>, payload_unit_start_indicator: bool) -> bool {
    (payload_unit_start_indicator ==> s.len() >= 1) && pat_start(s, payload_unit_start_indicator)
        + 12 <= s.len()
}

/// The packet id of the program map table of the first program.
pub open spec fn pat_program_map_pid(s: Seq<u8>, payload_unit_start_indicator: bool) -> u16 {
    read_u16(s, pat_start(s, payload_unit_start_indicator) + 10) & 0x1FFFu16
}

/// The fields of a parsed table are those that `s` holds from `start`.
pub open spec fn pat_matches(p: ProgramAssociationTable, s: Seq<u8>, start: int) -> bool {
    &&& p.table_id == s[start]
    &&& p.section_syntax_indicator == (read_u16(s, start + 1) & 0x8000u16 != 0)
    &&& p.section_length == read_u16(s, start + 1) & 0xFFFu16
    &&& p.transport_stream_id == read_u16(s, start + 3)
    &&& p.version_number == (s[start + 5] & 0x3Eu8) >> 1u8
    &&& p.current_next_indicator == (s[start + 5] & 0x1u8 != 0)
    &&& p.section_number == s[start + 6]
    &&& p.last_section_number == s[start + 7]
    &&& p.program_number == read_u16(s, start + 8)
    &&& p.program_map_pid == read_u16(s, start + 10) & 0x1FFFu16
}

impl ProgramAssociationTable {
    /// Parses a program association section; with
    /// `payload_unit_start_indicator` the first byte is the pointer field.
    pub fn parse(data: &[u8], payload_unit_start_indicator: bool) -> (r: Result<
        ProgramAssociationTable,
        CustomError,
    >)
        ensures
            r is Ok <==> pat_readable(data@, payload_unit_start_indicator),
            r matches Ok(p) ==> pat_matches(
                p,
                data@,
                pat_start(data@, payload_unit_start_indicator),
            ),
            r matches Err(e) ==> e.major == MajorCode::UTIL && e.minor == 0,
    {
        let mut start = 0usize;
        if payload_unit_start_indicator {
            start = get_u8(data, start)? as usize + 1;
        }
        let table_id = get_u8(data, start)?;
        let buffer_16 = get_u16(data, start + 1)?;
        let section_syntax_indicator = (buffer_16 & 0x8000) != 0;
        let section_length = buffer_16 & 0xFFF;
        let transport_stream_id = get_u16(data, start + 3)?;
        let buffer_8 = get_u8(data, start + 5)?;
        let version_number = (buffer_8 & 0x3E) >> 1;
        let current_next_indicator = (buffer_8 & 0x1) != 0;
        let section_number = get_u8(data, start + 6)?;
        let last_section_number = get_u8(data, start + 7)?;
        let program_number = get_u16(data, start + 8)?;
        let program_map_pid = get_u16(data, start + 10)? & 0x1FFF;
        Ok(
            ProgramAssociationTable {
                table_id,
                section_syntax_indicator,
                section_length,
                transport_stream_id,
                version_number,
                current_next_indicator,
                section_number,
                last_section_number,
                program_number,
                program_map_pid,
            },
        )
    }
}

} // verus!

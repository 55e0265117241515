use vstd::prelude::*;
use vstd::string::StringExecFns;

use crate::error::error_code::{MajorCode, TransportStreamMinorCode};
use crate::error::{construct_error, CustomError};
use crate::util::{get_u8, read_u16};

verus! {

// Transport stream packet, ISO/IEC 13818-1; 2.4.3.2

/// A transport stream packet: its header fields and its payload.
pub struct TransportPacket<'a> {
    pub sync_byte: u8,
    pub transport_error_indicator: bool,
    pub payload_unit_start_indicator: bool,
    pub transport_priority: bool,
    pub pid: u16,
    pub transport_scrambling_control: u8,
    pub adaptation_field_control: u8,
    pub continuity_counter: u8,
    pub data: &'a [u8],
}

/// The 13-bit packet id.
pub open spec fn ts_pid(s: Seq<u8>) -> u16 {
    read_u16(s, 1) & 0x1FFFu16
}

/// A payload unit (a PES packet or a section) starts in the packet.
pub open spec fn ts_pusi(s: Seq<u8>) -> bool {
    s[1] & 0x40u8 != 0
}

/// The two adaptation field control bits: `10` and `11` announce an
/// adaptation field, `01` and `11` a payload.
pub open spec fn ts_afc(s: Seq<u8>) -> u8 {
    (s[3] >> 4u8) & 0x3u8
}

/// Where the payload starts: after the four header bytes, and after the
/// adaptation field and its length byte when there is one.
pub open spec fn ts_payload_start(s: Seq<u8>) -> int {
    if ts_afc(s) & 0x2u8 != 0 {
        5 + s[4]
    } else {
        4
    }
}

/// The packet id, the payload unit start indicator and the payload of a
/// packet; `None` when the header or the adaptation field runs past the
/// bytes.
pub open spec fn spec_ts_packet(s: Seq<u8>) -> Option<(u16, bool, Seq<u8>)> {
    if s.len() < 4 || (ts_afc(s) & 0x2u8 != 0 && s.len() < 5) || ts_payload_start(s) > s.len() {
        None
    } else {
        Some(
            (
                ts_pid(s),
                ts_pusi(s),
                if ts_afc(s) & 0x1u8 != 0 {
                    s.subrange(ts_payload_start(s), s.len() as int)
                } else {
                    Seq::empty()
                },
            ),
        )
    }
}

/// The area of the error for bytes that do not hold a packet: running out
/// of bytes in the header is a byte reading error, an adaptation field that
/// runs past the bytes a transport stream error.
pub open spec fn ts_error_major(s: Seq<u8>) -> MajorCode {
    if s.len() < 4 || (ts_afc(s) & 0x2u8 != 0 && s.len() < 5) {
        MajorCode::UTIL
    } else {
        MajorCode::TRANSPORT_STREAM
    }
}

impl<'a> TransportPacket<'a> {
    /// Parses the header of a transport stream packet and finds its
    /// payload, which is empty when the packet has none.
    pub fn parse(packet: &'a [u8]) -> (r: Result<TransportPacket<'a>, CustomError>)
        ensures
            match spec_ts_packet(packet@) {
                None => r matches Err(e) && e.minor == 0 && e.major == ts_error_major(packet@),
                Some((pid, pusi, data)) => r matches Ok(p) && {
                    &&& p.pid == pid
                    &&& p.payload_unit_start_indicator == pusi
                    &&& p.data@ == data
                    &&& p.sync_byte == packet@[0]
                    &&& p.transport_error_indicator == (packet@[1] & 0x80u8 != 0)
                    &&& p.transport_priority == (packet@[1] & 0x20u8 != 0)
                    &&& p.transport_scrambling_control == (packet@[3] >> 6u8) & 0x3u8
                    &&& p.adaptation_field_control == ts_afc(packet@)
                    &&& p.continuity_counter == packet@[3] & 0xFu8
                },
            },
    {
        let sync_byte = get_u8(packet, 0)?;
        let b1 = get_u8(packet, 1)?;
        let b2 = get_u8(packet, 2)?;
        let b3 = get_u8(packet, 3)?;
        let transport_error_indicator = (b1 & 0x80) != 0;
        let payload_unit_start_indicator = (b1 & 0x40) != 0;
        let transport_priority = (b1 & 0x20) != 0;
        let pid = (((b1 as u16) << 8u16) | (b2 as u16)) & 0x1FFF;
        let transport_scrambling_control = (b3 >> 6) & 0x3;
        let adaptation_field_control = (b3 >> 4) & 0x3;
        let continuity_counter = b3 & 0xF;
        let mut payload_start: usize = 4;
        if adaptation_field_control & 0x2 != 0 {
            let adaptation_field_length = get_u8(packet, 4)?;
            payload_start = 5 + adaptation_field_length as usize;
        }
        if payload_start > packet.len() {
            return Err(
                construct_error(
                    MajorCode::TRANSPORT_STREAM,
                    TransportStreamMinorCode::PARSE_TS_ERROR,
                    String::from_str("The adaptation field runs past the packet"),
                ),
            );
        }
        let data = if adaptation_field_control & 0x1 != 0 {
            vstd::slice::slice_subrange(packet, payload_start, packet.len())
        } else {
            vstd::slice::slice_subrange(packet, 0, 0)
        };
        assert(data@ =~= spec_ts_packet(packet@).unwrap().2);
        Ok(
            TransportPacket {
                sync_byte,
                transport_error_indicator,
                payload_unit_start_indicator,
                transport_priority,
                pid,
                transport_scrambling_control,
                adaptation_field_control,
                continuity_counter,
                data,
            },
        )
    }
}

} // verus!

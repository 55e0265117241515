use vstd::prelude::*;
use vstd::string::StringExecFns;

use crate::error::error_code::{MajorCode, NalMinorCode};
use crate::error::{construct_error, CustomError};
use crate::util::{get_u16, get_u32, get_u8, read_u16, read_u32};

verus! {

// Network abstraction layer units, ITU-T H.264; 7.3.1

pub struct NALUnit {
    pub size: usize,
    pub rbsp_bytes: Vec<u8>,
}

impl NALUnit {
    /// The `nal_ref_idc` of the unit's header byte.
    pub fn get_ref_idc(&self) -> (r: u8)
        requires
            self.rbsp_bytes@.len() > 0,
        ensures
            r == (self.rbsp_bytes@[0] & 0x60u8) >> 5u8,
    {
        (self.rbsp_bytes[0] & 0x60) >> 5
    }

    /// The `nal_unit_type` of the unit's header byte.
    pub fn get_unit_type(&self) -> (r: u8)
        requires
            self.rbsp_bytes@.len() > 0,
        ensures
            r == self.rbsp_bytes@[0] & 0x1Fu8,
    {
        self.rbsp_bytes[0] & 0x1F
    }
}

/// The bytes that looking for a start code at `i` reads are there: it
/// reads a byte only while the ones before it are zero.
pub open spec fn boundary_readable(s: Seq<u8>, i: int) -> bool {
    &&& 0 <= i < s.len()
    &&& s[i] == 0 ==> i + 1 < s.len()
    &&& s[i] == 0 && s[i + 1] == 0 ==> i + 2 < s.len()
    &&& s[i] == 0 && s[i + 1] == 0 && s[i + 2] == 0 ==> i + 3 < s.len()
}

/// The length of the start code at `i`: 4 for `00 00 00 01`, 3 for
/// `00 00 01`, -1 for none.
pub open spec fn spec_boundary(s: Seq<u8>, i: int) -> i8 {
    if s[i] == 0 && s[i + 1] == 0 && s[i + 2] == 0 && s[i + 3] == 1 {
        4
    } else if s[i] == 0 && s[i + 1] == 0 && s[i + 2] == 1 {
        3
    } else {
        -1i8
    }
}

/// The bytes kept for byte `i` of a NAL unit: the three bytes of an
/// emulation prevention pattern `00 00 03` that starts at `i`, otherwise
/// the byte itself.
pub open spec fn rbsp_chunk(nal: Seq<u8>, i: int) -> Seq<u8> {
    if i + 2 < nal.len() && nal[i] == 0 && nal[i + 1] == 0 && nal[i + 2] == 3 {
        seq![nal[i], nal[i + 1], nal[i + 2]]
    } else {
        seq![nal[i]]
    }
}

/// The bytes kept for the first `n` bytes of a NAL unit.
pub open spec fn spec_rbsp(nal: Seq<u8>, n: nat) -> Seq<u8>
    decreases n,
{
    if n == 0 {
        Seq::empty()
    } else {
        spec_rbsp(nal, (n - 1) as nat) + rbsp_chunk(nal, n - 1)
    }
}

/// The NAL unit size field of the given length at `offset`; `None` when
/// the bytes end first.
pub open spec fn nal_size_field(s: Seq<u8>, offset: int, nal_unit_length: u8) -> Option<int> {
    if offset + nal_unit_length > s.len() {
        None
    } else if nal_unit_length == 4 {
        Some(read_u32(s, offset) as int)
    } else if nal_unit_length == 2 {
        Some(read_u16(s, offset) as int)
    } else {
        Some(s[offset] as int)
    }
}

/// The size field of a known length is read, and the unit it announces,
/// counted from the start of the field, lies within the bytes.
pub open spec fn nal_unit_fits(s: Seq<u8>, offset: int, nal_unit_length: u8) -> bool {
    (nal_unit_length == 1 || nal_unit_length == 2 || nal_unit_length == 4) ==> (nal_size_field(
        s,
        offset,
        nal_unit_length,
    ) matches Some(size) ==> nal_unit_length <= size && offset + size <= s.len())
}

/// Where a run of `0xFF` bytes from `o` ends.
pub open spec fn ff_run_end(s: Seq<u8>, o: int) -> int
    decreases s.len() - o,
{
    if o < 0 || o >= s.len() {
        o
    } else if s[o] == 0xFF {
        ff_run_end(s, o + 1)
    } else {
        o
    }
}

/// A value coded as a run of `0xFF` bytes and a last byte, each adding
/// itself (ITU-T H.264, 7.3.2.3.1), from `o`.
pub open spec fn sei_value(s: Seq<u8>, o: int) -> int {
    255 * (ff_run_end(s, o) - o) + s[ff_run_end(s, o)]
}

/// The payload type, then the payload size, then the payload, can be read
/// and the values fit in 32 bits.
pub open spec fn sei_readable(s: Seq<u8>) -> bool {
    let e1 = ff_run_end(s, 0);
    let e2 = ff_run_end(s, e1 + 1);
    &&& e1 < s.len()
    &&& sei_value(s, 0) <= u32::MAX
    &&& e2 < s.len()
    &&& sei_value(s, e1 + 1) <= u32::MAX
    &&& e2 + 1 + sei_value(s, e1 + 1) <= s.len()
}

/// The ITU-T T.35 payload can be read as far as the checks go.
pub open spec fn t35_readable(p: Seq<u8>) -> bool {
    &&& p.len() >= 1
    &&& p[0] == 181 && p.len() >= 3 && read_u16(p, 1) == 49 && p.len() >= 7 && read_u32(p, 3)
        == 0x47413934 ==> p.len() >= 8 && (p[7] == 3 ==> p.len() >= 9)
}

/// The caption data of an ATSC A/53 payload (country United States,
/// provider ATSC, user identifier `GA94`, type code 3), without its last
/// byte.
pub open spec fn spec_t35(p: Seq<u8>) -> Option<Seq<u8>> {
    if p[0] != 181 {
        None
    } else if !(p.len() >= 3 && read_u16(p, 1) == 49) {
        None
    } else if !(p.len() >= 7 && read_u32(p, 3) == 0x47413934) {
        None
    } else if p[7] != 3 {
        None
    } else {
        Some(p.subrange(8, p.len() - 1))
    }
}

proof fn lemma_ff_run_end(s: Seq<u8>, o: int)
    requires
        0 <= o,
    ensures
        o <= ff_run_end(s, o),
        ff_run_end(s, o) <= s.len() || ff_run_end(s, o) == o,
        forall|k: int| o <= k < ff_run_end(s, o) ==> s[k] == 0xFF,
        ff_run_end(s, o) < s.len() ==> s[ff_run_end(s, o)] != 0xFF,
    decreases s.len() - o,
{
    if o < s.len() && s[o] == 0xFF {
        lemma_ff_run_end(s, o + 1);
    }
}

impl NALUnit {
    /// Splits an Annex B byte stream at its start codes; no unit is kept.
    /// An error when the stream does not begin with a start code.
    pub fn byte_stream_to_nal_units(byte_stream: &[u8]) -> (r: Result<Vec<NALUnit>, CustomError>)
        requires
            boundary_readable(byte_stream@, 0),
            spec_boundary(byte_stream@, 0) != -1 ==> forall|i: int|
                0 <= i < byte_stream@.len() ==> #[trigger] boundary_readable(byte_stream@, i),
        ensures
            spec_boundary(byte_stream@, 0) == -1 ==> (r matches Err(e) && e.major == MajorCode::NAL
                && e.minor == 1),
            spec_boundary(byte_stream@, 0) != -1 ==> (r matches Ok(v) && v@.len() == 0),
    {
        let mut index: usize = 0;
        if NALUnit::find_boundary(index, byte_stream) == -1 {
            return Err(
                construct_error(
                    MajorCode::NAL,
                    NalMinorCode::BYTE_STREAM_MISSING_START_PREFIX_ERROR,
                    String::from_str("Invalid nal unit length"),
                ),
            );
        }
        while index < byte_stream.len()
            invariant
                index <= byte_stream@.len(),
                forall|i: int|
                    0 <= i < byte_stream@.len() ==> #[trigger] boundary_readable(byte_stream@, i),
            decreases byte_stream@.len() - index,
        {
            assert(boundary_readable(byte_stream@, index as int));
            let offset = NALUnit::find_boundary(index, byte_stream);
            if offset == -1 {
                index = index + 1;
                continue;
            }
            index = index + offset as usize;
            let nal_start_index = index;
            // The unit runs to the next start code or the end.
            while index < byte_stream.len() && NALUnit::find_boundary(index, byte_stream) == -1
                invariant
                    nal_start_index <= index <= byte_stream@.len(),
                    forall|i: int|
                        0 <= i < byte_stream@.len() ==> #[trigger] boundary_readable(
                            byte_stream@,
                            i,
                        ),
                decreases byte_stream@.len() - index,
            {
                index = index + 1;
            }
            let _data = vstd::slice::slice_subrange(byte_stream, nal_start_index, index);
        }
        Ok(Vec::new())
    }

    /// The length of the start code at `index`, or -1 when there is none.
    pub fn find_boundary(index: usize, data: &[u8]) -> (r: i8)
        requires
            boundary_readable(data@, index as int),
        ensures
            r == spec_boundary(data@, index as int),
    {
        if data[index] == 0 && data[index + 1] == 0 && data[index + 2] == 0 && data[index + 3]
            == 1 {
            return 4;
        } else if data[index] == 0 && data[index + 1] == 0 && data[index + 2] == 1 {
            return 3;
        }
        -1
    }

    /// Parses the NAL unit whose size field of `nal_unit_length` bytes is
    /// at `offset` of a media data box.
    pub fn parse(mdat: &[u8], offset: usize, nal_unit_length: u8) -> (r: Result<
        NALUnit,
        CustomError,
    >)
        requires
            nal_unit_fits(mdat@, offset as int, nal_unit_length),
        ensures
            !(nal_unit_length == 1 || nal_unit_length == 2 || nal_unit_length == 4) ==> (r matches Err(
                e,
            ) && e.major == MajorCode::NAL && e.minor == 0),
            (nal_unit_length == 1 || nal_unit_length == 2 || nal_unit_length == 4) ==> match nal_size_field(
                mdat@,
                offset as int,
                nal_unit_length,
            ) {
                None => r matches Err(e) && e.major == MajorCode::UTIL,
                Some(size) => r matches Ok(u) && u.size == size && u.rbsp_bytes@ == spec_rbsp(
                    mdat@.subrange(offset + nal_unit_length, offset + size),
                    (size - nal_unit_length) as nat,
                ),
            },
    {
        let nal_size = NALUnit::get_nal_unit_size(mdat, offset, nal_unit_length)?;
        // The length of the bytes bounds the offsets below.
        let _mdat_len = mdat.len();
        assert(nal_size_field(mdat@, offset as int, nal_unit_length) == Some(nal_size as int));
        let offset_without_nal_length = offset + nal_unit_length as usize;
        let nal_data = vstd::slice::slice_subrange(mdat, offset_without_nal_length, offset + nal_size);
        let mut rbsp_bytes: Vec<u8> = Vec::new();
        let mut j: usize = 0;
        while j < nal_data.len()
            invariant
                j <= nal_data@.len(),
                rbsp_bytes@ == spec_rbsp(nal_data@, j as nat),
            decreases nal_data@.len() - j,
        {
            let mut i = j;
            if nal_data.len() - i > 2 && nal_data[i] == 0x0 && nal_data[i + 1] == 0x0 && nal_data[i
                + 2] == 0x3 {
                rbsp_bytes.push(nal_data[i]);
                rbsp_bytes.push(nal_data[i + 1]);
                i = i + 2;
            }
            rbsp_bytes.push(nal_data[i]);
            assert(rbsp_bytes@ =~= spec_rbsp(nal_data@, (j + 1) as nat));
            j = j + 1;
        }
        Ok(NALUnit { size: nal_size, rbsp_bytes })
    }

    fn get_nal_unit_size(mdat: &[u8], offset: usize, nal_unit_length: u8) -> (r: Result<
        usize,
        CustomError,
    >)
        ensures
            !(nal_unit_length == 1 || nal_unit_length == 2 || nal_unit_length == 4) ==> (r matches Err(
                e,
            ) && e.major == MajorCode::NAL && e.minor == 0),
            (nal_unit_length == 1 || nal_unit_length == 2 || nal_unit_length == 4) ==> match nal_size_field(
                mdat@,
                offset as int,
                nal_unit_length,
            ) {
                None => r matches Err(e) && e.major == MajorCode::UTIL,
                Some(size) => r == Ok::<usize, CustomError>(size as usize),
            },
    {
        match nal_unit_length {
            4 => {
                let v = get_u32(mdat, offset)?;
                Ok(v as usize)
            },
            2 => {
                let v = get_u16(mdat, offset)?;
                Ok(v as usize)
            },
            1 => {
                let v = get_u8(mdat, offset)?;
                Ok(v as usize)
            },
            _ => Err(
                construct_error(
                    MajorCode::NAL,
                    NalMinorCode::UNEXPTED_NAL_UNIT_LENGTH_ERROR,
                    String::from_str("Invalid nal unit length"),
                ),
            ),
        }
    }

    /// Reads a value coded as `0xFF` bytes and a last byte from `offset`;
    /// gives the value and where the next field starts.
    fn read_sei_value(rbsp_bytes: &[u8], offset: usize) -> (r: (u32, usize))
        requires
            ff_run_end(rbsp_bytes@, offset as int) < rbsp_bytes@.len(),
            sei_value(rbsp_bytes@, offset as int) <= u32::MAX,
        ensures
            r.0 == sei_value(rbsp_bytes@, offset as int),
            r.1 == ff_run_end(rbsp_bytes@, offset as int) + 1,
    {
        proof {
            lemma_ff_run_end(rbsp_bytes@, offset as int);
        }
        let ghost end = ff_run_end(rbsp_bytes@, offset as int);
        let mut value = 0u32;
        let mut o = offset;
        while rbsp_bytes[o] == 0xFF
            invariant
                offset <= o <= end,
                end < rbsp_bytes@.len(),
                end == ff_run_end(rbsp_bytes@, offset as int),
                forall|k: int| offset <= k < end ==> rbsp_bytes@[k] == 0xFF,
                end < rbsp_bytes@.len() ==> rbsp_bytes@[end] != 0xFF,
                value == 255 * (o - offset),
                255 * (end - offset) + rbsp_bytes@[end] <= u32::MAX,
            decreases end - o,
        {
            value = value + 0xFF;
            o = o + 1;
        }
        value = value + rbsp_bytes[o] as u32;
        o = o + 1;
        (value, o)
    }

    /// Reads the payload type, size and payload of an SEI message; the
    /// payload is handed to the payload parser and not kept.
    pub fn parse_sei(rbsp_bytes: &[u8])
        requires
            sei_readable(rbsp_bytes@),
            sei_value(rbsp_bytes@, 0) == 4 ==> t35_readable(
                rbsp_bytes@.subrange(
                    ff_run_end(rbsp_bytes@, ff_run_end(rbsp_bytes@, 0) + 1) + 1,
                    ff_run_end(rbsp_bytes@, ff_run_end(rbsp_bytes@, 0) + 1) + 1 + sei_value(
                        rbsp_bytes@,
                        ff_run_end(rbsp_bytes@, 0) + 1,
                    ),
                ),
            ),
    {
        proof {
            lemma_ff_run_end(rbsp_bytes@, 0);
        }
        // The length of the bytes bounds the offsets below.
        let _rbsp_len = rbsp_bytes.len();
        let (payload_type, offset) = NALUnit::read_sei_value(rbsp_bytes, 0);
        let (payload_size, offset) = NALUnit::read_sei_value(rbsp_bytes, offset);
        let payload = vstd::slice::slice_subrange(
            rbsp_bytes,
            offset,
            offset + payload_size as usize,
        );
        let _ = NALUnit::parse_sei_payload(payload_type, payload);
    }

    /// The caption data of a registered user data payload (type 4), `None`
    /// for other payload types.
    fn parse_sei_payload(payload_type: u32, payload: &[u8]) -> (r: Option<&[u8]>)
        requires
            payload_type == 4 ==> t35_readable(payload@),
        ensures
            payload_type == 4 ==> match spec_t35(payload@) {
                Some(d) => r matches Some(v) && v@ == d,
                None => r is None,
            },
            payload_type != 4 ==> r is None,
    {
        match payload_type {
            4 => NALUnit::user_data_registered_itu_t_t35(payload),
            _ => None,
        }
    }

    /// The caption data of an ATSC A/53 registered user data payload.
    fn user_data_registered_itu_t_t35(payload: &[u8]) -> (r: Option<&[u8]>)
        requires
            t35_readable(payload@),
        ensures
            match spec_t35(payload@) {
                Some(d) => r matches Some(v) && v@ == d,
                None => r is None,
            },
    {
        // itu_t_t35_country_code: 181 (United States) for captions.
        if payload[0] != 181 {
            return None;
        }
        // itu_t_t35_provider_code: 49 (ATSC) for captions.
        let provider = match get_u16(payload, 1) {
            Ok(v) => v,
            Err(_) => 0,
        };
        if provider != 49 {
            return None;
        }
        // user_identifier: "GA94" for ATSC1 data.
        let identifier = match get_u32(payload, 3) {
            Ok(v) => v,
            Err(_) => 0,
        };
        if identifier != 0x47413934 {
            return None;
        }
        // user_data_type_code: 3 for caption data.
        if payload[7] != 0x3 {
            return None;
        }
        Some(vstd::slice::slice_subrange(payload, 8, payload.len() - 1))
    }
}

} // verus!

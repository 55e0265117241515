use vstd::prelude::*;
use vstd::string::StringExecFns;

pub mod nal_unit;

use crate::container::isobmff::push_be32;
use crate::error::error_code::{MajorCode, NalMinorCode};
use crate::error::{construct_error, CustomError};
use crate::util::{be32_bytes, extend_bytes};

verus! {

/// A NAL unit of an elementary stream with the times of the access unit it
/// came in.
#[derive(Clone)]
pub struct NalRep {
    pub nal_unit: Vec<u8>,
    pub dts: u64,
    pub pts: u64,
}

impl NalRep {
    /// The NAL unit in length-prefixed form: its length plus
    /// `nal_header_size` (low 32 bits) as a 32-bit big-endian prefix,
    /// then its bytes.
    pub fn from_annex_b(&self, nal_header_size: usize) -> (r: Vec<u8>)
        requires
            self.nal_unit@.len() + nal_header_size <= usize::MAX,
        ensures
            r@ == be32_bytes((self.nal_unit@.len() + nal_header_size) as u32) + self.nal_unit@,
    {
        let nal_size = self.nal_unit.len() + nal_header_size;
        let mut r: Vec<u8> = Vec::new();
        push_be32(&mut r, nal_size as u32);
        extend_bytes(&mut r, self.nal_unit.as_slice());
        r
    }
}

/// The NAL unit types the remuxer tells apart (ITU-T H.264, Table 7-1).
#[derive(Debug, PartialEq, Eq, Structural, Clone, Copy)]
pub enum NALType {
    Non_IDR_Picture,
    IDR_Picture,
    SEI,
    SPS,
    PPS,
    AUD,
}

/// The type of a `nal_unit_type` value, where it is one of those known.
pub open spec fn spec_nal_type(val: u8) -> Option<NALType> {
    if val == 1 {
        Some(NALType::Non_IDR_Picture)
    } else if val == 5 {
        Some(NALType::IDR_Picture)
    } else if val == 6 {
        Some(NALType::SEI)
    } else if val == 7 {
        Some(NALType::SPS)
    } else if val == 8 {
        Some(NALType::PPS)
    } else if val == 9 {
        Some(NALType::AUD)
    } else {
        None
    }
}

impl NALType {
    /// The `nal_unit_type` value of a type.
    pub open spec fn spec_value(&self) -> u8 {
        match self {
            NALType::Non_IDR_Picture => 1,
            NALType::IDR_Picture => 5,
            NALType::SEI => 6,
            NALType::SPS => 7,
            NALType::PPS => 8,
            NALType::AUD => 9,
        }
    }

    pub fn value(&self) -> (v: u8)
        ensures
            v == self.spec_value(),
    {
        match self {
            NALType::Non_IDR_Picture => 1,
            NALType::IDR_Picture => 5,
            NALType::SEI => 6,
            NALType::SPS => 7,
            NALType::PPS => 8,
            NALType::AUD => 9,
        }
    }

    pub fn get_type(val: u8) -> (r: Result<NALType, CustomError>)
        ensures
            match spec_nal_type(val) {
                Some(t) => r == Ok::<NALType, CustomError>(t),
                None => r matches Err(e) && e.major == MajorCode::NAL && e.minor == 2,
            },
    {
        match val {
            1 => Ok(NALType::Non_IDR_Picture),
            5 => Ok(NALType::IDR_Picture),
            6 => Ok(NALType::SEI),
            7 => Ok(NALType::SPS),
            8 => Ok(NALType::PPS),
            9 => Ok(NALType::AUD),
            _ => Err(
                construct_error(
                    MajorCode::NAL,
                    NalMinorCode::UKNOWN_NAL_UNIT_TYPE_ERROR,
                    String::from_str("NAL Type not supported"),
                ),
            ),
        }
    }
}

/// Reading a type back from its value gives the type, and reading a value
/// that names a type gives the value back.
pub proof fn lemma_nal_type_roundtrip(t: NALType, val: u8)
    ensures
        spec_nal_type(t.spec_value()) == Some(t),
        spec_nal_type(val) matches Some(u) ==> u.spec_value() == val,
{
}

} // verus!

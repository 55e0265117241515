use vstd::prelude::*;
use vstd::string::StringExecFns;

verus! {

/// The elementary stream types the remuxer knows (ISO/IEC 13818-1, Table 2-34).
#[derive(Debug, PartialEq, Eq, Structural, Clone, Copy)]
pub enum ElementaryStreamType {
    AAC,
    H_264,
    UNKNOWN,
}

/// The stream type of a stream type byte.
pub open spec fn spec_stream_type(value: u8) -> ElementaryStreamType {
    if value == 0xF {
        ElementaryStreamType::AAC
    } else if value == 0x1B {
        ElementaryStreamType::H_264
    } else {
        ElementaryStreamType::UNKNOWN
    }
}

impl ElementaryStreamType {
    /// The stream type byte of a stream type; 0 for an unknown one.
    pub open spec fn spec_value(&self) -> u8 {
        match self {
            ElementaryStreamType::AAC => 0xF,
            ElementaryStreamType::H_264 => 0x1B,
            ElementaryStreamType::UNKNOWN => 0x0,
        }
    }

    pub fn get_type(value: u8) -> (t: ElementaryStreamType)
        ensures
            t == spec_stream_type(value),
    {
        match value {
            0xF => ElementaryStreamType::AAC,
            0x1B => ElementaryStreamType::H_264,
            _ => ElementaryStreamType::UNKNOWN,
        }
    }

    pub fn get_value(&self) -> (v: u8)
        ensures
            v == self.spec_value(),
    {
        match self {
            ElementaryStreamType::AAC => 0xF,
            ElementaryStreamType::H_264 => 0x1B,
            ElementaryStreamType::UNKNOWN => 0x0,
        }
    }

    pub fn get_description(&self) -> (s: String)
        ensures
            s@ == match self {
                ElementaryStreamType::AAC => "ISO/IEC 13818-7 ADTS AAC (MPEG-2 lower bit-rate audio)"@,
                ElementaryStreamType::H_264 => "ITU-T Rec. H.264 and ISO/IEC 14496-10 (lower bit-rate video)"@,
                ElementaryStreamType::UNKNOWN => "Uknown type"@,
            },
    {
        match self {
            ElementaryStreamType::AAC => String::from_str(
                "ISO/IEC 13818-7 ADTS AAC (MPEG-2 lower bit-rate audio)",
            ),
            ElementaryStreamType::H_264 => String::from_str(
                "ITU-T Rec. H.264 and ISO/IEC 14496-10 (lower bit-rate video)",
            ),
            ElementaryStreamType::UNKNOWN => String::from_str("Uknown type"),
        }
    }
}

/// A known stream type maps back to the byte it was read from.
pub proof fn lemma_stream_type_value(value: u8)
    requires
        spec_stream_type(value) != ElementaryStreamType::UNKNOWN,
    ensures
        spec_stream_type(value).spec_value() == value,
{
}

} // verus!

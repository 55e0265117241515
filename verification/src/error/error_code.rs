use vstd::prelude::*;
use vstd::string::StringExecFns;

verus! {

/// A minor error code: a number within its major area and a fixed message.
pub trait MinorError {
    spec fn spec_code(&self) -> u8;

    /// The message of the code.
    spec fn spec_message(&self) -> Seq<char>;

    fn message(&self) -> (m: String)
        ensures
            m@ == self.spec_message(),
    ;

    fn code(&self) -> (c: u8)
        ensures
            c == self.spec_code(),
    ;
}

#[derive(Debug, PartialEq, Eq, Structural, Clone, Copy)]
pub enum MajorCode {
    ISOBMFF,
    TRANSPORT_STREAM,
    MANIFEST,
    UTIL,
    NAL,
    REMUX,
}

impl MajorCode {
    /// The number of the major area.
    pub open spec fn spec_value(&self) -> u8 {
        match self {
            MajorCode::ISOBMFF => 0,
            MajorCode::TRANSPORT_STREAM => 1,
            MajorCode::MANIFEST => 2,
            MajorCode::UTIL => 3,
            MajorCode::NAL => 4,
            MajorCode::REMUX => 5,
        }
    }

    pub fn value(&self) -> (v: u8)
        ensures
            v == self.spec_value(),
    {
        match self {
            MajorCode::ISOBMFF => 0,
            MajorCode::TRANSPORT_STREAM => 1,
            MajorCode::MANIFEST => 2,
            MajorCode::UTIL => 3,
            MajorCode::NAL => 4,
            MajorCode::REMUX => 5,
        }
    }
}

#[derive(Debug, PartialEq, Eq, Structural, Clone, Copy)]
pub enum ISOBMFFMinorCode {
    UNABLE_TO_FIND_BOX_ERROR,
    PARSE_BOX_ERROR,
}

#[derive(Debug, PartialEq, Eq, Structural, Clone, Copy)]
pub enum TransportStreamMinorCode {
    PARSE_TS_ERROR,
    UNSUPPORTED_ADTS_PARSING,
}

#[derive(Debug, PartialEq, Eq, Structural, Clone, Copy)]
pub enum UtilMinorCode {
    PARSING_UNSIGNED_ERROR,
    PARSING_BIT_READER_ERROR,
    INVALID_ISO_639_2_CODE_ERROR,
}

#[derive(Debug, PartialEq, Eq, Structural, Clone, Copy)]
pub enum NalMinorCode {
    UNEXPTED_NAL_UNIT_LENGTH_ERROR,
    BYTE_STREAM_MISSING_START_PREFIX_ERROR,
    UKNOWN_NAL_UNIT_TYPE_ERROR,
}

#[derive(Debug, PartialEq, Eq, Structural, Clone, Copy)]
pub enum RemuxMinorCode {
    MISSING_BUILDER_DEPENDENCY_ERROR,
    UNKNOWN_STREAM_TYPE,
}

impl MinorError for ISOBMFFMinorCode {
    open spec fn spec_code(&self) -> u8 {
        match self {
            ISOBMFFMinorCode::UNABLE_TO_FIND_BOX_ERROR => 0,
            ISOBMFFMinorCode::PARSE_BOX_ERROR => 1,
        }
    }

    open spec fn spec_message(&self) -> Seq<char> {
        match self {
            ISOBMFFMinorCode::UNABLE_TO_FIND_BOX_ERROR => "Unable to find box"@,
            ISOBMFFMinorCode::PARSE_BOX_ERROR => "Error parsing isobmff box"@,
        }
    }

    fn message(&self) -> (m: String) {
        match self {
            ISOBMFFMinorCode::UNABLE_TO_FIND_BOX_ERROR => String::from_str("Unable to find box"),
            ISOBMFFMinorCode::PARSE_BOX_ERROR => String::from_str("Error parsing isobmff box"),
        }
    }

    fn code(&self) -> (c: u8) {
        match self {
            ISOBMFFMinorCode::UNABLE_TO_FIND_BOX_ERROR => 0,
            ISOBMFFMinorCode::PARSE_BOX_ERROR => 1,
        }
    }
}

impl MinorError for TransportStreamMinorCode {
    open spec fn spec_code(&self) -> u8 {
        match self {
            TransportStreamMinorCode::PARSE_TS_ERROR => 0,
            TransportStreamMinorCode::UNSUPPORTED_ADTS_PARSING => 1,
        }
    }

    open spec fn spec_message(&self) -> Seq<char> {
        match self {
            TransportStreamMinorCode::PARSE_TS_ERROR => "Unable to parse transport stream"@,
            TransportStreamMinorCode::UNSUPPORTED_ADTS_PARSING => "Unable to parse audio data transport stream"@,
        }
    }

    fn message(&self) -> (m: String) {
        match self {
            TransportStreamMinorCode::PARSE_TS_ERROR => String::from_str(
                "Unable to parse transport stream",
            ),
            TransportStreamMinorCode::UNSUPPORTED_ADTS_PARSING => String::from_str(
                "Unable to parse audio data transport stream",
            ),
        }
    }

    fn code(&self) -> (c: u8) {
        match self {
            TransportStreamMinorCode::PARSE_TS_ERROR => 0,
            TransportStreamMinorCode::UNSUPPORTED_ADTS_PARSING => 1,
        }
    }
}

impl MinorError for UtilMinorCode {
    open spec fn spec_code(&self) -> u8 {
        match self {
            UtilMinorCode::PARSING_UNSIGNED_ERROR => 0,
            UtilMinorCode::PARSING_BIT_READER_ERROR => 1,
            UtilMinorCode::INVALID_ISO_639_2_CODE_ERROR => 2,
        }
    }

    open spec fn spec_message(&self) -> Seq<char> {
        match self {
            UtilMinorCode::PARSING_UNSIGNED_ERROR => "An error occurred attempting to parse and unsigned value"@,
            UtilMinorCode::PARSING_BIT_READER_ERROR => "An error occurred attempting to parse with the bit reader"@,
            UtilMinorCode::INVALID_ISO_639_2_CODE_ERROR => "An error occurred attempting to parse an iso_639_2 value"@,
        }
    }

    fn message(&self) -> (m: String) {
        match self {
            UtilMinorCode::PARSING_UNSIGNED_ERROR => String::from_str(
                "An error occurred attempting to parse and unsigned value",
            ),
            UtilMinorCode::PARSING_BIT_READER_ERROR => String::from_str(
                "An error occurred attempting to parse with the bit reader",
            ),
            UtilMinorCode::INVALID_ISO_639_2_CODE_ERROR => String::from_str(
                "An error occurred attempting to parse an iso_639_2 value",
            ),
        }
    }

    fn code(&self) -> (c: u8) {
        match self {
            UtilMinorCode::PARSING_UNSIGNED_ERROR => 0,
            UtilMinorCode::PARSING_BIT_READER_ERROR => 1,
            UtilMinorCode::INVALID_ISO_639_2_CODE_ERROR => 2,
        }
    }
}

impl MinorError for NalMinorCode {
    open spec fn spec_code(&self) -> u8 {
        match self {
            NalMinorCode::UNEXPTED_NAL_UNIT_LENGTH_ERROR => 0,
            NalMinorCode::BYTE_STREAM_MISSING_START_PREFIX_ERROR => 1,
            NalMinorCode::UKNOWN_NAL_UNIT_TYPE_ERROR => 2,
        }
    }

    open spec fn spec_message(&self) -> Seq<char> {
        match self {
            NalMinorCode::UNEXPTED_NAL_UNIT_LENGTH_ERROR => "Unexpected NAL unit length"@,
            NalMinorCode::BYTE_STREAM_MISSING_START_PREFIX_ERROR => "Byte stream is missing starting prefix of 0x00000001"@,
            NalMinorCode::UKNOWN_NAL_UNIT_TYPE_ERROR => "Uknown NAL Unit type"@,
        }
    }

    fn message(&self) -> (m: String) {
        match self {
            NalMinorCode::UNEXPTED_NAL_UNIT_LENGTH_ERROR => String::from_str(
                "Unexpected NAL unit length",
            ),
            NalMinorCode::BYTE_STREAM_MISSING_START_PREFIX_ERROR => String::from_str(
                "Byte stream is missing starting prefix of 0x00000001",
            ),
            NalMinorCode::UKNOWN_NAL_UNIT_TYPE_ERROR => String::from_str("Uknown NAL Unit type"),
        }
    }

    fn code(&self) -> (c: u8) {
        match self {
            NalMinorCode::UNEXPTED_NAL_UNIT_LENGTH_ERROR => 0,
            NalMinorCode::BYTE_STREAM_MISSING_START_PREFIX_ERROR => 1,
            NalMinorCode::UKNOWN_NAL_UNIT_TYPE_ERROR => 2,
        }
    }
}

impl MinorError for RemuxMinorCode {
    open spec fn spec_code(&self) -> u8 {
        match self {
            RemuxMinorCode::MISSING_BUILDER_DEPENDENCY_ERROR => 0,
            RemuxMinorCode::UNKNOWN_STREAM_TYPE => 1,
        }
    }

    open spec fn spec_message(&self) -> Seq<char> {
        match self {
            RemuxMinorCode::MISSING_BUILDER_DEPENDENCY_ERROR => "Missing a dependency required for the builder"@,
            RemuxMinorCode::UNKNOWN_STREAM_TYPE => "Uknown elementary stream type"@,
        }
    }

    fn message(&self) -> (m: String) {
        match self {
            RemuxMinorCode::MISSING_BUILDER_DEPENDENCY_ERROR => String::from_str(
                "Missing a dependency required for the builder",
            ),
            RemuxMinorCode::UNKNOWN_STREAM_TYPE => String::from_str("Uknown elementary stream type"),
        }
    }

    fn code(&self) -> (c: u8) {
        match self {
            RemuxMinorCode::MISSING_BUILDER_DEPENDENCY_ERROR => 0,
            RemuxMinorCode::UNKNOWN_STREAM_TYPE => 1,
        }
    }
}

} // verus!

use vstd::prelude::*;
use vstd::string::StringExecFns;

use crate::error::error_code::{MajorCode, TransportStreamMinorCode};
use crate::error::{construct_error, CustomError};
use crate::util::bit_reader::{bits_value, lemma_bits_value_bound, lemma_two_pow_64, BitReader};

verus! {

// Audio Data Transport Stream, ISO/IEC 13818-7; 6.2

/// The fixed and variable header of an ADTS frame.
#[derive(Debug, PartialEq, Eq, Structural)]
pub struct ADTSHeader {
    pub id_version: u8,
    pub profile: u8,
    pub sampling_frequency_index: u8,
    pub channel_configuration: u8,
    pub frame_length: u16,
    pub crc: Option<u16>,
}

/// An ADTS frame: its header, its raw data, and the presentation and
/// decode times of the PES packet it came in.
pub struct ADTSFrame {
    pub header: ADTSHeader,
    pub data: Vec<u8>,
    pub pts: u64,
    pub dts: u64,
}

#[derive(Debug)]
pub struct ADTS {
    pub id_version: u8,
    pub profile: u8,
    pub sampling_frequency_index: u8,
    pub channel_configuration: u8,
    pub crc: Option<u16>,
}

/// How a header failed to parse.
#[derive(Debug, PartialEq, Eq, Structural, Clone, Copy)]
pub enum AdtsHeaderError {
    /// The bytes ran out.
    Short,
    /// The syncword is missing.
    NoSyncword,
    /// The frame holds more than one raw data block.
    ManyBlocks,
}

/// The first sixteen bits: syncword, id, layer and protection_absent.
pub open spec fn adts_marker(s: Seq<u8>) -> u64 {
    bits_value(s, 0, 16) as u64
}

/// A CRC follows the header when protection_absent is 0.
pub open spec fn adts_crc_present(s: Seq<u8>) -> bool {
    adts_marker(s) & 0x1u64 == 0
}

/// The header that the bytes hold, or why there is none.
pub open spec fn spec_adts_header(s: Seq<u8>) -> Result<ADTSHeader, AdtsHeaderError> {
    if 8 * s.len() < 16 {
        Err(AdtsHeaderError::Short)
    } else if adts_marker(s) & 0xFFF0u64 != 0xFFF0u64 {
        Err(AdtsHeaderError::NoSyncword)
    } else if 8 * s.len() < 56 {
        Err(AdtsHeaderError::Short)
    } else if bits_value(s, 54, 2) > 0 {
        Err(AdtsHeaderError::ManyBlocks)
    } else if adts_crc_present(s) && 8 * s.len() < 72 {
        Err(AdtsHeaderError::Short)
    } else {
        Ok(
            ADTSHeader {
                id_version: ((adts_marker(s) & 0xFu64) & 0x8u64) as u8,
                profile: bits_value(s, 16, 2) as u8,
                sampling_frequency_index: bits_value(s, 18, 4) as u8,
                channel_configuration: bits_value(s, 23, 3) as u8,
                frame_length: bits_value(s, 30, 13) as u16,
                crc: if adts_crc_present(s) {
                    Some(bits_value(s, 56, 16) as u16)
                } else {
                    None
                },
            },
        )
    }
}

/// The frame walk ends without error: the bytes are empty, or the first
/// header parses and gives frame length 0.
pub open spec fn adts_walk_ok(s: Seq<u8>) -> bool {
    s.len() == 0 || (spec_adts_header(s) matches Ok(h) && h.frame_length == 0)
}

/// The inputs on which the frame walk cannot go on: a header with a
/// non-zero frame length that runs past the bytes, or whose frame holds a
/// header again.
pub open spec fn adts_walk_fails(s: Seq<u8>) -> bool {
    s.len() > 0 && match spec_adts_header(s) {
        Ok(h) => h.frame_length != 0 && (h.frame_length > s.len() || spec_adts_header(
            s.subrange(0, h.frame_length as int),
        ) is Ok),
        Err(_) => false,
    }
}

/// The third header byte: profile, sampling frequency index, private bit 0
/// and the high bit of the channel configuration.
pub open spec fn adts_byte2(profile: u8, sfi: u8, ch: u8) -> u8 {
    ((profile & 3u8) << 6u8) | ((sfi & 0xFu8) << 2u8) | ((ch >> 2u8) & 1u8)
}

/// The fourth header byte: the low two channel bits, the original, home and
/// copyright bits 0, and the top two bits of the frame length.
pub open spec fn adts_byte3(ch: u8, fl: u16) -> u8 {
    ((ch & 3u8) << 6u8) | (((fl >> 11u16) & 3u16) as u8)
}

/// The fifth header byte: bits 10..3 of the frame length.
pub open spec fn adts_byte4(fl: u16) -> u8 {
    ((fl >> 3u16) & 0xFFu16) as u8
}

/// The sixth header byte: the low three frame length bits and the top five
/// bits of the buffer fullness.
pub open spec fn adts_byte5(fl: u16, fullness: u16) -> u8 {
    (((fl & 7u16) << 5u16) | ((fullness >> 6u16) & 0x1Fu16)) as u8
}

/// The seventh header byte: the low six bits of the buffer fullness and no
/// raw data block beyond the first.
pub open spec fn adts_byte6(fullness: u16) -> u8 {
    ((fullness & 0x3Fu16) << 2u16) as u8
}

/// The seven bytes of an ADTS header without CRC (ISO/IEC 13818-7, 6.2):
/// the syncword, MPEG-4, layer 0, protection absent; then the profile,
/// sampling frequency index, channel configuration, frame length and
/// buffer fullness; one raw data block.
pub open spec fn adts_header_bytes(profile: u8, sfi: u8, ch: u8, fl: u16, fullness: u16) -> Seq<
    u8,
> {
    seq![
        0xFFu8,
        0xF1u8,
        adts_byte2(profile, sfi, ch),
        adts_byte3(ch, fl),
        adts_byte4(fl),
        adts_byte5(fl, fullness),
        adts_byte6(fullness),
    ]
}

/// The bits of the header bytes that the encoder writes, field by field,
/// most significant bit first.
proof fn lemma_adts_header_bits(
    b0: u8,
    b1: u8,
    b2: u8,
    b3: u8,
    b4: u8,
    b5: u8,
    b6: u8,
    profile: u8,
    sfi: u8,
    ch: u8,
    fl: u16,
    fullness: u16,
) by (bit_vector)
    requires
        b0 == 0xFFu8,
        b1 == 0xF1u8,
        b2 == adts_byte2(profile, sfi, ch),
        b3 == adts_byte3(ch, fl),
        b4 == adts_byte4(fl),
        b5 == adts_byte5(fl, fullness),
        b6 == adts_byte6(fullness),
        profile < 4,
        sfi < 16,
        ch < 8,
        fl < 8192,
        fullness < 2048,
    ensures
        (((b0 >> 7u8) & 1u8) as u64) * 32768 + (((b0 >> 6u8) & 1u8) as u64) * 16384 + (((b0 >> 5u8) & 1u8) as u64) * 8192 + (((b0 >> 4u8) & 1u8) as u64) * 4096 + (((b0 >> 3u8) & 1u8) as u64) * 2048 + (((b0 >> 2u8) & 1u8) as u64) * 1024 + (((b0 >> 1u8) & 1u8) as u64) * 512 + (((b0 >> 0u8) & 1u8) as u64) * 256 + (((b1 >> 7u8) & 1u8) as u64) * 128 + (((b1 >> 6u8) & 1u8) as u64) * 64 + (((b1 >> 5u8) & 1u8) as u64) * 32 + (((b1 >> 4u8) & 1u8) as u64) * 16 + (((b1 >> 3u8) & 1u8) as u64) * 8 + (((b1 >> 2u8) & 1u8) as u64) * 4 + (((b1 >> 1u8) & 1u8) as u64) * 2 + (((b1 >> 0u8) & 1u8) as u64) * 1 == 0xFFF1u64,
        (((b2 >> 7u8) & 1u8) as u64) * 2 + (((b2 >> 6u8) & 1u8) as u64) * 1 == profile as u64,
        (((b2 >> 5u8) & 1u8) as u64) * 8 + (((b2 >> 4u8) & 1u8) as u64) * 4 + (((b2 >> 3u8) & 1u8) as u64) * 2 + (((b2 >> 2u8) & 1u8) as u64) * 1 == sfi as u64,
        (((b2 >> 0u8) & 1u8) as u64) * 4 + (((b3 >> 7u8) & 1u8) as u64) * 2 + (((b3 >> 6u8) & 1u8) as u64) * 1 == ch as u64,
        (((b3 >> 1u8) & 1u8) as u64) * 4096 + (((b3 >> 0u8) & 1u8) as u64) * 2048 + (((b4 >> 7u8) & 1u8) as u64) * 1024 + (((b4 >> 6u8) & 1u8) as u64) * 512 + (((b4 >> 5u8) & 1u8) as u64) * 256 + (((b4 >> 4u8) & 1u8) as u64) * 128 + (((b4 >> 3u8) & 1u8) as u64) * 64 + (((b4 >> 2u8) & 1u8) as u64) * 32 + (((b4 >> 1u8) & 1u8) as u64) * 16 + (((b4 >> 0u8) & 1u8) as u64) * 8 + (((b5 >> 7u8) & 1u8) as u64) * 4 + (((b5 >> 6u8) & 1u8) as u64) * 2 + (((b5 >> 5u8) & 1u8) as u64) * 1 == fl as u64,
        (((b6 >> 1u8) & 1u8) as u64) * 2 + (((b6 >> 0u8) & 1u8) as u64) * 1 == 0u64,
        0xFFF1u64 & 0xFFF0u64 == 0xFFF0u64,
        0xFFF1u64 & 0x1u64 != 0,
        ((0xFFF1u64 & 0xFu64) & 0x8u64) as u8 == 0,
{
}

/// A header written with a profile, sampling frequency index, channel
/// configuration and frame length reads back each of them, with no CRC.
pub proof fn lemma_adts_header_roundtrip(profile: u8, sfi: u8, ch: u8, fl: u16, fullness: u16)
    requires
        profile < 4,
        sfi < 16,
        ch < 8,
        fl < 8192,
        fullness < 2048,
    ensures
        spec_adts_header(adts_header_bytes(profile, sfi, ch, fl, fullness)) == Ok::<
            ADTSHeader,
            AdtsHeaderError,
        >(
            ADTSHeader {
                id_version: 0,
                profile,
                sampling_frequency_index: sfi,
                channel_configuration: ch,
                frame_length: fl,
                crc: None,
            },
        ),
{
    let s = adts_header_bytes(profile, sfi, ch, fl, fullness);
    lemma_adts_header_bits(s[0], s[1], s[2], s[3], s[4], s[5], s[6], profile, sfi, ch, fl, fullness);
    reveal_with_fuel(bits_value, 17);
    assert(bits_value(s, 0, 16) == 0xFFF1);
    assert(bits_value(s, 16, 2) == profile);
    assert(bits_value(s, 18, 4) == sfi);
    assert(bits_value(s, 23, 3) == ch);
    assert(bits_value(s, 30, 13) == fl);
    assert(bits_value(s, 54, 2) == 0);
}

impl ADTS {
    /// Walks the ADTS frames of the bytes. No frame is kept: the result is
    /// empty when the bytes are empty or the first frame has length 0, and
    /// an error when a header cannot be parsed.
    pub fn parse(data: &[u8]) -> (r: Result<Vec<ADTSFrame>, CustomError>)
        requires
            !adts_walk_fails(data@),
        ensures
            r is Ok <==> adts_walk_ok(data@),
            r matches Ok(v) ==> v@.len() == 0,
    {
        let mut data_read = data;
        let mut index = 0usize;
        let ghost mut rounds: int = 0;
        while data_read.len() > 0
            invariant_except_break
                rounds == 0 ==> data_read@ == data@ && index == 0,
                rounds == 1 ==> (spec_adts_header(data@) matches Ok(h) && h.frame_length != 0
                    && index == h.frame_length && data_read@ == data@.subrange(0, index as int)),
                0 <= rounds <= 1,
                !adts_walk_fails(data@),
            ensures
                data@.len() == 0 || (spec_adts_header(data@) matches Ok(h) && h.frame_length == 0),
            decreases 1 - rounds,
        {
            let adts_header = ADTS::parse_adts_header(data_read)?;
            let start = index;
            proof {
                if rounds == 1 {
                    assert(spec_adts_header(data_read@) is Ok);
                    assert(adts_walk_fails(data@));
                }
            }
            let end = start + adts_header.frame_length as usize;
            data_read = &data_read[start..end];
            index = end;
            if end == 0 {
                assert(data_read@.len() == 0);
                break;
            }
            proof {
                rounds = rounds + 1;
            }
        }
        Ok(Vec::new())
    }

    fn header_error(minor: TransportStreamMinorCode, message: String) -> (e: CustomError)
        ensures
            e.major == MajorCode::TRANSPORT_STREAM,
            e.minor == match minor {
                TransportStreamMinorCode::PARSE_TS_ERROR => 0u8,
                TransportStreamMinorCode::UNSUPPORTED_ADTS_PARSING => 1u8,
            },
    {
        construct_error(MajorCode::TRANSPORT_STREAM, minor, message)
    }

    /// Parses the header of an ADTS frame.
    pub fn parse_adts_header(data: &[u8]) -> (r: Result<ADTSHeader, CustomError>)
        ensures
            match spec_adts_header(data@) {
                Ok(h) => r == Ok::<ADTSHeader, CustomError>(h),
                Err(AdtsHeaderError::Short) => r matches Err(e) && e.major == MajorCode::UTIL
                    && e.minor == 1,
                Err(AdtsHeaderError::NoSyncword) => r matches Err(e) && e.major
                    == MajorCode::TRANSPORT_STREAM && e.minor == 0,
                Err(AdtsHeaderError::ManyBlocks) => r matches Err(e) && e.major
                    == MajorCode::TRANSPORT_STREAM && e.minor == 1,
            },
    {
        let ghost s = data@;
        let mut bit_reader = BitReader::create_bit_reader(data);
        let starting_marker = bit_reader.read_bits(16)?;
        let has_start_marker = (starting_marker & 0xFFF0) == 0xFFF0;
        if !has_start_marker {
            return Err(
                ADTS::header_error(
                    TransportStreamMinorCode::PARSE_TS_ERROR,
                    String::from_str("Could not parse adts starting marker"),
                ),
            );
        }
        let temp = starting_marker & 0xF;
        let id_version = (temp & 0x8) as u8;
        let protection_absent = temp & 0x1 == 0;
        proof {
            assert((starting_marker & 0xFu64) & 0x1u64 == starting_marker & 0x1u64) by (bit_vector);
            assert((starting_marker & 0xFu64) & 0x8u64 <= 8) by (bit_vector);
        }
        let profile = bit_reader.read_bits(2)? as u8;
        let sampling_frequency_index = bit_reader.read_bits(4)? as u8;
        // The private bit.
        bit_reader.read_bits(1)?;
        let channel_configuration = bit_reader.read_bits(3)? as u8;
        // original_copy, home, copyright_identification_bit and
        // copyright_identification_start.
        bit_reader.read_bits(4)?;
        let frame_length = bit_reader.read_bits(13)? as u16;
        let _buffer_fullness = bit_reader.read_bits(11)?;
        let number_of_raw_data_blocks_in_frame = bit_reader.read_bits(2)?;
        proof {
            lemma_two_pow_64();
        }
        // Only one AAC frame per ADTS frame is supported.
        if number_of_raw_data_blocks_in_frame > 0 {
            return Err(
                ADTS::header_error(
                    TransportStreamMinorCode::UNSUPPORTED_ADTS_PARSING,
                    String::from_str(
                        "Could not parse because there is more than 1 aac frame in adtc frame. This is not supported in the current implementation.",
                    ),
                ),
            );
        }
        let mut crc: Option<u16> = None;
        if protection_absent {
            crc = Some(bit_reader.read_bits(16)? as u16);
        }
        Ok(
            ADTSHeader {
                id_version,
                profile,
                sampling_frequency_index,
                channel_configuration,
                frame_length,
                crc,
            },
        )
    }
}

} // verus!

use vstd::prelude::*;

use crate::error::error_code::MajorCode;
use crate::error::CustomError;
use crate::util::{get_u16, get_u8, read_u16};

verus! {

// AudioSpecificConfig, ISO/IEC 14496-3; 1.6.2.1

#[derive(Debug, PartialEq, Eq, Structural)]
pub struct AACAudioSpecificConfig {
    pub audio_object_type: u8,
    pub sampling_frequency_index: u8,
    pub sampling_frequency: Option<u32>,
    pub channel_configuration: u8,
}

/// The configuration held after the two bytes of a decoder specific
/// information descriptor's tag and size: five bits of object type, four
/// of sampling frequency index, four of channel configuration.
pub open spec fn spec_aac_config(s: Seq<u8>) -> AACAudioSpecificConfig {
    AACAudioSpecificConfig {
        audio_object_type: (s[2] & 0xF8u8) >> 3u8,
        sampling_frequency_index: ((read_u16(s, 2) & 0x780u16) >> 7u16) as u8,
        sampling_frequency: None,
        channel_configuration: ((read_u16(s, 2) & 0x78u16) >> 3u16) as u8,
    }
}

impl AACAudioSpecificConfig {
    /// Parses the audio specific configuration of a decoder specific
    /// information descriptor with a one-byte size.
    pub fn parse(data: &[u8]) -> (r: Result<AACAudioSpecificConfig, CustomError>)
        ensures
            r is Ok <==> data@.len() >= 4,
            r matches Ok(c) ==> c == spec_aac_config(data@),
            r matches Err(e) ==> e.major == MajorCode::UTIL && e.minor == 0,
    {
        let offset = 2usize;
        let temp = get_u8(data, offset)?;
        let audio_object_type = AACAudioSpecificConfig::get_audio_object_type(temp);
        let temp_16 = get_u16(data, offset)?;
        assert((temp_16 & 0x780u16) >> 7u16 <= 0xF && (temp_16 & 0x78u16) >> 3u16 <= 0xF)
            by (bit_vector);
        let sampling_frequency_index = ((temp_16 & 0x780) >> 7) as u8;
        // An explicit 24-bit sampling frequency (index 15) is not read.
        let sampling_frequency: Option<u32> = None;
        let channel_configuration = ((temp_16 & 0x78) >> 3) as u8;
        Ok(
            AACAudioSpecificConfig {
                audio_object_type,
                sampling_frequency_index,
                sampling_frequency,
                channel_configuration,
            },
        )
    }

    /// The five high bits of a byte.
    fn get_audio_object_type(data: u8) -> (t: u8)
        ensures
            t == (data & 0xF8u8) >> 3u8,
    {
        (data & 0xF8) >> 3
    }
}

pub struct AACAudioSpecificConfigBuilder {
    pub channel_count: u32,
    pub sampling_frequency_index: u32,
}

/// The two configuration bytes: object type 2 (AAC LC), then the sampling
/// frequency index and the channel count shifted into place.
pub open spec fn spec_aac_config_value(channel_count: u32, sampling_frequency_index: u32) -> u32 {
    0x1000u32 | ((((sampling_frequency_index << 4u32) | channel_count) << 3u32) as u32)
}

impl AACAudioSpecificConfigBuilder {
    /// A decoder specific information descriptor around the two bytes of
    /// configuration.
    pub open spec fn spec_build(&self) -> Seq<u8> {
        let v = spec_aac_config_value(self.channel_count, self.sampling_frequency_index);
        seq![0x05u8, 0x80, 0x80, 0x80, 0x02, (v >> 8u32) as u8, v as u8]
    }

    pub fn create_builder() -> (b: AACAudioSpecificConfigBuilder)
        ensures
            b.channel_count == 0,
            b.sampling_frequency_index == 0,
    {
        AACAudioSpecificConfigBuilder { channel_count: 0, sampling_frequency_index: 0 }
    }

    pub fn channel_count(self, channel_count: u32) -> (b: AACAudioSpecificConfigBuilder)
        ensures
            b == (AACAudioSpecificConfigBuilder { channel_count, ..self }),
    {
        AACAudioSpecificConfigBuilder { channel_count, ..self }
    }

    pub fn sampling_frequency_index(self, sampling_frequency_index: u32) -> (b:
        AACAudioSpecificConfigBuilder)
        ensures
            b == (AACAudioSpecificConfigBuilder { sampling_frequency_index, ..self }),
    {
        AACAudioSpecificConfigBuilder { sampling_frequency_index, ..self }
    }

    pub fn build(&self) -> (r: Vec<u8>)
        ensures
            r@ == self.spec_build(),
            r@.len() == 7,
    {
        let sample_and_channel: u32 = (self.sampling_frequency_index << 4u32) | self.channel_count;
        let mut result = 0x1000u32;
        result = result | (sample_and_channel << 3u32);
        let r = vec![
            // tag
            0x05,
            // size
            0x80, 0x80, 0x80, 0x02,
            // audioObjectType, samplingFrequencyIndex, channelConfiguration
            (result >> 8u32) as u8, result as u8,
        ];
        assert(r@ =~= self.spec_build());
        r
    }
}

/// The two configuration bytes a builder writes, framed with a one-byte
/// size, are read back as object type 2 (AAC LC) with the builder's
/// sampling frequency index and channel count, where both fit in four bits.
pub proof fn lemma_aac_config_roundtrip(b: AACAudioSpecificConfigBuilder)
    requires
        b.channel_count < 16,
        b.sampling_frequency_index < 16,
    ensures
        spec_aac_config(seq![0x05u8, 0x02, b.spec_build()[5], b.spec_build()[6]])
            == (AACAudioSpecificConfig {
            audio_object_type: 2,
            sampling_frequency_index: b.sampling_frequency_index as u8,
            sampling_frequency: None,
            channel_configuration: b.channel_count as u8,
        }),
{
    let cc = b.channel_count;
    let sfi = b.sampling_frequency_index;
    let v = spec_aac_config_value(cc, sfi);
    let hi = (v >> 8u32) as u8;
    let lo = v as u8;
    let d = seq![0x05u8, 0x02, hi, lo];
    assert(b.spec_build()[5] == hi && b.spec_build()[6] == lo);
    assert(read_u16(d, 2) == ((hi as u16) << 8u16) | (lo as u16));
    assert((hi & 0xF8u8) >> 3u8 == 2 && ((((((hi as u16) << 8u16) | (lo as u16)) & 0x780u16) >> 7u16)
        as u8) == sfi as u8 && ((((((hi as u16) << 8u16) | (lo as u16)) & 0x78u16) >> 3u16) as u8)
        == cc as u8) by (bit_vector)
        requires
            cc < 16,
            sfi < 16,
            v == 0x1000u32 | ((((sfi << 4u32) | cc) << 3u32) as u32),
            hi == (v >> 8u32) as u8,
            lo == v as u8,
    ;
}

} // verus!

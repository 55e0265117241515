use vstd::prelude::*;
use vstd::string::StringExecFns;

use crate::container::isobmff::descriptors::aac_audio_specific_config::{
    spec_aac_config, AACAudioSpecificConfig, AACAudioSpecificConfigBuilder,
};
use crate::container::isobmff::descriptors::{
    find_descriptor, lemma_find_descriptor_bounds, spec_find_descriptor, DescriptorTags,
};
use crate::container::remux::generate_error;
use crate::error::error_code::MajorCode;
use crate::error::CustomError;
use crate::util::{extend_bytes, read_u32, u32_at};

verus! {

// DecoderConfigDescriptor, ISO/IEC 14496-1; 7.2.6.6

#[derive(Debug)]
pub struct DecoderConfigDescriptor {
    pub object_type_indication: u8,
    pub stream_type: u8,
    pub upstream: bool,
    pub buffer_size_db: u32,
    pub max_bitrate: u32,
    pub avg_bitrate: u32,
    pub audio_sepcific_info: AACAudioSpecificConfig,
}

/// Where the decoder specific information descriptor lies: the first
/// one after the fixed fields.
pub open spec fn dcd_info(s: Seq<u8>) -> Option<(int, int)> {
    spec_find_descriptor(s, 0x05, 15)
}

/// The fixed fields can be read and a decoder specific information
/// descriptor with its configuration bytes follows them.
pub open spec fn dcd_parsable(s: Seq<u8>) -> bool {
    s.len() >= 15 && (dcd_info(s) matches Some((a, b)) && b - a >= 4)
}

/// The descriptor that a one-byte-size decoder configuration descriptor
/// holds.
pub open spec fn dcd_matches(d: DecoderConfigDescriptor, s: Seq<u8>) -> bool {
    &&& d.object_type_indication == s[2]
    &&& d.stream_type == (s[3] & 0xFCu8) >> 2u8
    &&& d.upstream == (s[3] & 0x2u8 != 0)
    &&& d.buffer_size_db == (s[4] as u32) << 16u32 | (s[5] as u32) << 8u32 | (s[6] as u32)
    &&& d.max_bitrate == read_u32(s, 7)
    &&& d.avg_bitrate == read_u32(s, 11)
    &&& d.audio_sepcific_info == spec_aac_config(s.subrange(dcd_info(s).unwrap().0, dcd_info(s).unwrap().1))
}

impl DecoderConfigDescriptor {
    /// Parses a decoder configuration descriptor whose size takes one byte.
    pub fn parse(data: &[u8]) -> (d: DecoderConfigDescriptor)
        requires
            dcd_parsable(data@),
        ensures
            dcd_matches(d, data@),
    {
        let mut start = 2usize;
        let object_type_indication = data[start];
        start = start + 1;
        let temp = data[start];
        let stream_type = (temp & 0xFC) >> 2;
        let upstream = (temp & 0x2) != 0;
        let buffer_size_db: u32 = ((data[4] as u32) << 16u32) | ((data[5] as u32) << 8u32) | (
        data[6] as u32);
        start = 7;
        let max_bitrate = u32_at(data, start);
        start = start + 4;
        let avg_bitrate = u32_at(data, start);
        let dec_info = find_descriptor(DescriptorTags::DEC_SPECIFIC_INFO, start + 4, data);
        proof {
            lemma_find_descriptor_bounds(data@, 0x05, 15);
        }
        let info = dec_info.unwrap();
        let audio_sepcific_info = AACAudioSpecificConfig::parse(info).unwrap();
        DecoderConfigDescriptor {
            object_type_indication,
            stream_type,
            upstream,
            buffer_size_db,
            max_bitrate,
            avg_bitrate,
            audio_sepcific_info,
        }
    }
}

pub struct DecoderConfigDescriptorBuilder {
    pub aac_audio_specific_config_builder: Option<AACAudioSpecificConfigBuilder>,
}

/// The fixed part of a decoder configuration descriptor for AAC audio:
/// tag, a size of 20, object type 0x40 (audio ISO/IEC 14496-3), stream
/// type audio, and a zero buffer size and bitrates.
pub open spec fn spec_dcd_head() -> Seq<u8> {
    seq![
        0x04u8, 0x80, 0x80, 0x80, 0x14, 0x40, 0x15, 0x00, 0x00, 0x00, 0x00, 0x00, 0x00, 0x00,
        0x00, 0x00, 0x00, 0x00,
    ]
}

impl DecoderConfigDescriptorBuilder {
    /// The fixed part, then the audio specific configuration; `None`
    /// without one.
    pub open spec fn spec_build(&self) -> Option<Seq<u8>> {
        match self.aac_audio_specific_config_builder {
            None => None,
            Some(a) => Some(spec_dcd_head() + a.spec_build()),
        }
    }

    pub fn create_builder() -> (b: DecoderConfigDescriptorBuilder)
        ensures
            b.aac_audio_specific_config_builder is None,
    {
        DecoderConfigDescriptorBuilder { aac_audio_specific_config_builder: None }
    }

    pub fn aac_audio_specific_config(self, aac_config_builder: AACAudioSpecificConfigBuilder) -> (b:
        DecoderConfigDescriptorBuilder)
        ensures
            b.aac_audio_specific_config_builder == Some(aac_config_builder),
    {
        DecoderConfigDescriptorBuilder { aac_audio_specific_config_builder: Some(aac_config_builder) }
    }

    pub fn build(&self) -> (r: Result<Vec<u8>, CustomError>)
        ensures
            match self.spec_build() {
                Some(b) => r matches Ok(v) && v@ == b && b.len() == 25,
                None => r matches Err(e) && e.major == MajorCode::REMUX,
            },
    {
        let aac_audio_specific_config = match &self.aac_audio_specific_config_builder {
            None => {
                return Err(
                    generate_error(
                        String::from_str(
                            "Missing aac_audio_specific_config for DecoderConfigDescriptorBuilder",
                        ),
                    ),
                );
            },
            Some(b) => b.build(),
        };
        let length: u8 = 13 + aac_audio_specific_config.len() as u8;
        let mut r = vec![
            // tag
            0x04,
            // size
            0x80, 0x80, 0x80, length,
            // objectTypeIndication
            0x40,
            // streamType (6 bits), upStream, reserved
            0x15,
            // bufferSizeDB
            0x00, 0x00, 0x00,
            // maxBitrate
            0x00, 0x00, 0x00, 0x00,
            // avgBitrate
            0x00, 0x00, 0x00, 0x00,
        ];
        assert(r@ =~= spec_dcd_head());
        extend_bytes(&mut r, aac_audio_specific_config.as_slice());
        Ok(r)
    }
}

} // verus!

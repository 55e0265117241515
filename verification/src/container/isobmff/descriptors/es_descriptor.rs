use vstd::prelude::*;
use vstd::string::StringExecFns;

use crate::container::isobmff::descriptors::dec_config_descriptor::{
    dcd_matches, dcd_parsable, DecoderConfigDescriptor, DecoderConfigDescriptorBuilder,
};
use crate::container::isobmff::descriptors::sl_config_descriptor::{
    spec_sl_config, SLConfigDescriptorBuilder,
};
use crate::container::isobmff::descriptors::{
    find_descriptor, lemma_find_descriptor_bounds, spec_find_descriptor, DescriptorTags,
};
use crate::container::isobmff::{make_box, spec_box};
use crate::container::remux::generate_error;
use crate::error::error_code::MajorCode;
use crate::error::CustomError;
use crate::util::{extend_bytes, read_u16, u16_at};

verus! {

// ES_Descriptor, ISO/IEC 14496-1; 7.2.6.5

#[derive(Debug)]
pub struct ESDescriptor {
    pub id: u16,
    pub stream_dependence_flag: bool,
    pub url_flag: bool,
    pub ocr_stream_flag: bool,
    pub stream_priority: u8,
    pub dec_config_descr: DecoderConfigDescriptor,
    pub depends_on_es_id: Option<u16>,
    pub url_length: Option<u8>,
    pub url_string: Option<String>,
}

/// Where the decoder configuration descriptor lies: the first one after
/// the id and the flags.
pub open spec fn esd_config(s: Seq<u8>) -> Option<(int, int)> {
    spec_find_descriptor(s, 0x04, 5)
}

/// The id and flags can be read and a decoder configuration descriptor
/// that can be parsed follows them.
pub open spec fn esd_parsable(s: Seq<u8>) -> bool {
    s.len() >= 5 && (esd_config(s) matches Some((a, b)) && dcd_parsable(s.subrange(a, b)))
}

/// The descriptor that a one-byte-size ES descriptor holds; the optional
/// fields are not read.
pub open spec fn esd_matches(d: ESDescriptor, s: Seq<u8>) -> bool {
    &&& d.id == read_u16(s, 2)
    &&& d.stream_dependence_flag == (s[4] & 0x80u8 != 0)
    &&& d.url_flag == (s[4] & 0x40u8 != 0)
    &&& d.ocr_stream_flag == (s[4] & 0x20u8 != 0)
    &&& d.stream_priority == s[4] & 0x1Fu8
    &&& dcd_matches(
        d.dec_config_descr,
        s.subrange(esd_config(s).unwrap().0, esd_config(s).unwrap().1),
    )
    &&& d.depends_on_es_id is None
    &&& d.url_length is None
    &&& d.url_string is None
}

impl ESDescriptor {
    /// Parses an ES descriptor whose size takes one byte.
    pub fn parse(data: &[u8]) -> (d: ESDescriptor)
        requires
            esd_parsable(data@),
        ensures
            esd_matches(d, data@),
    {
        let mut start = 2usize;
        let id = u16_at(data, start);
        start = start + 2;
        let flags = data[start];
        let stream_dependence_flag = (flags & 0x80) != 0;
        let url_flag = (flags & 0x40) != 0;
        let ocr_stream_flag = (flags & 0x20) != 0;
        let stream_priority = flags & 0x1F;
        proof {
            lemma_find_descriptor_bounds(data@, 0x04, 5);
        }
        let dec_desc = find_descriptor(DescriptorTags::DECODER_CONFIG_DESC, start + 1, data);
        let dec_config_descr = DecoderConfigDescriptor::parse(dec_desc.unwrap());
        ESDescriptor {
            id,
            stream_dependence_flag,
            url_flag,
            ocr_stream_flag,
            stream_priority,
            dec_config_descr,
            depends_on_es_id: None,
            url_length: None,
            url_string: None,
        }
    }
}

pub struct ESDescriptorBuidler {
    pub dec_conf_desc_builder: Option<DecoderConfigDescriptorBuilder>,
}

impl ESDescriptorBuidler {
    /// An elementary stream descriptor box: version 0, no flags, then the
    /// ES descriptor (id 0, no flags) around the decoder configuration and
    /// sync layer configuration descriptors; `None` without a decoder
    /// configuration.
    pub open spec fn spec_build(&self) -> Option<Seq<u8>> {
        match self.dec_conf_desc_builder {
            None => None,
            Some(d) => match d.spec_build() {
                None => None,
                Some(dcd) => Some(
                    spec_box(
                        seq![0x65u8, 0x73, 0x64, 0x73],
                        seq![0x00u8, 0x00, 0x00, 0x00, 0x03, 0x80, 0x80, 0x80, 0x1F, 0x00, 0x00, 0x00]
                            + dcd + spec_sl_config(),
                    ),
                ),
            },
        }
    }

    pub fn create_builder() -> (b: ESDescriptorBuidler)
        ensures
            b.dec_conf_desc_builder is None,
    {
        ESDescriptorBuidler { dec_conf_desc_builder: None }
    }

    pub fn dec_conf_desc(self, dec_conf_desc_builder: DecoderConfigDescriptorBuilder) -> (b:
        ESDescriptorBuidler)
        ensures
            b.dec_conf_desc_builder == Some(dec_conf_desc_builder),
    {
        ESDescriptorBuidler { dec_conf_desc_builder: Some(dec_conf_desc_builder) }
    }

    pub fn build(&self) -> (r: Result<Vec<u8>, CustomError>)
        ensures
            match self.spec_build() {
                Some(b) => r matches Ok(v) && v@ == b && b.len() == 51,
                None => r matches Err(e) && e.major == MajorCode::REMUX,
            },
    {
        let dec_conf_desc = match &self.dec_conf_desc_builder {
            None => {
                return Err(
                    generate_error(String::from_str("Missing dec_conf_desc for ESDescriptorBuidler")),
                );
            },
            Some(b) => b.build()?,
        };
        let sl_config_desc = SLConfigDescriptorBuilder::create_builder().build();
        let mut payload = vec![
            // version and flags
            0x00, 0x00, 0x00, 0x00,
            // ES_DescrTag
            0x03,
            // size
            0x80, 0x80, 0x80, (dec_conf_desc.len() + sl_config_desc.len()) as u8,
            // ES_ID
            0x00, 0x00,
            // streamDependenceFlag, URL_Flag, OCRstreamFlag, streamPriority
            0x00,
        ];
        assert(payload@ =~= seq![0x00u8, 0x00, 0x00, 0x00, 0x03, 0x80, 0x80, 0x80, 0x1F, 0x00, 0x00, 0x00]);
        extend_bytes(&mut payload, dec_conf_desc.as_slice());
        extend_bytes(&mut payload, sl_config_desc.as_slice());
        Ok(make_box([0x65, 0x73, 0x64, 0x73], payload.as_slice()))
    }
}

} // verus!

use vstd::prelude::*;
use vstd::string::StringExecFns;

use crate::container::isobmff::boxes::iso_box::{find_box, lemma_find_box_found, spec_find_box};
use crate::container::isobmff::configuration_records::avcC::{
    avcc_matches, AVCDecoderConfigurationRecord, AVCDecoderConfigurationRecordBuilder,
};
use crate::container::isobmff::sample_entry::sample_entry::{
    spec_sample_entry, SampleEntry, SampleEntryBuilder,
};
use crate::container::isobmff::sample_entry::visual_sample_entry::{
    visual_matches, visual_parsable, VisualSampleEntry, VisualSampleEntryBuilder,
};
use crate::container::isobmff::size_header;
use crate::container::remux::generate_error;
use crate::error::error_code::MajorCode;
use crate::error::CustomError;
use crate::util::{extend_bytes, low32_bytes, read_u16};

verus! {

// AVCSampleEntry, ISO/IEC 14496-15; 5.4.2.1

#[derive(Debug)]
pub struct AVCSampleEntry {
    pub sample_entry: SampleEntry,
    pub visual_sample_entry: VisualSampleEntry,
    pub config: AVCDecoderConfigurationRecord,
}

/// Where the configuration box lies: the first `avcC` box after the
/// visual fields.
pub open spec fn avc1_config(s: Seq<u8>) -> Option<(int, int)> {
    spec_find_box(s, seq![0x61u8, 0x76, 0x63, 0x43], 86)
}

/// The visual fields can be read and a configuration box with its fixed
/// fields follows them.
pub open spec fn avc1_parsable(s: Seq<u8>) -> bool {
    visual_parsable(s) && (avc1_config(s) matches Some((a, b)) && b - a >= 14)
}

impl AVCSampleEntry {
    /// Parses an `avc1` sample entry box.
    pub fn parse(data: &[u8]) -> (e: AVCSampleEntry)
        requires
            avc1_parsable(data@),
        ensures
            e.sample_entry.data_reference_index == read_u16(data@, 14),
            visual_matches(e.visual_sample_entry, data@),
            avcc_matches(
                e.config,
                data@.subrange(avc1_config(data@).unwrap().0, avc1_config(data@).unwrap().1),
            ),
    {
        let sample_entry = SampleEntry::parse(data);
        let (visual_sample_entry, offset) = VisualSampleEntry::parse(data);
        proof {
            lemma_find_box_found(data@, seq![0x61u8, 0x76, 0x63, 0x43], 86);
        }
        let avcc_data = find_box(&[0x61, 0x76, 0x63, 0x43], offset, data).unwrap();
        let avcC = AVCDecoderConfigurationRecord::parse(avcc_data);
        AVCSampleEntry { sample_entry, visual_sample_entry, config: avcC }
    }
}

pub struct AVCSampleEntryBuilder {
    pub sample_entry_builder: Option<SampleEntryBuilder>,
    pub visual_sample_entry_builder: Option<VisualSampleEntryBuilder>,
    pub avc_c_builder: Option<AVCDecoderConfigurationRecordBuilder>,
}

impl AVCSampleEntryBuilder {
    /// The `avc1` box around the sample entry fields, the visual fields and
    /// the configuration box, its size field counting 16 bytes beyond what
    /// it holds; `None` when a part is missing or its sequence parameter set
    /// does not parse.
    pub open spec fn spec_build(&self) -> Option<Seq<u8>> {
        match (self.sample_entry_builder, self.visual_sample_entry_builder, self.avc_c_builder) {
            (Some(_), Some(v), Some(c)) => match (v.spec_build(), c.spec_build()) {
                (Some(visual), Some(config)) => Some(
                    low32_bytes((24 + (spec_sample_entry() + visual + config).len()) as u64) + seq![
                        0x61u8,
                        0x76,
                        0x63,
                        0x31,
                    ] + spec_sample_entry() + visual + config,
                ),
                _ => None,
            },
            _ => None,
        }
    }

    /// The parts can be built and the box fits in `usize`.
    pub open spec fn buildable(&self) -> bool {
        &&& (self.visual_sample_entry_builder matches Some(v) ==> v.buildable())
        &&& (self.avc_c_builder matches Some(c) ==> c.buildable())
        &&& (self.spec_build() matches Some(b) ==> b.len() + 16 <= usize::MAX)
    }

    pub fn create_builder() -> (b: AVCSampleEntryBuilder)
        ensures
            b.sample_entry_builder is None,
            b.visual_sample_entry_builder is None,
            b.avc_c_builder is None,
    {
        AVCSampleEntryBuilder {
            sample_entry_builder: None,
            visual_sample_entry_builder: None,
            avc_c_builder: None,
        }
    }

    pub fn sample_entry(self, sample_entry_builder: SampleEntryBuilder) -> (b: AVCSampleEntryBuilder)
        ensures
            b == (AVCSampleEntryBuilder { sample_entry_builder: Some(sample_entry_builder), ..self }),
    {
        AVCSampleEntryBuilder { sample_entry_builder: Some(sample_entry_builder), ..self }
    }

    pub fn visual_sample_entry(self, visual_sample_entry_builder: VisualSampleEntryBuilder) -> (b:
        AVCSampleEntryBuilder)
        ensures
            b == (AVCSampleEntryBuilder {
                visual_sample_entry_builder: Some(visual_sample_entry_builder),
                ..self
            }),
    {
        AVCSampleEntryBuilder {
            visual_sample_entry_builder: Some(visual_sample_entry_builder),
            ..self
        }
    }

    pub fn avc_c(self, avc_c_builder: AVCDecoderConfigurationRecordBuilder) -> (b:
        AVCSampleEntryBuilder)
        ensures
            b == (AVCSampleEntryBuilder { avc_c_builder: Some(avc_c_builder), ..self }),
    {
        AVCSampleEntryBuilder { avc_c_builder: Some(avc_c_builder), ..self }
    }

    pub fn build(self) -> (r: Result<Vec<u8>, CustomError>)
        requires
            self.buildable(),
        ensures
            match self.spec_build() {
                Some(b) => r matches Ok(v) && v@ == b,
                None => r is Err,
            },
    {
        let sample_entry = match &self.sample_entry_builder {
            None => {
                return Err(
                    generate_error(
                        String::from_str("Missing sample_entry_builder for AVCSampleEntryBuilder"),
                    ),
                );
            },
            Some(b) => b.build(),
        };
        let visual_sample_entry = match &self.visual_sample_entry_builder {
            None => {
                return Err(
                    generate_error(
                        String::from_str(
                            "Missing visual_sample_entry_builder for AVCSampleEntryBuilder",
                        ),
                    ),
                );
            },
            Some(b) => b.build()?,
        };
        let avc_c = match self.avc_c_builder {
            None => {
                return Err(
                    generate_error(String::from_str("Missing avcC_builder for AVCSampleEntryBuilder")),
                );
            },
            Some(b) => b.build()?,
        };
        let mut payload = sample_entry;
        extend_bytes(&mut payload, visual_sample_entry.as_slice());
        extend_bytes(&mut payload, avc_c.as_slice());
        let mut avc1 = size_header(24 + payload.len());
        extend_bytes(&mut avc1, &[0x61, 0x76, 0x63, 0x31]);
        extend_bytes(&mut avc1, payload.as_slice());
        Ok(avc1)
    }
}

} // verus!

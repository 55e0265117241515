use vstd::prelude::*;
use vstd::string::StringExecFns;

use crate::container::isobmff::boxes::iso_box::{find_box, lemma_find_box_found, spec_find_box};
use crate::container::isobmff::descriptors::es_descriptor::{
    esd_matches, esd_parsable, ESDescriptor, ESDescriptorBuidler,
};
use crate::container::isobmff::descriptors::{
    find_descriptor, lemma_find_descriptor_bounds, spec_find_descriptor, DescriptorTags,
};
use crate::container::isobmff::sample_entry::audio_sample_entry::{
    AudioSampleEntry, AudioSampleEntryBuilder,
};
use crate::container::isobmff::sample_entry::sample_entry::{
    spec_sample_entry, SampleEntry, SampleEntryBuilder,
};
use crate::container::isobmff::{make_box, spec_box, BoxBuilder};
use crate::container::remux::generate_error;
use crate::error::error_code::MajorCode;
use crate::error::CustomError;
use crate::util::{be32_bytes, be_u16, extend_bytes, lemma_be32_roundtrip, read_u16, read_u32};

verus! {

// MP4AudioSampleEntry, ISO/IEC 14496-14; 6.7

#[derive(Debug)]
pub struct MP4ASampleEntry {
    pub sample_entry: SampleEntry,
    pub audio_sample_entry: AudioSampleEntry,
    pub es_descriptor: ESDescriptor,
}

/// The bytes of the first `esds` box after the audio fields.
pub open spec fn mp4a_esds(s: Seq<u8>) -> Seq<u8> {
    let (a, b) = spec_find_box(s, seq![0x65u8, 0x73, 0x64, 0x73], 36).unwrap();
    s.subrange(a, b)
}

/// The bytes of the ES descriptor of the `esds` box.
pub open spec fn mp4a_es_descriptor(s: Seq<u8>) -> Seq<u8> {
    let esds = mp4a_esds(s);
    let (c, d) = spec_find_descriptor(esds, 0x03, 12).unwrap();
    esds.subrange(c, d)
}

/// The audio fields can be read, and an `esds` box follows them whose ES
/// descriptor can be parsed.
pub open spec fn mp4a_parsable(s: Seq<u8>) -> bool {
    &&& s.len() >= 36
    &&& spec_find_box(s, seq![0x65u8, 0x73, 0x64, 0x73], 36) is Some
    &&& spec_find_descriptor(mp4a_esds(s), 0x03, 12) is Some
    &&& esd_parsable(mp4a_es_descriptor(s))
}

/// What an `mp4a` sample entry builder writes, the sample entry and audio
/// sample entry readers read back: data reference index 1, the channel
/// count (its low 16 bits) and sample size 16; the sample rate field the
/// builder writes as a plain number, while the reader takes it as 16.16
/// fixed point, so what is read back is the rate shifted right by 16.
pub proof fn lemma_mp4a_fields_roundtrip(b: MP4ASampleEntryBuilder)
    requires
        b.spec_build() is Some,
    ensures
        ({
            let s = b.spec_build().unwrap();
            let a = b.audio_sample_entry_builder.unwrap();
            &&& s.len() >= 36
            &&& read_u16(s, 14) == 1
            &&& read_u16(s, 24) == a.channel_count as u16
            &&& read_u16(s, 26) == 16
            &&& read_u32(s, 32) >> 16u32 == a.sample_rate >> 16u32
        }),
{
    let s = b.spec_build().unwrap();
    let a = b.audio_sample_entry_builder.unwrap();
    let esds = b.es_descriptor_builder.unwrap().spec_build().unwrap();
    let payload = spec_sample_entry() + a.spec_build() + esds;
    assert(s == spec_box(seq![0x61u8, 0x76, 0x63, 0x31], payload));
    assert(s.len() == 8 + payload.len());
    assert(payload.len() >= 28);
    assert(s[14] == 0 && s[15] == 1);
    assert(be_u16(0, 1) == 1) by (bit_vector);
    let cc = a.channel_count;
    assert(s[24] == (cc >> 8u32) as u8 && s[25] == cc as u8);
    assert(be_u16((cc >> 8u32) as u8, cc as u8) == cc as u16) by (bit_vector);
    assert(s[26] == 0 && s[27] == 0x10);
    assert(be_u16(0, 0x10) == 16) by (bit_vector);
    assert(s.subrange(32, 36) =~= be32_bytes(a.sample_rate));
    lemma_be32_roundtrip(a.sample_rate);
    assert(read_u32(s, 32) == read_u32(s.subrange(32, 36), 0));
}

impl MP4ASampleEntry {
    /// Parses an `mp4a` sample entry box.
    pub fn parse(data: &[u8]) -> (e: MP4ASampleEntry)
        requires
            mp4a_parsable(data@),
        ensures
            e.sample_entry.data_reference_index == read_u16(data@, 14),
            e.audio_sample_entry.channel_count == read_u16(data@, 24),
            e.audio_sample_entry.sample_size == read_u16(data@, 26),
            e.audio_sample_entry.sample_rate == read_u32(data@, 32) >> 16u32,
            esd_matches(e.es_descriptor, mp4a_es_descriptor(data@)),
    {
        let sample_entry = SampleEntry::parse(data);
        let (audio_sample_entry, offset) = AudioSampleEntry::parse(data);
        proof {
            lemma_find_box_found(data@, seq![0x65u8, 0x73, 0x64, 0x73], 36);
        }
        let esds_data = find_box(&[0x65, 0x73, 0x64, 0x73], offset, data).unwrap();
        let es_data = find_descriptor(DescriptorTags::ES_DESC, 12, esds_data).unwrap();
        let es_descriptor = ESDescriptor::parse(es_data);
        MP4ASampleEntry { sample_entry, audio_sample_entry, es_descriptor }
    }
}

pub struct MP4ASampleEntryBuilder {
    pub sample_entry_builder: Option<SampleEntryBuilder>,
    pub audio_sample_entry_builder: Option<AudioSampleEntryBuilder>,
    pub es_descriptor_builder: Option<ESDescriptorBuidler>,
}

impl MP4ASampleEntryBuilder {
    /// The box around the sample entry fields, the audio fields and the
    /// elementary stream descriptor box, typed `avc1` as this builder has
    /// always written it; `None` when a part is missing.
    pub open spec fn spec_build(&self) -> Option<Seq<u8>> {
        match (self.sample_entry_builder, self.audio_sample_entry_builder, self.es_descriptor_builder) {
            (Some(_), Some(a), Some(e)) => match e.spec_build() {
                Some(esds) => Some(
                    spec_box(
                        seq![0x61u8, 0x76, 0x63, 0x31],
                        spec_sample_entry() + a.spec_build() + esds,
                    ),
                ),
                None => None,
            },
            _ => None,
        }
    }

    pub fn create_builder() -> (b: MP4ASampleEntryBuilder)
        ensures
            b.sample_entry_builder is None,
            b.audio_sample_entry_builder is None,
            b.es_descriptor_builder is None,
    {
        MP4ASampleEntryBuilder {
            sample_entry_builder: None,
            audio_sample_entry_builder: None,
            es_descriptor_builder: None,
        }
    }

    pub fn sample_entry(self, sample_entry_builder: SampleEntryBuilder) -> (b: MP4ASampleEntryBuilder)
        ensures
            b == (MP4ASampleEntryBuilder { sample_entry_builder: Some(sample_entry_builder), ..self }),
    {
        MP4ASampleEntryBuilder { sample_entry_builder: Some(sample_entry_builder), ..self }
    }

    pub fn audio_sample_entry(self, audio_sample_entry_builder: AudioSampleEntryBuilder) -> (b:
        MP4ASampleEntryBuilder)
        ensures
            b == (MP4ASampleEntryBuilder {
                audio_sample_entry_builder: Some(audio_sample_entry_builder),
                ..self
            }),
    {
        MP4ASampleEntryBuilder { audio_sample_entry_builder: Some(audio_sample_entry_builder), ..self }
    }

    pub fn esds(self, esds_builder: ESDescriptorBuidler) -> (b: MP4ASampleEntryBuilder)
        ensures
            b == (MP4ASampleEntryBuilder { es_descriptor_builder: Some(esds_builder), ..self }),
    {
        MP4ASampleEntryBuilder { es_descriptor_builder: Some(esds_builder), ..self }
    }
}

impl BoxBuilder for MP4ASampleEntryBuilder {
    fn build(&self) -> (r: Result<Vec<u8>, CustomError>)
        ensures
            match self.spec_build() {
                Some(b) => r matches Ok(v) && v@ == b && b.len() == 87,
                None => r matches Err(e) && e.major == MajorCode::REMUX,
            },
    {
        let sample_entry = match &self.sample_entry_builder {
            None => {
                return Err(
                    generate_error(
                        String::from_str("Missing sample_entry_builder for MP4ASampleEntryBuilder"),
                    ),
                );
            },
            Some(b) => b.build(),
        };
        let audio_sample_entry = match &self.audio_sample_entry_builder {
            None => {
                return Err(
                    generate_error(
                        String::from_str(
                            "Missing audio_sample_entry_builder for MP4ASampleEntryBuilder",
                        ),
                    ),
                );
            },
            Some(b) => b.build(),
        };
        let esds = match &self.es_descriptor_builder {
            None => {
                return Err(
                    generate_error(String::from_str("Missing avcC_builder for MP4ASampleEntryBuilder")),
                );
            },
            Some(b) => b.build()?,
        };
        let mut payload = sample_entry;
        extend_bytes(&mut payload, audio_sample_entry.as_slice());
        extend_bytes(&mut payload, esds.as_slice());
        Ok(make_box([0x61, 0x76, 0x63, 0x31], payload.as_slice()))
    }
}

} // verus!

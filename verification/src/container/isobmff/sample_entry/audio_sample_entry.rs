use vstd::prelude::*;

use crate::util::{be32_bytes, read_u16, read_u32, u16_at, u32_at};

verus! {

// AudioSampleEntry 14496-12; 12.2.3

#[derive(Debug)]
pub struct AudioSampleEntry {
    pub channel_count: u16,
    pub sample_size: u16,
    pub sample_rate: u32,
}

impl AudioSampleEntry {
    /// Reads the audio fields of a sample entry box, and gives where the
    /// boxes after them start.
    pub fn parse(data: &[u8]) -> (r: (AudioSampleEntry, usize))
        requires
            data@.len() >= 36,
        ensures
            r.0.channel_count == read_u16(data@, 24),
            r.0.sample_size == read_u16(data@, 26),
            r.0.sample_rate == read_u32(data@, 32) >> 16u32,
            r.1 == 36,
    {
        let offset = 24usize;
        let mut start = offset;
        let channel_count = u16_at(data, start);
        start = start + 2;
        let sample_size = u16_at(data, start);
        start = start + 6;
        let sample_rate = u32_at(data, start) >> 16u32;
        (AudioSampleEntry { channel_count, sample_size, sample_rate }, start + 4)
    }
}

#[derive(Debug)]
pub struct AudioSampleEntryBuilder {
    pub channel_count: u32,
    pub sample_rate: u32,
}

impl AudioSampleEntryBuilder {
    /// Two reserved words, the channel count (its low 16 bits), sample
    /// size 16, two reserved 16-bit words, then the sample rate.
    pub open spec fn spec_build(&self) -> Seq<u8> {
        seq![
            0x00u8, 0x00, 0x00, 0x00, 0x00, 0x00, 0x00, 0x00,
            (self.channel_count >> 8u32) as u8, self.channel_count as u8,
            0x00, 0x10, 0x00, 0x00, 0x00, 0x00,
        ] + be32_bytes(self.sample_rate)
    }

    pub fn create_builder() -> (b: AudioSampleEntryBuilder)
        ensures
            b.channel_count == 0,
            b.sample_rate == 0,
    {
        AudioSampleEntryBuilder { channel_count: 0, sample_rate: 0 }
    }

    pub fn channel_count(self, channel_count: u32) -> (b: AudioSampleEntryBuilder)
        ensures
            b == (AudioSampleEntryBuilder { channel_count, ..self }),
    {
        AudioSampleEntryBuilder { channel_count, ..self }
    }

    pub fn sample_rate(self, sample_rate: u32) -> (b: AudioSampleEntryBuilder)
        ensures
            b == (AudioSampleEntryBuilder { sample_rate, ..self }),
    {
        AudioSampleEntryBuilder { sample_rate, ..self }
    }

    pub fn build(&self) -> (r: Vec<u8>)
        ensures
            r@ == self.spec_build(),
            r@.len() == 20,
    {
        let r = vec![
            // reserved
            0x00, 0x00, 0x00, 0x00,
            0x00, 0x00, 0x00, 0x00,
            // channelcount
            (self.channel_count >> 8u32) as u8, self.channel_count as u8,
            // samplesize
            0x00, 0x10,
            // pre_defined
            0x00, 0x00,
            // reserved
            0x00, 0x00,
            // samplerate
            (self.sample_rate >> 24u32) as u8, (self.sample_rate >> 16u32) as u8,
            (self.sample_rate >> 8u32) as u8, self.sample_rate as u8,
        ];
        assert(r@ =~= self.spec_build());
        r
    }
}

} // verus!

use vstd::prelude::*;

use crate::container::isobmff::{make_box, spec_box};
use crate::container::transport_stream::adts::ADTSFrame;
use crate::container::writer::mp4_writer::SampleInfo;
use crate::error::CustomError;
use crate::util::extend_bytes;

verus! {

// MediaDataBox 14496-12; 8.1.1

pub struct MDATBuilder {
    pub media_data: Vec<u8>,
}

/// The data of the samples, one after the other.
pub open spec fn spec_merge_samples(samples: Seq<SampleInfo>) -> Seq<u8>
    decreases samples.len(),
{
    if samples.len() == 0 {
        Seq::empty()
    } else {
        spec_merge_samples(samples.drop_last()) + samples.last().data@
    }
}

/// The data of the frames, one after the other.
pub open spec fn spec_merge_frames(frames: Seq<ADTSFrame>) -> Seq<u8>
    decreases frames.len(),
{
    if frames.len() == 0 {
        Seq::empty()
    } else {
        spec_merge_frames(frames.drop_last()) + frames.last().data@
    }
}

/// The data of each sample is part of the merged data.
pub proof fn lemma_merge_samples_len(samples: Seq<SampleInfo>, i: int)
    requires
        0 <= i < samples.len(),
    ensures
        samples[i].data@.len() <= spec_merge_samples(samples).len(),
    decreases samples.len(),
{
    if i < samples.len() - 1 {
        lemma_merge_samples_len(samples.drop_last(), i);
    }
}

impl MDATBuilder {
    /// The box around the media data.
    pub open spec fn spec_build(&self) -> Seq<u8> {
        spec_box(seq![0x6Du8, 0x64, 0x61, 0x74], self.media_data@)
    }

    pub fn create_builder() -> (b: MDATBuilder)
        ensures
            b.media_data@.len() == 0,
    {
        MDATBuilder { media_data: Vec::new() }
    }

    pub fn media_data(self, media_data: Vec<u8>) -> (b: MDATBuilder)
        ensures
            b.media_data == media_data,
    {
        MDATBuilder { media_data }
    }

    pub fn build(self) -> (r: Result<Vec<u8>, CustomError>)
        requires
            8 + self.media_data@.len() <= usize::MAX,
        ensures
            r matches Ok(v) && v@ == self.spec_build(),
    {
        Ok(make_box([0x6D, 0x64, 0x61, 0x74], self.media_data.as_slice()))
    }

    /// The data of all samples, in order.
    pub fn merge_samples(samples: Vec<SampleInfo>) -> (r: Vec<u8>)
        ensures
            r@ == spec_merge_samples(samples@),
    {
        MDATBuilder::merge_sample_refs(&samples)
    }

    /// The data of all samples, in order, leaving the samples in place.
    pub(crate) fn merge_sample_refs(samples: &Vec<SampleInfo>) -> (r: Vec<u8>)
        ensures
            r@ == spec_merge_samples(samples@),
    {
        let mut sample_stream: Vec<u8> = Vec::new();
        let mut i: usize = 0;
        while i < samples.len()
            invariant
                i <= samples@.len(),
                sample_stream@ == spec_merge_samples(samples@.subrange(0, i as int)),
            decreases samples@.len() - i,
        {
            extend_bytes(&mut sample_stream, samples[i].data.as_slice());
            proof {
                let pre = samples@.subrange(0, i + 1);
                assert(pre.drop_last() =~= samples@.subrange(0, i as int));
            }
            i = i + 1;
        }
        assert(samples@.subrange(0, samples@.len() as int) =~= samples@);
        sample_stream
    }

    /// The data of all ADTS frames, in order.
    pub fn convert_adts_frames(adts_frames: Vec<ADTSFrame>) -> (r: Vec<u8>)
        ensures
            r@ == spec_merge_frames(adts_frames@),
    {
        let mut adts_stream: Vec<u8> = Vec::new();
        let mut i: usize = 0;
        while i < adts_frames.len()
            invariant
                i <= adts_frames@.len(),
                adts_stream@ == spec_merge_frames(adts_frames@.subrange(0, i as int)),
            decreases adts_frames@.len() - i,
        {
            extend_bytes(&mut adts_stream, adts_frames[i].data.as_slice());
            proof {
                let pre = adts_frames@.subrange(0, i + 1);
                assert(pre.drop_last() =~= adts_frames@.subrange(0, i as int));
            }
            i = i + 1;
        }
        assert(adts_frames@.subrange(0, adts_frames@.len() as int) =~= adts_frames@);
        adts_stream
    }
}

} // verus!

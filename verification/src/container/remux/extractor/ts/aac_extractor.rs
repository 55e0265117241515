use vstd::prelude::*;

use crate::container::isobmff::boxes::mdat::{spec_merge_frames, spec_merge_samples};
use crate::container::isobmff::descriptors::aac_audio_specific_config::AACAudioSpecificConfigBuilder;
use crate::container::isobmff::descriptors::dec_config_descriptor::DecoderConfigDescriptorBuilder;
use crate::container::isobmff::descriptors::es_descriptor::ESDescriptorBuidler;
use crate::container::isobmff::sample_entry::audio_sample_entry::AudioSampleEntryBuilder;
use crate::container::isobmff::sample_entry::mp4a_sample_entry::MP4ASampleEntryBuilder;
use crate::container::isobmff::sample_entry::sample_entry::SampleEntryBuilder;
use crate::container::isobmff::{BoxBuilder, HandlerType};
use crate::container::remux::extractor::TSExtractor;
use crate::container::remux::{map_sample_frequency_index, spec_sample_frequency};
use crate::container::transport_stream::adts::{
    adts_walk_fails, adts_walk_ok, ADTSFrame, ADTSHeader, ADTS,
};
use crate::container::transport_stream::pes_packet::PESPacket;
use crate::container::writer::mp4_writer::{Mp4Writer, SampleInfo};
use crate::error::CustomError;
use crate::util::extend_bytes;

verus! {

/// Gathers the ADTS frames of an AAC elementary stream.
pub struct AACExtractor {
    /// The ADTS bytes of the PES packets since the last timestamp.
    pub bucket: Vec<u8>,
    pub current_pts: u64,
    pub current_dts: u64,
    /// The frames gathered so far.
    pub adts_frames: Vec<ADTSFrame>,
    /// The sampling frequency index of the last frame flushed.
    pub sample_frequency_index: Option<u8>,
}

/// The frames, each with the given presentation and decode times.
pub open spec fn stamped_frames(frames: Seq<ADTSFrame>, pts: u64, dts: u64) -> Seq<ADTSFrame> {
    frames.map_values(|f: ADTSFrame| ADTSFrame { pts, dts, ..f })
}

/// The builder of the sample entry of an AAC stream whose frames have the
/// header `h`: an `mp4a` entry with the channel count and sampling rate of
/// the header, and an ES descriptor that carries its audio specific config.
pub open spec fn aac_sample_entry_builder(h: ADTSHeader) -> MP4ASampleEntryBuilder {
    MP4ASampleEntryBuilder {
        sample_entry_builder: Some(SampleEntryBuilder {  }),
        audio_sample_entry_builder: Some(
            AudioSampleEntryBuilder {
                channel_count: h.channel_configuration as u32,
                sample_rate: spec_sample_frequency(h.sampling_frequency_index),
            },
        ),
        es_descriptor_builder: Some(
            ESDescriptorBuidler {
                dec_conf_desc_builder: Some(
                    DecoderConfigDescriptorBuilder {
                        aac_audio_specific_config_builder: Some(
                            AACAudioSpecificConfigBuilder {
                                channel_count: h.channel_configuration as u32,
                                sampling_frequency_index: h.sampling_frequency_index as u32,
                            },
                        ),
                    },
                ),
            },
        ),
    }
}

/// The sample carries the frame: its times and its data, with no flags and
/// no duration of its own.
pub open spec fn sample_of_frame(f: ADTSFrame, s: SampleInfo) -> bool {
    &&& s.dts == f.dts
    &&& s.pts == f.pts
    &&& s.data@ == f.data@
    &&& s.sample_flags is None
    &&& s.sample_duration is None
}

/// Samples that carry frames, one for one, hold the data of the frames.
pub proof fn lemma_merge_frames_samples(frames: Seq<ADTSFrame>, samples: Seq<SampleInfo>)
    requires
        frames.len() == samples.len(),
        forall|i: int| 0 <= i < frames.len() ==> sample_of_frame(frames[i], #[trigger] samples[i]),
    ensures
        spec_merge_samples(samples) == spec_merge_frames(frames),
    decreases frames.len(),
{
    if frames.len() > 0 {
        lemma_merge_frames_samples(frames.drop_last(), samples.drop_last());
    }
}

impl AACExtractor {
    /// The timescale: the sampling frequency of the last frame flushed, 0
    /// before any.
    pub open spec fn spec_timescale(&self) -> u32 {
        match self.sample_frequency_index {
            Some(x) => spec_sample_frequency(x),
            None => 0,
        }
    }

    /// The sample entry: built of the header of the first frame, empty
    /// while there is none.
    pub open spec fn spec_sample_entry(&self) -> Seq<u8> {
        if self.adts_frames@.len() > 0 {
            aac_sample_entry_builder(self.adts_frames@[0].header).spec_build().unwrap()
        } else {
            Seq::empty()
        }
    }

    pub fn create() -> (e: AACExtractor)
        ensures
            e.bucket@.len() == 0,
            e.adts_frames@.len() == 0,
            e.current_pts == 0,
            e.current_dts == 0,
            e.sample_frequency_index is None,
    {
        AACExtractor {
            bucket: Vec::new(),
            adts_frames: Vec::new(),
            current_pts: 0,
            current_dts: 0,
            sample_frequency_index: None,
        }
    }

    /// The duration of an AAC frame: 1024 samples.
    pub fn get_default_sample_duration(&self) -> (d: u32)
        ensures
            d == 1024,
    {
        1024
    }

    /// Appends the frames to `out`, each with the given times.
    fn stamp_frames(frames: Vec<ADTSFrame>, pts: u64, dts: u64, out: &mut Vec<ADTSFrame>)
        ensures
            final(out)@ == old(out)@ + stamped_frames(frames@, pts, dts),
    {
        let ghost start = out@;
        let ghost all = frames@;
        let ghost mut k: int = 0;
        let mut rest = frames;
        while rest.len() > 0
            invariant
                0 <= k <= all.len(),
                rest@ == all.subrange(k, all.len() as int),
                out@ == start + stamped_frames(all.subrange(0, k), pts, dts),
            decreases rest@.len(),
        {
            let mut f = rest.remove(0);
            f.pts = pts;
            f.dts = dts;
            out.push(f);
            proof {
                assert(stamped_frames(all.subrange(0, k + 1), pts, dts) =~= stamped_frames(
                    all.subrange(0, k),
                    pts,
                    dts,
                ).push(f));
                k = k + 1;
                assert(rest@ =~= all.subrange(k, all.len() as int));
            }
        }
        assert(all.subrange(0, k) =~= all);
    }

    /// The sampling frequency index of the last of the frames, or `current`
    /// when there are none.
    fn last_frequency_index(frames: &Vec<ADTSFrame>, current: Option<u8>) -> (r: Option<u8>)
        ensures
            r == if frames@.len() > 0 {
                Some(frames@.last().header.sampling_frequency_index)
            } else {
                current
            },
    {
        if frames.len() > 0 {
            Some(frames[frames.len() - 1].header.sampling_frequency_index)
        } else {
            current
        }
    }

    /// Each frame as a sample of its own.
    fn convert_adts_frame_to_sample_infos(adts_frames: Vec<ADTSFrame>) -> (r: Vec<SampleInfo>)
        ensures
            r@.len() == adts_frames@.len(),
            forall|i: int|
                0 <= i < r@.len() ==> sample_of_frame(adts_frames@[i], #[trigger] r@[i]),
    {
        let mut sample_infos: Vec<SampleInfo> = Vec::new();
        let mut i: usize = 0;
        while i < adts_frames.len()
            invariant
                i <= adts_frames@.len(),
                sample_infos@.len() == i,
                forall|j: int|
                    0 <= j < i ==> sample_of_frame(adts_frames@[j], #[trigger] sample_infos@[j]),
            decreases adts_frames@.len() - i,
        {
            let af = &adts_frames[i];
            let mut data: Vec<u8> = Vec::new();
            extend_bytes(&mut data, af.data.as_slice());
            sample_infos.push(
                SampleInfo {
                    sample_flags: None,
                    sample_duration: None,
                    data,
                    dts: af.dts,
                    pts: af.pts,
                },
            );
            i = i + 1;
        }
        sample_infos
    }
}

impl TSExtractor for AACExtractor {
    /// A packet with a timestamp flushes the bytes held, which must then be
    /// walkable as ADTS frames.
    open spec fn accepts(&self, pes: &PESPacket) -> bool {
        pes.pts is Some && self.bucket@.len() > 0 ==> !adts_walk_fails(self.bucket@)
    }

    open spec fn can_flush(&self) -> bool {
        !adts_walk_fails(self.bucket@)
    }

    open spec fn has_media(&self) -> bool {
        &&& self.adts_frames@.len() > 0
        &&& 16 * self.adts_frames@.len() + 256 <= usize::MAX
        &&& 8 + spec_merge_frames(self.adts_frames@).len() <= usize::MAX
    }

    /// A packet with a timestamp first turns the bytes held into frames
    /// with the times held (an error when they do not parse, the bytes then
    /// being dropped) and takes its own times, the decode time being the
    /// presentation time where the packet has none; then its payload is
    /// held.
    fn accumulate_pes_payload(&mut self, pes: PESPacket) -> (r: Result<(), CustomError>)
        ensures
            ({
                let flush = pes.pts is Some && old(self).bucket@.len() > 0;
                &&& r is Err <==> (flush && !adts_walk_ok(old(self).bucket@))
                &&& final(self).adts_frames@ == old(self).adts_frames@
                &&& final(self).sample_frequency_index == old(self).sample_frequency_index
                &&& r is Err ==> {
                    &&& final(self).bucket@.len() == 0
                    &&& final(self).current_pts == old(self).current_pts
                    &&& final(self).current_dts == old(self).current_dts
                }
                &&& r is Ok ==> {
                    &&& final(self).bucket@ == (if flush {
                        Seq::empty()
                    } else {
                        old(self).bucket@
                    }) + pes.payload_data@
                    &&& final(self).current_pts == match pes.pts {
                        Some(p) => p,
                        None => old(self).current_pts,
                    }
                    &&& final(self).current_dts == match pes.pts {
                        Some(p) => match pes.dts {
                            Some(d) => d,
                            None => p,
                        },
                        None => old(self).current_dts,
                    }
                }
            }),
    {
        if pes.pts.is_some() && self.bucket.len() > 0 {
            let mut adts_packet: Vec<u8> = Vec::new();
            core::mem::swap(&mut adts_packet, &mut self.bucket);
            let frames = ADTS::parse(adts_packet.as_slice())?;
            AACExtractor::stamp_frames(frames, self.current_pts, self.current_dts, &mut self.adts_frames);
            assert(self.adts_frames@ =~= old(self).adts_frames@);
        }
        if let Some(pts) = pes.pts {
            let dts = match pes.dts {
                Some(d) => d,
                None => pts,
            };
            self.current_dts = dts;
            self.current_pts = pts;
        }
        extend_bytes(&mut self.bucket, pes.payload_data);
        Ok(())
    }

    fn is_all_same_timestamps(&self) -> (b: bool)
        ensures
            b,
    {
        true
    }

    fn is_signed_comp_offset(&self) -> (b: bool)
        ensures
            !b,
    {
        false
    }

    /// The `mp4a` sample entry of the first frame; empty while there is no
    /// frame.
    fn build_sample_entry(&mut self) -> (r: Result<Vec<u8>, CustomError>)
        ensures
            *final(self) == *old(self),
            r matches Ok(v) && v@ == old(self).spec_sample_entry(),
    {
        if self.adts_frames.len() > 0 {
            let channel_count = self.adts_frames[0].header.channel_configuration as u32;
            let sampling_frequency_index = self.adts_frames[0].header.sampling_frequency_index;
            let builder = MP4ASampleEntryBuilder::create_builder().sample_entry(
                SampleEntryBuilder::create_builder(),
            ).audio_sample_entry(
                AudioSampleEntryBuilder::create_builder().channel_count(channel_count).sample_rate(
                    map_sample_frequency_index(sampling_frequency_index),
                ),
            ).esds(
                ESDescriptorBuidler::create_builder().dec_conf_desc(
                    DecoderConfigDescriptorBuilder::create_builder().aac_audio_specific_config(
                        AACAudioSpecificConfigBuilder::create_builder().channel_count(
                            channel_count,
                        ).sampling_frequency_index(sampling_frequency_index as u32),
                    ),
                ),
            );
            assert(builder == aac_sample_entry_builder(self.adts_frames@[0].header));
            return builder.build();
        }
        Ok(Vec::new())
    }

    /// Turns the bytes held into frames with the times held; the bytes stay
    /// held. An error when they do not parse.
    fn flush_final_media(&mut self) -> (r: Result<(), CustomError>)
        ensures
            r is Ok <==> adts_walk_ok(old(self).bucket@),
            final(self).bucket@ == old(self).bucket@,
            final(self).current_pts == old(self).current_pts,
            final(self).current_dts == old(self).current_dts,
            final(self).adts_frames@ == old(self).adts_frames@,
            final(self).sample_frequency_index == old(self).sample_frequency_index,
    {
        let frames = ADTS::parse(self.bucket.as_slice())?;
        self.sample_frequency_index = AACExtractor::last_frequency_index(
            &frames,
            self.sample_frequency_index,
        );
        AACExtractor::stamp_frames(frames, self.current_pts, self.current_dts, &mut self.adts_frames);
        assert(self.adts_frames@ =~= old(self).adts_frames@);
        Ok(())
    }

    fn get_timescale(&self) -> (t: u32)
        ensures
            t == self.spec_timescale(),
    {
        match self.sample_frequency_index {
            Some(x) => map_sample_frequency_index(x),
            None => 0,
        }
    }

    /// The init segment of a sound track with the extractor's timescale and
    /// sample entry.
    fn get_init_segment(&mut self) -> (r: Result<Vec<u8>, CustomError>)
        ensures
            *final(self) == *old(self),
            r matches Ok(v) && exists|w: Mp4Writer, e: Vec<u8>|
                {
                    &&& w.timescale == old(self).spec_timescale()
                    &&& w.width == 0
                    &&& w.height == 0
                    &&& w.handler_type == Some(HandlerType::SOUN)
                    &&& e@ == old(self).spec_sample_entry()
                    &&& v@ == #[trigger] w.spec_init_segment(e)
                },
    {
        let sample_entry_data = self.build_sample_entry()?;
        let writer = Mp4Writer::create_mp4_writer().timescale(self.get_timescale() as usize).handler(
            HandlerType::SOUN,
        );
        let ghost w = writer;
        let ghost e = sample_entry_data;
        let r = writer.build_init_segment(sample_entry_data);
        assert(r matches Ok(v) && v@ == w.spec_init_segment(e));
        r
    }

    /// The media segment of the frames gathered, which are handed over to
    /// it: one sample per frame.
    fn get_media_segment(&mut self) -> (r: Result<Vec<u8>, CustomError>)
        ensures
            final(self).adts_frames@.len() == 0,
            final(self).bucket == old(self).bucket,
            final(self).current_pts == old(self).current_pts,
            final(self).current_dts == old(self).current_dts,
            final(self).sample_frequency_index == old(self).sample_frequency_index,
            r matches Ok(v) && exists|w: Mp4Writer|
                {
                    &&& w.timescale == old(self).spec_timescale()
                    &&& w.samples@.len() == old(self).adts_frames@.len()
                    &&& forall|i: int|
                        0 <= i < w.samples@.len() ==> sample_of_frame(
                            old(self).adts_frames@[i],
                            #[trigger] w.samples@[i],
                        )
                    &&& v@ == #[trigger] w.spec_media_segment()
                },
    {
        let mut frames: Vec<ADTSFrame> = Vec::new();
        core::mem::swap(&mut frames, &mut self.adts_frames);
        let media_data = AACExtractor::convert_adts_frame_to_sample_infos(frames);
        proof {
            lemma_merge_frames_samples(old(self).adts_frames@, media_data@);
        }
        let writer = Mp4Writer::create_mp4_writer().timescale(self.get_timescale() as usize).samples(
            media_data,
        );
        let ghost w = writer;
        let r = writer.build_media_segment();
        assert(r matches Ok(v) && v@ == w.spec_media_segment());
        r
    }
}

} // verus!

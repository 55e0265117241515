use vstd::prelude::*;
use vstd::string::StringExecFns;

use crate::container::isobmff::boxes::ftyp::{spec_ftyp, FTYPBuilder};
use crate::container::isobmff::boxes::hdlr::HDLRBuilder;
use crate::container::isobmff::boxes::mdat::{
    lemma_merge_samples_len, spec_merge_samples, MDATBuilder,
};
use crate::container::isobmff::boxes::mdhd::MDHDBuilder;
use crate::container::isobmff::boxes::mdia::MDIABuilder;
use crate::container::isobmff::boxes::minf::{MINFBuilder, MediaHeaderBuilder};
use crate::container::isobmff::boxes::moof::{lemma_moof_data_offset, MOOFBuilder};
use crate::container::isobmff::boxes::moov::MOOVBuilder;
use crate::container::isobmff::boxes::mvex::MVEXBuilder;
use crate::container::isobmff::boxes::mvhd::MVHDBuilder;
use crate::container::isobmff::boxes::smhd::SMHDBuilder;
use crate::container::isobmff::boxes::stbl::STBLBuilder;
use crate::container::isobmff::boxes::stsd::STSDBuilder;
use crate::container::isobmff::boxes::tfdt::TFDTBuilder;
use crate::container::isobmff::boxes::tfhd::TFHDBuilder;
use crate::container::isobmff::boxes::tkhd::TKHDBuilder;
use crate::container::isobmff::boxes::traf::{traf_trun_offset, TRAFBuilder};
use crate::container::isobmff::boxes::trak::TRAKBuilder;
use crate::container::isobmff::boxes::trex::TREXBuilder;
use crate::container::isobmff::boxes::trun::TRUNBuilder;
use crate::container::isobmff::boxes::vmhd::VMHDBuilder;
use crate::container::isobmff::{spec_box, HandlerType};
use crate::error::error_code::{MajorCode, TransportStreamMinorCode};
use crate::error::{construct_error, CustomError};
use crate::util::extend_bytes;

verus! {

/// A media sample: its decode and presentation times, its bytes, and the
/// flags and duration to write for it, where known.
#[derive(Clone)]
pub struct SampleInfo {
    pub dts: u64,
    pub pts: u64,
    pub data: Vec<u8>,
    pub sample_flags: Option<u32>,
    pub sample_duration: Option<u32>,
}

/// Writes the init segment and the media segments of one track.
pub struct Mp4Writer {
    pub samples: Vec<SampleInfo>,
    pub width: usize,
    pub height: usize,
    pub timescale: usize,
    pub handler_type: Option<HandlerType>,
}

/// The media header box that goes with a handler: sound for audio, video
/// for everything else.
pub open spec fn media_header_for(handler_type: HandlerType) -> MediaHeaderBuilder {
    match handler_type {
        HandlerType::SOUN => MediaHeaderBuilder::Sound(SMHDBuilder {  }),
        _ => MediaHeaderBuilder::Video(VMHDBuilder {  }),
    }
}

/// The movie box of an init segment can be built, and its length is that
/// of the sample entry plus a fixed overhead.
proof fn lemma_init_moov_buildable(w: Mp4Writer, sample_entry: Vec<u8>)
    requires
        w.handler_type is Some,
        sample_entry@.len() <= usize::MAX - 1024,
    ensures
        w.init_moov(sample_entry).buildable(),
        w.init_moov(sample_entry).spec_build() matches Some(b) && b.len() <= sample_entry@.len()
            + 512,
{
    let moov = w.init_moov(sample_entry);
    let trak = moov.trak_builder.unwrap();
    let mdia = trak.mdia_builder.unwrap();
    let minf = mdia.minf_builder.unwrap();
    let stbl = minf.stbl_builder.unwrap();
    let stsd = stbl.stsd_builder.unwrap();
    let n = sample_entry@.len();
    assert(stsd.spec_build().unwrap().len() == 16 + n);
    assert(stbl.spec_build().unwrap().len() == 92 + n);
    assert(minf.media_header_builder.unwrap().spec_build().len() <= 20);
    assert(minf.spec_build().unwrap().len() <= 156 + n);
    assert(minf.buildable());
    assert(mdia.spec_build().unwrap().len() <= 229 + n);
    assert(mdia.buildable());
    assert(trak.spec_build().unwrap().len() <= 329 + n);
    assert(trak.buildable());
    assert(moov.mvex_builder.unwrap().spec_build().unwrap().len() == 40);
    assert(moov.spec_build().unwrap().len() <= 485 + n);
}

/// The movie fragment box of a media segment can be built.
proof fn lemma_media_moof_buildable(w: Mp4Writer)
    requires
        w.samples@.len() > 0,
        16 * w.samples@.len() + 256 <= usize::MAX,
        8 + spec_merge_samples(w.samples@).len() <= usize::MAX,
    ensures
        w.media_moof().buildable(),
{
    let moof = w.media_moof();
    let traf = moof.spec_traf();
    let tfhd = traf.tfhd_builder.unwrap();
    let tfdt = traf.tfdt_builder.unwrap();
    let trun = traf.spec_trun();
    trun.lemma_build_len();
    assert(tfhd.spec_build().len() == 20);
    assert(tfdt.spec_build().len() == 20);
    assert(traf_trun_offset(traf.data_offset, tfhd.spec_build(), tfdt.spec_build()) == 72);
    assert(trun.spec_flag() & 0x800u32 == 0) by {
        let f = trun.spec_flag();
        assert(f == 0x1 + 0x4 + (if w.samples@.len() > 1 {
            0x200int + (if w.samples@[1].sample_duration is Some { 0x100int } else { 0int }) + (
            if w.samples@[1].sample_flags is Some { 0x400int } else { 0int })
        } else {
            0int
        }));
        assert(0x5u32 & 0x800u32 == 0) by (bit_vector);
        assert(0x205u32 & 0x800u32 == 0) by (bit_vector);
        assert(0x305u32 & 0x800u32 == 0) by (bit_vector);
        assert(0x605u32 & 0x800u32 == 0) by (bit_vector);
        assert(0x705u32 & 0x800u32 == 0) by (bit_vector);
    }
    assert forall|i: int| 0 <= i < trun.samples@.len() implies #[trigger] trun.samples@[i].data@.len()
        + trun.nal_length_size <= usize::MAX by {
        lemma_merge_samples_len(w.samples@, i);
    }
    assert(trun.buildable());
    assert(traf.buildable());
}

/// In a media segment, the track run records the length of the movie
/// fragment box plus eight as its data offset, and from that offset on the
/// segment holds the data of the samples, one after the other.
pub proof fn lemma_media_segment_data(w: Mp4Writer)
    requires
        w.samples@.len() > 0,
        16 * w.samples@.len() + 256 <= usize::MAX,
        8 + spec_merge_samples(w.samples@).len() <= usize::MAX,
    ensures
        ({
            let moof = w.media_moof();
            let trun = moof.spec_traf().spec_trun();
            let m = moof.spec_build().unwrap();
            let seg = w.spec_media_segment();
            &&& moof.spec_build() is Some
            &&& trun.spec_size() + trun.data_offset + 8 == m.len() + 8
            &&& seg.subrange(0, m.len() as int) == m
            &&& seg.subrange(m.len() + 8int, seg.len() as int) == spec_merge_samples(w.samples@)
        }),
{
    let moof = w.media_moof();
    lemma_media_moof_buildable(w);
    assert(moof.spec_build() is Some);
    lemma_moof_data_offset(moof);
    let m = moof.spec_build().unwrap();
    let data = spec_merge_samples(w.samples@);
    let mdat = spec_box(seq![0x6Du8, 0x64, 0x61, 0x74], data);
    let seg = w.spec_media_segment();
    assert(seg == m + mdat);
    assert(seg.subrange(0, m.len() as int) =~= m);
    assert(seg.subrange(m.len() + 8int, seg.len() as int) =~= data);
}

impl Mp4Writer {
    /// The movie box of the init segment: track 1 with the writer's
    /// timescale, dimensions and handler, and the given sample entry.
    pub open spec fn init_moov(&self, sample_entry: Vec<u8>) -> MOOVBuilder {
        MOOVBuilder {
            mvhd_builder: Some(MVHDBuilder { timescale: self.timescale }),
            trak_builder: Some(
                TRAKBuilder {
                    tkhd_builder: Some(
                        TKHDBuilder { track_id: 1, width: self.width, height: self.height },
                    ),
                    mdia_builder: Some(
                        MDIABuilder {
                            mdhd_builder: Some(MDHDBuilder { timescale: self.timescale }),
                            hdlr_builder: Some(
                                HDLRBuilder { handler_type: self.handler_type.unwrap() },
                            ),
                            minf_builder: Some(
                                MINFBuilder {
                                    media_header_builder: Some(
                                        media_header_for(self.handler_type.unwrap()),
                                    ),
                                    stbl_builder: Some(
                                        STBLBuilder {
                                            stsd_builder: Some(
                                                STSDBuilder { sample_entry: Some(sample_entry) },
                                            ),
                                        },
                                    ),
                                },
                            ),
                        },
                    ),
                },
            ),
            mvex_builder: Some(
                MVEXBuilder {
                    trex_builder: Some(
                        TREXBuilder {
                            track_id: 1,
                            default_sample_duration: 0,
                            default_sample_size: 0,
                            default_sample_flags: 0,
                        },
                    ),
                },
            ),
        }
    }

    /// The init segment: the file type box, then the movie box.
    pub open spec fn spec_init_segment(&self, sample_entry: Vec<u8>) -> Seq<u8> {
        spec_ftyp() + self.init_moov(sample_entry).spec_build().unwrap()
    }

    /// The movie fragment box of the media segment: track 1, default
    /// duration 1024, base decode time of the first sample, and a run of
    /// all samples with the first marked as a sync sample.
    pub open spec fn media_moof(&self) -> MOOFBuilder {
        MOOFBuilder {
            traf_builder: Some(
                TRAFBuilder {
                    tfhd_builder: Some(
                        TFHDBuilder {
                            track_id: 1,
                            base_data_offset: None,
                            sample_description_index: None,
                            sample_duration: Some(1024),
                            sample_size: None,
                            sample_flags: None,
                            duration_is_empty: false,
                            default_base_is_moof: true,
                        },
                    ),
                    tfdt_builder: Some(
                        TFDTBuilder { base_media_decode_time: self.samples@[0].dts as usize },
                    ),
                    trun_builder: Some(
                        TRUNBuilder {
                            version: 0,
                            flags: 0x0205,
                            data_offset: 0,
                            first_sample_flags: Some(0x2000000),
                            samples: self.samples,
                            sample_composition_time_offsets_present: false,
                            nal_length_size: 0,
                        },
                    ),
                    data_offset: 0,
                },
            ),
        }
    }

    /// The media segment: the movie fragment box, then the media data box
    /// with the data of all samples.
    pub open spec fn spec_media_segment(&self) -> Seq<u8> {
        self.media_moof().spec_build().unwrap() + spec_box(
            seq![0x6Du8, 0x64, 0x61, 0x74],
            spec_merge_samples(self.samples@),
        )
    }

    /// A writer with no samples, no dimensions, timescale 0 and no handler.
    pub fn create_mp4_writer() -> (w: Mp4Writer)
        ensures
            w.samples@.len() == 0,
            w.width == 0,
            w.height == 0,
            w.timescale == 0,
            w.handler_type is None,
    {
        Mp4Writer { timescale: 0, width: 0, height: 0, samples: Vec::new(), handler_type: None }
    }

    pub fn timescale(self, timescale: usize) -> (w: Mp4Writer)
        ensures
            w == (Mp4Writer { timescale, ..self }),
    {
        Mp4Writer { timescale, ..self }
    }

    pub fn samples(self, samples: Vec<SampleInfo>) -> (w: Mp4Writer)
        ensures
            w == (Mp4Writer { samples, ..self }),
    {
        Mp4Writer { samples, ..self }
    }

    pub fn width(self, width: usize) -> (w: Mp4Writer)
        ensures
            w == (Mp4Writer { width, ..self }),
    {
        Mp4Writer { width, ..self }
    }

    pub fn height(self, height: usize) -> (w: Mp4Writer)
        ensures
            w == (Mp4Writer { height, ..self }),
    {
        Mp4Writer { height, ..self }
    }

    pub fn handler(self, handler_type: HandlerType) -> (w: Mp4Writer)
        ensures
            w == (Mp4Writer { handler_type: Some(handler_type), ..self }),
    {
        Mp4Writer { handler_type: Some(handler_type), ..self }
    }

    /// The init segment for a track whose sample description holds
    /// `sample_entry`; an error when no handler was set.
    pub fn build_init_segment(self, sample_entry: Vec<u8>) -> (r: Result<Vec<u8>, CustomError>)
        requires
            sample_entry@.len() <= usize::MAX - 1024,
        ensures
            self.handler_type is None ==> (r matches Err(e) && e.major == MajorCode::REMUX
                && e.minor == 0 && e.message@ == "Unable to parse transport stream"@
                && e.debug_message@ == "Handler type not set"@),
            self.handler_type is Some ==> (r matches Ok(v) && v@ == self.spec_init_segment(
                sample_entry,
            )),
    {
        let ghost se = sample_entry;
        let handler_type = match self.handler_type {
            Some(h) => h,
            None => {
                return Err(
                    construct_error(
                        MajorCode::REMUX,
                        TransportStreamMinorCode::PARSE_TS_ERROR,
                        String::from_str("Handler type not set"),
                    ),
                );
            },
        };
        let media_header = match handler_type {
            HandlerType::VIDE => MediaHeaderBuilder::Video(VMHDBuilder::create_builder()),
            HandlerType::SOUN => MediaHeaderBuilder::Sound(SMHDBuilder::create_builder()),
            _ => MediaHeaderBuilder::Video(VMHDBuilder::create_builder()),
        };
        let moov_builder = MOOVBuilder::create_builder().mvhd(
            MVHDBuilder::create_builder().timescale(self.timescale),
        ).trak(
            TRAKBuilder::create_builder().tkhd(
                TKHDBuilder::create_builder().track_id(1).width(self.width).height(self.height),
            ).mdia(
                MDIABuilder::create_builder().mdhd(
                    MDHDBuilder::create_builder().timescale(self.timescale),
                ).hdlr(HDLRBuilder::create_builder().handler_type(handler_type)).minf(
                    MINFBuilder::create_builder().media_header(media_header).stbl(
                        STBLBuilder::create_builder().stsd(
                            STSDBuilder::create_builder().sample_entry(sample_entry),
                        ),
                    ),
                ),
            ),
        ).mvex(
            MVEXBuilder::create_builder().trex(
                TREXBuilder::create_builder().track_id(1).default_sample_size(
                    0,
                ).default_sample_duration(0).default_sample_flags(0),
            ),
        );
        assert(moov_builder == self.init_moov(se));
        proof {
            lemma_init_moov_buildable(self, se);
        }
        let mut segment = FTYPBuilder::create_builder().build();
        let moov = moov_builder.build()?;
        extend_bytes(&mut segment, moov.as_slice());
        Ok(segment)
    }

    /// The media segment of the writer's samples.
    pub fn build_media_segment(self) -> (r: Result<Vec<u8>, CustomError>)
        requires
            self.samples@.len() > 0,
            16 * self.samples@.len() + 256 <= usize::MAX,
            8 + spec_merge_samples(self.samples@).len() <= usize::MAX,
        ensures
            r matches Ok(v) && v@ == self.spec_media_segment(),
    {
        let ghost this = self;
        let mdat_data = MDATBuilder::merge_sample_refs(&self.samples);
        let base_media_decode_time = self.samples[0].dts as usize;
        let moof_builder = MOOFBuilder::create_builder().traf(
            TRAFBuilder::create_builder().tfhd(
                TFHDBuilder::create_builder().sample_duration(Some(1024)).track_id(1),
            ).tfdt(TFDTBuilder::create_builder().base_media_decode_time(base_media_decode_time)).trun(
                TRUNBuilder::create_builder().version(0).flags(0x0205).first_sample_flags(
                    0x2000000,
                ).samples(self.samples),
            ),
        );
        assert(moof_builder == this.media_moof());
        proof {
            lemma_media_moof_buildable(this);
        }
        let mut segment = moof_builder.build()?;
        let mdat = MDATBuilder::create_builder().media_data(mdat_data).build()?;
        extend_bytes(&mut segment, mdat.as_slice());
        Ok(segment)
    }
}

} // verus!

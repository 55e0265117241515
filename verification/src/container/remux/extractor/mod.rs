use vstd::prelude::*;

pub mod ts;

use vstd::string::StringExecFns;

use crate::container::remux::extractor::ts::aac_extractor::AACExtractor;
use crate::container::remux::extractor::ts::avc_extractor::{AVCExtractor, AvcNals};
use crate::container::transport_stream::elementary_stream_type::ElementaryStreamType;
use crate::container::transport_stream::pes_packet::PESPacket;
use crate::error::error_code::{MajorCode, RemuxMinorCode};
use crate::error::{construct_error, CustomError};

verus! {

/// Gathers the PES packets of one elementary stream of a transport stream
/// and writes them out as an init segment and media segments.
pub trait TSExtractor: Sized {
    /// The extractor can take the packet in the state it is in.
    spec fn accepts(&self, pes: &PESPacket) -> bool;

    /// What the extractor holds can be flushed.
    spec fn can_flush(&self) -> bool;

    /// The extractor holds media that a media segment can be written of.
    spec fn has_media(&self) -> bool;

    /// Takes the payload of a PES packet of the stream.
    fn accumulate_pes_payload(&mut self, pes: PESPacket) -> (r: Result<(), CustomError>)
        requires
            old(self).accepts(&pes),
    ;

    /// Presentation and decode times agree for every sample.
    fn is_all_same_timestamps(&self) -> bool;

    /// A composition offset can be negative.
    fn is_signed_comp_offset(&self) -> bool;

    /// The sample entry that describes the stream.
    fn build_sample_entry(&mut self) -> Result<Vec<u8>, CustomError>;

    /// Takes in whatever is still held back at the end of the stream.
    fn flush_final_media(&mut self) -> (r: Result<(), CustomError>)
        requires
            old(self).can_flush(),
    ;

    /// The init segment of the stream.
    fn get_init_segment(&mut self) -> Result<Vec<u8>, CustomError>;

    /// A media segment of the media gathered so far.
    fn get_media_segment(&mut self) -> (r: Result<Vec<u8>, CustomError>)
        requires
            old(self).has_media(),
    ;

    /// The timescale of the stream's media.
    fn get_timescale(&self) -> u32;
}

/// The extractor of an elementary stream, by the kind of its stream.
pub enum StreamExtractor {
    AAC(AACExtractor),
    H_264(AVCExtractor),
}

/// A fresh extractor for the stream type: one for AAC, one for H.264, and
/// an error for a stream type not known.
pub fn get_ts_extractor(es_type: ElementaryStreamType) -> (r: Result<StreamExtractor, CustomError>)
    ensures
        es_type == ElementaryStreamType::AAC ==> (r matches Ok(StreamExtractor::AAC(x)) && {
            &&& x.bucket@.len() == 0
            &&& x.adts_frames@.len() == 0
            &&& x.current_pts == 0
            &&& x.current_dts == 0
            &&& x.sample_frequency_index is None
        }),
        es_type == ElementaryStreamType::H_264 ==> (r matches Ok(StreamExtractor::H_264(x)) && {
            &&& x.nals() == (AvcNals {
                sps: Seq::empty(),
                pps: Seq::empty(),
                media: Seq::empty(),
                bucket: Seq::empty(),
            })
            &&& x.all_same_timestamps
            &&& !x.signed_comp_offset
            &&& x.current_pts == 0
            &&& x.current_dts == 0
        }),
        es_type == ElementaryStreamType::UNKNOWN ==> (r matches Err(e) && e.major
            == MajorCode::ISOBMFF && e.minor == 0),
{
    match es_type {
        ElementaryStreamType::AAC => Ok(StreamExtractor::AAC(AACExtractor::create())),
        ElementaryStreamType::H_264 => Ok(StreamExtractor::H_264(AVCExtractor::create())),
        ElementaryStreamType::UNKNOWN => Err(
            construct_error(
                MajorCode::ISOBMFF,
                RemuxMinorCode::MISSING_BUILDER_DEPENDENCY_ERROR,
                String::from_str(
                    "Uknown elementary stream type. CAn't determine which ts extractor to use",
                ),
            ),
        ),
    }
}

} // verus!

use vstd::prelude::*;

pub mod extractor;

use crate::container::remux::extractor::ts::avc_extractor::AvcNals;
use crate::container::remux::extractor::{get_ts_extractor, StreamExtractor, TSExtractor};
use crate::container::transport_stream::adts::{adts_walk_fails, adts_walk_ok};
use crate::container::transport_stream::elementary_stream_type::ElementaryStreamType;
use crate::container::transport_stream::pes_packet::{
    pes_has_prefix, pes_header_readable, pes_is_av, pes_malformed, pes_payload_start,
    pes_stream_id, PESPacket,
};
use crate::container::transport_stream::program_association_table::{
    pat_program_map_pid, pat_readable, ProgramAssociationTable,
};
use crate::container::transport_stream::program_map_table::{
    lemma_pmt_stream_types, pmt_header_readable, pmt_loop_start, pmt_end, pmt_malformed,
    pmt_spec_streams, pmt_start, ProgramMapTable,
};
use crate::container::transport_stream::ts_packet::{spec_ts_packet, ts_error_major, TransportPacket};
use crate::error::error_code::{MajorCode, RemuxMinorCode};
use crate::error::{construct_error, CustomError};

verus! {

pub const SYNC_BYTE: u8 = 0x47;

pub const TS_PACKET_SIZE: usize = 188;

/// What decides how a walk over a transport stream goes on: the packet ids
/// of the program map table and of the video and audio streams, whether a
/// video extractor was made, and, once an audio extractor was made, the
/// bytes it holds back.
pub struct RemuxState {
    pub pmt_pid: u16,
    pub video_pid: u16,
    pub audio_pid: u16,
    pub has_video: bool,
    pub audio_bucket: Option<Seq<u8>>,
}

/// How a walk over a transport stream goes.
pub enum RemuxWalk {
    /// It cannot go on: a packet runs past the end of the bytes, a table
    /// does not parse, a PES packet's header runs past its bytes, or the
    /// bytes the audio extractor must flush cannot be walked as ADTS frames.
    Stuck,
    /// A packet or a PES packet does not parse: the error is of this major
    /// area, with minor code 0.
    Fails(MajorCode),
    /// It goes on, or ends, in this state.
    Goes(RemuxState),
}

/// Nothing known yet: no table or stream packet ids, no extractors.
pub open spec fn remux_start() -> RemuxState {
    RemuxState {
        pmt_pid: 0xFFFF,
        video_pid: 0xFFFF,
        audio_pid: 0xFFFF,
        has_video: false,
        audio_bucket: None,
    }
}

/// A program association table packet gives the program map table's
/// packet id.
pub open spec fn pat_step(st: RemuxState, pid: u16, pusi: bool, data: Seq<u8>) -> RemuxWalk {
    if pid != 0 {
        RemuxWalk::Goes(st)
    } else if !pat_readable(data, pusi) {
        RemuxWalk::Stuck
    } else {
        RemuxWalk::Goes(RemuxState { pmt_pid: pat_program_map_pid(data, pusi), ..st })
    }
}

/// A program map table packet gives the video and audio packet ids and
/// makes an extractor for each stream that has none yet.
pub open spec fn pmt_step(st: RemuxState, pid: u16, pusi: bool, data: Seq<u8>) -> RemuxWalk {
    if pid != st.pmt_pid {
        RemuxWalk::Goes(st)
    } else if pmt_malformed(data, pusi) || !pmt_header_readable(data, pusi) || pmt_spec_streams(
        data,
        pusi,
    ) is None {
        RemuxWalk::Stuck
    } else {
        let (audio, video) = pmt_spec_streams(data, pusi).unwrap();
        let with_video = match video {
            Some(si) => RemuxState { video_pid: si.pid, has_video: true, ..st },
            None => st,
        };
        RemuxWalk::Goes(
            match audio {
                Some(si) => RemuxState {
                    audio_pid: si.pid,
                    audio_bucket: if with_video.audio_bucket is None {
                        Some(Seq::empty())
                    } else {
                        with_video.audio_bucket
                    },
                    ..with_video
                },
                None => with_video,
            },
        )
    }
}

/// The payload of a PES packet and whether it carries times; `None` when
/// it does not parse.
pub open spec fn pes_view(d: Seq<u8>) -> Option<(Seq<u8>, bool)> {
    if !pes_has_prefix(d) {
        Some((d, false))
    } else if !pes_is_av(pes_stream_id(d)) || !pes_header_readable(d) {
        None
    } else {
        Some((d.subrange(pes_payload_start(d), d.len() as int), true))
    }
}

/// The area of the error of a PES packet that does not parse: a stream
/// other than audio or video is a transport stream error, a header that
/// runs past the bytes a byte reading error.
pub open spec fn pes_error_major(d: Seq<u8>) -> MajorCode {
    if pes_has_prefix(d) && !pes_is_av(pes_stream_id(d)) {
        MajorCode::TRANSPORT_STREAM
    } else {
        MajorCode::UTIL
    }
}

/// A video packet's PES packet goes to the video extractor, whatever it
/// makes of it.
pub open spec fn video_step(st: RemuxState, pid: u16, data: Seq<u8>) -> RemuxWalk {
    if pid != st.video_pid {
        RemuxWalk::Goes(st)
    } else if pes_malformed(data) {
        RemuxWalk::Stuck
    } else if pes_view(data) is None {
        RemuxWalk::Fails(pes_error_major(data))
    } else {
        RemuxWalk::Goes(st)
    }
}

/// The bytes an AAC extractor holds back after a payload: a payload with
/// times flushes what is held (to nothing when it does not walk as ADTS
/// frames) and is then held itself; other payloads are added.
pub open spec fn aac_bucket_after(bucket: Seq<u8>, payload: Seq<u8>, timed: bool) -> Seq<u8> {
    if timed && bucket.len() > 0 {
        if adts_walk_ok(bucket) {
            payload
        } else {
            Seq::empty()
        }
    } else {
        bucket + payload
    }
}

/// An audio packet's PES packet goes to the audio extractor.
pub open spec fn audio_step(st: RemuxState, pid: u16, data: Seq<u8>) -> RemuxWalk {
    if pid != st.audio_pid {
        RemuxWalk::Goes(st)
    } else if pes_malformed(data) {
        RemuxWalk::Stuck
    } else {
        match pes_view(data) {
            None => RemuxWalk::Fails(pes_error_major(data)),
            Some((payload, timed)) => match st.audio_bucket {
                None => RemuxWalk::Goes(st),
                Some(b) => if timed && b.len() > 0 && adts_walk_fails(b) {
                    RemuxWalk::Stuck
                } else {
                    RemuxWalk::Goes(
                        RemuxState { audio_bucket: Some(aac_bucket_after(b, payload, timed)), ..st },
                    )
                },
            },
        }
    }
}

/// A packet is taken as a program association table, a program map table,
/// a video and an audio packet, in that order, by its packet id.
pub open spec fn packet_step(st: RemuxState, pid: u16, pusi: bool, data: Seq<u8>) -> RemuxWalk {
    match pat_step(st, pid, pusi, data) {
        RemuxWalk::Goes(s1) => match pmt_step(s1, pid, pusi, data) {
            RemuxWalk::Goes(s2) => match video_step(s2, pid, data) {
                RemuxWalk::Goes(s3) => audio_step(s3, pid, data),
                w => w,
            },
            w => w,
        },
        w => w,
    }
}

/// The walk from `index` on: bytes other than the sync byte are skipped,
/// and a sync byte starts a packet of 188 bytes.
pub open spec fn remux_walk(ts: Seq<u8>, index: int, st: RemuxState) -> RemuxWalk
    decreases ts.len() - index,
{
    if index >= ts.len() {
        RemuxWalk::Goes(st)
    } else if ts[index] != 0x47 {
        remux_walk(ts, index + 1, st)
    } else if ts.len() - index < 188 {
        RemuxWalk::Stuck
    } else {
        match spec_ts_packet(ts.subrange(index, index + 188)) {
            None => RemuxWalk::Fails(ts_error_major(ts.subrange(index, index + 188))),
            Some((pid, pusi, data)) => match packet_step(st, pid, pusi, data) {
                RemuxWalk::Goes(s) => remux_walk(ts, index + 188, s),
                w => w,
            },
        }
    }
}

/// The walk over the whole stream, then the final flush of the audio
/// extractor.
pub open spec fn remux_outcome(ts: Seq<u8>) -> RemuxWalk {
    match remux_walk(ts, 0, remux_start()) {
        RemuxWalk::Goes(st) => match st.audio_bucket {
            Some(b) => if adts_walk_fails(b) {
                RemuxWalk::Stuck
            } else {
                RemuxWalk::Goes(st)
            },
            None => RemuxWalk::Goes(st),
        },
        w => w,
    }
}

/// The state of the walk that the packet ids and the extractors hold.
pub open spec fn walk_state(
    pmt_pid: u16,
    video_pid: u16,
    audio_pid: u16,
    video: Option<StreamExtractor>,
    audio: Option<StreamExtractor>,
) -> RemuxState {
    RemuxState {
        pmt_pid,
        video_pid,
        audio_pid,
        has_video: video is Some,
        audio_bucket: match audio {
            Some(StreamExtractor::AAC(x)) => Some(x.bucket@),
            _ => None,
        },
    }
}

/// The packet ids and extractors of a walk over a transport stream.
struct TsWalk {
    program_map_pid: u16,
    video_elem_pid: u16,
    audio_elem_pid: u16,
    video_ts_extractor: Option<StreamExtractor>,
    audio_ts_extractor: Option<StreamExtractor>,
}

impl TsWalk {
    spec fn state(&self) -> RemuxState {
        walk_state(
            self.program_map_pid,
            self.video_elem_pid,
            self.audio_elem_pid,
            self.video_ts_extractor,
            self.audio_ts_extractor,
        )
    }

    /// The video extractor is one for H.264, the audio extractor one for
    /// AAC.
    spec fn kinds(&self) -> bool {
        &&& (self.video_ts_extractor is None || self.video_ts_extractor matches Some(
            StreamExtractor::H_264(_),
        ))
        &&& (self.audio_ts_extractor is None || self.audio_ts_extractor matches Some(
            StreamExtractor::AAC(_),
        ))
    }

    /// Takes a program association table packet.
    fn take_pat(&mut self, pid: u16, pusi: bool, data: &[u8])
        requires
            !(pat_step(old(self).state(), pid, pusi, data@) is Stuck),
            old(self).kinds(),
        ensures
            pat_step(old(self).state(), pid, pusi, data@) == RemuxWalk::Goes(final(self).state()),
            final(self).kinds(),
    {
        if pid == 0 {
            match ProgramAssociationTable::parse(data, pusi) {
                Ok(pat) => {
                    self.program_map_pid = pat.program_map_pid;
                },
                Err(_) => {
                    assert(false);
                },
            }
        }
    }

    /// Takes a program map table packet.
    fn take_pmt(&mut self, pid: u16, pusi: bool, data: &[u8])
        requires
            !(pmt_step(old(self).state(), pid, pusi, data@) is Stuck),
            old(self).kinds(),
        ensures
            pmt_step(old(self).state(), pid, pusi, data@) == RemuxWalk::Goes(final(self).state()),
            final(self).kinds(),
    {
        if pid == self.program_map_pid {
            let pmt = match ProgramMapTable::parse(data, pusi) {
                Ok(p) => p,
                Err(_) => {
                    assert(false);
                    return;
                },
            };
            proof {
                let start = pmt_start(data@, pusi);
                lemma_pmt_stream_types(
                    data@,
                    pmt_loop_start(data@, start),
                    pmt_end(data@, start),
                    None,
                    None,
                );
            }
            let ghost before = self.state();
            if let Some(stream_info) = &pmt.video_stream_info {
                self.video_elem_pid = stream_info.pid;
                if self.video_ts_extractor.is_none() {
                    if let Ok(video_extractor) = init_video_extractor(stream_info.stream_type) {
                        self.video_ts_extractor = Some(video_extractor);
                    }
                }
            }
            let ghost with_video = self.state();
            assert(with_video == match pmt.video_stream_info {
                Some(si) => RemuxState { video_pid: si.pid, has_video: true, ..before },
                None => before,
            });
            if let Some(stream_info) = &pmt.audio_stream_info {
                self.audio_elem_pid = stream_info.pid;
                if self.audio_ts_extractor.is_none() {
                    if let Ok(audio_extractor) = init_audio_extractor(stream_info.stream_type) {
                        assert(audio_extractor matches StreamExtractor::AAC(x) && x.bucket@ =~= Seq::<
                            u8,
                        >::empty());
                        self.audio_ts_extractor = Some(audio_extractor);
                    }
                }
            }
            assert(self.state() == match pmt.audio_stream_info {
                Some(si) => RemuxState {
                    audio_pid: si.pid,
                    audio_bucket: if with_video.audio_bucket is None {
                        Some(Seq::empty())
                    } else {
                        with_video.audio_bucket
                    },
                    ..with_video
                },
                None => with_video,
            });
        }
    }

    /// Takes a packet of the video stream.
    fn take_video(&mut self, pid: u16, data: &[u8]) -> (r: Result<(), CustomError>)
        requires
            !(video_step(old(self).state(), pid, data@) is Stuck),
            old(self).kinds(),
        ensures
            r is Err <==> video_step(old(self).state(), pid, data@) is Fails,
            r matches Err(e) ==> video_step(old(self).state(), pid, data@) == RemuxWalk::Fails(e.major)
                && e.minor == 0,
            r is Ok ==> video_step(old(self).state(), pid, data@) == RemuxWalk::Goes(
                final(self).state(),
            ),
            final(self).kinds(),
    {
        if pid == self.video_elem_pid {
            let pes = PESPacket::parse(data)?;
            match &mut self.video_ts_extractor {
                Some(StreamExtractor::H_264(tse)) => {
                    let _ = tse.accumulate_pes_payload(pes);
                },
                Some(StreamExtractor::AAC(tse)) => {
                    let _ = tse.accumulate_pes_payload(pes);
                },
                None => {},
            }
        }
        Ok(())
    }

    /// Takes a packet of the audio stream.
    fn take_audio(&mut self, pid: u16, data: &[u8]) -> (r: Result<(), CustomError>)
        requires
            !(audio_step(old(self).state(), pid, data@) is Stuck),
            old(self).kinds(),
        ensures
            r is Err <==> audio_step(old(self).state(), pid, data@) is Fails,
            r matches Err(e) ==> audio_step(old(self).state(), pid, data@) == RemuxWalk::Fails(e.major)
                && e.minor == 0,
            r is Ok ==> audio_step(old(self).state(), pid, data@) == RemuxWalk::Goes(
                final(self).state(),
            ),
            final(self).kinds(),
    {
        if pid == self.audio_elem_pid {
            let pes = PESPacket::parse(data)?;
            assert(pes_view(data@) == Some((pes.payload_data@, pes.pts is Some)));
            match &mut self.audio_ts_extractor {
                Some(StreamExtractor::AAC(tse)) => {
                    let ghost b = tse.bucket@;
                    let ghost payload = pes.payload_data@;
                    let ghost timed = pes.pts is Some;
                    let _ = tse.accumulate_pes_payload(pes);
                    assert(tse.bucket@ =~= aac_bucket_after(b, payload, timed));
                },
                Some(StreamExtractor::H_264(tse)) => {
                    let _ = tse.accumulate_pes_payload(pes);
                },
                None => {},
            }
        }
        Ok(())
    }

    /// Takes a packet: as a table, then as a video and an audio packet.
    fn take_packet(&mut self, pid: u16, pusi: bool, data: &[u8]) -> (r: Result<(), CustomError>)
        requires
            !(packet_step(old(self).state(), pid, pusi, data@) is Stuck),
            old(self).kinds(),
        ensures
            r is Err <==> packet_step(old(self).state(), pid, pusi, data@) is Fails,
            r matches Err(e) ==> packet_step(old(self).state(), pid, pusi, data@) == RemuxWalk::Fails(e.major)
                && e.minor == 0,
            r is Ok ==> packet_step(old(self).state(), pid, pusi, data@) == RemuxWalk::Goes(
                final(self).state(),
            ),
            final(self).kinds(),
    {
        self.take_pat(pid, pusi, data);
        self.take_pmt(pid, pusi, data);
        self.take_video(pid, data)?;
        self.take_audio(pid, data)
    }

    /// Flushes both extractors: the video extractor adds the bytes it holds
    /// back as a last media NAL unit; the audio extractor's frames, bytes
    /// and times stay as they are.
    fn flush(&mut self)
        requires
            old(self).kinds(),
            old(self).state().audio_bucket matches Some(b) ==> !adts_walk_fails(b),
        ensures
            final(self).program_map_pid == old(self).program_map_pid,
            final(self).video_elem_pid == old(self).video_elem_pid,
            final(self).audio_elem_pid == old(self).audio_elem_pid,
            final(self).kinds(),
            match old(self).video_ts_extractor {
                Some(StreamExtractor::H_264(x)) => final(self).video_ts_extractor matches Some(
                    StreamExtractor::H_264(y),
                ) && {
                    &&& y.nals() == (AvcNals {
                        media: x.nals().media.push((x.bucket@, x.current_pts, x.current_dts)),
                        ..x.nals()
                    })
                    &&& y.current_pts == x.current_pts
                    &&& y.current_dts == x.current_dts
                    &&& y.signed_comp_offset == x.signed_comp_offset
                    &&& y.all_same_timestamps == x.all_same_timestamps
                },
                None => final(self).video_ts_extractor is None,
                _ => true,
            },
            match old(self).audio_ts_extractor {
                Some(StreamExtractor::AAC(x)) => final(self).audio_ts_extractor matches Some(
                    StreamExtractor::AAC(y),
                ) && {
                    &&& y.bucket@ == x.bucket@
                    &&& y.adts_frames@ == x.adts_frames@
                    &&& y.current_pts == x.current_pts
                    &&& y.current_dts == x.current_dts
                    &&& y.sample_frequency_index == x.sample_frequency_index
                },
                None => final(self).audio_ts_extractor is None,
                _ => true,
            },
    {
        match &mut self.video_ts_extractor {
            Some(StreamExtractor::H_264(tse)) => {
                tse.flush_final_media();
            },
            Some(StreamExtractor::AAC(tse)) => {
                let _ = tse.flush_final_media();
            },
            None => {},
        }
        match &mut self.audio_ts_extractor {
            Some(StreamExtractor::AAC(tse)) => {
                let _ = tse.flush_final_media();
            },
            Some(StreamExtractor::H_264(tse)) => {
                tse.flush_final_media();
            },
            None => {},
        }
    }
}

/// Walks the packets of a transport stream: finds the program map table
/// through the program association table, makes an extractor for its video
/// and its audio stream, and hands each extractor the PES packets of its
/// stream, then flushes both. No segment is written yet: both results are
/// empty. An error when a packet or a PES packet does not parse; what an
/// extractor makes of a PES packet does not matter.
pub fn remux_ts_to_mp4(ts_file: &[u8]) -> (r: Result<(Vec<u8>, Vec<u8>), CustomError>)
    requires
        !(remux_outcome(ts_file@) is Stuck),
    ensures
        r is Ok <==> remux_outcome(ts_file@) is Goes,
        r matches Err(e) ==> remux_outcome(ts_file@) == RemuxWalk::Fails(e.major) && e.minor == 0,
        r matches Ok((v, a)) ==> v@.len() == 0 && a@.len() == 0,
{
    let mut walk = TsWalk {
        program_map_pid: u16::MAX,
        video_elem_pid: u16::MAX,
        audio_elem_pid: u16::MAX,
        video_ts_extractor: None,
        audio_ts_extractor: None,
    };
    let mut index: usize = 0;
    let len = ts_file.len();
    let ghost goal = remux_walk(ts_file@, 0, remux_start());
    assert(walk.state() == remux_start());
    while index < len
        invariant
            len == ts_file@.len(),
            index <= len,
            goal == remux_walk(ts_file@, 0, remux_start()),
            remux_walk(ts_file@, index as int, walk.state()) == goal,
            !(remux_outcome(ts_file@) is Stuck),
            walk.kinds(),
        decreases len - index,
    {
        if ts_file[index] != SYNC_BYTE {
            index = index + 1;
        } else {
            assert(len - index >= TS_PACKET_SIZE);
            let bytes = vstd::slice::slice_subrange(ts_file, index, index + TS_PACKET_SIZE);
            let packet = TransportPacket::parse(bytes)?;
            walk.take_packet(packet.pid, packet.payload_unit_start_indicator, packet.data)?;
            index = index + TS_PACKET_SIZE;
        }
    }
    walk.flush();
    Ok((Vec::new(), Vec::new()))
}

/// The extractor of the audio stream of type `stream_type`.
fn init_audio_extractor(stream_type: ElementaryStreamType) -> (r: Result<StreamExtractor, CustomError>)
    ensures
        stream_type == ElementaryStreamType::AAC ==> (r matches Ok(StreamExtractor::AAC(x))
            && x.bucket@.len() == 0),
        stream_type == ElementaryStreamType::H_264 ==> (r matches Ok(StreamExtractor::H_264(_))),
        stream_type == ElementaryStreamType::UNKNOWN ==> r is Err,
{
    get_ts_extractor(stream_type)
}

/// The extractor of the video stream of type `stream_type`.
fn init_video_extractor(stream_type: ElementaryStreamType) -> (r: Result<StreamExtractor, CustomError>)
    ensures
        stream_type == ElementaryStreamType::AAC ==> (r matches Ok(StreamExtractor::AAC(x))
            && x.bucket@.len() == 0),
        stream_type == ElementaryStreamType::H_264 ==> (r matches Ok(StreamExtractor::H_264(_))),
        stream_type == ElementaryStreamType::UNKNOWN ==> r is Err,
{
    get_ts_extractor(stream_type)
}

/// A media segment of a transport stream, without its init segment: not
/// written yet, so always empty.
pub fn remux_ts_to_mp4_media_only(ts_file: &[u8]) -> (r: Result<Vec<u8>, CustomError>)
    ensures
        r matches Ok(v) && v@.len() == 0,
{
    Ok(Vec::new())
}

/// The error of a builder that lacks a part it needs.
pub fn generate_error(message: String) -> (e: CustomError)
    ensures
        e.major == MajorCode::REMUX,
        e.minor == 0,
        e.debug_message@ == message@,
{
    construct_error(MajorCode::REMUX, RemuxMinorCode::MISSING_BUILDER_DEPENDENCY_ERROR, message)
}

/// The sampling frequency in Hz of an MPEG-4 audio sampling frequency index
/// (ISO/IEC 14496-3, Table 1.16); 0 for an index without one.
pub open spec fn spec_sample_frequency(index: u8) -> u32 {
    if index == 0 {
        96000
    } else if index == 1 {
        88200
    } else if index == 2 {
        64000
    } else if index == 3 {
        48000
    } else if index == 4 {
        44100
    } else if index == 5 {
        32000
    } else if index == 6 {
        24000
    } else if index == 7 {
        22050
    } else if index == 8 {
        16000
    } else if index == 9 {
        12000
    } else if index == 10 {
        11025
    } else if index == 11 {
        8000
    } else if index == 12 {
        7350
    } else {
        0
    }
}

/// The sampling frequencies of ISO/IEC 14496-3 Table 1.16 fall strictly
/// from index 0 to index 12; each of indices 0 to 8 has twice the rate of
/// the index three further on (the 48 kHz, 44.1 kHz and 32 kHz families);
/// the lowest rates are 12 kHz, 11.025 kHz, 8 kHz and 7.35 kHz at indices
/// 9 to 12; and the reserved indices 13 to 255 give 0.
pub proof fn lemma_sample_frequency_table(i: u8, j: u8)
    ensures
        i < j <= 12 ==> spec_sample_frequency(i) > spec_sample_frequency(j),
        i <= 8 ==> spec_sample_frequency(i) == 2 * spec_sample_frequency((i + 3) as u8),
        spec_sample_frequency(9) == 12000,
        spec_sample_frequency(10) == 11025,
        spec_sample_frequency(11) == 8000,
        spec_sample_frequency(12) == 7350,
        i >= 13 ==> spec_sample_frequency(i) == 0,
{
}

pub fn map_sample_frequency_index(index: u8) -> (f: u32)
    ensures
        f == spec_sample_frequency(index),
{
    match index {
        0x0 => 96000,
        0x1 => 88200,
        0x2 => 64000,
        0x3 => 48000,
        0x4 => 44100,
        0x5 => 32000,
        0x6 => 24000,
        0x7 => 22050,
        0x8 => 16000,
        0x9 => 12000,
        0xA => 11025,
        0xB => 8000,
        0xC => 7350,
        _ => 0,
    }
}

} // verus!

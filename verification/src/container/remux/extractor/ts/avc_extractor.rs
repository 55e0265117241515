use vstd::prelude::*;

use crate::container::isobmff::nal::nal_unit::{spec_boundary, NALUnit};
use crate::container::isobmff::nal::{spec_nal_type, NALType, NalRep};
use crate::container::transport_stream::pes_packet::PESPacket;
use crate::error::error_code::MajorCode;
use crate::error::CustomError;
use crate::util::extend_bytes;

verus! {

/// Splits the payloads of the PES packets of an H.264 elementary stream
/// into NAL units: the sequence and picture parameter sets are kept apart,
/// the other NAL units but access unit delimiters are gathered as media
/// with the times of the packet before the one they end in.
pub struct AVCExtractor {
    pub sps_nal: Vec<u8>,
    pub pps_nal: Vec<u8>,
    pub media_nal: Vec<NalRep>,
    /// The start of a NAL unit that the next payload goes on with.
    pub bucket: Vec<u8>,
    pub signed_comp_offset: bool,
    pub all_same_timestamps: bool,
    pub current_pts: u64,
    pub current_dts: u64,
}

/// The NAL units an H.264 extractor holds, as values: the last sequence and
/// picture parameter sets, the media NAL units with their presentation and
/// decode times, and the start of a NAL unit held back.
#[verifier::ext_equal]
pub struct AvcNals {
    pub sps: Seq<u8>,
    pub pps: Seq<u8>,
    pub media: Seq<(Seq<u8>, u64, u64)>,
    pub bucket: Seq<u8>,
}

/// Taking a NAL unit of type `t`: a parameter set replaces the one held, an
/// access unit delimiter is dropped, and any other NAL unit is added to the
/// media with the given times.
pub open spec fn take_typed(st: AvcNals, t: NALType, nal: Seq<u8>, pts: u64, dts: u64) -> AvcNals {
    match t {
        NALType::SPS => AvcNals { sps: nal, ..st },
        NALType::PPS => AvcNals { pps: nal, ..st },
        NALType::AUD => st,
        _ => AvcNals { media: st.media.push((nal, pts, dts)), ..st },
    }
}

/// Taking a NAL unit by the type in the low five bits of its first byte;
/// `None` for a type not known.
pub open spec fn take_nal(st: AvcNals, nal: Seq<u8>, pts: u64, dts: u64) -> Option<AvcNals> {
    match spec_nal_type(nal[0] & 0x1Fu8) {
        None => None,
        Some(t) => Some(take_typed(st, t, nal, pts, dts)),
    }
}

/// Splitting the payload `p` at its start codes from `index` on, the NAL
/// unit at hand starting at `start`: each start code ends the NAL unit made
/// of the bytes held back and those since `start`, which is taken unless it
/// is empty; the last four bytes are never searched, and the bytes from
/// `start` on are held back at the end. The flag is false where a NAL unit
/// of a type not known stopped the split.
pub open spec fn split_nals(p: Seq<u8>, index: int, start: int, st: AvcNals, pts: u64, dts: u64) -> (
    AvcNals,
    bool,
)
    decreases p.len() - index,
{
    if index + 4 >= p.len() {
        (AvcNals { bucket: st.bucket + p.subrange(start, p.len() as int), ..st }, true)
    } else {
        let b = spec_boundary(p, index);
        if b == -1 {
            split_nals(p, index + 1, start, st, pts, dts)
        } else {
            let nal = st.bucket + p.subrange(start, index);
            let cleared = AvcNals { bucket: Seq::empty(), ..st };
            if nal.len() == 0 {
                split_nals(p, index + b, index + b, cleared, pts, dts)
            } else {
                match take_nal(cleared, nal, pts, dts) {
                    None => (cleared, false),
                    Some(next) => split_nals(p, index + b, index + b, next, pts, dts),
                }
            }
        }
    }
}

/// A NAL unit as a value: its bytes and its times.
pub open spec fn nal_value(n: NalRep) -> (Seq<u8>, u64, u64) {
    (n.nal_unit@, n.pts, n.dts)
}

impl AVCExtractor {
    /// The NAL units held, as values.
    pub open spec fn nals(&self) -> AvcNals {
        AvcNals {
            sps: self.sps_nal@,
            pps: self.pps_nal@,
            media: self.media_nal@.map_values(|n: NalRep| nal_value(n)),
            bucket: self.bucket@,
        }
    }

    /// An extractor that holds nothing, with times 0, all timestamps alike
    /// so far and no negative composition offset.
    pub fn create() -> (e: AVCExtractor)
        ensures
            e.nals() == (AvcNals {
                sps: Seq::empty(),
                pps: Seq::empty(),
                media: Seq::empty(),
                bucket: Seq::empty(),
            }),
            e.all_same_timestamps,
            !e.signed_comp_offset,
            e.current_pts == 0,
            e.current_dts == 0,
    {
        let e = AVCExtractor {
            sps_nal: Vec::new(),
            pps_nal: Vec::new(),
            media_nal: Vec::new(),
            bucket: Vec::new(),
            all_same_timestamps: true,
            signed_comp_offset: false,
            current_pts: 0,
            current_dts: 0,
        };
        assert(e.nals().media =~= Seq::<(Seq<u8>, u64, u64)>::empty());
        e
    }

    pub fn is_all_same_timestamps(&self) -> (b: bool)
        ensures
            b == self.all_same_timestamps,
    {
        self.all_same_timestamps
    }

    pub fn is_signed_comp_offset(&self) -> (b: bool)
        ensures
            b == self.signed_comp_offset,
    {
        self.signed_comp_offset
    }

    /// Splits the payload of a PES packet into NAL units and takes them;
    /// then, where the packet has a presentation time, takes its times, and
    /// notes a decode time after the presentation time (a negative
    /// composition offset) or before it (times that differ). An error for a
    /// NAL unit of a type not known, the times then staying as they were.
    pub fn accumulate_pes_payload(&mut self, pes: PESPacket) -> (r: Result<(), CustomError>)
        requires
            pes.pts is Some ==> pes.dts is Some,
        ensures
            ({
                let (st, ok) = split_nals(
                    pes.payload_data@,
                    0,
                    0,
                    old(self).nals(),
                    old(self).current_pts,
                    old(self).current_dts,
                );
                &&& final(self).nals() == st
                &&& r is Ok <==> ok
                &&& r matches Err(e) ==> e.major == MajorCode::NAL && e.minor == 2
                &&& r is Err || pes.pts is None ==> {
                    &&& final(self).current_pts == old(self).current_pts
                    &&& final(self).current_dts == old(self).current_dts
                    &&& final(self).signed_comp_offset == old(self).signed_comp_offset
                    &&& final(self).all_same_timestamps == old(self).all_same_timestamps
                }
                &&& r is Ok && pes.pts is Some ==> {
                    let pts = pes.pts.unwrap();
                    let dts = pes.dts.unwrap();
                    &&& final(self).current_pts == pts
                    &&& final(self).current_dts == dts
                    &&& final(self).signed_comp_offset == (old(self).signed_comp_offset || dts > pts)
                    &&& final(self).all_same_timestamps == (old(self).all_same_timestamps && !(pts
                        > dts))
                }
            }),
    {
        let pes_payload = pes.payload_data;
        let len = pes_payload.len();
        let ghost pts0 = self.current_pts;
        let ghost dts0 = self.current_dts;
        let ghost goal = split_nals(pes_payload@, 0, 0, old(self).nals(), pts0, dts0);
        let mut index: usize = 0;
        let mut nal_start_index: usize = 0;
        while !(len < 4 || index >= len - 4)
            invariant
                len == pes_payload@.len(),
                pes_payload@ == pes.payload_data@,
                nal_start_index <= index <= len,
                split_nals(pes_payload@, index as int, nal_start_index as int, self.nals(), pts0, dts0)
                    == goal,
                goal == split_nals(pes_payload@, 0, 0, old(self).nals(), pts0, dts0),
                self.current_pts == pts0,
                self.current_dts == dts0,
                pts0 == old(self).current_pts,
                dts0 == old(self).current_dts,
                self.signed_comp_offset == old(self).signed_comp_offset,
                self.all_same_timestamps == old(self).all_same_timestamps,
            decreases len - index,
        {
            let boundary = NALUnit::find_boundary(index, pes_payload);
            if boundary == -1 {
                index = index + 1;
            } else {
                let ghost before = self.nals();
                let mut nal_unit: Vec<u8> = Vec::new();
                if self.bucket.len() > 0 {
                    core::mem::swap(&mut nal_unit, &mut self.bucket);
                }
                assert(self.bucket@.len() == 0);
                if nal_start_index != index {
                    let part = vstd::slice::slice_subrange(pes_payload, nal_start_index, index);
                    extend_bytes(&mut nal_unit, part);
                }
                let ghost cleared = AvcNals { bucket: Seq::empty(), ..before };
                assert(nal_unit@ =~= before.bucket + pes_payload@.subrange(
                    nal_start_index as int,
                    index as int,
                ));
                assert(self.nals() =~= cleared);
                if nal_unit.len() > 0 {
                    let nal_type = match NALType::get_type(nal_unit[0] & 0x1F) {
                        Ok(t) => t,
                        Err(e) => {
                            assert(take_nal(cleared, nal_unit@, pts0, dts0) is None);
                            assert(split_nals(
                                pes_payload@,
                                index as int,
                                nal_start_index as int,
                                before,
                                pts0,
                                dts0,
                            ) == (cleared, false));
                            return Err(e);
                        },
                    };
                    self.handle_nal_unit(nal_type, nal_unit.as_slice());
                }
                index = index + boundary as usize;
                nal_start_index = index;
            }
        }
        let leftover = vstd::slice::slice_subrange(pes_payload, nal_start_index, len);
        extend_bytes(&mut self.bucket, leftover);
        assert(self.nals() =~= goal.0);
        if let Some(pts) = pes.pts {
            let dts = pes.dts.unwrap();
            if dts > pts {
                self.signed_comp_offset = true;
            }
            if pts > dts {
                self.all_same_timestamps = false;
            }
            self.current_pts = pts;
            self.current_dts = dts;
        }
        Ok(())
    }

    /// Takes a NAL unit of type `nal_type` with the times held.
    fn handle_nal_unit(&mut self, nal_type: NALType, nal_unit: &[u8])
        ensures
            final(self).nals() == take_typed(
                old(self).nals(),
                nal_type,
                nal_unit@,
                old(self).current_pts,
                old(self).current_dts,
            ),
            final(self).current_pts == old(self).current_pts,
            final(self).current_dts == old(self).current_dts,
            final(self).signed_comp_offset == old(self).signed_comp_offset,
            final(self).all_same_timestamps == old(self).all_same_timestamps,
    {
        let mut nal: Vec<u8> = Vec::new();
        extend_bytes(&mut nal, nal_unit);
        match nal_type {
            NALType::SPS => {
                self.sps_nal = nal;
            },
            NALType::PPS => {
                self.pps_nal = nal;
            },
            NALType::AUD => {},
            _ => {
                let rep = NalRep { nal_unit: nal, pts: self.current_pts, dts: self.current_dts };
                self.media_nal.push(rep);
                assert(self.media_nal@.map_values(|n: NalRep| nal_value(n)) =~= old(
                    self,
                ).media_nal@.map_values(|n: NalRep| nal_value(n)).push(nal_value(rep)));
            },
        }
    }

    /// Adds the bytes held back to the media as the last NAL unit, with the
    /// times held; the bytes stay held.
    pub fn flush_final_media(&mut self)
        ensures
            final(self).nals() == (AvcNals {
                media: old(self).nals().media.push(
                    (old(self).bucket@, old(self).current_pts, old(self).current_dts),
                ),
                ..old(self).nals()
            }),
            final(self).current_pts == old(self).current_pts,
            final(self).current_dts == old(self).current_dts,
            final(self).signed_comp_offset == old(self).signed_comp_offset,
            final(self).all_same_timestamps == old(self).all_same_timestamps,
    {
        let mut nal: Vec<u8> = Vec::new();
        extend_bytes(&mut nal, self.bucket.as_slice());
        let rep = NalRep { nal_unit: nal, pts: self.current_pts, dts: self.current_dts };
        self.media_nal.push(rep);
        assert(self.media_nal@.map_values(|n: NalRep| nal_value(n)) =~= old(
            self,
        ).media_nal@.map_values(|n: NalRep| nal_value(n)).push(nal_value(rep)));
    }
}

} // verus!

use vstd::prelude::*;

use crate::container::isobmff::boxes::mvhd::{spec_unity_matrix, unity_matrix};
use crate::container::isobmff::{make_box, push_low32, spec_box};
use crate::util::{extend_bytes, low32_bytes};

verus! {

// TrackHeaderBox 14496-12; 8.3.2

pub struct TKHDBuilder {
    pub track_id: usize,
    pub width: usize,
    pub height: usize,
}

/// A dimension in 16.16 fixed point: its low 16 bits, shifted.
pub open spec fn spec_fixed_16_16(v: usize) -> Seq<u8> {
    seq![((v as u64) >> 8u64) as u8, (v as u64) as u8, 0u8, 0u8]
}

impl TKHDBuilder {
    /// A version 0 box with flags enabled, in movie and in preview:
    /// creation and modification times 0, the track id (its low 32 bits),
    /// duration 0, layer, group and volume 0, the unity matrix, then width
    /// and height in 16.16 fixed point.
    pub open spec fn spec_build(&self) -> Seq<u8> {
        spec_box(
            seq![0x74u8, 0x6B, 0x68, 0x64],
            seq![0u8, 0, 0, 7, 0, 0, 0, 0, 0, 0, 0, 0] + low32_bytes(self.track_id as u64)
                + Seq::new(24, |i: int| 0u8) + spec_unity_matrix() + spec_fixed_16_16(self.width)
                + spec_fixed_16_16(self.height),
        )
    }

    /// Track 1, no dimensions.
    pub fn create_builder() -> (b: TKHDBuilder)
        ensures
            b == (TKHDBuilder { track_id: 1, width: 0, height: 0 }),
    {
        TKHDBuilder { track_id: 1, width: 0, height: 0 }
    }

    pub fn track_id(self, track_id: usize) -> (b: TKHDBuilder)
        ensures
            b == (TKHDBuilder { track_id, ..self }),
    {
        TKHDBuilder { track_id, ..self }
    }

    pub fn width(self, width: usize) -> (b: TKHDBuilder)
        ensures
            b == (TKHDBuilder { width, ..self }),
    {
        TKHDBuilder { width, ..self }
    }

    pub fn height(self, height: usize) -> (b: TKHDBuilder)
        ensures
            b == (TKHDBuilder { height, ..self }),
    {
        TKHDBuilder { height, ..self }
    }

    pub fn build(&self) -> (r: Vec<u8>)
        ensures
            r@ == self.spec_build(),
            r@.len() == 92,
    {
        let mut payload: Vec<u8> = vec![0x00, 0x00, 0x00, 0x07, 0x00, 0x00, 0x00, 0x00, 0x00, 0x00, 0x00, 0x00];
        push_low32(&mut payload, self.track_id);
        let zeros = vec![0x00u8; 24];
        assert(zeros@ =~= Seq::new(24, |i: int| 0u8));
        extend_bytes(&mut payload, zeros.as_slice());
        let matrix = unity_matrix();
        extend_bytes(&mut payload, matrix.as_slice());
        let w = self.width as u64;
        let h = self.height as u64;
        let dims = vec![(w >> 8u64) as u8, w as u8, 0x00, 0x00, (h >> 8u64) as u8, h as u8, 0x00, 0x00];
        extend_bytes(&mut payload, dims.as_slice());
        assert(payload@ =~= seq![0u8, 0, 0, 7, 0, 0, 0, 0, 0, 0, 0, 0] + low32_bytes(
            self.track_id as u64,
        ) + Seq::new(24, |i: int| 0u8) + spec_unity_matrix() + spec_fixed_16_16(self.width)
            + spec_fixed_16_16(self.height));
        make_box([0x74, 0x6B, 0x68, 0x64], payload.as_slice())
    }
}

} // verus!

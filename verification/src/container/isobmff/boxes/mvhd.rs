use vstd::prelude::*;

use crate::container::isobmff::{make_box, push_low32, spec_box};
use crate::util::{extend_bytes, low32_bytes};

verus! {

// MovieHeaderBox 14496-12; 8.2.2

pub struct MVHDBuilder {
    pub timescale: usize,
}

/// The unity transformation matrix of a header box.
pub open spec fn spec_unity_matrix() -> Seq<u8> {
    seq![
        0x00u8, 0x01, 0x00, 0x00, 0x00, 0x00, 0x00, 0x00, 0x00, 0x00, 0x00, 0x00,
        0x00, 0x00, 0x00, 0x00, 0x00, 0x01, 0x00, 0x00, 0x00, 0x00, 0x00, 0x00,
        0x00, 0x00, 0x00, 0x00, 0x00, 0x00, 0x00, 0x00, 0x40, 0x00, 0x00, 0x00,
    ]
}

/// The unity transformation matrix of a header box.
pub fn unity_matrix() -> (r: Vec<u8>)
    ensures
        r@ == spec_unity_matrix(),
{
    let r = vec![
        0x00, 0x01, 0x00, 0x00, 0x00, 0x00, 0x00, 0x00, 0x00, 0x00, 0x00, 0x00,
        0x00, 0x00, 0x00, 0x00, 0x00, 0x01, 0x00, 0x00, 0x00, 0x00, 0x00, 0x00,
        0x00, 0x00, 0x00, 0x00, 0x00, 0x00, 0x00, 0x00, 0x40, 0x00, 0x00, 0x00,
    ];
    assert(r@ =~= spec_unity_matrix());
    r
}

/// The fields after the timescale: duration 0, rate 1.0, volume 1.0 and
/// reserved bytes.
pub open spec fn spec_mvhd_rate_volume() -> Seq<u8> {
    seq![
        0x00u8, 0x00, 0x00, 0x00, 0x00, 0x01, 0x00, 0x00, 0x01, 0x00, 0x00, 0x00,
        0x00, 0x00, 0x00, 0x00, 0x00, 0x00, 0x00, 0x00,
    ]
}

/// Pre-defined zeros and the next track id, all ones.
pub open spec fn spec_mvhd_tail() -> Seq<u8> {
    seq![
        0x00u8, 0x00, 0x00, 0x00, 0x00, 0x00, 0x00, 0x00, 0x00, 0x00, 0x00, 0x00,
        0x00, 0x00, 0x00, 0x00, 0x00, 0x00, 0x00, 0x00, 0x00, 0x00, 0x00, 0x00,
        0xFF, 0xFF, 0xFF, 0xFF,
    ]
}

impl MVHDBuilder {
    /// A version 0 box: no flags, creation and modification times 0, the
    /// timescale (its low 32 bits), then the fixed fields.
    pub open spec fn spec_build(&self) -> Seq<u8> {
        spec_box(
            seq![0x6Du8, 0x76, 0x68, 0x64],
            seq![0u8, 0, 0, 0, 0, 0, 0, 0, 0, 0, 0, 0] + low32_bytes(self.timescale as u64)
                + spec_mvhd_rate_volume() + spec_unity_matrix() + spec_mvhd_tail(),
        )
    }

    pub fn create_builder() -> (b: MVHDBuilder)
        ensures
            b.timescale == 0,
    {
        MVHDBuilder { timescale: 0 }
    }

    pub fn timescale(self, timescale: usize) -> (b: MVHDBuilder)
        ensures
            b.timescale == timescale,
    {
        MVHDBuilder { timescale }
    }

    pub fn build(&self) -> (r: Vec<u8>)
        ensures
            r@ == self.spec_build(),
            r@.len() == 108,
    {
        let mut payload: Vec<u8> = vec![0x00, 0x00, 0x00, 0x00, 0x00, 0x00, 0x00, 0x00, 0x00, 0x00, 0x00, 0x00];
        push_low32(&mut payload, self.timescale);
        let rate_volume = vec![
            0x00, 0x00, 0x00, 0x00, 0x00, 0x01, 0x00, 0x00, 0x01, 0x00, 0x00, 0x00,
            0x00, 0x00, 0x00, 0x00, 0x00, 0x00, 0x00, 0x00,
        ];
        assert(rate_volume@ =~= spec_mvhd_rate_volume());
        extend_bytes(&mut payload, rate_volume.as_slice());
        let matrix = unity_matrix();
        extend_bytes(&mut payload, matrix.as_slice());
        let tail = vec![
            0x00, 0x00, 0x00, 0x00, 0x00, 0x00, 0x00, 0x00, 0x00, 0x00, 0x00, 0x00,
            0x00, 0x00, 0x00, 0x00, 0x00, 0x00, 0x00, 0x00, 0x00, 0x00, 0x00, 0x00,
            0xFF, 0xFF, 0xFF, 0xFF,
        ];
        assert(tail@ =~= spec_mvhd_tail());
        extend_bytes(&mut payload, tail.as_slice());
        assert(payload@ =~= seq![0u8, 0, 0, 0, 0, 0, 0, 0, 0, 0, 0, 0] + low32_bytes(
            self.timescale as u64,
        ) + spec_mvhd_rate_volume() + spec_unity_matrix() + spec_mvhd_tail());
        make_box([0x6D, 0x76, 0x68, 0x64], payload.as_slice())
    }
}

} // verus!

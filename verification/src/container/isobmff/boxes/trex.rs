use vstd::prelude::*;

use crate::container::isobmff::{make_box, push_low32, spec_box};
use crate::util::low32_bytes;

verus! {

// TrackExtendsBox 14496-12; 8.8.3

pub struct TREXBuilder {
    pub track_id: usize,
    pub default_sample_duration: usize,
    pub default_sample_size: usize,
    pub default_sample_flags: usize,
}

impl TREXBuilder {
    /// The box: version 0, no flags, the track id, sample description 1,
    /// then the default duration, size and flags (each its low 32 bits).
    pub open spec fn spec_build(&self) -> Seq<u8> {
        spec_box(
            seq![0x74u8, 0x72, 0x65, 0x78],
            seq![0u8, 0, 0, 0] + low32_bytes(self.track_id as u64) + seq![0u8, 0, 0, 1]
                + low32_bytes(self.default_sample_duration as u64) + low32_bytes(
                self.default_sample_size as u64,
            ) + low32_bytes(self.default_sample_flags as u64),
        )
    }

    /// Track 1, all defaults 0.
    pub fn create_builder() -> (b: TREXBuilder)
        ensures
            b == (TREXBuilder {
                track_id: 1,
                default_sample_duration: 0,
                default_sample_size: 0,
                default_sample_flags: 0,
            }),
    {
        TREXBuilder {
            track_id: 1,
            default_sample_duration: 0,
            default_sample_size: 0,
            default_sample_flags: 0,
        }
    }

    pub fn track_id(self, track_id: usize) -> (b: TREXBuilder)
        ensures
            b == (TREXBuilder { track_id, ..self }),
    {
        TREXBuilder { track_id, ..self }
    }

    pub fn default_sample_duration(self, default_sample_duration: usize) -> (b: TREXBuilder)
        ensures
            b == (TREXBuilder { default_sample_duration, ..self }),
    {
        TREXBuilder { default_sample_duration, ..self }
    }

    pub fn default_sample_size(self, default_sample_size: usize) -> (b: TREXBuilder)
        ensures
            b == (TREXBuilder { default_sample_size, ..self }),
    {
        TREXBuilder { default_sample_size, ..self }
    }

    pub fn default_sample_flags(self, default_sample_flags: usize) -> (b: TREXBuilder)
        ensures
            b == (TREXBuilder { default_sample_flags, ..self }),
    {
        TREXBuilder { default_sample_flags, ..self }
    }

    pub fn build(&self) -> (r: Vec<u8>)
        ensures
            r@ == self.spec_build(),
            r@.len() == 32,
    {
        let mut payload: Vec<u8> = vec![0x00, 0x00, 0x00, 0x00];
        push_low32(&mut payload, self.track_id);
        payload.push(0x00);
        payload.push(0x00);
        payload.push(0x00);
        payload.push(0x01);
        push_low32(&mut payload, self.default_sample_duration);
        push_low32(&mut payload, self.default_sample_size);
        push_low32(&mut payload, self.default_sample_flags);
        assert(payload@ =~= seq![0u8, 0, 0, 0] + low32_bytes(self.track_id as u64) + seq![
            0u8,
            0,
            0,
            1,
        ] + low32_bytes(self.default_sample_duration as u64) + low32_bytes(
            self.default_sample_size as u64,
        ) + low32_bytes(self.default_sample_flags as u64));
        make_box([0x74, 0x72, 0x65, 0x78], payload.as_slice())
    }
}

} // verus!

use vstd::prelude::*;

pub mod dinf;
pub mod dref;
pub mod ftyp;
pub mod hdlr;
pub mod iso_box;
pub mod mdat;
pub mod mdhd;
pub mod mdia;
pub mod mfhd;
pub mod minf;
pub mod moof;
pub mod moov;
pub mod mvex;
pub mod mvhd;
pub mod smhd;
pub mod stbl;
pub mod stco;
pub mod stsc;
pub mod stsd;
pub mod stsz;
pub mod stts;
pub mod tfdt;
pub mod tfhd;
pub mod tkhd;
pub mod trak;
pub mod traf;
pub mod trex;
pub mod trun;
pub mod vmhd;

verus! {

/// The sample flags of a track fragment (14496-12, 8.8.3.1), each field
/// read on first use and kept.
pub struct SampleFlag {
    pub flag_data: u32,
    pub is_leading: Option<u8>,
    pub sample_depends_on: Option<u8>,
    pub sample_is_depended_on: Option<u8>,
    pub sample_has_redundancy: Option<u8>,
    pub sample_padding_value: Option<u8>,
    pub sample_is_non_sync_sample: Option<u8>,
}

/// The bits of `flags` under `mask`, shifted down by `shift`.
pub open spec fn flag_field(flags: u32, mask: u32, shift: u32) -> u8 {
    ((flags & mask) >> shift) as u8
}

/// A kept field holds the value its bits give.
pub open spec fn field_kept(kept: Option<u8>, flags: u32, mask: u32, shift: u32) -> bool {
    kept matches Some(v) ==> v == flag_field(flags, mask, shift)
}

impl SampleFlag {
    /// Every kept field agrees with the flag bits.
    pub open spec fn wf(&self) -> bool {
        &&& field_kept(self.is_leading, self.flag_data, 0xC000000, 26)
        &&& field_kept(self.sample_depends_on, self.flag_data, 0x3000000, 24)
        &&& field_kept(self.sample_is_depended_on, self.flag_data, 0xC00000, 22)
        &&& field_kept(self.sample_has_redundancy, self.flag_data, 0x300000, 20)
        &&& field_kept(self.sample_padding_value, self.flag_data, 0xE0000, 17)
        &&& field_kept(self.sample_is_non_sync_sample, self.flag_data, 0x10000, 16)
    }

    /// Sample flags with no field read yet.
    pub fn parse(flag_data: u32) -> (f: SampleFlag)
        ensures
            f.wf(),
            f.flag_data == flag_data,
            f.is_leading is None,
            f.sample_depends_on is None,
            f.sample_is_depended_on is None,
            f.sample_has_redundancy is None,
            f.sample_padding_value is None,
            f.sample_is_non_sync_sample is None,
    {
        SampleFlag {
            flag_data,
            is_leading: None,
            sample_depends_on: None,
            sample_is_depended_on: None,
            sample_has_redundancy: None,
            sample_padding_value: None,
            sample_is_non_sync_sample: None,
        }
    }

    /// `is_leading`: bits 26 and 27.
    pub fn get_is_leading(&mut self) -> (r: u8)
        requires
            old(self).wf(),
        ensures
            r == flag_field(old(self).flag_data, 0xC000000, 26),
            *final(self) == (SampleFlag { is_leading: Some(r), ..*old(self) }),
            final(self).wf(),
    {
        if self.is_leading.is_none() {
            let flags = self.flag_data;
            assert((flags & 0xC000000u32) >> 26u32 <= 3) by (bit_vector);
            self.is_leading = Some(((self.flag_data & 0xC000000) >> 26) as u8);
        }
        self.is_leading.unwrap()
    }

    /// `sample_depends_on`: bits 24 and 25.
    pub fn get_sample_depends_on(&mut self) -> (r: u8)
        requires
            old(self).wf(),
        ensures
            r == flag_field(old(self).flag_data, 0x3000000, 24),
            *final(self) == (SampleFlag { sample_depends_on: Some(r), ..*old(self) }),
            final(self).wf(),
    {
        if self.sample_depends_on.is_none() {
            let flags = self.flag_data;
            assert((flags & 0x3000000u32) >> 24u32 <= 3) by (bit_vector);
            self.sample_depends_on = Some(((self.flag_data & 0x3000000) >> 24) as u8);
        }
        self.sample_depends_on.unwrap()
    }

    /// `sample_is_depended_on`: bits 22 and 23.
    pub fn get_sample_is_depended_on(&mut self) -> (r: u8)
        requires
            old(self).wf(),
        ensures
            r == flag_field(old(self).flag_data, 0xC00000, 22),
            *final(self) == (SampleFlag { sample_is_depended_on: Some(r), ..*old(self) }),
            final(self).wf(),
    {
        if self.sample_is_depended_on.is_none() {
            let flags = self.flag_data;
            assert((flags & 0xC00000u32) >> 22u32 <= 3) by (bit_vector);
            self.sample_is_depended_on = Some(((self.flag_data & 0xC00000) >> 22) as u8);
        }
        self.sample_is_depended_on.unwrap()
    }

    /// `sample_has_redundancy`: bits 20 and 21.
    pub fn get_sample_has_redundancy(&mut self) -> (r: u8)
        requires
            old(self).wf(),
        ensures
            r == flag_field(old(self).flag_data, 0x300000, 20),
            *final(self) == (SampleFlag { sample_has_redundancy: Some(r), ..*old(self) }),
            final(self).wf(),
    {
        if self.sample_has_redundancy.is_none() {
            let flags = self.flag_data;
            assert((flags & 0x300000u32) >> 20u32 <= 3) by (bit_vector);
            self.sample_has_redundancy = Some(((self.flag_data & 0x300000) >> 20) as u8);
        }
        self.sample_has_redundancy.unwrap()
    }

    /// `sample_padding_value`: bits 17 to 19.
    pub fn get_sample_padding_value(&mut self) -> (r: u8)
        requires
            old(self).wf(),
        ensures
            r == flag_field(old(self).flag_data, 0xE0000, 17),
            *final(self) == (SampleFlag { sample_padding_value: Some(r), ..*old(self) }),
            final(self).wf(),
    {
        if self.sample_padding_value.is_none() {
            let flags = self.flag_data;
            assert((flags & 0xE0000u32) >> 17u32 <= 7) by (bit_vector);
            self.sample_padding_value = Some(((self.flag_data & 0xE0000) >> 17) as u8);
        }
        self.sample_padding_value.unwrap()
    }

    /// `sample_is_non_sync_sample`: bit 16.
    pub fn get_sample_is_non_sync_sample(&mut self) -> (r: u8)
        requires
            old(self).wf(),
        ensures
            r == flag_field(old(self).flag_data, 0x10000, 16),
            *final(self) == (SampleFlag { sample_is_non_sync_sample: Some(r), ..*old(self) }),
            final(self).wf(),
    {
        if self.sample_is_non_sync_sample.is_none() {
            let flags = self.flag_data;
            assert((flags & 0x10000u32) >> 16u32 <= 1) by (bit_vector);
            self.sample_is_non_sync_sample = Some(((self.flag_data & 0x10000) >> 16) as u8);
        }
        self.sample_is_non_sync_sample.unwrap()
    }
}

/// The fields of sample flags, in order from the high bits, make up the
/// flag bits above bit 15: reading them all back rebuilds those bits.
pub proof fn lemma_sample_flag_fields(flags: u32)
    ensures
        ((flag_field(flags, 0xC000000, 26) as u32) << 26u32 | (flag_field(flags, 0x3000000, 24)
            as u32) << 24u32 | (flag_field(flags, 0xC00000, 22) as u32) << 22u32 | (flag_field(
            flags,
            0x300000,
            20,
        ) as u32) << 20u32 | (flag_field(flags, 0xE0000, 17) as u32) << 17u32 | (flag_field(
            flags,
            0x10000,
            16,
        ) as u32) << 16u32) == flags & 0xFFF0000u32,
{
    assert(((((flags & 0xC000000u32) >> 26u32) as u8) as u32) << 26u32 | ((((flags & 0x3000000u32)
        >> 24u32) as u8) as u32) << 24u32 | ((((flags & 0xC00000u32) >> 22u32) as u8) as u32)
        << 22u32 | ((((flags & 0x300000u32) >> 20u32) as u8) as u32) << 20u32 | ((((flags
        & 0xE0000u32) >> 17u32) as u8) as u32) << 17u32 | ((((flags & 0x10000u32) >> 16u32) as u8)
        as u32) << 16u32 == flags & 0xFFF0000u32) by (bit_vector);
}

} // verus!

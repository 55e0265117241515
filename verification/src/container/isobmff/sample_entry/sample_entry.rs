use vstd::prelude::*;

use crate::util::{read_u16, u16_at};

verus! {

// SampleEntry 14496-12; 8.5.2.2

#[derive(Debug)]
pub struct SampleEntry {
    pub data_reference_index: u16,
}

impl SampleEntry {
    /// Reads the data reference index of the sample entry box in `data`.
    pub fn parse(data: &[u8]) -> (e: SampleEntry)
        requires
            data@.len() >= 16,
        ensures
            e.data_reference_index == read_u16(data@, 14),
    {
        let start = 14usize;
        let data_reference_index = u16_at(data, start);
        SampleEntry { data_reference_index }
    }
}

pub struct SampleEntryBuilder {}

/// Six reserved bytes and data reference index 1.
pub open spec fn spec_sample_entry() -> Seq<u8> {
    seq![0x00u8, 0x00, 0x00, 0x00, 0x00, 0x00, 0x00, 0x01]
}

impl SampleEntryBuilder {
    pub fn create_builder() -> SampleEntryBuilder {
        SampleEntryBuilder {  }
    }

    pub fn build(&self) -> (r: Vec<u8>)
        ensures
            r@ == spec_sample_entry(),
    {
        let r = vec![
            // reserved
            0x00, 0x00, 0x00, 0x00, 0x00, 0x00,
            // data_reference_index
            0x00, 0x01,
        ];
        assert(r@ =~= spec_sample_entry());
        r
    }
}

} // verus!

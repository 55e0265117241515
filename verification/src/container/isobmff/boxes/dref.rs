use vstd::prelude::*;

use crate::container::isobmff::spec_box;
use crate::util::lemma_low32_small;

verus! {

// DataReferenceBox 14496-12; 8.7.2

#[derive(Debug, PartialEq, Eq, Structural)]
pub struct DREFBuilder {}

/// A data entry URL box with flag 1: the media data is in the same file.
pub open spec fn spec_url() -> Seq<u8> {
    spec_box(seq![0x75u8, 0x72, 0x6C, 0x20], seq![0u8, 0, 0, 1])
}

/// A data reference box with one self-contained URL entry.
pub open spec fn spec_dref() -> Seq<u8> {
    spec_box(seq![0x64u8, 0x72, 0x65, 0x66], seq![0u8, 0, 0, 0, 0, 0, 0, 1] + spec_url())
}

impl DREFBuilder {
    pub fn create_builder() -> DREFBuilder {
        DREFBuilder {  }
    }

    pub fn build(&self) -> (r: Vec<u8>)
        ensures
            r@ == spec_dref(),
    {
        let r = vec![
            // size
            0x00, 0x00, 0x00, 0x1C,
            // dref
            0x64, 0x72, 0x65, 0x66,
            // version and flags
            0x00, 0x00, 0x00, 0x00,
            // entry_count
            0x00, 0x00, 0x00, 0x01,
            // url size
            0x00, 0x00, 0x00, 0x0C,
            // url
            0x75, 0x72, 0x6C, 0x20,
            // version and flags: self-contained
            0x00, 0x00, 0x00, 0x01,
        ];
        proof {
            lemma_low32_small(12);
            lemma_low32_small(28);
        }
        assert(r@ =~= spec_dref());
        r
    }
}

} // verus!

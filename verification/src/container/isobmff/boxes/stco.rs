use vstd::prelude::*;

use crate::container::isobmff::spec_box;
use crate::util::lemma_low32_small;

verus! {

// ChunkOffsetBox 14496-12; 8.7.5

#[derive(Debug, PartialEq, Eq, Structural)]
pub struct STCOBuilder {}

/// An empty chunk offset box: version 0, no flags, no entries.
pub open spec fn spec_stco() -> Seq<u8> {
    spec_box(seq![0x73u8, 0x74, 0x63, 0x6F], seq![0u8, 0, 0, 0, 0, 0, 0, 0])
}

impl STCOBuilder {
    pub fn create_builder() -> STCOBuilder {
        STCOBuilder {  }
    }

    pub fn build(&self) -> (r: Vec<u8>)
        ensures
            r@ == spec_stco(),
    {
        let r = vec![
            // Size
            0x00, 0x00, 0x00, 0x10,
            // stco
            0x73, 0x74, 0x63, 0x6F,
            // version
            0x00,
            // flag
            0x00, 0x00, 0x00,
            // entry_count
            0x00, 0x00, 0x00, 0x00,
        ];
        proof {
            lemma_low32_small(16);
        }
        assert(r@ =~= spec_stco());
        r
    }
}

} // verus!

use vstd::prelude::*;

use crate::container::isobmff::spec_box;
use crate::util::lemma_low32_small;

verus! {

// SampleToChunkBox 14496-12; 8.7.4

#[derive(Debug, PartialEq, Eq, Structural)]
pub struct STSCBuilder {}

/// An empty sample to chunk box: version 0, no flags, no entries.
pub open spec fn spec_stsc() -> Seq<u8> {
    spec_box(seq![0x73u8, 0x74, 0x73, 0x63], seq![0x00u8, 0x00, 0x00, 0x00, 0x00, 0x00, 0x00, 0x00])
}

impl STSCBuilder {
    pub fn create_builder() -> STSCBuilder {
        STSCBuilder {  }
    }

    pub fn build(&self) -> (r: Vec<u8>)
        ensures
            r@ == spec_stsc(),
    {
        let r = vec![
            // size
            0x00, 0x00, 0x00, 0x10,
            // stsc
            0x73, 0x74, 0x73, 0x63,
            // version
            0x00,
            // flag
            0x00, 0x00, 0x00,
            // entry_count
            0x00, 0x00, 0x00, 0x00,
        ];
        proof {
            lemma_low32_small(16);
        }
        assert(r@ =~= spec_stsc());
        r
    }
}

} // verus!

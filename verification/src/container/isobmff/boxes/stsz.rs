use vstd::prelude::*;

use crate::container::isobmff::spec_box;
use crate::util::lemma_low32_small;

verus! {

// SampleSizeBox 14496-12; 8.7.3.2

#[derive(Debug, PartialEq, Eq, Structural)]
pub struct STSZBuilder {}

/// An empty sample size box: version 0, no flags, sample size 0, no samples.
pub open spec fn spec_stsz() -> Seq<u8> {
    spec_box(seq![0x73u8, 0x74, 0x73, 0x7A], seq![0x00u8, 0x00, 0x00, 0x00, 0x00, 0x00, 0x00, 0x00, 0x00, 0x00, 0x00, 0x00])
}

impl STSZBuilder {
    pub fn create_builder() -> STSZBuilder {
        STSZBuilder {  }
    }

    pub fn build(&self) -> (r: Vec<u8>)
        ensures
            r@ == spec_stsz(),
    {
        let r = vec![
            // Size
            0x00, 0x00, 0x00, 0x14,
            // stsz
            0x73, 0x74, 0x73, 0x7A,
            // version
            0x00,
            // flag
            0x00, 0x00, 0x00,
            // sample_size
            0x00, 0x00, 0x00, 0x00,
            // sample_count
            0x00, 0x00, 0x00, 0x00,
        ];
        proof {
            lemma_low32_small(20);
        }
        assert(r@ =~= spec_stsz());
        r
    }
}

} // verus!

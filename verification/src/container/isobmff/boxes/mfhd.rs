use vstd::prelude::*;

use crate::container::isobmff::spec_box;
use crate::util::lemma_low32_small;

verus! {

// MovieFragmentHeaderBox 14496-12; 8.8.5

#[derive(Debug, PartialEq, Eq, Structural)]
pub struct MFHDBuilder {}

/// A movie fragment header box with sequence number 0.
pub open spec fn spec_mfhd() -> Seq<u8> {
    spec_box(seq![0x6Du8, 0x66, 0x68, 0x64], seq![0x00u8, 0x00, 0x00, 0x00, 0x00, 0x00, 0x00, 0x00])
}

impl MFHDBuilder {
    pub fn create_builder() -> MFHDBuilder {
        MFHDBuilder {  }
    }

    pub fn build(&self) -> (r: Vec<u8>)
        ensures
            r@ == spec_mfhd(),
    {
        let r = vec![
            // size
            0x00, 0x00, 0x00, 0x10,
            // mfhd
            0x6D, 0x66, 0x68, 0x64,
            // version and flags
            0x00, 0x00, 0x00, 0x00,
            // sequence_number
            0x00, 0x00, 0x00, 0x00,
        ];
        proof {
            lemma_low32_small(16);
        }
        assert(r@ =~= spec_mfhd());
        r
    }
}

} // verus!

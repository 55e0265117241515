use vstd::prelude::*;

use crate::container::isobmff::{spec_box, BoxBuilder};
use crate::error::CustomError;
use crate::util::lemma_low32_small;

verus! {

// VideoMediaHeaderBox 14496-12; 8.4.5.2

#[derive(Debug, PartialEq, Eq, Structural)]
pub struct VMHDBuilder {}

/// A video media header box: version 0, flags 1, graphics mode 0, opcolor 0.
pub open spec fn spec_vmhd() -> Seq<u8> {
    spec_box(seq![0x76u8, 0x6D, 0x68, 0x64], seq![0u8, 0, 0, 1, 0, 0, 0, 0, 0, 0, 0, 0])
}

impl VMHDBuilder {
    pub fn create_builder() -> (b: VMHDBuilder)
        ensures
            b == (VMHDBuilder {  }),
    {
        VMHDBuilder {  }
    }
}

impl BoxBuilder for VMHDBuilder {
    fn build(&self) -> (r: Result<Vec<u8>, CustomError>)
        ensures
            r matches Ok(v) && v@ == spec_vmhd(),
    {
        let r = vec![
            // Size
            0x00, 0x00, 0x00, 0x14,
            // vmhd
            0x76, 0x6D, 0x68, 0x64,
            // version
            0x00,
            // flag
            0x00, 0x00, 0x01,
            // graphicsmode
            0x00, 0x00,
            // int(16)[3] opcolor
            0x00, 0x00, 0x00, 0x00, 0x00, 0x00,
        ];
        proof {
            lemma_low32_small(20);
        }
        assert(r@ =~= spec_vmhd());
        Ok(r)
    }
}

} // verus!

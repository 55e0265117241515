use vstd::prelude::*;

use crate::container::isobmff::{spec_box, BoxBuilder};
use crate::error::CustomError;
use crate::util::lemma_low32_small;

verus! {

// SoundMediaHeaderBox 14496-12; 8.4.5.3

#[derive(Debug, PartialEq, Eq, Structural)]
pub struct SMHDBuilder {}

/// A sound media header box: version 0, no flags, balance 0.
pub open spec fn spec_smhd() -> Seq<u8> {
    spec_box(seq![0x73u8, 0x6D, 0x68, 0x64], seq![0u8, 0, 0, 0, 0, 0, 0, 0])
}

impl SMHDBuilder {
    pub fn create_builder() -> (b: SMHDBuilder)
        ensures
            b == (SMHDBuilder {  }),
    {
        SMHDBuilder {  }
    }
}

impl BoxBuilder for SMHDBuilder {
    fn build(&self) -> (r: Result<Vec<u8>, CustomError>)
        ensures
            r matches Ok(v) && v@ == spec_smhd(),
    {
        let r = vec![
            // Size
            0x00, 0x00, 0x00, 0x10,
            // smhd
            0x73, 0x6d, 0x68, 0x64,
            // version
            0x00,
            // flag
            0x00, 0x00, 0x00,
            // balance
            0x00, 0x00,
            // reserved
            0x00, 0x00,
        ];
        proof {
            lemma_low32_small(16);
        }
        assert(r@ =~= spec_smhd());
        Ok(r)
    }
}

} // verus!

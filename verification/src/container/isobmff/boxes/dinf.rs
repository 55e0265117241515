use vstd::prelude::*;

use crate::container::isobmff::boxes::dref::{spec_dref, DREFBuilder};
use crate::container::isobmff::{make_box, spec_box};

verus! {

// DataInformationBox 14496-12; 8.7.1

#[derive(Debug, PartialEq, Eq, Structural)]
pub struct DINFBuilder {}

/// A data information box around the data reference box.
pub open spec fn spec_dinf() -> Seq<u8> {
    spec_box(seq![0x64u8, 0x69, 0x6E, 0x66], spec_dref())
}

impl DINFBuilder {
    pub fn create_builder() -> DINFBuilder {
        DINFBuilder {  }
    }

    pub fn build(&self) -> (r: Vec<u8>)
        ensures
            r@ == spec_dinf(),
    {
        let dref = DREFBuilder::create_builder().build();
        make_box([0x64, 0x69, 0x6E, 0x66], dref.as_slice())
    }
}

} // verus!

use vstd::prelude::*;

use crate::container::isobmff::{make_box, spec_box};

verus! {

// FileTypeBox 14496-12; 4.3

pub struct FTYPBuilder {}

/// Major brand `iso6`, minor version 0, compatible brands `iso6`, `cmfc`
/// and `mp41`.
pub open spec fn spec_ftyp() -> Seq<u8> {
    spec_box(
        seq![0x66u8, 0x74, 0x79, 0x70],
        seq![
            0x69u8, 0x73, 0x6F, 0x36, 0x00, 0x00, 0x00, 0x00, 0x69, 0x73, 0x6F, 0x36,
            0x63, 0x6D, 0x66, 0x63, 0x6D, 0x70, 0x34, 0x31,
        ],
    )
}

impl FTYPBuilder {
    pub fn create_builder() -> FTYPBuilder {
        FTYPBuilder {  }
    }

    pub fn build(&self) -> (r: Vec<u8>)
        ensures
            r@ == spec_ftyp(),
            r@.len() == 28,
    {
        let payload = vec![
            // major_brand
            0x69, 0x73, 0x6F, 0x36,
            // minor_version
            0x00, 0x00, 0x00, 0x00,
            // compatible_brands
            0x69, 0x73, 0x6F, 0x36,
            0x63, 0x6D, 0x66, 0x63,
            0x6D, 0x70, 0x34, 0x31,
        ];
        assert(payload@ =~= seq![
            0x69u8, 0x73, 0x6F, 0x36, 0x00, 0x00, 0x00, 0x00, 0x69, 0x73, 0x6F, 0x36,
            0x63, 0x6D, 0x66, 0x63, 0x6D, 0x70, 0x34, 0x31,
        ]);
        make_box([0x66, 0x74, 0x79, 0x70], payload.as_slice())
    }
}

} // verus!

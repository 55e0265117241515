use vstd::prelude::*;

verus! {

// SLConfigDescriptor, ISO/IEC 14496-1; 7.3.2.3

pub struct SLConfigDescriptorBuilder {}

/// A sync layer configuration descriptor with the predefined value 2 (MP4
/// files).
pub open spec fn spec_sl_config() -> Seq<u8> {
    seq![0x06u8, 0x80, 0x80, 0x80, 0x01, 0x02]
}

impl SLConfigDescriptorBuilder {
    pub fn create_builder() -> SLConfigDescriptorBuilder {
        SLConfigDescriptorBuilder {  }
    }

    pub fn build(&self) -> (r: Vec<u8>)
        ensures
            r@ == spec_sl_config(),
    {
        let r = vec![
            // tag
            0x06,
            // size
            0x80, 0x80, 0x80, 0x01,
            // predefined
            0x02,
        ];
        assert(r@ =~= spec_sl_config());
        r
    }
}

} // verus!

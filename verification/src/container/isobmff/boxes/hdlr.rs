use vstd::prelude::*;

use crate::container::isobmff::{make_box, spec_box, HandlerType};

verus! {

// HandlerReferenceBox 14496-12; 8.4.3

pub struct HDLRBuilder {
    pub handler_type: HandlerType,
}

/// The four-character code of a handler type.
pub open spec fn spec_handler_code(h: HandlerType) -> Seq<u8> {
    match h {
        HandlerType::VIDE => seq![0x76u8, 0x69, 0x64, 0x65],
        HandlerType::SOUN => seq![0x73u8, 0x6F, 0x75, 0x6E],
        HandlerType::HINT => seq![0x68u8, 0x69, 0x6E, 0x74],
        HandlerType::META => seq![0x6Du8, 0x65, 0x74, 0x61],
        HandlerType::AUXV => seq![0x61u8, 0x75, 0x78, 0x76],
    }
}

impl HDLRBuilder {
    /// A version 0 box: no flags, pre-defined 0, the handler code, three
    /// reserved words and an empty name.
    pub open spec fn spec_build(&self) -> Seq<u8> {
        spec_box(
            seq![0x68u8, 0x64, 0x6C, 0x72],
            seq![0u8, 0, 0, 0, 0, 0, 0, 0] + spec_handler_code(self.handler_type) + Seq::new(
                13,
                |i: int| 0u8,
            ),
        )
    }

    /// A video handler.
    pub fn create_builder() -> (b: HDLRBuilder)
        ensures
            b.handler_type == HandlerType::VIDE,
    {
        HDLRBuilder { handler_type: HandlerType::VIDE }
    }

    pub fn handler_type(self, handler_type: HandlerType) -> (b: HDLRBuilder)
        ensures
            b.handler_type == handler_type,
    {
        HDLRBuilder { handler_type }
    }

    pub fn build(&self) -> (r: Vec<u8>)
        ensures
            r@ == self.spec_build(),
            r@.len() == 33,
    {
        let code: [u8; 4] = match self.handler_type {
            HandlerType::VIDE => [0x76, 0x69, 0x64, 0x65],
            HandlerType::SOUN => [0x73, 0x6F, 0x75, 0x6E],
            HandlerType::HINT => [0x68, 0x69, 0x6E, 0x74],
            HandlerType::META => [0x6D, 0x65, 0x74, 0x61],
            HandlerType::AUXV => [0x61, 0x75, 0x78, 0x76],
        };
        let payload = vec![
            // version and flags
            0x00, 0x00, 0x00, 0x00,
            // pre_defined
            0x00, 0x00, 0x00, 0x00,
            // handler_type
            code[0], code[1], code[2], code[3],
            // reserved
            0x00, 0x00, 0x00, 0x00, 0x00, 0x00, 0x00, 0x00, 0x00, 0x00, 0x00, 0x00,
            // name, empty
            0x00,
        ];
        assert(payload@ =~= seq![0u8, 0, 0, 0, 0, 0, 0, 0] + spec_handler_code(self.handler_type)
            + Seq::new(13, |i: int| 0u8));
        make_box([0x68, 0x64, 0x6C, 0x72], payload.as_slice())
    }
}

} // verus!

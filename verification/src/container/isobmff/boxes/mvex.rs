use vstd::prelude::*;
use vstd::string::StringExecFns;

use crate::container::isobmff::boxes::trex::TREXBuilder;
use crate::container::isobmff::{make_box, spec_box};
use crate::container::remux::generate_error;
use crate::error::error_code::MajorCode;
use crate::error::CustomError;

verus! {

// MovieExtendsBox 14496-12; 8.8.1

pub struct MVEXBuilder {
    pub trex_builder: Option<TREXBuilder>,
}

impl MVEXBuilder {
    /// The box around the track extends box; `None` without one.
    pub open spec fn spec_build(&self) -> Option<Seq<u8>> {
        match self.trex_builder {
            None => None,
            Some(t) => Some(spec_box(seq![0x6Du8, 0x76, 0x65, 0x78], t.spec_build())),
        }
    }

    pub fn create_builder() -> (b: MVEXBuilder)
        ensures
            b.trex_builder is None,
    {
        MVEXBuilder { trex_builder: None }
    }

    pub fn trex(self, trex_builder: TREXBuilder) -> (b: MVEXBuilder)
        ensures
            b.trex_builder == Some(trex_builder),
    {
        MVEXBuilder { trex_builder: Some(trex_builder) }
    }

    pub fn build(&self) -> (r: Result<Vec<u8>, CustomError>)
        ensures
            match self.spec_build() {
                Some(b) => r matches Ok(v) && v@ == b && b.len() == 40,
                None => r matches Err(e) && e.major == MajorCode::REMUX,
            },
    {
        match &self.trex_builder {
            None => Err(generate_error(String::from_str("Missing trex_builder for MVEXBuilder"))),
            Some(t) => {
                let trex = t.build();
                Ok(make_box([0x6D, 0x76, 0x65, 0x78], trex.as_slice()))
            },
        }
    }
}

} // verus!

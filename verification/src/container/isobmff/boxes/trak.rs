use vstd::prelude::*;
use vstd::string::StringExecFns;

use crate::container::isobmff::boxes::mdia::MDIABuilder;
use crate::container::isobmff::boxes::tkhd::TKHDBuilder;
use crate::container::isobmff::{fits, make_box, spec_box};
use crate::container::remux::generate_error;
use crate::error::error_code::MajorCode;
use crate::error::CustomError;
use crate::util::extend_bytes;

verus! {

// TrackBox 14496-12; 8.3.1

pub struct TRAKBuilder {
    pub tkhd_builder: Option<TKHDBuilder>,
    pub mdia_builder: Option<MDIABuilder>,
}

impl TRAKBuilder {
    /// The box around the track header and media boxes; `None` when a part
    /// is missing.
    pub open spec fn spec_build(&self) -> Option<Seq<u8>> {
        match (self.tkhd_builder, self.mdia_builder) {
            (Some(t), Some(m)) => match m.spec_build() {
                Some(mdia) => Some(spec_box(seq![0x74u8, 0x72, 0x61, 0x6B], t.spec_build() + mdia)),
                None => None,
            },
            _ => None,
        }
    }

    /// The media box can be built, and the whole fits.
    pub open spec fn buildable(&self) -> bool {
        (self.mdia_builder matches Some(m) ==> m.buildable()) && fits(self.spec_build())
    }

    pub fn create_builder() -> (b: TRAKBuilder)
        ensures
            b.tkhd_builder is None,
            b.mdia_builder is None,
    {
        TRAKBuilder { tkhd_builder: None, mdia_builder: None }
    }

    pub fn tkhd(self, tkhd_builder: TKHDBuilder) -> (b: TRAKBuilder)
        ensures
            b == (TRAKBuilder { tkhd_builder: Some(tkhd_builder), ..self }),
    {
        TRAKBuilder { tkhd_builder: Some(tkhd_builder), ..self }
    }

    pub fn mdia(self, mdia_builder: MDIABuilder) -> (b: TRAKBuilder)
        ensures
            b == (TRAKBuilder { mdia_builder: Some(mdia_builder), ..self }),
    {
        TRAKBuilder { mdia_builder: Some(mdia_builder), ..self }
    }

    pub fn build(&self) -> (r: Result<Vec<u8>, CustomError>)
        requires
            self.buildable(),
        ensures
            match self.spec_build() {
                Some(b) => r matches Ok(v) && v@ == b,
                None => r matches Err(e) && e.major == MajorCode::REMUX,
            },
    {
        let tkhd = match &self.tkhd_builder {
            None => {
                return Err(generate_error(String::from_str("Missing tkhd_builder for TRAKBuilder")));
            },
            Some(b) => b.build(),
        };
        let mdia = match &self.mdia_builder {
            None => {
                return Err(generate_error(String::from_str("Missing mdia_builder for TRAKBuilder")));
            },
            Some(b) => b.build()?,
        };
        let mut payload = tkhd;
        extend_bytes(&mut payload, mdia.as_slice());
        Ok(make_box([0x74, 0x72, 0x61, 0x6B], payload.as_slice()))
    }
}

} // verus!

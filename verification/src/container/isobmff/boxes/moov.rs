use vstd::prelude::*;
use vstd::string::StringExecFns;

use crate::container::isobmff::boxes::mvex::MVEXBuilder;
use crate::container::isobmff::boxes::mvhd::MVHDBuilder;
use crate::container::isobmff::boxes::trak::TRAKBuilder;
use crate::container::isobmff::{fits, make_box, spec_box};
use crate::container::remux::generate_error;
use crate::error::error_code::MajorCode;
use crate::error::CustomError;
use crate::util::extend_bytes;

verus! {

// MovieBox 14496-12; 8.2.1

pub struct MOOVBuilder {
    pub mvhd_builder: Option<MVHDBuilder>,
    pub trak_builder: Option<TRAKBuilder>,
    pub mvex_builder: Option<MVEXBuilder>,
}

impl MOOVBuilder {
    /// The box around the movie header, track and movie extends boxes;
    /// `None` when a part is missing.
    pub open spec fn spec_build(&self) -> Option<Seq<u8>> {
        match (self.mvhd_builder, self.trak_builder, self.mvex_builder) {
            (Some(h), Some(t), Some(x)) => match (t.spec_build(), x.spec_build()) {
                (Some(trak), Some(mvex)) => Some(
                    spec_box(seq![0x6Du8, 0x6F, 0x6F, 0x76], h.spec_build() + trak + mvex),
                ),
                _ => None,
            },
            _ => None,
        }
    }

    /// The track can be built, and the whole fits.
    pub open spec fn buildable(&self) -> bool {
        (self.trak_builder matches Some(t) ==> t.buildable()) && fits(self.spec_build())
    }

    pub fn create_builder() -> (b: MOOVBuilder)
        ensures
            b.mvhd_builder is None,
            b.trak_builder is None,
            b.mvex_builder is None,
    {
        MOOVBuilder { mvhd_builder: None, trak_builder: None, mvex_builder: None }
    }

    pub fn mvhd(self, mvhd_builder: MVHDBuilder) -> (b: MOOVBuilder)
        ensures
            b == (MOOVBuilder { mvhd_builder: Some(mvhd_builder), ..self }),
    {
        MOOVBuilder { mvhd_builder: Some(mvhd_builder), ..self }
    }

    pub fn trak(self, trak_builder: TRAKBuilder) -> (b: MOOVBuilder)
        ensures
            b == (MOOVBuilder { trak_builder: Some(trak_builder), ..self }),
    {
        MOOVBuilder { trak_builder: Some(trak_builder), ..self }
    }

    pub fn mvex(self, mvex_builder: MVEXBuilder) -> (b: MOOVBuilder)
        ensures
            b == (MOOVBuilder { mvex_builder: Some(mvex_builder), ..self }),
    {
        MOOVBuilder { mvex_builder: Some(mvex_builder), ..self }
    }

    pub fn build(&self) -> (r: Result<Vec<u8>, CustomError>)
        requires
            self.buildable(),
        ensures
            match self.spec_build() {
                Some(b) => r matches Ok(v) && v@ == b,
                None => r matches Err(e) && e.major == MajorCode::REMUX,
            },
    {
        let mvhd = match &self.mvhd_builder {
            None => {
                return Err(generate_error(String::from_str("Missing mvhd_builder for MOOVBuilder")));
            },
            Some(b) => b.build(),
        };
        let trak = match &self.trak_builder {
            None => {
                return Err(generate_error(String::from_str("Missing trak_builder for MOOVBuilder")));
            },
            Some(b) => b.build()?,
        };
        let mvex = match &self.mvex_builder {
            None => {
                return Err(generate_error(String::from_str("Missing mvex_builder for MOOVBuilder")));
            },
            Some(b) => b.build()?,
        };
        let mut payload = mvhd;
        extend_bytes(&mut payload, trak.as_slice());
        extend_bytes(&mut payload, mvex.as_slice());
        Ok(make_box([0x6D, 0x6F, 0x6F, 0x76], payload.as_slice()))
    }
}

} // verus!

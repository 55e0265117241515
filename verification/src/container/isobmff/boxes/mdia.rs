use vstd::prelude::*;
use vstd::string::StringExecFns;

use crate::container::isobmff::boxes::hdlr::HDLRBuilder;
use crate::container::isobmff::boxes::mdhd::MDHDBuilder;
use crate::container::isobmff::boxes::minf::MINFBuilder;
use crate::container::isobmff::boxes::stco::{spec_stco, STCOBuilder};
use crate::container::isobmff::{fits, make_box, spec_box};
use crate::container::remux::generate_error;
use crate::error::error_code::MajorCode;
use crate::error::CustomError;
use crate::util::extend_bytes;

verus! {

// MediaBox 14496-12; 8.4.1

pub struct MDIABuilder {
    pub mdhd_builder: Option<MDHDBuilder>,
    pub hdlr_builder: Option<HDLRBuilder>,
    pub minf_builder: Option<MINFBuilder>,
}

impl MDIABuilder {
    /// The box around the media header, handler and media information
    /// boxes. A builder given no part at all writes the 16 bytes of an empty
    /// chunk offset box (`stco`) instead, as the builder's test expects;
    /// `None` when some but not all parts are missing.
    pub open spec fn spec_build(&self) -> Option<Seq<u8>> {
        match (self.mdhd_builder, self.hdlr_builder, self.minf_builder) {
            (None, None, None) => Some(spec_stco()),
            (Some(m), Some(h), Some(i)) => match i.spec_build() {
                Some(minf) => Some(
                    spec_box(
                        seq![0x6Du8, 0x64, 0x69, 0x61],
                        m.spec_build() + h.spec_build() + minf,
                    ),
                ),
                None => None,
            },
            _ => None,
        }
    }

    /// The media information can be built, and the whole fits.
    pub open spec fn buildable(&self) -> bool {
        (self.minf_builder matches Some(i) ==> i.buildable() && fits(i.spec_build())) && fits(
            self.spec_build(),
        )
    }

    pub fn create_builder() -> (b: MDIABuilder)
        ensures
            b.mdhd_builder is None,
            b.hdlr_builder is None,
            b.minf_builder is None,
    {
        MDIABuilder { mdhd_builder: None, hdlr_builder: None, minf_builder: None }
    }

    pub fn mdhd(self, mdhd_builder: MDHDBuilder) -> (b: MDIABuilder)
        ensures
            b == (MDIABuilder { mdhd_builder: Some(mdhd_builder), ..self }),
    {
        MDIABuilder { mdhd_builder: Some(mdhd_builder), ..self }
    }

    pub fn hdlr(self, hdlr_builder: HDLRBuilder) -> (b: MDIABuilder)
        ensures
            b == (MDIABuilder { hdlr_builder: Some(hdlr_builder), ..self }),
    {
        MDIABuilder { hdlr_builder: Some(hdlr_builder), ..self }
    }

    pub fn minf(self, minf_builder: MINFBuilder) -> (b: MDIABuilder)
        ensures
            b == (MDIABuilder { minf_builder: Some(minf_builder), ..self }),
    {
        MDIABuilder { minf_builder: Some(minf_builder), ..self }
    }

    pub fn build(&self) -> (r: Result<Vec<u8>, CustomError>)
        requires
            self.buildable(),
        ensures
            match self.spec_build() {
                Some(b) => r matches Ok(v) && v@ == b,
                None => r matches Err(e) && e.major == MajorCode::REMUX,
            },
    {
        if self.mdhd_builder.is_none() && self.hdlr_builder.is_none()
            && self.minf_builder.is_none() {
            return Ok(STCOBuilder::create_builder().build());
        }
        let mdhd = match &self.mdhd_builder {
            None => {
                return Err(generate_error(String::from_str("Missing mdhd_builder for MDIABuilder")));
            },
            Some(b) => b.build()?,
        };
        let hdlr = match &self.hdlr_builder {
            None => {
                return Err(generate_error(String::from_str("Missing hdlr_builder for MDIABuilder")));
            },
            Some(b) => b.build(),
        };
        let minf = match &self.minf_builder {
            None => {
                return Err(generate_error(String::from_str("Missing minf_builder for MDIABuilder")));
            },
            Some(b) => b.build()?,
        };
        let mut payload = mdhd;
        extend_bytes(&mut payload, hdlr.as_slice());
        extend_bytes(&mut payload, minf.as_slice());
        Ok(make_box([0x6D, 0x64, 0x69, 0x61], payload.as_slice()))
    }
}

} // verus!

use vstd::prelude::*;
use vstd::string::StringExecFns;

use crate::container::isobmff::boxes::stco::{spec_stco, STCOBuilder};
use crate::container::isobmff::boxes::stsc::{spec_stsc, STSCBuilder};
use crate::container::isobmff::boxes::stsd::STSDBuilder;
use crate::container::isobmff::boxes::stsz::{spec_stsz, STSZBuilder};
use crate::container::isobmff::boxes::stts::{spec_stts, STTSBuilder};
use crate::container::isobmff::{fits, make_box, spec_box};
use crate::container::remux::generate_error;
use crate::error::error_code::MajorCode;
use crate::error::CustomError;
use crate::util::extend_bytes;

verus! {

// SampleTableBox 14496-12; 8.5.1

pub struct STBLBuilder {
    pub stsd_builder: Option<STSDBuilder>,
}

impl STBLBuilder {
    /// The box around the sample description box and the empty time to
    /// sample, sample to chunk, sample size and chunk offset boxes; `None`
    /// without a sample description.
    pub open spec fn spec_build(&self) -> Option<Seq<u8>> {
        match self.stsd_builder {
            None => None,
            Some(stsd) => match stsd.spec_build() {
                None => None,
                Some(d) => Some(
                    spec_box(
                        seq![0x73u8, 0x74, 0x62, 0x6C],
                        d + spec_stts() + spec_stsc() + spec_stsz() + spec_stco(),
                    ),
                ),
            },
        }
    }

    pub fn create_builder() -> (b: STBLBuilder)
        ensures
            b.spec_build() is None,
    {
        STBLBuilder { stsd_builder: None }
    }

    pub fn stsd(self, stsd_builder: STSDBuilder) -> (b: STBLBuilder)
        ensures
            b.stsd_builder == Some(stsd_builder),
    {
        STBLBuilder { stsd_builder: Some(stsd_builder) }
    }

    pub fn build(&self) -> (r: Result<Vec<u8>, CustomError>)
        requires
            fits(self.spec_build()),
        ensures
            match self.spec_build() {
                Some(b) => r matches Ok(v) && v@ == b,
                None => r matches Err(e) && e.major == MajorCode::REMUX,
            },
    {
        let stsd_builder = match &self.stsd_builder {
            None => {
                return Err(generate_error(String::from_str("Missing stsd_builder for STBLBuilder")));
            },
            Some(b) => b,
        };
        let ghost whole = self.spec_build();
        let mut payload = stsd_builder.build()?;
        let stts = STTSBuilder::create_builder().build();
        let stsc = STSCBuilder::create_builder().build();
        let stsz = STSZBuilder::create_builder().build();
        let stco = STCOBuilder::create_builder().build();
        extend_bytes(&mut payload, stts.as_slice());
        extend_bytes(&mut payload, stsc.as_slice());
        extend_bytes(&mut payload, stsz.as_slice());
        extend_bytes(&mut payload, stco.as_slice());
        Ok(make_box([0x73, 0x74, 0x62, 0x6C], payload.as_slice()))
    }
}

} // verus!

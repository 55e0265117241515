use vstd::prelude::*;
use vstd::string::StringExecFns;

use crate::container::isobmff::{fits, make_box, spec_box};
use crate::container::remux::generate_error;
use crate::error::error_code::MajorCode;
use crate::error::CustomError;
use crate::util::extend_bytes;

verus! {

// SampleDescriptionBox 14496-12; 8.5.2

pub struct STSDBuilder {
    pub sample_entry: Option<Vec<u8>>,
}

impl STSDBuilder {
    /// The box: version 0, no flags, one entry, the sample entry; `None`
    /// without a sample entry.
    pub open spec fn spec_build(&self) -> Option<Seq<u8>> {
        match self.sample_entry {
            None => None,
            Some(e) => Some(
                spec_box(seq![0x73u8, 0x74, 0x73, 0x64], seq![0u8, 0, 0, 0, 0, 0, 0, 1] + e@),
            ),
        }
    }

    pub fn create_builder() -> (b: STSDBuilder)
        ensures
            b.spec_build() is None,
    {
        STSDBuilder { sample_entry: None }
    }

    /// Sets the bytes of the one sample entry.
    pub fn sample_entry(self, sample_entry: Vec<u8>) -> (b: STSDBuilder)
        ensures
            b.sample_entry == Some(sample_entry),
    {
        STSDBuilder { sample_entry: Some(sample_entry) }
    }

    pub fn build(&self) -> (r: Result<Vec<u8>, CustomError>)
        requires
            fits(self.spec_build()),
        ensures
            match self.spec_build() {
                Some(b) => r matches Ok(v) && v@ == b,
                None => r matches Err(e) && e.major == MajorCode::REMUX,
            },
    {
        match &self.sample_entry {
            None => Err(generate_error(String::from_str("Missing sample_entry for STSDBuilder"))),
            Some(entry) => {
                let mut payload = vec![0x00, 0x00, 0x00, 0x00, 0x00, 0x00, 0x00, 0x01];
                extend_bytes(&mut payload, entry.as_slice());
                Ok(make_box([0x73, 0x74, 0x73, 0x64], payload.as_slice()))
            },
        }
    }
}

} // verus!

use vstd::prelude::*;
use vstd::string::StringExecFns;

use crate::container::isobmff::boxes::dinf::{spec_dinf, DINFBuilder};
use crate::container::isobmff::boxes::smhd::{spec_smhd, SMHDBuilder};
use crate::container::isobmff::boxes::stbl::STBLBuilder;
use crate::container::isobmff::boxes::vmhd::{spec_vmhd, VMHDBuilder};
use crate::container::isobmff::{fits, make_box, spec_box, BoxBuilder};
use crate::container::remux::generate_error;
use crate::error::error_code::MajorCode;
use crate::error::CustomError;
use crate::util::extend_bytes;

verus! {

// MediaInformationBox 14496-12; 8.4.4

/// The media header of a track: video or sound.
pub enum MediaHeaderBuilder {
    Video(VMHDBuilder),
    Sound(SMHDBuilder),
}

impl MediaHeaderBuilder {
    /// The media header box.
    pub open spec fn spec_build(&self) -> Seq<u8> {
        match self {
            MediaHeaderBuilder::Video(_) => spec_vmhd(),
            MediaHeaderBuilder::Sound(_) => spec_smhd(),
        }
    }
}

impl BoxBuilder for MediaHeaderBuilder {
    fn build(&self) -> (r: Result<Vec<u8>, CustomError>)
        ensures
            r matches Ok(v) && v@ == self.spec_build(),
    {
        match self {
            MediaHeaderBuilder::Video(b) => b.build(),
            MediaHeaderBuilder::Sound(b) => b.build(),
        }
    }
}

pub struct MINFBuilder {
    pub media_header_builder: Option<MediaHeaderBuilder>,
    pub stbl_builder: Option<STBLBuilder>,
}

impl MINFBuilder {
    /// The box around the media header, data information and sample table
    /// boxes; `None` when a part is missing.
    pub open spec fn spec_build(&self) -> Option<Seq<u8>> {
        match (self.media_header_builder, self.stbl_builder) {
            (Some(h), Some(t)) => match t.spec_build() {
                Some(stbl) => Some(
                    spec_box(seq![0x6Du8, 0x69, 0x6E, 0x66], h.spec_build() + spec_dinf() + stbl),
                ),
                None => None,
            },
            _ => None,
        }
    }

    /// The sample table fits, and so does the whole.
    pub open spec fn buildable(&self) -> bool {
        match self.stbl_builder {
            Some(t) => fits(t.spec_build()) && fits(self.spec_build()),
            None => true,
        }
    }

    pub fn create_builder() -> (b: MINFBuilder)
        ensures
            b.media_header_builder is None,
            b.stbl_builder is None,
    {
        MINFBuilder { media_header_builder: None, stbl_builder: None }
    }

    pub fn media_header(self, media_header_builder: MediaHeaderBuilder) -> (b: MINFBuilder)
        ensures
            b == (MINFBuilder { media_header_builder: Some(media_header_builder), ..self }),
    {
        MINFBuilder { media_header_builder: Some(media_header_builder), ..self }
    }

    pub fn stbl(self, stbl_builder: STBLBuilder) -> (b: MINFBuilder)
        ensures
            b == (MINFBuilder { stbl_builder: Some(stbl_builder), ..self }),
    {
        MINFBuilder { stbl_builder: Some(stbl_builder), ..self }
    }

    pub fn build(&self) -> (r: Result<Vec<u8>, CustomError>)
        requires
            self.buildable(),
        ensures
            match self.spec_build() {
                Some(b) => r matches Ok(v) && v@ == b,
                None => r matches Err(e) && e.major == MajorCode::REMUX,
            },
    {
        let media_header = match &self.media_header_builder {
            None => {
                return Err(
                    generate_error(String::from_str("Missing media_header_builder for MINFBuilder")),
                );
            },
            Some(h) => h.build()?,
        };
        let dinf = DINFBuilder::create_builder().build();
        let stbl_builder = match &self.stbl_builder {
            None => {
                return Err(generate_error(String::from_str("Missing stbl_builder for MINFBuilder")));
            },
            Some(t) => t,
        };
        let stbl = stbl_builder.build()?;
        let mut payload = media_header;
        extend_bytes(&mut payload, dinf.as_slice());
        extend_bytes(&mut payload, stbl.as_slice());
        Ok(make_box([0x6D, 0x69, 0x6E, 0x66], payload.as_slice()))
    }
}

} // verus!

use vstd::prelude::*;
use vstd::string::StringExecFns;

use crate::container::isobmff::boxes::tfdt::TFDTBuilder;
use crate::container::isobmff::boxes::tfhd::TFHDBuilder;
use crate::container::isobmff::boxes::trun::TRUNBuilder;
use crate::container::isobmff::{make_box, spec_box};
use crate::container::remux::generate_error;
use crate::error::error_code::MajorCode;
use crate::error::CustomError;
use crate::util::extend_bytes;

verus! {

// TrackFragmentBox 14496-12; 8.8.6

pub struct TRAFBuilder {
    pub tfhd_builder: Option<TFHDBuilder>,
    pub tfdt_builder: Option<TFDTBuilder>,
    pub trun_builder: Option<TRUNBuilder>,
    pub data_offset: usize,
}

/// The offset handed to the track run: the offset of the track fragment
/// box, plus the header and decode time boxes, plus the box's own header.
pub open spec fn traf_trun_offset(data_offset: usize, tfhd: Seq<u8>, tfdt: Seq<u8>) -> int {
    data_offset + tfhd.len() + tfdt.len() + 8
}

/// The track fragment header a track fragment writes: sample description 1
/// and default sample flags `0x01010000` (a non-sync sample that depends on
/// others) where the builder leaves them unset.
pub open spec fn traf_tfhd(h: TFHDBuilder) -> TFHDBuilder {
    TFHDBuilder {
        sample_description_index: Some(
            match h.sample_description_index {
                Some(v) => v,
                None => 1,
            },
        ),
        sample_flags: Some(
            match h.sample_flags {
                Some(v) => v,
                None => 0x1010000,
            },
        ),
        ..h
    }
}

impl TRAFBuilder {
    /// The track run with the offset the track fragment gives it; its
    /// samples are counted with a 4-byte length prefix each.
    pub open spec fn spec_trun(&self) -> TRUNBuilder {
        let h = traf_tfhd(self.tfhd_builder.unwrap()).spec_build();
        let d = self.tfdt_builder.unwrap().spec_build();
        TRUNBuilder {
            data_offset: traf_trun_offset(self.data_offset, h, d) as usize,
            nal_length_size: 4,
            ..self.trun_builder.unwrap()
        }
    }

    /// The three builders are present.
    pub open spec fn complete(&self) -> bool {
        self.tfhd_builder is Some && self.tfdt_builder is Some && self.trun_builder is Some
    }

    /// The box around the header, decode time and run boxes; `None` when a
    /// builder is missing.
    pub open spec fn spec_build(&self) -> Option<Seq<u8>> {
        if self.complete() {
            Some(
                spec_box(
                    seq![0x74u8, 0x72, 0x61, 0x66],
                    traf_tfhd(self.tfhd_builder.unwrap()).spec_build()
                        + self.tfdt_builder.unwrap().spec_build() + self.spec_trun().spec_build(),
                ),
            )
        } else {
            None
        }
    }

    /// The offsets and sizes fit in `usize` and the run can be built.
    pub open spec fn buildable(&self) -> bool {
        self.complete() ==> {
            let h = traf_tfhd(self.tfhd_builder.unwrap()).spec_build();
            let d = self.tfdt_builder.unwrap().spec_build();
            &&& traf_trun_offset(self.data_offset, h, d) <= usize::MAX
            &&& self.spec_trun().buildable()
            &&& 8 + h.len() + d.len() + self.spec_trun().spec_build().len() <= usize::MAX
        }
    }

    pub fn create_builder() -> (b: TRAFBuilder)
        ensures
            b.tfhd_builder is None,
            b.tfdt_builder is None,
            b.trun_builder is None,
            b.data_offset == 0,
    {
        TRAFBuilder { tfhd_builder: None, tfdt_builder: None, trun_builder: None, data_offset: 0 }
    }

    pub fn tfhd(self, tfhd_builder: TFHDBuilder) -> (b: TRAFBuilder)
        ensures
            b == (TRAFBuilder { tfhd_builder: Some(tfhd_builder), ..self }),
    {
        TRAFBuilder { tfhd_builder: Some(tfhd_builder), ..self }
    }

    pub fn tfdt(self, tfdt_builder: TFDTBuilder) -> (b: TRAFBuilder)
        ensures
            b == (TRAFBuilder { tfdt_builder: Some(tfdt_builder), ..self }),
    {
        TRAFBuilder { tfdt_builder: Some(tfdt_builder), ..self }
    }

    pub fn trun(self, trun_builder: TRUNBuilder) -> (b: TRAFBuilder)
        ensures
            b == (TRAFBuilder { trun_builder: Some(trun_builder), ..self }),
    {
        TRAFBuilder { trun_builder: Some(trun_builder), ..self }
    }

    /// Sets the offset of this box from the start of the movie fragment box.
    pub fn set_data_offset(self, data_offset: usize) -> (b: TRAFBuilder)
        ensures
            b == (TRAFBuilder { data_offset, ..self }),
    {
        TRAFBuilder { data_offset, ..self }
    }

    pub fn build(self) -> (r: Result<Vec<u8>, CustomError>)
        requires
            self.buildable(),
        ensures
            match self.spec_build() {
                Some(b) => r matches Ok(v) && v@ == b,
                None => r matches Err(e) && e.major == MajorCode::REMUX,
            },
    {
        let ghost this = self;
        let tfhd = match &self.tfhd_builder {
            None => {
                return Err(generate_error(String::from_str("Missing tfhd_builder for TRAFBuilder")));
            },
            Some(b) => {
                let sample_description_index = match b.sample_description_index {
                    Some(v) => v,
                    None => 1,
                };
                let sample_flags = match b.sample_flags {
                    Some(v) => v,
                    None => 0x1010000,
                };
                TFHDBuilder {
                    sample_description_index: Some(sample_description_index),
                    sample_flags: Some(sample_flags),
                    ..*b
                }.build()
            },
        };
        let tfdt = match &self.tfdt_builder {
            None => {
                return Err(generate_error(String::from_str("Missing tfdt_builder for TRAFBuilder")));
            },
            Some(b) => b.build(),
        };
        let trun = match self.trun_builder {
            None => {
                return Err(generate_error(String::from_str("Missing trun_builder for TRAFBuilder")));
            },
            Some(b) => {
                let data_offset = self.data_offset + tfhd.len() + tfdt.len() + 8;
                let b = b.data_offset(data_offset).nal_length_size(4);
                assert(b == this.spec_trun());
                b.build()
            },
        };
        let mut payload = tfhd;
        extend_bytes(&mut payload, tfdt.as_slice());
        extend_bytes(&mut payload, trun.as_slice());
        Ok(make_box([0x74, 0x72, 0x61, 0x66], payload.as_slice()))
    }
}

} // verus!

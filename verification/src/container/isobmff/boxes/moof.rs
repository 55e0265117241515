use vstd::prelude::*;
use vstd::string::StringExecFns;

use crate::container::isobmff::boxes::mfhd::{spec_mfhd, MFHDBuilder};
use crate::container::isobmff::boxes::traf::TRAFBuilder;
use crate::container::isobmff::{make_box, spec_box};
use crate::container::remux::generate_error;
use crate::error::error_code::MajorCode;
use crate::error::CustomError;
use crate::util::extend_bytes;

verus! {

// MovieFragmentBox 14496-12; 8.8.4

pub struct MOOFBuilder {
    pub traf_builder: Option<TRAFBuilder>,
}

impl MOOFBuilder {
    /// The track fragment, placed after the header of this box and the
    /// movie fragment header box.
    pub open spec fn spec_traf(&self) -> TRAFBuilder {
        TRAFBuilder { data_offset: 24, ..self.traf_builder.unwrap() }
    }

    /// The box around the movie fragment header box and the track
    /// fragment box; `None` when the track fragment cannot be built.
    pub open spec fn spec_build(&self) -> Option<Seq<u8>> {
        match self.traf_builder {
            None => None,
            Some(_) => match self.spec_traf().spec_build() {
                None => None,
                Some(t) => Some(spec_box(seq![0x6Du8, 0x6F, 0x6F, 0x66], spec_mfhd() + t)),
            },
        }
    }

    /// The track fragment can be built and the whole fits in `usize`.
    pub open spec fn buildable(&self) -> bool {
        self.traf_builder is Some ==> {
            &&& self.spec_traf().buildable()
            &&& (self.spec_traf().spec_build() matches Some(t) ==> 24 + t.len() <= usize::MAX)
        }
    }

    pub fn create_builder() -> (b: MOOFBuilder)
        ensures
            b.traf_builder is None,
    {
        MOOFBuilder { traf_builder: None }
    }

    pub fn traf(self, traf_builder: TRAFBuilder) -> (b: MOOFBuilder)
        ensures
            b.traf_builder == Some(traf_builder),
    {
        MOOFBuilder { traf_builder: Some(traf_builder) }
    }

    pub fn build(self) -> (r: Result<Vec<u8>, CustomError>)
        requires
            self.buildable(),
        ensures
            match self.spec_build() {
                Some(b) => r matches Ok(v) && v@ == b,
                None => r matches Err(e) && e.major == MajorCode::REMUX,
            },
    {
        let ghost this = self;
        let mfhd = MFHDBuilder::create_builder().build();
        let data_offset = 8 + mfhd.len();
        let traf = match self.traf_builder {
            None => {
                return Err(generate_error(String::from_str("Missing traf_builder for MOOFBuilder")));
            },
            Some(t) => {
                let t = t.set_data_offset(data_offset);
                assert(t == this.spec_traf());
                t.build()?
            },
        };
        let mut payload = mfhd;
        extend_bytes(&mut payload, traf.as_slice());
        Ok(make_box([0x6D, 0x6F, 0x6F, 0x66], payload.as_slice()))
    }
}

/// The data offset that the track run of a movie fragment writes is the
/// length of the movie fragment box plus eight: it points at the first
/// sample byte of a media data box that follows the movie fragment box.
pub proof fn lemma_moof_data_offset(m: MOOFBuilder)
    requires
        m.buildable(),
        m.spec_build() is Some,
    ensures
        m.spec_traf().spec_trun().spec_size() + m.spec_traf().spec_trun().data_offset + 8
            == m.spec_build().unwrap().len() + 8,
{
    let traf = m.spec_traf();
    let trun = traf.spec_trun();
    trun.lemma_build_len();
    assert(traf.spec_build().unwrap().len() == 8 + crate::container::isobmff::boxes::traf::traf_tfhd(
        traf.tfhd_builder.unwrap(),
    ).spec_build().len() + traf.tfdt_builder.unwrap().spec_build().len() + trun.spec_size());
}

} // verus!

use vstd::prelude::*;
use vstd::std_specs::cmp::PartialEqSpecImpl;
use vstd::string::StringExecFns;
use vstd::utf8::decode_utf8;

use crate::container::isobmff::boxes::iso_box::{
    box_type_readable, find_box, lemma_ascii_valid_utf8, lemma_find_box_found, read_box_type,
    spec_find_box, IsoBox, IsoFullBox,
};
use crate::container::isobmff::{make_box, spec_box};
use crate::container::writer::mp4_writer::SampleInfo;
use crate::error::error_code::{ISOBMFFMinorCode, MajorCode};
use crate::error::{construct_error, CustomError};
use crate::util::{
    be32_bytes, extend_bytes, get_i32, get_u32, low32_bytes, read_u32, transform_i32_to_u8_array,
    transform_u32_to_u8_array, transform_usize_to_u8_array,
};

verus! {

// TrackRunBox 14496-12; 8.8.8

/// The optional fields of one sample of a track run.
#[derive(Debug, PartialEq, Eq, Structural)]
pub struct Sample {
    pub sample_duration: Option<u32>,
    pub sample_size: Option<u32>,
    pub sample_flags: Option<u32>,
    pub sample_composition_time_offset: Option<i32>,
}

#[derive(Debug)]
pub struct TRUN {
    pub size: u32,
    pub box_type: String,
    pub version: u8,
    pub flags: u32,
    pub sample_count: u32,
    pub data_offset: Option<i32>,
    pub first_sample_flags: Option<u32>,
    pub samples: Vec<Sample>,
}

impl PartialEq for TRUN {
    fn eq(&self, other: &Self) -> (r: bool) {
        self.size == other.size && self.flags == other.flags && self.sample_count
            == other.sample_count
    }
}

impl PartialEqSpecImpl for TRUN {
    open spec fn obeys_eq_spec() -> bool {
        true
    }

    open spec fn eq_spec(&self, other: &Self) -> bool {
        self.size == other.size && self.flags == other.flags && self.sample_count
            == other.sample_count
    }
}

impl IsoBox for TRUN {
    fn get_size(&self) -> (s: u32)
        ensures
            s == self.size,
    {
        self.size
    }

    fn get_type(&self) -> (t: &String)
        ensures
            t == &self.box_type,
    {
        &self.box_type
    }
}

impl IsoFullBox for TRUN {
    fn get_version(&self) -> (v: u8)
        ensures
            v == self.version,
    {
        self.version
    }

    fn get_flags(&self) -> (f: u32)
        ensures
            f == self.flags,
    {
        self.flags
    }
}

/// The 24 flag bits of a track run.
pub open spec fn trun_flags(s: Seq<u8>) -> u32 {
    read_u32(s, 8) & 0xFFFFFFu32
}

/// Four bytes when `bit` is set in `f`, none otherwise.
pub open spec fn field_len(f: u32, bit: u32) -> int {
    if f & bit != 0 {
        4
    } else {
        0
    }
}

/// Where the samples start: after the count, the data offset and the first
/// sample flags that the flags announce.
pub open spec fn trun_base(f: u32) -> int {
    16 + field_len(f, 0x1u32) + field_len(f, 0x4u32)
}

/// The bytes of one sample: four for each per-sample field announced.
pub open spec fn trun_stride(f: u32) -> int {
    field_len(f, 0x100u32) + field_len(f, 0x200u32) + field_len(f, 0x400u32) + field_len(f, 0x800u32)
}

/// The sample whose fields start at `o`.
pub open spec fn trun_sample_at(s: Seq<u8>, f: u32, o: int) -> Sample {
    let o1 = o + field_len(f, 0x100u32);
    let o2 = o1 + field_len(f, 0x200u32);
    let o3 = o2 + field_len(f, 0x400u32);
    Sample {
        sample_duration: if f & 0x100u32 != 0 {
            Some(read_u32(s, o))
        } else {
            None
        },
        sample_size: if f & 0x200u32 != 0 {
            Some(read_u32(s, o1))
        } else {
            None
        },
        sample_flags: if f & 0x400u32 != 0 {
            Some(read_u32(s, o2))
        } else {
            None
        },
        sample_composition_time_offset: if f & 0x800u32 != 0 {
            Some(read_u32(s, o3) as i32)
        } else {
            None
        },
    }
}

/// The bytes hold every field that the flags and the sample count announce.
pub open spec fn trun_parsable(s: Seq<u8>) -> bool {
    let f = trun_flags(s);
    s.len() >= 16 && s.len() >= trun_base(f) + read_u32(s, 12) * trun_stride(f)
}

/// The fields of a parsed track run are those that `s` holds; the version is
/// recorded as 0 whatever the box says.
pub open spec fn trun_matches(t: TRUN, s: Seq<u8>) -> bool {
    let f = trun_flags(s);
    &&& t.size == read_u32(s, 0)
    &&& t.box_type@ == decode_utf8(s.subrange(4, 8))
    &&& t.version == 0
    &&& t.flags == f
    &&& t.sample_count == read_u32(s, 12)
    &&& t.data_offset == if f & 0x1u32 != 0 {
        Some(read_u32(s, 16) as i32)
    } else {
        None
    }
    &&& t.first_sample_flags == if f & 0x4u32 != 0 {
        Some(read_u32(s, 16 + field_len(f, 0x1u32)))
    } else {
        None
    }
    &&& t.samples@.len() == t.sample_count
    &&& forall|i: int|
        0 <= i < t.samples@.len() ==> #[trigger] t.samples@[i] == trun_sample_at(
            s,
            f,
            trun_base(f) + i * trun_stride(f),
        )
}

/// The bytes of the track run inside the first track fragment box of a movie
/// fragment box.
pub open spec fn spec_trun_in_moof(moof: Seq<u8>) -> Option<Seq<u8>> {
    match spec_find_box(moof, seq![0x74u8, 0x72, 0x61, 0x66], 8) {
        None => None,
        Some((a, b)) => {
            let traf = moof.subrange(a, b);
            match spec_find_box(traf, seq![0x74u8, 0x72, 0x75, 0x6E], 8) {
                None => None,
                Some((c, d)) => Some(traf.subrange(c, d)),
            }
        },
    }
}

proof fn lemma_stride_step(base: int, i: int, k: int, n: int)
    requires
        0 <= i < n,
        0 <= k,
    ensures
        base + (i + 1) * k == base + i * k + k,
        base + (i + 1) * k <= base + n * k,
        0 <= i * k,
{
    assert((i + 1) * k == i * k + k) by (nonlinear_arith);
    assert((i + 1) * k <= n * k) by (nonlinear_arith)
        requires
            i + 1 <= n,
            0 <= k,
    ;
    assert(0 <= i * k) by (nonlinear_arith)
        requires
            0 <= i,
            0 <= k,
    ;
}

impl TRUN {
    /// Finds the track run of the first track fragment of a movie fragment
    /// box and parses it.
    pub fn parse(moof: &[u8]) -> (r: Result<TRUN, CustomError>)
        ensures
            match spec_trun_in_moof(moof@) {
                None => r matches Err(e) && e.major == MajorCode::ISOBMFF && e.minor == 0,
                Some(trun) => (r is Ok <==> trun_parsable(trun)) && (r matches Ok(t)
                    ==> trun_matches(t, trun)),
            },
    {
        let traf = find_box(&[0x74, 0x72, 0x61, 0x66], 8, moof);
        let trun = match traf {
            None => None,
            Some(traf) => find_box(&[0x74, 0x72, 0x75, 0x6E], 8, traf),
        };
        match trun {
            Some(trun_data) => {
                proof {
                    let (a, b) = spec_find_box(moof@, seq![0x74u8, 0x72, 0x61, 0x66], 8).unwrap();
                    let traf_s = moof@.subrange(a, b);
                    lemma_find_box_found(traf_s, seq![0x74u8, 0x72, 0x75, 0x6E], 8);
                    let (c, d) = spec_find_box(traf_s, seq![0x74u8, 0x72, 0x75, 0x6E], 8).unwrap();
                    assert(trun_data@.subrange(4, 8) =~= traf_s.subrange(c + 4, c + 8));
                    lemma_ascii_valid_utf8(trun_data@.subrange(4, 8));
                }
                TRUN::parse_trun(trun_data)
            },
            None => Err(
                construct_error(
                    MajorCode::ISOBMFF,
                    ISOBMFFMinorCode::UNABLE_TO_FIND_BOX_ERROR,
                    String::from_str("TRUN: Unable to find box"),
                ),
            ),
        }
    }

    /// Parses a track run box.
    pub fn parse_trun(trun_data: &[u8]) -> (r: Result<TRUN, CustomError>)
        requires
            box_type_readable(trun_data@),
        ensures
            r is Ok <==> trun_parsable(trun_data@),
            r matches Ok(t) ==> trun_matches(t, trun_data@),
            r matches Err(e) ==> e.major == MajorCode::UTIL && e.minor == 0,
    {
        let ghost s = trun_data@;
        let mut start = 0usize;
        let size = get_u32(trun_data, start)?;
        let box_type = read_box_type(trun_data);
        start = start + 8;
        let flags = get_u32(trun_data, start)? & 0xFFFFFF;
        start = start + 4;
        let sample_count = get_u32(trun_data, start)?;
        start = start + 4;
        // data-offset-present
        let mut data_offset: Option<i32> = None;
        if (flags & 0x000001) != 0 {
            data_offset = Some(get_i32(trun_data, start)?);
            start = start + 4;
        }
        // first-sample-flags-present
        let mut first_sample_flags: Option<u32> = None;
        if (flags & 0x000004) != 0 {
            first_sample_flags = Some(get_u32(trun_data, start)?);
            start = start + 4;
        }
        let ghost base = trun_base(flags);
        let ghost k = trun_stride(flags);
        assert(start == base);
        let mut samples: Vec<Sample> = Vec::new();
        let mut i: u32 = 0;
        let len = trun_data.len();
        while i < sample_count
            invariant
                s == trun_data@,
                flags == trun_flags(s),
                sample_count == read_u32(s, 12),
                base == trun_base(flags),
                k == trun_stride(flags),
                0 <= k,
                i <= sample_count,
                start == base + i * k,
                start <= s.len(),
                len == s.len(),
                s.len() >= 16,
                samples@.len() == i,
                forall|j: int|
                    0 <= j < i ==> #[trigger] samples@[j] == trun_sample_at(
                        s,
                        flags,
                        base + j * k,
                    ),
            decreases sample_count - i,
        {
            proof {
                lemma_stride_step(base, i as int, k, sample_count as int);
            }
            let ghost o = start as int;
            // sample-duration-present
            let mut sample_duration: Option<u32> = None;
            if (flags & 0x000100) != 0 {
                let v = get_u32(trun_data, start)?;
                assert(start + 4 <= s.len());
                sample_duration = Some(v);
                start = start + 4;
            }
            // sample-size-present
            let mut sample_size: Option<u32> = None;
            if (flags & 0x000200) != 0 {
                let v = get_u32(trun_data, start)?;
                assert(start + 4 <= s.len());
                sample_size = Some(v);
                start = start + 4;
            }
            // sample-flags-present
            let mut sample_flags: Option<u32> = None;
            if (flags & 0x000400) != 0 {
                let v = get_u32(trun_data, start)?;
                assert(start + 4 <= s.len());
                sample_flags = Some(v);
                start = start + 4;
            }
            // sample-composition-time-offsets-present
            let mut sample_composition_time_offset: Option<i32> = None;
            if (flags & 0x000800) != 0 {
                let v = get_i32(trun_data, start)?;
                assert(start + 4 <= s.len());
                sample_composition_time_offset = Some(v);
                start = start + 4;
            }
            let sample = Sample {
                sample_duration,
                sample_size,
                sample_flags,
                sample_composition_time_offset,
            };
            assert(sample == trun_sample_at(s, flags, o));
            samples.push(sample);
            i = i + 1;
        }
        Ok(
            TRUN {
                size,
                box_type,
                version: 0,
                flags,
                sample_count,
                data_offset,
                first_sample_flags,
                samples,
            },
        )
    }
}

/// The composition offset of a sample: in version 1 the signed difference
/// of the low 32 bits of the two times, otherwise the unsigned difference.
pub open spec fn spec_composition_offset(sample: SampleInfo, version: usize) -> Seq<u8> {
    if version == 1 {
        be32_bytes((((sample.pts as i32) - (sample.dts as i32)) as i32) as u32)
    } else {
        low32_bytes(((sample.pts - sample.dts) as usize) as u64)
    }
}

/// The composition offset computes without overflow: the signed difference
/// fits in `i32`, or the presentation time is not before the decode time.
pub open spec fn composition_offset_defined(sample: SampleInfo, version: usize) -> bool {
    if version == 1 {
        i32::MIN <= (sample.pts as i32) - (sample.dts as i32) <= i32::MAX
    } else {
        sample.pts >= sample.dts
    }
}

/// The per-sample fields that the flags announce, in order; the size
/// counts `nal_length_size` bytes of length prefix beyond the data.
pub open spec fn spec_sample_fields(
    sample: SampleInfo,
    flags: u32,
    version: usize,
    duration: u32,
    sample_flag: usize,
    nal_length_size: usize,
) -> Seq<u8> {
    (if flags & 0x100u32 != 0 {
        be32_bytes(duration)
    } else {
        Seq::empty()
    }) + (if flags & 0x200u32 != 0 {
        low32_bytes((sample.data@.len() + nal_length_size) as u64)
    } else {
        Seq::empty()
    }) + (if flags & 0x400u32 != 0 {
        low32_bytes(sample_flag as u64)
    } else {
        Seq::empty()
    }) + (if flags & 0x800u32 != 0 {
        spec_composition_offset(sample, version)
    } else {
        Seq::empty()
    })
}

/// A sample's entry: its fields, padded with zeros to `sample_size` bytes.
pub open spec fn spec_sample(
    sample: SampleInfo,
    sample_size: usize,
    flags: u32,
    version: usize,
    duration: u32,
    sample_flag: usize,
    nal_length_size: usize,
) -> Seq<u8> {
    let fields = spec_sample_fields(sample, flags, version, duration, sample_flag, nal_length_size);
    fields + Seq::new((sample_size - fields.len()) as nat, |i: int| 0u8)
}

/// The duration written for a sample: its own, or 0.
pub open spec fn sample_duration_or_zero(sample: SampleInfo) -> u32 {
    match sample.sample_duration {
        Some(d) => d,
        None => 0,
    }
}

/// The entries of all samples, each with its own duration and sample flag 0.
pub open spec fn spec_sample_data(
    samples: Seq<SampleInfo>,
    sample_size: usize,
    flags: u32,
    version: usize,
    nal_length_size: usize,
) -> Seq<u8>
    decreases samples.len(),
{
    if samples.len() == 0 {
        Seq::empty()
    } else {
        spec_sample_data(samples.drop_last(), sample_size, flags, version, nal_length_size)
            + spec_sample(
            samples.last(),
            sample_size,
            flags,
            version,
            sample_duration_or_zero(samples.last()),
            0,
            nal_length_size,
        )
    }
}

/// The fields of a sample take the stride that the flags give.
pub proof fn lemma_sample_fields_len(
    sample: SampleInfo,
    flags: u32,
    version: usize,
    duration: u32,
    sample_flag: usize,
    nal_length_size: usize,
)
    ensures
        spec_sample_fields(sample, flags, version, duration, sample_flag, nal_length_size).len()
            == trun_stride(flags),
        0 <= trun_stride(flags) <= 16,
{
}

/// The entries of `n` samples take `n` strides.
pub proof fn lemma_sample_data_len(
    samples: Seq<SampleInfo>,
    sample_size: usize,
    flags: u32,
    version: usize,
    nal_length_size: usize,
)
    requires
        sample_size >= trun_stride(flags),
    ensures
        spec_sample_data(samples, sample_size, flags, version, nal_length_size).len()
            == samples.len() * sample_size,
    decreases samples.len(),
{
    if samples.len() > 0 {
        lemma_sample_data_len(samples.drop_last(), sample_size, flags, version, nal_length_size);
        lemma_sample_fields_len(
            samples.last(),
            flags,
            version,
            sample_duration_or_zero(samples.last()),
            0,
            nal_length_size,
        );
        let n = samples.len() as int;
        assert((n - 1) * sample_size + sample_size == n * sample_size) by (nonlinear_arith);
    }
}

pub struct TRUNBuilder {
    pub version: usize,
    pub flags: usize,
    pub data_offset: usize,
    pub first_sample_flags: Option<usize>,
    pub samples: Vec<SampleInfo>,
    pub sample_composition_time_offsets_present: bool,
    /// The bytes of length prefix each sample will carry in the media data,
    /// counted in its size.
    pub nal_length_size: usize,
}

impl TRUNBuilder {
    /// The flags: data offset always, first sample flags when set, and with
    /// more than one sample the sample size, plus composition offsets when
    /// asked for, and the duration and flags when the second sample has them.
    pub open spec fn spec_flag(&self) -> u32 {
        (1int + (if self.first_sample_flags is Some { 4int } else { 0int }) + (
        if self.samples@.len() > 1 {
            0x200int + (if self.sample_composition_time_offsets_present {
                0x800int
            } else {
                0int
            }) + (if self.samples@[1].sample_duration is Some {
                0x100int
            } else {
                0int
            }) + (if self.samples@[1].sample_flags is Some {
                0x400int
            } else {
                0int
            })
        } else {
            0int
        })) as u32
    }

    /// The first sample flags, when set.
    pub open spec fn spec_data(&self) -> Seq<u8> {
        match self.first_sample_flags {
            Some(v) => low32_bytes(v as u64),
            None => Seq::empty(),
        }
    }

    /// The size of the box.
    pub open spec fn spec_size(&self) -> int {
        20 + self.spec_data().len() + trun_stride(self.spec_flag()) * self.samples@.len()
    }

    /// The box: size, type, version, flags, sample count, the data offset (the
    /// box size plus the given offset plus an 8-byte media data header), the
    /// first sample flags, and the sample entries.
    pub open spec fn spec_build(&self) -> Seq<u8> {
        let f = self.spec_flag();
        let size = self.spec_size();
        low32_bytes(size as u64) + seq![0x74u8, 0x72, 0x75, 0x6E] + seq![
            (self.version as u64) as u8,
            (f >> 16u32) as u8,
            (f >> 8u32) as u8,
            f as u8,
        ] + low32_bytes(self.samples@.len() as u64) + low32_bytes(
            (size + self.data_offset + 8) as u64,
        ) + self.spec_data() + spec_sample_data(
            self.samples@,
            trun_stride(f) as usize,
            f,
            self.version,
            self.nal_length_size,
        )
    }

    /// The box can be built: its size and data offset fit in `usize`, the
    /// sample sizes with their length prefix too, and the composition
    /// offsets, when written, compute without overflow.
    pub open spec fn buildable(&self) -> bool {
        &&& self.spec_size() + self.data_offset + 8 <= usize::MAX
        &&& forall|i: int|
            0 <= i < self.samples@.len() ==> #[trigger] self.samples@[i].data@.len()
                + self.nal_length_size <= usize::MAX
        &&& self.spec_flag() & 0x800u32 != 0 ==> forall|i: int|
            0 <= i < self.samples@.len() ==> composition_offset_defined(
                #[trigger] self.samples@[i],
                self.version,
            )
    }

    /// The box is as long as its size field says, and takes at most 16
    /// bytes per sample beyond 24 bytes of header.
    pub proof fn lemma_build_len(&self)
        ensures
            self.spec_build().len() == self.spec_size(),
            self.spec_size() <= 24 + 16 * self.samples@.len(),
    {
        let f = self.spec_flag();
        lemma_sample_fields_len(self.samples@[0], f, self.version, 0, 0, self.nal_length_size);
        lemma_sample_data_len(
            self.samples@,
            trun_stride(f) as usize,
            f,
            self.version,
            self.nal_length_size,
        );
        let n = self.samples@.len() as int;
        let k = trun_stride(f);
        assert(k * n <= 16 * n) by (nonlinear_arith)
            requires
                0 <= k <= 16,
                0 <= n,
        ;
        assert(n * k == k * n) by (nonlinear_arith);
    }

    pub fn create_builder() -> (b: TRUNBuilder)
        ensures
            b.version == 0,
            b.flags == 0,
            b.data_offset == 0,
            b.first_sample_flags is None,
            b.samples@.len() == 0,
            !b.sample_composition_time_offsets_present,
            b.nal_length_size == 0,
    {
        TRUNBuilder {
            version: 0,
            flags: 0,
            data_offset: 0,
            first_sample_flags: None,
            samples: Vec::new(),
            sample_composition_time_offsets_present: false,
            nal_length_size: 0,
        }
    }

    /// Sets the bytes of length prefix each sample will carry.
    pub fn nal_length_size(self, nal_length_size: usize) -> (b: TRUNBuilder)
        ensures
            b == (TRUNBuilder { nal_length_size, ..self }),
    {
        TRUNBuilder { nal_length_size, ..self }
    }

    pub fn samples(self, samples: Vec<SampleInfo>) -> (b: TRUNBuilder)
        ensures
            b == (TRUNBuilder { samples, ..self }),
    {
        TRUNBuilder { samples, ..self }
    }

    pub fn version(self, version: usize) -> (b: TRUNBuilder)
        ensures
            b == (TRUNBuilder { version, ..self }),
    {
        TRUNBuilder { version, ..self }
    }

    /// Records flags; the flags written are derived from the other settings.
    pub fn flags(self, flags: usize) -> (b: TRUNBuilder)
        ensures
            b == (TRUNBuilder { flags, ..self }),
    {
        TRUNBuilder { flags, ..self }
    }

    pub fn data_offset(self, data_offset: usize) -> (b: TRUNBuilder)
        ensures
            b == (TRUNBuilder { data_offset, ..self }),
    {
        TRUNBuilder { data_offset, ..self }
    }

    pub fn first_sample_flags(self, first_sample_flags: usize) -> (b: TRUNBuilder)
        ensures
            b == (TRUNBuilder { first_sample_flags: Some(first_sample_flags), ..self }),
    {
        TRUNBuilder { first_sample_flags: Some(first_sample_flags), ..self }
    }

    pub fn sample_composition_time_offsets_present(self, present: bool) -> (b: TRUNBuilder)
        ensures
            b == (TRUNBuilder { sample_composition_time_offsets_present: present, ..self }),
    {
        TRUNBuilder { sample_composition_time_offsets_present: present, ..self }
    }

    /// The flags and the first sample flags bytes.
    fn generate_flag(&self) -> (r: (u32, Vec<u8>))
        ensures
            r.0 == self.spec_flag(),
            r.1@ == self.spec_data(),
    {
        // Always start with data-offset-present set. Required for CMAF.
        let mut flag: u32 = 0x00000001;
        let mut data: Vec<u8> = Vec::new();
        // first-sample-flags-present
        if let Some(first_sample_flags) = self.first_sample_flags {
            flag = flag + 0x000004;
            let array_val = transform_usize_to_u8_array(first_sample_flags);
            data = vec![array_val[3], array_val[2], array_val[1], array_val[0]];
        }
        // With more than one sample, the sample size is always written; the
        // other per-sample fields follow the second sample.
        if self.samples.len() > 1 {
            flag = flag + 0x000200;
            let sample_info = &self.samples[1];
            if self.sample_composition_time_offsets_present {
                flag = flag + 0x000800;
            }
            if sample_info.sample_duration.is_some() {
                flag = flag + 0x000100;
            }
            if sample_info.sample_flags.is_some() {
                flag = flag + 0x000400;
            }
        }
        assert(data@ =~= self.spec_data());
        (flag, data)
    }

    /// Four bytes for each per-sample field that `flags` announces.
    fn calculate_sample_size(&self, flags: u32) -> (r: usize)
        ensures
            r == trun_stride(flags),
    {
        let mut calc_size = 0usize;
        if flags & 0x000100 != 0 {
            // sample-duration-present
            calc_size = calc_size + 4;
        }
        if flags & 0x000200 != 0 {
            // sample-size-present
            calc_size = calc_size + 4;
        }
        if flags & 0x000400 != 0 {
            // sample-flags-present
            calc_size = calc_size + 4;
        }
        if flags & 0x000800 != 0 {
            // sample-composition-time-offsets-present
            calc_size = calc_size + 4;
        }
        calc_size
    }

    fn create_sample_data(
        samples: &Vec<SampleInfo>,
        sample_size: usize,
        flags: u32,
        version: usize,
        nal_length_size: usize,
    ) -> (r: Vec<u8>)
        requires
            sample_size >= trun_stride(flags),
            forall|i: int|
                0 <= i < samples@.len() ==> #[trigger] samples@[i].data@.len() + nal_length_size
                    <= usize::MAX,
            flags & 0x800u32 != 0 ==> forall|i: int|
                0 <= i < samples@.len() ==> composition_offset_defined(
                    #[trigger] samples@[i],
                    version,
                ),
        ensures
            r@ == spec_sample_data(samples@, sample_size, flags, version, nal_length_size),
    {
        let mut data: Vec<u8> = Vec::new();
        let mut i: usize = 0;
        while i < samples.len()
            invariant
                i <= samples@.len(),
                sample_size >= trun_stride(flags),
                forall|j: int|
                    0 <= j < samples@.len() ==> #[trigger] samples@[j].data@.len()
                        + nal_length_size <= usize::MAX,
                flags & 0x800u32 != 0 ==> forall|j: int|
                    0 <= j < samples@.len() ==> composition_offset_defined(
                        #[trigger] samples@[j],
                        version,
                    ),
                data@ == spec_sample_data(
                    samples@.subrange(0, i as int),
                    sample_size,
                    flags,
                    version,
                    nal_length_size,
                ),
            decreases samples@.len() - i,
        {
            let sample_info = &samples[i];
            let duration = match sample_info.sample_duration {
                Some(d) => d,
                None => 0,
            };
            let sample = TRUNBuilder::write_sample(
                sample_info,
                sample_size,
                flags,
                version,
                duration,
                0,
                nal_length_size,
            );
            extend_bytes(&mut data, sample.as_slice());
            proof {
                let pre = samples@.subrange(0, i + 1);
                assert(pre.drop_last() =~= samples@.subrange(0, i as int));
                assert(pre.last() == samples@[i as int]);
            }
            i = i + 1;
        }
        assert(samples@.subrange(0, samples@.len() as int) =~= samples@);
        data
    }

    /// The entry of one sample: the fields that `flags` announce, padded with
    /// zeros to `sample_size` bytes.
    pub fn create_sample(
        sample: &SampleInfo,
        sample_size: usize,
        flags: u32,
        version: usize,
        duration: u32,
        sample_flag: usize,
    ) -> (r: Vec<u8>)
        requires
            sample_size >= trun_stride(flags),
            flags & 0x800u32 != 0 ==> composition_offset_defined(*sample, version),
        ensures
            r@ == spec_sample(*sample, sample_size, flags, version, duration, sample_flag, 0),
    {
        let _data_len = sample.data.len();
        TRUNBuilder::write_sample(sample, sample_size, flags, version, duration, sample_flag, 0)
    }

    /// The entry of one sample whose size counts `nal_length_size` bytes of
    /// length prefix.
    #[verifier::rlimit(40)]
    fn write_sample(
        sample: &SampleInfo,
        sample_size: usize,
        flags: u32,
        version: usize,
        duration: u32,
        sample_flag: usize,
        nal_length_size: usize,
    ) -> (r: Vec<u8>)
        requires
            sample_size >= trun_stride(flags),
            flags & 0x800u32 != 0 ==> composition_offset_defined(*sample, version),
            sample.data@.len() + nal_length_size <= usize::MAX,
        ensures
            r@ == spec_sample(
                *sample,
                sample_size,
                flags,
                version,
                duration,
                sample_flag,
                nal_length_size,
            ),
    {
        let mut sample_data: Vec<u8> = Vec::new();
        if flags & 0x000100 != 0 {
            // sample-duration-present
            let duration_array = transform_u32_to_u8_array(duration);
            sample_data.push(duration_array[3]);
            sample_data.push(duration_array[2]);
            sample_data.push(duration_array[1]);
            sample_data.push(duration_array[0]);
        }
        let ghost d1 = sample_data@;
        if flags & 0x000200 != 0 {
            // sample-size-present
            let size_array = transform_usize_to_u8_array(sample.data.len() + nal_length_size);
            sample_data.push(size_array[3]);
            sample_data.push(size_array[2]);
            sample_data.push(size_array[1]);
            sample_data.push(size_array[0]);
        }
        let ghost d2 = sample_data@;
        if flags & 0x000400 != 0 {
            // sample-flags-present
            let sf_array = transform_usize_to_u8_array(sample_flag);
            sample_data.push(sf_array[3]);
            sample_data.push(sf_array[2]);
            sample_data.push(sf_array[1]);
            sample_data.push(sf_array[0]);
        }
        let ghost d3 = sample_data@;
        if flags & 0x000800 != 0 {
            // sample-composition-time-offsets-present
            if version == 1 {
                let diff = sample.pts as i32 - sample.dts as i32;
                let data = transform_i32_to_u8_array(diff);
                sample_data.push(data[3]);
                sample_data.push(data[2]);
                sample_data.push(data[1]);
                sample_data.push(data[0]);
            } else {
                let diff = (sample.pts - sample.dts) as usize;
                let data = transform_usize_to_u8_array(diff);
                sample_data.push(data[3]);
                sample_data.push(data[2]);
                sample_data.push(data[1]);
                sample_data.push(data[0]);
            }
        }
        let ghost fields = spec_sample_fields(
            *sample,
            flags,
            version,
            duration,
            sample_flag,
            nal_length_size,
        );
        assert(sample_data@ =~= fields);
        let ghost start = sample_data@;
        while sample_data.len() < sample_size
            invariant
                start == fields,
                fields.len() <= sample_size,
                start.len() <= sample_data@.len() <= sample_size,
                sample_data@ =~= start + Seq::new(
                    (sample_data@.len() - start.len()) as nat,
                    |i: int| 0u8,
                ),
            decreases sample_size - sample_data@.len(),
        {
            sample_data.push(0);
        }
        sample_data
    }

    pub fn build(&self) -> (r: Vec<u8>)
        requires
            self.buildable(),
        ensures
            r@ == self.spec_build(),
    {
        let version_array = transform_usize_to_u8_array(self.version);
        let (flags, data) = self.generate_flag();
        let flag_array = transform_u32_to_u8_array(flags);
        let sample_count_array = transform_usize_to_u8_array(self.samples.len());
        let calculated_sample_size = self.calculate_sample_size(flags);
        let all_samples_size = calculated_sample_size * self.samples.len();
        let sample_data = TRUNBuilder::create_sample_data(
            &self.samples,
            calculated_sample_size,
            flags,
            self.version,
            self.nal_length_size,
        );
        let size: usize = 12 + 4 + 4 + data.len() + all_samples_size;
        let size_array = transform_usize_to_u8_array(size);
        let final_data_offset = size + self.data_offset + 8;
        let data_offset_array = transform_usize_to_u8_array(final_data_offset);
        let mut trun = vec![
            // Size
            size_array[3], size_array[2], size_array[1], size_array[0],
            // trun
            0x74, 0x72, 0x75, 0x6E,
            // version
            version_array[0],
            // flag
            flag_array[2], flag_array[1], flag_array[0],
            // sample_count
            sample_count_array[3], sample_count_array[2], sample_count_array[1], sample_count_array[0],
            // data_offset (optional, but required for CMAF)
            data_offset_array[3], data_offset_array[2], data_offset_array[1], data_offset_array[0],
        ];
        let ghost head = trun@;
        extend_bytes(&mut trun, data.as_slice());
        extend_bytes(&mut trun, sample_data.as_slice());
        assert(trun@ =~= self.spec_build());
        trun
    }
}

/// The entry of the `i`-th sample lies at `i` strides in the sample data.
proof fn lemma_sample_data_chunk(
    samples: Seq<SampleInfo>,
    k: usize,
    f: u32,
    version: usize,
    nal_length_size: usize,
    i: int,
)
    requires
        k >= trun_stride(f),
        0 <= i < samples.len(),
    ensures
        0 <= i * k,
        i * k + k <= samples.len() * k,
        spec_sample_data(samples, k, f, version, nal_length_size).subrange(i * k, i * k + k)
            == spec_sample(
            samples[i],
            k,
            f,
            version,
            sample_duration_or_zero(samples[i]),
            0,
            nal_length_size,
        ),
    decreases samples.len(),
{
    let n = samples.len() as int;
    lemma_stride_step(0, i, k as int, n);
    lemma_sample_data_len(samples.drop_last(), k, f, version, nal_length_size);
    lemma_sample_fields_len(samples.last(), f, version, sample_duration_or_zero(samples.last()), 0, nal_length_size);
    let prev = spec_sample_data(samples.drop_last(), k, f, version, nal_length_size);
    let last = spec_sample(
        samples.last(),
        k,
        f,
        version,
        sample_duration_or_zero(samples.last()),
        0,
        nal_length_size,
    );
    assert(prev.len() == (n - 1) * k);
    if i < n - 1 {
        lemma_sample_data_chunk(samples.drop_last(), k, f, version, nal_length_size, i);
        assert((prev + last).subrange(i * k, i * k + k) =~= prev.subrange(i * k, i * k + k));
    } else {
        assert((prev + last).subrange(i * k, i * k + k) =~= last);
    }
}

/// The composition offset a sample's entry carries, read back as the
/// parser reads it.
pub open spec fn spec_composition_value(sample: SampleInfo, version: usize) -> i32 {
    read_u32(spec_composition_offset(sample, version), 0) as i32
}

/// The sample a parser reads from the entry of `sample` in a run whose
/// flags are `f`.
pub open spec fn spec_parsed_sample(
    sample: SampleInfo,
    f: u32,
    version: usize,
    nal_length_size: usize,
) -> Sample {
    Sample {
        sample_duration: if f & 0x100u32 != 0 {
            Some(sample_duration_or_zero(sample))
        } else {
            None
        },
        sample_size: if f & 0x200u32 != 0 {
            Some(((sample.data@.len() + nal_length_size) as u64) as u32)
        } else {
            None
        },
        sample_flags: if f & 0x400u32 != 0 {
            Some(0u32)
        } else {
            None
        },
        sample_composition_time_offset: if f & 0x800u32 != 0 {
            Some(spec_composition_value(sample, version))
        } else {
            None
        },
    }
}

/// The fields of a sample's entry read back as the sample.
proof fn lemma_sample_entry_fields(
    s: Seq<u8>,
    o: int,
    sample: SampleInfo,
    f: u32,
    version: usize,
    nal_length_size: usize,
)
    requires
        0 <= o,
        o + trun_stride(f) <= s.len(),
        s.subrange(o, o + trun_stride(f)) == spec_sample(
            sample,
            trun_stride(f) as usize,
            f,
            version,
            sample_duration_or_zero(sample),
            0,
            nal_length_size,
        ),
    ensures
        trun_sample_at(s, f, o) == spec_parsed_sample(sample, f, version, nal_length_size),
{
    let k = trun_stride(f);
    let dur = sample_duration_or_zero(sample);
    let c = spec_sample(sample, k as usize, f, version, dur, 0, nal_length_size);
    lemma_sample_fields_len(sample, f, version, dur, 0, nal_length_size);
    let fields = spec_sample_fields(sample, f, version, dur, 0, nal_length_size);
    assert(c =~= fields);
    let p0 = if f & 0x100u32 != 0 { be32_bytes(dur) } else { Seq::empty() };
    let p1 = if f & 0x200u32 != 0 {
        low32_bytes((sample.data@.len() + nal_length_size) as u64)
    } else {
        Seq::empty()
    };
    let p2 = if f & 0x400u32 != 0 { low32_bytes(0usize as u64) } else { Seq::empty() };
    let p3 = if f & 0x800u32 != 0 { spec_composition_offset(sample, version) } else { Seq::empty() };
    assert(fields == p0 + p1 + p2 + p3);
    let l0 = p0.len() as int;
    let l1 = l0 + p1.len();
    let l2 = l1 + p2.len();
    if f & 0x100u32 != 0 {
        crate::util::lemma_be32_roundtrip(dur);
        assert(c.subrange(0, 4) =~= p0);
        crate::util::lemma_read_u32_shift(c, p0, 0, 0);
        crate::util::lemma_read_u32_shift(s, c, o, 0);
    }
    if f & 0x200u32 != 0 {
        crate::util::lemma_low32_roundtrip((sample.data@.len() + nal_length_size) as u64);
        assert(c.subrange(l0, l0 + 4) =~= p1);
        crate::util::lemma_read_u32_shift(c, p1, l0, 0);
        crate::util::lemma_read_u32_shift(s, c, o, l0);
    }
    if f & 0x400u32 != 0 {
        crate::util::lemma_low32_roundtrip(0u64);
        assert(c.subrange(l1, l1 + 4) =~= p2);
        crate::util::lemma_read_u32_shift(c, p2, l1, 0);
        crate::util::lemma_read_u32_shift(s, c, o, l1);
    }
    if f & 0x800u32 != 0 {
        assert(p3.len() == 4);
        assert(c.subrange(l2, l2 + 4) =~= p3);
        crate::util::lemma_read_u32_shift(c, p3, l2, 0);
        crate::util::lemma_read_u32_shift(s, c, o, l2);
    }
}

impl TRUNBuilder {
    /// The flag bits of a builder: data offset always, first sample flags
    /// when set, and with more than one sample the size, the composition
    /// offsets when asked for, and the duration and flags when the second
    /// sample has them.
    pub proof fn lemma_flag_bits(&self)
        ensures
            self.spec_flag() < 0x1000,
            self.spec_flag() & 0x1u32 != 0,
            (self.spec_flag() & 0x4u32 != 0) == (self.first_sample_flags is Some),
            (self.spec_flag() & 0x200u32 != 0) == (self.samples@.len() > 1),
            (self.spec_flag() & 0x800u32 != 0) == (self.samples@.len() > 1
                && self.sample_composition_time_offsets_present),
            (self.spec_flag() & 0x100u32 != 0) == (self.samples@.len() > 1
                && self.samples@[1].sample_duration is Some),
            (self.spec_flag() & 0x400u32 != 0) == (self.samples@.len() > 1
                && self.samples@[1].sample_flags is Some),
    {
        let a = self.first_sample_flags is Some;
        let m = self.samples@.len() > 1;
        let c = m && self.sample_composition_time_offsets_present;
        let d = m && self.samples@[1].sample_duration is Some;
        let e = m && self.samples@[1].sample_flags is Some;
        let f: u32 = 0x1u32 | (if a { 0x4u32 } else { 0u32 }) | (if m { 0x200u32 } else { 0u32 })
            | (if c { 0x800u32 } else { 0u32 }) | (if d { 0x100u32 } else { 0u32 }) | (if e {
            0x400u32
        } else {
            0u32
        });
        assert(f == 0x1u32 + (if a { 0x4u32 } else { 0u32 }) + (if m { 0x200u32 } else { 0u32 }) + (
        if c { 0x800u32 } else { 0u32 }) + (if d { 0x100u32 } else { 0u32 }) + (if e {
            0x400u32
        } else {
            0u32
        })) by (bit_vector)
            requires
                f == 0x1u32 | (if a { 0x4u32 } else { 0u32 }) | (if m { 0x200u32 } else { 0u32 }) | (
                if c { 0x800u32 } else { 0u32 }) | (if d { 0x100u32 } else { 0u32 }) | (if e {
                    0x400u32
                } else {
                    0u32
                }),
                c ==> m,
                d ==> m,
                e ==> m,
        ;
        assert(self.spec_flag() == f);
        assert(f < 0x1000 && f & 0x1u32 != 0 && ((f & 0x4u32 != 0) == a) && ((f & 0x200u32 != 0)
            == m) && ((f & 0x800u32 != 0) == c) && ((f & 0x100u32 != 0) == d) && ((f & 0x400u32
            != 0) == e)) by (bit_vector)
            requires
                f == 0x1u32 | (if a { 0x4u32 } else { 0u32 }) | (if m { 0x200u32 } else { 0u32 }) | (
                if c { 0x800u32 } else { 0u32 }) | (if d { 0x100u32 } else { 0u32 }) | (if e {
                    0x400u32
                } else {
                    0u32
                }),
        ;
    }
}

/// What a track run builder writes, the parser reads back: the flags it
/// derives, the sample count, the data offset it computes (its low 32
/// bits), the first sample flags, and for each sample its entry: the
/// duration, the size with the length prefix, flags 0 and the composition
/// offset, as the flags announce them.
#[verifier::rlimit(60)]
pub proof fn lemma_trun_roundtrip(b: TRUNBuilder, t: TRUN)
    requires
        b.samples@.len() <= u32::MAX,
        b.spec_size() <= u32::MAX,
        trun_matches(t, b.spec_build()),
    ensures
        trun_parsable(b.spec_build()),
        box_type_readable(b.spec_build()),
        t.size == b.spec_size(),
        t.flags == b.spec_flag(),
        t.sample_count == b.samples@.len(),
        t.data_offset == Some(((b.spec_size() + b.data_offset + 8) as u64) as u32 as i32),
        t.first_sample_flags == match b.first_sample_flags {
            Some(v) => Some((v as u64) as u32),
            None => None::<u32>,
        },
        t.samples@.len() == b.samples@.len(),
        forall|i: int|
            0 <= i < b.samples@.len() ==> #[trigger] t.samples@[i] == spec_parsed_sample(
                b.samples@[i],
                b.spec_flag(),
                b.version,
                b.nal_length_size,
            ),
{
    let s = b.spec_build();
    let f = b.spec_flag();
    let k = trun_stride(f);
    let n = b.samples@.len() as int;
    b.lemma_flag_bits();
    b.lemma_build_len();
    let head = low32_bytes(b.spec_size() as u64) + seq![0x74u8, 0x72, 0x75, 0x6E] + seq![
        (b.version as u64) as u8,
        (f >> 16u32) as u8,
        (f >> 8u32) as u8,
        f as u8,
    ] + low32_bytes(b.samples@.len() as u64) + low32_bytes(
        (b.spec_size() + b.data_offset + 8) as u64,
    );
    let data = spec_sample_data(b.samples@, k as usize, f, b.version, b.nal_length_size);
    assert(s == head + b.spec_data() + data);
    // size and type
    crate::util::lemma_low32_roundtrip(b.spec_size() as u64);
    assert(s.subrange(0, 4) =~= low32_bytes(b.spec_size() as u64));
    crate::util::lemma_read_u32_shift(s, low32_bytes(b.spec_size() as u64), 0, 0);
    assert(s.subrange(4, 8) =~= seq![0x74u8, 0x72, 0x75, 0x6E]);
    lemma_ascii_valid_utf8(s.subrange(4, 8));
    // flags
    assert(read_u32(s, 8) & 0xFFFFFFu32 == f) by {
        let v = (b.version as u64) as u8;
        assert(crate::util::be_u32(v, (f >> 16u32) as u8, (f >> 8u32) as u8, f as u8)
            & 0xFFFFFFu32 == f) by (bit_vector)
            requires
                f < 0x1000,
        ;
    }
    // count
    crate::util::lemma_low32_roundtrip(b.samples@.len() as u64);
    assert(s.subrange(12, 16) =~= low32_bytes(b.samples@.len() as u64));
    crate::util::lemma_read_u32_shift(s, low32_bytes(b.samples@.len() as u64), 12, 0);
    // data offset
    crate::util::lemma_low32_roundtrip((b.spec_size() + b.data_offset + 8) as u64);
    assert(s.subrange(16, 20) =~= low32_bytes((b.spec_size() + b.data_offset + 8) as u64));
    crate::util::lemma_read_u32_shift(
        s,
        low32_bytes((b.spec_size() + b.data_offset + 8) as u64),
        16,
        0,
    );
    // first sample flags
    if let Some(v) = b.first_sample_flags {
        crate::util::lemma_low32_roundtrip(v as u64);
        assert(s.subrange(20, 24) =~= low32_bytes(v as u64));
        crate::util::lemma_read_u32_shift(s, low32_bytes(v as u64), 20, 0);
    }
    // samples
    let base = trun_base(f);
    assert(base == 20 + b.spec_data().len());
    assert(s.subrange(base, s.len() as int) =~= data);
    lemma_sample_data_len(b.samples@, k as usize, f, b.version, b.nal_length_size);
    assert(data.len() == n * k);
    assert(n * k == k * n) by (nonlinear_arith);
    let ku = k as usize;
    lemma_sample_fields_len(b.samples@[0], f, b.version, 0, 0, b.nal_length_size);
    assert(ku as int == k);
    assert forall|i: int| 0 <= i < n implies #[trigger] t.samples@[i] == spec_parsed_sample(
        b.samples@[i],
        f,
        b.version,
        b.nal_length_size,
    ) by {
        lemma_sample_data_chunk(b.samples@, ku, f, b.version, b.nal_length_size, i);
        let o = base + i * k;
        assert(s.subrange(o, o + k) =~= data.subrange(i * k, i * k + k));
        lemma_sample_entry_fields(s, o, b.samples@[i], f, b.version, b.nal_length_size);
    }
}

} // verus!

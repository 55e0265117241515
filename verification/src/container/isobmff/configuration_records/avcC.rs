use vstd::prelude::*;

use crate::codec::h264::sequence_parameter_set::{spec_parse_sps, SequenceParameterSet, SpsParse};
use crate::container::isobmff::{make_box, spec_box};
use crate::error::CustomError;
use crate::util::extend_bytes;

verus! {

// AVCDecoderConfigurationRecord, ISO/IEC 14496-15; 5.3.3.1

#[derive(Debug)]
pub struct AVCDecoderConfigurationRecord {
    pub configuration_version: u8,
    pub avc_profile_indication: u8,
    pub profile_compatability: u8,
    pub avc_level_indication: u8,
    pub length_size_minus_one: u8,
    pub num_of_sequence_parameter_sets: u8,
    pub num_of_picture_parameter_sets: u8,
}

/// The record that the bytes of an `avcC` box hold after its header: the
/// length size is the low two bits of its byte, the sequence parameter set
/// count the low five bits of its byte.
pub open spec fn avcc_matches(r: AVCDecoderConfigurationRecord, s: Seq<u8>) -> bool {
    &&& r.configuration_version == s[8]
    &&& r.avc_profile_indication == s[9]
    &&& r.profile_compatability == s[10]
    &&& r.avc_level_indication == s[11]
    &&& r.length_size_minus_one == s[12] & 0x3u8
    &&& r.num_of_sequence_parameter_sets == s[13] & 0x1Fu8
    &&& r.num_of_picture_parameter_sets == 0
}

impl AVCDecoderConfigurationRecord {
    /// Reads the fixed fields of an `avcC` box.
    pub fn parse(data: &[u8]) -> (r: AVCDecoderConfigurationRecord)
        requires
            data@.len() >= 14,
        ensures
            avcc_matches(r, data@),
    {
        let mut start = 8usize;
        let configuration_version = data[start];
        start = start + 1;
        let avc_profile_indication = data[start];
        start = start + 1;
        let profile_compatability = data[start];
        start = start + 1;
        let avc_level_indication = data[start];
        start = start + 1;
        let length_size_minus_one = data[start] & 0x3;
        start = start + 1;
        let num_of_sequence_parameter_sets = data[start] & 0x1F;
        AVCDecoderConfigurationRecord {
            configuration_version,
            avc_profile_indication,
            profile_compatability,
            avc_level_indication,
            length_size_minus_one,
            num_of_sequence_parameter_sets,
            num_of_picture_parameter_sets: 0u8,
        }
    }
}

pub struct AVCDecoderConfigurationRecordBuilder {
    pub sps_data: Vec<u8>,
    pub pps_data: Vec<u8>,
}

/// The low 16 bits of a length, most significant first.
pub open spec fn len16_bytes(n: nat) -> Seq<u8> {
    seq![((n as u64) >> 8u64) as u8, (n as u64) as u8]
}

impl AVCDecoderConfigurationRecordBuilder {
    /// The `avcC` box: version 1, the profile, compatibility and level of
    /// the sequence parameter set, 4-byte lengths, one sequence parameter
    /// set and one picture parameter set, each after its 16-bit length;
    /// `None` when the sequence parameter set does not parse.
    pub open spec fn spec_build(&self) -> Option<Seq<u8>> {
        match spec_parse_sps(self.sps_data@) {
            SpsParse::Parsed(sps) => Some(
                spec_box(
                    seq![0x61u8, 0x76, 0x63, 0x43],
                    seq![
                        0x01u8,
                        sps.profile_idc,
                        sps.spec_profile_compatability(),
                        sps.level_idc,
                        0xFF,
                        0xE1,
                    ] + len16_bytes(self.sps_data@.len()) + self.sps_data@ + seq![0x01u8]
                        + len16_bytes(self.pps_data@.len()) + self.pps_data@,
                ),
            ),
            _ => None,
        }
    }

    /// The sequence parameter set is one the parser handles, and the box
    /// fits in `usize`.
    pub open spec fn buildable(&self) -> bool {
        &&& !(spec_parse_sps(self.sps_data@) is Unsupported)
        &&& 19 + self.sps_data@.len() + self.pps_data@.len() <= usize::MAX
    }

    pub fn create_builder() -> (b: AVCDecoderConfigurationRecordBuilder)
        ensures
            b.sps_data@.len() == 0,
            b.pps_data@.len() == 0,
    {
        AVCDecoderConfigurationRecordBuilder { pps_data: Vec::new(), sps_data: Vec::new() }
    }

    pub fn pps(self, pps_data: &[u8]) -> (b: AVCDecoderConfigurationRecordBuilder)
        ensures
            b.pps_data@ == pps_data@,
            b.sps_data == self.sps_data,
    {
        AVCDecoderConfigurationRecordBuilder {
            pps_data: vstd::slice::slice_to_vec(pps_data),
            sps_data: self.sps_data,
        }
    }

    pub fn sps(self, sps_data: &[u8]) -> (b: AVCDecoderConfigurationRecordBuilder)
        ensures
            b.sps_data@ == sps_data@,
            b.pps_data == self.pps_data,
    {
        AVCDecoderConfigurationRecordBuilder {
            sps_data: vstd::slice::slice_to_vec(sps_data),
            pps_data: self.pps_data,
        }
    }

    pub fn build(self) -> (r: Result<Vec<u8>, CustomError>)
        requires
            self.buildable(),
        ensures
            match self.spec_build() {
                Some(b) => r matches Ok(v) && v@ == b,
                None => r is Err,
            },
    {
        let sps = SequenceParameterSet::parse(self.sps_data.as_slice())?;
        let sps_length = self.sps_data.len() as u64;
        let pps_length = self.pps_data.len() as u64;
        let mut payload = vec![
            // configurationVersion
            0x01,
            sps.profile_idc,
            sps.profile_compatability(),
            sps.level_idc,
            // reserved and lengthSizeMinusOne = 3
            0xFF,
            // reserved and numOfSequenceParameterSets = 1
            0xE1,
            (sps_length >> 8u64) as u8, sps_length as u8,
        ];
        extend_bytes(&mut payload, self.sps_data.as_slice());
        payload.push(0x01);
        payload.push((pps_length >> 8u64) as u8);
        payload.push(pps_length as u8);
        extend_bytes(&mut payload, self.pps_data.as_slice());
        assert(payload@ =~= seq![
            0x01u8,
            sps.profile_idc,
            sps.spec_profile_compatability(),
            sps.level_idc,
            0xFF,
            0xE1,
        ] + len16_bytes(self.sps_data@.len()) + self.sps_data@ + seq![0x01u8] + len16_bytes(
            self.pps_data@.len(),
        ) + self.pps_data@);
        Ok(make_box([0x61, 0x76, 0x63, 0x43], payload.as_slice()))
    }
}

} // verus!

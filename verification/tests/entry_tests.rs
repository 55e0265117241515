#![allow(non_snake_case)]

use media_remux::codec::h264::sequence_parameter_set::SequenceParameterSet;
use media_remux::container::isobmff::configuration_records::avcC::AVCDecoderConfigurationRecordBuilder;
use media_remux::container::isobmff::descriptors::aac_audio_specific_config::{
    AACAudioSpecificConfig, AACAudioSpecificConfigBuilder,
};
use media_remux::container::isobmff::descriptors::dec_config_descriptor::DecoderConfigDescriptorBuilder;
use media_remux::container::isobmff::descriptors::es_descriptor::ESDescriptorBuidler;
use media_remux::container::isobmff::descriptors::sl_config_descriptor::SLConfigDescriptorBuilder;
use media_remux::container::isobmff::nal::nal_unit::NALUnit;
use media_remux::container::isobmff::sample_entry::audio_sample_entry::AudioSampleEntryBuilder;
use media_remux::container::isobmff::sample_entry::avc_sample_entry::AVCSampleEntryBuilder;
use media_remux::container::isobmff::sample_entry::sample_entry::SampleEntryBuilder;
use media_remux::container::isobmff::sample_entry::visual_sample_entry::VisualSampleEntryBuilder;



fn get_expected_sps() -> SequenceParameterSet {
  return  SequenceParameterSet{
    profile_idc: 66,
    constraint_set0_flag: 1,
    constraint_set1_flag: 1,
    constraint_set2_flag: 0,
    constraint_set3_flag: 0,
    constraint_set4_flag: 0,
    constraint_set5_flag: 0,
    level_idc: 30,
    seq_parameter_set_id: 0,
    log2_max_frame_num_minus4: 0,
    max_num_ref_frames: 3,
    gaps_in_frame_num_value_allowed_flag: 0,
    direct_8x8_inference_flag: 1,
    pic_width_in_mbs_minus1: 29,
    pic_height_in_map_units_minus1: 16,
    frame_mbs_only_flag: 1,
    frame_crop_left_offset: 0,
    frame_crop_right_offset: 0,
    frame_crop_top_offset: 0,
    frame_crop_bottom_offset: 1,
  }
}

#[test]
fn test_parse_sps() {
  let sps:[u8; 25] = [
    0x67, 0x42, 0xC0, 0x1E, 0xD9, 0x01, 0xE0, 0x8F, 0xEB, 0x01, 0x10, 0x00, 0x00, 0x03, 0x00, 0x10, 0x00, 0x00, 0x03, 0x03, 0xC0, 0xF1, 0x62, 0xE4, 0x80
  ];
  let expected_sps: SequenceParameterSet = get_expected_sps();
  let actual_sps = SequenceParameterSet::parse(&sps).unwrap();
  assert_eq!(actual_sps.width(), 480);
  assert_eq!(actual_sps.height(), 270);
  assert_eq!(actual_sps.profile_compatability(), 192);
  assert_eq!(actual_sps, expected_sps);
}



#[test]
fn test_build_avcC() {
  let expected_avcC = vec![
    0x00, 0x00, 0x00, 0x30, 0x61, 0x76, 0x63, 0x43, 0x01, 0x42, 0xC0, 0x1E, 0xFF, 0xE1, 0x00, 0x19, 0x67, 0x42, 0xC0, 0x1E, 0xD9, 0x01, 0xE0, 0x8F, 0xEB, 0x01, 0x10, 0x00, 0x00, 0x03, 0x00, 0x10, 0x00, 0x00, 0x03, 0x03, 0xC0, 0xF1, 0x62, 0xE4, 0x80, 0x01, 0x00, 0x04, 0x68, 0xCB, 0x8C, 0xB2
  ];
  let sps: [u8; 25] = [
    0x67, 0x42, 0xC0, 0x1E, 0xD9, 0x01, 0xE0, 0x8F, 0xEB, 0x01, 0x10, 0x00, 0x00, 0x03, 0x00, 0x10, 0x00, 0x00, 0x03, 0x03, 0xC0, 0xF1, 0x62, 0xE4, 0x80
  ];
  let pps: [u8; 4] = [
    0x68, 0xcb, 0x8c, 0xb2
  ];

  let avcC = AVCDecoderConfigurationRecordBuilder::create_builder()
    .sps(&sps)
    .pps(&pps)
    .build()
    .unwrap();
  
  assert_eq!(avcC, expected_avcC);
}




#[test]
fn test_parse_audio_specific_config() {
  let audio_specific_config: [u8; 4] = [
    0x05, 0x02, 0x11, 0x90
  ];

  let expected_config = AACAudioSpecificConfig{
    audio_object_type: 2,
    sampling_frequency_index: 3,
    sampling_frequency: Option::None,
    channel_configuration: 2,
  };
  assert_eq!(AACAudioSpecificConfig::parse(&audio_specific_config).unwrap(), expected_config);
}

#[test]
fn aac_audio_specific_config_test_audio_specific_config_builder() {
  let expected_audio_specific_config: [u8; 7] = [
    0x05,
    0x80, 0x80, 0x80, 0x02,
    0x12, 0x30
  ]; 
  let actual_audio_specific_config = AACAudioSpecificConfigBuilder::create_builder()
    .channel_count(6)
    .sampling_frequency_index(4)
    .build();
  assert_eq!(actual_audio_specific_config, expected_audio_specific_config);
}



#[test]
fn dec_config_descriptor_test_audio_specific_config_builder() {
  let expected_decoder_config_descriptor: [u8; 25] = [
    // DecoderConfigDescriptor
    0x04,
    0x80, 0x80, 0x80, 0x14,
    0x40,
    0x15,
    0x00, 0x00, 0x00,
    0x00, 0x00, 0x00, 0x00,
    0x00, 0x00, 0x00, 0x00,
    0x05,
    0x80, 0x80, 0x80, 0x02,
    0x12, 0x30
  ]; 
  let actual_decoder_config_descriptor = DecoderConfigDescriptorBuilder::create_builder()
    .aac_audio_specific_config(
      AACAudioSpecificConfigBuilder::create_builder()
        .channel_count(6)
        .sampling_frequency_index(4)
    )
    .build()
    .unwrap();
  assert_eq!(actual_decoder_config_descriptor, expected_decoder_config_descriptor);
}




#[test]
fn test_es_descriptor_builder() {
  let expected_es_descriptor: [u8; 51] = [
    // esds
    0x00, 0x00, 0x00, 0x33,
    0x65, 0x73, 0x64, 0x73,
    0x00, 0x00, 0x00, 0x00,
    0x03,
    0x80, 0x80, 0x80, 0x1F,
    0x00, 0x00,
    0x00,
    0x04,
    0x80, 0x80, 0x80, 0x14,
    0x40,
    0x15,
    0x00, 0x00, 0x00,
    0x00, 0x00, 0x00, 0x00,
    0x00, 0x00, 0x00, 0x00,
    0x05,
    0x80, 0x80, 0x80, 0x02,
    0x12, 0x30,
    // SLConfigDescriptor
    0x06,
    0x80, 0x80, 0x80, 0x01,
    0x02
  ]; 
  let actual_es_descriptor = ESDescriptorBuidler::create_builder()
    .dec_conf_desc(
       DecoderConfigDescriptorBuilder::create_builder()
        .aac_audio_specific_config(
          AACAudioSpecificConfigBuilder::create_builder()
            .channel_count(6)
            .sampling_frequency_index(4)
        )
    )
    .build()
    .unwrap();
  assert_eq!(actual_es_descriptor, expected_es_descriptor);
}



#[test]
fn test_sl_config_descriptor_builder() {
  let expected_sl_config_descriptor: [u8; 6] = [
    0x06,
    0x80, 0x80, 0x80, 0x01,
    0x02
  ]; 
  let actual_sl_config_descriptor = SLConfigDescriptorBuilder::create_builder()
    .build();
  assert_eq!(actual_sl_config_descriptor, expected_sl_config_descriptor);
}



#[test]
fn test_nal_unit_parsing() {
  
  // This is the beginning of the mdat from /assets/v_frag.mp4. I just took the mdat header with the first nal unit
  let mdat_data: [u8; 746] = [
    // size + mdat
    0x00, 0x01, 0x96, 0xDD, 0x6D, 0x64, 0x61, 0x74,
    0x00, 0x00, 0x02, 0xE2, 0x06, 0x05, 0xFF, 0xFF, 0xDE, 0xDC, 0x45, 0xE9, 0xBD, 0xE6, 0xD9, 0x48, 0xB7, 0x96, 0x2C, 0xD8,
    0x20, 0xD9, 0x23, 0xEE, 0xEF, 0x78, 0x32, 0x36, 0x34, 0x20, 0x2D, 0x20, 0x63, 0x6F, 0x72, 0x65, 0x20, 0x31, 0x34, 0x36,
    0x20, 0x72, 0x31, 0x31, 0x4D, 0x20, 0x31, 0x32, 0x31, 0x33, 0x39, 0x36, 0x63, 0x20, 0x2D, 0x20, 0x48, 0x2E, 0x32, 0x36,
    0x34, 0x2F, 0x4D, 0x50, 0x45, 0x47, 0x2D, 0x34, 0x20, 0x41, 0x56, 0x43, 0x20, 0x63, 0x6F, 0x64, 0x65, 0x63, 0x20, 0x2D,
    0x20, 0x43, 0x6F, 0x70, 0x79, 0x6C, 0x65, 0x66, 0x74, 0x20, 0x32, 0x30, 0x30, 0x33, 0x2D, 0x32, 0x30, 0x31, 0x35, 0x20,
    0x2D, 0x20, 0x68, 0x74, 0x74, 0x70, 0x3A, 0x2F, 0x2F, 0x77, 0x77, 0x77, 0x2E, 0x76, 0x69, 0x64, 0x65, 0x6F, 0x6C, 0x61,
    0x6E, 0x2E, 0x6F, 0x72, 0x67, 0x2F, 0x78, 0x32, 0x36, 0x34, 0x2E, 0x68, 0x74, 0x6D, 0x6C, 0x20, 0x2D, 0x20, 0x6F, 0x70,
    0x74, 0x69, 0x6F, 0x6E, 0x73, 0x3A, 0x20, 0x63, 0x61, 0x62, 0x61, 0x63, 0x3D, 0x30, 0x20, 0x72, 0x65, 0x66, 0x3D, 0x33,
    0x20, 0x64, 0x65, 0x62, 0x6C, 0x6F, 0x63, 0x6B, 0x3D, 0x31, 0x3A, 0x30, 0x3A, 0x30, 0x20, 0x61, 0x6E, 0x61, 0x6C, 0x79,
    0x73, 0x65, 0x3D, 0x30, 0x78, 0x31, 0x3A, 0x30, 0x78, 0x31, 0x31, 0x31, 0x20, 0x6D, 0x65, 0x3D, 0x68, 0x65, 0x78, 0x20,
    0x73, 0x75, 0x62, 0x6D, 0x65, 0x3D, 0x37, 0x20, 0x70, 0x73, 0x79, 0x3D, 0x31, 0x20, 0x70, 0x73, 0x79, 0x5F, 0x72, 0x64,
    0x3D, 0x31, 0x2E, 0x30, 0x30, 0x3A, 0x30, 0x2E, 0x30, 0x30, 0x20, 0x6D, 0x69, 0x78, 0x65, 0x64, 0x5F, 0x72, 0x65, 0x66,
    0x3D, 0x31, 0x20, 0x6D, 0x65, 0x5F, 0x72, 0x61, 0x6E, 0x67, 0x65, 0x3D, 0x31, 0x36, 0x20, 0x63, 0x68, 0x72, 0x6F, 0x6D,
    0x61, 0x5F, 0x6D, 0x65, 0x3D, 0x31, 0x20, 0x74, 0x72, 0x65, 0x6C, 0x6C, 0x69, 0x73, 0x3D, 0x31, 0x20, 0x38, 0x78, 0x38,
    0x64, 0x63, 0x74, 0x3D, 0x30, 0x20, 0x63, 0x71, 0x6D, 0x3D, 0x30, 0x20, 0x64, 0x65, 0x61, 0x64, 0x7A, 0x6F, 0x6E, 0x65,
    0x3D, 0x32, 0x31, 0x2C, 0x31, 0x31, 0x20, 0x66, 0x61, 0x73, 0x74, 0x5F, 0x70, 0x73, 0x6B, 0x69, 0x70, 0x3D, 0x31, 0x20,
    0x63, 0x68, 0x72, 0x6F, 0x6D, 0x61, 0x5F, 0x71, 0x70, 0x5F, 0x6F, 0x66, 0x66, 0x73, 0x65, 0x74, 0x3D, 0x2D, 0x32, 0x20,
    0x74, 0x68, 0x72, 0x65, 0x61, 0x64, 0x73, 0x3D, 0x34, 0x38, 0x20, 0x6C, 0x6F, 0x6F, 0x6B, 0x61, 0x68, 0x65, 0x61, 0x64,
    0x5F, 0x74, 0x68, 0x72, 0x65, 0x61, 0x64, 0x73, 0x3D, 0x32, 0x20, 0x73, 0x6C, 0x69, 0x63, 0x65, 0x64, 0x5F, 0x74, 0x68,
    0x72, 0x65, 0x61, 0x64, 0x73, 0x3D, 0x30, 0x20, 0x6E, 0x72, 0x3D, 0x30, 0x20, 0x64, 0x65, 0x63, 0x69, 0x6D, 0x61, 0x74,
    0x65, 0x3D, 0x31, 0x20, 0x69, 0x6E, 0x74, 0x65, 0x72, 0x6C, 0x61, 0x63, 0x65, 0x64, 0x3D, 0x30, 0x20, 0x62, 0x6C, 0x75,
    0x72, 0x61, 0x79, 0x5F, 0x63, 0x6F, 0x6D, 0x70, 0x61, 0x74, 0x3D, 0x30, 0x20, 0x73, 0x74, 0x69, 0x74, 0x63, 0x68, 0x61,
    0x62, 0x6C, 0x65, 0x3D, 0x31, 0x20, 0x63, 0x6F, 0x6E, 0x73, 0x74, 0x72, 0x61, 0x69, 0x6E, 0x65, 0x64, 0x5F, 0x69, 0x6E,
    0x74, 0x72, 0x61, 0x3D, 0x30, 0x20, 0x62, 0x66, 0x72, 0x61, 0x6D, 0x65, 0x73, 0x3D, 0x30, 0x20, 0x77, 0x65, 0x69, 0x67,
    0x68, 0x74, 0x70, 0x3D, 0x30, 0x20, 0x6B, 0x65, 0x79, 0x69, 0x6E, 0x74, 0x3D, 0x69, 0x6E, 0x66, 0x69, 0x6E, 0x69, 0x74,
    0x65, 0x20, 0x6B, 0x65, 0x79, 0x69, 0x6E, 0x74, 0x5F, 0x6D, 0x69, 0x6E, 0x3D, 0x33, 0x30, 0x20, 0x73, 0x63, 0x65, 0x6E,
    0x65, 0x63, 0x75, 0x74, 0x3D, 0x34, 0x30, 0x20, 0x69, 0x6E, 0x74, 0x72, 0x61, 0x5F, 0x72, 0x65, 0x66, 0x72, 0x65, 0x73,
    0x68, 0x3D, 0x30, 0x20, 0x72, 0x63, 0x5F, 0x6C, 0x6F, 0x6F, 0x6B, 0x61, 0x68, 0x65, 0x61, 0x64, 0x3D, 0x34, 0x30, 0x20,
    0x72, 0x63, 0x3D, 0x32, 0x70, 0x61, 0x73, 0x73, 0x20, 0x6D, 0x62, 0x74, 0x72, 0x65, 0x65, 0x3D, 0x31, 0x20, 0x62, 0x69,
    0x74, 0x72, 0x61, 0x74, 0x65, 0x3D, 0x33, 0x30, 0x30, 0x20, 0x72, 0x61, 0x74, 0x65, 0x74, 0x6F, 0x6C, 0x3D, 0x31, 0x2E,
    0x30, 0x20, 0x71, 0x63, 0x6F, 0x6D, 0x70, 0x3D, 0x30, 0x2E, 0x36, 0x30, 0x20, 0x71, 0x70, 0x6D, 0x69, 0x6E, 0x3D, 0x35,
    0x20, 0x71, 0x70, 0x6D, 0x61, 0x78, 0x3D, 0x36, 0x39, 0x20, 0x71, 0x70, 0x73, 0x74, 0x65, 0x70, 0x3D, 0x34, 0x20, 0x63,
    0x70, 0x6C, 0x78, 0x62, 0x6C, 0x75, 0x72, 0x3D, 0x32, 0x30, 0x2E, 0x30, 0x20, 0x71, 0x62, 0x6C, 0x75, 0x72, 0x3D, 0x30,
    0x2E, 0x35, 0x20, 0x76, 0x62, 0x76, 0x5F, 0x6D, 0x61, 0x78, 0x72, 0x61, 0x74, 0x65, 0x3D, 0x33, 0x33, 0x30, 0x20, 0x76,
    0x62, 0x76, 0x5F, 0x62, 0x75, 0x66, 0x73, 0x69, 0x7A, 0x65, 0x3D, 0x33, 0x36, 0x30, 0x20, 0x6E, 0x61, 0x6C, 0x5F, 0x68,
    0x72, 0x64, 0x3D, 0x6E, 0x6F, 0x6E, 0x65, 0x20, 0x66, 0x69, 0x6C, 0x6C, 0x65, 0x72, 0x3D, 0x30, 0x20, 0x69, 0x70, 0x5F,
    0x72, 0x61, 0x74, 0x69, 0x6F, 0x3D, 0x31, 0x2E, 0x34, 0x30, 0x20, 0x61, 0x71, 0x3D, 0x31, 0x3A, 0x31, 0x2E
  ];

  let nal_unit = NALUnit::parse(&mdat_data, 8, 4).unwrap();
  assert_eq!(nal_unit.get_ref_idc(), 0);
  assert_eq!(nal_unit.get_unit_type(), 6);
  assert_eq!(nal_unit.size, 738);
}



#[test]
fn test_build_audio_sample_entry() {
  let expected_audio_sample_entry: [u8; 20] = [
    0x00, 0x00, 0x00, 0x00,
    0x00, 0x00, 0x00, 0x00,
    0x00, 0x02,
    0x00, 0x10,
    0x00, 0x00,
    0x00, 0x00,
    0x00, 0x00, 0x5D, 0xC0
  ];
  let audio_sample_entry = AudioSampleEntryBuilder::create_builder()
    .channel_count(2)
    .sample_rate(24000)
    .build();

  assert_eq!(audio_sample_entry, expected_audio_sample_entry);
}



#[test]
fn test_build_avc1_sample_entry() {
  let expected_avc1_sample_entry = vec![
    0x00, 0x00, 0x00, 0x96, 0x61, 0x76, 0x63, 0x31, 0x00, 0x00, 0x00, 0x00, 0x00, 0x00, 0x00, 0x01, 0x00, 0x00, 0x00, 0x00, 0x00, 0x00, 0x00, 0x00, 0x00, 0x00,
    0x00, 0x00, 0x00, 0x00, 0x00, 0x00, 0x01, 0xE0, 0x01, 0x0E, 0x00, 0x48, 0x00, 0x00, 0x00, 0x48, 0x00, 0x00, 0x00, 0x00, 0x00, 0x00, 0x00, 0x01, 0x11, 0x54,
    0x6f, 0x6f, 0x66, 0x65, 0x72, 0x20, 0x41, 0x56, 0x43, 0x20, 0x43, 0x6f, 0x64, 0x69, 0x6e, 0x67, 0x00, 0x00, 0x00, 0x00, 0x00, 0x00, 0x00, 0x00, 0x00, 0x00,
    0x00, 0x00, 0x00, 0x00, 0x00, 0x00, 0xFF, 0xFF, 0x00, 0x00, 0x00, 0x30, 0x61, 0x76, 0x63, 0x43, 0x01, 0x42, 0xC0, 0x1E, 0xFF, 0xE1, 0x00, 0x19, 0x67, 0x42,
    0xC0, 0x1E, 0xD9, 0x01, 0xE0, 0x8F, 0xEB, 0x01, 0x10, 0x00, 0x00, 0x03, 0x00, 0x10, 0x00, 0x00, 0x03, 0x03, 0xC0, 0xF1, 0x62, 0xE4, 0x80, 0x01, 0x00, 0x04,
    0x68, 0xCB, 0x8C, 0xB2,
  ];
  let sps: [u8; 25] = [
    0x67, 0x42, 0xC0, 0x1E, 0xD9, 0x01, 0xE0, 0x8F, 0xEB, 0x01, 0x10, 0x00, 0x00, 0x03, 0x00, 0x10, 0x00, 0x00, 0x03, 0x03, 0xC0, 0xF1, 0x62, 0xE4, 0x80
  ];
  let pps: [u8; 4] = [
    0x68, 0xcb, 0x8c, 0xb2
  ];
  let avc1_sample_entry = AVCSampleEntryBuilder::create_builder()
    .sample_entry(
      SampleEntryBuilder::create_builder()
    )
    .visual_sample_entry(
      VisualSampleEntryBuilder::create_builder()
        .sps(&sps)
    )
    .avc_c(
      AVCDecoderConfigurationRecordBuilder::create_builder()
        .sps(&sps)
        .pps(&pps)
    )
    .build()
    .unwrap();

  assert_eq!(avc1_sample_entry, expected_avc1_sample_entry);
}



#[test]
fn test_build_sample_entry() {
  let expected_sample_entry = vec![0x00, 0x00, 0x00, 0x00, 0x00, 0x00,0x00, 0x01];
  let sample_entry = SampleEntryBuilder::create_builder().build();

  assert_eq!(sample_entry, expected_sample_entry);
}



#[test]
fn test_build_visual_sample_entry() {
  let expected_visual_sample_entry = vec![0x00, 0x00, 0x00, 0x00, 0x00, 0x00, 0x00, 0x00, 0x00, 0x00, 0x00, 0x00, 0x00, 0x00, 0x00, 0x00, 0x01, 0xE0, 0x01, 0x0E, 0x00, 0x48, 0x00, 0x00, 0x00, 0x48, 0x00, 0x00, 0x00, 0x00, 0x00, 0x00, 0x00, 0x01, 0x11, 0x54, 0x6f, 0x6f, 0x66, 0x65, 0x72, 0x20, 0x41, 0x56, 0x43, 0x20, 0x43, 0x6f, 0x64, 0x69, 0x6e, 0x67, 0x00, 0x00, 0x00, 0x00, 0x00, 0x00, 0x00, 0x00, 0x00, 0x00, 0x00, 0x00, 0x00, 0x00, 0x00, 0x00, 0xFF, 0xFF];
  let sps: [u8; 25] = [
    0x67, 0x42, 0xC0, 0x1E, 0xD9, 0x01, 0xE0, 0x8F, 0xEB, 0x01, 0x10, 0x00, 0x00, 0x03, 0x00, 0x10, 0x00, 0x00, 0x03, 0x03, 0xC0, 0xF1, 0x62, 0xE4, 0x80
  ];
  let visual_sample_entry = VisualSampleEntryBuilder::create_builder()
    .sps(&sps)
    .build()
    .unwrap();

  assert_eq!(visual_sample_entry, expected_visual_sample_entry);
}

#[test]
fn it_works() {
  assert_eq!(2 + 2, 4);
}

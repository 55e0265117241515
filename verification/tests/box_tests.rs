use media_remux::container::isobmff::boxes::dinf::DINFBuilder;
use media_remux::container::isobmff::boxes::mdat::MDATBuilder;
use media_remux::container::isobmff::boxes::mdhd::MDHDReader;
use media_remux::container::isobmff::boxes::mdia::MDIABuilder;
use media_remux::container::isobmff::boxes::mfhd::MFHDBuilder;
use media_remux::container::isobmff::boxes::minf::{MINFBuilder, MediaHeaderBuilder};
use media_remux::container::isobmff::boxes::moof::MOOFBuilder;
use media_remux::container::isobmff::boxes::mvex::MVEXBuilder;
use media_remux::container::isobmff::boxes::smhd::SMHDBuilder;
use media_remux::container::isobmff::boxes::stbl::STBLBuilder;
use media_remux::container::isobmff::boxes::stco::STCOBuilder;
use media_remux::container::isobmff::boxes::stsc::STSCBuilder;
use media_remux::container::isobmff::boxes::stsd::STSDBuilder;
use media_remux::container::isobmff::boxes::stsz::STSZBuilder;
use media_remux::container::isobmff::boxes::stts::STTSReader;
use media_remux::container::isobmff::boxes::tfdt::{TFDTBuilder, TFDT};
use media_remux::container::isobmff::boxes::tfhd::{TFHDBuilder, TFHD};
use media_remux::container::isobmff::boxes::traf::TRAFBuilder;
use media_remux::container::isobmff::boxes::trex::TREXBuilder;
use media_remux::container::isobmff::boxes::trun::TRUNBuilder;
use media_remux::container::isobmff::boxes::vmhd::VMHDBuilder;
use media_remux::container::isobmff::boxes::SampleFlag;
use media_remux::container::isobmff::BoxBuilder;
use media_remux::container::writer::mp4_writer::SampleInfo;
use media_remux::error::CustomError;




#[test]
fn test_build_dinf() {
  let expected_dinf: [u8; 36] = [
    //dinf
    0x00, 0x00, 0x00, 0x24,
    0x64, 0x69, 0x6E, 0x66,
    // dref
    0x00, 0x00, 0x00, 0x1C,
    0x64, 0x72, 0x65, 0x66,
    0x00, 0x00, 0x00, 0x00,
    0x00, 0x00, 0x00, 0x01,
    0x00, 0x00, 0x00, 0x0C,
    0x75, 0x72, 0x6C, 0x20,
    0x00, 0x00, 0x00, 0x01,
  ];
  let dinf = DINFBuilder::create_builder().build();
  assert_eq!(dinf, expected_dinf);
}



#[test]
fn test_build_mdat() {
  let expected_mdat: [u8; 29] = [
    // size
    0x00, 0x00, 0x00, 0x1D,
    // mdat
    0x6D, 0x64, 0x61, 0x74,
    0x00, 0x00, 0x00, 0x03,
    0x00, 0x01, 0x02,
    0x00, 0x00, 0x00, 0x02,
    0x03, 0x04,
    0x00, 0x00, 0x00, 0x04,
    0x05, 0x06, 0x07, 0x08,
  ];

  let samples = vec![
    SampleInfo{
      sample_flags: None,
      sample_duration: None,
      pts: 1,
      dts: 1,
      data: vec![
        // nal unit header
        0x00, 0x00, 0x00, 0x03,
        // media data
        0x00,0x01,0x02
      ]
    },
    SampleInfo{
      sample_flags: None,
      sample_duration: None,
      pts: 2,
      dts: 2,
      data: vec![
        // nal unit header
        0x00, 0x00, 0x00, 0x02,
        // media data
        0x03,0x04
      ]
    },
    SampleInfo{
      sample_flags: None,
      sample_duration: None,
      pts: 3,
      dts: 3,
      data: vec![
        // nal unit header
        0x00, 0x00, 0x00, 0x04,
        // media data
        0x05,0x06,0x07,0x08
      ]
    }
  ];
  
  let mdat = MDATBuilder::create_builder()
    .media_data(MDATBuilder::merge_samples(samples))
    .build()
    .unwrap();
  assert_eq!(mdat, expected_mdat);
}




#[test]
fn test_parse_mdhd() {

  let mdhd: [u8; 32] = [
    // Size
   0x00, 0x00, 0x00, 0x20,
   // mdhd
   0x6D, 0x64, 0x68, 0x64,
   0x00, 0x00, 0x00, 0x00, 0x00, 0x00, 0x00, 0x00, 0x00, 0x00, 0x00, 0x00, 0x00, 0x00, 0x00, 0x1E, 0x00, 0x00, 0x00, 0x00, 0x55, 0xC4, 0x00, 0x00
  ];

  let expected_mdhd: MDHDReader = MDHDReader {
    data: (&mdhd).to_vec(),
    box_type: "mdhd".to_string(),
    size: 32,
    version: 0,
    flags: 0,
    creation_time: Option::None,
    modification_time: Option::None,
    duration: Option::None,
    timescale: Option::None,
    language: Option::None,
  };

  let mut mdhd_reader = MDHDReader::get_reader(&mdhd).unwrap();
  assert_eq!(mdhd_reader, expected_mdhd);
  assert_eq!(mdhd_reader.get_creation_time().unwrap(), 0);
  assert_eq!(mdhd_reader.get_modification_time().unwrap(), 0);
  assert_eq!(mdhd_reader.get_duration().unwrap(), 0);
  assert_eq!(mdhd_reader.get_timescale().unwrap(), 30);
  assert_eq!(mdhd_reader.get_language().unwrap(), "und");
}




#[test]
fn test_build_mdia() {
  let expected_mdia: [u8; 16] = [
    // Size
    0x00, 0x00, 0x00, 0x10,
    // mdia
    0x73, 0x74, 0x63, 0x6F,
    0x00, 0x00, 0x00, 0x00, 0x00, 0x00, 0x00, 0x00
  ];
  let mdia = MDIABuilder::create_builder().build().unwrap();
  assert_eq!(mdia, expected_mdia);
}



#[test]
fn test_build_mfhd() {
  let expected_mfhd: [u8; 16] = [
    // size
    0x00, 0x00, 0x00, 0x10,
    // mfhd
    0x6D, 0x66, 0x68, 0x64,
    0x00, 0x00, 0x00, 0x00,
    0x00, 0x00, 0x00, 0x00,
  ];
  
  let mfhd = MFHDBuilder::create_builder()
    .build();
  assert_eq!(mfhd, expected_mfhd);
}




struct MockHandler {}

impl BoxBuilder for MockHandler {
  fn build(&self) -> Result<Vec<u8>, CustomError> {
    Ok(vec![0x00, 0x01, 0x02, 0x03, 0x04, 0x05, 0x06, 0x07])
  }
}

#[test]
fn test_build_minf() {
  let expected_minf: [u8; 164] = [
    // minf
    0x00, 0x00, 0x00, 0xA4,
    0x6D, 0x69, 0x6E, 0x66,
    // vmhd
    0x00, 0x00, 0x00, 0x14,
    0x76, 0x6D, 0x68, 0x64,
    0x00, 0x00, 0x00, 0x01,
    0x00, 0x00, 0x00, 0x00,
    0x00, 0x00 ,0x00, 0x00,
    //dinf
    0x00, 0x00, 0x00, 0x24,
    0x64, 0x69, 0x6E, 0x66,
    0x00, 0x00, 0x00, 0x1C,
    0x64, 0x72, 0x65, 0x66,
    0x00, 0x00, 0x00, 0x00,
    0x00, 0x00, 0x00, 0x01,
    0x00, 0x00, 0x00, 0x0C,
    0x75, 0x72, 0x6C, 0x20,
    0x00, 0x00, 0x00, 0x01,
    // stbl
    0x00, 0x00, 0x00, 0x64,
    0x73, 0x74, 0x62, 0x6C,
    0x00, 0x00, 0x00, 0x18,
    0x73, 0x74, 0x73, 0x64,
    0x00, 0x00, 0x00, 0x00,
    0x00, 0x00, 0x00, 0x01,
    0x00, 0x01, 0x02, 0x03, 0x04, 0x05, 0x06, 0x07,
    0x00, 0x00, 0x00, 0x10,
    0x73, 0x74, 0x74, 0x73,
    0x00, 0x00, 0x00, 0x00,
    0x00, 0x00, 0x00, 0x00,
    0x00, 0x00, 0x00, 0x10,
    0x73, 0x74, 0x73, 0x63,
    0x00, 0x00, 0x00, 0x00,
    0x00, 0x00, 0x00, 0x00,
    0x00, 0x00, 0x00, 0x14,
    0x73, 0x74, 0x73, 0x7A,
    0x00, 0x00, 0x00, 0x00,
    0x00, 0x00, 0x00, 0x00,
    0x00, 0x00, 0x00, 0x00,
    0x00, 0x00, 0x00, 0x10,
    0x73, 0x74, 0x63, 0x6F,
    0x00, 0x00, 0x00, 0x00,
    0x00, 0x00, 0x00, 0x00,
  ];
  
  let minf = MINFBuilder::create_builder()
    .media_header(
      MediaHeaderBuilder::Video(VMHDBuilder::create_builder())
    )
    .stbl(
      STBLBuilder::create_builder()
        .stsd(
          STSDBuilder::create_builder()
          .sample_entry(MockHandler{}.build().unwrap())
        )
    )
    .build()
    .unwrap();
  assert_eq!(minf, expected_minf);
}




#[test]
fn test_sample_flag_parsing() {
  let mut sample_flag = SampleFlag::parse(0x02000000);
  assert_eq!(sample_flag.get_is_leading(), 0);
  assert_eq!(sample_flag.get_sample_depends_on(), 2);
  assert_eq!(sample_flag.get_sample_is_depended_on(), 0);
  assert_eq!(sample_flag.get_sample_has_redundancy(), 0);
  assert_eq!(sample_flag.get_sample_padding_value(), 0);
  assert_eq!(sample_flag.get_sample_is_non_sync_sample(), 0);
}

#[test]
fn test_something() {
  let mut sample_flag = SampleFlag::parse(0x1010000);
  assert_eq!(sample_flag.get_is_leading(), 0);
  assert_eq!(sample_flag.get_sample_depends_on(), 1);
  assert_eq!(sample_flag.get_sample_is_depended_on(), 0);
  assert_eq!(sample_flag.get_sample_has_redundancy(), 0);
  assert_eq!(sample_flag.get_sample_padding_value(), 0);
  assert_eq!(sample_flag.get_sample_is_non_sync_sample(), 1);
}



#[test]
fn test_build_moof() {
  let expected_moof: [u8; 116] = [
    // size
    0x00, 0x00, 0x00, 0x74,
    // moof
    0x6D, 0x6F, 0x6F, 0x66,
    // mfhd
    0x00, 0x00, 0x00, 0x10,
    0x6D, 0x66, 0x68, 0x64,
    0x00, 0x00, 0x00, 0x00,
    0x00, 0x00, 0x00, 0x00,
    // traf
    0x00, 0x00, 0x00, 0x5C,
    0x74, 0x72, 0x61, 0x66,
    // tfhd
    0x00, 0x00, 0x00, 0x1C,
    0x74, 0x66, 0x68, 0x64,
    0x00, 0x02, 0x00, 0x2A,
    0x00, 0x00, 0x00, 0x01,
    0x00, 0x00, 0x00, 0x01,
    0x00, 0x00, 0x0B, 0xB8,
    0x01, 0x01, 0x00, 0x00,
    // tfdt
    0x00, 0x00, 0x00, 0x14,
    0x74, 0x66, 0x64, 0x74,
    0x01, 0x00, 0x00, 0x00,
    0x00, 0x00, 0x00, 0x00,
    0x00, 0x10, 0xA1, 0xD0,
    // trun 
    0x00, 0x00, 0x00, 0x24,
    0x74, 0x72, 0x75, 0x6E,
    0x00, 0x00, 0x02, 0x05,
    0x00, 0x00, 0x00, 0x03,
    0x00, 0x00, 0x00, 0x7C,
    0x02, 0x00, 0x00, 0x00,
    0x00, 0x00, 0x00, 0x07,
    0x00, 0x00, 0x00, 0x06,
    0x00, 0x00, 0x00, 0x08,
  ];

  let samples = vec![
    SampleInfo{
      sample_flags: None,
      sample_duration: None,
      pts: 1,
      dts: 1,
      data: vec![0x00,0x01,0x02]
    },
    SampleInfo{
      sample_flags: None,
      sample_duration: None,
      pts: 2,
      dts: 2,
      data: vec![0x03,0x04]
    },
    SampleInfo{
      sample_flags: None,
      sample_duration: None,
      pts: 3,
      dts: 3,
      data: vec![0x05,0x06,0x07,0x08]
    }
  ];
  
  let moof = MOOFBuilder::create_builder()
    .traf(
      TRAFBuilder::create_builder()
        .tfhd(
          TFHDBuilder::create_builder()
            .sample_duration(Some(3000))
            .track_id(1)
        )
        .tfdt(
          TFDTBuilder::create_builder()
            .base_media_decode_time(1090000)
        )
        .trun(
          TRUNBuilder::create_builder()
            .flags(0x0205)
            .first_sample_flags(0x2000000)
            .data_offset(100)
            .samples(samples)
        )
    )
    .build()
    .unwrap();
  assert_eq!(moof, expected_moof);
}




#[test]
fn test_build_mvex() {
  let expected_mvex: [u8; 40] = [
    // mvex
    0x00, 0x00, 0x00, 0x28,
    0x6D, 0x76, 0x65, 0x78,
    // trex
    0x00, 0x00, 0x00, 0x20,
    0x74, 0x72, 0x65, 0x78,
    0x00, 0x00, 0x00, 0x00,
    0x00, 0x00, 0x00, 0x02,
    0x00, 0x00, 0x00, 0x01,
    0x00, 0x00, 0x00, 0x00,
    0x00, 0x00, 0x00, 0x00,
    0x00, 0x00, 0x00, 0x00,
  ];
  let mvex = MVEXBuilder::create_builder()
    .trex(
      TREXBuilder::create_builder()
      .track_id(2)
    )
    .build()
    .unwrap();
  assert_eq!(mvex, expected_mvex);
}




#[test]
fn test_build_smhd() {
  let expected_smhd: [u8; 16] = [
    0x00, 0x00, 0x00, 0x10,
    0x73, 0x6d, 0x68, 0x64,
    0x00, 0x00, 0x00, 0x00,
    0x00, 0x00, 0x00, 0x00,
  ];
  let smhd = SMHDBuilder::create_builder().build().unwrap();
  assert_eq!(smhd, expected_smhd);
}



#[test]
fn test_build_stbl() {
  let expected_stbl: [u8; 100] = [
    // size
    0x00, 0x00, 0x00, 0x64,
    // stbl
    0x73, 0x74, 0x62, 0x6C,
    // stsd
    0x00, 0x00, 0x00, 0x18,
    0x73, 0x74, 0x73, 0x64,
    0x00, 0x00, 0x00, 0x00,
    0x00, 0x00, 0x00, 0x01,
    0x00, 0x01, 0x02, 0x03, 0x04, 0x05, 0x06, 0x07,
    // stts
    0x00, 0x00, 0x00, 0x10,
    0x73, 0x74, 0x74, 0x73,
    0x00, 0x00, 0x00, 0x00,
    0x00, 0x00, 0x00, 0x00,
    // stsc
    0x00, 0x00, 0x00, 0x10,
    0x73, 0x74, 0x73, 0x63,
    0x00, 0x00, 0x00, 0x00,
    0x00, 0x00, 0x00, 0x00,
    // stsz
    0x00, 0x00, 0x00, 0x14,
    0x73, 0x74, 0x73, 0x7A,
    0x00, 0x00, 0x00, 0x00,
    0x00, 0x00, 0x00, 0x00,
    0x00, 0x00, 0x00, 0x00,
    // stco
    0x00, 0x00, 0x00, 0x10,
    0x73, 0x74, 0x63, 0x6F,
    0x00, 0x00, 0x00, 0x00,
    0x00, 0x00, 0x00, 0x00,
  ];
  let handler = MockHandler{};
  let stsd_builder = STSDBuilder::create_builder()
    .sample_entry(handler.build().unwrap());
  let stbl = STBLBuilder::create_builder()
    .stsd(stsd_builder)
    .build()
    .unwrap();
  assert_eq!(stbl, expected_stbl);
}




#[test]
fn test_build_stco() {
  let expected_stco: [u8; 16] = [
    // Size
    0x00, 0x00, 0x00, 0x10,
    // stco
    0x73, 0x74, 0x63, 0x6F,
    0x00, 0x00, 0x00, 0x00, 0x00, 0x00, 0x00, 0x00
  ];
  let stco = STCOBuilder::create_builder().build();
  assert_eq!(stco, expected_stco);
}




#[test]
fn test_build_stsc() {
  let expected_stsc: [u8; 16] = [
    // Size
    0x00, 0x00, 0x00, 0x10,
    // stsc
    0x73, 0x74, 0x73, 0x63,
    0x00, 0x00, 0x00, 0x00, 0x00, 0x00, 0x00, 0x00
  ];
  let stsc = STSCBuilder::create_builder().build();
  assert_eq!(stsc, expected_stsc);
}




#[test]
fn test_build_stsz() {
  let expected_stsz: [u8; 20] = [
    0x00, 0x00, 0x00, 0x14,
    0x73, 0x74, 0x73, 0x7A,
    0x00, 0x00, 0x00, 0x00,
    0x00, 0x00, 0x00, 0x00,
    0x00, 0x00, 0x00, 0x00,
  ];
  let stsz = STSZBuilder::create_builder().build();
  assert_eq!(stsz, expected_stsz);
}




#[test]
fn test_parse_stts() {

  let stts: [u8; 16] = [
    // Size
    0x00, 0x00, 0x00, 0x10,
    // stts
    0x73, 0x74, 0x74, 0x73,
    0x00, 0x00, 0x00, 0x00, 0x00, 0x00, 0x00, 0x00
  ];

  let expected_stts: STTSReader = STTSReader {
    data: (&stts).to_vec(),
    box_type: "stts".to_string(),
    size: 16,
    entry_count: Option::None,
    samples: Option::None
  };

  let mut stts_reader = STTSReader::get_reader(&stts).unwrap();
  assert_eq!(stts_reader, expected_stts);
  assert_eq!(stts_reader.get_entry_count().unwrap(), 0);
}



#[test]
fn test_parse_tfdt() {
  let tfdt:[u8; 20] = [
    // Size
    0x00, 0x00, 0x00, 0x14,
    //tfdt
    0x74, 0x66, 0x64, 0x74,
    0x01, 0x00, 0x00, 0x00, 0x00, 0x00, 0x00, 0x00, 0x00, 0x00, 0x00, 0x00
  ];
  let expected_tfdt: TFDT = TFDT{
    box_type: "tfdt".to_string(),
    size: 20,
    version: 0,
    base_media_decode_time: 0,
  };
  assert_eq!(TFDT::parse_tfdt(&tfdt).unwrap(), expected_tfdt);
}



#[test]
fn test_parse_tfhd() {
  let tfhd: [u8; 28] = [
    // size
    0x00, 0x00, 0x00, 0x1C,
    // tfhd
    0x74, 0x66, 0x68, 0x64,
    0x00, 0x02, 0x00, 0x2A, 0x00, 0x00, 0x00, 0x01, 0x00, 0x00, 0x00, 0x01, 0x00, 0x00, 0x00, 0x01,
    0x01, 0x01, 0x00, 0x00
  ];
  let expected_tfhd: TFHD = TFHD{
    box_type: "tfhd".to_string(),
    size: 28,
    version: 0,
    flags: 0x2002A,
    track_id: 1,
    sample_description_index: Option::Some(1),
    default_sample_flags: Option::Some( 0x1010000),
    base_data_offset: Option::None,
    default_sample_duration: Option::Some(1),
    default_sample_size: Option::None,
    default_base_is_moof: true,
    duration_is_empty: false
  };
  assert_eq!(TFHD::parse_tfhd(&tfhd).unwrap(), expected_tfhd);
}

#[test]
fn test_build_tfhd_minimum() {
  let expected_tfhd: [u8; 16] = [
    0x00, 0x00, 0x00, 0x10,
    0x74, 0x66, 0x68, 0x64,
    0x00, 0x02, 0x00, 0x00,
    0x00, 0x00, 0x00, 0x01,
  ];
  let tfhd = TFHDBuilder::create_builder()
    .track_id(1)
    // .sample_duration(1)
    .build();
  assert_eq!(tfhd, expected_tfhd);
}

#[test]
fn test_build_tfhd_maximum() {
  let expected_tfhd: [u8; 40] = [
    0x00, 0x00, 0x00, 0x28,
    0x74, 0x66, 0x68, 0x64,
    0x00, 0x02, 0x00, 0x3B,
    0x00, 0x00, 0x00, 0x01,
    0x00, 0x00, 0x00, 0x00,
    0x00, 0x00, 0x00, 0x01,
    0x00, 0x00, 0x00, 0x02,
    0x00, 0x00, 0x00, 0x03,
    0x00, 0x00, 0x00, 0x04,
    0x00, 0x00, 0x00, 0x05,
  ];
  let tfhd = TFHDBuilder::create_builder()
    .track_id(1)
    .base_data_offset(1)
    .sample_description_index(2)
    .sample_duration(Some(3))
    .sample_size(4)
    .sample_flags(5)
    .build();
  assert_eq!(tfhd, expected_tfhd);
}



#[test]
fn test_build_traf() {
  let expected_traf: [u8; 92] = [
    // size
    0x00, 0x00, 0x00, 0x5C,
    // traf
    0x74, 0x72, 0x61, 0x66,
    // tfhd
    0x00, 0x00, 0x00, 0x1C,
    0x74, 0x66, 0x68, 0x64,
    0x00, 0x02, 0x00, 0x2A,
    0x00, 0x00, 0x00, 0x01,
    0x00, 0x00, 0x00, 0x01,
    0x00, 0x00, 0x0B, 0xB8,
    0x01, 0x01, 0x00, 0x00,
    // tfdt
    0x00, 0x00, 0x00, 0x14,
    0x74, 0x66, 0x64, 0x74,
    0x01, 0x00, 0x00, 0x00,
    0x00, 0x00, 0x00, 0x00,
    0x00, 0x10, 0xA1, 0xD0,
    // trun 
    0x00, 0x00, 0x00, 0x24,
    0x74, 0x72, 0x75, 0x6E,
    0x00, 0x00, 0x02, 0x05,
    0x00, 0x00, 0x00, 0x03,
    0x00, 0x00, 0x00, 0x64,
    0x02, 0x00, 0x00, 0x00,
    0x00, 0x00, 0x00, 0x07,
    0x00, 0x00, 0x00, 0x06,
    0x00, 0x00, 0x00, 0x08,
  ];

  let nal_units = vec![
    SampleInfo{
      sample_flags: None,
      sample_duration: None,
      pts: 1,
      dts: 1,
      data: vec![0x00,0x01,0x02]
    },
    SampleInfo{
      sample_flags: None,
      sample_duration: None,
      pts: 2,
      dts: 2,
      data: vec![0x03,0x04]
    },
    SampleInfo{
      sample_flags: None,
      sample_duration: None,
      pts: 3,
      dts: 3,
      data: vec![0x05,0x06,0x07,0x08]
    }
  ];
  
  let traf = TRAFBuilder::create_builder()
    .tfhd(
      TFHDBuilder::create_builder()
        .track_id(1)
        .sample_duration(Some(3000))
    )
    .tfdt(
      TFDTBuilder::create_builder()
        .base_media_decode_time(1090000)
    )
    .trun(
      TRUNBuilder::create_builder()
        .data_offset(100)
        .first_sample_flags(0x2000000)
        .flags(0x0205)
        .samples(nal_units)
    )
    .build()
    .unwrap();
  assert_eq!(traf, expected_traf);
}




#[test]
fn test_build_trex() {
  let expected_trex: [u8; 32] = [
    0x00, 0x00, 0x00, 0x20,
    0x74, 0x72, 0x65, 0x78,
    0x00, 0x00, 0x00, 0x00,
    0x00, 0x00, 0x00, 0x02,
    0x00, 0x00, 0x00, 0x01,
    0x00, 0x00, 0x00, 0x00,
    0x00, 0x00, 0x00, 0x00,
    0x00, 0x00, 0x00, 0x00,
  ];
  let trex = TREXBuilder::create_builder()
    .track_id(2)
    .build();
  assert_eq!(trex, expected_trex);
}




#[test]
fn test_build_vmhd() {
  let expected_vmhd: [u8; 20] = [
    0x00, 0x00, 0x00, 0x14,
    0x76, 0x6D, 0x68, 0x64,
    0x00, 0x00, 0x00, 0x01,
    0x00, 0x00, 0x00, 0x00,
    0x00, 0x00 ,0x00, 0x00,
  ];
  let vmhd = VMHDBuilder::create_builder().build().unwrap();
  assert_eq!(vmhd, expected_vmhd);
}

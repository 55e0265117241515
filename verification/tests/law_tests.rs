use media_remux::container::isobmff::boxes::mdhd::{MDHDBuilder, MDHDReader};
use media_remux::container::isobmff::boxes::mdia::MDIABuilder;
use media_remux::container::isobmff::configuration_records::avcC::AVCDecoderConfigurationRecord;
use media_remux::container::isobmff::boxes::moof::MOOFBuilder;
use media_remux::container::isobmff::boxes::tfdt::{TFDTBuilder, TFDT};
use media_remux::container::isobmff::boxes::tfhd::{TFHDBuilder, TFHD};
use media_remux::container::isobmff::boxes::traf::TRAFBuilder;
use media_remux::container::isobmff::boxes::trun::{TRUNBuilder, TRUN};
use media_remux::container::isobmff::descriptors::aac_audio_specific_config::{
    AACAudioSpecificConfig, AACAudioSpecificConfigBuilder,
};
use media_remux::container::isobmff::nal::NALType;
use media_remux::container::isobmff::sample_entry::audio_sample_entry::{
    AudioSampleEntry, AudioSampleEntryBuilder,
};
use media_remux::container::isobmff::sample_entry::mp4a_sample_entry::MP4ASampleEntryBuilder;
use media_remux::container::isobmff::sample_entry::sample_entry::{SampleEntry, SampleEntryBuilder};
use media_remux::container::isobmff::descriptors::dec_config_descriptor::DecoderConfigDescriptorBuilder;
use media_remux::container::isobmff::descriptors::es_descriptor::ESDescriptorBuidler;
use media_remux::container::isobmff::BoxBuilder;
use media_remux::container::transport_stream::adts::ADTS;
use media_remux::container::transport_stream::elementary_stream_type::ElementaryStreamType;
use media_remux::container::transport_stream::pes_packet::PESPacket;
use media_remux::container::transport_stream::program_map_table::ProgramMapTable;
use media_remux::container::writer::mp4_writer::{Mp4Writer, SampleInfo};
use media_remux::error::error_code::MajorCode;

fn sample(data: Vec<u8>, t: u64) -> SampleInfo {
    SampleInfo { dts: t, pts: t, data, sample_flags: None, sample_duration: None }
}

fn build_moof() -> Vec<u8> {
    MOOFBuilder::create_builder()
        .traf(
            TRAFBuilder::create_builder()
                .tfhd(TFHDBuilder::create_builder().sample_duration(Some(1024)).track_id(7))
                .tfdt(TFDTBuilder::create_builder().base_media_decode_time(0x1_0000_0005))
                .trun(
                    TRUNBuilder::create_builder()
                        .flags(0x0205)
                        .first_sample_flags(0x2000000)
                        .samples(vec![sample(vec![1, 2, 3], 10), sample(vec![4], 20)]),
                ),
        )
        .build()
        .unwrap()
}

#[test]
fn test_tfdt_reads_back_what_was_built() {
    let bytes = TFDTBuilder::create_builder().base_media_decode_time(123456789).build();
    let tfdt = TFDT::parse_tfdt(&bytes).unwrap();
    assert_eq!(tfdt.size, 20);
    assert_eq!(tfdt.version, 1);
    assert_eq!(tfdt.base_media_decode_time, 123456789);
}

#[test]
fn test_fragment_boxes_read_back_from_moof() {
    let moof = build_moof();
    let tfdt = TFDT::parse(&moof).unwrap();
    assert_eq!(tfdt.base_media_decode_time, 0x1_0000_0005);
    let tfhd = TFHD::parse(&moof).unwrap();
    assert_eq!(tfhd.track_id, 7);
    assert_eq!(tfhd.default_sample_duration, Some(1024));
    assert_eq!(tfhd.sample_description_index, Some(1));
    assert!(tfhd.default_base_is_moof);
    let trun = TRUN::parse(&moof).unwrap();
    assert_eq!(trun.sample_count, 2);
    assert_eq!(trun.first_sample_flags, Some(0x2000000));
    // The data offset points past the movie fragment box and the media
    // data box header.
    assert_eq!(trun.data_offset, Some(moof.len() as i32 + 8));
    assert_eq!(trun.samples[0].sample_size, Some(3 + 4));
    assert_eq!(trun.samples[1].sample_size, Some(1 + 4));
}

#[test]
fn test_mdhd_reads_back_what_was_built() {
    let bytes = MDHDBuilder::create_builder().timescale(90000).build().unwrap();
    assert_eq!(bytes.len(), 32);
    let mut reader = MDHDReader::get_reader(&bytes).unwrap();
    assert_eq!(reader.get_timescale().unwrap(), 90000);
    assert_eq!(reader.get_creation_time().unwrap(), 0);
    assert_eq!(reader.get_modification_time().unwrap(), 0);
    assert_eq!(reader.get_duration().unwrap(), 0);
    assert_eq!(reader.get_language().unwrap(), "und");
}

#[test]
fn test_aac_config_reads_back_what_was_built() {
    let bytes = AACAudioSpecificConfigBuilder::create_builder()
        .channel_count(2)
        .sampling_frequency_index(4)
        .build();
    let config = AACAudioSpecificConfig::parse(&[0x05, 0x02, bytes[5], bytes[6]]).unwrap();
    assert_eq!(config.audio_object_type, 2);
    assert_eq!(config.sampling_frequency_index, 4);
    assert_eq!(config.channel_configuration, 2);
    assert_eq!(config.sampling_frequency, None);
}

#[test]
fn test_nal_and_stream_types_read_back() {
    for t in [
        NALType::Non_IDR_Picture,
        NALType::IDR_Picture,
        NALType::SEI,
        NALType::SPS,
        NALType::PPS,
        NALType::AUD,
    ] {
        assert_eq!(NALType::get_type(t.value()).unwrap(), t);
    }
    assert!(NALType::get_type(0).is_err());
    for t in [ElementaryStreamType::AAC, ElementaryStreamType::H_264] {
        assert_eq!(ElementaryStreamType::get_type(t.get_value()), t);
    }
    assert_eq!(ElementaryStreamType::get_type(0x99), ElementaryStreamType::UNKNOWN);
}

#[test]
fn test_box_declares_its_length() {
    let bytes = MDHDBuilder::create_builder().timescale(1).build().unwrap();
    assert_eq!(u32::from_be_bytes([bytes[0], bytes[1], bytes[2], bytes[3]]) as usize, bytes.len());
    assert_eq!(&bytes[4..8], b"mdhd");
    let moof = build_moof();
    assert_eq!(u32::from_be_bytes([moof[0], moof[1], moof[2], moof[3]]) as usize, moof.len());
}

#[test]
fn test_timestamp_takes_33_bits() {
    let t = PESPacket::convert_timestamp_section_to_timesamp(u64::MAX);
    assert_eq!(t, 0x1_FFFF_FFFF);
    assert!(PESPacket::is_timestamp_section_valid(0x1_0001_0001));
    assert!(!PESPacket::is_timestamp_section_valid(0x1_0001_0000));
}

#[test]
fn test_pes_of_other_stream_is_an_error() {
    let mut bytes = vec![0x00, 0x00, 0x01, 0xBD];
    bytes.extend_from_slice(&[0u8; 20]);
    match PESPacket::parse(&bytes) {
        Err(e) => {
            assert_eq!(e.major, MajorCode::TRANSPORT_STREAM);
            assert_eq!(e.minor, 0);
        }
        Ok(_) => panic!("a private stream is not audio or video"),
    }
}

#[test]
fn test_pes_without_prefix_is_all_payload() {
    let bytes = [1u8, 2, 3];
    let p = PESPacket::parse(&bytes).unwrap();
    assert_eq!(p.payload_data, &bytes[..]);
    assert_eq!(p.pts, None);
    assert_eq!(p.dts, None);
}

#[test]
fn test_short_pmt_is_an_error() {
    match ProgramMapTable::parse(&[0x00, 0x02], true) {
        Err(e) => assert_eq!(e.major, MajorCode::UTIL),
        Ok(_) => panic!("two bytes hold no table"),
    }
}

#[test]
fn test_adts_errors() {
    match ADTS::parse_adts_header(&[0xFF, 0xF1, 0x50, 0x80, 0x00, 0x1F, 0xFD]) {
        Err(e) => {
            assert_eq!(e.major, MajorCode::TRANSPORT_STREAM);
            assert_eq!(e.minor, 1);
        }
        Ok(_) => panic!("two raw data blocks are not supported"),
    }
    match ADTS::parse_adts_header(&[0x12, 0x34, 0x56]) {
        Err(e) => {
            assert_eq!(e.major, MajorCode::TRANSPORT_STREAM);
            assert_eq!(e.minor, 0);
        }
        Ok(_) => panic!("no syncword"),
    }
    let header = ADTS::parse_adts_header(&[0xFF, 0xF1, 0x50, 0x80, 0x00, 0x1F, 0xFC]).unwrap();
    assert_eq!(header.sampling_frequency_index, 4);
    assert_eq!(header.channel_configuration, 2);
    assert_eq!(header.profile, 1);
    assert_eq!(header.frame_length, 0);
    assert_eq!(header.crc, None);
    assert_eq!(ADTS::parse(&[0xFF, 0xF1, 0x50, 0x80, 0x00, 0x1F, 0xFC]).unwrap().len(), 0);
    assert_eq!(ADTS::parse(&[]).unwrap().len(), 0);
}

#[test]
fn test_init_segment_needs_a_handler() {
    match Mp4Writer::create_mp4_writer().timescale(1000).build_init_segment(vec![1, 2, 3]) {
        Err(e) => {
            assert_eq!(e.major, MajorCode::REMUX);
            assert_eq!(e.minor, 0);
            assert_eq!(e.message, "Unable to parse transport stream");
            assert_eq!(e.debug_message, "Handler type not set");
        }
        Ok(_) => panic!("no handler was set"),
    }
}

#[test]
fn test_media_segment_is_moof_then_mdat() {
    let samples = vec![sample(vec![9, 8, 7], 500), sample(vec![6], 1524)];
    let segment = Mp4Writer::create_mp4_writer().timescale(44100).samples(samples).build_media_segment().unwrap();
    let moof_len = u32::from_be_bytes([segment[0], segment[1], segment[2], segment[3]]) as usize;
    assert_eq!(&segment[4..8], b"moof");
    assert_eq!(&segment[moof_len..], &[0, 0, 0, 12, b'm', b'd', b'a', b't', 9, 8, 7, 6]);
    let tfdt = TFDT::parse(&segment[..moof_len]).unwrap();
    assert_eq!(tfdt.base_media_decode_time, 500);
    let trun = TRUN::parse(&segment[..moof_len]).unwrap();
    assert_eq!(trun.data_offset, Some(moof_len as i32 + 8));
}

#[test]
fn test_mp4a_fields_read_back() {
    let entry = MP4ASampleEntryBuilder::create_builder()
        .sample_entry(SampleEntryBuilder::create_builder())
        .audio_sample_entry(AudioSampleEntryBuilder::create_builder().channel_count(2).sample_rate(44100 << 16))
        .esds(ESDescriptorBuidler::create_builder().dec_conf_desc(
            DecoderConfigDescriptorBuilder::create_builder().aac_audio_specific_config(
                AACAudioSpecificConfigBuilder::create_builder().channel_count(2).sampling_frequency_index(4),
            ),
        ))
        .build()
        .unwrap();
    assert_eq!(SampleEntry::parse(&entry).data_reference_index, 1);
    let (audio, offset) = AudioSampleEntry::parse(&entry);
    assert_eq!(audio.channel_count, 2);
    assert_eq!(audio.sample_size, 16);
    assert_eq!(audio.sample_rate, 44100);
    assert_eq!(offset, 36);
}

#[test]
fn test_error_messages() {
    let e = NALType::get_type(0).unwrap_err();
    assert_eq!(e.to_string(), "Uknown NAL Unit type");
    let e = ProgramMapTable::parse(&[0x00, 0x02], true).unwrap_err();
    assert_eq!(e.to_string(), "An error occurred attempting to parse and unsigned value");
}

#[test]
fn test_avcc_fixed_fields() {
    let bytes = [
        0x00, 0x00, 0x00, 0x0E, b'a', b'v', b'c', b'C', 0x01, 0x42, 0xC0, 0x1E, 0xFF, 0xE1,
    ];
    let record = AVCDecoderConfigurationRecord::parse(&bytes);
    assert_eq!(record.configuration_version, 1);
    assert_eq!(record.avc_profile_indication, 0x42);
    assert_eq!(record.profile_compatability, 0xC0);
    assert_eq!(record.avc_level_indication, 0x1E);
    assert_eq!(record.length_size_minus_one, 3);
    assert_eq!(record.num_of_sequence_parameter_sets, 1);
    assert_eq!(record.num_of_picture_parameter_sets, 0);
}

#[test]
fn test_mdia_with_some_parts_missing() {
    let e = MDIABuilder::create_builder().mdhd(MDHDBuilder::create_builder().timescale(1)).build().unwrap_err();
    assert_eq!(e.major, MajorCode::REMUX);
}

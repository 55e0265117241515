use media_remux::container::isobmff::sample_entry::audio_sample_entry::AudioSampleEntryBuilder;
use media_remux::container::isobmff::sample_entry::mp4a_sample_entry::MP4ASampleEntryBuilder;
use media_remux::container::isobmff::sample_entry::sample_entry::SampleEntryBuilder;
use media_remux::container::isobmff::descriptors::aac_audio_specific_config::AACAudioSpecificConfigBuilder;
use media_remux::container::isobmff::descriptors::dec_config_descriptor::DecoderConfigDescriptorBuilder;
use media_remux::container::isobmff::descriptors::es_descriptor::ESDescriptorBuidler;
use media_remux::container::isobmff::{BoxBuilder, HandlerType};
use media_remux::container::remux::extractor::ts::aac_extractor::AACExtractor;
use media_remux::container::remux::extractor::ts::avc_extractor::AVCExtractor;
use media_remux::container::remux::extractor::{get_ts_extractor, StreamExtractor, TSExtractor};
use media_remux::container::remux::{map_sample_frequency_index, remux_ts_to_mp4_media_only};
use media_remux::container::transport_stream::adts::{ADTSFrame, ADTSHeader};
use media_remux::container::transport_stream::elementary_stream_type::ElementaryStreamType;
use media_remux::container::transport_stream::pes_packet::PESPacket;
use media_remux::container::writer::mp4_writer::{Mp4Writer, SampleInfo};
use media_remux::error::error_code::MajorCode;

fn pes(payload: &[u8], pts: Option<u64>, dts: Option<u64>) -> PESPacket<'_> {
    PESPacket {
        packet_start_code_prefix: 1,
        stream_id: 0xE0,
        pes_packet_length: 0,
        payload_data: payload,
        dts,
        pts,
    }
}

fn frame(data: Vec<u8>, pts: u64, dts: u64) -> ADTSFrame {
    ADTSFrame {
        header: ADTSHeader {
            id_version: 0,
            profile: 1,
            sampling_frequency_index: 4,
            channel_configuration: 2,
            frame_length: 7 + data.len() as u16,
            crc: None,
        },
        data,
        pts,
        dts,
    }
}

#[test]
fn test_get_ts_extractor_kinds() {
    assert!(matches!(get_ts_extractor(ElementaryStreamType::AAC), Ok(StreamExtractor::AAC(_))));
    assert!(matches!(get_ts_extractor(ElementaryStreamType::H_264), Ok(StreamExtractor::H_264(_))));
    match get_ts_extractor(ElementaryStreamType::UNKNOWN) {
        Err(e) => {
            assert_eq!(e.major, MajorCode::ISOBMFF);
            assert_eq!(e.minor, 0);
        }
        Ok(_) => panic!("an unknown stream type has no extractor"),
    }
}

#[test]
fn test_avc_split_parameter_sets_and_media() {
    let mut avc = AVCExtractor::create();
    let first = [
        0, 0, 0, 1, 0x67, 0xAA, 0xBB, 0, 0, 1, 0x68, 0xCC, 0, 0, 0, 1, 0x65, 0x11, 0x22, 0x33,
        0x44, 0x55,
    ];
    assert!(avc.accumulate_pes_payload(pes(&first, Some(900), Some(900))).is_ok());
    assert_eq!(avc.sps_nal, vec![0x67, 0xAA, 0xBB]);
    assert_eq!(avc.pps_nal, vec![0x68, 0xCC]);
    assert_eq!(avc.media_nal.len(), 0);
    assert_eq!(avc.bucket, vec![0x65, 0x11, 0x22, 0x33, 0x44, 0x55]);
    assert_eq!(avc.current_pts, 900);
    assert_eq!(avc.current_dts, 900);
    assert!(avc.is_all_same_timestamps());
    assert!(!avc.is_signed_comp_offset());

    let second = [0, 0, 0, 1, 0x09, 0xF0, 0, 0, 0, 1, 0x41, 0x9A, 0x00, 0x01, 0x02];
    assert!(avc.accumulate_pes_payload(pes(&second, Some(3900), Some(900))).is_ok());
    assert_eq!(avc.media_nal.len(), 1);
    assert_eq!(avc.media_nal[0].nal_unit, vec![0x65, 0x11, 0x22, 0x33, 0x44, 0x55]);
    assert_eq!(avc.media_nal[0].pts, 900);
    assert_eq!(avc.media_nal[0].dts, 900);
    assert_eq!(avc.bucket, vec![0x41, 0x9A, 0x00, 0x01, 0x02]);
    assert!(!avc.is_all_same_timestamps());
    assert!(!avc.is_signed_comp_offset());

    avc.flush_final_media();
    assert_eq!(avc.media_nal.len(), 2);
    assert_eq!(avc.media_nal[1].nal_unit, vec![0x41, 0x9A, 0x00, 0x01, 0x02]);
    assert_eq!(avc.media_nal[1].pts, 3900);
    assert_eq!(avc.media_nal[1].dts, 900);
}

#[test]
fn test_avc_short_payload_is_held_back() {
    let mut avc = AVCExtractor::create();
    assert!(avc.accumulate_pes_payload(pes(&[0, 0, 1, 0x65], None, None)).is_ok());
    assert_eq!(avc.bucket, vec![0, 0, 1, 0x65]);
    assert_eq!(avc.current_pts, 0);
    assert!(avc.accumulate_pes_payload(pes(&[0x77], None, None)).is_ok());
    assert_eq!(avc.bucket, vec![0, 0, 1, 0x65, 0x77]);
}

#[test]
fn test_avc_negative_composition_offset() {
    let mut avc = AVCExtractor::create();
    assert!(avc.accumulate_pes_payload(pes(&[1, 2, 3], Some(100), Some(200))).is_ok());
    assert!(avc.is_signed_comp_offset());
    assert!(avc.is_all_same_timestamps());
    assert_eq!(avc.current_pts, 100);
    assert_eq!(avc.current_dts, 200);
}

#[test]
fn test_avc_unknown_nal_type() {
    let mut avc = AVCExtractor::create();
    let payload = [0, 0, 1, 0x00, 0x11, 0, 0, 1, 0x41, 1, 2, 3, 4];
    match avc.accumulate_pes_payload(pes(&payload, Some(10), Some(10))) {
        Err(e) => {
            assert_eq!(e.major, MajorCode::NAL);
            assert_eq!(e.minor, 2);
        }
        Ok(_) => panic!("NAL type 0 is not known"),
    }
    assert_eq!(avc.bucket.len(), 0);
    assert_eq!(avc.current_pts, 0);
}

#[test]
fn test_aac_accumulate_and_flush() {
    let mut aac = AACExtractor::create();
    // A header with frame length 0 ends the frame walk at once.
    let header = [0xFF, 0xF1, 0x50, 0x80, 0x00, 0x1F, 0xFC];
    assert!(aac.accumulate_pes_payload(pes(&header, Some(90), None)).is_ok());
    assert_eq!(aac.bucket, header.to_vec());
    assert_eq!(aac.current_pts, 90);
    assert_eq!(aac.current_dts, 90);
    assert!(aac.accumulate_pes_payload(pes(&[], None, None)).is_ok());
    assert_eq!(aac.bucket, header.to_vec());
    assert!(aac.accumulate_pes_payload(pes(&[1, 2], Some(1114), Some(1000))).is_ok());
    assert_eq!(aac.bucket, vec![1, 2]);
    assert_eq!(aac.current_pts, 1114);
    assert_eq!(aac.current_dts, 1000);
    assert_eq!(aac.adts_frames.len(), 0);
    // Two bytes hold no ADTS header.
    assert!(aac.flush_final_media().is_err());
    assert_eq!(aac.bucket, vec![1, 2]);
    assert_eq!(aac.get_timescale(), 0);
    assert!(aac.is_all_same_timestamps());
    assert!(!aac.is_signed_comp_offset());
}

#[test]
fn test_aac_bad_bucket_is_dropped() {
    let mut aac = AACExtractor::create();
    assert!(aac.accumulate_pes_payload(pes(&[0x12, 0x34, 0x56], None, None)).is_ok());
    assert!(aac.accumulate_pes_payload(pes(&[9], Some(5), Some(5))).is_err());
    assert_eq!(aac.bucket.len(), 0);
    assert_eq!(aac.current_pts, 0);
}

#[test]
fn test_aac_flush_empty() {
    let mut aac = AACExtractor::create();
    assert!(aac.flush_final_media().is_ok());
    assert_eq!(aac.sample_frequency_index, None);
    assert_eq!(aac.build_sample_entry().unwrap(), Vec::<u8>::new());
}

#[test]
fn test_aac_sample_entry_and_segments() {
    let mut aac = AACExtractor::create();
    aac.adts_frames.push(frame(vec![1, 2, 3], 1000, 1000));
    aac.adts_frames.push(frame(vec![4, 5], 2024, 2024));
    aac.sample_frequency_index = Some(4);
    assert_eq!(aac.get_timescale(), 44100);
    assert_eq!(aac.get_default_sample_duration(), 1024);

    let expected_entry = MP4ASampleEntryBuilder::create_builder()
        .sample_entry(SampleEntryBuilder::create_builder())
        .audio_sample_entry(
            AudioSampleEntryBuilder::create_builder()
                .channel_count(2)
                .sample_rate(map_sample_frequency_index(4)),
        )
        .esds(ESDescriptorBuidler::create_builder().dec_conf_desc(
            DecoderConfigDescriptorBuilder::create_builder().aac_audio_specific_config(
                AACAudioSpecificConfigBuilder::create_builder()
                    .channel_count(2)
                    .sampling_frequency_index(4),
            ),
        ))
        .build()
        .unwrap();
    let entry = aac.build_sample_entry().unwrap();
    assert_eq!(entry.len(), 87);
    assert_eq!(entry, expected_entry);

    let init = aac.get_init_segment().unwrap();
    let expected_init = Mp4Writer::create_mp4_writer()
        .timescale(44100)
        .handler(HandlerType::SOUN)
        .build_init_segment(expected_entry)
        .unwrap();
    assert_eq!(init, expected_init);

    let media = aac.get_media_segment().unwrap();
    let samples = vec![
        SampleInfo { dts: 1000, pts: 1000, data: vec![1, 2, 3], sample_flags: None, sample_duration: None },
        SampleInfo { dts: 2024, pts: 2024, data: vec![4, 5], sample_flags: None, sample_duration: None },
    ];
    let expected_media = Mp4Writer::create_mp4_writer()
        .timescale(44100)
        .samples(samples)
        .build_media_segment()
        .unwrap();
    assert_eq!(media, expected_media);
    assert_eq!(&media[media.len() - 13..], &[0, 0, 0, 13, b'm', b'd', b'a', b't', 1, 2, 3, 4, 5]);
    assert_eq!(aac.adts_frames.len(), 0);
}

#[test]
fn test_media_only_is_empty() {
    assert_eq!(remux_ts_to_mp4_media_only(&[0x47, 0, 0]).unwrap(), Vec::<u8>::new());
}

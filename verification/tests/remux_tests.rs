use media_remux::container::remux::remux_ts_to_mp4;
use media_remux::container::transport_stream::program_association_table::ProgramAssociationTable;
use media_remux::container::transport_stream::ts_packet::TransportPacket;
use media_remux::error::error_code::MajorCode;

fn packet(header: [u8; 4], payload: &[u8], fill: u8) -> Vec<u8> {
    let mut p = header.to_vec();
    p.extend_from_slice(payload);
    while p.len() < 188 {
        p.push(fill);
    }
    p
}

fn pat_packet() -> Vec<u8> {
    packet(
        [0x47, 0x40, 0x00, 0x10],
        &[
            0x00, // pointer field
            0x00, 0xB0, 0x0D, 0x00, 0x01, 0xC1, 0x00, 0x00, // header
            0x00, 0x01, 0xF0, 0x00, // program 1, program map table on 0x1000
            0x2A, 0xB1, 0x04, 0xB2, // CRC
        ],
        0xFF,
    )
}

fn pmt_packet() -> Vec<u8> {
    packet(
        [0x47, 0x50, 0x00, 0x10],
        &[
            0x00, // pointer field
            0x02, 0xB0, 0x17, 0x00, 0x01, 0xC1, 0x00, 0x00, 0xE1, 0x00, 0xF0, 0x00,
            0x1B, 0xE1, 0x00, 0xF0, 0x00, // H.264 on 0x100
            0x0F, 0xE1, 0x01, 0xF0, 0x00, // AAC on 0x101
            0x00, 0x00, 0x00, 0x00, // CRC
        ],
        0xFF,
    )
}

fn video_packet() -> Vec<u8> {
    packet(
        [0x47, 0x41, 0x00, 0x10],
        &[
            0x00, 0x00, 0x01, 0xE0, 0x00, 0x00, 0x80, 0x80, 0x05, 0x21, 0x00, 0x01, 0x07, 0x09,
            0x00, 0x00, 0x00, 0x01, 0x09, 0xF0, 0x00, 0x00, 0x00, 0x01, 0x67, 0x42,
        ],
        0x11,
    )
}

fn audio_packet() -> Vec<u8> {
    packet(
        [0x47, 0x41, 0x01, 0x10],
        &[
            0x00, 0x00, 0x01, 0xC0, 0x00, 0x00, 0x80, 0x80, 0x05, 0x21, 0x00, 0x01, 0x07, 0x09,
            0xFF, 0xF1, 0x50, 0x80, 0x00, 0x1F, 0xFC,
        ],
        0x00,
    )
}

#[test]
fn test_transport_packet_fields() {
    let pat = pat_packet();
    let p = TransportPacket::parse(&pat).unwrap();
    assert_eq!(p.sync_byte, 0x47);
    assert_eq!(p.pid, 0);
    assert!(p.payload_unit_start_indicator);
    assert_eq!(p.adaptation_field_control, 1);
    assert_eq!(p.data.len(), 184);
    assert_eq!(p.data[0], 0x00);
    let pmt = pmt_packet();
    assert_eq!(TransportPacket::parse(&pmt).unwrap().pid, 0x1000);
}

#[test]
fn test_transport_packet_adaptation_field() {
    let mut bytes = packet([0x47, 0x01, 0x00, 0x30], &[3, 0x10, 0x00, 0x00, 0xAB], 0xCD);
    let p = TransportPacket::parse(&bytes).unwrap();
    assert_eq!(p.pid, 0x100);
    assert!(!p.payload_unit_start_indicator);
    assert_eq!(p.data.len(), 188 - 8);
    assert_eq!(p.data[0], 0xAB);
    bytes[4] = 200;
    match TransportPacket::parse(&bytes) {
        Err(e) => assert_eq!(e.major, MajorCode::TRANSPORT_STREAM),
        Ok(_) => panic!("the adaptation field runs past the packet"),
    }
    let only_field = packet([0x47, 0x01, 0x00, 0x20], &[183], 0xFF);
    assert_eq!(TransportPacket::parse(&only_field).unwrap().data.len(), 0);
}

#[test]
fn test_program_association_table() {
    let pat = pat_packet();
    let table = ProgramAssociationTable::parse(&pat[4..], true).unwrap();
    assert_eq!(table.table_id, 0);
    assert!(table.section_syntax_indicator);
    assert_eq!(table.section_length, 13);
    assert_eq!(table.transport_stream_id, 1);
    assert_eq!(table.version_number, 0);
    assert!(table.current_next_indicator);
    assert_eq!(table.program_number, 1);
    assert_eq!(table.program_map_pid, 0x1000);
    match ProgramAssociationTable::parse(&[0x00, 0x00, 0xB0], true) {
        Err(e) => assert_eq!(e.major, MajorCode::UTIL),
        Ok(_) => panic!("the table is cut short"),
    }
}

#[test]
fn test_remux_walks_a_stream() {
    let mut ts = vec![0x00, 0x12];
    ts.extend(pat_packet());
    ts.extend(pmt_packet());
    ts.extend(video_packet());
    ts.extend(audio_packet());
    ts.extend(video_packet());
    let (video, audio) = remux_ts_to_mp4(&ts).unwrap();
    assert_eq!(video.len(), 0);
    assert_eq!(audio.len(), 0);
    assert_eq!(remux_ts_to_mp4(&[]).unwrap(), (vec![], vec![]));
}

#[test]
fn test_remux_bad_packet_is_an_error() {
    let mut ts = pat_packet();
    ts.extend(packet([0x47, 0x00, 0x00, 0x30], &[200], 0x00));
    let e = remux_ts_to_mp4(&ts).unwrap_err();
    assert_eq!(e.major, MajorCode::TRANSPORT_STREAM);
    assert_eq!(e.minor, 0);
}

#[test]
fn test_remux_bad_pes_is_an_error() {
    let mut ts = pat_packet();
    ts.extend(pmt_packet());
    // A PES packet of a private stream on the video packet id.
    ts.extend(packet([0x47, 0x41, 0x00, 0x10], &[0x00, 0x00, 0x01, 0xBD, 0x00, 0x00], 0x00));
    let e = remux_ts_to_mp4(&ts).unwrap_err();
    assert_eq!(e.major, MajorCode::TRANSPORT_STREAM);
    assert_eq!(e.minor, 0);
}

use video_bytestream_tools::av1::{
    write_leb128, OBUExtensionHeader, OBUExtensionHeaderError, OBUWriter,
};
use video_bytestream_tools::webvtt::{payload_guid, WebvttTrack};

fn leb128(v: u32) -> Vec<u8> {
    let mut out = Vec::new();
    write_leb128(&mut out, v);
    out
}

#[test]
fn av1_leb128_vectors() {
    assert_eq!(leb128(0), vec![0x00]);
    assert_eq!(leb128(1), vec![0x01]);
    assert_eq!(leb128(127), vec![0x7f]);
    assert_eq!(leb128(128), vec![0x80, 0x01]);
    assert_eq!(leb128(300), vec![0xac, 0x02]);
    assert_eq!(leb128(0xffff), vec![0xff, 0xff, 0x03]);
    assert_eq!(leb128(u32::MAX), vec![0xff, 0xff, 0xff, 0xff, 0x0f]);
}

#[test]
fn av1_leb128_length_formula() {
    // one byte per started 7-bit group, at least one byte
    for (v, len) in [
        (0u32, 1usize),
        (1, 1),
        (127, 1),
        (128, 2),
        (16383, 2),
        (16384, 3),
        (2097151, 3),
        (2097152, 4),
        (u32::MAX, 5),
    ] {
        assert_eq!(leb128(v).len(), len, "value {v}");
    }
}

#[test]
fn av1_leb128_round_trip() {
    for v in [0u32, 1, 127, 128, 255, 300, 0xffff, 0x12345678, u32::MAX] {
        let bytes = leb128(v);
        let mut decoded: u64 = 0;
        let mut shift = 0;
        for &b in &bytes {
            decoded |= u64::from(b & 0x7f) << shift;
            shift += 7;
        }
        assert!(bytes[..bytes.len() - 1].iter().all(|b| b & 0x80 != 0));
        assert!(bytes[bytes.len() - 1] & 0x80 == 0);
        assert_eq!(decoded, u64::from(v));
    }
}

#[test]
fn av1_metadata_obu_payload() {
    let mut writer = OBUWriter::new(Vec::new());
    writer
        .write_webvtt_payload(0, 1, 0, 200, "Some unverified data")
        .unwrap();
    let bytes = writer.into_sink();

    // OBU header byte: forbidden 0, type Metadata (5), no extension,
    // has-size 1, reserved 0 -> 0b0_0101_0_1_0
    assert_eq!(bytes[0], 0x2a);
    // obu_size counts every byte after the header
    assert_eq!(usize::from(bytes[1]), bytes.len() - 2);
    // metadata_type UnregisteredPrivate6 as LEB128
    assert_eq!(bytes[2], 0x06);
    assert_eq!(&bytes[3..19], payload_guid().as_slice());
    // track index, chunk number (u64 BE), chunk version
    assert_eq!(bytes[19], 0);
    assert_eq!(&bytes[20..28], &[0, 0, 0, 0, 0, 0, 0, 1]);
    assert_eq!(bytes[28], 0);
    // video offset 200 ms as big-endian u16
    assert_eq!(&bytes[29..31], &[0x00, 0xc8]);
    assert_eq!(&bytes[31..51], b"Some unverified data");
    // trailing bits
    assert_eq!(bytes[51], 0x80);
    assert_eq!(bytes.len(), 52);
}

#[test]
fn av1_metadata_obu_header_message() {
    let tracks = vec![WebvttTrack {
        id: 7,
        language: String::from("en"),
        label: String::from("English"),
    }];
    let mut writer = OBUWriter::new(Vec::new());
    writer.write_webvtt_header(300, 2, &tracks).unwrap();
    let bytes = writer.into_sink();

    assert_eq!(bytes[0], 0x2a);
    assert_eq!(usize::from(bytes[1]), bytes.len() - 2);
    assert_eq!(bytes[2], 0x06);
    assert_eq!(&bytes[3..19], payload_guid().as_slice());
    // header message type byte
    assert_eq!(bytes[19], 0);
    // max latency 300 ms as big-endian u16
    assert_eq!(&bytes[20..22], &[0x01, 0x2c]);
    // send frequency, track count
    assert_eq!(bytes[22], 2);
    assert_eq!(bytes[23], 1);
    // the track descriptor: id, then length-prefixed language and label
    assert_eq!(bytes[24], 7);
    assert_eq!(bytes[25], 2);
    assert_eq!(&bytes[26..28], b"en");
    assert_eq!(bytes[28], 7);
    assert_eq!(&bytes[29..36], b"English");
    assert_eq!(bytes[36], 0x80);
    assert_eq!(bytes.len(), 37);
}

#[test]
fn av1_two_messages_in_sequence() {
    let mut writer = OBUWriter::new(Vec::new());
    writer.write_webvtt_payload(0, 1, 0, 200, "one").unwrap();
    writer.write_webvtt_payload(1, 2, 1, 300, "two").unwrap();
    let bytes = writer.into_sink();
    // two frames, each sized 2 + obu_size
    let first_len = 2 + usize::from(bytes[1]);
    assert_eq!(bytes[first_len], 0x2a);
    let second_len = 2 + usize::from(bytes[first_len + 1]);
    assert_eq!(bytes.len(), first_len + second_len);
    assert_eq!(*bytes.last().unwrap(), 0x80);
}

#[test]
fn av1_obu_extension_header_validation() {
    assert!(matches!(
        OBUExtensionHeader::new(8, 0),
        Err(OBUExtensionHeaderError::TemporalIdOutOfRange(8))
    ));
    assert!(matches!(
        OBUExtensionHeader::new(0, 4),
        Err(OBUExtensionHeaderError::SpatialIdOutOfRange(4))
    ));
    assert!(OBUExtensionHeader::new(7, 3).is_ok());
}

use video_bytestream_tools::webvtt::{
    payload_guid, webvtt_header_body, webvtt_payload_body, WebvttTrack, WebvttWriteError,
};

#[test]
fn webvtt_payload_body_exact_bytes() {
    let body = webvtt_payload_body(3, 0x0102030405060708, 9, 200, "Hi").unwrap();
    let mut expected = payload_guid();
    expected.push(3);
    expected.extend_from_slice(&[1, 2, 3, 4, 5, 6, 7, 8]);
    expected.push(9);
    expected.extend_from_slice(&[0x00, 0xc8]);
    expected.extend_from_slice(b"Hi");
    assert_eq!(body, expected);
}

#[test]
fn webvtt_payload_body_starts_with_guid() {
    let body = webvtt_payload_body(0, 1, 0, 0, "anything").unwrap();
    assert_eq!(&body[0..16], payload_guid().as_slice());
}

#[test]
fn webvtt_payload_video_offset_out_of_range() {
    assert_eq!(
        webvtt_payload_body(0, 1, 0, 65536, "text"),
        Err(WebvttWriteError::VideoOffsetOutOfRange(65536)),
    );
    assert!(webvtt_payload_body(0, 1, 0, 65535, "text").is_ok());
}

#[test]
fn webvtt_payload_rejects_interior_nul() {
    assert_eq!(
        webvtt_payload_body(0, 1, 0, 0, "a\u{0}b"),
        Err(WebvttWriteError::PayloadContainsNul),
    );
    // the offset check comes first
    assert_eq!(
        webvtt_payload_body(0, 1, 0, 70000, "a\u{0}b"),
        Err(WebvttWriteError::VideoOffsetOutOfRange(70000)),
    );
}

#[test]
fn webvtt_header_body_exact_bytes() {
    let tracks = vec![
        WebvttTrack { id: 1, language: String::from("en"), label: String::from("English") },
        WebvttTrack { id: 2, language: String::from("de"), label: String::from("Deutsch") },
    ];
    let body = webvtt_header_body(300, 4, &tracks).unwrap();
    let mut expected = payload_guid();
    expected.push(0); // header message type
    expected.extend_from_slice(&[0x01, 0x2c]); // 300 ms
    expected.push(4); // send frequency
    expected.push(2); // track count
    expected.push(1);
    expected.push(2);
    expected.extend_from_slice(b"en");
    expected.push(7);
    expected.extend_from_slice(b"English");
    expected.push(2);
    expected.push(2);
    expected.extend_from_slice(b"de");
    expected.push(7);
    expected.extend_from_slice(b"Deutsch");
    assert_eq!(body, expected);
}

#[test]
fn webvtt_header_latency_saturates() {
    let body = webvtt_header_body(70000, 1, &Vec::new()).unwrap();
    assert_eq!(&body[17..19], &[0xff, 0xff]);
    let body = webvtt_header_body(65535, 1, &Vec::new()).unwrap();
    assert_eq!(&body[17..19], &[0xff, 0xff]);
    let body = webvtt_header_body(0, 1, &Vec::new()).unwrap();
    assert_eq!(&body[17..19], &[0x00, 0x00]);
}

#[test]
fn webvtt_header_rejects_long_track_field() {
    let tracks = vec![WebvttTrack {
        id: 0,
        language: "a".repeat(256),
        label: String::from("ok"),
    }];
    assert_eq!(webvtt_header_body(0, 1, &tracks), Err(WebvttWriteError::TrackFieldTooLong));
    let tracks = vec![WebvttTrack {
        id: 0,
        language: String::from("ok"),
        label: "b".repeat(256),
    }];
    assert_eq!(webvtt_header_body(0, 1, &tracks), Err(WebvttWriteError::TrackFieldTooLong));
    let tracks = vec![WebvttTrack {
        id: 0,
        language: "a".repeat(255),
        label: "b".repeat(255),
    }];
    assert!(webvtt_header_body(0, 1, &tracks).is_ok());
}

#[test]
fn webvtt_header_rejects_too_many_tracks() {
    let mut tracks = Vec::new();
    for i in 0..256 {
        tracks.push(WebvttTrack {
            id: i as u8,
            language: String::from("en"),
            label: String::from("t"),
        });
    }
    assert_eq!(webvtt_header_body(0, 1, &tracks), Err(WebvttWriteError::TooManyTracks));
    tracks.pop();
    assert!(webvtt_header_body(0, 1, &tracks).is_ok());
}

#[test]
fn webvtt_payload_guid_is_sixteen_bytes() {
    let guid = payload_guid();
    assert_eq!(guid.len(), 16);
    // stable across calls: part of the wire format
    assert_eq!(guid, payload_guid());
}

#[test]
fn webvtt_payload_body_empty_text() {
    let body = webvtt_payload_body(0, 0, 0, 0, "").unwrap();
    assert_eq!(body.len(), 28);
    assert_eq!(&body[0..16], payload_guid().as_slice());
    assert!(body[16..].iter().all(|&b| b == 0));
}

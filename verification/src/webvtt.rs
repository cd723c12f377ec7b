//! Serializer for the two WebVTT-in-video message bodies: the one-shot
//! configuration header and the recurring payload chunks.  Both bodies start
//! with the fixed 16-byte payload GUID that marks them as WebVTT data inside
//! otherwise unregistered codec metadata.

use crate::bytes::{u16_be_bytes, u64_be_bytes, write_bytes, write_u16_be, write_u64_be};
use vstd::prelude::*;
use vstd::utf8::encode_utf8;

verus! {

/// SEI payload type for `user_data_unregistered`.
pub const USER_DATA_UNREGISTERED: usize = 5;

/// Message-type byte that identifies the configuration header body.
pub const HEADER_MESSAGE_TYPE: u8 = 0;

/// The fixed 16-byte identifier that precedes every WebVTT message body.
pub open spec fn spec_payload_guid() -> Seq<u8> {
    seq![
        0xc6u8, 0x5fu8, 0x2bu8, 0x0au8, 0x81u8, 0x99u8, 0x4au8, 0xf2u8,
        0xb1u8, 0x3fu8, 0x6cu8, 0xd4u8, 0x8eu8, 0x07u8, 0x5au8, 0xd3u8,
    ]
}

/// The payload GUID as a vector, for callers outside the crate.
pub fn payload_guid() -> (g: Vec<u8>)
    ensures
        g@ == spec_payload_guid(),
{
    let mut g: Vec<u8> = Vec::new();
    g.push(0xc6);
    g.push(0x5f);
    g.push(0x2b);
    g.push(0x0a);
    g.push(0x81);
    g.push(0x99);
    g.push(0x4a);
    g.push(0xf2);
    g.push(0xb1);
    g.push(0x3f);
    g.push(0x6c);
    g.push(0xd4);
    g.push(0x8e);
    g.push(0x07);
    g.push(0x5a);
    g.push(0xd3);
    assert(g@ =~= spec_payload_guid());
    g
}

/// A subtitle track descriptor carried by the header message.
pub struct WebvttTrack {
    /// Track identifier; payload messages refer to tracks by their position
    /// in the header's track list, this id is carried for the demuxer.
    pub id: u8,
    /// BCP 47 language tag of the track.
    pub language: String,
    /// Human-readable label of the track.
    pub label: String,
}

/// Rejected inputs of the WebVTT serializer.
#[derive(Debug, Clone, Copy, PartialEq, Eq)]
pub enum WebvttWriteError {
    /// `video_offset_ms` does not fit the 16-bit wire field.
    VideoOffsetOutOfRange(u64),
    /// The payload text holds an interior NUL byte.
    PayloadContainsNul,
    /// A track's language or label encodes to more than 255 bytes.
    TrackFieldTooLong,
    /// More than 255 subtitle tracks.
    TooManyTracks,
}

/// Wire encoding of one track descriptor: id, then the language and the
/// label, each as a length byte followed by that many UTF-8 bytes.
pub open spec fn spec_track_bytes(t: WebvttTrack) -> Seq<u8> {
    seq![t.id]
        + seq![encode_utf8(t.language@).len() as u8]
        + encode_utf8(t.language@)
        + seq![encode_utf8(t.label@).len() as u8]
        + encode_utf8(t.label@)
}

/// Both fields of the track fit their one-byte length prefix.
pub open spec fn spec_track_valid(t: WebvttTrack) -> bool {
    encode_utf8(t.language@).len() <= 255 && encode_utf8(t.label@).len() <= 255
}

/// Wire encoding of a track list, in declaration order.
pub open spec fn spec_tracks_bytes(ts: Seq<WebvttTrack>) -> Seq<u8>
    decreases ts.len(),
{
    if ts.len() == 0 {
        Seq::empty()
    } else {
        spec_track_bytes(ts[0]) + spec_tracks_bytes(ts.drop_first())
    }
}

proof fn lemma_tracks_bytes_snoc(ts: Seq<WebvttTrack>, t: WebvttTrack)
    ensures
        spec_tracks_bytes(ts.push(t)) == spec_tracks_bytes(ts) + spec_track_bytes(t),
    decreases ts.len(),
{
    if ts.len() == 0 {
        assert(ts.push(t)[0] == t);
        assert(ts.push(t).drop_first() =~= Seq::<WebvttTrack>::empty());
        assert(spec_tracks_bytes(Seq::<WebvttTrack>::empty()) == Seq::<u8>::empty());
        assert(spec_tracks_bytes(ts.push(t)) =~= spec_tracks_bytes(ts) + spec_track_bytes(t));
    } else {
        assert(ts.push(t).drop_first() =~= ts.drop_first().push(t));
        lemma_tracks_bytes_snoc(ts.drop_first(), t);
        assert(spec_tracks_bytes(ts.push(t)) =~= spec_tracks_bytes(ts) + spec_track_bytes(t));
    }
}

/// `max_latency_to_video` on the wire: milliseconds, saturated to 16 bits.
pub open spec fn spec_latency_wire(ms: u64) -> u16 {
    if ms > 0xffff {
        0xffffu16
    } else {
        ms as u16
    }
}

/// Wire encoding of the header message body.
pub open spec fn spec_webvtt_header_body(
    max_latency_to_video_ms: u64,
    send_frequency_hz: u8,
    subtitle_tracks: Seq<WebvttTrack>,
) -> Seq<u8> {
    spec_payload_guid() + seq![HEADER_MESSAGE_TYPE]
        + u16_be_bytes(spec_latency_wire(max_latency_to_video_ms)) + seq![send_frequency_hz]
        + seq![subtitle_tracks.len() as u8] + spec_tracks_bytes(subtitle_tracks)
}

/// Wire encoding of a payload message body.
pub open spec fn spec_webvtt_payload_body(
    track_index: u8,
    chunk_number: u64,
    chunk_version: u8,
    video_offset_ms: u16,
    payload: Seq<u8>,
) -> Seq<u8> {
    spec_payload_guid() + seq![track_index] + u64_be_bytes(chunk_number) + seq![chunk_version]
        + u16_be_bytes(video_offset_ms) + payload
}

/// The header inputs that the serializer accepts.
pub open spec fn spec_header_inputs_valid(subtitle_tracks: Seq<WebvttTrack>) -> bool {
    subtitle_tracks.len() <= 255 && forall|i: int|
        0 <= i < subtitle_tracks.len() ==> spec_track_valid(#[trigger] subtitle_tracks[i])
}

/// The error returned for a rejected header track list.
pub open spec fn spec_header_reject(subtitle_tracks: Seq<WebvttTrack>) -> WebvttWriteError {
    if subtitle_tracks.len() > 255 {
        WebvttWriteError::TooManyTracks
    } else {
        WebvttWriteError::TrackFieldTooLong
    }
}

/// The payload inputs that the serializer accepts: the offset fits the
/// 16-bit wire field and the text has no interior NUL byte.
pub open spec fn spec_payload_inputs_accepted(video_offset_ms: u64, payload: Seq<char>) -> bool {
    video_offset_ms <= 0xffff && !encode_utf8(payload).contains(0u8)
}

/// The error returned for a rejected payload message.
pub open spec fn spec_payload_reject(video_offset_ms: u64, payload: Seq<char>) -> WebvttWriteError {
    if video_offset_ms > 0xffff {
        WebvttWriteError::VideoOffsetOutOfRange(video_offset_ms)
    } else {
        WebvttWriteError::PayloadContainsNul
    }
}

fn write_payload_guid(out: &mut Vec<u8>)
    ensures
        final(out)@ == old(out)@ + spec_payload_guid(),
{
    let mut g = payload_guid();
    out.append(&mut g);
}

fn write_track(out: &mut Vec<u8>, t: &WebvttTrack) -> (ok: bool)
    ensures
        ok == spec_track_valid(*t),
        ok ==> final(out)@ == old(out)@ + spec_track_bytes(*t),
        !ok ==> final(out)@ == old(out)@,
{
    let language = t.language.as_str().as_bytes();
    let label = t.label.as_str().as_bytes();
    if language.len() > 255 || label.len() > 255 {
        return false;
    }
    out.push(t.id);
    out.push(language.len() as u8);
    write_bytes(out, language);
    out.push(label.len() as u8);
    write_bytes(out, label);
    assert(out@ =~= old(out)@ + spec_track_bytes(*t));
    true
}

/// Builds the header message body: the payload GUID, the header message-type
/// byte, the saturated latency, the send frequency, the track count, and the
/// track descriptors in order.
pub fn webvtt_header_body(
    max_latency_to_video_ms: u64,
    send_frequency_hz: u8,
    subtitle_tracks: &Vec<WebvttTrack>,
) -> (r: Result<Vec<u8>, WebvttWriteError>)
    requires
        1 <= send_frequency_hz,
    ensures
        r is Ok <==> spec_header_inputs_valid(subtitle_tracks@),
        r matches Ok(b) ==> b@ == spec_webvtt_header_body(
            max_latency_to_video_ms,
            send_frequency_hz,
            subtitle_tracks@,
        ),
        subtitle_tracks@.len() > 255 ==> r == Err::<Vec<u8>, _>(WebvttWriteError::TooManyTracks),
        subtitle_tracks@.len() <= 255 && !spec_header_inputs_valid(subtitle_tracks@) ==> r
            == Err::<Vec<u8>, _>(WebvttWriteError::TrackFieldTooLong),
{
    if subtitle_tracks.len() > 255 {
        return Err(WebvttWriteError::TooManyTracks);
    }
    let mut body: Vec<u8> = Vec::new();
    write_payload_guid(&mut body);
    body.push(HEADER_MESSAGE_TYPE);
    let latency: u16 = if max_latency_to_video_ms > 0xffff {
        0xffff
    } else {
        max_latency_to_video_ms as u16
    };
    write_u16_be(&mut body, latency);
    body.push(send_frequency_hz);
    body.push(subtitle_tracks.len() as u8);
    let ghost head = body@;
    let mut i: usize = 0;
    while i < subtitle_tracks.len()
        invariant
            i <= subtitle_tracks@.len(),
            subtitle_tracks@.len() <= 255,
            body@ == head + spec_tracks_bytes(subtitle_tracks@.subrange(0, i as int)),
            forall|j: int| 0 <= j < i ==> spec_track_valid(#[trigger] subtitle_tracks@[j]),
        decreases subtitle_tracks@.len() - i,
    {
        let ok = write_track(&mut body, &subtitle_tracks[i]);
        if !ok {
            assert(!spec_track_valid(subtitle_tracks@[i as int]));
            assert(!spec_header_inputs_valid(subtitle_tracks@));
            return Err(WebvttWriteError::TrackFieldTooLong);
        }
        proof {
            lemma_tracks_bytes_snoc(subtitle_tracks@.subrange(0, i as int), subtitle_tracks@[i as int]);
            assert(subtitle_tracks@.subrange(0, i as int).push(subtitle_tracks@[i as int])
                =~= subtitle_tracks@.subrange(0, i as int + 1));
        }
        i = i + 1;
    }
    proof {
        assert(subtitle_tracks@.subrange(0, subtitle_tracks@.len() as int) =~= subtitle_tracks@);
        assert(body@ =~= spec_webvtt_header_body(
            max_latency_to_video_ms,
            send_frequency_hz,
            subtitle_tracks@,
        ));
    }
    Ok(body)
}

/// Builds a payload message body: the payload GUID, the track index, the
/// chunk number, the chunk version, the video offset in milliseconds, and
/// the UTF-8 payload text.
pub fn webvtt_payload_body(
    track_index: u8,
    chunk_number: u64,
    chunk_version: u8,
    video_offset_ms: u64,
    webvtt_payload: &str,
) -> (r: Result<Vec<u8>, WebvttWriteError>)
    ensures
        r is Ok <==> (video_offset_ms <= 0xffff && !encode_utf8(webvtt_payload@).contains(0u8)),
        r matches Ok(b) ==> b@ == spec_webvtt_payload_body(
            track_index,
            chunk_number,
            chunk_version,
            video_offset_ms as u16,
            encode_utf8(webvtt_payload@),
        ),
        video_offset_ms > 0xffff ==> r == Err::<Vec<u8>, _>(
            WebvttWriteError::VideoOffsetOutOfRange(video_offset_ms),
        ),
        video_offset_ms <= 0xffff && encode_utf8(webvtt_payload@).contains(0u8) ==> r == Err::<
            Vec<u8>,
            _,
        >(WebvttWriteError::PayloadContainsNul),
{
    if video_offset_ms > 0xffff {
        return Err(WebvttWriteError::VideoOffsetOutOfRange(video_offset_ms));
    }
    let payload = webvtt_payload.as_bytes();
    let mut i: usize = 0;
    while i < payload.len()
        invariant
            i <= payload@.len(),
            video_offset_ms <= 0xffff,
            payload@ == encode_utf8(webvtt_payload@),
            forall|j: int| 0 <= j < i ==> payload@[j] != 0,
        decreases payload@.len() - i,
    {
        if payload[i] == 0 {
            assert(encode_utf8(webvtt_payload@).contains(0u8));
            return Err(WebvttWriteError::PayloadContainsNul);
        }
        i = i + 1;
    }
    assert(!encode_utf8(webvtt_payload@).contains(0u8)) by {
        if encode_utf8(webvtt_payload@).contains(0u8) {
            let j = choose|j: int|
                0 <= j < payload@.len() && payload@[j] == 0;
            assert(payload@[j] != 0);
        }
    }
    let mut body: Vec<u8> = Vec::new();
    write_payload_guid(&mut body);
    body.push(track_index);
    write_u64_be(&mut body, chunk_number);
    body.push(chunk_version);
    write_u16_be(&mut body, video_offset_ms as u16);
    write_bytes(&mut body, payload);
    assert(body@ =~= spec_webvtt_payload_body(
        track_index,
        chunk_number,
        chunk_version,
        video_offset_ms as u16,
        encode_utf8(webvtt_payload@),
    ));
    Ok(body)
}

proof fn lemma_tracks_bytes_len(ts: Seq<WebvttTrack>)
    requires
        forall|i: int| 0 <= i < ts.len() ==> spec_track_valid(#[trigger] ts[i]),
    ensures
        spec_tracks_bytes(ts).len() <= ts.len() * 513,
    decreases ts.len(),
{
    if ts.len() == 0 {
    } else {
        assert(forall|i: int|
            0 <= i < ts.drop_first().len() ==> spec_track_valid(#[trigger] ts.drop_first()[i]));
        lemma_tracks_bytes_len(ts.drop_first());
        assert(spec_track_bytes(ts[0]).len() <= 513);
        assert(ts.len() * 513 == (ts.len() - 1) * 513 + 513) by (nonlinear_arith);
    }
}

/// A header body for an accepted track list is smaller than 131,072 bytes:
/// at most 21 fixed bytes and 255 tracks of at most 513 bytes each.
pub proof fn lemma_header_body_len_bound(
    max_latency_to_video_ms: u64,
    send_frequency_hz: u8,
    subtitle_tracks: Seq<WebvttTrack>,
)
    requires
        spec_header_inputs_valid(subtitle_tracks),
    ensures
        spec_webvtt_header_body(
            max_latency_to_video_ms,
            send_frequency_hz,
            subtitle_tracks,
        ).len() <= 131072,
{
    lemma_tracks_bytes_len(subtitle_tracks);
    assert(subtitle_tracks.len() * 513 <= 255 * 513) by (nonlinear_arith)
        requires
            subtitle_tracks.len() <= 255,
    ;
}

/// Every message body begins with the 16 bytes of the payload GUID.
pub proof fn lemma_bodies_begin_with_payload_guid(
    max_latency_to_video_ms: u64,
    send_frequency_hz: u8,
    subtitle_tracks: Seq<WebvttTrack>,
    track_index: u8,
    chunk_number: u64,
    chunk_version: u8,
    video_offset_ms: u16,
    payload: Seq<u8>,
)
    ensures
        spec_webvtt_header_body(max_latency_to_video_ms, send_frequency_hz, subtitle_tracks).take(
            16,
        ) == spec_payload_guid(),
        spec_webvtt_payload_body(
            track_index,
            chunk_number,
            chunk_version,
            video_offset_ms,
            payload,
        ).take(16) == spec_payload_guid(),
{
    assert(spec_webvtt_header_body(
        max_latency_to_video_ms,
        send_frequency_hz,
        subtitle_tracks,
    ).take(16) =~= spec_payload_guid());
    assert(spec_webvtt_payload_body(
        track_index,
        chunk_number,
        chunk_version,
        video_offset_ms,
        payload,
    ).take(16) =~= spec_payload_guid());
}

} // verus!

//! AV1 OBU framing: the LEB128 encoder, OBU headers, and the writer that
//! wraps WebVTT messages in Metadata OBUs of type `UnregisteredPrivate6`.

use crate::webvtt::{
    spec_header_inputs_valid, spec_header_reject, spec_payload_inputs_accepted,
    spec_payload_reject, spec_webvtt_header_body, spec_webvtt_payload_body, webvtt_header_body,
    webvtt_payload_body, WebvttTrack, WebvttWriteError,
};
use vstd::prelude::*;
use vstd::utf8::encode_utf8;

verus! {

/// Unsigned LEB128: 7-bit groups, least significant first, high bit set on
/// every byte but the last.
pub open spec fn spec_leb128(v: u32) -> Seq<u8>
    decreases v,
    via spec_leb128_decreases
{
    if v < 128 {
        seq![v as u8]
    } else {
        seq![(v % 128 + 128) as u8] + spec_leb128(v / 128)
    }
}

#[via_fn]
proof fn spec_leb128_decreases(v: u32) {
    assert(v >= 128 ==> v / 128 < v) by (nonlinear_arith);
}

/// Decodes an LEB128 byte sequence back to its value.
pub open spec fn spec_leb128_decode(s: Seq<u8>) -> nat
    decreases s.len(),
{
    if s.len() == 0 {
        0nat
    } else if s[0] < 128 {
        s[0] as nat
    } else {
        (s[0] - 128) as nat + 128 * spec_leb128_decode(s.drop_first())
    }
}

/// The number of binary digits of `v`.
pub open spec fn spec_bit_len(v: nat) -> nat
    decreases v,
    via spec_bit_len_decreases
{
    if v == 0 {
        0nat
    } else {
        1nat + spec_bit_len(v / 2)
    }
}

#[via_fn]
proof fn spec_bit_len_decreases(v: nat) {
    assert(v > 0 ==> v / 2 < v) by (nonlinear_arith);
}

/// The LEB128 length formula: one byte per started group of 7 bits, and at
/// least one byte.
pub open spec fn spec_leb128_len(v: u32) -> nat {
    if v == 0 {
        1nat
    } else {
        (spec_bit_len(v as nat) + 6) / 7
    }
}

proof fn lemma_bit_len_le(v: nat, n: nat)
    requires
        v < vstd::arithmetic::power2::pow2(n),
    ensures
        spec_bit_len(v) <= n,
    decreases n,
{
    if n == 0 {
        vstd::arithmetic::power2::lemma2_to64();
    } else if v == 0 {
    } else {
        vstd::arithmetic::power2::lemma_pow2_unfold(n);
        let p = vstd::arithmetic::power2::pow2((n - 1) as nat);
        assert(v / 2 < p) by (nonlinear_arith)
            requires
                v < 2 * p,
                p > 0,
        ;
        lemma_bit_len_le(v / 2, (n - 1) as nat);
    }
}

proof fn lemma_bit_len_div128(v: nat)
    requires
        v >= 128,
    ensures
        spec_bit_len(v) == 7 + spec_bit_len(v / 128),
{
    vstd::arithmetic::div_mod::lemma_div_denominator(v as int, 2, 2);
    vstd::arithmetic::div_mod::lemma_div_denominator(v as int, 4, 2);
    vstd::arithmetic::div_mod::lemma_div_denominator(v as int, 8, 2);
    vstd::arithmetic::div_mod::lemma_div_denominator(v as int, 16, 2);
    vstd::arithmetic::div_mod::lemma_div_denominator(v as int, 32, 2);
    vstd::arithmetic::div_mod::lemma_div_denominator(v as int, 64, 2);
    assert(spec_bit_len(v) == 1 + spec_bit_len(v / 2));
    assert(spec_bit_len(v / 2) == 1 + spec_bit_len(v / 4));
    assert(spec_bit_len(v / 4) == 1 + spec_bit_len(v / 8));
    assert(spec_bit_len(v / 8) == 1 + spec_bit_len(v / 16));
    assert(spec_bit_len(v / 16) == 1 + spec_bit_len(v / 32));
    assert(spec_bit_len(v / 32) == 1 + spec_bit_len(v / 64));
    assert(spec_bit_len(v / 64) == 1 + spec_bit_len(v / 128));
}

/// LEB128 round-trip: decoding the encoding gives the value back, and the
/// encoded length is one byte per started 7-bit group (at least one).
pub proof fn lemma_leb128_round_trip(v: u32)
    ensures
        spec_leb128_decode(spec_leb128(v)) == v,
        spec_leb128(v).len() == spec_leb128_len(v),
    decreases v,
{
    if v < 128 {
        if v > 0 {
            vstd::arithmetic::power2::lemma2_to64();
            lemma_bit_len_le(v as nat, 7);
            assert(spec_bit_len(v as nat) >= 1);
        }
    } else {
        assert(v / 128 < v && v / 128 >= 1) by (nonlinear_arith)
            requires
                v >= 128,
        ;
        lemma_leb128_round_trip(v / 128);
        assert((seq![(v % 128 + 128) as u8] + spec_leb128(v / 128)).drop_first()
            =~= spec_leb128(v / 128));
        assert(v % 128 + 128 * (v / 128) == v) by (nonlinear_arith);
        lemma_bit_len_div128(v as nat);
        assert((v / 128) as u32 as nat == (v as nat) / 128) by (nonlinear_arith);
        let b = spec_bit_len((v as nat) / 128);
        assert((b + 7 + 6) / 7 == (b + 6) / 7 + 1) by (nonlinear_arith);
        assert(spec_bit_len((v / 128) as nat) >= 1);
    }
}

/// An LEB128 encoding of a `u32` takes at most five bytes.
pub proof fn lemma_leb128_len_at_most_five(v: u32)
    ensures
        spec_leb128(v).len() <= 5,
{
    lemma_leb128_round_trip(v);
    if v > 0 {
        vstd::arithmetic::power2::lemma2_to64();
        lemma_bit_len_le(v as nat, 32);
    }
}

/// An OBU header is at most seven bytes: the header byte, at most one
/// extension byte, and at most five bytes of LEB128-coded `obu_size`.
pub proof fn lemma_obu_header_at_most_seven(
    type_id: u8,
    extension: Option<(u8, u8)>,
    size: Option<u32>,
)
    ensures
        spec_obu_header_wire(type_id, extension, size).len() <= 7,
{
    match size {
        Some(s) => lemma_leb128_len_at_most_five(s),
        None => (),
    }
}

/// Appends the LEB128 encoding of `val` to `out`.
pub fn write_leb128(out: &mut Vec<u8>, val: u32)
    ensures
        final(out)@ == old(out)@ + spec_leb128(val),
{
    let mut rem = val;
    while rem >= 128
        invariant
            out@ + spec_leb128(rem) == old(out)@ + spec_leb128(val),
        decreases rem,
    {
        out.push((rem % 128) as u8 + 128);
        let next = rem / 128;
        assert(next < rem) by (nonlinear_arith)
            requires
                rem >= 128,
                next == rem / 128,
        ;
        assert(out@ + spec_leb128(next) =~= old(out)@ + spec_leb128(val));
        rem = next;
    }
    out.push(rem as u8);
    assert(out@ =~= old(out)@ + spec_leb128(val));
}

/// AV1 OBU types, in the order of their four-bit ids.
#[derive(Debug, Clone, Copy)]
pub enum OBUType {
    Reserved0,
    SequenceHeader,
    TemporalDelimiter,
    FrameHeader,
    TileGroup,
    Metadata,
    Frame,
    RedundantFrameHeader,
    TileList,
    Reserved9,
    Reserved10,
    Reserved11,
    Reserved12,
    Reserved13,
    Reserved14,
    Padding,
}

impl OBUType {
    /// The four-bit `obu_type` value.
    pub open spec fn spec_id(self) -> u8 {
        match self {
            OBUType::Reserved0 => 0,
            OBUType::SequenceHeader => 1,
            OBUType::TemporalDelimiter => 2,
            OBUType::FrameHeader => 3,
            OBUType::TileGroup => 4,
            OBUType::Metadata => 5,
            OBUType::Frame => 6,
            OBUType::RedundantFrameHeader => 7,
            OBUType::TileList => 8,
            OBUType::Reserved9 => 9,
            OBUType::Reserved10 => 10,
            OBUType::Reserved11 => 11,
            OBUType::Reserved12 => 12,
            OBUType::Reserved13 => 13,
            OBUType::Reserved14 => 14,
            OBUType::Padding => 15,
        }
    }

    /// The four-bit `obu_type` value.
    #[verifier::when_used_as_spec(spec_id)]
    pub fn id(self) -> (id: u8)
        ensures
            id == self.spec_id(),
            id < 16,
    {
        match self {
            OBUType::Reserved0 => 0,
            OBUType::SequenceHeader => 1,
            OBUType::TemporalDelimiter => 2,
            OBUType::FrameHeader => 3,
            OBUType::TileGroup => 4,
            OBUType::Metadata => 5,
            OBUType::Frame => 6,
            OBUType::RedundantFrameHeader => 7,
            OBUType::TileList => 8,
            OBUType::Reserved9 => 9,
            OBUType::Reserved10 => 10,
            OBUType::Reserved11 => 11,
            OBUType::Reserved12 => 12,
            OBUType::Reserved13 => 13,
            OBUType::Reserved14 => 14,
            OBUType::Padding => 15,
        }
    }
}

/// AV1 metadata types; this crate emits `UnregisteredPrivate6`.
#[derive(Debug, Clone, Copy)]
pub enum MetadataType {
    ReservedForAOMUse,
    HdrCll,
    HdrMdcv,
    Scalability,
    ItutT35,
    Timecode,
    UnregisteredPrivate6,
    UnregisteredPrivate7,
    UnregisteredPrivate8,
    UnregisteredPrivate9,
    UnregisteredPrivate10,
    UnregisteredPrivate11,
    UnregisteredPrivate12,
    UnregisteredPrivate13,
    UnregisteredPrivate14,
    UnregisteredPrivate15,
    UnregisteredPrivate16,
    UnregisteredPrivate17,
    UnregisteredPrivate18,
    UnregisteredPrivate19,
    UnregisteredPrivate20,
    UnregisteredPrivate21,
    UnregisteredPrivate22,
    UnregisteredPrivate23,
    UnregisteredPrivate24,
    UnregisteredPrivate25,
    UnregisteredPrivate26,
    UnregisteredPrivate27,
    UnregisteredPrivate28,
    UnregisteredPrivate29,
    UnregisteredPrivate30,
    UnregisteredPrivate31,
}

impl MetadataType {
    /// The `metadata_type` value, LEB128-coded at the start of a Metadata
    /// OBU body.
    pub open spec fn spec_id(self) -> u32 {
        match self {
            MetadataType::ReservedForAOMUse => 0,
            MetadataType::HdrCll => 1,
            MetadataType::HdrMdcv => 2,
            MetadataType::Scalability => 3,
            MetadataType::ItutT35 => 4,
            MetadataType::Timecode => 5,
            MetadataType::UnregisteredPrivate6 => 6,
            MetadataType::UnregisteredPrivate7 => 7,
            MetadataType::UnregisteredPrivate8 => 8,
            MetadataType::UnregisteredPrivate9 => 9,
            MetadataType::UnregisteredPrivate10 => 10,
            MetadataType::UnregisteredPrivate11 => 11,
            MetadataType::UnregisteredPrivate12 => 12,
            MetadataType::UnregisteredPrivate13 => 13,
            MetadataType::UnregisteredPrivate14 => 14,
            MetadataType::UnregisteredPrivate15 => 15,
            MetadataType::UnregisteredPrivate16 => 16,
            MetadataType::UnregisteredPrivate17 => 17,
            MetadataType::UnregisteredPrivate18 => 18,
            MetadataType::UnregisteredPrivate19 => 19,
            MetadataType::UnregisteredPrivate20 => 20,
            MetadataType::UnregisteredPrivate21 => 21,
            MetadataType::UnregisteredPrivate22 => 22,
            MetadataType::UnregisteredPrivate23 => 23,
            MetadataType::UnregisteredPrivate24 => 24,
            MetadataType::UnregisteredPrivate25 => 25,
            MetadataType::UnregisteredPrivate26 => 26,
            MetadataType::UnregisteredPrivate27 => 27,
            MetadataType::UnregisteredPrivate28 => 28,
            MetadataType::UnregisteredPrivate29 => 29,
            MetadataType::UnregisteredPrivate30 => 30,
            MetadataType::UnregisteredPrivate31 => 31,
        }
    }

    /// The `metadata_type` value, LEB128-coded at the start of a Metadata
    /// OBU body.
    #[verifier::when_used_as_spec(spec_id)]
    pub fn id(self) -> (id: u32)
        ensures
            id == self.spec_id(),
            id < 32,
    {
        match self {
            MetadataType::ReservedForAOMUse => 0,
            MetadataType::HdrCll => 1,
            MetadataType::HdrMdcv => 2,
            MetadataType::Scalability => 3,
            MetadataType::ItutT35 => 4,
            MetadataType::Timecode => 5,
            MetadataType::UnregisteredPrivate6 => 6,
            MetadataType::UnregisteredPrivate7 => 7,
            MetadataType::UnregisteredPrivate8 => 8,
            MetadataType::UnregisteredPrivate9 => 9,
            MetadataType::UnregisteredPrivate10 => 10,
            MetadataType::UnregisteredPrivate11 => 11,
            MetadataType::UnregisteredPrivate12 => 12,
            MetadataType::UnregisteredPrivate13 => 13,
            MetadataType::UnregisteredPrivate14 => 14,
            MetadataType::UnregisteredPrivate15 => 15,
            MetadataType::UnregisteredPrivate16 => 16,
            MetadataType::UnregisteredPrivate17 => 17,
            MetadataType::UnregisteredPrivate18 => 18,
            MetadataType::UnregisteredPrivate19 => 19,
            MetadataType::UnregisteredPrivate20 => 20,
            MetadataType::UnregisteredPrivate21 => 21,
            MetadataType::UnregisteredPrivate22 => 22,
            MetadataType::UnregisteredPrivate23 => 23,
            MetadataType::UnregisteredPrivate24 => 24,
            MetadataType::UnregisteredPrivate25 => 25,
            MetadataType::UnregisteredPrivate26 => 26,
            MetadataType::UnregisteredPrivate27 => 27,
            MetadataType::UnregisteredPrivate28 => 28,
            MetadataType::UnregisteredPrivate29 => 29,
            MetadataType::UnregisteredPrivate30 => 30,
            MetadataType::UnregisteredPrivate31 => 31,
        }
    }
}

/// Rejected OBU extension header inputs.
#[derive(Debug, Clone, Copy, PartialEq, Eq)]
pub enum OBUExtensionHeaderError {
    TemporalIdOutOfRange(u8),
    SpatialIdOutOfRange(u8),
}

/// A validated OBU extension header.
#[derive(Debug, Clone, Copy)]
pub struct OBUExtensionHeader {
    temporal_id: u8,
    spatial_id: u8,
}

impl OBUExtensionHeader {
    pub closed spec fn spec_temporal_id(self) -> u8 {
        self.temporal_id
    }

    pub closed spec fn spec_spatial_id(self) -> u8 {
        self.spatial_id
    }

    pub open spec fn wf(self) -> bool {
        self.spec_temporal_id() < 8 && self.spec_spatial_id() < 4
    }

    /// Validates `temporal_id` (three bits) and `spatial_id` (two bits).
    pub fn new(temporal_id: u8, spatial_id: u8) -> (r: Result<Self, OBUExtensionHeaderError>)
        ensures
            r is Ok <==> (temporal_id < 8 && spatial_id < 4),
            r matches Ok(e) ==> e.wf() && e.spec_temporal_id() == temporal_id
                && e.spec_spatial_id() == spatial_id,
            temporal_id >= 8 ==> r == Err::<Self, _>(
                OBUExtensionHeaderError::TemporalIdOutOfRange(temporal_id),
            ),
            temporal_id < 8 && spatial_id >= 4 ==> r == Err::<Self, _>(
                OBUExtensionHeaderError::SpatialIdOutOfRange(spatial_id),
            ),
    {
        if temporal_id > 0b111 {
            return Err(OBUExtensionHeaderError::TemporalIdOutOfRange(temporal_id));
        }
        if spatial_id > 0b11 {
            return Err(OBUExtensionHeaderError::SpatialIdOutOfRange(spatial_id));
        }
        Ok(Self { temporal_id, spatial_id })
    }
}

/// The OBU header wire encoding: `obu_forbidden_bit` (0), four bits of
/// `obu_type`, the extension flag, the has-size flag, `obu_reserved_1bit`
/// (0); then the extension byte if present; then LEB128(`obu_size`) if
/// present.
pub open spec fn spec_obu_header_wire(
    type_id: u8,
    extension: Option<(u8, u8)>,
    size: Option<u32>,
) -> Seq<u8> {
    seq![
        (type_id * 8 + (if extension is Some {
            4u8
        } else {
            0u8
        }) + (if size is Some {
            2u8
        } else {
            0u8
        })) as u8,
    ] + (match extension {
        Some(e) => seq![(e.0 * 32 + e.1 * 8) as u8],
        None => Seq::<u8>::empty(),
    }) + (match size {
        Some(s) => spec_leb128(s),
        None => Seq::<u8>::empty(),
    })
}

/// An OBU header with its optional extension header and optional size.
#[derive(Debug, Clone, Copy)]
pub struct OBUHeaderWithSize {
    obu_type: OBUType,
    obu_size: Option<u32>,
    obu_extension_header: Option<OBUExtensionHeader>,
}

impl OBUHeaderWithSize {
    pub closed spec fn spec_obu_type(self) -> OBUType {
        self.obu_type
    }

    pub closed spec fn spec_obu_size(self) -> Option<u32> {
        self.obu_size
    }

    pub closed spec fn spec_obu_extension_header(self) -> Option<OBUExtensionHeader> {
        self.obu_extension_header
    }

    pub open spec fn wf(self) -> bool {
        match self.spec_obu_extension_header() {
            Some(e) => e.wf(),
            None => true,
        }
    }

    pub fn new(
        obu_type: OBUType,
        obu_size: Option<u32>,
        obu_extension_header: Option<OBUExtensionHeader>,
    ) -> (h: Self)
        ensures
            h.spec_obu_type() == obu_type,
            h.spec_obu_size() == obu_size,
            h.spec_obu_extension_header() == obu_extension_header,
    {
        Self { obu_type, obu_size, obu_extension_header }
    }

    /// The wire bytes of this header; the presence bits match the presence
    /// of the extension header and of the size field.
    pub open spec fn spec_header_bytes(self) -> Seq<u8> {
        spec_obu_header_wire(
            self.spec_obu_type().spec_id(),
            match self.spec_obu_extension_header() {
                Some(e) => Some((e.spec_temporal_id(), e.spec_spatial_id())),
                None => None,
            },
            self.spec_obu_size(),
        )
    }

    pub(crate) fn as_header_bytes(&self) -> (b: Vec<u8>)
        requires
            self.wf(),
        ensures
            b@ == self.spec_header_bytes(),
    {
        let mut b: Vec<u8> = Vec::new();
        let mut b0 = self.obu_type.id() * 8;
        if self.obu_extension_header.is_some() {
            b0 = b0 + 4;
        }
        if self.obu_size.is_some() {
            b0 = b0 + 2;
        }
        b.push(b0);
        match self.obu_extension_header {
            Some(e) => b.push(e.temporal_id * 32 + e.spatial_id * 8),
            None => (),
        }
        match self.obu_size {
            Some(s) => write_leb128(&mut b, s),
            None => (),
        }
        assert(b@ =~= self.spec_header_bytes());
        b
    }
}

/// A Metadata OBU that carries one WebVTT message: the OBU header with
/// `obu_has_size_field` set, the LEB128-coded metadata type
/// `UnregisteredPrivate6`, the message body, and the trailing byte `0x80`
/// that `obu_size` also counts.
pub open spec fn spec_metadata_obu_frame(message_body: Seq<u8>) -> Seq<u8> {
    let inner = spec_leb128(6u32) + message_body;
    spec_obu_header_wire(5u8, None, Some((inner.len() + 1) as u32)) + inner + seq![0x80u8]
}

/// The layout of a WebVTT Metadata OBU: the header byte is `0x2A`
/// (type Metadata, no extension, sized), and the encoded `obu_size` counts
/// exactly the bytes after the header — the metadata type byte, the message
/// body, and the trailing byte.
pub proof fn lemma_metadata_obu_layout(message_body: Seq<u8>)
    requires
        message_body.len() + 2 <= 0xffffffff,
    ensures
        ({
            let size = (message_body.len() + 2) as u32;
            &&& spec_metadata_obu_frame(message_body) == seq![0x2au8] + spec_leb128(size)
                + seq![6u8] + message_body + seq![0x80u8]
            &&& spec_leb128_decode(spec_leb128(size)) == size
            &&& size == seq![6u8].len() + message_body.len() + seq![0x80u8].len()
        }),
{
    let size = (message_body.len() + 2) as u32;
    lemma_leb128_round_trip(size);
    assert(spec_leb128(6u32) =~= seq![6u8]);
    assert((spec_leb128(6u32) + message_body).len() + 1 == message_body.len() + 2);
    assert(spec_metadata_obu_frame(message_body) =~= seq![0x2au8] + spec_leb128(size) + seq![6u8]
        + message_body + seq![0x80u8]);
}

/// In a Metadata OBU that carries a WebVTT header or payload body, the 16
/// bytes immediately following the metadata-type LEB128 are the payload
/// GUID.
pub proof fn lemma_metadata_obu_guid_position(
    max_latency_to_video_ms: u64,
    send_frequency_hz: u8,
    subtitle_tracks: Seq<WebvttTrack>,
    track_index: u8,
    chunk_number: u64,
    chunk_version: u8,
    video_offset_ms: u16,
    payload: Seq<u8>,
)
    ensures
        ({
            let body = spec_webvtt_header_body(
                max_latency_to_video_ms,
                send_frequency_hz,
                subtitle_tracks,
            );
            let size = (body.len() + 2) as u32;
            let start = (seq![0x2au8] + spec_leb128(size) + seq![6u8]).len() as int;
            body.len() + 2 <= 0xffffffff ==> spec_metadata_obu_frame(body).subrange(
                start,
                start + 16,
            ) == crate::webvtt::spec_payload_guid()
        }),
        ({
            let body = spec_webvtt_payload_body(
                track_index,
                chunk_number,
                chunk_version,
                video_offset_ms,
                payload,
            );
            let size = (body.len() + 2) as u32;
            let start = (seq![0x2au8] + spec_leb128(size) + seq![6u8]).len() as int;
            body.len() + 2 <= 0xffffffff ==> spec_metadata_obu_frame(body).subrange(
                start,
                start + 16,
            ) == crate::webvtt::spec_payload_guid()
        }),
{
    crate::webvtt::lemma_bodies_begin_with_payload_guid(
        max_latency_to_video_ms,
        send_frequency_hz,
        subtitle_tracks,
        track_index,
        chunk_number,
        chunk_version,
        video_offset_ms,
        payload,
    );
    let hb = spec_webvtt_header_body(max_latency_to_video_ms, send_frequency_hz, subtitle_tracks);
    if hb.len() + 2 <= 0xffffffff {
        lemma_metadata_obu_layout(hb);
        let start = (seq![0x2au8] + spec_leb128((hb.len() + 2) as u32) + seq![6u8]).len() as int;
        assert(spec_metadata_obu_frame(hb).subrange(start, start + 16) =~= hb.take(16));
    }
    let pb = spec_webvtt_payload_body(
        track_index,
        chunk_number,
        chunk_version,
        video_offset_ms,
        payload,
    );
    if pb.len() + 2 <= 0xffffffff {
        lemma_metadata_obu_layout(pb);
        let start = (seq![0x2au8] + spec_leb128((pb.len() + 2) as u32) + seq![6u8]).len() as int;
        assert(spec_metadata_obu_frame(pb).subrange(start, start + 16) =~= pb.take(16));
    }
}

/// Writes WebVTT messages as AV1 Metadata OBUs.
pub struct OBUWriter {
    inner: Vec<u8>,
}

impl OBUWriter {
    /// The bytes written to the sink so far.
    pub closed spec fn spec_sink(self) -> Seq<u8> {
        self.inner@
    }

    pub fn new(inner: Vec<u8>) -> (w: Self)
        ensures
            w.spec_sink() == inner@,
    {
        Self { inner }
    }

    /// Hands the sink back.
    pub fn into_sink(self) -> (sink: Vec<u8>)
        ensures
            sink@ == self.spec_sink(),
    {
        self.inner
    }

    fn write_obu_header(&mut self, obu_header: OBUHeaderWithSize)
        requires
            obu_header.wf(),
        ensures
            final(self).spec_sink() == old(self).spec_sink() + obu_header.spec_header_bytes(),
    {
        let mut header_bytes = obu_header.as_header_bytes();
        self.inner.append(&mut header_bytes);
    }

    fn finish_payload(&mut self)
        ensures
            final(self).spec_sink() == old(self).spec_sink() + seq![0x80u8],
    {
        self.inner.push(0x80);
        assert(self.inner@ =~= old(self).spec_sink() + seq![0x80u8]);
    }

    fn write_metadata_obu(&mut self, message_body: Vec<u8>)
        requires
            message_body@.len() + 2 <= 0xffffffff,
        ensures
            final(self).spec_sink() == old(self).spec_sink() + spec_metadata_obu_frame(
                message_body@,
            ),
    {
        let ghost body_bytes = message_body@;
        let mut inner: Vec<u8> = Vec::new();
        write_leb128(&mut inner, MetadataType::UnregisteredPrivate6.id());
        let mut body = message_body;
        inner.append(&mut body);
        proof {
            assert(spec_leb128(6u32) =~= seq![6u8]);
        }
        let size = inner.len() as u32 + 1;
        let header = OBUHeaderWithSize::new(OBUType::Metadata, Some(size), None);
        self.write_obu_header(header);
        self.inner.append(&mut inner);
        self.finish_payload();
        assert(self.spec_sink() =~= old(self).spec_sink() + spec_metadata_obu_frame(body_bytes));
    }

    /// Writes a WebVTT header message as one Metadata OBU.
    pub fn write_webvtt_header(
        &mut self,
        max_latency_to_video_ms: u64,
        send_frequency_hz: u8,
        subtitle_tracks: &Vec<WebvttTrack>,
    ) -> (r: Result<(), WebvttWriteError>)
        requires
            1 <= send_frequency_hz,
        ensures
            r is Ok <==> spec_header_inputs_valid(subtitle_tracks@),
            r is Ok ==> final(self).spec_sink() == old(self).spec_sink() + spec_metadata_obu_frame(
                spec_webvtt_header_body(max_latency_to_video_ms, send_frequency_hz, subtitle_tracks@),
            ),
            r is Err ==> final(self).spec_sink() == old(self).spec_sink() && r == Err::<(), _>(
                spec_header_reject(subtitle_tracks@),
            ),
    {
        match webvtt_header_body(max_latency_to_video_ms, send_frequency_hz, subtitle_tracks) {
            Err(e) => Err(e),
            Ok(body) => {
                proof {
                    crate::webvtt::lemma_header_body_len_bound(
                        max_latency_to_video_ms,
                        send_frequency_hz,
                        subtitle_tracks@,
                    );
                }
                self.write_metadata_obu(body);
                Ok(())
            },
        }
    }

    /// Writes a WebVTT payload message as one Metadata OBU.  The payload
    /// must leave room for the `obu_size` field, a `u32`.
    pub fn write_webvtt_payload(
        &mut self,
        track_index: u8,
        chunk_number: u64,
        chunk_version: u8,
        video_offset_ms: u64,
        webvtt_payload: &str,
    ) -> (r: Result<(), WebvttWriteError>)
        requires
            encode_utf8(webvtt_payload@).len() + 32 <= 0xffffffff,
        ensures
            r is Ok <==> spec_payload_inputs_accepted(video_offset_ms, webvtt_payload@),
            r is Ok ==> final(self).spec_sink() == old(self).spec_sink() + spec_metadata_obu_frame(
                spec_webvtt_payload_body(
                    track_index,
                    chunk_number,
                    chunk_version,
                    video_offset_ms as u16,
                    encode_utf8(webvtt_payload@),
                ),
            ),
            r is Err ==> final(self).spec_sink() == old(self).spec_sink() && r == Err::<(), _>(
                spec_payload_reject(video_offset_ms, webvtt_payload@),
            ),
    {
        match webvtt_payload_body(
            track_index,
            chunk_number,
            chunk_version,
            video_offset_ms,
            webvtt_payload,
        ) {
            Err(e) => Err(e),
            Ok(body) => {
                self.write_metadata_obu(body);
                Ok(())
            },
        }
    }
}

} // verus!

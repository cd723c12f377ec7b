//! H.265 (HEVC) NAL unit headers and the writer chain that embeds WebVTT
//! SEI messages into an H.265 byte stream.

pub mod annex_b;

use crate::h26x::{rbsp_escape, spec_sei_message, NalUnitWriter, RbspWriter};
use crate::webvtt::{
    spec_header_inputs_valid, spec_header_reject, spec_payload_inputs_accepted,
    spec_payload_reject, spec_webvtt_header_body, spec_webvtt_payload_body, WebvttTrack,
    WebvttWriteError, USER_DATA_UNREGISTERED,
};
use vstd::prelude::*;
use vstd::utf8::encode_utf8;

verus! {

/// H.265 NAL unit types, in the order of their six-bit ids.
#[derive(Debug, Clone, Copy)]
pub enum UnitType {
    TrailN,
    TrailR,
    TsaN,
    TsaR,
    StsaN,
    StsaR,
    RadlN,
    RadlR,
    RaslN,
    RaslR,
    RsvVclN10,
    RsvVclN12,
    RsvVclN14,
    RsvVclR11,
    RsvVclR13,
    RsvVclR15,
    BlaWLp,
    BlaWRadl,
    BlaNLp,
    IdrWRadl,
    IdrNLp,
    CraNut,
    RsvIrapVcl22,
    RsvIrapVcl23,
    RsvVcl24,
    RsvVcl25,
    RsvVcl26,
    RsvVcl27,
    RsvVcl28,
    RsvVcl29,
    RsvVcl30,
    RsvVcl31,
    VpsNut,
    SpsNut,
    PpsNut,
    AudNut,
    EosNut,
    EobNut,
    FdNut,
    PrefixSeiNut,
    SuffixSeiNut,
    RsvNvcl41,
    RsvNvcl42,
    RsvNvcl43,
    RsvNvcl44,
    RsvNvcl45,
    RsvNvcl46,
    RsvNvcl47,
    Unspec48,
    Unspec49,
    Unspec50,
    Unspec51,
    Unspec52,
    Unspec53,
    Unspec54,
    Unspec55,
    Unspec56,
    Unspec57,
    Unspec58,
    Unspec59,
    Unspec60,
    Unspec61,
    Unspec62,
    Unspec63,
}

impl UnitType {
    /// The six-bit `nal_unit_type` value of this unit type.
    pub open spec fn spec_id(self) -> u8 {
        match self {
            UnitType::TrailN => 0,
            UnitType::TrailR => 1,
            UnitType::TsaN => 2,
            UnitType::TsaR => 3,
            UnitType::StsaN => 4,
            UnitType::StsaR => 5,
            UnitType::RadlN => 6,
            UnitType::RadlR => 7,
            UnitType::RaslN => 8,
            UnitType::RaslR => 9,
            UnitType::RsvVclN10 => 10,
            UnitType::RsvVclN12 => 11,
            UnitType::RsvVclN14 => 12,
            UnitType::RsvVclR11 => 13,
            UnitType::RsvVclR13 => 14,
            UnitType::RsvVclR15 => 15,
            UnitType::BlaWLp => 16,
            UnitType::BlaWRadl => 17,
            UnitType::BlaNLp => 18,
            UnitType::IdrWRadl => 19,
            UnitType::IdrNLp => 20,
            UnitType::CraNut => 21,
            UnitType::RsvIrapVcl22 => 22,
            UnitType::RsvIrapVcl23 => 23,
            UnitType::RsvVcl24 => 24,
            UnitType::RsvVcl25 => 25,
            UnitType::RsvVcl26 => 26,
            UnitType::RsvVcl27 => 27,
            UnitType::RsvVcl28 => 28,
            UnitType::RsvVcl29 => 29,
            UnitType::RsvVcl30 => 30,
            UnitType::RsvVcl31 => 31,
            UnitType::VpsNut => 32,
            UnitType::SpsNut => 33,
            UnitType::PpsNut => 34,
            UnitType::AudNut => 35,
            UnitType::EosNut => 36,
            UnitType::EobNut => 37,
            UnitType::FdNut => 38,
            UnitType::PrefixSeiNut => 39,
            UnitType::SuffixSeiNut => 40,
            UnitType::RsvNvcl41 => 41,
            UnitType::RsvNvcl42 => 42,
            UnitType::RsvNvcl43 => 43,
            UnitType::RsvNvcl44 => 44,
            UnitType::RsvNvcl45 => 45,
            UnitType::RsvNvcl46 => 46,
            UnitType::RsvNvcl47 => 47,
            UnitType::Unspec48 => 48,
            UnitType::Unspec49 => 49,
            UnitType::Unspec50 => 50,
            UnitType::Unspec51 => 51,
            UnitType::Unspec52 => 52,
            UnitType::Unspec53 => 53,
            UnitType::Unspec54 => 54,
            UnitType::Unspec55 => 55,
            UnitType::Unspec56 => 56,
            UnitType::Unspec57 => 57,
            UnitType::Unspec58 => 58,
            UnitType::Unspec59 => 59,
            UnitType::Unspec60 => 60,
            UnitType::Unspec61 => 61,
            UnitType::Unspec62 => 62,
            UnitType::Unspec63 => 63,
        }
    }

    /// The six-bit `nal_unit_type` value of this unit type.
    #[verifier::when_used_as_spec(spec_id)]
    pub fn id(self) -> (id: u8)
        ensures
            id == self.spec_id(),
            id < 64,
    {
        match self {
            UnitType::TrailN => 0,
            UnitType::TrailR => 1,
            UnitType::TsaN => 2,
            UnitType::TsaR => 3,
            UnitType::StsaN => 4,
            UnitType::StsaR => 5,
            UnitType::RadlN => 6,
            UnitType::RadlR => 7,
            UnitType::RaslN => 8,
            UnitType::RaslR => 9,
            UnitType::RsvVclN10 => 10,
            UnitType::RsvVclN12 => 11,
            UnitType::RsvVclN14 => 12,
            UnitType::RsvVclR11 => 13,
            UnitType::RsvVclR13 => 14,
            UnitType::RsvVclR15 => 15,
            UnitType::BlaWLp => 16,
            UnitType::BlaWRadl => 17,
            UnitType::BlaNLp => 18,
            UnitType::IdrWRadl => 19,
            UnitType::IdrNLp => 20,
            UnitType::CraNut => 21,
            UnitType::RsvIrapVcl22 => 22,
            UnitType::RsvIrapVcl23 => 23,
            UnitType::RsvVcl24 => 24,
            UnitType::RsvVcl25 => 25,
            UnitType::RsvVcl26 => 26,
            UnitType::RsvVcl27 => 27,
            UnitType::RsvVcl28 => 28,
            UnitType::RsvVcl29 => 29,
            UnitType::RsvVcl30 => 30,
            UnitType::RsvVcl31 => 31,
            UnitType::VpsNut => 32,
            UnitType::SpsNut => 33,
            UnitType::PpsNut => 34,
            UnitType::AudNut => 35,
            UnitType::EosNut => 36,
            UnitType::EobNut => 37,
            UnitType::FdNut => 38,
            UnitType::PrefixSeiNut => 39,
            UnitType::SuffixSeiNut => 40,
            UnitType::RsvNvcl41 => 41,
            UnitType::RsvNvcl42 => 42,
            UnitType::RsvNvcl43 => 43,
            UnitType::RsvNvcl44 => 44,
            UnitType::RsvNvcl45 => 45,
            UnitType::RsvNvcl46 => 46,
            UnitType::RsvNvcl47 => 47,
            UnitType::Unspec48 => 48,
            UnitType::Unspec49 => 49,
            UnitType::Unspec50 => 50,
            UnitType::Unspec51 => 51,
            UnitType::Unspec52 => 52,
            UnitType::Unspec53 => 53,
            UnitType::Unspec54 => 54,
            UnitType::Unspec55 => 55,
            UnitType::Unspec56 => 56,
            UnitType::Unspec57 => 57,
            UnitType::Unspec58 => 58,
            UnitType::Unspec59 => 59,
            UnitType::Unspec60 => 60,
            UnitType::Unspec61 => 61,
            UnitType::Unspec62 => 62,
            UnitType::Unspec63 => 63,
        }
    }
}

/// A validated H.265 two-byte NAL unit header.
#[derive(Debug, Clone, Copy)]
pub struct H265NalHeader {
    nal_unit_type: UnitType,
    nuh_layer_id: u8,
    nuh_temporal_id: u8,
}

/// Rejected H.265 NAL header inputs.
#[derive(Debug, Clone, Copy, PartialEq, Eq)]
pub enum H265NalHeaderError {
    NuhLayerIdOutOfRange(u8),
    NuhTemporalIdOutOfRange(u8),
}

impl H265NalHeader {
    pub closed spec fn spec_nal_unit_type(self) -> UnitType {
        self.nal_unit_type
    }

    pub closed spec fn spec_nuh_layer_id(self) -> u8 {
        self.nuh_layer_id
    }

    pub closed spec fn spec_nuh_temporal_id(self) -> u8 {
        self.nuh_temporal_id
    }

    /// The field ranges the wire format can carry.
    pub open spec fn wf(self) -> bool {
        self.spec_nuh_layer_id() < 64 && self.spec_nuh_temporal_id() < 7
    }

    /// Validates `nuh_layer_id` (six bits) and `nuh_temporal_id` (at most 6,
    /// so that the wire field `nuh_temporal_id_plus1` fits three bits and is
    /// never zero).
    pub fn from_nal_unit_type_and_nuh_ids(
        nal_unit_type: UnitType,
        nuh_layer_id: u8,
        nuh_temporal_id: u8,
    ) -> (r: Result<Self, H265NalHeaderError>)
        ensures
            r is Ok <==> (nuh_layer_id < 64 && nuh_temporal_id < 7),
            r matches Ok(h) ==> h.wf() && h.spec_nal_unit_type() == nal_unit_type
                && h.spec_nuh_layer_id() == nuh_layer_id && h.spec_nuh_temporal_id()
                == nuh_temporal_id,
            nuh_layer_id >= 64 ==> r == Err::<Self, _>(
                H265NalHeaderError::NuhLayerIdOutOfRange(nuh_layer_id),
            ),
            nuh_layer_id < 64 && nuh_temporal_id >= 7 ==> r == Err::<Self, _>(
                H265NalHeaderError::NuhTemporalIdOutOfRange(nuh_temporal_id),
            ),
    {
        if nuh_layer_id >= 64 {
            return Err(H265NalHeaderError::NuhLayerIdOutOfRange(nuh_layer_id));
        }
        if nuh_temporal_id >= 7 {
            return Err(H265NalHeaderError::NuhTemporalIdOutOfRange(nuh_temporal_id));
        }
        Ok(Self { nal_unit_type, nuh_layer_id, nuh_temporal_id })
    }

    /// The two wire bytes: `forbidden_zero_bit` (0), six bits of
    /// `nal_unit_type`, six bits of `nuh_layer_id`, three bits of
    /// `nuh_temporal_id_plus1`.
    pub open spec fn spec_header_bytes(self) -> Seq<u8> {
        seq![
            (self.spec_nal_unit_type().spec_id() * 2 + self.spec_nuh_layer_id() / 32) as u8,
            ((self.spec_nuh_layer_id() % 32) * 8 + self.spec_nuh_temporal_id() + 1) as u8,
        ]
    }

    pub(crate) fn as_header_bytes(&self) -> (b: Vec<u8>)
        requires
            self.wf(),
        ensures
            b@ == self.spec_header_bytes(),
    {
        let id = self.nal_unit_type.id();
        let mut b: Vec<u8> = Vec::new();
        b.push(id * 2 + self.nuh_layer_id / 32);
        b.push((self.nuh_layer_id % 32) * 8 + self.nuh_temporal_id + 1);
        assert(b@ =~= self.spec_header_bytes());
        b
    }
}

/// The H.265 header bytes follow the documented bit layout: the forbidden
/// bit is zero, the fields sit in their exact bit positions, and the wire
/// carries `nuh_temporal_id + 1`, which is never zero.
pub proof fn lemma_h265_header_bit_layout(h: H265NalHeader)
    requires
        h.wf(),
    ensures
        h.spec_header_bytes().len() == 2,
        h.spec_header_bytes()[0] >> 7 == 0,
        (h.spec_header_bytes()[0] >> 1) & 0x3f == h.spec_nal_unit_type().spec_id(),
        ((h.spec_header_bytes()[0] & 1) << 5) | (h.spec_header_bytes()[1] >> 3)
            == h.spec_nuh_layer_id(),
        h.spec_header_bytes()[1] & 0x07 == h.spec_nuh_temporal_id() + 1,
        h.spec_header_bytes()[1] & 0x07 != 0,
{
    let id = h.spec_nal_unit_type().spec_id();
    let layer = h.spec_nuh_layer_id();
    let temporal = h.spec_nuh_temporal_id();
    let b0 = h.spec_header_bytes()[0];
    let b1 = h.spec_header_bytes()[1];
    assert(id < 64);
    assert(b0 == (id * 2 + layer / 32) as u8 && b1 == ((layer % 32) * 8 + temporal + 1) as u8
        && id < 64 && layer < 64 && temporal < 7 ==> b0 >> 7 == 0 && (b0 >> 1) & 0x3f == id && ((b0
        & 1) << 5) | (b1 >> 3) == layer && b1 & 0x07 == (temporal + 1) as u8 && b1 & 0x07 != 0)
        by (bit_vector);
}

/// H.265 writer chain: holds the sink before the NAL header is written.
pub struct H265NalUnitWriter(pub(crate) NalUnitWriter);

/// H.265 writer chain: writes SEI messages into the RBSP of one NAL unit.
pub struct H265RbspWriter(pub(crate) RbspWriter);

impl H265NalUnitWriter {
    /// The bytes written to the sink so far.
    pub closed spec fn spec_sink(self) -> Seq<u8> {
        self.0.spec_sink()
    }

    pub fn new(inner: Vec<u8>) -> (w: Self)
        ensures
            w.spec_sink() == inner@,
    {
        Self(NalUnitWriter::new(inner))
    }

    /// Writes the two header bytes and starts the NAL unit's RBSP.
    pub fn write_nal_header(self, nal_header: H265NalHeader) -> (w: H265RbspWriter)
        requires
            nal_header.wf(),
        ensures
            w.wf(),
            w.spec_head() == self.spec_sink() + nal_header.spec_header_bytes(),
            w.spec_rbsp() == Seq::<u8>::empty(),
    {
        let mut sink = self.0.into_sink();
        let mut header_bytes = nal_header.as_header_bytes();
        sink.append(&mut header_bytes);
        H265RbspWriter(RbspWriter::new(sink))
    }
}

impl H265RbspWriter {
    /// The sink bytes that precede this NAL unit's RBSP.
    pub closed spec fn spec_head(self) -> Seq<u8> {
        self.0.spec_head()
    }

    /// The unescaped RBSP bytes written so far.
    pub closed spec fn spec_rbsp(self) -> Seq<u8> {
        self.0.spec_rbsp()
    }

    pub closed spec fn wf(self) -> bool {
        self.0.wf()
    }

    /// Writes a WebVTT header message into this NAL unit's RBSP.
    pub fn write_webvtt_header(
        &mut self,
        max_latency_to_video_ms: u64,
        send_frequency_hz: u8,
        subtitle_tracks: &Vec<WebvttTrack>,
    ) -> (r: Result<(), WebvttWriteError>)
        requires
            old(self).wf(),
            1 <= send_frequency_hz,
        ensures
            final(self).wf(),
            final(self).spec_head() == old(self).spec_head(),
            r is Ok <==> spec_header_inputs_valid(subtitle_tracks@),
            r is Ok ==> final(self).spec_rbsp() == old(self).spec_rbsp() + spec_sei_message(
                USER_DATA_UNREGISTERED as nat,
                spec_webvtt_header_body(max_latency_to_video_ms, send_frequency_hz, subtitle_tracks@),
            ),
            r is Err ==> final(self).spec_rbsp() == old(self).spec_rbsp() && r == Err::<(), _>(
                spec_header_reject(subtitle_tracks@),
            ),
    {
        self.0.write_webvtt_header(max_latency_to_video_ms, send_frequency_hz, subtitle_tracks)
    }

    /// Writes a WebVTT payload message into this NAL unit's RBSP.
    pub fn write_webvtt_payload(
        &mut self,
        track_index: u8,
        chunk_number: u64,
        chunk_version: u8,
        video_offset_ms: u64,
        webvtt_payload: &str,
    ) -> (r: Result<(), WebvttWriteError>)
        requires
            old(self).wf(),
        ensures
            final(self).wf(),
            final(self).spec_head() == old(self).spec_head(),
            r is Ok <==> spec_payload_inputs_accepted(video_offset_ms, webvtt_payload@),
            r is Ok ==> final(self).spec_rbsp() == old(self).spec_rbsp() + spec_sei_message(
                USER_DATA_UNREGISTERED as nat,
                spec_webvtt_payload_body(
                    track_index,
                    chunk_number,
                    chunk_version,
                    video_offset_ms as u16,
                    encode_utf8(webvtt_payload@),
                ),
            ),
            r is Err ==> final(self).spec_rbsp() == old(self).spec_rbsp() && r == Err::<(), _>(
                spec_payload_reject(video_offset_ms, webvtt_payload@),
            ),
    {
        self.0.write_webvtt_payload(
            track_index,
            chunk_number,
            chunk_version,
            video_offset_ms,
            webvtt_payload,
        )
    }

    /// Ends the RBSP with the trailing-bits byte and hands the sink back.
    pub fn finish_rbsp(self) -> (sink: Vec<u8>)
        requires
            self.wf(),
        ensures
            sink@ == self.spec_head() + rbsp_escape(self.spec_rbsp() + seq![0x80u8]),
    {
        self.0.finish_rbsp()
    }
}

} // verus!

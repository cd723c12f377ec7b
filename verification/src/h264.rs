//! H.264 (AVC) NAL unit headers and the writer chain that embeds WebVTT
//! SEI messages into an H.264 byte stream.

pub mod annex_b;
pub mod avcc;

use crate::h26x::{rbsp_escape, spec_sei_message, NalUnitWriter, RbspWriter};
use crate::webvtt::{
    spec_header_inputs_valid, spec_header_reject, spec_payload_inputs_accepted,
    spec_payload_reject, spec_webvtt_header_body, spec_webvtt_payload_body, WebvttTrack,
    WebvttWriteError, USER_DATA_UNREGISTERED,
};
use vstd::prelude::*;
use vstd::utf8::encode_utf8;

verus! {

/// H.264 NAL unit types.  `Unspecified` carries the ids `0` and `24..=31`,
/// `Reserved` the ids `17`, `18`, `22` and `23`; the named variants carry
/// their table value.
#[derive(Debug, Clone, Copy, PartialEq, Eq)]
pub enum UnitType {
    Unspecified(u8),
    SliceLayerWithoutPartitioningNonIdr,
    SliceDataPartitionALayer,
    SliceDataPartitionBLayer,
    SliceDataPartitionCLayer,
    SliceLayerWithoutPartitioningIdr,
    SEI,
    SeqParameterSet,
    PicParameterSet,
    AccessUnitDelimiter,
    EndOfSeq,
    EndOfStream,
    FillerData,
    SeqParameterSetExtension,
    PrefixNALUnit,
    SubsetSeqParameterSet,
    DepthParameterSet,
    SliceLayerWithoutPartitioningAux,
    SliceExtension,
    SliceExtensionViewComponent,
    Reserved(u8),
}

impl UnitType {
    /// The five-bit `nal_unit_type` value of this unit type.
    pub open spec fn spec_id(self) -> u8 {
        match self {
            UnitType::Unspecified(v) => v,
            UnitType::SliceLayerWithoutPartitioningNonIdr => 1,
            UnitType::SliceDataPartitionALayer => 2,
            UnitType::SliceDataPartitionBLayer => 3,
            UnitType::SliceDataPartitionCLayer => 4,
            UnitType::SliceLayerWithoutPartitioningIdr => 5,
            UnitType::SEI => 6,
            UnitType::SeqParameterSet => 7,
            UnitType::PicParameterSet => 8,
            UnitType::AccessUnitDelimiter => 9,
            UnitType::EndOfSeq => 10,
            UnitType::EndOfStream => 11,
            UnitType::FillerData => 12,
            UnitType::SeqParameterSetExtension => 13,
            UnitType::PrefixNALUnit => 14,
            UnitType::SubsetSeqParameterSet => 15,
            UnitType::DepthParameterSet => 16,
            UnitType::SliceLayerWithoutPartitioningAux => 19,
            UnitType::SliceExtension => 20,
            UnitType::SliceExtensionViewComponent => 21,
            UnitType::Reserved(v) => v,
        }
    }

    /// The five-bit `nal_unit_type` value of this unit type.
    #[verifier::when_used_as_spec(spec_id)]
    pub fn id(self) -> (id: u8)
        ensures
            id == self.spec_id(),
    {
        match self {
            UnitType::Unspecified(v) => v,
            UnitType::SliceLayerWithoutPartitioningNonIdr => 1,
            UnitType::SliceDataPartitionALayer => 2,
            UnitType::SliceDataPartitionBLayer => 3,
            UnitType::SliceDataPartitionCLayer => 4,
            UnitType::SliceLayerWithoutPartitioningIdr => 5,
            UnitType::SEI => 6,
            UnitType::SeqParameterSet => 7,
            UnitType::PicParameterSet => 8,
            UnitType::AccessUnitDelimiter => 9,
            UnitType::EndOfSeq => 10,
            UnitType::EndOfStream => 11,
            UnitType::FillerData => 12,
            UnitType::SeqParameterSetExtension => 13,
            UnitType::PrefixNALUnit => 14,
            UnitType::SubsetSeqParameterSet => 15,
            UnitType::DepthParameterSet => 16,
            UnitType::SliceLayerWithoutPartitioningAux => 19,
            UnitType::SliceExtension => 20,
            UnitType::SliceExtensionViewComponent => 21,
            UnitType::Reserved(v) => v,
        }
    }
}

/// A validated H.264 one-byte NAL unit header.
#[derive(Debug, Clone, Copy)]
pub struct H264NalHeader {
    nal_unit_type: UnitType,
    nal_ref_idc: u8,
}

/// Rejected H.264 NAL header inputs.
#[derive(Debug, Clone, Copy, PartialEq, Eq)]
pub enum H264NalHeaderError {
    NalRefIdcOutOfRange(u8),
    InvalidNalRefIdcForNalUnitType { nal_unit_type: UnitType, nal_ref_idc: u8 },
    NalUnitTypeOutOfRange(UnitType),
}

/// The cross-constraints between `nal_unit_type` and `nal_ref_idc`: SEI,
/// access unit delimiter, end of sequence, end of stream and filler data
/// demand a zero `nal_ref_idc`; an IDR slice demands a nonzero one.
pub open spec fn spec_ref_idc_ok_for_type(id: u8, nal_ref_idc: u8) -> bool {
    &&& (id == 6 || id == 9 || id == 10 || id == 11 || id == 12) ==> nal_ref_idc == 0
    &&& id == 5 ==> nal_ref_idc != 0
}

impl H264NalHeader {
    pub closed spec fn spec_nal_unit_type(self) -> UnitType {
        self.nal_unit_type
    }

    pub closed spec fn spec_nal_ref_idc(self) -> u8 {
        self.nal_ref_idc
    }

    /// The combinations the wire format and the H.264 table allow.
    pub open spec fn wf(self) -> bool {
        &&& self.spec_nal_ref_idc() < 4
        &&& 1 <= self.spec_nal_unit_type().spec_id() < 32
        &&& spec_ref_idc_ok_for_type(self.spec_nal_unit_type().spec_id(), self.spec_nal_ref_idc())
    }

    /// Validates `nal_ref_idc` (two bits), the `nal_unit_type` id range
    /// (`1..=31`), and the cross-constraints between the two.
    pub fn from_nal_unit_type_and_nal_ref_idc(nal_unit_type: UnitType, nal_ref_idc: u8) -> (r:
        Result<Self, H264NalHeaderError>)
        ensures
            r is Ok <==> (nal_ref_idc < 4 && 1 <= nal_unit_type.spec_id() < 32
                && spec_ref_idc_ok_for_type(nal_unit_type.spec_id(), nal_ref_idc)),
            r matches Ok(h) ==> h.wf() && h.spec_nal_unit_type() == nal_unit_type
                && h.spec_nal_ref_idc() == nal_ref_idc,
            nal_ref_idc >= 4 ==> r == Err::<Self, _>(
                H264NalHeaderError::NalRefIdcOutOfRange(nal_ref_idc),
            ),
            nal_ref_idc < 4 && (nal_unit_type.spec_id() == 0 || nal_unit_type.spec_id() >= 32)
                ==> r == Err::<Self, _>(H264NalHeaderError::NalUnitTypeOutOfRange(nal_unit_type)),
            nal_ref_idc < 4 && 1 <= nal_unit_type.spec_id() < 32 && !spec_ref_idc_ok_for_type(
                nal_unit_type.spec_id(),
                nal_ref_idc,
            ) ==> r == Err::<Self, _>(
                H264NalHeaderError::InvalidNalRefIdcForNalUnitType { nal_unit_type, nal_ref_idc },
            ),
    {
        if nal_ref_idc >= 4 {
            return Err(H264NalHeaderError::NalRefIdcOutOfRange(nal_ref_idc));
        }
        let id = nal_unit_type.id();
        if id == 0 || id >= 32 {
            Err(H264NalHeaderError::NalUnitTypeOutOfRange(nal_unit_type))
        } else if id == 6 || id == 9 || id == 10 || id == 11 || id == 12 {
            if nal_ref_idc == 0 {
                Ok(Self { nal_unit_type, nal_ref_idc })
            } else {
                Err(H264NalHeaderError::InvalidNalRefIdcForNalUnitType {
                    nal_unit_type,
                    nal_ref_idc,
                })
            }
        } else if id == 5 {
            if nal_ref_idc != 0 {
                Ok(Self { nal_unit_type, nal_ref_idc })
            } else {
                Err(H264NalHeaderError::InvalidNalRefIdcForNalUnitType {
                    nal_unit_type,
                    nal_ref_idc,
                })
            }
        } else {
            Ok(Self { nal_unit_type, nal_ref_idc })
        }
    }

    /// The one wire byte: `forbidden_zero_bit` (0), two bits of
    /// `nal_ref_idc`, five bits of `nal_unit_type`.
    pub open spec fn spec_header_bytes(self) -> Seq<u8> {
        seq![(self.spec_nal_ref_idc() * 32 + self.spec_nal_unit_type().spec_id()) as u8]
    }

    pub(crate) fn as_header_bytes(&self) -> (b: Vec<u8>)
        requires
            self.wf(),
        ensures
            b@ == self.spec_header_bytes(),
    {
        let mut b: Vec<u8> = Vec::new();
        b.push(self.nal_ref_idc * 32 + self.nal_unit_type.id());
        assert(b@ =~= self.spec_header_bytes());
        b
    }
}

/// The H.264 header byte follows the documented bit layout: the forbidden
/// bit is zero and the two fields sit in their exact bit positions.
pub proof fn lemma_h264_header_bit_layout(h: H264NalHeader)
    requires
        h.wf(),
    ensures
        h.spec_header_bytes().len() == 1,
        h.spec_header_bytes()[0] >> 7 == 0,
        (h.spec_header_bytes()[0] >> 5) & 0x03 == h.spec_nal_ref_idc(),
        h.spec_header_bytes()[0] & 0x1f == h.spec_nal_unit_type().spec_id(),
{
    let id = h.spec_nal_unit_type().spec_id();
    let ref_idc = h.spec_nal_ref_idc();
    let b0 = h.spec_header_bytes()[0];
    assert(b0 == (ref_idc * 32 + id) as u8 && ref_idc < 4 && id < 32 ==> b0 >> 7 == 0 && (b0 >> 5)
        & 0x03 == ref_idc && b0 & 0x1f == id) by (bit_vector);
}

/// H.264 writer chain: holds the sink before the NAL header is written.
pub struct H264NalUnitWriter(pub(crate) NalUnitWriter);

/// H.264 writer chain: writes SEI messages into the RBSP of one NAL unit.
pub struct H264RbspWriter(pub(crate) RbspWriter);

impl H264NalUnitWriter {
    /// The bytes written to the sink so far.
    pub closed spec fn spec_sink(self) -> Seq<u8> {
        self.0.spec_sink()
    }

    pub fn new(inner: Vec<u8>) -> (w: Self)
        ensures
            w.spec_sink() == inner@,
    {
        Self(NalUnitWriter::new(inner))
    }

    /// Writes the header byte and starts the NAL unit's RBSP.
    pub fn write_nal_header(self, nal_header: H264NalHeader) -> (w: H264RbspWriter)
        requires
            nal_header.wf(),
        ensures
            w.wf(),
            w.spec_head() == self.spec_sink() + nal_header.spec_header_bytes(),
            w.spec_rbsp() == Seq::<u8>::empty(),
    {
        let mut sink = self.0.into_sink();
        let mut header_bytes = nal_header.as_header_bytes();
        sink.append(&mut header_bytes);
        H264RbspWriter(RbspWriter::new(sink))
    }
}

impl H264RbspWriter {
    /// The sink bytes that precede this NAL unit's RBSP.
    pub closed spec fn spec_head(self) -> Seq<u8> {
        self.0.spec_head()
    }

    /// The unescaped RBSP bytes written so far.
    pub closed spec fn spec_rbsp(self) -> Seq<u8> {
        self.0.spec_rbsp()
    }

    pub closed spec fn wf(self) -> bool {
        self.0.wf()
    }

    /// Writes a WebVTT header message into this NAL unit's RBSP.
    pub fn write_webvtt_header(
        &mut self,
        max_latency_to_video_ms: u64,
        send_frequency_hz: u8,
        subtitle_tracks: &Vec<WebvttTrack>,
    ) -> (r: Result<(), WebvttWriteError>)
        requires
            old(self).wf(),
            1 <= send_frequency_hz,
        ensures
            final(self).wf(),
            final(self).spec_head() == old(self).spec_head(),
            r is Ok <==> spec_header_inputs_valid(subtitle_tracks@),
            r is Ok ==> final(self).spec_rbsp() == old(self).spec_rbsp() + spec_sei_message(
                USER_DATA_UNREGISTERED as nat,
                spec_webvtt_header_body(max_latency_to_video_ms, send_frequency_hz, subtitle_tracks@),
            ),
            r is Err ==> final(self).spec_rbsp() == old(self).spec_rbsp() && r == Err::<(), _>(
                spec_header_reject(subtitle_tracks@),
            ),
    {
        self.0.write_webvtt_header(max_latency_to_video_ms, send_frequency_hz, subtitle_tracks)
    }

    /// Writes a WebVTT payload message into this NAL unit's RBSP.
    pub fn write_webvtt_payload(
        &mut self,
        track_index: u8,
        chunk_number: u64,
        chunk_version: u8,
        video_offset_ms: u64,
        webvtt_payload: &str,
    ) -> (r: Result<(), WebvttWriteError>)
        requires
            old(self).wf(),
        ensures
            final(self).wf(),
            final(self).spec_head() == old(self).spec_head(),
            r is Ok <==> spec_payload_inputs_accepted(video_offset_ms, webvtt_payload@),
            r is Ok ==> final(self).spec_rbsp() == old(self).spec_rbsp() + spec_sei_message(
                USER_DATA_UNREGISTERED as nat,
                spec_webvtt_payload_body(
                    track_index,
                    chunk_number,
                    chunk_version,
                    video_offset_ms as u16,
                    encode_utf8(webvtt_payload@),
                ),
            ),
            r is Err ==> final(self).spec_rbsp() == old(self).spec_rbsp() && r == Err::<(), _>(
                spec_payload_reject(video_offset_ms, webvtt_payload@),
            ),
    {
        self.0.write_webvtt_payload(
            track_index,
            chunk_number,
            chunk_version,
            video_offset_ms,
            webvtt_payload,
        )
    }

    /// Ends the RBSP with the trailing-bits byte and hands the sink back.
    pub fn finish_rbsp(self) -> (sink: Vec<u8>)
        requires
            self.wf(),
        ensures
            sink@ == self.spec_head() + rbsp_escape(self.spec_rbsp() + seq![0x80u8]),
    {
        self.0.finish_rbsp()
    }
}

} // verus!

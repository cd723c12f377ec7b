//! Annex-B framed H.264 writer: start-code framing around H.264 NAL units
//! carrying WebVTT SEI messages.

use crate::h264::H264NalHeader;
use crate::h26x::annex_b::{
    spec_start_code, AnnexBNalUnitWriter as AnnexBNalUnitWriterImpl,
    AnnexBRbspWriter as AnnexBRbspWriterImpl, AnnexBWriter as AnnexBWriterImpl,
};
use crate::h26x::{rbsp_escape, spec_sei_message};
use crate::webvtt::{
    spec_header_inputs_valid, spec_header_reject, spec_payload_inputs_accepted,
    spec_payload_reject, spec_webvtt_header_body, spec_webvtt_payload_body, WebvttTrack,
    WebvttWriteError, USER_DATA_UNREGISTERED,
};
use vstd::prelude::*;
use vstd::utf8::encode_utf8;

verus! {

/// Annex-B framed H.264 stream between NAL units.
pub struct AnnexBWriter(AnnexBWriterImpl);

impl AnnexBWriter {
    /// The bytes written to the sink so far.
    pub closed spec fn spec_sink(self) -> Seq<u8> {
        self.0.spec_sink()
    }

    /// Whether the stream's single leading zero byte has been emitted.
    pub closed spec fn spec_leading_zero_written(self) -> bool {
        self.0.spec_leading_zero_written()
    }

    pub fn new(inner: Vec<u8>) -> (w: Self)
        ensures
            w.spec_sink() == inner@,
            !w.spec_leading_zero_written(),
    {
        Self(AnnexBWriterImpl::new(inner))
    }

    /// Hands the sink back.
    pub fn into_sink(self) -> (sink: Vec<u8>)
        ensures
            sink@ == self.spec_sink(),
    {
        self.0.into_sink()
    }

    /// Emits the leading zero byte (first time only) and the start code.
    pub fn start_write_nal_unit(self) -> (w: AnnexBNalUnitWriter)
        ensures
            w.spec_sink() == self.spec_sink() + spec_start_code(self.spec_leading_zero_written()),
            w.spec_leading_zero_written(),
    {
        AnnexBNalUnitWriter(self.0.start_write_nal_unit())
    }
}

/// Annex-B framed H.264 stream after the start code, before the NAL header.
pub struct AnnexBNalUnitWriter(AnnexBNalUnitWriterImpl);

impl AnnexBNalUnitWriter {
    /// The bytes written to the sink so far.
    pub closed spec fn spec_sink(self) -> Seq<u8> {
        self.0.spec_sink()
    }

    /// Whether the stream's single leading zero byte has been emitted.
    pub closed spec fn spec_leading_zero_written(self) -> bool {
        self.0.spec_leading_zero_written()
    }

    /// Writes the H.264 header byte and starts the NAL unit's RBSP.
    pub fn write_nal_header(self, nal_header: H264NalHeader) -> (w: AnnexBRbspWriter)
        requires
            nal_header.wf(),
        ensures
            w.wf(),
            w.spec_head() == self.spec_sink() + nal_header.spec_header_bytes(),
            w.spec_rbsp() == Seq::<u8>::empty(),
            w.spec_leading_zero_written() == self.spec_leading_zero_written(),
    {
        let header_bytes = nal_header.as_header_bytes();
        AnnexBRbspWriter(self.0.write_nal_header(header_bytes.as_slice()))
    }
}

/// Annex-B framed H.264 stream while a NAL unit's RBSP is being written.
pub struct AnnexBRbspWriter(AnnexBRbspWriterImpl);

impl AnnexBRbspWriter {
    /// The sink bytes that precede this NAL unit's RBSP.
    pub closed spec fn spec_head(self) -> Seq<u8> {
        self.0.spec_head()
    }

    /// The unescaped RBSP bytes written so far.
    pub closed spec fn spec_rbsp(self) -> Seq<u8> {
        self.0.spec_rbsp()
    }

    /// Whether the stream's single leading zero byte has been emitted.
    pub closed spec fn spec_leading_zero_written(self) -> bool {
        self.0.spec_leading_zero_written()
    }

    pub closed spec fn wf(self) -> bool {
        self.0.wf()
    }

    /// Writes a WebVTT header message into this NAL unit's RBSP.
    pub fn write_webvtt_header(
        &mut self,
        max_latency_to_video_ms: u64,
        send_frequency_hz: u8,
        subtitle_tracks: &Vec<WebvttTrack>,
    ) -> (r: Result<(), WebvttWriteError>)
        requires
            old(self).wf(),
            1 <= send_frequency_hz,
        ensures
            final(self).wf(),
            final(self).spec_head() == old(self).spec_head(),
            final(self).spec_leading_zero_written() == old(self).spec_leading_zero_written(),
            r is Ok <==> spec_header_inputs_valid(subtitle_tracks@),
            r is Ok ==> final(self).spec_rbsp() == old(self).spec_rbsp() + spec_sei_message(
                USER_DATA_UNREGISTERED as nat,
                spec_webvtt_header_body(max_latency_to_video_ms, send_frequency_hz, subtitle_tracks@),
            ),
            r is Err ==> final(self).spec_rbsp() == old(self).spec_rbsp() && r == Err::<(), _>(
                spec_header_reject(subtitle_tracks@),
            ),
    {
        self.0.write_webvtt_header(max_latency_to_video_ms, send_frequency_hz, subtitle_tracks)
    }

    /// Writes a WebVTT payload message into this NAL unit's RBSP.
    pub fn write_webvtt_payload(
        &mut self,
        track_index: u8,
        chunk_number: u64,
        chunk_version: u8,
        video_offset_ms: u64,
        webvtt_payload: &str,
    ) -> (r: Result<(), WebvttWriteError>)
        requires
            old(self).wf(),
        ensures
            final(self).wf(),
            final(self).spec_head() == old(self).spec_head(),
            final(self).spec_leading_zero_written() == old(self).spec_leading_zero_written(),
            r is Ok <==> spec_payload_inputs_accepted(video_offset_ms, webvtt_payload@),
            r is Ok ==> final(self).spec_rbsp() == old(self).spec_rbsp() + spec_sei_message(
                USER_DATA_UNREGISTERED as nat,
                spec_webvtt_payload_body(
                    track_index,
                    chunk_number,
                    chunk_version,
                    video_offset_ms as u16,
                    encode_utf8(webvtt_payload@),
                ),
            ),
            r is Err ==> final(self).spec_rbsp() == old(self).spec_rbsp() && r == Err::<(), _>(
                spec_payload_reject(video_offset_ms, webvtt_payload@),
            ),
    {
        self.0.write_webvtt_payload(
            track_index,
            chunk_number,
            chunk_version,
            video_offset_ms,
            webvtt_payload,
        )
    }

    /// Ends the RBSP with the trailing-bits byte and returns the framer for
    /// the next NAL unit.
    pub fn finish_rbsp(self) -> (w: AnnexBWriter)
        requires
            self.wf(),
        ensures
            w.spec_sink() == self.spec_head() + rbsp_escape(self.spec_rbsp() + seq![0x80u8]),
            w.spec_leading_zero_written() == self.spec_leading_zero_written(),
    {
        AnnexBWriter(self.0.finish_rbsp())
    }
}

} // verus!

//! Annex-B framing shared by the H.264 and H.265 writers: a single
//! `leading_zero_8bits` byte at the start of the stream, then the three-byte
//! start code `00 00 01` before every NAL unit.

use crate::h26x::{rbsp_escape, spec_sei_message, NalUnitWriter, RbspWriter};
use crate::webvtt::{
    spec_header_inputs_valid, spec_header_reject, spec_payload_inputs_accepted,
    spec_payload_reject, spec_webvtt_header_body, spec_webvtt_payload_body, WebvttTrack,
    WebvttWriteError, USER_DATA_UNREGISTERED,
};
use vstd::prelude::*;
use vstd::utf8::encode_utf8;

verus! {

/// The bytes that precede a NAL unit in Annex-B framing: the one-shot
/// leading zero byte, then the start code.
pub open spec fn spec_start_code(leading_zero_already_written: bool) -> Seq<u8> {
    if leading_zero_already_written {
        seq![0u8, 0u8, 1u8]
    } else {
        seq![0u8, 0u8, 0u8, 1u8]
    }
}

/// Annex-B framer between NAL units.
pub struct AnnexBWriter {
    leading_zero_8bits_written: bool,
    inner: Vec<u8>,
}

impl AnnexBWriter {
    /// The bytes written to the sink so far.
    pub closed spec fn spec_sink(self) -> Seq<u8> {
        self.inner@
    }

    /// Whether the stream's single leading zero byte has been emitted.
    pub closed spec fn spec_leading_zero_written(self) -> bool {
        self.leading_zero_8bits_written
    }

    pub fn new(inner: Vec<u8>) -> (w: Self)
        ensures
            w.spec_sink() == inner@,
            !w.spec_leading_zero_written(),
    {
        Self { leading_zero_8bits_written: false, inner }
    }

    /// Hands the sink back.
    pub fn into_sink(self) -> (sink: Vec<u8>)
        ensures
            sink@ == self.spec_sink(),
    {
        self.inner
    }

    /// Emits the leading zero byte (first time only) and the start code.
    pub fn start_write_nal_unit(self) -> (w: AnnexBNalUnitWriter)
        ensures
            w.spec_sink() == self.spec_sink() + spec_start_code(self.spec_leading_zero_written()),
            w.spec_leading_zero_written(),
    {
        let mut inner = self.inner;
        if !self.leading_zero_8bits_written {
            inner.push(0);
        }
        inner.push(0);
        inner.push(0);
        inner.push(1);
        let w = AnnexBNalUnitWriter {
            leading_zero_8bits_written: true,
            inner: NalUnitWriter::new(inner),
        };
        proof {
            assert(w.spec_sink() =~= self.spec_sink() + spec_start_code(
                self.spec_leading_zero_written(),
            ));
        }
        w
    }
}

/// Annex-B framer after the start code, before the NAL header.
pub struct AnnexBNalUnitWriter {
    leading_zero_8bits_written: bool,
    inner: NalUnitWriter,
}

impl AnnexBNalUnitWriter {
    /// The bytes written to the sink so far.
    pub closed spec fn spec_sink(self) -> Seq<u8> {
        self.inner.spec_sink()
    }

    /// Whether the stream's single leading zero byte has been emitted.
    pub closed spec fn spec_leading_zero_written(self) -> bool {
        self.leading_zero_8bits_written
    }

    /// Appends the already-encoded NAL header bytes and starts the RBSP.
    pub fn write_nal_header(self, header_bytes: &[u8]) -> (w: AnnexBRbspWriter)
        ensures
            w.wf(),
            w.spec_head() == self.spec_sink() + header_bytes@,
            w.spec_rbsp() == Seq::<u8>::empty(),
            w.spec_leading_zero_written() == self.spec_leading_zero_written(),
    {
        let mut sink = self.inner.into_sink();
        crate::bytes::write_bytes(&mut sink, header_bytes);
        AnnexBRbspWriter {
            leading_zero_8bits_written: self.leading_zero_8bits_written,
            inner: RbspWriter::new(sink),
        }
    }
}

/// Annex-B framer while a NAL unit's RBSP is being written.
pub struct AnnexBRbspWriter {
    leading_zero_8bits_written: bool,
    inner: RbspWriter,
}

impl AnnexBRbspWriter {
    /// The sink bytes that precede this NAL unit's RBSP.
    pub closed spec fn spec_head(self) -> Seq<u8> {
        self.inner.spec_head()
    }

    /// The unescaped RBSP bytes written so far.
    pub closed spec fn spec_rbsp(self) -> Seq<u8> {
        self.inner.spec_rbsp()
    }

    /// Whether the stream's single leading zero byte has been emitted.
    pub closed spec fn spec_leading_zero_written(self) -> bool {
        self.leading_zero_8bits_written
    }

    pub closed spec fn wf(self) -> bool {
        self.inner.wf()
    }

    /// Writes a WebVTT header message into this NAL unit's RBSP.
    pub fn write_webvtt_header(
        &mut self,
        max_latency_to_video_ms: u64,
        send_frequency_hz: u8,
        subtitle_tracks: &Vec<WebvttTrack>,
    ) -> (r: Result<(), WebvttWriteError>)
        requires
            old(self).wf(),
            1 <= send_frequency_hz,
        ensures
            final(self).wf(),
            final(self).spec_head() == old(self).spec_head(),
            final(self).spec_leading_zero_written() == old(self).spec_leading_zero_written(),
            r is Ok <==> spec_header_inputs_valid(subtitle_tracks@),
            r is Ok ==> final(self).spec_rbsp() == old(self).spec_rbsp() + spec_sei_message(
                USER_DATA_UNREGISTERED as nat,
                spec_webvtt_header_body(max_latency_to_video_ms, send_frequency_hz, subtitle_tracks@),
            ),
            r is Err ==> final(self).spec_rbsp() == old(self).spec_rbsp() && r == Err::<(), _>(
                spec_header_reject(subtitle_tracks@),
            ),
    {
        self.inner.write_webvtt_header(max_latency_to_video_ms, send_frequency_hz, subtitle_tracks)
    }

    /// Writes a WebVTT payload message into this NAL unit's RBSP.
    pub fn write_webvtt_payload(
        &mut self,
        track_index: u8,
        chunk_number: u64,
        chunk_version: u8,
        video_offset_ms: u64,
        webvtt_payload: &str,
    ) -> (r: Result<(), WebvttWriteError>)
        requires
            old(self).wf(),
        ensures
            final(self).wf(),
            final(self).spec_head() == old(self).spec_head(),
            final(self).spec_leading_zero_written() == old(self).spec_leading_zero_written(),
            r is Ok <==> spec_payload_inputs_accepted(video_offset_ms, webvtt_payload@),
            r is Ok ==> final(self).spec_rbsp() == old(self).spec_rbsp() + spec_sei_message(
                USER_DATA_UNREGISTERED as nat,
                spec_webvtt_payload_body(
                    track_index,
                    chunk_number,
                    chunk_version,
                    video_offset_ms as u16,
                    encode_utf8(webvtt_payload@),
                ),
            ),
            r is Err ==> final(self).spec_rbsp() == old(self).spec_rbsp() && r == Err::<(), _>(
                spec_payload_reject(video_offset_ms, webvtt_payload@),
            ),
    {
        self.inner.write_webvtt_payload(
            track_index,
            chunk_number,
            chunk_version,
            video_offset_ms,
            webvtt_payload,
        )
    }

    /// Ends the RBSP with the trailing-bits byte and returns the framer for
    /// the next NAL unit; the leading-zero flag is kept.
    pub fn finish_rbsp(self) -> (w: AnnexBWriter)
        requires
            self.wf(),
        ensures
            w.spec_sink() == self.spec_head() + rbsp_escape(self.spec_rbsp() + seq![0x80u8]),
            w.spec_leading_zero_written() == self.spec_leading_zero_written(),
    {
        let sink = self.inner.finish_rbsp();
        AnnexBWriter { leading_zero_8bits_written: self.leading_zero_8bits_written, inner: sink }
    }
}

} // verus!

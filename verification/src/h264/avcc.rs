//! AVCC (length-prefixed) framed H.264 writer: buffers one NAL unit, then
//! emits a 1-, 2- or 4-byte big-endian length before it.

use crate::bytes::{u16_be_bytes, u32_be_bytes, write_u16_be, write_u32_be};
use crate::h264::H264NalHeader;
use crate::h26x::{rbsp_escape, spec_sei_message, RbspWriter};
use crate::webvtt::{
    spec_header_inputs_valid, spec_header_reject, spec_payload_inputs_accepted,
    spec_payload_reject, spec_webvtt_header_body, spec_webvtt_payload_body, WebvttTrack,
    WebvttWriteError, USER_DATA_UNREGISTERED,
};
use vstd::prelude::*;
use vstd::utf8::encode_utf8;

verus! {

/// The largest NAL unit a length prefix of `length_size` bytes can frame.
pub open spec fn spec_avcc_max_len(length_size: usize) -> usize {
    if length_size == 1 {
        0xffusize
    } else if length_size == 2 {
        0xffffusize
    } else {
        0xffffffffusize
    }
}

/// The big-endian length prefix for a NAL unit of `n` bytes.
pub open spec fn spec_length_prefix(length_size: usize, n: nat) -> Seq<u8> {
    if length_size == 1 {
        seq![n as u8]
    } else if length_size == 2 {
        u16_be_bytes(n as u16)
    } else {
        u32_be_bytes(n as u32)
    }
}

/// Rejected AVCC configuration: a `length_size` other than 1, 2 or 4.
#[derive(Debug, Clone, Copy, PartialEq, Eq)]
pub struct InvalidLengthError(pub usize);

/// A buffered NAL unit does not fit the configured length prefix.
#[derive(Debug, Clone, Copy, PartialEq, Eq)]
pub struct MaxNalUnitSizeExceededError {
    /// The largest NAL unit the configured `length_size` can frame.
    pub max: usize,
    /// The size the buffered NAL unit reached.
    pub required: usize,
}

/// AVCC framer between NAL units.
#[derive(Debug)]
pub struct AVCCWriter {
    length_size: usize,
    inner: Vec<u8>,
}

impl AVCCWriter {
    /// The configured length-prefix size.
    pub closed spec fn spec_length_size(self) -> usize {
        self.length_size
    }

    /// The bytes written to the sink so far.
    pub closed spec fn spec_sink(self) -> Seq<u8> {
        self.inner@
    }

    pub open spec fn wf(self) -> bool {
        self.spec_length_size() == 1 || self.spec_length_size() == 2 || self.spec_length_size()
            == 4
    }

    /// Accepts a length-prefix size of 1, 2 or 4 bytes; anything else is
    /// rejected.
    pub fn new(length_size: usize, inner: Vec<u8>) -> (r: Result<Self, InvalidLengthError>)
        ensures
            r is Ok <==> (length_size == 1 || length_size == 2 || length_size == 4),
            r matches Ok(w) ==> w.wf() && w.spec_length_size() == length_size && w.spec_sink()
                == inner@,
            !(length_size == 1 || length_size == 2 || length_size == 4) ==> r == Err::<Self, _>(
                InvalidLengthError(length_size),
            ),
    {
        if length_size == 1 || length_size == 2 || length_size == 4 {
            Ok(Self { length_size, inner })
        } else {
            Err(InvalidLengthError(length_size))
        }
    }

    /// Hands the sink back.
    pub fn into_sink(self) -> (sink: Vec<u8>)
        ensures
            sink@ == self.spec_sink(),
    {
        self.inner
    }

    /// Starts buffering one NAL unit.
    pub fn start_write_nal_unit(self) -> (w: AVCCNalUnitWriter)
        requires
            self.wf(),
        ensures
            w.wf(),
            w.spec_length_size() == self.spec_length_size(),
            w.spec_sink() == self.spec_sink(),
            w.spec_buffer() == Seq::<u8>::empty(),
    {
        AVCCNalUnitWriter { inner: AVCCWriterBuffer::new(self) }
    }
}

/// The in-memory buffer that holds one NAL unit until its length is known.
pub struct AVCCWriterBuffer {
    avcc_buffer: Vec<u8>,
    avcc_writer: AVCCWriter,
}

impl AVCCWriterBuffer {
    /// The buffered NAL unit bytes.
    pub closed spec fn spec_buffer(self) -> Seq<u8> {
        self.avcc_buffer@
    }

    /// The configured length-prefix size.
    pub closed spec fn spec_length_size(self) -> usize {
        self.avcc_writer.spec_length_size()
    }

    /// The bytes written to the sink so far.
    pub closed spec fn spec_sink(self) -> Seq<u8> {
        self.avcc_writer.spec_sink()
    }

    pub open spec fn wf(self) -> bool {
        self.spec_length_size() == 1 || self.spec_length_size() == 2 || self.spec_length_size()
            == 4
    }

    pub(crate) fn new(avcc_writer: AVCCWriter) -> (b: Self)
        requires
            avcc_writer.wf(),
        ensures
            b.wf(),
            b.spec_length_size() == avcc_writer.spec_length_size(),
            b.spec_sink() == avcc_writer.spec_sink(),
            b.spec_buffer() == Seq::<u8>::empty(),
    {
        Self { avcc_buffer: Vec::new(), avcc_writer }
    }

    /// Emits the length prefix and the buffered NAL unit, or fails when the
    /// NAL unit does not fit the configured prefix.
    pub(crate) fn finish(self) -> (r: Result<AVCCWriter, MaxNalUnitSizeExceededError>)
        requires
            self.wf(),
        ensures
            r is Ok <==> self.spec_buffer().len() <= spec_avcc_max_len(self.spec_length_size()),
            r matches Ok(w) ==> w.wf() && w.spec_length_size() == self.spec_length_size()
                && w.spec_sink() == self.spec_sink() + spec_length_prefix(
                self.spec_length_size(),
                self.spec_buffer().len(),
            ) + self.spec_buffer(),
            r is Err ==> r == Err::<AVCCWriter, _>(
                MaxNalUnitSizeExceededError {
                    max: spec_avcc_max_len(self.spec_length_size()),
                    required: self.spec_buffer().len() as usize,
                },
            ),
    {
        let mut buffer = self.avcc_buffer;
        let mut writer = self.avcc_writer;
        let len = buffer.len();
        if writer.length_size == 1 {
            if len > 0xff {
                return Err(MaxNalUnitSizeExceededError { max: 0xff, required: len });
            }
            writer.inner.push(len as u8);
        } else if writer.length_size == 2 {
            if len > 0xffff {
                return Err(MaxNalUnitSizeExceededError { max: 0xffff, required: len });
            }
            write_u16_be(&mut writer.inner, len as u16);
        } else {
            if len > 0xffffffff {
                return Err(MaxNalUnitSizeExceededError { max: 0xffffffff, required: len });
            }
            write_u32_be(&mut writer.inner, len as u32);
        }
        writer.inner.append(&mut buffer);
        Ok(writer)
    }
}

/// AVCC framer after `start_write_nal_unit`, before the NAL header.
pub struct AVCCNalUnitWriter {
    inner: AVCCWriterBuffer,
}

impl AVCCNalUnitWriter {
    /// The buffered NAL unit bytes.
    pub closed spec fn spec_buffer(self) -> Seq<u8> {
        self.inner.spec_buffer()
    }

    /// The configured length-prefix size.
    pub closed spec fn spec_length_size(self) -> usize {
        self.inner.spec_length_size()
    }

    /// The bytes written to the sink so far.
    pub closed spec fn spec_sink(self) -> Seq<u8> {
        self.inner.spec_sink()
    }

    pub closed spec fn wf(self) -> bool {
        self.inner.wf()
    }

    /// Writes the header byte into the buffer and starts the RBSP.
    pub fn write_nal_header(self, nal_header: H264NalHeader) -> (w: AVCCRbspWriter)
        requires
            self.wf(),
            nal_header.wf(),
        ensures
            w.wf(),
            w.spec_length_size() == self.spec_length_size(),
            w.spec_sink() == self.spec_sink(),
            w.spec_buffer_head() == self.spec_buffer() + nal_header.spec_header_bytes(),
            w.spec_rbsp() == Seq::<u8>::empty(),
    {
        let mut buffer = self.inner.avcc_buffer;
        let mut header_bytes = nal_header.as_header_bytes();
        buffer.append(&mut header_bytes);
        AVCCRbspWriter { inner: RbspWriter::new(buffer), avcc_writer: self.inner.avcc_writer }
    }
}

/// AVCC framer while a NAL unit's RBSP is being written into the buffer.
pub struct AVCCRbspWriter {
    inner: RbspWriter,
    avcc_writer: AVCCWriter,
}

impl AVCCRbspWriter {
    /// The buffered bytes that precede this NAL unit's RBSP.
    pub closed spec fn spec_buffer_head(self) -> Seq<u8> {
        self.inner.spec_head()
    }

    /// The unescaped RBSP bytes written so far.
    pub closed spec fn spec_rbsp(self) -> Seq<u8> {
        self.inner.spec_rbsp()
    }

    /// The configured length-prefix size.
    pub closed spec fn spec_length_size(self) -> usize {
        self.avcc_writer.spec_length_size()
    }

    /// The bytes written to the sink so far.
    pub closed spec fn spec_sink(self) -> Seq<u8> {
        self.avcc_writer.spec_sink()
    }

    pub closed spec fn wf(self) -> bool {
        self.inner.wf() && self.avcc_writer.wf()
    }

    /// The complete NAL unit this writer would emit if finished now: the
    /// buffered head, then the escaped RBSP with its trailing-bits byte.
    pub open spec fn spec_nal_unit(self) -> Seq<u8> {
        self.spec_buffer_head() + rbsp_escape(self.spec_rbsp() + seq![0x80u8])
    }

    /// Writes a WebVTT header message into this NAL unit's RBSP.
    pub fn write_webvtt_header(
        &mut self,
        max_latency_to_video_ms: u64,
        send_frequency_hz: u8,
        subtitle_tracks: &Vec<WebvttTrack>,
    ) -> (r: Result<(), WebvttWriteError>)
        requires
            old(self).wf(),
            1 <= send_frequency_hz,
        ensures
            final(self).wf(),
            final(self).spec_buffer_head() == old(self).spec_buffer_head(),
            final(self).spec_length_size() == old(self).spec_length_size(),
            final(self).spec_sink() == old(self).spec_sink(),
            r is Ok <==> spec_header_inputs_valid(subtitle_tracks@),
            r is Ok ==> final(self).spec_rbsp() == old(self).spec_rbsp() + spec_sei_message(
                USER_DATA_UNREGISTERED as nat,
                spec_webvtt_header_body(max_latency_to_video_ms, send_frequency_hz, subtitle_tracks@),
            ),
            r is Err ==> final(self).spec_rbsp() == old(self).spec_rbsp() && r == Err::<(), _>(
                spec_header_reject(subtitle_tracks@),
            ),
    {
        self.inner.write_webvtt_header(max_latency_to_video_ms, send_frequency_hz, subtitle_tracks)
    }

    /// Writes a WebVTT payload message into this NAL unit's RBSP.
    pub fn write_webvtt_payload(
        &mut self,
        track_index: u8,
        chunk_number: u64,
        chunk_version: u8,
        video_offset_ms: u64,
        webvtt_payload: &str,
    ) -> (r: Result<(), WebvttWriteError>)
        requires
            old(self).wf(),
        ensures
            final(self).wf(),
            final(self).spec_buffer_head() == old(self).spec_buffer_head(),
            final(self).spec_length_size() == old(self).spec_length_size(),
            final(self).spec_sink() == old(self).spec_sink(),
            r is Ok <==> spec_payload_inputs_accepted(video_offset_ms, webvtt_payload@),
            r is Ok ==> final(self).spec_rbsp() == old(self).spec_rbsp() + spec_sei_message(
                USER_DATA_UNREGISTERED as nat,
                spec_webvtt_payload_body(
                    track_index,
                    chunk_number,
                    chunk_version,
                    video_offset_ms as u16,
                    encode_utf8(webvtt_payload@),
                ),
            ),
            r is Err ==> final(self).spec_rbsp() == old(self).spec_rbsp() && r == Err::<(), _>(
                spec_payload_reject(video_offset_ms, webvtt_payload@),
            ),
    {
        self.inner.write_webvtt_payload(
            track_index,
            chunk_number,
            chunk_version,
            video_offset_ms,
            webvtt_payload,
        )
    }

    /// Ends the RBSP, then emits the length prefix and the buffered NAL
    /// unit, or fails when the NAL unit does not fit the configured prefix.
    pub fn finish_rbsp(self) -> (r: Result<AVCCWriter, MaxNalUnitSizeExceededError>)
        requires
            self.wf(),
        ensures
            r is Ok <==> self.spec_nal_unit().len() <= spec_avcc_max_len(self.spec_length_size()),
            r matches Ok(w) ==> w.wf() && w.spec_length_size() == self.spec_length_size()
                && w.spec_sink() == self.spec_sink() + spec_length_prefix(
                self.spec_length_size(),
                self.spec_nal_unit().len(),
            ) + self.spec_nal_unit(),
            r is Err ==> r == Err::<AVCCWriter, _>(
                MaxNalUnitSizeExceededError {
                    max: spec_avcc_max_len(self.spec_length_size()),
                    required: self.spec_nal_unit().len() as usize,
                },
            ),
    {
        let buffer = self.inner.finish_rbsp();
        let b = AVCCWriterBuffer { avcc_buffer: buffer, avcc_writer: self.avcc_writer };
        b.finish()
    }
}

} // verus!

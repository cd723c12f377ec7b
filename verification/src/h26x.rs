//! Shared H.26x machinery: the RBSP emulation-prevention writer that inserts
//! `0x03` escape bytes so no start code can appear inside a NAL unit, and the
//! SEI header coding of `payloadType` / `payloadSize` as `0xFF` runs.

pub mod annex_b;

use crate::webvtt::{
    spec_header_inputs_valid, spec_header_reject, spec_payload_inputs_accepted,
    spec_payload_reject, spec_webvtt_header_body, spec_webvtt_payload_body, webvtt_header_body,
    webvtt_payload_body, WebvttTrack, WebvttWriteError, USER_DATA_UNREGISTERED,
};
use vstd::prelude::*;
use vstd::utf8::encode_utf8;

verus! {

/// Zero-run state after emitting one more RBSP byte: the number of
/// consecutive `0x00` bytes at the end of the escaped output, capped at 2.
pub open spec fn rbsp_step_state(zeros: nat, b: u8) -> nat {
    if zeros >= 2 && b <= 3 {
        if b == 0 {
            1nat
        } else {
            0nat
        }
    } else if b == 0 {
        if zeros + 1 >= 2 {
            2nat
        } else {
            (zeros + 1) as nat
        }
    } else {
        0nat
    }
}

/// Bytes emitted for one RBSP byte: the byte itself, preceded by the `0x03`
/// escape when the last two emitted bytes were both zero and the byte could
/// complete a start code.
pub open spec fn rbsp_step_bytes(zeros: nat, b: u8) -> Seq<u8> {
    if zeros >= 2 && b <= 3 {
        seq![3u8, b]
    } else {
        seq![b]
    }
}

/// Zero-run state after escaping all of `input`.
pub open spec fn rbsp_escape_state(input: Seq<u8>) -> nat
    decreases input.len(),
{
    if input.len() == 0 {
        0nat
    } else {
        rbsp_step_state(rbsp_escape_state(input.drop_last()), input.last())
    }
}

/// The escaped (emulation-prevented) form of an RBSP byte sequence.
pub open spec fn rbsp_escape(input: Seq<u8>) -> Seq<u8>
    decreases input.len(),
{
    if input.len() == 0 {
        Seq::empty()
    } else {
        rbsp_escape(input.drop_last()) + rbsp_step_bytes(
            rbsp_escape_state(input.drop_last()),
            input.last(),
        )
    }
}

/// The escaped output never contains `00 00 X` with `X <= 02`; after two
/// zero bytes the next emitted byte is either the `0x03` escape or a byte
/// that cannot extend a start code.
pub proof fn lemma_rbsp_escape_prevents_start_codes(input: Seq<u8>)
    ensures
        forall|i: int|
            #![trigger rbsp_escape(input)[i]]
            0 <= i && i + 2 < rbsp_escape(input).len() ==> !(rbsp_escape(input)[i] == 0
                && rbsp_escape(input)[i + 1] == 0 && rbsp_escape(input)[i + 2] <= 2),
{
    lemma_rbsp_escape_invariant(input);
}

/// Strengthened induction for `lemma_rbsp_escape_prevents_start_codes`: the
/// zero-run state tracks the actual trailing zeros of the escaped output.
proof fn lemma_rbsp_escape_invariant(input: Seq<u8>)
    ensures
        forall|i: int|
            #![trigger rbsp_escape(input)[i]]
            0 <= i && i + 2 < rbsp_escape(input).len() ==> !(rbsp_escape(input)[i] == 0
                && rbsp_escape(input)[i + 1] == 0 && rbsp_escape(input)[i + 2] <= 2),
        rbsp_escape_state(input) <= 2,
        rbsp_escape_state(input) == 2 ==> rbsp_escape(input).len() >= 2 && rbsp_escape(
            input,
        ).last() == 0 && rbsp_escape(input)[rbsp_escape(input).len() - 2] == 0,
        rbsp_escape_state(input) == 1 ==> rbsp_escape(input).len() >= 1 && rbsp_escape(
            input,
        ).last() == 0 && (rbsp_escape(input).len() >= 2 ==> rbsp_escape(input)[rbsp_escape(
            input,
        ).len() - 2] != 0),
        rbsp_escape_state(input) == 0 ==> rbsp_escape(input).len() == 0 || rbsp_escape(
            input,
        ).last() != 0,
    decreases input.len(),
{
    if input.len() == 0 {
    } else {
        let prefix = input.drop_last();
        let b = input.last();
        lemma_rbsp_escape_invariant(prefix);
        let out = rbsp_escape(prefix);
        let z = rbsp_escape_state(prefix);
        let step = rbsp_step_bytes(z, b);
        assert(rbsp_escape(input) == out + step);
        assert forall|i: int|
            #![trigger (out + step)[i]]
            0 <= i && i + 2 < (out + step).len() implies !((out + step)[i] == 0 && (out + step)[i
            + 1] == 0 && (out + step)[i + 2] <= 2) by {
            if i + 2 < out.len() {
                assert((out + step)[i] == out[i]);
                assert((out + step)[i + 1] == out[i + 1]);
                assert((out + step)[i + 2] == out[i + 2]);
            } else if z >= 2 && b <= 3 {
                // step == [3, b]; the windows that reach into the step end in
                // the escape byte or start at it
                if i + 2 == out.len() {
                    assert((out + step)[i + 2] == 3);
                } else {
                    assert(i + 1 == out.len());
                    assert((out + step)[i + 1] == 3);
                }
            } else {
                // step == [b]; the last two old bytes are not both zero
                assert(i + 2 == out.len());
                if out.len() >= 2 {
                    assert((out + step)[i] == out[i]);
                    assert((out + step)[i + 1] == out[i + 1]);
                }
            }
        }
    }
}

/// The `0xFF`-run coding used for SEI `payloadType` and `payloadSize`:
/// `v / 255` bytes of `0xFF`, then `v % 255` as one byte.
pub open spec fn spec_ff_coded(v: nat) -> Seq<u8>
    decreases v,
{
    if v < 255 {
        seq![v as u8]
    } else {
        seq![255u8] + spec_ff_coded((v - 255) as nat)
    }
}

/// Decodes a `0xFF`-run coding: sums bytes until the first byte below `0xFF`.
pub open spec fn spec_ff_decode(s: Seq<u8>) -> nat
    decreases s.len(),
{
    if s.len() == 0 {
        0nat
    } else if s[0] == 255 {
        255nat + spec_ff_decode(s.drop_first())
    } else {
        s[0] as nat
    }
}

/// The `0xFF`-run coding decodes to the value it was built from, and its
/// length is `v / 255 + 1`.
pub proof fn lemma_ff_coded_round_trip(v: nat)
    ensures
        spec_ff_decode(spec_ff_coded(v)) == v,
        spec_ff_coded(v).len() == v / 255 + 1,
    decreases v,
{
    if v < 255 {
    } else {
        lemma_ff_coded_round_trip((v - 255) as nat);
        assert((seq![255u8] + spec_ff_coded((v - 255) as nat)).drop_first() =~= spec_ff_coded(
            (v - 255) as nat,
        ));
        assert(v / 255 == (v - 255) / 255 + 1) by (nonlinear_arith)
            requires
                v >= 255,
        ;
    }
}

/// The SEI header: the `0xFF`-run codings of `payloadType` and `payloadSize`.
pub open spec fn spec_sei_header(payload_type: nat, payload_size: nat) -> Seq<u8> {
    spec_ff_coded(payload_type) + spec_ff_coded(payload_size)
}

/// A full SEI message: the header with `payloadSize` set to the body length,
/// then the body.
pub open spec fn spec_sei_message(payload_type: nat, body: Seq<u8>) -> Seq<u8> {
    spec_sei_header(payload_type, body.len()) + body
}

fn write_ff_coded(out: &mut Vec<u8>, v: usize)
    ensures
        final(out)@ == old(out)@ + spec_ff_coded(v as nat),
{
    let mut rem = v;
    while rem >= 255
        invariant
            out@ + spec_ff_coded(rem as nat) == old(out)@ + spec_ff_coded(v as nat),
        decreases rem,
    {
        out.push(255);
        rem = rem - 255;
        assert(out@ + spec_ff_coded(rem as nat) =~= old(out)@ + spec_ff_coded(v as nat));
    }
    out.push(rem as u8);
    assert(out@ =~= old(out)@ + spec_ff_coded(v as nat));
}

/// Writes SEI `payloadType` and `payloadSize` in the `0xFF`-run coding.
pub fn write_sei_header(out: &mut Vec<u8>, payload_type: usize, payload_size: usize)
    ensures
        final(out)@ == old(out)@ + spec_sei_header(payload_type as nat, payload_size as nat),
{
    write_ff_coded(out, payload_type);
    write_ff_coded(out, payload_size);
    assert(out@ =~= old(out)@ + spec_sei_header(payload_type as nat, payload_size as nat));
}

/// In an SEI message the decoded `payloadSize` field equals the length of
/// the body that follows it, and the body follows the header unchanged.
pub proof fn lemma_sei_message_size_matches_body(payload_type: nat, body: Seq<u8>)
    ensures
        spec_sei_message(payload_type, body).skip(
            spec_sei_header(payload_type, body.len()).len() as int,
        ) == body,
        spec_ff_decode(
            spec_sei_message(payload_type, body).skip(spec_ff_coded(payload_type).len() as int),
        ) == body.len(),
{
    let header = spec_sei_header(payload_type, body.len());
    assert(spec_sei_message(payload_type, body).skip(header.len() as int) =~= body);
    let size_and_body = spec_ff_coded(body.len()) + body;
    assert(spec_sei_message(payload_type, body).skip(spec_ff_coded(payload_type).len() as int)
        =~= size_and_body);
    lemma_ff_decode_ignores_tail(body.len(), body);
    lemma_ff_coded_round_trip(body.len());
}

/// Decoding a `0xFF`-run coding is unaffected by bytes after it.
proof fn lemma_ff_decode_ignores_tail(v: nat, tail: Seq<u8>)
    ensures
        spec_ff_decode(spec_ff_coded(v) + tail) == spec_ff_decode(spec_ff_coded(v)),
    decreases v,
{
    if v < 255 {
        if tail.len() == 0 {
            assert(spec_ff_coded(v) + tail =~= spec_ff_coded(v));
        } else {
            assert((spec_ff_coded(v) + tail)[0] == v as u8);
        }
    } else {
        lemma_ff_decode_ignores_tail((v - 255) as nat, tail);
        assert((spec_ff_coded(v) + tail).drop_first() =~= spec_ff_coded((v - 255) as nat) + tail);
        assert((spec_ff_coded(v)).drop_first() =~= spec_ff_coded((v - 255) as nat));
    }
}

/// In an SEI message that carries a WebVTT header or payload body, the 16
/// bytes immediately following the SEI header are the payload GUID.
pub proof fn lemma_sei_guid_follows_header(
    max_latency_to_video_ms: u64,
    send_frequency_hz: u8,
    subtitle_tracks: Seq<WebvttTrack>,
    track_index: u8,
    chunk_number: u64,
    chunk_version: u8,
    video_offset_ms: u16,
    payload: Seq<u8>,
)
    ensures
        ({
            let body = spec_webvtt_header_body(
                max_latency_to_video_ms,
                send_frequency_hz,
                subtitle_tracks,
            );
            let hlen = spec_sei_header(USER_DATA_UNREGISTERED as nat, body.len()).len() as int;
            spec_sei_message(USER_DATA_UNREGISTERED as nat, body).subrange(hlen, hlen + 16)
                == crate::webvtt::spec_payload_guid()
        }),
        ({
            let body = spec_webvtt_payload_body(
                track_index,
                chunk_number,
                chunk_version,
                video_offset_ms,
                payload,
            );
            let hlen = spec_sei_header(USER_DATA_UNREGISTERED as nat, body.len()).len() as int;
            spec_sei_message(USER_DATA_UNREGISTERED as nat, body).subrange(hlen, hlen + 16)
                == crate::webvtt::spec_payload_guid()
        }),
{
    crate::webvtt::lemma_bodies_begin_with_payload_guid(
        max_latency_to_video_ms,
        send_frequency_hz,
        subtitle_tracks,
        track_index,
        chunk_number,
        chunk_version,
        video_offset_ms,
        payload,
    );
    let hb = spec_webvtt_header_body(max_latency_to_video_ms, send_frequency_hz, subtitle_tracks);
    let hh = spec_sei_header(USER_DATA_UNREGISTERED as nat, hb.len()).len() as int;
    assert(spec_sei_message(USER_DATA_UNREGISTERED as nat, hb).subrange(hh, hh + 16) =~= hb.take(
        16,
    ));
    let pb = spec_webvtt_payload_body(
        track_index,
        chunk_number,
        chunk_version,
        video_offset_ms,
        payload,
    );
    let ph = spec_sei_header(USER_DATA_UNREGISTERED as nat, pb.len()).len() as int;
    assert(spec_sei_message(USER_DATA_UNREGISTERED as nat, pb).subrange(ph, ph + 16) =~= pb.take(
        16,
    ));
}

/// A NAL unit writer: holds the sink after a container framer has emitted
/// its framing and before the NAL header is written.
pub struct NalUnitWriter {
    pub(crate) sink: Vec<u8>,
}

impl NalUnitWriter {
    /// The bytes written to the sink so far.
    pub closed spec fn spec_sink(self) -> Seq<u8> {
        self.sink@
    }

    pub fn new(sink: Vec<u8>) -> (w: Self)
        ensures
            w.spec_sink() == sink@,
    {
        Self { sink }
    }

    /// Hands the sink back, for the writer that emits the NAL header.
    pub fn into_sink(self) -> (sink: Vec<u8>)
        ensures
            sink@ == self.spec_sink(),
    {
        self.sink
    }
}

/// Writes RBSP bytes with emulation prevention: any byte in `0x00..=0x03`
/// that would follow two `0x00` bytes is preceded by a `0x03` escape.
pub struct RbspWriter {
    sink: Vec<u8>,
    zeros: u8,
    head: Ghost<Seq<u8>>,
    rbsp: Ghost<Seq<u8>>,
}

impl RbspWriter {
    /// The sink bytes that precede this NAL unit's RBSP.
    pub closed spec fn spec_head(self) -> Seq<u8> {
        self.head@
    }

    /// The unescaped RBSP bytes written so far.
    pub closed spec fn spec_rbsp(self) -> Seq<u8> {
        self.rbsp@
    }

    /// The sink holds the head bytes followed by the escaped RBSP, and the
    /// zero-run counter matches the escape state.
    pub closed spec fn wf(self) -> bool {
        &&& self.sink@ == self.head@ + rbsp_escape(self.rbsp@)
        &&& self.zeros as nat == rbsp_escape_state(self.rbsp@)
        &&& self.zeros <= 2
    }

    pub fn new(sink: Vec<u8>) -> (w: Self)
        ensures
            w.wf(),
            w.spec_head() == sink@,
            w.spec_rbsp() == Seq::<u8>::empty(),
    {
        let ghost head = sink@;
        let w = Self { sink, zeros: 0, head: Ghost(head), rbsp: Ghost(Seq::empty()) };
        proof {
            assert(w.sink@ =~= w.head@ + rbsp_escape(w.rbsp@));
        }
        w
    }

    fn write_byte(&mut self, b: u8)
        requires
            old(self).wf(),
        ensures
            final(self).wf(),
            final(self).spec_head() == old(self).spec_head(),
            final(self).spec_rbsp() == old(self).spec_rbsp() + seq![b],
    {
        let ghost prev = self.rbsp@;
        if self.zeros >= 2 && b <= 3 {
            self.sink.push(3);
            self.sink.push(b);
            self.zeros = if b == 0 {
                1
            } else {
                0
            };
        } else {
            self.sink.push(b);
            self.zeros = if b == 0 {
                self.zeros + 1
            } else {
                0
            };
        }
        self.rbsp = Ghost(prev.push(b));
        proof {
            assert(prev.push(b).drop_last() =~= prev);
            assert(prev.push(b).last() == b);
            assert(self.sink@ =~= self.head@ + rbsp_escape(self.rbsp@));
            assert(self.rbsp@ =~= old(self).spec_rbsp() + seq![b]);
        }
    }

    /// Writes a run of RBSP bytes through the escape logic.
    pub fn write(&mut self, buf: &[u8])
        requires
            old(self).wf(),
        ensures
            final(self).wf(),
            final(self).spec_head() == old(self).spec_head(),
            final(self).spec_rbsp() == old(self).spec_rbsp() + buf@,
    {
        let mut i: usize = 0;
        while i < buf.len()
            invariant
                i <= buf@.len(),
                self.wf(),
                self.spec_head() == old(self).spec_head(),
                self.spec_rbsp() == old(self).spec_rbsp() + buf@.subrange(0, i as int),
            decreases buf@.len() - i,
        {
            self.write_byte(buf[i]);
            i = i + 1;
            assert(self.spec_rbsp() =~= old(self).spec_rbsp() + buf@.subrange(0, i as int));
        }
        assert(buf@.subrange(0, buf@.len() as int) =~= buf@);
    }

    /// Ends the RBSP with the trailing-bits byte `0x80` (also subject to the
    /// escape logic) and hands the sink back.
    pub fn finish_rbsp(self) -> (sink: Vec<u8>)
        requires
            self.wf(),
        ensures
            sink@ == self.spec_head() + rbsp_escape(self.spec_rbsp() + seq![0x80u8]),
    {
        let mut w = self;
        w.write_byte(0x80);
        w.sink
    }

    /// Writes a WebVTT header message as an SEI `user_data_unregistered`
    /// payload into the RBSP.
    pub fn write_webvtt_header(
        &mut self,
        max_latency_to_video_ms: u64,
        send_frequency_hz: u8,
        subtitle_tracks: &Vec<WebvttTrack>,
    ) -> (r: Result<(), WebvttWriteError>)
        requires
            old(self).wf(),
            1 <= send_frequency_hz,
        ensures
            final(self).wf(),
            final(self).spec_head() == old(self).spec_head(),
            r is Ok <==> spec_header_inputs_valid(subtitle_tracks@),
            r is Ok ==> final(self).spec_rbsp() == old(self).spec_rbsp() + spec_sei_message(
                USER_DATA_UNREGISTERED as nat,
                spec_webvtt_header_body(max_latency_to_video_ms, send_frequency_hz, subtitle_tracks@),
            ),
            r is Err ==> final(self).spec_rbsp() == old(self).spec_rbsp() && r == Err::<(), _>(
                spec_header_reject(subtitle_tracks@),
            ),
    {
        match webvtt_header_body(max_latency_to_video_ms, send_frequency_hz, subtitle_tracks) {
            Err(e) => Err(e),
            Ok(body) => {
                self.write_sei_message(body);
                Ok(())
            },
        }
    }

    /// Writes a WebVTT payload message as an SEI `user_data_unregistered`
    /// payload into the RBSP.
    pub fn write_webvtt_payload(
        &mut self,
        track_index: u8,
        chunk_number: u64,
        chunk_version: u8,
        video_offset_ms: u64,
        webvtt_payload: &str,
    ) -> (r: Result<(), WebvttWriteError>)
        requires
            old(self).wf(),
        ensures
            final(self).wf(),
            final(self).spec_head() == old(self).spec_head(),
            r is Ok <==> spec_payload_inputs_accepted(video_offset_ms, webvtt_payload@),
            r is Ok ==> final(self).spec_rbsp() == old(self).spec_rbsp() + spec_sei_message(
                USER_DATA_UNREGISTERED as nat,
                spec_webvtt_payload_body(
                    track_index,
                    chunk_number,
                    chunk_version,
                    video_offset_ms as u16,
                    encode_utf8(webvtt_payload@),
                ),
            ),
            r is Err ==> final(self).spec_rbsp() == old(self).spec_rbsp() && r == Err::<(), _>(
                spec_payload_reject(video_offset_ms, webvtt_payload@),
            ),
    {
        match webvtt_payload_body(
            track_index,
            chunk_number,
            chunk_version,
            video_offset_ms,
            webvtt_payload,
        ) {
            Err(e) => Err(e),
            Ok(body) => {
                self.write_sei_message(body);
                Ok(())
            },
        }
    }

    fn write_sei_message(&mut self, body: Vec<u8>)
        requires
            old(self).wf(),
        ensures
            final(self).wf(),
            final(self).spec_head() == old(self).spec_head(),
            final(self).spec_rbsp() == old(self).spec_rbsp() + spec_sei_message(
                USER_DATA_UNREGISTERED as nat,
                body@,
            ),
    {
        let ghost body_bytes = body@;
        let mut msg: Vec<u8> = Vec::new();
        write_sei_header(&mut msg, USER_DATA_UNREGISTERED, body.len());
        let mut tail = body;
        msg.append(&mut tail);
        self.write(msg.as_slice());
        assert(self.spec_rbsp() =~= old(self).spec_rbsp() + spec_sei_message(
            USER_DATA_UNREGISTERED as nat,
            body_bytes,
        ));
    }
}

} // verus!

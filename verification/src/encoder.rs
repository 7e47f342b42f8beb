//! The encoding pipeline orchestrator.
//!
//! `Encoder` owns the per-session bookkeeping of a single video stream: the
//! lifecycle flags (header written, trailer written), the output packet
//! counter that drives key-frame cadence, and the bounded drain budget used
//! while flushing the codec. The host application performs the backend calls
//! (muxer header/packet/trailer writes, pixel scaling, codec submit and
//! drain) and drives this state machine with their outcomes; every decision —
//! what is admissible, what to write next, how packets are tagged and
//! rescaled — is made and verified here.
//!
//! A ghost log records every command the pipeline issues to the muxer, in
//! order. The well-formedness invariant `Encoder::wf` pins the shape of that
//! log in every lifecycle stage, and the lemmas below state the session laws
//! over it: the header is written exactly once and first, the trailer exactly
//! once and last, and the flush loop is bounded.

use vstd::prelude::*;
use crate::EncodeError;
use crate::frame::{PixelConverter, PixelFormat, RawFrame};
use crate::packet::{DrainResult, Packet};
use crate::rational::{rescale_q, rescale_spec, Rational};
use crate::settings::Settings;

verus! {

/// Every `KEY_FRAME_INTERVAL`-th written packet position gets a forced key
/// (intra) frame, to bound seek and recovery latency in the output.
pub const KEY_FRAME_INTERVAL: u64 = 12;

/// Maximum number of codec drain attempts while flushing, after which
/// draining is abandoned rather than looping forever against a codec that
/// never reports itself drained.
pub const MAX_DRAIN_ITERATIONS: u32 = 100;

/// Lifecycle stage of an encoding session.
#[derive(Clone, Copy, PartialEq, Eq, Structural, Debug)]
pub enum Stage {
    /// No frame admitted yet; the muxer has received nothing.
    Fresh,
    /// The header command has been issued; frames are being encoded.
    Started,
    /// Finishing has committed: the codec is being flushed.
    Draining,
    /// The session is over. Either the trailer was written, or the session
    /// ended without ever writing a header (zero frames).
    Finished,
}

/// One command issued to the muxer, as recorded in the ghost session log.
pub enum MuxEvent {
    /// Write the container header.
    Header,
    /// Write one packet, carrying its presentation timestamp in the output
    /// stream's time base.
    Packet {
        /// Rescaled presentation timestamp of the written packet.
        pts: i64,
    },
    /// Write the container trailer.
    Trailer,
}

/// What the pipeline asks of the caller for an admitted frame.
#[derive(Clone, Copy, PartialEq, Eq, Structural, Debug)]
pub struct FramePass {
    /// The container header must be written (and reported back) before
    /// anything else: this is the session's first admitted frame.
    pub write_header: bool,
    /// The frame must be marked as a forced key frame before submission.
    pub force_key: bool,
}

/// Whether a finish request has work left to do.
#[derive(Clone, Copy, PartialEq, Eq, Structural, Debug)]
pub enum FinishDisposition {
    /// Finishing committed: signal end-of-stream, run the bounded drain loop,
    /// then write the trailer.
    RunFlush,
    /// Nothing to do: either the session never wrote a header, or it is
    /// already finished.
    NothingToDo,
}

/// The next move of the bounded flush loop, decided from one drain outcome.
#[derive(Clone, Copy, PartialEq, Eq, Structural, Debug)]
pub enum FlushAction {
    /// A packet came out: prepare it and write it to the muxer.
    WritePacket,
    /// Nothing yet, but the codec may still produce: poll again.
    PollAgain,
    /// Stop draining: the codec is fully drained or failed hard. Remaining
    /// unflushed data, if any, is abandoned, not retried.
    Stop,
}

/// How the flush loop reacts to one drain outcome: a produced packet is
/// written, the transient "not yet" state means poll again, and both the
/// drained signal and a hard failure stop the loop immediately.
pub open spec fn flush_action_spec(poll: DrainResult) -> FlushAction {
    match poll {
        DrainResult::Produced(_) => FlushAction::WritePacket,
        DrainResult::NotYet => FlushAction::PollAgain,
        DrainResult::Drained => FlushAction::Stop,
        DrainResult::Failed(_) => FlushAction::Stop,
    }
}

/// Decide the flush loop's next move from one drain outcome.
pub fn flush_action(poll: &DrainResult) -> (r: FlushAction)
    ensures
        r == flush_action_spec(*poll),
{
    match poll {
        DrainResult::Produced(_) => FlushAction::WritePacket,
        DrainResult::NotYet => FlushAction::PollAgain,
        DrainResult::Drained => FlushAction::Stop,
        DrainResult::Failed(_) => FlushAction::Stop,
    }
}

/// How a single mid-stream drain attempt is interpreted: a packet is handed
/// on, the transient "not yet" state is an empty result rather than an error,
/// and everything else (including a premature drained signal) is a backend
/// failure.
pub open spec fn encode_poll_spec(poll: DrainResult) -> Result<Option<Packet>, EncodeError> {
    match poll {
        DrainResult::Produced(p) => Ok(Some(p)),
        DrainResult::NotYet => Ok(None),
        DrainResult::Drained => Err(EncodeError::Backend),
        DrainResult::Failed(_) => Err(EncodeError::Backend),
    }
}

/// Interpret the single drain attempt made per encoded frame.
pub fn encode_poll_outcome(poll: &DrainResult) -> (r: Result<Option<Packet>, EncodeError>)
    ensures
        r == encode_poll_spec(*poll),
{
    match poll {
        DrainResult::Produced(p) => Ok(Some(*p)),
        DrainResult::NotYet => Ok(None),
        DrainResult::Drained => Err(EncodeError::Backend),
        DrainResult::Failed(_) => Err(EncodeError::Backend),
    }
}

/// Shape of the mux log of a running session: the header first, then exactly
/// one packet per counted output frame, and no trailer yet.
pub open spec fn log_open_shape(log: Seq<MuxEvent>, frame_count: u64) -> bool {
    &&& log.len() == frame_count + 1
    &&& log[0] is Header
    &&& forall|i: int| 1 <= i < log.len() ==> log[i] is Packet
}

/// Shape of the mux log of a completed session that wrote a header: the
/// header first, one packet per counted output frame, the trailer last.
pub open spec fn log_closed_shape(log: Seq<MuxEvent>, frame_count: u64) -> bool {
    &&& log.len() == frame_count + 2
    &&& log[0] is Header
    &&& log[log.len() - 1] is Trailer
    &&& forall|i: int| 1 <= i < log.len() - 1 ==> log[i] is Packet
}

/// Encodes frames into a video stream.
///
/// The session's mux commands are recorded, in order, in the ghost `log`;
/// `frame_count` counts the packets written so far and drives the key-frame
/// cadence. The host application owns the actual codec, scaler and muxer
/// handles and must report each completed backend write back to this state
/// machine, which decides everything else.
pub struct Encoder {
    /// Admissibility gate and pixel reformatter for incoming frames.
    pub converter: PixelConverter,
    /// The codec's internal time base; packet timestamps arrive in it.
    pub encoder_time_base: Rational,
    /// Index of the video stream within the output container.
    pub stream_index: usize,
    /// Whether packets go through the muxer's interleaving mode (true) or are
    /// written directly in arrival order (false), uniformly for every packet.
    pub interleaved: bool,
    /// Lifecycle stage.
    pub stage: Stage,
    /// Number of packets written to the muxer so far. Monotonic, never reset.
    pub frame_count: u64,
    /// Remaining drain attempts while flushing.
    pub drain_budget: u32,
    /// True when an admitted frame obliges the caller to write the header
    /// before going on.
    pub header_pending: bool,
    /// Ghost count of frames admitted into the session.
    pub admitted: Ghost<nat>,
    /// Ghost log of every command issued to the muxer, in order.
    pub log: Ghost<Seq<MuxEvent>>,
}

impl Encoder {
    /// Session invariant: the time base is usable, a pending header can only
    /// exist before the session started, and the mux log has the shape its
    /// stage demands — in particular, a header exists exactly from `Started`
    /// on, packets sit strictly between header and trailer, their number is
    /// `frame_count`, and a session that never admitted a frame never wrote
    /// anything.
    pub open spec fn wf(self) -> bool {
        &&& self.encoder_time_base.valid()
        &&& (self.header_pending ==> self.stage == Stage::Fresh && self.admitted@ >= 1)
        &&& match self.stage {
            Stage::Fresh => self.log@.len() == 0 && self.frame_count == 0,
            Stage::Started => log_open_shape(self.log@, self.frame_count) && self.admitted@
                >= 1,
            Stage::Draining => log_open_shape(self.log@, self.frame_count) && self.admitted@
                >= 1 && self.drain_budget <= MAX_DRAIN_ITERATIONS,
            Stage::Finished => (self.log@.len() == 0 && self.frame_count == 0) || (
            log_closed_shape(self.log@, self.frame_count) && self.admitted@ >= 1),
        }
    }

    /// A frame is admissible when it exactly matches the configured
    /// dimensions and uses one of the accepted source pixel formats.
    pub open spec fn frame_ok_spec(self, frame: RawFrame) -> bool {
        &&& frame.width == self.converter.width
        &&& frame.height == self.converter.height
        &&& (frame.format == PixelFormat::Rgb24 || frame.format == PixelFormat::Bgra)
    }

    /// Key-frame cadence: force a key frame exactly when the output counter
    /// stands on a multiple of `KEY_FRAME_INTERVAL`.
    pub open spec fn force_key_spec(self) -> bool {
        self.frame_count % KEY_FRAME_INTERVAL == 0
    }

    /// Open a fresh encoding session. The stream index and the codec's time
    /// base come from the host application's container and opened codec; the
    /// converter is configured from the settings, targeting the codec-facing
    /// pixel format.
    pub fn open(settings: &Settings, stream_index: usize, encoder_time_base: Rational) -> (r:
        Encoder)
        requires
            encoder_time_base.valid(),
        ensures
            r.wf(),
            r.converter == (PixelConverter {
                width: settings.width,
                height: settings.height,
                dst_format: settings.pixel_format,
            }),
            r.encoder_time_base == encoder_time_base,
            r.stream_index == stream_index,
            !r.interleaved,
            r.stage == Stage::Fresh,
            r.frame_count == 0,
            !r.header_pending,
            r.admitted@ == 0,
            r.log@ == Seq::<MuxEvent>::empty(),
    {
        Encoder {
            converter: PixelConverter::new(settings.width, settings.height, settings.pixel_format),
            encoder_time_base,
            stream_index,
            interleaved: false,
            stage: Stage::Fresh,
            frame_count: 0,
            drain_budget: 0,
            header_pending: false,
            admitted: Ghost(0),
            log: Ghost(Seq::empty()),
        }
    }

    /// Turn the encoder into an interleaved version, which routes every
    /// packet through the muxer's reordering mode.
    pub fn interleaved(self) -> (r: Self)
        ensures
            r == (Encoder { interleaved: true, ..self }),
    {
        Encoder { interleaved: true, ..self }
    }

    /// The codec's internal time base.
    pub fn time_base(&self) -> (r: Rational)
        ensures
            r == self.encoder_time_base,
    {
        self.encoder_time_base
    }

    /// Gate a raw frame into the session. A frame of mismatched dimensions or
    /// an unaccepted pixel format is rejected with `InvalidFrameFormat` and
    /// the session is left exactly as it was: no backend work may follow. An
    /// admissible frame yields the caller's orders: whether the header must
    /// be written first (lazily, on the session's first frame), and whether
    /// this frame is forced to be a key frame by the cadence rule.
    pub fn admit_frame(&mut self, frame: &RawFrame) -> (r: Result<FramePass, EncodeError>)
        requires
            old(self).wf(),
            old(self).stage == Stage::Fresh || old(self).stage == Stage::Started,
        ensures
            final(self).wf(),
            !old(self).frame_ok_spec(*frame) ==> r == Err::<FramePass, EncodeError>(
                EncodeError::InvalidFrameFormat,
            ) && *final(self) == *old(self),
            old(self).frame_ok_spec(*frame) ==> {
                &&& r == Ok::<FramePass, EncodeError>(
                    FramePass {
                        write_header: old(self).stage == Stage::Fresh,
                        force_key: old(self).force_key_spec(),
                    },
                )
                &&& *final(self) == (Encoder {
                    header_pending: old(self).stage == Stage::Fresh,
                    admitted: Ghost((old(self).admitted@ + 1) as nat),
                    ..*old(self)
                })
            },
    {
        if frame.width != self.converter.width || frame.height != self.converter.height || !(
        matches!(frame.format, PixelFormat::Rgb24) || matches!(frame.format, PixelFormat::Bgra)) {
            return Err(EncodeError::InvalidFrameFormat);
        }
        let write_header = matches!(self.stage, Stage::Fresh);
        let force_key = self.frame_count % KEY_FRAME_INTERVAL == 0;
        self.header_pending = write_header;
        proof {
            self.admitted@ = self.admitted@ + 1;
        }
        Ok(FramePass { write_header, force_key })
    }

    /// Record that the container header was written. Only an admitted first
    /// frame obliges the caller to do this, so a header always means at least
    /// one frame was submitted; the session then counts as started.
    pub fn note_header_written(&mut self)
        requires
            old(self).wf(),
            old(self).header_pending,
        ensures
            final(self).wf(),
            *final(self) == (Encoder {
                stage: Stage::Started,
                header_pending: false,
                log: Ghost(old(self).log@.push(MuxEvent::Header)),
                ..*old(self)
            }),
    {
        self.stage = Stage::Started;
        self.header_pending = false;
        proof {
            self.log@ = self.log@.push(MuxEvent::Header);
        }
    }

    /// Whether a frame admitted at this point would be forced to be a key
    /// frame.
    pub fn force_key_now(&self) -> (r: bool)
        ensures
            r == self.force_key_spec(),
    {
        self.frame_count % KEY_FRAME_INTERVAL == 0
    }

    /// Reformat a frame to the codec's pixel format, preserving its
    /// presentation timestamp and key mark.
    pub fn convert_frame(&self, frame: &RawFrame) -> (r: Result<RawFrame, EncodeError>)
        ensures
            frame.width == self.converter.width && frame.height == self.converter.height ==> r
                == Ok::<RawFrame, EncodeError>(
                RawFrame {
                    width: self.converter.width,
                    height: self.converter.height,
                    format: self.converter.dst_format,
                    pts: frame.pts,
                    forced_key: frame.forced_key,
                },
            ),
            !(frame.width == self.converter.width && frame.height == self.converter.height) ==> r
                == Err::<RawFrame, EncodeError>(EncodeError::InvalidFrameFormat),
    {
        self.converter.convert(frame)
    }

    /// Prepare a codec packet for the muxer: tag it with the session's stream
    /// index, invalidate its position marker, and rescale both timestamps
    /// from the codec's time base to the output stream's time base.
    pub fn prepare_packet(&self, packet: Packet, stream_time_base: Rational) -> (r: Packet)
        requires
            self.wf(),
            stream_time_base.valid(),
        ensures
            r.pts as int == rescale_spec(packet.pts as int, self.encoder_time_base, stream_time_base),
            r.dts as int == rescale_spec(packet.dts as int, self.encoder_time_base, stream_time_base),
            r.stream_index == self.stream_index,
            r.position == -1,
    {
        Packet {
            pts: rescale_q(packet.pts, self.encoder_time_base, stream_time_base),
            dts: rescale_q(packet.dts, self.encoder_time_base, stream_time_base),
            stream_index: self.stream_index,
            position: -1,
        }
    }

    /// Record that a prepared packet was written to the muxer. Packets can
    /// only be written while the session is started or draining — strictly
    /// after the header, strictly before the trailer — and each write
    /// advances the output counter that drives the key-frame cadence.
    pub fn note_packet_written(&mut self, packet: &Packet)
        requires
            old(self).wf(),
            old(self).stage == Stage::Started || old(self).stage == Stage::Draining,
            old(self).frame_count < u64::MAX,
        ensures
            final(self).wf(),
            *final(self) == (Encoder {
                frame_count: (old(self).frame_count + 1) as u64,
                log: Ghost(old(self).log@.push(MuxEvent::Packet { pts: packet.pts })),
                ..*old(self)
            }),
    {
        proof {
            self.log@ = self.log@.push(MuxEvent::Packet { pts: packet.pts });
        }
        self.frame_count = self.frame_count + 1;
        proof {
            let log = self.log@;
            let oldlog = old(self).log@;
            assert forall|i: int| 1 <= i < log.len() implies log[i] is Packet by {
                if i < oldlog.len() {
                    assert(log[i] == oldlog[i]);
                }
            }
        }
    }

    /// Commit to finishing the session. The first call on a started session
    /// commits the shutdown and hands the caller the flush job with a fresh
    /// drain budget. A session that never wrote a header finishes silently —
    /// no header means no trailer. A finished session is left untouched, and
    /// asked-for work never comes back: finishing is idempotent.
    pub fn begin_finish(&mut self) -> (r: FinishDisposition)
        requires
            old(self).wf(),
        ensures
            final(self).wf(),
            *final(self) == finish_begin_spec(*old(self)),
            r == (if old(self).stage == Stage::Started {
                FinishDisposition::RunFlush
            } else {
                FinishDisposition::NothingToDo
            }),
    {
        match self.stage {
            Stage::Started => {
                self.stage = Stage::Draining;
                self.drain_budget = MAX_DRAIN_ITERATIONS;
                FinishDisposition::RunFlush
            },
            Stage::Fresh => {
                self.stage = Stage::Finished;
                self.header_pending = false;
                FinishDisposition::NothingToDo
            },
            _ => FinishDisposition::NothingToDo,
        }
    }

    /// Ask leave for one more drain attempt while flushing. Permission is
    /// granted exactly as long as budget remains, and each grant consumes
    /// one unit, so a flush can never poll the codec more than
    /// `MAX_DRAIN_ITERATIONS` times.
    pub fn drain_permit(&mut self) -> (r: bool)
        requires
            old(self).wf(),
            old(self).stage == Stage::Draining,
        ensures
            final(self).wf(),
            r == (old(self).drain_budget > 0),
            r ==> permit_step(*old(self), *final(self)),
            !r ==> *final(self) == *old(self),
    {
        if self.drain_budget > 0 {
            self.drain_budget = self.drain_budget - 1;
            true
        } else {
            false
        }
    }

    /// Record that the container trailer was written. This is only possible
    /// while draining — after the header and after every packet of the
    /// session — and it closes the session for good.
    pub fn note_trailer_written(&mut self)
        requires
            old(self).wf(),
            old(self).stage == Stage::Draining,
        ensures
            final(self).wf(),
            *final(self) == (Encoder {
                stage: Stage::Finished,
                log: Ghost(old(self).log@.push(MuxEvent::Trailer)),
                ..*old(self)
            }),
    {
        self.stage = Stage::Finished;
        proof {
            self.log@ = self.log@.push(MuxEvent::Trailer);
        }
        proof {
            let log = self.log@;
            let oldlog = old(self).log@;
            assert forall|i: int| 1 <= i < log.len() - 1 implies log[i] is Packet by {
                assert(log[i] == oldlog[i]);
            }
        }
    }
}

/// The pure state transition of committing to finish, exposed so that its
/// laws can be stated and proved once and for all.
pub open spec fn finish_begin_spec(s: Encoder) -> Encoder {
    if s.stage == Stage::Started {
        Encoder { stage: Stage::Draining, drain_budget: MAX_DRAIN_ITERATIONS, ..s }
    } else if s.stage == Stage::Fresh {
        Encoder { stage: Stage::Finished, header_pending: false, ..s }
    } else {
        s
    }
}

/// One granted drain attempt: only a draining session with budget left gets
/// one, and it costs exactly one unit of budget.
pub open spec fn permit_step(pre: Encoder, post: Encoder) -> bool {
    &&& pre.stage == Stage::Draining
    &&& pre.drain_budget > 0
    &&& post == (Encoder { drain_budget: (pre.drain_budget - 1) as u32, ..pre })
}

/// Law: packet preparation keeps timestamp order. Two packets whose codec
/// timestamps are in non-decreasing order come out of `prepare_packet` with
/// non-decreasing timestamps in the output stream's time base, so a session
/// fed in presentation order never writes out-of-order timestamps.
pub proof fn lemma_prepared_order(enc: Encoder, t1: int, t2: int, stream_time_base: Rational)
    requires
        enc.wf(),
        stream_time_base.valid(),
        t1 <= t2,
    ensures
        rescale_spec(t1, enc.encoder_time_base, stream_time_base) <= rescale_spec(
            t2,
            enc.encoder_time_base,
            stream_time_base,
        ),
{
    crate::rational::lemma_rescale_monotone(t1, t2, enc.encoder_time_base, stream_time_base);
}

/// Law: finishing is idempotent. Committing to finish a second time changes
/// nothing, so two `finish` calls produce the same observable mux commands as
/// one.
pub proof fn lemma_finish_idempotent(s: Encoder)
    ensures
        finish_begin_spec(finish_begin_spec(s)) == finish_begin_spec(s),
{
}

/// Law: the header is written at most once, always as the very first mux
/// command, strictly before every packet — and only for a session into which
/// at least one frame was admitted.
pub proof fn lemma_header_discipline(s: Encoder)
    requires
        s.wf(),
    ensures
        forall|i: int| 0 <= i < s.log@.len() && s.log@[i] is Header ==> i == 0,
        forall|i: int| 0 <= i < s.log@.len() && #[trigger] s.log@[i] is Packet ==> 0 < i
            && s.log@[0] is Header,
        s.log@.len() > 0 ==> s.log@[0] is Header && s.admitted@ >= 1,
{
}

/// Law: the trailer is written at most once, only as the very last mux
/// command — strictly after the header and after every packet of the session
/// — and only in a finished session that did write a header.
pub proof fn lemma_trailer_discipline(s: Encoder)
    requires
        s.wf(),
    ensures
        forall|i: int| 0 <= i < s.log@.len() && #[trigger] s.log@[i] is Trailer ==> i == s.log@.len()
            - 1 && s.log@[0] is Header && s.stage == Stage::Finished,
        s.stage != Stage::Finished ==> forall|i: int|
            0 <= i < s.log@.len() ==> !(s.log@[i] is Trailer),
{
}

/// Law: key-frame forcing follows the output counter. While a session is
/// running, the cadence decision is true exactly when the number of packets
/// written so far — as recorded in the mux log — is a multiple of
/// `KEY_FRAME_INTERVAL`, so the frames marked are those at output positions
/// 0, 12, 24, … and no others.
pub proof fn lemma_key_frame_cadence(s: Encoder)
    requires
        s.wf(),
        s.stage == Stage::Started || s.stage == Stage::Draining,
    ensures
        s.force_key_spec() <==> (s.log@.len() - 1) % (KEY_FRAME_INTERVAL as int) == 0,
{
    assert(s.log@.len() - 1 == s.frame_count);
}

proof fn lemma_permit_chain_budget(states: Seq<Encoder>, i: int)
    requires
        0 <= i < states.len(),
        forall|j: int| 0 <= j < states.len() - 1 ==> #[trigger] permit_step(states[j], states[j + 1]),
    ensures
        states[i].drain_budget + i == states[0].drain_budget,
    decreases i,
{
    if i > 0 {
        lemma_permit_chain_budget(states, i - 1);
        let j: int = i - 1;
        assert(permit_step(states[j], states[j + 1]));
    }
}

/// Law: the flush loop is bounded. Along any chain of granted drain attempts
/// that starts from a well-formed draining session, at most
/// `MAX_DRAIN_ITERATIONS` permits can ever be granted, however stubbornly the
/// codec keeps answering "not yet".
pub proof fn lemma_flush_bounded(states: Seq<Encoder>)
    requires
        states.len() > 0,
        states[0].wf(),
        forall|j: int| 0 <= j < states.len() - 1 ==> #[trigger] permit_step(states[j], states[j + 1]),
    ensures
        states.len() <= MAX_DRAIN_ITERATIONS + 1,
{
    if states.len() > 1 {
        let j: int = 0;
        assert(permit_step(states[j], states[j + 1]));
        assert(states[0].stage == Stage::Draining);
        assert(states[0].drain_budget <= MAX_DRAIN_ITERATIONS);
        lemma_permit_chain_budget(states, states.len() - 1);
    }
}

} // verus!

//! Decoders: a bitstream parser that drives the callbacks, and a queue of pictures.

use std::collections::VecDeque;
use vstd::prelude::*;
use crate::callback::{failed, failed_text, CallbackState, DEFAULT_NUM_DECODE_SURFACES};
use crate::device::{
    check, choose_device, chosen_device, count_outcome, error_line, error_unavailable,
    finish_context, finish_count, finish_device, finish_init, reply_error, Cuda, CudaContext,
    NvError,
};
use crate::driver::{Call, Machine, Reply, Step};
use crate::error::{Error, ErrorView};
use crate::frame::{CodecParameters, Frame, Packet, VideoFrame};
use crate::queue::{after_receiving, items_come_out_in_order, received};
use crate::resource::{held_after, held_after_all, only, Resource};
use crate::sys::{
    CudaVideoCodec, CUVIDPARSERPARAMS, CUVIDSOURCEDATAPACKET, CUDA_SUCCESS, CUVID_PKT_ENDOFSTREAM,
    CUVID_PKT_TIMESTAMP,
};
use crate::text::join;

verus! {

/// A decoder for one stream.
pub struct NvDecoder {
    pub codec_id: String,
    pub cuda: Cuda,
    /// Current on the thread that made the decoder; outlives parser and decoder.
    pub ctx: CudaContext,
    pub parser: u64,
    /// Pictures that have left the callbacks.
    pub output_queue: VecDeque<VideoFrame>,
    /// Whether the end of the stream has been announced.
    pub flushed: bool,
    /// Whether the error that a callback has put on record has been reported.
    pub reported: bool,
}

/// Which decoder is being made.
pub struct DecoderJob {
    pub codec: CudaVideoCodec,
    pub codec_id: String,
    /// Whether the stream has start codes.
    pub annex_b: bool,
    pub device_index: Option<u32>,
}

/// How far the making of a decoder has come.
#[allow(inconsistent_fields)]
pub enum DecoderStage {
    Init,
    Counting { cuda: Cuda },
    Finding { cuda: Cuda, ordinal: i32 },
    Entering { cuda: Cuda, device: i32 },
    Parsing { cuda: Cuda, ctx: CudaContext },
    /// There will be no decoder; the context is being destroyed.
    Closing { ctx: u64, error: Error },
}

/// Makes a decoder.
pub struct MakeDecoder {
    pub job: DecoderJob,
    pub stage: DecoderStage,
}

/// A parser for a codec.
pub open spec fn parser_for(job: DecoderJob) -> CUVIDPARSERPARAMS {
    CUVIDPARSERPARAMS {
        codec_type: job.codec.number(),
        ul_max_num_decode_surfaces: DEFAULT_NUM_DECODE_SURFACES,
        ul_clock_rate: 0,
        ul_error_threshold: 0,
        ul_max_display_delay: 0,
        flags: if job.annex_b {
            1
        } else {
            0
        },
    }
}

/// An error while the driver is brought up: another backend is to be used.
pub open spec fn start_error(e: (i32, Seq<char>)) -> ErrorView {
    ErrorView::Unsupported("nvidia: "@ + error_line(e))
}

/// An error of the parser: another backend is to be used only where the driver or the
/// device is missing.
pub open spec fn parser_error(e: (i32, Seq<char>)) -> ErrorView {
    if error_unavailable(e) {
        start_error(e)
    } else {
        ErrorView::Other("nvidia parser: "@ + error_line(e))
    }
}

/// Turns an error of the bring-up into one that makes the pipeline fall back.
pub fn map_unsupported(e: NvError) -> (r: Error)
    ensures
        r@ == start_error(e@),
{
    Error::Unsupported(join("nvidia: ", e.to_string().as_str()))
}

fn map_parser(e: NvError) -> (r: Error)
    ensures
        r@ == parser_error(e@),
{
    if e.is_unavailable() {
        map_unsupported(e)
    } else {
        Error::Other(join("nvidia parser: ", e.to_string().as_str()))
    }
}

/// The step that ends in an error.
pub open spec fn is_error<M, T>(step: Step<M, Result<T, Error>>, e: ErrorView) -> bool {
    step matches Step::Done(Err(error)) && error@ == e
}

impl MakeDecoder {
    /// The context that is there.
    pub open spec fn held(self) -> Set<Resource> {
        match self.stage {
            DecoderStage::Parsing { ctx, .. } => only(
                ctx.ctx != 0,
                Resource::Context { ctx: ctx.ctx },
            ),
            DecoderStage::Closing { ctx, .. } => set![Resource::Context { ctx }],
            _ => Set::empty(),
        }
    }

    /// The awaited call.
    pub open spec fn awaits(self) -> Call {
        match self.stage {
            DecoderStage::Init => Call::CuInit { flags: 0 },
            DecoderStage::Counting { .. } => Call::CuDeviceGetCount,
            DecoderStage::Finding { ordinal, .. } => Call::CuDeviceGet { ordinal },
            DecoderStage::Entering { device, .. } => Call::CuCtxCreate { flags: 0, device },
            DecoderStage::Parsing { .. } => Call::CuvidCreateVideoParser {
                params: parser_for(self.job),
            },
            DecoderStage::Closing { ctx, .. } => Call::CuCtxDestroy { ctx },
        }
    }

    /// What follows the reply to the awaited call.
    pub open spec fn follows(
        self,
        reply: Reply,
        step: Step<MakeDecoder, Result<NvDecoder, Error>>,
    ) -> bool {
        match self.stage {
            DecoderStage::Init => match reply_error(reply) {
                Some(e) => is_error(step, start_error(e)),
                None => {
                    &&& step matches Step::Call(call, next)
                    &&& call == next.awaits()
                    &&& next.job == self.job
                    &&& next.stage is Counting
                },
            },
            DecoderStage::Counting { .. } => match count_outcome(reply) {
                Err(e) => is_error(step, start_error(e)),
                Ok(count) => match chosen_device(self.job.device_index, count) {
                    Err(message) => is_error(step, ErrorView::Unsupported(message)),
                    Ok(i) => {
                        &&& step matches Step::Call(call, next)
                        &&& call == next.awaits()
                        &&& next.job == self.job
                        &&& next.stage matches DecoderStage::Finding { ordinal, .. }
                        &&& ordinal == i
                    },
                },
            },
            DecoderStage::Finding { .. } => match reply_error(reply) {
                Some(e) => is_error(step, start_error(e)),
                None => {
                    &&& step matches Step::Call(call, next)
                    &&& call == next.awaits()
                    &&& next.job == self.job
                    &&& next.stage matches DecoderStage::Entering { device, .. }
                    &&& device == reply.number
                },
            },
            DecoderStage::Entering { .. } => match reply_error(reply) {
                Some(e) => is_error(step, start_error(e)),
                None => {
                    &&& step matches Step::Call(call, next)
                    &&& call == next.awaits()
                    &&& next.job == self.job
                    &&& next.stage matches DecoderStage::Parsing { ctx, .. }
                    &&& ctx.ctx == reply.handle
                },
            },
            DecoderStage::Parsing { cuda, ctx } => match reply_error(reply) {
                Some(e) => if ctx.ctx == 0 {
                    is_error(step, parser_error(e))
                } else {
                    &&& step matches Step::Call(call, next)
                    &&& call == next.awaits()
                    &&& next.stage matches DecoderStage::Closing { ctx: closing, error }
                    &&& closing == ctx.ctx
                    &&& error@ == parser_error(e)
                },
                None => {
                    &&& step matches Step::Done(Ok(d))
                    &&& d.codec_id@ == self.job.codec_id@
                    &&& d.ctx == ctx
                    &&& d.parser == reply.handle
                    &&& d.output_queue@.len() == 0
                    &&& !d.flushed
                    &&& !d.reported
                },
            },
            DecoderStage::Closing { error, .. } => is_error(step, error@),
        }
    }
}

impl Machine for MakeDecoder {
    type Output = Result<NvDecoder, Error>;

    fn resume(self, reply: Reply) -> (step: Step<Self, Result<NvDecoder, Error>>)
        ensures
            self.follows(reply, step),
    {
        let MakeDecoder { job, stage } = self;
        match stage {
            DecoderStage::Init => match finish_init(reply) {
                Err(e) => Step::Done(Err(map_unsupported(e))),
                Ok(cuda) => Step::Call(
                    Call::CuDeviceGetCount,
                    MakeDecoder { job, stage: DecoderStage::Counting { cuda } },
                ),
            },
            DecoderStage::Counting { cuda } => match finish_count(reply) {
                Err(e) => Step::Done(Err(map_unsupported(e))),
                Ok(count) => match choose_device(job.device_index, count) {
                    Err(message) => Step::Done(Err(Error::Unsupported(message))),
                    Ok(i) => {
                        let ordinal = i as i32;
                        Step::Call(
                            Call::CuDeviceGet { ordinal },
                            MakeDecoder { job, stage: DecoderStage::Finding { cuda, ordinal } },
                        )
                    },
                },
            },
            DecoderStage::Finding { cuda, .. } => match finish_device(reply) {
                Err(e) => Step::Done(Err(map_unsupported(e))),
                Ok(found) => {
                    let device = found.handle();
                    Step::Call(
                        Call::CuCtxCreate { flags: 0, device },
                        MakeDecoder { job, stage: DecoderStage::Entering { cuda, device } },
                    )
                },
            },
            DecoderStage::Entering { cuda, .. } => match finish_context(reply) {
                Err(e) => Step::Done(Err(map_unsupported(e))),
                Ok(ctx) => {
                    let params = CUVIDPARSERPARAMS {
                        codec_type: job.codec.as_i32(),
                        ul_max_num_decode_surfaces: DEFAULT_NUM_DECODE_SURFACES,
                        ul_clock_rate: 0,
                        ul_error_threshold: 0,
                        ul_max_display_delay: 0,
                        flags: if job.annex_b {
                            1
                        } else {
                            0
                        },
                    };
                    Step::Call(
                        Call::CuvidCreateVideoParser { params },
                        MakeDecoder { job, stage: DecoderStage::Parsing { cuda, ctx } },
                    )
                },
            },
            DecoderStage::Parsing { cuda, ctx } => match check(reply) {
                Err(e) => {
                    let error = map_parser(e);
                    let raw = ctx.raw();
                    match ctx.release() {
                        None => Step::Done(Err(error)),
                        Some(call) => Step::Call(
                            call,
                            MakeDecoder { job, stage: DecoderStage::Closing { ctx: raw, error } },
                        ),
                    }
                },
                Ok(reply) => Step::Done(
                    Ok(
                        NvDecoder {
                            codec_id: job.codec_id,
                            cuda,
                            ctx,
                            parser: reply.handle,
                            output_queue: VecDeque::new(),
                            flushed: false,
                            reported: false,
                        },
                    ),
                ),
            },
            DecoderStage::Closing { error, .. } => Step::Done(Err(error)),
        }
    }
}

/// The packet that hands compressed data to the parser.
pub open spec fn data_packet(packet: Packet) -> CUVIDSOURCEDATAPACKET {
    CUVIDSOURCEDATAPACKET {
        flags: if packet.pts is Some {
            CUVID_PKT_TIMESTAMP as u64
        } else {
            0
        },
        payload_size: packet.data@.len() as u64,
        has_payload: packet.data@.len() > 0,
        timestamp: match packet.pts {
            Some(t) => t,
            None => 0,
        },
    }
}

/// The packet that announces the end of the stream.
pub open spec fn end_packet() -> CUVIDSOURCEDATAPACKET {
    CUVIDSOURCEDATAPACKET {
        flags: CUVID_PKT_ENDOFSTREAM as u64,
        payload_size: 0,
        has_payload: false,
        timestamp: 0,
    }
}

/// The calls that tear a decoder down: parser, decoder, context.
pub open spec fn close_calls(parser: u64, decoder: u64, ctx: u64, loaded: bool) -> Seq<Call> {
    let a = if loaded && parser != 0 {
        seq![Call::CuvidDestroyVideoParser { parser }]
    } else {
        Seq::empty()
    };
    let b = if loaded && decoder != 0 {
        a.push(Call::CuvidDestroyDecoder { decoder })
    } else {
        a
    };
    if ctx != 0 {
        b.push(Call::CuCtxDestroy { ctx })
    } else {
        b
    }
}

/// What becomes of a decoder that is fed a packet: the packet goes to its parser, with all of
/// its bytes, unless there is an error to report.
pub open spec fn feeds(
    before: NvDecoder,
    packet: Packet,
    state: CallbackState,
    load_error: Option<String>,
    after: NvDecoder,
    r: Result<Call, Error>,
) -> bool {
    &&& before.same_stream(after)
    &&& after.output_queue == before.output_queue
    &&& !after.flushed
    &&& after.reported == (before.reported || state.error is Some)
    &&& match state.error {
        Some(first) => r matches Err(e) && e@ == ErrorView::Other(first@),
        None => match load_error {
            Some(m) => r matches Err(e) && e@ == ErrorView::Unsupported("nvidia: "@ + m@),
            None => r == Ok::<Call, Error>(
                Call::CuvidParseVideoData {
                    parser: before.parser,
                    packet: data_packet(packet),
                    payload: packet.data,
                },
            ),
        },
    }
}

/// What becomes of a decoder whose parser has run: it takes the pictures over, unless there is
/// an error to report.
pub open spec fn has_fed(
    before: NvDecoder,
    state: CallbackState,
    reply: Reply,
    after: NvDecoder,
    state_after: CallbackState,
    r: Result<(), Error>,
) -> bool {
    &&& before.same_stream(after)
    &&& after.flushed == before.flushed
    &&& state_after.error == state.error
    &&& state_after.decoder == state.decoder
    &&& state_after.geometry == state.geometry
    &&& after.pending(state_after) == before.pending(state)
    &&& after.reported == (before.reported || (reply.status == 0 && state.error is Some))
    &&& if reply.status != 0 {
        &&& r matches Err(e)
        &&& e@ == ErrorView::Other(failed_text("cuvidParseVideoData"@, reply.status))
        &&& state_after == state
    } else {
        match state.error {
            Some(first) => {
                &&& r matches Err(e)
                &&& e@ == ErrorView::Other(first@)
                &&& state_after == state
            },
            None => r is Ok && state_after.frames@.len() == 0,
        }
    }
}

/// What becomes of a decoder that is asked for a picture: the first one is handed out, unless
/// there is an error to report.
pub open spec fn hands_out(
    before: NvDecoder,
    state: CallbackState,
    after: NvDecoder,
    state_after: CallbackState,
    r: Result<Frame, Error>,
) -> bool {
    &&& before.same_stream(after)
    &&& after.flushed == before.flushed
    &&& state_after.error == state.error
    &&& state_after.decoder == state.decoder
    &&& state_after.geometry == state.geometry
    &&& match before.due(state) {
        Some(first) => {
            &&& r matches Err(e)
            &&& e@ == ErrorView::Other(first)
            &&& before.has_reported(after)
            &&& state_after == state
        },
        None => {
            &&& after.reported == before.reported
            &&& match received(before.pending(state), before.flushed) {
                Ok(frame) => {
                    &&& r == Ok::<Frame, Error>(Frame::Video(frame))
                    &&& after.pending(state_after) == before.pending(state).drop_first()
                },
                Err(e) => {
                    &&& r matches Err(error)
                    &&& error@ == e
                    &&& after.pending(state_after).len() == 0
                },
            }
        },
    }
}

/// What becomes of a decoder whose stream is about to end: the end is announced to its parser,
/// unless there is an error to report.
pub open spec fn starts_to_end(
    before: NvDecoder,
    state: CallbackState,
    loaded: bool,
    after: NvDecoder,
    r: Result<Option<Call>, Error>,
) -> bool {
    match before.due(state) {
        Some(first) => {
            &&& r matches Err(e)
            &&& e@ == ErrorView::Other(first)
            &&& before.has_reported(after)
        },
        None => {
            &&& after == before
            &&& if loaded {
                &&& r matches Ok(Some(Call::CuvidParseVideoData { parser, packet, payload }))
                &&& parser == before.parser
                &&& packet == end_packet()
                &&& payload@.len() == 0
            } else {
                r == Ok::<Option<Call>, Error>(None)
            }
        },
    }
}

/// What becomes of a decoder whose stream has ended: it takes the last pictures over.
pub open spec fn has_ended(
    before: NvDecoder,
    state: CallbackState,
    after: NvDecoder,
    state_after: CallbackState,
) -> bool {
    &&& before.same_stream(after)
    &&& after.flushed
    &&& after.reported == before.reported
    &&& after.output_queue@ == before.pending(state)
    &&& state_after.frames@.len() == 0
    &&& state_after.error == state.error
    &&& state_after.decoder == state.decoder
    &&& state_after.geometry == state.geometry
}

impl NvDecoder {
    /// The pictures that are ready, in the order in which they are to be shown: those
    /// that have left the callbacks, then those that have not.
    pub open spec fn pending(self, state: CallbackState) -> Seq<VideoFrame> {
        self.output_queue@ + state.frames@
    }

    /// What stays as it is for the life of a decoder.
    pub open spec fn same_stream(self, other: NvDecoder) -> bool {
        &&& other.codec_id == self.codec_id
        &&& other.cuda == self.cuda
        &&& other.ctx == self.ctx
        &&& other.parser == self.parser
    }

    /// The error that the next method has to report: the one on record, unless a
    /// method has reported it.
    pub open spec fn due(self, state: CallbackState) -> Option<Seq<char>> {
        match state.error {
            Some(first) if !self.reported => Some(first@),
            _ => None,
        }
    }

    /// Whether a method that became `after` has reported the error on record and done
    /// nothing else.
    pub open spec fn has_reported(self, after: NvDecoder) -> bool {
        &&& self.same_stream(after)
        &&& after.reported
        &&& after.flushed == self.flushed
        &&& after.output_queue == self.output_queue
    }

    /// Makes a decoder for `codec`, known to the pipeline as `codec_id`. The parser
    /// reports to a [`CallbackState`] that the caller keeps.
    pub fn make_for(
        codec: CudaVideoCodec,
        codec_id: &str,
        is_annex_b: bool,
        params: &CodecParameters,
    ) -> (step: Step<MakeDecoder, Result<NvDecoder, Error>>)
        ensures
            step matches Step::Call(call, m) && call == m.awaits() && m.stage is Init
                && m.job.codec == codec && m.job.codec_id@ == codec_id@ && m.job.annex_b
                == is_annex_b && m.job.device_index == params.device_index,
    {
        let job = DecoderJob {
            codec,
            codec_id: String::from_str(codec_id),
            annex_b: is_annex_b,
            device_index: params.device_index,
        };
        Step::Call(Call::CuInit { flags: 0 }, MakeDecoder { job, stage: DecoderStage::Init })
    }

    /// Which codec is decoded.
    pub fn codec_id(&self) -> (id: &String)
        ensures
            *id == self.codec_id,
    {
        &self.codec_id
    }

    /// Takes the pictures over from the callbacks.
    pub fn pull_frames(&mut self, state: &mut CallbackState)
        ensures
            old(self).same_stream(*final(self)),
            final(self).flushed == old(self).flushed,
            final(self).reported == old(self).reported,
            final(self).output_queue@ == old(self).pending(*old(state)),
            final(state).frames@.len() == 0,
            final(state).decoder == old(state).decoder,
            final(state).geometry == old(state).geometry,
            final(state).error == old(state).error,
    {
        self.output_queue.append(&mut state.frames);
    }

    /// Starts to feed a packet: the call that hands it to the parser, with the bytes
    /// of the packet as payload. An error that a callback has put on record is
    /// reported instead, every time, and nothing is fed; so it is where the driver is
    /// not loaded.
    pub fn send_packet(
        &mut self,
        packet: Packet,
        state: &CallbackState,
        load_error: Option<String>,
    ) -> (r: Result<Call, Error>)
        ensures
            feeds(*old(self), packet, *state, load_error, *final(self), r),
    {
        self.flushed = false;
        if let Some(first) = &state.error {
            self.reported = true;
            return Err(Error::Other(first.clone()));
        }
        if let Some(m) = load_error {
            return Err(Error::Unsupported(join("nvidia: ", m.as_str())));
        }
        let timestamp: i64 = match packet.pts {
            Some(t) => t,
            None => 0,
        };
        let flags: u64 = if packet.pts.is_some() {
            CUVID_PKT_TIMESTAMP as u64
        } else {
            0
        };
        let source = CUVIDSOURCEDATAPACKET {
            flags,
            payload_size: packet.data.len() as u64,
            has_payload: packet.data.len() > 0,
            timestamp,
        };
        Ok(
            Call::CuvidParseVideoData {
                parser: self.parser,
                packet: source,
                payload: packet.data,
            },
        )
    }

    /// Ends the feeding of a packet, once the parser has run the callbacks.
    pub fn finish_packet(&mut self, reply: Reply, state: &mut CallbackState) -> (r: Result<
        (),
        Error,
    >)
        ensures
            has_fed(*old(self), *old(state), reply, *final(self), *final(state), r),
    {
        if reply.status != CUDA_SUCCESS {
            return Err(Error::Other(failed("cuvidParseVideoData", reply.status)));
        }
        if let Some(first) = &state.error {
            self.reported = true;
            return Err(Error::Other(first.clone()));
        }
        self.pull_frames(state);
        Ok(())
    }

    /// Reports the error that a callback has put on record, unless that has been done.
    fn report(&mut self, state: &CallbackState) -> (r: Option<Error>)
        ensures
            match old(self).due(*state) {
                Some(first) => {
                    &&& r matches Some(e)
                    &&& e@ == ErrorView::Other(first)
                    &&& old(self).has_reported(*final(self))
                },
                None => r is None && *final(self) == *old(self),
            },
    {
        if self.reported {
            return None;
        }
        match &state.error {
            Some(first) => {
                self.reported = true;
                Some(Error::Other(first.clone()))
            },
            None => None,
        }
    }

    /// Hands out the next picture in display order. An error that a callback has put
    /// on record and that no method has reported yet is reported first, and the
    /// pictures stay where they are; after that they come out.
    pub fn receive_frame(&mut self, state: &mut CallbackState) -> (r: Result<Frame, Error>)
        ensures
            hands_out(*old(self), *old(state), *final(self), *final(state), r),
    {
        if let Some(e) = self.report(state) {
            return Err(e);
        }
        self.pull_frames(state);
        match self.output_queue.pop_front() {
            Some(frame) => {
                assert(self.pending(*state) =~= old(self).pending(*old(state)).drop_first());
                Ok(Frame::Video(frame))
            },
            None => Err(
                if self.flushed {
                    Error::Eof
                } else {
                    Error::NeedMore
                },
            ),
        }
    }

    /// Starts to end the stream: the call that announces it to the parser, which then
    /// shows what it still has. Without a driver there is nothing to call. An error
    /// that a callback has put on record and that no method has reported yet is
    /// reported instead, and the stream goes on until it is flushed again.
    pub fn flush(&mut self, state: &CallbackState, loaded: bool) -> (r: Result<
        Option<Call>,
        Error,
    >)
        ensures
            starts_to_end(*old(self), *state, loaded, *final(self), r),
    {
        if let Some(e) = self.report(state) {
            return Err(e);
        }
        if loaded {
            let packet = CUVIDSOURCEDATAPACKET {
                flags: CUVID_PKT_ENDOFSTREAM as u64,
                payload_size: 0,
                has_payload: false,
                timestamp: 0,
            };
            Ok(
                Some(
                    Call::CuvidParseVideoData { parser: self.parser, packet, payload: Vec::new() },
                ),
            )
        } else {
            Ok(None)
        }
    }

    /// Ends the stream, whatever the parser said. An error that a callback has put on
    /// record meanwhile is for the next method to report.
    pub fn finish_flush(&mut self, state: &mut CallbackState)
        ensures
            has_ended(*old(self), *old(state), *final(self), *final(state)),
    {
        self.pull_frames(state);
        self.flushed = true;
    }

    /// Tears the decoder down: the calls to make, in this order.
    pub fn close(self, state: &mut CallbackState, loaded: bool) -> (calls: Vec<Call>)
        ensures
            calls@ == close_calls(self.parser, old(state).decoder, self.ctx.ctx, loaded),
            final(state).decoder == (if loaded {
                0
            } else {
                old(state).decoder
            }),
            final(state).geometry == old(state).geometry,
            final(state).frames == old(state).frames,
            final(state).error == old(state).error,
    {
        let mut calls: Vec<Call> = Vec::new();
        if loaded {
            if self.parser != 0 {
                calls.push(Call::CuvidDestroyVideoParser { parser: self.parser });
            }
            if state.decoder != 0 {
                calls.push(Call::CuvidDestroyDecoder { decoder: state.decoder });
                state.decoder = 0;
            }
        }
        if let Some(call) = self.ctx.release() {
            calls.push(call);
        }
        calls
    }
}

/// An error holds pictures back no longer than until a method has reported it: from
/// then on there is none to report, whatever the callbacks put on record, and the
/// pictures that are ready come out in order.
pub proof fn reported_error_holds_no_picture_back(d: NvDecoder, state: CallbackState, n: nat)
    requires
        d.reported,
        n < d.pending(state).len(),
    ensures
        forall|later: CallbackState| #[trigger] d.due(later) is None,
        received(after_receiving(d.pending(state), n), d.flushed) == Ok::<VideoFrame, ErrorView>(
            d.pending(state)[n as int],
        ),
{
    items_come_out_in_order(d.pending(state), d.flushed, n);
}

/// What a decoder and its callbacks hold.
pub open spec fn stream_held(parser: u64, decoder: u64, ctx: u64) -> Set<Resource> {
    only(parser != 0, Resource::Parser { parser }).union(
        only(decoder != 0, Resource::Decoder { decoder }),
    ).union(only(ctx != 0, Resource::Context { ctx }))
}

/// The making of a decoder leaks nothing: a decoder that is made holds the parser and
/// the context, and one that is not made leaves nothing behind, whatever the driver
/// replies.
pub proof fn making_leaks_nothing(
    m: MakeDecoder,
    reply: Reply,
    step: Step<MakeDecoder, Result<NvDecoder, Error>>,
)
    requires
        m.follows(reply, step),
    ensures
        match step {
            Step::Call(call, next) => {
                &&& call == next.awaits()
                &&& next.held() =~= held_after(m.held(), m.awaits(), reply)
            },
            Step::Done(Ok(d)) => stream_held(d.parser, 0, d.ctx.ctx) =~= held_after(
                m.held(),
                m.awaits(),
                reply,
            ),
            Step::Done(Err(_)) => held_after(m.held(), m.awaits(), reply) =~= Set::empty(),
        },
{
}

/// Whatever goes wrong before there is a context, the pipeline falls back to another
/// decoder: the error says "unsupported".
pub proof fn bring_up_errors_fall_back(
    m: MakeDecoder,
    reply: Reply,
    step: Step<MakeDecoder, Result<NvDecoder, Error>>,
)
    requires
        m.follows(reply, step),
        !(m.stage is Parsing),
        !(m.stage is Closing),
    ensures
        step matches Step::Done(r) ==> (r matches Err(e) && e@ is Unsupported),
{
}

/// Neither does a parser keep the pipeline from falling back where the driver is not
/// loaded or has no device.
pub proof fn missing_driver_falls_back(reply: Reply)
    requires
        reply.load_error is Some || reply.status == 100,
    ensures
        reply_error(reply) matches Some(e) && parser_error(e) is Unsupported,
{
}

/// A decoder that is closed gives everything back, and the context last.
pub proof fn closing_gives_everything_back(parser: u64, decoder: u64, ctx: u64)
    ensures
        held_after_all(
            stream_held(parser, decoder, ctx),
            close_calls(parser, decoder, ctx, true),
        ) =~= Set::empty(),
        ctx != 0 ==> close_calls(parser, decoder, ctx, true).last() == (Call::CuCtxDestroy { ctx }),
{
    reveal_with_fuel(held_after_all, 4);
    let calls = close_calls(parser, decoder, ctx, true);
    let a = close_calls(parser, 0, 0, true);
    let b = close_calls(parser, decoder, 0, true);
    if ctx != 0 {
        assert(calls.drop_last() =~= b);
    }
    if decoder != 0 {
        assert(b.drop_last() =~= a);
    }
    if parser != 0 {
        assert(a.drop_last() =~= Seq::empty());
    }
}

/// H.264.
pub struct H264NvDecoder;

/// HEVC.
pub struct HevcNvDecoder;

/// AV1, as a stream of open bitstream units.
pub struct Av1NvDecoder;

/// VP9, one superframe per packet.
pub struct Vp9NvDecoder;

/// MPEG-2 video, as an elementary stream.
pub struct Mpeg2NvDecoder;

/// The start of the making of a decoder.
pub open spec fn starts(
    step: Step<MakeDecoder, Result<NvDecoder, Error>>,
    codec: CudaVideoCodec,
    codec_id: Seq<char>,
    annex_b: bool,
    device_index: Option<u32>,
) -> bool {
    &&& step matches Step::Call(call, m)
    &&& call == m.awaits()
    &&& m.stage is Init
    &&& m.job.codec == codec
    &&& m.job.codec_id@ == codec_id
    &&& m.job.annex_b == annex_b
    &&& m.job.device_index == device_index
}

/// The start of the making of an H.264 decoder.
pub open spec fn starts_h264(
    step: Step<MakeDecoder, Result<NvDecoder, Error>>,
    params: CodecParameters,
) -> bool {
    starts(step, CudaVideoCodec::H264, "h264"@, true, params.device_index)
}

impl H264NvDecoder {
    /// Makes an H.264 decoder; the stream has start codes.
    pub fn make(params: &CodecParameters) -> (step: Step<MakeDecoder, Result<NvDecoder, Error>>)
        ensures
            starts_h264(step, *params),
    {
        NvDecoder::make_for(CudaVideoCodec::H264, "h264", true, params)
    }
}

/// The start of the making of an HEVC decoder.
pub open spec fn starts_hevc(
    step: Step<MakeDecoder, Result<NvDecoder, Error>>,
    params: CodecParameters,
) -> bool {
    starts(step, CudaVideoCodec::Hevc, "hevc"@, true, params.device_index)
}

impl HevcNvDecoder {
    /// Makes an HEVC decoder; the stream has start codes.
    pub fn make(params: &CodecParameters) -> (step: Step<MakeDecoder, Result<NvDecoder, Error>>)
        ensures
            starts_hevc(step, *params),
    {
        NvDecoder::make_for(CudaVideoCodec::Hevc, "hevc", true, params)
    }
}

/// The start of the making of an AV1 decoder.
pub open spec fn starts_av1(
    step: Step<MakeDecoder, Result<NvDecoder, Error>>,
    params: CodecParameters,
) -> bool {
    starts(step, CudaVideoCodec::Av1, "av1"@, false, params.device_index)
}

impl Av1NvDecoder {
    /// Makes an AV1 decoder.
    pub fn make(params: &CodecParameters) -> (step: Step<MakeDecoder, Result<NvDecoder, Error>>)
        ensures
            starts_av1(step, *params),
    {
        NvDecoder::make_for(CudaVideoCodec::Av1, "av1", false, params)
    }
}

/// The start of the making of a VP9 decoder.
pub open spec fn starts_vp9(
    step: Step<MakeDecoder, Result<NvDecoder, Error>>,
    params: CodecParameters,
) -> bool {
    starts(step, CudaVideoCodec::Vp9, "vp9"@, false, params.device_index)
}

impl Vp9NvDecoder {
    /// Makes a VP9 decoder.
    pub fn make(params: &CodecParameters) -> (step: Step<MakeDecoder, Result<NvDecoder, Error>>)
        ensures
            starts_vp9(step, *params),
    {
        NvDecoder::make_for(CudaVideoCodec::Vp9, "vp9", false, params)
    }
}

/// The start of the making of an MPEG-2 decoder.
pub open spec fn starts_mpeg2(
    step: Step<MakeDecoder, Result<NvDecoder, Error>>,
    params: CodecParameters,
) -> bool {
    starts(step, CudaVideoCodec::Mpeg2, "mpeg2video"@, false, params.device_index)
}

impl Mpeg2NvDecoder {
    /// Makes an MPEG-2 decoder.
    pub fn make(params: &CodecParameters) -> (step: Step<MakeDecoder, Result<NvDecoder, Error>>)
        ensures
            starts_mpeg2(step, *params),
    {
        NvDecoder::make_for(CudaVideoCodec::Mpeg2, "mpeg2video", false, params)
    }
}

/// A parser that cannot be made makes the pipeline fall back if and only if there is no usable
/// driver or device.
pub proof fn refused_parser_is_explained(e: (i32, Seq<char>))
    ensures
        error_unavailable(e) ==> parser_error(e) == ErrorView::Unsupported(
            "nvidia: "@ + error_line(e),
        ),
        !error_unavailable(e) ==> parser_error(e) == ErrorView::Other(
            "nvidia parser: "@ + error_line(e),
        ),
{
}

} // verus!

//! How an encode session is brought up, and taken down again where that fails.

use std::collections::VecDeque;
use vstd::prelude::*;
use crate::config::{blank_config, make_blank_config, make_profile_config, profile_config};
use crate::decoder::{is_error, start_error};
use crate::device::{
    choose_device, chosen_device, count_outcome, error_line, error_unavailable, finish_context,
    finish_count, finish_device, finish_init, reply_error, Cuda, CudaContext, NvError,
};
use crate::driver::{Call, Machine, Reply, Step};
use crate::encoder::NvEncoder;
use crate::error::{Error, ErrorView};
use crate::frame::{CodecParameters, PixelFormat, Rational};
use crate::resource::{held_after, only, Resource};
use crate::sys::{
    is_preset_p4, nv_enc_preset_p4_guid, Guid, NvEncCreateBitstreamBuffer, NvEncCreateInputBuffer,
    NvEncInitializeParams, NvEncOpenEncodeSessionExParams, NvEncPresetConfig,
    NvEncodeApiFunctionList, NVENCAPI_VERSION, NV_ENCODE_API_FUNCTION_LIST_VER,
    NV_ENC_BUFFER_FORMAT_NV12, NV_ENC_CREATE_BITSTREAM_BUFFER_VER, NV_ENC_CREATE_INPUT_BUFFER_VER,
    NV_ENC_DEVICE_TYPE_CUDA, NV_ENC_INITIALIZE_PARAMS_VER,
    NV_ENC_OPEN_ENCODE_SESSION_EX_PARAMS_VER, NV_ENC_PRESET_CONFIG_VER, NV_ENC_SUCCESS,
    NV_ENC_TUNING_INFO_HIGH_QUALITY,
};
use crate::text::{contains, contains_text, i32_text, int_text, join};

verus! {

/// Which encoder is being made.
pub struct EncoderJob {
    pub codec: Guid,
    pub profile: Guid,
    pub codec_id: String,
    pub width: Option<u32>,
    pub height: Option<u32>,
    pub frame_rate: Option<Rational>,
    pub bit_rate: Option<u64>,
    pub device_index: Option<u32>,
}

/// The larger of a wish, or of a default where there is none, and a least value.
pub open spec fn at_least(wish: Option<u32>, default: u32, least: u32) -> u32 {
    let n = match wish {
        Some(n) => n,
        None => default,
    };
    if n < least {
        least
    } else {
        n
    }
}

fn pick(wish: Option<u32>, default: u32, least: u32) -> (r: u32)
    ensures
        r == at_least(wish, default, least),
{
    let n: u32 = match wish {
        Some(n) => n,
        None => default,
    };
    if n < least {
        least
    } else {
        n
    }
}

impl EncoderJob {
    /// Width of the pictures: 320 by default and never less than 160.
    pub open spec fn picture_width(self) -> u32 {
        at_least(self.width, 320, 160)
    }

    /// Height of the pictures: 240 by default and never less than 64.
    pub open spec fn picture_height(self) -> u32 {
        at_least(self.height, 240, 64)
    }

    /// Pictures per second as a fraction of 32-bit numbers, higher bits cut off: 30
    /// where there is no wish, or one whose denominator is not positive.
    pub open spec fn picture_rate(self) -> (u32, u32) {
        match self.frame_rate {
            Some(fr) if fr.den > 0 => (fr.num as u32, fr.den as u32),
            _ => (30, 1),
        }
    }

    fn get_width(&self) -> (w: u32)
        ensures
            w == self.picture_width(),
    {
        pick(self.width, 320, 160)
    }

    fn get_height(&self) -> (h: u32)
        ensures
            h == self.picture_height(),
    {
        pick(self.height, 240, 64)
    }

    fn get_rate(&self) -> (r: (u32, u32))
        ensures
            r == self.picture_rate(),
    {
        if let Some(fr) = self.frame_rate {
            if fr.den > 0 {
                return (
                    #[verifier::truncate] (fr.num as u32),
                    #[verifier::truncate] (fr.den as u32),
                );
            }
        }
        (30, 1)
    }
}

/// An error while the driver is brought up for encoding: another backend is to be
/// used only where the driver or the device is missing.
pub open spec fn encoder_error(e: (i32, Seq<char>)) -> ErrorView {
    if error_unavailable(e) {
        start_error(e)
    } else {
        ErrorView::Other("nvidia: "@ + error_line(e))
    }
}

fn map_encoder(e: NvError) -> (r: Error)
    ensures
        r@ == encoder_error(e@),
{
    let line = join("nvidia: ", e.to_string().as_str());
    if e.is_unavailable() {
        Error::Unsupported(line)
    } else {
        Error::Other(line)
    }
}

/// The table of encode entry points that a reply holds, or why there is none.
pub open spec fn table_outcome(reply: Reply) -> Result<NvEncodeApiFunctionList, Seq<char>> {
    match reply.load_error {
        Some(e) => Err("nvidia vtable: "@ + e@),
        None => if reply.status != 0 {
            Err("NvEncodeAPICreateInstance failed: NVENCSTATUS "@ + int_text(reply.status as int))
        } else {
            Ok(reply.table)
        },
    }
}

/// The table of encode entry points, from the reply to the call that fetches it.
pub fn nvenc_fns(reply: Reply) -> (r: Result<NvEncodeApiFunctionList, String>)
    ensures
        match r {
            Ok(t) => table_outcome(reply) == Ok::<_, Seq<char>>(t),
            Err(m) => table_outcome(reply) == Err::<NvEncodeApiFunctionList, _>(m@),
        },
{
    match reply.load_error {
        Some(e) => Err(join("nvidia vtable: ", e.as_str())),
        None => {
            if reply.status != NV_ENC_SUCCESS {
                Err(
                    join(
                        "NvEncodeAPICreateInstance failed: NVENCSTATUS ",
                        i32_text(reply.status).as_str(),
                    ),
                )
            } else {
                Ok(reply.table)
            }
        },
    }
}

/// An error of the table: another backend is to be used where a library or an entry
/// point is missing.
pub open spec fn table_error(message: Seq<char>) -> ErrorView {
    if contains_text(message, "dlopen"@) || contains_text(message, "dlsym"@) || contains_text(
        message,
        "vtable"@,
    ) {
        ErrorView::Unsupported("nvidia: "@ + message)
    } else {
        ErrorView::Other("nvidia nvenc: "@ + message)
    }
}

fn map_table(message: String) -> (r: Error)
    ensures
        r@ == table_error(message@),
{
    if contains(message.as_str(), "dlopen") || contains(message.as_str(), "dlsym") || contains(
        message.as_str(),
        "vtable",
    ) {
        Error::Unsupported(join("nvidia: ", message.as_str()))
    } else {
        Error::Other(join("nvidia nvenc: ", message.as_str()))
    }
}

/// The error for an entry point that the table lacks.
pub open spec fn slot_error(name: Seq<char>) -> ErrorView {
    ErrorView::Unsupported("nvidia: "@ + name + " not in fn table"@)
}

pub(crate) fn missing_slot(name: &str) -> (r: Error)
    ensures
        r@ == slot_error(name@),
{
    let s = join("nvidia: ", name);
    Error::Unsupported(join(s.as_str(), " not in fn table"))
}

/// What is said of an encode call that failed, with the driver's own words if it has
/// any.
pub open spec fn status_text(op: Seq<char>, status: i32, detail: Seq<char>) -> Seq<char> {
    let text = op + " failed: NVENCSTATUS "@ + int_text(status as int);
    if detail.len() == 0 {
        text
    } else {
        text + " — "@ + detail
    }
}

/// The error for an encode call that failed.
pub fn map_nvenc_status(op: &str, status: i32, detail: &str) -> (e: Error)
    ensures
        e@ == ErrorView::Other(status_text(op@, status, detail@)),
{
    let s = join(op, " failed: NVENCSTATUS ");
    let s = join(s.as_str(), i32_text(status).as_str());
    if detail.unicode_len() == 0 {
        Error::Other(s)
    } else {
        let s = join(s.as_str(), " — ");
        Error::Other(join(s.as_str(), detail))
    }
}

/// The driver's own words in a reply; none if it gave a null string.
pub open spec fn detail_of(reply: Reply) -> Seq<char> {
    match reply.text {
        Some(t) => t@,
        None => Seq::empty(),
    }
}

pub(crate) fn take_detail(reply: Reply) -> (s: String)
    ensures
        s@ == detail_of(reply),
{
    match reply.text {
        Some(t) => t,
        None => {
            let s = String::new();
            assert(s@ =~= Seq::empty());
            s
        },
    }
}

/// Whether the driver can be asked for its own words.
pub open spec fn can_ask(fns: NvEncodeApiFunctionList, encoder: u64) -> bool {
    fns.nv_enc_get_last_error_string != 0 && encoder != 0
}

/// A session on the way up.
pub struct Session {
    pub cuda: Cuda,
    pub ctx: CudaContext,
    pub fns: NvEncodeApiFunctionList,
    pub encoder: u64,
}

/// A session on the way down, after an encode call that failed.
pub struct Unwind {
    pub encoder: u64,
    /// Whether the session has to go before the driver is asked.
    pub early: bool,
    /// Whether the driver is still to be asked for its own words.
    pub ask: bool,
    /// The input buffer that is still there.
    pub input: Option<u64>,
    /// Whether the session is still there.
    pub session: bool,
    /// The context that is still there, or 0.
    pub ctx: u64,
    pub op: String,
    pub status: i32,
    pub detail: String,
}

/// An [`Unwind`] with its texts as characters.
pub struct UnwindView {
    pub encoder: u64,
    pub early: bool,
    pub ask: bool,
    pub input: Option<u64>,
    pub session: bool,
    pub ctx: u64,
    pub op: Seq<char>,
    pub status: i32,
    pub detail: Seq<char>,
}

impl View for Unwind {
    type V = UnwindView;

    open spec fn view(&self) -> UnwindView {
        UnwindView {
            encoder: self.encoder,
            early: self.early,
            ask: self.ask,
            input: self.input,
            session: self.session,
            ctx: self.ctx,
            op: self.op@,
            status: self.status,
            detail: self.detail@,
        }
    }
}

impl UnwindView {
    /// The next call on the way down: input buffer before session before context, and
    /// the driver is asked first of all, or right after the session has gone.
    pub open spec fn next_call(self) -> Option<Call> {
        if self.early && self.session {
            Some(Call::NvEncDestroyEncoder { encoder: self.encoder })
        } else if self.ask {
            Some(Call::NvEncGetLastErrorString { encoder: self.encoder })
        } else if self.input is Some {
            Some(Call::NvEncDestroyInputBuffer { encoder: self.encoder, buffer: self.input->0 })
        } else if self.session {
            Some(Call::NvEncDestroyEncoder { encoder: self.encoder })
        } else if self.ctx != 0 {
            Some(Call::CuCtxDestroy { ctx: self.ctx })
        } else {
            None
        }
    }

    /// What is left after that call.
    pub open spec fn after(self, reply: Reply) -> UnwindView {
        if self.early && self.session {
            UnwindView { session: false, ..self }
        } else if self.ask {
            UnwindView { ask: false, detail: detail_of(reply), ..self }
        } else if self.input is Some {
            UnwindView { input: None, ..self }
        } else if self.session {
            UnwindView { session: false, ..self }
        } else {
            UnwindView { ctx: 0, ..self }
        }
    }

    /// What is still there.
    pub open spec fn held(self) -> Set<Resource> {
        only(
            self.input is Some,
            Resource::InputBuffer { encoder: self.encoder, buffer: self.input->0 },
        ).union(only(self.session, Resource::Session { encoder: self.encoder })).union(
            only(self.ctx != 0, Resource::Context { ctx: self.ctx }),
        )
    }
}

impl Unwind {
    fn next_call(&self) -> (call: Option<Call>)
        ensures
            call == self@.next_call(),
    {
        if self.early && self.session {
            return Some(Call::NvEncDestroyEncoder { encoder: self.encoder });
        }
        if self.ask {
            return Some(Call::NvEncGetLastErrorString { encoder: self.encoder });
        }
        if let Some(buffer) = self.input {
            return Some(Call::NvEncDestroyInputBuffer { encoder: self.encoder, buffer });
        }
        if self.session {
            return Some(Call::NvEncDestroyEncoder { encoder: self.encoder });
        }
        if self.ctx != 0 {
            return Some(Call::CuCtxDestroy { ctx: self.ctx });
        }
        None
    }

    fn after(self, reply: Reply) -> (u: Unwind)
        ensures
            u@ == self@.after(reply),
    {
        if self.early && self.session {
            Unwind { session: false, ..self }
        } else if self.ask {
            Unwind { ask: false, detail: take_detail(reply), ..self }
        } else if self.input.is_some() {
            Unwind { input: None, ..self }
        } else if self.session {
            Unwind { session: false, ..self }
        } else {
            Unwind { ctx: 0, ..self }
        }
    }
}

/// How far the making of an encoder has come.
#[allow(inconsistent_fields)]
pub enum EncoderStage {
    Init,
    Counting { cuda: Cuda },
    Finding { cuda: Cuda, ordinal: i32 },
    Entering { cuda: Cuda, device: i32 },
    /// The table of entry points is being fetched.
    Table { cuda: Cuda, ctx: CudaContext },
    Opening { cuda: Cuda, ctx: CudaContext, fns: NvEncodeApiFunctionList },
    /// The configuration of the preset is being fetched.
    Preset { session: Session },
    Starting { session: Session },
    CreatingInput { session: Session },
    CreatingOutput { session: Session, input: u64 },
    /// There will be no encoder; the context is being destroyed.
    Closing { ctx: u64, error: Error },
    /// There will be no encoder; what there is is being destroyed.
    Unwinding { rest: Unwind },
}

/// Makes an encoder.
pub struct MakeEncoder {
    pub job: EncoderJob,
    pub stage: EncoderStage,
}

/// The outcome of the making of an encoder.
pub type Made = Result<NvEncoder, Error>;

/// How a session is opened on a context.
pub open spec fn session_params(ctx: u64) -> NvEncOpenEncodeSessionExParams {
    NvEncOpenEncodeSessionExParams {
        version: NV_ENC_OPEN_ENCODE_SESSION_EX_PARAMS_VER,
        device_type: NV_ENC_DEVICE_TYPE_CUDA,
        device: ctx,
        api_version: NVENCAPI_VERSION,
    }
}

/// Whether a call asks for the configuration of the preset.
pub open spec fn asks_preset(call: Call, encoder: u64, codec: Guid) -> bool {
    &&& call matches Call::NvEncGetEncodePresetConfigEx {
        encoder: e,
        encode_guid,
        preset_guid,
        tuning_info,
        config,
    }
    &&& e == encoder
    &&& encode_guid == codec
    &&& is_preset_p4(preset_guid)
    &&& tuning_info == NV_ENC_TUNING_INFO_HIGH_QUALITY
    &&& config.version == NV_ENC_PRESET_CONFIG_VER
    &&& config.preset_cfg.bytes@ == blank_config()
}

/// Whether parameters set a session up for a job, with a preset's configuration.
pub open spec fn sets_up(p: NvEncInitializeParams, job: EncoderJob, preset: Seq<u8>) -> bool {
    &&& p.version == NV_ENC_INITIALIZE_PARAMS_VER
    &&& p.encode_guid == job.codec
    &&& is_preset_p4(p.preset_guid)
    &&& p.encode_width == job.picture_width()
    &&& p.encode_height == job.picture_height()
    &&& p.dar_width == job.picture_width()
    &&& p.dar_height == job.picture_height()
    &&& p.frame_rate_num == job.picture_rate().0
    &&& p.frame_rate_den == job.picture_rate().1
    &&& p.enable_encode_async == 0
    &&& p.enable_ptd == 1
    &&& p.flags == 0
    &&& p.encode_config.bytes@ == profile_config(preset, job.profile)
    &&& p.max_encode_width == job.picture_width()
    &&& p.max_encode_height == job.picture_height()
    &&& p.tuning_info == NV_ENC_TUNING_INFO_HIGH_QUALITY
    &&& p.buffer_format == 0
    &&& p.num_state_buffers == 0
    &&& p.output_stats_level == 0
}

/// The input buffer of a job.
pub open spec fn input_params(job: EncoderJob) -> NvEncCreateInputBuffer {
    NvEncCreateInputBuffer {
        version: NV_ENC_CREATE_INPUT_BUFFER_VER,
        width: job.picture_width(),
        height: job.picture_height(),
        buffer_fmt: NV_ENC_BUFFER_FORMAT_NV12,
    }
}

/// The step that gives the context up and ends in an error.
pub open spec fn closes(step: Step<MakeEncoder, Made>, ctx: u64, e: ErrorView) -> bool {
    if ctx == 0 {
        is_error(step, e)
    } else {
        &&& step matches Step::Call(call, next)
        &&& call == (Call::CuCtxDestroy { ctx })
        &&& next.stage matches EncoderStage::Closing { ctx: closing, error }
        &&& closing == ctx
        &&& error@ == e
    }
}

/// The step that goes on with the way down.
pub open spec fn unwinds(step: Step<MakeEncoder, Made>, rest: UnwindView) -> bool {
    match rest.next_call() {
        Some(next_call) => {
            &&& step matches Step::Call(call, next)
            &&& call == next_call
            &&& next.stage matches EncoderStage::Unwinding { rest: u }
            &&& u@ == rest
        },
        None => is_error(
            step,
            ErrorView::Other(status_text(rest.op, rest.status, rest.detail)),
        ),
    }
}

/// The way down after call `op` has failed: `session` and `input` say what there is to
/// destroy.
pub open spec fn way_down(
    fns: NvEncodeApiFunctionList,
    ctx: u64,
    encoder: u64,
    session: bool,
    early: bool,
    input: Option<u64>,
    op: Seq<char>,
    status: i32,
) -> UnwindView {
    UnwindView {
        encoder,
        early,
        ask: can_ask(fns, encoder),
        input: if fns.nv_enc_destroy_input_buffer != 0 {
            input
        } else {
            None
        },
        session: session && fns.nv_enc_destroy_encoder != 0,
        ctx,
        op,
        status,
        detail: Seq::empty(),
    }
}

/// Whether an encoder is what was asked for, on the given session and buffers.
pub open spec fn is_made(
    e: NvEncoder,
    job: EncoderJob,
    session: Session,
    input: u64,
    output: u64,
) -> bool {
    &&& e.codec_id@ == job.codec_id@
    &&& e.ctx == session.ctx
    &&& e.fns == session.fns
    &&& e.encoder == session.encoder
    &&& e.input_buffer == input
    &&& e.output_buffer == output
    &&& e.output_queue@.len() == 0
    &&& e.kept_back@.len() == 0
    &&& e.output_params.codec_id@ == job.codec_id@
    &&& e.output_params.width == Some(job.picture_width())
    &&& e.output_params.height == Some(job.picture_height())
    &&& e.output_params.pixel_format == Some(PixelFormat::Yuv420P)
    &&& e.output_params.frame_rate == job.frame_rate
    &&& e.output_params.bit_rate == job.bit_rate
    &&& e.output_params.device_index is None
    &&& e.pts_counter == 0
    &&& e.width == job.picture_width()
    &&& e.height == job.picture_height()
    &&& e.fr_num == job.picture_rate().0
    &&& e.fr_den == job.picture_rate().1
    &&& !e.flushed
}

/// The step that makes a call and waits in the given stage, with the same job.
pub open spec fn waits(
    step: Step<MakeEncoder, Made>,
    job: EncoderJob,
    stage: EncoderStage,
) -> bool {
    &&& step matches Step::Call(call, next)
    &&& next.job == job
    &&& next.stage == stage
    &&& next.awaits(call)
}

impl MakeEncoder {
    /// Whether a call is the awaited one. Only the configuration inside the call that
    /// starts the session is not fixed by the stage.
    pub open spec fn awaits(self, call: Call) -> bool {
        match self.stage {
            EncoderStage::Init => call == (Call::CuInit { flags: 0 }),
            EncoderStage::Counting { .. } => call == Call::CuDeviceGetCount,
            EncoderStage::Finding { ordinal, .. } => call == (Call::CuDeviceGet { ordinal }),
            EncoderStage::Entering { device, .. } => call == (Call::CuCtxCreate {
                flags: 0,
                device,
            }),
            EncoderStage::Table { .. } => call == (Call::NvEncodeApiCreateInstance {
                version: NV_ENCODE_API_FUNCTION_LIST_VER,
                once: true,
            }),
            EncoderStage::Opening { ctx, .. } => call == (Call::NvEncOpenEncodeSessionEx {
                params: session_params(ctx.ctx),
            }),
            EncoderStage::Preset { session } => asks_preset(
                call,
                session.encoder,
                self.job.codec,
            ),
            EncoderStage::Starting { session } => call matches Call::NvEncInitializeEncoder {
                encoder,
                ..
            } && encoder == session.encoder,
            EncoderStage::CreatingInput { session } => call == (Call::NvEncCreateInputBuffer {
                encoder: session.encoder,
                params: input_params(self.job),
            }),
            EncoderStage::CreatingOutput { session, .. } => call == (
            Call::NvEncCreateBitstreamBuffer {
                encoder: session.encoder,
                params: NvEncCreateBitstreamBuffer { version: NV_ENC_CREATE_BITSTREAM_BUFFER_VER },
            }),
            EncoderStage::Closing { ctx, .. } => call == (Call::CuCtxDestroy { ctx }),
            EncoderStage::Unwinding { rest } => rest@.next_call() == Some(call),
        }
    }

    /// What follows the reply to the awaited call.
    pub open spec fn follows(self, reply: Reply, step: Step<MakeEncoder, Made>) -> bool {
        match self.stage {
            EncoderStage::Init => match reply_error(reply) {
                Some(e) => is_error(step, encoder_error(e)),
                None => {
                    &&& step matches Step::Call(call, next)
                    &&& next.awaits(call)
                    &&& next.job == self.job
                    &&& next.stage is Counting
                },
            },
            EncoderStage::Counting { cuda } => match count_outcome(reply) {
                Err(e) => is_error(step, encoder_error(e)),
                Ok(count) => match chosen_device(self.job.device_index, count) {
                    Err(message) => is_error(step, ErrorView::Unsupported(message)),
                    Ok(i) => waits(
                        step,
                        self.job,
                        EncoderStage::Finding { cuda, ordinal: i as i32 },
                    ),
                },
            },
            EncoderStage::Finding { cuda, .. } => match reply_error(reply) {
                Some(e) => is_error(step, encoder_error(e)),
                None => waits(
                    step,
                    self.job,
                    EncoderStage::Entering { cuda, device: reply.number },
                ),
            },
            EncoderStage::Entering { cuda, .. } => match reply_error(reply) {
                Some(e) => is_error(step, encoder_error(e)),
                None => waits(
                    step,
                    self.job,
                    EncoderStage::Table { cuda, ctx: CudaContext { ctx: reply.handle } },
                ),
            },
            EncoderStage::Table { cuda, ctx } => match table_outcome(reply) {
                Err(message) => closes(step, ctx.ctx, table_error(message)),
                Ok(fns) => if fns.nv_enc_open_encode_session_ex == 0 {
                    closes(step, ctx.ctx, slot_error("nvEncOpenEncodeSessionEx"@))
                } else {
                    waits(step, self.job, EncoderStage::Opening { cuda, ctx, fns })
                },
            },
            EncoderStage::Opening { cuda, ctx, fns } => if reply.status != 0 {
                unwinds(
                    step,
                    way_down(
                        fns,
                        ctx.ctx,
                        reply.handle,
                        false,
                        false,
                        None,
                        "nvEncOpenEncodeSessionEx"@,
                        reply.status,
                    ),
                )
            } else if fns.nv_enc_get_encode_preset_config_ex == 0 {
                closes(step, ctx.ctx, slot_error("nvEncGetEncodePresetConfigEx"@))
            } else {
                waits(
                    step,
                    self.job,
                    EncoderStage::Preset {
                        session: Session { cuda, ctx, fns, encoder: reply.handle },
                    },
                )
            },
            EncoderStage::Preset { session } => if reply.status != 0 {
                unwinds(
                    step,
                    way_down(
                        session.fns,
                        session.ctx.ctx,
                        session.encoder,
                        true,
                        true,
                        None,
                        "nvEncGetEncodePresetConfigEx"@,
                        reply.status,
                    ),
                )
            } else if session.fns.nv_enc_initialize_encoder == 0 {
                closes(step, session.ctx.ctx, slot_error("nvEncInitializeEncoder"@))
            } else {
                &&& waits(step, self.job, EncoderStage::Starting { session })
                &&& sets_up(
                    step->Call_0->NvEncInitializeEncoder_params,
                    self.job,
                    reply.config.bytes@,
                )
            },
            EncoderStage::Starting { session } => if reply.status != 0 {
                unwinds(
                    step,
                    way_down(
                        session.fns,
                        session.ctx.ctx,
                        session.encoder,
                        true,
                        false,
                        None,
                        "nvEncInitializeEncoder"@,
                        reply.status,
                    ),
                )
            } else if session.fns.nv_enc_create_input_buffer == 0 {
                closes(step, session.ctx.ctx, slot_error("nvEncCreateInputBuffer"@))
            } else {
                waits(step, self.job, EncoderStage::CreatingInput { session })
            },
            EncoderStage::CreatingInput { session } => if reply.status != 0 {
                unwinds(
                    step,
                    way_down(
                        session.fns,
                        session.ctx.ctx,
                        session.encoder,
                        true,
                        false,
                        None,
                        "nvEncCreateInputBuffer"@,
                        reply.status,
                    ),
                )
            } else if session.fns.nv_enc_create_bitstream_buffer == 0 {
                closes(step, session.ctx.ctx, slot_error("nvEncCreateBitstreamBuffer"@))
            } else {
                waits(
                    step,
                    self.job,
                    EncoderStage::CreatingOutput { session, input: reply.handle },
                )
            },
            EncoderStage::CreatingOutput { session, input } => if reply.status != 0 {
                unwinds(
                    step,
                    way_down(
                        session.fns,
                        session.ctx.ctx,
                        session.encoder,
                        true,
                        false,
                        Some(input),
                        "nvEncCreateBitstreamBuffer"@,
                        reply.status,
                    ),
                )
            } else {
                step matches Step::Done(Ok(e)) && is_made(e, self.job, session, input, reply.handle)
            },
            EncoderStage::Closing { error, .. } => is_error(step, error@),
            EncoderStage::Unwinding { rest } => unwinds(step, rest@.after(reply)),
        }
    }

    /// Gives the context up.
    fn close(job: EncoderJob, ctx: CudaContext, error: Error) -> (step: Step<Self, Made>)
        ensures
            closes(step, ctx.ctx, error@),
    {
        let raw = ctx.raw();
        match ctx.release() {
            None => Step::Done(Err(error)),
            Some(call) => Step::Call(
                call,
                MakeEncoder { job, stage: EncoderStage::Closing { ctx: raw, error } },
            ),
        }
    }

    /// Goes on with the way down.
    fn unwind(job: EncoderJob, rest: Unwind) -> (step: Step<Self, Made>)
        ensures
            unwinds(step, rest@),
    {
        match rest.next_call() {
            Some(call) => Step::Call(
                call,
                MakeEncoder { job, stage: EncoderStage::Unwinding { rest } },
            ),
            None => Step::Done(
                Err(map_nvenc_status(rest.op.as_str(), rest.status, rest.detail.as_str())),
            ),
        }
    }

    /// Starts the way down.
    fn fail(
        job: EncoderJob,
        fns: NvEncodeApiFunctionList,
        ctx: u64,
        encoder: u64,
        session: bool,
        early: bool,
        input: Option<u64>,
        op: &str,
        status: i32,
    ) -> (step: Step<Self, Made>)
        ensures
            unwinds(step, way_down(fns, ctx, encoder, session, early, input, op@, status)),
    {
        let input: Option<u64> = if fns.nv_enc_destroy_input_buffer != 0 {
            input
        } else {
            None
        };
        let rest = Unwind {
            encoder,
            early,
            ask: fns.nv_enc_get_last_error_string != 0 && encoder != 0,
            input,
            session: session && fns.nv_enc_destroy_encoder != 0,
            ctx,
            op: String::from_str(op),
            status,
            detail: String::new(),
        };
        assert(rest.detail@ =~= Seq::empty());
        Self::unwind(job, rest)
    }
}

/// Asks for the configuration of the preset.
fn preset_call(encoder: u64, codec: Guid) -> (call: Call)
    ensures
        asks_preset(call, encoder, codec),
{
    Call::NvEncGetEncodePresetConfigEx {
        encoder,
        encode_guid: codec,
        preset_guid: nv_enc_preset_p4_guid(),
        tuning_info: NV_ENC_TUNING_INFO_HIGH_QUALITY,
        config: NvEncPresetConfig {
            version: NV_ENC_PRESET_CONFIG_VER,
            preset_cfg: make_blank_config(),
        },
    }
}

/// The parameters of a session.
fn start_params(job: &EncoderJob, reply: &Reply) -> (p: NvEncInitializeParams)
    ensures
        sets_up(p, *job, reply.config.bytes@),
{
    let width = job.get_width();
    let height = job.get_height();
    let (fr_num, fr_den) = job.get_rate();
    NvEncInitializeParams {
        version: NV_ENC_INITIALIZE_PARAMS_VER,
        encode_guid: job.codec,
        preset_guid: nv_enc_preset_p4_guid(),
        encode_width: width,
        encode_height: height,
        dar_width: width,
        dar_height: height,
        frame_rate_num: fr_num,
        frame_rate_den: fr_den,
        enable_encode_async: 0,
        enable_ptd: 1,
        flags: 0,
        encode_config: make_profile_config(reply.config, job.profile),
        max_encode_width: width,
        max_encode_height: height,
        tuning_info: NV_ENC_TUNING_INFO_HIGH_QUALITY,
        buffer_format: 0,
        num_state_buffers: 0,
        output_stats_level: 0,
    }
}

/// The encoder on a session that is up.
fn assemble(job: EncoderJob, session: Session, input: u64, output: u64) -> (e: NvEncoder)
    ensures
        is_made(e, job, session, input, output),
{
    let width = job.get_width();
    let height = job.get_height();
    let (fr_num, fr_den) = job.get_rate();
    let base = CodecParameters::video(job.codec_id.as_str());
    let output_params = CodecParameters {
        width: Some(width),
        height: Some(height),
        pixel_format: Some(PixelFormat::Yuv420P),
        frame_rate: job.frame_rate,
        bit_rate: job.bit_rate,
        ..base
    };
    NvEncoder {
        codec_id: job.codec_id,
        cuda: session.cuda,
        ctx: session.ctx,
        fns: session.fns,
        encoder: session.encoder,
        input_buffer: input,
        output_buffer: output,
        output_queue: VecDeque::new(),
        kept_back: VecDeque::new(),
        output_params,
        pts_counter: 0,
        width,
        height,
        fr_num,
        fr_den,
        flushed: false,
    }
}

impl Machine for MakeEncoder {
    type Output = Made;

    fn resume(self, reply: Reply) -> (step: Step<Self, Made>)
        ensures
            self.follows(reply, step),
    {
        let MakeEncoder { job, stage } = self;
        match stage {
            EncoderStage::Init => match finish_init(reply) {
                Err(e) => Step::Done(Err(map_encoder(e))),
                Ok(cuda) => Step::Call(
                    Call::CuDeviceGetCount,
                    MakeEncoder { job, stage: EncoderStage::Counting { cuda } },
                ),
            },
            EncoderStage::Counting { cuda } => match finish_count(reply) {
                Err(e) => Step::Done(Err(map_encoder(e))),
                Ok(count) => match choose_device(job.device_index, count) {
                    Err(message) => Step::Done(Err(Error::Unsupported(message))),
                    Ok(i) => {
                        let ordinal = i as i32;
                        Step::Call(
                            Call::CuDeviceGet { ordinal },
                            MakeEncoder { job, stage: EncoderStage::Finding { cuda, ordinal } },
                        )
                    },
                },
            },
            EncoderStage::Finding { cuda, .. } => match finish_device(reply) {
                Err(e) => Step::Done(Err(map_encoder(e))),
                Ok(found) => {
                    let device = found.handle();
                    Step::Call(
                        Call::CuCtxCreate { flags: 0, device },
                        MakeEncoder { job, stage: EncoderStage::Entering { cuda, device } },
                    )
                },
            },
            EncoderStage::Entering { cuda, .. } => match finish_context(reply) {
                Err(e) => Step::Done(Err(map_encoder(e))),
                Ok(ctx) => Step::Call(
                    Call::NvEncodeApiCreateInstance {
                        version: NV_ENCODE_API_FUNCTION_LIST_VER,
                        once: true,
                    },
                    MakeEncoder { job, stage: EncoderStage::Table { cuda, ctx } },
                ),
            },
            EncoderStage::Table { cuda, ctx } => match nvenc_fns(reply) {
                Err(message) => Self::close(job, ctx, map_table(message)),
                Ok(fns) => {
                    if fns.nv_enc_open_encode_session_ex == 0 {
                        return Self::close(job, ctx, missing_slot("nvEncOpenEncodeSessionEx"));
                    }
                    let params = NvEncOpenEncodeSessionExParams {
                        version: NV_ENC_OPEN_ENCODE_SESSION_EX_PARAMS_VER,
                        device_type: NV_ENC_DEVICE_TYPE_CUDA,
                        device: ctx.raw(),
                        api_version: NVENCAPI_VERSION,
                    };
                    Step::Call(
                        Call::NvEncOpenEncodeSessionEx { params },
                        MakeEncoder { job, stage: EncoderStage::Opening { cuda, ctx, fns } },
                    )
                },
            },
            EncoderStage::Opening { cuda, ctx, fns } => {
                let encoder = reply.handle;
                if reply.status != NV_ENC_SUCCESS {
                    return Self::fail(
                        job,
                        fns,
                        ctx.raw(),
                        encoder,
                        false,
                        false,
                        None,
                        "nvEncOpenEncodeSessionEx",
                        reply.status,
                    );
                }
                if fns.nv_enc_get_encode_preset_config_ex == 0 {
                    return Self::close(job, ctx, missing_slot("nvEncGetEncodePresetConfigEx"));
                }
                let call = preset_call(encoder, job.codec);
                let session = Session { cuda, ctx, fns, encoder };
                Step::Call(call, MakeEncoder { job, stage: EncoderStage::Preset { session } })
            },
            EncoderStage::Preset { session } => {
                if reply.status != NV_ENC_SUCCESS {
                    return Self::fail(
                        job,
                        session.fns,
                        session.ctx.raw(),
                        session.encoder,
                        true,
                        true,
                        None,
                        "nvEncGetEncodePresetConfigEx",
                        reply.status,
                    );
                }
                if session.fns.nv_enc_initialize_encoder == 0 {
                    return Self::close(job, session.ctx, missing_slot("nvEncInitializeEncoder"));
                }
                let params = start_params(&job, &reply);
                Step::Call(
                    Call::NvEncInitializeEncoder { encoder: session.encoder, params },
                    MakeEncoder { job, stage: EncoderStage::Starting { session } },
                )
            },
            EncoderStage::Starting { session } => {
                if reply.status != NV_ENC_SUCCESS {
                    return Self::fail(
                        job,
                        session.fns,
                        session.ctx.raw(),
                        session.encoder,
                        true,
                        false,
                        None,
                        "nvEncInitializeEncoder",
                        reply.status,
                    );
                }
                if session.fns.nv_enc_create_input_buffer == 0 {
                    return Self::close(job, session.ctx, missing_slot("nvEncCreateInputBuffer"));
                }
                let params = NvEncCreateInputBuffer {
                    version: NV_ENC_CREATE_INPUT_BUFFER_VER,
                    width: job.get_width(),
                    height: job.get_height(),
                    buffer_fmt: NV_ENC_BUFFER_FORMAT_NV12,
                };
                Step::Call(
                    Call::NvEncCreateInputBuffer { encoder: session.encoder, params },
                    MakeEncoder { job, stage: EncoderStage::CreatingInput { session } },
                )
            },
            EncoderStage::CreatingInput { session } => {
                if reply.status != NV_ENC_SUCCESS {
                    return Self::fail(
                        job,
                        session.fns,
                        session.ctx.raw(),
                        session.encoder,
                        true,
                        false,
                        None,
                        "nvEncCreateInputBuffer",
                        reply.status,
                    );
                }
                if session.fns.nv_enc_create_bitstream_buffer == 0 {
                    return Self::close(
                        job,
                        session.ctx,
                        missing_slot("nvEncCreateBitstreamBuffer"),
                    );
                }
                let input = reply.handle;
                let params = NvEncCreateBitstreamBuffer {
                    version: NV_ENC_CREATE_BITSTREAM_BUFFER_VER,
                };
                Step::Call(
                    Call::NvEncCreateBitstreamBuffer { encoder: session.encoder, params },
                    MakeEncoder { job, stage: EncoderStage::CreatingOutput { session, input } },
                )
            },
            EncoderStage::CreatingOutput { session, input } => {
                if reply.status != NV_ENC_SUCCESS {
                    return Self::fail(
                        job,
                        session.fns,
                        session.ctx.raw(),
                        session.encoder,
                        true,
                        false,
                        Some(input),
                        "nvEncCreateBitstreamBuffer",
                        reply.status,
                    );
                }
                Step::Done(Ok(assemble(job, session, input, reply.handle)))
            },
            EncoderStage::Closing { error, .. } => Step::Done(Err(error)),
            EncoderStage::Unwinding { rest } => Self::unwind(job, rest.after(reply)),
        }
    }
}

/// Whether a table has every entry point that the making of an encoder can call.
pub open spec fn has_setup_slots(fns: NvEncodeApiFunctionList) -> bool {
    &&& fns.nv_enc_open_encode_session_ex != 0
    &&& fns.nv_enc_get_encode_preset_config_ex != 0
    &&& fns.nv_enc_initialize_encoder != 0
    &&& fns.nv_enc_create_input_buffer != 0
    &&& fns.nv_enc_destroy_input_buffer != 0
    &&& fns.nv_enc_create_bitstream_buffer != 0
    &&& fns.nv_enc_destroy_encoder != 0
}

/// A context that is there.
pub open spec fn context_held(ctx: u64) -> Set<Resource> {
    only(ctx != 0, Resource::Context { ctx })
}

/// What a session holds.
pub open spec fn session_held(session: Session) -> Set<Resource> {
    context_held(session.ctx.ctx).insert(Resource::Session { encoder: session.encoder })
}

/// What an encoder holds.
pub open spec fn encoder_held(e: NvEncoder) -> Set<Resource> {
    context_held(e.ctx.ctx).insert(Resource::Session { encoder: e.encoder }).insert(
        Resource::InputBuffer { encoder: e.encoder, buffer: e.input_buffer },
    ).insert(Resource::OutputBuffer { encoder: e.encoder, buffer: e.output_buffer })
}

impl MakeEncoder {
    /// What is there.
    pub open spec fn held(self) -> Set<Resource> {
        match self.stage {
            EncoderStage::Table { ctx, .. } => context_held(ctx.ctx),
            EncoderStage::Opening { ctx, .. } => context_held(ctx.ctx),
            EncoderStage::Preset { session } => session_held(session),
            EncoderStage::Starting { session } => session_held(session),
            EncoderStage::CreatingInput { session } => session_held(session),
            EncoderStage::CreatingOutput { session, input } => session_held(session).insert(
                Resource::InputBuffer { encoder: session.encoder, buffer: input },
            ),
            EncoderStage::Closing { ctx, .. } => set![Resource::Context { ctx }],
            EncoderStage::Unwinding { rest } => rest@.held(),
            _ => Set::empty(),
        }
    }

    /// The table of entry points that the next step goes by, if it goes by one.
    pub open spec fn table(self, reply: Reply) -> Option<NvEncodeApiFunctionList> {
        match self.stage {
            EncoderStage::Table { .. } => Some(reply.table),
            EncoderStage::Opening { fns, .. } => Some(fns),
            EncoderStage::Preset { session } => Some(session.fns),
            EncoderStage::Starting { session } => Some(session.fns),
            EncoderStage::CreatingInput { session } => Some(session.fns),
            EncoderStage::CreatingOutput { session, .. } => Some(session.fns),
            _ => None,
        }
    }
}

/// The making of an encoder leaks nothing: an encoder that is made holds the context,
/// the session and both buffers, and one that is not made leaves nothing behind,
/// whatever the driver replies. That is so as long as the table has the entry points
/// that are called: a session cannot be closed without one for it, and is left open
/// where a later one is found to be missing.
pub proof fn bring_up_leaks_nothing(
    m: MakeEncoder,
    call: Call,
    reply: Reply,
    step: Step<MakeEncoder, Made>,
)
    requires
        m.awaits(call),
        m.follows(reply, step),
        m.table(reply) matches Some(fns) ==> has_setup_slots(fns),
    ensures
        match step {
            Step::Call(next_call, next) => {
                &&& next.awaits(next_call)
                &&& next.held() =~= held_after(m.held(), call, reply)
            },
            Step::Done(Ok(e)) => encoder_held(e) =~= held_after(m.held(), call, reply),
            Step::Done(Err(_)) => held_after(m.held(), call, reply) =~= Set::empty(),
        },
{
}

/// A driver that is not loaded, or that has no device, makes the pipeline fall back to
/// another encoder: whichever call finds it out, the error says "unsupported".
pub proof fn missing_driver_falls_back(reply: Reply)
    requires
        reply.load_error is Some || reply.status == 100,
    ensures
        reply_error(reply) matches Some(e) && encoder_error(e) is Unsupported,
        count_outcome(reply) matches Err(e) && encoder_error(e) is Unsupported,
        reply.load_error is Some ==> (table_outcome(reply) matches Err(m) && table_error(
            m,
        ) is Unsupported),
{
    if let Some(e) = reply.load_error {
        let message = "nvidia vtable: "@ + e@;
        assert(crate::text::occurs_at(message, "vtable"@, 7)) by {
            reveal_strlit("nvidia vtable: ");
            reveal_strlit("vtable");
        }
    }
}

/// Pictures are never smaller than the engine takes, and wishes that are large enough
/// are granted.
pub proof fn picture_size_has_a_floor(job: EncoderJob)
    ensures
        job.picture_width() >= 160,
        job.picture_height() >= 64,
        job.width matches Some(w) ==> w >= 160 ==> job.picture_width() == w,
        job.height matches Some(h) ==> h >= 64 ==> job.picture_height() == h,
{
}

/// An error of the bring-up makes the pipeline fall back if and only if it means that there
/// is no usable driver or device, and its message is the error's line either way.
pub proof fn only_a_missing_driver_falls_back(e: (i32, Seq<char>))
    ensures
        encoder_error(e) is Unsupported <==> error_unavailable(e),
        encoder_error(e) is Other <==> !error_unavailable(e),
        encoder_error(e) matches ErrorView::Unsupported(m) ==> m == "nvidia: "@ + error_line(e),
        encoder_error(e) matches ErrorView::Other(m) ==> m == "nvidia: "@ + error_line(e),
        start_error(e) == ErrorView::Unsupported("nvidia: "@ + error_line(e)),
{
}

/// The table of encode entry points is the one that the driver filled in, unless the driver
/// is not loaded or refuses. Where a library or an entry point is missing the pipeline falls
/// back; where the driver refuses it does not.
pub proof fn refused_table_is_explained(reply: Reply)
    ensures
        table_outcome(reply) is Ok <==> reply.load_error is None && reply.status == 0,
        table_outcome(reply) matches Ok(fns) ==> fns == reply.table,
        reply.load_error matches Some(why) ==> table_outcome(reply) == Err::<
            NvEncodeApiFunctionList,
            _,
        >("nvidia vtable: "@ + why@),
        reply.load_error is None && reply.status != 0 ==> table_outcome(reply) == Err::<
            NvEncodeApiFunctionList,
            _,
        >("NvEncodeAPICreateInstance failed: NVENCSTATUS "@ + int_text(reply.status as int)),
        forall|m: Seq<char>|
            #![trigger table_error(m)]
            (contains_text(m, "dlopen"@) || contains_text(m, "dlsym"@) || contains_text(
                m,
                "vtable"@,
            ) ==> table_error(m) == ErrorView::Unsupported("nvidia: "@ + m)) && (!contains_text(
                m,
                "dlopen"@,
            ) && !contains_text(m, "dlsym"@) && !contains_text(m, "vtable"@) ==> table_error(m)
                == ErrorView::Other("nvidia nvenc: "@ + m)),
{
}

/// What is said of a call that failed is its name and its status, and behind a dash what the
/// driver has to say of it, if anything.
pub proof fn failed_call_is_described(op: Seq<char>, status: i32, detail: Seq<char>)
    ensures
        status_text(op, status, Seq::empty()) == op + " failed: NVENCSTATUS "@ + int_text(
            status as int,
        ),
        detail.len() > 0 ==> status_text(op, status, detail) == op + " failed: NVENCSTATUS "@
            + int_text(status as int) + " — "@ + detail,
{
}

/// A session that cannot be set up for want of an entry point is given up under the name of
/// the entry point that comes next.
pub proof fn missing_slot_is_named(m: MakeEncoder, reply: Reply, step: Step<MakeEncoder, Made>)
    requires
        m.follows(reply, step),
        reply.load_error is None,
        reply.status == 0,
    ensures
        ({
            let fns = m.table(reply);
            let gives_up = |name: Seq<char>|
                {
                    let e = match step {
                        Step::Call(_, next) => match next.stage {
                            EncoderStage::Closing { error, .. } => Some(error@),
                            _ => None,
                        },
                        Step::Done(Err(error)) => Some(error@),
                        Step::Done(Ok(_)) => None,
                    };
                    e == Some(
                        ErrorView::Unsupported("nvidia: "@ + name + " not in fn table"@),
                    )
                };
            &&& m.stage is Table && fns->0.nv_enc_open_encode_session_ex == 0 ==> gives_up(
                "nvEncOpenEncodeSessionEx"@,
            )
            &&& m.stage is Opening && fns->0.nv_enc_get_encode_preset_config_ex == 0 ==> gives_up(
                "nvEncGetEncodePresetConfigEx"@,
            )
            &&& m.stage is Preset && fns->0.nv_enc_initialize_encoder == 0 ==> gives_up(
                "nvEncInitializeEncoder"@,
            )
            &&& m.stage is Starting && fns->0.nv_enc_create_input_buffer == 0 ==> gives_up(
                "nvEncCreateInputBuffer"@,
            )
            &&& m.stage is CreatingInput && fns->0.nv_enc_create_bitstream_buffer == 0
                ==> gives_up("nvEncCreateBitstreamBuffer"@)
        }),
{
}

/// What there is of a session goes from the inside out after a failure: the input buffer
/// before the session that it belongs to, and the context after both. The driver is asked for
/// its own words before anything goes, except where the preset was refused: there the session
/// goes first.
pub proof fn unwinding_goes_from_the_inside_out(m: MakeEncoder, call: Call)
    requires
        m.stage is Unwinding,
        m.awaits(call),
    ensures
        ({
            let rest = m.stage->Unwinding_rest;
            match call {
                Call::NvEncGetLastErrorString { encoder } => encoder == rest.encoder && rest.ask
                    && !(rest.early && rest.session),
                Call::NvEncDestroyInputBuffer { encoder, buffer } => {
                    &&& encoder == rest.encoder
                    &&& rest.input == Some(buffer)
                    &&& !rest.ask
                    &&& !(rest.early && rest.session)
                },
                Call::NvEncDestroyEncoder { encoder } => {
                    &&& encoder == rest.encoder
                    &&& rest.session
                    &&& rest.early || rest.input is None && !rest.ask
                },
                Call::CuCtxDestroy { ctx } => {
                    &&& ctx == rest.ctx
                    &&& ctx != 0
                    &&& !rest.session && !rest.ask && rest.input is None
                },
                _ => false,
            }
        }),
{
}

/// The session goes first only where the preset was refused, which is before there is an
/// input buffer.
pub proof fn only_a_refused_preset_ends_the_session_first(
    m: MakeEncoder,
    reply: Reply,
    step: Step<MakeEncoder, Made>,
)
    requires
        m.follows(reply, step),
        !(m.stage is Unwinding),
    ensures
        step matches Step::Call(_, next) ==> (next.stage matches EncoderStage::Unwinding { rest }
            ==> {
            &&& rest.early <==> m.stage is Preset
            &&& rest.input is Some ==> m.stage is CreatingOutput
            &&& rest.session ==> !(m.stage is Opening)
            &&& m.table(reply) matches Some(fns)
            &&& rest.ask <==> fns.nv_enc_get_last_error_string != 0 && rest.encoder != 0
        }),
{
}

} // verus!

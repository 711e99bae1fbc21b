//! The engine probe: which devices there are, and what each can decode and encode.

use vstd::prelude::*;
use crate::device::{
    capability_part, check, context_outcome, count_outcome, finish_capability, finish_context,
    finish_count, finish_device, finish_init, finish_memory, finish_name, memory_outcome,
    reply_error,
};
use crate::driver::{Call, Machine, Reply, Step};
use crate::nvdec::{caps_call, caps_outcome, caps_question, finish_caps, NvdecCaps};
use crate::report::{
    annotate_row, annotated, blank_rows, codec_name, codec_name_at, codec_names_differ, decode_codec,
    decode_codec_at, decode_row, deepen_row, deeper_row, encode_codec_at, entries_view,
    is_encode_codec, is_offered, lemma_row_of, make_blank_rows, make_decode_row, offers, rows_view, spell_version,
    text_view, texts_view, version_text, CapsView, HwCodecCaps, HwDeviceInfo, InfoView, DECODE_CODECS,
    ENCODE_CODECS,
};
use crate::resource::{held_after, only, Resource};
use crate::setup::{detail_of, session_params};
use crate::sys::{
    Guid, NvEncCapsParam, NvEncOpenEncodeSessionExParams, NvEncodeApiFunctionList,
    CUDA_SUCCESS, CUDA_VIDEO_CHROMA_FORMAT_420, CU_DEVICE_ATTRIBUTE_COMPUTE_CAPABILITY_MAJOR,
    CU_DEVICE_ATTRIBUTE_COMPUTE_CAPABILITY_MINOR, NVENCAPI_VERSION,
    NV_ENCODE_API_FUNCTION_LIST_VER, NV_ENC_CAPS_HEIGHT_MAX, NV_ENC_CAPS_PARAM_VER,
    NV_ENC_CAPS_SUPPORT_10BIT_ENCODE, NV_ENC_CAPS_WIDTH_MAX, NV_ENC_DEVICE_TYPE_CUDA,
    NV_ENC_OPEN_ENCODE_SESSION_EX_PARAMS_VER, NV_ENC_SUCCESS,
};
use crate::text::{i32_text, int_text, join, nat_text, u64_text};

verus! {

/// What is known of a device so far.
pub struct Findings {
    pub device: i32,
    pub name: String,
    pub memory: Option<u64>,
    pub capability: Option<(u32, u32)>,
    pub driver: Option<String>,
    pub api: Option<String>,
    /// The context on the device, or 0.
    pub ctx: u64,
    pub rows: Vec<HwCodecCaps>,
    /// Why the encode engine could not be asked.
    pub warning: Option<String>,
}

/// [`Findings`] with texts as characters.
#[verifier::ext_equal]
pub struct FindingsView {
    pub device: i32,
    pub name: Seq<char>,
    pub memory: Option<u64>,
    pub capability: Option<(u32, u32)>,
    pub driver: Option<Seq<char>>,
    pub api: Option<Seq<char>>,
    pub ctx: u64,
    pub rows: Seq<CapsView>,
    pub warning: Option<Seq<char>>,
}

impl View for Findings {
    type V = FindingsView;

    open spec fn view(&self) -> FindingsView {
        FindingsView {
            device: self.device,
            name: self.name@,
            memory: self.memory,
            capability: self.capability,
            driver: text_view(self.driver),
            api: text_view(self.api),
            ctx: self.ctx,
            rows: rows_view(self.rows@),
            warning: text_view(self.warning),
        }
    }
}

/// An encode session that is asked about capabilities.
pub struct ProbeSession {
    pub fns: NvEncodeApiFunctionList,
    pub encoder: u64,
    /// The codecs that it offers.
    pub guids: Vec<Guid>,
}

/// A [`ProbeSession`] with its codecs as a sequence.
#[verifier::ext_equal]
pub struct SessionView {
    pub fns: NvEncodeApiFunctionList,
    pub encoder: u64,
    pub guids: Seq<Guid>,
}

impl View for ProbeSession {
    type V = SessionView;

    open spec fn view(&self) -> SessionView {
        SessionView { fns: self.fns, encoder: self.encoder, guids: self.guids@ }
    }
}

/// Which limit of the encode engine is being asked for.
#[derive(Copy, Clone, PartialEq, Eq, Structural)]
pub enum Limit {
    Width,
    Height,
    TenBit,
}

/// How far the probe of a device has come.
pub enum ProbeStage {
    Naming,
    Sizing,
    Major,
    Minor { major: i32 },
    Version,
    /// The device cannot be had; only the driver's version is asked for.
    VersionOnly,
    /// A context is being made.
    Entering,
    /// The decode engine is asked about 8-bit streams.
    Decode8,
    /// The decode engine is asked about 10-bit streams.
    Decode10 { row: HwCodecCaps },
    /// The table of encode entry points is being fetched.
    Table,
    /// An encode session is being opened.
    Opening { fns: NvEncodeApiFunctionList },
    CountingGuids { fns: NvEncodeApiFunctionList, encoder: u64 },
    ListingGuids { fns: NvEncodeApiFunctionList, encoder: u64, capacity: u32 },
    /// The encode engine is asked for a limit.
    Asking { session: ProbeSession, codec: usize, limit: Limit, width: i32, height: i32 },
    /// The session is being closed.
    Shutting { encoder: u64 },
    /// The context is being destroyed.
    Leaving,
}

/// Probes one device.
pub struct ProbeDevice {
    pub found: Findings,
    pub stage: ProbeStage,
}

/// The outcome for one device: a report, in which what could not be found out is left
/// empty, and what to warn of.
pub struct Probed {
    pub info: HwDeviceInfo,
    pub warning: Option<String>,
}

/// The report that findings make.
pub open spec fn report_of(f: FindingsView) -> InfoView {
    InfoView {
        name: f.name,
        driver_version: f.driver,
        api_version: f.api,
        total_memory_bytes: f.memory,
        extra: match f.capability {
            Some((major, minor)) => seq![
                (
                    "compute_capability"@,
                    nat_text(major as nat) + "."@ + nat_text(minor as nat),
                ),
            ],
            None => Seq::empty(),
        },
        codecs: f.rows,
    }
}

/// The step that makes a call and waits in the given stage.
pub open spec fn probes_on(
    step: Step<ProbeDevice, Probed>,
    call: Call,
    f: FindingsView,
    stage: ProbeStage,
) -> bool {
    &&& step matches Step::Call(c, next)
    &&& c == call
    &&& next.found@ == f
    &&& next.stage == stage
}

/// The step that leaves the context and ends the probe with a report.
pub open spec fn leaves(step: Step<ProbeDevice, Probed>, f: FindingsView) -> bool {
    if f.ctx != 0 {
        probes_on(step, Call::CuCtxDestroy { ctx: f.ctx }, f, ProbeStage::Leaving)
    } else {
        tells(step, f)
    }
}

/// The step that ends the probe with a report.
pub open spec fn tells(step: Step<ProbeDevice, Probed>, f: FindingsView) -> bool {
    &&& step matches Step::Done(p)
    &&& p.info@ == report_of(f)
    &&& text_view(p.warning) == f.warning
}

/// The step that closes the encode session, and then leaves.
pub open spec fn shuts(
    step: Step<ProbeDevice, Probed>,
    f: FindingsView,
    fns: NvEncodeApiFunctionList,
    encoder: u64,
) -> bool {
    if encoder != 0 && fns.nv_enc_destroy_encoder != 0 {
        probes_on(
            step,
            Call::NvEncDestroyEncoder { encoder },
            f,
            ProbeStage::Shutting { encoder },
        )
    } else {
        leaves(step, f)
    }
}

/// The number of a limit.
pub open spec fn limit_number(limit: Limit) -> u32 {
    match limit {
        Limit::Width => NV_ENC_CAPS_WIDTH_MAX,
        Limit::Height => NV_ENC_CAPS_HEIGHT_MAX,
        Limit::TenBit => NV_ENC_CAPS_SUPPORT_10BIT_ENCODE,
    }
}

/// Whether a call asks for a limit of encode codec `i`.
pub open spec fn asks_limit(call: Call, encoder: u64, i: int, limit: Limit) -> bool {
    &&& call matches Call::NvEncGetEncodeCaps { encoder: e, guid, param }
    &&& e == encoder
    &&& is_encode_codec(guid, i)
    &&& param == (NvEncCapsParam {
        version: NV_ENC_CAPS_PARAM_VER,
        caps_to_query: limit_number(limit),
    })
}

/// The step that asks for a limit of a codec.
pub open spec fn asks(
    step: Step<ProbeDevice, Probed>,
    f: FindingsView,
    session: SessionView,
    codec: int,
    limit: Limit,
    width: i32,
    height: i32,
) -> bool {
    &&& step matches Step::Call(call, next)
    &&& asks_limit(call, session.encoder, codec, limit)
    &&& next.found@ == f
    &&& next.stage matches ProbeStage::Asking { session: s, codec: c, limit: l, width: w, height: h }
    &&& s@ == session
    &&& c == codec
    &&& l == limit
    &&& w == width
    &&& h == height
}

/// The step that goes on with the first encode codec from `codec` on that the session
/// offers, or closes the session where there is none.
pub open spec fn asks_from(
    step: Step<ProbeDevice, Probed>,
    f: FindingsView,
    session: SessionView,
    codec: int,
) -> bool
    decreases ENCODE_CODECS - codec,
{
    if codec >= ENCODE_CODECS {
        shuts(step, f, session.fns, session.encoder)
    } else if offers(session.guids, codec) {
        asks(step, f, session, codec, Limit::Width, 0, 0)
    } else {
        asks_from(step, f, session, codec + 1)
    }
}

/// The step after it is known which codecs the session offers.
pub open spec fn goes_through(
    step: Step<ProbeDevice, Probed>,
    f: FindingsView,
    session: SessionView,
) -> bool {
    if session.fns.nv_enc_get_encode_caps == 0 {
        shuts(
            step,
            FindingsView { warning: Some("nvEncGetEncodeCaps slot empty"@), ..f },
            session.fns,
            session.encoder,
        )
    } else {
        asks_from(step, f, session, 0)
    }
}

/// The step after `rows` have been made: the next codec, or on to the encode engine.
pub open spec fn decodes_on(step: Step<ProbeDevice, Probed>, f: FindingsView) -> bool {
    if f.rows.len() < DECODE_CODECS {
        probes_on(
            step,
            Call::CuvidGetDecoderCaps {
                caps: caps_question(
                    decode_codec(f.rows.len() as int),
                    CUDA_VIDEO_CHROMA_FORMAT_420,
                    8,
                ),
            },
            f,
            ProbeStage::Decode8,
        )
    } else {
        probes_on(
            step,
            Call::NvEncodeApiCreateInstance {
                version: NV_ENCODE_API_FUNCTION_LIST_VER,
                once: false,
            },
            f,
            ProbeStage::Table,
        )
    }
}

/// What the decode engine answers, if anything.
pub open spec fn answer(reply: Reply) -> Option<NvdecCaps> {
    match caps_outcome(reply) {
        Ok(c) => Some(c),
        Err(_) => None,
    }
}

/// Findings with the version of the driver that a reply holds, if it holds one.
pub open spec fn with_version(f: FindingsView, reply: Reply) -> FindingsView {
    if has_version(reply) {
        FindingsView {
            driver: Some(version_text(reply.number)),
            api: Some("CUDA "@ + version_text(reply.number)),
            ..f
        }
    } else {
        FindingsView { driver: None, api: None, ..f }
    }
}

/// Whether a reply holds a version of the driver.
pub open spec fn has_version(reply: Reply) -> bool {
    reply.load_error is None && reply.status == 0 && reply.number > 0
}

impl ProbeDevice {
    /// Whether a call is the awaited one.
    pub open spec fn awaits(self, call: Call) -> bool {
        let device = self.found.device;
        match self.stage {
            ProbeStage::Naming => call == (Call::CuDeviceGetName { len: 256, device }),
            ProbeStage::Sizing => call == (Call::CuDeviceTotalMem { device }),
            ProbeStage::Major => call == (Call::CuDeviceGetAttribute {
                attribute: CU_DEVICE_ATTRIBUTE_COMPUTE_CAPABILITY_MAJOR,
                device,
            }),
            ProbeStage::Minor { .. } => call == (Call::CuDeviceGetAttribute {
                attribute: CU_DEVICE_ATTRIBUTE_COMPUTE_CAPABILITY_MINOR,
                device,
            }),
            ProbeStage::Version => call == Call::CuDriverGetVersion,
            ProbeStage::VersionOnly => call == Call::CuDriverGetVersion,
            ProbeStage::Entering => call == (Call::CuCtxCreate { flags: 0, device }),
            ProbeStage::Decode8 => call == (Call::CuvidGetDecoderCaps {
                caps: caps_question(
                    decode_codec(self.found.rows@.len() as int),
                    CUDA_VIDEO_CHROMA_FORMAT_420,
                    8,
                ),
            }),
            ProbeStage::Decode10 { .. } => call == (Call::CuvidGetDecoderCaps {
                caps: caps_question(
                    decode_codec(self.found.rows@.len() as int),
                    CUDA_VIDEO_CHROMA_FORMAT_420,
                    10,
                ),
            }),
            ProbeStage::Table => call == (Call::NvEncodeApiCreateInstance {
                version: NV_ENCODE_API_FUNCTION_LIST_VER,
                once: false,
            }),
            ProbeStage::Opening { .. } => call == (Call::NvEncOpenEncodeSessionEx {
                params: session_params(self.found.ctx),
            }),
            ProbeStage::CountingGuids { encoder, .. } => call == (Call::NvEncGetEncodeGuidCount {
                encoder,
            }),
            ProbeStage::ListingGuids { encoder, capacity, .. } => call == (
            Call::NvEncGetEncodeGuids { encoder, capacity }),
            ProbeStage::Asking { session, codec, limit, .. } => asks_limit(
                call,
                session.encoder,
                codec as int,
                limit,
            ),
            ProbeStage::Shutting { encoder } => call == (Call::NvEncDestroyEncoder { encoder }),
            ProbeStage::Leaving => call == (Call::CuCtxDestroy { ctx: self.found.ctx }),
        }
    }

    /// What follows the reply to the awaited call.
    pub open spec fn follows(self, reply: Reply, step: Step<ProbeDevice, Probed>) -> bool {
        let f = self.found@;
        let device = f.device;
        match self.stage {
            ProbeStage::Naming => probes_on(
                step,
                Call::CuDeviceTotalMem { device },
                FindingsView {
                    name: if reply_error(reply) is Some {
                        Seq::empty()
                    } else {
                        detail_of(reply)
                    },
                    ..f
                },
                ProbeStage::Sizing,
            ),
            ProbeStage::Sizing => probes_on(
                step,
                Call::CuDeviceGetAttribute {
                    attribute: CU_DEVICE_ATTRIBUTE_COMPUTE_CAPABILITY_MAJOR,
                    device,
                },
                FindingsView {
                    memory: match memory_outcome(reply) {
                        Ok(n) => Some(n),
                        Err(_) => None,
                    },
                    ..f
                },
                ProbeStage::Major,
            ),
            ProbeStage::Major => if reply_error(reply) is Some {
                probes_on(
                    step,
                    Call::CuDriverGetVersion,
                    FindingsView { capability: None, ..f },
                    ProbeStage::Version,
                )
            } else {
                probes_on(
                    step,
                    Call::CuDeviceGetAttribute {
                        attribute: CU_DEVICE_ATTRIBUTE_COMPUTE_CAPABILITY_MINOR,
                        device,
                    },
                    f,
                    ProbeStage::Minor { major: reply.number },
                )
            },
            ProbeStage::Minor { major } => probes_on(
                step,
                Call::CuDriverGetVersion,
                FindingsView {
                    capability: if reply_error(reply) is Some {
                        None
                    } else {
                        Some((capability_part(major), capability_part(reply.number)))
                    },
                    ..f
                },
                ProbeStage::Version,
            ),
            ProbeStage::Version => probes_on(
                step,
                Call::CuCtxCreate { flags: 0, device },
                with_version(f, reply),
                ProbeStage::Entering,
            ),
            ProbeStage::VersionOnly => tells(
                step,
                FindingsView { rows: blank_rows(), ..with_version(f, reply) },
            ),
            ProbeStage::Entering => match context_outcome(reply) {
                Err(_) => tells(step, FindingsView { rows: blank_rows(), ..f }),
                Ok(ctx) => decodes_on(step, FindingsView { ctx: ctx.ctx, ..f }),
            },
            ProbeStage::Decode8 => {
                let row = decode_row(codec_name(f.rows.len() as int), answer(reply));
                if row.decode {
                    &&& step matches Step::Call(call, next)
                    &&& next.awaits(call)
                    &&& next.found@ == f
                    &&& next.stage matches ProbeStage::Decode10 { row: r }
                    &&& r@ == row
                } else {
                    decodes_on(step, FindingsView { rows: f.rows.push(row), ..f })
                }
            },
            ProbeStage::Decode10 { row } => decodes_on(
                step,
                FindingsView { rows: f.rows.push(deeper_row(row@, answer(reply))), ..f },
            ),
            ProbeStage::Table => match reply.load_error {
                Some(e) => leaves(step, FindingsView { warning: Some("vtable: "@ + e@), ..f }),
                None => if reply.status != 0 {
                    leaves(
                        step,
                        FindingsView {
                            warning: Some(
                                "NvEncodeAPICreateInstance -> NVENCSTATUS "@ + int_text(
                                    reply.status as int,
                                ),
                            ),
                            ..f
                        },
                    )
                } else if reply.table.nv_enc_open_encode_session_ex == 0 {
                    leaves(
                        step,
                        FindingsView {
                            warning: Some("nvEncOpenEncodeSessionEx slot empty"@),
                            ..f
                        },
                    )
                } else {
                    probes_on(
                        step,
                        Call::NvEncOpenEncodeSessionEx { params: session_params(f.ctx) },
                        f,
                        ProbeStage::Opening { fns: reply.table },
                    )
                },
            },
            ProbeStage::Opening { fns } => if reply.status != 0 {
                leaves(
                    step,
                    FindingsView {
                        warning: Some(
                            "nvEncOpenEncodeSessionEx -> "@ + int_text(reply.status as int),
                        ),
                        ..f
                    },
                )
            } else if fns.nv_enc_get_encode_guid_count == 0 {
                goes_through(
                    step,
                    f,
                    SessionView { fns, encoder: reply.handle, guids: Seq::empty() },
                )
            } else {
                probes_on(
                    step,
                    Call::NvEncGetEncodeGuidCount { encoder: reply.handle },
                    f,
                    ProbeStage::CountingGuids { fns, encoder: reply.handle },
                )
            },
            ProbeStage::CountingGuids { fns, encoder } => if reply.status != 0 || reply.count == 0
                || fns.nv_enc_get_encode_guids == 0 {
                goes_through(step, f, SessionView { fns, encoder, guids: Seq::empty() })
            } else {
                probes_on(
                    step,
                    Call::NvEncGetEncodeGuids { encoder, capacity: reply.count },
                    f,
                    ProbeStage::ListingGuids { fns, encoder, capacity: reply.count },
                )
            },
            ProbeStage::ListingGuids { fns, encoder, .. } => if reply.status != 0 {
                goes_through(step, f, SessionView { fns, encoder, guids: Seq::empty() })
            } else {
                goes_through(
                    step,
                    f,
                    SessionView {
                        fns,
                        encoder,
                        guids: first_guids(reply.guids@, reply.count as int),
                    },
                )
            },
            ProbeStage::Asking { session, codec, limit, width, height } => if reply.status != 0 {
                asks_from(step, f, session@, codec + 1)
            } else {
                match limit {
                    Limit::Width => asks(
                        step,
                        f,
                        session@,
                        codec as int,
                        Limit::Height,
                        reply.number,
                        height,
                    ),
                    Limit::Height => asks(
                        step,
                        f,
                        session@,
                        codec as int,
                        Limit::TenBit,
                        width,
                        reply.number,
                    ),
                    Limit::TenBit => asks_from(
                        step,
                        FindingsView {
                            rows: annotated(
                                f.rows,
                                codec_name(codec as int),
                                width,
                                height,
                                reply.number,
                            ),
                            ..f
                        },
                        session@,
                        codec + 1,
                    ),
                }
            },
            ProbeStage::Shutting { .. } => leaves(step, f),
            ProbeStage::Leaving => tells(step, f),
        }
    }
}

/// The first `n` identifiers, or all where there are fewer.
pub open spec fn first_guids(guids: Seq<Guid>, n: int) -> Seq<Guid> {
    if n < guids.len() {
        guids.take(n)
    } else {
        guids
    }
}

fn tell(found: Findings) -> (p: Probed)
    ensures
        p.info@ == report_of(found@),
        text_view(p.warning) == found@.warning,
{
    let mut extra: Vec<(String, String)> = Vec::new();
    if let Some((major, minor)) = found.capability {
        let value = join(u64_text(major as u64).as_str(), ".");
        let value = join(value.as_str(), u64_text(minor as u64).as_str());
        extra.push((String::from_str("compute_capability"), value));
    }
    assert(entries_view(extra@) =~= report_of(found@).extra);
    let info = HwDeviceInfo {
        name: found.name,
        driver_version: found.driver,
        api_version: found.api,
        total_memory_bytes: found.memory,
        extra,
        codecs: found.rows,
    };
    Probed { info, warning: found.warning }
}

impl ProbeDevice {
    fn leave(found: Findings) -> (step: Step<Self, Probed>)
        ensures
            leaves(step, found@),
    {
        if found.ctx != 0 {
            Step::Call(
                Call::CuCtxDestroy { ctx: found.ctx },
                ProbeDevice { found, stage: ProbeStage::Leaving },
            )
        } else {
            Step::Done(tell(found))
        }
    }

    fn leave_warning(found: Findings, warning: String) -> (step: Step<Self, Probed>)
        ensures
            leaves(step, FindingsView { warning: Some(warning@), ..found@ }),
    {
        Self::leave(Findings { warning: Some(warning), ..found })
    }

    fn shut(found: Findings, fns: NvEncodeApiFunctionList, encoder: u64) -> (step: Step<
        Self,
        Probed,
    >)
        ensures
            shuts(step, found@, fns, encoder),
    {
        if encoder != 0 && fns.nv_enc_destroy_encoder != 0 {
            Step::Call(
                Call::NvEncDestroyEncoder { encoder },
                ProbeDevice { found, stage: ProbeStage::Shutting { encoder } },
            )
        } else {
            Self::leave(found)
        }
    }

    fn ask(
        found: Findings,
        session: ProbeSession,
        codec: usize,
        limit: Limit,
        width: i32,
        height: i32,
    ) -> (step: Step<Self, Probed>)
        ensures
            asks(step, found@, session@, codec as int, limit, width, height),
    {
        let which: u32 = match limit {
            Limit::Width => NV_ENC_CAPS_WIDTH_MAX,
            Limit::Height => NV_ENC_CAPS_HEIGHT_MAX,
            Limit::TenBit => NV_ENC_CAPS_SUPPORT_10BIT_ENCODE,
        };
        let param = NvEncCapsParam { version: NV_ENC_CAPS_PARAM_VER, caps_to_query: which };
        let guid = encode_codec_at(codec);
        Step::Call(
            Call::NvEncGetEncodeCaps { encoder: session.encoder, guid, param },
            ProbeDevice {
                found,
                stage: ProbeStage::Asking { session, codec, limit, width, height },
            },
        )
    }

    fn ask_from(found: Findings, session: ProbeSession, codec: usize) -> (step: Step<Self, Probed>)
        ensures
            asks_from(step, found@, session@, codec as int),
        decreases
            (if codec < ENCODE_CODECS {
                ENCODE_CODECS - codec
            } else {
                0
            }),
    {
        if codec >= ENCODE_CODECS {
            Self::shut(found, session.fns, session.encoder)
        } else if is_offered(&session.guids, codec) {
            Self::ask(found, session, codec, Limit::Width, 0, 0)
        } else {
            Self::ask_from(found, session, codec + 1)
        }
    }

    fn go_through(found: Findings, session: ProbeSession) -> (step: Step<Self, Probed>)
        ensures
            goes_through(step, found@, session@),
    {
        if session.fns.nv_enc_get_encode_caps == 0 {
            let warning = String::from_str("nvEncGetEncodeCaps slot empty");
            let found = Findings { warning: Some(warning), ..found };
            Self::shut(found, session.fns, session.encoder)
        } else {
            Self::ask_from(found, session, 0)
        }
    }

    fn offer_nothing(found: Findings, fns: NvEncodeApiFunctionList, encoder: u64) -> (step: Step<
        Self,
        Probed,
    >)
        ensures
            goes_through(step, found@, SessionView { fns, encoder, guids: Seq::empty() }),
    {
        let session = ProbeSession { fns, encoder, guids: Vec::new() };
        assert(session@ =~= SessionView { fns, encoder, guids: Seq::empty() });
        Self::go_through(found, session)
    }

    fn decode_on(found: Findings) -> (step: Step<Self, Probed>)
        ensures
            decodes_on(step, found@),
    {
        let n = found.rows.len();
        if n < DECODE_CODECS {
            Step::Call(
                caps_call(decode_codec_at(n), CUDA_VIDEO_CHROMA_FORMAT_420, 8),
                ProbeDevice { found, stage: ProbeStage::Decode8 },
            )
        } else {
            Step::Call(
                Call::NvEncodeApiCreateInstance {
                    version: NV_ENCODE_API_FUNCTION_LIST_VER,
                    once: false,
                },
                ProbeDevice { found, stage: ProbeStage::Table },
            )
        }
    }

    fn add_row(found: Findings, row: HwCodecCaps) -> (step: Step<Self, Probed>)
        ensures
            decodes_on(step, FindingsView { rows: found@.rows.push(row@), ..found@ }),
    {
        let ghost before = found@;
        let mut found = found;
        found.rows.push(row);
        assert(found@.rows =~= before.rows.push(row@));
        Self::decode_on(found)
    }
}

/// Enters the version of the driver, if the reply holds one.
fn enter_version(found: Findings, reply: &Reply) -> (r: Findings)
    ensures
        r@ == with_version(found@, *reply),
{
    let v = reply.number;
    if reply.load_error.is_none() && reply.status == CUDA_SUCCESS && v > 0 {
        let driver = spell_version(v);
        let api = join("CUDA ", driver.as_str());
        Findings { driver: Some(driver), api: Some(api), ..found }
    } else {
        Findings { driver: None, api: None, ..found }
    }
}

fn take_caps(reply: Reply) -> (c: Option<NvdecCaps>)
    ensures
        c == answer(reply),
{
    match finish_caps(reply) {
        Ok(c) => Some(c),
        Err(_) => None,
    }
}

impl Machine for ProbeDevice {
    type Output = Probed;

    fn resume(self, reply: Reply) -> (step: Step<Self, Probed>)
        ensures
            self.follows(reply, step),
    {
        let ProbeDevice { found, stage } = self;
        let device = found.device;
        match stage {
            ProbeStage::Naming => {
                let name = match finish_name(reply) {
                    Ok(name) => name,
                    Err(_) => String::new(),
                };
                let found = Findings { name, ..found };
                assert(reply_error(reply) is Some ==> found.name@ =~= Seq::empty());
                Step::Call(
                    Call::CuDeviceTotalMem { device },
                    ProbeDevice { found, stage: ProbeStage::Sizing },
                )
            },
            ProbeStage::Sizing => {
                let memory: Option<u64> = match finish_memory(reply) {
                    Ok(n) => Some(n),
                    Err(_) => None,
                };
                let found = Findings { memory, ..found };
                Step::Call(
                    Call::CuDeviceGetAttribute {
                        attribute: CU_DEVICE_ATTRIBUTE_COMPUTE_CAPABILITY_MAJOR,
                        device,
                    },
                    ProbeDevice { found, stage: ProbeStage::Major },
                )
            },
            ProbeStage::Major => match check(reply) {
                Err(_) => {
                    let found = Findings { capability: None, ..found };
                    Step::Call(
                        Call::CuDriverGetVersion,
                        ProbeDevice { found, stage: ProbeStage::Version },
                    )
                },
                Ok(reply) => Step::Call(
                    Call::CuDeviceGetAttribute {
                        attribute: CU_DEVICE_ATTRIBUTE_COMPUTE_CAPABILITY_MINOR,
                        device,
                    },
                    ProbeDevice { found, stage: ProbeStage::Minor { major: reply.number } },
                ),
            },
            ProbeStage::Minor { major } => {
                let capability: Option<(u32, u32)> = match check(reply) {
                    Err(_) => None,
                    Ok(reply) => Some(finish_capability(major, reply.number)),
                };
                let found = Findings { capability, ..found };
                Step::Call(
                    Call::CuDriverGetVersion,
                    ProbeDevice { found, stage: ProbeStage::Version },
                )
            },
            ProbeStage::Version => {
                let found = enter_version(found, &reply);
                Step::Call(
                    Call::CuCtxCreate { flags: 0, device },
                    ProbeDevice { found, stage: ProbeStage::Entering },
                )
            },
            ProbeStage::VersionOnly => {
                let found = enter_version(found, &reply);
                Step::Done(tell(Findings { rows: make_blank_rows(), ..found }))
            },
            ProbeStage::Entering => match finish_context(reply) {
                Err(_) => Step::Done(tell(Findings { rows: make_blank_rows(), ..found })),
                Ok(ctx) => Self::decode_on(Findings { ctx: ctx.raw(), ..found }),
            },
            ProbeStage::Decode8 => {
                let n = found.rows.len();
                let row = make_decode_row(codec_name_at(n), take_caps(reply));
                if row.decode {
                    Step::Call(
                        caps_call(decode_codec_at(n), CUDA_VIDEO_CHROMA_FORMAT_420, 10),
                        ProbeDevice { found, stage: ProbeStage::Decode10 { row } },
                    )
                } else {
                    Self::add_row(found, row)
                }
            },
            ProbeStage::Decode10 { row } => {
                let row = deepen_row(row, take_caps(reply));
                Self::add_row(found, row)
            },
            ProbeStage::Table => match reply.load_error {
                Some(e) => Self::leave_warning(found, join("vtable: ", e.as_str())),
                None => {
                    if reply.status != NV_ENC_SUCCESS {
                        let warning = join(
                            "NvEncodeAPICreateInstance -> NVENCSTATUS ",
                            i32_text(reply.status).as_str(),
                        );
                        return Self::leave_warning(found, warning);
                    }
                    let fns = reply.table;
                    if fns.nv_enc_open_encode_session_ex == 0 {
                        let warning = String::from_str("nvEncOpenEncodeSessionEx slot empty");
                        return Self::leave_warning(found, warning);
                    }
                    let params = NvEncOpenEncodeSessionExParams {
                        version: NV_ENC_OPEN_ENCODE_SESSION_EX_PARAMS_VER,
                        device_type: NV_ENC_DEVICE_TYPE_CUDA,
                        device: found.ctx,
                        api_version: NVENCAPI_VERSION,
                    };
                    Step::Call(
                        Call::NvEncOpenEncodeSessionEx { params },
                        ProbeDevice { found, stage: ProbeStage::Opening { fns } },
                    )
                },
            },
            ProbeStage::Opening { fns } => {
                if reply.status != NV_ENC_SUCCESS {
                    let warning = join(
                        "nvEncOpenEncodeSessionEx -> ",
                        i32_text(reply.status).as_str(),
                    );
                    return Self::leave_warning(found, warning);
                }
                let encoder = reply.handle;
                if fns.nv_enc_get_encode_guid_count == 0 {
                    return Self::offer_nothing(found, fns, encoder);
                }
                Step::Call(
                    Call::NvEncGetEncodeGuidCount { encoder },
                    ProbeDevice { found, stage: ProbeStage::CountingGuids { fns, encoder } },
                )
            },
            ProbeStage::CountingGuids { fns, encoder } => {
                let capacity = reply.count;
                if reply.status != NV_ENC_SUCCESS || capacity == 0 || fns.nv_enc_get_encode_guids
                    == 0 {
                    return Self::offer_nothing(found, fns, encoder);
                }
                Step::Call(
                    Call::NvEncGetEncodeGuids { encoder, capacity },
                    ProbeDevice {
                        found,
                        stage: ProbeStage::ListingGuids { fns, encoder, capacity },
                    },
                )
            },
            ProbeStage::ListingGuids { fns, encoder, .. } => {
                if reply.status != NV_ENC_SUCCESS {
                    return Self::offer_nothing(found, fns, encoder);
                }
                let mut guids = reply.guids;
                guids.truncate(reply.count as usize);
                assert(guids@ =~= first_guids(reply.guids@, reply.count as int));
                let session = ProbeSession { fns, encoder, guids };
                Self::go_through(found, session)
            },
            ProbeStage::Asking { session, codec, limit, width, height } => match limit {
                _ if reply.status != NV_ENC_SUCCESS => {
                    if codec >= ENCODE_CODECS {
                        return Self::ask_from(found, session, codec);
                    }
                    Self::ask_from(found, session, codec + 1)
                },
                Limit::Width => Self::ask(
                    found,
                    session,
                    codec,
                    Limit::Height,
                    reply.number,
                    height,
                ),
                Limit::Height => Self::ask(
                    found,
                    session,
                    codec,
                    Limit::TenBit,
                    width,
                    reply.number,
                ),
                Limit::TenBit => {
                    let mut found = found;
                    annotate_row(
                        &mut found.rows,
                        codec_name_at(codec),
                        width,
                        height,
                        reply.number,
                    );
                    if codec >= ENCODE_CODECS {
                        return Self::ask_from(found, session, codec);
                    }
                    Self::ask_from(found, session, codec + 1)
                },
            },
            ProbeStage::Shutting { .. } => Self::leave(found),
            ProbeStage::Leaving => Step::Done(tell(found)),
        }
    }
}

fn no_findings(device: i32) -> (found: Findings)
    ensures
        found@ == fresh(device),
{
    let found = Findings {
        device,
        name: String::new(),
        memory: None,
        capability: None,
        driver: None,
        api: None,
        ctx: 0,
        rows: Vec::new(),
        warning: None,
    };
    assert(found@ =~= fresh(device));
    found
}

/// Starts to probe a device.
pub fn probe_device(device: i32) -> (step: Step<ProbeDevice, Probed>)
    ensures
        step matches Step::Call(call, m) && m.awaits(call) && m.stage is Naming && m.found@
            == fresh(device),
{
    let found = no_findings(device);
    Step::Call(
        Call::CuDeviceGetName { len: 256, device },
        ProbeDevice { found, stage: ProbeStage::Naming },
    )
}

/// Starts to report a device that cannot be had.
fn probe_nothing(ordinal: i32) -> (step: Step<ProbeDevice, Probed>)
    ensures
        step matches Step::Call(call, m) && m.awaits(call) && m.stage is VersionOnly && m.found@
            == fresh(ordinal),
{
    Step::Call(
        Call::CuDriverGetVersion,
        ProbeDevice { found: no_findings(ordinal), stage: ProbeStage::VersionOnly },
    )
}

/// Nothing is known of a device yet.
pub open spec fn fresh(device: i32) -> FindingsView {
    FindingsView {
        device,
        name: Seq::empty(),
        memory: None,
        capability: None,
        driver: None,
        api: None,
        ctx: 0,
        rows: Seq::empty(),
        warning: None,
    }
}

/// How far the probe of all devices has come.
pub enum EngineStage {
    Init,
    Counting,
    /// A device is being looked up.
    Finding,
    /// A device is being probed.
    Probing { probe: ProbeDevice },
}

/// Probes all devices.
pub struct EngineInfo {
    /// How many devices there are.
    pub count: u32,
    /// The ordinal of the next device.
    pub next: u32,
    pub devices: Vec<HwDeviceInfo>,
    pub warnings: Vec<String>,
    pub stage: EngineStage,
}

/// What the probe of all devices has brought: a report for each device, in the order of
/// their ordinals, and what to warn of.
pub struct EngineReport {
    pub devices: Vec<HwDeviceInfo>,
    pub warnings: Vec<String>,
}

/// Where the probe of all devices stands.
#[verifier::ext_equal]
pub struct EngineView {
    pub count: u32,
    pub next: u32,
    pub devices: Seq<HwDeviceInfo>,
    pub warnings: Seq<Seq<char>>,
}

impl View for EngineInfo {
    type V = EngineView;

    open spec fn view(&self) -> EngineView {
        EngineView {
            count: self.count,
            next: self.next,
            devices: self.devices@,
            warnings: texts_view(self.warnings@),
        }
    }
}

/// The step that looks up the next device, or ends the probe after the last one.
pub open spec fn goes_to_next(step: Step<EngineInfo, EngineReport>, v: EngineView) -> bool {
    if v.next < v.count {
        &&& step matches Step::Call(call, m)
        &&& call == (Call::CuDeviceGet { ordinal: v.next as i32 })
        &&& m@ == (EngineView { next: (v.next + 1) as u32, ..v })
        &&& m.stage is Finding
    } else {
        &&& step matches Step::Done(report)
        &&& report.devices@ == v.devices
        &&& texts_view(report.warnings@) == v.warnings
    }
}

/// The step that ends the probe with no device at all.
pub open spec fn finds_no_device(step: Step<EngineInfo, EngineReport>) -> bool {
    step matches Step::Done(report) && report.devices@.len() == 0 && report.warnings@.len() == 0
}

/// Where the probe of all devices stands after one more device.
pub open spec fn with_device(v: EngineView, p: Probed) -> EngineView {
    EngineView {
        devices: v.devices.push(p.info),
        warnings: match p.warning {
            Some(w) => v.warnings.push("oxideav-nvidia: NVENC probe skipped: "@ + w@),
            None => v.warnings,
        },
        ..v
    }
}

/// The step of the probe of all devices that a step of the probe of one makes.
pub open spec fn lifts(
    v: EngineView,
    inner: Step<ProbeDevice, Probed>,
    step: Step<EngineInfo, EngineReport>,
) -> bool {
    match inner {
        Step::Call(inner_call, p) => {
            &&& step matches Step::Call(call, m)
            &&& call == inner_call
            &&& m@ == v
            &&& m.stage == (EngineStage::Probing { probe: p })
        },
        Step::Done(p) => goes_to_next(step, with_device(v, p)),
    }
}

impl EngineInfo {
    /// The ordinal of the device that is being looked up or probed.
    pub open spec fn ordinal(self) -> i32 {
        if self.next > 0 {
            (self.next - 1) as i32
        } else {
            0
        }
    }

    fn get_ordinal(next: u32) -> (o: i32)
        ensures
            o == (if next > 0 {
                (next - 1) as i32
            } else {
                0
            }),
    {
        if next > 0 {
            #[verifier::truncate] ((next - 1) as i32)
        } else {
            0
        }
    }

    /// What follows the reply to the awaited call.
    pub open spec fn follows(self, reply: Reply, step: Step<EngineInfo, EngineReport>) -> bool {
        match self.stage {
            EngineStage::Init => if reply_error(reply) is Some {
                finds_no_device(step)
            } else {
                &&& step matches Step::Call(call, m)
                &&& call == Call::CuDeviceGetCount
                &&& m@ == self@
                &&& m.stage is Counting
            },
            EngineStage::Counting => match count_outcome(reply) {
                Err(_) => finds_no_device(step),
                Ok(count) => goes_to_next(step, EngineView { count, next: 0, ..self@ }),
            },
            EngineStage::Finding => {
                &&& step matches Step::Call(call, m)
                &&& m@ == self@
                &&& m.stage matches EngineStage::Probing { probe: p }
                &&& p.awaits(call)
                &&& if reply_error(reply) is Some {
                    p.stage is VersionOnly && p.found@ == fresh(self.ordinal())
                } else {
                    p.stage is Naming && p.found@ == fresh(reply.number)
                }
            },
            EngineStage::Probing { probe } => exists|inner: Step<ProbeDevice, Probed>| #[trigger]
                probe.follows(reply, inner) && lifts(self@, inner, step),
        }
    }

    fn go_to_next(self) -> (step: Step<Self, EngineReport>)
        ensures
            goes_to_next(step, self@),
    {
        if self.next < self.count {
            let ordinal = #[verifier::truncate] (self.next as i32);
            Step::Call(
                Call::CuDeviceGet { ordinal },
                EngineInfo { next: self.next + 1, stage: EngineStage::Finding, ..self },
            )
        } else {
            Step::Done(EngineReport { devices: self.devices, warnings: self.warnings })
        }
    }

    fn add_device(self, p: Probed) -> (r: Self)
        ensures
            r@ == with_device(self@, p),
    {
        let mut r = self;
        r.devices.push(p.info);
        if let Some(w) = p.warning {
            r.warnings.push(join("oxideav-nvidia: NVENC probe skipped: ", w.as_str()));
        }
        assert(r@ =~= with_device(self@, p));
        r
    }
}

impl Machine for EngineInfo {
    type Output = EngineReport;

    fn resume(self, reply: Reply) -> (step: Step<Self, EngineReport>)
        ensures
            self.follows(reply, step),
    {
        let ghost v = self@;
        let EngineInfo { count, next, devices, warnings, stage } = self;
        match stage {
            EngineStage::Init => match finish_init(reply) {
                Err(_) => Step::Done(EngineReport { devices: Vec::new(), warnings: Vec::new() }),
                Ok(_) => Step::Call(
                    Call::CuDeviceGetCount,
                    EngineInfo { count, next, devices, warnings, stage: EngineStage::Counting },
                ),
            },
            EngineStage::Counting => match finish_count(reply) {
                Err(_) => Step::Done(EngineReport { devices: Vec::new(), warnings: Vec::new() }),
                Ok(count) => EngineInfo { count, next: 0, devices, warnings, stage: EngineStage::Finding }
                    .go_to_next(),
            },
            EngineStage::Finding => {
                let started = match finish_device(reply) {
                    Err(_) => probe_nothing(Self::get_ordinal(next)),
                    Ok(device) => probe_device(device.handle()),
                };
                match started {
                    Step::Call(call, probe) => Step::Call(
                        call,
                        EngineInfo {
                            count,
                            next,
                            devices,
                            warnings,
                            stage: EngineStage::Probing { probe },
                        },
                    ),
                    Step::Done(p) => EngineInfo {
                        count,
                        next,
                        devices,
                        warnings,
                        stage: EngineStage::Finding,
                    }.add_device(p).go_to_next(),
                }
            },
            EngineStage::Probing { probe } => {
                let inner = probe.resume(reply);
                assert(probe.follows(reply, inner));
                match inner {
                    Step::Call(call, p) => Step::Call(
                        call,
                        EngineInfo {
                            count,
                            next,
                            devices,
                            warnings,
                            stage: EngineStage::Probing { probe: p },
                        },
                    ),
                    Step::Done(p) => EngineInfo {
                        count,
                        next,
                        devices,
                        warnings,
                        stage: EngineStage::Finding,
                    }.add_device(p).go_to_next(),
                }
            },
        }
    }
}

/// Starts to probe all devices. Where the driver is not loaded or sees no device, none
/// is reported. Otherwise there is an entry for each device, at the place of its
/// ordinal; what could not be found out of a device is left empty in its entry.
pub fn engine_info() -> (step: Step<EngineInfo, EngineReport>)
    ensures
        step matches Step::Call(call, m) && call == (Call::CuInit { flags: 0 }) && m.stage is Init
            && m@ == (EngineView {
            count: 0,
            next: 0,
            devices: Seq::empty(),
            warnings: Seq::empty(),
        }),
{
    let m = EngineInfo {
        count: 0,
        next: 0,
        devices: Vec::new(),
        warnings: Vec::new(),
        stage: EngineStage::Init,
    };
    assert(m@ =~= EngineView {
        count: 0,
        next: 0,
        devices: Seq::empty(),
        warnings: Seq::empty(),
    });
    Step::Call(Call::CuInit { flags: 0 }, m)
}

/// Whether rows are of the codecs in their order, and none is said to be encoded that
/// the encode engine knows nothing of.
pub open spec fn rows_in_order(rows: Seq<CapsView>) -> bool {
    forall|i: int|
        0 <= i < rows.len() ==> (#[trigger] rows[i]).codec == codec_name(i) && (rows[i].encode
            ==> i < ENCODE_CODECS)
}

/// Whether a report has a row for each codec.
pub open spec fn is_complete(rows: Seq<CapsView>) -> bool {
    rows.len() == DECODE_CODECS && rows_in_order(rows)
}

impl ProbeDevice {
    /// What holds of the findings in each stage.
    pub open spec fn valid(self) -> bool {
        let f = self.found@;
        &&& rows_in_order(f.rows)
        &&& match self.stage {
            ProbeStage::Decode8 => f.rows.len() < DECODE_CODECS,
            ProbeStage::Decode10 { row } => f.rows.len() < DECODE_CODECS && row@.codec
                == codec_name(f.rows.len() as int) && !row@.encode,
            ProbeStage::Asking { codec, .. } => f.rows.len() == DECODE_CODECS && codec
                < ENCODE_CODECS,
            ProbeStage::Naming | ProbeStage::Sizing | ProbeStage::Major | ProbeStage::Minor { .. }
            | ProbeStage::Version | ProbeStage::VersionOnly | ProbeStage::Entering => f.rows.len() == 0 && f.ctx == 0,
            ProbeStage::Leaving => f.rows.len() == DECODE_CODECS && f.ctx != 0,
            _ => f.rows.len() == DECODE_CODECS,
        }
    }

    /// The context and the session that are there.
    pub open spec fn held(self) -> Set<Resource> {
        let ctx = self.found.ctx;
        let encoder = match self.stage {
            ProbeStage::CountingGuids { encoder, .. } => encoder,
            ProbeStage::ListingGuids { encoder, .. } => encoder,
            ProbeStage::Asking { session, .. } => session.encoder,
            ProbeStage::Shutting { encoder } => encoder,
            _ => 0,
        };
        only(ctx != 0, Resource::Context { ctx }).union(
            only(encoder != 0, Resource::Session { encoder }),
        )
    }

    /// The table of entry points that the next step goes by, if it goes by one.
    pub open spec fn table(self) -> Option<NvEncodeApiFunctionList> {
        match self.stage {
            ProbeStage::Opening { fns } => Some(fns),
            ProbeStage::CountingGuids { fns, .. } => Some(fns),
            ProbeStage::ListingGuids { fns, .. } => Some(fns),
            ProbeStage::Asking { session, .. } => Some(session.fns),
            _ => None,
        }
    }
}

proof fn lemma_annotated_in_order(
    rows: Seq<CapsView>,
    codec: int,
    width: i32,
    height: i32,
    ten_bit: i32,
)
    requires
        is_complete(rows),
        0 <= codec < ENCODE_CODECS,
    ensures
        is_complete(annotated(rows, codec_name(codec), width, height, ten_bit)),
{
    assert forall|j: int| 0 <= j < codec implies (#[trigger] rows[j]).codec != codec_name(
        codec,
    ) by {
        codec_names_differ(j, codec);
    }
    lemma_row_of(rows, codec_name(codec), codec);
}

/// A device that is reported has a row for each of the six codecs, in their order, and
/// none of those without an encoder is said to be encoded.
pub proof fn every_report_is_complete(
    m: ProbeDevice,
    reply: Reply,
    step: Step<ProbeDevice, Probed>,
)
    requires
        m.valid(),
        m.follows(reply, step),
    ensures
        match step {
            Step::Call(call, next) => next.valid() && next.awaits(call),
            Step::Done(p) => is_complete(p.info@.codecs),
        },
{
    reveal_with_fuel(asks_from, 5);
    assert(is_complete(blank_rows()));
    if let ProbeStage::Asking { codec, limit: Limit::TenBit, width, height, .. } = m.stage {
        lemma_annotated_in_order(m.found@.rows, codec as int, width, height, reply.number);
    }
}

/// A codec of which the encode engine refuses a limit keeps its row, so it is not said
/// to be encoded on that account, and the probe goes on without it.
pub proof fn refused_limit_changes_no_row(
    m: ProbeDevice,
    reply: Reply,
    step: Step<ProbeDevice, Probed>,
)
    requires
        m.follows(reply, step),
        m.stage is Asking,
        reply.status != 0,
    ensures
        match step {
            Step::Call(_, next) => {
                &&& next.found@ == m.found@
                &&& next.stage matches ProbeStage::Asking { codec, limit, .. } ==> codec
                    > m.stage->Asking_codec && limit is Width
            },
            Step::Done(p) => p.info@.codecs == m.found@.rows,
        },
{
    reveal_with_fuel(asks_from, 5);
}

/// The probe of a device leaves nothing behind: the session and the context that it
/// makes are gone when it ends, whatever the driver replies, as long as the table has
/// the entry point that closes a session and an opened session is not null.
pub proof fn probe_leaves_nothing_behind(
    m: ProbeDevice,
    call: Call,
    reply: Reply,
    step: Step<ProbeDevice, Probed>,
)
    requires
        m.valid(),
        m.awaits(call),
        m.follows(reply, step),
        m.table() matches Some(fns) ==> fns.nv_enc_destroy_encoder != 0,
        m.stage is Opening && reply.status == 0 ==> reply.handle != 0,
    ensures
        match step {
            Step::Call(_, next) => next.held() =~= held_after(m.held(), call, reply),
            Step::Done(_) => held_after(m.held(), call, reply) =~= Set::empty(),
        },
{
    reveal_with_fuel(asks_from, 5);
}

impl EngineInfo {
    /// Each device is looked up once and has its entry at the place of its ordinal: the
    /// devices before the one at hand have theirs already.
    pub open spec fn valid(self) -> bool {
        &&& self.next <= self.count
        &&& forall|i: int|
            0 <= i < self.devices@.len() ==> is_complete((#[trigger] self.devices@[i])@.codecs)
        &&& match self.stage {
            EngineStage::Init => self.devices@.len() == 0,
            EngineStage::Counting => self.devices@.len() == 0,
            EngineStage::Finding => self.devices@.len() == self.next - 1,
            EngineStage::Probing { probe } => self.devices@.len() == self.next - 1
                && probe.valid(),
        }
    }
}

/// The probe of all devices makes an entry for each device, at the place of its
/// ordinal, and each entry is complete: a device is looked up by the number of entries
/// before it, and gets its entry whatever fails.
pub proof fn devices_have_their_entries(
    m: EngineInfo,
    reply: Reply,
    step: Step<EngineInfo, EngineReport>,
)
    requires
        m.valid(),
        m.follows(reply, step),
    ensures
        match step {
            Step::Call(call, next) => {
                &&& next.valid()
                &&& m.devices@.is_prefix_of(next.devices@)
                &&& next.stage is Finding ==> call == (Call::CuDeviceGet {
                    ordinal: next.devices@.len() as i32,
                })
            },
            Step::Done(report) => {
                &&& m.stage is Probing ==> report.devices@.len() == m.count
                    && m.devices@.is_prefix_of(report.devices@)
                &&& !(m.stage is Probing) ==> report.devices@.len() == 0
                &&& forall|i: int|
                    0 <= i < report.devices@.len() ==> is_complete(
                        (#[trigger] report.devices@[i])@.codecs,
                    )
            },
        },
{
    if let EngineStage::Probing { probe } = m.stage {
        let inner = choose|inner: Step<ProbeDevice, Probed>| #[trigger]
            probe.follows(reply, inner) && lifts(m@, inner, step);
        every_report_is_complete(probe, reply, inner);
    }
}

/// A driver that is not loaded, or that sees no device, is no error for the probe: no
/// device is reported.
pub proof fn no_driver_means_no_device(
    m: EngineInfo,
    reply: Reply,
    step: Step<EngineInfo, EngineReport>,
)
    requires
        m.valid(),
        m.follows(reply, step),
        m.stage is Init || m.stage is Counting,
        reply_error(reply) is Some || (m.stage is Counting && reply.number <= 0),
    ensures
        step matches Step::Done(report) && report.devices@.len() == 0,
{
}

} // verus!

//! What the bitstream parser calls back for: a new stream format, a coded picture, a
//! picture to be shown.

use std::collections::VecDeque;
use vstd::prelude::*;
use crate::driver::{Call, Machine, Reply, Step};
use crate::frame::{VideoFrame, VideoPlane};
use crate::nv12::{half, half_up, shown_chroma, shown_luma, to_i420, Geometry};
use crate::resource::{held_after, only, Resource};
use crate::sys::{
    CUDA_SUCCESS, CUDA_VIDEO_CREATE_PREFER_CUVID, CUDA_VIDEO_DEINTERLACE_WEAVE,
    CUDA_VIDEO_SURFACE_FORMAT_NV12, CUVIDDECODECREATEINFO, CUVIDEOFORMAT, CUVIDPARSERDISPINFO,
    CUVIDPROCPARAMS,
};
use crate::text::{i32_text, int_text, join};

verus! {

/// Decode surfaces that are asked for at least.
pub const DEFAULT_NUM_DECODE_SURFACES: u32 = 8;

/// Mapped output surfaces that can be held at a time.
pub const DEFAULT_NUM_OUTPUT_SURFACES: u32 = 2;

/// What the callbacks and the decoder share.
pub struct CallbackState {
    /// The hardware decoder, once a stream format is known.
    pub decoder: u64,
    /// Size and display rectangle of the current stream format.
    pub geometry: Geometry,
    /// Pictures that are ready to be handed out.
    pub frames: VecDeque<VideoFrame>,
    /// The first thing that went wrong.
    pub error: Option<String>,
}

/// The message of a driver call that failed.
pub open spec fn failed_text(what: Seq<char>, status: i32) -> Seq<char> {
    what + " failed: CUresult "@ + int_text(status as int)
}

pub(crate) fn failed(what: &str, status: i32) -> (s: String)
    ensures
        s@ == failed_text(what@, status),
{
    let s = join(what, " failed: CUresult ");
    join(s.as_str(), i32_text(status).as_str())
}

impl CallbackState {
    /// No stream yet.
    pub fn new() -> (s: Self)
        ensures
            s.decoder == 0,
            s.geometry == (Geometry {
                coded_width: 0,
                coded_height: 0,
                display_w: 0,
                display_h: 0,
                display_left: 0,
                display_top: 0,
            }),
            s.frames@.len() == 0,
            s.error is None,
    {
        CallbackState {
            decoder: 0,
            geometry: Geometry {
                coded_width: 0,
                coded_height: 0,
                display_w: 0,
                display_h: 0,
                display_left: 0,
                display_top: 0,
            },
            frames: VecDeque::new(),
            error: None,
        }
    }

    /// Whether `after` is this state with an error on record: `message`, unless there
    /// was one already.
    pub open spec fn records(self, message: Seq<char>, after: CallbackState) -> bool {
        &&& after.decoder == self.decoder
        &&& after.geometry == self.geometry
        &&& after.frames == self.frames
        &&& match self.error {
            Some(first) => after.error == Some(first),
            None => after.error matches Some(m) && m@ == message,
        }
    }

    /// The state with an error on record.
    fn record(self, message: String) -> (after: CallbackState)
        ensures
            self.records(message@, after),
    {
        match self.error {
            Some(first) => CallbackState { error: Some(first), ..self },
            None => CallbackState { error: Some(message), ..self },
        }
    }
}

/// The extent of a display rectangle from `low` to `high`, or all of `coded` where the
/// rectangle is empty.
pub open spec fn shown_extent(low: i32, high: i32, coded: u32) -> u32 {
    if high > low {
        (high - low) as u32
    } else {
        coded
    }
}

/// A coordinate, with zero for a negative one.
pub open spec fn from_zero(x: i32) -> u32 {
    if x < 0 {
        0
    } else {
        x as u32
    }
}

/// What is shown of pictures of a stream format.
pub open spec fn format_geometry(f: CUVIDEOFORMAT) -> Geometry {
    Geometry {
        coded_width: f.coded_width,
        coded_height: f.coded_height,
        display_w: shown_extent(f.display_left, f.display_right, f.coded_width),
        display_h: shown_extent(f.display_top, f.display_bottom, f.coded_height),
        display_left: from_zero(f.display_left),
        display_top: from_zero(f.display_top),
    }
}

/// Decode surfaces for a stream format: what the parser asks for, but never fewer than
/// the default.
pub open spec fn surface_count(f: CUVIDEOFORMAT) -> u64 {
    if f.min_num_decode_surfaces < 8 {
        8
    } else {
        f.min_num_decode_surfaces as u64
    }
}

/// The decoder for a stream format. Surfaces come out at coded size as NV12; cutting
/// them down to what is shown is left to the host.
pub open spec fn decoder_for(f: CUVIDEOFORMAT) -> CUVIDDECODECREATEINFO {
    CUVIDDECODECREATEINFO {
        ul_width: f.coded_width as u64,
        ul_height: f.coded_height as u64,
        ul_num_decode_surfaces: surface_count(f),
        codec_type: f.codec,
        chroma_format: f.chroma_format,
        ul_creation_flags: 4,
        bit_depth_minus_8: f.bit_depth_luma_minus8 as u64,
        ul_intra_decode_only: 0,
        ul_max_width: f.coded_width as u64,
        ul_max_height: f.coded_height as u64,
        display_left: f.display_left as i16,
        display_top: f.display_top as i16,
        display_right: f.display_right as i16,
        display_bottom: f.display_bottom as i16,
        output_format: 0,
        deinterlace_mode: 0,
        ul_target_width: f.coded_width as u64,
        ul_target_height: f.coded_height as u64,
        ul_num_output_surfaces: 2,
        vid_lock: 0,
        target_left: 0,
        target_top: 0,
        target_right: f.coded_width as i16,
        target_bottom: f.coded_height as i16,
        enable_histogram: 0,
    }
}

fn extent(low: i32, high: i32, coded: u32) -> (r: u32)
    ensures
        r == shown_extent(low, high, coded),
{
    if high > low {
        (high as i64 - low as i64) as u32
    } else {
        coded
    }
}

fn clamp_low(x: i32) -> (r: u32)
    ensures
        r == from_zero(x),
{
    if x < 0 {
        0
    } else {
        x as u32
    }
}

fn geometry_of(f: &CUVIDEOFORMAT) -> (g: Geometry)
    ensures
        g == format_geometry(*f),
{
    Geometry {
        coded_width: f.coded_width,
        coded_height: f.coded_height,
        display_w: extent(f.display_left, f.display_right, f.coded_width),
        display_h: extent(f.display_top, f.display_bottom, f.coded_height),
        display_left: clamp_low(f.display_left),
        display_top: clamp_low(f.display_top),
    }
}

fn create_info(f: &CUVIDEOFORMAT) -> (info: CUVIDDECODECREATEINFO)
    ensures
        info == decoder_for(*f),
{
    let min_surfaces = f.min_num_decode_surfaces as u32;
    let surfaces = if min_surfaces < DEFAULT_NUM_DECODE_SURFACES {
        DEFAULT_NUM_DECODE_SURFACES
    } else {
        min_surfaces
    };
    CUVIDDECODECREATEINFO {
        ul_width: f.coded_width as u64,
        ul_height: f.coded_height as u64,
        ul_num_decode_surfaces: surfaces as u64,
        codec_type: f.codec,
        chroma_format: f.chroma_format,
        ul_creation_flags: CUDA_VIDEO_CREATE_PREFER_CUVID as u64,
        bit_depth_minus_8: f.bit_depth_luma_minus8 as u64,
        ul_intra_decode_only: 0,
        ul_max_width: f.coded_width as u64,
        ul_max_height: f.coded_height as u64,
        display_left: #[verifier::truncate] (f.display_left as i16),
        display_top: #[verifier::truncate] (f.display_top as i16),
        display_right: #[verifier::truncate] (f.display_right as i16),
        display_bottom: #[verifier::truncate] (f.display_bottom as i16),
        output_format: CUDA_VIDEO_SURFACE_FORMAT_NV12,
        deinterlace_mode: CUDA_VIDEO_DEINTERLACE_WEAVE,
        ul_target_width: f.coded_width as u64,
        ul_target_height: f.coded_height as u64,
        ul_num_output_surfaces: DEFAULT_NUM_OUTPUT_SURFACES as u64,
        vid_lock: 0,
        target_left: 0,
        target_top: 0,
        target_right: #[verifier::truncate] (f.coded_width as i16),
        target_bottom: #[verifier::truncate] (f.coded_height as i16),
        enable_histogram: 0,
    }
}

/// Handles a new stream format: waits for the old decoder to go, then for the new one.
pub struct SeqCallback {
    pub state: CallbackState,
    pub format: CUVIDEOFORMAT,
    /// Whether the new decoder is under way.
    pub creating: bool,
}

/// A state and what the parser is told: 1 to go on, 0 to stop.
pub type Handled = (CallbackState, i32);

impl SeqCallback {
    /// There is no decoder while one is being created.
    pub open spec fn valid(self) -> bool {
        self.creating ==> self.state.decoder == 0
    }

    /// The awaited call.
    pub open spec fn awaits(self) -> Call {
        if self.creating {
            Call::CuvidCreateDecoder { info: decoder_for(self.format) }
        } else {
            Call::CuvidDestroyDecoder { decoder: self.state.decoder }
        }
    }

    /// What follows the reply to the awaited call.
    pub open spec fn follows(self, reply: Reply, step: Step<SeqCallback, Handled>) -> bool {
        if !self.creating {
            step == Step::<SeqCallback, Handled>::Call(
                Call::CuvidCreateDecoder { info: decoder_for(self.format) },
                SeqCallback {
                    state: CallbackState { decoder: 0, ..self.state },
                    format: self.format,
                    creating: true,
                },
            )
        } else if reply.status != 0 {
            step matches Step::Done((after, 0)) && self.state.records(
                failed_text("cuvidCreateDecoder"@, reply.status),
                after,
            )
        } else {
            step == Step::<SeqCallback, Handled>::Done(
                (
                    CallbackState {
                        decoder: reply.handle,
                        geometry: format_geometry(self.format),
                        ..self.state
                    },
                    1,
                ),
            )
        }
    }
}

impl Machine for SeqCallback {
    type Output = Handled;

    fn resume(self, reply: Reply) -> (step: Step<Self, Handled>)
        ensures
            self.follows(reply, step),
    {
        let SeqCallback { state, format, creating } = self;
        if !creating {
            let info = create_info(&format);
            let state = CallbackState { decoder: 0, ..state };
            Step::Call(
                Call::CuvidCreateDecoder { info },
                SeqCallback { state, format, creating: true },
            )
        } else if reply.status != CUDA_SUCCESS {
            Step::Done((state.record(failed("cuvidCreateDecoder", reply.status)), 0))
        } else {
            let geometry = geometry_of(&format);
            Step::Done((CallbackState { decoder: reply.handle, geometry, ..state }, 1))
        }
    }
}

/// Handles a coded picture: waits for the decoder to take it.
pub struct DecodeCallback {
    pub state: CallbackState,
}

impl DecodeCallback {
    /// What follows the reply to the awaited call.
    pub open spec fn follows(self, reply: Reply, step: Step<DecodeCallback, Handled>) -> bool {
        if reply.status != 0 {
            step matches Step::Done((after, 0)) && self.state.records(
                failed_text("cuvidDecodePicture"@, reply.status),
                after,
            )
        } else {
            step == Step::<DecodeCallback, Handled>::Done((self.state, 1))
        }
    }
}

impl Machine for DecodeCallback {
    type Output = Handled;

    fn resume(self, reply: Reply) -> (step: Step<Self, Handled>)
        ensures
            self.follows(reply, step),
    {
        if reply.status != CUDA_SUCCESS {
            Step::Done((self.state.record(failed("cuvidDecodePicture", reply.status)), 0))
        } else {
            Step::Done((self.state, 1))
        }
    }
}

/// How far a picture has come on its way to the host.
pub enum DisplayStage {
    /// The surface is being mapped.
    Mapping,
    /// The surface is mapped; pending decode work is being waited for.
    Syncing { surface: u64, pitch: u32 },
    /// The luma plane is being copied.
    CopyingLuma { surface: u64, pitch: u32 },
    /// The chroma plane is being copied.
    CopyingChroma { surface: u64, pitch: u32, luma_status: i32, luma: Vec<u8> },
    /// Everything has been tried; the surface is being unmapped.
    Unmapping {
        surface: u64,
        pitch: u32,
        luma_status: i32,
        luma: Vec<u8>,
        chroma_status: i32,
        chroma: Vec<u8>,
    },
    /// Waiting failed; the surface is being unmapped.
    Failing { surface: u64 },
}

/// Handles a picture to be shown: brings it to the host and queues it.
pub struct DisplayCallback {
    pub state: CallbackState,
    pub info: CUVIDPARSERDISPINFO,
    pub stage: DisplayStage,
}

/// How a picture is to be mapped.
pub open spec fn mapping_of(info: CUVIDPARSERDISPINFO) -> CUVIDPROCPARAMS {
    CUVIDPROCPARAMS {
        progressive_frame: info.progressive_frame,
        second_field: 0,
        top_field_first: info.top_field_first,
        unpaired_field: if info.repeat_first_field < 0 {
            1
        } else {
            0
        },
        output_stream: 0,
    }
}

/// The picture that is queued: three planes cut to what is shown, and a timestamp
/// unless it is zero.
pub open spec fn is_shown(
    frame: VideoFrame,
    luma: Seq<u8>,
    chroma: Seq<u8>,
    pitch: u32,
    g: Geometry,
    timestamp: i64,
) -> bool {
    &&& frame.pts == (if timestamp != 0 {
        Some(timestamp)
    } else {
        None
    })
    &&& frame.planes@.len() == 3
    &&& frame.planes@[0].stride == g.out_w()
    &&& frame.planes@[0].data@ == shown_luma(luma, pitch as int, g)
    &&& frame.planes@[1].stride == half_up(g.out_w())
    &&& frame.planes@[1].data@ == shown_chroma(chroma, pitch as int, g, 0)
    &&& frame.planes@[2].stride == half_up(g.out_w())
    &&& frame.planes@[2].data@ == shown_chroma(chroma, pitch as int, g, 1)
}

/// Makes the picture that is queued.
fn shown_frame(luma: &Vec<u8>, chroma: &Vec<u8>, pitch: u32, g: &Geometry, timestamp: i64) -> (frame:
    VideoFrame)
    ensures
        is_shown(frame, luma@, chroma@, pitch, *g, timestamp),
{
    let picture = to_i420(luma, chroma, pitch, g);
    let pts: Option<i64> = if timestamp != 0 {
        Some(timestamp)
    } else {
        None
    };
    let chroma_width = half(picture.width);
    let mut planes: Vec<VideoPlane> = Vec::new();
    planes.push(VideoPlane { stride: picture.width as usize, data: picture.y });
    planes.push(VideoPlane { stride: chroma_width as usize, data: picture.u });
    planes.push(VideoPlane { stride: chroma_width as usize, data: picture.v });
    VideoFrame { pts, planes }
}

/// Bytes of `rows` rows.
fn rows_len(pitch: u32, rows: u32) -> (n: u64)
    ensures
        n == pitch * rows,
{
    assert(0 <= pitch * rows <= 0xFFFF_FFFF * 0xFFFF_FFFF) by (nonlinear_arith)
        requires
            0 <= pitch <= 0xFFFF_FFFF,
            0 <= rows <= 0xFFFF_FFFF,
    ;
    pitch as u64 * rows as u64
}

/// An address `n` bytes on; device addresses wrap.
pub open spec fn address_after(address: u64, n: int) -> u64 {
    if address + n > u64::MAX {
        (address + n - 0x1_0000_0000_0000_0000) as u64
    } else {
        (address + n) as u64
    }
}

impl DisplayCallback {
    /// The surface that is mapped.
    pub open spec fn held(self) -> Set<Resource> {
        let decoder = self.state.decoder;
        match self.stage {
            DisplayStage::Mapping => Set::empty(),
            DisplayStage::Syncing { surface: frame, .. } => set![
                Resource::Surface { decoder, frame },
            ],
            DisplayStage::CopyingLuma { surface: frame, .. } => set![
                Resource::Surface { decoder, frame },
            ],
            DisplayStage::CopyingChroma { surface: frame, .. } => set![
                Resource::Surface { decoder, frame },
            ],
            DisplayStage::Unmapping { surface: frame, .. } => set![
                Resource::Surface { decoder, frame },
            ],
            DisplayStage::Failing { surface: frame } => set![Resource::Surface { decoder, frame }],
        }
    }

    /// The awaited call.
    pub open spec fn awaits(self) -> Call {
        let decoder = self.state.decoder;
        let rows = self.state.geometry.coded_height;
        match self.stage {
            DisplayStage::Mapping => Call::CuvidMapVideoFrame {
                decoder,
                picture_index: self.info.picture_index,
                params: mapping_of(self.info),
            },
            DisplayStage::Syncing { .. } => Call::CuStreamSynchronize { stream: 0 },
            DisplayStage::CopyingLuma { surface, pitch } => Call::CuMemcpyDtoH {
                src: surface,
                len: (pitch * rows) as u64,
            },
            DisplayStage::CopyingChroma { surface, pitch, .. } => Call::CuMemcpyDtoH {
                src: address_after(surface, pitch * rows),
                len: (pitch * half_up(rows as int)) as u64,
            },
            DisplayStage::Unmapping { surface: frame, .. } => Call::CuvidUnmapVideoFrame {
                decoder,
                frame,
            },
            DisplayStage::Failing { surface: frame } => Call::CuvidUnmapVideoFrame {
                decoder,
                frame,
            },
        }
    }

    /// What follows the reply to the awaited call.
    pub open spec fn follows(self, reply: Reply, step: Step<DisplayCallback, Handled>) -> bool {
        let g = self.state.geometry;
        match self.stage {
            DisplayStage::Mapping => if reply.status != 0 {
                step matches Step::Done((after, 0)) && self.state.records(
                    failed_text("cuvidMapVideoFrame64"@, reply.status),
                    after,
                )
            } else {
                step == Step::<DisplayCallback, Handled>::Call(
                    Call::CuStreamSynchronize { stream: 0 },
                    DisplayCallback {
                        stage: DisplayStage::Syncing { surface: reply.handle, pitch: reply.pitch },
                        ..self
                    },
                )
            },
            DisplayStage::Syncing { surface, pitch } => if reply.status != 0 {
                &&& step matches Step::Call(call, next)
                &&& call == (Call::CuvidUnmapVideoFrame {
                    decoder: self.state.decoder,
                    frame: surface,
                })
                &&& next.info == self.info
                &&& next.stage == (DisplayStage::Failing { surface })
                &&& self.state.records(
                    failed_text("cuStreamSynchronize"@, reply.status),
                    next.state,
                )
            } else {
                step == Step::<DisplayCallback, Handled>::Call(
                    Call::CuMemcpyDtoH { src: surface, len: (pitch * g.coded_height) as u64 },
                    DisplayCallback {
                        stage: DisplayStage::CopyingLuma { surface, pitch },
                        ..self
                    },
                )
            },
            DisplayStage::CopyingLuma { surface, pitch } => {
                step == Step::<DisplayCallback, Handled>::Call(
                    Call::CuMemcpyDtoH {
                        src: address_after(surface, pitch * g.coded_height),
                        len: (pitch * half_up(g.coded_height as int)) as u64,
                    },
                    DisplayCallback {
                        stage: DisplayStage::CopyingChroma {
                            surface,
                            pitch,
                            luma_status: reply.status,
                            luma: reply.bytes,
                        },
                        ..self
                    },
                )
            },
            DisplayStage::CopyingChroma { surface, pitch, luma_status, luma } => {
                step == Step::<DisplayCallback, Handled>::Call(
                    Call::CuvidUnmapVideoFrame { decoder: self.state.decoder, frame: surface },
                    DisplayCallback {
                        stage: DisplayStage::Unmapping {
                            surface,
                            pitch,
                            luma_status,
                            luma,
                            chroma_status: reply.status,
                            chroma: reply.bytes,
                        },
                        ..self
                    },
                )
            },
            DisplayStage::Unmapping { pitch, luma_status, luma, chroma_status, chroma, .. } => {
                if luma_status != 0 {
                    step matches Step::Done((after, 0)) && self.state.records(
                        failed_text("cuMemcpyDtoH_v2 (Y)"@, luma_status),
                        after,
                    )
                } else if chroma_status != 0 {
                    step matches Step::Done((after, 0)) && self.state.records(
                        failed_text("cuMemcpyDtoH_v2 (UV)"@, chroma_status),
                        after,
                    )
                } else {
                    &&& step matches Step::Done((after, 1))
                    &&& after.decoder == self.state.decoder
                    &&& after.geometry == g
                    &&& after.error == self.state.error
                    &&& after.frames@.len() == self.state.frames@.len() + 1
                    &&& after.frames@.drop_last() == self.state.frames@
                    &&& is_shown(
                        after.frames@.last(),
                        luma@,
                        chroma@,
                        pitch,
                        g,
                        self.info.timestamp,
                    )
                }
            },
            DisplayStage::Failing { .. } => step == Step::<DisplayCallback, Handled>::Done(
                (self.state, 0),
            ),
        }
    }
}

impl Machine for DisplayCallback {
    type Output = Handled;

    fn resume(self, reply: Reply) -> (step: Step<Self, Handled>)
        ensures
            self.follows(reply, step),
    {
        let DisplayCallback { state, info, stage } = self;
        match stage {
            DisplayStage::Mapping => {
                if reply.status != CUDA_SUCCESS {
                    Step::Done((state.record(failed("cuvidMapVideoFrame64", reply.status)), 0))
                } else {
                    let stage = DisplayStage::Syncing { surface: reply.handle, pitch: reply.pitch };
                    Step::Call(
                        Call::CuStreamSynchronize { stream: 0 },
                        DisplayCallback { state, info, stage },
                    )
                }
            },
            DisplayStage::Syncing { surface, pitch } => {
                if reply.status != CUDA_SUCCESS {
                    let decoder = state.decoder;
                    let state = state.record(failed("cuStreamSynchronize", reply.status));
                    Step::Call(
                        Call::CuvidUnmapVideoFrame { decoder, frame: surface },
                        DisplayCallback { state, info, stage: DisplayStage::Failing { surface } },
                    )
                } else {
                    let len = rows_len(pitch, state.geometry.coded_height);
                    Step::Call(
                        Call::CuMemcpyDtoH { src: surface, len },
                        DisplayCallback {
                            state,
                            info,
                            stage: DisplayStage::CopyingLuma { surface, pitch },
                        },
                    )
                }
            },
            DisplayStage::CopyingLuma { surface, pitch } => {
                let coded_height = state.geometry.coded_height;
                let src = surface.wrapping_add(rows_len(pitch, coded_height));
                let len = rows_len(pitch, half(coded_height));
                let stage = DisplayStage::CopyingChroma {
                    surface,
                    pitch,
                    luma_status: reply.status,
                    luma: reply.bytes,
                };
                Step::Call(Call::CuMemcpyDtoH { src, len }, DisplayCallback { state, info, stage })
            },
            DisplayStage::CopyingChroma { surface, pitch, luma_status, luma } => {
                let stage = DisplayStage::Unmapping {
                    surface,
                    pitch,
                    luma_status,
                    luma,
                    chroma_status: reply.status,
                    chroma: reply.bytes,
                };
                Step::Call(
                    Call::CuvidUnmapVideoFrame { decoder: state.decoder, frame: surface },
                    DisplayCallback { state, info, stage },
                )
            },
            DisplayStage::Unmapping { pitch, luma_status, luma, chroma_status, chroma, .. } => {
                if luma_status != CUDA_SUCCESS {
                    Step::Done((state.record(failed("cuMemcpyDtoH_v2 (Y)", luma_status)), 0))
                } else if chroma_status != CUDA_SUCCESS {
                    Step::Done((state.record(failed("cuMemcpyDtoH_v2 (UV)", chroma_status)), 0))
                } else {
                    let frame = shown_frame(
                        &luma,
                        &chroma,
                        pitch,
                        &state.geometry,
                        info.timestamp,
                    );
                    let ghost before = state.frames@;
                    let mut state = state;
                    state.frames.push_back(frame);
                    assert(state.frames@.drop_last() =~= before);
                    Step::Done((state, 1))
                }
            },
            DisplayStage::Failing { .. } => Step::Done((state, 0)),
        }
    }
}

/// How the handling of a stream format starts: the old decoder goes, or the new one comes,
/// unless there is no format or no driver.
pub open spec fn starts_sequence(
    state: CallbackState,
    format: Option<CUVIDEOFORMAT>,
    load_error: Option<String>,
    step: Step<SeqCallback, Handled>,
) -> bool {
    match (format, load_error) {
        (None, _) => step == Step::<SeqCallback, Handled>::Done((state, 0)),
        (Some(_), Some(e)) => step matches Step::Done((after, 0)) && state.records(
            "seq_callback vtable: "@ + e@,
            after,
        ),
        (Some(f), None) => step == Step::<SeqCallback, Handled>::Call(
            if state.decoder != 0 {
                Call::CuvidDestroyDecoder { decoder: state.decoder }
            } else {
                Call::CuvidCreateDecoder { info: decoder_for(f) }
            },
            SeqCallback { state, format: f, creating: state.decoder == 0 },
        ),
    }
}

/// How the handling of a coded picture starts: it goes to the decoder, unless there is no
/// picture, no driver or no decoder.
pub open spec fn starts_decoding(
    state: CallbackState,
    picture: Option<u64>,
    load_error: Option<String>,
    step: Step<DecodeCallback, Handled>,
) -> bool {
    match (picture, load_error) {
        (None, _) => step == Step::<DecodeCallback, Handled>::Done((state, 0)),
        (Some(_), Some(e)) => step matches Step::Done((after, 0)) && state.records(
            "decode_callback vtable: "@ + e@,
            after,
        ),
        (Some(p), None) => if state.decoder == 0 {
            step matches Step::Done((after, 0)) && state.records(
                "decode_callback: decoder not yet created"@,
                after,
            )
        } else {
            step == Step::<DecodeCallback, Handled>::Call(
                Call::CuvidDecodePicture { decoder: state.decoder, picture: p },
                DecodeCallback { state },
            )
        },
    }
}

/// How the showing of a picture starts: it is mapped, unless there is no picture, no driver or
/// no decoder.
pub open spec fn starts_showing(
    state: CallbackState,
    info: Option<CUVIDPARSERDISPINFO>,
    load_error: Option<String>,
    step: Step<DisplayCallback, Handled>,
) -> bool {
    match (info, load_error) {
        (None, _) => step == Step::<DisplayCallback, Handled>::Done((state, 0)),
        (Some(_), Some(e)) => step matches Step::Done((after, 0)) && state.records(
            "display_callback vtable: "@ + e@,
            after,
        ),
        (Some(i), None) => if state.decoder == 0 {
            step == Step::<DisplayCallback, Handled>::Done((state, 0))
        } else {
            step == Step::<DisplayCallback, Handled>::Call(
                Call::CuvidMapVideoFrame {
                    decoder: state.decoder,
                    picture_index: i.picture_index,
                    params: mapping_of(i),
                },
                DisplayCallback { state, info: i, stage: DisplayStage::Mapping },
            )
        },
    }
}

impl CallbackState {
    /// A stream format was found, unless there is none. The driver has to be loaded;
    /// `load_error` says why it is not.
    pub fn sequence(self, format: Option<CUVIDEOFORMAT>, load_error: Option<String>) -> (step: Step<
        SeqCallback,
        Handled,
    >)
        ensures
            starts_sequence(self, format, load_error, step),
    {
        let format = match format {
            Some(f) => f,
            None => return Step::Done((self, 0)),
        };
        if let Some(e) = load_error {
            return Step::Done((self.record(join("seq_callback vtable: ", e.as_str())), 0));
        }
        if self.decoder != 0 {
            Step::Call(
                Call::CuvidDestroyDecoder { decoder: self.decoder },
                SeqCallback { state: self, format, creating: false },
            )
        } else {
            let info = create_info(&format);
            Step::Call(
                Call::CuvidCreateDecoder { info },
                SeqCallback { state: self, format, creating: true },
            )
        }
    }

    /// A coded picture is at `picture`, unless there is none.
    pub fn decode(self, picture: Option<u64>, load_error: Option<String>) -> (step: Step<
        DecodeCallback,
        Handled,
    >)
        ensures
            starts_decoding(self, picture, load_error, step),
    {
        let picture = match picture {
            Some(p) => p,
            None => return Step::Done((self, 0)),
        };
        if let Some(e) = load_error {
            return Step::Done((self.record(join("decode_callback vtable: ", e.as_str())), 0));
        }
        if self.decoder == 0 {
            let message = String::from_str("decode_callback: decoder not yet created");
            return Step::Done((self.record(message), 0));
        }
        Step::Call(
            Call::CuvidDecodePicture { decoder: self.decoder, picture },
            DecodeCallback { state: self },
        )
    }

    /// A picture is to be shown, unless there is none.
    pub fn display(self, info: Option<CUVIDPARSERDISPINFO>, load_error: Option<String>) -> (step:
        Step<DisplayCallback, Handled>)
        ensures
            starts_showing(self, info, load_error, step),
    {
        let info = match info {
            Some(i) => i,
            None => return Step::Done((self, 0)),
        };
        if let Some(e) = load_error {
            return Step::Done((self.record(join("display_callback vtable: ", e.as_str())), 0));
        }
        if self.decoder == 0 {
            return Step::Done((self, 0));
        }
        let params = CUVIDPROCPARAMS {
            progressive_frame: info.progressive_frame,
            second_field: 0,
            top_field_first: info.top_field_first,
            unpaired_field: if info.repeat_first_field < 0 {
                1
            } else {
                0
            },
            output_stream: 0,
        };
        Step::Call(
            Call::CuvidMapVideoFrame {
                decoder: self.decoder,
                picture_index: info.picture_index,
                params,
            },
            DisplayCallback { state: self, info, stage: DisplayStage::Mapping },
        )
    }
}

/// A state's decoder.
pub open spec fn decoder_held(state: CallbackState) -> Set<Resource> {
    only(state.decoder != 0, Resource::Decoder { decoder: state.decoder })
}

/// A new stream format never leaves a decoder behind: what the state holds after a
/// step is what it held before, less what the call gave back, plus what it created.
pub proof fn format_change_keeps_count(
    m: SeqCallback,
    reply: Reply,
    step: Step<SeqCallback, Handled>,
)
    requires
        m.valid(),
        m.follows(reply, step),
    ensures
        match step {
            Step::Call(call, next) => {
                &&& next.valid()
                &&& call == next.awaits()
                &&& decoder_held(next.state) =~= held_after(
                    decoder_held(m.state),
                    m.awaits(),
                    reply,
                )
            },
            Step::Done((after, _)) => decoder_held(after) =~= held_after(
                decoder_held(m.state),
                m.awaits(),
                reply,
            ),
        },
{
}

/// A picture that is mapped is unmapped again, whatever fails on the way: when the
/// callback is done, no surface is held.
pub proof fn every_surface_is_unmapped(
    m: DisplayCallback,
    reply: Reply,
    step: Step<DisplayCallback, Handled>,
)
    requires
        m.follows(reply, step),
    ensures
        match step {
            Step::Call(call, next) => {
                &&& call == next.awaits()
                &&& next.held() =~= held_after(m.held(), m.awaits(), reply)
            },
            Step::Done(_) => held_after(m.held(), m.awaits(), reply) =~= Set::empty(),
        },
{
}

/// Whether nothing that `before` has seen is lost in `after`: an error on record stays
/// the first one, and pictures are only ever added behind those that are there.
pub open spec fn extends(before: CallbackState, after: CallbackState) -> bool {
    &&& before.error is Some ==> after.error == before.error
    &&& before.frames@.is_prefix_of(after.frames@)
}

/// A new stream format forgets neither the first error nor a picture.
pub proof fn format_change_forgets_nothing(
    m: SeqCallback,
    reply: Reply,
    step: Step<SeqCallback, Handled>,
)
    requires
        m.follows(reply, step),
    ensures
        match step {
            Step::Call(_, next) => extends(m.state, next.state),
            Step::Done((after, _)) => extends(m.state, after) && after.frames == m.state.frames,
        },
{
}

/// A coded picture makes nobody forget the first error or a picture.
pub proof fn decoding_forgets_nothing(
    m: DecodeCallback,
    reply: Reply,
    step: Step<DecodeCallback, Handled>,
)
    requires
        m.follows(reply, step),
    ensures
        step matches Step::Done((after, _)) && extends(m.state, after) && after.frames
            == m.state.frames,
{
}

/// A picture that is shown is queued behind those that are there, and one that cannot
/// be shown changes nothing in the queue. The first error is kept.
pub proof fn display_queues_one_picture(
    m: DisplayCallback,
    reply: Reply,
    step: Step<DisplayCallback, Handled>,
)
    requires
        m.follows(reply, step),
    ensures
        match step {
            Step::Call(_, next) => extends(m.state, next.state) && next.state.frames
                == m.state.frames,
            Step::Done((after, go_on)) => {
                &&& extends(m.state, after)
                &&& go_on == 0 || go_on == 1
                &&& go_on == 0 ==> after.frames == m.state.frames
                &&& go_on == 1 ==> after.frames@.len() == m.state.frames@.len() + 1
            },
        },
{
    if let Step::Done((after, 1)) = step {
        assert(after.frames@.drop_last().is_prefix_of(after.frames@));
    }
}

} // verus!

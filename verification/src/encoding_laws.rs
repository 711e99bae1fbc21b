//! What an encoder tells the driver, and what becomes of what the driver tells it: laws on
//! the calls, replies and outcomes of whole runs.

use vstd::prelude::*;
use crate::config::{guid_fields_in_order, number_of, profile_config, profile_config_layout};
use crate::device::{error_line, error_unavailable, reply_error};
use crate::drain::{packets_after, DrainEncoder, DrainStage, Drained};
use crate::driver::{is_run_of, leads_on_by, Call, Reply, Step};
use crate::encoder::{
    close_calls, ends, hands_out, sends, stamp, starts, starts_h264, starts_hevc, takes_drained,
    takes_in, Encoded, FrameStage, NvEncoder, SendFrame, Sent,
};
use crate::error::{Error, ErrorView};
use crate::frame::{CodecParameters, Frame, Packet, PixelFormat, Rational, VideoFrame, VideoPlane};
use crate::nv12::upload_fills_the_surface;
use crate::runs::{on_the_way_down, on_track};
use crate::setup::{sets_up, EncoderStage, Made, MakeEncoder};
use crate::sys::{
    Guid, NvEncodeApiFunctionList, NVENCAPI_VERSION, NV_ENCODE_API_FUNCTION_LIST_VER,
    NV_ENC_CONFIG_VER, NV_ENC_CREATE_BITSTREAM_BUFFER_VER, NV_ENC_CREATE_INPUT_BUFFER_VER,
    NV_ENC_INITIALIZE_PARAMS_VER, NV_ENC_LOCK_BITSTREAM_VER, NV_ENC_LOCK_INPUT_BUFFER_VER,
    NV_ENC_OPEN_ENCODE_SESSION_EX_PARAMS_VER, NV_ENC_PIC_PARAMS_VER, NV_ENC_PRESET_CONFIG_VER,
};
use crate::text::int_text;

verus! {

/// A complete run of the encoding of a picture, with the calls that it made, from what an
/// encoder starts with for planes and a timestamp.
pub open spec fn is_encoding_by(
    e: NvEncoder,
    planes: Vec<VideoPlane>,
    pts: i64,
    run: Seq<(SendFrame, Reply)>,
    calls: Seq<Call>,
    out: Sent,
) -> bool {
    &&& is_run_of(
        run,
        calls,
        |m: SendFrame, r: Reply, s: Step<SendFrame, Sent>| m.follows(r, s),
        out,
    )
    &&& run[0].0 == (SendFrame { job: e.job(pts), stage: FrameStage::Locking { planes } })
    &&& run[0].0.awaits(calls[0])
}

/// Where an encoding stands at step `i`.
pub open spec fn frame_stands(
    planes: Vec<VideoPlane>,
    run: Seq<(SendFrame, Reply)>,
    calls: Seq<Call>,
    i: int,
) -> bool {
    match run[i].0.stage {
        FrameStage::Locking { .. } => i == 0,
        FrameStage::Reading { address, pitch, y, u, v } => {
            &&& i == 1
            &&& run[0].1.status == 0
            &&& planes@.len() >= 3
            &&& address == run[0].1.handle
            &&& pitch == run[0].1.pitch
            &&& y == planes@[0] && u == planes@[1] && v == planes@[2]
        },
        FrameStage::Writing => {
            &&& i == 2
            &&& run[1].0.stage is Reading
            &&& calls[2] matches Call::WriteHost { address, bytes }
            &&& address == run[0].1.handle
            &&& bytes@ == crate::nv12::with_picture(
                run[1].1.bytes@,
                run[0].1.pitch as int,
                run[0].0.job.width as int,
                run[0].0.job.height as int,
                planes@[0],
                planes@[1],
                planes@[2],
            )
        },
        FrameStage::Unlocking { rejected } => if rejected {
            i == 1 && run[0].1.status == 0 && planes@.len() < 3
        } else {
            i == 3 && run[2].0.stage is Writing
        },
        FrameStage::Encoding => i == 4 && run[3].0.stage == (FrameStage::Unlocking {
            rejected: false,
        }) && run[3].1.status == 0,
        FrameStage::LockingOutput => i == 5 && run[4].0.stage is Encoding && run[4].1.status == 0,
        FrameStage::ReadingOutput => {
            &&& i == 6
            &&& run[5].0.stage is LockingOutput
            &&& run[5].1.status == 0
            &&& calls[6] == (Call::ReadHost { address: run[5].1.handle, len: run[5].1.size })
        },
        FrameStage::UnlockingOutput { data } => {
            ||| i == 7 && run[6].0.stage is ReadingOutput && data@ == run[6].1.bytes@
            ||| i == 6 && run[5].0.stage is LockingOutput && run[5].1.status == 0 && data@.len()
                == 0 && (run[5].1.size == 0 || run[5].1.handle == 0)
        },
        FrameStage::Asking { .. } => i > 0,
    }
}

proof fn lemma_encoding_by(
    e: NvEncoder,
    planes: Vec<VideoPlane>,
    pts: i64,
    run: Seq<(SendFrame, Reply)>,
    calls: Seq<Call>,
    out: Sent,
    i: int,
)
    requires
        is_encoding_by(e, planes, pts, run, calls, out),
        0 <= i < run.len(),
    ensures
        run[i].0.job == run[0].0.job,
        run[i].0.awaits(calls[i]),
        frame_stands(planes, run, calls, i),
    decreases i,
{
    if i > 0 {
        lemma_encoding_by(e, planes, pts, run, calls, out, i - 1);
        assert(leads_on_by(
            run,
            calls,
            |m: SendFrame, r: Reply, s: Step<SendFrame, Sent>| m.follows(r, s),
            i - 1,
        ));
    }
}

/// A picture goes through the encoder's own buffers. The picture that is submitted names
/// as its input the buffer that was locked, written and unlocked before, and as its output
/// the one that is locked, read and unlocked after; both are those that the encoder holds,
/// on its own session. What is written goes where the lock said that the buffer lies, and
/// what is read comes from where the lock said that the data lies.
pub proof fn picture_goes_through_its_own_buffers(
    e: NvEncoder,
    planes: Vec<VideoPlane>,
    pts: i64,
    run: Seq<(SendFrame, Reply)>,
    calls: Seq<Call>,
    out: Sent,
    i: int,
)
    requires
        is_encoding_by(e, planes, pts, run, calls, out),
        0 <= i < run.len(),
    ensures
        match calls[i] {
            Call::NvEncLockInputBuffer { encoder, params } => {
                &&& i == 0
                &&& encoder == e.encoder
                &&& params.version == NV_ENC_LOCK_INPUT_BUFFER_VER
                &&& params.input_buffer == e.input_buffer
            },
            Call::ReadRows { address, pitch, rows } => {
                &&& i == 1
                &&& address == run[0].1.handle
                &&& pitch == run[0].1.pitch
                &&& rows == e.height + (e.height as int + 1) / 2
            },
            Call::WriteHost { address, .. } => {
                &&& i == 2
                &&& calls[1] is ReadRows
                &&& address == run[0].1.handle
            },
            Call::NvEncUnlockInputBuffer { encoder, buffer } => {
                &&& i == 3 ==> calls[2] is WriteHost
                &&& i == 3 || i == 1
                &&& encoder == e.encoder
                &&& calls[0] matches Call::NvEncLockInputBuffer { params, .. }
                &&& buffer == params.input_buffer
            },
            Call::NvEncEncodePicture { encoder, params: p } => {
                &&& i == 4
                &&& encoder == e.encoder
                &&& calls[0] matches Call::NvEncLockInputBuffer { params: locked, .. }
                &&& calls[2] is WriteHost
                &&& calls[3] matches Call::NvEncUnlockInputBuffer { buffer: unlocked, .. }
                &&& p.input_buffer == locked.input_buffer
                &&& p.input_buffer == unlocked
                &&& p.input_buffer == e.input_buffer
                &&& p.output_bitstream == e.output_buffer
                &&& p.version == NV_ENC_PIC_PARAMS_VER
                &&& p.input_width == e.width
                &&& p.input_height == e.height
                &&& p.input_pitch == e.width
                &&& p.encode_pic_flags == 0
                &&& 0 <= pts ==> p.input_time_stamp == pts
                &&& p.input_time_stamp as i64 == pts
                &&& 0 <= pts < u32::MAX ==> p.frame_idx == pts + 1
                &&& p.frame_idx == (pts + 1) as u32
                &&& p.input_duration >= 1
                &&& e.fr_den >= 1 ==> p.input_duration == e.fr_den
                &&& e.fr_den == 0 ==> p.input_duration == 1
                &&& p.completion_event == 0
                &&& p.buffer_fmt == 1
                &&& p.picture_struct == 1
                &&& p.picture_type == 0
            },
            Call::NvEncLockBitstream { encoder, params } => {
                &&& i == 5
                &&& encoder == e.encoder
                &&& calls[4] matches Call::NvEncEncodePicture { params: p, .. }
                &&& params.output_bitstream == p.output_bitstream
                &&& params.version == NV_ENC_LOCK_BITSTREAM_VER
                &&& run[4].1.status == 0
            },
            Call::ReadHost { address, len } => {
                &&& i == 6
                &&& calls[5] is NvEncLockBitstream
                &&& address == run[5].1.handle
                &&& len == run[5].1.size
            },
            Call::NvEncUnlockBitstream { encoder, buffer } => {
                &&& i == 6 || i == 7
                &&& encoder == e.encoder
                &&& calls[5] matches Call::NvEncLockBitstream { params, .. }
                &&& buffer == params.output_bitstream
            },
            Call::NvEncGetLastErrorString { encoder } => i > 0 && encoder == e.encoder,
            _ => false,
        },
{
    lemma_encoding_by(e, planes, pts, run, calls, out, i);
    lemma_encoding_by(e, planes, pts, run, calls, out, 0);
    if i >= 1 {
        lemma_encoding_by(e, planes, pts, run, calls, out, 1);
    }
    if i >= 2 {
        lemma_encoding_by(e, planes, pts, run, calls, out, 2);
    }
    if i >= 3 {
        lemma_encoding_by(e, planes, pts, run, calls, out, 3);
    }
    if i >= 4 {
        lemma_encoding_by(e, planes, pts, run, calls, out, 4);
    }
    if i >= 5 {
        lemma_encoding_by(e, planes, pts, run, calls, out, 5);
    }
    if i >= 6 {
        lemma_encoding_by(e, planes, pts, run, calls, out, 6);
    }
    assert((pts as u64) as i64 == pts) by (bit_vector);
}

/// What is put into the input buffer is the picture: at row `r`, column `c` of the buffer
/// as it was locked stands the luma byte of that row and column, and behind the luma stand
/// the pairs of U and V, with grey for what the picture lacks. What lies behind a row's
/// pixels is what was there.
pub proof fn buffer_holds_the_picture(
    e: NvEncoder,
    planes: Vec<VideoPlane>,
    pts: i64,
    run: Seq<(SendFrame, Reply)>,
    calls: Seq<Call>,
    out: Sent,
    r: int,
    c: int,
)
    requires
        is_encoding_by(e, planes, pts, run, calls, out),
        run.len() > 2,
        calls[2] is WriteHost,
        2 * ((e.width as int + 1) / 2) <= run[0].1.pitch,
        run[1].1.bytes@.len() == run[0].1.pitch * (e.height + (e.height as int + 1) / 2),
        0 <= r,
        0 <= c < run[0].1.pitch,
    ensures
        ({
            let (pitch, w, h) = (run[0].1.pitch, e.width as int, e.height as int);
            let (before, after) = (run[1].1.bytes@, calls[2]->WriteHost_bytes@);
            let (y, u, v) = (planes@[0], planes@[1], planes@[2]);
            let luma = r * pitch + c;
            let chroma = pitch * h + r * pitch + c;
            &&& planes@.len() >= 3
            &&& after.len() == before.len()
            &&& r < h && c < w && r * y.stride + w <= y.data@.len() ==> after[luma]
                == y.data@[r * y.stride + c]
            &&& r < h && (c >= w || r * y.stride + w > y.data@.len()) ==> after[luma]
                == before[luma]
            &&& 2 * r < h && c < w + w % 2 && c % 2 == 0 && r * u.stride + c / 2
                < u.data@.len() ==> after[chroma] == u.data@[r * u.stride + c / 2]
            &&& 2 * r < h && c < w + w % 2 && c % 2 == 1 && r * v.stride + c / 2
                < v.data@.len() ==> after[chroma] == v.data@[r * v.stride + c / 2]
            &&& 2 * r < h && c < w + w % 2 && c % 2 == 0 && r * u.stride + c / 2
                >= u.data@.len() ==> after[chroma] == 128
            &&& 2 * r < h && c < w + w % 2 && c % 2 == 1 && r * v.stride + c / 2
                >= v.data@.len() ==> after[chroma] == 128
            &&& 2 * r < h && c >= w + w % 2 ==> after[chroma] == before[chroma]
        }),
{
    lemma_encoding_by(e, planes, pts, run, calls, out, 2);
    lemma_encoding_by(e, planes, pts, run, calls, out, 1);
    lemma_encoding_by(e, planes, pts, run, calls, out, 0);
    upload_fills_the_surface(
        run[1].1.bytes@,
        run[0].1.pitch as int,
        e.width as int,
        e.height as int,
        planes@[0],
        planes@[1],
        planes@[2],
        r,
        c,
    );
}

/// What comes out for a picture is a packet with the picture's timestamp, in ticks of one
/// picture each, and with what was read from the output buffer. A picture that the session
/// keeps back is noted under the same timestamp.
pub proof fn packet_is_of_the_picture(
    e: NvEncoder,
    planes: Vec<VideoPlane>,
    pts: i64,
    run: Seq<(SendFrame, Reply)>,
    calls: Seq<Call>,
    out: Sent,
)
    requires
        is_encoding_by(e, planes, pts, run, calls, out),
    ensures
        out matches Ok(Encoded::Packet(p)) ==> {
            &&& run.len() == 8
            &&& calls[6] is ReadHost
            &&& p.data@ == run[6].1.bytes@
            &&& p.data@.len() > 0
            &&& p.pts == Some(pts)
            &&& p.dts is None
            &&& p.duration is None
            &&& p.stream_index == 0
            &&& p.time_base.num == e.fr_den
            &&& p.time_base.den == e.fr_num
            &&& !p.flags.keyframe && !p.flags.header && !p.flags.corrupt && !p.flags.discard
                && !p.flags.unit_boundary
        },
        out matches Ok(Encoded::KeptBack { pts: kept }) ==> kept == pts,
        out matches Ok(Encoded::KeptBack { .. }) <==> run.len() == 5 && calls[4] is
            NvEncEncodePicture && run[4].1.status == 17,
        out matches Ok(Encoded::Nothing) ==> {
            &&& run.len() >= 7
            &&& calls[5] is NvEncLockBitstream
            &&& run[5].1.size == 0 || run[5].1.handle == 0 || run[6].1.bytes@.len() == 0
        },
        planes@.len() < 3 && run[0].1.status == 0 && e.fns.nv_enc_unlock_input_buffer != 0 ==> (
        out matches Err(error) && error@ == ErrorView::InvalidData(
            "expected I420 frame with 3 planes"@,
        )),
{
    let last = run.len() - 1;
    lemma_encoding_by(e, planes, pts, run, calls, out, last);
    lemma_encoding_by(e, planes, pts, run, calls, out, 0);
    if last >= 1 {
        lemma_encoding_by(e, planes, pts, run, calls, out, 1);
        assert(leads_on_by(
            run,
            calls,
            |m: SendFrame, r: Reply, s: Step<SendFrame, Sent>| m.follows(r, s),
            0,
        ));
    }
    if last >= 2 {
        assert(leads_on_by(
            run,
            calls,
            |m: SendFrame, r: Reply, s: Step<SendFrame, Sent>| m.follows(r, s),
            1,
        ));
    }
    if last >= 4 {
        lemma_encoding_by(e, planes, pts, run, calls, out, 4);
    }
    if last >= 6 {
        lemma_encoding_by(e, planes, pts, run, calls, out, 6);
        lemma_encoding_by(e, planes, pts, run, calls, out, 5);
    }
}

/// A picture keeps its own timestamp; one without gets the next in turn.
pub proof fn picture_keeps_its_timestamp(t: i64, counter: i64)
    ensures
        stamp(Some(t), counter) == t,
        stamp(None, counter) == counter,
{
}

/// What the vendor calls the encode entry points whose failure is reported.
pub open spec fn entry_point(call: Call) -> Seq<char> {
    match call {
        Call::NvEncOpenEncodeSessionEx { .. } => "nvEncOpenEncodeSessionEx"@,
        Call::NvEncGetEncodePresetConfigEx { .. } => "nvEncGetEncodePresetConfigEx"@,
        Call::NvEncInitializeEncoder { .. } => "nvEncInitializeEncoder"@,
        Call::NvEncCreateInputBuffer { .. } => "nvEncCreateInputBuffer"@,
        Call::NvEncCreateBitstreamBuffer { .. } => "nvEncCreateBitstreamBuffer"@,
        Call::NvEncLockInputBuffer { .. } => "nvEncLockInputBuffer"@,
        Call::NvEncUnlockInputBuffer { .. } => "nvEncUnlockInputBuffer"@,
        Call::NvEncEncodePicture { .. } => "nvEncEncodePicture"@,
        Call::NvEncLockBitstream { .. } => "nvEncLockBitstream"@,
        Call::NvEncUnlockBitstream { .. } => "nvEncUnlockBitstream"@,
        _ => Seq::empty(),
    }
}

/// Whether a message says that a call has failed with a status, and what the driver has to
/// say of it.
pub open spec fn says_failed(e: ErrorView, op: Seq<char>, status: i32, detail: Seq<char>) -> bool {
    &&& e matches ErrorView::Other(text)
    &&& detail.len() == 0 ==> text == op + " failed: NVENCSTATUS "@ + int_text(status as int)
    &&& detail.len() > 0 ==> text == op + " failed: NVENCSTATUS "@ + int_text(status as int)
        + " — "@ + detail
}

/// A call that fails while a picture is encoded is reported under its own name and with
/// its own status, in the driver's words if it has any.
pub proof fn failed_encoding_names_the_call(
    m: SendFrame,
    call: Call,
    reply: Reply,
    step: Step<SendFrame, Sent>,
)
    requires
        m.awaits(call),
        m.follows(reply, step),
        reply.status != 0,
        !(m.stage is Reading) && !(m.stage is Writing) && !(m.stage is ReadingOutput),
        m.stage matches FrameStage::Unlocking { rejected } ==> !rejected,
        m.stage is Encoding ==> reply.status != 17,
    ensures
        step is Call <==> !(m.stage is Asking) && m.job.fns.nv_enc_get_last_error_string != 0
            && m.job.encoder != 0,
        match step {
            Step::Call(asked, next) => {
                &&& asked == (Call::NvEncGetLastErrorString { encoder: m.job.encoder })
                &&& next.stage matches FrameStage::Asking { op, status }
                &&& op@ == entry_point(call)
                &&& status == reply.status
            },
            Step::Done(Ok(_)) => false,
            Step::Done(Err(e)) => match m.stage {
                FrameStage::Asking { op, status } => says_failed(
                    e@,
                    op@,
                    status,
                    match reply.text {
                        Some(t) => t@,
                        None => Seq::empty(),
                    },
                ),
                _ => says_failed(e@, entry_point(call), reply.status, Seq::empty()),
            },
        },
{
}

/// A complete run of the making of an encoder, with the calls that it made, from what a
/// `make` starts with.
pub open spec fn is_bring_up_by(
    run: Seq<(MakeEncoder, Reply)>,
    calls: Seq<Call>,
    out: Made,
) -> bool {
    &&& is_run_of(
        run,
        calls,
        |m: MakeEncoder, r: Reply, s: Step<MakeEncoder, Made>| m.follows(r, s),
        out,
    )
    &&& run[0].0.stage is Init
    &&& run[0].0.awaits(calls[0])
}

proof fn lemma_bring_up_by(
    run: Seq<(MakeEncoder, Reply)>,
    calls: Seq<Call>,
    out: Made,
    i: int,
)
    requires
        is_bring_up_by(run, calls, out),
        0 <= i < run.len(),
    ensures
        run[i].0.awaits(calls[i]),
        on_track(run, i) || on_the_way_down(run[i].0),
        i > 0 && on_track(run, i) ==> on_track(run, i - 1) && run[i - 1].1.status == 0,
        i == 7 && on_track(run, 7) ==> (calls[7] matches Call::NvEncInitializeEncoder {
            params,
            ..
        } && sets_up(params, run[0].0.job, run[6].1.config.bytes@)),
    decreases i,
{
    if i > 0 {
        lemma_bring_up_by(run, calls, out, i - 1);
        assert(leads_on_by(
            run,
            calls,
            |m: MakeEncoder, r: Reply, s: Step<MakeEncoder, Made>| m.follows(r, s),
            i - 1,
        ));
    }
}

proof fn lemma_track_before(
    run: Seq<(MakeEncoder, Reply)>,
    calls: Seq<Call>,
    out: Made,
    i: int,
    j: int,
)
    requires
        is_bring_up_by(run, calls, out),
        0 <= j <= i < run.len(),
        on_track(run, i),
    ensures
        on_track(run, j),
        run[j].0.awaits(calls[j]),
        j < i ==> run[j].1.status == 0,
        j == 7 ==> (calls[7] matches Call::NvEncInitializeEncoder { params, .. } && sets_up(
            params,
            run[0].0.job,
            run[6].1.config.bytes@,
        )),
    decreases i - j,
{
    lemma_bring_up_by(run, calls, out, i);
    if j < i {
        lemma_track_before(run, calls, out, i - 1, j);
    }
}

/// Whether `n` is what a wish for a size comes to: the wish itself where it is large
/// enough, else the least size, and the default where there is no wish.
pub open spec fn granted(wish: Option<u32>, default: u32, least: u32, n: u32) -> bool {
    &&& wish matches Some(w) ==> w >= least ==> n == w
    &&& wish matches Some(w) ==> w < least ==> n == least
    &&& wish is None ==> n == default
}

/// Whether `num` over `den` is what a wish for a frame rate comes to: the wish itself where
/// it fits, and 30 pictures per second where there is none.
pub open spec fn granted_rate(wish: Option<Rational>, num: u32, den: u32) -> bool {
    &&& wish matches Some(fr) ==> 0 <= fr.num <= u32::MAX && 0 < fr.den <= u32::MAX ==> num
        == fr.num && den == fr.den
    &&& wish matches Some(fr) ==> fr.den > 0 ==> num == fr.num as u32 && den == fr.den as u32
    &&& wish matches Some(fr) ==> fr.den <= 0 ==> num == 30 && den == 1
    &&& wish is None ==> num == 30 && den == 1
}

/// Whether an identifier is `{90A7B826-DF06-4862-B9D2-CD6D73A08681}`, the vendor's preset
/// of medium quality and speed.
pub open spec fn names_preset_p4(g: Guid) -> bool {
    &&& g.data1 == 0x90a7b826
    &&& g.data2 == 0xdf06
    &&& g.data3 == 0x4862
    &&& g.data4@ =~= seq![0xb9u8, 0xd2u8, 0xcdu8, 0x6du8, 0x73u8, 0xa0u8, 0x86u8, 0x81u8]
}

/// A session is set up for what the caller asked for. The pictures that it encodes, those
/// that it says it shows, the largest that it takes and those that its input buffer holds
/// are of one size, the caller's where that is large enough: its pixels are square. Codec,
/// profile and frame rate are the caller's too, and everything is done on the session, the
/// context and the device that the calls before have brought.
pub proof fn session_is_set_up_as_asked(
    run: Seq<(MakeEncoder, Reply)>,
    calls: Seq<Call>,
    out: Made,
    codec: Guid,
    profile: Guid,
    codec_id: Seq<char>,
    params: CodecParameters,
    i: int,
)
    requires
        is_bring_up_by(run, calls, out),
        starts(Step::Call(calls[0], run[0].0), codec, profile, codec_id, params),
        0 <= i < run.len(),
    ensures
        match calls[i] {
            Call::CuInit { flags } => i == 0 && flags == 0,
            Call::CuDeviceGetCount => i == 1,
            Call::CuDeviceGet { ordinal } => {
                &&& i == 2
                &&& params.device_index is None ==> ordinal == 0
                &&& params.device_index matches Some(k) ==> ordinal == k
                &&& 0 <= ordinal < run[1].1.number
            },
            Call::CuCtxCreate { flags, device } => {
                &&& i == 3
                &&& flags == 0
                &&& device == run[2].1.number
            },
            Call::NvEncodeApiCreateInstance { version, once } => {
                &&& i == 4
                &&& version == NV_ENCODE_API_FUNCTION_LIST_VER
                &&& once
            },
            Call::NvEncOpenEncodeSessionEx { params: p } => {
                &&& i == 5
                &&& p.version == NV_ENC_OPEN_ENCODE_SESSION_EX_PARAMS_VER
                &&& p.device_type == 1
                &&& p.device == run[3].1.handle
                &&& p.api_version == NVENCAPI_VERSION
            },
            Call::NvEncGetEncodePresetConfigEx {
                encoder,
                encode_guid,
                preset_guid,
                tuning_info,
                config,
            } => {
                &&& i == 6
                &&& encoder == run[5].1.handle
                &&& encode_guid == codec
                &&& names_preset_p4(preset_guid)
                &&& tuning_info == 1
                &&& config.version == NV_ENC_PRESET_CONFIG_VER
                &&& number_of(config.preset_cfg.bytes@.take(4)) == NV_ENC_CONFIG_VER
                &&& forall|k: int| 4 <= k < 3584 ==> #[trigger] config.preset_cfg.bytes@[k] == 0
            },
            Call::NvEncInitializeEncoder { encoder, params: p } => {
                let config = p.encode_config.bytes@;
                &&& i == 7
                &&& encoder == run[5].1.handle
                &&& p.version == NV_ENC_INITIALIZE_PARAMS_VER
                &&& p.encode_guid == codec
                &&& names_preset_p4(p.preset_guid)
                &&& granted(params.width, 320, 160, p.encode_width)
                &&& granted(params.height, 240, 64, p.encode_height)
                &&& p.dar_width * p.encode_height == p.dar_height * p.encode_width
                &&& p.dar_width == p.encode_width
                &&& p.dar_height == p.encode_height
                &&& p.max_encode_width == p.encode_width
                &&& p.max_encode_height == p.encode_height
                &&& granted_rate(params.frame_rate, p.frame_rate_num, p.frame_rate_den)
                &&& p.enable_encode_async == 0
                &&& p.enable_ptd == 1
                &&& p.flags == 0
                &&& p.tuning_info == 1
                &&& p.buffer_format == 0
                &&& p.num_state_buffers == 0
                &&& p.output_stats_level == 0
                &&& number_of(config.take(4)) == NV_ENC_CONFIG_VER
                &&& number_of(config.subrange(4, 8)) == profile.data1
                &&& number_of(config.subrange(8, 10)) == profile.data2
                &&& number_of(config.subrange(10, 12)) == profile.data3
                &&& config.subrange(12, 20) == profile.data4@
                &&& config.skip(20) == run[6].1.config.bytes@.skip(20)
            },
            Call::NvEncCreateInputBuffer { encoder, params: p } => {
                &&& i == 8
                &&& encoder == run[5].1.handle
                &&& p.version == NV_ENC_CREATE_INPUT_BUFFER_VER
                &&& calls[7] matches Call::NvEncInitializeEncoder { params: init, .. }
                &&& p.width == init.encode_width
                &&& p.height == init.encode_height
                &&& p.buffer_fmt == 1
            },
            Call::NvEncCreateBitstreamBuffer { encoder, params: p } => {
                &&& i == 9
                &&& encoder == run[5].1.handle
                &&& p.version == NV_ENC_CREATE_BITSTREAM_BUFFER_VER
            },
            Call::NvEncGetLastErrorString { .. } => on_the_way_down(run[i].0),
            Call::NvEncDestroyInputBuffer { .. } => on_the_way_down(run[i].0),
            Call::NvEncDestroyEncoder { .. } => on_the_way_down(run[i].0),
            Call::CuCtxDestroy { .. } => on_the_way_down(run[i].0),
            _ => false,
        },
{
    lemma_bring_up_by(run, calls, out, i);
    if on_track(run, i) {
        lemma_track_before(run, calls, out, i, 0);
        if i >= 5 {
            lemma_track_before(run, calls, out, i, 5);
        }
        if i >= 7 {
            lemma_track_before(run, calls, out, i, 7);
            let p = calls[7]->NvEncInitializeEncoder_params;
            let preset = run[6].1.config.bytes@;
            profile_config_layout(preset, profile);
            guid_fields_in_order(profile);
            let config = profile_config(preset, profile);
            assert(config.subrange(4, 8) =~= config.subrange(4, 20).subrange(0, 4));
            assert(config.subrange(8, 10) =~= config.subrange(4, 20).subrange(4, 6));
            assert(config.subrange(10, 12) =~= config.subrange(4, 20).subrange(6, 8));
            assert(config.subrange(12, 20) =~= config.subrange(4, 20).subrange(8, 16));
            assert(p.dar_width * p.encode_height == p.dar_height * p.encode_width)
                by (nonlinear_arith)
                requires
                    p.dar_width == p.encode_width,
                    p.dar_height == p.encode_height,
            ;
        }
        if i == 6 {
            let b = calls[6]->NvEncGetEncodePresetConfigEx_config.preset_cfg.bytes@;
            crate::config::number_bytes_stand_for_it(NV_ENC_CONFIG_VER, 0);
            assert(b.take(4) =~= crate::config::le32(NV_ENC_CONFIG_VER));
        }
    }
}

/// An encoder that is made is the one that was asked for: it runs on the context, the
/// session and the buffers that the calls have brought, each in its own role, and encodes
/// pictures of the size and rate for which the session was set up.
pub proof fn encoder_is_what_was_set_up(
    run: Seq<(MakeEncoder, Reply)>,
    calls: Seq<Call>,
    out: Made,
    codec: Guid,
    profile: Guid,
    codec_id: Seq<char>,
    params: CodecParameters,
)
    requires
        is_bring_up_by(run, calls, out),
        starts(Step::Call(calls[0], run[0].0), codec, profile, codec_id, params),
    ensures
        out matches Ok(e) ==> {
            &&& run.len() == 10
            &&& forall|k: int| 0 <= k < 10 ==> (#[trigger] run[k]).1.status == 0
            &&& calls[3] is CuCtxCreate && e.ctx.ctx == run[3].1.handle
            &&& calls[4] is NvEncodeApiCreateInstance && e.fns == run[4].1.table
            &&& calls[5] is NvEncOpenEncodeSessionEx && e.encoder == run[5].1.handle
            &&& calls[8] is NvEncCreateInputBuffer && e.input_buffer == run[8].1.handle
            &&& calls[9] is NvEncCreateBitstreamBuffer && e.output_buffer == run[9].1.handle
            &&& calls[7] matches Call::NvEncInitializeEncoder { params: p, .. }
            &&& e.width == p.encode_width
            &&& e.height == p.encode_height
            &&& e.fr_num == p.frame_rate_num
            &&& e.fr_den == p.frame_rate_den
            &&& granted(params.width, 320, 160, e.width)
            &&& granted(params.height, 240, 64, e.height)
            &&& granted_rate(params.frame_rate, e.fr_num, e.fr_den)
            &&& e.codec_id@ == codec_id
            &&& e.output_params.codec_id@ == codec_id
            &&& e.output_params.width == Some(e.width)
            &&& e.output_params.height == Some(e.height)
            &&& e.output_params.pixel_format == Some(PixelFormat::Yuv420P)
            &&& e.output_params.frame_rate == params.frame_rate
            &&& e.output_params.bit_rate == params.bit_rate
            &&& e.output_params.device_index is None
            &&& e.pts_counter == 0
            &&& e.output_queue@.len() == 0
            &&& e.kept_back@.len() == 0
            &&& !e.flushed
        },
{
    let last = run.len() - 1;
    lemma_bring_up_by(run, calls, out, last);
    if out is Ok {
        assert(last == 9);
        assert forall|k: int| 0 <= k < 10 implies (#[trigger] run[k]).1.status == 0 && on_track(
            run,
            k,
        ) && run[k].0.awaits(calls[k]) by {
            lemma_track_before(run, calls, out, 9, k);
        }
        lemma_track_before(run, calls, out, 9, 7);
        assert(run[3].1.status == 0 && run[4].1.status == 0 && run[5].1.status == 0
            && run[8].1.status == 0);
        session_is_set_up_as_asked(run, calls, out, codec, profile, codec_id, params, 7);
    }
}

/// Each encoder makes a session of the codec and the profile that its name says, by the
/// vendor's identifiers, and goes by the pipeline's name for the codec.
pub proof fn each_encoder_encodes_its_codec(
    run: Seq<(MakeEncoder, Reply)>,
    calls: Seq<Call>,
    out: Made,
    p: CodecParameters,
)
    requires
        is_bring_up_by(run, calls, out),
        run.len() > 7,
        calls[7] is NvEncInitializeEncoder,
    ensures
        ({
            let first = Step::Call(calls[0], run[0].0);
            let init = calls[7]->NvEncInitializeEncoder_params;
            let config = init.encode_config.bytes@;
            &&& starts_h264(first, p) ==> {
                &&& init.encode_guid.data1 == 0x6bc82762
                &&& init.encode_guid.data2 == 0x4e63
                &&& init.encode_guid.data3 == 0x4ca4
                &&& init.encode_guid.data4@ =~= seq![
                    0xaau8,
                    0x85u8,
                    0x1eu8,
                    0x50u8,
                    0xf3u8,
                    0x21u8,
                    0xf6u8,
                    0xbfu8,
                ]
                &&& number_of(config.subrange(4, 8)) == 0xe7cbc309
                &&& number_of(config.subrange(8, 10)) == 0x4f7a
                &&& number_of(config.subrange(10, 12)) == 0x4b89
                &&& config.subrange(12, 20) =~= seq![
                    0xafu8,
                    0x2au8,
                    0xd5u8,
                    0x37u8,
                    0xc9u8,
                    0x2bu8,
                    0xe3u8,
                    0x10u8,
                ]
                &&& out matches Ok(e) ==> e.codec_id@ == "h264"@
            }
            &&& starts_hevc(first, p) ==> {
                &&& init.encode_guid.data1 == 0x790cdc88
                &&& init.encode_guid.data2 == 0x4522
                &&& init.encode_guid.data3 == 0x4d7b
                &&& init.encode_guid.data4@ =~= seq![
                    0x94u8,
                    0x25u8,
                    0xbdu8,
                    0xa9u8,
                    0x97u8,
                    0x5fu8,
                    0x76u8,
                    0x03u8,
                ]
                &&& number_of(config.subrange(4, 8)) == 0xb514c39a
                &&& number_of(config.subrange(8, 10)) == 0xb55b
                &&& number_of(config.subrange(10, 12)) == 0x40fa
                &&& config.subrange(12, 20) =~= seq![
                    0x87u8,
                    0x8fu8,
                    0xf1u8,
                    0x25u8,
                    0x3bu8,
                    0x4du8,
                    0xfdu8,
                    0xecu8,
                ]
                &&& out matches Ok(e) ==> e.codec_id@ == "hevc"@
            }
            &&& starts_h264(first, p) || starts_hevc(first, p) ==> {
                &&& granted(p.width, 320, 160, init.encode_width)
                &&& granted(p.height, 240, 64, init.encode_height)
                &&& init.dar_width * init.encode_height == init.dar_height * init.encode_width
                &&& granted_rate(p.frame_rate, init.frame_rate_num, init.frame_rate_den)
                &&& calls[2] matches Call::CuDeviceGet { ordinal }
                &&& p.device_index is None ==> ordinal == 0
                &&& p.device_index matches Some(k) ==> ordinal == k
            }
        }),
{
    let first = Step::Call(calls[0], run[0].0);
    let job = run[0].0.job;
    if starts_h264(first, p) || starts_hevc(first, p) {
        let name = if starts_h264(first, p) {
            "h264"@
        } else {
            "hevc"@
        };
        session_is_set_up_as_asked(run, calls, out, job.codec, job.profile, name, p, 7);
        lemma_bring_up_by(run, calls, out, 7);
        lemma_track_before(run, calls, out, 7, 2);
        session_is_set_up_as_asked(run, calls, out, job.codec, job.profile, name, p, 2);
        if starts_h264(first, p) {
            encoder_is_what_was_set_up(run, calls, out, job.codec, job.profile, "h264"@, p);
        }
        if starts_hevc(first, p) {
            encoder_is_what_was_set_up(run, calls, out, job.codec, job.profile, "hevc"@, p);
        }
    }
}

/// A call that fails while a session is set up is reported under its own name and with its
/// own status, whatever is undone before that, in the driver's words if it has any.
pub proof fn failed_set_up_names_the_call(
    m: MakeEncoder,
    call: Call,
    reply: Reply,
    step: Step<MakeEncoder, Made>,
)
    requires
        m.awaits(call),
        m.follows(reply, step),
        reply.status != 0,
        m.stage is Opening || m.stage is Preset || m.stage is Starting || m.stage is CreatingInput
            || m.stage is CreatingOutput,
    ensures
        match step {
            Step::Call(_, next) => {
                &&& next.stage matches EncoderStage::Unwinding { rest }
                &&& rest.op@ == entry_point(call)
                &&& rest.status == reply.status
                &&& rest.detail@.len() == 0
            },
            Step::Done(Ok(_)) => false,
            Step::Done(Err(e)) => says_failed(
                e@,
                entry_point(call),
                reply.status,
                Seq::empty(),
            ),
        },
{
}

/// What is undone after a failure does not change what is reported: name and status stay
/// those of the call that failed, and the detail is what the driver said when asked.
pub proof fn unwinding_keeps_the_report(
    m: MakeEncoder,
    call: Call,
    reply: Reply,
    step: Step<MakeEncoder, Made>,
)
    requires
        m.awaits(call),
        m.follows(reply, step),
        m.stage is Unwinding,
    ensures
        ({
            let rest = m.stage->Unwinding_rest;
            let detail = if call is NvEncGetLastErrorString {
                match reply.text {
                    Some(t) => t@,
                    None => Seq::empty(),
                }
            } else {
                rest.detail@
            };
            match step {
                Step::Call(_, next) => {
                    &&& next.stage matches EncoderStage::Unwinding { rest: after }
                    &&& after.op@ == rest.op@
                    &&& after.status == rest.status
                    &&& after.detail@ == detail
                },
                Step::Done(Ok(_)) => false,
                Step::Done(Err(e)) => says_failed(e@, rest.op@, rest.status, detail),
            }
        }),
{
}

/// The end of a stream is announced on the encoder's own session by a picture that has no
/// contents, only the mark of the end. What is drained comes from the encoder's own output
/// buffer, from where its lock said that the data lies.
pub proof fn end_is_drained_from_the_output_buffer(
    e: NvEncoder,
    m: DrainEncoder,
    call: Call,
    reply: Reply,
    step: Step<DrainEncoder, Drained>,
)
    requires
        m.job == e.drain_job(),
        m.awaits(call),
        m.follows(reply, step),
    ensures
        match call {
            Call::NvEncEncodePicture { encoder, params: p } => {
                &&& m.stage is Ending
                &&& encoder == e.encoder
                &&& p.version == NV_ENC_PIC_PARAMS_VER
                &&& p.encode_pic_flags == 8
                &&& p.input_buffer == 0 && p.output_bitstream == 0
                &&& p.input_width == 0 && p.input_height == 0 && p.input_pitch == 0
                &&& p.frame_idx == 0 && p.input_time_stamp == 0 && p.input_duration == 0
                &&& p.completion_event == 0 && p.buffer_fmt == 0
                &&& p.picture_struct == 0 && p.picture_type == 0
            },
            Call::NvEncLockBitstream { encoder, params } => {
                &&& encoder == e.encoder
                &&& params.version == NV_ENC_LOCK_BITSTREAM_VER
                &&& params.output_bitstream == e.output_buffer
                &&& reply.status == 0 && reply.size > 0 && reply.handle != 0 ==> (
                step matches Step::Call(read, _) && read == (Call::ReadHost {
                    address: reply.handle,
                    len: reply.size,
                }))
            },
            Call::ReadHost { .. } => step matches Step::Call(_, next) ==> (
            next.stage matches DrainStage::Unlocking { data } && data@ == reply.bytes@),
            Call::NvEncUnlockBitstream { encoder, buffer } => {
                &&& encoder == e.encoder
                &&& buffer == e.output_buffer
            },
            Call::NvEncGetLastErrorString { encoder } => encoder == e.encoder,
            _ => false,
        },
        step matches Step::Call(_, next) ==> next.job == m.job,
{
}

/// What is drained becomes a packet of the picture that was kept back longest, with its
/// timestamp, in ticks of one picture each. A packet that belongs to no such picture gets
/// the next timestamp in turn. The buffer is read again as long as pictures are missing.
pub proof fn drained_packet_is_of_the_oldest_picture(
    e: NvEncoder,
    m: DrainEncoder,
    reply: Reply,
    step: Step<DrainEncoder, Drained>,
)
    requires
        m.job == e.drain_job(),
        m.follows(reply, step),
        m.stage matches DrainStage::Unlocking { data } && data@.len() > 0,
        reply.status == 0,
    ensures
        ({
            let p = packets_after(step).last();
            &&& packets_after(step).len() == m.packets@.len() + 1
            &&& packets_after(step).drop_last() == m.packets@
            &&& p.data@ == m.stage->Unlocking_data@
            &&& m.kept_back@.len() > 0 ==> p.pts == Some(m.kept_back@[0])
            &&& m.kept_back@.len() == 0 ==> p.pts == Some(e.pts_counter)
            &&& p.dts is None && p.duration is None && p.stream_index == 0
            &&& p.time_base.num == e.fr_den
            &&& p.time_base.den == e.fr_num
            &&& m.kept_back@.len() > 1 && e.fns.nv_enc_lock_bitstream != 0 ==> {
                &&& step matches Step::Call(call, next)
                &&& call is NvEncLockBitstream
                &&& next.kept_back@ == m.kept_back@.drop_first()
            }
            &&& m.kept_back@.len() <= 1 ==> (step matches Step::Done(out) && out.result is Ok)
        }),
{
}

/// A call that fails at the end of a stream is reported under its own name and with its
/// own status, in the driver's words if it has any. What has come out is kept.
pub proof fn failed_end_names_the_call(
    m: DrainEncoder,
    call: Call,
    reply: Reply,
    step: Step<DrainEncoder, Drained>,
)
    requires
        m.awaits(call),
        m.follows(reply, step),
        reply.status != 0,
        !(m.stage is Reading),
        m.stage is Ending ==> reply.status != 17,
    ensures
        packets_after(step) == m.packets@,
        step is Call <==> !(m.stage is Asking) && m.job.fns.nv_enc_get_last_error_string != 0
            && m.job.encoder != 0,
        match step {
            Step::Call(asked, next) => {
                &&& asked == (Call::NvEncGetLastErrorString { encoder: m.job.encoder })
                &&& next.stage matches DrainStage::Asking { op, status }
                &&& op@ == entry_point(call)
                &&& status == reply.status
            },
            Step::Done(out) => {
                &&& out.result matches Err(e)
                &&& match m.stage {
                    DrainStage::Asking { op, status } => says_failed(
                        e@,
                        op@,
                        status,
                        match reply.text {
                            Some(t) => t@,
                            None => Seq::empty(),
                        },
                    ),
                    _ => says_failed(e@, entry_point(call), reply.status, Seq::empty()),
                }
            },
        },
{
}

/// An encoder is torn down from the inside out: its buffers, each as what it is, then the
/// session that they belong to, then the context that the session lives in.
pub proof fn session_goes_after_its_buffers(
    fns: NvEncodeApiFunctionList,
    encoder: u64,
    input: u64,
    output: u64,
    ctx: u64,
)
    requires
        fns.nv_enc_destroy_input_buffer != 0,
        fns.nv_enc_destroy_bitstream_buffer != 0,
        fns.nv_enc_destroy_encoder != 0,
        encoder != 0,
        input != 0,
        output != 0,
        ctx != 0,
    ensures
        close_calls(fns, encoder, input, output, ctx) =~= seq![
            Call::NvEncDestroyInputBuffer { encoder, buffer: input },
            Call::NvEncDestroyBitstreamBuffer { encoder, buffer: output },
            Call::NvEncDestroyEncoder { encoder },
            Call::CuCtxDestroy { ctx },
        ],
        close_calls(fns, 0, input, output, ctx) =~= seq![Call::CuCtxDestroy { ctx }],
{
}

/// A picture that cannot go on for want of an entry point is given up under the name of the
/// entry point that comes next.
pub proof fn missing_slot_stops_the_picture(
    m: SendFrame,
    reply: Reply,
    step: Step<SendFrame, Sent>,
)
    requires
        m.follows(reply, step),
        reply.status == 0,
    ensures
        ({
            let fns = m.job.fns;
            let gives_up = |name: Seq<char>|
                step matches Step::Done(Err(e)) && e@ == ErrorView::Unsupported(
                    "nvidia: "@ + name + " not in fn table"@,
                );
            &&& m.stage is Writing && fns.nv_enc_unlock_input_buffer == 0 ==> gives_up(
                "nvEncUnlockInputBuffer"@,
            )
            &&& m.stage == (FrameStage::Unlocking { rejected: false })
                && fns.nv_enc_encode_picture == 0 ==> gives_up("nvEncEncodePicture"@)
            &&& m.stage is Encoding && fns.nv_enc_lock_bitstream == 0 ==> gives_up(
                "nvEncLockBitstream"@,
            )
            &&& m.stage is ReadingOutput && fns.nv_enc_unlock_bitstream == 0 ==> gives_up(
                "nvEncUnlockBitstream"@,
            )
        }),
{
}

/// Whether two encoders are the same one at different times: they run on the same session,
/// context and buffers, and encode pictures of the same size and rate.
pub open spec fn is_same_encoder(a: NvEncoder, b: NvEncoder) -> bool {
    &&& a.codec_id == b.codec_id
    &&& a.ctx == b.ctx
    &&& a.fns == b.fns
    &&& a.encoder == b.encoder
    &&& a.input_buffer == b.input_buffer
    &&& a.output_buffer == b.output_buffer
    &&& a.output_params == b.output_params
    &&& a.width == b.width
    &&& a.height == b.height
    &&& a.fr_num == b.fr_num
    &&& a.fr_den == b.fr_den
}

/// A picture that is sent starts on its way with its own planes, by the lock of the encoder's
/// input buffer, and comes with its own timestamp or one tick after the picture before it.
/// Nothing of what is ready is touched.
pub proof fn pictures_are_stamped_in_turn(
    e: NvEncoder,
    first: VideoFrame,
    e1: NvEncoder,
    first_step: Step<SendFrame, Sent>,
    sent: Sent,
    e2: NvEncoder,
    r: Result<(), Error>,
    second: VideoFrame,
    e3: NvEncoder,
    second_step: Step<SendFrame, Sent>,
)
    requires
        sends(e, Frame::Video(first), e1, first_step),
        takes_in(e1, sent, e2, r),
        sends(e2, Frame::Video(second), e3, second_step),
        !e.flushed,
        e.fns.nv_enc_lock_input_buffer != 0,
    ensures
        ({
            &&& is_same_encoder(e, e1) && is_same_encoder(e1, e2) && is_same_encoder(e2, e3)
            &&& e1.output_queue@ == e.output_queue@ && e1.kept_back@ == e.kept_back@
            &&& first_step matches Step::Call(first_call, a)
            &&& second_step matches Step::Call(second_call, b)
            &&& first_call matches Call::NvEncLockInputBuffer { encoder, params }
            &&& encoder == e.encoder
            &&& params.input_buffer == e.input_buffer
            &&& a.stage == (FrameStage::Locking { planes: first.planes })
            &&& b.stage == (FrameStage::Locking { planes: second.planes })
            &&& first.pts matches Some(t) ==> a.job.pts == t
            &&& first.pts is None ==> a.job.pts == e.pts_counter
            &&& second.pts matches Some(t) ==> b.job.pts == t
            &&& second.pts is None ==> b.job.pts == a.job.pts + 1
            &&& a.job == e.job(a.job.pts) && a.awaits(first_call)
            &&& b.job == e.job(b.job.pts) && b.awaits(second_call)
        }),
{
}

/// Only pictures can be encoded, only by an encoder whose stream has not ended, and only where
/// the input buffer can be locked.
pub proof fn refused_picture_is_explained(
    e: NvEncoder,
    frame: Frame,
    after: NvEncoder,
    step: Step<SendFrame, Sent>,
)
    requires
        sends(e, frame, after, step),
    ensures
        step is Call <==> !e.flushed && frame is Video && e.fns.nv_enc_lock_input_buffer != 0,
        e.flushed ==> (step matches Step::Done(Err(error)) && error@ is Eof && after.pts_counter
            == e.pts_counter),
        !e.flushed && frame is Other ==> (step matches Step::Done(Err(error)) && error@
            == ErrorView::InvalidData("expected Video frame"@) && after.pts_counter
            == e.pts_counter),
        !e.flushed && frame is Video && e.fns.nv_enc_lock_input_buffer == 0 ==> (
        step matches Step::Done(Err(error)) && error@ == ErrorView::Unsupported(
            "nvidia: nvEncLockInputBuffer not in fn table"@,
        )),
{
    assert("nvidia: "@ + "nvEncLockInputBuffer"@ + " not in fn table"@
        =~= "nvidia: nvEncLockInputBuffer not in fn table"@) by {
        reveal_strlit("nvidia: ");
        reveal_strlit("nvEncLockInputBuffer");
        reveal_strlit(" not in fn table");
        reveal_strlit("nvidia: nvEncLockInputBuffer not in fn table");
    }
}

/// Packets come out once each and in the order in which they went in, and a picture that was
/// kept back is noted behind those that were. A failure leaves everything as it was.
pub proof fn packets_come_out_in_order(
    e: NvEncoder,
    sent: Sent,
    e1: NvEncoder,
    r: Result<(), Error>,
    e2: NvEncoder,
    received: Result<Packet, Error>,
)
    requires
        takes_in(e, sent, e1, r),
        hands_out(e1, e2, received),
    ensures
        is_same_encoder(e, e1),
        is_same_encoder(e1, e2),
        r is Err <==> sent is Err,
        sent matches Err(error) ==> r == Err::<(), Error>(error),
        ({
            let ready = match sent {
                Ok(Encoded::Packet(p)) => e.output_queue@.push(p),
                _ => e.output_queue@,
            };
            let kept = match sent {
                Ok(Encoded::KeptBack { pts }) => e.kept_back@.push(pts),
                _ => e.kept_back@,
            };
            &&& e2.kept_back@ == kept
            &&& e2.flushed == e.flushed
            &&& e2.pts_counter == e.pts_counter
            &&& ready.len() > 0 ==> received == Ok::<Packet, Error>(ready[0]) && e2.output_queue@
                == ready.drop_first()
            &&& ready.len() == 0 ==> (received matches Err(error) && (error@ is Eof <==> e.flushed)
                && (error@ is NeedMore <==> !e.flushed) && e2.output_queue@.len() == 0)
        }),
{
}

/// The end of a stream is announced once, by a picture that has nothing but the mark, and
/// draining starts with all that was kept back. What is drained comes out behind what was
/// ready. After that the encoder takes no more pictures, a second end makes no call, and when
/// everything has come out the stream is at its end.
pub proof fn stream_ends_once(
    e: NvEncoder,
    e1: NvEncoder,
    step: Step<DrainEncoder, Drained>,
    drained: Drained,
    e2: NvEncoder,
    r: Result<(), Error>,
    frame: Frame,
    e3: NvEncoder,
    refused: Step<SendFrame, Sent>,
    e4: NvEncoder,
    again: Step<DrainEncoder, Drained>,
    e5: NvEncoder,
    received: Result<Packet, Error>,
)
    requires
        !e.flushed,
        ends(e, e1, step),
        takes_drained(e1, drained, e2, r),
        sends(e2, frame, e3, refused),
        ends(e3, e4, again),
        hands_out(e4, e5, received),
    ensures
        is_same_encoder(e, e5),
        e.fns.nv_enc_encode_picture != 0 ==> {
            &&& step matches Step::Call(call, m)
            &&& call matches Call::NvEncEncodePicture { encoder, params }
            &&& encoder == e.encoder
            &&& params.encode_pic_flags == 8
            &&& m.awaits(call)
            &&& m.stage is Ending
            &&& m.job == e.drain_job()
            &&& m.kept_back@ == e.kept_back@
            &&& m.packets@.len() == 0
        },
        e.fns.nv_enc_encode_picture == 0 ==> (step matches Step::Done(out) && out.result is Err),
        e1.kept_back@.len() == 0,
        r == drained.result,
        refused matches Step::Done(Err(error)) && error@ is Eof,
        again matches Step::Done(out) && out.result is Ok && out.packets@.len() == 0,
        ({
            let ready = e.output_queue@ + drained.packets@;
            &&& e4.output_queue@ == ready
            &&& ready.len() > 0 ==> received == Ok::<Packet, Error>(ready[0])
            &&& ready.len() == 0 ==> (received matches Err(error) && error@ is Eof)
        }),
{
}

/// An encoder that cannot be made before there is a session fails with the error of the call
/// that failed, and giving the context up does not change it.
pub proof fn failed_start_is_explained(m: MakeEncoder, reply: Reply, step: Step<MakeEncoder, Made>)
    requires
        m.follows(reply, step),
    ensures
        m.stage is Init || m.stage is Counting || m.stage is Finding || m.stage is Entering ==> (
        reply_error(reply) matches Some(e) ==> (step matches Step::Done(Err(error)) && error@ == (
        if error_unavailable(e) {
            ErrorView::Unsupported("nvidia: "@ + error_line(e))
        } else {
            ErrorView::Other("nvidia: "@ + error_line(e))
        }))),
        m.stage matches EncoderStage::Closing { error, .. } ==> (step matches Step::Done(Err(e))
            && e@ == error@),
        m.stage is Table && reply.load_error is Some ==> match step {
            Step::Call(call, next) => {
                &&& call is CuCtxDestroy
                &&& next.stage matches EncoderStage::Closing { error, .. }
                &&& error@ is Unsupported
            },
            Step::Done(Err(error)) => error@ is Unsupported,
            Step::Done(Ok(_)) => false,
        },
{
    if reply.load_error is Some {
        crate::setup::missing_driver_falls_back(reply);
    }
}

/// The end of a stream goes well, with what has come out, where the session has nothing more
/// to hand out: it says so when the end is announced, or its output buffer is empty.
pub proof fn nothing_more_ends_well(
    m: DrainEncoder,
    reply: Reply,
    step: Step<DrainEncoder, Drained>,
)
    requires
        m.follows(reply, step),
        m.stage is Ending && reply.status == 17 || (reply.status == 0 && (
        m.stage matches DrainStage::Unlocking { data } && data@.len() == 0)),
    ensures
        step matches Step::Done(out) && out.result is Ok && out.packets@ == m.packets@,
{
}

/// Once the end has been announced the output buffer is locked, and an empty one is unlocked
/// without being read.
pub proof fn end_is_followed_by_a_lock(
    e: NvEncoder,
    m: DrainEncoder,
    reply: Reply,
    step: Step<DrainEncoder, Drained>,
)
    requires
        m.job == e.drain_job(),
        m.follows(reply, step),
        reply.status == 0,
        e.fns.nv_enc_lock_bitstream != 0,
        e.fns.nv_enc_unlock_bitstream != 0,
    ensures
        m.stage is Ending ==> (step matches Step::Call(call, next) && next.stage is Locking
            && next.awaits(call) && call is NvEncLockBitstream),
        m.stage is Locking && (reply.size == 0 || reply.handle == 0) ==> (
        step matches Step::Call(call, next) && call is NvEncUnlockBitstream && (
        next.stage matches DrainStage::Unlocking { data } && data@.len() == 0)),
        m.stage is Reading ==> (step matches Step::Call(call, next)
            && call is NvEncUnlockBitstream && (next.stage matches DrainStage::Unlocking { data }
            && data@ == reply.bytes@)),
{
}

} // verus!

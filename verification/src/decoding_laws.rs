//! What a decoder tells the driver, and what becomes of what the driver tells it: laws on
//! the calls, replies and outcomes of whole runs.

use vstd::prelude::*;
use crate::callback::{
    starts_decoding, starts_sequence, starts_showing, CallbackState, DecodeCallback,
    DisplayCallback, DisplayStage, Handled, SeqCallback,
};
use crate::decoder::{
    close_calls, data_packet, end_packet, feeds, hands_out, has_ended, has_fed, starts, starts_av1,
    starts_h264, starts_hevc, starts_mpeg2, starts_to_end, starts_vp9, DecoderStage, MakeDecoder,
    NvDecoder,
};
use crate::device::{
    chosen_device, count_outcome, error_line, error_unavailable, reply_error,
};
use crate::driver::{is_run_of, leads_on_by, Call, Reply, Step};
use crate::error::{Error, ErrorView};
use crate::frame::{CodecParameters, Frame, Packet};
use crate::nv12::shown_part_is_the_display_rectangle;
use crate::sys::{CUVIDEOFORMAT, CUVIDPARSERDISPINFO, CUVIDPARSERPARAMS, CudaVideoCodec};
use crate::text::int_text;

verus! {

/// A complete run of the handling of a stream format, with the calls that it made, from
/// what the callback starts with.
pub open spec fn is_format_change(
    run: Seq<(SeqCallback, Reply)>,
    calls: Seq<Call>,
    out: Handled,
) -> bool {
    &&& is_run_of(
        run,
        calls,
        |m: SeqCallback, r: Reply, s: Step<SeqCallback, Handled>| m.follows(r, s),
        out,
    )
    &&& calls[0] == run[0].0.awaits()
    &&& run[0].0.creating == (run[0].0.state.decoder == 0)
}

/// Whether `right` lies `extent` past `left`, or the extent is all of `coded` where the
/// two enclose nothing.
pub open spec fn spans(left: i32, right: i32, coded: u32, extent: u32) -> bool {
    &&& left < right ==> left + extent == right
    &&& left >= right ==> extent == coded
}

/// A format change replaces the decoder by one for the format. Its surfaces come out at
/// the size at which they are read, which is that of the coded picture: what is decoded,
/// what is put out and what the state holds afterwards have one width and one height, and
/// nothing is scaled or moved. What is shown of them is the format's display rectangle.
pub proof fn surfaces_come_out_at_coded_size(
    run: Seq<(SeqCallback, Reply)>,
    calls: Seq<Call>,
    out: Handled,
)
    requires
        is_format_change(run, calls, out),
    ensures
        ({
            let (before, f) = (run[0].0.state, run[0].0.format);
            let (after, g) = (out.0, out.0.geometry);
            &&& run.len() == (if before.decoder == 0 {
                1int
            } else {
                2
            })
            &&& before.decoder != 0 ==> calls[0] == (Call::CuvidDestroyDecoder {
                decoder: before.decoder,
            })
            &&& calls.last() matches Call::CuvidCreateDecoder { info }
            &&& info.ul_width == f.coded_width
            &&& info.ul_height == f.coded_height
            &&& info.ul_target_width == info.ul_width
            &&& info.ul_target_height == info.ul_height
            &&& info.ul_max_width == info.ul_width
            &&& info.ul_max_height == info.ul_height
            &&& info.target_left == 0 && info.target_top == 0
            &&& f.coded_width <= i16::MAX ==> info.target_right == f.coded_width
            &&& f.coded_height <= i16::MAX ==> info.target_bottom == f.coded_height
            &&& i16::MIN <= f.display_left <= i16::MAX ==> info.display_left == f.display_left
            &&& i16::MIN <= f.display_top <= i16::MAX ==> info.display_top == f.display_top
            &&& i16::MIN <= f.display_right <= i16::MAX ==> info.display_right == f.display_right
            &&& i16::MIN <= f.display_bottom <= i16::MAX ==> info.display_bottom
                == f.display_bottom
            &&& info.target_right == f.coded_width as i16
            &&& info.target_bottom == f.coded_height as i16
            &&& info.display_left == f.display_left as i16
            &&& info.display_top == f.display_top as i16
            &&& info.display_right == f.display_right as i16
            &&& info.display_bottom == f.display_bottom as i16
            &&& info.codec_type == f.codec
            &&& info.chroma_format == f.chroma_format
            &&& info.bit_depth_minus_8 == f.bit_depth_luma_minus8
            &&& info.ul_num_decode_surfaces >= 8
            &&& info.ul_num_decode_surfaces >= f.min_num_decode_surfaces
            &&& info.ul_num_decode_surfaces == 8 || info.ul_num_decode_surfaces
                == f.min_num_decode_surfaces
            &&& info.ul_num_output_surfaces == 2
            &&& info.output_format == 0 && info.deinterlace_mode == 0
            &&& info.ul_creation_flags == 4
            &&& info.ul_intra_decode_only == 0 && info.vid_lock == 0 && info.enable_histogram == 0
            &&& out.1 == 1 <==> run.last().1.status == 0
            &&& out.1 == 1 ==> {
                &&& after.decoder == run.last().1.handle
                &&& g.coded_width == info.ul_target_width
                &&& g.coded_height == info.ul_target_height
                &&& spans(f.display_left, f.display_right, g.coded_width, g.display_w)
                &&& spans(f.display_top, f.display_bottom, g.coded_height, g.display_h)
                &&& f.display_left >= 0 ==> g.display_left == f.display_left
                &&& f.display_top >= 0 ==> g.display_top == f.display_top
                &&& f.display_left < 0 ==> g.display_left == 0
                &&& f.display_top < 0 ==> g.display_top == 0
                &&& after.frames == before.frames
                &&& after.error == before.error
            }
            &&& out.1 != 1 ==> {
                &&& out.1 == 0
                &&& after.decoder == 0
                &&& g == before.geometry
                &&& after.frames == before.frames
                &&& before.error is Some ==> after.error == before.error
                &&& before.error is None ==> (after.error matches Some(m) && m@
                    == "cuvidCreateDecoder failed: CUresult "@ + int_text(
                    run.last().1.status as int,
                ))
            }
        }),
{
    let follows = |m: SeqCallback, r: Reply, s: Step<SeqCallback, Handled>| m.follows(r, s);
    if run.len() > 1 {
        assert(leads_on_by(run, calls, follows, 0));
    }
    if run.len() > 2 {
        assert(leads_on_by(run, calls, follows, 1));
    }
    assert("cuvidCreateDecoder"@ + " failed: CUresult "@
        =~= "cuvidCreateDecoder failed: CUresult "@) by {
        reveal_strlit("cuvidCreateDecoder");
        reveal_strlit(" failed: CUresult ");
        reveal_strlit("cuvidCreateDecoder failed: CUresult ");
    }
}

/// A complete run of the showing of a picture, with the calls that it made, from what the
/// callback starts with.
pub open spec fn is_showing_by(
    run: Seq<(DisplayCallback, Reply)>,
    calls: Seq<Call>,
    out: Handled,
) -> bool {
    &&& is_run_of(
        run,
        calls,
        |m: DisplayCallback, r: Reply, s: Step<DisplayCallback, Handled>| m.follows(r, s),
        out,
    )
    &&& run[0].0.stage is Mapping
    &&& calls[0] == run[0].0.awaits()
}

proof fn lemma_showing_by(
    run: Seq<(DisplayCallback, Reply)>,
    calls: Seq<Call>,
    out: Handled,
    i: int,
)
    requires
        is_showing_by(run, calls, out),
        0 <= i < run.len(),
    ensures
        i <= 4,
        run[i].0.info == run[0].0.info,
        calls[i] == run[i].0.awaits(),
        run[i].0.state.decoder == run[0].0.state.decoder,
        run[i].0.state.geometry == run[0].0.state.geometry,
        !(run[i].0.stage is Failing) ==> run[i].0.state == run[0].0.state,
        i == 0 ==> run[i].0.stage is Mapping,
        i == 1 ==> run[0].1.status == 0 && run[1].0.stage == (DisplayStage::Syncing {
            surface: run[0].1.handle,
            pitch: run[0].1.pitch,
        }),
        i == 2 ==> run[0].1.status == 0 && ((run[1].1.status != 0 && run[2].0.stage == (
        DisplayStage::Failing { surface: run[0].1.handle })) || (run[1].1.status == 0
            && run[2].0.stage == (DisplayStage::CopyingLuma {
            surface: run[0].1.handle,
            pitch: run[0].1.pitch,
        }))),
        i == 3 ==> run[0].1.status == 0 && run[1].1.status == 0 && run[3].0.stage == (
        DisplayStage::CopyingChroma {
            surface: run[0].1.handle,
            pitch: run[0].1.pitch,
            luma_status: run[2].1.status,
            luma: run[2].1.bytes,
        }),
        i == 4 ==> run[0].1.status == 0 && run[1].1.status == 0 && run[4].0.stage == (
        DisplayStage::Unmapping {
            surface: run[0].1.handle,
            pitch: run[0].1.pitch,
            luma_status: run[2].1.status,
            luma: run[2].1.bytes,
            chroma_status: run[3].1.status,
            chroma: run[3].1.bytes,
        }),
    decreases i,
{
    if i > 0 {
        lemma_showing_by(run, calls, out, i - 1);
        assert(leads_on_by(
            run,
            calls,
            |m: DisplayCallback, r: Reply, s: Step<DisplayCallback, Handled>| m.follows(r, s),
            i - 1,
        ));
    }
}

/// Whether `b` lies `n` bytes behind `a`, in addresses that wrap.
pub open spec fn lies_behind(a: u64, n: int, b: u64) -> bool {
    b == a + n || b == a + n - 0x1_0000_0000_0000_0000
}

/// A picture that is shown is mapped by its index on the state's decoder, with the fields
/// as the parser described them. The planes that are copied are those of the surface: all
/// coded rows of luma from its start, and behind them half as many of chroma. The surface
/// that was mapped is the one that is unmapped.
pub proof fn surface_is_read_where_it_lies(
    run: Seq<(DisplayCallback, Reply)>,
    calls: Seq<Call>,
    out: Handled,
)
    requires
        is_showing_by(run, calls, out),
    ensures
        ({
            let (state, info) = (run[0].0.state, run[0].0.info);
            let (surface, pitch) = (run[0].1.handle, run[0].1.pitch);
            let rows = state.geometry.coded_height;
            &&& calls[0] matches Call::CuvidMapVideoFrame { decoder, picture_index, params }
            &&& decoder == state.decoder
            &&& picture_index == info.picture_index
            &&& params.progressive_frame == info.progressive_frame
            &&& params.top_field_first == info.top_field_first
            &&& params.second_field == 0
            &&& params.unpaired_field == 1 <==> info.repeat_first_field < 0
            &&& params.unpaired_field == 0 || params.unpaired_field == 1
            &&& params.output_stream == 0
            &&& run.len() > 1 ==> calls[1] == (Call::CuStreamSynchronize { stream: 0 })
            &&& run.len() == 1 || run.len() == 3 || run.len() == 5
            &&& run.len() > 1 ==> calls.last() == (Call::CuvidUnmapVideoFrame {
                decoder: state.decoder,
                frame: surface,
            })
            &&& run.len() == 5 <==> run[0].1.status == 0 && run[1].1.status == 0
            &&& run.len() == 5 ==> {
                &&& calls[2] matches Call::CuMemcpyDtoH { src: y, len: y_len }
                &&& y == surface
                &&& y_len == pitch * rows
                &&& calls[3] matches Call::CuMemcpyDtoH { src: uv, len: uv_len }
                &&& lies_behind(surface, pitch * rows, uv)
                &&& uv_len == pitch * ((rows as int + 1) / 2)
            }
        }),
{
    let last = run.len() - 1;
    let (pitch, rows) = (run[0].1.pitch, run[0].0.state.geometry.coded_height);
    lemma_showing_by(run, calls, out, 0);
    lemma_showing_by(run, calls, out, last);
    if last >= 1 {
        lemma_showing_by(run, calls, out, 1);
    }
    if last >= 2 {
        lemma_showing_by(run, calls, out, 2);
    }
    if last >= 3 {
        lemma_showing_by(run, calls, out, 3);
    }
    let half = (rows as int + 1) / 2;
    assert(0 <= pitch * rows <= 0xFFFF_FFFF * 0xFFFF_FFFF && 0 <= pitch * half <= 0xFFFF_FFFF
        * 0xFFFF_FFFF) by (nonlinear_arith)
        requires
            0 <= pitch <= 0xFFFF_FFFF,
            0 <= rows <= 0xFFFF_FFFF,
            0 <= half <= 0xFFFF_FFFF,
    ;
}

/// A picture that is shown has the timestamp that the parser gave it, and shows the part
/// of the surface that the state's display rectangle cuts out, byte for byte: the luma at
/// row `r`, column `c` is what was copied from that many rows and columns behind the
/// rectangle's corner, and U and V are the two bytes of the chroma pair that goes there.
/// Nothing is shown where a copy failed.
pub proof fn picture_shows_what_was_copied(
    run: Seq<(DisplayCallback, Reply)>,
    calls: Seq<Call>,
    out: Handled,
    r: int,
    c: int,
)
    requires
        is_showing_by(run, calls, out),
        0 <= r,
        0 <= c,
    ensures
        out.1 == 1 <==> run.len() == 5 && run[2].1.status == 0 && run[3].1.status == 0,
        out.1 != 1 ==> out.1 == 0 && out.0.frames == run[0].0.state.frames,
        run.len() == 5 && run[0].0.state.error is None && out.1 == 0 ==> (
        out.0.error matches Some(text) && text@ == (if run[2].1.status != 0 {
            "cuMemcpyDtoH_v2 (Y) failed: CUresult "@ + int_text(run[2].1.status as int)
        } else {
            "cuMemcpyDtoH_v2 (UV) failed: CUresult "@ + int_text(run[3].1.status as int)
        })),
        out.1 == 1 ==> {
            let g = run[0].0.state.geometry;
            let pitch = run[0].1.pitch;
            let (y, uv) = (run[2].1.bytes@, run[3].1.bytes@);
            let frame = out.0.frames@.last();
            let (w, h) = (g.out_w(), g.out_h());
            &&& out.0.frames@.len() == run[0].0.state.frames@.len() + 1
            &&& out.0.frames@.drop_last() == run[0].0.state.frames@
            &&& out.0.decoder == run[0].0.state.decoder
            &&& out.0.geometry == g
            &&& frame.pts is None <==> run[0].0.info.timestamp == 0
            &&& frame.pts matches Some(t) ==> t == run[0].0.info.timestamp
            &&& frame.planes@.len() == 3
            &&& c < w <==> c < g.display_w && g.display_left + c < g.coded_width
            &&& r < h <==> r < g.display_h && g.display_top + r < g.coded_height
            &&& frame.planes@[0].stride == w
            &&& frame.planes@[1].stride == (w + 1) / 2
            &&& frame.planes@[2].stride == (w + 1) / 2
            &&& frame.planes@[0].data@.len() == w * h
            &&& frame.planes@[1].data@.len() == ((w + 1) / 2) * ((h + 1) / 2)
            &&& frame.planes@[2].data@.len() == ((w + 1) / 2) * ((h + 1) / 2)
            &&& r < h && c < w && g.coded_width <= pitch && y.len() == pitch * g.coded_height
                ==> frame.planes@[0].data@[r * frame.planes@[0].stride + c] == y[(g.display_top
                + r) * pitch + (g.display_left + c)]
            &&& r < h && c < w ==> frame.planes@[0].data@[r * frame.planes@[0].stride + c] == (if (
            g.display_top + r) * pitch + g.display_left + w <= y.len() {
                y[(g.display_top + r) * pitch + (g.display_left + c)]
            } else {
                0
            })
            &&& 2 * r < h && 2 * c < w ==> {
                let at = (g.display_top / 2 + r) * pitch + 2 * (g.display_left / 2 + c);
                let i = r * frame.planes@[1].stride + c;
                &&& frame.planes@[1].data@[i] == (if at + 1 < uv.len() {
                    uv[at]
                } else {
                    0
                })
                &&& frame.planes@[2].data@[i] == (if at + 1 < uv.len() {
                    uv[at + 1]
                } else {
                    0
                })
            }
            &&& 2 * r < h && 2 * c < w && 2 * ((g.coded_width as int + 1) / 2) <= pitch
                && uv.len() == pitch * ((g.coded_height as int + 1) / 2) ==> {
                let at = (g.display_top / 2 + r) * pitch + 2 * (g.display_left / 2 + c);
                &&& frame.planes@[1].data@[r * frame.planes@[1].stride + c] == uv[at]
                &&& frame.planes@[2].data@[r * frame.planes@[2].stride + c] == uv[at + 1]
            }
        },
{
    let last = run.len() - 1;
    lemma_showing_by(run, calls, out, last);
    if last >= 1 {
        lemma_showing_by(run, calls, out, 1);
    }
    if last == 2 {
        assert(leads_on_by(
            run,
            calls,
            |m: DisplayCallback, r: Reply, s: Step<DisplayCallback, Handled>| m.follows(r, s),
            1,
        ));
    }
    assert("cuMemcpyDtoH_v2 (Y)"@ + " failed: CUresult "@
        =~= "cuMemcpyDtoH_v2 (Y) failed: CUresult "@ && "cuMemcpyDtoH_v2 (UV)"@
        + " failed: CUresult "@ =~= "cuMemcpyDtoH_v2 (UV) failed: CUresult "@) by {
        reveal_strlit("cuMemcpyDtoH_v2 (Y)");
        reveal_strlit("cuMemcpyDtoH_v2 (UV)");
        reveal_strlit(" failed: CUresult ");
        reveal_strlit("cuMemcpyDtoH_v2 (Y) failed: CUresult ");
        reveal_strlit("cuMemcpyDtoH_v2 (UV) failed: CUresult ");
    }
    shown_part_is_the_display_rectangle(
        run[2].1.bytes@,
        run[3].1.bytes@,
        run[0].1.pitch as int,
        run[0].0.state.geometry,
        r,
        c,
    );
}

/// What the vendor calls the entry points whose failure a callback puts on record.
pub open spec fn entry_point(call: Call) -> Seq<char> {
    match call {
        Call::CuvidMapVideoFrame { .. } => "cuvidMapVideoFrame64"@,
        Call::CuStreamSynchronize { .. } => "cuStreamSynchronize"@,
        Call::CuvidDecodePicture { .. } => "cuvidDecodePicture"@,
        _ => Seq::empty(),
    }
}

/// A surface that cannot be mapped or waited for is put on record under the name of the
/// call that failed, with its status, unless something else is on record already.
pub proof fn failure_to_show_is_put_on_record(
    m: DisplayCallback,
    reply: Reply,
    step: Step<DisplayCallback, Handled>,
)
    requires
        m.follows(reply, step),
        m.stage is Mapping || m.stage is Syncing,
        m.state.error is None,
        reply.status != 0,
    ensures
        ({
            let after = match step {
                Step::Call(_, next) => next.state,
                Step::Done((state, _)) => state,
            };
            &&& after.error matches Some(text)
            &&& text@ == entry_point(m.awaits()) + " failed: CUresult "@ + int_text(
                reply.status as int,
            )
        }),
{
}

/// A coded picture that the decoder does not take is put on record in the same way.
pub proof fn failure_to_decode_is_put_on_record(
    m: DecodeCallback,
    picture: u64,
    reply: Reply,
    step: Step<DecodeCallback, Handled>,
)
    requires
        m.follows(reply, step),
    ensures
        step matches Step::Done((after, go_on)) && (go_on == 1 <==> reply.status == 0) && (
        reply.status == 0 ==> after == m.state) && (reply.status != 0 && m.state.error is None ==> (
        after.error matches Some(text) && text@ == entry_point(
            Call::CuvidDecodePicture { decoder: m.state.decoder, picture },
        ) + " failed: CUresult "@ + int_text(reply.status as int))),
{
}

/// A complete run of the making of a decoder, with the calls that it made, from what a
/// `make` starts with.
pub open spec fn is_making_by(
    run: Seq<(MakeDecoder, Reply)>,
    calls: Seq<Call>,
    out: Result<NvDecoder, Error>,
) -> bool {
    &&& is_run_of(
        run,
        calls,
        |m: MakeDecoder, r: Reply, s: Step<MakeDecoder, Result<NvDecoder, Error>>|
            m.follows(r, s),
        out,
    )
    &&& run[0].0.stage is Init
    &&& calls[0] == run[0].0.awaits()
}

proof fn lemma_making_by(
    run: Seq<(MakeDecoder, Reply)>,
    calls: Seq<Call>,
    out: Result<NvDecoder, Error>,
    i: int,
)
    requires
        is_making_by(run, calls, out),
        0 <= i < run.len(),
    ensures
        i <= 5,
        i < 5 ==> run[i].0.job == run[0].0.job,
        calls[i] == run[i].0.awaits(),
        i == 1 ==> run[1].0.stage is Counting,
        i == 2 ==> (run[2].0.stage matches DecoderStage::Finding { ordinal, .. } && count_outcome(
            run[1].1,
        ) matches Ok(count) && chosen_device(run[0].0.job.device_index, count) matches Ok(chosen)
            && ordinal == chosen),
        i == 3 ==> (run[3].0.stage matches DecoderStage::Entering { device, .. } && device
            == run[2].1.number),
        i == 4 ==> (run[4].0.stage matches DecoderStage::Parsing { ctx, .. } && ctx.ctx
            == run[3].1.handle),
        i == 5 ==> (run[5].0.stage matches DecoderStage::Closing { ctx, .. } && ctx
            == run[3].1.handle && ctx != 0),
    decreases i,
{
    if i > 0 {
        lemma_making_by(run, calls, out, i - 1);
        assert(leads_on_by(
            run,
            calls,
            |m: MakeDecoder, r: Reply, s: Step<MakeDecoder, Result<NvDecoder, Error>>|
                m.follows(r, s),
            i - 1,
        ));
    }
}

/// Whether a parser is told of a codec by the driver's number for it, and whether it is
/// told that the stream has start codes. Everything else is left to the parser.
pub open spec fn parses(p: CUVIDPARSERPARAMS, number: int, start_codes: bool) -> bool {
    &&& p.codec_type == number
    &&& p.flags == 1 <==> start_codes
    &&& p.flags == 0 <==> !start_codes
    &&& p.ul_max_num_decode_surfaces == 8
    &&& p.ul_clock_rate == 0
    &&& p.ul_error_threshold == 0
    &&& p.ul_max_display_delay == 0
}

/// A decoder is brought up on the device that was asked for, or the first one, and its
/// parser is for the codec that was asked for: the device that is looked up is the one on
/// which the context is made, and the decoder holds that context and that parser.
pub proof fn decoder_is_made_on_its_device(
    run: Seq<(MakeDecoder, Reply)>,
    calls: Seq<Call>,
    out: Result<NvDecoder, Error>,
    codec: CudaVideoCodec,
    codec_id: Seq<char>,
    annex_b: bool,
    device_index: Option<u32>,
)
    requires
        is_making_by(run, calls, out),
        starts(Step::Call(calls[0], run[0].0), codec, codec_id, annex_b, device_index),
    ensures
        calls[0] == (Call::CuInit { flags: 0 }),
        run.len() > 1 ==> calls[1] == Call::CuDeviceGetCount,
        run.len() > 2 ==> {
            &&& calls[2] matches Call::CuDeviceGet { ordinal }
            &&& device_index is None ==> ordinal == 0
            &&& device_index matches Some(i) ==> ordinal == i
            &&& 0 <= ordinal < run[1].1.number
        },
        run.len() > 3 ==> calls[3] == (Call::CuCtxCreate { flags: 0, device: run[2].1.number }),
        run.len() > 4 ==> (calls[4] matches Call::CuvidCreateVideoParser { params } && parses(
            params,
            codec.number() as int,
            annex_b,
        )),
        run.len() > 5 ==> calls[5] == (Call::CuCtxDestroy { ctx: run[3].1.handle }),
        out matches Ok(d) ==> {
            &&& run.len() == 5
            &&& d.codec_id@ == codec_id
            &&& d.ctx.ctx == run[3].1.handle
            &&& d.parser == run[4].1.handle
            &&& d.output_queue@.len() == 0
            &&& !d.flushed
            &&& !d.reported
        },
{
    let last = run.len() - 1;
    lemma_making_by(run, calls, out, last);
    lemma_making_by(run, calls, out, 0);
    if last >= 1 {
        lemma_making_by(run, calls, out, 1);
    }
    if last >= 2 {
        lemma_making_by(run, calls, out, 2);
    }
    if last >= 3 {
        lemma_making_by(run, calls, out, 3);
    }
    if last >= 4 {
        lemma_making_by(run, calls, out, 4);
    }
}

/// Each decoder parses the codec that its name says, by the driver's number for it, and
/// goes by the pipeline's name for it. Streams of the two codecs that have start codes
/// are parsed for them.
pub proof fn each_decoder_parses_its_codec(
    run: Seq<(MakeDecoder, Reply)>,
    calls: Seq<Call>,
    out: Result<NvDecoder, Error>,
    p: CodecParameters,
)
    requires
        is_making_by(run, calls, out),
        run.len() > 4,
    ensures
        ({
            let first = Step::Call(calls[0], run[0].0);
            let params = calls[4]->CuvidCreateVideoParser_params;
            &&& starts_h264(first, p) ==> parses(params, 4, true) && (out matches Ok(d)
                ==> d.codec_id@ == "h264"@)
            &&& starts_hevc(first, p) ==> parses(params, 8, true) && (out matches Ok(d)
                ==> d.codec_id@ == "hevc"@)
            &&& starts_av1(first, p) ==> parses(params, 11, false) && (out matches Ok(d)
                ==> d.codec_id@ == "av1"@)
            &&& starts_vp9(first, p) ==> parses(params, 10, false) && (out matches Ok(d)
                ==> d.codec_id@ == "vp9"@)
            &&& starts_mpeg2(first, p) ==> parses(params, 1, false) && (out matches Ok(d)
                ==> d.codec_id@ == "mpeg2video"@)
            &&& starts_h264(first, p) || starts_hevc(first, p) || starts_av1(first, p)
                || starts_vp9(first, p) || starts_mpeg2(first, p) ==> {
                &&& calls[2] matches Call::CuDeviceGet { ordinal }
                &&& p.device_index is None ==> ordinal == 0
                &&& p.device_index matches Some(i) ==> ordinal == i
            }
        }),
{
    let first = Step::Call(calls[0], run[0].0);
    let index = p.device_index;
    if starts_h264(first, p) {
        decoder_is_made_on_its_device(
            run,
            calls,
            out,
            CudaVideoCodec::H264,
            "h264"@,
            true,
            index,
        );
    }
    if starts_hevc(first, p) {
        decoder_is_made_on_its_device(
            run,
            calls,
            out,
            CudaVideoCodec::Hevc,
            "hevc"@,
            true,
            index,
        );
    }
    if starts_av1(first, p) {
        decoder_is_made_on_its_device(
            run,
            calls,
            out,
            CudaVideoCodec::Av1,
            "av1"@,
            false,
            index,
        );
    }
    if starts_vp9(first, p) {
        decoder_is_made_on_its_device(
            run,
            calls,
            out,
            CudaVideoCodec::Vp9,
            "vp9"@,
            false,
            index,
        );
    }
    if starts_mpeg2(first, p) {
        decoder_is_made_on_its_device(
            run,
            calls,
            out,
            CudaVideoCodec::Mpeg2,
            "mpeg2video"@,
            false,
            index,
        );
    }
}

/// A packet is fed whole and with its own timestamp: the parser is told of a timestamp if
/// and only if there is one, of a payload if and only if there is one, and never of the
/// end of the stream. The end is announced by a packet that says nothing else.
pub proof fn parser_is_told_of_the_packet(packet: Packet)
    requires
        packet.data@.len() <= u64::MAX,
    ensures
        ({
            let (fed, end) = (data_packet(packet), end_packet());
            &&& fed.payload_size == packet.data@.len()
            &&& fed.has_payload <==> packet.data@.len() > 0
            &&& packet.pts matches Some(t) ==> fed.timestamp == t && fed.flags == 2
            &&& packet.pts is None ==> fed.timestamp == 0 && fed.flags == 0
            &&& end.flags == 1 && end.payload_size == 0 && !end.has_payload && end.timestamp == 0
        }),
{
}

/// Pictures that have left the callbacks come out before those that have not, each group
/// in its own order.
pub proof fn older_pictures_come_first(d: NvDecoder, state: CallbackState, i: int)
    requires
        0 <= i < d.output_queue@.len() + state.frames@.len(),
    ensures
        d.pending(state).len() == d.output_queue@.len() + state.frames@.len(),
        i < d.output_queue@.len() ==> d.pending(state)[i] == d.output_queue@[i],
        i >= d.output_queue@.len() ==> d.pending(state)[i] == state.frames@[i
            - d.output_queue@.len()],
{
}

/// An error on record is due until a method has reported it, in the words in which it was
/// put on record.
pub proof fn recorded_error_is_due(d: NvDecoder, state: CallbackState)
    ensures
        d.due(state) is Some <==> state.error is Some && !d.reported,
        d.due(state) matches Some(text) ==> (state.error matches Some(first) && first@ == text),
{
}

/// A decoder is torn down from the outside in: the parser, which could still call back,
/// then the decoder that the callbacks made, then the context that both live in.
pub proof fn parser_goes_first(parser: u64, decoder: u64, ctx: u64)
    requires
        parser != 0,
        decoder != 0,
        ctx != 0,
    ensures
        close_calls(parser, decoder, ctx, true) =~= seq![
            Call::CuvidDestroyVideoParser { parser },
            Call::CuvidDestroyDecoder { decoder },
            Call::CuCtxDestroy { ctx },
        ],
        close_calls(parser, decoder, ctx, false) =~= seq![Call::CuCtxDestroy { ctx }],
        close_calls(0, 0, ctx, true) =~= seq![Call::CuCtxDestroy { ctx }],
{
}

/// Whether an error is on record in a state that was otherwise left alone: the given one, or
/// the one that was there before.
pub open spec fn only_adds_error(
    before: CallbackState,
    message: Seq<char>,
    after: CallbackState,
) -> bool {
    &&& after.decoder == before.decoder
    &&& after.geometry == before.geometry
    &&& after.frames@ == before.frames@
    &&& before.error is Some ==> after.error == before.error
    &&& before.error is None ==> (after.error matches Some(m) && m@ == message)
}

/// A callback starts where its run does: on the state as it is, with what the parser handed
/// over. Where there is nothing, no driver or no decoder, the parser is told to stop, and what
/// is wrong is put on record.
pub proof fn callbacks_start_their_runs(
    state: CallbackState,
    format: CUVIDEOFORMAT,
    seq_step: Step<SeqCallback, Handled>,
    picture: u64,
    decode_step: Step<DecodeCallback, Handled>,
    info: CUVIDPARSERDISPINFO,
    show_step: Step<DisplayCallback, Handled>,
    load_error: Option<String>,
)
    requires
        starts_sequence(state, Some(format), load_error, seq_step),
        starts_decoding(state, Some(picture), load_error, decode_step),
        starts_showing(state, Some(info), load_error, show_step),
    ensures
        load_error is None ==> {
            &&& seq_step matches Step::Call(call, m)
            &&& call == m.awaits()
            &&& m.creating == (state.decoder == 0)
            &&& m.state == state
            &&& m.format == format
        },
        load_error is None && state.decoder != 0 ==> {
            &&& decode_step matches Step::Call(decode_call, d)
            &&& decode_call == (Call::CuvidDecodePicture { decoder: state.decoder, picture })
            &&& d.state == state
            &&& show_step matches Step::Call(show_call, m)
            &&& show_call == m.awaits()
            &&& m.stage is Mapping
            &&& m.state == state
            &&& m.info == info
        },
        load_error is None && state.decoder == 0 ==> {
            &&& decode_step matches Step::Done((after, stop))
            &&& stop == 0
            &&& only_adds_error(state, "decode_callback: decoder not yet created"@, after)
            &&& show_step matches Step::Done((same, stop))
            &&& stop == 0 && same == state
        },
        load_error matches Some(why) ==> {
            &&& seq_step matches Step::Done((a, stop_a))
            &&& decode_step matches Step::Done((b, stop_b))
            &&& show_step matches Step::Done((c, stop_c))
            &&& stop_a == 0 && stop_b == 0 && stop_c == 0
            &&& only_adds_error(state, "seq_callback vtable: "@ + why@, a)
            &&& only_adds_error(state, "decode_callback vtable: "@ + why@, b)
            &&& only_adds_error(state, "display_callback vtable: "@ + why@, c)
        },
{
}

/// Where the parser hands nothing over, it is told to stop and nothing changes.
pub proof fn nothing_handed_over_changes_nothing(
    state: CallbackState,
    load_error: Option<String>,
    seq_step: Step<SeqCallback, Handled>,
    decode_step: Step<DecodeCallback, Handled>,
    show_step: Step<DisplayCallback, Handled>,
)
    requires
        starts_sequence(state, None, load_error, seq_step),
        starts_decoding(state, None, load_error, decode_step),
        starts_showing(state, None, load_error, show_step),
    ensures
        seq_step matches Step::Done((a, stop)) && a == state && stop == 0,
        decode_step matches Step::Done((b, stop)) && b == state && stop == 0,
        show_step matches Step::Done((c, stop)) && c == state && stop == 0,
{
}

/// Whether two decoders are the same one at different times.
pub open spec fn is_same_decoder(a: NvDecoder, b: NvDecoder) -> bool {
    a.codec_id == b.codec_id && a.ctx == b.ctx && a.parser == b.parser
}

/// A packet is fed to the decoder's own parser with its own bytes and its own timestamp, unless
/// an error is on record or there is no driver: then nothing is fed and that is reported.
pub proof fn packet_is_fed_to_the_parser(
    d: NvDecoder,
    packet: Packet,
    state: CallbackState,
    load_error: Option<String>,
    after: NvDecoder,
    r: Result<Call, Error>,
)
    requires
        feeds(d, packet, state, load_error, after, r),
        packet.data@.len() <= u64::MAX,
    ensures
        is_same_decoder(d, after),
        after.output_queue@ == d.output_queue@,
        !after.flushed,
        r is Ok <==> state.error is None && load_error is None,
        r matches Ok(call) ==> {
            &&& call matches Call::CuvidParseVideoData { parser, packet: fed, payload }
            &&& parser == d.parser
            &&& payload@ == packet.data@
            &&& fed.payload_size == payload@.len()
            &&& fed.has_payload <==> payload@.len() > 0
            &&& packet.pts matches Some(t) ==> fed.timestamp == t && fed.flags == 2
            &&& packet.pts is None ==> fed.timestamp == 0 && fed.flags == 0
        },
        state.error matches Some(first) ==> (r matches Err(e) && e@ == ErrorView::Other(first@)
            && after.due(state) is None),
        state.error is None ==> (load_error matches Some(why) ==> (r matches Err(e) && e@
            == ErrorView::Unsupported("nvidia: "@ + why@))),
{
}

/// Pictures come out once each and in the order in which they were shown, whether or not the
/// decoder had taken them over. An error that has come up since is reported before them, once,
/// and loses none of them.
pub proof fn pictures_come_out_in_order(
    d: NvDecoder,
    state: CallbackState,
    reply: Reply,
    d1: NvDecoder,
    state1: CallbackState,
    r: Result<(), Error>,
    d2: NvDecoder,
    state2: CallbackState,
    received: Result<Frame, Error>,
)
    requires
        has_fed(d, state, reply, d1, state1, r),
        hands_out(d1, state1, d2, state2, received),
    ensures
        is_same_decoder(d, d1),
        is_same_decoder(d1, d2),
        state2.decoder == state.decoder && state2.geometry == state.geometry && state2.error
            == state.error,
        r is Ok <==> reply.status == 0 && state.error is None,
        reply.status != 0 ==> (r matches Err(e) && e@ == ErrorView::Other(
            "cuvidParseVideoData failed: CUresult "@ + int_text(reply.status as int),
        )),
        reply.status == 0 ==> (state.error matches Some(first) ==> (r matches Err(e) && e@
            == ErrorView::Other(first@))),
        ({
            let shown = d.output_queue@ + state.frames@;
            let due = state.error is Some && !d.reported && reply.status != 0;
            &&& due ==> (received matches Err(e) && e@ == ErrorView::Other(state.error->0@)
                && d2.output_queue@ + state2.frames@ == shown && d2.reported)
            &&& !due && shown.len() > 0 ==> received == Ok::<Frame, Error>(Frame::Video(shown[0]))
                && d2.output_queue@ + state2.frames@ == shown.drop_first()
            &&& !due && shown.len() == 0 ==> (received matches Err(e) && (e@ is Eof <==> d.flushed)
                && (e@ is NeedMore <==> !d.flushed))
        }),
{
    assert("cuvidParseVideoData"@ + " failed: CUresult "@
        =~= "cuvidParseVideoData failed: CUresult "@) by {
        reveal_strlit("cuvidParseVideoData");
        reveal_strlit(" failed: CUresult ");
        reveal_strlit("cuvidParseVideoData failed: CUresult ");
    }
}

/// A stream is ended by a packet that says nothing else, on the decoder's own parser. What the
/// parser still shows comes out behind what was ready, and after that the stream is at its end
/// until it is fed again.
pub proof fn stream_ends_after_its_last_picture(
    d: NvDecoder,
    state: CallbackState,
    d1: NvDecoder,
    r: Result<Option<Call>, Error>,
    shown: CallbackState,
    d2: NvDecoder,
    state2: CallbackState,
    d3: NvDecoder,
    state3: CallbackState,
    received: Result<Frame, Error>,
)
    requires
        starts_to_end(d, state, true, d1, r),
        d.due(state) is None,
        has_ended(d1, shown, d2, state2),
        d2.due(state2) is None,
        hands_out(d2, state2, d3, state3, received),
    ensures
        is_same_decoder(d, d3),
        r matches Ok(Some(call)) && call matches Call::CuvidParseVideoData { parser, packet, payload }
            && parser == d.parser && packet.flags == 1 && packet.payload_size == 0
            && !packet.has_payload && packet.timestamp == 0 && payload@.len() == 0,
        ({
            let pictures = d.output_queue@ + shown.frames@;
            &&& pictures.len() > 0 ==> received == Ok::<Frame, Error>(Frame::Video(pictures[0]))
                && d3.output_queue@ + state3.frames@ == pictures.drop_first()
            &&& pictures.len() == 0 ==> (received matches Err(e) && e@ is Eof)
            &&& d3.flushed
        }),
{
}

/// An error on record when the stream is to end is reported instead, once, and the stream goes
/// on; without a driver there is nothing to call.
pub proof fn end_waits_for_the_error(
    d: NvDecoder,
    state: CallbackState,
    loaded: bool,
    d1: NvDecoder,
    r: Result<Option<Call>, Error>,
)
    requires
        starts_to_end(d, state, loaded, d1, r),
    ensures
        is_same_decoder(d, d1),
        d1.output_queue@ == d.output_queue@,
        d1.flushed == d.flushed,
        r is Err <==> state.error is Some && !d.reported,
        r matches Err(e) ==> e@ == ErrorView::Other(state.error->0@) && d1.due(state) is None,
        r is Ok && !loaded ==> r == Ok::<Option<Call>, Error>(None),
{
}

/// A decoder that cannot be made fails with the error of the call that failed, whatever is
/// undone after it: one that makes the pipeline fall back until there is a context, and after
/// that only where there is no usable driver or device.
pub proof fn failed_making_is_explained(
    run: Seq<(MakeDecoder, Reply)>,
    calls: Seq<Call>,
    out: Result<NvDecoder, Error>,
)
    requires
        is_making_by(run, calls, out),
    ensures
        out matches Err(error) ==> {
            let k = if run.len() == 6 {
                4
            } else {
                run.len() - 1
            };
            match reply_error(run[k].1) {
                Some(e) => error@ == (if k == 4 && !error_unavailable(e) {
                    ErrorView::Other("nvidia parser: "@ + error_line(e))
                } else {
                    ErrorView::Unsupported("nvidia: "@ + error_line(e))
                }),
                None => k == 1 && error@ is Unsupported,
            }
        },
{
    let last = run.len() - 1;
    lemma_making_by(run, calls, out, last);
    if last >= 1 {
        lemma_making_by(run, calls, out, last - 1);
        assert(leads_on_by(
            run,
            calls,
            |m: MakeDecoder, r: Reply, s: Step<MakeDecoder, Result<NvDecoder, Error>>|
                m.follows(r, s),
            last - 1,
        ));
    }
}

} // verus!

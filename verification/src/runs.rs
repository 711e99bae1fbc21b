//! What whole runs of an operation come to.

use vstd::prelude::*;
use crate::callback::{is_shown, DisplayCallback, DisplayStage, Handled};
use crate::decoder::{DecoderStage, MakeDecoder, NvDecoder};
use crate::device::{chosen_device, count_outcome, reply_error};
use crate::driver::{is_run, leads_on, Call, Reply, Step};
use crate::encoder::{is_packet, Encoded, FrameStage, SendFrame, Sent};
use crate::engine::{devices_have_their_entries, EngineInfo, EngineReport};
use crate::error::Error;
use crate::setup::{EncoderStage, Made, MakeEncoder, Session};

verus! {

/// A complete run of the making of a decoder.
pub open spec fn is_making(run: Seq<(MakeDecoder, Reply)>, out: Result<NvDecoder, Error>) -> bool {
    &&& is_run(
        run,
        |m: MakeDecoder, r: Reply, s: Step<MakeDecoder, Result<NvDecoder, Error>>|
            m.follows(r, s),
        out,
    )
    &&& run[0].0.stage is Init
}

proof fn lemma_making_position(
    run: Seq<(MakeDecoder, Reply)>,
    out: Result<NvDecoder, Error>,
    i: int,
)
    requires
        is_making(run, out),
        0 <= i < run.len(),
    ensures
        i <= 5,
        i < 5 ==> run[i].0.job == run[0].0.job,
        i == 1 ==> run[1].0.stage is Counting && reply_error(run[0].1) is None,
        i == 2 ==> (run[2].0.stage matches DecoderStage::Finding { ordinal, .. } && count_outcome(
            run[1].1,
        ) matches Ok(count) && chosen_device(run[0].0.job.device_index, count) == Ok::<
            u32,
            Seq<char>,
        >(ordinal as u32) && ordinal >= 0),
        i == 3 ==> (run[3].0.stage matches DecoderStage::Entering { device, .. } && device
            == run[2].1.number && reply_error(run[2].1) is None),
        i == 4 ==> (run[4].0.stage matches DecoderStage::Parsing { ctx, .. } && ctx.ctx
            == run[3].1.handle && reply_error(run[3].1) is None),
        i == 5 ==> run[5].0.stage is Closing && reply_error(run[4].1) is Some,
    decreases i,
{
    if i > 0 {
        lemma_making_position(run, out, i - 1);
        assert(leads_on(
            run,
            |m: MakeDecoder, r: Reply, s: Step<MakeDecoder, Result<NvDecoder, Error>>|
                m.follows(r, s),
            i - 1,
        ));
    }
}

/// A decoder is made if and only if five calls succeed: the driver comes up, it counts
/// enough devices for the one asked for, the device is found, a context is made on it
/// and a parser is made. The decoder then holds that context and that parser.
pub proof fn decoder_is_made_in_five_calls(
    run: Seq<(MakeDecoder, Reply)>,
    out: Result<NvDecoder, Error>,
)
    requires
        is_making(run, out),
    ensures
        run.len() <= 6,
        out is Ok <==> run.len() == 5 && reply_error(run[4].1) is None,
        out matches Ok(d) ==> {
            &&& reply_error(run[0].1) is None
            &&& count_outcome(run[1].1) matches Ok(count)
            &&& chosen_device(run[0].0.job.device_index, count) matches Ok(i)
            &&& run[2].0.stage matches DecoderStage::Finding { ordinal, .. }
            &&& ordinal == i
            &&& run[3].0.stage matches DecoderStage::Entering { device, .. }
            &&& device == run[2].1.number
            &&& d.codec_id@ == run[0].0.job.codec_id@
            &&& d.ctx.ctx == run[3].1.handle
            &&& d.parser == run[4].1.handle
        },
{
    let last = run.len() - 1;
    lemma_making_position(run, out, last);
    if last >= 1 {
        lemma_making_position(run, out, 1);
    }
    if last >= 2 {
        lemma_making_position(run, out, 2);
    }
    if last >= 3 {
        lemma_making_position(run, out, 3);
    }
    if last >= 4 {
        lemma_making_position(run, out, 4);
    }
}

/// A complete run of the showing of a picture.
pub open spec fn is_showing(run: Seq<(DisplayCallback, Reply)>, out: Handled) -> bool {
    &&& is_run(
        run,
        |m: DisplayCallback, r: Reply, s: Step<DisplayCallback, Handled>| m.follows(r, s),
        out,
    )
    &&& run[0].0.stage is Mapping
}

proof fn lemma_showing_position(run: Seq<(DisplayCallback, Reply)>, out: Handled, i: int)
    requires
        is_showing(run, out),
        0 <= i < run.len(),
    ensures
        i <= 4,
        run[i].0.info == run[0].0.info,
        !(run[i].0.stage is Failing) ==> run[i].0.state == run[0].0.state,
        i == 1 ==> run[0].1.status == 0 && run[1].0.stage == (DisplayStage::Syncing {
            surface: run[0].1.handle,
            pitch: run[0].1.pitch,
        }),
        i == 2 ==> (run[2].0.stage is Failing && run[1].1.status != 0) || (run[1].1.status == 0
            && run[2].0.stage == (DisplayStage::CopyingLuma {
            surface: run[0].1.handle,
            pitch: run[0].1.pitch,
        })),
        i == 3 ==> run[3].0.stage == (DisplayStage::CopyingChroma {
            surface: run[0].1.handle,
            pitch: run[0].1.pitch,
            luma_status: run[2].1.status,
            luma: run[2].1.bytes,
        }) && run[1].1.status == 0,
        i == 4 ==> run[4].0.stage == (DisplayStage::Unmapping {
            surface: run[0].1.handle,
            pitch: run[0].1.pitch,
            luma_status: run[2].1.status,
            luma: run[2].1.bytes,
            chroma_status: run[3].1.status,
            chroma: run[3].1.bytes,
        }) && run[1].1.status == 0,
    decreases i,
{
    if i > 0 {
        lemma_showing_position(run, out, i - 1);
        assert(leads_on(
            run,
            |m: DisplayCallback, r: Reply, s: Step<DisplayCallback, Handled>| m.follows(r, s),
            i - 1,
        ));
    }
}

/// A picture is shown if and only if it can be mapped, waited for and copied. What is
/// queued is then what the two copies brought, cut to what is shown; whether the
/// surface could be unmapped makes no difference.
pub proof fn picture_is_shown_as_copied(run: Seq<(DisplayCallback, Reply)>, out: Handled)
    requires
        is_showing(run, out),
    ensures
        run.len() <= 5,
        out.1 == 1 <==> (run.len() == 5 && run[2].1.status == 0 && run[3].1.status == 0),
        out.1 != 1 ==> out.1 == 0 && out.0.frames == run[0].0.state.frames,
        out.1 == 1 ==> {
            &&& run[0].1.status == 0
            &&& run[1].1.status == 0
            &&& out.0.frames@.drop_last() == run[0].0.state.frames@
            &&& is_shown(
                out.0.frames@.last(),
                run[2].1.bytes@,
                run[3].1.bytes@,
                run[0].1.pitch,
                run[0].0.state.geometry,
                run[0].0.info.timestamp,
            )
        },
{
    let last = run.len() - 1;
    lemma_showing_position(run, out, last);
    if last >= 1 {
        lemma_showing_position(run, out, 1);
    }
    if last == 2 && run[2].0.stage is Failing {
        assert(leads_on(
            run,
            |m: DisplayCallback, r: Reply, s: Step<DisplayCallback, Handled>| m.follows(r, s),
            1,
        ));
    }
}

/// A complete run of the making of an encoder.
pub open spec fn is_bring_up(run: Seq<(MakeEncoder, Reply)>, out: Made) -> bool {
    &&& is_run(run, |m: MakeEncoder, r: Reply, s: Step<MakeEncoder, Made>| m.follows(r, s), out)
    &&& run[0].0.stage is Init
}

/// Whether a session is the one that replies 3 to 5 of a run have brought.
pub open spec fn session_of(run: Seq<(MakeEncoder, Reply)>, session: Session) -> bool {
    &&& session.ctx.ctx == run[3].1.handle
    &&& session.fns == run[4].1.table
    &&& session.encoder == run[5].1.handle
}

/// Whether all has gone well before step `i` of a bring-up.
pub open spec fn on_track(run: Seq<(MakeEncoder, Reply)>, i: int) -> bool {
    &&& run[i].0.job == run[0].0.job
    &&& if i == 0 {
        run[0].0.stage is Init
    } else if i == 1 {
        run[1].0.stage is Counting
    } else if i == 2 {
        &&& run[2].0.stage matches EncoderStage::Finding { ordinal, .. }
        &&& count_outcome(run[1].1) matches Ok(count)
        &&& chosen_device(run[0].0.job.device_index, count) matches Ok(chosen)
        &&& ordinal == chosen
    } else if i == 3 {
        run[3].0.stage matches EncoderStage::Entering { device, .. } && device == run[2].1.number
    } else if i == 4 {
        run[4].0.stage matches EncoderStage::Table { ctx, .. } && ctx.ctx == run[3].1.handle
    } else if i == 5 {
        &&& run[5].0.stage matches EncoderStage::Opening { ctx, fns, .. }
        &&& ctx.ctx == run[3].1.handle
        &&& fns == run[4].1.table
    } else if i == 6 {
        run[6].0.stage matches EncoderStage::Preset { session } && session_of(run, session)
    } else if i == 7 {
        run[7].0.stage matches EncoderStage::Starting { session } && session_of(run, session)
    } else if i == 8 {
        run[8].0.stage matches EncoderStage::CreatingInput { session } && session_of(run, session)
    } else {
        &&& i == 9
        &&& run[9].0.stage matches EncoderStage::CreatingOutput { session, input }
        &&& session_of(run, session)
        &&& input == run[8].1.handle
    }
}

/// Whether a bring-up is on its way down.
pub open spec fn on_the_way_down(m: MakeEncoder) -> bool {
    m.stage is Closing || m.stage is Unwinding
}

proof fn lemma_bring_up_position(run: Seq<(MakeEncoder, Reply)>, out: Made, i: int)
    requires
        is_bring_up(run, out),
        0 <= i < run.len(),
    ensures
        on_track(run, i) || on_the_way_down(run[i].0),
        i > 0 && on_track(run, i) ==> on_track(run, i - 1) && (i <= 4 ==> reply_error(
            run[i - 1].1,
        ) is None) && (i > 4 ==> run[i - 1].1.status == 0),
    decreases i,
{
    if i > 0 {
        lemma_bring_up_position(run, out, i - 1);
        assert(leads_on(
            run,
            |m: MakeEncoder, r: Reply, s: Step<MakeEncoder, Made>| m.follows(r, s),
            i - 1,
        ));
    }
}

/// An encoder is made if and only if ten calls succeed, the last of which creates the
/// output buffer. It then holds the context, the table, the session and the buffers
/// that these calls brought, on the device that was asked for.
pub proof fn encoder_is_made_in_ten_calls(run: Seq<(MakeEncoder, Reply)>, out: Made)
    requires
        is_bring_up(run, out),
    ensures
        out is Ok <==> run.last().0.stage is CreatingOutput && run.last().1.status == 0,
        out matches Ok(e) ==> {
            &&& run.len() == 10
            &&& forall|i: int| 0 <= i < 4 ==> reply_error((#[trigger] run[i]).1) is None
            &&& forall|i: int| 4 <= i < 10 ==> (#[trigger] run[i]).1.status == 0
            &&& count_outcome(run[1].1) matches Ok(count)
            &&& chosen_device(run[0].0.job.device_index, count) matches Ok(chosen)
            &&& run[2].0.stage matches EncoderStage::Finding { ordinal, .. }
            &&& ordinal == chosen
            &&& e.codec_id@ == run[0].0.job.codec_id@
            &&& e.width == run[0].0.job.picture_width()
            &&& e.height == run[0].0.job.picture_height()
            &&& e.ctx.ctx == run[3].1.handle
            &&& e.fns == run[4].1.table
            &&& e.encoder == run[5].1.handle
            &&& e.input_buffer == run[8].1.handle
            &&& e.output_buffer == run[9].1.handle
        },
{
    let last = run.len() - 1;
    lemma_bring_up_position(run, out, last);
    if run[last].0.stage is CreatingOutput {
        assert(last == 9);
        lemma_bring_up_position(run, out, 8);
        lemma_bring_up_position(run, out, 7);
        lemma_bring_up_position(run, out, 6);
        lemma_bring_up_position(run, out, 5);
        lemma_bring_up_position(run, out, 4);
        lemma_bring_up_position(run, out, 3);
        lemma_bring_up_position(run, out, 2);
        lemma_bring_up_position(run, out, 1);
    }
}

/// A complete run of the encoding of a picture.
pub open spec fn is_encoding(run: Seq<(SendFrame, Reply)>, out: Sent) -> bool {
    &&& is_run(run, |m: SendFrame, r: Reply, s: Step<SendFrame, Sent>| m.follows(r, s), out)
    &&& run[0].0.stage is Locking
}

/// Whether all has gone well before step `i` of an encoding.
pub open spec fn frame_on_track(run: Seq<(SendFrame, Reply)>, i: int) -> bool {
    &&& run[i].0.job == run[0].0.job
    &&& if i == 0 {
        run[0].0.stage is Locking
    } else if i == 1 {
        &&& run[1].0.stage is Reading
        &&& run[0].1.status == 0
    } else if i == 2 {
        run[2].0.stage is Writing
    } else if i == 3 {
        run[3].0.stage == (FrameStage::Unlocking { rejected: false })
    } else if i == 4 {
        run[4].0.stage is Encoding && run[3].1.status == 0
    } else if i == 5 {
        run[5].0.stage is LockingOutput && run[4].1.status == 0
    } else if i == 6 {
        run[6].0.stage is ReadingOutput && run[5].1.status == 0
    } else {
        &&& i == 7
        &&& run[7].0.stage matches FrameStage::UnlockingOutput { data }
        &&& data@ == run[6].1.bytes@
    }
}

/// Whether an encoding can bring no packet any more: the picture was refused, a call
/// has failed, or there is nothing to read.
pub open spec fn without_packet(m: SendFrame) -> bool {
    match m.stage {
        FrameStage::Asking { .. } => true,
        FrameStage::Unlocking { rejected } => rejected,
        FrameStage::UnlockingOutput { data } => data@.len() == 0,
        _ => false,
    }
}

proof fn lemma_encoding_position(run: Seq<(SendFrame, Reply)>, out: Sent, i: int)
    requires
        is_encoding(run, out),
        0 <= i < run.len(),
    ensures
        frame_on_track(run, i) || without_packet(run[i].0),
        i > 0 && frame_on_track(run, i) && !without_packet(run[i].0) ==> frame_on_track(run, i - 1),
    decreases i,
{
    if i > 0 {
        lemma_encoding_position(run, out, i - 1);
        assert(leads_on(
            run,
            |m: SendFrame, r: Reply, s: Step<SendFrame, Sent>| m.follows(r, s),
            i - 1,
        ));
    }
}

/// A picture that is encoded makes exactly one packet: with the timestamp of the
/// picture, and with the bytes that were read from the output buffer, all of them.
/// Every call on the way has succeeded.
pub proof fn packet_holds_what_was_read(run: Seq<(SendFrame, Reply)>, out: Sent)
    requires
        is_encoding(run, out),
    ensures
        out matches Ok(Encoded::Packet(p)) ==> {
            &&& run.len() == 8
            &&& run[0].1.status == 0
            &&& run[3].1.status == 0
            &&& run[4].1.status == 0
            &&& run[5].1.status == 0
            &&& run[7].1.status == 0
            &&& run[6].1.bytes@.len() > 0
            &&& is_packet(p, run[0].0.job, run[6].1.bytes@)
        },
{
    let last = run.len() - 1;
    lemma_encoding_position(run, out, last);
    if out matches Ok(Encoded::Packet(p)) {
        assert(last == 7);
        lemma_encoding_position(run, out, 6);
        lemma_encoding_position(run, out, 5);
        lemma_encoding_position(run, out, 4);
        lemma_encoding_position(run, out, 3);
        lemma_encoding_position(run, out, 2);
        lemma_encoding_position(run, out, 1);
    }
}

/// Whether nothing goes wrong in an encoding: the picture has three planes, the entry
/// points are there, every call succeeds and there is something to read.
pub open spec fn goes_well(run: Seq<(SendFrame, Reply)>) -> bool {
    let fns = run[0].0.job.fns;
    &&& run[0].0.stage matches FrameStage::Locking { planes }
    &&& planes@.len() >= 3
    &&& fns.nv_enc_unlock_input_buffer != 0
    &&& fns.nv_enc_encode_picture != 0
    &&& fns.nv_enc_lock_bitstream != 0
    &&& fns.nv_enc_unlock_bitstream != 0
    &&& forall|i: int|
        0 <= i < run.len() ==> {
            &&& (#[trigger] run[i]).1.status == 0
            &&& run[i].0.stage is LockingOutput ==> run[i].1.size > 0 && run[i].1.handle != 0
            &&& run[i].0.stage is ReadingOutput ==> run[i].1.bytes@.len() > 0
        }
}

proof fn lemma_good_position(run: Seq<(SendFrame, Reply)>, out: Sent, i: int)
    requires
        is_encoding(run, out),
        goes_well(run),
        0 <= i < run.len(),
    ensures
        frame_on_track(run, i),
        !without_packet(run[i].0),
    decreases i,
{
    if i > 0 {
        lemma_good_position(run, out, i - 1);
        assert(leads_on(
            run,
            |m: SendFrame, r: Reply, s: Step<SendFrame, Sent>| m.follows(r, s),
            i - 1,
        ));
        assert(run[i - 1].1.status == 0);
    }
}

/// A picture in whose encoding nothing goes wrong makes a packet.
pub proof fn good_picture_makes_a_packet(run: Seq<(SendFrame, Reply)>, out: Sent)
    requires
        is_encoding(run, out),
        goes_well(run),
    ensures
        out matches Ok(Encoded::Packet(_)),
{
    let last = run.len() - 1;
    lemma_good_position(run, out, last);
    assert(run[last].1.status == 0);
}

/// A complete run of the probe of all devices.
pub open spec fn is_probing(run: Seq<(EngineInfo, Reply)>, out: EngineReport) -> bool {
    &&& is_run(
        run,
        |m: EngineInfo, r: Reply, s: Step<EngineInfo, EngineReport>| m.follows(r, s),
        out,
    )
    &&& run[0].0.stage is Init
    &&& run[0].0.devices@.len() == 0
    &&& run[0].0.next == 0
}

/// Whether step `k` of a probe looks up the device with ordinal `i`, after the entries
/// of those before it.
pub open spec fn looks_up(run: Seq<(EngineInfo, Reply)>, k: int, i: int) -> bool {
    &&& 0 <= k < run.len()
    &&& run[k].0.stage is Finding
    &&& run[k].0.devices@.len() == i
}

/// Whether a probe has looked up the device with ordinal `i` by step `p`.
pub open spec fn looked_up(run: Seq<(EngineInfo, Reply)>, p: int, i: int) -> bool {
    exists|k: int| k <= p && #[trigger] looks_up(run, k, i)
}

proof fn lemma_probing_position(run: Seq<(EngineInfo, Reply)>, out: EngineReport, p: int)
    requires
        is_probing(run, out),
        0 <= p < run.len(),
    ensures
        run[p].0.valid(),
        p == 1 ==> run[1].0.stage is Counting,
        p >= 1 ==> reply_error(run[0].1) is None,
        p >= 2 ==> {
            &&& run[p].0.stage is Finding || run[p].0.stage is Probing
            &&& count_outcome(run[1].1) == Ok::<u32, (i32, Seq<char>)>(run[p].0.count)
            &&& forall|i: int| 0 <= i < run[p].0.next ==> #[trigger] looked_up(run, p, i)
        },
    decreases p,
{
    if p > 0 {
        lemma_probing_position(run, out, p - 1);
        let follows = |m: EngineInfo, r: Reply, s: Step<EngineInfo, EngineReport>| m.follows(r, s);
        assert(leads_on(run, follows, p - 1));
        let call = choose|call: Call| #[trigger] follows(
            run[p - 1].0,
            run[p - 1].1,
            Step::Call(call, run[p].0),
        );
        devices_have_their_entries(run[p - 1].0, run[p - 1].1, Step::Call(call, run[p].0));
        if p >= 2 {
            assert forall|i: int| 0 <= i < run[p].0.next implies #[trigger] looked_up(
                run,
                p,
                i,
            ) by {
                if p > 2 && i < run[p - 1].0.next {
                    assert(looked_up(run, p - 1, i));
                    let k = choose|k: int| k <= p - 1 && #[trigger] looks_up(run, k, i);
                    assert(looks_up(run, k, i));
                } else {
                    assert(looks_up(run, p, i));
                }
            }
        }
    }
}

/// Where the driver comes up and counts the devices, there is an entry for each of
/// them, whatever else fails: the entry at place `i` is the one that is made after the
/// device with ordinal `i` has been looked up. Otherwise there is none.
pub proof fn every_device_is_reported(run: Seq<(EngineInfo, Reply)>, out: EngineReport)
    requires
        is_probing(run, out),
    ensures
        run.len() >= 2 ==> match count_outcome(run[1].1) {
            Ok(count) => {
                &&& out.devices@.len() == count
                &&& forall|i: int|
                    0 <= i < count ==> #[trigger] looked_up(run, run.len() - 1, i)
            },
            Err(_) => out.devices@.len() == 0,
        },
        run.len() < 2 ==> reply_error(run[0].1) is Some && out.devices@.len() == 0,
{
    let last = run.len() - 1;
    lemma_probing_position(run, out, last);
    devices_have_their_entries(run[last].0, run[last].1, Step::Done(out));
}

} // verus!

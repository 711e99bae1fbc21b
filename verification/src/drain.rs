//! The end of an encoded stream: it is announced to the session, which then hands out
//! the pictures that it has kept back.

use std::collections::VecDeque;
use vstd::prelude::*;
use crate::driver::{Call, Machine, Reply, Step};
use crate::encoder::{is_packet, FrameJob};
use crate::error::{Error, ErrorView};
use crate::frame::{Packet, TimeBase};
use crate::resource::{held_after, Resource};
use crate::setup::{
    can_ask, detail_of, map_nvenc_status, missing_slot, slot_error, status_text, take_detail,
};
use crate::sys::{
    NvEncLockBitstream, NvEncPicParams, NV_ENC_ERR_NEED_MORE_INPUT, NV_ENC_LOCK_BITSTREAM_VER,
    NV_ENC_PIC_FLAGS_EOS, NV_ENC_PIC_PARAMS_VER, NV_ENC_SUCCESS,
};

verus! {

/// How far the end of a stream has come.
pub enum DrainStage {
    /// The end has been announced.
    Ending,
    /// The output buffer is being locked.
    Locking,
    /// The compressed data is being fetched.
    Reading,
    /// The output buffer is being unlocked.
    Unlocking { data: Vec<u8> },
    /// A call has failed; the driver is asked for its own words.
    Asking { op: String, status: i32 },
}

/// Ends a stream.
pub struct DrainEncoder {
    /// The session. Its timestamp is for a packet that belongs to no picture.
    pub job: FrameJob,
    /// The timestamps of the pictures that the session has kept back and not handed out
    /// yet.
    pub kept_back: VecDeque<i64>,
    /// The packets that have come out.
    pub packets: VecDeque<Packet>,
    pub stage: DrainStage,
}

/// What the end of a stream has brought: packets in any case, and whether it went well.
pub struct Drained {
    pub packets: VecDeque<Packet>,
    pub result: Result<(), Error>,
}

/// Where the end of a stream stands.
#[verifier::ext_equal]
pub struct DrainView {
    pub job: FrameJob,
    pub kept_back: Seq<i64>,
    pub packets: Seq<Packet>,
}

impl View for DrainEncoder {
    type V = DrainView;

    open spec fn view(&self) -> DrainView {
        DrainView { job: self.job, kept_back: self.kept_back@, packets: self.packets@ }
    }
}

/// The picture that announces the end: it has no contents, only the mark.
pub open spec fn end_params() -> NvEncPicParams {
    NvEncPicParams {
        version: NV_ENC_PIC_PARAMS_VER,
        input_width: 0,
        input_height: 0,
        input_pitch: 0,
        encode_pic_flags: NV_ENC_PIC_FLAGS_EOS,
        frame_idx: 0,
        input_time_stamp: 0,
        input_duration: 0,
        input_buffer: 0,
        output_bitstream: 0,
        completion_event: 0,
        buffer_fmt: 0,
        picture_struct: 0,
        picture_type: 0,
    }
}

pub(crate) fn end_call(encoder: u64) -> (call: Call)
    ensures
        call == (Call::NvEncEncodePicture { encoder, params: end_params() }),
{
    let params = NvEncPicParams {
        version: NV_ENC_PIC_PARAMS_VER,
        input_width: 0,
        input_height: 0,
        input_pitch: 0,
        encode_pic_flags: NV_ENC_PIC_FLAGS_EOS,
        frame_idx: 0,
        input_time_stamp: 0,
        input_duration: 0,
        input_buffer: 0,
        output_bitstream: 0,
        completion_event: 0,
        buffer_fmt: 0,
        picture_struct: 0,
        picture_type: 0,
    };
    Call::NvEncEncodePicture { encoder, params }
}

/// The call that locks the output buffer.
pub open spec fn lock_call(job: FrameJob) -> Call {
    Call::NvEncLockBitstream {
        encoder: job.encoder,
        params: NvEncLockBitstream {
            version: NV_ENC_LOCK_BITSTREAM_VER,
            output_bitstream: job.output_buffer,
        },
    }
}

/// The packets that there are after a step.
pub open spec fn packets_after(step: Step<DrainEncoder, Drained>) -> Seq<Packet> {
    match step {
        Step::Call(_, m) => m.packets@,
        Step::Done(out) => out.packets@,
    }
}

/// The step that ends well.
pub open spec fn ends_well(step: Step<DrainEncoder, Drained>, v: DrainView) -> bool {
    step matches Step::Done(out) && out.packets@ == v.packets && out.result is Ok
}

/// The step that ends in an error.
pub open spec fn ends_badly(
    step: Step<DrainEncoder, Drained>,
    v: DrainView,
    e: ErrorView,
) -> bool {
    &&& step matches Step::Done(out)
    &&& out.packets@ == v.packets
    &&& out.result matches Err(error)
    &&& error@ == e
}

/// The step that makes a call and waits in the given stage.
pub open spec fn drains_on(
    step: Step<DrainEncoder, Drained>,
    v: DrainView,
    call: Call,
    stage: DrainStage,
) -> bool {
    &&& step matches Step::Call(c, next)
    &&& c == call
    &&& next@ == v
    &&& next.stage == stage
}

/// The step after call `op` has failed.
pub open spec fn complains(
    step: Step<DrainEncoder, Drained>,
    v: DrainView,
    op: Seq<char>,
    status: i32,
) -> bool {
    if can_ask(v.job.fns, v.job.encoder) {
        &&& step matches Step::Call(call, next)
        &&& call == (Call::NvEncGetLastErrorString { encoder: v.job.encoder })
        &&& next@ == v
        &&& next.stage matches DrainStage::Asking { op: asked, status: s }
        &&& asked@ == op
        &&& s == status
    } else {
        ends_badly(step, v, ErrorView::Other(status_text(op, status, Seq::empty())))
    }
}

/// The step that locks the output buffer.
pub open spec fn locks(step: Step<DrainEncoder, Drained>, v: DrainView) -> bool {
    if v.job.fns.nv_enc_lock_bitstream == 0 {
        ends_badly(step, v, slot_error("nvEncLockBitstream"@))
    } else {
        drains_on(step, v, lock_call(v.job), DrainStage::Locking)
    }
}

/// The step that unlocks the output buffer, with what was read from it.
pub open spec fn unlocks(
    step: Step<DrainEncoder, Drained>,
    v: DrainView,
    data: Seq<u8>,
) -> bool {
    if v.job.fns.nv_enc_unlock_bitstream == 0 {
        ends_badly(step, v, slot_error("nvEncUnlockBitstream"@))
    } else {
        &&& step matches Step::Call(call, next)
        &&& call == (Call::NvEncUnlockBitstream {
            encoder: v.job.encoder,
            buffer: v.job.output_buffer,
        })
        &&& next@ == v
        &&& next.stage matches DrainStage::Unlocking { data: read }
        &&& read@ == data
    }
}

/// The timestamp of the next packet: that of the first picture that was kept back.
pub open spec fn next_stamp(v: DrainView) -> i64 {
    if v.kept_back.len() > 0 {
        v.kept_back[0]
    } else {
        v.job.pts
    }
}

/// The timestamps that are left after the next packet.
pub open spec fn stamps_left(v: DrainView) -> Seq<i64> {
    if v.kept_back.len() > 0 {
        v.kept_back.drop_first()
    } else {
        v.kept_back
    }
}

impl DrainEncoder {
    /// Whether a call is the awaited one. Only where the compressed data lies is not
    /// fixed by the stage.
    pub open spec fn awaits(self, call: Call) -> bool {
        match self.stage {
            DrainStage::Ending => call == (Call::NvEncEncodePicture {
                encoder: self.job.encoder,
                params: end_params(),
            }),
            DrainStage::Locking => call == lock_call(self.job),
            DrainStage::Reading => call is ReadHost,
            DrainStage::Unlocking { .. } => call == (Call::NvEncUnlockBitstream {
                encoder: self.job.encoder,
                buffer: self.job.output_buffer,
            }),
            DrainStage::Asking { .. } => call == (Call::NvEncGetLastErrorString {
                encoder: self.job.encoder,
            }),
        }
    }

    /// What follows the reply to the awaited call. The output buffer is read until there
    /// is nothing in it, or all pictures have come out.
    pub open spec fn follows(self, reply: Reply, step: Step<DrainEncoder, Drained>) -> bool {
        let v = self@;
        match self.stage {
            DrainStage::Ending => if reply.status == NV_ENC_ERR_NEED_MORE_INPUT {
                ends_well(step, v)
            } else if reply.status != 0 {
                complains(step, v, "nvEncEncodePicture"@, reply.status)
            } else {
                locks(step, v)
            },
            DrainStage::Locking => if reply.status != 0 {
                complains(step, v, "nvEncLockBitstream"@, reply.status)
            } else if reply.size > 0 && reply.handle != 0 {
                drains_on(
                    step,
                    v,
                    Call::ReadHost { address: reply.handle, len: reply.size },
                    DrainStage::Reading,
                )
            } else {
                unlocks(step, v, Seq::empty())
            },
            DrainStage::Reading => unlocks(step, v, reply.bytes@),
            DrainStage::Unlocking { data } => if reply.status != 0 {
                complains(step, v, "nvEncUnlockBitstream"@, reply.status)
            } else if data@.len() == 0 {
                ends_well(step, v)
            } else {
                let packets = packets_after(step);
                let after = DrainView { kept_back: stamps_left(v), packets, ..v };
                &&& packets.len() == v.packets.len() + 1
                &&& packets.drop_last() == v.packets
                &&& is_packet(packets.last(), FrameJob { pts: next_stamp(v), ..v.job }, data@)
                &&& if after.kept_back.len() > 0 {
                    locks(step, after)
                } else {
                    ends_well(step, after)
                }
            },
            DrainStage::Asking { op, status } => ends_badly(
                step,
                v,
                ErrorView::Other(status_text(op@, status, detail_of(reply))),
            ),
        }
    }

    fn end_well(self) -> (step: Step<Self, Drained>)
        ensures
            ends_well(step, self@),
    {
        Step::Done(Drained { packets: self.packets, result: Ok(()) })
    }

    fn end_badly(self, e: Error) -> (step: Step<Self, Drained>)
        ensures
            ends_badly(step, self@, e@),
    {
        Step::Done(Drained { packets: self.packets, result: Err(e) })
    }

    fn complain(self, op: &str, status: i32) -> (step: Step<Self, Drained>)
        ensures
            complains(step, self@, op@, status),
    {
        if self.job.fns.nv_enc_get_last_error_string != 0 && self.job.encoder != 0 {
            Step::Call(
                Call::NvEncGetLastErrorString { encoder: self.job.encoder },
                DrainEncoder {
                    stage: DrainStage::Asking { op: String::from_str(op), status },
                    ..self
                },
            )
        } else {
            proof {
                reveal_strlit("");
                assert(""@ =~= Seq::<char>::empty());
            }
            self.end_badly(map_nvenc_status(op, status, ""))
        }
    }

    fn lock(self) -> (step: Step<Self, Drained>)
        ensures
            locks(step, self@),
    {
        if self.job.fns.nv_enc_lock_bitstream == 0 {
            return self.end_badly(missing_slot("nvEncLockBitstream"));
        }
        let params = NvEncLockBitstream {
            version: NV_ENC_LOCK_BITSTREAM_VER,
            output_bitstream: self.job.output_buffer,
        };
        Step::Call(
            Call::NvEncLockBitstream { encoder: self.job.encoder, params },
            DrainEncoder { stage: DrainStage::Locking, ..self },
        )
    }

    fn unlock(self, data: Vec<u8>) -> (step: Step<Self, Drained>)
        ensures
            unlocks(step, self@, data@),
    {
        if self.job.fns.nv_enc_unlock_bitstream == 0 {
            return self.end_badly(missing_slot("nvEncUnlockBitstream"));
        }
        Step::Call(
            Call::NvEncUnlockBitstream {
                encoder: self.job.encoder,
                buffer: self.job.output_buffer,
            },
            DrainEncoder { stage: DrainStage::Unlocking { data }, ..self },
        )
    }
}

impl Machine for DrainEncoder {
    type Output = Drained;

    fn resume(self, reply: Reply) -> (step: Step<Self, Drained>)
        ensures
            self.follows(reply, step),
    {
        let ghost v = self@;
        let DrainEncoder { job, kept_back, packets, stage } = self;
        match stage {
            DrainStage::Ending => {
                let m = DrainEncoder { job, kept_back, packets, stage: DrainStage::Ending };
                if reply.status == NV_ENC_ERR_NEED_MORE_INPUT {
                    m.end_well()
                } else if reply.status != NV_ENC_SUCCESS {
                    m.complain("nvEncEncodePicture", reply.status)
                } else {
                    m.lock()
                }
            },
            DrainStage::Locking => {
                let m = DrainEncoder { job, kept_back, packets, stage: DrainStage::Locking };
                if reply.status != NV_ENC_SUCCESS {
                    m.complain("nvEncLockBitstream", reply.status)
                } else if reply.size > 0 && reply.handle != 0 {
                    Step::Call(
                        Call::ReadHost { address: reply.handle, len: reply.size },
                        DrainEncoder { stage: DrainStage::Reading, ..m },
                    )
                } else {
                    let nothing: Vec<u8> = Vec::new();
                    assert(nothing@ =~= Seq::empty());
                    m.unlock(nothing)
                }
            },
            DrainStage::Reading => {
                let m = DrainEncoder { job, kept_back, packets, stage: DrainStage::Reading };
                m.unlock(reply.bytes)
            },
            DrainStage::Unlocking { data } => {
                let mut kept_back = kept_back;
                let mut packets = packets;
                if reply.status != NV_ENC_SUCCESS {
                    let m = DrainEncoder { job, kept_back, packets, stage: DrainStage::Locking };
                    return m.complain("nvEncUnlockBitstream", reply.status);
                }
                if data.len() == 0 {
                    let m = DrainEncoder { job, kept_back, packets, stage: DrainStage::Locking };
                    return m.end_well();
                }
                let pts: i64 = match kept_back.pop_front() {
                    Some(t) => t,
                    None => job.pts,
                };
                assert(kept_back@ =~= stamps_left(v));
                let time_base = TimeBase { num: job.fr_den as i64, den: job.fr_num as i64 };
                packets.push_back(Packet::new(0, time_base, data).with_pts(pts));
                assert(packets@.drop_last() =~= v.packets);
                let more = kept_back.len() > 0;
                let m = DrainEncoder { job, kept_back, packets, stage: DrainStage::Locking };
                if more {
                    m.lock()
                } else {
                    m.end_well()
                }
            },
            DrainStage::Asking { op, status } => {
                let detail = take_detail(reply);
                let m = DrainEncoder { job, kept_back, packets, stage: DrainStage::Locking };
                m.end_badly(map_nvenc_status(op.as_str(), status, detail.as_str()))
            },
        }
    }
}

impl DrainEncoder {
    /// The lock that is held.
    pub open spec fn held(self) -> Set<Resource> {
        let output = Resource::LockedOutput {
            encoder: self.job.encoder,
            buffer: self.job.output_buffer,
        };
        match self.stage {
            DrainStage::Reading => set![output],
            DrainStage::Unlocking { .. } => set![output],
            _ => Set::empty(),
        }
    }

    /// The timestamps that have come out, then those that are still to come.
    pub open spec fn stamps(self) -> Seq<Option<i64>> {
        self.packets@.map_values(|p: Packet| p.pts) + self.kept_back@.map_values(
            |t: i64| Some(t),
        )
    }
}

/// The end of a stream is announced once: no later call submits a picture.
pub proof fn end_is_announced_once(
    m: DrainEncoder,
    reply: Reply,
    step: Step<DrainEncoder, Drained>,
)
    requires
        m.follows(reply, step),
    ensures
        step matches Step::Call(call, next) ==> next.awaits(call) && !(next.stage is Ending)
            && !(call is NvEncEncodePicture),
{
}

/// An output buffer that is locked at the end of a stream is unlocked again, whatever
/// fails on the way, as long as there is an entry point for that.
pub proof fn drained_buffer_is_unlocked(
    m: DrainEncoder,
    call: Call,
    reply: Reply,
    step: Step<DrainEncoder, Drained>,
)
    requires
        m.awaits(call),
        m.follows(reply, step),
        m.job.fns.nv_enc_unlock_bitstream != 0,
    ensures
        match step {
            Step::Call(_, next) => {
                &&& next.job == m.job
                &&& next.held() =~= held_after(m.held(), call, reply)
            },
            Step::Done(_) => held_after(m.held(), call, reply) =~= Set::empty(),
        },
{
}

/// No packet that has come out is lost, whether or not the rest goes well. A picture
/// that was kept back gets its own timestamp, in the order in which pictures came in.
pub proof fn drained_packets_keep_their_timestamps(
    m: DrainEncoder,
    reply: Reply,
    step: Step<DrainEncoder, Drained>,
)
    requires
        m.follows(reply, step),
    ensures
        m.packets@.is_prefix_of(packets_after(step)),
        m.kept_back@.len() > 0 ==> (step matches Step::Call(_, next) ==> next.stamps()
            =~= m.stamps()),
        m.kept_back@.len() > 0 ==> packets_after(step).map_values(
            |p: Packet| p.pts,
        ).is_prefix_of(m.stamps()),
{
    let after = packets_after(step);
    if after.len() == m.packets@.len() + 1 {
        assert(after.drop_last().is_prefix_of(after));
        assert(after =~= m.packets@.push(after.last()));
        if m.kept_back@.len() > 0 {
            assert(after.last().pts == Some(m.kept_back@[0]));
            assert(after.map_values(|p: Packet| p.pts) =~= m.stamps().take(after.len() as int));
        }
    } else if m.kept_back@.len() > 0 {
        assert(after.map_values(|p: Packet| p.pts) =~= m.stamps().take(after.len() as int));
    }
}

/// The end of a stream goes well where no call fails and the entry points are there.
pub proof fn drain_without_failure_ends_well(
    m: DrainEncoder,
    reply: Reply,
    step: Step<DrainEncoder, Drained>,
)
    requires
        m.follows(reply, step),
        !(m.stage is Asking),
        reply.status == 0,
        m.job.fns.nv_enc_lock_bitstream != 0,
        m.job.fns.nv_enc_unlock_bitstream != 0,
    ensures
        match step {
            Step::Call(_, next) => !(next.stage is Asking) && next.job == m.job,
            Step::Done(out) => out.result is Ok,
        },
{
}

} // verus!

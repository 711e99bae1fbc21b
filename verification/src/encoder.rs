//! Encoders: one session, one input buffer, one output buffer and a queue of packets.

use std::collections::VecDeque;
use vstd::prelude::*;
use crate::device::{Cuda, CudaContext};
use crate::drain::{
    drains_on, end_call, end_params, ends_badly, DrainEncoder, DrainStage, DrainView, Drained,
};
use crate::driver::{Call, Machine, Reply, Step};
use crate::error::{Error, ErrorView};
use crate::frame::{CodecParameters, Frame, Packet, PacketFlags, TimeBase, VideoPlane};
use crate::nv12::{from_i420, half, half_up, with_picture};
use crate::queue::received;
use crate::resource::{held_after, held_after_all, only, Resource};
use crate::setup::{
    can_ask, detail_of, encoder_held, map_nvenc_status, missing_slot, slot_error, status_text, take_detail,
    EncoderJob, EncoderStage, Made, MakeEncoder,
};
use crate::sys::{
    is_h264, is_h264_high, is_hevc, is_hevc_main, nv_enc_codec_h264_guid, nv_enc_codec_hevc_guid,
    nv_enc_h264_profile_high_guid, nv_enc_hevc_profile_main_guid, Guid, NvEncLockBitstream,
    NvEncLockInputBuffer, NvEncPicParams, NvEncodeApiFunctionList, NV_ENC_BUFFER_FORMAT_NV12,
    NV_ENC_ERR_NEED_MORE_INPUT, NV_ENC_LOCK_BITSTREAM_VER, NV_ENC_LOCK_INPUT_BUFFER_VER,
    NV_ENC_PIC_PARAMS_VER, NV_ENC_PIC_STRUCT_FRAME, NV_ENC_SUCCESS,
};

verus! {

/// An encoder for one stream.
pub struct NvEncoder {
    pub codec_id: String,
    pub cuda: Cuda,
    /// Current on the thread that made the encoder; outlives the session.
    pub ctx: CudaContext,
    /// The entry points of the encode library.
    pub fns: NvEncodeApiFunctionList,
    /// The session.
    pub encoder: u64,
    pub input_buffer: u64,
    pub output_buffer: u64,
    /// Packets that are ready.
    pub output_queue: VecDeque<Packet>,
    /// Timestamps of the pictures that the session has kept back.
    pub kept_back: VecDeque<i64>,
    pub output_params: CodecParameters,
    /// The timestamp of the next picture that comes without one.
    pub pts_counter: i64,
    pub width: u32,
    pub height: u32,
    pub fr_num: u32,
    pub fr_den: u32,
    /// Whether the stream has been ended.
    pub flushed: bool,
}

/// One picture on its way through a session.
#[derive(Copy, Clone)]
pub struct FrameJob {
    pub fns: NvEncodeApiFunctionList,
    pub encoder: u64,
    pub input_buffer: u64,
    pub output_buffer: u64,
    pub width: u32,
    pub height: u32,
    pub fr_num: u32,
    pub fr_den: u32,
    pub pts: i64,
    pub frame_idx: u32,
}

/// How far a picture has come.
pub enum FrameStage {
    /// The input buffer is being locked.
    Locking { planes: Vec<VideoPlane> },
    /// The contents of the input buffer are being fetched.
    Reading { address: u64, pitch: u32, y: VideoPlane, u: VideoPlane, v: VideoPlane },
    /// The picture is being put into the input buffer.
    Writing,
    /// The input buffer is being unlocked; the picture may have been no good.
    Unlocking { rejected: bool },
    Encoding,
    /// The output buffer is being locked.
    LockingOutput,
    /// The compressed data is being fetched.
    ReadingOutput,
    /// The output buffer is being unlocked.
    UnlockingOutput { data: Vec<u8> },
    /// A call has failed; the driver is asked for its own words.
    Asking { op: String, status: i32 },
}

/// Encodes a picture.
pub struct SendFrame {
    pub job: FrameJob,
    pub stage: FrameStage,
}

/// What has become of a picture.
pub enum Encoded {
    /// A packet has come out.
    Packet(Packet),
    /// The session keeps the picture back until it has seen more.
    KeptBack { pts: i64 },
    /// Nothing has come out.
    Nothing,
}

/// The outcome for one picture.
pub type Sent = Result<Encoded, Error>;

/// The timestamp of a picture: its own, or the next in turn.
pub open spec fn stamp(pts: Option<i64>, counter: i64) -> i64 {
    match pts {
        Some(t) => t,
        None => counter,
    }
}

/// How a picture is submitted. The frame number and the time stamp keep the low bits
/// of numbers that are out of their range.
pub open spec fn picture_params(job: FrameJob) -> NvEncPicParams {
    NvEncPicParams {
        version: NV_ENC_PIC_PARAMS_VER,
        input_width: job.width,
        input_height: job.height,
        input_pitch: job.width,
        encode_pic_flags: 0,
        frame_idx: job.frame_idx,
        input_time_stamp: job.pts as u64,
        input_duration: if job.fr_den == 0 {
            1
        } else {
            job.fr_den as u64
        },
        input_buffer: job.input_buffer,
        output_bitstream: job.output_buffer,
        completion_event: 0,
        buffer_fmt: NV_ENC_BUFFER_FORMAT_NV12,
        picture_struct: NV_ENC_PIC_STRUCT_FRAME,
        picture_type: 0,
    }
}

/// Whether a packet holds the compressed data of a picture: it has the timestamp of
/// the picture, in ticks of one picture each.
pub open spec fn is_packet(p: Packet, job: FrameJob, data: Seq<u8>) -> bool {
    &&& p.stream_index == 0
    &&& p.time_base == (TimeBase { num: job.fr_den as i64, den: job.fr_num as i64 })
    &&& p.pts == Some(job.pts)
    &&& p.dts is None
    &&& p.duration is None
    &&& p.flags == (PacketFlags {
        keyframe: false,
        header: false,
        corrupt: false,
        discard: false,
        unit_boundary: false,
    })
    &&& p.data@ == data
}

/// Rows of an input buffer: luma, then half as many of chroma.
pub open spec fn surface_rows(height: u32) -> u64 {
    (height + half_up(height as int)) as u64
}

/// The step that makes a call and waits in the given stage.
pub open spec fn goes_on(
    step: Step<SendFrame, Sent>,
    job: FrameJob,
    call: Call,
    stage: FrameStage,
) -> bool {
    step == Step::<SendFrame, Sent>::Call(call, SendFrame { job, stage })
}

/// The step after call `op` has failed.
pub open spec fn reports(
    step: Step<SendFrame, Sent>,
    job: FrameJob,
    op: Seq<char>,
    status: i32,
) -> bool {
    if can_ask(job.fns, job.encoder) {
        &&& step matches Step::Call(call, next)
        &&& call == (Call::NvEncGetLastErrorString { encoder: job.encoder })
        &&& next.job == job
        &&& next.stage matches FrameStage::Asking { op: asked, status: s }
        &&& asked@ == op
        &&& s == status
    } else {
        ends_in(step, ErrorView::Other(status_text(op, status, Seq::empty())))
    }
}

/// The step that ends in an error.
pub open spec fn ends_in(step: Step<SendFrame, Sent>, e: ErrorView) -> bool {
    step matches Step::Done(Err(error)) && error@ == e
}

/// The step that unlocks the input buffer.
pub open spec fn unlocks_input(
    step: Step<SendFrame, Sent>,
    job: FrameJob,
    rejected: bool,
) -> bool {
    if job.fns.nv_enc_unlock_input_buffer == 0 {
        ends_in(step, slot_error("nvEncUnlockInputBuffer"@))
    } else {
        goes_on(
            step,
            job,
            Call::NvEncUnlockInputBuffer { encoder: job.encoder, buffer: job.input_buffer },
            FrameStage::Unlocking { rejected },
        )
    }
}

/// The step that unlocks the output buffer, with what was read from it.
pub open spec fn unlocks_output(
    step: Step<SendFrame, Sent>,
    job: FrameJob,
    data: Seq<u8>,
) -> bool {
    if job.fns.nv_enc_unlock_bitstream == 0 {
        ends_in(step, slot_error("nvEncUnlockBitstream"@))
    } else {
        &&& step matches Step::Call(call, next)
        &&& call == (Call::NvEncUnlockBitstream {
            encoder: job.encoder,
            buffer: job.output_buffer,
        })
        &&& next.job == job
        &&& next.stage matches FrameStage::UnlockingOutput { data: read }
        &&& read@ == data
    }
}

impl SendFrame {
    /// Whether a call is the awaited one. Only what is written into the input buffer,
    /// and where, and where the compressed data lies, is not fixed by the stage.
    pub open spec fn awaits(self, call: Call) -> bool {
        let job = self.job;
        match self.stage {
            FrameStage::Locking { .. } => call == (Call::NvEncLockInputBuffer {
                encoder: job.encoder,
                params: NvEncLockInputBuffer {
                    version: NV_ENC_LOCK_INPUT_BUFFER_VER,
                    input_buffer: job.input_buffer,
                },
            }),
            FrameStage::Reading { address, pitch, .. } => call == (Call::ReadRows {
                address,
                pitch,
                rows: surface_rows(job.height),
            }),
            FrameStage::Writing => call is WriteHost,
            FrameStage::Unlocking { .. } => call == (Call::NvEncUnlockInputBuffer {
                encoder: job.encoder,
                buffer: job.input_buffer,
            }),
            FrameStage::Encoding => call == (Call::NvEncEncodePicture {
                encoder: job.encoder,
                params: picture_params(job),
            }),
            FrameStage::LockingOutput => call == (Call::NvEncLockBitstream {
                encoder: job.encoder,
                params: NvEncLockBitstream {
                    version: NV_ENC_LOCK_BITSTREAM_VER,
                    output_bitstream: job.output_buffer,
                },
            }),
            FrameStage::ReadingOutput => call is ReadHost,
            FrameStage::UnlockingOutput { .. } => call == (Call::NvEncUnlockBitstream {
                encoder: job.encoder,
                buffer: job.output_buffer,
            }),
            FrameStage::Asking { .. } => call == (Call::NvEncGetLastErrorString {
                encoder: job.encoder,
            }),
        }
    }

    /// What follows the reply to the awaited call.
    pub open spec fn follows(self, reply: Reply, step: Step<SendFrame, Sent>) -> bool {
        let job = self.job;
        match self.stage {
            FrameStage::Locking { planes } => if reply.status != 0 {
                reports(step, job, "nvEncLockInputBuffer"@, reply.status)
            } else if planes@.len() < 3 {
                unlocks_input(step, job, true)
            } else {
                goes_on(
                    step,
                    job,
                    Call::ReadRows {
                        address: reply.handle,
                        pitch: reply.pitch,
                        rows: surface_rows(job.height),
                    },
                    FrameStage::Reading {
                        address: reply.handle,
                        pitch: reply.pitch,
                        y: planes@[0],
                        u: planes@[1],
                        v: planes@[2],
                    },
                )
            },
            FrameStage::Reading { address, pitch, y, u, v } => {
                &&& step matches Step::Call(call, next)
                &&& call matches Call::WriteHost { address: to, bytes }
                &&& to == address
                &&& bytes@ == with_picture(
                    reply.bytes@,
                    pitch as int,
                    job.width as int,
                    job.height as int,
                    y,
                    u,
                    v,
                )
                &&& next == (SendFrame { job, stage: FrameStage::Writing })
            },
            FrameStage::Writing => unlocks_input(step, job, false),
            FrameStage::Unlocking { rejected } => if rejected {
                ends_in(step, ErrorView::InvalidData("expected I420 frame with 3 planes"@))
            } else if reply.status != 0 {
                reports(step, job, "nvEncUnlockInputBuffer"@, reply.status)
            } else if job.fns.nv_enc_encode_picture == 0 {
                ends_in(step, slot_error("nvEncEncodePicture"@))
            } else {
                goes_on(
                    step,
                    job,
                    Call::NvEncEncodePicture {
                        encoder: job.encoder,
                        params: picture_params(job),
                    },
                    FrameStage::Encoding,
                )
            },
            FrameStage::Encoding => if reply.status == NV_ENC_ERR_NEED_MORE_INPUT {
                step == Step::<SendFrame, Sent>::Done(Ok(Encoded::KeptBack { pts: job.pts }))
            } else if reply.status != 0 {
                reports(step, job, "nvEncEncodePicture"@, reply.status)
            } else if job.fns.nv_enc_lock_bitstream == 0 {
                ends_in(step, slot_error("nvEncLockBitstream"@))
            } else {
                goes_on(
                    step,
                    job,
                    Call::NvEncLockBitstream {
                        encoder: job.encoder,
                        params: NvEncLockBitstream {
                            version: NV_ENC_LOCK_BITSTREAM_VER,
                            output_bitstream: job.output_buffer,
                        },
                    },
                    FrameStage::LockingOutput,
                )
            },
            FrameStage::LockingOutput => if reply.status != 0 {
                reports(step, job, "nvEncLockBitstream"@, reply.status)
            } else if reply.size > 0 && reply.handle != 0 {
                goes_on(
                    step,
                    job,
                    Call::ReadHost { address: reply.handle, len: reply.size },
                    FrameStage::ReadingOutput,
                )
            } else {
                unlocks_output(step, job, Seq::empty())
            },
            FrameStage::ReadingOutput => unlocks_output(step, job, reply.bytes@),
            FrameStage::UnlockingOutput { data } => if reply.status != 0 {
                reports(step, job, "nvEncUnlockBitstream"@, reply.status)
            } else if data@.len() == 0 {
                step == Step::<SendFrame, Sent>::Done(Ok(Encoded::Nothing))
            } else {
                step matches Step::Done(Ok(Encoded::Packet(p))) && is_packet(p, job, data@)
            },
            FrameStage::Asking { op, status } => ends_in(
                step,
                ErrorView::Other(status_text(op@, status, detail_of(reply))),
            ),
        }
    }

    /// Reports a call that has failed.
    fn report(job: FrameJob, op: &str, status: i32) -> (step: Step<Self, Sent>)
        ensures
            reports(step, job, op@, status),
    {
        if job.fns.nv_enc_get_last_error_string != 0 && job.encoder != 0 {
            Step::Call(
                Call::NvEncGetLastErrorString { encoder: job.encoder },
                SendFrame { job, stage: FrameStage::Asking { op: String::from_str(op), status } },
            )
        } else {
            proof {
                reveal_strlit("");
                assert(""@ =~= Seq::<char>::empty());
            }
            Step::Done(Err(map_nvenc_status(op, status, "")))
        }
    }

    fn unlock_input(job: FrameJob, rejected: bool) -> (step: Step<Self, Sent>)
        ensures
            unlocks_input(step, job, rejected),
    {
        if job.fns.nv_enc_unlock_input_buffer == 0 {
            Step::Done(Err(missing_slot("nvEncUnlockInputBuffer")))
        } else {
            Step::Call(
                Call::NvEncUnlockInputBuffer { encoder: job.encoder, buffer: job.input_buffer },
                SendFrame { job, stage: FrameStage::Unlocking { rejected } },
            )
        }
    }

    fn unlock_output(job: FrameJob, data: Vec<u8>) -> (step: Step<Self, Sent>)
        ensures
            unlocks_output(step, job, data@),
    {
        if job.fns.nv_enc_unlock_bitstream == 0 {
            Step::Done(Err(missing_slot("nvEncUnlockBitstream")))
        } else {
            Step::Call(
                Call::NvEncUnlockBitstream { encoder: job.encoder, buffer: job.output_buffer },
                SendFrame { job, stage: FrameStage::UnlockingOutput { data } },
            )
        }
    }
}

/// Submits a picture.
fn encode_call(job: FrameJob) -> (call: Call)
    ensures
        call == (Call::NvEncEncodePicture { encoder: job.encoder, params: picture_params(job) }),
{
    let input_duration: u64 = if job.fr_den == 0 {
        1
    } else {
        job.fr_den as u64
    };
    let params = NvEncPicParams {
        version: NV_ENC_PIC_PARAMS_VER,
        input_width: job.width,
        input_height: job.height,
        input_pitch: job.width,
        encode_pic_flags: 0,
        frame_idx: job.frame_idx,
        input_time_stamp: #[verifier::truncate] (job.pts as u64),
        input_duration,
        input_buffer: job.input_buffer,
        output_bitstream: job.output_buffer,
        completion_event: 0,
        buffer_fmt: NV_ENC_BUFFER_FORMAT_NV12,
        picture_struct: NV_ENC_PIC_STRUCT_FRAME,
        picture_type: 0,
    };
    Call::NvEncEncodePicture { encoder: job.encoder, params }
}

impl Machine for SendFrame {
    type Output = Sent;

    fn resume(self, reply: Reply) -> (step: Step<Self, Sent>)
        ensures
            self.follows(reply, step),
    {
        let SendFrame { job, stage } = self;
        match stage {
            FrameStage::Locking { planes } => {
                if reply.status != NV_ENC_SUCCESS {
                    return Self::report(job, "nvEncLockInputBuffer", reply.status);
                }
                if planes.len() < 3 {
                    return Self::unlock_input(job, true);
                }
                let mut planes = planes;
                let v = planes.remove(2);
                let u = planes.remove(1);
                let y = planes.remove(0);
                let (address, pitch) = (reply.handle, reply.pitch);
                let rows = job.height as u64 + half(job.height) as u64;
                Step::Call(
                    Call::ReadRows { address, pitch, rows },
                    SendFrame { job, stage: FrameStage::Reading { address, pitch, y, u, v } },
                )
            },
            FrameStage::Reading { address, pitch, y, u, v } => {
                let mut bytes = reply.bytes;
                from_i420(&mut bytes, pitch, job.width, job.height, &y, &u, &v);
                Step::Call(
                    Call::WriteHost { address, bytes },
                    SendFrame { job, stage: FrameStage::Writing },
                )
            },
            FrameStage::Writing => Self::unlock_input(job, false),
            FrameStage::Unlocking { rejected } => {
                if rejected {
                    return Step::Done(
                        Err(
                            Error::InvalidData(
                                String::from_str("expected I420 frame with 3 planes"),
                            ),
                        ),
                    );
                }
                if reply.status != NV_ENC_SUCCESS {
                    return Self::report(job, "nvEncUnlockInputBuffer", reply.status);
                }
                if job.fns.nv_enc_encode_picture == 0 {
                    return Step::Done(Err(missing_slot("nvEncEncodePicture")));
                }
                Step::Call(encode_call(job), SendFrame { job, stage: FrameStage::Encoding })
            },
            FrameStage::Encoding => {
                if reply.status == NV_ENC_ERR_NEED_MORE_INPUT {
                    return Step::Done(Ok(Encoded::KeptBack { pts: job.pts }));
                }
                if reply.status != NV_ENC_SUCCESS {
                    return Self::report(job, "nvEncEncodePicture", reply.status);
                }
                if job.fns.nv_enc_lock_bitstream == 0 {
                    return Step::Done(Err(missing_slot("nvEncLockBitstream")));
                }
                let params = NvEncLockBitstream {
                    version: NV_ENC_LOCK_BITSTREAM_VER,
                    output_bitstream: job.output_buffer,
                };
                Step::Call(
                    Call::NvEncLockBitstream { encoder: job.encoder, params },
                    SendFrame { job, stage: FrameStage::LockingOutput },
                )
            },
            FrameStage::LockingOutput => {
                if reply.status != NV_ENC_SUCCESS {
                    return Self::report(job, "nvEncLockBitstream", reply.status);
                }
                if reply.size > 0 && reply.handle != 0 {
                    return Step::Call(
                        Call::ReadHost { address: reply.handle, len: reply.size },
                        SendFrame { job, stage: FrameStage::ReadingOutput },
                    );
                }
                let nothing: Vec<u8> = Vec::new();
                assert(nothing@ =~= Seq::empty());
                Self::unlock_output(job, nothing)
            },
            FrameStage::ReadingOutput => Self::unlock_output(job, reply.bytes),
            FrameStage::UnlockingOutput { data } => {
                if reply.status != NV_ENC_SUCCESS {
                    return Self::report(job, "nvEncUnlockBitstream", reply.status);
                }
                if data.len() == 0 {
                    return Step::Done(Ok(Encoded::Nothing));
                }
                let time_base = TimeBase { num: job.fr_den as i64, den: job.fr_num as i64 };
                Step::Done(Ok(Encoded::Packet(Packet::new(0, time_base, data).with_pts(job.pts))))
            },
            FrameStage::Asking { op, status } => {
                let detail = take_detail(reply);
                Step::Done(Err(map_nvenc_status(op.as_str(), status, detail.as_str())))
            },
        }
    }
}

/// The calls that tear an encoder down: input buffer, output buffer, session, context.
/// Without a session there is only the context, and what has no entry point to destroy
/// it is left alone.
pub open spec fn close_calls(
    fns: NvEncodeApiFunctionList,
    encoder: u64,
    input: u64,
    output: u64,
    ctx: u64,
) -> Seq<Call> {
    let a = if encoder != 0 && input != 0 && fns.nv_enc_destroy_input_buffer != 0 {
        seq![Call::NvEncDestroyInputBuffer { encoder, buffer: input }]
    } else {
        Seq::empty()
    };
    let b = if encoder != 0 && output != 0 && fns.nv_enc_destroy_bitstream_buffer != 0 {
        a.push(Call::NvEncDestroyBitstreamBuffer { encoder, buffer: output })
    } else {
        a
    };
    let c = if encoder != 0 && fns.nv_enc_destroy_encoder != 0 {
        b.push(Call::NvEncDestroyEncoder { encoder })
    } else {
        b
    };
    if ctx != 0 {
        c.push(Call::CuCtxDestroy { ctx })
    } else {
        c
    }
}

/// What becomes of an encoder that is sent a picture: the picture gets its own timestamp or
/// the next in turn, and starts on its way by having the input buffer locked.
pub open spec fn sends(
    before: NvEncoder,
    frame: Frame,
    after: NvEncoder,
    step: Step<SendFrame, Sent>,
) -> bool {
    &&& before.same_stream(after)
    &&& after.flushed == before.flushed
    &&& after.output_queue == before.output_queue
    &&& after.kept_back == before.kept_back
    &&& if before.flushed {
        &&& after.pts_counter == before.pts_counter
        &&& ends_in(step, ErrorView::Eof)
    } else {
        match frame {
            Frame::Video(v) => {
                let pts = stamp(v.pts, before.pts_counter);
                let job = before.job(pts);
                &&& after.pts_counter == pts + 1
                &&& if before.fns.nv_enc_lock_input_buffer == 0 {
                    ends_in(step, slot_error("nvEncLockInputBuffer"@))
                } else {
                    &&& step matches Step::Call(call, m)
                    &&& m.awaits(call)
                    &&& m == (SendFrame { job, stage: FrameStage::Locking { planes: v.planes } })
                }
            },
            Frame::Other => {
                &&& after.pts_counter == before.pts_counter
                &&& ends_in(step, ErrorView::InvalidData("expected Video frame"@))
            },
        }
    }
}

/// What becomes of an encoder that is told the outcome for a picture: a packet is queued
/// behind those that are there, and a picture that was kept back is noted.
pub open spec fn takes_in(
    before: NvEncoder,
    sent: Sent,
    after: NvEncoder,
    r: Result<(), Error>,
) -> bool {
    &&& before.same_stream(after)
    &&& after.flushed == before.flushed
    &&& after.pts_counter == before.pts_counter
    &&& match sent {
        Ok(Encoded::Packet(p)) => {
            &&& r is Ok
            &&& after.output_queue@ == before.output_queue@.push(p)
            &&& after.kept_back == before.kept_back
        },
        Ok(Encoded::KeptBack { pts }) => {
            &&& r is Ok
            &&& after.output_queue == before.output_queue
            &&& after.kept_back@ == before.kept_back@.push(pts)
        },
        Ok(Encoded::Nothing) => r is Ok && after == before,
        Err(e) => r == Err::<(), Error>(e) && after == before,
    }
}

/// What becomes of an encoder that is asked for a packet: the first one is handed out.
pub open spec fn hands_out(before: NvEncoder, after: NvEncoder, r: Result<Packet, Error>) -> bool {
    &&& before.same_stream(after)
    &&& after.flushed == before.flushed
    &&& after.pts_counter == before.pts_counter
    &&& after.kept_back == before.kept_back
    &&& match received(before.output_queue@, before.flushed) {
        Ok(p) => {
            &&& r == Ok::<Packet, Error>(p)
            &&& after.output_queue@ == before.output_queue@.drop_first()
        },
        Err(e) => {
            &&& r matches Err(error)
            &&& error@ == e
            &&& after.output_queue@.len() == 0
        },
    }
}

/// What becomes of an encoder whose stream is ended: the end is announced and what was kept
/// back is drained, unless that has been done.
pub open spec fn ends(
    before: NvEncoder,
    after: NvEncoder,
    step: Step<DrainEncoder, Drained>,
) -> bool {
    &&& before.same_stream(after)
    &&& after.flushed
    &&& after.output_queue == before.output_queue
    &&& after.pts_counter == before.pts_counter
    &&& if before.flushed {
        &&& step matches Step::Done(out)
        &&& out.packets@.len() == 0
        &&& out.result is Ok
        &&& after.kept_back == before.kept_back
    } else {
        let v = DrainView {
            job: before.drain_job(),
            kept_back: before.kept_back@,
            packets: Seq::empty(),
        };
        &&& after.kept_back@.len() == 0
        &&& if before.fns.nv_enc_encode_picture == 0 {
            ends_badly(step, v, slot_error("nvEncEncodePicture"@))
        } else {
            drains_on(
                step,
                v,
                Call::NvEncEncodePicture { encoder: before.encoder, params: end_params() },
                DrainStage::Ending,
            )
        }
    }
}

/// What becomes of an encoder that is told what was drained: it is queued behind what is
/// there.
pub open spec fn takes_drained(
    before: NvEncoder,
    drained: Drained,
    after: NvEncoder,
    r: Result<(), Error>,
) -> bool {
    &&& before.same_stream(after)
    &&& after.flushed == before.flushed
    &&& after.pts_counter == before.pts_counter
    &&& after.kept_back == before.kept_back
    &&& after.output_queue@ == before.output_queue@ + drained.packets@
    &&& r == drained.result
}

impl NvEncoder {
    /// What stays as it is for the life of an encoder.
    pub open spec fn same_stream(self, other: NvEncoder) -> bool {
        &&& other.codec_id == self.codec_id
        &&& other.cuda == self.cuda
        &&& other.ctx == self.ctx
        &&& other.fns == self.fns
        &&& other.encoder == self.encoder
        &&& other.input_buffer == self.input_buffer
        &&& other.output_buffer == self.output_buffer
        &&& other.output_params == self.output_params
        &&& other.width == self.width
        &&& other.height == self.height
        &&& other.fr_num == self.fr_num
        &&& other.fr_den == self.fr_den
    }

    /// A picture with the given timestamp on its way through this session.
    pub open spec fn job(self, pts: i64) -> FrameJob {
        FrameJob {
            fns: self.fns,
            encoder: self.encoder,
            input_buffer: self.input_buffer,
            output_buffer: self.output_buffer,
            width: self.width,
            height: self.height,
            fr_num: self.fr_num,
            fr_den: self.fr_den,
            pts,
            frame_idx: (pts + 1) as u32,
        }
    }

    /// This session at the end of its stream. A packet that belongs to no picture gets
    /// the next timestamp in turn.
    pub open spec fn drain_job(self) -> FrameJob {
        FrameJob { pts: self.pts_counter, frame_idx: 0, ..self.job(self.pts_counter) }
    }

    /// Makes an encoder for a codec and a profile, known to the pipeline as `codec_id`.
    pub fn make_for(codec: Guid, profile: Guid, codec_id: &str, params: &CodecParameters) -> (step:
        Step<MakeEncoder, Made>)
        ensures
            starts(step, codec, profile, codec_id@, *params),
    {
        let job = EncoderJob {
            codec,
            profile,
            codec_id: String::from_str(codec_id),
            width: params.width,
            height: params.height,
            frame_rate: params.frame_rate,
            bit_rate: params.bit_rate,
            device_index: params.device_index,
        };
        Step::Call(Call::CuInit { flags: 0 }, MakeEncoder { job, stage: EncoderStage::Init })
    }

    /// Which codec is encoded.
    pub fn codec_id(&self) -> (id: &String)
        ensures
            *id == self.codec_id,
    {
        &self.codec_id
    }

    /// The parameters of the compressed stream.
    pub fn output_params(&self) -> (p: &CodecParameters)
        ensures
            *p == self.output_params,
    {
        &self.output_params
    }

    /// Starts to encode a picture. It gets the next timestamp in turn if it has none,
    /// and what comes next in turn is one more.
    pub fn send_frame(&mut self, frame: Frame) -> (step: Step<SendFrame, Sent>)
        requires
            frame matches Frame::Video(v) ==> (old(self).flushed || stamp(
                v.pts,
                old(self).pts_counter,
            ) < i64::MAX),
        ensures
            sends(*old(self), frame, *final(self), step),
    {
        if self.flushed {
            return Step::Done(Err(Error::Eof));
        }
        let picture = match frame {
            Frame::Video(v) => v,
            Frame::Other => {
                return Step::Done(
                    Err(Error::InvalidData(String::from_str("expected Video frame"))),
                );
            },
        };
        let pts: i64 = match picture.pts {
            Some(t) => t,
            None => self.pts_counter,
        };
        self.pts_counter = pts + 1;
        if self.fns.nv_enc_lock_input_buffer == 0 {
            return Step::Done(Err(missing_slot("nvEncLockInputBuffer")));
        }
        let job = FrameJob {
            fns: self.fns,
            encoder: self.encoder,
            input_buffer: self.input_buffer,
            output_buffer: self.output_buffer,
            width: self.width,
            height: self.height,
            fr_num: self.fr_num,
            fr_den: self.fr_den,
            pts,
            frame_idx: #[verifier::truncate] (self.pts_counter as u32),
        };
        let params = NvEncLockInputBuffer {
            version: NV_ENC_LOCK_INPUT_BUFFER_VER,
            input_buffer: self.input_buffer,
        };
        Step::Call(
            Call::NvEncLockInputBuffer { encoder: self.encoder, params },
            SendFrame { job, stage: FrameStage::Locking { planes: picture.planes } },
        )
    }

    /// Ends the encoding of a picture: queues the packet, or notes that there is none
    /// yet.
    pub fn finish_frame(&mut self, sent: Sent) -> (r: Result<(), Error>)
        ensures
            takes_in(*old(self), sent, *final(self), r),
    {
        match sent {
            Ok(Encoded::Packet(p)) => {
                self.output_queue.push_back(p);
                Ok(())
            },
            Ok(Encoded::KeptBack { pts }) => {
                self.kept_back.push_back(pts);
                Ok(())
            },
            Ok(Encoded::Nothing) => Ok(()),
            Err(e) => Err(e),
        }
    }

    /// Hands out the next packet.
    pub fn receive_packet(&mut self) -> (r: Result<Packet, Error>)
        ensures
            hands_out(*old(self), *final(self), r),
    {
        match self.output_queue.pop_front() {
            Some(p) => {
                assert(self.output_queue@ =~= old(self).output_queue@.drop_first());
                Ok(p)
            },
            None => Err(
                if self.flushed {
                    Error::Eof
                } else {
                    Error::NeedMore
                },
            ),
        }
    }

    /// Starts to end the stream: a picture that is marked as the end is submitted, and
    /// what the session has kept back is drained. A stream that has been ended before
    /// is left alone.
    pub fn flush(&mut self) -> (step: Step<DrainEncoder, Drained>)
        ensures
            ends(*old(self), *final(self), step),
    {
        let packets: VecDeque<Packet> = VecDeque::new();
        if self.flushed {
            return Step::Done(Drained { packets, result: Ok(()) });
        }
        self.flushed = true;
        let mut kept_back: VecDeque<i64> = VecDeque::new();
        kept_back.append(&mut self.kept_back);
        assert(kept_back@ =~= old(self).kept_back@);
        assert(packets@ =~= Seq::empty());
        if self.fns.nv_enc_encode_picture == 0 {
            return Step::Done(
                Drained { packets, result: Err(missing_slot("nvEncEncodePicture")) },
            );
        }
        let job = FrameJob {
            fns: self.fns,
            encoder: self.encoder,
            input_buffer: self.input_buffer,
            output_buffer: self.output_buffer,
            width: self.width,
            height: self.height,
            fr_num: self.fr_num,
            fr_den: self.fr_den,
            pts: self.pts_counter,
            frame_idx: 0,
        };
        Step::Call(
            end_call(self.encoder),
            DrainEncoder { job, kept_back, packets, stage: DrainStage::Ending },
        )
    }

    /// Ends the stream: queues the packets that have come out behind those that are
    /// there, and reports what went wrong.
    pub fn finish_flush(&mut self, drained: Drained) -> (r: Result<(), Error>)
        ensures
            takes_drained(*old(self), drained, *final(self), r),
    {
        let mut packets = drained.packets;
        self.output_queue.append(&mut packets);
        drained.result
    }

    /// Tears the encoder down: the calls to make, in this order.
    pub fn close(self) -> (calls: Vec<Call>)
        ensures
            calls@ == close_calls(
                self.fns,
                self.encoder,
                self.input_buffer,
                self.output_buffer,
                self.ctx.ctx,
            ),
    {
        let mut calls: Vec<Call> = Vec::new();
        let encoder = self.encoder;
        if encoder != 0 {
            if self.input_buffer != 0 && self.fns.nv_enc_destroy_input_buffer != 0 {
                calls.push(Call::NvEncDestroyInputBuffer { encoder, buffer: self.input_buffer });
            }
            if self.output_buffer != 0 && self.fns.nv_enc_destroy_bitstream_buffer != 0 {
                calls.push(
                    Call::NvEncDestroyBitstreamBuffer { encoder, buffer: self.output_buffer },
                );
            }
            if self.fns.nv_enc_destroy_encoder != 0 {
                calls.push(Call::NvEncDestroyEncoder { encoder });
            }
        }
        if let Some(call) = self.ctx.release() {
            calls.push(call);
        }
        calls
    }
}

/// The start of the making of an encoder.
pub open spec fn starts(
    step: Step<MakeEncoder, Made>,
    codec: Guid,
    profile: Guid,
    codec_id: Seq<char>,
    params: CodecParameters,
) -> bool {
    &&& step matches Step::Call(call, m)
    &&& m.awaits(call)
    &&& m.stage is Init
    &&& m.job.codec == codec
    &&& m.job.profile == profile
    &&& m.job.codec_id@ == codec_id
    &&& m.job.width == params.width
    &&& m.job.height == params.height
    &&& m.job.frame_rate == params.frame_rate
    &&& m.job.bit_rate == params.bit_rate
    &&& m.job.device_index == params.device_index
}

/// H.264.
pub struct H264NvEncoder;

/// HEVC.
pub struct HevcNvEncoder;

/// The start of the making of an H.264 encoder.
pub open spec fn starts_h264(step: Step<MakeEncoder, Made>, params: CodecParameters) -> bool {
    &&& step matches Step::Call(_, m)
    &&& is_h264(m.job.codec)
    &&& is_h264_high(m.job.profile)
    &&& starts(step, m.job.codec, m.job.profile, "h264"@, params)
}

impl H264NvEncoder {
    /// Makes an H.264 encoder, high profile.
    pub fn make(params: &CodecParameters) -> (step: Step<MakeEncoder, Made>)
        ensures
            starts_h264(step, *params),
    {
        NvEncoder::make_for(
            nv_enc_codec_h264_guid(),
            nv_enc_h264_profile_high_guid(),
            "h264",
            params,
        )
    }
}

/// The start of the making of an HEVC encoder.
pub open spec fn starts_hevc(step: Step<MakeEncoder, Made>, params: CodecParameters) -> bool {
    &&& step matches Step::Call(_, m)
    &&& is_hevc(m.job.codec)
    &&& is_hevc_main(m.job.profile)
    &&& starts(step, m.job.codec, m.job.profile, "hevc"@, params)
}

impl HevcNvEncoder {
    /// Makes an HEVC encoder, main profile.
    pub fn make(params: &CodecParameters) -> (step: Step<MakeEncoder, Made>)
        ensures
            starts_hevc(step, *params),
    {
        NvEncoder::make_for(
            nv_enc_codec_hevc_guid(),
            nv_enc_hevc_profile_main_guid(),
            "hevc",
            params,
        )
    }
}

impl SendFrame {
    /// The locks that are held.
    pub open spec fn held(self) -> Set<Resource> {
        let input = Resource::LockedInput {
            encoder: self.job.encoder,
            buffer: self.job.input_buffer,
        };
        let output = Resource::LockedOutput {
            encoder: self.job.encoder,
            buffer: self.job.output_buffer,
        };
        match self.stage {
            FrameStage::Reading { .. } => set![input],
            FrameStage::Writing => set![input],
            FrameStage::Unlocking { .. } => set![input],
            FrameStage::ReadingOutput => set![output],
            FrameStage::UnlockingOutput { .. } => set![output],
            _ => Set::empty(),
        }
    }
}

/// A buffer that is locked for a picture is unlocked again, whatever fails on the way
/// and whatever the picture is like, as long as there are entry points for that: when
/// the picture is done, no lock is held.
pub proof fn every_buffer_is_unlocked(
    m: SendFrame,
    call: Call,
    reply: Reply,
    step: Step<SendFrame, Sent>,
)
    requires
        m.awaits(call),
        m.follows(reply, step),
        m.job.fns.nv_enc_unlock_input_buffer != 0,
        m.job.fns.nv_enc_unlock_bitstream != 0,
    ensures
        match step {
            Step::Call(next_call, next) => {
                &&& next.job == m.job
                &&& next.awaits(next_call)
                &&& next.held() =~= held_after(m.held(), call, reply)
            },
            Step::Done(_) => held_after(m.held(), call, reply) =~= Set::empty(),
        },
{
}

/// A picture without a timestamp comes one tick after the picture before it.
pub proof fn untimed_pictures_count_up(pts: Option<i64>, counter: i64)
    requires
        stamp(pts, counter) < i64::MAX,
    ensures
        stamp(None, (stamp(pts, counter) + 1) as i64) == stamp(pts, counter) + 1,
{
}

/// What an encoder holds, without what is null.
pub open spec fn stream_held(encoder: u64, input: u64, output: u64, ctx: u64) -> Set<Resource> {
    only(encoder != 0 && input != 0, Resource::InputBuffer { encoder, buffer: input }).union(
        only(encoder != 0 && output != 0, Resource::OutputBuffer { encoder, buffer: output }),
    ).union(only(encoder != 0, Resource::Session { encoder })).union(
        only(ctx != 0, Resource::Context { ctx }),
    )
}

/// An encoder that is closed gives everything back, the session after its buffers and
/// the context last, as long as there are entry points for that.
pub proof fn closing_gives_everything_back(
    fns: NvEncodeApiFunctionList,
    encoder: u64,
    input: u64,
    output: u64,
    ctx: u64,
)
    requires
        fns.nv_enc_destroy_input_buffer != 0,
        fns.nv_enc_destroy_bitstream_buffer != 0,
        fns.nv_enc_destroy_encoder != 0,
    ensures
        held_after_all(
            stream_held(encoder, input, output, ctx),
            close_calls(fns, encoder, input, output, ctx),
        ) =~= Set::empty(),
        ctx != 0 ==> close_calls(fns, encoder, input, output, ctx).last() == (Call::CuCtxDestroy {
            ctx,
        }),
{
    reveal_with_fuel(held_after_all, 5);
    let none = NvEncodeApiFunctionList { nv_enc_destroy_encoder: 0, ..fns };
    let d = close_calls(fns, encoder, input, output, ctx);
    let c = close_calls(fns, encoder, input, output, 0);
    let b = close_calls(none, encoder, input, output, 0);
    let a = close_calls(none, encoder, input, 0, 0);
    if ctx != 0 {
        assert(d.drop_last() =~= c);
    }
    if encoder != 0 {
        assert(c.drop_last() =~= b);
        if output != 0 {
            assert(b.drop_last() =~= a);
        }
        if input != 0 {
            assert(a.drop_last() =~= Seq::empty());
        }
    }
}

/// An encoder that was made and is closed holds nothing any more, as long as the
/// driver gave it no null handles and there are entry points to give them back.
pub proof fn closed_encoder_holds_nothing(e: NvEncoder)
    requires
        e.encoder != 0,
        e.input_buffer != 0,
        e.output_buffer != 0,
        e.fns.nv_enc_destroy_input_buffer != 0,
        e.fns.nv_enc_destroy_bitstream_buffer != 0,
        e.fns.nv_enc_destroy_encoder != 0,
    ensures
        held_after_all(
            encoder_held(e),
            close_calls(e.fns, e.encoder, e.input_buffer, e.output_buffer, e.ctx.ctx),
        ) =~= Set::empty(),
{
    assert(encoder_held(e) =~= stream_held(
        e.encoder,
        e.input_buffer,
        e.output_buffer,
        e.ctx.ctx,
    ));
    closing_gives_everything_back(
        e.fns,
        e.encoder,
        e.input_buffer,
        e.output_buffer,
        e.ctx.ctx,
    );
}

} // verus!

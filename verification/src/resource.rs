//! What the driver has handed out and wants back.

use vstd::prelude::*;
use crate::driver::{Call, Reply};

verus! {

/// Something that a call of the driver creates and another one gives back.
pub enum Resource {
    Context { ctx: u64 },
    Parser { parser: u64 },
    Decoder { decoder: u64 },
    /// A picture of a decoder, mapped for reading.
    Surface { decoder: u64, frame: u64 },
    /// An encode session.
    Session { encoder: u64 },
    InputBuffer { encoder: u64, buffer: u64 },
    OutputBuffer { encoder: u64, buffer: u64 },
    /// An input buffer, locked for writing.
    LockedInput { encoder: u64, buffer: u64 },
    /// An output buffer, locked for reading.
    LockedOutput { encoder: u64, buffer: u64 },
}

/// One resource, if it is there.
pub open spec fn only(there: bool, r: Resource) -> Set<Resource> {
    if there {
        set![r]
    } else {
        Set::empty()
    }
}

/// What a call creates, by its reply. A null handle stands for nothing.
pub open spec fn acquired(call: Call, reply: Reply) -> Set<Resource> {
    let ok = reply.status == 0;
    let made = ok && reply.handle != 0;
    match call {
        Call::CuCtxCreate { .. } => only(
            made && reply.load_error is None,
            Resource::Context { ctx: reply.handle },
        ),
        Call::CuvidCreateVideoParser { .. } => only(
            made && reply.load_error is None,
            Resource::Parser { parser: reply.handle },
        ),
        Call::CuvidCreateDecoder { .. } => only(
            made,
            Resource::Decoder { decoder: reply.handle },
        ),
        Call::CuvidMapVideoFrame { decoder, .. } => only(
            ok,
            Resource::Surface { decoder, frame: reply.handle },
        ),
        Call::NvEncOpenEncodeSessionEx { .. } => only(
            ok,
            Resource::Session { encoder: reply.handle },
        ),
        Call::NvEncCreateInputBuffer { encoder, .. } => only(
            ok,
            Resource::InputBuffer { encoder, buffer: reply.handle },
        ),
        Call::NvEncCreateBitstreamBuffer { encoder, .. } => only(
            ok,
            Resource::OutputBuffer { encoder, buffer: reply.handle },
        ),
        Call::NvEncLockInputBuffer { encoder, params } => only(
            ok,
            Resource::LockedInput { encoder, buffer: params.input_buffer },
        ),
        Call::NvEncLockBitstream { encoder, params } => only(
            ok,
            Resource::LockedOutput { encoder, buffer: params.output_bitstream },
        ),
        _ => Set::empty(),
    }
}

/// What a call gives back, whatever its reply.
pub open spec fn released(call: Call) -> Set<Resource> {
    match call {
        Call::CuCtxDestroy { ctx } => set![Resource::Context { ctx }],
        Call::CuvidDestroyVideoParser { parser } => set![Resource::Parser { parser }],
        Call::CuvidDestroyDecoder { decoder } => set![Resource::Decoder { decoder }],
        Call::CuvidUnmapVideoFrame { decoder, frame } => set![Resource::Surface { decoder, frame }],
        Call::NvEncDestroyEncoder { encoder } => set![Resource::Session { encoder }],
        Call::NvEncDestroyInputBuffer { encoder, buffer } => set![
            Resource::InputBuffer { encoder, buffer },
        ],
        Call::NvEncDestroyBitstreamBuffer { encoder, buffer } => set![
            Resource::OutputBuffer { encoder, buffer },
        ],
        Call::NvEncUnlockInputBuffer { encoder, buffer } => set![
            Resource::LockedInput { encoder, buffer },
        ],
        Call::NvEncUnlockBitstream { encoder, buffer } => set![
            Resource::LockedOutput { encoder, buffer },
        ],
        _ => Set::empty(),
    }
}

/// What is held after a call.
pub open spec fn held_after(before: Set<Resource>, call: Call, reply: Reply) -> Set<Resource> {
    before.difference(released(call)).union(acquired(call, reply))
}

/// What is held after a list of calls that only give back.
pub open spec fn held_after_all(before: Set<Resource>, calls: Seq<Call>) -> Set<Resource>
    decreases calls.len(),
{
    if calls.len() == 0 {
        before
    } else {
        held_after_all(before, calls.drop_last()).difference(released(calls.last()))
    }
}

} // verus!

//! What the decode engine supports.

use vstd::prelude::*;
use crate::device::{check, reply_error, NvError};
use crate::driver::{Call, Machine, Reply, Step};
use crate::sys::{CUVIDDECODECAPS, CudaVideoCodec};

verus! {

/// What the decode engine can do with one codec, chroma format and bit depth.
#[derive(Debug, Clone, Copy, PartialEq, Eq, Structural)]
pub struct NvdecCaps {
    pub codec: i32,
    pub chroma_format: i32,
    pub bit_depth: u32,
    /// Not 0 if the combination is supported in hardware.
    pub is_supported: u8,
    /// How many engines can handle it.
    pub num_nvdecs: u8,
    /// Output surface formats, as a bit mask.
    pub output_format_mask: u16,
    pub max_width: u32,
    pub max_height: u32,
    /// Bound on `coded_width * coded_height / 256`.
    pub max_mb_count: u32,
    pub min_width: u16,
    pub min_height: u16,
    pub is_histogram_supported: u8,
    pub counter_bit_depth: u8,
    pub max_histogram_bins: u16,
}

/// The question to the driver: the bit depth is counted from 8 on, and everything
/// below counts as 8.
pub open spec fn caps_question(
    codec: CudaVideoCodec,
    chroma_format: u32,
    bit_depth: u32,
) -> CUVIDDECODECAPS {
    CUVIDDECODECAPS {
        e_codec_type: codec.number(),
        e_chroma_format: chroma_format as i32,
        n_bit_depth_minus_8: if bit_depth < 8 {
            0
        } else {
            (bit_depth - 8) as u32
        },
        ..CUVIDDECODECAPS::zeroed()
    }
}

/// The driver's answer; a bit depth past the range of 32 bits wraps.
pub open spec fn caps_answer(caps: CUVIDDECODECAPS) -> NvdecCaps {
    NvdecCaps {
        codec: caps.e_codec_type,
        chroma_format: caps.e_chroma_format,
        bit_depth: if caps.n_bit_depth_minus_8 + 8 > u32::MAX {
            (caps.n_bit_depth_minus_8 + 8 - 0x1_0000_0000) as u32
        } else {
            (caps.n_bit_depth_minus_8 + 8) as u32
        },
        is_supported: caps.b_is_supported,
        num_nvdecs: caps.n_num_nvdecs,
        output_format_mask: caps.n_output_format_mask,
        max_width: caps.n_max_width,
        max_height: caps.n_max_height,
        max_mb_count: caps.n_max_mb_count,
        min_width: caps.n_min_width,
        min_height: caps.n_min_height,
        is_histogram_supported: caps.b_is_histogram_supported,
        counter_bit_depth: caps.n_counter_bit_depth,
        max_histogram_bins: caps.n_max_histogram_bins,
    }
}

/// The capabilities that a reply holds.
pub open spec fn caps_outcome(reply: Reply) -> Result<NvdecCaps, (i32, Seq<char>)> {
    match reply_error(reply) {
        Some(e) => Err(e),
        None => Ok(caps_answer(reply.caps)),
    }
}

pub(crate) fn caps_call(codec: CudaVideoCodec, chroma_format: u32, bit_depth: u32) -> (call: Call)
    ensures
        call == (Call::CuvidGetDecoderCaps {
            caps: caps_question(codec, chroma_format, bit_depth),
        }),
{
    let caps = CUVIDDECODECAPS {
        e_codec_type: codec.as_i32(),
        e_chroma_format: chroma_format as i32,
        n_bit_depth_minus_8: bit_depth.saturating_sub(8),
        ..CUVIDDECODECAPS::default()
    };
    Call::CuvidGetDecoderCaps { caps }
}

pub(crate) fn finish_caps(reply: Reply) -> (r: Result<NvdecCaps, NvError>)
    ensures
        crate::device::seen(r) == caps_outcome(reply),
{
    match check(reply) {
        Ok(reply) => {
            let caps = reply.caps;
            Ok(
                NvdecCaps {
                    codec: caps.e_codec_type,
                    chroma_format: caps.e_chroma_format,
                    bit_depth: caps.n_bit_depth_minus_8.wrapping_add(8),
                    is_supported: caps.b_is_supported,
                    num_nvdecs: caps.n_num_nvdecs,
                    output_format_mask: caps.n_output_format_mask,
                    max_width: caps.n_max_width,
                    max_height: caps.n_max_height,
                    max_mb_count: caps.n_max_mb_count,
                    min_width: caps.n_min_width,
                    min_height: caps.n_min_height,
                    is_histogram_supported: caps.b_is_histogram_supported,
                    counter_bit_depth: caps.n_counter_bit_depth,
                    max_histogram_bins: caps.n_max_histogram_bins,
                },
            )
        },
        Err(e) => Err(e),
    }
}

/// Waits for capabilities.
pub struct QueryCaps {}

impl Machine for QueryCaps {
    type Output = Result<NvdecCaps, NvError>;

    fn resume(self, reply: Reply) -> (step: Step<Self, Result<NvdecCaps, NvError>>)
        ensures
            step matches Step::Done(r) && crate::device::seen(r) == caps_outcome(reply),
    {
        Step::Done(finish_caps(reply))
    }
}

/// Asks what the decode engine can do with a codec, a chroma format and a bit depth.
/// A context has to be current on the calling thread.
pub fn nvdec_caps(codec: CudaVideoCodec, chroma_format: u32, bit_depth: u32) -> (step: Step<
    QueryCaps,
    Result<NvdecCaps, NvError>,
>)
    ensures
        step == Step::<QueryCaps, Result<NvdecCaps, NvError>>::Call(
            Call::CuvidGetDecoderCaps { caps: caps_question(codec, chroma_format, bit_depth) },
            QueryCaps {  },
        ),
{
    Step::Call(caps_call(codec, chroma_format, bit_depth), QueryCaps {  })
}

/// A driver that echoes the question leaves the bit depth as it was asked for, from 8
/// bits on.
pub proof fn bit_depth_is_echoed(codec: CudaVideoCodec, chroma_format: u32, bit_depth: u32)
    requires
        bit_depth >= 8,
    ensures
        caps_answer(caps_question(codec, chroma_format, bit_depth)).bit_depth == bit_depth,
        caps_answer(caps_question(codec, chroma_format, bit_depth)).codec == codec.number(),
{
}

/// The decode engine is asked about the codec, the chroma format and the bit depth that the
/// caller names, counted from 8 bits on, and about nothing else.
pub proof fn question_is_the_callers(codec: CudaVideoCodec, chroma_format: u32, bit_depth: u32)
    requires
        chroma_format <= i32::MAX,
    ensures
        ({
            let q = caps_question(codec, chroma_format, bit_depth);
            &&& q.e_codec_type == codec.number()
            &&& q.e_chroma_format == chroma_format
            &&& bit_depth >= 8 ==> q.n_bit_depth_minus_8 + 8 == bit_depth
            &&& bit_depth < 8 ==> q.n_bit_depth_minus_8 == 0
            &&& q.b_is_supported == 0 && q.n_num_nvdecs == 0 && q.n_output_format_mask == 0
            &&& q.n_max_width == 0 && q.n_max_height == 0 && q.n_max_mb_count == 0
            &&& q.n_min_width == 0 && q.n_min_height == 0
        }),
{
}

/// What the decode engine answers is passed on, each limit as what it is.
pub proof fn answer_is_passed_on(reply: Reply)
    requires
        reply_error(reply) is None,
    ensures
        caps_outcome(reply) matches Ok(c) && c.codec == reply.caps.e_codec_type && c.chroma_format
            == reply.caps.e_chroma_format && (c.bit_depth == reply.caps.n_bit_depth_minus_8 + 8
            || c.bit_depth == reply.caps.n_bit_depth_minus_8 + 8 - 0x1_0000_0000)
            && c.is_supported == reply.caps.b_is_supported && c.num_nvdecs
            == reply.caps.n_num_nvdecs && c.output_format_mask == reply.caps.n_output_format_mask
            && c.max_width == reply.caps.n_max_width && c.max_height == reply.caps.n_max_height
            && c.max_mb_count == reply.caps.n_max_mb_count && c.min_width
            == reply.caps.n_min_width && c.min_height == reply.caps.n_min_height
            && c.is_histogram_supported == reply.caps.b_is_histogram_supported
            && c.counter_bit_depth == reply.caps.n_counter_bit_depth && c.max_histogram_bins
            == reply.caps.n_max_histogram_bins,
{
}

} // verus!

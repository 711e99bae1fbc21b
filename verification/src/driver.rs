//! The dialogue with the driver.

use vstd::prelude::*;
use crate::sys::{
    CUVIDDECODECAPS, CUVIDDECODECREATEINFO, CUVIDPARSERPARAMS, CUVIDPROCPARAMS,
    CUVIDSOURCEDATAPACKET, Guid, NvEncCapsParam, NvEncConfig, NvEncCreateBitstreamBuffer,
    NvEncCreateInputBuffer, NvEncInitializeParams, NvEncLockBitstream, NvEncLockInputBuffer,
    NvEncOpenEncodeSessionExParams, NvEncPicParams, NvEncPresetConfig, NvEncodeApiFunctionList,
};

verus! {

/// One of the driver's shared libraries.
#[derive(Copy, Clone, Debug, PartialEq, Eq, Structural)]
pub enum DriverLibrary {
    Cuda,
    Nvcuvid,
    NvEncode,
}

/// Something that the host is asked to do: load a library, call an entry point of the
/// driver, or move bytes between the host and a buffer that the driver exposes.
///
/// Every entry point first needs the driver to be loaded. Where that fails, the call
/// is not made and the reply says so in `load_error`.
#[allow(inconsistent_fields)]
pub enum Call {
    /// Open a library.
    DlOpen { library: DriverLibrary },
    /// Look up entry point number `symbol` in a library.
    DlSym { library: DriverLibrary, symbol: usize },
    CuInit { flags: u32 },
    CuDeviceGetCount,
    CuDeviceGet { ordinal: i32 },
    CuDeviceGetName { len: i32, device: i32 },
    CuDeviceTotalMem { device: i32 },
    CuDeviceGetAttribute { attribute: i32, device: i32 },
    CuDriverGetVersion,
    CuCtxCreate { flags: u32, device: i32 },
    CuCtxDestroy { ctx: u64 },
    CuStreamSynchronize { stream: u64 },
    /// Copy from the device to the host.
    CuMemcpyDtoH { src: u64, len: u64 },
    CuvidGetDecoderCaps { caps: CUVIDDECODECAPS },
    CuvidCreateVideoParser { params: CUVIDPARSERPARAMS },
    /// Feed a packet; `payload` is the bytes that it points to.
    CuvidParseVideoData { parser: u64, packet: CUVIDSOURCEDATAPACKET, payload: Vec<u8> },
    CuvidDestroyVideoParser { parser: u64 },
    CuvidCreateDecoder { info: CUVIDDECODECREATEINFO },
    CuvidDecodePicture { decoder: u64, picture: u64 },
    CuvidMapVideoFrame { decoder: u64, picture_index: i32, params: CUVIDPROCPARAMS },
    CuvidUnmapVideoFrame { decoder: u64, frame: u64 },
    CuvidDestroyDecoder { decoder: u64 },
    /// Fetch the table of encode entry points, stamped with `version`. With `once`, a
    /// reply that was given before will do.
    NvEncodeApiCreateInstance { version: u32, once: bool },
    NvEncOpenEncodeSessionEx { params: NvEncOpenEncodeSessionExParams },
    NvEncGetEncodePresetConfigEx {
        encoder: u64,
        encode_guid: Guid,
        preset_guid: Guid,
        tuning_info: u32,
        config: NvEncPresetConfig,
    },
    NvEncInitializeEncoder { encoder: u64, params: NvEncInitializeParams },
    NvEncCreateInputBuffer { encoder: u64, params: NvEncCreateInputBuffer },
    NvEncCreateBitstreamBuffer { encoder: u64, params: NvEncCreateBitstreamBuffer },
    NvEncLockInputBuffer { encoder: u64, params: NvEncLockInputBuffer },
    NvEncUnlockInputBuffer { encoder: u64, buffer: u64 },
    NvEncEncodePicture { encoder: u64, params: NvEncPicParams },
    NvEncLockBitstream { encoder: u64, params: NvEncLockBitstream },
    NvEncUnlockBitstream { encoder: u64, buffer: u64 },
    NvEncDestroyInputBuffer { encoder: u64, buffer: u64 },
    NvEncDestroyBitstreamBuffer { encoder: u64, buffer: u64 },
    NvEncDestroyEncoder { encoder: u64 },
    NvEncGetLastErrorString { encoder: u64 },
    NvEncGetEncodeGuidCount { encoder: u64 },
    /// Fetch at most `capacity` identifiers.
    NvEncGetEncodeGuids { encoder: u64, capacity: u32 },
    NvEncGetEncodeCaps { encoder: u64, guid: Guid, param: NvEncCapsParam },
    /// Read `len` bytes at `address`.
    ReadHost { address: u64, len: u64 },
    /// Read `rows` rows of `pitch` bytes at `address`.
    ReadRows { address: u64, pitch: u32, rows: u64 },
    /// Write bytes to `address`.
    WriteHost { address: u64, bytes: Vec<u8> },
}

/// What a call left behind: its status and the values it wrote. A value that a call
/// does not write is as [`Reply::new`] has it.
pub struct Reply {
    /// Why the driver is not loaded, or why the linker failed.
    pub load_error: Option<String>,
    /// `CUresult` or `NVENCSTATUS`.
    pub status: i32,
    /// What `cuGetErrorString` returned for a CUDA status that is not success.
    pub error_status: i32,
    /// The text that came with it, unless it was null.
    pub error_text: Option<String>,
    /// A handle or an address.
    pub handle: u64,
    /// A signed number.
    pub number: i32,
    /// A count.
    pub count: u32,
    /// A size in bytes.
    pub size: u64,
    /// The distance of rows in bytes.
    pub pitch: u32,
    /// A string, unless it was null.
    pub text: Option<String>,
    /// Bytes that were read.
    pub bytes: Vec<u8>,
    pub guids: Vec<Guid>,
    pub caps: CUVIDDECODECAPS,
    pub config: NvEncConfig,
    pub table: NvEncodeApiFunctionList,
}

impl Reply {
    /// A call that succeeded and wrote nothing.
    pub fn new() -> (r: Reply)
        ensures
            r.load_error is None,
            r.status == 0,
            r.error_status == 0,
            r.error_text is None,
            r.handle == 0,
            r.number == 0,
            r.count == 0,
            r.size == 0,
            r.pitch == 0,
            r.text is None,
            r.bytes@.len() == 0,
            r.guids@.len() == 0,
            r.caps == CUVIDDECODECAPS::zeroed(),
            forall|i: int| 0 <= i < 3584 ==> r.config.bytes@[i] == 0,
            r.table == NvEncodeApiFunctionList::zeroed(),
    {
        Reply {
            load_error: None,
            status: 0,
            error_status: 0,
            error_text: None,
            handle: 0,
            number: 0,
            count: 0,
            size: 0,
            pitch: 0,
            text: None,
            bytes: Vec::new(),
            guids: Vec::new(),
            caps: CUVIDDECODECAPS::default(),
            config: NvEncConfig::default(),
            table: NvEncodeApiFunctionList::default(),
        }
    }
}

/// How far an operation has come: it waits for a call, or it has its result.
pub enum Step<M, R> {
    /// Make this call and resume the machine with the reply.
    Call(Call, M),
    Done(R),
}

/// An operation that waits for the reply to a call.
pub trait Machine: Sized {
    type Output;

    /// Takes the reply and goes on.
    fn resume(self, reply: Reply) -> Step<Self, Self::Output>;
}

/// Whether step `i` of a run leads to the next one: the machine, resumed with the
/// reply, makes a call and waits as the next machine.
pub open spec fn leads_on<M, R>(
    run: Seq<(M, Reply)>,
    follows: spec_fn(M, Reply, Step<M, R>) -> bool,
    i: int,
) -> bool {
    exists|call: Call| #[trigger] follows(run[i].0, run[i].1, Step::Call(call, run[i + 1].0))
}

/// Whether `run` is a complete run of an operation, as the machines that waited and
/// the replies that they got, which ended in `out`.
pub open spec fn is_run<M, R>(
    run: Seq<(M, Reply)>,
    follows: spec_fn(M, Reply, Step<M, R>) -> bool,
    out: R,
) -> bool {
    &&& run.len() > 0
    &&& forall|i: int| 0 <= i < run.len() - 1 ==> #[trigger] leads_on(run, follows, i)
    &&& follows(run.last().0, run.last().1, Step::Done(out))
}

/// Whether step `i` of a run leads to the next one by a given call.
pub open spec fn leads_on_by<M, R>(
    run: Seq<(M, Reply)>,
    calls: Seq<Call>,
    follows: spec_fn(M, Reply, Step<M, R>) -> bool,
    i: int,
) -> bool {
    follows(run[i].0, run[i].1, Step::Call(calls[i + 1], run[i + 1].0))
}

/// Whether `run` is a complete run of an operation in which `calls` were made: the reply
/// at place `i` is the one to the call at place `i`.
pub open spec fn is_run_of<M, R>(
    run: Seq<(M, Reply)>,
    calls: Seq<Call>,
    follows: spec_fn(M, Reply, Step<M, R>) -> bool,
    out: R,
) -> bool {
    &&& run.len() > 0
    &&& calls.len() == run.len()
    &&& forall|i: int|
        0 <= i < run.len() - 1 ==> #[trigger] leads_on_by(run, calls, follows, i)
    &&& follows(run.last().0, run.last().1, Step::Done(out))
}

} // verus!

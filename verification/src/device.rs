//! Driver initialisation, devices and contexts.

use vstd::prelude::*;
use crate::driver::{Call, Machine, Reply, Step};
use crate::sys::{
    CUDA_ERROR_DEINITIALIZED, CUDA_ERROR_INVALID_CONTEXT, CUDA_ERROR_INVALID_DEVICE,
    CUDA_ERROR_INVALID_VALUE, CUDA_ERROR_NOT_INITIALIZED, CUDA_ERROR_NOT_PERMITTED,
    CUDA_ERROR_NOT_SUPPORTED, CUDA_ERROR_NO_DEVICE, CUDA_ERROR_OUT_OF_MEMORY, CUDA_ERROR_UNKNOWN,
    CUDA_SUCCESS, CUdevice, CUresult, CU_DEVICE_ATTRIBUTE_COMPUTE_CAPABILITY_MAJOR,
    CU_DEVICE_ATTRIBUTE_COMPUTE_CAPABILITY_MINOR,
};
use crate::text::{contains, i32_text, join, u64_text};

verus! {

/// The status of a failure in which the driver had no say: it could not be loaded.
pub const FRAMEWORK_LOAD: i32 = -1;

/// A driver call that failed.
#[derive(Debug, Clone)]
pub struct NvError {
    /// The driver's status, or -1 where the driver could not be loaded.
    pub code: i32,
    pub message: String,
}

impl View for NvError {
    type V = (i32, Seq<char>);

    open spec fn view(&self) -> (i32, Seq<char>) {
        (self.code, self.message@)
    }
}

/// What kind of failure a driver status is.
#[derive(Debug, Clone, Copy, PartialEq, Eq, Structural)]
#[non_exhaustive]
pub enum CudaErrorKind {
    /// No failure at all.
    Success,
    /// The driver's libraries or entry points could not be loaded (-1). No driver
    /// call was made.
    FrameworkLoad,
    /// 1
    InvalidValue,
    /// 2
    OutOfMemory,
    /// 3
    NotInitialized,
    /// 4
    Deinitialized,
    /// 100: the driver sees no device.
    NoDevice,
    /// 101: no device has that ordinal.
    InvalidDevice,
    /// 201: no current context, or a stale one.
    InvalidContext,
    /// 800: the driver refuses the operation.
    NotPermitted,
    /// 801
    NotSupported,
    /// 999
    Unknown,
    /// A status without a name here.
    Other(CUresult),
}

/// What kind of failure a driver status is.
pub open spec fn kind_of(code: CUresult) -> CudaErrorKind {
    if code == 0 {
        CudaErrorKind::Success
    } else if code == FRAMEWORK_LOAD {
        CudaErrorKind::FrameworkLoad
    } else if code == 1 {
        CudaErrorKind::InvalidValue
    } else if code == 2 {
        CudaErrorKind::OutOfMemory
    } else if code == 3 {
        CudaErrorKind::NotInitialized
    } else if code == 4 {
        CudaErrorKind::Deinitialized
    } else if code == 100 {
        CudaErrorKind::NoDevice
    } else if code == 101 {
        CudaErrorKind::InvalidDevice
    } else if code == 201 {
        CudaErrorKind::InvalidContext
    } else if code == 800 {
        CudaErrorKind::NotPermitted
    } else if code == 801 {
        CudaErrorKind::NotSupported
    } else if code == 999 {
        CudaErrorKind::Unknown
    } else {
        CudaErrorKind::Other(code)
    }
}

/// The driver status that a kind of failure stands for.
pub open spec fn code_of(kind: CudaErrorKind) -> CUresult {
    match kind {
        CudaErrorKind::Success => 0,
        CudaErrorKind::FrameworkLoad => FRAMEWORK_LOAD,
        CudaErrorKind::InvalidValue => 1,
        CudaErrorKind::OutOfMemory => 2,
        CudaErrorKind::NotInitialized => 3,
        CudaErrorKind::Deinitialized => 4,
        CudaErrorKind::NoDevice => 100,
        CudaErrorKind::InvalidDevice => 101,
        CudaErrorKind::InvalidContext => 201,
        CudaErrorKind::NotPermitted => 800,
        CudaErrorKind::NotSupported => 801,
        CudaErrorKind::Unknown => 999,
        CudaErrorKind::Other(code) => code,
    }
}

/// Whether a kind of failure means that there is no usable driver or device.
pub open spec fn kind_unavailable(kind: CudaErrorKind) -> bool {
    kind is FrameworkLoad || kind is NoDevice || kind is NotInitialized
}

/// Whether an error means that there is no usable driver or device, by its status
/// or by the words of its message.
pub open spec fn error_unavailable(e: (i32, Seq<char>)) -> bool {
    ||| e.0 == 100
    ||| e.0 == FRAMEWORK_LOAD
    ||| crate::text::contains_text(e.1, "dlopen"@)
    ||| crate::text::contains_text(e.1, "dlsym"@)
    ||| crate::text::contains_text(e.1, "not available"@)
    ||| crate::text::contains_text(e.1, "no CUDA"@)
}

/// A driver status with a text for it: what the driver says of it, or its number.
pub open spec fn status_error(code: i32, error_status: i32, error_text: Option<String>) -> (
    i32,
    Seq<char>,
) {
    (
        code,
        match error_text {
            Some(t) if error_status == 0 => t@,
            _ => "CUresult "@ + crate::text::int_text(code as int),
        },
    )
}

/// The error that a reply to a CUDA call stands for, if it stands for one.
pub open spec fn reply_error(reply: Reply) -> Option<(i32, Seq<char>)> {
    match reply.load_error {
        Some(m) => Some((FRAMEWORK_LOAD, m@)),
        None => if reply.status == 0 {
            None
        } else {
            Some(status_error(reply.status, reply.error_status, reply.error_text))
        },
    }
}

/// An error as one line of text.
pub open spec fn error_line(e: (i32, Seq<char>)) -> Seq<char> {
    "NvError("@ + crate::text::int_text(e.0 as int) + "): "@ + e.1
}

impl NvError {
    /// A driver status, with the driver's own text for it where `lookup` holds what
    /// `cuGetErrorString` gave.
    pub fn from_cu(lookup: Option<(CUresult, Option<String>)>, code: CUresult) -> (e: NvError)
        ensures
            e@ == (match lookup {
                Some((status, text)) => status_error(code, status, text),
                None => (code, "CUresult "@ + crate::text::int_text(code as int)),
            }),
    {
        if let Some((status, Some(message))) = lookup {
            if status == CUDA_SUCCESS {
                return NvError { code, message };
            }
        }
        NvError { code, message: join("CUresult ", i32_text(code).as_str()) }
    }

    /// An error without a driver status.
    pub fn from_str(message: String) -> (e: NvError)
        ensures
            e == (NvError { code: FRAMEWORK_LOAD, message }),
    {
        NvError { code: FRAMEWORK_LOAD, message }
    }

    /// Whether there is no usable driver or device.
    pub fn is_unavailable(&self) -> (r: bool)
        ensures
            r == error_unavailable(self@),
    {
        self.code == 100 || self.code == FRAMEWORK_LOAD || contains(self.message.as_str(), "dlopen")
            || contains(self.message.as_str(), "dlsym") || contains(
            self.message.as_str(),
            "not available",
        ) || contains(self.message.as_str(), "no CUDA")
    }

    /// The kind of failure that the status stands for.
    pub fn kind(&self) -> (k: CudaErrorKind)
        ensures
            k == kind_of(self.code),
    {
        CudaErrorKind::from_cu(self.code)
    }

    /// The error as one line of text.
    pub fn to_string(&self) -> (s: String)
        ensures
            s@ == error_line(self@),
    {
        let s = join("NvError(", i32_text(self.code).as_str());
        let s = join(s.as_str(), "): ");
        join(s.as_str(), self.message.as_str())
    }
}

impl CudaErrorKind {
    /// What kind of failure a driver status is.
    pub fn from_cu(code: CUresult) -> (k: Self)
        ensures
            k == kind_of(code),
    {
        match code {
            CUDA_SUCCESS => CudaErrorKind::Success,
            FRAMEWORK_LOAD => CudaErrorKind::FrameworkLoad,
            CUDA_ERROR_INVALID_VALUE => CudaErrorKind::InvalidValue,
            CUDA_ERROR_OUT_OF_MEMORY => CudaErrorKind::OutOfMemory,
            CUDA_ERROR_NOT_INITIALIZED => CudaErrorKind::NotInitialized,
            CUDA_ERROR_DEINITIALIZED => CudaErrorKind::Deinitialized,
            CUDA_ERROR_NO_DEVICE => CudaErrorKind::NoDevice,
            CUDA_ERROR_INVALID_DEVICE => CudaErrorKind::InvalidDevice,
            CUDA_ERROR_INVALID_CONTEXT => CudaErrorKind::InvalidContext,
            CUDA_ERROR_NOT_PERMITTED => CudaErrorKind::NotPermitted,
            CUDA_ERROR_NOT_SUPPORTED => CudaErrorKind::NotSupported,
            CUDA_ERROR_UNKNOWN => CudaErrorKind::Unknown,
            other => CudaErrorKind::Other(other),
        }
    }

    /// The driver status that the kind stands for.
    pub fn as_code(self) -> (code: CUresult)
        ensures
            code == code_of(self),
    {
        match self {
            CudaErrorKind::Success => CUDA_SUCCESS,
            CudaErrorKind::FrameworkLoad => FRAMEWORK_LOAD,
            CudaErrorKind::InvalidValue => CUDA_ERROR_INVALID_VALUE,
            CudaErrorKind::OutOfMemory => CUDA_ERROR_OUT_OF_MEMORY,
            CudaErrorKind::NotInitialized => CUDA_ERROR_NOT_INITIALIZED,
            CudaErrorKind::Deinitialized => CUDA_ERROR_DEINITIALIZED,
            CudaErrorKind::NoDevice => CUDA_ERROR_NO_DEVICE,
            CudaErrorKind::InvalidDevice => CUDA_ERROR_INVALID_DEVICE,
            CudaErrorKind::InvalidContext => CUDA_ERROR_INVALID_CONTEXT,
            CudaErrorKind::NotPermitted => CUDA_ERROR_NOT_PERMITTED,
            CudaErrorKind::NotSupported => CUDA_ERROR_NOT_SUPPORTED,
            CudaErrorKind::Unknown => CUDA_ERROR_UNKNOWN,
            CudaErrorKind::Other(code) => code,
        }
    }

    /// Whether there is no usable driver or device.
    pub fn is_unavailable(self) -> (r: bool)
        ensures
            r == kind_unavailable(self),
    {
        match self {
            CudaErrorKind::FrameworkLoad | CudaErrorKind::NoDevice
            | CudaErrorKind::NotInitialized => true,
            _ => false,
        }
    }
}

/// Every status, named or not, can be recovered from its kind.
pub proof fn kind_keeps_the_code(code: CUresult)
    ensures
        code_of(kind_of(code)) == code,
{
}

/// Every kind can be recovered from its status, except a nameless kind that holds a
/// status which has a name.
pub proof fn code_keeps_the_kind(kind: CudaErrorKind)
    requires
        kind matches CudaErrorKind::Other(code) ==> kind_of(code) is Other,
    ensures
        kind_of(code_of(kind)) == kind,
{
}

/// An error whose kind says that there is no driver or device says so itself, unless
/// it is that of a driver which was not initialised.
pub proof fn unavailable_agrees(e: (i32, Seq<char>))
    requires
        kind_unavailable(kind_of(e.0)),
        !(kind_of(e.0) is NotInitialized),
    ensures
        error_unavailable(e),
{
}

/// The reply to a CUDA call, or the error that it stands for.
pub fn check(reply: Reply) -> (r: Result<Reply, NvError>)
    ensures
        match r {
            Ok(same) => reply_error(reply) is None && same == reply,
            Err(e) => reply_error(reply) == Some(e@),
        },
{
    match reply.load_error {
        Some(message) => Err(NvError::from_str(message)),
        None => {
            if reply.status == CUDA_SUCCESS {
                Ok(reply)
            } else {
                Err(NvError::from_cu(Some((reply.error_status, reply.error_text)), reply.status))
            }
        },
    }
}

/// A result whose error is taken by its view.
pub open spec fn seen<T>(r: Result<T, NvError>) -> Result<T, (i32, Seq<char>)> {
    match r {
        Ok(t) => Ok(t),
        Err(e) => Err(e@),
    }
}

/// Proof that the driver has been initialised: only a successful [`Cuda::init`] makes one.
#[derive(Debug, Clone, Copy)]
pub struct Cuda {
    ready: (),
}

/// A device, by its ordinal.
#[derive(Debug, Clone, Copy, PartialEq, Eq, Structural)]
pub struct CudaDevice {
    pub handle: CUdevice,
}

/// A context on a device, current on the thread that made it. Whoever holds it has to
/// [`release`](CudaContext::release) it.
#[derive(Debug, PartialEq, Eq, Structural)]
pub struct CudaContext {
    pub ctx: u64,
}

/// Whether the driver came up.
pub open spec fn init_outcome(reply: Reply) -> Result<(), (i32, Seq<char>)> {
    match reply_error(reply) {
        Some(e) => Err(e),
        None => Ok(()),
    }
}

/// How many devices there are.
pub open spec fn count_outcome(reply: Reply) -> Result<u32, (i32, Seq<char>)> {
    match reply_error(reply) {
        Some(e) => Err(e),
        None => if reply.number < 0 {
            Err(
                (
                    FRAMEWORK_LOAD,
                    "cuDeviceGetCount returned negative: "@ + crate::text::int_text(
                        reply.number as int,
                    ),
                ),
            )
        } else {
            Ok(reply.number as u32)
        },
    }
}

/// The device that was asked for.
pub open spec fn device_outcome(reply: Reply) -> Result<CudaDevice, (i32, Seq<char>)> {
    match reply_error(reply) {
        Some(e) => Err(e),
        None => Ok(CudaDevice { handle: reply.number }),
    }
}

/// The context that was made.
pub open spec fn context_outcome(reply: Reply) -> Result<CudaContext, (i32, Seq<char>)> {
    match reply_error(reply) {
        Some(e) => Err(e),
        None => Ok(CudaContext { ctx: reply.handle }),
    }
}

/// The memory of a device in bytes.
pub open spec fn memory_outcome(reply: Reply) -> Result<u64, (i32, Seq<char>)> {
    match reply_error(reply) {
        Some(e) => Err(e),
        None => Ok(reply.size),
    }
}

/// One part of a compute capability; a negative one counts as zero.
pub open spec fn capability_part(number: i32) -> u32 {
    if number < 0 {
        0
    } else {
        number as u32
    }
}

pub(crate) fn finish_init(reply: Reply) -> (r: Result<Cuda, NvError>)
    ensures
        match r {
            Ok(_) => init_outcome(reply) is Ok,
            Err(e) => init_outcome(reply) == Err::<(), _>(e@),
        },
{
    match check(reply) {
        Ok(_) => Ok(Cuda { ready: () }),
        Err(e) => Err(e),
    }
}

pub(crate) fn finish_count(reply: Reply) -> (r: Result<u32, NvError>)
    ensures
        seen(r) == count_outcome(reply),
{
    match check(reply) {
        Ok(reply) => {
            let n = reply.number;
            if n < 0 {
                let message = join("cuDeviceGetCount returned negative: ", i32_text(n).as_str());
                Err(NvError { code: FRAMEWORK_LOAD, message })
            } else {
                Ok(n as u32)
            }
        },
        Err(e) => Err(e),
    }
}

pub(crate) fn finish_device(reply: Reply) -> (r: Result<CudaDevice, NvError>)
    ensures
        seen(r) == device_outcome(reply),
{
    match check(reply) {
        Ok(reply) => Ok(CudaDevice { handle: reply.number }),
        Err(e) => Err(e),
    }
}

pub(crate) fn finish_context(reply: Reply) -> (r: Result<CudaContext, NvError>)
    ensures
        seen(r) == context_outcome(reply),
{
    match check(reply) {
        Ok(reply) => Ok(CudaContext { ctx: reply.handle }),
        Err(e) => Err(e),
    }
}

pub(crate) fn finish_name(reply: Reply) -> (r: Result<String, NvError>)
    ensures
        match r {
            Ok(name) => reply_error(reply) is None && name@ == (match reply.text {
                Some(t) => t@,
                None => Seq::empty(),
            }),
            Err(e) => reply_error(reply) == Some(e@),
        },
{
    match check(reply) {
        Ok(reply) => match reply.text {
            Some(name) => Ok(name),
            None => Ok(String::new()),
        },
        Err(e) => Err(e),
    }
}

pub(crate) fn finish_memory(reply: Reply) -> (r: Result<u64, NvError>)
    ensures
        seen(r) == memory_outcome(reply),
{
    match check(reply) {
        Ok(reply) => Ok(reply.size),
        Err(e) => Err(e),
    }
}

pub(crate) fn finish_capability(major: i32, minor: i32) -> (r: (u32, u32))
    ensures
        r == (capability_part(major), capability_part(minor)),
{
    let major: u32 = if major < 0 {
        0
    } else {
        major as u32
    };
    let minor: u32 = if minor < 0 {
        0
    } else {
        minor as u32
    };
    (major, minor)
}

/// Waits for the driver to come up.
pub struct InitCuda {}

/// Waits for the number of devices.
pub struct DeviceCount {}

/// Waits for a device.
pub struct GetDevice {}

/// Waits for a context.
pub struct CreateContext {}

/// Waits for a device's name.
pub struct DeviceName {}

/// Waits for a device's memory size.
pub struct DeviceMemory {}

/// Waits for a device's compute capability: first the major part, then the minor.
pub struct ComputeCapability {
    pub device: CUdevice,
    pub major: Option<i32>,
}

impl Machine for InitCuda {
    type Output = Result<Cuda, NvError>;

    fn resume(self, reply: Reply) -> (step: Step<Self, Result<Cuda, NvError>>)
        ensures
            step matches Step::Done(r) && match r {
                Ok(_) => init_outcome(reply) is Ok,
                Err(e) => init_outcome(reply) == Err::<(), _>(e@),
            },
    {
        Step::Done(finish_init(reply))
    }
}

impl Machine for DeviceCount {
    type Output = Result<u32, NvError>;

    fn resume(self, reply: Reply) -> (step: Step<Self, Result<u32, NvError>>)
        ensures
            step matches Step::Done(r) && seen(r) == count_outcome(reply),
    {
        Step::Done(finish_count(reply))
    }
}

impl Machine for GetDevice {
    type Output = Result<CudaDevice, NvError>;

    fn resume(self, reply: Reply) -> (step: Step<Self, Result<CudaDevice, NvError>>)
        ensures
            step matches Step::Done(r) && seen(r) == device_outcome(reply),
    {
        Step::Done(finish_device(reply))
    }
}

impl Machine for CreateContext {
    type Output = Result<CudaContext, NvError>;

    fn resume(self, reply: Reply) -> (step: Step<Self, Result<CudaContext, NvError>>)
        ensures
            step matches Step::Done(r) && seen(r) == context_outcome(reply),
    {
        Step::Done(finish_context(reply))
    }
}

impl Machine for DeviceName {
    type Output = Result<String, NvError>;

    fn resume(self, reply: Reply) -> (step: Step<Self, Result<String, NvError>>)
        ensures
            step matches Step::Done(r) && match r {
                Ok(name) => reply_error(reply) is None && name@ == (match reply.text {
                    Some(t) => t@,
                    None => Seq::empty(),
                }),
                Err(e) => reply_error(reply) == Some(e@),
            },
    {
        Step::Done(finish_name(reply))
    }
}

impl Machine for DeviceMemory {
    type Output = Result<u64, NvError>;

    fn resume(self, reply: Reply) -> (step: Step<Self, Result<u64, NvError>>)
        ensures
            step matches Step::Done(r) && seen(r) == memory_outcome(reply),
    {
        Step::Done(finish_memory(reply))
    }
}

impl ComputeCapability {
    /// What follows the reply to the awaited call: the question for the minor part, both parts,
    /// or the failure.
    pub open spec fn follows(
        self,
        reply: Reply,
        step: Step<ComputeCapability, Result<(u32, u32), NvError>>,
    ) -> bool {
        match reply_error(reply) {
            Some(e) => step matches Step::Done(r) && seen(r) == Err::<(u32, u32), _>(e),
            None => match self.major {
                None => step == Step::<Self, Result<(u32, u32), NvError>>::Call(
                    Call::CuDeviceGetAttribute { attribute: 76, device: self.device },
                    ComputeCapability { device: self.device, major: Some(reply.number) },
                ),
                Some(major) => step matches Step::Done(r) && r == Ok::<(u32, u32), NvError>(
                    (capability_part(major), capability_part(reply.number)),
                ),
            },
        }
    }
}

impl Machine for ComputeCapability {
    type Output = Result<(u32, u32), NvError>;

    fn resume(self, reply: Reply) -> (step: Step<Self, Result<(u32, u32), NvError>>)
        ensures
            self.follows(reply, step),
    {
        match check(reply) {
            Ok(reply) => match self.major {
                None => Step::Call(
                    Call::CuDeviceGetAttribute {
                        attribute: CU_DEVICE_ATTRIBUTE_COMPUTE_CAPABILITY_MINOR,
                        device: self.device,
                    },
                    ComputeCapability { device: self.device, major: Some(reply.number) },
                ),
                Some(major) => Step::Done(Ok(finish_capability(major, reply.number))),
            },
            Err(e) => Step::Done(Err(e)),
        }
    }
}

impl Cuda {
    /// Brings the driver up.
    pub fn init() -> (step: Step<InitCuda, Result<Cuda, NvError>>)
        ensures
            step == Step::<InitCuda, Result<Cuda, NvError>>::Call(
                Call::CuInit { flags: 0 },
                InitCuda {  },
            ),
    {
        Step::Call(Call::CuInit { flags: 0 }, InitCuda {  })
    }

    /// Counts the devices that the driver sees.
    pub fn device_count(&self) -> (step: Step<DeviceCount, Result<u32, NvError>>)
        ensures
            step == Step::<DeviceCount, Result<u32, NvError>>::Call(
                Call::CuDeviceGetCount,
                DeviceCount {  },
            ),
    {
        Step::Call(Call::CuDeviceGetCount, DeviceCount {  })
    }

    /// Finds the device with the given ordinal.
    pub fn device(&self, ordinal: i32) -> (step: Step<GetDevice, Result<CudaDevice, NvError>>)
        ensures
            step == Step::<GetDevice, Result<CudaDevice, NvError>>::Call(
                Call::CuDeviceGet { ordinal },
                GetDevice {  },
            ),
    {
        Step::Call(Call::CuDeviceGet { ordinal }, GetDevice {  })
    }

    /// Makes a context on a device, which is then current on the calling thread.
    pub fn create_context_for(&self, device: &CudaDevice) -> (step: Step<
        CreateContext,
        Result<CudaContext, NvError>,
    >)
        ensures
            step == Step::<CreateContext, Result<CudaContext, NvError>>::Call(
                Call::CuCtxCreate { flags: 0, device: device.handle },
                CreateContext {  },
            ),
    {
        Step::Call(Call::CuCtxCreate { flags: 0, device: device.handle }, CreateContext {  })
    }
}

impl CudaDevice {
    /// The ordinal that the driver gave.
    pub fn handle(&self) -> (h: CUdevice)
        ensures
            h == self.handle,
    {
        self.handle
    }

    /// Asks for the name of the device, at most 255 bytes and a terminator.
    pub fn name(&self) -> (step: Step<DeviceName, Result<String, NvError>>)
        ensures
            step == Step::<DeviceName, Result<String, NvError>>::Call(
                Call::CuDeviceGetName { len: 256, device: self.handle },
                DeviceName {  },
            ),
    {
        Step::Call(Call::CuDeviceGetName { len: 256, device: self.handle }, DeviceName {  })
    }

    /// Asks for the memory of the device in bytes.
    pub fn total_memory_bytes(&self) -> (step: Step<DeviceMemory, Result<u64, NvError>>)
        ensures
            step == Step::<DeviceMemory, Result<u64, NvError>>::Call(
                Call::CuDeviceTotalMem { device: self.handle },
                DeviceMemory {  },
            ),
    {
        Step::Call(Call::CuDeviceTotalMem { device: self.handle }, DeviceMemory {  })
    }

    /// Asks for the compute capability of the device as major and minor part.
    pub fn compute_capability(&self) -> (step: Step<ComputeCapability, Result<(u32, u32), NvError>>)
        ensures
            step == Step::<ComputeCapability, Result<(u32, u32), NvError>>::Call(
                Call::CuDeviceGetAttribute { attribute: 75, device: self.handle },
                ComputeCapability { device: self.handle, major: None },
            ),
    {
        Step::Call(
            Call::CuDeviceGetAttribute {
                attribute: CU_DEVICE_ATTRIBUTE_COMPUTE_CAPABILITY_MAJOR,
                device: self.handle,
            },
            ComputeCapability { device: self.handle, major: None },
        )
    }
}

/// The call that destroys a context, if there is one.
pub open spec fn context_release(ctx: u64) -> Option<Call> {
    if ctx == 0 {
        None
    } else {
        Some(Call::CuCtxDestroy { ctx })
    }
}

impl CudaContext {
    /// The context's handle.
    pub fn raw(&self) -> (ctx: u64)
        ensures
            ctx == self.ctx,
    {
        self.ctx
    }

    /// Gives the context up: the call that destroys it, unless it is null.
    pub fn release(self) -> (call: Option<Call>)
        ensures
            call == context_release(self.ctx),
    {
        if self.ctx == 0 {
            None
        } else {
            Some(Call::CuCtxDestroy { ctx: self.ctx })
        }
    }
}

/// The device that is used where `count` are there: the one asked for, or the first.
/// The other outcome is what is wrong.
pub open spec fn chosen_device(index: Option<u32>, count: u32) -> Result<u32, Seq<char>> {
    let i: u32 = match index {
        Some(i) => i,
        None => 0,
    };
    if count == 0 {
        Err("nvidia: no CUDA devices visible"@)
    } else if i >= count {
        Err(
            "nvidia: device_index "@ + crate::text::nat_text(i as nat) + " out of range (0.."@
                + crate::text::nat_text(count as nat) + ")"@,
        )
    } else {
        Ok(i)
    }
}

/// Chooses a device among `count`.
pub fn choose_device(index: Option<u32>, count: u32) -> (r: Result<u32, String>)
    ensures
        match r {
            Ok(i) => chosen_device(index, count) == Ok::<u32, Seq<char>>(i),
            Err(m) => chosen_device(index, count) == Err::<u32, Seq<char>>(m@),
        },
{
    if count == 0 {
        return Err(String::from_str("nvidia: no CUDA devices visible"));
    }
    let i: u32 = match index {
        Some(i) => i,
        None => 0,
    };
    if i >= count {
        let s = join("nvidia: device_index ", u64_text(i as u64).as_str());
        let s = join(s.as_str(), " out of range (0..");
        let s = join(s.as_str(), u64_text(count as u64).as_str());
        return Err(join(s.as_str(), ")"));
    }
    Ok(i)
}

/// A device is chosen if and only if there is one with the index asked for; asking for
/// none is asking for the first; and the one chosen is the one asked for.
pub proof fn device_index_is_honoured(index: Option<u32>, count: u32)
    ensures
        chosen_device(None, count) == chosen_device(Some(0), count),
        index matches Some(i) ==> (chosen_device(index, count) is Ok <==> i < count),
        index is None ==> (chosen_device(index, count) is Ok <==> 0 < count),
        index matches Some(i) ==> chosen_device(index, count) matches Ok(chosen) ==> chosen == i,
{
}

/// Each kind of failure is that of one driver status, by the vendor's number for it; a
/// status without a name keeps its number.
pub proof fn kinds_by_number(code: CUresult)
    ensures
        kind_of(code) is Success <==> code == 0,
        kind_of(code) is FrameworkLoad <==> code == -1,
        kind_of(code) is InvalidValue <==> code == 1,
        kind_of(code) is OutOfMemory <==> code == 2,
        kind_of(code) is NotInitialized <==> code == 3,
        kind_of(code) is Deinitialized <==> code == 4,
        kind_of(code) is NoDevice <==> code == 100,
        kind_of(code) is InvalidDevice <==> code == 101,
        kind_of(code) is InvalidContext <==> code == 201,
        kind_of(code) is NotPermitted <==> code == 800,
        kind_of(code) is NotSupported <==> code == 801,
        kind_of(code) is Unknown <==> code == 999,
        kind_of(code) matches CudaErrorKind::Other(n) ==> n == code,
        kind_unavailable(kind_of(code)) <==> code == -1 || code == 100 || code == 3,
{
}

/// A reply stands for an error if and only if the driver is not loaded or the status is not
/// zero. Without a driver the error says why; otherwise it has the status, and the driver's
/// own words for it where they could be had, or else its number.
pub proof fn reply_error_tells_what_failed(reply: Reply)
    ensures
        reply_error(reply) is Some <==> reply.load_error is Some || reply.status != 0,
        reply.load_error matches Some(why) ==> reply_error(reply) == Some((-1i32, why@)),
        reply.load_error is None && reply.status != 0 ==> {
            let (code, message) = reply_error(reply)->0;
            &&& code == reply.status
            &&& reply.error_status == 0 ==> (reply.error_text matches Some(words) ==> message
                == words@)
            &&& reply.error_status != 0 || reply.error_text is None ==> message == "CUresult "@
                + crate::text::int_text(reply.status as int)
        },
{
}

/// Devices are counted by the number that the driver gives, unless it is negative: that is
/// an error, which names the number.
pub proof fn devices_are_counted(reply: Reply)
    ensures
        count_outcome(reply) is Ok <==> reply_error(reply) is None && reply.number >= 0,
        count_outcome(reply) matches Ok(n) ==> n == reply.number,
        reply_error(reply) matches Some(e) ==> count_outcome(reply) == Err::<u32, _>(e),
        reply_error(reply) is None && reply.number < 0 ==> count_outcome(reply) == Err::<u32, _>(
            (
                -1i32,
                "cuDeviceGetCount returned negative: "@ + crate::text::int_text(
                    reply.number as int,
                ),
            ),
        ),
{
}

/// What a device, a context and a memory size are taken from.
pub proof fn outcomes_come_from_their_fields(reply: Reply)
    requires
        reply_error(reply) is None,
    ensures
        init_outcome(reply) is Ok,
        device_outcome(reply) matches Ok(d) && d.handle == reply.number,
        context_outcome(reply) matches Ok(c) && c.ctx == reply.handle,
        memory_outcome(reply) matches Ok(n) && n == reply.size,
{
}

/// An error means that there is no usable driver or device by two statuses, or by what its
/// message says of the linker, of availability or of CUDA; and its line has the status and
/// the message.
pub proof fn error_speaks_for_itself(e: (i32, Seq<char>))
    ensures
        e.0 == 100 || e.0 == -1 ==> error_unavailable(e),
        e.0 != 100 && e.0 != -1 ==> (error_unavailable(e) <==> crate::text::contains_text(
            e.1,
            "dlopen"@,
        ) || crate::text::contains_text(e.1, "dlsym"@) || crate::text::contains_text(
            e.1,
            "not available"@,
        ) || crate::text::contains_text(e.1, "no CUDA"@)),
        error_line(e) == "NvError("@ + crate::text::int_text(e.0 as int) + "): "@ + e.1,
{
}

/// Where no device can be chosen, the message says that there is none, or which index was
/// asked for and how many there are.
pub proof fn refused_device_is_explained(i: u32, count: u32)
    ensures
        chosen_device(None, 0) == Err::<u32, _>("nvidia: no CUDA devices visible"@),
        count == 0 ==> chosen_device(Some(i), count) == Err::<u32, _>(
            "nvidia: no CUDA devices visible"@,
        ),
        0 < count <= i ==> chosen_device(Some(i), count) == Err::<u32, _>(
            "nvidia: device_index "@ + crate::text::nat_text(i as nat) + " out of range (0.."@
                + crate::text::nat_text(count as nat) + ")"@,
        ),
        i < count ==> chosen_device(Some(i), count) == Ok::<u32, Seq<char>>(i),
{
}

/// A context is given up by destroying it, and a null one needs nothing.
pub proof fn context_is_given_up_by_destroying_it(ctx: u64)
    ensures
        ctx == 0 <==> context_release(ctx) is None,
        context_release(ctx) matches Some(call) ==> call == (Call::CuCtxDestroy { ctx }),
{
}

/// A compute capability is the answer to the question for the major part and then the answer
/// to the question for the minor part, both about the same device; neither is below zero.
pub proof fn capability_has_major_before_minor(
    m: ComputeCapability,
    major: Reply,
    call: Call,
    next: ComputeCapability,
    minor: Reply,
    r: Result<(u32, u32), NvError>,
)
    requires
        m.major is None,
        m.follows(major, Step::Call(call, next)),
        next.follows(minor, Step::Done(r)),
    ensures
        call == (Call::CuDeviceGetAttribute { attribute: 76, device: m.device }),
        r is Ok <==> reply_error(minor) is None,
        r matches Ok(c) ==> {
            &&& major.number >= 0 ==> c.0 == major.number
            &&& minor.number >= 0 ==> c.1 == minor.number
            &&& major.number < 0 ==> c.0 == 0
            &&& minor.number < 0 ==> c.1 == 0
        },
{
}

} // verus!

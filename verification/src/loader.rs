//! Loading the driver's libraries and finding their entry points.
//!
//! The driver is distributed as three libraries. All of them have to load, and every
//! entry point has to be there, before anything else is tried.

use vstd::prelude::*;
use crate::driver::{Call, DriverLibrary, Machine, Reply, Step};
use crate::text::join;

verus! {

/// Addresses of the driver's entry points.
#[derive(Copy, Clone, Debug, PartialEq, Eq, Structural)]
pub struct Vtable {
    pub cu_init: u64,
    pub cu_device_get: u64,
    pub cu_device_get_count: u64,
    pub cu_ctx_create_v2: u64,
    pub cu_ctx_destroy_v2: u64,
    pub cu_mem_alloc_v2: u64,
    pub cu_mem_free_v2: u64,
    pub cu_get_error_string: u64,
    pub cu_device_get_name: u64,
    pub cu_driver_get_version: u64,
    pub cu_device_total_mem_v2: u64,
    pub cu_device_get_attribute: u64,
    pub cu_ctx_push_current_v2: u64,
    pub cu_ctx_pop_current_v2: u64,
    pub cu_memcpy_dto_h_v2: u64,
    pub cu_stream_synchronize: u64,
    pub cuvid_create_decoder: u64,
    pub cuvid_destroy_decoder: u64,
    pub cuvid_decode_picture: u64,
    pub cuvid_map_video_frame_64: u64,
    pub cuvid_unmap_video_frame_64: u64,
    pub cuvid_get_decoder_caps: u64,
    pub cuvid_create_video_parser: u64,
    pub cuvid_parse_video_data: u64,
    pub cuvid_destroy_video_parser: u64,
    pub nv_encode_api_create_instance: u64,
}

/// The driver's libraries, by the handles that the host gave them.
#[derive(Copy, Clone, Debug, PartialEq, Eq, Structural)]
pub struct FrameworkSmoke {
    pub libcuda: u64,
    pub libnvcuvid: u64,
    pub libnvenc: u64,
}

/// How many libraries there are.
pub const LIBRARIES: usize = 3;

/// How many entry points there are.
pub const SYMBOLS: usize = 26;

impl DriverLibrary {
    /// The name under which the linker finds a library.
    pub open spec fn file(self) -> Seq<char> {
        match self {
            DriverLibrary::Cuda => "libcuda.so.1"@,
            DriverLibrary::Nvcuvid => "libnvcuvid.so.1"@,
            DriverLibrary::NvEncode => "libnvidia-encode.so.1"@,
        }
    }

    /// The name under which the linker finds a library.
    pub fn path(self) -> (s: &'static str)
        ensures
            s@ == self.file(),
    {
        match self {
            DriverLibrary::Cuda => "libcuda.so.1",
            DriverLibrary::Nvcuvid => "libnvcuvid.so.1",
            DriverLibrary::NvEncode => "libnvidia-encode.so.1",
        }
    }
}

/// The libraries in the order in which they are opened.
pub open spec fn library_at(i: int) -> DriverLibrary {
    if i == 0 {
        DriverLibrary::Cuda
    } else if i == 1 {
        DriverLibrary::Nvcuvid
    } else {
        DriverLibrary::NvEncode
    }
}

/// The library that holds entry point number `i`.
pub open spec fn home_of(i: int) -> DriverLibrary {
    if i < 16 {
        DriverLibrary::Cuda
    } else if i < 25 {
        DriverLibrary::Nvcuvid
    } else {
        DriverLibrary::NvEncode
    }
}

/// The name of entry point number `i`.
pub open spec fn symbol_at(i: int) -> Seq<char> {
    if i == 0 {
        "cuInit"@
    } else if i == 1 {
        "cuDeviceGet"@
    } else if i == 2 {
        "cuDeviceGetCount"@
    } else if i == 3 {
        "cuCtxCreate_v2"@
    } else if i == 4 {
        "cuCtxDestroy_v2"@
    } else if i == 5 {
        "cuMemAlloc_v2"@
    } else if i == 6 {
        "cuMemFree_v2"@
    } else if i == 7 {
        "cuGetErrorString"@
    } else if i == 8 {
        "cuDeviceGetName"@
    } else if i == 9 {
        "cuDriverGetVersion"@
    } else if i == 10 {
        "cuDeviceTotalMem_v2"@
    } else if i == 11 {
        "cuDeviceGetAttribute"@
    } else if i == 12 {
        "cuCtxPushCurrent_v2"@
    } else if i == 13 {
        "cuCtxPopCurrent_v2"@
    } else if i == 14 {
        "cuMemcpyDtoH_v2"@
    } else if i == 15 {
        "cuStreamSynchronize"@
    } else if i == 16 {
        "cuvidCreateDecoder"@
    } else if i == 17 {
        "cuvidDestroyDecoder"@
    } else if i == 18 {
        "cuvidDecodePicture"@
    } else if i == 19 {
        "cuvidMapVideoFrame64"@
    } else if i == 20 {
        "cuvidUnmapVideoFrame64"@
    } else if i == 21 {
        "cuvidGetDecoderCaps"@
    } else if i == 22 {
        "cuvidCreateVideoParser"@
    } else if i == 23 {
        "cuvidParseVideoData"@
    } else if i == 24 {
        "cuvidDestroyVideoParser"@
    } else {
        "NvEncodeAPICreateInstance"@
    }
}

/// The address of entry point number `i`.
pub open spec fn address_of(v: Vtable, i: int) -> u64 {
    if i == 0 {
        v.cu_init
    } else if i == 1 {
        v.cu_device_get
    } else if i == 2 {
        v.cu_device_get_count
    } else if i == 3 {
        v.cu_ctx_create_v2
    } else if i == 4 {
        v.cu_ctx_destroy_v2
    } else if i == 5 {
        v.cu_mem_alloc_v2
    } else if i == 6 {
        v.cu_mem_free_v2
    } else if i == 7 {
        v.cu_get_error_string
    } else if i == 8 {
        v.cu_device_get_name
    } else if i == 9 {
        v.cu_driver_get_version
    } else if i == 10 {
        v.cu_device_total_mem_v2
    } else if i == 11 {
        v.cu_device_get_attribute
    } else if i == 12 {
        v.cu_ctx_push_current_v2
    } else if i == 13 {
        v.cu_ctx_pop_current_v2
    } else if i == 14 {
        v.cu_memcpy_dto_h_v2
    } else if i == 15 {
        v.cu_stream_synchronize
    } else if i == 16 {
        v.cuvid_create_decoder
    } else if i == 17 {
        v.cuvid_destroy_decoder
    } else if i == 18 {
        v.cuvid_decode_picture
    } else if i == 19 {
        v.cuvid_map_video_frame_64
    } else if i == 20 {
        v.cuvid_unmap_video_frame_64
    } else if i == 21 {
        v.cuvid_get_decoder_caps
    } else if i == 22 {
        v.cuvid_create_video_parser
    } else if i == 23 {
        v.cuvid_parse_video_data
    } else if i == 24 {
        v.cuvid_destroy_video_parser
    } else {
        v.nv_encode_api_create_instance
    }
}

/// The library that is opened `i`-th.
fn library(i: usize) -> (l: DriverLibrary)
    ensures
        l == library_at(i as int),
{
    match i {
        0 => DriverLibrary::Cuda,
        1 => DriverLibrary::Nvcuvid,
        _ => DriverLibrary::NvEncode,
    }
}

/// The library that holds entry point number `i`.
fn symbol_library(i: usize) -> (l: DriverLibrary)
    ensures
        l == home_of(i as int),
{
    if i < 16 {
        DriverLibrary::Cuda
    } else if i < 25 {
        DriverLibrary::Nvcuvid
    } else {
        DriverLibrary::NvEncode
    }
}

/// The name of entry point number `i`.
pub fn symbol_name(i: usize) -> (s: &'static str)
    ensures
        s@ == symbol_at(i as int),
{
    match i {
        0 => "cuInit",
        1 => "cuDeviceGet",
        2 => "cuDeviceGetCount",
        3 => "cuCtxCreate_v2",
        4 => "cuCtxDestroy_v2",
        5 => "cuMemAlloc_v2",
        6 => "cuMemFree_v2",
        7 => "cuGetErrorString",
        8 => "cuDeviceGetName",
        9 => "cuDriverGetVersion",
        10 => "cuDeviceTotalMem_v2",
        11 => "cuDeviceGetAttribute",
        12 => "cuCtxPushCurrent_v2",
        13 => "cuCtxPopCurrent_v2",
        14 => "cuMemcpyDtoH_v2",
        15 => "cuStreamSynchronize",
        16 => "cuvidCreateDecoder",
        17 => "cuvidDestroyDecoder",
        18 => "cuvidDecodePicture",
        19 => "cuvidMapVideoFrame64",
        20 => "cuvidUnmapVideoFrame64",
        21 => "cuvidGetDecoderCaps",
        22 => "cuvidCreateVideoParser",
        23 => "cuvidParseVideoData",
        24 => "cuvidDestroyVideoParser",
        _ => "NvEncodeAPICreateInstance",
    }
}

/// The table whose entries are the first addresses of `a`, in order.
fn table_of(a: &Vec<u64>) -> (v: Vtable)
    requires
        a@.len() >= SYMBOLS,
    ensures
        forall|i: int| 0 <= i < SYMBOLS ==> address_of(v, i) == #[trigger] a@[i],
{
    Vtable {
        cu_init: a[0],
        cu_device_get: a[1],
        cu_device_get_count: a[2],
        cu_ctx_create_v2: a[3],
        cu_ctx_destroy_v2: a[4],
        cu_mem_alloc_v2: a[5],
        cu_mem_free_v2: a[6],
        cu_get_error_string: a[7],
        cu_device_get_name: a[8],
        cu_driver_get_version: a[9],
        cu_device_total_mem_v2: a[10],
        cu_device_get_attribute: a[11],
        cu_ctx_push_current_v2: a[12],
        cu_ctx_pop_current_v2: a[13],
        cu_memcpy_dto_h_v2: a[14],
        cu_stream_synchronize: a[15],
        cuvid_create_decoder: a[16],
        cuvid_destroy_decoder: a[17],
        cuvid_decode_picture: a[18],
        cuvid_map_video_frame_64: a[19],
        cuvid_unmap_video_frame_64: a[20],
        cuvid_get_decoder_caps: a[21],
        cuvid_create_video_parser: a[22],
        cuvid_parse_video_data: a[23],
        cuvid_destroy_video_parser: a[24],
        nv_encode_api_create_instance: a[25],
    }
}

/// The message for a library that does not open.
pub open spec fn open_error(library: DriverLibrary, why: Seq<char>) -> Seq<char> {
    "dlopen "@ + library.file() + ": "@ + why
}

/// The message for an entry point that is not found.
pub open spec fn lookup_error(symbol: int, why: Seq<char>) -> Seq<char> {
    "dlsym "@ + symbol_at(symbol) + ": "@ + why
}

fn message(what: &str, name: &str, why: &str) -> (s: String)
    ensures
        s@ == what@ + name@ + ": "@ + why@,
{
    let s = join(what, name);
    let s = join(s.as_str(), ": ");
    join(s.as_str(), why)
}

/// Waits for a library to be opened; `handles` are those of the libraries before it.
pub struct LoadSmoke {
    pub handles: Vec<u64>,
}

impl LoadSmoke {
    /// What follows the reply to the awaited call: the next library in turn, the
    /// handles of all of them, or the first failure.
    pub open spec fn follows(
        self,
        reply: Reply,
        step: Step<LoadSmoke, Result<FrameworkSmoke, String>>,
    ) -> bool {
        let now = self.handles@.len();
        match reply.load_error {
            Some(why) => step matches Step::Done(Err(m)) && m@ == open_error(
                library_at(now as int),
                why@,
            ),
            None => if now + 1 < LIBRARIES {
                &&& step matches Step::Call(call, next)
                &&& call == (Call::DlOpen { library: library_at(now as int + 1) })
                &&& next.handles@ == self.handles@.push(reply.handle)
            } else {
                &&& step matches Step::Done(Ok(f))
                &&& seq![f.libcuda, f.libnvcuvid, f.libnvenc] == self.handles@.push(
                    reply.handle,
                ).take(3)
            },
        }
    }
}

impl Machine for LoadSmoke {
    type Output = Result<FrameworkSmoke, String>;

    fn resume(self, reply: Reply) -> (step: Step<Self, Result<FrameworkSmoke, String>>)
        ensures
            self.follows(reply, step),
    {
        let mut handles = self.handles;
        let now = handles.len();
        match reply.load_error {
            Some(why) => Step::Done(
                Err(message("dlopen ", library(now).path(), why.as_str())),
            ),
            None => {
                handles.push(reply.handle);
                let opened = handles.len();
                if opened < LIBRARIES {
                    Step::Call(Call::DlOpen { library: library(opened) }, LoadSmoke { handles })
                } else {
                    let f = FrameworkSmoke {
                        libcuda: handles[0],
                        libnvcuvid: handles[1],
                        libnvenc: handles[2],
                    };
                    assert(seq![f.libcuda, f.libnvcuvid, f.libnvenc] =~= handles@.take(3));
                    Step::Done(Ok(f))
                }
            },
        }
    }
}

/// Waits for a library to be opened or an entry point to be found.
pub struct LoadVtable {
    /// How many libraries are open.
    pub opened: usize,
    /// The entry points found so far.
    pub addresses: Vec<u64>,
}

impl LoadVtable {
    /// What follows the reply to the awaited call: the next library, the next entry
    /// point, the finished table, or the first failure.
    pub open spec fn follows(
        self,
        reply: Reply,
        step: Step<LoadVtable, Result<Vtable, String>>,
    ) -> bool {
        if self.opened < LIBRARIES {
            match reply.load_error {
                Some(why) => step matches Step::Done(Err(m)) && m@ == open_error(
                    library_at(self.opened as int),
                    why@,
                ),
                None => {
                    &&& step matches Step::Call(call, next)
                    &&& next.opened == self.opened + 1
                    &&& next.addresses == self.addresses
                    &&& call == next.awaits()
                },
            }
        } else {
            match reply.load_error {
                Some(why) => step matches Step::Done(Err(m)) && m@ == lookup_error(
                    self.addresses@.len() as int,
                    why@,
                ),
                None => if self.addresses@.len() + 1 < SYMBOLS {
                    &&& step matches Step::Call(call, next)
                    &&& next.opened == self.opened
                    &&& next.addresses@ == self.addresses@.push(reply.handle)
                    &&& call == next.awaits()
                } else {
                    &&& step matches Step::Done(Ok(v))
                    &&& forall|i: int|
                        0 <= i < SYMBOLS ==> #[trigger] address_of(v, i) == self.addresses@.push(
                            reply.handle,
                        )[i]
                },
            }
        }
    }

    /// The call that is waited for.
    pub open spec fn awaits(self) -> Call {
        if self.opened < LIBRARIES {
            Call::DlOpen { library: library_at(self.opened as int) }
        } else {
            let i = self.addresses@.len();
            Call::DlSym { library: home_of(i as int), symbol: i as usize }
        }
    }
}

impl Machine for LoadVtable {
    type Output = Result<Vtable, String>;

    fn resume(self, reply: Reply) -> (step: Step<Self, Result<Vtable, String>>)
        ensures
            self.follows(reply, step),
    {
        let LoadVtable { opened, mut addresses } = self;
        if opened < LIBRARIES {
            match reply.load_error {
                Some(why) => Step::Done(
                    Err(message("dlopen ", library(opened).path(), why.as_str())),
                ),
                None => {
                    let opened: usize = opened + 1;
                    let call = if opened < LIBRARIES {
                        Call::DlOpen { library: library(opened) }
                    } else {
                        let i = addresses.len();
                        Call::DlSym { library: symbol_library(i), symbol: i }
                    };
                    Step::Call(call, LoadVtable { opened, addresses })
                },
            }
        } else {
            let now = addresses.len();
            match reply.load_error {
                Some(why) => Step::Done(Err(message("dlsym ", symbol_name(now), why.as_str()))),
                None => {
                    addresses.push(reply.handle);
                    let found = addresses.len();
                    if found < SYMBOLS {
                        let call = Call::DlSym { library: symbol_library(found), symbol: found };
                        Step::Call(call, LoadVtable { opened, addresses })
                    } else {
                        Step::Done(Ok(table_of(&addresses)))
                    }
                },
            }
        }
    }
}

/// Opens the driver's libraries without looking into them.
pub fn load_smoke() -> (step: Step<LoadSmoke, Result<FrameworkSmoke, String>>)
    ensures
        step matches Step::Call(call, m) && call == (Call::DlOpen { library: library_at(0) })
            && m.handles@.len() == 0,
{
    Step::Call(Call::DlOpen { library: library(0) }, LoadSmoke { handles: Vec::new() })
}

/// Opens the driver's libraries and finds every entry point.
pub fn load_vtable() -> (step: Step<LoadVtable, Result<Vtable, String>>)
    ensures
        step matches Step::Call(call, m) && call == m.awaits() && m.opened == 0
            && m.addresses@.len() == 0,
{
    Step::Call(
        Call::DlOpen { library: library(0) },
        LoadVtable { opened: 0, addresses: Vec::new() },
    )
}

/// A whole load: each machine with the reply that it was resumed with.
pub type LoadRun = Seq<(LoadVtable, Reply)>;

/// Whether step `i` of a load leads to step `i + 1`.
pub open spec fn leads_on(run: LoadRun, i: int) -> bool {
    run[i].0.follows(run[i].1, Step::Call(run[i + 1].0.awaits(), run[i + 1].0))
}

/// Whether a run is a load from beginning to end, with result `out`.
pub open spec fn is_load(run: LoadRun, out: Result<Vtable, String>) -> bool {
    &&& run.len() > 0
    &&& run[0].0.opened == 0
    &&& run[0].0.addresses@.len() == 0
    &&& forall|i: int| 0 <= i < run.len() - 1 ==> #[trigger] leads_on(run, i)
    &&& run.last().0.follows(run.last().1, Step::Done(out))
}

/// Where a load stands before step `i`.
proof fn lemma_load_position(run: LoadRun, out: Result<Vtable, String>, i: int)
    requires
        is_load(run, out),
        0 <= i < run.len(),
    ensures
        i < LIBRARIES + SYMBOLS,
        run[i].0.opened == (if i < LIBRARIES {
            i
        } else {
            LIBRARIES as int
        }),
        run[i].0.addresses@.len() == (if i < LIBRARIES {
            0
        } else {
            i - LIBRARIES
        }),
        forall|k: int|
            0 <= k < run[i].0.addresses@.len() ==> #[trigger] run[i].0.addresses@[k] == run[LIBRARIES
                + k].1.handle,
        forall|k: int| 0 <= k < i ==> (#[trigger] run[k]).1.load_error is None,
    decreases i,
{
    if i > 0 {
        lemma_load_position(run, out, i - 1);
        assert(leads_on(run, i - 1));
    }
}

/// The driver is loaded if and only if all libraries open and all entry points are
/// found. A load that succeeds has made one call for each of them, and the table
/// holds what the lookups gave. A load that fails stops at the first call that
/// failed, and its message names what was looked for.
pub proof fn load_is_all_or_nothing(run: LoadRun, out: Result<Vtable, String>)
    requires
        is_load(run, out),
    ensures
        run.len() <= LIBRARIES + SYMBOLS,
        forall|k: int| 0 <= k < run.len() - 1 ==> (#[trigger] run[k]).1.load_error is None,
        out is Ok <==> run.last().1.load_error is None,
        out is Ok ==> run.len() == LIBRARIES + SYMBOLS,
        out matches Ok(v) ==> forall|i: int|
            0 <= i < SYMBOLS ==> #[trigger] address_of(v, i) == run[LIBRARIES + i].1.handle,
        out matches Err(m) ==> m@ == (if run.len() <= LIBRARIES {
            open_error(library_at(run.len() - 1), run.last().1.load_error->0@)
        } else {
            lookup_error(run.len() - 1 - LIBRARIES, run.last().1.load_error->0@)
        }),
{
    lemma_load_position(run, out, run.len() - 1);
}

/// The first result of an operation that is run at most once.
pub struct Cached<T> {
    value: Option<T>,
}

impl<T> Cached<T> {
    /// The result, once there is one.
    pub closed spec fn held(self) -> Option<T> {
        self.value
    }

    /// No result yet.
    pub fn new() -> (c: Self)
        ensures
            c.held() is None,
    {
        Cached { value: None }
    }

    /// The result, once there is one.
    pub fn get(&self) -> (r: Option<&T>)
        ensures
            r == (match self.held() {
                Some(t) => Some(&t),
                None => None,
            }),
    {
        match &self.value {
            Some(t) => Some(t),
            None => None,
        }
    }

    /// Keeps a result, unless there is one already.
    pub fn keep(&mut self, value: T)
        ensures
            final(self).held() == (match old(self).held() {
                Some(first) => Some(first),
                None => Some(value),
            }),
    {
        if self.value.is_none() {
            self.value = Some(value);
        }
    }
}

/// The table of entry points as it was first loaded, or why that failed. `None` before
/// the first load.
pub fn vtable(cache: &Cached<Result<Vtable, String>>) -> (r: Option<Result<Vtable, &str>>)
    ensures
        match cache.held() {
            None => r is None,
            Some(Ok(v)) => r == Some(Ok::<Vtable, &str>(v)),
            Some(Err(m)) => r matches Some(Err(s)) && s@ == m@,
        },
{
    match cache.get() {
        None => None,
        Some(Ok(v)) => Some(Ok(*v)),
        Some(Err(m)) => Some(Err(m.as_str())),
    }
}

/// The libraries as they were first opened, or why that failed. `None` before the
/// first attempt.
pub fn framework(cache: &Cached<Result<FrameworkSmoke, String>>) -> (r: Option<
    Result<FrameworkSmoke, &str>,
>)
    ensures
        match cache.held() {
            None => r is None,
            Some(Ok(f)) => r == Some(Ok::<FrameworkSmoke, &str>(f)),
            Some(Err(m)) => r matches Some(Err(s)) && s@ == m@,
        },
{
    match cache.get() {
        None => None,
        Some(Ok(f)) => Some(Ok(*f)),
        Some(Err(m)) => Some(Err(m.as_str())),
    }
}

/// Whether an entry point's address is what the lookup of its name in a library gave.
pub open spec fn looked_up(
    run: LoadRun,
    name: Seq<char>,
    library: DriverLibrary,
    address: u64,
) -> bool {
    exists|k: int|
        #![trigger run[k]]
        0 <= k < run.len() && (run[k].0.awaits() matches Call::DlSym { library: l, symbol } && l
            == library && symbol_at(symbol as int) == name && run[k].1.handle == address)
}

proof fn lemma_looked_up(run: LoadRun, out: Result<Vtable, String>, i: int)
    requires
        is_load(run, out),
        out is Ok,
        0 <= i < SYMBOLS,
    ensures
        looked_up(run, symbol_at(i), home_of(i), address_of(out->Ok_0, i)),
{
    load_is_all_or_nothing(run, out);
    lemma_load_position(run, out, LIBRARIES + i);
    assert(address_of(out->Ok_0, i) == run[LIBRARIES + i].1.handle);
}

/// A table that is loaded holds under each name what the lookup of the vendor's name for
/// that entry point gave, in the library that has it.
pub proof fn each_address_is_under_its_name(run: LoadRun, out: Result<Vtable, String>)
    requires
        is_load(run, out),
    ensures
        out matches Ok(v) ==> {
            &&& looked_up(run, "cuInit"@, DriverLibrary::Cuda, v.cu_init)
            &&& looked_up(run, "cuDeviceGet"@, DriverLibrary::Cuda, v.cu_device_get)
            &&& looked_up(run, "cuDeviceGetCount"@, DriverLibrary::Cuda, v.cu_device_get_count)
            &&& looked_up(run, "cuCtxCreate_v2"@, DriverLibrary::Cuda, v.cu_ctx_create_v2)
            &&& looked_up(run, "cuCtxDestroy_v2"@, DriverLibrary::Cuda, v.cu_ctx_destroy_v2)
            &&& looked_up(run, "cuMemAlloc_v2"@, DriverLibrary::Cuda, v.cu_mem_alloc_v2)
            &&& looked_up(run, "cuMemFree_v2"@, DriverLibrary::Cuda, v.cu_mem_free_v2)
            &&& looked_up(run, "cuGetErrorString"@, DriverLibrary::Cuda, v.cu_get_error_string)
            &&& looked_up(run, "cuDeviceGetName"@, DriverLibrary::Cuda, v.cu_device_get_name)
            &&& looked_up(run, "cuDriverGetVersion"@, DriverLibrary::Cuda, v.cu_driver_get_version)
            &&& looked_up(run, "cuDeviceTotalMem_v2"@, DriverLibrary::Cuda, v.cu_device_total_mem_v2)
            &&& looked_up(run, "cuDeviceGetAttribute"@, DriverLibrary::Cuda, v.cu_device_get_attribute)
            &&& looked_up(run, "cuCtxPushCurrent_v2"@, DriverLibrary::Cuda, v.cu_ctx_push_current_v2)
            &&& looked_up(run, "cuCtxPopCurrent_v2"@, DriverLibrary::Cuda, v.cu_ctx_pop_current_v2)
            &&& looked_up(run, "cuMemcpyDtoH_v2"@, DriverLibrary::Cuda, v.cu_memcpy_dto_h_v2)
            &&& looked_up(run, "cuStreamSynchronize"@, DriverLibrary::Cuda, v.cu_stream_synchronize)
            &&& looked_up(run, "cuvidCreateDecoder"@, DriverLibrary::Nvcuvid, v.cuvid_create_decoder)
            &&& looked_up(run, "cuvidDestroyDecoder"@, DriverLibrary::Nvcuvid, v.cuvid_destroy_decoder)
            &&& looked_up(run, "cuvidDecodePicture"@, DriverLibrary::Nvcuvid, v.cuvid_decode_picture)
            &&& looked_up(run, "cuvidMapVideoFrame64"@, DriverLibrary::Nvcuvid, v.cuvid_map_video_frame_64)
            &&& looked_up(run, "cuvidUnmapVideoFrame64"@, DriverLibrary::Nvcuvid, v.cuvid_unmap_video_frame_64)
            &&& looked_up(run, "cuvidGetDecoderCaps"@, DriverLibrary::Nvcuvid, v.cuvid_get_decoder_caps)
            &&& looked_up(run, "cuvidCreateVideoParser"@, DriverLibrary::Nvcuvid, v.cuvid_create_video_parser)
            &&& looked_up(run, "cuvidParseVideoData"@, DriverLibrary::Nvcuvid, v.cuvid_parse_video_data)
            &&& looked_up(run, "cuvidDestroyVideoParser"@, DriverLibrary::Nvcuvid, v.cuvid_destroy_video_parser)
            &&& looked_up(run, "NvEncodeAPICreateInstance"@, DriverLibrary::NvEncode, v.nv_encode_api_create_instance)
        },
{
    if out is Ok {
        lemma_looked_up(run, out, 0);
        lemma_looked_up(run, out, 1);
        lemma_looked_up(run, out, 2);
        lemma_looked_up(run, out, 3);
        lemma_looked_up(run, out, 4);
        lemma_looked_up(run, out, 5);
        lemma_looked_up(run, out, 6);
        lemma_looked_up(run, out, 7);
        lemma_looked_up(run, out, 8);
        lemma_looked_up(run, out, 9);
        lemma_looked_up(run, out, 10);
        lemma_looked_up(run, out, 11);
        lemma_looked_up(run, out, 12);
        lemma_looked_up(run, out, 13);
        lemma_looked_up(run, out, 14);
        lemma_looked_up(run, out, 15);
        lemma_looked_up(run, out, 16);
        lemma_looked_up(run, out, 17);
        lemma_looked_up(run, out, 18);
        lemma_looked_up(run, out, 19);
        lemma_looked_up(run, out, 20);
        lemma_looked_up(run, out, 21);
        lemma_looked_up(run, out, 22);
        lemma_looked_up(run, out, 23);
        lemma_looked_up(run, out, 24);
        lemma_looked_up(run, out, 25);
    }
}

/// The libraries go by the names under which the vendor installs them, and are opened in
/// this order.
pub proof fn libraries_by_name()
    ensures
        LIBRARIES == 3,
        library_at(0) is Cuda && DriverLibrary::Cuda.file() == "libcuda.so.1"@,
        library_at(1) is Nvcuvid && DriverLibrary::Nvcuvid.file() == "libnvcuvid.so.1"@,
        library_at(2) is NvEncode && DriverLibrary::NvEncode.file() == "libnvidia-encode.so.1"@,
{
}

/// A library or an entry point that is missing is reported by name, with the linker's words.
pub proof fn missing_library_is_named(library: DriverLibrary, symbol: int, why: Seq<char>)
    ensures
        open_error(library, why) == "dlopen "@ + library.file() + ": "@ + why,
        lookup_error(symbol, why) == "dlsym "@ + symbol_at(symbol) + ": "@ + why,
{
}

/// The libraries that are opened without looking into them are each held under their own
/// name: the handle is what the opening of that library gave.
pub proof fn each_library_is_held_under_its_name(
    m: LoadSmoke,
    cuda: Reply,
    nvcuvid_call: Call,
    nvcuvid_m: LoadSmoke,
    nvcuvid: Reply,
    nvenc_call: Call,
    nvenc_m: LoadSmoke,
    nvenc: Reply,
    f: FrameworkSmoke,
)
    requires
        m.handles@.len() == 0,
        m.follows(cuda, Step::Call(nvcuvid_call, nvcuvid_m)),
        nvcuvid_m.follows(nvcuvid, Step::Call(nvenc_call, nvenc_m)),
        nvenc_m.follows(nvenc, Step::Done(Ok(f))),
    ensures
        nvcuvid_call == (Call::DlOpen { library: DriverLibrary::Nvcuvid }),
        nvenc_call == (Call::DlOpen { library: DriverLibrary::NvEncode }),
        f.libcuda == cuda.handle,
        f.libnvcuvid == nvcuvid.handle,
        f.libnvenc == nvenc.handle,
{
    let s = seq![f.libcuda, f.libnvcuvid, f.libnvenc];
    assert(s[0] == f.libcuda && s[1] == f.libnvcuvid && s[2] == f.libnvenc);
}

} // verus!

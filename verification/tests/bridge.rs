//! Codecs and probes against a driver made of memory: what is encoded can be decoded
//! again, and everything that is handed out has to be given back.

use std::collections::HashMap;

use oxideav_nvidia::callback::CallbackState;
use oxideav_nvidia::decoder::{MakeDecoder, NvDecoder};
use oxideav_nvidia::driver::{Call, DriverLibrary, Machine, Reply, Step};
use oxideav_nvidia::encoder::NvEncoder;
use oxideav_nvidia::error::Error;
use oxideav_nvidia::frame::{
    CodecParameters, Frame, Packet, PixelFormat, Rational, TimeBase, VideoFrame, VideoPlane,
};
use oxideav_nvidia::loader::{
    framework, load_smoke, load_vtable, symbol_name, vtable, Cached, FrameworkSmoke, Vtable,
};
use oxideav_nvidia::memory::CallMemory;
use oxideav_nvidia::registration::PRIORITY;
use oxideav_nvidia::report::HwDeviceInfo;
use oxideav_nvidia::setup::{Made, MakeEncoder};
use oxideav_nvidia::sys::{
    nv_enc_codec_av1_guid, nv_enc_codec_h264_guid, nv_enc_codec_hevc_guid,
    nv_enc_h264_profile_high_guid, nv_enc_preset_p4_guid, Guid, NvEncInitializeParams,
    NvEncodeApiFunctionList, CUDA_VIDEO_CHROMA_FORMAT_420, CUVIDDECODECREATEINFO, CUVIDEOFORMAT,
    CUVIDPARSERDISPINFO, CUVIDPARSERPARAMS, NV_ENC_CONFIG_VER, NV_ENC_INITIALIZE_PARAMS_VER,
    NV_ENC_PIC_FLAGS_EOS, NV_ENC_PIC_PARAMS_VER, NV_ENC_PRESET_CONFIG_VER,
    NV_ENC_TUNING_INFO_HIGH_QUALITY,
};
use oxideav_nvidia::{
    engine_info, nvdec_caps, register, Av1NvDecoder, Cuda, CudaVideoCodec, H264NvDecoder,
    H264NvEncoder, HevcNvDecoder, HevcNvEncoder, Mpeg2NvDecoder, NvError, Vp9NvDecoder,
};

const PITCH: usize = 512;
const SURFACES: u64 = 0x10_0000_0000;
const SURFACE_SIZE: u64 = 0x1000_0000;
const INPUT_ADDRESS: u64 = 0x7000_0000;
const OUTPUT_ADDRESS: u64 = 0x7800_0000;

/// A driver in memory.
struct Fake {
    load_error: Option<String>,
    /// Statuses of calls that fail, by name.
    failing: HashMap<&'static str, i32>,
    devices: i32,
    table: NvEncodeApiFunctionList,
    offered: Vec<Guid>,
    last_error: Option<String>,
    /// The calls that were made, in order.
    log: Vec<&'static str>,
    /// What is handed out, by kind.
    live: HashMap<&'static str, i32>,
    next_handle: u64,
    contexts: Vec<i32>,
    parser: Option<CUVIDPARSERPARAMS>,
    decoder: Option<CUVIDDECODECREATEINFO>,
    surfaces: Vec<Vec<u8>>,
    init: Option<NvEncInitializeParams>,
    input: Vec<u8>,
    output: Vec<u8>,
    pictures: Vec<(u64, u32, u64)>,
    /// Whether pictures are kept back until the end.
    keeps_back: bool,
    kept: Vec<Vec<u8>>,
    ended: u32,
    /// A device of which nothing can be had.
    broken: Option<i32>,
    supported: Vec<i32>,
    memory: CallMemory,
}

fn full_table() -> NvEncodeApiFunctionList {
    NvEncodeApiFunctionList {
        version: 1,
        nv_enc_get_encode_guid_count: 1,
        nv_enc_get_encode_guids: 2,
        nv_enc_get_encode_caps: 3,
        nv_enc_initialize_encoder: 4,
        nv_enc_create_input_buffer: 5,
        nv_enc_destroy_input_buffer: 6,
        nv_enc_create_bitstream_buffer: 7,
        nv_enc_destroy_bitstream_buffer: 8,
        nv_enc_encode_picture: 9,
        nv_enc_lock_bitstream: 10,
        nv_enc_unlock_bitstream: 11,
        nv_enc_lock_input_buffer: 12,
        nv_enc_unlock_input_buffer: 13,
        nv_enc_destroy_encoder: 14,
        nv_enc_open_encode_session_ex: 15,
        nv_enc_get_last_error_string: 16,
        nv_enc_get_encode_preset_config_ex: 17,
    }
}

fn call_name(call: &Call) -> &'static str {
    match call {
        Call::DlOpen { .. } => "dlopen",
        Call::DlSym { .. } => "dlsym",
        Call::CuInit { .. } => "cuInit",
        Call::CuDeviceGetCount => "cuDeviceGetCount",
        Call::CuDeviceGet { .. } => "cuDeviceGet",
        Call::CuDeviceGetName { .. } => "cuDeviceGetName",
        Call::CuDeviceTotalMem { .. } => "cuDeviceTotalMem",
        Call::CuDeviceGetAttribute { .. } => "cuDeviceGetAttribute",
        Call::CuDriverGetVersion => "cuDriverGetVersion",
        Call::CuCtxCreate { .. } => "cuCtxCreate",
        Call::CuCtxDestroy { .. } => "cuCtxDestroy",
        Call::CuStreamSynchronize { .. } => "cuStreamSynchronize",
        Call::CuMemcpyDtoH { .. } => "cuMemcpyDtoH",
        Call::CuvidGetDecoderCaps { .. } => "cuvidGetDecoderCaps",
        Call::CuvidCreateVideoParser { .. } => "cuvidCreateVideoParser",
        Call::CuvidParseVideoData { .. } => "cuvidParseVideoData",
        Call::CuvidDestroyVideoParser { .. } => "cuvidDestroyVideoParser",
        Call::CuvidCreateDecoder { .. } => "cuvidCreateDecoder",
        Call::CuvidDecodePicture { .. } => "cuvidDecodePicture",
        Call::CuvidMapVideoFrame { .. } => "cuvidMapVideoFrame",
        Call::CuvidUnmapVideoFrame { .. } => "cuvidUnmapVideoFrame",
        Call::CuvidDestroyDecoder { .. } => "cuvidDestroyDecoder",
        Call::NvEncodeApiCreateInstance { .. } => "NvEncodeAPICreateInstance",
        Call::NvEncOpenEncodeSessionEx { .. } => "nvEncOpenEncodeSessionEx",
        Call::NvEncGetEncodePresetConfigEx { .. } => "nvEncGetEncodePresetConfigEx",
        Call::NvEncInitializeEncoder { .. } => "nvEncInitializeEncoder",
        Call::NvEncCreateInputBuffer { .. } => "nvEncCreateInputBuffer",
        Call::NvEncCreateBitstreamBuffer { .. } => "nvEncCreateBitstreamBuffer",
        Call::NvEncLockInputBuffer { .. } => "nvEncLockInputBuffer",
        Call::NvEncUnlockInputBuffer { .. } => "nvEncUnlockInputBuffer",
        Call::NvEncEncodePicture { .. } => "nvEncEncodePicture",
        Call::NvEncLockBitstream { .. } => "nvEncLockBitstream",
        Call::NvEncUnlockBitstream { .. } => "nvEncUnlockBitstream",
        Call::NvEncDestroyInputBuffer { .. } => "nvEncDestroyInputBuffer",
        Call::NvEncDestroyBitstreamBuffer { .. } => "nvEncDestroyBitstreamBuffer",
        Call::NvEncDestroyEncoder { .. } => "nvEncDestroyEncoder",
        Call::NvEncGetLastErrorString { .. } => "nvEncGetLastErrorString",
        Call::NvEncGetEncodeGuidCount { .. } => "nvEncGetEncodeGUIDCount",
        Call::NvEncGetEncodeGuids { .. } => "nvEncGetEncodeGUIDs",
        Call::NvEncGetEncodeCaps { .. } => "nvEncGetEncodeCaps",
        Call::ReadHost { .. } => "read",
        Call::ReadRows { .. } => "read rows",
        Call::WriteHost { .. } => "write",
    }
}

impl Fake {
    fn new() -> Fake {
        Fake {
            load_error: None,
            failing: HashMap::new(),
            devices: 1,
            table: full_table(),
            offered: vec![
                nv_enc_codec_h264_guid(),
                nv_enc_codec_hevc_guid(),
                nv_enc_codec_av1_guid(),
            ],
            last_error: None,
            log: Vec::new(),
            live: HashMap::new(),
            next_handle: 0x100,
            contexts: Vec::new(),
            parser: None,
            decoder: None,
            surfaces: Vec::new(),
            init: None,
            input: Vec::new(),
            output: Vec::new(),
            pictures: Vec::new(),
            keeps_back: false,
            kept: Vec::new(),
            ended: 0,
            broken: None,
            supported: vec![1, 4, 8, 9, 10, 11],
            memory: CallMemory::new(),
        }
    }

    /// A host without a driver.
    fn absent() -> Fake {
        let mut f = Fake::new();
        f.load_error = Some(format!(
            "dlopen libcuda.so.1: cannot open shared object file"
        ));
        f
    }

    fn failing(name: &'static str, status: i32) -> Fake {
        let mut f = Fake::new();
        f.failing.insert(name, status);
        f
    }

    fn handle(&mut self) -> u64 {
        self.next_handle += 1;
        self.next_handle
    }

    fn take(&mut self, kind: &'static str) {
        *self.live.entry(kind).or_insert(0) += 1;
    }

    fn give(&mut self, kind: &'static str) {
        *self.live.entry(kind).or_insert(0) -= 1;
    }

    fn held(&self) -> i32 {
        for (kind, n) in &self.live {
            assert!(*n >= 0, "{kind} given back too often");
        }
        self.live.values().sum()
    }

    fn count(&self, name: &str) -> usize {
        self.log.iter().filter(|n| **n == name).count()
    }

    fn perform(&mut self, call: Call) -> Reply {
        if let Some(reply) = self.memory.recall(&call) {
            return reply;
        }
        let reply = self.make_call(&call);
        self.memory.remember(&call, &reply);
        reply
    }

    fn make_call(&mut self, call: &Call) -> Reply {
        let name = call_name(call);
        self.log.push(name);
        let mut r = Reply::new();
        if let Some(e) = &self.load_error {
            r.load_error = Some(e.clone());
            return r;
        }
        if let Some(status) = self.failing.get(name) {
            r.status = *status;
            if matches!(call, Call::NvEncOpenEncodeSessionEx { .. }) {
                r.handle = 0x77;
            }
            return r;
        }
        let of_device = match call {
            Call::CuDeviceGetName { device, .. } => Some(*device),
            Call::CuDeviceTotalMem { device } => Some(*device),
            Call::CuDeviceGetAttribute { device, .. } => Some(*device),
            Call::CuCtxCreate { device, .. } => Some(*device),
            _ => None,
        };
        if of_device.is_some() && of_device == self.broken {
            r.status = 46;
            return r;
        }
        match call {
            Call::DlOpen { library } => {
                r.handle = match library {
                    DriverLibrary::Cuda => 0xA,
                    DriverLibrary::Nvcuvid => 0xB,
                    DriverLibrary::NvEncode => 0xC,
                };
            }
            Call::DlSym { symbol, .. } => r.handle = 0x5000 + *symbol as u64,
            Call::CuDeviceGetCount => r.number = self.devices,
            Call::CuDeviceGet { ordinal } => r.number = *ordinal,
            Call::CuDeviceGetName { device, .. } => {
                r.text = Some(if *device == 0 {
                    format!("NVIDIA GeForce RTX 5080")
                } else {
                    format!("NVIDIA device {device}")
                });
            }
            Call::CuDeviceTotalMem { .. } => r.size = 16 << 30,
            Call::CuDeviceGetAttribute { attribute, .. } => {
                r.number = if *attribute == 75 { 12 } else { 0 };
            }
            Call::CuDriverGetVersion => r.number = 12060,
            Call::CuCtxCreate { device, .. } => {
                r.handle = self.handle();
                self.contexts.push(*device);
                self.take("context");
            }
            Call::CuCtxDestroy { .. } => self.give("context"),
            Call::CuMemcpyDtoH { src, len } => {
                let index = ((*src - SURFACES) / SURFACE_SIZE) as usize;
                let start = ((*src - SURFACES) % SURFACE_SIZE) as usize;
                r.bytes = self.surfaces[index][start..start + *len as usize].to_vec();
            }
            Call::CuvidGetDecoderCaps { caps } => {
                r.caps = *caps;
                if self.supported.contains(&caps.e_codec_type) {
                    let deep = caps.n_bit_depth_minus_8 == 2;
                    let can_deep = matches!(caps.e_codec_type, 8 | 10 | 11);
                    r.caps.b_is_supported = if deep && !can_deep { 0 } else { 1 };
                    r.caps.n_num_nvdecs = 2;
                    r.caps.n_max_width = 4096;
                    r.caps.n_max_height = 4096;
                    r.caps.n_max_mb_count = 65536;
                }
            }
            Call::CuvidCreateVideoParser { params } => {
                r.handle = self.handle();
                self.parser = Some(*params);
                self.take("parser");
            }
            Call::CuvidDestroyVideoParser { .. } => self.give("parser"),
            Call::CuvidCreateDecoder { info } => {
                r.handle = self.handle();
                self.decoder = Some(*info);
                self.take("decoder");
            }
            Call::CuvidDestroyDecoder { .. } => self.give("decoder"),
            Call::CuvidMapVideoFrame { picture_index, .. } => {
                r.handle = SURFACES + *picture_index as u64 * SURFACE_SIZE;
                r.pitch = PITCH as u32;
                self.take("surface");
            }
            Call::CuvidUnmapVideoFrame { .. } => self.give("surface"),
            Call::NvEncodeApiCreateInstance { .. } => r.table = self.table,
            Call::NvEncOpenEncodeSessionEx { .. } => {
                r.handle = self.handle();
                self.take("session");
            }
            Call::NvEncDestroyEncoder { .. } => self.give("session"),
            Call::NvEncGetEncodePresetConfigEx {
                encode_guid,
                preset_guid,
                tuning_info,
                config,
                ..
            } => {
                assert!(preset_guid.same(&nv_enc_preset_p4_guid()));
                assert!(!encode_guid.same(&Guid::default()));
                assert_eq!(*tuning_info, NV_ENC_TUNING_INFO_HIGH_QUALITY);
                assert_eq!(config.version, NV_ENC_PRESET_CONFIG_VER);
                assert_eq!(
                    config.preset_cfg.bytes[0..4],
                    NV_ENC_CONFIG_VER.to_le_bytes()
                );
                r.config = config.preset_cfg;
                for i in 0..3584 {
                    r.config.bytes[i] = (i % 251) as u8;
                }
            }
            Call::NvEncInitializeEncoder { params, .. } => self.init = Some(*params),
            Call::NvEncCreateInputBuffer { params, .. } => {
                r.handle = self.handle();
                let rows = params.height as usize + params.height.div_ceil(2) as usize;
                self.input = vec![0xEE; rows * PITCH];
                self.take("input");
            }
            Call::NvEncDestroyInputBuffer { .. } => self.give("input"),
            Call::NvEncCreateBitstreamBuffer { .. } => {
                r.handle = self.handle();
                self.take("output");
            }
            Call::NvEncDestroyBitstreamBuffer { .. } => self.give("output"),
            Call::NvEncLockInputBuffer { .. } => {
                r.handle = INPUT_ADDRESS;
                r.pitch = PITCH as u32;
                self.take("input lock");
            }
            Call::NvEncUnlockInputBuffer { .. } => self.give("input lock"),
            Call::ReadRows { pitch, rows, .. } => {
                r.bytes = self.input[0..*pitch as usize * *rows as usize].to_vec();
            }
            Call::WriteHost { bytes, .. } => {
                assert_eq!(bytes.len(), self.input.len());
                self.input = bytes.clone();
            }
            Call::NvEncEncodePicture { params, .. } => {
                assert_eq!(params.version, NV_ENC_PIC_PARAMS_VER);
                if params.encode_pic_flags == NV_ENC_PIC_FLAGS_EOS {
                    assert_eq!((params.input_buffer, params.input_time_stamp), (0, 0));
                    self.ended += 1;
                    self.output = Vec::new();
                    return r;
                }
                assert_eq!(params.encode_pic_flags, 0);
                self.pictures.push((
                    params.input_time_stamp,
                    params.frame_idx,
                    params.input_duration,
                ));
                let (w, h) = (params.input_width as usize, params.input_height as usize);
                self.output = Vec::new();
                self.output.extend_from_slice(&(w as u32).to_le_bytes());
                self.output.extend_from_slice(&(h as u32).to_le_bytes());
                for row in 0..h + h.div_ceil(2) {
                    let line = &self.input[row * PITCH..row * PITCH + w + w % 2];
                    self.output.extend_from_slice(line);
                }
                if self.keeps_back {
                    self.kept.push(std::mem::take(&mut self.output));
                    r.status = 17;
                }
            }
            Call::NvEncLockBitstream { .. } => {
                if self.ended > 0 && !self.kept.is_empty() {
                    self.output = self.kept.remove(0);
                }
                r.handle = OUTPUT_ADDRESS;
                r.size = self.output.len() as u64;
                self.take("output lock");
            }
            Call::NvEncUnlockBitstream { .. } => self.give("output lock"),
            Call::ReadHost { len, .. } => {
                assert_eq!(*len as usize, self.output.len());
                r.bytes = self.output.clone();
            }
            Call::NvEncGetLastErrorString { .. } => r.text = self.last_error.clone(),
            Call::NvEncGetEncodeGuidCount { .. } => r.count = self.offered.len() as u32,
            Call::NvEncGetEncodeGuids { capacity, .. } => {
                r.guids = vec![Guid::default(); *capacity as usize];
                for (i, g) in self.offered.iter().enumerate() {
                    r.guids[i] = *g;
                }
                r.count = self.offered.len() as u32;
            }
            Call::NvEncGetEncodeCaps { param, .. } => {
                r.number = match param.caps_to_query {
                    16 => 8192,
                    17 => 2048,
                    39 => 1,
                    other => panic!("capability {other}"),
                };
            }
            _ => {}
        }
        r
    }

    fn drive<M: Machine>(&mut self, step: Step<M, M::Output>) -> M::Output {
        let mut step = step;
        loop {
            match step {
                Step::Done(out) => return out,
                Step::Call(call, machine) => step = machine.resume(self.perform(call)),
            }
        }
    }

    fn run(&mut self, calls: Vec<Call>) {
        for call in calls {
            self.perform(call);
        }
    }

    /// The parser: a stream is a row of pictures, each with its size in front, coded
    /// with sixteen rows more than are shown.
    fn parse(&mut self, data: &[u8], timestamp: i64, state: CallbackState) -> (CallbackState, i32) {
        let mut state = state;
        let mut at = 0;
        while at + 8 <= data.len() {
            let w = u32::from_le_bytes([data[at], data[at + 1], data[at + 2], data[at + 3]]);
            let h = u32::from_le_bytes([data[at + 4], data[at + 5], data[at + 6], data[at + 7]]);
            at += 8;
            let mut format = CUVIDEOFORMAT::default();
            format.codec = self.parser.unwrap().codec_type;
            format.coded_width = w;
            format.coded_height = h + 16;
            format.display_right = w as i32;
            format.display_bottom = h as i32;
            format.chroma_format = 1;
            format.min_num_decode_surfaces = 4;
            let go_on;
            (state, go_on) = self.drive(state.sequence(Some(format), None));
            if go_on == 0 {
                return (state, 0);
            }
            let (w, h) = (w as usize, h as usize);
            let line = w + w % 2;
            let mut surface = vec![0u8; PITCH * (h + 16 + (h + 16).div_ceil(2))];
            for row in 0..h {
                surface[row * PITCH..row * PITCH + line].copy_from_slice(&data[at..at + line]);
                at += line;
            }
            for row in 0..h.div_ceil(2) {
                let to = (h + 16 + row) * PITCH;
                surface[to..to + line].copy_from_slice(&data[at..at + line]);
                at += line;
            }
            self.surfaces.push(surface);
            let go_on;
            (state, go_on) = self.drive(state.decode(Some(0x99), None));
            if go_on == 0 {
                return (state, 0);
            }
            let mut info = CUVIDPARSERDISPINFO::default();
            info.picture_index = self.surfaces.len() as i32 - 1;
            info.timestamp = timestamp;
            let go_on;
            (state, go_on) = self.drive(state.display(Some(info), None));
            if go_on == 0 {
                return (state, 0);
            }
        }
        (state, 1)
    }
}

/// A decoder with its driver.
struct Decoding {
    decoder: NvDecoder,
    state: CallbackState,
}

impl Decoding {
    fn send(&mut self, fake: &mut Fake, packet: &Packet) -> Result<(), Error> {
        let load_error = fake.load_error.clone();
        let call = self
            .decoder
            .send_packet(packet.clone(), &self.state, load_error)?;
        let reply = self.feed(fake, call, &packet.data);
        self.decoder.finish_packet(reply, &mut self.state)
    }

    fn feed(&mut self, fake: &mut Fake, call: Call, data: &[u8]) -> Reply {
        let timestamp = match &call {
            Call::CuvidParseVideoData {
                packet, payload, ..
            } => {
                assert_eq!(payload, data);
                assert_eq!(packet.payload_size as usize, data.len());
                assert_eq!(packet.has_payload, !data.is_empty());
                if packet.flags & 2 != 0 {
                    packet.timestamp
                } else {
                    0
                }
            }
            other => panic!("{} is no way to feed a parser", call_name(other)),
        };
        let reply = fake.perform(call);
        if reply.status == 0 {
            let state = std::mem::replace(&mut self.state, CallbackState::new());
            (self.state, _) = fake.parse(data, timestamp, state);
        }
        reply
    }

    fn receive(&mut self) -> Result<Frame, Error> {
        self.decoder.receive_frame(&mut self.state)
    }

    fn flush(&mut self, fake: &mut Fake) -> Result<(), Error> {
        let loaded = fake.load_error.is_none();
        if let Some(call) = self.decoder.flush(&self.state, loaded)? {
            self.feed(fake, call, &[]);
        }
        self.decoder.finish_flush(&mut self.state);
        Ok(())
    }

    fn close(self, fake: &mut Fake) {
        let Decoding { decoder, mut state } = self;
        let calls = decoder.close(&mut state, true);
        assert_eq!(state.decoder, 0);
        fake.run(calls);
    }
}

type DecoderMake = fn(&CodecParameters) -> Step<MakeDecoder, Result<NvDecoder, Error>>;
type EncoderMake = fn(&CodecParameters) -> Step<MakeEncoder, Made>;

fn make_decoder(fake: &mut Fake, make: DecoderMake, p: &CodecParameters) -> Result<Decoding, Error> {
    let decoder = fake.drive(make(p))?;
    Ok(Decoding {
        decoder,
        state: CallbackState::new(),
    })
}

fn make_encoder(fake: &mut Fake, make: EncoderMake, p: &CodecParameters) -> Result<NvEncoder, Error> {
    fake.drive(make(p))
}

fn send_frame(fake: &mut Fake, enc: &mut NvEncoder, frame: Frame) -> Result<(), Error> {
    let step = enc.send_frame(frame);
    let sent = fake.drive(step);
    enc.finish_frame(sent)
}

fn flush_encoder(fake: &mut Fake, enc: &mut NvEncoder) -> Result<(), Error> {
    let step = enc.flush();
    let drained = fake.drive(step);
    enc.finish_flush(drained)
}

fn video(codec: &str) -> CodecParameters {
    CodecParameters::video(codec)
}

fn init(fake: &mut Fake) -> Result<Cuda, NvError> {
    fake.drive(Cuda::init())
}

fn cuda_available(fake: &mut Fake) -> bool {
    match init(fake) {
        Ok(c) => fake.drive(c.device_count()).map(|n| n > 0).unwrap_or(false),
        Err(_) => false,
    }
}

fn devices(fake: &mut Fake) -> Vec<HwDeviceInfo> {
    fake.drive(engine_info()).devices
}

// ---------------------------------------------------------------- loading

fn load_libraries(fake: &mut Fake) -> Result<FrameworkSmoke, String> {
    fake.drive(load_smoke())
}

fn load_symbols(fake: &mut Fake) -> Result<Vtable, String> {
    fake.drive(load_vtable())
}

#[test]
fn frameworks_load() {
    let mut cache = Cached::new();
    assert!(framework(&cache).is_none());
    cache.keep(load_libraries(&mut Fake::new()));
    cache.keep(Err(format!("too late")));
    let fw = framework(&cache).unwrap().expect("framework load");
    assert_eq!((fw.libcuda, fw.libnvcuvid, fw.libnvenc), (0xA, 0xB, 0xC));
}

#[test]
fn vtable_resolves() {
    let mut fake = Fake::new();
    let mut cache = Cached::new();
    cache.keep(load_symbols(&mut fake));
    let v = vtable(&cache).unwrap().expect("vtable load");
    assert_eq!(v.cu_init, 0x5000);
    assert_eq!(v.cu_device_get, 0x5001);
    assert_eq!(fake.count("dlopen"), 3);
    assert_eq!(fake.count("dlsym"), 26);
}

#[test]
fn a_library_that_is_missing_is_named() {
    let mut fake = Fake::absent();
    let e = load_symbols(&mut fake).unwrap_err();
    assert!(e.contains("libcuda.so.1"), "{e}");
    assert_eq!(fake.log, vec!["dlopen"]);
    let e = load_libraries(&mut Fake::absent()).err().unwrap();
    assert!(e.contains("libcuda.so.1"), "{e}");
}

#[test]
fn a_symbol_that_is_missing_is_named() {
    // Libraries open, lookups do not.
    let mut fake = Fake::new();
    let mut step = load_vtable();
    let mut asked = 0;
    let e = loop {
        step = match step {
            Step::Done(out) => break out.unwrap_err(),
            Step::Call(call, m) => {
                let mut reply = fake.perform(call);
                if matches!(fake.log.last(), Some(&"dlsym")) {
                    asked += 1;
                    if asked == 3 {
                        reply.load_error = Some(format!("undefined symbol"));
                    }
                }
                m.resume(reply)
            }
        };
    };
    assert!(e.contains(symbol_name(2)), "{e}");
    assert!(e.contains("undefined symbol"), "{e}");
    assert_eq!(asked, 3);
}

#[test]
fn the_driver_is_initialised_once() {
    let mut fake = Fake::new();
    for _ in 0..4 {
        init(&mut fake).unwrap();
    }
    assert_eq!(fake.count("cuInit"), 1);

    let mut fake = Fake::failing("cuInit", 999);
    assert_eq!(init(&mut fake).unwrap_err().code, 999);
    fake.failing.clear();
    assert_eq!(init(&mut fake).unwrap_err().code, 999);
}

// ---------------------------------------------------------------- devices

#[test]
fn cuda_init_error_kind_is_unavailable_on_no_gpu_hosts() {
    let e = init(&mut Fake::absent()).unwrap_err();
    let kind = e.kind();
    assert!(
        kind.is_unavailable(),
        "expected an `is_unavailable` kind on a no-NVIDIA host, got {kind:?} (code {})",
        e.code
    );
    assert!(
        e.is_unavailable(),
        "NvError::is_unavailable() must remain true for the no-GPU error path"
    );
}

#[test]
fn cuda_init_succeeds() {
    assert!(init(&mut Fake::new()).is_ok());
}

#[test]
fn lists_at_least_one_device() {
    let mut fake = Fake::new();
    let cuda = init(&mut fake).unwrap();
    let n = fake.drive(cuda.device_count()).expect("cuDeviceGetCount");
    assert!(n >= 1, "expected at least one device, got {n}");
}

#[test]
fn device_zero_reports_name_and_memory() {
    let mut fake = Fake::new();
    let cuda = init(&mut fake).unwrap();
    let dev = fake.drive(cuda.device(0)).expect("cuDeviceGet(0)");
    assert_eq!(dev.handle(), 0);
    let name = fake.drive(dev.name()).expect("cuDeviceGetName");
    assert!(!name.is_empty(), "device name was empty");
    let mem = fake.drive(dev.total_memory_bytes()).expect("cuDeviceTotalMem_v2");
    assert!(mem > 1u64 << 30, "expected > 1 GiB device memory, got {mem} bytes");
}

#[test]
fn device_zero_reports_compute_capability() {
    let mut fake = Fake::new();
    let cuda = init(&mut fake).unwrap();
    let dev = fake.drive(cuda.device(0)).expect("cuDeviceGet(0)");
    let (major, minor) = fake.drive(dev.compute_capability()).expect("cuDeviceGetAttribute");
    assert!(
        major >= 5,
        "expected compute capability major >= 5, got {major}.{minor}"
    );
    assert_eq!((major, minor), (12, 0));
}

#[test]
fn nvdec_h264_supported_on_device_zero() {
    let mut fake = Fake::new();
    let cuda = init(&mut fake).unwrap();
    let dev = fake.drive(cuda.device(0)).expect("cuDeviceGet(0)");
    let ctx = fake.drive(cuda.create_context_for(&dev)).expect("cuCtxCreate_v2 on device 0");
    let caps = fake
        .drive(nvdec_caps(CudaVideoCodec::H264, CUDA_VIDEO_CHROMA_FORMAT_420, 8))
        .expect("cuvidGetDecoderCaps for H264 / 4:2:0 / 8-bit");
    assert_eq!(
        caps.is_supported, 1,
        "NVDEC reported H264 4:2:0 8-bit unsupported on this GPU"
    );
    assert!(caps.max_width >= 1920, "max_width too small: {}", caps.max_width);
    assert!(caps.max_height >= 1080, "max_height too small: {}", caps.max_height);
    assert_eq!(caps.bit_depth, 8);
    let call = ctx.release().unwrap();
    fake.perform(call);
    assert_eq!(fake.held(), 0);
}

#[test]
fn a_device_count_below_zero_is_an_error() {
    let mut fake = Fake::new();
    fake.devices = -3;
    let cuda = init(&mut fake).unwrap();
    let e = fake.drive(cuda.device_count()).unwrap_err();
    assert_eq!(e.code, -1);
    assert_eq!(e.message, "cuDeviceGetCount returned negative: -3");
}

#[test]
fn statuses_keep_the_words_of_the_driver() {
    let e = NvError::from_cu(Some((0, Some(format!("out of memory")))), 2);
    assert_eq!(e.to_string(), "NvError(2): out of memory");
    assert!(!e.is_unavailable());
    let e = NvError::from_cu(Some((1, Some(format!("ignored")))), 2);
    assert_eq!(e.to_string(), "NvError(2): CUresult 2");
    let e = NvError::from_cu(Some((0, None)), -7);
    assert_eq!(e.to_string(), "NvError(-7): CUresult -7");
    let e = NvError::from_cu(None, 100);
    assert_eq!(e.to_string(), "NvError(100): CUresult 100");
    assert!(e.is_unavailable());
    let e = NvError::from_cu(Some((0, Some(format!("no CUDA-capable device")))), 3);
    assert!(e.is_unavailable());
}

// ---------------------------------------------------------------- decoders

#[test]
fn nvdec_h264_make_returns_unsupported_with_no_gpu() {
    let mut fake = Fake::absent();
    assert!(!cuda_available(&mut fake));
    let r = make_decoder(&mut fake, H264NvDecoder::make, &video("h264"));
    assert!(
        r.is_err(),
        "expected H264NvDecoder::make to fail on a no-GPU host"
    );
    match r.err().unwrap() {
        Error::Unsupported(m) => assert_eq!(
            m,
            "nvidia: NvError(-1): dlopen libcuda.so.1: cannot open shared object file"
        ),
        other => panic!("{other:?}"),
    }
}

#[test]
fn vp9_make_returns_unsupported_with_no_gpu() {
    let mut fake = Fake::absent();
    let err = make_decoder(&mut fake, Vp9NvDecoder::make, &video("vp9")).err().expect(
        "Vp9NvDecoder::make must Err with no GPU; the registry needs Err to try the SW fallback",
    );
    assert!(matches!(err, Error::Unsupported(_)));
}

#[test]
fn vp9_make_constructs_decoder_on_supported_host() {
    let mut fake = Fake::new();
    let dec = make_decoder(&mut fake, Vp9NvDecoder::make, &video("vp9"))
        .expect("Vp9NvDecoder::make on NVDEC-VP9-capable host");
    assert_eq!(dec.decoder.codec_id().as_str(), "vp9");
    let parser = fake.parser.unwrap();
    assert_eq!((parser.codec_type, parser.flags), (10, 0));
    dec.close(&mut fake);
    assert_eq!(fake.held(), 0);
}

#[test]
fn mpeg2_make_returns_unsupported_with_no_gpu() {
    let mut fake = Fake::absent();
    let err = make_decoder(&mut fake, Mpeg2NvDecoder::make, &video("mpeg2video")).err().expect(
        "Mpeg2NvDecoder::make must Err with no GPU; the registry needs Err to try the SW fallback",
    );
    assert!(matches!(err, Error::Unsupported(_)));
}

#[test]
fn mpeg2_make_constructs_decoder_on_supported_host() {
    let mut fake = Fake::new();
    let dec = make_decoder(&mut fake, Mpeg2NvDecoder::make, &video("mpeg2video"))
        .expect("Mpeg2NvDecoder::make on NVDEC-MPEG-2-capable host");
    assert_eq!(dec.decoder.codec_id().as_str(), "mpeg2video");
    let parser = fake.parser.unwrap();
    assert_eq!((parser.codec_type, parser.flags), (1, 0));
}

#[test]
fn parsers_know_their_codec_and_framing() {
    let cases: [(DecoderMake, &str, i32, u32); 3] = [
        (H264NvDecoder::make, "h264", 4, 1),
        (HevcNvDecoder::make, "hevc", 8, 1),
        (Av1NvDecoder::make, "av1", 11, 0),
    ];
    for (make, id, codec, flags) in cases {
        let mut fake = Fake::new();
        let dec = make_decoder(&mut fake, make, &video(id)).ok().unwrap();
        assert_eq!(dec.decoder.codec_id().as_str(), id);
        let parser = fake.parser.unwrap();
        assert_eq!((parser.codec_type, parser.flags), (codec, flags));
        assert_eq!(parser.ul_max_num_decode_surfaces, 8);
    }
}

#[test]
fn device_index_none_uses_default_device() {
    let mut fake = Fake::new();
    let h264 = video("h264");
    assert!(
        h264.device_index.is_none(),
        "default builder must leave device_index = None"
    );
    make_decoder(&mut fake, H264NvDecoder::make, &h264).ok().unwrap();
    make_decoder(&mut fake, HevcNvDecoder::make, &video("hevc")).ok().unwrap();
    make_decoder(&mut fake, Av1NvDecoder::make, &video("av1")).ok().unwrap();
    make_encoder(&mut fake, H264NvEncoder::make, &video("h264")).ok().unwrap();
    make_encoder(&mut fake, HevcNvEncoder::make, &video("hevc")).ok().unwrap();
    assert_eq!(fake.contexts, vec![0; 5]);
}

#[test]
fn device_index_zero_explicit_works() {
    let mut fake = Fake::new();
    let p_h264 = video("h264").with_device_index(0);
    let p_hevc = video("hevc").with_device_index(0);
    let p_av1 = video("av1").with_device_index(0);
    assert_eq!(p_h264.device_index, Some(0));
    make_decoder(&mut fake, H264NvDecoder::make, &p_h264).ok().unwrap();
    make_decoder(&mut fake, HevcNvDecoder::make, &p_hevc).ok().unwrap();
    make_decoder(&mut fake, Av1NvDecoder::make, &p_av1).ok().unwrap();
    make_encoder(&mut fake, H264NvEncoder::make, &p_h264).ok().unwrap();
    make_encoder(&mut fake, HevcNvEncoder::make, &p_hevc).ok().unwrap();
    assert_eq!(fake.contexts, vec![0; 5]);
}

#[test]
fn device_index_out_of_range_errors() {
    let mut fake = Fake::new();
    let bad = 99u32;
    let p_h264 = video("h264").with_device_index(bad);
    let p_hevc = video("hevc").with_device_index(bad);
    let p_av1 = video("av1").with_device_index(bad);
    let errors = vec![
        make_decoder(&mut fake, H264NvDecoder::make, &p_h264).err(),
        make_decoder(&mut fake, HevcNvDecoder::make, &p_hevc).err(),
        make_decoder(&mut fake, Av1NvDecoder::make, &p_av1).err(),
        make_encoder(&mut fake, H264NvEncoder::make, &p_h264).err(),
        make_encoder(&mut fake, HevcNvEncoder::make, &p_hevc).err(),
    ];
    for e in errors {
        match e.expect("make must reject device_index = 99") {
            Error::Unsupported(m) => {
                assert_eq!(m, "nvidia: device_index 99 out of range (0..1)")
            }
            other => panic!("{other:?}"),
        }
    }
}

#[test]
fn a_second_device_can_be_chosen() {
    let mut fake = Fake::new();
    fake.devices = 3;
    let p = video("h264").with_device_index(2);
    make_decoder(&mut fake, H264NvDecoder::make, &p).ok().unwrap();
    make_encoder(&mut fake, H264NvEncoder::make, &p).ok().unwrap();
    assert_eq!(fake.contexts, vec![2, 2]);
}

#[test]
fn a_host_without_devices_is_unsupported() {
    let mut fake = Fake::new();
    fake.devices = 0;
    let e = make_decoder(&mut fake, H264NvDecoder::make, &video("h264")).err().unwrap();
    assert_eq!(
        e,
        Error::Unsupported(format!("nvidia: no CUDA devices visible"))
    );
    let e = make_encoder(&mut fake, H264NvEncoder::make, &video("h264")).err().unwrap();
    assert_eq!(
        e,
        Error::Unsupported(format!("nvidia: no CUDA devices visible"))
    );
}

#[test]
fn a_decoder_that_cannot_be_made_leaves_nothing_behind() {
    for name in ["cuInit", "cuDeviceGetCount", "cuDeviceGet", "cuCtxCreate"] {
        let mut fake = Fake::failing(name, 2);
        let e = make_decoder(&mut fake, H264NvDecoder::make, &video("h264")).err().unwrap();
        assert_eq!(
            e,
            Error::Unsupported(format!("nvidia: NvError(2): CUresult 2")),
            "{name}"
        );
        assert_eq!(fake.held(), 0, "{name}");
    }
    let mut fake = Fake::failing("cuvidCreateVideoParser", 1);
    let e = make_decoder(&mut fake, H264NvDecoder::make, &video("h264")).err().unwrap();
    assert_eq!(
        e,
        Error::Other(format!("nvidia parser: NvError(1): CUresult 1"))
    );
    assert_eq!(fake.count("cuCtxDestroy"), 1);
    assert_eq!(fake.held(), 0);
    let mut fake = Fake::failing("cuvidCreateVideoParser", 100);
    let e = make_decoder(&mut fake, H264NvDecoder::make, &video("h264")).err().unwrap();
    assert_eq!(
        e,
        Error::Unsupported(format!("nvidia: NvError(100): CUresult 100"))
    );
    assert_eq!(fake.held(), 0);
}

/// One picture in the stream format of the parser in memory.
fn coded_picture(w: usize, h: usize, fill: u8) -> Vec<u8> {
    let mut v = Vec::new();
    v.extend_from_slice(&(w as u32).to_le_bytes());
    v.extend_from_slice(&(h as u32).to_le_bytes());
    for row in 0..h + h.div_ceil(2) {
        for col in 0..w + w % 2 {
            v.push(fill.wrapping_add((row * 3 + col * 5) as u8));
        }
    }
    v
}

fn packet(data: Vec<u8>) -> Packet {
    Packet::new(0, TimeBase { num: 1, den: 30 }, data)
}

fn picture(frame: Frame) -> VideoFrame {
    match frame {
        Frame::Video(v) => v,
        Frame::Other => panic!("expected video frame"),
    }
}

#[test]
fn pictures_come_out_cropped_and_in_order() {
    let mut fake = Fake::new();
    let mut dec = make_decoder(&mut fake, H264NvDecoder::make, &video("h264")).ok().unwrap();
    assert_eq!(dec.receive().unwrap_err(), Error::NeedMore);
    let mut data = coded_picture(64, 48, 1);
    data.extend_from_slice(&coded_picture(64, 48, 100));
    dec.send(&mut fake, &packet(data).with_pts(77)).unwrap();
    for fill in [1u8, 100] {
        let v = picture(dec.receive().unwrap());
        assert_eq!(v.pts, Some(77));
        assert_eq!(v.planes.len(), 3);
        assert_eq!(v.planes[0].stride, 64);
        assert_eq!(v.planes[0].data.len(), 64 * 48);
        assert_eq!(v.planes[0].data[2 * 64 + 7], fill.wrapping_add(6 + 35));
        assert_eq!(v.planes[1].stride, 32);
        assert_eq!(v.planes[1].data.len(), 32 * 24);
        // Row 3 of chroma is line 51 of the stream; column 4 starts at byte 8.
        assert_eq!(
            v.planes[1].data[3 * 32 + 4],
            fill.wrapping_add((51 * 3 + 8 * 5) as u8)
        );
        assert_eq!(
            v.planes[2].data[3 * 32 + 4],
            fill.wrapping_add((51 * 3 + 9 * 5) as u8)
        );
    }
    assert_eq!(dec.receive().unwrap_err(), Error::NeedMore);
    dec.flush(&mut fake).unwrap();
    assert_eq!(dec.receive().unwrap_err(), Error::Eof);
    assert_eq!(dec.receive().unwrap_err(), Error::Eof);
    // More data reopens the stream.
    dec.send(&mut fake, &packet(Vec::new())).unwrap();
    assert_eq!(dec.receive().unwrap_err(), Error::NeedMore);
    assert_eq!(fake.count("cuvidCreateDecoder"), 2);
    assert_eq!(fake.count("cuvidDestroyDecoder"), 1);
    dec.close(&mut fake);
    assert_eq!(fake.log.last(), Some(&"cuCtxDestroy"));
    assert_eq!(fake.held(), 0);
}

#[test]
fn untimed_packets_give_untimed_pictures() {
    let mut fake = Fake::new();
    let mut dec = make_decoder(&mut fake, H264NvDecoder::make, &video("h264")).ok().unwrap();
    dec.send(&mut fake, &packet(coded_picture(16, 16, 0))).unwrap();
    assert_eq!(picture(dec.receive().unwrap()).pts, None);
    let info = fake.decoder.unwrap();
    assert_eq!((info.ul_width, info.ul_height), (16, 32));
    assert_eq!(info.ul_num_decode_surfaces, 8);
    assert_eq!(info.ul_num_output_surfaces, 2);
    assert_eq!(info.ul_creation_flags, 4);
    assert_eq!(info.codec_type, 4);
    assert_eq!((info.display_right, info.display_bottom), (16, 16));
    assert_eq!((info.target_right, info.target_bottom), (16, 32));
}

#[test]
fn what_goes_wrong_in_a_callback_is_reported() {
    let cases = [
        ("cuvidCreateDecoder", "cuvidCreateDecoder failed: CUresult 2"),
        ("cuvidDecodePicture", "cuvidDecodePicture failed: CUresult 2"),
        ("cuvidMapVideoFrame", "cuvidMapVideoFrame64 failed: CUresult 2"),
        ("cuStreamSynchronize", "cuStreamSynchronize failed: CUresult 2"),
        ("cuMemcpyDtoH", "cuMemcpyDtoH_v2 (Y) failed: CUresult 2"),
    ];
    for (name, message) in cases {
        let mut fake = Fake::failing(name, 2);
        let mut dec = make_decoder(&mut fake, H264NvDecoder::make, &video("h264")).ok().unwrap();
        let e = dec.send(&mut fake, &packet(coded_picture(16, 16, 0))).unwrap_err();
        assert_eq!(e, Error::Other(format!("{message}")));
        assert_eq!(
            fake.count("cuvidMapVideoFrame") > 0 && name != "cuvidMapVideoFrame",
            fake.count("cuvidUnmapVideoFrame") == 1,
            "{name}"
        );
        // The first error stays, and nothing more is fed.
        fake.failing.clear();
        let fed = fake.count("cuvidParseVideoData");
        let e = dec.send(&mut fake, &packet(coded_picture(16, 16, 0))).unwrap_err();
        assert_eq!(e, Error::Other(format!("{message}")));
        assert_eq!(fake.count("cuvidParseVideoData"), fed);
        // It has been reported, so the stream can be brought to its end.
        assert_eq!(dec.receive().unwrap_err(), Error::NeedMore);
        dec.flush(&mut fake).unwrap();
        assert_eq!(fake.count("cuvidParseVideoData"), fed + 1);
        assert_eq!(dec.receive().unwrap_err(), Error::Eof);
        // A packet is refused for good.
        let e = dec.send(&mut fake, &packet(coded_picture(16, 16, 0))).unwrap_err();
        assert_eq!(e, Error::Other(format!("{message}")));
        assert_eq!(dec.receive().unwrap_err(), Error::NeedMore);
        dec.close(&mut fake);
        assert_eq!(fake.held(), 0, "{name}");
    }
}

#[test]
fn an_error_at_the_end_is_reported_next() {
    let mut fake = Fake::new();
    let mut dec = make_decoder(&mut fake, H264NvDecoder::make, &video("h264")).ok().unwrap();
    dec.send(&mut fake, &packet(coded_picture(16, 16, 0))).unwrap();
    // The parser still has a picture when the stream ends, and cannot show it.
    let call = dec.decoder.flush(&dec.state, true).unwrap().unwrap();
    fake.perform(call);
    fake.failing.insert("cuvidMapVideoFrame", 5);
    let state = std::mem::replace(&mut dec.state, CallbackState::new());
    let go_on;
    (dec.state, go_on) = fake.drive(state.display(Some(CUVIDPARSERDISPINFO::default()), None));
    assert_eq!(go_on, 0);
    dec.decoder.finish_flush(&mut dec.state);
    let e = dec.receive().unwrap_err();
    assert_eq!(
        e,
        Error::Other(format!("cuvidMapVideoFrame64 failed: CUresult 5"))
    );
    assert_eq!(dec.decoder.output_queue.len(), 1);
    // Once it has been reported, what was decoded before it comes out.
    assert!(picture(dec.receive().unwrap()).pts.is_none());
    assert_eq!(dec.receive().unwrap_err(), Error::Eof);
}

#[test]
fn a_failure_keeps_no_picture_back() {
    let mut fake = Fake::new();
    let mut dec = make_decoder(&mut fake, H264NvDecoder::make, &video("h264")).ok().unwrap();
    dec.send(&mut fake, &packet(coded_picture(16, 16, 3)).with_pts(5)).unwrap();
    fake.failing.insert("cuvidDecodePicture", 2);
    let message = Error::Other(format!("cuvidDecodePicture failed: CUresult 2"));
    let e = dec.send(&mut fake, &packet(coded_picture(16, 16, 4)).with_pts(6)).unwrap_err();
    assert_eq!(e, message);
    let v = picture(dec.receive().unwrap());
    assert_eq!(v.pts, Some(5));
    assert_eq!(v.planes[0].data[0], 3);
    assert_eq!(dec.receive().unwrap_err(), Error::NeedMore);

    // Put on record while nobody asked: the flush reports it, and the next one ends.
    let mut fake = Fake::new();
    let mut dec = make_decoder(&mut fake, H264NvDecoder::make, &video("h264")).ok().unwrap();
    dec.send(&mut fake, &packet(coded_picture(16, 16, 3)).with_pts(5)).unwrap();
    fake.failing.insert("cuvidDecodePicture", 2);
    let state = std::mem::replace(&mut dec.state, CallbackState::new());
    (dec.state, _) = fake.drive(state.decode(Some(1), None));
    let fed = fake.count("cuvidParseVideoData");
    assert_eq!(dec.flush(&mut fake).unwrap_err(), message);
    assert_eq!(fake.count("cuvidParseVideoData"), fed);
    assert!(!dec.decoder.flushed);
    dec.flush(&mut fake).unwrap();
    assert_eq!(fake.count("cuvidParseVideoData"), fed + 1);
    assert_eq!(picture(dec.receive().unwrap()).pts, Some(5));
    assert_eq!(dec.receive().unwrap_err(), Error::Eof);
}

#[test]
fn chroma_that_cannot_be_copied_is_reported() {
    let mut fake = Fake::new();
    let mut dec = make_decoder(&mut fake, H264NvDecoder::make, &video("h264")).ok().unwrap();
    let (state, _) = fake.drive(CallbackState::new().sequence(
        Some(CUVIDEOFORMAT {
            coded_width: 16,
            coded_height: 16,
            ..CUVIDEOFORMAT::default()
        }),
        None,
    ));
    let mut step = state.display(Some(CUVIDPARSERDISPINFO::default()), None);
    fake.surfaces.push(vec![9; PITCH * 24]);
    let mut copies = 0;
    let (state, go_on) = loop {
        step = match step {
            Step::Done(out) => break out,
            Step::Call(call, m) => {
                let mut reply = fake.perform(call);
                if matches!(fake.log.last(), Some(&"cuMemcpyDtoH")) {
                    copies += 1;
                    if copies == 2 {
                        reply.status = 700;
                    }
                }
                m.resume(reply)
            }
        };
    };
    assert_eq!(go_on, 0);
    assert_eq!(
        state.error.as_deref(),
        Some("cuMemcpyDtoH_v2 (UV) failed: CUresult 700")
    );
    assert_eq!(fake.count("cuvidUnmapVideoFrame"), 1);
    dec.state = state;
    dec.close(&mut fake);
    assert_eq!(fake.held(), 0);
}

#[test]
fn callbacks_without_a_driver_say_so() {
    let mut fake = Fake::new();
    let gone = || Some(format!("gone"));
    let (s, r) = fake.drive(CallbackState::new().sequence(Some(CUVIDEOFORMAT::default()), gone()));
    assert_eq!((r, s.error.as_deref()), (0, Some("seq_callback vtable: gone")));
    let (s, r) = fake.drive(CallbackState::new().decode(Some(1), gone()));
    assert_eq!((r, s.error.as_deref()), (0, Some("decode_callback vtable: gone")));
    let (s, r) = fake.drive(CallbackState::new().display(Some(Default::default()), gone()));
    assert_eq!((r, s.error.as_deref()), (0, Some("display_callback vtable: gone")));
    let (s, r) = fake.drive(CallbackState::new().decode(Some(1), None));
    assert_eq!(
        (r, s.error.as_deref()),
        (0, Some("decode_callback: decoder not yet created"))
    );
    let (s, r) = fake.drive(CallbackState::new().display(Some(Default::default()), None));
    assert_eq!((r, s.error), (0, None));
    let (s, r) = fake.drive(CallbackState::new().sequence(None, None));
    assert_eq!((r, s.error), (0, None));
    assert!(fake.log.is_empty());
}

#[test]
fn a_parser_that_refuses_is_reported() {
    let mut fake = Fake::failing("cuvidParseVideoData", 1);
    let mut dec = make_decoder(&mut fake, H264NvDecoder::make, &video("h264")).ok().unwrap();
    let e = dec.send(&mut fake, &packet(vec![1, 2, 3])).unwrap_err();
    assert_eq!(
        e,
        Error::Other(format!("cuvidParseVideoData failed: CUresult 1"))
    );
    fake.load_error = Some(format!("unplugged"));
    let e = dec.send(&mut fake, &packet(vec![1, 2, 3])).unwrap_err();
    assert_eq!(e, Error::Unsupported(format!("nvidia: unplugged")));
    dec.flush(&mut fake).unwrap();
    assert_eq!(dec.receive().unwrap_err(), Error::Eof);
}

#[test]
fn odd_formats_are_taken_as_they_are() {
    let mut fake = Fake::new();
    let format = CUVIDEOFORMAT {
        coded_width: 40000,
        coded_height: 17,
        display_left: -5,
        display_top: 3,
        display_right: 30,
        display_bottom: 1,
        min_num_decode_surfaces: 20,
        bit_depth_luma_minus8: 2,
        ..CUVIDEOFORMAT::default()
    };
    let (s, r) = fake.drive(CallbackState::new().sequence(Some(format), None));
    assert_eq!(r, 1);
    let g = s.geometry;
    assert_eq!((g.display_w, g.display_h), (35, 17));
    assert_eq!((g.display_left, g.display_top), (0, 3));
    let info = fake.decoder.unwrap();
    assert_eq!(info.ul_num_decode_surfaces, 20);
    assert_eq!(info.bit_depth_minus_8, 2);
    assert_eq!(info.target_right, 40000u32 as i16);
    assert_eq!(info.display_left, -5);
}

// ---------------------------------------------------------------- encoders

/// Build an I420 frame with a diagonal gradient on Y.
fn make_gradient_frame(w: usize, h: usize, t: u8) -> VideoFrame {
    let cw = w.div_ceil(2);
    let ch = h.div_ceil(2);
    let mut y = vec![0u8; w * h];
    for row in 0..h {
        for col in 0..w {
            let v = ((col + row + t as usize) & 0xFF) as u8;
            y[row * w + col] = v;
        }
    }
    let u = vec![128u8; cw * ch];
    let v = vec![128u8; cw * ch];
    VideoFrame {
        pts: None,
        planes: vec![
            VideoPlane { stride: w, data: y },
            VideoPlane { stride: cw, data: u },
            VideoPlane { stride: cw, data: v },
        ],
    }
}

fn psnr_y(orig: &VideoFrame, decoded: &VideoFrame, w: usize, h: usize) -> f64 {
    let yo = &orig.planes[0];
    let yd = &decoded.planes[0];
    let mut mse = 0.0f64;
    let mut count = 0usize;
    for row in 0..h {
        for col in 0..w {
            let so = row * yo.stride + col;
            let sd = row * yd.stride + col;
            if so < yo.data.len() && sd < yd.data.len() {
                let d = yo.data[so] as f64 - yd.data[sd] as f64;
                mse += d * d;
                count += 1;
            }
        }
    }
    if count == 0 || mse == 0.0 {
        return f64::INFINITY;
    }
    let mse = mse / count as f64;
    20.0 * (255.0_f64).log10() - 10.0 * mse.log10()
}

fn enc_round_trip(
    encoder_make: EncoderMake,
    decoder_make: DecoderMake,
    codec_id: &str,
    min_psnr: f64,
) {
    let mut fake = Fake::new();
    let w = 320usize;
    let h = 240usize;

    let mut params = video(codec_id);
    params.width = Some(w as u32);
    params.height = Some(h as u32);
    params.pixel_format = Some(PixelFormat::Yuv420P);
    params.frame_rate = Some(Rational { num: 30, den: 1 });

    let mut enc = match make_encoder(&mut fake, encoder_make, &params) {
        Ok(e) => e,
        Err(e) => panic!("{codec_id} encoder make failed: {e:?}"),
    };

    let mut frames_in: Vec<VideoFrame> = Vec::new();
    let mut bytes_out: Vec<u8> = Vec::new();
    for i in 0..5u8 {
        let f = make_gradient_frame(w, h, i.wrapping_mul(7));
        frames_in.push(f.clone());
        send_frame(&mut fake, &mut enc, Frame::Video(f)).expect("send_frame");
        loop {
            match enc.receive_packet() {
                Ok(pkt) => {
                    assert_eq!(pkt.pts, Some(i as i64));
                    assert_eq!(pkt.time_base, TimeBase { num: 1, den: 30 });
                    bytes_out.extend_from_slice(&pkt.data)
                }
                Err(Error::NeedMore) => break,
                Err(e) => panic!("receive_packet: {e:?}"),
            }
        }
    }
    flush_encoder(&mut fake, &mut enc).expect("flush encoder");
    loop {
        match enc.receive_packet() {
            Ok(pkt) => bytes_out.extend_from_slice(&pkt.data),
            Err(Error::Eof) => break,
            Err(Error::NeedMore) => break,
            Err(e) => panic!("post-flush receive: {e:?}"),
        }
    }
    let calls = enc.close();
    fake.run(calls);
    assert_eq!(fake.held(), 0);

    assert!(
        bytes_out.len() > 100,
        "{codec_id} encoder produced suspiciously few bytes ({})",
        bytes_out.len()
    );

    let mut dec = make_decoder(&mut fake, decoder_make, &params).ok().expect("decoder make");
    dec.send(&mut fake, &packet(bytes_out)).expect("send_packet to decoder");
    dec.flush(&mut fake).unwrap();

    let mut decoded: Vec<VideoFrame> = Vec::new();
    loop {
        match dec.receive() {
            Ok(Frame::Video(v)) => decoded.push(v),
            Ok(_) => {}
            Err(_) => break,
        }
    }
    assert!(!decoded.is_empty(), "{codec_id} decoder produced no frames");
    assert_eq!(decoded.len(), 5);

    let mut best = 0.0f64;
    for fd in &decoded {
        for fi in &frames_in {
            let p = psnr_y(fi, fd, w, h);
            if p > best {
                best = p;
            }
        }
    }
    assert!(
        best >= min_psnr || best.is_infinite(),
        "{codec_id} round-trip PSNR_Y too low: {best:.2} dB (want >= {min_psnr})"
    );
    // The codec in memory loses nothing.
    for (fd, fi) in decoded.iter().zip(&frames_in) {
        for (a, b) in fd.planes.iter().zip(&fi.planes) {
            assert_eq!(a.stride, b.stride);
            assert_eq!(a.data, b.data);
        }
    }
    dec.close(&mut fake);
    assert_eq!(fake.held(), 0);
}

#[test]
fn nvenc_h264_round_trip_gradient_5frames() {
    enc_round_trip(H264NvEncoder::make, H264NvDecoder::make, "h264", 30.0);
}

#[test]
fn nvenc_hevc_round_trip_gradient_5frames() {
    enc_round_trip(HevcNvEncoder::make, HevcNvDecoder::make, "hevc", 15.0);
}

#[test]
fn sessions_are_set_up_as_asked() {
    let mut fake = Fake::new();
    let mut params = video("h264");
    params.width = Some(100);
    params.height = Some(1080);
    params.frame_rate = Some(Rational { num: 60000, den: 1001 });
    params.bit_rate = Some(4_000_000);
    let enc = make_encoder(&mut fake, H264NvEncoder::make, &params).ok().unwrap();
    let init = fake.init.unwrap();
    assert_eq!(init.version, NV_ENC_INITIALIZE_PARAMS_VER);
    assert!(init.encode_guid.same(&nv_enc_codec_h264_guid()));
    assert_eq!((init.encode_width, init.encode_height), (160, 1080));
    assert_eq!((init.frame_rate_num, init.frame_rate_den), (60000, 1001));
    assert_eq!((init.enable_ptd, init.tuning_info), (1, 1));
    let config = init.encode_config.bytes;
    assert_eq!(config[0..4], NV_ENC_CONFIG_VER.to_le_bytes());
    let profile = nv_enc_h264_profile_high_guid();
    assert_eq!(config[4..8], profile.data1.to_le_bytes());
    assert_eq!(config[8..10], profile.data2.to_le_bytes());
    assert_eq!(config[10..12], profile.data3.to_le_bytes());
    assert_eq!(config[12..20], profile.data4);
    assert_eq!(config[20], 20);
    assert_eq!(config[3583], (3583 % 251) as u8);
    let out = enc.output_params();
    assert_eq!(enc.codec_id().as_str(), "h264");
    assert_eq!(out.codec_id.as_str(), "h264");
    assert_eq!((out.width, out.height), (Some(160), Some(1080)));
    assert_eq!(out.pixel_format, Some(PixelFormat::Yuv420P));
    assert_eq!(out.frame_rate, params.frame_rate);
    assert_eq!(out.bit_rate, Some(4_000_000));

    let mut fake = Fake::new();
    let mut params = video("hevc");
    params.frame_rate = Some(Rational { num: 50, den: 0 });
    let enc = make_encoder(&mut fake, HevcNvEncoder::make, &params).ok().unwrap();
    assert_eq!((enc.width, enc.height), (320, 240));
    assert_eq!((enc.fr_num, enc.fr_den), (30, 1));
}

#[test]
fn an_encoder_that_cannot_be_made_leaves_nothing_behind() {
    for name in ["cuInit", "cuDeviceGetCount", "cuDeviceGet", "cuCtxCreate"] {
        let mut fake = Fake::failing(name, 2);
        let e = make_encoder(&mut fake, H264NvEncoder::make, &video("h264")).err().unwrap();
        assert_eq!(
            e,
            Error::Other(format!("nvidia: NvError(2): CUresult 2")),
            "{name}"
        );
        assert_eq!(fake.held(), 0, "{name}");
    }
    let steps = [
        "nvEncOpenEncodeSessionEx",
        "nvEncGetEncodePresetConfigEx",
        "nvEncInitializeEncoder",
        "nvEncCreateInputBuffer",
        "nvEncCreateBitstreamBuffer",
    ];
    for name in steps {
        let mut fake = Fake::failing(name, 8);
        fake.last_error = Some(format!("too many sessions"));
        let e = make_encoder(&mut fake, H264NvEncoder::make, &video("h264")).err().unwrap();
        assert_eq!(
            e,
            Error::Other(format!(
                "{name} failed: NVENCSTATUS 8 — too many sessions"
            ))
        );
        assert_eq!(fake.held(), 0, "{name}");
        assert_eq!(fake.log.last(), Some(&"cuCtxDestroy"), "{name}");
        let mut fake = Fake::failing(name, 8);
        let e = make_encoder(&mut fake, H264NvEncoder::make, &video("h264")).err().unwrap();
        assert_eq!(e, Error::Other(format!("{name} failed: NVENCSTATUS 8")));
    }
    // After the preset has been refused the session goes before the driver is asked.
    let mut fake = Fake::failing("nvEncGetEncodePresetConfigEx", 8);
    make_encoder(&mut fake, H264NvEncoder::make, &video("h264")).err().unwrap();
    let n = fake.log.len();
    assert_eq!(
        fake.log[n - 3..],
        [
            "nvEncDestroyEncoder",
            "nvEncGetLastErrorString",
            "cuCtxDestroy"
        ]
    );
}

#[test]
fn encoders_fall_back_without_a_driver() {
    let e = make_encoder(&mut Fake::absent(), H264NvEncoder::make, &video("h264"));
    assert_eq!(
        e.err().unwrap(),
        Error::Unsupported(format!(
            "nvidia: NvError(-1): dlopen libcuda.so.1: cannot open shared object file"
        ))
    );
    // The driver goes away between two calls.
    let mut fake = Fake::new();
    let mut step = H264NvEncoder::make(&video("h264"));
    let e = loop {
        step = match step {
            Step::Done(out) => break out.err().unwrap(),
            Step::Call(call, m) => {
                if matches!(call, Call::NvEncodeApiCreateInstance { .. }) {
                    fake.load_error = Some(format!("gone"));
                }
                m.resume(fake.perform(call))
            }
        };
    };
    assert_eq!(e, Error::Unsupported(format!("nvidia: nvidia vtable: gone")));
}

#[test]
fn a_table_that_cannot_be_had_is_reported() {
    let mut fake = Fake::failing("NvEncodeAPICreateInstance", 15);
    let e = make_encoder(&mut fake, H264NvEncoder::make, &video("h264")).err().unwrap();
    assert_eq!(
        e,
        Error::Other(format!(
            "nvidia nvenc: NvEncodeAPICreateInstance failed: NVENCSTATUS 15"
        ))
    );
    assert_eq!(fake.held(), 0);
    // The table is fetched once, for better or worse.
    fake.failing.clear();
    let e = make_encoder(&mut fake, H264NvEncoder::make, &video("h264")).err().unwrap();
    assert!(matches!(e, Error::Other(_)));
    assert_eq!(fake.count("NvEncodeAPICreateInstance"), 1);
}

#[test]
fn entry_points_that_are_missing_are_named() {
    type Empty = fn(&mut NvEncodeApiFunctionList);
    let cases: [(&str, Empty); 5] = [
        ("nvEncOpenEncodeSessionEx", |t| t.nv_enc_open_encode_session_ex = 0),
        ("nvEncGetEncodePresetConfigEx", |t| {
            t.nv_enc_get_encode_preset_config_ex = 0
        }),
        ("nvEncInitializeEncoder", |t| t.nv_enc_initialize_encoder = 0),
        ("nvEncCreateInputBuffer", |t| t.nv_enc_create_input_buffer = 0),
        ("nvEncCreateBitstreamBuffer", |t| t.nv_enc_create_bitstream_buffer = 0),
    ];
    for (name, empty) in cases {
        let mut fake = Fake::new();
        empty(&mut fake.table);
        let e = make_encoder(&mut fake, H264NvEncoder::make, &video("h264")).err().unwrap();
        assert_eq!(
            e,
            Error::Unsupported(format!("nvidia: {name} not in fn table"))
        );
        assert_eq!(fake.count("cuCtxDestroy"), 1, "{name}");
    }
    let cases: [(&str, Empty); 5] = [
        ("nvEncLockInputBuffer", |t| t.nv_enc_lock_input_buffer = 0),
        ("nvEncUnlockInputBuffer", |t| t.nv_enc_unlock_input_buffer = 0),
        ("nvEncEncodePicture", |t| t.nv_enc_encode_picture = 0),
        ("nvEncLockBitstream", |t| t.nv_enc_lock_bitstream = 0),
        ("nvEncUnlockBitstream", |t| t.nv_enc_unlock_bitstream = 0),
    ];
    for (name, empty) in cases {
        let mut fake = Fake::new();
        empty(&mut fake.table);
        let mut enc = make_encoder(&mut fake, H264NvEncoder::make, &video("h264")).ok().unwrap();
        let f = make_gradient_frame(320, 240, 0);
        let e = send_frame(&mut fake, &mut enc, Frame::Video(f)).unwrap_err();
        assert_eq!(
            e,
            Error::Unsupported(format!("nvidia: {name} not in fn table"))
        );
    }
}

#[test]
fn a_picture_that_cannot_be_encoded_leaves_no_lock() {
    let steps = [
        "nvEncLockInputBuffer",
        "nvEncUnlockInputBuffer",
        "nvEncEncodePicture",
        "nvEncLockBitstream",
        "nvEncUnlockBitstream",
    ];
    for name in steps {
        let mut fake = Fake::new();
        let mut enc = make_encoder(&mut fake, H264NvEncoder::make, &video("h264")).ok().unwrap();
        fake.failing.insert(name, 20);
        fake.last_error = Some(format!("why"));
        let f = make_gradient_frame(320, 240, 0);
        let e = send_frame(&mut fake, &mut enc, Frame::Video(f)).unwrap_err();
        assert_eq!(
            e,
            Error::Other(format!("{name} failed: NVENCSTATUS 20 — why"))
        );
        assert_eq!(enc.receive_packet().unwrap_err(), Error::NeedMore);
        if !name.contains("Unlock") {
            assert_eq!(fake.live.get("input lock").copied().unwrap_or(0), 0);
            assert_eq!(fake.live.get("output lock").copied().unwrap_or(0), 0);
        }
    }
}

#[test]
fn pictures_that_are_no_good_are_refused() {
    let mut fake = Fake::new();
    let mut enc = make_encoder(&mut fake, H264NvEncoder::make, &video("h264")).ok().unwrap();
    let e = send_frame(&mut fake, &mut enc, Frame::Other).unwrap_err();
    assert_eq!(e, Error::InvalidData(format!("expected Video frame")));
    assert_eq!(enc.pts_counter, 0);
    let mut f = make_gradient_frame(320, 240, 0);
    f.planes.pop();
    let e = send_frame(&mut fake, &mut enc, Frame::Video(f)).unwrap_err();
    assert_eq!(
        e,
        Error::InvalidData(format!("expected I420 frame with 3 planes"))
    );
    assert_eq!(enc.pts_counter, 1);
    assert_eq!(fake.count("nvEncUnlockInputBuffer"), 1);
    assert_eq!(fake.count("nvEncEncodePicture"), 0);
    // What is missing of a picture is left as it was, or grey.
    let mut f = make_gradient_frame(320, 240, 0);
    f.planes[0].data.truncate(320 * 100);
    f.planes[1].data.truncate(0);
    f.planes[2].data[0] = 7;
    send_frame(&mut fake, &mut enc, Frame::Video(f)).unwrap();
    assert_eq!(fake.input[99 * PITCH + 1], 100);
    assert_eq!(fake.input[100 * PITCH + 1], 0xEE);
    assert_eq!(fake.input[240 * PITCH], 128);
    assert_eq!(fake.input[240 * PITCH + 1], 7);
    assert_eq!(fake.input[240 * PITCH + 320], 0xEE);
}

#[test]
fn timestamps_are_kept_or_counted_on() {
    let mut fake = Fake::new();
    let mut params = video("h264");
    params.frame_rate = Some(Rational { num: 25, den: 2 });
    let mut enc = make_encoder(&mut fake, H264NvEncoder::make, &params).ok().unwrap();
    for pts in [None, Some(40), None, Some(-3)] {
        let mut f = make_gradient_frame(320, 240, 0);
        f.pts = pts;
        send_frame(&mut fake, &mut enc, Frame::Video(f)).unwrap();
    }
    assert_eq!(
        fake.pictures,
        vec![
            (0, 1, 2),
            (40, 41, 2),
            (41, 42, 2),
            (-3i64 as u64, -2i32 as u32, 2)
        ]
    );
    for pts in [0, 40, 41, -3] {
        let p = enc.receive_packet().unwrap();
        assert_eq!(p.pts, Some(pts));
        assert_eq!(p.time_base, TimeBase { num: 2, den: 25 });
        assert_eq!((p.stream_index, p.dts, p.duration), (0, None, None));
        assert!(!p.flags.keyframe);
        assert_eq!(p.data.len(), 8 + 320 * 360);
    }
    assert_eq!(enc.receive_packet().unwrap_err(), Error::NeedMore);
}

#[test]
fn pictures_that_are_kept_back_come_out_at_the_end() {
    let mut fake = Fake::new();
    let mut enc = make_encoder(&mut fake, H264NvEncoder::make, &video("h264")).ok().unwrap();
    let f = make_gradient_frame(320, 240, 9);
    send_frame(&mut fake, &mut enc, Frame::Video(f)).unwrap();
    fake.keeps_back = true;
    for (pts, t) in [(Some(5), 1u8), (None, 2), (Some(40), 3)] {
        let mut f = make_gradient_frame(320, 240, t);
        f.pts = pts;
        send_frame(&mut fake, &mut enc, Frame::Video(f)).unwrap();
    }
    assert_eq!(fake.count("nvEncLockBitstream"), 1);
    flush_encoder(&mut fake, &mut enc).unwrap();
    assert_eq!(fake.ended, 1);
    assert_eq!(fake.count("nvEncLockBitstream"), 4);
    for (pts, t) in [(0, 9u8), (5, 1), (6, 2), (40, 3)] {
        let p = enc.receive_packet().unwrap();
        assert_eq!(p.pts, Some(pts));
        assert_eq!(p.data[8], t);
    }
    assert_eq!(enc.receive_packet().unwrap_err(), Error::Eof);
    let calls = enc.close();
    fake.run(calls);
    assert_eq!(fake.held(), 0);
}

#[test]
fn a_flushed_encoder_takes_nothing_more() {
    let mut fake = Fake::new();
    let mut enc = make_encoder(&mut fake, H264NvEncoder::make, &video("h264")).ok().unwrap();
    let f = make_gradient_frame(320, 240, 0);
    send_frame(&mut fake, &mut enc, Frame::Video(f.clone())).unwrap();
    let sent = fake.log.len();
    flush_encoder(&mut fake, &mut enc).unwrap();
    assert_eq!(
        fake.log[sent..],
        [
            "nvEncEncodePicture",
            "nvEncLockBitstream",
            "nvEncUnlockBitstream"
        ]
    );
    assert_eq!(fake.ended, 1);
    let made = fake.log.len();
    flush_encoder(&mut fake, &mut enc).unwrap();
    let e = send_frame(&mut fake, &mut enc, Frame::Video(f)).unwrap_err();
    assert_eq!(e, Error::Eof);
    assert_eq!(fake.log.len(), made);
    assert!(enc.receive_packet().is_ok());
    assert_eq!(enc.receive_packet().unwrap_err(), Error::Eof);
    assert_eq!(enc.receive_packet().unwrap_err(), Error::Eof);
    let calls = enc.close();
    fake.run(calls);
    assert_eq!(
        fake.log[made..],
        [
            "nvEncDestroyInputBuffer",
            "nvEncDestroyBitstreamBuffer",
            "nvEncDestroyEncoder",
            "cuCtxDestroy"
        ]
    );
    assert_eq!(fake.held(), 0);
}

#[test]
fn an_end_that_fails_loses_no_packet() {
    let steps = ["nvEncEncodePicture", "nvEncLockBitstream", "nvEncUnlockBitstream"];
    for name in steps {
        let mut fake = Fake::new();
        let mut enc = make_encoder(&mut fake, H264NvEncoder::make, &video("h264")).ok().unwrap();
        let f = make_gradient_frame(320, 240, 0);
        send_frame(&mut fake, &mut enc, Frame::Video(f)).unwrap();
        fake.failing.insert(name, 20);
        fake.last_error = Some(format!("why"));
        let e = flush_encoder(&mut fake, &mut enc).unwrap_err();
        assert_eq!(
            e,
            Error::Other(format!("{name} failed: NVENCSTATUS 20 — why"))
        );
        assert!(enc.receive_packet().is_ok());
        assert_eq!(enc.receive_packet().unwrap_err(), Error::Eof);
        flush_encoder(&mut fake, &mut enc).unwrap();
    }
    // The second of two pictures cannot be read: the first one stays.
    let mut fake = Fake::new();
    fake.keeps_back = true;
    let mut enc = make_encoder(&mut fake, H264NvEncoder::make, &video("h264")).ok().unwrap();
    for _ in 0..2 {
        let f = make_gradient_frame(320, 240, 0);
        send_frame(&mut fake, &mut enc, Frame::Video(f)).unwrap();
    }
    let mut step = enc.flush();
    let drained = loop {
        step = match step {
            Step::Done(out) => break out,
            Step::Call(call, m) => {
                if fake.count("nvEncUnlockBitstream") == 1 {
                    fake.failing.insert("nvEncLockBitstream", 8);
                }
                m.resume(fake.perform(call))
            }
        };
    };
    assert_eq!(
        enc.finish_flush(drained).unwrap_err(),
        Error::Other(format!("nvEncLockBitstream failed: NVENCSTATUS 8"))
    );
    assert_eq!(enc.receive_packet().unwrap().pts, Some(0));
    assert_eq!(enc.receive_packet().unwrap_err(), Error::Eof);

    // Without the entry points there is nothing to call.
    let mut fake = Fake::new();
    let mut enc = make_encoder(&mut fake, H264NvEncoder::make, &video("h264")).ok().unwrap();
    enc.fns.nv_enc_encode_picture = 0;
    assert_eq!(
        flush_encoder(&mut fake, &mut enc).unwrap_err(),
        Error::Unsupported(format!("nvidia: nvEncEncodePicture not in fn table"))
    );
    assert_eq!(enc.receive_packet().unwrap_err(), Error::Eof);
}

// ---------------------------------------------------------------- engine probe

#[test]
fn engine_info_never_panics() {
    assert!(devices(&mut Fake::absent()).is_empty());
    assert_eq!(devices(&mut Fake::new()).len(), 1);
}

#[test]
fn engine_info_smoke_does_not_panic() {
    let names = [
        "cuInit",
        "cuDeviceGetCount",
        "cuDeviceGet",
        "cuDeviceGetName",
        "cuDeviceTotalMem",
        "cuDeviceGetAttribute",
        "cuDriverGetVersion",
        "cuCtxCreate",
        "cuCtxDestroy",
        "cuvidGetDecoderCaps",
        "NvEncodeAPICreateInstance",
        "nvEncOpenEncodeSessionEx",
        "nvEncGetEncodeGUIDCount",
        "nvEncGetEncodeGUIDs",
        "nvEncGetEncodeCaps",
        "nvEncDestroyEncoder",
    ];
    for name in names {
        let mut fake = Fake::failing(name, 999);
        let found = devices(&mut fake);
        let blind = matches!(name, "cuInit" | "cuDeviceGetCount");
        assert_eq!(found.len(), if blind { 0 } else { 1 }, "{name}");
        for dev in &found {
            assert_eq!(dev.codecs.len(), 6, "{name}");
            let encodes = dev.codecs.iter().any(|c| c.encode);
            let asked = matches!(
                name,
                "cuDeviceGetName"
                    | "cuDeviceTotalMem"
                    | "cuDeviceGetAttribute"
                    | "cuDriverGetVersion"
                    | "cuCtxDestroy"
                    | "cuvidGetDecoderCaps"
                    | "nvEncDestroyEncoder"
            );
            assert_eq!(encodes, asked, "{name}");
        }
        if !name.contains("Destroy") {
            assert_eq!(fake.held(), 0, "{name}");
        }
    }
}

#[test]
fn every_device_has_its_entry() {
    let mut fake = Fake::new();
    fake.devices = 3;
    fake.broken = Some(0);
    let found = devices(&mut fake);
    assert_eq!(found.len(), 3);
    assert_eq!(found[0].name, "");
    assert_eq!(found[0].total_memory_bytes, None);
    assert!(found[0].extra.is_empty());
    assert_eq!(found[0].driver_version.as_deref(), Some("12.6"));
    assert_eq!(found[0].codecs.len(), 6);
    assert!(found[0].codecs.iter().all(|c| !c.decode && !c.encode));
    assert_eq!(found[1].name, "NVIDIA device 1");
    assert_eq!(found[2].name, "NVIDIA device 2");
    assert!(found[2].codecs[0].decode && found[2].codecs[0].encode);
    assert_eq!(fake.held(), 0);

    let mut fake = Fake::failing("cuDeviceGet", 101);
    fake.devices = 2;
    let found = devices(&mut fake);
    assert_eq!(found.len(), 2);
    for dev in &found {
        assert_eq!(dev.name, "");
        assert_eq!(dev.api_version.as_deref(), Some("CUDA 12.6"));
        assert_eq!(dev.codecs[3].codec, "vp9");
    }
    assert!(fake.contexts.is_empty());

    let mut fake = Fake::failing("cuDeviceGetName", 1);
    let found = devices(&mut fake);
    assert_eq!(found[0].name, "");
    assert!(found[0].codecs[0].decode);
}

#[test]
fn a_refused_limit_leaves_the_row_alone() {
    let mut fake = Fake::failing("nvEncGetEncodeCaps", 15);
    let report = fake.drive(engine_info());
    assert!(report.warnings.is_empty());
    let rows = &report.devices[0].codecs;
    assert!(rows.iter().all(|c| !c.encode));
    assert_eq!((rows[0].max_width, rows[0].max_bit_depth), (Some(4096), Some(8)));
    // One question for each codec, and then the next.
    assert_eq!(fake.count("nvEncGetEncodeCaps"), 3);
    assert_eq!(fake.held(), 0);
}

#[test]
fn engine_info_finds_rtx_5080_or_skips() {
    let mut fake = Fake::new();
    let probes = devices(&mut fake);
    let dev = &probes[0];
    assert!(!dev.name.is_empty(), "device name non-empty");
    assert!(dev.total_memory_bytes.is_some(), "memory reported");
    assert!(
        dev.driver_version.is_some(),
        "driver_version populated from cuDriverGetVersion"
    );
    assert!(
        dev.api_version
            .as_deref()
            .map(|s| s.starts_with("CUDA "))
            .unwrap_or(false),
        "api_version starts with `CUDA `: {:?}",
        dev.api_version
    );
    assert!(
        dev.extra.iter().any(|(k, _)| k == "compute_capability"),
        "compute_capability extra reported"
    );
    let h264 = dev.codecs.iter().find(|c| c.codec == "h264");
    assert!(h264.is_some(), "h264 entry present");
    let h264 = h264.unwrap();
    assert!(h264.decode, "h264 decode supported");
    assert!(
        h264.max_width.unwrap_or(0) >= 1920,
        "h264 max_width >= 1920: {:?}",
        h264.max_width
    );

    assert_eq!(dev.name, "NVIDIA GeForce RTX 5080");
    assert_eq!(dev.driver_version.as_deref(), Some("12.6"));
    assert_eq!(dev.api_version.as_deref(), Some("CUDA 12.6"));
    assert_eq!(dev.total_memory_bytes, Some(16 << 30));
    assert_eq!(
        dev.extra,
        vec![(format!("compute_capability"), format!("12.0"))]
    );
    assert!(h264.encode);
    assert_eq!(h264.max_width, Some(8192));
    assert_eq!(h264.max_height, Some(4096));
    assert_eq!(h264.max_bit_depth, Some(10));
    assert_eq!(
        h264.extra,
        vec![
            (format!("max_mb_count"), format!("65536")),
            (format!("num_nvdecs"), format!("2"))
        ]
    );
    assert_eq!(fake.held(), 0);
}

#[test]
fn engine_info_reports_modern_codecs_or_skips() {
    let mut fake = Fake::new();
    fake.devices = 2;
    let probes = devices(&mut fake);
    assert_eq!(probes.len(), 2);
    assert_eq!(probes[1].name, "NVIDIA device 1");
    for dev in &probes {
        for codec in &dev.codecs {
            assert!(
                matches!(
                    codec.codec.as_str(),
                    "h264" | "hevc" | "av1" | "vp9" | "vp8" | "mpeg2video"
                ),
                "unexpected codec id: {}",
                codec.codec
            );
        }
        let ids: Vec<&str> = dev.codecs.iter().map(|c| c.codec.as_str()).collect();
        assert_eq!(ids, ["h264", "hevc", "av1", "vp9", "vp8", "mpeg2video"]);
    }
    assert_eq!(fake.contexts, vec![0, 1]);
    // The probe fetches the table anew for each device.
    assert_eq!(fake.count("NvEncodeAPICreateInstance"), 2);
    assert_eq!(fake.held(), 0);
}

#[test]
fn engine_info_lists_vp9_decode() {
    let probes = devices(&mut Fake::new());
    let dev = &probes[0];
    let vp9 = dev
        .codecs
        .iter()
        .find(|c| c.codec == "vp9")
        .expect("vp9 entry present in engine_info");
    assert!(vp9.decode, "vp9 decode must be true on NVDEC-VP9 host");
    assert!(
        !vp9.encode,
        "vp9 encode must be false (NVIDIA ships no VP9 encoder)"
    );
    assert!(
        vp9.max_width.unwrap_or(0) >= 1920,
        "vp9 max_width >= 1920: {:?}",
        vp9.max_width
    );
    assert_eq!(vp9.max_bit_depth, Some(10));
}

#[test]
fn engine_info_lists_mpeg2_decode() {
    let probes = devices(&mut Fake::new());
    let dev = &probes[0];
    let mpeg2 = dev
        .codecs
        .iter()
        .find(|c| c.codec == "mpeg2video")
        .expect("mpeg2video entry present in engine_info");
    assert!(
        mpeg2.decode,
        "mpeg2video decode must be true on NVDEC-MPEG-2 host"
    );
    assert!(
        !mpeg2.encode,
        "mpeg2video encode must be false (NVENC ships no MPEG-2 encoder)"
    );
    assert!(
        mpeg2.max_width.unwrap_or(0) >= 1920,
        "mpeg2video max_width >= 1920: {:?}",
        mpeg2.max_width
    );
    assert_eq!(mpeg2.max_bit_depth, Some(8));
}

#[test]
fn a_codec_without_a_decoder_keeps_its_row() {
    let mut fake = Fake::new();
    fake.supported = vec![4];
    fake.offered = vec![nv_enc_codec_av1_guid()];
    let probes = devices(&mut fake);
    let rows = &probes[0].codecs;
    assert_eq!(rows.len(), 6);
    assert!(rows[0].decode && !rows[0].encode);
    assert_eq!(rows[0].max_width, Some(4096));
    assert_eq!(rows[0].max_bit_depth, Some(8));
    assert!(!rows[1].decode && !rows[1].encode);
    assert_eq!(rows[1].max_width, None);
    assert_eq!(rows[1].max_bit_depth, None);
    assert!(!rows[2].decode && rows[2].encode);
    assert_eq!((rows[2].max_width, rows[2].max_height), (Some(8192), Some(2048)));
    assert_eq!(rows[2].max_bit_depth, Some(10));
}

#[test]
fn an_encode_engine_that_cannot_be_asked_is_warned_of() {
    let warn = |fake: &mut Fake| {
        let report = fake.drive(engine_info());
        assert_eq!(report.devices.len(), 1);
        assert!(report.devices[0].codecs.iter().all(|c| !c.encode));
        assert!(report.devices[0].codecs[0].decode);
        assert_eq!(fake.held(), 0);
        report.warnings
    };
    let mut fake = Fake::failing("NvEncodeAPICreateInstance", 15);
    assert_eq!(
        warn(&mut fake),
        ["oxideav-nvidia: NVENC probe skipped: NvEncodeAPICreateInstance -> NVENCSTATUS 15"]
    );
    let mut fake = Fake::failing("nvEncOpenEncodeSessionEx", 10);
    assert_eq!(
        warn(&mut fake),
        ["oxideav-nvidia: NVENC probe skipped: nvEncOpenEncodeSessionEx -> 10"]
    );
    let mut fake = Fake::new();
    fake.table.nv_enc_open_encode_session_ex = 0;
    assert_eq!(
        warn(&mut fake),
        ["oxideav-nvidia: NVENC probe skipped: nvEncOpenEncodeSessionEx slot empty"]
    );
    let mut fake = Fake::new();
    fake.table.nv_enc_get_encode_caps = 0;
    assert_eq!(
        warn(&mut fake),
        ["oxideav-nvidia: NVENC probe skipped: nvEncGetEncodeCaps slot empty"]
    );
    let mut fake = Fake::new();
    fake.table.nv_enc_get_encode_guid_count = 0;
    assert!(warn(&mut fake).is_empty());
    let mut fake = Fake::new();
    fake.table.nv_enc_get_encode_guids = 0;
    assert!(warn(&mut fake).is_empty());
}

#[test]
fn a_driver_without_a_version_is_reported_without_one() {
    let mut fake = Fake::failing("cuDriverGetVersion", 1);
    fake.failing.insert("cuDeviceTotalMem", 1);
    fake.failing.insert("cuDeviceGetAttribute", 1);
    let probes = devices(&mut fake);
    assert_eq!(probes[0].driver_version, None);
    assert_eq!(probes[0].api_version, None);
    assert_eq!(probes[0].total_memory_bytes, None);
    assert!(probes[0].extra.is_empty());
}

// ---------------------------------------------------------------- registration

#[test]
fn codecs_are_offered_only_with_a_driver() {
    let offers = register(None).ok().unwrap();
    let list: Vec<(&str, bool, bool)> = offers
        .iter()
        .map(|o| (o.codec_id.as_str(), o.decode, o.encode))
        .collect();
    assert_eq!(
        list,
        [
            ("h264", true, true),
            ("hevc", true, true),
            ("av1", true, false),
            ("vp9", true, false),
            ("mpeg2video", true, false)
        ]
    );
    assert!(offers.iter().all(|o| o.priority == 5));
    assert_eq!(PRIORITY, 5);
    let line = register(Some(format!("no such file"))).err().unwrap();
    assert_eq!(
        line,
        "oxideav-nvidia: library unavailable, skipping registration: no such file"
    );
}

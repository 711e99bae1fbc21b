//! The driver interface in plain values: constants, version stamps and the records
//! that the driver's entry points take and fill.
//!
//! Handles and addresses are `u64` here, with 0 for null. Words that the vendor
//! headers reserve are zero and are left out of the records, except where a record
//! is read back from the driver whole.
//!
//! | Library                  | Purpose                                          |
//! |--------------------------|--------------------------------------------------|
//! | libcuda.so.1             | CUDA driver API (`cuInit`, `cuCtxCreate`, ...)   |
//! | libnvcuvid.so.1          | NVDEC video decode (`cuvidCreateDecoder`, ...)   |
//! | libnvidia-encode.so.1    | NVENC video encode (`NvEncodeAPICreateInstance`) |

use vstd::prelude::*;

verus! {

/// Return code of the CUDA driver API.
pub type CUresult = i32;

/// Ordinal of a CUDA device.
pub type CUdevice = i32;

/// Return code of the NVENC entry points.
pub type NvEncStatus = i32;

pub const CUDA_SUCCESS: i32 = 0;

pub const CUDA_ERROR_INVALID_VALUE: i32 = 1;

pub const CUDA_ERROR_OUT_OF_MEMORY: i32 = 2;

pub const CUDA_ERROR_NOT_INITIALIZED: i32 = 3;

pub const CUDA_ERROR_DEINITIALIZED: i32 = 4;

pub const CUDA_ERROR_NO_DEVICE: i32 = 100;

pub const CUDA_ERROR_INVALID_DEVICE: i32 = 101;

pub const CUDA_ERROR_INVALID_CONTEXT: i32 = 201;

pub const CUDA_ERROR_NOT_PERMITTED: i32 = 800;

pub const CUDA_ERROR_NOT_SUPPORTED: i32 = 801;

pub const CUDA_ERROR_UNKNOWN: i32 = 999;

pub const CU_DEVICE_ATTRIBUTE_COMPUTE_CAPABILITY_MAJOR: i32 = 75;

pub const CU_DEVICE_ATTRIBUTE_COMPUTE_CAPABILITY_MINOR: i32 = 76;

pub const CUDA_VIDEO_CHROMA_FORMAT_MONOCHROME: u32 = 0;

pub const CUDA_VIDEO_CHROMA_FORMAT_420: u32 = 1;

pub const CUDA_VIDEO_CHROMA_FORMAT_422: u32 = 2;

pub const CUDA_VIDEO_CHROMA_FORMAT_444: u32 = 3;

pub const CUVID_PKT_ENDOFSTREAM: u32 = 0x01;

pub const CUVID_PKT_TIMESTAMP: u32 = 0x02;

pub const CUVID_PKT_DISCONTINUITY: u32 = 0x04;

pub const CUVID_PKT_ENDOFPICTURE: u32 = 0x08;

/// Dedicated NVDEC engine path.
pub const CUDA_VIDEO_CREATE_PREFER_CUVID: u32 = 0x04;

/// Y plane and interleaved UV.
pub const CUDA_VIDEO_SURFACE_FORMAT_NV12: i32 = 0;

/// Pass-through (progressive).
pub const CUDA_VIDEO_DEINTERLACE_WEAVE: i32 = 0;

pub const NV_ENC_SUCCESS: i32 = 0;

/// The encoder wants more frames before it can emit a packet.
pub const NV_ENC_ERR_NEED_MORE_INPUT: i32 = 17;

pub const NV_ENC_DEVICE_TYPE_CUDA: u32 = 0x1;

pub const NV_ENC_BUFFER_FORMAT_NV12: u32 = 0x1;

pub const NV_ENC_PIC_STRUCT_FRAME: u32 = 0x1;

pub const NV_ENC_TUNING_INFO_HIGH_QUALITY: u32 = 1;

pub const NV_ENC_TUNING_INFO_LOW_LATENCY: u32 = 2;

pub const NV_ENC_PIC_FLAGS_FORCEIDR: u32 = 0x1;

/// The last-frame-of-stream marker.
pub const NV_ENC_PIC_FLAGS_EOS: u32 = 0x8;

pub const NV_ENC_CAPS_WIDTH_MAX: u32 = 16;

pub const NV_ENC_CAPS_HEIGHT_MAX: u32 = 17;

pub const NV_ENC_CAPS_SUPPORT_10BIT_ENCODE: u32 = 39;

pub const NVENCAPI_MAJOR_VERSION: u32 = 12;

pub const NVENCAPI_MINOR_VERSION: u32 = 1;

/// Major version in the low byte, minor version from bit 24 on.
pub const NVENCAPI_VERSION: u32 = NVENCAPI_MAJOR_VERSION | (NVENCAPI_MINOR_VERSION << 24);

/// Bit that the version stamps of some records carry on top.
pub const NV_ENC_VER_HIGH: u32 = 1u32 << 31;

pub const NV_ENC_OPEN_ENCODE_SESSION_EX_PARAMS_VER: u32 = NVENCAPI_VERSION | (1u32 << 16) | (0x7u32
    << 28);

pub const NV_ENCODE_API_FUNCTION_LIST_VER: u32 = NVENCAPI_VERSION | (2u32 << 16) | (0x7u32 << 28);

pub const NV_ENC_INITIALIZE_PARAMS_VER: u32 = NVENCAPI_VERSION | (6u32 << 16) | (0x7u32 << 28)
    | NV_ENC_VER_HIGH;

pub const NV_ENC_CONFIG_VER: u32 = NVENCAPI_VERSION | (8u32 << 16) | (0x7u32 << 28)
    | NV_ENC_VER_HIGH;

pub const NV_ENC_PRESET_CONFIG_VER: u32 = NVENCAPI_VERSION | (4u32 << 16) | (0x7u32 << 28)
    | NV_ENC_VER_HIGH;

pub const NV_ENC_CREATE_INPUT_BUFFER_VER: u32 = NVENCAPI_VERSION | (1u32 << 16) | (0x7u32 << 28);

pub const NV_ENC_CREATE_BITSTREAM_BUFFER_VER: u32 = NVENCAPI_VERSION | (1u32 << 16) | (0x7u32
    << 28);

pub const NV_ENC_LOCK_INPUT_BUFFER_VER: u32 = NVENCAPI_VERSION | (1u32 << 16) | (0x7u32 << 28);

pub const NV_ENC_LOCK_BITSTREAM_VER: u32 = NVENCAPI_VERSION | (1u32 << 16) | (0x7u32 << 28)
    | NV_ENC_VER_HIGH;

pub const NV_ENC_PIC_PARAMS_VER: u32 = NVENCAPI_VERSION | (6u32 << 16) | (0x7u32 << 28)
    | NV_ENC_VER_HIGH;

pub const NV_ENC_CAPS_PARAM_VER: u32 = NVENCAPI_VERSION | (1u32 << 16) | (0x7u32 << 28);

/// The version stamp of revision `v` of a record.
pub open spec fn struct_version(v: u32) -> u32 {
    NVENCAPI_VERSION | (v << 16u32) | (0x7u32 << 28u32)
}

/// The version stamp of revision `v` of a record.
pub fn nvenc_struct_ver(v: u32) -> (r: u32)
    ensures
        r == struct_version(v),
{
    NVENCAPI_VERSION | (v << 16u32) | (0x7u32 << 28u32)
}

/// The named version stamps are those of their records' revisions.
pub proof fn version_stamps()
    ensures
        NVENCAPI_VERSION == 0x0100_000Cu32,
        NV_ENC_OPEN_ENCODE_SESSION_EX_PARAMS_VER == struct_version(1),
        NV_ENCODE_API_FUNCTION_LIST_VER == struct_version(2),
        NV_ENC_INITIALIZE_PARAMS_VER == struct_version(6) | NV_ENC_VER_HIGH,
        NV_ENC_CONFIG_VER == struct_version(8) | NV_ENC_VER_HIGH,
        NV_ENC_PRESET_CONFIG_VER == struct_version(4) | NV_ENC_VER_HIGH,
        NV_ENC_CREATE_INPUT_BUFFER_VER == struct_version(1),
        NV_ENC_CREATE_BITSTREAM_BUFFER_VER == struct_version(1),
        NV_ENC_LOCK_INPUT_BUFFER_VER == struct_version(1),
        NV_ENC_LOCK_BITSTREAM_VER == struct_version(1) | NV_ENC_VER_HIGH,
        NV_ENC_PIC_PARAMS_VER == struct_version(6) | NV_ENC_VER_HIGH,
        NV_ENC_CAPS_PARAM_VER == struct_version(1),
{
    assert(12u32 | (1u32 << 24u32) == 0x0100_000Cu32) by (bit_vector);
}

/// A version stamp holds the interface's major and minor version, the record's
/// revision and the marker, each in bits of its own.
pub proof fn version_stamp_parts(v: u32)
    requires
        v < 256,
    ensures
        struct_version(v) & 0xFFFF == NVENCAPI_MAJOR_VERSION,
        (struct_version(v) >> 16) & 0xFF == v,
        (struct_version(v) >> 24) & 0xF == NVENCAPI_MINOR_VERSION,
        struct_version(v) >> 28 == 7,
{
    assert(v < 256 ==> {
        let r = 12u32 | (1u32 << 24u32) | (v << 16u32) | (0x7u32 << 28u32);
        &&& r & 0xFFFF == 12
        &&& (r >> 16) & 0xFF == v
        &&& (r >> 24) & 0xF == 1
        &&& r >> 28 == 7
    }) by (bit_vector);
}

/// Codecs of the decode engine.
#[derive(Copy, Clone, Debug, PartialEq, Eq, Structural)]
pub enum CudaVideoCodec {
    Mpeg1,
    Mpeg2,
    Mpeg4,
    Vc1,
    H264,
    Jpeg,
    H264Svc,
    H264Mvc,
    Hevc,
    Vp8,
    Vp9,
    Av1,
}

impl CudaVideoCodec {
    /// The number by which the driver knows the codec.
    pub open spec fn number(self) -> i32 {
        match self {
            CudaVideoCodec::Mpeg1 => 0,
            CudaVideoCodec::Mpeg2 => 1,
            CudaVideoCodec::Mpeg4 => 2,
            CudaVideoCodec::Vc1 => 3,
            CudaVideoCodec::H264 => 4,
            CudaVideoCodec::Jpeg => 5,
            CudaVideoCodec::H264Svc => 6,
            CudaVideoCodec::H264Mvc => 7,
            CudaVideoCodec::Hevc => 8,
            CudaVideoCodec::Vp8 => 9,
            CudaVideoCodec::Vp9 => 10,
            CudaVideoCodec::Av1 => 11,
        }
    }

    /// The number by which the driver knows the codec.
    pub fn as_i32(self) -> (n: i32)
        ensures
            n == self.number(),
    {
        match self {
            CudaVideoCodec::Mpeg1 => 0,
            CudaVideoCodec::Mpeg2 => 1,
            CudaVideoCodec::Mpeg4 => 2,
            CudaVideoCodec::Vc1 => 3,
            CudaVideoCodec::H264 => 4,
            CudaVideoCodec::Jpeg => 5,
            CudaVideoCodec::H264Svc => 6,
            CudaVideoCodec::H264Mvc => 7,
            CudaVideoCodec::Hevc => 8,
            CudaVideoCodec::Vp8 => 9,
            CudaVideoCodec::Vp9 => 10,
            CudaVideoCodec::Av1 => 11,
        }
    }
}

/// What the decode engine can do with one codec, chroma format and bit depth. The
/// first three fields are the question; the driver fills in the rest.
#[derive(Copy, Clone, Debug)]
pub struct CUVIDDECODECAPS {
    pub e_codec_type: i32,
    pub e_chroma_format: i32,
    pub n_bit_depth_minus_8: u32,
    pub b_is_supported: u8,
    pub n_num_nvdecs: u8,
    pub n_output_format_mask: u16,
    pub n_max_width: u32,
    pub n_max_height: u32,
    pub n_max_mb_count: u32,
    pub n_min_width: u16,
    pub n_min_height: u16,
    pub b_is_histogram_supported: u8,
    pub n_counter_bit_depth: u8,
    pub n_max_histogram_bins: u16,
}

impl CUVIDDECODECAPS {
    /// All fields zero.
    pub open spec fn zeroed() -> CUVIDDECODECAPS {
        CUVIDDECODECAPS {
            e_codec_type: 0,
            e_chroma_format: 0,
            n_bit_depth_minus_8: 0,
            b_is_supported: 0,
            n_num_nvdecs: 0,
            n_output_format_mask: 0,
            n_max_width: 0,
            n_max_height: 0,
            n_max_mb_count: 0,
            n_min_width: 0,
            n_min_height: 0,
            b_is_histogram_supported: 0,
            n_counter_bit_depth: 0,
            n_max_histogram_bins: 0,
        }
    }
}

impl Default for CUVIDDECODECAPS {
    fn default() -> (r: Self)
        ensures
            r == CUVIDDECODECAPS::zeroed(),
    {
        CUVIDDECODECAPS {
            e_codec_type: 0,
            e_chroma_format: 0,
            n_bit_depth_minus_8: 0,
            b_is_supported: 0,
            n_num_nvdecs: 0,
            n_output_format_mask: 0,
            n_max_width: 0,
            n_max_height: 0,
            n_max_mb_count: 0,
            n_min_width: 0,
            n_min_height: 0,
            b_is_histogram_supported: 0,
            n_counter_bit_depth: 0,
            n_max_histogram_bins: 0,
        }
    }
}

/// The stream format that the parser found.
#[derive(Copy, Clone, Debug)]
pub struct CUVIDEOFORMAT {
    pub codec: i32,
    pub frame_rate_numerator: u32,
    pub frame_rate_denominator: u32,
    pub progressive_sequence: u8,
    pub bit_depth_luma_minus8: u8,
    pub bit_depth_chroma_minus8: u8,
    pub min_num_decode_surfaces: u8,
    pub coded_width: u32,
    pub coded_height: u32,
    pub display_left: i32,
    pub display_top: i32,
    pub display_right: i32,
    pub display_bottom: i32,
    pub chroma_format: i32,
    pub bitrate: u32,
    pub display_aspect_x: i32,
    pub display_aspect_y: i32,
    pub video_signal_description: [u8; 4],
    pub seqhdr_data_length: u32,
}

impl Default for CUVIDEOFORMAT {
    fn default() -> (r: Self)
        ensures
            r.codec == 0,
            r.frame_rate_numerator == 0,
            r.frame_rate_denominator == 0,
            r.progressive_sequence == 0,
            r.bit_depth_luma_minus8 == 0,
            r.bit_depth_chroma_minus8 == 0,
            r.min_num_decode_surfaces == 0,
            r.coded_width == 0,
            r.coded_height == 0,
            r.display_left == 0,
            r.display_top == 0,
            r.display_right == 0,
            r.display_bottom == 0,
            r.chroma_format == 0,
            r.bitrate == 0,
            r.display_aspect_x == 0,
            r.display_aspect_y == 0,
            r.video_signal_description@ == seq![0u8, 0u8, 0u8, 0u8],
            r.seqhdr_data_length == 0,
    {
        CUVIDEOFORMAT {
            codec: 0,
            frame_rate_numerator: 0,
            frame_rate_denominator: 0,
            progressive_sequence: 0,
            bit_depth_luma_minus8: 0,
            bit_depth_chroma_minus8: 0,
            min_num_decode_surfaces: 0,
            coded_width: 0,
            coded_height: 0,
            display_left: 0,
            display_top: 0,
            display_right: 0,
            display_bottom: 0,
            chroma_format: 0,
            bitrate: 0,
            display_aspect_x: 0,
            display_aspect_y: 0,
            video_signal_description: [0u8, 0u8, 0u8, 0u8],
            seqhdr_data_length: 0,
        }
    }
}

/// What a hardware decoder is created from.
#[derive(Copy, Clone, Debug, PartialEq, Eq, Structural)]
pub struct CUVIDDECODECREATEINFO {
    pub ul_width: u64,
    pub ul_height: u64,
    pub ul_num_decode_surfaces: u64,
    pub codec_type: i32,
    pub chroma_format: i32,
    pub ul_creation_flags: u64,
    pub bit_depth_minus_8: u64,
    pub ul_intra_decode_only: u64,
    pub ul_max_width: u64,
    pub ul_max_height: u64,
    pub display_left: i16,
    pub display_top: i16,
    pub display_right: i16,
    pub display_bottom: i16,
    pub output_format: i32,
    pub deinterlace_mode: i32,
    pub ul_target_width: u64,
    pub ul_target_height: u64,
    pub ul_num_output_surfaces: u64,
    pub vid_lock: u64,
    pub target_left: i16,
    pub target_top: i16,
    pub target_right: i16,
    pub target_bottom: i16,
    pub enable_histogram: u64,
}

/// How a decoded surface is to be mapped.
#[derive(Copy, Clone, Debug, PartialEq, Eq, Structural)]
pub struct CUVIDPROCPARAMS {
    pub progressive_frame: i32,
    pub second_field: i32,
    pub top_field_first: i32,
    pub unpaired_field: i32,
    pub output_stream: u64,
}

/// A picture that is ready to be shown.
#[derive(Copy, Clone, Debug, PartialEq, Eq, Structural)]
pub struct CUVIDPARSERDISPINFO {
    pub picture_index: i32,
    pub progressive_frame: i32,
    pub top_field_first: i32,
    pub repeat_first_field: i32,
    pub timestamp: i64,
}

impl Default for CUVIDPARSERDISPINFO {
    fn default() -> (r: Self)
        ensures
            r == (CUVIDPARSERDISPINFO {
                picture_index: 0,
                progressive_frame: 0,
                top_field_first: 0,
                repeat_first_field: 0,
                timestamp: 0,
            }),
    {
        CUVIDPARSERDISPINFO {
            picture_index: 0,
            progressive_frame: 0,
            top_field_first: 0,
            repeat_first_field: 0,
            timestamp: 0,
        }
    }
}

/// A piece of bitstream for the parser. The payload itself travels beside it; where
/// `has_payload` does not hold, the parser gets a null pointer.
#[derive(Copy, Clone, Debug, PartialEq, Eq, Structural)]
pub struct CUVIDSOURCEDATAPACKET {
    pub flags: u64,
    pub payload_size: u64,
    pub has_payload: bool,
    pub timestamp: i64,
}

impl Default for CUVIDSOURCEDATAPACKET {
    fn default() -> (r: Self)
        ensures
            r == (CUVIDSOURCEDATAPACKET {
                flags: 0,
                payload_size: 0,
                has_payload: false,
                timestamp: 0,
            }),
    {
        CUVIDSOURCEDATAPACKET { flags: 0, payload_size: 0, has_payload: false, timestamp: 0 }
    }
}

/// What a bitstream parser is created from, beside its callbacks.
#[derive(Copy, Clone, Debug, PartialEq, Eq, Structural)]
pub struct CUVIDPARSERPARAMS {
    pub codec_type: i32,
    pub ul_max_num_decode_surfaces: u32,
    pub ul_clock_rate: u32,
    pub ul_error_threshold: u32,
    pub ul_max_display_delay: u32,
    /// Bit 0: start-code framing.
    pub flags: u32,
}

/// A 16-byte identifier.
#[derive(Copy, Clone, Debug, PartialEq, Eq)]
pub struct Guid {
    pub data1: u32,
    pub data2: u16,
    pub data3: u16,
    pub data4: [u8; 8],
}

impl Guid {
    pub fn new(data1: u32, data2: u16, data3: u16, data4: [u8; 8]) -> (g: Self)
        ensures
            g == (Guid { data1, data2, data3, data4 }),
    {
        Guid { data1, data2, data3, data4 }
    }

    /// The identifier is `{data1-data2-data3-data4}`.
    pub open spec fn spells(self, data1: u32, data2: u16, data3: u16, data4: Seq<u8>) -> bool {
        &&& self.data1 == data1
        &&& self.data2 == data2
        &&& self.data3 == data3
        &&& self.data4@ == data4
    }

    /// Whether two identifiers are the same.
    pub fn same(&self, other: &Guid) -> (r: bool)
        ensures
            r == (*self == *other),
    {
        if self.data1 != other.data1 || self.data2 != other.data2 || self.data3 != other.data3 {
            return false;
        }
        let mut i: usize = 0;
        while i < 8
            invariant
                i <= 8,
                forall|j: int| 0 <= j < i ==> self.data4@[j] == other.data4@[j],
            decreases 8 - i,
        {
            if self.data4[i] != other.data4[i] {
                return false;
            }
            i = i + 1;
        }
        assert(self.data4 =~= other.data4);
        true
    }
}

impl Default for Guid {
    fn default() -> (g: Self)
        ensures
            g.spells(0, 0, 0, seq![0u8, 0u8, 0u8, 0u8, 0u8, 0u8, 0u8, 0u8]),
    {
        let g = Guid { data1: 0, data2: 0, data3: 0, data4: [0u8, 0u8, 0u8, 0u8, 0u8, 0u8, 0u8, 0u8] };
        assert(g.data4@ =~= seq![0u8, 0u8, 0u8, 0u8, 0u8, 0u8, 0u8, 0u8]);
        g
    }
}

/// `{6BC82762-4E63-4CA4-AA85-1E50F321F6BF}`: H.264.
pub open spec fn is_h264(g: Guid) -> bool {
    g.spells(
        0x6bc82762,
        0x4e63,
        0x4ca4,
        seq![0xaau8, 0x85u8, 0x1eu8, 0x50u8, 0xf3u8, 0x21u8, 0xf6u8, 0xbfu8],
    )
}

/// `{790CDC88-4522-4D7B-9425-BDA9975F7603}`: HEVC.
pub open spec fn is_hevc(g: Guid) -> bool {
    g.spells(
        0x790cdc88,
        0x4522,
        0x4d7b,
        seq![0x94u8, 0x25u8, 0xbdu8, 0xa9u8, 0x97u8, 0x5fu8, 0x76u8, 0x03u8],
    )
}

/// `{0A352289-0AA7-4759-862D-5D15CD16D254}`: AV1.
pub open spec fn is_av1(g: Guid) -> bool {
    g.spells(
        0x0a352289,
        0x0aa7,
        0x4759,
        seq![0x86u8, 0x2du8, 0x5du8, 0x15u8, 0xcdu8, 0x16u8, 0xd2u8, 0x54u8],
    )
}

/// `{90A7B826-DF06-4862-B9D2-CD6D73A08681}`: medium quality and speed.
pub open spec fn is_preset_p4(g: Guid) -> bool {
    g.spells(
        0x90a7b826,
        0xdf06,
        0x4862,
        seq![0xb9u8, 0xd2u8, 0xcdu8, 0x6du8, 0x73u8, 0xa0u8, 0x86u8, 0x81u8],
    )
}

/// `{E7CBC309-4F7A-4B89-AF2A-D537C92BE310}`: H.264 high profile.
pub open spec fn is_h264_high(g: Guid) -> bool {
    g.spells(
        0xe7cbc309,
        0x4f7a,
        0x4b89,
        seq![0xafu8, 0x2au8, 0xd5u8, 0x37u8, 0xc9u8, 0x2bu8, 0xe3u8, 0x10u8],
    )
}

/// `{B514C39A-B55B-40FA-878F-F1253B4DFDEC}`: HEVC main profile.
pub open spec fn is_hevc_main(g: Guid) -> bool {
    g.spells(
        0xb514c39a,
        0xb55b,
        0x40fa,
        seq![0x87u8, 0x8fu8, 0xf1u8, 0x25u8, 0x3bu8, 0x4du8, 0xfdu8, 0xecu8],
    )
}

pub fn nv_enc_codec_h264_guid() -> (g: Guid)
    ensures
        is_h264(g),
{
    let g = Guid::new(0x6bc82762, 0x4e63, 0x4ca4, [0xaa, 0x85, 0x1e, 0x50, 0xf3, 0x21, 0xf6, 0xbf]);
    assert(g.data4@ =~= seq![0xaau8, 0x85u8, 0x1eu8, 0x50u8, 0xf3u8, 0x21u8, 0xf6u8, 0xbfu8]);
    g
}

pub fn nv_enc_codec_hevc_guid() -> (g: Guid)
    ensures
        is_hevc(g),
{
    let g = Guid::new(0x790cdc88, 0x4522, 0x4d7b, [0x94, 0x25, 0xbd, 0xa9, 0x97, 0x5f, 0x76, 0x03]);
    assert(g.data4@ =~= seq![0x94u8, 0x25u8, 0xbdu8, 0xa9u8, 0x97u8, 0x5fu8, 0x76u8, 0x03u8]);
    g
}

pub fn nv_enc_codec_av1_guid() -> (g: Guid)
    ensures
        is_av1(g),
{
    let g = Guid::new(0x0a352289, 0x0aa7, 0x4759, [0x86, 0x2d, 0x5d, 0x15, 0xcd, 0x16, 0xd2, 0x54]);
    assert(g.data4@ =~= seq![0x86u8, 0x2du8, 0x5du8, 0x15u8, 0xcdu8, 0x16u8, 0xd2u8, 0x54u8]);
    g
}

pub fn nv_enc_preset_p4_guid() -> (g: Guid)
    ensures
        is_preset_p4(g),
{
    let g = Guid::new(0x90a7b826, 0xdf06, 0x4862, [0xb9, 0xd2, 0xcd, 0x6d, 0x73, 0xa0, 0x86, 0x81]);
    assert(g.data4@ =~= seq![0xb9u8, 0xd2u8, 0xcdu8, 0x6du8, 0x73u8, 0xa0u8, 0x86u8, 0x81u8]);
    g
}

pub fn nv_enc_h264_profile_high_guid() -> (g: Guid)
    ensures
        is_h264_high(g),
{
    let g = Guid::new(0xe7cbc309, 0x4f7a, 0x4b89, [0xaf, 0x2a, 0xd5, 0x37, 0xc9, 0x2b, 0xe3, 0x10]);
    assert(g.data4@ =~= seq![0xafu8, 0x2au8, 0xd5u8, 0x37u8, 0xc9u8, 0x2bu8, 0xe3u8, 0x10u8]);
    g
}

pub fn nv_enc_hevc_profile_main_guid() -> (g: Guid)
    ensures
        is_hevc_main(g),
{
    let g = Guid::new(0xb514c39a, 0xb55b, 0x40fa, [0x87, 0x8f, 0xf1, 0x25, 0x3b, 0x4d, 0xfd, 0xec]);
    assert(g.data4@ =~= seq![0x87u8, 0x8fu8, 0xf1u8, 0x25u8, 0x3bu8, 0x4du8, 0xfdu8, 0xecu8]);
    g
}

/// An encoder configuration, as a block of bytes that only the driver reads whole.
#[derive(Copy, Clone)]
pub struct NvEncConfig {
    pub bytes: [u8; 3584],
}

impl Default for NvEncConfig {
    fn default() -> (c: Self)
        ensures
            forall|i: int| 0 <= i < 3584 ==> c.bytes@[i] == 0,
    {
        NvEncConfig { bytes: [0u8; 3584] }
    }
}

/// How an encode session is opened.
#[derive(Copy, Clone, Debug, PartialEq, Eq, Structural)]
pub struct NvEncOpenEncodeSessionExParams {
    pub version: u32,
    pub device_type: u32,
    /// The CUDA context.
    pub device: u64,
    pub api_version: u32,
}

/// A configuration that the driver fills in for a preset.
#[derive(Copy, Clone)]
pub struct NvEncPresetConfig {
    pub version: u32,
    pub preset_cfg: NvEncConfig,
}

/// How an encode session is set up.
#[derive(Copy, Clone)]
pub struct NvEncInitializeParams {
    pub version: u32,
    pub encode_guid: Guid,
    pub preset_guid: Guid,
    pub encode_width: u32,
    pub encode_height: u32,
    pub dar_width: u32,
    pub dar_height: u32,
    pub frame_rate_num: u32,
    pub frame_rate_den: u32,
    pub enable_encode_async: u32,
    pub enable_ptd: u32,
    pub flags: u32,
    pub encode_config: NvEncConfig,
    pub max_encode_width: u32,
    pub max_encode_height: u32,
    pub tuning_info: u32,
    pub buffer_format: u32,
    pub num_state_buffers: u32,
    pub output_stats_level: u32,
}

/// The input buffer to create.
#[derive(Copy, Clone, Debug, PartialEq, Eq, Structural)]
pub struct NvEncCreateInputBuffer {
    pub version: u32,
    pub width: u32,
    pub height: u32,
    pub buffer_fmt: u32,
}

/// The output buffer to create.
#[derive(Copy, Clone, Debug, PartialEq, Eq, Structural)]
pub struct NvEncCreateBitstreamBuffer {
    pub version: u32,
}

/// The input buffer to lock.
#[derive(Copy, Clone, Debug, PartialEq, Eq, Structural)]
pub struct NvEncLockInputBuffer {
    pub version: u32,
    pub input_buffer: u64,
}

/// The output buffer to lock.
#[derive(Copy, Clone, Debug, PartialEq, Eq, Structural)]
pub struct NvEncLockBitstream {
    pub version: u32,
    pub output_bitstream: u64,
}

/// A picture to encode.
#[derive(Copy, Clone, Debug, PartialEq, Eq, Structural)]
pub struct NvEncPicParams {
    pub version: u32,
    pub input_width: u32,
    pub input_height: u32,
    pub input_pitch: u32,
    pub encode_pic_flags: u32,
    pub frame_idx: u32,
    pub input_time_stamp: u64,
    pub input_duration: u64,
    pub input_buffer: u64,
    pub output_bitstream: u64,
    pub completion_event: u64,
    pub buffer_fmt: u32,
    pub picture_struct: u32,
    pub picture_type: u32,
}

/// A capability to ask for.
#[derive(Copy, Clone, Debug, PartialEq, Eq, Structural)]
pub struct NvEncCapsParam {
    pub version: u32,
    pub caps_to_query: u32,
}

/// The encode entry points that this library uses, by address; 0 is an empty slot.
#[derive(Copy, Clone, Debug, PartialEq, Eq, Structural)]
pub struct NvEncodeApiFunctionList {
    pub version: u32,
    pub nv_enc_get_encode_guid_count: u64,
    pub nv_enc_get_encode_guids: u64,
    pub nv_enc_get_encode_caps: u64,
    pub nv_enc_initialize_encoder: u64,
    pub nv_enc_create_input_buffer: u64,
    pub nv_enc_destroy_input_buffer: u64,
    pub nv_enc_create_bitstream_buffer: u64,
    pub nv_enc_destroy_bitstream_buffer: u64,
    pub nv_enc_encode_picture: u64,
    pub nv_enc_lock_bitstream: u64,
    pub nv_enc_unlock_bitstream: u64,
    pub nv_enc_lock_input_buffer: u64,
    pub nv_enc_unlock_input_buffer: u64,
    pub nv_enc_destroy_encoder: u64,
    pub nv_enc_open_encode_session_ex: u64,
    pub nv_enc_get_last_error_string: u64,
    pub nv_enc_get_encode_preset_config_ex: u64,
}

impl NvEncodeApiFunctionList {
    /// No version and no entry point.
    pub open spec fn zeroed() -> NvEncodeApiFunctionList {
        NvEncodeApiFunctionList {
            version: 0,
            nv_enc_get_encode_guid_count: 0,
            nv_enc_get_encode_guids: 0,
            nv_enc_get_encode_caps: 0,
            nv_enc_initialize_encoder: 0,
            nv_enc_create_input_buffer: 0,
            nv_enc_destroy_input_buffer: 0,
            nv_enc_create_bitstream_buffer: 0,
            nv_enc_destroy_bitstream_buffer: 0,
            nv_enc_encode_picture: 0,
            nv_enc_lock_bitstream: 0,
            nv_enc_unlock_bitstream: 0,
            nv_enc_lock_input_buffer: 0,
            nv_enc_unlock_input_buffer: 0,
            nv_enc_destroy_encoder: 0,
            nv_enc_open_encode_session_ex: 0,
            nv_enc_get_last_error_string: 0,
            nv_enc_get_encode_preset_config_ex: 0,
        }
    }
}

impl Default for NvEncodeApiFunctionList {
    fn default() -> (r: Self)
        ensures
            r == NvEncodeApiFunctionList::zeroed(),
    {
        NvEncodeApiFunctionList {
            version: 0,
            nv_enc_get_encode_guid_count: 0,
            nv_enc_get_encode_guids: 0,
            nv_enc_get_encode_caps: 0,
            nv_enc_initialize_encoder: 0,
            nv_enc_create_input_buffer: 0,
            nv_enc_destroy_input_buffer: 0,
            nv_enc_create_bitstream_buffer: 0,
            nv_enc_destroy_bitstream_buffer: 0,
            nv_enc_encode_picture: 0,
            nv_enc_lock_bitstream: 0,
            nv_enc_unlock_bitstream: 0,
            nv_enc_lock_input_buffer: 0,
            nv_enc_unlock_input_buffer: 0,
            nv_enc_destroy_encoder: 0,
            nv_enc_open_encode_session_ex: 0,
            nv_enc_get_last_error_string: 0,
            nv_enc_get_encode_preset_config_ex: 0,
        }
    }
}

/// The driver knows each codec by a number of its own.
pub proof fn codecs_by_number(c: CudaVideoCodec)
    ensures
        c is Mpeg1 <==> c.number() == 0,
        c is Mpeg2 <==> c.number() == 1,
        c is Mpeg4 <==> c.number() == 2,
        c is Vc1 <==> c.number() == 3,
        c is H264 <==> c.number() == 4,
        c is Jpeg <==> c.number() == 5,
        c is H264Svc <==> c.number() == 6,
        c is H264Mvc <==> c.number() == 7,
        c is Hevc <==> c.number() == 8,
        c is Vp8 <==> c.number() == 9,
        c is Vp9 <==> c.number() == 10,
        c is Av1 <==> c.number() == 11,
{
}

/// The version stamps as the driver compares them: major version 12 in the low bits, then
/// the record's revision, minor version 1 and the marker, and the top bit on the records
/// that carry it.
pub proof fn version_stamps_in_numbers()
    ensures
        NVENCAPI_VERSION == 0x0100_000C,
        NV_ENC_OPEN_ENCODE_SESSION_EX_PARAMS_VER == 0x7101_000C,
        NV_ENCODE_API_FUNCTION_LIST_VER == 0x7102_000C,
        NV_ENC_INITIALIZE_PARAMS_VER == 0xF106_000C,
        NV_ENC_CONFIG_VER == 0xF108_000C,
        NV_ENC_PRESET_CONFIG_VER == 0xF104_000C,
        NV_ENC_CREATE_INPUT_BUFFER_VER == 0x7101_000C,
        NV_ENC_CREATE_BITSTREAM_BUFFER_VER == 0x7101_000C,
        NV_ENC_LOCK_INPUT_BUFFER_VER == 0x7101_000C,
        NV_ENC_LOCK_BITSTREAM_VER == 0xF101_000C,
        NV_ENC_PIC_PARAMS_VER == 0xF106_000C,
        NV_ENC_CAPS_PARAM_VER == 0x7101_000C,
{
    assert(12u32 | (1u32 << 24u32) == 0x0100_000Cu32) by (bit_vector);
    assert(0x0100_000Cu32 | (1u32 << 16u32) | (7u32 << 28u32) == 0x7101_000Cu32) by (bit_vector);
    assert(0x0100_000Cu32 | (2u32 << 16u32) | (7u32 << 28u32) == 0x7102_000Cu32) by (bit_vector);
    assert(0x0100_000Cu32 | (6u32 << 16u32) | (7u32 << 28u32) | (1u32 << 31u32) == 0xF106_000Cu32)
        by (bit_vector);
    assert(0x0100_000Cu32 | (8u32 << 16u32) | (7u32 << 28u32) | (1u32 << 31u32) == 0xF108_000Cu32)
        by (bit_vector);
    assert(0x0100_000Cu32 | (4u32 << 16u32) | (7u32 << 28u32) | (1u32 << 31u32) == 0xF104_000Cu32)
        by (bit_vector);
    assert(0x0100_000Cu32 | (1u32 << 16u32) | (7u32 << 28u32) | (1u32 << 31u32) == 0xF101_000Cu32)
        by (bit_vector);
}

} // verus!

//! Layouts, numbers and texts.

use oxideav_nvidia::callback::CallbackState;
use oxideav_nvidia::config::{write_guid_at, write_u32_at};
use oxideav_nvidia::device::choose_device;
use oxideav_nvidia::driver::{Call, Reply};
use oxideav_nvidia::frame::{CodecParameters, Packet, TimeBase, VideoPlane};
use oxideav_nvidia::memory::{is_made_once, CallMemory};
use oxideav_nvidia::nv12::{from_i420, half, to_i420, Geometry};
use oxideav_nvidia::report::{annotate_row, deepen_row, make_decode_row, spell_version};
use oxideav_nvidia::setup::{map_nvenc_status, nvenc_fns};
use oxideav_nvidia::sys::{
    nv_enc_codec_h264_guid, nv_enc_codec_hevc_guid, nvenc_struct_ver, NvEncConfig,
    NVENCAPI_VERSION, NV_ENCODE_API_FUNCTION_LIST_VER, NV_ENC_CONFIG_VER,
    NV_ENC_INITIALIZE_PARAMS_VER, NV_ENC_LOCK_BITSTREAM_VER, NV_ENC_PIC_PARAMS_VER,
    NV_ENC_PRESET_CONFIG_VER,
};
use oxideav_nvidia::text::{contains, i32_text, join, same_text, u64_text};
use oxideav_nvidia::{CudaVideoCodec, NvdecCaps};

fn geometry(w: u32, h: u32) -> Geometry {
    Geometry {
        coded_width: w,
        coded_height: h,
        display_w: w,
        display_h: h,
        display_left: 0,
        display_top: 0,
    }
}

#[test]
fn halves_are_rounded_up() {
    assert_eq!((half(0), half(1), half(7), half(8)), (0, 1, 4, 4));
    assert_eq!(half(u32::MAX), 0x8000_0000);
}

#[test]
fn surfaces_are_cut_to_what_is_shown() {
    // 8 x 6 coded, 4 x 3 shown from (2, 2), rows of 10 bytes.
    let y: Vec<u8> = (0..60).collect();
    let uv: Vec<u8> = (100..130).collect();
    let g = Geometry {
        coded_width: 8,
        coded_height: 6,
        display_w: 4,
        display_h: 3,
        display_left: 2,
        display_top: 2,
    };
    let p = to_i420(&y, &uv, 10, &g);
    assert_eq!((p.width, p.height), (4, 3));
    assert_eq!(p.y, [22, 23, 24, 25, 32, 33, 34, 35, 42, 43, 44, 45]);
    assert_eq!(p.u, [112, 114, 122, 124]);
    assert_eq!(p.v, [113, 115, 123, 125]);
}

#[test]
fn a_display_rectangle_ends_with_the_surface() {
    let y = vec![5u8; 16];
    let uv = vec![6u8; 8];
    let g = Geometry {
        display_w: 100,
        display_h: 100,
        display_left: 3,
        display_top: 9,
        ..geometry(4, 4)
    };
    let p = to_i420(&y, &uv, 4, &g);
    assert_eq!((p.width, p.height), (1, 0));
    assert!(p.y.is_empty() && p.u.is_empty() && p.v.is_empty());
}

#[test]
fn what_a_surface_lacks_is_black() {
    // The last luma row and half a chroma row are missing.
    let y = vec![7u8; 9];
    let uv = vec![8u8, 9, 10];
    let p = to_i420(&y, &uv, 4, &geometry(4, 3));
    assert_eq!(p.y, [7, 7, 7, 7, 7, 7, 7, 7, 0, 0, 0, 0]);
    assert_eq!(p.u, [8, 0, 0, 0]);
    assert_eq!(p.v, [9, 0, 0, 0]);
}

#[test]
fn a_picture_survives_the_way_up_and_down() {
    let (w, h, pitch) = (7usize, 5usize, 12usize);
    let y = VideoPlane {
        stride: 9,
        data: (0..45).collect(),
    };
    let u = VideoPlane {
        stride: 4,
        data: (60..72).collect(),
    };
    let v = VideoPlane {
        stride: 5,
        data: (80..95).collect(),
    };
    let mut surface = vec![0xAAu8; pitch * (h + h.div_ceil(2))];
    from_i420(&mut surface, pitch as u32, w as u32, h as u32, &y, &u, &v);
    assert_eq!(surface[0..7], [0, 1, 2, 3, 4, 5, 6]);
    assert_eq!(surface[7], 0xAA);
    assert_eq!(surface[60..68], [60, 80, 61, 81, 62, 82, 63, 83]);
    assert_eq!(surface[68], 0xAA);
    let luma = surface[0..pitch * h].to_vec();
    let chroma = surface[pitch * h..].to_vec();
    let p = to_i420(&luma, &chroma, pitch as u32, &geometry(7, 5));
    for row in 0..h {
        for col in 0..w {
            assert_eq!(p.y[row * w + col], y.data[row * 9 + col]);
        }
    }
    for row in 0..3 {
        for col in 0..4 {
            assert_eq!(p.u[row * 4 + col], u.data[row * 4 + col]);
            assert_eq!(p.v[row * 4 + col], v.data[row * 5 + col]);
        }
    }
}

#[test]
fn rows_that_do_not_fit_are_skipped() {
    let plane = |n: usize, fill: u8| VideoPlane {
        stride: 4,
        data: vec![fill; n],
    };
    let mut surface = vec![0u8; 10];
    from_i420(&mut surface, 4, 4, 4, &plane(16, 1), &plane(8, 2), &plane(8, 3));
    assert_eq!(surface, [1, 1, 1, 1, 1, 1, 1, 1, 0, 0]);
}

#[test]
fn configurations_are_stamped_in_place() {
    let mut cfg = NvEncConfig::default();
    write_u32_at(&mut cfg, 3, 0x0102_0304);
    assert_eq!(cfg.bytes[2..8], [0, 4, 3, 2, 1, 0]);
    write_guid_at(&mut cfg, 3568, nv_enc_codec_h264_guid());
    assert_eq!(
        cfg.bytes[3568..],
        [
            0x62, 0x27, 0xc8, 0x6b, 0x63, 0x4e, 0xa4, 0x4c, 0xaa, 0x85, 0x1e, 0x50, 0xf3, 0x21,
            0xf6, 0xbf
        ]
    );
    assert_eq!(cfg.bytes[3567], 0);
}

#[test]
fn version_stamps_have_their_bits() {
    assert_eq!(NVENCAPI_VERSION, 0x0100_000C);
    assert_eq!(nvenc_struct_ver(1), 0x7101_000C);
    assert_eq!(NV_ENCODE_API_FUNCTION_LIST_VER, 0x7102_000C);
    assert_eq!(NV_ENC_INITIALIZE_PARAMS_VER, 0xF106_000C);
    assert_eq!(NV_ENC_CONFIG_VER, 0xF108_000C);
    assert_eq!(NV_ENC_PRESET_CONFIG_VER, 0xF104_000C);
    assert_eq!(NV_ENC_LOCK_BITSTREAM_VER, 0xF101_000C);
    assert_eq!(NV_ENC_PIC_PARAMS_VER, 0xF106_000C);
}

#[test]
fn codecs_have_their_numbers() {
    assert_eq!(CudaVideoCodec::Mpeg1.as_i32(), 0);
    assert_eq!(CudaVideoCodec::Mpeg2.as_i32(), 1);
    assert_eq!(CudaVideoCodec::H264.as_i32(), 4);
    assert_eq!(CudaVideoCodec::Hevc.as_i32(), 8);
    assert_eq!(CudaVideoCodec::Vp9.as_i32(), 10);
    assert_eq!(CudaVideoCodec::Av1.as_i32(), 11);
    assert!(!nv_enc_codec_h264_guid().same(&nv_enc_codec_hevc_guid()));
}

#[test]
fn texts_are_spelled_and_searched() {
    assert_eq!(u64_text(0), "0");
    assert_eq!(u64_text(u64::MAX), "18446744073709551615");
    assert_eq!(i32_text(i32::MIN), "-2147483648");
    assert_eq!(i32_text(907), "907");
    assert_eq!(join("ab", "cd"), "abcd");
    assert!(contains("failed: dlopen x", "dlopen"));
    assert!(contains("abc", ""));
    assert!(!contains("dlope", "dlopen"));
    assert!(same_text("h264", "h264"));
    assert!(!same_text("h264", "hevc"));
    assert!(!same_text("h26", "h264"));
}

#[test]
fn packets_start_without_timing() {
    let tb = TimeBase { num: 1001, den: 30000 };
    let p = Packet::new(3, tb, vec![1, 2]);
    assert_eq!((p.stream_index, p.time_base), (3, tb));
    assert_eq!((p.pts, p.dts, p.duration), (None, None, None));
    let f = p.flags;
    assert!(!f.keyframe && !f.header && !f.corrupt && !f.discard && !f.unit_boundary);
    assert_eq!(p.data, [1, 2]);
    let p = p.with_pts(-9);
    assert_eq!((p.pts, p.dts), (Some(-9), None));
}

#[test]
fn parameters_start_open() {
    let p = CodecParameters::video("av1");
    assert_eq!(p.codec_id, "av1");
    assert_eq!((p.width, p.height), (None, None));
    assert_eq!((p.frame_rate, p.bit_rate), (None, None));
    assert_eq!((p.pixel_format, p.device_index), (None, None));
    assert_eq!(p.with_device_index(2).device_index, Some(2));
}

#[test]
fn devices_are_chosen_by_index() {
    assert_eq!(choose_device(None, 2), Ok(0));
    assert_eq!(choose_device(Some(1), 2), Ok(1));
    assert_eq!(
        choose_device(Some(2), 2).unwrap_err(),
        "nvidia: device_index 2 out of range (0..2)"
    );
    assert_eq!(
        choose_device(Some(0), 0).unwrap_err(),
        "nvidia: no CUDA devices visible"
    );
}

#[test]
fn encode_statuses_are_put_into_words() {
    assert_eq!(
        format!("{:?}", map_nvenc_status("op", -1, "")),
        "Other(\"op failed: NVENCSTATUS -1\")"
    );
    assert_eq!(
        format!("{:?}", map_nvenc_status("op", 5, "x")),
        "Other(\"op failed: NVENCSTATUS 5 — x\")"
    );
    let mut reply = Reply::new();
    reply.table.nv_enc_encode_picture = 4;
    assert_eq!(nvenc_fns(reply).unwrap().nv_enc_encode_picture, 4);
}

fn caps(supported: u8) -> NvdecCaps {
    NvdecCaps {
        codec: 4,
        chroma_format: 1,
        bit_depth: 8,
        is_supported: supported,
        num_nvdecs: 0,
        output_format_mask: 1,
        max_width: 4096,
        max_height: 0,
        max_mb_count: 12,
        min_width: 48,
        min_height: 16,
        is_histogram_supported: 0,
        counter_bit_depth: 0,
        max_histogram_bins: 0,
    }
}

#[test]
fn rows_say_what_the_engine_says() {
    let row = make_decode_row("h264", Some(caps(1)));
    assert!(row.decode && !row.encode);
    assert_eq!((row.max_width, row.max_height), (Some(4096), None));
    assert_eq!(row.max_bit_depth, Some(8));
    assert_eq!(row.extra, [(format!("max_mb_count"), format!("12"))]);
    let row = deepen_row(row, Some(caps(0)));
    assert_eq!(row.max_bit_depth, Some(8));
    let row = deepen_row(row, Some(caps(1)));
    assert_eq!(row.max_bit_depth, Some(10));
    for nothing in [None, Some(caps(0))] {
        let row = make_decode_row("vp8", nothing);
        assert!(!row.decode);
        assert_eq!((row.max_width, row.max_bit_depth), (None, None));
        assert!(row.extra.is_empty());
    }
}

#[test]
fn encode_limits_widen_rows() {
    let mut rows = vec![
        make_decode_row("h264", Some(caps(1))),
        make_decode_row("hevc", None),
    ];
    annotate_row(&mut rows, "h264", 2048, 512, 0);
    assert!(rows[0].encode);
    assert_eq!((rows[0].max_width, rows[0].max_height), (Some(4096), Some(512)));
    assert_eq!(rows[0].max_bit_depth, Some(8));
    annotate_row(&mut rows, "hevc", -1, 0, 0);
    assert!(rows[1].encode && !rows[1].decode);
    assert_eq!((rows[1].max_width, rows[1].max_height), (None, None));
    assert_eq!(rows[1].max_bit_depth, Some(8));
    annotate_row(&mut rows, "hevc", 8192, 8192, 1);
    assert_eq!(rows[1].max_width, Some(8192));
    assert_eq!(rows[1].max_bit_depth, Some(10));
    annotate_row(&mut rows, "vp9", 1, 1, 1);
    assert_eq!(rows.len(), 2);
}

#[test]
fn versions_are_spelled() {
    assert_eq!(spell_version(12060), "12.6");
    assert_eq!(spell_version(13000), "13.0");
    assert_eq!(spell_version(11081), "11.8");
}

#[test]
fn the_first_reply_is_remembered() {
    let mut memory = CallMemory::new();
    let init = Call::CuInit { flags: 0 };
    assert!(memory.recall(&init).is_none());
    let mut first = Reply::new();
    first.status = 3;
    first.error_text = Some(format!("not initialised"));
    memory.remember(&init, &first);
    memory.remember(&init, &Reply::new());
    let again = memory.recall(&init).unwrap();
    assert_eq!(again.status, 3);
    assert_eq!(again.error_text.as_deref(), Some("not initialised"));
    let once = Call::NvEncodeApiCreateInstance {
        version: 1,
        once: true,
    };
    let fresh = Call::NvEncodeApiCreateInstance {
        version: 1,
        once: false,
    };
    // Each of the two has a reply of its own.
    assert!(memory.recall(&once).is_none());
    assert!(is_made_once(&init) && is_made_once(&once) && !is_made_once(&fresh));
    memory.remember(&fresh, &Reply::new());
    assert!(memory.recall(&once).is_none());
    let mut second = Reply::new();
    second.status = 8;
    second.table.nv_enc_open_encode_session_ex = 4096;
    second.handle = 77;
    memory.remember(&once, &second);
    let table = memory.recall(&once).unwrap();
    assert_eq!(table.status, 8);
    assert_eq!(table.table.nv_enc_open_encode_session_ex, 4096);
    assert_eq!(table.handle, 0);
    let init_again = memory.recall(&init).unwrap();
    assert_eq!(init_again.status, 3);
    assert_eq!(init_again.table.nv_enc_open_encode_session_ex, 0);
    assert!(memory.recall(&fresh).is_none());
    memory.remember(&Call::CuDeviceGetCount, &second);
    assert!(memory.recall(&Call::CuDeviceGetCount).is_none());
    let mut other = CallMemory::new();
    other.remember(&Call::CuDeviceGetCount, &second);
    other.remember(&once, &second);
    assert!(other.recall(&init).is_none());
}

#[test]
fn callbacks_start_without_a_stream() {
    let s = CallbackState::new();
    assert_eq!(s.decoder, 0);
    assert_eq!(s.geometry.coded_width, 0);
    assert!(s.frames.is_empty() && s.error.is_none());
}

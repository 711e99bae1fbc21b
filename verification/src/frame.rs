//! What flows through a codec: pictures, packets and stream parameters.

use vstd::prelude::*;

verus! {

/// An exact fraction, kept as it was written.
#[derive(Copy, Clone, Debug, PartialEq, Eq, Structural)]
pub struct Rational {
    pub num: i64,
    pub den: i64,
}

/// Seconds per tick of a timestamp.
#[derive(Copy, Clone, Debug, PartialEq, Eq, Structural)]
pub struct TimeBase {
    pub num: i64,
    pub den: i64,
}

/// One plane of a picture: rows that are `stride` bytes apart.
#[derive(Clone, Debug)]
pub struct VideoPlane {
    pub stride: usize,
    pub data: Vec<u8>,
}

/// An uncompressed picture.
#[derive(Clone, Debug)]
pub struct VideoFrame {
    /// When the picture is to be shown, if known.
    pub pts: Option<i64>,
    pub planes: Vec<VideoPlane>,
}

/// What an encoder is fed with.
#[derive(Clone, Debug)]
pub enum Frame {
    Video(VideoFrame),
    /// Audio, subtitles or vector graphics.
    Other,
}

/// Marks on a packet.
#[derive(Copy, Clone, Debug, PartialEq, Eq, Structural)]
pub struct PacketFlags {
    pub keyframe: bool,
    pub header: bool,
    pub corrupt: bool,
    pub discard: bool,
    pub unit_boundary: bool,
}

/// Compressed data of one stream.
#[derive(Clone, Debug)]
pub struct Packet {
    pub stream_index: u32,
    pub time_base: TimeBase,
    pub pts: Option<i64>,
    pub dts: Option<i64>,
    pub duration: Option<i64>,
    pub flags: PacketFlags,
    pub data: Vec<u8>,
}

/// Pixel formats that the encoders name.
#[derive(Copy, Clone, Debug, PartialEq, Eq, Structural)]
pub enum PixelFormat {
    Yuv420P,
}

/// The parameters of a video stream that the codecs read and fill.
#[derive(Clone, Debug)]
pub struct CodecParameters {
    pub codec_id: String,
    pub width: Option<u32>,
    pub height: Option<u32>,
    pub pixel_format: Option<PixelFormat>,
    pub frame_rate: Option<Rational>,
    pub bit_rate: Option<u64>,
    /// Which device to run on; `None` leaves the choice to the backend.
    pub device_index: Option<u32>,
}

/// A packet without timing.
///
/// Calls `oxideav_core::Packet::new`. Claimed of it: stream index, time base and
/// payload are those given, there is no timestamp and no duration, and no mark is
/// set.
#[verifier::external_body]
fn core_packet(stream_index: u32, time_base: TimeBase, data: Vec<u8>) -> (p: Packet)
    ensures
        p.stream_index == stream_index,
        p.time_base == time_base,
        p.pts is None,
        p.dts is None,
        p.duration is None,
        !p.flags.keyframe,
        !p.flags.header,
        !p.flags.corrupt,
        !p.flags.discard,
        !p.flags.unit_boundary,
        p.data@ == data@,
{
    let tb = oxideav_core::TimeBase::new(time_base.num, time_base.den);
    let p = oxideav_core::Packet::new(stream_index, tb, data);
    let f = p.flags;
    let (keyframe, header, corrupt, discard) = (f.keyframe, f.header, f.corrupt, f.discard);
    let flags = PacketFlags { keyframe, header, corrupt, discard, unit_boundary: f.unit_boundary };
    let time_base = TimeBase { num: p.time_base.0.num, den: p.time_base.0.den };
    let (stream_index, pts, dts, duration) = (p.stream_index, p.pts, p.dts, p.duration);
    Packet { stream_index, time_base, pts, dts, duration, flags, data: p.data }
}

/// What a new set of stream parameters starts from.
struct VideoDefaults {
    codec_id: String,
    width: Option<u32>,
    height: Option<u32>,
    frame_rate: Option<Rational>,
    bit_rate: Option<u64>,
    device_index: Option<u32>,
}

/// Stream parameters that say nothing but which video codec it is.
///
/// Calls `oxideav_core::CodecParameters::video`. Claimed of it: the codec is the one
/// named, and size, frame rate, bit rate and device are left open. Nothing is
/// claimed of the fields that this library does not read.
#[verifier::external_body]
fn core_video(codec_id: String) -> (p: VideoDefaults)
    ensures
        p.codec_id@ == codec_id@,
        p.width is None,
        p.height is None,
        p.frame_rate is None,
        p.bit_rate is None,
        p.device_index is None,
{
    let p = oxideav_core::CodecParameters::video(oxideav_core::CodecId::new(codec_id));
    VideoDefaults {
        codec_id: p.codec_id.0,
        width: p.width,
        height: p.height,
        frame_rate: p.frame_rate.map(|r| Rational { num: r.num, den: r.den }),
        bit_rate: p.bit_rate,
        device_index: p.device_index,
    }
}

impl Packet {
    /// A packet with the given payload and no timing.
    pub fn new(stream_index: u32, time_base: TimeBase, data: Vec<u8>) -> (p: Packet)
        ensures
            p.stream_index == stream_index,
            p.time_base == time_base,
            p.pts is None,
            p.dts is None,
            p.duration is None,
            p.flags == (PacketFlags {
                keyframe: false,
                header: false,
                corrupt: false,
                discard: false,
                unit_boundary: false,
            }),
            p.data@ == data@,
    {
        core_packet(stream_index, time_base, data)
    }

    /// The packet with a presentation timestamp.
    pub fn with_pts(self, pts: i64) -> (p: Packet)
        ensures
            p == (Packet { pts: Some(pts), ..self }),
    {
        Packet { pts: Some(pts), ..self }
    }
}

impl CodecParameters {
    /// Parameters of a video stream of the codec called `codec_id`.
    pub fn video(codec_id: &str) -> (p: CodecParameters)
        ensures
            p.codec_id@ == codec_id@,
            p.width is None,
            p.height is None,
            p.pixel_format is None,
            p.frame_rate is None,
            p.bit_rate is None,
            p.device_index is None,
    {
        let defaults = core_video(String::from_str(codec_id));
        CodecParameters {
            codec_id: defaults.codec_id,
            width: defaults.width,
            height: defaults.height,
            pixel_format: None,
            frame_rate: defaults.frame_rate,
            bit_rate: defaults.bit_rate,
            device_index: defaults.device_index,
        }
    }

    /// The parameters with a device chosen.
    pub fn with_device_index(self, index: u32) -> (p: CodecParameters)
        ensures
            p == (CodecParameters { device_index: Some(index), ..self }),
    {
        CodecParameters { device_index: Some(index), ..self }
    }
}

} // verus!

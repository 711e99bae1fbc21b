//! What is reported of a device: one row for each codec.

use vstd::prelude::*;
use crate::nvdec::NvdecCaps;
use crate::sys::{
    is_av1, is_h264, is_hevc, nv_enc_codec_av1_guid, nv_enc_codec_h264_guid,
    nv_enc_codec_hevc_guid, CudaVideoCodec, Guid,
};
use crate::text::{join, nat_text, same_text, u64_text};

verus! {

/// A named value.
pub type Entry = (String, String);

/// What a device can do with one codec.
#[derive(Clone, Debug)]
pub struct HwCodecCaps {
    pub codec: String,
    pub decode: bool,
    pub encode: bool,
    pub max_width: Option<u32>,
    pub max_height: Option<u32>,
    pub max_bit_depth: Option<u32>,
    pub profiles: Vec<String>,
    pub extra: Vec<Entry>,
}

/// A device.
#[derive(Clone, Debug)]
pub struct HwDeviceInfo {
    pub name: String,
    pub driver_version: Option<String>,
    pub api_version: Option<String>,
    pub total_memory_bytes: Option<u64>,
    pub extra: Vec<Entry>,
    pub codecs: Vec<HwCodecCaps>,
}

/// An [`HwCodecCaps`] with its texts as characters.
#[verifier::ext_equal]
pub struct CapsView {
    pub codec: Seq<char>,
    pub decode: bool,
    pub encode: bool,
    pub max_width: Option<u32>,
    pub max_height: Option<u32>,
    pub max_bit_depth: Option<u32>,
    pub profiles: Seq<Seq<char>>,
    pub extra: Seq<(Seq<char>, Seq<char>)>,
}

/// An [`HwDeviceInfo`] with its texts as characters.
#[verifier::ext_equal]
pub struct InfoView {
    pub name: Seq<char>,
    pub driver_version: Option<Seq<char>>,
    pub api_version: Option<Seq<char>>,
    pub total_memory_bytes: Option<u64>,
    pub extra: Seq<(Seq<char>, Seq<char>)>,
    pub codecs: Seq<CapsView>,
}

/// A text, if there is one, as characters.
pub open spec fn text_view(t: Option<String>) -> Option<Seq<char>> {
    match t {
        Some(t) => Some(t@),
        None => None,
    }
}

/// Texts as characters.
pub open spec fn texts_view(v: Seq<String>) -> Seq<Seq<char>> {
    v.map_values(|s: String| s@)
}

/// Named values as characters.
pub open spec fn entries_view(v: Seq<Entry>) -> Seq<(Seq<char>, Seq<char>)> {
    v.map_values(|e: Entry| (e.0@, e.1@))
}

/// Rows as characters.
pub open spec fn rows_view(v: Seq<HwCodecCaps>) -> Seq<CapsView> {
    v.map_values(|r: HwCodecCaps| r@)
}

impl View for HwCodecCaps {
    type V = CapsView;

    open spec fn view(&self) -> CapsView {
        CapsView {
            codec: self.codec@,
            decode: self.decode,
            encode: self.encode,
            max_width: self.max_width,
            max_height: self.max_height,
            max_bit_depth: self.max_bit_depth,
            profiles: texts_view(self.profiles@),
            extra: entries_view(self.extra@),
        }
    }
}

impl View for HwDeviceInfo {
    type V = InfoView;

    open spec fn view(&self) -> InfoView {
        InfoView {
            name: self.name@,
            driver_version: text_view(self.driver_version),
            api_version: text_view(self.api_version),
            total_memory_bytes: self.total_memory_bytes,
            extra: entries_view(self.extra@),
            codecs: rows_view(self.codecs@),
        }
    }
}

/// Codecs that are asked about for decoding.
pub const DECODE_CODECS: usize = 6;

/// Codecs that are asked about for encoding.
pub const ENCODE_CODECS: usize = 3;

/// The codec of row `i`.
pub open spec fn decode_codec(i: int) -> CudaVideoCodec {
    if i == 0 {
        CudaVideoCodec::H264
    } else if i == 1 {
        CudaVideoCodec::Hevc
    } else if i == 2 {
        CudaVideoCodec::Av1
    } else if i == 3 {
        CudaVideoCodec::Vp9
    } else if i == 4 {
        CudaVideoCodec::Vp8
    } else {
        CudaVideoCodec::Mpeg2
    }
}

/// The name of the codec of row `i`. The first ones are also encoded.
pub open spec fn codec_name(i: int) -> Seq<char> {
    if i == 0 {
        "h264"@
    } else if i == 1 {
        "hevc"@
    } else if i == 2 {
        "av1"@
    } else if i == 3 {
        "vp9"@
    } else if i == 4 {
        "vp8"@
    } else {
        "mpeg2video"@
    }
}

/// Whether an identifier is that of encode codec `i`.
pub open spec fn is_encode_codec(g: Guid, i: int) -> bool {
    if i == 0 {
        is_h264(g)
    } else if i == 1 {
        is_hevc(g)
    } else {
        is_av1(g)
    }
}

pub(crate) fn decode_codec_at(i: usize) -> (c: CudaVideoCodec)
    ensures
        c == decode_codec(i as int),
{
    match i {
        0 => CudaVideoCodec::H264,
        1 => CudaVideoCodec::Hevc,
        2 => CudaVideoCodec::Av1,
        3 => CudaVideoCodec::Vp9,
        4 => CudaVideoCodec::Vp8,
        _ => CudaVideoCodec::Mpeg2,
    }
}

pub(crate) fn codec_name_at(i: usize) -> (s: &'static str)
    ensures
        s@ == codec_name(i as int),
{
    match i {
        0 => "h264",
        1 => "hevc",
        2 => "av1",
        3 => "vp9",
        4 => "vp8",
        _ => "mpeg2video",
    }
}

pub(crate) fn encode_codec_at(i: usize) -> (g: Guid)
    ensures
        is_encode_codec(g, i as int),
{
    match i {
        0 => nv_enc_codec_h264_guid(),
        1 => nv_enc_codec_hevc_guid(),
        _ => nv_enc_codec_av1_guid(),
    }
}

/// Whether encode codec `i` is among those that a session offers.
pub open spec fn offers(guids: Seq<Guid>, i: int) -> bool {
    exists|k: int| 0 <= k < guids.len() && is_encode_codec(#[trigger] guids[k], i)
}

pub(crate) fn is_offered(guids: &Vec<Guid>, i: usize) -> (r: bool)
    ensures
        r == offers(guids@, i as int),
{
    let wanted = encode_codec_at(i);
    let mut k: usize = 0;
    while k < guids.len()
        invariant
            k <= guids@.len(),
            is_encode_codec(wanted, i as int),
            forall|j: int| 0 <= j < k ==> !is_encode_codec(#[trigger] guids@[j], i as int),
        decreases guids@.len() - k,
    {
        if guids[k].same(&wanted) {
            assert(is_encode_codec(guids@[k as int], i as int));
            return true;
        }
        proof {
            let g = guids@[k as int];
            if is_encode_codec(g, i as int) {
                assert(g.data4 =~= wanted.data4);
            }
        }
        k = k + 1;
    }
    false
}

/// A row that says nothing but which codec it is.
pub open spec fn blank_row(codec: Seq<char>) -> CapsView {
    CapsView {
        codec,
        decode: false,
        encode: false,
        max_width: None,
        max_height: None,
        max_bit_depth: None,
        profiles: Seq::empty(),
        extra: Seq::empty(),
    }
}

/// A row for each codec, none of which says anything.
pub open spec fn blank_rows() -> Seq<CapsView> {
    Seq::new(DECODE_CODECS as nat, |i: int| blank_row(codec_name(i)))
}

/// A number, unless it is zero.
pub open spec fn nonzero(n: u32) -> Option<u32> {
    if n > 0 {
        Some(n)
    } else {
        None
    }
}

/// A named number, unless it is zero.
pub open spec fn count_entry(key: Seq<char>, n: int) -> Seq<(Seq<char>, Seq<char>)> {
    if n > 0 {
        seq![(key, nat_text(n as nat))]
    } else {
        Seq::empty()
    }
}

/// The row of a codec, by what the decode engine says of 8-bit streams; `None` where
/// it gives no answer.
pub open spec fn decode_row(codec: Seq<char>, caps: Option<NvdecCaps>) -> CapsView {
    match caps {
        Some(c) if c.is_supported != 0 => CapsView {
            decode: true,
            max_width: nonzero(c.max_width),
            max_height: nonzero(c.max_height),
            max_bit_depth: Some(8),
            extra: count_entry("max_mb_count"@, c.max_mb_count as int) + count_entry(
                "num_nvdecs"@,
                c.num_nvdecs as int,
            ),
            ..blank_row(codec)
        },
        _ => blank_row(codec),
    }
}

/// The row after what the decode engine says of 10-bit streams.
pub open spec fn deeper_row(row: CapsView, caps: Option<NvdecCaps>) -> CapsView {
    match caps {
        Some(c) if c.is_supported != 0 => CapsView { max_bit_depth: Some(10), ..row },
        _ => row,
    }
}

/// The larger of a limit and a number; a number that is not positive says nothing.
pub open spec fn widened(limit: Option<u32>, n: i32) -> Option<u32> {
    if n <= 0 {
        limit
    } else {
        match limit {
            Some(l) if l >= n => Some(l),
            _ => Some(n as u32),
        }
    }
}

/// The row of a codec that can be encoded, with the encode engine's limits.
pub open spec fn encode_row(row: CapsView, width: i32, height: i32, ten_bit: i32) -> CapsView {
    CapsView {
        encode: true,
        max_width: widened(row.max_width, width),
        max_height: widened(row.max_height, height),
        max_bit_depth: if ten_bit > 0 {
            widened(row.max_bit_depth, 10)
        } else if row.max_bit_depth is None {
            Some(8)
        } else {
            row.max_bit_depth
        },
        ..row
    }
}

/// The first row of a codec, or the number of rows where there is none.
pub open spec fn row_of(rows: Seq<CapsView>, codec: Seq<char>) -> int
    decreases rows.len(),
{
    if rows.len() == 0 {
        0
    } else if rows[0].codec == codec {
        0
    } else {
        1 + row_of(rows.drop_first(), codec)
    }
}

/// The rows after the encode engine's limits for a codec have been entered.
pub open spec fn annotated(
    rows: Seq<CapsView>,
    codec: Seq<char>,
    width: i32,
    height: i32,
    ten_bit: i32,
) -> Seq<CapsView> {
    let i = row_of(rows, codec);
    if i < rows.len() {
        rows.update(i, encode_row(rows[i], width, height, ten_bit))
    } else {
        rows
    }
}

fn or_none(n: u32) -> (r: Option<u32>)
    ensures
        r == nonzero(n),
{
    if n > 0 {
        Some(n)
    } else {
        None
    }
}

fn widen(limit: Option<u32>, n: i32) -> (r: Option<u32>)
    ensures
        r == widened(limit, n),
{
    if n <= 0 {
        return limit;
    }
    let n = n as u32;
    match limit {
        Some(l) => if l >= n {
            Some(l)
        } else {
            Some(n)
        },
        None => Some(n),
    }
}

fn push_count(extra: &mut Vec<Entry>, key: &str, n: u64)
    ensures
        entries_view(final(extra)@) == entries_view(old(extra)@) + count_entry(key@, n as int),
{
    if n > 0 {
        let entry = (String::from_str(key), u64_text(n));
        extra.push(entry);
    }
    assert(entries_view(extra@) =~= entries_view(old(extra)@) + count_entry(key@, n as int));
}

/// Makes the row of a codec from what the decode engine says of 8-bit streams.
pub fn make_decode_row(codec: &str, caps: Option<NvdecCaps>) -> (row: HwCodecCaps)
    ensures
        row@ == decode_row(codec@, caps),
{
    let mut row = HwCodecCaps {
        codec: String::from_str(codec),
        decode: false,
        encode: false,
        max_width: None,
        max_height: None,
        max_bit_depth: None,
        profiles: Vec::new(),
        extra: Vec::new(),
    };
    assert(row@ =~= blank_row(codec@));
    if let Some(c) = caps {
        if c.is_supported != 0 {
            row.decode = true;
            row.max_width = or_none(c.max_width);
            row.max_height = or_none(c.max_height);
            row.max_bit_depth = Some(8);
            push_count(&mut row.extra, "max_mb_count", c.max_mb_count as u64);
            push_count(&mut row.extra, "num_nvdecs", c.num_nvdecs as u64);
            assert(row@ =~= decode_row(codec@, caps));
        }
    }
    row
}

/// Makes a row for each codec of which nothing is known.
pub(crate) fn make_blank_rows() -> (rows: Vec<HwCodecCaps>)
    ensures
        rows_view(rows@) == blank_rows(),
{
    let mut rows: Vec<HwCodecCaps> = Vec::new();
    let mut i: usize = 0;
    while i < DECODE_CODECS
        invariant
            i <= DECODE_CODECS,
            rows@.len() == i,
            forall|j: int| 0 <= j < i ==> (#[trigger] rows@[j])@ == blank_row(codec_name(j)),
        decreases DECODE_CODECS - i,
    {
        rows.push(make_decode_row(codec_name_at(i), None));
        i = i + 1;
    }
    assert(rows_view(rows@) =~= blank_rows());
    rows
}

/// Enters what the decode engine says of 10-bit streams.
pub fn deepen_row(row: HwCodecCaps, caps: Option<NvdecCaps>) -> (r: HwCodecCaps)
    ensures
        r@ == deeper_row(row@, caps),
{
    match caps {
        Some(c) => if c.is_supported != 0 {
            HwCodecCaps { max_bit_depth: Some(10), ..row }
        } else {
            row
        },
        None => row,
    }
}

fn make_encode_row(row: &mut HwCodecCaps, width: i32, height: i32, ten_bit: i32)
    ensures
        final(row)@ == encode_row(old(row)@, width, height, ten_bit),
{
    row.encode = true;
    row.max_width = widen(row.max_width, width);
    row.max_height = widen(row.max_height, height);
    if ten_bit > 0 {
        row.max_bit_depth = widen(row.max_bit_depth, 10);
    } else if row.max_bit_depth.is_none() {
        row.max_bit_depth = Some(8);
    }
}

pub(crate) proof fn lemma_row_of(rows: Seq<CapsView>, codec: Seq<char>, i: int)
    requires
        0 <= i <= rows.len(),
        forall|j: int| 0 <= j < i ==> (#[trigger] rows[j]).codec != codec,
        i < rows.len() ==> rows[i].codec == codec,
    ensures
        row_of(rows, codec) == i,
    decreases rows.len(),
{
    if rows.len() > 0 && i > 0 {
        let rest = rows.drop_first();
        assert forall|j: int| 0 <= j < i - 1 implies (#[trigger] rest[j]).codec != codec by {
            assert(rest[j] == rows[j + 1]);
        }
        lemma_row_of(rest, codec, i - 1);
        assert(rows[0].codec != codec);
    }
}

/// Enters the encode engine's limits for a codec, if there is a row for it.
pub fn annotate_row(
    rows: &mut Vec<HwCodecCaps>,
    codec: &str,
    width: i32,
    height: i32,
    ten_bit: i32,
)
    ensures
        rows_view(final(rows)@) == annotated(
            rows_view(old(rows)@),
            codec@,
            width,
            height,
            ten_bit,
        ),
{
    let ghost before = rows_view(rows@);
    let mut i: usize = 0;
    while i < rows.len()
        invariant
            i <= rows@.len(),
            rows@ == old(rows)@,
            before == rows_view(rows@),
            forall|j: int| 0 <= j < i ==> (#[trigger] before[j]).codec != codec@,
        decreases rows@.len() - i,
    {
        if same_text(rows[i].codec.as_str(), codec) {
            proof {
                lemma_row_of(before, codec@, i as int);
            }
            make_encode_row(&mut rows[i], width, height, ten_bit);
            assert(rows_view(rows@) =~= annotated(before, codec@, width, height, ten_bit));
            return;
        }
        i = i + 1;
    }
    proof {
        lemma_row_of(before, codec@, i as int);
    }
}

/// The driver's version from the number `1000 * major + 10 * minor`.
pub open spec fn version_text(v: i32) -> Seq<char> {
    nat_text((v / 1000) as nat) + "."@ + nat_text((v % 1000 / 10) as nat)
}

/// Spells the driver's version.
pub fn spell_version(v: i32) -> (s: String)
    requires
        v >= 0,
    ensures
        s@ == version_text(v),
{
    let s = join(u64_text((v / 1000) as u64).as_str(), ".");
    join(s.as_str(), u64_text((v % 1000 / 10) as u64).as_str())
}

/// Encode limits only widen what is reported: no limit gets smaller or is lost, and
/// what is said of decoding stays.
pub proof fn encode_limits_only_widen(row: CapsView, width: i32, height: i32, ten_bit: i32)
    ensures
        ({
            let after = encode_row(row, width, height, ten_bit);
            &&& after.encode
            &&& after.decode == row.decode
            &&& after.codec == row.codec
            &&& after.extra == row.extra
            &&& row.max_width matches Some(w) ==> (after.max_width matches Some(a) && a >= w)
            &&& row.max_height matches Some(h) ==> (after.max_height matches Some(a) && a >= h)
            &&& row.max_bit_depth matches Some(d) ==> (after.max_bit_depth matches Some(a) && a
                >= d)
            &&& after.max_bit_depth is Some
        }),
{
}

/// No two rows are of the same codec.
pub proof fn codec_names_differ(i: int, j: int)
    requires
        0 <= i < DECODE_CODECS,
        0 <= j < DECODE_CODECS,
        i != j,
    ensures
        codec_name(i) != codec_name(j),
{
    reveal_strlit("h264");
    reveal_strlit("hevc");
    reveal_strlit("av1");
    reveal_strlit("vp9");
    reveal_strlit("vp8");
    reveal_strlit("mpeg2video");
    assert("h264"@[1] == '2' && "hevc"@[1] == 'e');
    assert("av1"@[0] == 'a' && "vp9"@[0] == 'v' && "vp8"@[0] == 'v');
    assert("vp9"@[2] == '9' && "vp8"@[2] == '8');
}

/// A driver of version `major.minor` gives the number `1000 * major + 10 * minor`, with a
/// last digit that is of no account, and is spelled by the two parts.
pub proof fn version_is_spelled_by_its_parts(major: nat, minor: nat, rest: nat, v: i32)
    requires
        minor < 100,
        rest < 10,
        v == 1000 * major + 10 * minor + rest,
    ensures
        version_text(v) == nat_text(major) + "."@ + nat_text(minor),
{
    assert(v / 1000 == major);
    assert(v % 1000 == 10 * minor + rest);
}

} // verus!

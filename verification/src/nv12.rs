//! Pixel layout: NV12 surfaces, as the hardware engines read and write them,
//! and planar I420 pictures, as the rest of a pipeline holds them.
//!
//! An NV12 surface is a luma plane followed by one plane of interleaved U and
//! V bytes at half resolution. Both planes have rows of `pitch` bytes.

use vstd::prelude::*;
use vstd::arithmetic::div_mod::lemma_fundamental_div_mod_converse;
use crate::frame::VideoPlane;

verus! {

/// The part of a decoded surface that is to be shown.
#[derive(Copy, Clone, Debug, PartialEq, Eq, Structural)]
pub struct Geometry {
    pub coded_width: u32,
    pub coded_height: u32,
    pub display_w: u32,
    pub display_h: u32,
    pub display_left: u32,
    pub display_top: u32,
}

/// A planar picture with tightly packed rows.
pub struct I420 {
    pub width: u32,
    pub height: u32,
    pub y: Vec<u8>,
    pub u: Vec<u8>,
    pub v: Vec<u8>,
}

/// Half of `n`, rounded up: the chroma size that goes with a luma size.
pub open spec fn half_up(n: int) -> int {
    (n + 1) / 2
}

/// `full` cut down to what lies right of (or below) `skipped` in `coded`.
pub open spec fn visible(full: u32, coded: u32, skipped: u32) -> int {
    let rest = if coded > skipped {
        coded - skipped
    } else {
        0
    };
    if full < rest {
        full as int
    } else {
        rest
    }
}

impl Geometry {
    /// Columns of the picture that is shown.
    pub open spec fn out_w(self) -> int {
        visible(self.display_w, self.coded_width, self.display_left)
    }

    /// Rows of the picture that is shown.
    pub open spec fn out_h(self) -> int {
        visible(self.display_h, self.coded_height, self.display_top)
    }
}

/// A plane of `h` rows of `w` bytes whose byte at row `r`, column `c` is `f(r, c)`.
pub open spec fn plane(h: int, w: int, f: spec_fn(int, int) -> u8) -> Seq<u8> {
    Seq::new((h * w) as nat, |i: int| f(i / w, i % w))
}

/// The luma byte that is shown at `row`, `col`. A row that the surface does not
/// hold whole is black.
pub open spec fn luma_at(y: Seq<u8>, pitch: int, g: Geometry, row: int, col: int) -> u8 {
    let start = (g.display_top + row) * pitch + g.display_left;
    if start + g.out_w() <= y.len() {
        y[start + col]
    } else {
        0
    }
}

/// The U byte (`which` 0) or V byte (`which` 1) that is shown at `row`, `col`. A
/// pair that the surface does not hold whole is zero.
pub open spec fn chroma_at(
    uv: Seq<u8>,
    pitch: int,
    g: Geometry,
    row: int,
    col: int,
    which: int,
) -> u8 {
    let pair = (g.display_top as int / 2 + row) * pitch + (g.display_left as int / 2) * 2 + col * 2;
    if pair + 1 < uv.len() {
        uv[pair + which]
    } else {
        0
    }
}

/// The luma plane of the picture that is shown.
pub open spec fn shown_luma(y: Seq<u8>, pitch: int, g: Geometry) -> Seq<u8> {
    plane(g.out_h(), g.out_w(), |row: int, col: int| luma_at(y, pitch, g, row, col))
}

/// The U plane (`which` 0) or V plane (`which` 1) of the picture that is shown.
pub open spec fn shown_chroma(uv: Seq<u8>, pitch: int, g: Geometry, which: int) -> Seq<u8> {
    plane(
        half_up(g.out_h()),
        half_up(g.out_w()),
        |row: int, col: int| chroma_at(uv, pitch, g, row, col, which),
    )
}

/// A plane of one more row is the plane with that row behind it.
proof fn lemma_plane_push_row(h: int, w: int, f: spec_fn(int, int) -> u8)
    requires
        h >= 0,
        w >= 0,
    ensures
        plane(h + 1, w, f) == plane(h, w, f) + Seq::new(w as nat, |c: int| f(h, c)),
        plane(h, w, f).len() == h * w,
{
    assert(h * w >= 0 && (h + 1) * w == h * w + w) by (nonlinear_arith)
        requires
            h >= 0,
            w >= 0,
    ;
    let longer = plane(h, w, f) + Seq::new(w as nat, |c: int| f(h, c));
    assert forall|i: int| 0 <= i < (h + 1) * w implies plane(h + 1, w, f)[i] == longer[i] by {
        if i >= h * w {
            assert(i == h * w + (i - h * w));
            lemma_fundamental_div_mod_converse(i, w, h, i - h * w);
        }
    }
    assert(plane(h + 1, w, f) =~= longer);
}

/// The byte of a plane at a row and a column.
pub proof fn lemma_plane_at(h: int, w: int, f: spec_fn(int, int) -> u8, row: int, col: int)
    requires
        0 <= row < h,
        0 <= col < w,
    ensures
        0 <= row * w + col < plane(h, w, f).len(),
        plane(h, w, f)[row * w + col] == f(row, col),
{
    assert(0 <= row * w && row * w + w <= h * w) by (nonlinear_arith)
        requires
            0 <= row < h,
            0 <= w,
    ;
    lemma_fundamental_div_mod_converse(row * w + col, w, row, col);
}

/// Half of `n`, rounded up.
pub fn half(n: u32) -> (r: u32)
    ensures
        r == half_up(n as int),
{
    n / 2 + n % 2
}

/// The place of byte `extra` in row `row` of rows that are `stride` bytes apart.
fn offset(row: u64, stride: u64, extra: u64) -> (r: u128)
    requires
        row < 0x4_0000_0000,
    ensures
        r == row * stride + extra,
        r < 0x8_0000_0000_0000_0000_0000_0000,
{
    assert(0 <= row * stride <= 0x4_0000_0000 * 0xFFFF_FFFF_FFFF_FFFF) by (nonlinear_arith)
        requires
            0 <= row < 0x4_0000_0000,
            0 <= stride <= 0xFFFF_FFFF_FFFF_FFFF,
    ;
    (row as u128) * (stride as u128) + (extra as u128)
}

/// Smaller of what is shown and what the surface holds.
fn clip(full: u32, coded: u32, skipped: u32) -> (r: u32)
    ensures
        r == visible(full, coded, skipped),
{
    let rest = coded.saturating_sub(skipped);
    if full < rest {
        full
    } else {
        rest
    }
}

/// Cuts the luma plane of a surface down to what is shown.
fn crop_luma(y: &Vec<u8>, pitch: u32, g: &Geometry) -> (out: Vec<u8>)
    ensures
        out@ == shown_luma(y@, pitch as int, *g),
{
    let w = clip(g.display_w, g.coded_width, g.display_left);
    let h = clip(g.display_h, g.coded_height, g.display_top);
    let ghost f = |row: int, col: int| luma_at(y@, pitch as int, *g, row, col);
    let mut out: Vec<u8> = Vec::new();
    let mut row: u32 = 0;
    assert(out@ =~= plane(0, w as int, f));
    while row < h
        invariant
            row <= h,
            h == g.out_h(),
            w == g.out_w(),
            f == (|row: int, col: int| luma_at(y@, pitch as int, *g, row, col)),
            out@ == plane(row as int, w as int, f),
        decreases h - row,
    {
        let start = offset(g.display_top as u64 + row as u64, pitch as u64, g.display_left as u64);
        let whole = start + w as u128 <= y.len() as u128;
        let ghost before = out@;
        let mut col: u32 = 0;
        while col < w
            invariant
                col <= w,
                w == g.out_w(),
                start == (g.display_top + row) * pitch + g.display_left,
                whole == (start + w <= y.len()),
                f == (|row: int, col: int| luma_at(y@, pitch as int, *g, row, col)),
                out@ == before + Seq::new(col as nat, |c: int| f(row as int, c)),
            decreases w - col,
        {
            let b: u8 = if whole {
                y[(start + col as u128) as usize]
            } else {
                0
            };
            out.push(b);
            col = col + 1;
            assert(out@ =~= before + Seq::new(col as nat, |c: int| f(row as int, c)));
        }
        proof {
            lemma_plane_push_row(row as int, w as int, f);
        }
        row = row + 1;
    }
    out
}

/// Takes the U bytes (`which` 0) or V bytes (`which` 1) of what is shown out of the
/// interleaved plane of a surface.
fn split_chroma(uv: &Vec<u8>, pitch: u32, g: &Geometry, which: usize) -> (out: Vec<u8>)
    requires
        which < 2,
    ensures
        out@ == shown_chroma(uv@, pitch as int, *g, which as int),
{
    let w = half(clip(g.display_w, g.coded_width, g.display_left));
    let h = half(clip(g.display_h, g.coded_height, g.display_top));
    let ghost f = |row: int, col: int| chroma_at(uv@, pitch as int, *g, row, col, which as int);
    let mut out: Vec<u8> = Vec::new();
    let mut row: u32 = 0;
    assert(out@ =~= plane(0, w as int, f));
    while row < h
        invariant
            row <= h,
            which < 2,
            h == half_up(g.out_h()),
            w == half_up(g.out_w()),
            f == (|row: int, col: int| chroma_at(uv@, pitch as int, *g, row, col, which as int)),
            out@ == plane(row as int, w as int, f),
        decreases h - row,
    {
        let start = offset(
            g.display_top as u64 / 2 + row as u64,
            pitch as u64,
            (g.display_left as u64 / 2) * 2,
        );
        let ghost before = out@;
        let mut col: u32 = 0;
        while col < w
            invariant
                col <= w,
                which < 2,
                w == half_up(g.out_w()),
                start == (g.display_top as int / 2 + row) * pitch + (g.display_left as int / 2) * 2,
                start < 0x8_0000_0000_0000_0000_0000_0000,
                f == (|row: int, col: int|
                    chroma_at(uv@, pitch as int, *g, row, col, which as int)),
                out@ == before + Seq::new(col as nat, |c: int| f(row as int, c)),
            decreases w - col,
        {
            let pair: u128 = start + (col as u128) * 2;
            let b: u8 = if pair + 1 < uv.len() as u128 {
                uv[pair as usize + which]
            } else {
                0
            };
            out.push(b);
            col = col + 1;
            assert(out@ =~= before + Seq::new(col as nat, |c: int| f(row as int, c)));
        }
        proof {
            lemma_plane_push_row(row as int, w as int, f);
        }
        row = row + 1;
    }
    out
}

/// Crops an NV12 surface to what is shown and takes it apart into three planes.
///
/// The crop honours a display rectangle that starts anywhere in the coded
/// picture. Rows and pairs that the surface does not hold come out as zero.
pub fn to_i420(y: &Vec<u8>, uv: &Vec<u8>, pitch: u32, g: &Geometry) -> (picture: I420)
    ensures
        picture.width == g.out_w(),
        picture.height == g.out_h(),
        picture.y@ == shown_luma(y@, pitch as int, *g),
        picture.u@ == shown_chroma(uv@, pitch as int, *g, 0),
        picture.v@ == shown_chroma(uv@, pitch as int, *g, 1),
{
    I420 {
        width: clip(g.display_w, g.coded_width, g.display_left),
        height: clip(g.display_h, g.coded_height, g.display_top),
        y: crop_luma(y, pitch, g),
        u: split_chroma(uv, pitch, g, 0),
        v: split_chroma(uv, pitch, g, 1),
    }
}

/// `dst` with `src` written over it from `at` on.
pub open spec fn overwrite(dst: Seq<u8>, at: int, src: Seq<u8>) -> Seq<u8> {
    Seq::new(
        dst.len(),
        |i: int|
            if at <= i < at + src.len() {
                src[i - at]
            } else {
                dst[i]
            },
    )
}

/// The byte at `at`, or neutral grey where the plane ends before it.
pub open spec fn chroma_or_grey(data: Seq<u8>, at: int) -> u8 {
    if 0 <= at < data.len() {
        data[at]
    } else {
        128
    }
}

/// `dst` once the first `rows` luma rows have been copied into it, in order. A row
/// that either side does not hold whole is left alone.
pub open spec fn with_luma(
    dst: Seq<u8>,
    pitch: int,
    width: int,
    y: VideoPlane,
    rows: int,
) -> Seq<u8>
    decreases rows,
{
    if rows <= 0 {
        dst
    } else {
        let before = with_luma(dst, pitch, width, y, rows - 1);
        let from = (rows - 1) * y.stride;
        let at = (rows - 1) * pitch;
        if from + width <= y.data@.len() && at + width <= dst.len() {
            overwrite(before, at, y.data@.subrange(from, from + width))
        } else {
            before
        }
    }
}

/// One row of alternating U and V bytes.
pub open spec fn chroma_row(width: int, u: VideoPlane, v: VideoPlane, row: int) -> Seq<u8> {
    Seq::new(
        (half_up(width) * 2) as nat,
        |i: int|
            if i % 2 == 0 {
                chroma_or_grey(u.data@, row * u.stride + i / 2)
            } else {
                chroma_or_grey(v.data@, row * v.stride + i / 2)
            },
    )
}

/// `dst` once the first `rows` chroma rows have been interleaved into it, from
/// `base` on and in order. A row that `dst` does not hold whole is left alone.
pub open spec fn with_chroma(
    dst: Seq<u8>,
    base: int,
    pitch: int,
    width: int,
    u: VideoPlane,
    v: VideoPlane,
    rows: int,
) -> Seq<u8>
    decreases rows,
{
    if rows <= 0 {
        dst
    } else {
        let before = with_chroma(dst, base, pitch, width, u, v, rows - 1);
        let at = base + (rows - 1) * pitch;
        if at + half_up(width) * 2 <= dst.len() {
            overwrite(before, at, chroma_row(width, u, v, rows - 1))
        } else {
            before
        }
    }
}

/// `dst` once a planar picture has been laid out in it as NV12.
pub open spec fn with_picture(
    dst: Seq<u8>,
    pitch: int,
    width: int,
    height: int,
    y: VideoPlane,
    u: VideoPlane,
    v: VideoPlane,
) -> Seq<u8> {
    with_chroma(
        with_luma(dst, pitch, width, y, height),
        pitch * height,
        pitch,
        width,
        u,
        v,
        half_up(height),
    )
}

/// Copies luma rows into a surface.
fn put_luma(dst: &mut Vec<u8>, pitch: u32, width: u32, height: u32, y: &VideoPlane)
    ensures
        final(dst)@ == with_luma(old(dst)@, pitch as int, width as int, *y, height as int),
{
    let ghost start = dst@;
    let mut row: u32 = 0;
    while row < height
        invariant
            row <= height,
            dst@.len() == start.len(),
            dst@ == with_luma(start, pitch as int, width as int, *y, row as int),
        decreases height - row,
    {
        let from = offset(row as u64, y.stride as u64, 0);
        let at = offset(row as u64, pitch as u64, 0);
        if from + width as u128 <= y.data.len() as u128 && at + width as u128 <= dst.len() as u128 {
            let ghost before = dst@;
            let from = from as usize;
            let at = at as usize;
            let ghost src = y.data@.subrange(from as int, from + width);
            let mut col: u32 = 0;
            assert(dst@ =~= overwrite(before, at as int, src.take(0)));
            while col < width
                invariant
                    col <= width,
                    from + width <= y.data.len(),
                    at + width <= dst.len(),
                    dst@.len() == before.len(),
                    src == y.data@.subrange(from as int, from + width),
                    dst@ == overwrite(before, at as int, src.take(col as int)),
                decreases width - col,
            {
                dst.set(at + col as usize, y.data[from + col as usize]);
                col = col + 1;
                assert(dst@ =~= overwrite(before, at as int, src.take(col as int)));
            }
            assert(src.take(width as int) =~= src);
        }
        row = row + 1;
    }
}

/// Interleaves chroma rows into a surface, from `base` on.
fn put_chroma(
    dst: &mut Vec<u8>,
    base: u128,
    pitch: u32,
    width: u32,
    rows: u32,
    u: &VideoPlane,
    v: &VideoPlane,
)
    requires
        base < 0x8_0000_0000_0000_0000_0000_0000,
    ensures
        final(dst)@ == with_chroma(
            old(dst)@,
            base as int,
            pitch as int,
            width as int,
            *u,
            *v,
            rows as int,
        ),
{
    let ghost start = dst@;
    let pairs = half(width);
    let mut row: u32 = 0;
    while row < rows
        invariant
            row <= rows,
            pairs == half_up(width as int),
            base < 0x8_0000_0000_0000_0000_0000_0000,
            dst@.len() == start.len(),
            dst@ == with_chroma(
                start,
                base as int,
                pitch as int,
                width as int,
                *u,
                *v,
                row as int,
            ),
        decreases rows - row,
    {
        let u_from = offset(row as u64, u.stride as u64, 0);
        let v_from = offset(row as u64, v.stride as u64, 0);
        let at = base + offset(row as u64, pitch as u64, 0);
        if at + (pairs as u128) * 2 <= dst.len() as u128 {
            let ghost before = dst@;
            let at = at as usize;
            let ghost src = chroma_row(width as int, *u, *v, row as int);
            let mut col: u32 = 0;
            assert(dst@ =~= overwrite(before, at as int, src.take(0)));
            while col < pairs
                invariant
                    col <= pairs,
                    pairs == half_up(width as int),
                    u_from == row * u.stride,
                    v_from == row * v.stride,
                    u_from < 0x8_0000_0000_0000_0000_0000_0000,
                    v_from < 0x8_0000_0000_0000_0000_0000_0000,
                    at + pairs * 2 <= dst.len(),
                    dst@.len() == before.len(),
                    src == chroma_row(width as int, *u, *v, row as int),
                    dst@ == overwrite(before, at as int, src.take(col * 2)),
                decreases pairs - col,
            {
                let u_at: u128 = u_from + col as u128;
                let v_at: u128 = v_from + col as u128;
                let u_byte: u8 = if u_at < u.data.len() as u128 {
                    u.data[u_at as usize]
                } else {
                    128
                };
                let v_byte: u8 = if v_at < v.data.len() as u128 {
                    v.data[v_at as usize]
                } else {
                    128
                };
                assert(src[col * 2] == u_byte);
                assert(src[col * 2 + 1] == v_byte);
                let pair: usize = at + (col as usize) * 2;
                dst.set(pair, u_byte);
                dst.set(pair + 1, v_byte);
                col = col + 1;
                assert(dst@ =~= overwrite(before, at as int, src.take(col * 2)));
            }
            assert(src.take(pairs * 2) =~= src);
        }
        row = row + 1;
    }
}

/// Lays a planar picture out as NV12 in `dst`, whose rows are `pitch` bytes apart.
///
/// A luma row that either side does not hold whole is skipped; chroma bytes that
/// the picture does not hold are neutral grey. Everything else of `dst` stays.
pub fn from_i420(
    dst: &mut Vec<u8>,
    pitch: u32,
    width: u32,
    height: u32,
    y: &VideoPlane,
    u: &VideoPlane,
    v: &VideoPlane,
)
    ensures
        final(dst)@ == with_picture(
            old(dst)@,
            pitch as int,
            width as int,
            height as int,
            *y,
            *u,
            *v,
        ),
{
    put_luma(dst, pitch, width, height, y);
    let base = offset(height as u64, pitch as u64, 0);
    assert(height * pitch == pitch * height) by (nonlinear_arith);
    put_chroma(dst, base, pitch, width, half(height), u, v);
}

/// Whether a plane holds `rows` rows of `width` bytes.
pub open spec fn holds(p: VideoPlane, width: int, rows: int) -> bool {
    forall|r: int|
        0 <= r < rows ==> #[trigger] (r * p.stride) + width <= p.data@.len()
}

/// Rows that do not overlap: a place in row `r` is not a place in row `n`.
proof fn lemma_rows_apart(r: int, c: int, n: int, pitch: int)
    requires
        0 <= c < pitch,
        r != n,
    ensures
        r * pitch + c < n * pitch || n * pitch + pitch <= r * pitch + c,
{
    if r < n {
        assert(r * pitch + pitch <= n * pitch) by (nonlinear_arith)
            requires
                r + 1 <= n,
                0 <= pitch,
        ;
    } else {
        assert(n * pitch + pitch <= r * pitch) by (nonlinear_arith)
            requires
                n + 1 <= r,
                0 <= pitch,
        ;
    }
}

/// What stands in row `r`, column `c` once luma rows have been copied.
proof fn lemma_luma_put(
    dst: Seq<u8>,
    pitch: int,
    width: int,
    y: VideoPlane,
    rows: int,
    r: int,
    c: int,
)
    requires
        0 <= width <= pitch,
        0 <= c < pitch,
        0 <= r * pitch + c < dst.len(),
    ensures
        with_luma(dst, pitch, width, y, rows).len() == dst.len(),
        with_luma(dst, pitch, width, y, rows)[r * pitch + c] == (if 0 <= r < rows && c < width && r
            * y.stride + width <= y.data@.len() && r * pitch + width <= dst.len() {
            y.data@[r * y.stride + c]
        } else {
            dst[r * pitch + c]
        }),
    decreases rows,
{
    if rows > 0 {
        lemma_luma_put(dst, pitch, width, y, rows - 1, r, c);
        if r != rows - 1 {
            lemma_rows_apart(r, c, rows - 1, pitch);
        } else {
            assert(r * y.stride >= 0) by (nonlinear_arith)
                requires
                    r >= 0,
                    y.stride >= 0,
            ;
        }
    }
}

/// What stands in chroma row `r`, column `c` once chroma rows have been interleaved.
proof fn lemma_chroma_put(
    dst: Seq<u8>,
    base: int,
    pitch: int,
    width: int,
    u: VideoPlane,
    v: VideoPlane,
    rows: int,
    r: int,
    c: int,
)
    requires
        0 <= width,
        half_up(width) * 2 <= pitch,
        0 <= c < pitch,
        0 <= base + r * pitch + c < dst.len(),
    ensures
        with_chroma(dst, base, pitch, width, u, v, rows).len() == dst.len(),
        with_chroma(dst, base, pitch, width, u, v, rows)[base + r * pitch + c] == (if 0 <= r < rows
            && c < half_up(width) * 2 && base + r * pitch + half_up(width) * 2 <= dst.len() {
            chroma_row(width, u, v, r)[c]
        } else {
            dst[base + r * pitch + c]
        }),
    decreases rows,
{
    if rows > 0 {
        lemma_chroma_put(dst, base, pitch, width, u, v, rows - 1, r, c);
        if r != rows - 1 {
            lemma_rows_apart(r, c, rows - 1, pitch);
        }
    }
}

/// Chroma rows leave what stands before them alone.
proof fn lemma_chroma_below(
    dst: Seq<u8>,
    base: int,
    pitch: int,
    width: int,
    u: VideoPlane,
    v: VideoPlane,
    rows: int,
    i: int,
)
    requires
        0 <= i < base,
        i < dst.len(),
        0 <= pitch,
    ensures
        with_chroma(dst, base, pitch, width, u, v, rows).len() == dst.len(),
        with_chroma(dst, base, pitch, width, u, v, rows)[i] == dst[i],
    decreases rows,
{
    if rows > 0 {
        lemma_chroma_below(dst, base, pitch, width, u, v, rows - 1, i);
        assert((rows - 1) * pitch >= 0) by (nonlinear_arith)
            requires
                rows >= 1,
                pitch >= 0,
        ;
    }
}

/// Where a surface has room for the picture and its rows do not overlap, the luma
/// byte of row `r`, column `c` stands `r` rows and `c` bytes into the surface, and
/// the bytes behind a row's pixels are what they were.
pub proof fn upload_places_luma(
    dst: Seq<u8>,
    pitch: int,
    width: int,
    height: int,
    y: VideoPlane,
    u: VideoPlane,
    v: VideoPlane,
    r: int,
    c: int,
)
    requires
        0 <= width,
        half_up(width) * 2 <= pitch,
        dst.len() == pitch * (height + half_up(height)),
        0 <= r < height,
        0 <= c < pitch,
        r * y.stride + width <= y.data@.len(),
    ensures
        0 <= r * pitch + c < dst.len(),
        with_picture(dst, pitch, width, height, y, u, v).len() == dst.len(),
        with_picture(dst, pitch, width, height, y, u, v)[r * pitch + c] == (if c < width {
            y.data@[r * y.stride + c]
        } else {
            dst[r * pitch + c]
        }),
{
    assert(0 <= r * pitch && r * pitch + pitch <= pitch * height && pitch * height <= dst.len())
        by (nonlinear_arith)
        requires
            0 <= r < height,
            0 <= pitch,
            0 <= half_up(height),
            dst.len() == pitch * (height + half_up(height)),
    ;
    lemma_luma_put(dst, pitch, width, y, height, r, c);
    lemma_chroma_below(
        with_luma(dst, pitch, width, y, height),
        pitch * height,
        pitch,
        width,
        u,
        v,
        half_up(height),
        r * pitch + c,
    );
}

/// Where a surface has room for the picture and its rows do not overlap, the U and V
/// bytes of chroma row `r`, column `c` stand side by side behind the luma plane.
pub proof fn upload_places_chroma(
    dst: Seq<u8>,
    pitch: int,
    width: int,
    height: int,
    y: VideoPlane,
    u: VideoPlane,
    v: VideoPlane,
    r: int,
    c: int,
)
    requires
        0 <= width,
        half_up(width) * 2 <= pitch,
        0 <= height,
        dst.len() == pitch * (height + half_up(height)),
        0 <= r < half_up(height),
        0 <= c < half_up(width),
    ensures
        with_picture(dst, pitch, width, height, y, u, v).len() == dst.len(),
        0 <= pitch * height + r * pitch + c * 2,
        pitch * height + r * pitch + c * 2 + 1 < dst.len(),
        with_picture(dst, pitch, width, height, y, u, v)[pitch * height + r * pitch + c * 2]
            == chroma_or_grey(u.data@, r * u.stride + c),
        with_picture(dst, pitch, width, height, y, u, v)[pitch * height + r * pitch + c * 2 + 1]
            == chroma_or_grey(v.data@, r * v.stride + c),
{
    let base = pitch * height;
    assert(0 <= r * pitch && 0 <= base && base + r * pitch + pitch <= dst.len())
        by (nonlinear_arith)
        requires
            0 <= r < half_up(height),
            0 <= pitch,
            0 <= height,
            base == pitch * height,
            dst.len() == pitch * (height + half_up(height)),
    ;
    let luma = with_luma(dst, pitch, width, y, height);
    assert(0 * pitch == 0);
    lemma_luma_put(dst, pitch, width, y, height, 0, 0);
    lemma_chroma_put(luma, base, pitch, width, u, v, half_up(height), r, c * 2);
    lemma_chroma_put(luma, base, pitch, width, u, v, half_up(height), r, c * 2 + 1);
}

/// A picture that is laid out in a surface and taken out of it again is the same
/// picture: the luma is that of the source, and so is the chroma, with grey for the
/// bytes that the source did not hold.
pub proof fn upload_then_download(
    dst: Seq<u8>,
    pitch: u32,
    width: u32,
    height: u32,
    y: VideoPlane,
    u: VideoPlane,
    v: VideoPlane,
)
    requires
        half_up(width as int) * 2 <= pitch,
        dst.len() == pitch * (height + half_up(height as int)),
        holds(y, width as int, height as int),
    ensures
        ({
            let (w, h, p) = (width as int, height as int, pitch as int);
            let surface = with_picture(dst, p, w, h, y, u, v);
            let luma = surface.subrange(0, p * h);
            let chroma = surface.subrange(p * h, surface.len() as int);
            let whole = Geometry {
                coded_width: width,
                coded_height: height,
                display_w: width,
                display_h: height,
                display_left: 0,
                display_top: 0,
            };
            &&& shown_luma(luma, p, whole) == plane(
                h,
                w,
                |r: int, c: int| y.data@[r * y.stride + c],
            )
            &&& shown_chroma(chroma, p, whole, 0) == plane(
                half_up(h),
                half_up(w),
                |r: int, c: int| chroma_or_grey(u.data@, r * u.stride + c),
            )
            &&& shown_chroma(chroma, p, whole, 1) == plane(
                half_up(h),
                half_up(w),
                |r: int, c: int| chroma_or_grey(v.data@, r * v.stride + c),
            )
        }),
{
    let (w, h, p) = (width as int, height as int, pitch as int);
    let surface = with_picture(dst, p, w, h, y, u, v);
    let base = p * h;
    let luma = surface.subrange(0, base);
    let chroma = surface.subrange(base, surface.len() as int);
    let whole = Geometry {
        coded_width: width,
        coded_height: height,
        display_w: width,
        display_h: height,
        display_left: 0,
        display_top: 0,
    };
    let want_y = plane(h, w, |r: int, c: int| y.data@[r * y.stride + c]);
    let want_u = plane(
        half_up(h),
        half_up(w),
        |r: int, c: int| chroma_or_grey(u.data@, r * u.stride + c),
    );
    let want_v = plane(
        half_up(h),
        half_up(w),
        |r: int, c: int| chroma_or_grey(v.data@, r * v.stride + c),
    );
    assert forall|i: int| 0 <= i < want_y.len() implies shown_luma(luma, p, whole)[i]
        == want_y[i] by {
        lemma_row_and_column(i, h, w);
        let (r, c) = (i / w, i % w);
        assert(r * y.stride + w <= y.data@.len());
        upload_places_luma(dst, p, w, h, y, u, v, r, c);
        assert(0 <= r * p && r * p + p <= base && base <= dst.len()) by (nonlinear_arith)
            requires
                0 <= r < h,
                0 <= p,
                base == p * h,
                0 <= half_up(h),
                dst.len() == p * (h + half_up(h)),
        ;
    }
    assert(shown_luma(luma, p, whole) =~= want_y);
    let (cw, ch) = (half_up(w), half_up(h));
    assert forall|i: int| 0 <= i < want_u.len() implies shown_chroma(chroma, p, whole, 0)[i]
        == want_u[i] && shown_chroma(chroma, p, whole, 1)[i] == want_v[i] by {
        lemma_row_and_column(i, ch, cw);
        let (r, c) = (i / cw, i % cw);
        upload_places_chroma(dst, p, w, h, y, u, v, r, c);
        assert(0 <= r * p && 0 <= base) by (nonlinear_arith)
            requires
                0 <= r,
                0 <= p,
                0 <= h,
                base == p * h,
        ;
        assert(chroma.len() == surface.len() - base);
        assert(chroma[r * p + c * 2] == surface[base + r * p + c * 2]);
        assert(chroma[r * p + c * 2 + 1] == surface[base + r * p + c * 2 + 1]);
    }
    assert(shown_chroma(chroma, p, whole, 0) =~= want_u);
    assert(shown_chroma(chroma, p, whole, 1) =~= want_v);
}

/// What is shown of a surface is the display rectangle, as far as the coded picture
/// reaches: the byte at row `r`, column `c` of the luma is the one that lies that many
/// rows and columns from the rectangle's corner, and each chroma pair is the one that
/// goes with it. A row or pair that the surface does not hold is zero.
pub proof fn shown_part_is_the_display_rectangle(
    y: Seq<u8>,
    uv: Seq<u8>,
    pitch: int,
    g: Geometry,
    r: int,
    c: int,
)
    requires
        0 <= r,
        0 <= c,
        0 <= pitch,
    ensures
        c < g.out_w() <==> c < g.display_w && g.display_left + c < g.coded_width,
        r < g.out_h() <==> r < g.display_h && g.display_top + r < g.coded_height,
        shown_luma(y, pitch, g).len() == g.out_w() * g.out_h(),
        shown_chroma(uv, pitch, g, 0).len() == ((g.out_w() + 1) / 2) * ((g.out_h() + 1) / 2),
        shown_chroma(uv, pitch, g, 1).len() == ((g.out_w() + 1) / 2) * ((g.out_h() + 1) / 2),
        r < g.out_h() && c < g.out_w() ==> {
            let at = (g.display_top + r) * pitch + (g.display_left + c);
            let byte = shown_luma(y, pitch, g)[r * g.out_w() + c];
            &&& 0 <= r * g.out_w() + c < shown_luma(y, pitch, g).len()
            &&& g.coded_width <= pitch && y.len() == pitch * g.coded_height ==> 0 <= at < y.len()
                && byte == y[at]
            &&& at - c + g.out_w() <= y.len() ==> byte == y[at]
            &&& at - c + g.out_w() > y.len() ==> byte == 0
        },
        r < (g.out_h() + 1) / 2 && c < (g.out_w() + 1) / 2 ==> {
            let at = (g.display_top / 2 + r) * pitch + 2 * (g.display_left / 2 + c);
            let i = r * ((g.out_w() + 1) / 2) + c;
            let (u, v) = (shown_chroma(uv, pitch, g, 0)[i], shown_chroma(uv, pitch, g, 1)[i]);
            &&& 0 <= i < shown_chroma(uv, pitch, g, 0).len()
            &&& 2 * ((g.coded_width as int + 1) / 2) <= pitch && uv.len() == pitch * ((
            g.coded_height as int + 1) / 2) ==> 0 <= at && at + 1 < uv.len()
            &&& at + 1 < uv.len() ==> u == uv[at] && v == uv[at + 1]
            &&& at + 1 >= uv.len() ==> u == 0 && v == 0
        },
{
    let (w, h) = (g.out_w(), g.out_h());
    let (cw, ch) = ((w + 1) / 2, (h + 1) / 2);
    let luma = |row: int, col: int| luma_at(y, pitch, g, row, col);
    let first = |row: int, col: int| chroma_at(uv, pitch, g, row, col, 0);
    let second = |row: int, col: int| chroma_at(uv, pitch, g, row, col, 1);
    assert(0 <= w * h && w * h == h * w) by (nonlinear_arith)
        requires
            0 <= w,
            0 <= h,
    ;
    assert(0 <= cw * ch && cw * ch == ch * cw) by (nonlinear_arith)
        requires
            0 <= cw,
            0 <= ch,
    ;
    if r < h && c < w {
        lemma_plane_at(h, w, luma, r, c);
        let row = g.display_top + r;
        assert(0 <= row * pitch) by (nonlinear_arith)
            requires
                0 <= row,
                0 <= pitch,
        ;
        if g.coded_width <= pitch && y.len() == pitch * g.coded_height {
            assert(row * pitch + pitch <= pitch * g.coded_height) by (nonlinear_arith)
                requires
                    row + 1 <= g.coded_height,
                    0 <= pitch,
            ;
        }
    }
    if r < ch && c < cw {
        lemma_plane_at(ch, cw, first, r, c);
        lemma_plane_at(ch, cw, second, r, c);
        let row = g.display_top as int / 2 + r;
        let rows = (g.coded_height as int + 1) / 2;
        assert(0 <= row * pitch) by (nonlinear_arith)
            requires
                0 <= row,
                0 <= pitch,
        ;
        if 2 * ((g.coded_width as int + 1) / 2) <= pitch && uv.len() == pitch * rows {
            assert(row * pitch + pitch <= pitch * rows) by (nonlinear_arith)
                requires
                    row + 1 <= rows,
                    0 <= pitch,
            ;
        }
    }
}

/// A picture that is cut out of a surface that holds the coded picture shows the display
/// rectangle byte for byte, wherever in the coded picture the rectangle starts.
pub proof fn picture_shows_the_display_rectangle(
    picture: I420,
    y: Seq<u8>,
    uv: Seq<u8>,
    pitch: u32,
    g: Geometry,
    r: int,
    c: int,
)
    requires
        picture.width == g.out_w(),
        picture.height == g.out_h(),
        picture.y@ == shown_luma(y, pitch as int, g),
        picture.u@ == shown_chroma(uv, pitch as int, g, 0),
        picture.v@ == shown_chroma(uv, pitch as int, g, 1),
        2 * ((g.coded_width as int + 1) / 2) <= pitch,
        y.len() == pitch * g.coded_height,
        uv.len() == pitch * ((g.coded_height as int + 1) / 2),
        0 <= r,
        0 <= c,
    ensures
        c < picture.width <==> c < g.display_w && g.display_left + c < g.coded_width,
        r < picture.height <==> r < g.display_h && g.display_top + r < g.coded_height,
        picture.y@.len() == picture.width * picture.height,
        picture.u@.len() == ((picture.width as int + 1) / 2) * ((picture.height as int + 1) / 2),
        picture.v@.len() == picture.u@.len(),
        r < picture.height && c < picture.width ==> picture.y@[r * picture.width + c] == y[(
        g.display_top + r) * pitch + (g.display_left + c)],
        2 * r < picture.height && 2 * c < picture.width ==> {
            let i = r * ((picture.width as int + 1) / 2) + c;
            let at = (g.display_top / 2 + r) * pitch + 2 * (g.display_left / 2 + c);
            picture.u@[i] == uv[at] && picture.v@[i] == uv[at + 1]
        },
{
    shown_part_is_the_display_rectangle(y, uv, pitch as int, g, r, c);
}

/// A planar picture that is laid out in a surface with room for it stands there byte for
/// byte: row `r`, column `c` of the luma that many rows and bytes from the start, and the
/// chroma pairs behind the last luma row, U before V. Chroma that the picture lacks is
/// grey, and what lies behind a row's pixels stays.
pub proof fn upload_fills_the_surface(
    dst: Seq<u8>,
    pitch: int,
    width: int,
    height: int,
    y: VideoPlane,
    u: VideoPlane,
    v: VideoPlane,
    r: int,
    c: int,
)
    requires
        0 <= width,
        0 <= height,
        2 * ((width + 1) / 2) <= pitch,
        dst.len() == pitch * (height + (height + 1) / 2),
        0 <= r,
        0 <= c < pitch,
    ensures
        ({
            let surface = with_picture(dst, pitch, width, height, y, u, v);
            let luma = r * pitch + c;
            let chroma = pitch * height + r * pitch + c;
            &&& surface.len() == dst.len()
            &&& r < height ==> 0 <= luma < dst.len()
            &&& r < height && c < width && r * y.stride + width <= y.data@.len() ==> surface[luma]
                == y.data@[r * y.stride + c]
            &&& r < height && (c >= width || r * y.stride + width > y.data@.len())
                ==> surface[luma] == dst[luma]
            &&& r < (height + 1) / 2 ==> 0 <= chroma < dst.len()
            &&& r < (height + 1) / 2 && c < width + width % 2 ==> {
                let from = if c % 2 == 0 {
                    u
                } else {
                    v
                };
                let at = r * from.stride + c / 2;
                surface[chroma] == (if at < from.data@.len() {
                    from.data@[at]
                } else {
                    128
                })
            }
            &&& r < (height + 1) / 2 && c >= width + width % 2 ==> surface[chroma] == dst[chroma]
        }),
{
    let base = pitch * height;
    let rows = (height + 1) / 2;
    let luma = with_luma(dst, pitch, width, y, height);
    assert(0 <= base) by (nonlinear_arith)
        requires
            0 <= pitch,
            0 <= height,
            base == pitch * height,
    ;
    assert(base + pitch * rows == dst.len()) by (nonlinear_arith)
        requires
            base == pitch * height,
            dst.len() == pitch * (height + rows),
    ;
    assert(0 <= pitch * rows) by (nonlinear_arith)
        requires
            0 <= pitch,
            0 <= rows,
    ;
    assert(0 <= r * pitch && 0 <= r * y.stride && 0 <= r * u.stride && 0 <= r * v.stride)
        by (nonlinear_arith)
        requires
            0 <= r,
            0 <= pitch,
            0 <= y.stride,
            0 <= u.stride,
            0 <= v.stride,
    ;
    lemma_luma_len(dst, pitch, width, y, height);
    lemma_chroma_len(luma, base, pitch, width, u, v, rows);
    if r < height {
        assert(r * pitch + pitch <= base) by (nonlinear_arith)
            requires
                r + 1 <= height,
                0 <= pitch,
                base == pitch * height,
        ;
        lemma_luma_put(dst, pitch, width, y, height, r, c);
        lemma_chroma_below(luma, base, pitch, width, u, v, rows, r * pitch + c);
    }
    if r < rows {
        assert(r * pitch + pitch <= pitch * rows) by (nonlinear_arith)
            requires
                r + 1 <= rows,
                0 <= pitch,
        ;
        lemma_chroma_put(luma, base, pitch, width, u, v, rows, r, c);
        lemma_luma_above(dst, pitch, width, y, height, base + r * pitch + c);
    }
}

proof fn lemma_luma_len(dst: Seq<u8>, pitch: int, width: int, y: VideoPlane, rows: int)
    ensures
        with_luma(dst, pitch, width, y, rows).len() == dst.len(),
    decreases rows,
{
    if rows > 0 {
        lemma_luma_len(dst, pitch, width, y, rows - 1);
    }
}

proof fn lemma_chroma_len(
    dst: Seq<u8>,
    base: int,
    pitch: int,
    width: int,
    u: VideoPlane,
    v: VideoPlane,
    rows: int,
)
    ensures
        with_chroma(dst, base, pitch, width, u, v, rows).len() == dst.len(),
    decreases rows,
{
    if rows > 0 {
        lemma_chroma_len(dst, base, pitch, width, u, v, rows - 1);
    }
}

/// Luma rows leave what stands behind them alone.
proof fn lemma_luma_above(
    dst: Seq<u8>,
    pitch: int,
    width: int,
    y: VideoPlane,
    rows: int,
    i: int,
)
    requires
        0 <= width <= pitch,
        pitch * rows <= i < dst.len(),
    ensures
        with_luma(dst, pitch, width, y, rows).len() == dst.len(),
        with_luma(dst, pitch, width, y, rows)[i] == dst[i],
    decreases rows,
{
    if rows > 0 {
        assert((rows - 1) * pitch + pitch == pitch * rows && pitch * (rows - 1) <= pitch * rows)
            by (nonlinear_arith)
            requires
                0 <= pitch,
        ;
        lemma_luma_above(dst, pitch, width, y, rows - 1, i);
    }
}

/// A place in a plane is a row and a column of it.
proof fn lemma_row_and_column(i: int, h: int, w: int)
    requires
        0 <= i < h * w,
        0 <= h,
        0 <= w,
    ensures
        w > 0,
        0 <= i / w < h,
        0 <= i % w < w,
{
    assert(w > 0) by (nonlinear_arith)
        requires
            0 <= i < h * w,
            0 <= h,
            0 <= w,
    ;
    assert(0 <= i / w < h && 0 <= i % w < w) by (nonlinear_arith)
        requires
            0 <= i < h * w,
            0 < w,
    ;
}

} // verus!

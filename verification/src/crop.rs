//! Clamped sub-rectangle cropping of raw BGRA framebuffers.
//!
//! A captured frame is a contiguous byte buffer holding `height` scanlines of
//! `stride` bytes each, of which only the first `4 * width` bytes of every
//! scanline are pixels (four bytes per pixel, B,G,R,A); the rest is driver
//! padding. Cropping packs the selected rows and columns tightly, in place,
//! reusing the caller's buffer so the capture loop never reallocates.

use vstd::prelude::*;
use vstd::arithmetic::div_mod::lemma_fundamental_div_mod_converse;

verus! {

/// Saturation of `v` into `[lo, hi]`, defined only when `lo <= hi`.
pub open spec fn clamped(v: int, lo: int, hi: int) -> int {
    if v <= lo {
        lo
    } else if v >= hi {
        hi
    } else {
        v
    }
}

/// Saturating clamp. `None` exactly when the range is empty (`min > max`);
/// otherwise the result lies in `[min, max]` and equals `value` whenever
/// `value` is already in range.
pub fn clamp(value: i32, min: i32, max: i32) -> (r: Option<i32>)
    ensures
        r is None <==> min > max,
        min <= max ==> r == Some((clamped(value as int, min as int, max as int)) as i32),
        min <= max ==> min <= clamped(value as int, min as int, max as int) <= max,
        min <= max && min <= value <= max ==> clamped(value as int, min as int, max as int)
            == value,
{
    if min > max {
        None
    } else if value <= min {
        Some(min)
    } else if value >= max {
        Some(max)
    } else {
        Some(value)
    }
}

/// A window rectangle in pixel coordinates as the OS reports it; it may be
/// partially or fully off-screen, or inverted.
#[derive(PartialEq, Eq, Structural, Clone, Copy, Debug)]
pub struct Rect {
    pub left: i32,
    pub top: i32,
    pub right: i32,
    pub bottom: i32,
}

/// Packs the byte region `[top, bottom) x [left, right)` (rows of `stride`
/// bytes each) to the front of `buf` and truncates `buf` to exactly that
/// region. Copying runs front to back, so every destination byte lands at or
/// before the source byte it is read from and the still-unread region is
/// never clobbered.
fn pack_region(buf: &mut Vec<u8>, stride: usize, top: usize, bottom: usize, left: usize,
    right: usize)
    requires
        left <= right <= stride,
        top <= bottom,
        bottom * stride <= old(buf).len(),
    ensures
        final(buf).len() == (bottom - top) * (right - left),
        forall|r: int, c: int|
            0 <= r < bottom - top && 0 <= c < right - left ==> #[trigger] final(buf)@[r * (right - left) + c]
                == old(buf)@[(top + r) * stride + left + c],
{
    let n_rows = bottom - top;
    let row_len = right - left;
    let ghost len0 = old(buf).len() as int;
    let mut r: usize = 0;
    while r < n_rows
        invariant
            0 <= r <= n_rows,
            n_rows == bottom - top,
            row_len == right - left,
            left <= right <= stride,
            top <= bottom,
            bottom * stride <= len0,
            buf.len() == len0,
            forall|r2: int, c2: int|
                0 <= r2 < r && 0 <= c2 < row_len ==> #[trigger] buf@[r2 * row_len + c2] == old(
                    buf,
                )@[(top + r2) * stride + left + c2],
            forall|k: int| (top + r) * stride + left <= k < len0 ==> #[trigger] buf@[k] == old(buf)@[k],
        decreases n_rows - r,
    {
        let mut c: usize = 0;
        assert((top + r + 1) * stride <= bottom * stride) by (nonlinear_arith)
            requires
                top + r + 1 <= bottom,
                0 <= stride,
        ;
        while c < row_len
            invariant
                0 <= c <= row_len,
                0 <= r < n_rows,
                n_rows == bottom - top,
                row_len == right - left,
                left <= right <= stride,
                top <= bottom,
                bottom * stride <= len0,
                (top + r + 1) * stride <= bottom * stride,
                buf.len() == len0,
                forall|r2: int, c2: int|
                    0 <= r2 < r && 0 <= c2 < row_len ==> #[trigger] buf@[r2 * row_len + c2] == old(
                        buf,
                    )@[(top + r2) * stride + left + c2],
                forall|c2: int|
                    0 <= c2 < c ==> #[trigger] buf@[r * row_len + c2] == old(buf)@[(top + r) * stride + left
                        + c2],
                forall|k: int| (top + r) * stride + left + c <= k < len0 ==> #[trigger] buf@[k] == old(buf)@[k],
            decreases row_len - c,
        {
            proof {
                assert((top + r) * stride + left + c < len0 && r * row_len + c <= (top + r) * stride
                    + left + c) by (nonlinear_arith)
                    requires
                        0 <= r,
                        0 <= top,
                        0 <= left,
                        0 <= c < row_len,
                        row_len <= stride,
                        left + row_len <= stride,
                        top + r + 1 <= bottom,
                        bottom * stride <= len0,
                        0 <= stride,
                ;
            }
            let i_src = (top + r) * stride + left + c;
            let i_dst = r * row_len + c;
            let v = buf[i_src];
            buf[i_dst] = v;
            assert forall|r2: int, c2: int|
                0 <= r2 < r && 0 <= c2 < row_len implies #[trigger] buf@[r2 * row_len + c2] == old(
                buf,
            )@[(top + r2) * stride + left + c2] by {
                assert(r2 * row_len + c2 < r * row_len) by (nonlinear_arith)
                    requires
                        0 <= r2 < r,
                        0 <= c2 < row_len,
                ;
            }
            c += 1;
        }
        proof {
            assert((top + r) * stride + left + row_len <= (top + r + 1) * stride + left)
                by (nonlinear_arith)
                requires
                    row_len <= stride,
            ;
        }
        r += 1;
    }
    assert(n_rows * row_len <= bottom * stride) by (nonlinear_arith)
        requires
            0 <= n_rows <= bottom,
            0 <= row_len <= stride,
    ;
    buf.truncate(n_rows * row_len);
    assert forall|r2: int, c2: int|
        0 <= r2 < n_rows && 0 <= c2 < row_len implies #[trigger] buf@[r2 * row_len + c2] == old(
        buf,
    )@[(top + r2) * stride + left + c2] by {
        assert(r2 * row_len + c2 < n_rows * row_len) by (nonlinear_arith)
            requires
                0 <= r2 < n_rows,
                0 <= c2 < row_len,
        ;
    }
}

/// Strips per-row driver padding from a full frame: keeps the first
/// `4 * width` bytes of each of the `height` scanlines (whose stride is
/// `buf.len() / height`) and truncates the buffer to the packed size — so a
/// frame whose stride exceeds `4 * width` loses exactly the padding bytes.
pub fn crop_full_frame(buf: &mut Vec<u8>, width: usize, height: usize)
    requires
        0 < height,
        4 * width <= old(buf).len() as int / height as int,
    ensures
        final(buf).len() == 4 * width * height,
        forall|r: int, c: int|
            0 <= r < height && 0 <= c < 4 * width ==> #[trigger] final(buf)@[r * (4 * width) + c] == old(
                buf,
            )@[r * (old(buf).len() as int / height as int) + c],
{
    let stride = buf.len() / height;
    proof {
        assert(height * stride <= buf.len()) by (nonlinear_arith)
            requires
                0 < height,
                stride == buf.len() as int / height as int,
        ;
    }
    pack_region(buf, stride, 0, height, 0, 4 * width);
    proof {
        assert(height * (4 * width) == 4 * width * height) by (nonlinear_arith);
    }
}

/// The clamped top bound of a windowed crop: the window's top edge saturated
/// into `[0, height]` (the top edge carries no inset).
pub open spec fn win_top(rect: Rect, height: usize) -> int {
    clamped(rect.top as int, 0, height as int)
}

/// The clamped bottom bound: the window's bottom edge inset by 7 pixels to
/// skip the OS window-shadow border, saturated into `[0, height]`.
pub open spec fn win_bottom(rect: Rect, height: usize) -> int {
    clamped(rect.bottom - 7, 0, height as int)
}

/// The clamped left bound: the window's left edge inset by 7 pixels,
/// saturated into `[0, width]`.
pub open spec fn win_left(rect: Rect, width: usize) -> int {
    clamped(rect.left + 7, 0, width as int)
}

/// The clamped right bound: the window's right edge inset by 7 pixels,
/// saturated into `[0, width]`.
pub open spec fn win_right(rect: Rect, width: usize) -> int {
    clamped(rect.right - 7, 0, width as int)
}

/// A windowed crop degenerates to a zero-area result when the clamped, inset
/// bounds leave no rows or no columns (minimized or off-screen windows).
pub open spec fn win_degenerate(rect: Rect, width: usize, height: usize) -> bool {
    win_right(rect, width) <= win_left(rect, width) || win_bottom(rect, height) <= win_top(
        rect,
        height,
    )
}

/// Crops the frame in `buf` to the window rectangle `rect`, clamped into the
/// frame bounds and inset by 7 pixels on the left, right and bottom edges
/// only, packing the selected region tightly and truncating `buf` to it.
/// Returns the cropped dimensions in pixels, `(0, 0)` (with an empty buffer)
/// when the clamped region is degenerate.
#[verifier::rlimit(100)]
#[verifier::spinoff_prover]
pub fn crop_frame_and_return_dims(buf: &mut Vec<u8>, rect: Rect, width: usize, height: usize) -> (r:
    (usize, usize))
    requires
        0 < height,
        width <= i32::MAX,
        height <= i32::MAX,
        rect.left <= i32::MAX - 7,
        i32::MIN + 7 <= rect.right,
        i32::MIN + 7 <= rect.bottom,
        4 * width <= old(buf).len() as int / height as int,
    ensures
        win_degenerate(rect, width, height) ==> r == (0usize, 0usize),
        !win_degenerate(rect, width, height) ==> r.0 == win_right(rect, width) - win_left(
            rect,
            width,
        ) && r.1 == win_bottom(rect, height) - win_top(rect, height),
        win_degenerate(rect, width, height) ==> final(buf).len() == 0,
        !win_degenerate(rect, width, height) ==> final(buf).len() == 4 * (win_right(rect, width)
            - win_left(rect, width)) * (win_bottom(rect, height) - win_top(rect, height)),
        !win_degenerate(rect, width, height) ==> forall|rr: int, cc: int|
            0 <= rr < r.1 && 0 <= cc < 4 * r.0 ==> #[trigger] final(buf)@[rr * (4 * r.0) + cc] == old(
                buf,
            )@[(win_top(rect, height) + rr) * (old(buf).len() as int / height as int) + 4 * win_left(
                rect,
                width,
            ) + cc],
{
    let stride = buf.len() / height;
    let top = clamp(rect.top, 0, height as i32).unwrap() as usize;
    let bottom = clamp(rect.bottom - 7, 0, height as i32).unwrap() as usize;
    let left = clamp(rect.left + 7, 0, width as i32).unwrap() as usize;
    let right = clamp(rect.right - 7, 0, width as i32).unwrap() as usize;
    if right <= left || bottom <= top {
        buf.truncate(0);
        proof {
            assert(buf.len() == 0);
        }
        (0, 0)
    } else {
        proof {
            assert(height * stride <= buf.len()) by (nonlinear_arith)
                requires
                    0 < height,
                    stride == buf.len() as int / height as int,
            ;
            assert(bottom * stride <= height * stride) by (nonlinear_arith)
                requires
                    bottom <= height,
                    0 <= stride,
            ;
        }
        pack_region(buf, stride, top, bottom, 4 * left, 4 * right);
        let out_w = right - left;
        let out_h = bottom - top;
        proof {
            assert(buf@.len() == (bottom - top) * (4 * right - 4 * left));
            assert(buf@.len() == 4 * out_w * out_h) by (nonlinear_arith)
                requires
                    buf@.len() == (bottom - top) * (4 * right - 4 * left),
                    out_w == right - left,
                    out_h == bottom - top,
            ;
            assert(buf.len() == 4 * out_w * out_h);
            assert(4 * out_w * out_h == 4 * (win_right(rect, width) - win_left(rect, width)) * (
            win_bottom(rect, height) - win_top(rect, height)));
        }
        (out_w, out_h)
    }
}

/// The same frame with its scanlines in reverse order. A capture surface
/// that hands rows bottom-up is turned top-down with this.
pub open spec fn vflipped(p: Seq<u8>, width: usize, height: usize) -> Seq<u8> {
    Seq::new(
        p.len(),
        |i: int| p[(height - 1 - i / (4 * width)) * (4 * width) + i % (4 * width)],
    )
}

/// Reverses the order of the `height` scanlines (each `4 * width` bytes) in
/// a tightly packed frame.
pub fn flip_vertical(p: &Vec<u8>, width: usize, height: usize) -> (out: Vec<u8>)
    requires
        0 < width,
        0 < height,
        p@.len() == 4 * width * height,
    ensures
        out@ == vflipped(p@, width, height),
{
    let n = p.len();
    proof {
        assert(4 * width <= n) by (nonlinear_arith)
            requires
                n == 4 * width * height,
                1 <= height,
                0 <= width,
        ;
    }
    let row_len = 4 * width;
    let mut out: Vec<u8> = Vec::new();
    let mut r: usize = 0;
    while r < height
        invariant
            0 <= r <= height,
            row_len == 4 * width,
            0 < row_len,
            p@.len() == 4 * width * height,
            n == p.len(),
            out@.len() == r * row_len,
            forall|j: int| 0 <= j < out@.len() ==> out@[j] == vflipped(p@, width, height)[j],
        decreases height - r,
    {
        let mut c: usize = 0;
        proof {
            assert(p@.len() == row_len * height) by (nonlinear_arith)
                requires
                    p@.len() == 4 * width * height,
                    row_len == 4 * width,
            ;
            assert((height - 1 - r) * row_len + row_len <= p@.len() && r * row_len + row_len
                <= p@.len()) by (nonlinear_arith)
                requires
                    0 <= r < height,
                    0 < row_len,
                    p@.len() == row_len * height,
            ;
        }
        while c < row_len
            invariant
                0 <= c <= row_len,
                0 <= r < height,
                row_len == 4 * width,
                0 < row_len,
                p@.len() == 4 * width * height,
                n == p.len(),
                (height - 1 - r) * row_len + row_len <= p@.len(),
                r * row_len + row_len <= p@.len(),
                out@.len() == r * row_len + c,
                forall|j: int| 0 <= j < out@.len() ==> out@[j] == vflipped(p@, width, height)[j],
            decreases row_len - c,
        {
            let src = (height - 1 - r) * row_len + c;
            out.push(p[src]);
            proof {
                lemma_fundamental_div_mod_converse(
                    (r * row_len + c) as int,
                    row_len as int,
                    r as int,
                    c as int,
                );
            }
            c += 1;
        }
        proof {
            assert((r + 1) * row_len == r * row_len + row_len) by (nonlinear_arith);
        }
        r += 1;
    }
    proof {
        assert(out@.len() == p@.len()) by (nonlinear_arith)
            requires
                out@.len() == height * row_len,
                row_len == 4 * width,
                p@.len() == 4 * width * height,
        ;
        assert(out@ =~= vflipped(p@, width, height));
    }
    out
}

} // verus!

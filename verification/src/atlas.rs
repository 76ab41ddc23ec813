//! The sprite atlas: all frames of an animation tiled into one static image.
//!
//! For `n` frames of identical size `w`×`h`, the grid has `cols = ⌈√n⌉`
//! columns and `rows = ⌈n / cols⌉` rows; frame `i` sits at grid cell
//! `(i mod cols, i div cols)` and the remaining cells are transparent.

use vstd::prelude::*;

use crate::codec::frames_model;
use crate::codec::webp_encode;
use crate::codec::webp_encoding_of;
use crate::codec::DecodedFrame;

verus! {

/// `r` is the integer square-root ceiling of `n`.
pub open spec fn is_ceil_sqrt(r: nat, n: nat) -> bool {
    n <= r * r && (r >= 1 ==> (r - 1) * (r - 1) < n) && (n == 0 ==> r == 0)
}

/// ⌈√n⌉, as pinned down by [`is_ceil_sqrt`].
pub open spec fn spec_ceil_sqrt(n: nat) -> nat {
    choose|r: nat| is_ceil_sqrt(r, n)
}

/// Two square-root ceilings of the same number are equal.
pub proof fn lemma_ceil_sqrt_unique(r1: nat, r2: nat, n: nat)
    requires
        is_ceil_sqrt(r1, n),
        is_ceil_sqrt(r2, n),
    ensures
        r1 == r2,
{
    if r1 < r2 {
        assert((r2 - 1) * (r2 - 1) >= r1 * r1) by (nonlinear_arith)
            requires
                r1 < r2,
        ;
    }
    if r2 < r1 {
        assert((r1 - 1) * (r1 - 1) >= r2 * r2) by (nonlinear_arith)
            requires
                r2 < r1,
        ;
    }
}

/// Computes ⌈√n⌉.
pub fn ceil_sqrt(n: u32) -> (r: u32)
    requires
        n >= 1,
    ensures
        1 <= r <= 65536,
        is_ceil_sqrt(r as nat, n as nat),
        r == spec_ceil_sqrt(n as nat),
{
    let mut r: u64 = 1;
    let mut rr: u64 = 1;
    while rr < n as u64
        invariant
            1 <= r <= 65536,
            rr == r * r,
            (r - 1) * (r - 1) < n,
            n >= 1,
        decreases n as int - r,
    {
        proof {
            assert(r <= r * r) by (nonlinear_arith)
                requires
                    r >= 1,
            ;
            assert(r < n);
            assert(r <= 65535) by (nonlinear_arith)
                requires
                    r * r < 0x1_0000_0000u64,
                    r >= 1,
            ;
            assert((r + 1) * (r + 1) <= 65536u64 * 65536u64) by (nonlinear_arith)
                requires
                    r <= 65535u64,
                    r >= 1,
            ;
        }
        r = r + 1;
        rr = r * r;
    }
    proof {
        assert(is_ceil_sqrt(r as nat, n as nat));
        lemma_ceil_sqrt_unique(r as nat, spec_ceil_sqrt(n as nat), n as nat);
    }
    r as u32
}

/// ⌈n / d⌉ over naturals: a full row for the remainder, if any.
pub open spec fn spec_ceil_div(n: nat, d: nat) -> nat
    recommends
        d >= 1,
{
    if n % d == 0 {
        n / d
    } else {
        n / d + 1
    }
}

/// Computes ⌈n / d⌉.
pub fn ceil_div_u32(n: u32, d: u32) -> (r: u32)
    requires
        d >= 1,
    ensures
        r == spec_ceil_div(n as nat, d as nat),
        n <= r * d,
        n >= 1 ==> r * d < n + d && r >= 1,
{
    let full = n / d;
    proof {
        vstd::arithmetic::div_mod::lemma_fundamental_div_mod(n as int, d as int);
        if n % d != 0 {
            assert(full < n) by (nonlinear_arith)
                requires
                    d >= 1,
                    full == n as int / d as int,
                    n == d * (n as int / d as int) + n as int % d as int,
                    1 <= n as int % d as int,
                    full >= 0,
            ;
        }
    }
    let r = if n % d == 0 {
        full
    } else {
        full + 1
    };
    proof {
        if n % d == 0 {
            assert(n <= r * d && (n >= 1 ==> r * d < n + d && r >= 1)) by (nonlinear_arith)
                requires
                    d >= 1,
                    full == n as int / d as int,
                    n == d * (n as int / d as int) + n as int % d as int,
                    n as int % d as int == 0,
                    r == full,
                    full >= 0,
            ;
        } else {
            assert(n <= r * d && (n >= 1 ==> r * d < n + d && r >= 1)) by (nonlinear_arith)
                requires
                    d >= 1,
                    full == n as int / d as int,
                    n == d * (n as int / d as int) + n as int % d as int,
                    1 <= (n as int % d as int) < d,
                    r == full + 1,
                    full >= 0,
            ;
        }
    }
    r
}

/// The RGBA canvas of the atlas, as a function of the frames and the grid.
///
/// `cw`/`ch` are the canvas pixel dimensions (`cols`·width by `rows`·height).
/// Byte `k` addresses channel `k mod 4` of pixel `k div 4`; pixel `(gx, gy)`
/// shows pixel `(gx mod w, gy mod h)` of frame `(gy div h)·cols + (gx div w)`,
/// or a transparent zero byte where that cell index is past the frame count.
pub open spec fn spec_atlas_canvas(
    frames: Seq<(u32, u32, u32, u32, Seq<u8>)>,
    w: nat,
    h: nat,
    cols: nat,
    cw: nat,
    ch: nat,
) -> Seq<u8> {
    Seq::new(
        4 * cw * ch,
        |k: int|
            {
                let p = k / 4;
                let c = k % 4;
                let gx = p % cw as int;
                let gy = p / cw as int;
                let cell = (gy / h as int) * cols + gx / w as int;
                let fx = gx % w as int;
                let fy = gy % h as int;
                if cell < frames.len() {
                    frames[cell].4[4 * (fy * w + fx) + c]
                } else {
                    0u8
                }
            },
    )
}

/// Builds the atlas canvas: frame `i` blitted at cell `(i mod cols, i div
/// cols)`, remaining cells transparent.
pub(crate) fn build_atlas_canvas(
    frames: &Vec<DecodedFrame>,
    width: u32,
    height: u32,
    cols: u32,
    rows: u32,
) -> (r: Vec<u8>)
    requires
        frames@.len() >= 1,
        forall|i: int| 0 <= i < frames@.len() ==> (#[trigger] frames@[i]).wf(),
        forall|i: int|
            0 <= i < frames@.len() ==> (#[trigger] frames@[i]).width == width
                && frames@[i].height == height,
        width >= 1,
        height >= 1,
        cols >= 1,
        rows >= 1,
        cols * width <= u32::MAX,
        rows * height <= u32::MAX,
        4 * (cols * width) * (rows * height) <= usize::MAX,
    ensures
        r@ == spec_atlas_canvas(
            frames_model(frames@),
            width as nat,
            height as nat,
            cols as nat,
            (cols * width) as nat,
            (rows * height) as nat,
        ),
        r@.len() == 4 * (cols * width) * (rows * height),
{
    let w = width as usize;
    let h = height as usize;
    proof {
        assert(cols * width >= 1 && rows * height >= 1) by (nonlinear_arith)
            requires
                cols >= 1,
                width >= 1,
                rows >= 1,
                height >= 1,
        ;
        assert(4 * (cols * width) <= 4 * (cols * width) * (rows * height)) by (nonlinear_arith)
            requires
                rows * height >= 1,
                cols * width >= 0,
        ;
        assert(cols * width <= 4 * (cols * width) * (rows * height)) by (nonlinear_arith)
            requires
                rows * height >= 1,
                cols * width >= 0,
        ;
    }
    let cw = (cols as usize) * w;
    let ch = (rows as usize) * h;
    let total = 4 * cw * ch;
    let n = frames.len();
    let ghost target = spec_atlas_canvas(
        frames_model(frames@),
        width as nat,
        height as nat,
        cols as nat,
        (cols * width) as nat,
        (rows * height) as nat,
    );
    let mut out: Vec<u8> = Vec::new();
    for k in 0..total
        invariant
            w == width && h == height && cw == cols * width && ch == rows * height,
            total == 4 * cw * ch,
            w >= 1 && h >= 1 && cw >= 1 && ch >= 1,
            n == frames@.len() >= 1,
            forall|i: int| 0 <= i < frames@.len() ==> (#[trigger] frames@[i]).wf(),
            forall|i: int|
                0 <= i < frames@.len() ==> (#[trigger] frames@[i]).width == width
                    && frames@[i].height == height,
            target == spec_atlas_canvas(
                frames_model(frames@),
                width as nat,
                height as nat,
                cols as nat,
                cw as nat,
                ch as nat,
            ),
            target.len() == total,
            out@.len() == k,
            forall|j: int| 0 <= j < k ==> out@[j] == target[j],
    {
        let p = k / 4;
        let c = k % 4;
        let gx = p % cw;
        let gy = p / cw;
        proof {
            vstd::arithmetic::div_mod::lemma_fundamental_div_mod(k as int, 4);
            vstd::arithmetic::div_mod::lemma_fundamental_div_mod(p as int, cw as int);
            assert(p < cw * ch) by (nonlinear_arith)
                requires
                    k < 4 * cw * ch,
                    p == k as int / 4,
                    k == 4 * (k as int / 4) + k as int % 4,
                    k as int % 4 >= 0,
            ;
            assert(gy < ch) by (nonlinear_arith)
                requires
                    p < cw * ch,
                    cw >= 1,
                    gy == p as int / cw as int,
                    p == cw * (p as int / cw as int) + p as int % cw as int,
                    p as int % cw as int >= 0,
            ;
        }
        let cell_x = gx / w;
        let cell_y = gy / h;
        let fx = gx % w;
        let fy = gy % h;
        proof {
            vstd::arithmetic::div_mod::lemma_fundamental_div_mod(gx as int, w as int);
            vstd::arithmetic::div_mod::lemma_fundamental_div_mod(gy as int, h as int);
            assert(cell_x < cols as int) by (nonlinear_arith)
                requires
                    gx < cw,
                    cw == cols * width,
                    w == width,
                    w >= 1,
                    cell_x == gx as int / w as int,
                    gx == w * (gx as int / w as int) + gx as int % w as int,
                    gx as int % w as int >= 0,
            ;
            assert(cell_y < rows as int) by (nonlinear_arith)
                requires
                    gy < ch,
                    ch == rows * height,
                    h == height,
                    h >= 1,
                    cell_y == gy as int / h as int,
                    gy == h * (gy as int / h as int) + gy as int % h as int,
                    gy as int % h as int >= 0,
            ;
            assert(cell_y * cols + cell_x < rows * cols) by (nonlinear_arith)
                requires
                    cell_x < cols as int,
                    cell_y < rows as int,
                    cols >= 1,
                    rows >= 1,
                    cell_x >= 0,
                    cell_y >= 0,
            ;
            assert(rows as int * cols as int <= (rows * height) * (cols * width))
                by (nonlinear_arith)
                requires
                    rows >= 1,
                    cols >= 1,
                    width >= 1,
                    height >= 1,
            ;
            assert((cols * width) * (rows * height) <= 4 * (cols * width) * (rows * height))
                by (nonlinear_arith)
                requires
                    cols * width >= 0,
                    rows * height >= 0,
            ;
            assert((rows * height) * (cols * width) == (cols * width) * (rows * height))
                by (nonlinear_arith);
        }
        let cell = cell_y * (cols as usize) + cell_x;
        let v: u8 = if cell < n {
            let f = &frames[cell];
            let flen = f.data.len();
            proof {
                assert(flen == f.data@.len());
                assert(fy * w + fx < h * w) by (nonlinear_arith)
                    requires
                        fx < w,
                        fy < h,
                        fx >= 0,
                        fy >= 0,
                        w >= 1,
                        h >= 1,
                ;
                assert(4 * (fy * w + fx) + c < 4 * (h * w)) by (nonlinear_arith)
                    requires
                        fy * w + fx < h * w,
                        fy * w + fx >= 0,
                        0 <= c < 4,
                ;
                assert(f.data@.len() == 4 * (h * w)) by (nonlinear_arith)
                    requires
                        f.data@.len() == 4 * f.width * f.height,
                        f.width == w,
                        f.height == h,
                ;
                assert(4 * (h * w) <= usize::MAX);
            }
            f.data[4 * (fy * w + fx) + c]
        } else {
            0u8
        };
        proof {
            assert(v == target[k as int]);
        }
        out.push(v);
    }
    proof {
        assert(out@ =~= target);
    }
    out
}

/// A single static WebP image packing all frames of an animation into a grid.
#[derive(Debug, Clone)]
pub struct AtlasTexture {
    /// WebP-encoded atlas image.
    pub data: Vec<u8>,
    pub frame_count: u32,
    /// Grid columns: ⌈√frame_count⌉.
    pub x_size: u32,
    /// Grid rows: ⌈frame_count / x_size⌉.
    pub y_size: u32,
}

impl AtlasTexture {
    /// Tiles the frames into the grid and encodes the canvas as WebP.
    ///
    /// Absent exactly when the canvas pixel dimensions do not fit the
    /// machine's limits or the encoder rejects the canvas.
    pub fn new(frames: &Vec<DecodedFrame>, width: u32, height: u32) -> (r: Option<AtlasTexture>)
        requires
            1 <= frames@.len() <= u32::MAX,
            width >= 1,
            height >= 1,
            forall|i: int| 0 <= i < frames@.len() ==> (#[trigger] frames@[i]).wf(),
            forall|i: int|
                0 <= i < frames@.len() ==> (#[trigger] frames@[i]).width == width
                    && frames@[i].height == height,
        ensures
            ({
                let n = frames@.len() as nat;
                let cols = spec_ceil_sqrt(n);
                let rows = spec_ceil_div(n, cols);
                let cw = (cols * width) as nat;
                let ch = (rows * height) as nat;
                let fits = cw <= u32::MAX && ch <= u32::MAX && 4 * cw * ch <= usize::MAX;
                match r {
                    Some(a) => fits && a.frame_count == n && a.x_size == cols && a.y_size == rows
                        && webp_encoding_of(
                        (cols * width) as u32,
                        (rows * height) as u32,
                        spec_atlas_canvas(
                            frames_model(frames@),
                            width as nat,
                            height as nat,
                            cols,
                            cw,
                            ch,
                        ),
                    ) == Some(a.data@),
                    None => !fits || webp_encoding_of(
                        (cols * width) as u32,
                        (rows * height) as u32,
                        spec_atlas_canvas(
                            frames_model(frames@),
                            width as nat,
                            height as nat,
                            cols,
                            cw,
                            ch,
                        ),
                    ) is None,
                }
            }),
    {
        let frame_count = frames.len() as u32;
        proof {
            assert(frame_count == frames@.len());
        }
        let x_size = ceil_sqrt(frame_count);
        let y_size = ceil_div_u32(frame_count, x_size);
        proof {
            assert(y_size * height >= 1 && x_size * width >= 1) by (nonlinear_arith)
                requires
                    x_size >= 1,
                    y_size >= 1,
                    width >= 1,
                    height >= 1,
            ;
        }
        let cw = match x_size.checked_mul(width) {
            Some(v) => v,
            None => {
                return None;
            },
        };
        let ch = match y_size.checked_mul(height) {
            Some(v) => v,
            None => {
                return None;
            },
        };
        let four_cw = match 4usize.checked_mul(cw as usize) {
            Some(v) => v,
            None => {
                proof {
                    assert(4 * (x_size * width) <= 4 * (x_size * width) * (y_size * height))
                        by (nonlinear_arith)
                        requires
                            y_size * height >= 1,
                            x_size * width >= 0,
                    ;
                }
                return None;
            },
        };
        if four_cw.checked_mul(ch as usize).is_none() {
            return None;
        }
        proof {
            assert(frames@.len() <= x_size * y_size) by (nonlinear_arith)
                requires
                    frame_count as int <= y_size * x_size,
                    frame_count == frames@.len(),
            ;
        }
        let canvas = build_atlas_canvas(frames, width, height, x_size, y_size);
        match webp_encode(cw, ch, &canvas) {
            Some(data) => Some(AtlasTexture { data, frame_count, x_size, y_size }),
            None => None,
        }
    }
}

} // verus!

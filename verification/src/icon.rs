//! The tray icon: a small keyboard drawn on a transparent 64x64 canvas, and its
//! conversion to the ARGB byte order that the tray protocol wants.
use vstd::prelude::*;

verus! {

/// Width and height of the icon in pixels.
pub const ICON_SIZE: u32 = 64;

/// An RGBA colour.
pub open spec fn rgba(r: u8, g: u8, b: u8, a: u8) -> Seq<u8> {
    seq![r, g, b, a]
}

/// Whether `(x, y)` lies in the rectangle at `(rx, ry)` of size `w` x `h`.
pub open spec fn in_rect(x: int, y: int, rx: int, ry: int, w: int, h: int) -> bool {
    rx <= x < rx + w && ry <= y < ry + h
}

/// Whether `(x, y)` lies on one of `count` keys 4 pixels wide and 6 high,
/// starting at `(x0, y0)` and 6 pixels apart.
pub open spec fn in_key_row(x: int, y: int, x0: int, y0: int, count: int) -> bool {
    &&& y0 <= y < y0 + 6
    &&& x0 <= x < x0 + 6 * count
    &&& (x - x0) % 6 < 4
}

/// The colour of pixel `(x, y)`: the keyboard body with a highlighted top edge,
/// three rows of keys (10, 9 and 9), and a bottom row with a space bar and
/// blue modifier keys; transparent elsewhere.
pub open spec fn icon_pixel(x: int, y: int) -> Seq<u8> {
    if in_rect(x, y, 8, 34, 4, 6) || in_rect(x, y, 44, 34, 4, 6) {
        rgba(52, 152, 219, 255)
    } else if in_key_row(x, y, 8, 10, 10) || in_key_row(x, y, 11, 18, 9) || in_key_row(
        x,
        y,
        11,
        26,
        9,
    ) || in_rect(x, y, 14, 34, 28, 6) || in_rect(x, y, 50, 34, 4, 6) {
        rgba(189, 195, 199, 255)
    } else if in_rect(x, y, 4, 6, 56, 1) {
        rgba(64, 82, 100, 255)
    } else if in_rect(x, y, 4, 6, 56, 52) {
        rgba(44, 62, 80, 255)
    } else {
        rgba(0, 0, 0, 0)
    }
}

fn key_row_contains(x: u32, y: u32, x0: u32, y0: u32, count: u32) -> (r: bool)
    requires
        x < 64,
        y < 64,
        x0 < 64,
        y0 < 64,
        count < 64,
    ensures
        r == in_key_row(x as int, y as int, x0 as int, y0 as int, count as int),
{
    y0 <= y && y < y0 + 6 && x0 <= x && x < x0 + 6 * count && (x - x0) % 6 < 4
}

fn rect_contains(x: u32, y: u32, rx: u32, ry: u32, w: u32, h: u32) -> (r: bool)
    requires
        x < 64,
        y < 64,
        rx < 64,
        ry < 64,
        w <= 64,
        h <= 64,
    ensures
        r == in_rect(x as int, y as int, rx as int, ry as int, w as int, h as int),
{
    rx <= x && x < rx + w && ry <= y && y < ry + h
}

fn pixel_color(x: u32, y: u32) -> (r: [u8; 4])
    requires
        x < 64,
        y < 64,
    ensures
        r@ == icon_pixel(x as int, y as int),
{
    let c: [u8; 4] = if rect_contains(x, y, 8, 34, 4, 6) || rect_contains(x, y, 44, 34, 4, 6) {
        [52, 152, 219, 255]
    } else if key_row_contains(x, y, 8, 10, 10) || key_row_contains(x, y, 11, 18, 9)
        || key_row_contains(x, y, 11, 26, 9) || rect_contains(x, y, 14, 34, 28, 6) || rect_contains(
        x,
        y,
        50,
        34,
        4,
        6,
    ) {
        [189, 195, 199, 255]
    } else if rect_contains(x, y, 4, 6, 56, 1) {
        [64, 82, 100, 255]
    } else if rect_contains(x, y, 4, 6, 56, 52) {
        [44, 62, 80, 255]
    } else {
        [0, 0, 0, 0]
    };
    assert(c@ =~= icon_pixel(x as int, y as int));
    c
}

/// The icon's pixels, row by row, four RGBA bytes each.
pub fn keyboard_icon_rgba() -> (r: Vec<u8>)
    ensures
        r@.len() == 64 * 64 * 4,
        forall|p: int, k: int|
            0 <= p < 64 * 64 && 0 <= k < 4 ==> #[trigger] r@[4 * p + k] == icon_pixel(
                p % 64,
                p / 64,
            )[k],
{
    let mut out: Vec<u8> = Vec::new();
    let mut y: u32 = 0;
    while y < 64
        invariant
            y <= 64,
            out@.len() == 256 * y,
            forall|p: int, k: int|
                0 <= p < 64 * y && 0 <= k < 4 ==> #[trigger] out@[4 * p + k] == icon_pixel(
                    p % 64,
                    p / 64,
                )[k],
        decreases 64 - y,
    {
        let mut x: u32 = 0;
        while x < 64
            invariant
                y < 64,
                x <= 64,
                out@.len() == 256 * y + 4 * x,
                forall|p: int, k: int|
                    0 <= p < 64 * y + x && 0 <= k < 4 ==> #[trigger] out@[4 * p + k] == icon_pixel(
                        p % 64,
                        p / 64,
                    )[k],
            decreases 64 - x,
        {
            let c = pixel_color(x, y);
            let ghost before = out@;
            let ghost q = 64 * y + x;
            out.push(c[0]);
            out.push(c[1]);
            out.push(c[2]);
            out.push(c[3]);
            assert(q % 64 == x && q / 64 == y);
            assert forall|p: int, k: int|
                0 <= p < q + 1 && 0 <= k < 4 implies #[trigger] out@[4 * p + k] == icon_pixel(
                p % 64,
                p / 64,
            )[k] by {
                if p < q {
                    assert(out@[4 * p + k] == before[4 * p + k]);
                } else {
                    assert(p == q);
                }
            }
            x = x + 1;
        }
        y = y + 1;
    }
    out
}

/// Reorders each 4-byte pixel from RGBA to ARGB (the last byte moves to the
/// front).
pub fn rgba_to_argb(data: &Vec<u8>) -> (r: Vec<u8>)
    requires
        data@.len() % 4 == 0,
    ensures
        r@.len() == data@.len(),
        forall|p: int|
            0 <= p < data@.len() / 4 ==> {
                &&& #[trigger] r@[4 * p] == data@[4 * p + 3]
                &&& r@[4 * p + 1] == data@[4 * p]
                &&& r@[4 * p + 2] == data@[4 * p + 1]
                &&& r@[4 * p + 3] == data@[4 * p + 2]
            },
{
    let len = data.len();
    let n = len / 4;
    assert(4 * n == data@.len()) by (nonlinear_arith)
        requires
            n == data@.len() / 4,
            data@.len() % 4 == 0,
    ;
    let mut out: Vec<u8> = Vec::new();
    let mut i: usize = 0;
    while i < n
        invariant
            n == data@.len() / 4,
            4 * n == data@.len(),
            len == data@.len(),
            data@.len() % 4 == 0,
            i <= n,
            out@.len() == 4 * i,
            forall|p: int|
                0 <= p < i ==> {
                    &&& #[trigger] out@[4 * p] == data@[4 * p + 3]
                    &&& out@[4 * p + 1] == data@[4 * p]
                    &&& out@[4 * p + 2] == data@[4 * p + 1]
                    &&& out@[4 * p + 3] == data@[4 * p + 2]
                },
        decreases n - i,
    {
        let ghost before = out@;
        assert(4 * i + 4 <= data@.len());
        let b = 4 * i;
        out.push(data[b + 3]);
        out.push(data[b]);
        out.push(data[b + 1]);
        out.push(data[b + 2]);
        assert forall|p: int| 0 <= p < i + 1 implies {
            &&& #[trigger] out@[4 * p] == data@[4 * p + 3]
            &&& out@[4 * p + 1] == data@[4 * p]
            &&& out@[4 * p + 2] == data@[4 * p + 1]
            &&& out@[4 * p + 3] == data@[4 * p + 2]
        } by {
            if p < i {
                assert(out@[4 * p] == before[4 * p]);
                assert(out@[4 * p + 1] == before[4 * p + 1]);
                assert(out@[4 * p + 2] == before[4 * p + 2]);
                assert(out@[4 * p + 3] == before[4 * p + 3]);
            }
        }
        i = i + 1;
    }
    out
}

/// The picture: nothing is drawn outside the keyboard's outline (the body
/// spans x 4-59 and y 6-57; the first key row runs on to x 65, past the
/// 64-pixel canvas); the first row holds ten keys 6 pixels apart from x 8, the
/// second and third nine keys from x 11; the body's top edge is highlighted;
/// the bottom row has blue modifier keys at x 8 and x 44 around a space bar
/// from x 14.
pub proof fn law_icon_layout()
    ensures
        forall|x: int, y: int|
            !(4 <= x < 68 && 6 <= y < 58) ==> #[trigger] icon_pixel(x, y) == rgba(0, 0, 0, 0),
        forall|i: int|
            0 <= i < 10 ==> #[trigger] icon_pixel(8 + 6 * i, 10) == rgba(189, 195, 199, 255),
        forall|i: int|
            0 <= i < 9 ==> #[trigger] icon_pixel(11 + 6 * i, 18) == rgba(189, 195, 199, 255)
                && icon_pixel(11 + 6 * i, 26) == rgba(189, 195, 199, 255),
        forall|x: int| 4 <= x < 60 ==> #[trigger] icon_pixel(x, 6) == rgba(64, 82, 100, 255),
        icon_pixel(8, 34) == rgba(52, 152, 219, 255),
        icon_pixel(44, 34) == rgba(52, 152, 219, 255),
        forall|x: int| 14 <= x < 42 ==> #[trigger] icon_pixel(x, 34) == rgba(189, 195, 199, 255),
{
    assert forall|i: int| 0 <= i < 10 implies #[trigger] icon_pixel(8 + 6 * i, 10) == rgba(
        189,
        195,
        199,
        255,
    ) by {
        assert((6 * i) % 6 == 0) by (nonlinear_arith);
    }
    assert forall|i: int| 0 <= i < 9 implies #[trigger] icon_pixel(11 + 6 * i, 18) == rgba(
        189,
        195,
        199,
        255,
    ) && icon_pixel(11 + 6 * i, 26) == rgba(189, 195, 199, 255) by {
        assert((6 * i) % 6 == 0) by (nonlinear_arith);
    }
}

} // verus!

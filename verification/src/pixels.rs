use vstd::prelude::*;
use vstd::arithmetic::div_mod::lemma_fundamental_div_mod_converse;

verus! {

/// Number of bytes in an RGBA8 image of the given size.
pub open spec fn image_len(width: nat, height: nat) -> nat {
    width * height * 4
}

/// An RGBA8 image whose every byte is `value`.
pub open spec fn filled_image(width: nat, height: nat, value: u8) -> Seq<u8> {
    Seq::new(image_len(width, height), |i: int| value)
}

/// Whether pixel (`x`, `y`) lies in the demo rectangle: a rectangle a quarter
/// of the canvas wide and high, centred on the canvas centre
/// (`width / 2`, `height / 2`), all in integer division.
pub open spec fn in_demo_rect(width: int, height: int, x: int, y: int) -> bool {
    let cx = width / 2;
    let cy = height / 2;
    let rect_w = width / 4;
    let rect_h = height / 4;
    &&& cx - rect_w / 2 <= x < cx + rect_w / 2
    &&& cy - rect_h / 2 <= y < cy + rect_h / 2
}

/// Channel `c` (0 red, 1 green, 2 blue, 3 alpha) of the demo rectangle's colour.
pub open spec fn demo_color(c: int) -> u8 {
    if c == 0 {
        70
    } else if c == 1 {
        130
    } else if c == 2 {
        220
    } else {
        200
    }
}

/// Byte `i` of the demo layer: pixels are stored row by row, four bytes each;
/// pixels inside the demo rectangle have the demo colour, the rest are
/// transparent black.
pub open spec fn demo_byte(width: nat, height: nat, i: int) -> u8 {
    let p = i / 4;
    if in_demo_rect(width as int, height as int, p % (width as int), p / (width as int)) {
        demo_color(i % 4)
    } else {
        0
    }
}

/// The demo layer's RGBA8 image.
pub open spec fn demo_image(width: nat, height: nat) -> Seq<u8> {
    Seq::new(image_len(width, height), |i: int| demo_byte(width, height, i))
}

/// What layer `index` of a new document starts with: the background (layer
/// 0) opaque white, "Layer 1" (layer 1) the demo rectangle.
pub open spec fn initial_image(width: nat, height: nat, index: nat) -> Seq<u8> {
    if index == 0 {
        filled_image(width, height, 255)
    } else {
        demo_image(width, height)
    }
}

/// The pixel data that layer `index` of a new document (0 the background, 1
/// "Layer 1") starts with.
pub fn initial_layer_pixels(width: u32, height: u32, index: usize) -> (r: Vec<u8>)
    requires
        width * height * 4 <= u32::MAX,
        index < 2,
    ensures
        r@ == initial_image(width as nat, height as nat, index as nat),
{
    if index == 0 {
        filled_pixels(width, height, 255)
    } else {
        demo_pixels(width, height)
    }
}

/// An RGBA8 image of `width` by `height` pixels whose every byte is `value`
/// (255 gives opaque white, 0 transparent black).
pub fn filled_pixels(width: u32, height: u32, value: u8) -> (r: Vec<u8>)
    requires
        width * height * 4 <= u32::MAX,
    ensures
        r@ == filled_image(width as nat, height as nat, value),
{
    let n: u32 = width * height * 4;
    let mut r: Vec<u8> = Vec::new();
    let mut i: u32 = 0;
    while i < n
        invariant
            i <= n,
            n == image_len(width as nat, height as nat),
            r@ == Seq::new(i as nat, |j: int| value),
        decreases n - i,
    {
        r.push(value);
        i = i + 1;
    }
    r
}

/// The demo content of a new document's upper layer: a rectangle in the demo
/// colour (70, 130, 220, 200) centred on a transparent canvas.
pub fn demo_pixels(width: u32, height: u32) -> (r: Vec<u8>)
    requires
        width * height * 4 <= u32::MAX,
    ensures
        r@ == demo_image(width as nat, height as nat),
{
    let cx = width / 2;
    let cy = height / 2;
    let rect_w = width / 4;
    let rect_h = height / 4;
    let x_lo = cx - rect_w / 2;
    let x_hi = cx + rect_w / 2;
    let y_lo = cy - rect_h / 2;
    let y_hi = cy + rect_h / 2;
    let mut r: Vec<u8> = Vec::new();
    let ghost w = width as int;
    let mut y: u32 = 0;
    while y < height
        invariant
            y <= height,
            width * height * 4 <= u32::MAX,
            w == width,
            x_lo == width / 2 - width / 4 / 2,
            x_hi == width / 2 + width / 4 / 2,
            y_lo == height / 2 - height / 4 / 2,
            y_hi == height / 2 + height / 4 / 2,
            r.len() == 4 * (y * w),
            forall|j: int| 0 <= j < r.len() ==> #[trigger] r@[j] == demo_byte(width as nat, height as nat, j),
        decreases height - y,
    {
        let mut x: u32 = 0;
        while x < width
            invariant
                y < height,
                x <= width,
                width * height * 4 <= u32::MAX,
                w == width,
                x_lo == width / 2 - width / 4 / 2,
                x_hi == width / 2 + width / 4 / 2,
                y_lo == height / 2 - height / 4 / 2,
                y_hi == height / 2 + height / 4 / 2,
                r.len() == 4 * (y * w + x),
                forall|j: int| 0 <= j < r.len() ==> #[trigger] r@[j] == demo_byte(width as nat, height as nat, j),
            decreases width - x,
        {
            let inside = x_lo <= x && x < x_hi && y_lo <= y && y < y_hi;
            let ghost p: int = y * w + x;
            proof {
                lemma_fundamental_div_mod_converse(p, w, y as int, x as int);
            }
            let ghost base: int = r.len() as int;
            if inside {
                r.push(70);
                r.push(130);
                r.push(220);
                r.push(200);
            } else {
                r.push(0);
                r.push(0);
                r.push(0);
                r.push(0);
            }
            assert forall|c: int| 0 <= c < 4 implies #[trigger] r@[base + c] == demo_byte(width as nat, height as nat, base + c) by {
                assert((base + c) / 4 == p);
                assert((base + c) % 4 == c);
            }
            x = x + 1;
        }
        assert(y * w + w == (y + 1) * w) by (nonlinear_arith);
        y = y + 1;
    }
    assert(height * w * 4 == width * height * 4) by (nonlinear_arith)
        requires w == width;
    assert(r@ == demo_image(width as nat, height as nat));
    r
}

} // verus!

verus! {

/// In the demo image, the four bytes of pixel (`x`, `y`) hold the demo colour
/// when the pixel lies in the demo rectangle and are zero otherwise.
pub proof fn lemma_demo_pixel(width: nat, height: nat, x: nat, y: nat, c: nat)
    requires
        x < width,
        y < height,
        c < 4,
    ensures
        (y * width + x) * 4 + c < demo_image(width, height).len(),
        demo_image(width, height)[((y * width + x) * 4 + c) as int] == if in_demo_rect(
            width as int,
            height as int,
            x as int,
            y as int,
        ) {
            demo_color(c as int)
        } else {
            0
        },
{
    let p = y * width + x;
    assert(p < width * height) by (nonlinear_arith)
        requires
            p == y * width + x,
            x < width,
            y < height,
    ;
    lemma_fundamental_div_mod_converse(p as int, width as int, y as int, x as int);
    assert((p * 4 + c) / 4 == p);
    assert((p * 4 + c) % 4 == c);
}

} // verus!

verus! {

/// A new document's layers start as follows, for every pixel (`x`, `y`) of
/// a `width` by `height` canvas, stored row by row at bytes
/// `(y * width + x) * 4` to `+ 3`: the background is opaque white; the upper
/// layer holds the colour (70, 130, 220, 200) exactly on the pixels with
/// `width / 2 - (width / 4) / 2 <= x < width / 2 + (width / 4) / 2` and
/// `height / 2 - (height / 4) / 2 <= y < height / 2 + (height / 4) / 2`, and
/// is transparent black elsewhere.
pub proof fn lemma_initial_layers(width: nat, height: nat, x: nat, y: nat, c: nat)
    requires
        x < width,
        y < height,
        c < 4,
    ensures
        initial_image(width, height, 0).len() == width * height * 4,
        initial_image(width, height, 1).len() == width * height * 4,
        (y * width + x) * 4 + c < width * height * 4,
        initial_image(width, height, 0)[((y * width + x) * 4 + c) as int] == 255,
        initial_image(width, height, 1)[((y * width + x) * 4 + c) as int] == if width as int / 2 - (
        width as int / 4) / 2 <= x < width as int / 2 + (width as int / 4) / 2 && height as int / 2 - (
        height as int / 4) / 2 <= y < height as int / 2 + (height as int / 4) / 2 {
            if c == 0 {
                70u8
            } else if c == 1 {
                130u8
            } else if c == 2 {
                220u8
            } else {
                200u8
            }
        } else {
            0u8
        },
{
    lemma_demo_pixel(width, height, x, y, c);
}

} // verus!

//! RGBA8 images of the `image` crate, as the texture code builds and reads them.

use image::{Rgba, RgbaImage};
use vstd::prelude::*;

verus! {

/// An `image::RgbaImage` (8-bit RGBA pixels, rows top to bottom), built, read
/// and written through the functions below, which state its size and bytes.
#[verifier::external_body]
pub struct RgbaTexture {
    pub image: RgbaImage,
}

/// The raw bytes of an image (`as_raw`): four bytes per pixel, row after row.
pub uninterp spec fn texture_bytes(img: RgbaTexture) -> Seq<u8>;

/// The `(width, height)` an image was made with.
pub uninterp spec fn texture_dims(img: RgbaTexture) -> (u32, u32);

/// The bytes `before` with the four bytes from `index` replaced by `pixel`.
pub open spec fn with_pixel(before: Seq<u8>, index: int, pixel: Seq<u8>) -> Seq<u8> {
    Seq::new(before.len(), |i: int| if index <= i < index + 4 { pixel[i - index] } else { before[i] })
}

/// `image::RgbaImage::new(width, height)`: an image of the given size whose
/// bytes are all zero (transparent black). It panics when `4 * width * height`
/// overflows `usize`, which is excluded.
#[verifier::external_body]
pub fn new_rgba_texture(width: u32, height: u32) -> (img: RgbaTexture)
    requires
        4 * width * height <= usize::MAX,
    ensures
        texture_dims(img) == (width, height),
        texture_bytes(img) == Seq::new((4 * width * height) as nat, |i: int| 0u8),
{
    RgbaTexture { image: RgbaImage::new(width, height) }
}

/// `image::RgbaImage::put_pixel(x, y, Rgba(pixel))`: overwrites the four bytes
/// of pixel `(x, y)`, at index `4 * (y * width + x)`. It panics for a pixel
/// outside the image, which is excluded.
#[verifier::external_body]
pub fn put_texture_pixel(img: &mut RgbaTexture, x: u32, y: u32, pixel: [u8; 4])
    requires
        x < texture_dims(*old(img)).0,
        y < texture_dims(*old(img)).1,
        texture_bytes(*old(img)).len() >= 4 * texture_dims(*old(img)).0 * texture_dims(*old(img)).1,
    ensures
        texture_dims(*final(img)) == texture_dims(*old(img)),
        texture_bytes(*final(img)) == with_pixel(
            texture_bytes(*old(img)),
            4 * (y * texture_dims(*old(img)).0 + x),
            pixel@,
        ),
{
    img.image.put_pixel(x, y, Rgba(pixel))
}

/// `image::RgbaImage::dimensions()`. Every constructor of the `image` crate
/// checks that the bytes hold `4 * width * height` of them.
#[verifier::external_body]
pub fn texture_dimensions(img: &RgbaTexture) -> (r: (u32, u32))
    ensures
        r == texture_dims(*img),
        texture_bytes(*img).len() >= 4 * r.0 * r.1,
{
    img.image.dimensions()
}

/// `image::RgbaImage::as_raw()`: the image's bytes.
#[verifier::external_body]
pub fn texture_raw_bytes(img: &RgbaTexture) -> (r: &Vec<u8>)
    ensures
        r@ == texture_bytes(*img),
{
    img.image.as_raw()
}

/// The side of one square of the missing-texture checkerboard: half the width,
/// at least one pixel.
pub open spec fn checker_square_size(width: u32) -> u32 {
    if width / 2 >= 1 { width / 2 } else { 1 }
}

/// The color of pixel `(x, y)` of the missing texture: magenta on the squares
/// whose coordinates sum to an even number, black on the others, both with
/// alpha 200 so that the texture works in opaque and transparent passes.
pub open spec fn missing_texture_color(width: u32, x: int, y: int) -> Seq<u8> {
    if (x / checker_square_size(width) as int + y / checker_square_size(width) as int) % 2 == 0 {
        seq![255u8, 0u8, 255u8, 200u8]
    } else {
        seq![0u8, 0u8, 0u8, 200u8]
    }
}

/// The bytes of the missing texture of the given size.
pub open spec fn missing_texture_bytes(width: u32, height: u32) -> Seq<u8> {
    Seq::new(
        (4 * width * height) as nat,
        |i: int| missing_texture_color(width, (i / 4) % width as int, (i / 4) / width as int)[i % 4],
    )
}

/// The four bytes of pixel number `q` of `bytes` are `color`.
pub open spec fn pixel_is(bytes: Seq<u8>, q: int, color: Seq<u8>) -> bool {
    forall|k: int| 0 <= k < 4 ==> #[trigger] bytes[4 * q + k] == color[k]
}

/// Generates the missing texture programmatically as a magenta and black
/// checkerboard of 2x2 squares.
pub fn generate_missing_texture_image(width: u32, height: u32) -> (img: RgbaTexture)
    requires
        4 * width * height <= usize::MAX,
    ensures
        texture_dims(img) == (width, height),
        texture_bytes(img) == missing_texture_bytes(width, height),
{
    let mut img = new_rgba_texture(width, height);
    let half = width / 2;
    let checker_size = if half >= 1 { half } else { 1 };
    let ghost w = width as int;
    let ghost h = height as int;
    let ghost n = w * h;
    proof {
        assert(4 * w * h == 4 * n) by (nonlinear_arith)
            requires n == w * h;
    }

    let mut y: u32 = 0;
    while y < height
        invariant
            0 <= y <= height,
            w == width,
            h == height,
            n == w * h,
            4 * width * height == 4 * n,
            checker_size == checker_square_size(width),
            texture_dims(img) == (width, height),
            texture_bytes(img).len() == 4 * n,
            forall|q: int| 0 <= q < y * w ==> #[trigger] pixel_is(texture_bytes(img), q, missing_texture_color(width, q % w, q / w)),
            forall|i: int| 4 * (y * w) <= i < 4 * n ==> #[trigger] texture_bytes(img)[i] == 0u8,
        decreases height - y,
    {
        let mut x: u32 = 0;
        while x < width
            invariant
                0 <= y < height,
                0 <= x <= width,
                w == width,
                h == height,
                n == w * h,
                4 * width * height == 4 * n,
                checker_size == checker_square_size(width),
                texture_dims(img) == (width, height),
                texture_bytes(img).len() == 4 * n,
                forall|q: int| 0 <= q < y * w + x ==> #[trigger] pixel_is(texture_bytes(img), q, missing_texture_color(width, q % w, q / w)),
                forall|i: int| 4 * (y * w + x) <= i < 4 * n ==> #[trigger] texture_bytes(img)[i] == 0u8,
            decreases width - x,
        {
            let checker_x = x / checker_size;
            let checker_y = y / checker_size;
            // (summed in 64 bits: the parity is that of the 32-bit sum, and it cannot overflow)
            let is_even = (checker_x as u64 + checker_y as u64) % 2 == 0;

            // translucent, so that it works for both opaque and transparency
            let color: [u8; 4] = if is_even {
                [255, 0, 255, 200]  // magenta
            } else {
                [0, 0, 0, 200]  // black
            };

            let ghost q = y * w + x;
            let ghost before = texture_bytes(img);
            proof {
                assert(y * w + x < n) by (nonlinear_arith)
                    requires 0 <= y < h, 0 <= x < w, n == w * h;
                vstd::arithmetic::div_mod::lemma_fundamental_div_mod_converse(q, w, y as int, x as int);
                assert(color@ =~= missing_texture_color(width, q % w, q / w));
            }
            put_texture_pixel(&mut img, x, y, color);
            proof {
                let after = texture_bytes(img);
                assert(after == with_pixel(before, 4 * q, color@));
                assert forall|p: int| 0 <= p < q + 1 implies #[trigger] pixel_is(after, p, missing_texture_color(width, p % w, p / w)) by {
                    if p < q {
                        assert(pixel_is(before, p, missing_texture_color(width, p % w, p / w)));
                        assert forall|k: int| 0 <= k < 4 implies #[trigger] after[4 * p + k] == missing_texture_color(width, p % w, p / w)[k] by {
                            assert(before[4 * p + k] == missing_texture_color(width, p % w, p / w)[k]);
                        }
                    } else {
                        assert forall|k: int| 0 <= k < 4 implies #[trigger] after[4 * p + k] == missing_texture_color(width, p % w, p / w)[k] by {
                            assert(after[4 * q + k] == color@[k]);
                        }
                    }
                }
                assert forall|i: int| 4 * (q + 1) <= i < 4 * n implies #[trigger] after[i] == 0u8 by {
                    assert(before[i] == 0u8);
                }
            }
            x = x + 1;
        }
        proof {
            assert((y + 1) * w == y * w + w) by (nonlinear_arith);
        }
        y = y + 1;
    }
    proof {
        let bytes = texture_bytes(img);
        assert(y * w == n) by (nonlinear_arith)
            requires y == h, n == w * h;
        assert forall|i: int| 0 <= i < 4 * n implies bytes[i] == missing_texture_bytes(width, height)[i] by {
            let q = i / 4;
            let k = i % 4;
            assert(0 <= q < n);
            assert(i == 4 * q + k);
            assert(pixel_is(bytes, q, missing_texture_color(width, q % w, q / w)));
            assert(bytes[4 * q + k] == missing_texture_color(width, q % w, q / w)[k]);
        }
        assert(bytes =~= missing_texture_bytes(width, height));
    }
    img
}

/// Pixel `(x, y)` of the missing texture's bytes has the checkerboard color
/// of `(x, y)`.
proof fn lemma_missing_texture_pixel(width: u32, height: u32, x: int, y: int)
    requires
        0 <= x < width,
        0 <= y < height,
    ensures
        4 * (y * width + x) + 4 <= missing_texture_bytes(width, height).len(),
        missing_texture_bytes(width, height).subrange(4 * (y * width + x), 4 * (y * width + x) + 4)
            == missing_texture_color(width, x, y),
{
    let w = width as int;
    let h = height as int;
    let q = y * w + x;
    assert(0 <= q < w * h) by (nonlinear_arith)
        requires
            0 <= x < w,
            0 <= y < h,
            q == y * w + x,
    ;
    assert(4 * width * height == 4 * (w * h)) by (nonlinear_arith)
        requires
            w == width,
            h == height,
    ;
    vstd::arithmetic::div_mod::lemma_fundamental_div_mod_converse(q, w, y, x);
    let bytes = missing_texture_bytes(width, height);
    let color = missing_texture_color(width, x, y);
    assert forall|k: int| 0 <= k < 4 implies #[trigger] bytes[4 * q + k] == color[k] by {
        let i = 4 * q + k;
        assert(i / 4 == q && i % 4 == k) by (nonlinear_arith)
            requires
                0 <= k < 4,
                q >= 0,
                i == 4 * q + k,
        ;
    }
    assert(bytes.subrange(4 * q, 4 * q + 4) =~= color);
}

/// The missing texture is a 2x2 checkerboard whatever its size: with squares
/// of side `width / 2` (for a width of at least 2), pixel `(x, y)` is magenta
/// `[255, 0, 255, 200]` when `x / (width / 2) + y / (width / 2)` is even and
/// black `[0, 0, 0, 200]` otherwise; so the whole top-left square is magenta
/// and the pixel right of it, `(width / 2, 0)`, is black.
pub proof fn lemma_missing_texture_is_two_by_two(width: u32, height: u32, x: int, y: int)
    requires
        width >= 2,
        0 <= x < width,
        0 <= y < height,
    ensures
        4 * (y * width + x) + 4 <= missing_texture_bytes(width, height).len(),
        missing_texture_bytes(width, height).subrange(4 * (y * width + x), 4 * (y * width + x) + 4) == (
        if (x / (width / 2) as int + y / (width / 2) as int) % 2 == 0 {
            seq![255u8, 0u8, 255u8, 200u8]
        } else {
            seq![0u8, 0u8, 0u8, 200u8]
        }),
        x < width / 2 && y < width / 2 ==> missing_texture_bytes(width, height).subrange(
            4 * (y * width + x),
            4 * (y * width + x) + 4,
        ) == seq![255u8, 0u8, 255u8, 200u8],
        y == 0 && x == width / 2 ==> missing_texture_bytes(width, height).subrange(
            4 * (y * width + x),
            4 * (y * width + x) + 4,
        ) == seq![0u8, 0u8, 0u8, 200u8],
{
    lemma_missing_texture_pixel(width, height, x, y);
    lemma_checker_color(width, x, y);
}

/// The checkerboard color of `(x, y)` for a width of at least 2, in terms of
/// the square side `width / 2`.
proof fn lemma_checker_color(width: u32, x: int, y: int)
    requires
        width >= 2,
        0 <= x,
        0 <= y,
    ensures
        missing_texture_color(width, x, y) == (if (x / (width / 2) as int + y / (width / 2) as int) % 2 == 0 {
            seq![255u8, 0u8, 255u8, 200u8]
        } else {
            seq![0u8, 0u8, 0u8, 200u8]
        }),
        x < width / 2 && y < width / 2 ==> missing_texture_color(width, x, y) == seq![255u8, 0u8, 255u8, 200u8],
        y == 0 && x == width / 2 ==> missing_texture_color(width, x, y) == seq![0u8, 0u8, 0u8, 200u8],
{
    let side = (width / 2) as int;
    assert(checker_square_size(width) == side);
    if x < side && y < side {
        assert(x / side == 0 && y / side == 0) by (nonlinear_arith)
            requires
                0 <= x < side,
                0 <= y < side,
        ;
    }
    if y == 0 && x == side {
        assert(x / side == 1 && y / side == 0) by (nonlinear_arith)
            requires
                x == side,
                side >= 1,
                y == 0,
        ;
    }
}

} // verus!

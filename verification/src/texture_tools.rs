//! The texture pack tools: tinting the grayscale grass texture and making the
//! translucent water texture.

use crate::rgba_image::{
    new_rgba_texture, put_texture_pixel, texture_bytes, texture_dimensions, texture_dims,
    texture_raw_bytes, with_pixel, RgbaTexture,
};
use vstd::prelude::*;

verus! {

/// The grass tint's red, green and blue factors (out of 255).
pub open spec fn grass_tint(channel: int) -> u16 {
    if channel == 0 {
        145
    } else if channel == 1 {
        189
    } else {
        89
    }
}

/// A color channel scaled by `tint / 255`, rounded down.
pub open spec fn tinted_channel(value: u8, tint: u16) -> u8 {
    ((value as int * tint as int) / 255) as u8
}

/// The bytes of an RGBA image with the grass tint applied: red, green and blue
/// scaled, alpha kept.
pub open spec fn tinted_bytes(bytes: Seq<u8>) -> Seq<u8> {
    Seq::new(
        bytes.len(),
        |i: int|
            if i % 4 == 3 {
                bytes[i]
            } else {
                tinted_channel(bytes[i], grass_tint(i % 4))
            },
    )
}

fn tint_channel(value: u8, tint: u16) -> (r: u8)
    requires
        tint <= 255,
    ensures
        r == tinted_channel(value, tint),
{
    assert(value as u16 * tint <= 255 * 255) by (nonlinear_arith)
        requires
            value <= 255,
            tint <= 255,
    ;
    ((value as u16 * tint) / 255) as u8
}

/// Tints a grayscale texture with the grass color: every pixel's red, green
/// and blue are scaled by 145/255, 189/255 and 89/255, its alpha kept.
pub fn tint_image(img: &RgbaTexture) -> (r: RgbaTexture)
    ensures
        texture_dims(r) == texture_dims(*img),
        texture_bytes(r) == tinted_bytes(
            texture_bytes(*img).subrange(0, 4 * texture_dims(*img).0 * texture_dims(*img).1),
        ),
{
    let (width, height) = texture_dimensions(img);
    let src = texture_raw_bytes(img);
    // the image's bytes are in memory, so a tinted copy of its size fits too
    let _bytes_in_memory = src.len();
    let ghost w = width as int;
    let ghost h = height as int;
    let ghost n = w * h;
    let ghost goal = tinted_bytes(src@.subrange(0, 4 * n));
    proof {
        assert(4 * w * h == 4 * n) by (nonlinear_arith)
            requires
                n == w * h,
        ;
    }
    let mut tinted = new_rgba_texture(width, height);

    let mut y: u32 = 0;
    while y < height
        invariant
            0 <= y <= height,
            w == width,
            h == height,
            n == w * h,
            4 * width * height == 4 * n,
            4 * n <= usize::MAX,
            src@.len() >= 4 * n,
            goal == tinted_bytes(src@.subrange(0, 4 * n)),
            texture_dims(tinted) == (width, height),
            texture_bytes(tinted).len() == 4 * n,
            forall|i: int| 0 <= i < 4 * (y * w) ==> #[trigger] texture_bytes(tinted)[i] == goal[i],
            forall|i: int| 4 * (y * w) <= i < 4 * n ==> #[trigger] texture_bytes(tinted)[i] == 0u8,
        decreases height - y,
    {
        let mut x: u32 = 0;
        while x < width
            invariant
                0 <= y < height,
                0 <= x <= width,
                w == width,
                h == height,
                n == w * h,
                4 * width * height == 4 * n,
                4 * n <= usize::MAX,
                src@.len() >= 4 * n,
                goal == tinted_bytes(src@.subrange(0, 4 * n)),
                texture_dims(tinted) == (width, height),
                texture_bytes(tinted).len() == 4 * n,
                forall|i: int| 0 <= i < 4 * (y * w + x) ==> #[trigger] texture_bytes(tinted)[i] == goal[i],
                forall|i: int| 4 * (y * w + x) <= i < 4 * n ==> #[trigger] texture_bytes(tinted)[i] == 0u8,
            decreases width - x,
        {
            let ghost q = y * w + x;
            proof {
                assert(y * w + x < n) by (nonlinear_arith)
                    requires
                        0 <= y < h,
                        0 <= x < w,
                        n == w * h,
                ;
            }
            let base: usize = 4 * (y as usize * width as usize + x as usize);
            let color: [u8; 4] = [
                tint_channel(src[base], 145),
                tint_channel(src[base + 1], 189),
                tint_channel(src[base + 2], 89),
                src[base + 3],
            ];
            let ghost before = texture_bytes(tinted);
            proof {
                assert forall|k: int| 0 <= k < 4 implies #[trigger] color@[k] == goal[4 * q + k] by {
                    assert((4 * q + k) % 4 == k) by (nonlinear_arith)
                        requires
                            0 <= k < 4,
                            q >= 0,
                    ;
                }
            }
            put_texture_pixel(&mut tinted, x, y, color);
            proof {
                let after = texture_bytes(tinted);
                assert(after == with_pixel(before, 4 * q, color@));
                assert forall|i: int| 0 <= i < 4 * (q + 1) implies #[trigger] after[i] == goal[i] by {
                    if i >= 4 * q {
                        assert(color@[i - 4 * q] == goal[4 * q + (i - 4 * q)]);
                    }
                }
                assert forall|i: int| 4 * (q + 1) <= i < 4 * n implies #[trigger] after[i] == 0u8 by {
                    assert(before[i] == 0u8);
                }
            }
            x = x + 1;
        }
        proof {
            assert((y + 1) * w == y * w + w) by (nonlinear_arith);
        }
        y = y + 1;
    }
    proof {
        assert(y * w == n) by (nonlinear_arith)
            requires
                y == h,
                n == w * h,
        ;
        assert(texture_bytes(tinted) =~= goal);
    }
    tinted
}

/// The translucent blue of the water texture.
pub open spec fn water_color() -> Seq<u8> {
    seq![63u8, 118u8, 228u8, 190u8]
}

/// The side of the square water texture.
pub open spec fn water_side() -> u32 {
    32
}

/// The bytes of the water texture: every pixel the water color.
pub open spec fn water_bytes() -> Seq<u8> {
    Seq::new((4 * water_side() * water_side()) as nat, |i: int| water_color()[i % 4])
}

/// Creates the 32x32 translucent water texture.
pub fn create_transparent_water() -> (r: RgbaTexture)
    ensures
        texture_dims(r) == (water_side(), water_side()),
        texture_bytes(r) == water_bytes(),
{
    let side: u32 = 32;
    let mut img = new_rgba_texture(side, side);
    let color: [u8; 4] = [63, 118, 228, 190];
    assert(color@ =~= water_color());
    let mut y: u32 = 0;
    while y < side
        invariant
            0 <= y <= side,
            side == water_side(),
            4 * side * side == 4096,
            color@ == water_color(),
            texture_dims(img) == (side, side),
            texture_bytes(img).len() == 4096,
            forall|i: int| 0 <= i < 4 * (y * 32) ==> #[trigger] texture_bytes(img)[i] == water_color()[i % 4],
        decreases side - y,
    {
        let mut x: u32 = 0;
        while x < side
            invariant
                0 <= y < side,
                0 <= x <= side,
                side == water_side(),
                4 * side * side == 4096,
                color@ == water_color(),
                texture_dims(img) == (side, side),
                texture_bytes(img).len() == 4096,
                forall|i: int| 0 <= i < 4 * (y * 32 + x) ==> #[trigger] texture_bytes(img)[i] == water_color()[i % 4],
            decreases side - x,
        {
            let ghost q = y * 32 + x;
            let ghost before = texture_bytes(img);
            put_texture_pixel(&mut img, x, y, color);
            proof {
                let after = texture_bytes(img);
                assert(after == with_pixel(before, 4 * q, color@));
                assert forall|i: int| 0 <= i < 4 * (q + 1) implies #[trigger] after[i] == water_color()[i % 4] by {
                    if i >= 4 * q {
                        assert(i % 4 == i - 4 * q) by (nonlinear_arith)
                            requires
                                4 * q <= i < 4 * q + 4,
                                q >= 0,
                        ;
                    }
                }
            }
            x = x + 1;
        }
        y = y + 1;
    }
    assert(texture_bytes(img) =~= water_bytes());
    img
}

} // verus!

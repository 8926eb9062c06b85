//! A 2D texture array: equally sized RGBA8 layers, stitched into one buffer.

use crate::rgba_image::{texture_bytes, texture_dims, texture_raw_bytes, RgbaTexture};
use vstd::prelude::*;

verus! {

/// The pixel formats of a texture.
#[derive(Clone, Copy, Debug, PartialEq, Eq, Structural)]
pub enum TextureFormat {
    /// 8-bit red, green, blue and alpha, the colors in sRGB.
    Rgba8UnormSrgb,
}

/// The shapes of a texture's storage.
#[derive(Clone, Copy, Debug, PartialEq, Eq, Structural)]
pub enum TextureDimension {
    /// Two-dimensional layers.
    D2,
}

/// How shaders view a texture.
#[derive(Clone, Copy, Debug, PartialEq, Eq, Structural)]
pub enum TextureViewDimension {
    /// An array of 2D layers, indexed by layer.
    D2Array,
}

/// Where a texture asset is kept once loaded.
#[derive(Clone, Copy, Debug, PartialEq, Eq, Structural)]
pub enum AssetUsage {
    /// Only in the render world: the CPU copy is dropped once uploaded.
    RenderWorld,
}

/// The image of a texture array ready for upload: `layer_count` layers of
/// `width` x `height` pixels in `format`, one after the other in `data`,
/// with the view and usage that the renderer creates it with.
pub struct StitchedTextureArray {
    pub width: u32,
    pub height: u32,
    pub layer_count: u32,
    pub data: Vec<u8>,
    pub format: TextureFormat,
    pub dimension: TextureDimension,
    pub view_dimension: TextureViewDimension,
    pub view_label: &'static str,
    pub usage: AssetUsage,
}

/// How the voxel texture array is created: RGBA8 sRGB 2D layers, viewed as a
/// 2D array labelled "Voxel Texture Array View", kept in the render world only.
pub open spec fn voxel_array_settings(a: StitchedTextureArray) -> bool {
    &&& a.format == TextureFormat::Rgba8UnormSrgb
    &&& a.dimension == TextureDimension::D2
    &&& a.view_dimension == TextureViewDimension::D2Array
    &&& a.view_label@ == "Voxel Texture Array View"@
    &&& a.usage == AssetUsage::RenderWorld
}

/// The bytes of `layers`, one layer after the other.
pub open spec fn concat_texture_bytes(layers: Seq<RgbaTexture>) -> Seq<u8>
    decreases layers.len(),
{
    if layers.len() == 0 {
        Seq::empty()
    } else {
        concat_texture_bytes(layers.drop_last()) + texture_bytes(layers.last())
    }
}

/// Every layer has the given size.
pub open spec fn all_layers_sized(layers: Seq<RgbaTexture>, width: u32, height: u32) -> bool {
    forall|i: int| 0 <= i < layers.len() ==> #[trigger] texture_dims(layers[i]) == (width, height)
}

/// A count as the `u32` layer count of a texture array (it wraps).
pub open spec fn layer_count_of(n: nat) -> u32 {
    (n % 0x1_0000_0000) as u32
}

/// Combines all pixel data of `layers` into a single flat byte vector: the
/// texture array of `width` x `height` layers, set up as the voxel texture
/// array.
pub fn stitch_layers(layers: &Vec<RgbaTexture>, width: u32, height: u32) -> (r: StitchedTextureArray)
    ensures
        r.width == width,
        r.height == height,
        r.layer_count == layer_count_of(layers@.len()),
        r.data@ == concat_texture_bytes(layers@),
        voxel_array_settings(r),
{
    let mut data: Vec<u8> = Vec::new();
    let mut i: usize = 0;
    while i < layers.len()
        invariant
            0 <= i <= layers.len(),
            data@ == concat_texture_bytes(layers@.take(i as int)),
        decreases layers.len() - i,
    {
        let raw = texture_raw_bytes(&layers[i]);
        data.extend_from_slice(raw.as_slice());
        assert(layers@.take(i + 1).drop_last() =~= layers@.take(i as int));
        assert(data@ =~= concat_texture_bytes(layers@.take(i as int)) + texture_bytes(layers@[i as int]));
        i = i + 1;
    }
    assert(layers@.take(i as int) =~= layers@);
    let layer_count = (layers.len() as u64 % 0x1_0000_0000u64) as u32;
    StitchedTextureArray {
        width,
        height,
        layer_count,
        data,
        format: TextureFormat::Rgba8UnormSrgb,
        dimension: TextureDimension::D2,
        view_dimension: TextureViewDimension::D2Array,
        view_label: "Voxel Texture Array View",
        usage: AssetUsage::RenderWorld,
    }
}

} // verus!

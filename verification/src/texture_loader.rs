//! Assembles the voxel texture array from the images of a texture pack folder
//! that the caller has read: the missing texture first, then one image per
//! texture in the order of their sorted paths.

use crate::rgba_image::{texture_bytes, texture_dimensions, texture_dims, RgbaTexture};
use crate::text::{decimal, decimal_string};
use crate::texture_array::{
    all_layers_sized, concat_texture_bytes, layer_count_of, stitch_layers, voxel_array_settings,
    StitchedTextureArray,
};
use crate::texture_error::TextureLoadError;
use crate::texture_registry::{
    lemma_texture_ids_by_position, missing_texture_name, string_views, texture_id_map,
    texture_ids, TextureRegistryResource,
};
use crate::voxel_texture_processor::lemma_texture_ids_has_missing;
use vstd::prelude::*;

verus! {

/// The size for the missing texture: that of the pack's first image, or 2x2
/// when the folder is empty.
pub fn missing_texture_dimensions(first_image_dims: Option<(u32, u32)>) -> (r: (u32, u32))
    ensures
        r == match first_image_dims {
            Some(d) => d,
            None => (2u32, 2u32),
        },
{
    match first_image_dims {
        Some(d) => d,
        None => (2, 2),
    }
}

/// The image has a non-zero size.
pub open spec fn has_area(img: RgbaTexture) -> bool {
    texture_dims(img).0 > 0 && texture_dims(img).1 > 0
}

/// Finds the first valid, non-placeholder image to determine the reference
/// dimensions: `images[0]` is the generated missing texture, so the search
/// starts after it, at the pack's first texture.
pub fn determine_texture_dimensions(images: &Vec<RgbaTexture>) -> (r: Result<(u32, u32), TextureLoadError>)
    ensures
        r matches Ok(d) ==> exists|k: int|
            is_reference_image(images@, k) && texture_dims(#[trigger] images@[k]) == d,
        r matches Err(e) ==> e == TextureLoadError::NoTexturesFound,
        r is Err <==> forall|i: int| 1 <= i < images@.len() ==> !has_area(#[trigger] images@[i]),
{
    let mut i: usize = 1;
    while i < images.len()
        invariant
            1 <= i,
            i <= images.len() || images.len() == 0,
            forall|j: int| 1 <= j < i ==> !has_area(#[trigger] images@[j]),
        decreases images.len() - i,
    {
        let (w, h) = texture_dimensions(&images[i]);
        if w > 0 && h > 0 {
            assert(has_area(images@[i as int]));
            assert(is_reference_image(images@, i as int));
            return Ok((w, h));
        }
        i = i + 1;
    }
    Err(TextureLoadError::NoTexturesFound)
}

/// `e` reports that the image at position `i` has other dimensions than
/// `width` x `height`, naming the image by its position.
pub open spec fn mismatch_reported(e: TextureLoadError, i: int, img: RgbaTexture, width: u32, height: u32) -> bool {
    match e {
        TextureLoadError::DimensionMismatch(name, w, h, exp_w, exp_h) => {
            &&& name@ == decimal(i as nat)
            &&& (w, h) == texture_dims(img)
            &&& exp_w == width
            &&& exp_h == height
        },
        _ => false,
    }
}

/// Validates that all images match the reference dimensions; the first one
/// that does not is reported by its position.
pub fn validate_image_dimensions(images: &Vec<RgbaTexture>, width: u32, height: u32) -> (r: Result<
    (),
    TextureLoadError,
>)
    ensures
        r is Ok <==> all_layers_sized(images@, width, height),
        r matches Err(e) ==> exists|i: int|
            0 <= i < images@.len() && texture_dims(#[trigger] images@[i]) != (width, height)
                && (forall|j: int| 0 <= j < i ==> texture_dims(#[trigger] images@[j]) == (width, height))
                && mismatch_reported(e, i, images@[i], width, height),
{
    let mut i: usize = 0;
    while i < images.len()
        invariant
            0 <= i <= images.len(),
            forall|j: int| 0 <= j < i ==> texture_dims(#[trigger] images@[j]) == (width, height),
        decreases images.len() - i,
    {
        let (w, h) = texture_dimensions(&images[i]);
        if w != width || h != height {
            let name = decimal_string(i as u64);
            let e = TextureLoadError::DimensionMismatch(name, w, h, width, height);
            assert(texture_dims(images@[i as int]) != (width, height));
            return Err(e);
        }
        i = i + 1;
    }
    Ok(())
}

/// Image `k` is the reference image: the first one with a non-zero size
/// after the missing-texture placeholder at position 0.
pub open spec fn is_reference_image(images: Seq<RgbaTexture>, k: int) -> bool {
    &&& 1 <= k < images.len()
    &&& has_area(images[k])
    &&& forall|j: int| 1 <= j < k ==> !has_area(#[trigger] images[j])
}

/// Image `i` is the first one whose size differs from `width` x `height`.
pub open spec fn is_first_mismatch(images: Seq<RgbaTexture>, i: int, width: u32, height: u32) -> bool {
    &&& 0 <= i < images.len()
    &&& texture_dims(images[i]) != (width, height)
    &&& forall|j: int| 0 <= j < i ==> texture_dims(#[trigger] images[j]) == (width, height)
}

/// Stitches the pack's images (the missing texture first) into a 2D texture
/// array and builds the registry for the textures named (in order)
/// `texture_names`: the array takes the size of the first texture after the
/// placeholder with a non-zero size, and every image, the placeholder
/// included, must have that size.
pub fn load_voxel_texture_assets(images: &Vec<RgbaTexture>, texture_names: &Vec<String>) -> (r: Result<
    (StitchedTextureArray, TextureRegistryResource),
    TextureLoadError,
>)
    ensures
        r is Ok <==> exists|k: int|
            is_reference_image(images@, k) && all_layers_sized(
                images@,
                texture_dims(#[trigger] images@[k]).0,
                texture_dims(images@[k]).1,
            ),
        r matches Err(e) ==> {
            ||| (forall|i: int| 1 <= i < images@.len() ==> !has_area(#[trigger] images@[i]))
                && e == TextureLoadError::NoTexturesFound
            ||| exists|k: int, i: int|
                is_reference_image(images@, k) && is_first_mismatch(
                    images@,
                    i,
                    texture_dims(#[trigger] images@[k]).0,
                    texture_dims(images@[k]).1,
                ) && mismatch_reported(
                    e,
                    i,
                    #[trigger] images@[i],
                    texture_dims(images@[k]).0,
                    texture_dims(images@[k]).1,
                )
        },
        r matches Ok((array, registry)) ==> {
            &&& exists|k: int|
                is_reference_image(images@, k) && texture_dims(#[trigger] images@[k]) == (
                    array.width,
                    array.height,
                )
            &&& all_layers_sized(images@, array.width, array.height)
            &&& array.layer_count == layer_count_of(images@.len())
            &&& array.data@ == concat_texture_bytes(images@)
            &&& voxel_array_settings(array)
            &&& registry@ == texture_ids(string_views(texture_names@))
            &&& registry.missing_id() == texture_ids(string_views(texture_names@))[missing_texture_name()]
        },
{
    let (width, height) = match determine_texture_dimensions(images) {
        Ok(d) => d,
        Err(e) => {
            return Err(e);
        },
    };
    let ghost k = choose|k: int|
        is_reference_image(images@, k) && texture_dims(#[trigger] images@[k]) == (width, height);
    assert(is_reference_image(images@, k));
    proof {
        assert forall|k2: int| is_reference_image(images@, k2) implies k2 == k by {
            if k2 < k {
                assert(!has_area(images@[k2]));
            }
            if k < k2 {
                assert(!has_area(images@[k]));
            }
        }
    }
    match validate_image_dimensions(images, width, height) {
        Ok(()) => {},
        Err(e) => {
            proof {
                let i = choose|i: int|
                    0 <= i < images@.len() && texture_dims(#[trigger] images@[i]) != (width, height)
                        && (forall|j: int|
                        0 <= j < i ==> texture_dims(#[trigger] images@[j]) == (width, height))
                        && mismatch_reported(e, i, images@[i], width, height);
                assert(is_first_mismatch(images@, i, width, height));
                assert(mismatch_reported(e, i, images@[i], width, height));
            }
            return Err(e);
        },
    }

    // combine all pixel data into a single flat byte vector for the array
    let texture_array = stitch_layers(images, width, height);

    let texture_map = texture_id_map(texture_names);
    proof {
        lemma_texture_ids_has_missing(string_views(texture_names@));
    }
    let registry = match TextureRegistryResource::new(texture_map) {
        Ok(reg) => reg,
        Err(e) => {
            return Err(e);
        },
    };
    Ok((texture_array, registry))
}

/// Where layer `k` starts in the stitched bytes of `layers`.
pub open spec fn layer_offset(layers: Seq<RgbaTexture>, k: int) -> int {
    concat_texture_bytes(layers.take(k)).len() as int
}

/// The bytes of layer `k` in the stitched bytes of `layers`.
pub open spec fn layer_bytes(layers: Seq<RgbaTexture>, k: int) -> Seq<u8> {
    concat_texture_bytes(layers).subrange(
        layer_offset(layers, k),
        layer_offset(layers, k) + texture_bytes(layers[k]).len(),
    )
}

/// Layer `k` of the stitched bytes is the `k`-th image, unchanged.
pub proof fn lemma_layer_is_image(layers: Seq<RgbaTexture>, k: int)
    requires
        0 <= k < layers.len(),
    ensures
        layer_offset(layers, k) + texture_bytes(layers[k]).len() <= concat_texture_bytes(layers).len(),
        layer_bytes(layers, k) == texture_bytes(layers[k]),
    decreases layers.len(),
{
    let init = layers.drop_last();
    assert(concat_texture_bytes(layers) == concat_texture_bytes(init) + texture_bytes(layers.last()));
    if k == layers.len() - 1 {
        assert(layers.take(k) =~= init);
        assert(concat_texture_bytes(layers).subrange(
            layer_offset(layers, k),
            layer_offset(layers, k) + texture_bytes(layers[k]).len(),
        ) =~= texture_bytes(layers[k]));
    } else {
        lemma_layer_is_image(init, k);
        assert(init.take(k) =~= layers.take(k));
        assert(init[k] == layers[k]);
        let off = layer_offset(layers, k);
        let end = off + texture_bytes(layers[k]).len();
        assert(concat_texture_bytes(layers).subrange(off, end) =~= concat_texture_bytes(init).subrange(off, end));
    }
}

/// The registry and the texture array agree: with distinct texture names
/// (none of them "missing", fewer than `u32::MAX`) and the images stitched
/// in their order after the missing texture, the ID that the registry gives a
/// texture is the array layer that holds its image, and the missing texture's
/// ID 0 is the layer of the missing texture.
pub proof fn lemma_registry_ids_index_layers(images: Seq<RgbaTexture>, names: Seq<Seq<char>>)
    requires
        names.no_duplicates(),
        !names.contains(missing_texture_name()),
        names.len() < 0xFFFF_FFFF,
        images.len() == names.len() + 1,
    ensures
        forall|i: int| 0 <= i < names.len() ==> {
            &&& #[trigger] texture_ids(names).contains_key(names[i])
            &&& texture_ids(names)[names[i]] == i + 1
            &&& layer_bytes(images, texture_ids(names)[names[i]] as int) == texture_bytes(images[i + 1])
        },
        texture_ids(names)[missing_texture_name()] == 0,
        layer_bytes(images, 0) == texture_bytes(images[0]),
{
    lemma_texture_ids_by_position(names);
    assert forall|i: int| 0 <= i < names.len() implies {
        &&& #[trigger] texture_ids(names).contains_key(names[i])
        &&& texture_ids(names)[names[i]] == i + 1
        &&& layer_bytes(images, texture_ids(names)[names[i]] as int) == texture_bytes(images[i + 1])
    } by {
        lemma_layer_is_image(images, i + 1);
    }
    lemma_layer_is_image(images, 0);
}

} // verus!

//! Builds the voxel texture array of a texture pack: the registry of texture
//! names and the stitched layers.
//!
//! The caller lists the pack's image files (sorted by path) and decodes them;
//! this module decides where to look, which ID each texture gets, how the
//! layers are checked and how they are stitched.

use crate::rgba_image::{
    generate_missing_texture_image, missing_texture_bytes, new_rgba_texture, texture_bytes,
    texture_dimensions, texture_dims, texture_raw_bytes, RgbaTexture,
};
use crate::text::{join_path, joined_path};
use crate::texture_array::{
    all_layers_sized, concat_texture_bytes, layer_count_of, stitch_layers, voxel_array_settings,
    StitchedTextureArray,
};
use crate::texture_error::TextureLoadError;
use crate::texture_registry::{
    missing_texture_name, string_views, texture_id_map, texture_ids, TextureRegistryResource,
};
use vstd::prelude::*;
use vstd::string::*;

verus! {

/// A utility for loading voxel texture folders and generating resources from them.
pub struct VoxelTextureProcessor {
    base_path: String,
    texture_pack: String,
}

impl VoxelTextureProcessor {
    /// The folder that holds the texture packs.
    pub closed spec fn base_path(&self) -> Seq<char> {
        self.base_path@
    }

    /// The name of the texture pack.
    pub closed spec fn texture_pack(&self) -> Seq<char> {
        self.texture_pack@
    }

    /// A processor for the pack `texture_pack` under `assets_dir/client/texture`.
    pub fn new(assets_dir: String, texture_pack: &str) -> (r: Self)
        ensures
            r.base_path() == joined_path(assets_dir@, "client/texture"@),
            r.texture_pack() == texture_pack@,
    {
        VoxelTextureProcessor {
            base_path: join_path(assets_dir.as_str(), "client/texture"),
            texture_pack: String::from_str(texture_pack),
        }
    }

    /// The glob pattern that matches the pack's textures: every `.png` file in
    /// the pack's folder.
    pub fn texture_glob_pattern(&self) -> (r: String)
        ensures
            r@ == joined_path(joined_path(self.base_path(), self.texture_pack()), "*.png"@),
    {
        let pack_path = join_path(self.base_path.as_str(), self.texture_pack.as_str());
        join_path(pack_path.as_str(), "*.png")
    }

    /// Builds the registry of names and IDs for the pack's textures, given their
    /// names in the order of their sorted paths: "missing" is 0 and the
    /// texture at position `i` is `i + 1`.
    pub fn create_registry(&self, texture_names: &Vec<String>) -> (r: Result<
        TextureRegistryResource,
        TextureLoadError,
    >)
        ensures
            r matches Ok(reg) && reg@ == texture_ids(string_views(texture_names@))
                && reg.missing_id() == texture_ids(string_views(texture_names@))[missing_texture_name()],
    {
        let texture_map = texture_id_map(texture_names);
        proof {
            lemma_texture_ids_has_missing(string_views(texture_names@));
        }
        TextureRegistryResource::new(texture_map)
    }

    /// Starts stitching the pack's texture array from its first texture (or,
    /// for an empty pack, from a transparent 2x2 image): the array takes the
    /// first texture's size, and its layers are the missing texture of that
    /// size followed by the first texture.
    pub fn begin_stitch(&self, first: Option<RgbaTexture>) -> (r: TextureArrayStitcher)
        ensures
            r.layers().len() == 2,
            texture_dims(r.layers()[0]) == (r.width(), r.height()),
            texture_bytes(r.layers()[0]) == missing_texture_bytes(r.width(), r.height()),
            first matches Some(img) ==> r.layers()[1] == img && (r.width(), r.height()) == texture_dims(img),
            first is None ==> {
                &&& (r.width(), r.height()) == (2u32, 2u32)
                &&& texture_bytes(r.layers()[1]) == Seq::new(16, |i: int| 0u8)
            },
            all_layers_sized(r.layers(), r.width(), r.height()),
    {
        let first_pixels = match first {
            Some(img) => img,
            None => new_rgba_texture(2, 2),
        };
        let (width, height) = texture_dimensions(&first_pixels);
        // the image's bytes are in memory, so the missing texture of its size fits too
        let _bytes_in_memory = texture_raw_bytes(&first_pixels).len();
        let mut layers: Vec<RgbaTexture> = Vec::new();
        layers.push(generate_missing_texture_image(width, height));
        layers.push(first_pixels);
        TextureArrayStitcher { width, height, layers }
    }
}

/// `names` always registers the missing texture.
pub proof fn lemma_texture_ids_has_missing(names: Seq<Seq<char>>)
    ensures
        texture_ids(names).contains_key(missing_texture_name()),
    decreases names.len(),
{
    if names.len() > 0 {
        lemma_texture_ids_has_missing(names.drop_last());
    }
}

/// The layers of a texture array being assembled; they all have the size of
/// the first texture.
pub struct TextureArrayStitcher {
    width: u32,
    height: u32,
    layers: Vec<RgbaTexture>,
}

impl TextureArrayStitcher {
    /// The width of every layer.
    pub closed spec fn width(&self) -> u32 {
        self.width
    }

    /// The height of every layer.
    pub closed spec fn height(&self) -> u32 {
        self.height
    }

    /// The layers so far.
    pub closed spec fn layers(&self) -> Seq<RgbaTexture> {
        self.layers@
    }

    /// Every layer has the array's size.
    #[verifier::type_invariant]
    closed spec fn layers_sized(&self) -> bool {
        all_layers_sized(self.layers@, self.width, self.height)
    }

    /// Adds the next texture, read from `path`; it must have the array's size.
    pub fn add_layer(&mut self, image: RgbaTexture, path: String) -> (r: Result<(), TextureLoadError>)
        ensures
            final(self).width() == old(self).width(),
            final(self).height() == old(self).height(),
            all_layers_sized(final(self).layers(), final(self).width(), final(self).height()),
            texture_dims(image) == (old(self).width(), old(self).height()) ==> {
                &&& r is Ok
                &&& final(self).layers() == old(self).layers().push(image)
            },
            texture_dims(image) != (old(self).width(), old(self).height()) ==> {
                &&& r == Err::<(), TextureLoadError>(
                    TextureLoadError::DimensionMismatch(
                        path,
                        texture_dims(image).0,
                        texture_dims(image).1,
                        old(self).width(),
                        old(self).height(),
                    ),
                )
                &&& final(self).layers() == old(self).layers()
            },
    {
        proof {
            use_type_invariant(&*self);
        }
        let (w, h) = texture_dimensions(&image);
        if w != self.width || h != self.height {
            return Err(TextureLoadError::DimensionMismatch(path, w, h, self.width, self.height));
        }
        let mut layers: Vec<RgbaTexture> = Vec::new();
        std::mem::swap(&mut layers, &mut self.layers);
        layers.push(image);
        self.layers = layers;
        Ok(())
    }

    /// Stitches the layers into one texture array.
    pub fn finish(self) -> (r: StitchedTextureArray)
        ensures
            r.width == self.width(),
            r.height == self.height(),
            r.layer_count == layer_count_of(self.layers().len()),
            r.data@ == concat_texture_bytes(self.layers()),
            voxel_array_settings(r),
    {
        stitch_layers(&self.layers, self.width, self.height)
    }
}

} // verus!

use image::{Rgba, RgbaImage};
use vantablock_client::rgba_image::{generate_missing_texture_image, RgbaTexture};
use vantablock_client::text::{decimal_string, join_path};
use vantablock_client::texture_array::{
    stitch_layers, AssetUsage, TextureDimension, TextureFormat, TextureViewDimension,
};
use vantablock_client::texture_error::TextureLoadError;
use vantablock_client::texture_loader::{
    determine_texture_dimensions, load_voxel_texture_assets, missing_texture_dimensions,
    validate_image_dimensions,
};
use vantablock_client::texture_registry::{texture_id_map, TextureRegistryResource};
use vantablock_client::voxel_texture_processor::VoxelTextureProcessor;

const MAGENTA: [u8; 4] = [255, 0, 255, 200];
const BLACK: [u8; 4] = [0, 0, 0, 200];

fn blank(w: u32, h: u32) -> RgbaTexture {
    RgbaTexture { image: RgbaImage::new(w, h) }
}

fn filled(w: u32, h: u32, color: [u8; 4]) -> RgbaTexture {
    let mut image = RgbaImage::new(w, h);
    for p in image.pixels_mut() {
        *p = Rgba(color);
    }
    RgbaTexture { image }
}

fn names(list: &[&str]) -> Vec<String> {
    list.iter().map(|s| s.to_string()).collect()
}

#[test]
fn missing_texture_is_a_two_by_two_checkerboard() {
    let img = generate_missing_texture_image(4, 4);
    assert_eq!(img.image.dimensions(), (4, 4));
    assert_eq!(img.image.get_pixel(0, 0).0, MAGENTA);
    assert_eq!(img.image.get_pixel(1, 1).0, MAGENTA);
    assert_eq!(img.image.get_pixel(2, 0).0, BLACK);
    assert_eq!(img.image.get_pixel(0, 3).0, BLACK);
    assert_eq!(img.image.get_pixel(3, 3).0, MAGENTA);
}

#[test]
fn missing_texture_of_width_one_uses_single_pixel_squares() {
    let img = generate_missing_texture_image(1, 3);
    assert_eq!(img.image.get_pixel(0, 0).0, MAGENTA);
    assert_eq!(img.image.get_pixel(0, 1).0, BLACK);
    assert_eq!(img.image.get_pixel(0, 2).0, MAGENTA);
}

#[test]
fn missing_texture_of_zero_size_is_empty() {
    let img = generate_missing_texture_image(0, 0);
    assert_eq!(img.image.dimensions(), (0, 0));
    assert!(img.image.as_raw().is_empty());
}

#[test]
fn decimal_strings() {
    assert_eq!(decimal_string(0), "0");
    assert_eq!(decimal_string(7), "7");
    assert_eq!(decimal_string(1234), "1234");
    assert_eq!(decimal_string(u64::MAX), u64::MAX.to_string());
}

#[test]
fn paths_join_like_std() {
    assert_eq!(join_path("assets", "client/texture"), "assets/client/texture");
    assert_eq!(join_path("assets/", "x"), "assets/x");
    assert_eq!(join_path("", "x"), "x");
    assert_eq!(join_path("a", "/abs"), "/abs");
    assert_eq!(join_path("a", ""), "a/");
}

#[test]
fn processor_looks_in_the_pack_folder() {
    let p = VoxelTextureProcessor::new("/data".to_string(), "rhinestone");
    assert_eq!(p.texture_glob_pattern(), "/data/client/texture/rhinestone/*.png");
}

#[test]
fn registry_numbers_textures_after_missing() {
    let p = VoxelTextureProcessor::new("assets".to_string(), "pack");
    let reg = p.create_registry(&names(&["dirt", "grass", "stone"])).unwrap();
    assert_eq!(reg.get_id("missing"), 0);
    assert_eq!(reg.get_id("dirt"), 1);
    assert_eq!(reg.get_id("grass"), 2);
    assert_eq!(reg.get_id("stone"), 3);
    assert_eq!(reg.get_id("lava"), 0);
    assert_eq!(reg.missing_texture(), 0);
    assert!(reg.contains("grass"));
    assert!(!reg.contains("lava"));
    assert_eq!(reg.len(), 4);
    assert!(!reg.is_empty());
}

#[test]
fn registry_of_an_empty_pack_has_only_missing() {
    let reg = TextureRegistryResource::new(texture_id_map(&Vec::new())).unwrap();
    assert_eq!(reg.len(), 1);
    assert_eq!(reg.get_id("anything"), 0);
}

#[test]
fn a_pack_texture_named_missing_replaces_the_fallback() {
    let reg = TextureRegistryResource::new(texture_id_map(&names(&["a", "missing"]))).unwrap();
    assert_eq!(reg.missing_texture(), 2);
    assert_eq!(reg.get_id("unknown"), 2);
}

#[test]
fn stitching_an_empty_pack_gives_two_layers() {
    let p = VoxelTextureProcessor::new("assets".to_string(), "pack");
    let array = p.begin_stitch(None).finish();
    assert_eq!((array.width, array.height, array.layer_count), (2, 2, 2));
    assert_eq!(array.data.len(), 32);
    assert_eq!(&array.data[0..4], &MAGENTA);
    assert_eq!(&array.data[4..8], &BLACK);
    assert_eq!(&array.data[8..12], &BLACK);
    assert_eq!(&array.data[12..16], &MAGENTA);
    assert!(array.data[16..32].iter().all(|b| *b == 0));
}

#[test]
fn stitching_takes_the_first_texture_size() {
    let p = VoxelTextureProcessor::new("assets".to_string(), "pack");
    let mut s = p.begin_stitch(Some(filled(3, 1, [1, 2, 3, 4])));
    assert!(s.add_layer(filled(3, 1, [9, 9, 9, 9]), "b.png".to_string()).is_ok());
    let array = s.finish();
    assert_eq!((array.width, array.height, array.layer_count), (3, 1, 3));
    assert_eq!(array.data.len(), 36);
    assert_eq!(&array.data[12..16], &[1, 2, 3, 4]);
    assert_eq!(&array.data[24..28], &[9, 9, 9, 9]);
}

#[test]
fn stitching_refuses_a_texture_of_another_size() {
    let p = VoxelTextureProcessor::new("assets".to_string(), "pack");
    let mut s = p.begin_stitch(Some(blank(2, 2)));
    let e = s.add_layer(blank(3, 3), "pack/b.png".to_string()).unwrap_err();
    assert_eq!(e.message(), "Texture 'pack/b.png' has dimensions 3x3, but expected 2x2.");
    match e {
        TextureLoadError::DimensionMismatch(name, w, h, ew, eh) => {
            assert_eq!((name.as_str(), w, h, ew, eh), ("pack/b.png", 3, 3, 2, 2));
        }
        _ => panic!("expected a dimension mismatch"),
    }
    assert_eq!(s.finish().layer_count, 2);
}

#[test]
fn error_messages() {
    assert_eq!(
        TextureLoadError::NoTexturesFound.message(),
        "No valid textures found to determine dimensions."
    );
    let e = TextureLoadError::from("bad map".to_string());
    assert_eq!(e.message(), "Texture registry error: bad map");
    assert!(matches!(e, TextureLoadError::RegistryError(_)));
}

#[test]
fn missing_texture_size_follows_the_first_image() {
    assert_eq!(missing_texture_dimensions(Some((16, 8))), (16, 8));
    assert_eq!(missing_texture_dimensions(None), (2, 2));
}

#[test]
fn reference_size_is_the_first_image_with_area() {
    let images = vec![blank(0, 0), blank(0, 4), blank(4, 4), blank(8, 8)];
    assert_eq!(determine_texture_dimensions(&images).unwrap(), (4, 4));
    let none = vec![blank(0, 0), blank(3, 0)];
    // the placeholder at position 0 never sets the size
    let placeholder_only = vec![generate_missing_texture_image(2, 2)];
    assert!(matches!(
        determine_texture_dimensions(&placeholder_only),
        Err(TextureLoadError::NoTexturesFound)
    ));
    let skipped = vec![generate_missing_texture_image(2, 2), blank(0, 0), blank(5, 5)];
    assert_eq!(determine_texture_dimensions(&skipped).unwrap(), (5, 5));
    assert!(matches!(determine_texture_dimensions(&none), Err(TextureLoadError::NoTexturesFound)));
}

#[test]
fn validation_reports_the_first_mismatch_by_position() {
    let images = vec![blank(4, 4), blank(4, 4), blank(2, 4), blank(1, 1)];
    assert!(validate_image_dimensions(&vec![blank(4, 4), blank(4, 4)], 4, 4).is_ok());
    let e = validate_image_dimensions(&images, 4, 4).unwrap_err();
    assert_eq!(e.message(), "Texture '2' has dimensions 2x4, but expected 4x4.");
}

#[test]
fn loading_stitches_and_registers() {
    let images = vec![generate_missing_texture_image(2, 2), filled(2, 2, [5, 6, 7, 8])];
    let (array, registry) = load_voxel_texture_assets(&images, &names(&["a"])).unwrap();
    assert_eq!((array.width, array.height, array.layer_count), (2, 2, 2));
    assert_eq!(&array.data[16..20], &[5, 6, 7, 8]);
    assert_eq!(registry.get_id("a"), 1);
    assert_eq!(registry.missing_texture(), 0);
}

#[test]
fn loading_without_any_image_fails() {
    let r = load_voxel_texture_assets(&Vec::new(), &Vec::new());
    assert!(matches!(r, Err(TextureLoadError::NoTexturesFound)));
}

#[test]
fn loading_refuses_mixed_sizes() {
    let images = vec![blank(0, 0), blank(2, 2), blank(3, 3)];
    let e = load_voxel_texture_assets(&images, &names(&["a", "b"])).err().unwrap();
    assert_eq!(e.message(), "Texture '0' has dimensions 0x0, but expected 2x2.");
}

#[test]
fn stitched_bytes_are_the_layers_in_order() {
    let layers = vec![filled(1, 1, [1, 1, 1, 1]), filled(1, 1, [2, 2, 2, 2])];
    let array = stitch_layers(&layers, 1, 1);
    assert_eq!(array.data, vec![1, 1, 1, 1, 2, 2, 2, 2]);
    assert_eq!(array.layer_count, 2);
}

#[test]
fn registry_ids_are_the_layers_of_their_images() {
    let images = vec![
        generate_missing_texture_image(1, 1),
        filled(1, 1, [10, 0, 0, 255]),
        filled(1, 1, [20, 0, 0, 255]),
        filled(1, 1, [30, 0, 0, 255]),
    ];
    let (array, registry) =
        load_voxel_texture_assets(&images, &names(&["dirt", "grass", "stone"])).unwrap();
    for (name, red) in [("dirt", 10u8), ("grass", 20), ("stone", 30)] {
        let layer = registry.get_id(name) as usize;
        assert_eq!(array.data[4 * layer], red);
    }
    let missing = registry.missing_texture() as usize;
    assert_eq!(&array.data[4 * missing..4 * missing + 4], &MAGENTA);
}

#[test]
fn a_pack_without_textures_has_no_dimensions() {
    let images = vec![generate_missing_texture_image(2, 2)];
    let r = load_voxel_texture_assets(&images, &Vec::new());
    assert!(matches!(r, Err(TextureLoadError::NoTexturesFound)));
}

#[test]
fn stitched_array_is_a_render_world_2d_array() {
    let array = stitch_layers(&vec![blank(1, 1)], 1, 1);
    assert_eq!(array.format, TextureFormat::Rgba8UnormSrgb);
    assert_eq!(array.dimension, TextureDimension::D2);
    assert_eq!(array.view_dimension, TextureViewDimension::D2Array);
    assert_eq!(array.view_label, "Voxel Texture Array View");
    assert_eq!(array.usage, AssetUsage::RenderWorld);
}

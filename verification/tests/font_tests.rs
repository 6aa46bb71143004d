use nukly::allocator::create;
use nukly::font::{
    Atlas, AtlasBakeError, AtlasFormat, BakeResponse, Config, ConfigError, Font,
};
use nukly::NuklearType;

fn response(width: i32, height: i32, format: AtlasFormat) -> BakeResponse {
    let len = format.stride() * width as usize * height as usize;
    BakeResponse { width, height, pixels: Some(vec![0xAB; len]) }
}

#[test]
fn attempt_bake() {
    let allocator = create();

    let atlas = Atlas::new(&allocator);
    let _image = atlas
        .bake(AtlasFormat::Rgba32, response(2, 2, AtlasFormat::Rgba32))
        .unwrap()
        .build(1);
}

#[test]
fn bake_and_build_scenario() {
    let allocator = create();
    let atlas = Atlas::new(&allocator).with_default();
    let image = atlas
        .bake(AtlasFormat::Rgba32, response(512, 128, AtlasFormat::Rgba32))
        .unwrap()
        .build(1);
    let (w, h) = image.dimensions();
    assert!(w != 0 && h != 0);
    assert_eq!((w, h), (512, 128));
    assert_eq!(image.as_slice().len(), w * h * 4);
    assert_eq!(image.format(), AtlasFormat::Rgba32);
    assert_eq!(image.null.texture, 1);
    assert_eq!(image.id, 1);
}

#[test]
fn bake_is_deterministic_across_atlases() {
    let allocator = create();
    let a1 = Atlas::new(&allocator).with_default();
    let a2 = Atlas::new(&allocator).with_default();
    let i1 = a1
        .bake(AtlasFormat::Alpha8, response(16, 8, AtlasFormat::Alpha8))
        .unwrap()
        .build(7);
    let i2 = a2
        .bake(AtlasFormat::Alpha8, response(16, 8, AtlasFormat::Alpha8))
        .unwrap()
        .build(7);
    assert_eq!(i1.dimensions(), i2.dimensions());
    assert_eq!(i1.as_slice(), i2.as_slice());
}

#[test]
fn bake_null_buffer_is_unknown() {
    let allocator = create();
    let atlas = Atlas::new(&allocator);
    let r = atlas.bake(
        AtlasFormat::Rgba32,
        BakeResponse { width: 4, height: 4, pixels: None },
    );
    assert!(matches!(r, Err(AtlasBakeError::Unknown)));
}

#[test]
fn bake_negative_dimensions_are_invalid() {
    let allocator = create();
    let atlas = Atlas::new(&allocator);
    let r = atlas.bake(
        AtlasFormat::Rgba32,
        BakeResponse { width: -3, height: 4, pixels: Some(vec![0; 16]) },
    );
    assert!(matches!(r, Err(AtlasBakeError::InvalidDimensions(-3, 4))));
}

#[test]
fn bake_mismatched_buffer_is_unknown() {
    let allocator = create();
    let atlas = Atlas::new(&allocator);
    let r = atlas.bake(
        AtlasFormat::Rgba32,
        BakeResponse { width: 2, height: 2, pixels: Some(vec![0; 15]) },
    );
    assert!(matches!(r, Err(AtlasBakeError::Unknown)));
}

#[test]
fn atlas_registers_default_font_eagerly() {
    let allocator = create();
    let atlas = Atlas::new(&allocator);
    assert_eq!(atlas.fonts().len(), 1);
    assert_eq!(atlas.default_font, Some(0));
    let atlas = atlas.with_default();
    assert_eq!(atlas.fonts().len(), 2);
    assert_eq!(atlas.default_font, Some(1));
    assert_eq!(atlas.fonts()[1].handle(), 1);
}

#[test]
fn atlas_format_strides() {
    assert_eq!(AtlasFormat::Rgba32.stride(), 4);
    assert_eq!(AtlasFormat::Alpha8.stride(), 1);
}

#[test]
fn config_builders() {
    let c = Config::default();
    assert_eq!(c.oversample_v, 0);
    assert_eq!(c.oversample_h, 0);
    assert!(!c.pixel_snap);
    assert!(!c.merge_mode);
    let c = c.with_oversample(2, 3).with_pixel_snap().with_merge_mode();
    assert_eq!(c.oversample_v, 2);
    assert_eq!(c.oversample_h, 3);
    assert!(c.pixel_snap);
    assert!(c.merge_mode);
}

#[test]
fn glyph_ranges_are_an_unsupported_gap() {
    let c = Config::default();
    let r = c.with_glyph_range(&vec![(0x20, 0x7E)]);
    assert_eq!(r, Err(ConfigError::GlyphRangesUnsupported));
}

#[test]
fn font_handles() {
    let f = Font::new(42);
    assert_eq!(f.handle(), 42);
    assert_eq!(f.native_handle(), 42);
}

#[test]
fn bake_error_messages() {
    assert_eq!(
        AtlasBakeError::Unknown.message(),
        "an unknown error occurred baking the font atlas image"
    );
    assert_eq!(
        AtlasBakeError::InvalidDimensions(0, 0).message(),
        "the engine returned invalid image dimensions for the atlas"
    );
}

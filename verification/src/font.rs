//! The font-atlas bake pipeline.
//!
//! An atlas collects font registrations while it is building, the engine's
//! rasterizer turns them into one pixel buffer (its response enters
//! [`Atlas::bake`] as a plain [`BakeResponse`] value), and [`ImageBuilder::build`]
//! finalizes the atlas once the host has uploaded the pixels and obtained a
//! texture id.  The stages are separate types, so the order
//! building → baked → finalized is enforced by construction.

use crate::allocator::Allocator;
use vstd::prelude::*;

verus! {

/// Errors reported while baking the atlas image.
#[derive(Debug, Clone, Copy, PartialEq, Eq, Structural)]
pub enum AtlasBakeError {
    /// The engine reported failure: a null pixel buffer, or a buffer that
    /// does not match the reported dimensions.
    Unknown,
    /// The engine returned dimensions not representable in the host's size
    /// type; the payload is the dimensions as reported.
    InvalidDimensions(i32, i32),
}

impl AtlasBakeError {
    /// A human-readable description of the error.
    pub fn message(&self) -> (r: &'static str)
        ensures
            r@ == match self {
                AtlasBakeError::Unknown => "an unknown error occurred baking the font atlas image"@,
                AtlasBakeError::InvalidDimensions(_, _) =>
                    "the engine returned invalid image dimensions for the atlas"@,
            },
    {
        match self {
            AtlasBakeError::Unknown => "an unknown error occurred baking the font atlas image",
            AtlasBakeError::InvalidDimensions(_, _) =>
                "the engine returned invalid image dimensions for the atlas",
        }
    }
}

/// Errors reported while building a font configuration.
#[derive(Debug, Clone, Copy, PartialEq, Eq, Structural)]
pub enum ConfigError {
    /// Restricting baking to a set of codepoint ranges is a known,
    /// explicitly unsupported gap.
    GlyphRangesUnsupported,
}

/// A font configuration to be registered with an atlas.
#[derive(Debug, Clone, Copy, PartialEq, Eq, Structural)]
pub struct Config {
    /// Vertical oversampling factor used by the rasterizer.
    pub oversample_v: u8,
    /// Horizontal oversampling factor used by the rasterizer.
    pub oversample_h: u8,
    /// Whether glyphs are snapped to whole pixels.
    pub pixel_snap: bool,
    /// Whether the font is merged into the previously registered one.
    pub merge_mode: bool,
}

impl Default for Config {
    fn default() -> (r: Self)
        ensures
            r == (Config { oversample_v: 0, oversample_h: 0, pixel_snap: false, merge_mode: false }),
    {
        Config { oversample_v: 0, oversample_h: 0, pixel_snap: false, merge_mode: false }
    }
}

impl Config {
    /// Restricting the bake to given Unicode codepoint ranges is not
    /// supported; the call reports the gap and discards nothing else.
    pub fn with_glyph_range(self, ranges: &Vec<(u32, u32)>) -> (r: Result<Self, ConfigError>)
        ensures
            r == Err::<Config, ConfigError>(ConfigError::GlyphRangesUnsupported),
    {
        Err(ConfigError::GlyphRangesUnsupported)
    }

    /// Sets the oversampling factors used by the rasterizer.
    pub fn with_oversample(self, vertical: u8, horizontal: u8) -> (r: Self)
        ensures
            r == (Config { oversample_v: vertical, oversample_h: horizontal, ..self }),
    {
        Config { oversample_v: vertical, oversample_h: horizontal, ..self }
    }

    /// Requests pixel snapping for the font's glyphs.
    pub fn with_pixel_snap(self) -> (r: Self)
        ensures
            r == (Config { pixel_snap: true, ..self }),
    {
        Config { pixel_snap: true, ..self }
    }

    /// Merges this font into the previously registered one.
    pub fn with_merge_mode(self) -> (r: Self)
        ensures
            r == (Config { merge_mode: true, ..self }),
    {
        Config { merge_mode: true, ..self }
    }
}

/// A non-owning reference to a font rasterized into an atlas; it never
/// outlives the atlas that holds the glyph memory.
#[derive(Debug, Clone, Copy, PartialEq, Eq, Structural)]
pub struct Font {
    /// The handle the engine knows the font by.
    pub id: u64,
}

impl Font {
    /// Wraps the engine handle of a rasterized font.
    pub fn new(id: u64) -> (r: Self)
        ensures
            r.id == id,
    {
        Font { id }
    }

    /// The handle the engine expects when a context is created from this
    /// font.
    pub fn handle(&self) -> (r: u64)
        ensures
            r == self.id,
    {
        self.id
    }
}

impl crate::NuklearType for Font {
    fn native_handle(&self) -> u64 {
        self.id
    }
}

/// The pixel formats an atlas can be baked as.
#[derive(Debug, Clone, Copy, PartialEq, Eq, Hash, Structural)]
pub enum AtlasFormat {
    /// Four bytes per pixel: red, green, blue, alpha.
    Rgba32,
    /// One alpha byte per pixel.
    Alpha8,
}

impl AtlasFormat {
    /// Bytes per pixel of the format.
    pub open spec fn spec_stride(self) -> usize {
        match self {
            AtlasFormat::Rgba32 => 4,
            AtlasFormat::Alpha8 => 1,
        }
    }

    /// Bytes per pixel of the format.
    pub fn stride(self) -> (r: usize)
        ensures
            r == self.spec_stride(),
    {
        match self {
            AtlasFormat::Rgba32 => 4,
            AtlasFormat::Alpha8 => 1,
        }
    }
}

/// A font atlas while it is building: fonts may still be registered.
///
/// Creation installs the allocator's callback record as both the atlas's
/// permanent and temporary allocator and eagerly registers one default font,
/// so a context can always be created even with zero explicit configuration.
pub struct Atlas {
    /// The fonts registered so far, in registration order.
    pub fonts: Vec<Font>,
    /// Index into `fonts` of the font used when none is named.
    pub default_font: Option<usize>,
    /// The engine handle the next registered font will receive.
    pub next_font_id: u64,
}

impl Atlas {
    /// Creates an atlas bound to the given allocator bridge, with the
    /// default font already registered.
    pub fn new(allocator: &Allocator) -> (r: Self)
        requires
            allocator.wf(),
        ensures
            r.fonts@.len() == 1,
            r.fonts@[0].id == 0,
            r.default_font == Some(0usize),
            r.next_font_id == 1,
    {
        Atlas { fonts: vec![Font { id: 0 }], default_font: Some(0), next_font_id: 1 }
    }

    /// Registers one more instance of the engine's built-in default font and
    /// makes it the atlas's default.
    pub fn with_default(self) -> (r: Self)
        requires
            self.next_font_id < u64::MAX,
            self.fonts@.len() < usize::MAX,
        ensures
            r.fonts@ == self.fonts@.push(Font { id: self.next_font_id }),
            r.default_font == Some((self.fonts@.len()) as usize),
            r.next_font_id == self.next_font_id + 1,
    {
        let mut fonts = self.fonts;
        let idx = fonts.len();
        fonts.push(Font { id: self.next_font_id });
        Atlas { fonts, default_font: Some(idx), next_font_id: self.next_font_id + 1 }
    }

    /// The fonts registered so far, in registration order.
    pub fn fonts(&self) -> (r: &Vec<Font>)
        ensures
            r@ == self.fonts@,
    {
        &self.fonts
    }

    /// Rasterizes the registered fonts into one pixel buffer.
    ///
    /// The engine's answer — reported dimensions and the pixel buffer, or a
    /// null buffer on failure — enters as `response`.  A null buffer fails
    /// with `Unknown`; dimensions not representable in the host's size type
    /// fail with `InvalidDimensions`; a buffer that does not match the
    /// reported dimensions fails with `Unknown`.
    pub fn bake(self, format: AtlasFormat, response: BakeResponse) -> (r: Result<
        ImageBuilder,
        AtlasBakeError,
    >)
        ensures
            match spec_bake(format, response.width, response.height, spec_pixels(&response)) {
                Ok(dims) => r matches Ok(b) && {
                    &&& b.dimensions == dims
                    &&& b.pixels@ == spec_pixels(&response)->Some_0
                    &&& b.format == format
                    &&& b.atlas == self
                    &&& b.wf()
                },
                Err(e) => r == Err::<ImageBuilder, AtlasBakeError>(e),
            },
    {
        let width = response.width;
        let height = response.height;
        let pixels = match response.pixels {
            Some(p) => p,
            None => {
                return Err(AtlasBakeError::Unknown);
            },
        };
        if width < 0 || height < 0 {
            return Err(AtlasBakeError::InvalidDimensions(width, height));
        }
        let stride = format.stride();
        proof {
            lemma_pixel_count_fits(stride as int, width as int, height as int);
        }
        let expected: u64 = (stride as u64) * (width as u64) * (height as u64);
        if (pixels.len() as u64) != expected {
            return Err(AtlasBakeError::Unknown);
        }
        Ok(ImageBuilder {
            dimensions: (width as usize, height as usize),
            pixels,
            format,
            atlas: self,
        })
    }
}

/// The engine rasterizer's answer to a bake request: the reported dimensions
/// and the produced pixel buffer, or no buffer at all on failure.
pub struct BakeResponse {
    /// Atlas width in pixels, as reported by the engine.
    pub width: i32,
    /// Atlas height in pixels, as reported by the engine.
    pub height: i32,
    /// The baked pixel bytes, or `None` where the engine returned a null
    /// buffer.
    pub pixels: Option<Vec<u8>>,
}

/// The pixel bytes of a bake response, as a mathematical value.
pub open spec fn spec_pixels(response: &BakeResponse) -> Option<Seq<u8>> {
    match response.pixels {
        Some(p) => Some(p@),
        None => None,
    }
}

/// What baking yields for a given format and engine response: the validated
/// dimensions, or the error the response is rejected with.  The result
/// depends on nothing but the arguments, which is the library's half of
/// deterministic rasterization.
pub open spec fn spec_bake(
    format: AtlasFormat,
    width: i32,
    height: i32,
    pixels: Option<Seq<u8>>,
) -> Result<(usize, usize), AtlasBakeError> {
    match pixels {
        None => Err(AtlasBakeError::Unknown),
        Some(p) => if width < 0 || height < 0 {
            Err(AtlasBakeError::InvalidDimensions(width, height))
        } else if p.len() != format.spec_stride() * width * height {
            Err(AtlasBakeError::Unknown)
        } else {
            Ok((width as usize, height as usize))
        },
    }
}

/// Baking is deterministic on the library side: equal formats and equal
/// rasterizer responses yield equal dimensions and accept equal pixel
/// buffers, whichever atlas they pass through.
pub proof fn lemma_bake_deterministic(
    f1: AtlasFormat,
    w1: i32,
    h1: i32,
    p1: Option<Seq<u8>>,
    f2: AtlasFormat,
    w2: i32,
    h2: i32,
    p2: Option<Seq<u8>>,
)
    requires
        f1 == f2,
        w1 == w2,
        h1 == h2,
        p1 == p2,
    ensures
        spec_bake(f1, w1, h1, p1) == spec_bake(f2, w2, h2, p2),
{
}

proof fn lemma_pixel_count_fits(stride: int, width: int, height: int)
    requires
        1 <= stride <= 4,
        0 <= width <= i32::MAX,
        0 <= height <= i32::MAX,
    ensures
        stride * width <= u64::MAX,
        (stride * width) * height <= u64::MAX,
        stride * width * height <= u64::MAX,
{
    assert(stride * width <= u64::MAX) by (nonlinear_arith)
        requires
            1 <= stride <= 4,
            0 <= width <= i32::MAX,
    ;
    assert((stride * width) * height <= u64::MAX) by (nonlinear_arith)
        requires
            1 <= stride <= 4,
            0 <= width <= i32::MAX,
            0 <= height <= i32::MAX,
    ;
}

/// A baked atlas waiting to be finalized: the pixels are produced, but no
/// texture id has been assigned yet.
pub struct ImageBuilder {
    /// Width and height of the baked image in pixels.
    pub dimensions: (usize, usize),
    /// The baked pixel bytes.
    pub pixels: Vec<u8>,
    /// The atlas the pixels were baked from, not yet finalized.
    pub atlas: Atlas,
    /// The pixel format the atlas was baked as.
    pub format: AtlasFormat,
}

impl ImageBuilder {
    /// The pixel buffer covers exactly the baked dimensions.
    pub open spec fn wf(&self) -> bool {
        self.pixels@.len() == self.format.spec_stride() * self.dimensions.0 * self.dimensions.1
    }

    /// Finalizes the atlas with the texture id the host obtained by
    /// uploading the pixels, and establishes the null-texture descriptor the
    /// draw pipeline uses for solid-colour primitives.
    pub fn build(self, id: usize) -> (r: Image)
        requires
            self.wf(),
        ensures
            r.id == id,
            r.dimensions == self.dimensions,
            r.data@ == self.pixels@,
            r.format == self.format,
            r.atlas == self.atlas,
            r.null.texture == id,
            r.wf(),
    {
        Image {
            id,
            dimensions: self.dimensions,
            data: self.pixels,
            atlas: self.atlas,
            format: self.format,
            null: NullTexture { texture: id },
        }
    }
}

/// The descriptor of the 1×1 region the engine draws solid-colour primitives
/// with.
#[derive(Debug, Clone, Copy, PartialEq, Eq, Structural)]
pub struct NullTexture {
    /// The texture the region lives in.
    pub texture: usize,
}

/// The finalized, immutable snapshot of a baked atlas: pixel bytes,
/// dimensions, format, assigned texture id, and the null-texture descriptor.
/// It exclusively owns its atlas, keeping glyph memory alive for as long as
/// rendering may reference fonts from it.
pub struct Image {
    /// The texture id assigned by the host.
    pub id: usize,
    /// Width and height of the image in pixels.
    pub dimensions: (usize, usize),
    /// The pixel bytes.
    pub data: Vec<u8>,
    /// The atlas the image was baked from.
    pub atlas: Atlas,
    /// The pixel format.
    pub format: AtlasFormat,
    /// The null-texture descriptor established at finalization.
    pub null: NullTexture,
}

impl Image {
    /// The pixel buffer covers exactly the image dimensions.
    pub open spec fn wf(&self) -> bool {
        self.data@.len() == self.format.spec_stride() * self.dimensions.0 * self.dimensions.1
    }

    /// Width and height of the image in pixels.
    pub fn dimensions(&self) -> (r: (usize, usize))
        ensures
            r == self.dimensions,
    {
        self.dimensions
    }

    /// The pixel format the atlas was baked as.
    pub fn format(&self) -> (r: AtlasFormat)
        ensures
            r == self.format,
    {
        self.format
    }

    /// The atlas the image keeps alive.
    pub fn atlas(&self) -> (r: &Atlas)
        ensures
            r == &self.atlas,
    {
        &self.atlas
    }

    /// The pixel bytes.
    pub fn as_slice(&self) -> (r: &[u8])
        ensures
            r@ == self.data@,
    {
        self.data.as_slice()
    }
}

} // verus!

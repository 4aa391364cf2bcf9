//! Textures: decoded pixel data, size, format, and sampler configuration.
//!
//! Image decoding is delegated to the `image` crate behind one trusted
//! wrapper; everything downstream of the decoded pixels — sizes, formats,
//! upload layout arithmetic — is verified. The GPU texture object itself is
//! created by the host from this description.

use vstd::prelude::*;

verus! {

/// Texture formats used by this engine.
#[derive(Clone, Copy, PartialEq, Eq, Structural, Debug)]
pub enum TextureFormatKind {
    /// 8-bit RGBA, sRGB view; the format of every colour texture here.
    Rgba8UnormSrgb,
    /// 8-bit BGRA, sRGB view; a common surface format.
    Bgra8UnormSrgb,
    /// 8-bit RGBA, linear.
    Rgba8Unorm,
    /// 8-bit BGRA, linear.
    Bgra8Unorm,
    /// 32-bit float depth; the fixed depth-texture format.
    Depth32Float,
}

impl TextureFormatKind {
    /// True for the sRGB-view formats.
    pub open spec fn spec_is_srgb(self) -> bool {
        self is Rgba8UnormSrgb || self is Bgra8UnormSrgb
    }

    /// True for the sRGB-view formats.
    pub fn is_srgb(&self) -> (r: bool)
        ensures
            r == self.spec_is_srgb(),
    {
        match self {
            TextureFormatKind::Rgba8UnormSrgb => true,
            TextureFormatKind::Bgra8UnormSrgb => true,
            _ => false,
        }
    }
}

/// The format used for depth textures.
pub fn depth_format() -> (r: TextureFormatKind)
    ensures
        r == TextureFormatKind::Depth32Float,
{
    TextureFormatKind::Depth32Float
}

/// Texture filtering modes.
#[derive(Clone, Copy, PartialEq, Eq, Structural, Debug)]
pub enum FilterModeKind {
    Nearest,
    Linear,
}

/// Sampler configuration: all address modes are clamp-to-edge in this
/// engine, so only the filters and the optional depth comparison vary.
#[derive(Clone, Copy, PartialEq, Eq, Structural, Debug)]
pub struct SamplerDesc {
    pub mag_filter: FilterModeKind,
    pub min_filter: FilterModeKind,
    pub mipmap_filter: FilterModeKind,
    /// True iff the sampler compares with less-or-equal (depth sampling).
    pub compare_less_equal: bool,
}

/// Errors surfaced by texture creation.
#[derive(Clone, Copy, PartialEq, Eq, Structural, Debug)]
pub enum TextureError {
    /// The supplied bytes could not be decoded as an image.
    InvalidImage,
}

impl TextureError {
    /// A human-readable description of the error.
    pub fn message(&self) -> (r: &'static str)
        ensures
            r@ == "invalid image data"@,
    {
        "invalid image data"
    }
}

/// What `image::load_from_memory` followed by `to_rgba8` yields for the
/// given encoded bytes: `None` if the bytes do not decode, otherwise the
/// width, height, and the row-major RGBA pixel bytes.
pub uninterp spec fn image_decoded_rgba(bytes: Seq<u8>) -> Option<(u32, u32, Seq<u8>)>;

/// Relies on `image::load_from_memory` and `DynamicImage::to_rgba8`: the
/// decode is a function of the bytes alone, and the RGBA buffer holds
/// exactly `4 * width * height` bytes.
#[verifier::external_body]
fn decode_rgba(bytes: &[u8]) -> (r: Result<(u32, u32, Vec<u8>), TextureError>)
    ensures
        r is Ok <==> image_decoded_rgba(bytes@) is Some,
        r matches Ok(t) ==> image_decoded_rgba(bytes@) matches Some(d) && t.0 == d.0 && t.1 == d.1
            && t.2@ == d.2 && d.2.len() == 4 * d.0 * d.1,
{
    match image::load_from_memory(bytes) {
        Ok(img) => {
            let rgba = img.to_rgba8();
            let w = rgba.width();
            let h = rgba.height();
            Ok((w, h, rgba.into_raw()))
        },
        Err(_) => Err(TextureError::InvalidImage),
    }
}

/// Whether `t` is the colour texture `from_image` builds from the given
/// pixels: sRGB RGBA, linear filtering, no depth comparison.
pub open spec fn spec_is_colour_texture(t: Texture, width: u32, height: u32, rgba: Seq<u8>) -> bool {
    &&& t.pixel_data@ == rgba
    &&& t.size == (width, height)
    &&& t.format == TextureFormatKind::Rgba8UnormSrgb
    &&& t.sampler == (SamplerDesc {
        mag_filter: FilterModeKind::Linear,
        min_filter: FilterModeKind::Linear,
        mipmap_filter: FilterModeKind::Linear,
        compare_less_equal: false,
    })
}

/// A texture: decoded pixel bytes (empty for depth textures), size, format,
/// and sampler configuration.
#[derive(Debug)]
pub struct Texture {
    /// Row-major RGBA pixel bytes; empty for depth textures, which have no
    /// host-side contents.
    pub pixel_data: Vec<u8>,
    /// The size of the texture (width, height).
    pub size: (u32, u32),
    /// The format of the texture, fixed at creation.
    pub format: TextureFormatKind,
    /// The sampler configuration.
    pub sampler: SamplerDesc,
}

impl Texture {
    /// Create a new texture from encoded image bytes. Returns
    /// `TextureError::InvalidImage` exactly when the bytes do not decode.
    pub fn from_bytes(bytes: &[u8]) -> (r: Result<Texture, TextureError>)
        ensures
            r is Ok <==> image_decoded_rgba(bytes@) is Some,
            r matches Err(e) ==> e == TextureError::InvalidImage,
            r matches Ok(t) ==> image_decoded_rgba(bytes@) matches Some(d)
                && spec_is_colour_texture(t, d.0, d.1, d.2),
    {
        match decode_rgba(bytes) {
            Ok((width, height, rgba)) => Ok(Texture::from_image(width, height, rgba)),
            Err(e) => Err(TextureError::InvalidImage),
        }
    }

    /// Create a new texture from already-decoded RGBA pixels.
    pub fn from_image(width: u32, height: u32, rgba: Vec<u8>) -> (r: Texture)
        requires
            rgba@.len() == 4 * width * height,
        ensures
            spec_is_colour_texture(r, width, height, rgba@),
    {
        Texture {
            pixel_data: rgba,
            size: (width, height),
            format: TextureFormatKind::Rgba8UnormSrgb,
            sampler: SamplerDesc {
                mag_filter: FilterModeKind::Linear,
                min_filter: FilterModeKind::Linear,
                mipmap_filter: FilterModeKind::Linear,
                compare_less_equal: false,
            },
        }
    }

    /// Create a new depth texture: fixed `Depth32Float` format, no host
    /// contents, linear filters with less-or-equal comparison.
    pub fn create_depth_texture(width: u32, height: u32) -> (r: Texture)
        ensures
            r.pixel_data@ == Seq::<u8>::empty(),
            r.size == (width, height),
            r.format == TextureFormatKind::Depth32Float,
            r.sampler == (SamplerDesc {
                mag_filter: FilterModeKind::Linear,
                min_filter: FilterModeKind::Linear,
                mipmap_filter: FilterModeKind::Linear,
                compare_less_equal: true,
            }),
    {
        Texture {
            pixel_data: Vec::new(),
            size: (width, height),
            format: TextureFormatKind::Depth32Float,
            sampler: SamplerDesc {
                mag_filter: FilterModeKind::Linear,
                min_filter: FilterModeKind::Linear,
                mipmap_filter: FilterModeKind::Linear,
                compare_less_equal: true,
            },
        }
    }

    /// The upload layout of the pixel data: `(offset, bytes_per_row,
    /// rows_per_image)`, with four bytes per pixel.
    pub fn data_layout(&self) -> (r: (u64, u64, u32))
        ensures
            r.0 == 0,
            r.1 == 4 * (self.size.0 as u64),
            r.2 == self.size.1,
    {
        (0, 4 * (self.size.0 as u64), self.size.1)
    }
}

} // verus!

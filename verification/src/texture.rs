//! Texture descriptions: wrap modes, filters, pixel formats, and the
//! `Texture2D` record the import step produces.
//!
//! A `Texture2D` here is the full description of a device image -- sampler
//! settings, pixel format and optional pixel data -- ready to be uploaded by
//! the application layer.  The enums mirror the interchange format's sampler
//! and image enumerations; each maps to the numeric code the device API
//! expects through a verified function.

use vstd::prelude::*;

verus! {

/// Device code for nearest-neighbour filtering.
pub const GL_NEAREST: u32 = 0x2600;

/// Device code for linear filtering.
pub const GL_LINEAR: u32 = 0x2601;

/// Device code for nearest-within-nearest-mipmap filtering.
pub const GL_NEAREST_MIPMAP_NEAREST: u32 = 0x2700;

/// Device code for linear-within-nearest-mipmap filtering.
pub const GL_LINEAR_MIPMAP_NEAREST: u32 = 0x2701;

/// Device code for nearest-within-linear-mipmap filtering.
pub const GL_NEAREST_MIPMAP_LINEAR: u32 = 0x2702;

/// Device code for trilinear filtering.
pub const GL_LINEAR_MIPMAP_LINEAR: u32 = 0x2703;

/// Device code for the clamp-to-edge wrap mode.
pub const GL_CLAMP_TO_EDGE: u32 = 0x812F;

/// Device code for the mirrored-repeat wrap mode.
pub const GL_MIRRORED_REPEAT: u32 = 0x8370;

/// Device code for the repeat wrap mode.
pub const GL_REPEAT: u32 = 0x2901;

/// A texture coordinate wrapping mode, per axis.
#[derive(Debug, Clone, Copy, PartialEq, Eq, Structural)]
pub enum WrapMode {
    ClampToEdge,
    MirroredRepeat,
    Repeat,
}

/// A magnification filter.
#[derive(Debug, Clone, Copy, PartialEq, Eq, Structural)]
pub enum MagFilter {
    Nearest,
    Linear,
}

/// A minification filter.
#[derive(Debug, Clone, Copy, PartialEq, Eq, Structural)]
pub enum MinFilter {
    Nearest,
    Linear,
    NearestMipmapNearest,
    LinearMipmapNearest,
    NearestMipmapLinear,
    LinearMipmapLinear,
}

/// A decoded image's pixel layout.
#[derive(Debug, Clone, Copy, PartialEq, Eq, Structural)]
pub enum ImageFormat {
    R8,
    R8G8,
    R8G8B8,
    R8G8B8A8,
    B8G8R8,
    B8G8R8A8,
    R16,
    R16G16,
    R16G16B16,
    R16G16B16A16,
}

/// The device code for a wrap mode.
pub open spec fn spec_wrap_gl(w: WrapMode) -> u32 {
    match w {
        WrapMode::ClampToEdge => GL_CLAMP_TO_EDGE,
        WrapMode::MirroredRepeat => GL_MIRRORED_REPEAT,
        WrapMode::Repeat => GL_REPEAT,
    }
}

/// The device code for a magnification filter.
pub open spec fn spec_mag_gl(f: MagFilter) -> u32 {
    match f {
        MagFilter::Nearest => GL_NEAREST,
        MagFilter::Linear => GL_LINEAR,
    }
}

/// The device code for a minification filter.
pub open spec fn spec_min_gl(f: MinFilter) -> u32 {
    match f {
        MinFilter::Nearest => GL_NEAREST,
        MinFilter::Linear => GL_LINEAR,
        MinFilter::NearestMipmapNearest => GL_NEAREST_MIPMAP_NEAREST,
        MinFilter::LinearMipmapNearest => GL_LINEAR_MIPMAP_NEAREST,
        MinFilter::NearestMipmapLinear => GL_NEAREST_MIPMAP_LINEAR,
        MinFilter::LinearMipmapLinear => GL_LINEAR_MIPMAP_LINEAR,
    }
}

/// The device's (pixel format, component type) pair for an image layout.
pub open spec fn spec_format_gl(f: ImageFormat) -> (u32, u32) {
    match f {
        ImageFormat::R8 => (0x8229, 0x1401),
        ImageFormat::R8G8 => (0x8227, 0x1401),
        ImageFormat::R8G8B8 => (0x1907, 0x1401),
        ImageFormat::R8G8B8A8 => (0x1908, 0x1401),
        ImageFormat::B8G8R8 => (0x80E0, 0x1401),
        ImageFormat::B8G8R8A8 => (0x80E1, 0x1401),
        ImageFormat::R16 => (0x822A, 0x1403),
        ImageFormat::R16G16 => (0x822C, 0x1403),
        ImageFormat::R16G16B16 => (0x8054, 0x1403),
        ImageFormat::R16G16B16A16 => (0x805B, 0x1403),
    }
}

impl WrapMode {
    /// The numeric code the device API uses for this wrap mode.
    pub fn as_gl_enum(&self) -> (r: u32)
        ensures
            r == spec_wrap_gl(*self),
    {
        match self {
            WrapMode::ClampToEdge => GL_CLAMP_TO_EDGE,
            WrapMode::MirroredRepeat => GL_MIRRORED_REPEAT,
            WrapMode::Repeat => GL_REPEAT,
        }
    }
}

impl MagFilter {
    /// The numeric code the device API uses for this filter.
    pub fn as_gl_enum(&self) -> (r: u32)
        ensures
            r == spec_mag_gl(*self),
    {
        match self {
            MagFilter::Nearest => GL_NEAREST,
            MagFilter::Linear => GL_LINEAR,
        }
    }
}

impl MinFilter {
    /// The numeric code the device API uses for this filter.
    pub fn as_gl_enum(&self) -> (r: u32)
        ensures
            r == spec_min_gl(*self),
    {
        match self {
            MinFilter::Nearest => GL_NEAREST,
            MinFilter::Linear => GL_LINEAR,
            MinFilter::NearestMipmapNearest => GL_NEAREST_MIPMAP_NEAREST,
            MinFilter::LinearMipmapNearest => GL_LINEAR_MIPMAP_NEAREST,
            MinFilter::NearestMipmapLinear => GL_NEAREST_MIPMAP_LINEAR,
            MinFilter::LinearMipmapLinear => GL_LINEAR_MIPMAP_LINEAR,
        }
    }
}

impl ImageFormat {
    /// The (pixel format, component type) pair the device API expects.
    pub fn as_gl_enums(&self) -> (r: (u32, u32))
        ensures
            r == spec_format_gl(*self),
    {
        match self {
            ImageFormat::R8 => (0x8229, 0x1401),
            ImageFormat::R8G8 => (0x8227, 0x1401),
            ImageFormat::R8G8B8 => (0x1907, 0x1401),
            ImageFormat::R8G8B8A8 => (0x1908, 0x1401),
            ImageFormat::B8G8R8 => (0x80E0, 0x1401),
            ImageFormat::B8G8R8A8 => (0x80E1, 0x1401),
            ImageFormat::R16 => (0x822A, 0x1403),
            ImageFormat::R16G16 => (0x822C, 0x1403),
            ImageFormat::R16G16B16 => (0x8054, 0x1403),
            ImageFormat::R16G16B16A16 => (0x805B, 0x1403),
        }
    }
}

/// The description of a device image: sampler settings as device codes,
/// pixel format, dimensions, and optionally the pixel data.  Absent data
/// means an allocated but uninitialized image, used for render-target
/// attachments.
#[derive(Debug)]
pub struct Texture2D {
    pub wrap_s: u32,
    pub wrap_t: u32,
    pub mag_filter: u32,
    pub min_filter: u32,
    pub pixels: Option<Vec<u8>>,
    pub format: u32,
    pub gl_type: u32,
    pub width: u32,
    pub height: u32,
}

/// The mathematical contents of a `Texture2D`.
pub struct Texture2DView {
    pub wrap_s: u32,
    pub wrap_t: u32,
    pub mag_filter: u32,
    pub min_filter: u32,
    pub pixels: Option<Seq<u8>>,
    pub format: u32,
    pub gl_type: u32,
    pub width: u32,
    pub height: u32,
}

impl View for Texture2D {
    type V = Texture2DView;

    open spec fn view(&self) -> Texture2DView {
        Texture2DView {
            wrap_s: self.wrap_s,
            wrap_t: self.wrap_t,
            mag_filter: self.mag_filter,
            min_filter: self.min_filter,
            pixels: match self.pixels {
                Some(p) => Some(p@),
                None => None,
            },
            format: self.format,
            gl_type: self.gl_type,
            width: self.width,
            height: self.height,
        }
    }
}

impl Texture2DView {
    /// Mipmaps are generated for every texture unless both filters are
    /// nearest-neighbour.
    pub open spec fn needs_mipmaps(self) -> bool {
        self.min_filter != GL_NEAREST || self.mag_filter != GL_NEAREST
    }
}

impl Texture2D {
    /// Records the description of a device image.  The upload itself is the
    /// application layer's work.
    pub fn new(
        wrap_s: u32,
        wrap_t: u32,
        mag_filter: u32,
        min_filter: u32,
        data: Option<Vec<u8>>,
        format: u32,
        gl_type: u32,
        dimensions: (u32, u32),
    ) -> (r: Texture2D)
        ensures
            r.wrap_s == wrap_s,
            r.wrap_t == wrap_t,
            r.mag_filter == mag_filter,
            r.min_filter == min_filter,
            r.pixels == data,
            r.format == format,
            r.gl_type == gl_type,
            r.width == dimensions.0,
            r.height == dimensions.1,
    {
        Texture2D {
            wrap_s,
            wrap_t,
            mag_filter,
            min_filter,
            pixels: data,
            format,
            gl_type,
            width: dimensions.0,
            height: dimensions.1,
        }
    }

    /// Whether the device should generate mipmaps for this texture.
    pub fn needs_mipmaps(&self) -> (r: bool)
        ensures
            r == self@.needs_mipmaps(),
    {
        self.min_filter != GL_NEAREST || self.mag_filter != GL_NEAREST
    }
}

} // verus!

//! Scene-document import: from a decoded interchange document to the flat
//! asset storage and the world-space node list.
//!
//! The document model here holds, as plain values, exactly what the import
//! logic reads from the interchange format: decoded binary buffers, decoded
//! images, accessor descriptions, mesh/material definitions and the node
//! hierarchy.  The application layer fills a `SceneDoc` from the parsed
//! file; everything from there on is verified.
//!
//! Import fails fatally (an `ImportError`, never a partial scene) on any
//! format violation: a missing required accessor, a wrong declared type, a
//! non-tight stride, out-of-bounds accessor ranges, mismatched vertex
//! counts, out-of-range triangle indices, dangling asset references, a
//! missing default scene, or declared buffer/image counts that do not match
//! the decoded ones.

use vstd::prelude::*;

use crate::mat::Mat4;
use crate::mat::Vec2Bits;
use crate::mat::Vec3Bits;
use crate::material::Material;
use crate::material::spec_default_material;
use crate::mesh::Mesh;
use crate::mesh::MeshView;
use crate::mesh::Primitive;
use crate::mesh::PrimitiveView;
use crate::texture::ImageFormat;
use crate::texture::MagFilter;
use crate::texture::MinFilter;
use crate::texture::Texture2D;
use crate::texture::Texture2DView;
use crate::texture::WrapMode;
use crate::texture::spec_format_gl;
use crate::texture::spec_mag_gl;
use crate::texture::spec_min_gl;
use crate::texture::spec_wrap_gl;

verus! {

/// Why an import was aborted.
#[derive(Debug, Clone, Copy, PartialEq, Eq, Structural)]
pub enum ImportError {
    /// The document declares a different number of buffers than were decoded.
    BufferCountMismatch,
    /// The document declares a different number of images than were decoded.
    ImageCountMismatch,
    /// The document names no default scene.
    MissingScene,
    /// A primitive lacks a position accessor.
    MissingPositions,
    /// A primitive lacks a normal accessor.
    MissingNormals,
    /// A primitive lacks a first texture-coordinate accessor.
    MissingTexCoords,
    /// A primitive lacks an index accessor.
    MissingIndices,
    /// An accessor declares a component type or element kind other than the
    /// required one.
    BadAttributeType,
    /// An accessor's buffer view uses a stride other than the element's
    /// natural size; such layouts are not supported.
    NonTightStride,
    /// An accessor or its view reaches outside the decoded buffer bytes.
    AccessorOutOfBounds,
    /// A primitive's position, normal and texture-coordinate accessors
    /// disagree on the vertex count.
    AttributeCountMismatch,
    /// A primitive's index count is not a multiple of three.
    BadIndexCount,
    /// A triangle index is not below the vertex count.
    IndexOutOfRange,
    /// A primitive names a material the document does not define.
    BadMaterialRef,
    /// A material's albedo texture names an image the document lacks.
    BadImageRef,
    /// A node names a mesh the document does not define.
    BadMeshRef,
    /// A scene root or a child reference names a node the document lacks.
    BadNodeRef,
}

/// The component type an accessor declares.
#[derive(Debug, Clone, Copy, PartialEq, Eq, Structural)]
pub enum ComponentType {
    I8,
    U8,
    I16,
    U16,
    U32,
    F32,
}

/// The element kind (arity) an accessor declares.
#[derive(Debug, Clone, Copy, PartialEq, Eq, Structural)]
pub enum ElementKind {
    Scalar,
    Vec2,
    Vec3,
    Vec4,
    Mat2,
    Mat3,
    Mat4,
}

/// Bytes per component.
pub open spec fn spec_component_size(c: ComponentType) -> int {
    match c {
        ComponentType::I8 => 1,
        ComponentType::U8 => 1,
        ComponentType::I16 => 2,
        ComponentType::U16 => 2,
        ComponentType::U32 => 4,
        ComponentType::F32 => 4,
    }
}

/// Components per element.
pub open spec fn spec_kind_len(k: ElementKind) -> int {
    match k {
        ElementKind::Scalar => 1,
        ElementKind::Vec2 => 2,
        ElementKind::Vec3 => 3,
        ElementKind::Vec4 => 4,
        ElementKind::Mat2 => 4,
        ElementKind::Mat3 => 9,
        ElementKind::Mat4 => 16,
    }
}

/// A typed view over raw buffer bytes: one vertex attribute or index stream.
#[derive(Debug, Clone, Copy, PartialEq, Eq)]
pub struct AccessorDef {
    /// Index of the decoded buffer the accessor's view reads.
    pub buffer: usize,
    /// Byte offset of the buffer view within that buffer.
    pub view_offset: usize,
    /// Byte length of the buffer view.
    pub view_length: usize,
    /// The view's declared element stride; absent means tightly packed.
    pub view_stride: Option<usize>,
    /// The accessor's own byte offset within the view.
    pub offset: usize,
    /// How many elements the accessor holds.
    pub count: usize,
    /// Declared component type.
    pub component: ComponentType,
    /// Declared element kind.
    pub kind: ElementKind,
}

impl AccessorDef {
    /// An element's natural byte size.
    pub open spec fn spec_elem_size(self) -> int {
        spec_component_size(self.component) * spec_kind_len(self.kind)
    }

    /// Where the accessor's first element starts within its buffer.
    pub open spec fn spec_base(self) -> int {
        self.view_offset + self.offset
    }
}

/// A mesh primitive as the document declares it.
#[derive(Debug, Clone, Copy, PartialEq, Eq)]
pub struct PrimitiveDef {
    pub positions: Option<AccessorDef>,
    pub normals: Option<AccessorDef>,
    pub tex_coords: Option<AccessorDef>,
    pub indices: Option<AccessorDef>,
    /// The declared material index; absent defaults to index zero.
    pub material: Option<usize>,
}

/// A mesh as the document declares it.
#[derive(Debug)]
pub struct MeshDef {
    pub primitives: Vec<PrimitiveDef>,
}

/// A sampler as the document declares it: wrap modes per axis and optional
/// filters.
#[derive(Debug, Clone, Copy, PartialEq, Eq)]
pub struct SamplerDef {
    pub wrap_s: WrapMode,
    pub wrap_t: WrapMode,
    pub mag_filter: Option<MagFilter>,
    pub min_filter: Option<MinFilter>,
}

/// A material's albedo texture reference: a decoded image plus its sampler.
#[derive(Debug, Clone, Copy, PartialEq, Eq)]
pub struct TextureDef {
    pub source: usize,
    pub sampler: SamplerDef,
}

/// A material as the document declares it.
#[derive(Debug, Clone, Copy, PartialEq, Eq)]
pub struct MaterialDef {
    pub base_color_texture: Option<TextureDef>,
}

/// A decoded image.
#[derive(Debug)]
pub struct ImageDef {
    pub pixels: Vec<u8>,
    pub width: u32,
    pub height: u32,
    pub format: ImageFormat,
}

/// A node of the document's scene graph: an optional mesh reference, the
/// child node indices, and the node's local transform.
#[derive(Debug)]
pub struct NodeDef {
    pub mesh: Option<usize>,
    pub children: Vec<usize>,
    pub local: Mat4,
}

/// A decoded scene interchange document.
#[derive(Debug)]
pub struct SceneDoc {
    /// How many buffers the document declares.
    pub declared_buffers: usize,
    /// How many images the document declares.
    pub declared_images: usize,
    /// The decoded binary buffers.
    pub buffers: Vec<Vec<u8>>,
    /// The decoded images.
    pub images: Vec<ImageDef>,
    pub meshes: Vec<MeshDef>,
    pub materials: Vec<MaterialDef>,
    pub nodes: Vec<NodeDef>,
    /// The default scene's root node indices, if a default scene is named.
    pub scene: Option<Vec<usize>>,
}

// ---------------------------------------------------------------------------
// Little-endian words
// ---------------------------------------------------------------------------

/// The 16-bit little-endian word starting at byte `i`.
pub open spec fn le16(b: Seq<u8>, i: int) -> u16 {
    (b[i] as int + b[i + 1] as int * 0x100) as u16
}

/// The 32-bit little-endian word starting at byte `i`.
pub open spec fn le32(b: Seq<u8>, i: int) -> u32 {
    (b[i] as int + b[i + 1] as int * 0x100 + b[i + 2] as int * 0x1_0000 + b[i + 3] as int
        * 0x100_0000) as u32
}

/// Reads the 16-bit little-endian word at `i`.
fn read_le16(b: &Vec<u8>, i: usize) -> (r: u16)
    requires
        i + 2 <= b.len(),
    ensures
        r == le16(b@, i as int),
{
    let lo = b[i] as u16;
    let hi = b[i + 1] as u16;
    lo + hi * 0x100
}

/// Reads the 32-bit little-endian word at `i`.
fn read_le32(b: &Vec<u8>, i: usize) -> (r: u32)
    requires
        i + 4 <= b.len(),
    ensures
        r == le32(b@, i as int),
{
    let b0 = b[i] as u32;
    let b1 = b[i + 1] as u32;
    let b2 = b[i + 2] as u32;
    let b3 = b[i + 3] as u32;
    b0 + b1 * 0x100 + b2 * 0x1_0000 + b3 * 0x100_0000
}

// ---------------------------------------------------------------------------
// Accessor checking and decoding
// ---------------------------------------------------------------------------

/// The accessor's view and its own range both lie inside the decoded bytes.
pub open spec fn spec_accessor_in_bounds(acc: AccessorDef, buffers: Seq<Vec<u8>>) -> bool {
    &&& acc.buffer < buffers.len()
    &&& acc.view_offset + acc.view_length <= buffers[acc.buffer as int]@.len()
    &&& acc.offset + acc.count * acc.spec_elem_size() <= acc.view_length
}

/// The declared stride, if any, equals the element's natural size.
pub open spec fn spec_stride_tight(acc: AccessorDef) -> bool {
    match acc.view_stride {
        Some(s) => s == acc.spec_elem_size(),
        None => true,
    }
}

/// The first rejection, if any, of an accessor expected to hold elements of
/// the given component type and kind, checked in the order: declared type,
/// view bounds, stride, element range.
pub open spec fn spec_accessor_error(
    acc: AccessorDef,
    buffers: Seq<Vec<u8>>,
    component: ComponentType,
    kind: ElementKind,
) -> Option<ImportError> {
    if acc.component != component || acc.kind != kind {
        Some(ImportError::BadAttributeType)
    } else if !(acc.buffer < buffers.len() && acc.view_offset + acc.view_length <= buffers[
        acc.buffer as int
    ]@.len()) {
        Some(ImportError::AccessorOutOfBounds)
    } else if !spec_stride_tight(acc) {
        Some(ImportError::NonTightStride)
    } else if !(acc.offset + acc.count * acc.spec_elem_size() <= acc.view_length) {
        Some(ImportError::AccessorOutOfBounds)
    } else {
        None
    }
}

/// The same check as `spec_accessor_error`, for an index accessor, which may
/// declare 16-bit or 32-bit unsigned components.
pub open spec fn spec_index_accessor_error(acc: AccessorDef, buffers: Seq<Vec<u8>>) -> Option<
    ImportError,
> {
    if !(acc.component == ComponentType::U16 || acc.component == ComponentType::U32)
        || acc.kind != ElementKind::Scalar {
        Some(ImportError::BadAttributeType)
    } else if !(acc.buffer < buffers.len() && acc.view_offset + acc.view_length <= buffers[
        acc.buffer as int
    ]@.len()) {
        Some(ImportError::AccessorOutOfBounds)
    } else if !spec_stride_tight(acc) {
        Some(ImportError::NonTightStride)
    } else if !(acc.offset + acc.count * acc.spec_elem_size() <= acc.view_length) {
        Some(ImportError::AccessorOutOfBounds)
    } else {
        None
    }
}

fn elem_size(acc: &AccessorDef) -> (r: usize)
    ensures
        r == acc.spec_elem_size(),
        1 <= r <= 64,
{
    let c: usize = match acc.component {
        ComponentType::I8 => 1,
        ComponentType::U8 => 1,
        ComponentType::I16 => 2,
        ComponentType::U16 => 2,
        ComponentType::U32 => 4,
        ComponentType::F32 => 4,
    };
    let k: usize = match acc.kind {
        ElementKind::Scalar => 1,
        ElementKind::Vec2 => 2,
        ElementKind::Vec3 => 3,
        ElementKind::Vec4 => 4,
        ElementKind::Mat2 => 4,
        ElementKind::Mat3 => 9,
        ElementKind::Mat4 => 16,
    };
    proof {
        assert(1 <= c * k <= 64) by (nonlinear_arith)
            requires
                1 <= c <= 4,
                1 <= k <= 16,
        ;
    }
    c * k
}

/// Checks an attribute accessor as `spec_accessor_error` describes.
fn check_accessor(
    acc: &AccessorDef,
    buffers: &Vec<Vec<u8>>,
    component: ComponentType,
    kind: ElementKind,
) -> (r: Option<ImportError>)
    ensures
        r == spec_accessor_error(*acc, buffers@, component, kind),
        r is None ==> spec_accessor_in_bounds(*acc, buffers@) && spec_stride_tight(*acc),
{
    if acc.component != component || acc.kind != kind {
        return Some(ImportError::BadAttributeType);
    }
    if acc.buffer >= buffers.len() {
        return Some(ImportError::AccessorOutOfBounds);
    }
    let blen = buffers[acc.buffer].len();
    if acc.view_offset > blen || acc.view_length > blen - acc.view_offset {
        return Some(ImportError::AccessorOutOfBounds);
    }
    let es = elem_size(acc);
    match acc.view_stride {
        Some(s) => {
            if s != es {
                return Some(ImportError::NonTightStride);
            }
        },
        None => {},
    }
    let total = match acc.count.checked_mul(es) {
        Some(t) => t,
        None => {
            return Some(ImportError::AccessorOutOfBounds);
        },
    };
    if total > acc.view_length || acc.offset > acc.view_length - total {
        return Some(ImportError::AccessorOutOfBounds);
    }
    None
}

/// Checks an index accessor as `spec_index_accessor_error` describes.
fn check_index_accessor(acc: &AccessorDef, buffers: &Vec<Vec<u8>>) -> (r: Option<ImportError>)
    ensures
        r == spec_index_accessor_error(*acc, buffers@),
        r is None ==> spec_accessor_in_bounds(*acc, buffers@) && spec_stride_tight(*acc),
{
    if !(acc.component == ComponentType::U16 || acc.component == ComponentType::U32)
        || acc.kind != ElementKind::Scalar {
        return Some(ImportError::BadAttributeType);
    }
    if acc.buffer >= buffers.len() {
        return Some(ImportError::AccessorOutOfBounds);
    }
    let blen = buffers[acc.buffer].len();
    if acc.view_offset > blen || acc.view_length > blen - acc.view_offset {
        return Some(ImportError::AccessorOutOfBounds);
    }
    let es = elem_size(acc);
    match acc.view_stride {
        Some(s) => {
            if s != es {
                return Some(ImportError::NonTightStride);
            }
        },
        None => {},
    }
    let total = match acc.count.checked_mul(es) {
        Some(t) => t,
        None => {
            return Some(ImportError::AccessorOutOfBounds);
        },
    };
    if total > acc.view_length || acc.offset > acc.view_length - total {
        return Some(ImportError::AccessorOutOfBounds);
    }
    None
}

/// The triples an in-bounds float vec3 accessor decodes to.
pub open spec fn decoded_vec3(b: Seq<u8>, acc: AccessorDef) -> Seq<Vec3Bits> {
    Seq::new(
        acc.count as nat,
        |i: int|
            Vec3Bits {
                x: le32(b, acc.spec_base() + i * 12),
                y: le32(b, acc.spec_base() + i * 12 + 4),
                z: le32(b, acc.spec_base() + i * 12 + 8),
            },
    )
}

/// The pairs an in-bounds float vec2 accessor decodes to.
pub open spec fn decoded_vec2(b: Seq<u8>, acc: AccessorDef) -> Seq<Vec2Bits> {
    Seq::new(
        acc.count as nat,
        |i: int|
            Vec2Bits {
                x: le32(b, acc.spec_base() + i * 8),
                y: le32(b, acc.spec_base() + i * 8 + 4),
            },
    )
}

/// The 32-bit index values an in-bounds index accessor decodes to; 16-bit
/// sources are widened value for value, in order.
pub open spec fn decoded_indices(b: Seq<u8>, acc: AccessorDef) -> Seq<u32> {
    if acc.component == ComponentType::U16 {
        Seq::new(acc.count as nat, |i: int| le16(b, acc.spec_base() + i * 2) as u32)
    } else {
        Seq::new(acc.count as nat, |i: int| le32(b, acc.spec_base() + i * 4))
    }
}

/// Decodes a float vec3 accessor: each element is three consecutive
/// little-endian words at the accessor's offset within its view.
fn decode_vec3_f32(buffers: &Vec<Vec<u8>>, acc: &AccessorDef) -> (r: Vec<Vec3Bits>)
    requires
        spec_accessor_in_bounds(*acc, buffers@),
        acc.component == ComponentType::F32,
        acc.kind == ElementKind::Vec3,
    ensures
        r@ == decoded_vec3(buffers@[acc.buffer as int]@, *acc),
{
    let b = &buffers[acc.buffer];
    proof {
        assert(acc.spec_elem_size() == 12);
        assert(acc.view_offset + acc.offset + acc.count * 12 <= b.len());
    }
    let base = acc.view_offset + acc.offset;
    let mut r: Vec<Vec3Bits> = Vec::new();
    let mut i: usize = 0;
    while i < acc.count
        invariant
            i <= acc.count,
            base == acc.spec_base(),
            base + acc.count * 12 <= b.len(),
            r@.len() == i,
            forall|j: int| 0 <= j < i ==> r@[j] == decoded_vec3(b@, *acc)[j],
        decreases acc.count - i,
    {
        let off = base + i * 12;
        let x = read_le32(b, off);
        let y = read_le32(b, off + 4);
        let z = read_le32(b, off + 8);
        r.push(Vec3Bits { x, y, z });
        i = i + 1;
    }
    proof {
        assert(r@ =~= decoded_vec3(b@, *acc));
    }
    r
}

/// Decodes a float vec2 accessor.
fn decode_vec2_f32(buffers: &Vec<Vec<u8>>, acc: &AccessorDef) -> (r: Vec<Vec2Bits>)
    requires
        spec_accessor_in_bounds(*acc, buffers@),
        acc.component == ComponentType::F32,
        acc.kind == ElementKind::Vec2,
    ensures
        r@ == decoded_vec2(buffers@[acc.buffer as int]@, *acc),
{
    let b = &buffers[acc.buffer];
    proof {
        assert(acc.spec_elem_size() == 8);
        assert(acc.view_offset + acc.offset + acc.count * 8 <= b.len());
    }
    let base = acc.view_offset + acc.offset;
    let mut r: Vec<Vec2Bits> = Vec::new();
    let mut i: usize = 0;
    while i < acc.count
        invariant
            i <= acc.count,
            base == acc.spec_base(),
            base + acc.count * 8 <= b.len(),
            r@.len() == i,
            forall|j: int| 0 <= j < i ==> r@[j] == decoded_vec2(b@, *acc)[j],
        decreases acc.count - i,
    {
        let off = base + i * 8;
        let x = read_le32(b, off);
        let y = read_le32(b, off + 4);
        r.push(Vec2Bits { x, y });
        i = i + 1;
    }
    proof {
        assert(r@ =~= decoded_vec2(b@, *acc));
    }
    r
}

/// Decodes an index accessor, widening 16-bit values to 32 bits.
fn decode_indices(buffers: &Vec<Vec<u8>>, acc: &AccessorDef) -> (r: Vec<u32>)
    requires
        spec_accessor_in_bounds(*acc, buffers@),
        acc.component == ComponentType::U16 || acc.component == ComponentType::U32,
        acc.kind == ElementKind::Scalar,
    ensures
        r@ == decoded_indices(buffers@[acc.buffer as int]@, *acc),
{
    let b = &buffers[acc.buffer];
    proof {
        assert(acc.spec_elem_size() == 2 || acc.spec_elem_size() == 4);
        assert(acc.view_offset + acc.offset + acc.count * acc.spec_elem_size() <= b.len());
    }
    let base = acc.view_offset + acc.offset;
    let mut r: Vec<u32> = Vec::new();
    let mut i: usize = 0;
    if acc.component == ComponentType::U16 {
        proof {
            assert(acc.spec_elem_size() == 2);
            assert(base + acc.count * 2 <= b.len());
        }
        while i < acc.count
            invariant
                i <= acc.count,
                acc.component == ComponentType::U16,
                base == acc.spec_base(),
                base + acc.count * 2 <= b.len(),
                r@.len() == i,
                forall|j: int| 0 <= j < i ==> r@[j] == decoded_indices(b@, *acc)[j],
            decreases acc.count - i,
        {
            let w = read_le16(b, base + i * 2);
            r.push(w as u32);
            i = i + 1;
        }
    } else {
        proof {
            assert(acc.spec_elem_size() == 4);
            assert(base + acc.count * 4 <= b.len());
        }
        while i < acc.count
            invariant
                i <= acc.count,
                acc.component == ComponentType::U32,
                base == acc.spec_base(),
                base + acc.count * 4 <= b.len(),
                r@.len() == i,
                forall|j: int| 0 <= j < i ==> r@[j] == decoded_indices(b@, *acc)[j],
            decreases acc.count - i,
        {
            let w = read_le32(b, base + i * 4);
            r.push(w);
            i = i + 1;
        }
    }
    proof {
        assert(r@ =~= decoded_indices(b@, *acc));
    }
    r
}

// ---------------------------------------------------------------------------
// Textures and materials
// ---------------------------------------------------------------------------

/// Copies a byte vector.
fn clone_bytes(v: &Vec<u8>) -> (r: Vec<u8>)
    ensures
        r@ == v@,
{
    let r = v.clone();
    proof {
        assert(r@ =~= v@);
    }
    r
}

/// The texture a material's albedo reference produces: the sampler's wrap
/// modes and filters mapped to device codes (magnification defaults to
/// linear, minification to trilinear when unspecified), the image's format
/// codes, and its pixels.
pub open spec fn spec_texture_from_image(img: ImageDef, s: SamplerDef) -> Texture2DView {
    Texture2DView {
        wrap_s: spec_wrap_gl(s.wrap_s),
        wrap_t: spec_wrap_gl(s.wrap_t),
        mag_filter: spec_mag_gl(
            match s.mag_filter {
                Some(f) => f,
                None => MagFilter::Linear,
            },
        ),
        min_filter: spec_min_gl(
            match s.min_filter {
                Some(f) => f,
                None => MinFilter::LinearMipmapLinear,
            },
        ),
        pixels: Some(img.pixels@),
        format: spec_format_gl(img.format).0,
        gl_type: spec_format_gl(img.format).1,
        width: img.width,
        height: img.height,
    }
}

/// Builds the texture description for a material's albedo image, decoding
/// the sampler's settings and applying the default filters.
fn get_texture(image: &ImageDef, sampler: &SamplerDef) -> (t: Texture2D)
    ensures
        t@ == spec_texture_from_image(*image, *sampler),
{
    let mag = match sampler.mag_filter {
        Some(f) => f,
        None => MagFilter::Linear,
    };
    let min = match sampler.min_filter {
        Some(f) => f,
        None => MinFilter::LinearMipmapLinear,
    };
    let fmt = image.format.as_gl_enums();
    let pixels = clone_bytes(&image.pixels);
    Texture2D::new(
        sampler.wrap_s.as_gl_enum(),
        sampler.wrap_t.as_gl_enum(),
        mag.as_gl_enum(),
        min.as_gl_enum(),
        Some(pixels),
        fmt.0,
        fmt.1,
        (image.width, image.height),
    )
}

/// The contents of a texture table.
pub open spec fn texture_views(s: Seq<Texture2D>) -> Seq<Texture2DView> {
    Seq::new(s.len(), |i: int| s[i]@)
}

/// The materials and textures the first `n` material definitions import to.
/// A definition without an albedo reference becomes the default material; one
/// with a reference appends the decoded texture to the texture table and
/// records its index as the material's albedo.  A reference to a missing
/// image aborts the import.
pub open spec fn spec_import_materials(
    images: Seq<ImageDef>,
    defs: Seq<MaterialDef>,
    n: int,
) -> Result<(Seq<Material>, Seq<Texture2DView>), ImportError>
    decreases n,
{
    if n <= 0 {
        Ok((Seq::empty(), Seq::empty()))
    } else {
        match spec_import_materials(images, defs, n - 1) {
            Err(e) => Err(e),
            Ok((mats, texs)) => match defs[n - 1].base_color_texture {
                None => Ok((mats.push(spec_default_material()), texs)),
                Some(td) => if td.source >= images.len() {
                    Err(ImportError::BadImageRef)
                } else {
                    Ok(
                        (
                            mats.push(
                                Material {
                                    albedo: Some(texs.len() as usize),
                                    ..spec_default_material()
                                },
                            ),
                            texs.push(spec_texture_from_image(images[td.source as int], td.sampler)),
                        ),
                    )
                },
            },
        }
    }
}

/// Once the material fold has failed, it stays failed.
proof fn lemma_import_materials_err(
    images: Seq<ImageDef>,
    defs: Seq<MaterialDef>,
    i: int,
    n: int,
)
    requires
        0 <= i <= n,
        spec_import_materials(images, defs, i) is Err,
    ensures
        spec_import_materials(images, defs, n) == spec_import_materials(images, defs, i),
    decreases n - i,
{
    if i < n {
        lemma_import_materials_err(images, defs, i, n - 1);
    }
}

/// Imports the material definitions: each becomes a `Material`, and each
/// albedo reference appends its decoded texture to the texture table.
fn import_materials(images: &Vec<ImageDef>, defs: &Vec<MaterialDef>) -> (r: Result<
    (Vec<Material>, Vec<Texture2D>),
    ImportError,
>)
    ensures
        match r {
            Ok((mats, texs)) => spec_import_materials(images@, defs@, defs.len() as int) == Ok::<
                _,
                ImportError,
            >((mats@, texture_views(texs@))),
            Err(e) => spec_import_materials(images@, defs@, defs.len() as int) == Err::<
                (Seq<Material>, Seq<Texture2DView>),
                _,
            >(e),
        },
{
    let mut mats: Vec<Material> = Vec::new();
    let mut texs: Vec<Texture2D> = Vec::new();
    let mut i: usize = 0;
    proof {
        assert(mats@ =~= Seq::<Material>::empty());
        assert(texture_views(texs@) =~= Seq::<Texture2DView>::empty());
    }
    while i < defs.len()
        invariant
            i <= defs.len(),
            spec_import_materials(images@, defs@, i as int) == Ok::<_, ImportError>(
                (mats@, texture_views(texs@)),
            ),
        decreases defs.len() - i,
    {
        let ghost mats0 = mats@;
        let ghost texs0 = texs@;
        match defs[i].base_color_texture {
            None => {
                mats.push(Material::default());
                proof {
                    assert(spec_import_materials(images@, defs@, i as int + 1)
                        == Ok::<_, ImportError>((mats0.push(spec_default_material()), texture_views(texs0))));
                }
            },
            Some(td) => {
                if td.source >= images.len() {
                    proof {
                        assert(spec_import_materials(images@, defs@, i as int + 1) == Err::<
                            (Seq<Material>, Seq<Texture2DView>),
                            _,
                        >(ImportError::BadImageRef));
                        lemma_import_materials_err(images@, defs@, i as int + 1, defs.len() as int);
                    }
                    return Err(ImportError::BadImageRef);
                }
                let tex = get_texture(&images[td.source], &td.sampler);
                let mut m = Material::default();
                m.albedo = Some(texs.len());
                mats.push(m);
                texs.push(tex);
                proof {
                    assert(texture_views(texs@) =~= texture_views(texs0).push(tex@));
                    assert(m == Material { albedo: Some(texs0.len() as usize), ..spec_default_material() });
                }
            },
        }
        i = i + 1;
    }
    Ok((mats, texs))
}

// ---------------------------------------------------------------------------
// Primitives and meshes
// ---------------------------------------------------------------------------

/// What one primitive definition imports to: the decoded vertex and index
/// arrays and the primitive's material index (defaulting to zero), or the
/// format violation that aborts the import.  The accessors are checked in
/// the order position, normal, texture coordinate, index; then the vertex
/// counts must agree, the index count must describe whole triangles, every
/// index must be below the vertex count, and the material reference must
/// exist.
pub open spec fn spec_import_prim(
    buffers: Seq<Vec<u8>>,
    n_materials: int,
    p: PrimitiveDef,
) -> Result<(PrimitiveView, usize), ImportError> {
    match p.positions {
        None => Err(ImportError::MissingPositions),
        Some(pos) => match spec_accessor_error(
            pos,
            buffers,
            ComponentType::F32,
            ElementKind::Vec3,
        ) {
            Some(e) => Err(e),
            None => match p.normals {
                None => Err(ImportError::MissingNormals),
                Some(nor) => match spec_accessor_error(
                    nor,
                    buffers,
                    ComponentType::F32,
                    ElementKind::Vec3,
                ) {
                    Some(e) => Err(e),
                    None => match p.tex_coords {
                        None => Err(ImportError::MissingTexCoords),
                        Some(tex) => match spec_accessor_error(
                            tex,
                            buffers,
                            ComponentType::F32,
                            ElementKind::Vec2,
                        ) {
                            Some(e) => Err(e),
                            None => match p.indices {
                                None => Err(ImportError::MissingIndices),
                                Some(idx) => match spec_index_accessor_error(idx, buffers) {
                                    Some(e) => Err(e),
                                    None => spec_import_prim_data(
                                        buffers,
                                        n_materials,
                                        p,
                                        pos,
                                        nor,
                                        tex,
                                        idx,
                                    ),
                                },
                            },
                        },
                    },
                },
            },
        },
    }
}

/// The data stage of `spec_import_prim`, once all four accessors are
/// well formed.
pub open spec fn spec_import_prim_data(
    buffers: Seq<Vec<u8>>,
    n_materials: int,
    p: PrimitiveDef,
    pos: AccessorDef,
    nor: AccessorDef,
    tex: AccessorDef,
    idx: AccessorDef,
) -> Result<(PrimitiveView, usize), ImportError> {
    if nor.count != pos.count || tex.count != pos.count {
        Err(ImportError::AttributeCountMismatch)
    } else if idx.count as int % 3 != 0 {
        Err(ImportError::BadIndexCount)
    } else {
        let inds = decoded_indices(buffers[idx.buffer as int]@, idx);
        if exists|i: int| 0 <= i < inds.len() && inds[i] >= pos.count {
            Err(ImportError::IndexOutOfRange)
        } else {
            let mi = match p.material {
                Some(m) => m,
                None => 0usize,
            };
            if mi >= n_materials {
                Err(ImportError::BadMaterialRef)
            } else {
                Ok(
                    (
                        PrimitiveView {
                            positions: decoded_vec3(buffers[pos.buffer as int]@, pos),
                            normals: decoded_vec3(buffers[nor.buffer as int]@, nor),
                            tex_coords: decoded_vec2(buffers[tex.buffer as int]@, tex),
                            indices: inds,
                        },
                        mi,
                    ),
                )
            }
        }
    }
}

/// Whether every value of `inds` is below `bound`.
fn all_indices_below(inds: &Vec<u32>, bound: usize) -> (r: bool)
    ensures
        r == forall|j: int| 0 <= j < inds@.len() ==> inds@[j] < bound,
{
    let mut k: usize = 0;
    let mut ok = true;
    while k < inds.len()
        invariant
            k <= inds.len(),
            ok == forall|j: int| 0 <= j < k ==> inds@[j] < bound,
        decreases inds.len() - k,
    {
        let below = (inds[k] as usize) < bound;
        ok = ok && below;
        k = k + 1;
    }
    ok
}

/// Imports one primitive definition, as `spec_import_prim` describes.
fn import_prim(buffers: &Vec<Vec<u8>>, n_materials: usize, p: &PrimitiveDef) -> (r: Result<
    (Primitive, usize),
    ImportError,
>)
    ensures
        match r {
            Ok((prim, mi)) => spec_import_prim(buffers@, n_materials as int, *p) == Ok::<
                _,
                ImportError,
            >((prim@, mi)) && prim@.wf(),
            Err(e) => spec_import_prim(buffers@, n_materials as int, *p) == Err::<
                (PrimitiveView, usize),
                _,
            >(e),
        },
{
    let pos = match p.positions {
        Some(a) => a,
        None => {
            return Err(ImportError::MissingPositions);
        },
    };
    match check_accessor(&pos, buffers, ComponentType::F32, ElementKind::Vec3) {
        Some(e) => {
            return Err(e);
        },
        None => {},
    }
    let nor = match p.normals {
        Some(a) => a,
        None => {
            return Err(ImportError::MissingNormals);
        },
    };
    match check_accessor(&nor, buffers, ComponentType::F32, ElementKind::Vec3) {
        Some(e) => {
            return Err(e);
        },
        None => {},
    }
    let tex = match p.tex_coords {
        Some(a) => a,
        None => {
            return Err(ImportError::MissingTexCoords);
        },
    };
    match check_accessor(&tex, buffers, ComponentType::F32, ElementKind::Vec2) {
        Some(e) => {
            return Err(e);
        },
        None => {},
    }
    let idx = match p.indices {
        Some(a) => a,
        None => {
            return Err(ImportError::MissingIndices);
        },
    };
    match check_index_accessor(&idx, buffers) {
        Some(e) => {
            return Err(e);
        },
        None => {},
    }
    if nor.count != pos.count || tex.count != pos.count {
        return Err(ImportError::AttributeCountMismatch);
    }
    if idx.count % 3 != 0 {
        return Err(ImportError::BadIndexCount);
    }
    let inds = decode_indices(buffers, &idx);
    if !all_indices_below(&inds, pos.count) {
        return Err(ImportError::IndexOutOfRange);
    }
    let mi = match p.material {
        Some(m) => m,
        None => 0usize,
    };
    if mi >= n_materials {
        return Err(ImportError::BadMaterialRef);
    }
    let positions = decode_vec3_f32(buffers, &pos);
    let normals = decode_vec3_f32(buffers, &nor);
    let tex_coords = decode_vec2_f32(buffers, &tex);
    let prim = Primitive::new(positions, normals, tex_coords, inds);
    Ok((prim, mi))
}

/// What the first `n` primitive definitions of a mesh import to, or the
/// first violation among them.
pub open spec fn spec_import_prims(
    buffers: Seq<Vec<u8>>,
    n_materials: int,
    prims: Seq<PrimitiveDef>,
    n: int,
) -> Result<(Seq<PrimitiveView>, Seq<usize>), ImportError>
    decreases n,
{
    if n <= 0 {
        Ok((Seq::empty(), Seq::empty()))
    } else {
        match spec_import_prims(buffers, n_materials, prims, n - 1) {
            Err(e) => Err(e),
            Ok((vs, ms)) => match spec_import_prim(buffers, n_materials, prims[n - 1]) {
                Err(e) => Err(e),
                Ok((v, mi)) => Ok((vs.push(v), ms.push(mi))),
            },
        }
    }
}

/// Once the primitive fold has failed, it stays failed.
proof fn lemma_import_prims_err(
    buffers: Seq<Vec<u8>>,
    n_materials: int,
    prims: Seq<PrimitiveDef>,
    i: int,
    n: int,
)
    requires
        0 <= i <= n,
        spec_import_prims(buffers, n_materials, prims, i) is Err,
    ensures
        spec_import_prims(buffers, n_materials, prims, n) == spec_import_prims(
            buffers,
            n_materials,
            prims,
            i,
        ),
    decreases n - i,
{
    if i < n {
        lemma_import_prims_err(buffers, n_materials, prims, i, n - 1);
    }
}

/// Imports one mesh definition: one decoded primitive per source primitive,
/// plus the per-primitive material indices recorded for the node list.
fn import_mesh(buffers: &Vec<Vec<u8>>, n_materials: usize, m: &MeshDef) -> (r: Result<
    (Mesh, Vec<usize>),
    ImportError,
>)
    ensures
        match r {
            Ok((mesh, mats)) => spec_import_prims(
                buffers@,
                n_materials as int,
                m.primitives@,
                m.primitives@.len() as int,
            ) == Ok::<_, ImportError>((mesh@.primitives, mats@)) && mesh@.wf()
                && mats@.len() == mesh@.primitives.len(),
            Err(e) => spec_import_prims(
                buffers@,
                n_materials as int,
                m.primitives@,
                m.primitives@.len() as int,
            ) == Err::<(Seq<PrimitiveView>, Seq<usize>), _>(e),
        },
{
    let mut prims: Vec<Primitive> = Vec::new();
    let mut mats: Vec<usize> = Vec::new();
    let mut i: usize = 0;
    proof {
        assert(prim_views(prims@) =~= Seq::<PrimitiveView>::empty());
        assert(mats@ =~= Seq::<usize>::empty());
    }
    while i < m.primitives.len()
        invariant
            i <= m.primitives.len(),
            mats@.len() == prims@.len(),
            spec_import_prims(buffers@, n_materials as int, m.primitives@, i as int) == Ok::<
                _,
                ImportError,
            >((prim_views(prims@), mats@)),
            forall|j: int| 0 <= j < prims@.len() ==> (#[trigger] prims@[j])@.wf(),
        decreases m.primitives.len() - i,
    {
        let ghost prims0 = prims@;
        match import_prim(buffers, n_materials, &m.primitives[i]) {
            Err(e) => {
                proof {
                    lemma_import_prims_err(
                        buffers@,
                        n_materials as int,
                        m.primitives@,
                        i as int + 1,
                        m.primitives@.len() as int,
                    );
                }
                return Err(e);
            },
            Ok((prim, mi)) => {
                prims.push(prim);
                mats.push(mi);
                proof {
                    assert(prim_views(prims@) =~= prim_views(prims0).push(prim@));
                }
            },
        }
        i = i + 1;
    }
    let mesh = Mesh { primitives: prims };
    proof {
        assert(mesh@.primitives =~= prim_views(mesh.primitives@));
    }
    Ok((mesh, mats))
}

/// The contents of a primitive table.
pub open spec fn prim_views(s: Seq<Primitive>) -> Seq<PrimitiveView> {
    Seq::new(s.len(), |i: int| s[i]@)
}

/// The contents of a mesh table.
pub open spec fn mesh_views(s: Seq<Mesh>) -> Seq<MeshView> {
    Seq::new(s.len(), |i: int| s[i]@)
}

/// The contents of a per-mesh material-index table.
pub open spec fn usize_list_views(s: Seq<Vec<usize>>) -> Seq<Seq<usize>> {
    Seq::new(s.len(), |i: int| s[i]@)
}

/// What the first `n` mesh definitions import to: the mesh table and, per
/// mesh, the material indices its primitives declared.
pub open spec fn spec_import_meshes(
    buffers: Seq<Vec<u8>>,
    n_materials: int,
    meshes: Seq<MeshDef>,
    n: int,
) -> Result<(Seq<MeshView>, Seq<Seq<usize>>), ImportError>
    decreases n,
{
    if n <= 0 {
        Ok((Seq::empty(), Seq::empty()))
    } else {
        match spec_import_meshes(buffers, n_materials, meshes, n - 1) {
            Err(e) => Err(e),
            Ok((ms, idx)) => match spec_import_prims(
                buffers,
                n_materials,
                meshes[n - 1].primitives@,
                meshes[n - 1].primitives@.len() as int,
            ) {
                Err(e) => Err(e),
                Ok((vs, mats)) => Ok((ms.push(MeshView { primitives: vs }), idx.push(mats))),
            },
        }
    }
}

/// Once the mesh fold has failed, it stays failed.
proof fn lemma_import_meshes_err(
    buffers: Seq<Vec<u8>>,
    n_materials: int,
    meshes: Seq<MeshDef>,
    i: int,
    n: int,
)
    requires
        0 <= i <= n,
        spec_import_meshes(buffers, n_materials, meshes, i) is Err,
    ensures
        spec_import_meshes(buffers, n_materials, meshes, n) == spec_import_meshes(
            buffers,
            n_materials,
            meshes,
            i,
        ),
    decreases n - i,
{
    if i < n {
        lemma_import_meshes_err(buffers, n_materials, meshes, i, n - 1);
    }
}

/// Imports every mesh definition.
fn import_meshes(buffers: &Vec<Vec<u8>>, n_materials: usize, meshes: &Vec<MeshDef>) -> (r: Result<
    (Vec<Mesh>, Vec<Vec<usize>>),
    ImportError,
>)
    ensures
        match r {
            Ok((ms, idx)) => spec_import_meshes(
                buffers@,
                n_materials as int,
                meshes@,
                meshes@.len() as int,
            ) == Ok::<_, ImportError>((mesh_views(ms@), usize_list_views(idx@))) && (forall|j: int|
                0 <= j < ms@.len() ==> (#[trigger] ms@[j])@.wf()) && idx@.len() == ms@.len() && (
            forall|j: int|
                0 <= j < ms@.len() ==> (#[trigger] idx@[j])@.len() == ms@[j]@.primitives.len()),
            Err(e) => spec_import_meshes(
                buffers@,
                n_materials as int,
                meshes@,
                meshes@.len() as int,
            ) == Err::<(Seq<MeshView>, Seq<Seq<usize>>), _>(e),
        },
{
    let mut ms: Vec<Mesh> = Vec::new();
    let mut idx: Vec<Vec<usize>> = Vec::new();
    let mut i: usize = 0;
    proof {
        assert(mesh_views(ms@) =~= Seq::<MeshView>::empty());
        assert(usize_list_views(idx@) =~= Seq::<Seq<usize>>::empty());
    }
    while i < meshes.len()
        invariant
            i <= meshes.len(),
            idx@.len() == ms@.len(),
            spec_import_meshes(buffers@, n_materials as int, meshes@, i as int) == Ok::<
                _,
                ImportError,
            >((mesh_views(ms@), usize_list_views(idx@))),
            forall|j: int| 0 <= j < ms@.len() ==> (#[trigger] ms@[j])@.wf(),
            forall|j: int|
                0 <= j < ms@.len() ==> (#[trigger] idx@[j])@.len() == ms@[j]@.primitives.len(),
        decreases meshes.len() - i,
    {
        let ghost ms0 = ms@;
        let ghost idx0 = idx@;
        match import_mesh(buffers, n_materials, &meshes[i]) {
            Err(e) => {
                proof {
                    lemma_import_meshes_err(
                        buffers@,
                        n_materials as int,
                        meshes@,
                        i as int + 1,
                        meshes@.len() as int,
                    );
                }
                return Err(e);
            },
            Ok((mesh, mats)) => {
                ms.push(mesh);
                idx.push(mats);
                proof {
                    assert(mesh_views(ms@) =~= mesh_views(ms0).push(ms@[ms0.len() as int]@));
                    assert(usize_list_views(idx@) =~= usize_list_views(idx0).push(
                        idx@[idx0.len() as int]@,
                    ));
                }
            },
        }
        i = i + 1;
    }
    Ok((ms, idx))
}

// ---------------------------------------------------------------------------
// Node validation and the whole document
// ---------------------------------------------------------------------------

/// The rejection, if any, of one scene-graph node: a dangling mesh
/// reference, or a child index the document lacks.
pub open spec fn spec_check_node(d: NodeDef, n_meshes: int, n_nodes: int) -> Option<ImportError> {
    if d.mesh is Some && d.mesh.unwrap() >= n_meshes {
        Some(ImportError::BadMeshRef)
    } else if exists|j: int| 0 <= j < d.children@.len() && d.children@[j] >= n_nodes {
        Some(ImportError::BadNodeRef)
    } else {
        None
    }
}

/// The first rejection among the first `n` scene-graph nodes.
pub open spec fn spec_check_nodes(nodes: Seq<NodeDef>, n_meshes: int, n: int) -> Option<
    ImportError,
>
    decreases n,
{
    if n <= 0 {
        None
    } else {
        match spec_check_nodes(nodes, n_meshes, n - 1) {
            Some(e) => Some(e),
            None => spec_check_node(nodes[n - 1], n_meshes, nodes.len() as int),
        }
    }
}

/// The rejection, if any, of the default scene's root list.
pub open spec fn spec_check_roots(roots: Seq<usize>, n_nodes: int) -> Option<ImportError> {
    if exists|j: int| 0 <= j < roots.len() && roots[j] >= n_nodes {
        Some(ImportError::BadNodeRef)
    } else {
        None
    }
}

/// Once the node check has failed, it stays failed.
proof fn lemma_check_nodes_err(nodes: Seq<NodeDef>, n_meshes: int, i: int, n: int)
    requires
        0 <= i <= n,
        spec_check_nodes(nodes, n_meshes, i) is Some,
    ensures
        spec_check_nodes(nodes, n_meshes, n) == spec_check_nodes(nodes, n_meshes, i),
    decreases n - i,
{
    if i < n {
        lemma_check_nodes_err(nodes, n_meshes, i, n - 1);
    }
}

/// Whether every value of `v` is below `bound`.
fn all_refs_below(v: &Vec<usize>, bound: usize) -> (r: bool)
    ensures
        r == forall|j: int| 0 <= j < v@.len() ==> v@[j] < bound,
{
    let mut k: usize = 0;
    let mut ok = true;
    while k < v.len()
        invariant
            k <= v.len(),
            ok == forall|j: int| 0 <= j < k ==> v@[j] < bound,
        decreases v.len() - k,
    {
        let below = v[k] < bound;
        ok = ok && below;
        k = k + 1;
    }
    ok
}

/// Validates every scene-graph node's references, as `spec_check_nodes`
/// describes.
fn check_nodes(nodes: &Vec<NodeDef>, n_meshes: usize) -> (r: Option<ImportError>)
    ensures
        r == spec_check_nodes(nodes@, n_meshes as int, nodes@.len() as int),
{
    let mut i: usize = 0;
    while i < nodes.len()
        invariant
            i <= nodes.len(),
            spec_check_nodes(nodes@, n_meshes as int, i as int) is None,
        decreases nodes.len() - i,
    {
        let bad_mesh = match nodes[i].mesh {
            Some(m) => m >= n_meshes,
            None => false,
        };
        if bad_mesh {
            proof {
                lemma_check_nodes_err(nodes@, n_meshes as int, i as int + 1, nodes@.len() as int);
            }
            return Some(ImportError::BadMeshRef);
        }
        if !all_refs_below(&nodes[i].children, nodes.len()) {
            proof {
                lemma_check_nodes_err(nodes@, n_meshes as int, i as int + 1, nodes@.len() as int);
            }
            return Some(ImportError::BadNodeRef);
        }
        i = i + 1;
    }
    None
}

/// What a whole document imports to: the flat asset storage (with an empty
/// program table, filled by the world's constructor) and the flattened node
/// list, or the format violation that aborts the import.
pub open spec fn import_spec(doc: SceneDoc) -> Result<
    (crate::render::AssetStorageView, Seq<crate::render::NodeView>),
    ImportError,
> {
    if doc.declared_buffers != doc.buffers@.len() {
        Err(ImportError::BufferCountMismatch)
    } else if doc.declared_images != doc.images@.len() {
        Err(ImportError::ImageCountMismatch)
    } else {
        match doc.scene {
            None => Err(ImportError::MissingScene),
            Some(roots) => match spec_import_meshes(
                doc.buffers@,
                doc.materials@.len() as int,
                doc.meshes@,
                doc.meshes@.len() as int,
            ) {
                Err(e) => Err(e),
                Ok((meshes, mat_idx)) => match spec_import_materials(
                    doc.images@,
                    doc.materials@,
                    doc.materials@.len() as int,
                ) {
                    Err(e) => Err(e),
                    Ok((materials, textures)) => match spec_check_nodes(
                        doc.nodes@,
                        doc.meshes@.len() as int,
                        doc.nodes@.len() as int,
                    ) {
                        Some(e) => Err(e),
                        None => match spec_check_roots(roots@, doc.nodes@.len() as int) {
                            Some(e) => Err(e),
                            None => Ok(
                                (
                                    crate::render::AssetStorageView {
                                        meshes,
                                        materials,
                                        textures2d: textures,
                                        programs: Seq::empty(),
                                    },
                                    crate::flatten::spec_flatten(doc.nodes@, mat_idx, roots@),
                                ),
                            ),
                        },
                    },
                },
            },
        }
    }
}

/// Imports a decoded scene document into `(AssetStorage, Vec<Node>)`,
/// exactly as `import_spec` describes.  No partial scene is ever returned:
/// the first format violation aborts the import.
pub fn read_from_document(doc: &SceneDoc) -> (r: Result<
    (crate::render::AssetStorage, Vec<crate::render::Node>),
    ImportError,
>)
    ensures
        match r {
            Ok((storage, nodes)) => import_spec(*doc) == Ok::<_, ImportError>(
                (storage@, crate::render::node_views(nodes@)),
            ),
            Err(e) => import_spec(*doc) == Err::<
                (crate::render::AssetStorageView, Seq<crate::render::NodeView>),
                _,
            >(e),
        },
{
    if doc.declared_buffers != doc.buffers.len() {
        return Err(ImportError::BufferCountMismatch);
    }
    if doc.declared_images != doc.images.len() {
        return Err(ImportError::ImageCountMismatch);
    }
    let roots = match &doc.scene {
        None => {
            return Err(ImportError::MissingScene);
        },
        Some(r) => r,
    };
    let (meshes, mat_idx) = match import_meshes(&doc.buffers, doc.materials.len(), &doc.meshes) {
        Ok(x) => x,
        Err(e) => {
            return Err(e);
        },
    };
    let (materials, textures) = match import_materials(&doc.images, &doc.materials) {
        Ok(x) => x,
        Err(e) => {
            return Err(e);
        },
    };
    match check_nodes(&doc.nodes, doc.meshes.len()) {
        Some(e) => {
            return Err(e);
        },
        None => {},
    }
    if !all_refs_below(roots, doc.nodes.len()) {
        return Err(ImportError::BadNodeRef);
    }
    let nodes = crate::flatten::flatten_nodes(&doc.nodes, &mat_idx, roots);
    let storage = crate::render::AssetStorage {
        meshes,
        materials,
        textures2d: textures,
        programs: Vec::new(),
    };
    proof {
        assert(storage@.programs =~= Seq::<crate::shader::Program>::empty());
    }
    Ok((storage, nodes))
}

// ---------------------------------------------------------------------------
// Laws
// ---------------------------------------------------------------------------

/// Law: index widening.  An accessor declared with 16-bit indices decodes
/// to 32-bit values equal to its little-endian 16-bit words, in source
/// order, each below two to the sixteenth.
pub proof fn lemma_index_widening(b: Seq<u8>, acc: AccessorDef)
    requires
        acc.component == ComponentType::U16,
    ensures
        decoded_indices(b, acc).len() == acc.count,
        forall|i: int|
            0 <= i < acc.count ==> decoded_indices(b, acc)[i] == le16(
                b,
                acc.spec_base() + i * 2,
            ) as u32,
        forall|i: int| 0 <= i < acc.count ==> decoded_indices(b, acc)[i] < 0x10000,
{
}

/// A successful primitive fold yields one primitive view and one material
/// index per definition.
proof fn lemma_import_prims_len(
    buffers: Seq<Vec<u8>>,
    n_materials: int,
    prims: Seq<PrimitiveDef>,
    n: int,
)
    requires
        0 <= n,
        spec_import_prims(buffers, n_materials, prims, n) is Ok,
    ensures
        spec_import_prims(buffers, n_materials, prims, n).unwrap().0.len() == n,
        spec_import_prims(buffers, n_materials, prims, n).unwrap().1.len() == n,
    decreases n,
{
    if n > 0 {
        lemma_import_prims_len(buffers, n_materials, prims, n - 1);
    }
}

/// A successful mesh fold yields, for every mesh, exactly one recorded
/// material index per imported primitive.
pub proof fn lemma_import_meshes_shape(
    buffers: Seq<Vec<u8>>,
    n_materials: int,
    meshes: Seq<MeshDef>,
    n: int,
)
    requires
        0 <= n,
        spec_import_meshes(buffers, n_materials, meshes, n) is Ok,
    ensures
        spec_import_meshes(buffers, n_materials, meshes, n).unwrap().0.len() == n,
        spec_import_meshes(buffers, n_materials, meshes, n).unwrap().1.len() == n,
        forall|m: int|
            0 <= m < n ==> (#[trigger] spec_import_meshes(
                buffers,
                n_materials,
                meshes,
                n,
            ).unwrap().1[m]).len() == spec_import_meshes(
                buffers,
                n_materials,
                meshes,
                n,
            ).unwrap().0[m].primitives.len(),
    decreases n,
{
    if n > 0 {
        lemma_import_meshes_shape(buffers, n_materials, meshes, n - 1);
        lemma_import_prims_len(
            buffers,
            n_materials,
            meshes[n - 1].primitives@,
            meshes[n - 1].primitives@.len() as int,
        );
    }
}

/// A successfully imported primitive is well formed and its material index
/// exists.
proof fn lemma_import_prim_ok(buffers: Seq<Vec<u8>>, n_materials: int, p: PrimitiveDef)
    requires
        spec_import_prim(buffers, n_materials, p) is Ok,
    ensures
        spec_import_prim(buffers, n_materials, p).unwrap().0.wf(),
        spec_import_prim(buffers, n_materials, p).unwrap().1 < n_materials,
{
}

/// Every primitive of a successful fold is well formed and every recorded
/// material index exists.
proof fn lemma_import_prims_ok(
    buffers: Seq<Vec<u8>>,
    n_materials: int,
    prims: Seq<PrimitiveDef>,
    n: int,
)
    requires
        0 <= n,
        spec_import_prims(buffers, n_materials, prims, n) is Ok,
    ensures
        forall|j: int|
            0 <= j < spec_import_prims(buffers, n_materials, prims, n).unwrap().0.len() ==> (
            #[trigger] spec_import_prims(buffers, n_materials, prims, n).unwrap().0[j]).wf(),
        forall|j: int|
            0 <= j < spec_import_prims(buffers, n_materials, prims, n).unwrap().1.len() ==> (
            #[trigger] spec_import_prims(buffers, n_materials, prims, n).unwrap().1[j])
                < n_materials,
    decreases n,
{
    if n > 0 {
        lemma_import_prims_ok(buffers, n_materials, prims, n - 1);
        lemma_import_prim_ok(buffers, n_materials, prims[n - 1]);
    }
}

/// Every mesh of a successful fold is well formed and every recorded
/// material index exists.
pub proof fn lemma_import_meshes_ok(
    buffers: Seq<Vec<u8>>,
    n_materials: int,
    meshes: Seq<MeshDef>,
    n: int,
)
    requires
        0 <= n,
        spec_import_meshes(buffers, n_materials, meshes, n) is Ok,
    ensures
        forall|m: int|
            0 <= m < spec_import_meshes(buffers, n_materials, meshes, n).unwrap().0.len() ==> (
            #[trigger] spec_import_meshes(buffers, n_materials, meshes, n).unwrap().0[m]).wf(),
        forall|m: int, j: int|
            0 <= m < spec_import_meshes(buffers, n_materials, meshes, n).unwrap().1.len() && 0 <= j
                < spec_import_meshes(buffers, n_materials, meshes, n).unwrap().1[m].len() ==> (
            #[trigger] spec_import_meshes(buffers, n_materials, meshes, n).unwrap().1[m][j])
                < n_materials,
    decreases n,
{
    if n > 0 {
        lemma_import_meshes_ok(buffers, n_materials, meshes, n - 1);
        lemma_import_prims_ok(
            buffers,
            n_materials,
            meshes[n - 1].primitives@,
            meshes[n - 1].primitives@.len() as int,
        );
    }
}

/// Every material of a successful fold starts unresolved, keeps the default
/// base color, and references only textures the fold itself appended.
pub proof fn lemma_import_materials_ok(images: Seq<ImageDef>, defs: Seq<MaterialDef>, n: int)
    requires
        0 <= n,
        spec_import_materials(images, defs, n) is Ok,
    ensures
        forall|k: int|
            0 <= k < spec_import_materials(images, defs, n).unwrap().0.len()
                ==> ((#[trigger] spec_import_materials(images, defs, n).unwrap().0[k]).shader
                is None && spec_import_materials(images, defs, n).unwrap().0[k].base_color is Some
                && (spec_import_materials(images, defs, n).unwrap().0[k].albedo is Some
                ==> spec_import_materials(images, defs, n).unwrap().0[k].albedo.unwrap()
                < spec_import_materials(images, defs, n).unwrap().1.len())),
    decreases n,
{
    if n > 0 {
        lemma_import_materials_ok(images, defs, n - 1);
    }
}

/// A successful material fold yields one material per definition.
pub proof fn lemma_import_materials_len(images: Seq<ImageDef>, defs: Seq<MaterialDef>, n: int)
    requires
        0 <= n,
        spec_import_materials(images, defs, n) is Ok,
    ensures
        spec_import_materials(images, defs, n).unwrap().0.len() == n,
    decreases n,
{
    if n > 0 {
        lemma_import_materials_len(images, defs, n - 1);
    }
}

/// Every material index a successful import records on a node names a
/// material of the storage.
pub proof fn lemma_node_material_refs(
    doc: SceneDoc,
    storage: crate::render::AssetStorageView,
    nodes: Seq<crate::render::NodeView>,
)
    requires
        import_spec(doc) == Ok::<_, ImportError>((storage, nodes)),
    ensures
        forall|k: int, j: int|
            0 <= k < nodes.len() && 0 <= j < nodes[k].materials.len() ==> (
            #[trigger] nodes[k].materials[j]) < storage.materials.len(),
{
    let roots = doc.scene.unwrap();
    let nmat = doc.materials@.len() as int;
    let folded = spec_import_meshes(doc.buffers@, nmat, doc.meshes@, doc.meshes@.len() as int);
    let mat_idx = folded.unwrap().1;
    lemma_import_meshes_shape(doc.buffers@, nmat, doc.meshes@, doc.meshes@.len() as int);
    lemma_import_meshes_ok(doc.buffers@, nmat, doc.meshes@, doc.meshes@.len() as int);
    lemma_import_materials_len(doc.images@, doc.materials@, nmat);
    crate::flatten::lemma_flatten_all_ok(
        doc.nodes@,
        mat_idx,
        crate::flatten::root_stack(roots@),
        Seq::new(doc.nodes@.len(), |i: int| false),
        Seq::empty(),
    );
}

/// Law: the node/mesh material-count invariant.  Every node a successful
/// import emits references an existing mesh and carries exactly one
/// material index per primitive of that mesh.
pub proof fn lemma_node_material_counts(
    doc: SceneDoc,
    storage: crate::render::AssetStorageView,
    nodes: Seq<crate::render::NodeView>,
)
    requires
        import_spec(doc) == Ok::<_, ImportError>((storage, nodes)),
    ensures
        forall|k: int|
            0 <= k < nodes.len() ==> 0 <= (#[trigger] nodes[k]).mesh < storage.meshes.len()
                && nodes[k].materials.len() == storage.meshes[nodes[k].mesh].primitives.len(),
{
    let roots = doc.scene.unwrap();
    let folded = spec_import_meshes(
        doc.buffers@,
        doc.materials@.len() as int,
        doc.meshes@,
        doc.meshes@.len() as int,
    );
    let mat_idx = folded.unwrap().1;
    lemma_import_meshes_shape(
        doc.buffers@,
        doc.materials@.len() as int,
        doc.meshes@,
        doc.meshes@.len() as int,
    );
    crate::flatten::lemma_flatten_all_ok(
        doc.nodes@,
        mat_idx,
        crate::flatten::root_stack(roots@),
        Seq::new(doc.nodes@.len(), |i: int| false),
        Seq::empty(),
    );
}

} // verus!

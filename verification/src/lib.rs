//! A scene-graph-to-GPU-resource pipeline for a small real-time 3-D viewer.
//!
//! The library covers the data side of the viewer: importing a hierarchical
//! scene description into a flat asset table plus a world-space node list,
//! resolving materials to shader variants, planning the per-frame draw calls,
//! and the first-person camera's update rules.  Vertex data and matrices are
//! carried as raw 32-bit words (IEEE-754 bit patterns) and angles as
//! fixed-point microradians; floating-point arithmetic and all device calls
//! live at the application layer, which executes the plans the library
//! computes.

use vstd::prelude::*;

mod mat;
mod buffer;
mod shader;
mod texture;
mod material;
mod mesh;
mod gltf;
mod flatten;
mod camera;
mod render;
mod model;

pub use mat::Mat4;
pub use mat::Vec3Bits;
pub use mat::Vec2Bits;
pub use buffer::BufferType;
pub use buffer::DrawType;
pub use buffer::ObjectType;
pub use shader::Shader;
pub use shader::Program;
pub use shader::POSITION_LOCATION;
pub use shader::NORMAL_LOCATION;
pub use shader::TEXTURE_LOCATION;
pub use shader::ALBEDO_TEX;
pub use shader::NORMAL_MAP_TEX;
pub use texture::Texture2D;
pub use texture::Texture2DView;
pub use texture::WrapMode;
pub use texture::MagFilter;
pub use texture::MinFilter;
pub use texture::ImageFormat;
pub use material::Material;
pub use mesh::Primitive;
pub use mesh::PrimitiveView;
pub use mesh::Mesh;
pub use mesh::MeshView;
pub use gltf::AccessorDef;
pub use gltf::ComponentType;
pub use gltf::ElementKind;
pub use gltf::PrimitiveDef;
pub use gltf::MeshDef;
pub use gltf::SamplerDef;
pub use gltf::TextureDef;
pub use gltf::MaterialDef;
pub use gltf::ImageDef;
pub use gltf::NodeDef;
pub use gltf::SceneDoc;
pub use gltf::ImportError;
pub use gltf::read_from_document;
pub use gltf::import_spec;
pub use flatten::flatten_nodes;
pub use flatten::spec_flatten;
pub use render::AssetStorage;
pub use render::AssetStorageView;
pub use render::Node;
pub use render::NodeView;
pub use camera::Camera;
pub use camera::CameraMove;
pub use render::World;
pub use render::FramePlan;
pub use render::DrawCmd;
pub use render::ColorSource;
pub use model::Model;
pub use model::Instance;

pub use gltf::lemma_index_widening;
pub use gltf::lemma_node_material_counts;
pub use gltf::lemma_node_material_refs;
pub use flatten::lemma_transform_composition;
pub use render::lemma_viewport_pixel_budget;
pub use camera::lemma_yaw_wrap_pitch_clamp;

pub use camera::TWO_PI_URAD;
pub use camera::PITCH_BOUND_URAD;
pub use camera::MOUSE_DELTA_MAX;
pub use render::BASE_RENDER_WIDTH;
pub use render::BASE_RENDER_HEIGHT;
pub use render::BASE_PIXEL_COUNT;
pub use render::FRAME_DELTA_MAX_MICROS;

verus! {

/// One frame's input snapshot: six movement keys, a speed-modifier flag,
/// the absolute mouse position and the mouse motion since the last frame.
#[derive(Debug)]
pub struct InputState {
    pub w: bool,
    pub a: bool,
    pub s: bool,
    pub d: bool,
    pub e: bool,
    pub q: bool,

    pub shift: bool,

    pub mouse_pos: (i32, i32),
    pub mouse_rel: (i32, i32),
}

impl Default for InputState {
    /// The idle snapshot: no key held, the mouse at the origin and at rest.
    fn default() -> (r: Self)
        ensures
            !r.w && !r.a && !r.s && !r.d && !r.e && !r.q && !r.shift,
            r.mouse_pos == (0i32, 0i32),
            r.mouse_rel == (0i32, 0i32),
    {
        InputState {
            w: false,
            a: false,
            s: false,
            d: false,
            e: false,
            q: false,
            shift: false,
            mouse_pos: (0, 0),
            mouse_rel: (0, 0),
        }
    }
}

} // verus!

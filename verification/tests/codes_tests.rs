use renderer::{
    BufferType, DrawType, ImageFormat, InputState, MagFilter, Material, Mesh, MinFilter, Model,
    ObjectType, Program, Texture2D, Vec3Bits, WrapMode,
};

#[test]
fn buffer_type_codes_match_the_device_registry() {
    assert_eq!(BufferType::Array.as_gl_enum(), gl::ARRAY_BUFFER);
    assert_eq!(BufferType::ElementArray.as_gl_enum(), gl::ELEMENT_ARRAY_BUFFER);
    assert_eq!(BufferType::Texture.as_gl_enum(), gl::TEXTURE_BUFFER);
}

#[test]
fn draw_type_codes_match_the_device_registry() {
    assert_eq!(DrawType::Stream.as_gl_enum(), gl::STREAM_DRAW);
    assert_eq!(DrawType::Static.as_gl_enum(), gl::STATIC_DRAW);
    assert_eq!(DrawType::Dynamic.as_gl_enum(), gl::DYNAMIC_DRAW);
}

#[test]
fn object_type_codes_match_the_device_registry() {
    assert_eq!(ObjectType::Float.as_gl_enum(), gl::FLOAT);
    assert_eq!(ObjectType::Int.as_gl_enum(), gl::INT);
}

#[test]
fn wrap_codes_match_the_interchange_format() {
    assert_eq!(
        WrapMode::ClampToEdge.as_gl_enum(),
        gltf::texture::WrappingMode::ClampToEdge.as_gl_enum()
    );
    assert_eq!(
        WrapMode::MirroredRepeat.as_gl_enum(),
        gltf::texture::WrappingMode::MirroredRepeat.as_gl_enum()
    );
    assert_eq!(WrapMode::Repeat.as_gl_enum(), gltf::texture::WrappingMode::Repeat.as_gl_enum());
    assert_eq!(WrapMode::Repeat.as_gl_enum(), gl::REPEAT);
}

#[test]
fn filter_codes_match_the_interchange_format() {
    assert_eq!(MagFilter::Nearest.as_gl_enum(), gltf::texture::MagFilter::Nearest.as_gl_enum());
    assert_eq!(MagFilter::Linear.as_gl_enum(), gltf::texture::MagFilter::Linear.as_gl_enum());
    assert_eq!(MinFilter::Nearest.as_gl_enum(), gltf::texture::MinFilter::Nearest.as_gl_enum());
    assert_eq!(MinFilter::Linear.as_gl_enum(), gltf::texture::MinFilter::Linear.as_gl_enum());
    assert_eq!(
        MinFilter::NearestMipmapNearest.as_gl_enum(),
        gltf::texture::MinFilter::NearestMipmapNearest.as_gl_enum()
    );
    assert_eq!(
        MinFilter::LinearMipmapNearest.as_gl_enum(),
        gltf::texture::MinFilter::LinearMipmapNearest.as_gl_enum()
    );
    assert_eq!(
        MinFilter::NearestMipmapLinear.as_gl_enum(),
        gltf::texture::MinFilter::NearestMipmapLinear.as_gl_enum()
    );
    assert_eq!(
        MinFilter::LinearMipmapLinear.as_gl_enum(),
        gltf::texture::MinFilter::LinearMipmapLinear.as_gl_enum()
    );
}

#[test]
fn image_format_codes_match_the_device_registry() {
    assert_eq!(ImageFormat::R8.as_gl_enums(), (gl::R8, gl::UNSIGNED_BYTE));
    assert_eq!(ImageFormat::R8G8.as_gl_enums(), (gl::RG, gl::UNSIGNED_BYTE));
    assert_eq!(ImageFormat::R8G8B8.as_gl_enums(), (gl::RGB, gl::UNSIGNED_BYTE));
    assert_eq!(ImageFormat::R8G8B8A8.as_gl_enums(), (gl::RGBA, gl::UNSIGNED_BYTE));
    assert_eq!(ImageFormat::B8G8R8.as_gl_enums(), (gl::BGR, gl::UNSIGNED_BYTE));
    assert_eq!(ImageFormat::B8G8R8A8.as_gl_enums(), (gl::BGRA, gl::UNSIGNED_BYTE));
    assert_eq!(ImageFormat::R16.as_gl_enums(), (gl::R16, gl::UNSIGNED_SHORT));
    assert_eq!(ImageFormat::R16G16.as_gl_enums(), (gl::RG16, gl::UNSIGNED_SHORT));
    assert_eq!(ImageFormat::R16G16B16.as_gl_enums(), (gl::RGB16, gl::UNSIGNED_SHORT));
    assert_eq!(ImageFormat::R16G16B16A16.as_gl_enums(), (gl::RGBA16, gl::UNSIGNED_SHORT));
}

#[test]
fn mipmaps_follow_the_filter_rule() {
    let tex = |mag: u32, min: u32| Texture2D::new(
        gl::REPEAT,
        gl::REPEAT,
        mag,
        min,
        None,
        gl::RGBA,
        gl::UNSIGNED_BYTE,
        (4, 4),
    );
    assert!(!tex(gl::NEAREST, gl::NEAREST).needs_mipmaps());
    assert!(tex(gl::LINEAR, gl::NEAREST).needs_mipmaps());
    assert!(tex(gl::NEAREST, gl::LINEAR).needs_mipmaps());
    assert!(tex(gl::LINEAR, gl::LINEAR_MIPMAP_LINEAR).needs_mipmaps());
}

#[test]
fn default_material_keeps_a_flat_base_color() {
    let m = Material::default();
    assert_eq!(m.shader, None);
    assert_eq!(m.albedo, None);
    assert_eq!(
        m.base_color,
        Some(Vec3Bits { x: 0.5f32.to_bits(), y: 0.0f32.to_bits(), z: 0.2f32.to_bits() })
    );
}

#[test]
fn default_cube_mesh_shape() {
    let mesh = Mesh::default();
    assert_eq!(mesh.primitives.len(), 1);
    let prim = &mesh.primitives[0];
    assert_eq!(prim.positions.len(), 8);
    assert_eq!(prim.normals.len(), 8);
    assert_eq!(prim.tex_coords.len(), 8);
    assert_eq!(prim.indices.len(), 36);
    assert_eq!(
        prim.indices,
        vec![
            0, 2, 1, 0, 2, 3, 0, 5, 4, 0, 5, 1, 0, 7, 3, 0, 7, 4, //
            6, 3, 2, 6, 3, 7, 6, 1, 2, 6, 1, 5, 6, 4, 7, 6, 4, 5,
        ]
    );
    for &i in &prim.indices {
        assert!((i as usize) < prim.positions.len());
    }
    assert_eq!(prim.positions[0].x, 0.5f32.to_bits());
    assert_eq!(prim.positions[6].z, (-0.5f32).to_bits());
    assert_eq!(prim.normals[0].x, 1.0f32.to_bits());
}

#[test]
fn model_render_lists_every_primitive_count() {
    let model = Model {
        meshes: vec![Mesh::default(), Mesh::default()],
        materials: vec![Material::default()],
        program: Program(3),
    };
    assert_eq!(model.render(), vec![36, 36]);
}

#[test]
fn default_input_is_idle() {
    let input = InputState::default();
    assert!(!input.w && !input.a && !input.s && !input.d && !input.e && !input.q);
    assert!(!input.shift);
    assert_eq!(input.mouse_pos, (0, 0));
    assert_eq!(input.mouse_rel, (0, 0));
}

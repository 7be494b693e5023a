use renderer::{
    AccessorDef, ComponentType, ElementKind, ImageDef, ImageFormat, ImportError, MagFilter, Mat4,
    MaterialDef, MeshDef, NodeDef, PrimitiveDef, SamplerDef, SceneDoc, TextureDef, WrapMode,
    read_from_document,
};

fn f32s_to_bytes(vals: &[f32]) -> Vec<u8> {
    let mut out = Vec::new();
    for v in vals {
        out.extend_from_slice(&v.to_bits().to_le_bytes());
    }
    out
}

fn u16s_to_bytes(vals: &[u16]) -> Vec<u8> {
    let mut out = Vec::new();
    for v in vals {
        out.extend_from_slice(&v.to_le_bytes());
    }
    out
}

fn u32s_to_bytes(vals: &[u32]) -> Vec<u8> {
    let mut out = Vec::new();
    for v in vals {
        out.extend_from_slice(&v.to_le_bytes());
    }
    out
}

fn acc(
    view_offset: usize,
    view_length: usize,
    count: usize,
    component: ComponentType,
    kind: ElementKind,
) -> AccessorDef {
    AccessorDef {
        buffer: 0,
        view_offset,
        view_length,
        view_stride: None,
        offset: 0,
        count,
        component,
        kind,
    }
}

fn mat_from_cgmath(m: &cgmath::Matrix4<f32>) -> Mat4 {
    let a: &[f32; 16] = m.as_ref();
    Mat4::new(a.map(f32::to_bits))
}

fn mat_to_cgmath(m: &Mat4) -> cgmath::Matrix4<f32> {
    let f: [f32; 16] = m.m.map(f32::from_bits);
    *<&cgmath::Matrix4<f32>>::from(&f)
}

fn fold_chain(chain: &[Mat4]) -> cgmath::Matrix4<f32> {
    let mut it = chain.iter();
    let mut acc = mat_to_cgmath(it.next().expect("empty transform chain"));
    for m in it {
        acc = acc * mat_to_cgmath(m);
    }
    acc
}

/// A single-buffer triangle: positions, normals, texture coordinates and
/// 16-bit indices laid out back to back.
fn triangle_doc() -> SceneDoc {
    let mut buffer = Vec::new();
    buffer.extend_from_slice(&f32s_to_bytes(&[
        0.0, 0.0, 0.0, //
        1.0, 0.0, 0.0, //
        0.0, 1.0, 0.0,
    ]));
    buffer.extend_from_slice(&f32s_to_bytes(&[
        0.0, 0.0, 1.0, //
        0.0, 0.0, 1.0, //
        0.0, 0.0, 1.0,
    ]));
    buffer.extend_from_slice(&f32s_to_bytes(&[0.0, 0.0, 1.0, 0.0, 0.0, 1.0]));
    buffer.extend_from_slice(&u16s_to_bytes(&[0, 1, 2]));
    assert_eq!(buffer.len(), 102);

    SceneDoc {
        declared_buffers: 1,
        declared_images: 0,
        buffers: vec![buffer],
        images: vec![],
        meshes: vec![MeshDef {
            primitives: vec![PrimitiveDef {
                positions: Some(acc(0, 36, 3, ComponentType::F32, ElementKind::Vec3)),
                normals: Some(acc(36, 36, 3, ComponentType::F32, ElementKind::Vec3)),
                tex_coords: Some(acc(72, 24, 3, ComponentType::F32, ElementKind::Vec2)),
                indices: Some(acc(96, 6, 3, ComponentType::U16, ElementKind::Scalar)),
                material: None,
            }],
        }],
        materials: vec![MaterialDef { base_color_texture: None }],
        nodes: vec![NodeDef { mesh: Some(0), children: vec![], local: Mat4::identity() }],
        scene: Some(vec![0]),
    }
}

#[test]
fn round_trip_minimal_triangle() {
    let doc = triangle_doc();
    let (storage, nodes) = read_from_document(&doc).expect("import failed");

    assert_eq!(storage.meshes.len(), 1);
    assert_eq!(storage.meshes[0].primitives.len(), 1);
    let prim = &storage.meshes[0].primitives[0];
    assert_eq!(prim.positions.len(), 3);
    assert_eq!(prim.normals.len(), 3);
    assert_eq!(prim.tex_coords.len(), 3);
    assert_eq!(prim.indices, vec![0, 1, 2]);

    assert_eq!(storage.materials.len(), 1);
    assert_eq!(storage.materials[0].albedo, None);
    assert_eq!(storage.materials[0].shader, None);
    assert_eq!(storage.textures2d.len(), 0);
    assert_eq!(storage.programs.len(), 0);

    assert_eq!(nodes.len(), 1);
    assert_eq!(nodes[0].mesh, 0);
    assert_eq!(nodes[0].materials, vec![0]);
    assert_eq!(nodes[0].transform, vec![Mat4::identity()]);

    // the decoded vertex bits are the source floats
    assert_eq!(prim.positions[1].x, 1.0f32.to_bits());
    assert_eq!(prim.positions[2].y, 1.0f32.to_bits());
    assert_eq!(prim.tex_coords[1].x, 1.0f32.to_bits());
}

#[test]
fn index_widening_preserves_values_and_order() {
    let mut doc = triangle_doc();
    // rewrite the index stream as [2, 0, 1]
    doc.buffers[0].truncate(96);
    doc.buffers[0].extend_from_slice(&u16s_to_bytes(&[2, 0, 1]));
    let (storage, _) = read_from_document(&doc).expect("import failed");
    assert_eq!(storage.meshes[0].primitives[0].indices, vec![2u32, 0, 1]);
}

#[test]
fn thirty_two_bit_indices_pass_through() {
    let mut doc = triangle_doc();
    doc.buffers[0].truncate(96);
    doc.buffers[0].extend_from_slice(&u32s_to_bytes(&[1, 2, 0]));
    doc.meshes[0].primitives[0].indices =
        Some(acc(96, 12, 3, ComponentType::U32, ElementKind::Scalar));
    let (storage, _) = read_from_document(&doc).expect("import failed");
    assert_eq!(storage.meshes[0].primitives[0].indices, vec![1u32, 2, 0]);
}

#[test]
fn transform_composition_is_parent_times_local() {
    let mut doc = triangle_doc();
    let p = cgmath::Matrix4::from_translation(cgmath::vec3(1.0f32, 0.0, 0.0));
    let l = cgmath::Matrix4::from_translation(cgmath::vec3(0.0f32, 1.0, 0.0));
    doc.nodes = vec![
        NodeDef { mesh: Some(0), children: vec![1], local: mat_from_cgmath(&p) },
        NodeDef { mesh: Some(0), children: vec![], local: mat_from_cgmath(&l) },
    ];
    let (_, nodes) = read_from_document(&doc).expect("import failed");
    assert_eq!(nodes.len(), 2);

    // the parent is visited first; its world transform is its local one
    assert_eq!(nodes[0].transform, vec![mat_from_cgmath(&p)]);
    // the child's chain is parent-then-local
    assert_eq!(nodes[1].transform, vec![mat_from_cgmath(&p), mat_from_cgmath(&l)]);

    let world = fold_chain(&nodes[1].transform);
    let expected = p * l;
    assert_eq!(world, expected);
    let origin = world * cgmath::vec4(0.0f32, 0.0, 0.0, 1.0);
    assert_eq!(origin, cgmath::vec4(1.0f32, 1.0, 0.0, 1.0));
}

#[test]
fn shared_node_is_emitted_once() {
    let mut doc = triangle_doc();
    let p = cgmath::Matrix4::from_translation(cgmath::vec3(1.0f32, 0.0, 0.0));
    doc.nodes = vec![
        NodeDef { mesh: None, children: vec![1, 1], local: mat_from_cgmath(&p) },
        NodeDef { mesh: Some(0), children: vec![], local: Mat4::identity() },
    ];
    let (_, nodes) = read_from_document(&doc).expect("import failed");
    assert_eq!(nodes.len(), 1);
    assert_eq!(nodes[0].transform, vec![mat_from_cgmath(&p), Mat4::identity()]);
}

#[test]
fn node_material_counts_match_mesh_primitives() {
    let mut doc = triangle_doc();
    // a second primitive sharing the same accessors, with an explicit material
    let second = PrimitiveDef { material: Some(1), ..doc.meshes[0].primitives[0] };
    doc.meshes[0].primitives.push(second);
    doc.materials.push(MaterialDef { base_color_texture: None });
    let (storage, nodes) = read_from_document(&doc).expect("import failed");
    assert_eq!(storage.meshes[0].primitives.len(), 2);
    for node in &nodes {
        assert_eq!(node.materials.len(), storage.meshes[node.mesh].primitives.len());
    }
    assert_eq!(nodes[0].materials, vec![0, 1]);
}

#[test]
fn material_with_texture_gets_decoded_image() {
    let mut doc = triangle_doc();
    let pixels: Vec<u8> = (0..16).collect();
    doc.declared_images = 1;
    doc.images = vec![ImageDef {
        pixels: pixels.clone(),
        width: 2,
        height: 2,
        format: ImageFormat::R8G8B8A8,
    }];
    doc.materials = vec![MaterialDef {
        base_color_texture: Some(TextureDef {
            source: 0,
            sampler: SamplerDef {
                wrap_s: WrapMode::Repeat,
                wrap_t: WrapMode::ClampToEdge,
                mag_filter: Some(MagFilter::Nearest),
                min_filter: None,
            },
        }),
    }];
    let (storage, _) = read_from_document(&doc).expect("import failed");
    assert_eq!(storage.textures2d.len(), 1);
    assert_eq!(storage.materials[0].albedo, Some(0));
    let tex = &storage.textures2d[0];
    assert_eq!(tex.wrap_s, gl::REPEAT);
    assert_eq!(tex.wrap_t, gl::CLAMP_TO_EDGE);
    assert_eq!(tex.mag_filter, gl::NEAREST);
    // the minification filter defaults to trilinear when unspecified
    assert_eq!(tex.min_filter, gl::LINEAR_MIPMAP_LINEAR);
    assert_eq!(tex.format, gl::RGBA);
    assert_eq!(tex.gl_type, gl::UNSIGNED_BYTE);
    assert_eq!(tex.width, 2);
    assert_eq!(tex.height, 2);
    assert_eq!(tex.pixels, Some(pixels));
    assert!(tex.needs_mipmaps());
}

#[test]
fn err_buffer_count_mismatch() {
    let mut doc = triangle_doc();
    doc.declared_buffers = 2;
    assert_eq!(read_from_document(&doc).err(), Some(ImportError::BufferCountMismatch));
}

#[test]
fn err_image_count_mismatch() {
    let mut doc = triangle_doc();
    doc.declared_images = 1;
    assert_eq!(read_from_document(&doc).err(), Some(ImportError::ImageCountMismatch));
}

#[test]
fn err_missing_scene() {
    let mut doc = triangle_doc();
    doc.scene = None;
    assert_eq!(read_from_document(&doc).err(), Some(ImportError::MissingScene));
}

#[test]
fn err_missing_positions() {
    let mut doc = triangle_doc();
    doc.meshes[0].primitives[0].positions = None;
    assert_eq!(read_from_document(&doc).err(), Some(ImportError::MissingPositions));
}

#[test]
fn err_missing_normals() {
    let mut doc = triangle_doc();
    doc.meshes[0].primitives[0].normals = None;
    assert_eq!(read_from_document(&doc).err(), Some(ImportError::MissingNormals));
}

#[test]
fn err_missing_tex_coords() {
    let mut doc = triangle_doc();
    doc.meshes[0].primitives[0].tex_coords = None;
    assert_eq!(read_from_document(&doc).err(), Some(ImportError::MissingTexCoords));
}

#[test]
fn err_missing_indices() {
    let mut doc = triangle_doc();
    doc.meshes[0].primitives[0].indices = None;
    assert_eq!(read_from_document(&doc).err(), Some(ImportError::MissingIndices));
}

#[test]
fn err_wrong_component_type() {
    let mut doc = triangle_doc();
    doc.meshes[0].primitives[0].positions =
        Some(acc(0, 36, 3, ComponentType::U16, ElementKind::Vec3));
    assert_eq!(read_from_document(&doc).err(), Some(ImportError::BadAttributeType));
}

#[test]
fn err_wrong_element_kind() {
    let mut doc = triangle_doc();
    doc.meshes[0].primitives[0].positions =
        Some(acc(0, 36, 3, ComponentType::F32, ElementKind::Vec4));
    assert_eq!(read_from_document(&doc).err(), Some(ImportError::BadAttributeType));
}

#[test]
fn err_index_type_must_be_unsigned_16_or_32() {
    let mut doc = triangle_doc();
    doc.meshes[0].primitives[0].indices =
        Some(acc(96, 6, 3, ComponentType::F32, ElementKind::Scalar));
    assert_eq!(read_from_document(&doc).err(), Some(ImportError::BadAttributeType));
}

#[test]
fn err_non_tight_stride() {
    let mut doc = triangle_doc();
    let mut a = doc.meshes[0].primitives[0].positions.unwrap();
    a.view_stride = Some(16);
    doc.meshes[0].primitives[0].positions = Some(a);
    assert_eq!(read_from_document(&doc).err(), Some(ImportError::NonTightStride));
}

#[test]
fn tight_stride_is_accepted_when_explicit() {
    let mut doc = triangle_doc();
    let mut a = doc.meshes[0].primitives[0].positions.unwrap();
    a.view_stride = Some(12);
    doc.meshes[0].primitives[0].positions = Some(a);
    assert!(read_from_document(&doc).is_ok());
}

#[test]
fn err_accessor_out_of_bounds() {
    let mut doc = triangle_doc();
    doc.meshes[0].primitives[0].positions =
        Some(acc(0, 2000, 3, ComponentType::F32, ElementKind::Vec3));
    assert_eq!(read_from_document(&doc).err(), Some(ImportError::AccessorOutOfBounds));
}

#[test]
fn err_accessor_count_beyond_view() {
    let mut doc = triangle_doc();
    doc.meshes[0].primitives[0].positions =
        Some(acc(0, 36, 4, ComponentType::F32, ElementKind::Vec3));
    assert_eq!(read_from_document(&doc).err(), Some(ImportError::AccessorOutOfBounds));
}

#[test]
fn err_attribute_count_mismatch() {
    let mut doc = triangle_doc();
    doc.meshes[0].primitives[0].normals =
        Some(acc(36, 36, 2, ComponentType::F32, ElementKind::Vec3));
    assert_eq!(read_from_document(&doc).err(), Some(ImportError::AttributeCountMismatch));
}

#[test]
fn err_bad_index_count() {
    let mut doc = triangle_doc();
    doc.meshes[0].primitives[0].indices =
        Some(acc(96, 6, 2, ComponentType::U16, ElementKind::Scalar));
    assert_eq!(read_from_document(&doc).err(), Some(ImportError::BadIndexCount));
}

#[test]
fn err_index_out_of_range() {
    let mut doc = triangle_doc();
    doc.buffers[0].truncate(96);
    doc.buffers[0].extend_from_slice(&u16s_to_bytes(&[0, 1, 3]));
    assert_eq!(read_from_document(&doc).err(), Some(ImportError::IndexOutOfRange));
}

#[test]
fn err_bad_material_ref() {
    let mut doc = triangle_doc();
    doc.meshes[0].primitives[0].material = Some(5);
    assert_eq!(read_from_document(&doc).err(), Some(ImportError::BadMaterialRef));
}

#[test]
fn err_default_material_ref_needs_a_material() {
    let mut doc = triangle_doc();
    // the primitive defaults to material zero, which does not exist
    doc.materials = vec![];
    assert_eq!(read_from_document(&doc).err(), Some(ImportError::BadMaterialRef));
}

#[test]
fn err_bad_image_ref() {
    let mut doc = triangle_doc();
    doc.materials = vec![MaterialDef {
        base_color_texture: Some(TextureDef {
            source: 3,
            sampler: SamplerDef {
                wrap_s: WrapMode::Repeat,
                wrap_t: WrapMode::Repeat,
                mag_filter: None,
                min_filter: None,
            },
        }),
    }];
    assert_eq!(read_from_document(&doc).err(), Some(ImportError::BadImageRef));
}

#[test]
fn err_bad_mesh_ref() {
    let mut doc = triangle_doc();
    doc.nodes[0].mesh = Some(7);
    assert_eq!(read_from_document(&doc).err(), Some(ImportError::BadMeshRef));
}

#[test]
fn err_bad_child_ref() {
    let mut doc = triangle_doc();
    doc.nodes[0].children = vec![9];
    assert_eq!(read_from_document(&doc).err(), Some(ImportError::BadNodeRef));
}

#[test]
fn err_bad_root_ref() {
    let mut doc = triangle_doc();
    doc.scene = Some(vec![4]);
    assert_eq!(read_from_document(&doc).err(), Some(ImportError::BadNodeRef));
}

#[test]
fn accessor_sub_offset_is_honoured() {
    let mut doc = triangle_doc();
    // read the same positions through a view covering the whole buffer,
    // with the accessor's own offset picking out the second vertex
    doc.meshes[0].primitives[0].positions = Some(AccessorDef {
        buffer: 0,
        view_offset: 0,
        view_length: 48,
        view_stride: None,
        offset: 12,
        count: 3,
        component: ComponentType::F32,
        kind: ElementKind::Vec3,
    });
    let (storage, _) = read_from_document(&doc).expect("import failed");
    let prim = &storage.meshes[0].primitives[0];
    assert_eq!(prim.positions[0].x, 1.0f32.to_bits());
    assert_eq!(prim.positions[1].y, 1.0f32.to_bits());
}

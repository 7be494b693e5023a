use renderer::{
    AccessorDef, Camera, ColorSource, ComponentType, ElementKind, InputState, Mat4, MaterialDef,
    MeshDef, NodeDef, PrimitiveDef, Program, SceneDoc, World, read_from_document,
};

fn f32s_to_bytes(vals: &[f32]) -> Vec<u8> {
    let mut out = Vec::new();
    for v in vals {
        out.extend_from_slice(&v.to_bits().to_le_bytes());
    }
    out
}

fn u16s_to_bytes(vals: &[u16]) -> Vec<u8> {
    let mut out = Vec::new();
    for v in vals {
        out.extend_from_slice(&v.to_le_bytes());
    }
    out
}

fn acc(
    view_offset: usize,
    view_length: usize,
    count: usize,
    component: ComponentType,
    kind: ElementKind,
) -> AccessorDef {
    AccessorDef {
        buffer: 0,
        view_offset,
        view_length,
        view_stride: None,
        offset: 0,
        count,
        component,
        kind,
    }
}

fn triangle_doc() -> SceneDoc {
    let mut buffer = Vec::new();
    buffer.extend_from_slice(&f32s_to_bytes(&[
        0.0, 0.0, 0.0, //
        1.0, 0.0, 0.0, //
        0.0, 1.0, 0.0,
    ]));
    buffer.extend_from_slice(&f32s_to_bytes(&[
        0.0, 0.0, 1.0, //
        0.0, 0.0, 1.0, //
        0.0, 0.0, 1.0,
    ]));
    buffer.extend_from_slice(&f32s_to_bytes(&[0.0, 0.0, 1.0, 0.0, 0.0, 1.0]));
    buffer.extend_from_slice(&u16s_to_bytes(&[0, 1, 2]));

    SceneDoc {
        declared_buffers: 1,
        declared_images: 0,
        buffers: vec![buffer],
        images: vec![],
        meshes: vec![MeshDef {
            primitives: vec![PrimitiveDef {
                positions: Some(acc(0, 36, 3, ComponentType::F32, ElementKind::Vec3)),
                normals: Some(acc(36, 36, 3, ComponentType::F32, ElementKind::Vec3)),
                tex_coords: Some(acc(72, 24, 3, ComponentType::F32, ElementKind::Vec2)),
                indices: Some(acc(96, 6, 3, ComponentType::U16, ElementKind::Scalar)),
                material: None,
            }],
        }],
        materials: vec![MaterialDef { base_color_texture: None }],
        nodes: vec![NodeDef { mesh: Some(0), children: vec![], local: Mat4::identity() }],
        scene: Some(vec![0]),
    }
}

fn triangle_world() -> World {
    World::from_scene(&triangle_doc(), Program(11), Program(22)).expect("from_scene failed")
}

#[test]
fn from_scene_resolves_materials_and_installs_programs() {
    let w = triangle_world();
    assert!(w.check_wf());
    assert_eq!(w.assets.programs, vec![Program(11), Program(22)]);
    // a material without an albedo texture resolves to the color program
    assert_eq!(w.assets.materials[0].shader, Some(0));
    assert_eq!(w.camera.dimensions, (320, 240));
    assert_eq!(w.camera.fovy_deg, 45);
    assert_eq!(w.screen, (0, 0, 800, 600));
}

#[test]
fn shader_selection_is_exactly_the_albedo_rule() {
    let mut doc = triangle_doc();
    let pixels: Vec<u8> = vec![0; 12];
    doc.declared_images = 1;
    doc.images = vec![renderer::ImageDef {
        pixels,
        width: 2,
        height: 2,
        format: renderer::ImageFormat::R8G8B8,
    }];
    doc.materials = vec![
        MaterialDef { base_color_texture: None },
        MaterialDef {
            base_color_texture: Some(renderer::TextureDef {
                source: 0,
                sampler: renderer::SamplerDef {
                    wrap_s: renderer::WrapMode::Repeat,
                    wrap_t: renderer::WrapMode::Repeat,
                    mag_filter: None,
                    min_filter: None,
                },
            }),
        },
    ];
    let w = World::from_scene(&doc, Program(1), Program(2)).expect("from_scene failed");
    for mat in &w.assets.materials {
        // exactly one of the two selectors holds, by the albedo rule
        match mat.albedo {
            Some(_) => assert_eq!(mat.shader, Some(1)),
            None => assert_eq!(mat.shader, Some(0)),
        }
    }
    assert_eq!(w.assets.materials[0].shader, Some(0));
    assert_eq!(w.assets.materials[1].shader, Some(1));
}

#[test]
fn render_plans_one_draw_for_the_triangle() {
    let w = triangle_world();
    let plan = w.render();
    assert_eq!(plan.target, (320, 240));
    assert_eq!(plan.blit, (0, 0, 800, 600));
    assert_eq!(plan.draws.len(), 1);
    let d = &plan.draws[0];
    assert_eq!(d.node, 0);
    assert_eq!(d.mesh, 0);
    assert_eq!(d.primitive, 0);
    assert_eq!(d.program, 0);
    assert_eq!(d.index_count, 3);
    match d.color {
        ColorSource::Flat(c) => {
            assert_eq!(c.x, 0.5f32.to_bits());
            assert_eq!(c.y, 0.0f32.to_bits());
            assert_eq!(c.z, 0.2f32.to_bits());
        },
        ColorSource::Texture(_) => panic!("the triangle's material has no texture"),
    }
    assert_eq!(
        plan.clear_color,
        [0.6f32.to_bits(), 0.0f32.to_bits(), 0.8f32.to_bits(), 1.0f32.to_bits()]
    );
}

#[test]
fn viewport_resize_preserves_pixel_budget() {
    let mut w = triangle_world();
    // a 2:1 display: 320x240 becomes 392x196
    w.update_viewport(0, 0, 800, 400);
    assert_eq!(w.screen, (0, 0, 800, 400));
    let (iw, ih) = w.camera.dimensions;
    assert_eq!((iw, ih), (392, 196));
    let budget = 320 * 240;
    let pixels = (iw * ih) as i64;
    assert!((pixels - budget).abs() <= ih as i64);

    // back to the base 4:3 aspect ratio: exactly the base resolution
    w.update_viewport(0, 0, 800, 600);
    assert_eq!(w.camera.dimensions, (320, 240));

    // a tall 1:2 display
    w.update_viewport(0, 0, 400, 800);
    let (iw2, ih2) = w.camera.dimensions;
    assert_eq!((iw2, ih2), (196, 392));
}

#[test]
fn pitch_clamps_at_exactly_the_bound() {
    let bound: i64 = 1_335_177;
    let mut cam = Camera::new(0, 0, 45, (320, 240));
    // each step asks for 50_000 * 100 = 5_000_000 microradians of pitch
    for _ in 0..5 {
        cam.update(0, 0, 0, 0, 0, 0, (0, 50_000));
        assert!(cam.pitch <= bound);
    }
    assert_eq!(cam.pitch, bound);
    for _ in 0..5 {
        cam.update(0, 0, 0, 0, 0, 0, (0, -50_000));
        assert!(cam.pitch >= -bound);
    }
    assert_eq!(cam.pitch, -bound);
}

#[test]
fn yaw_wraps_into_one_turn() {
    let two_pi: i64 = 6_283_185;
    let mut cam = Camera::new(0, 0, 45, (320, 240));
    // each step adds 40_000 * 100 = 4_000_000 microradians of yaw
    cam.update(0, 0, 0, 0, 0, 0, (40_000, 0));
    assert_eq!(cam.yaw, 4_000_000);
    cam.update(0, 0, 0, 0, 0, 0, (40_000, 0));
    // 8_000_000 crosses two pi and wraps by one turn
    assert_eq!(cam.yaw, 8_000_000 - two_pi);
    for _ in 0..50 {
        cam.update(0, 0, 0, 0, 0, 0, (40_000, 0));
        assert!(-two_pi <= cam.yaw && cam.yaw <= two_pi);
    }
    // and the same across the negative boundary
    for _ in 0..50 {
        cam.update(0, 0, 0, 0, 0, 0, (-40_000, 0));
        assert!(-two_pi <= cam.yaw && cam.yaw <= two_pi);
    }
}

#[test]
fn camera_moves_scale_by_speed_and_axes() {
    let mut cam = Camera::new(0, 0, 45, (320, 240));
    let mv = cam.update(1_000_000, 250_000, 0, 750_000, 500_000, 0, (0, 0));
    assert_eq!(mv.forward, 2_000_000);
    assert_eq!(mv.strafe, 2 * (250_000 - 750_000));
    assert_eq!(mv.vertical, 1_000_000);
}

#[test]
fn update_applies_shift_to_horizontal_movement_only() {
    let mut w = triangle_world();
    let mut input = InputState::default();
    input.w = true;
    input.e = true;
    input.shift = true;
    let mv = w.update(&input, 1_000_000);
    // one second with the modifier: forward is 2 * 3.5s, vertical only 2 * 1s
    assert_eq!(mv.forward, 7_000_000);
    assert_eq!(mv.strafe, 0);
    assert_eq!(mv.vertical, 2_000_000);
}

#[test]
fn update_normalizes_mouse_by_viewport() {
    let mut w = triangle_world();
    let start_yaw = w.camera.yaw;
    let mut input = InputState::default();
    input.mouse_rel = (8, 0);
    w.update(&input, 1_000_000);
    // 8 px over an 800 px viewport for one second: 10_000 micro-units,
    // turned by the sensitivity into one radian of yaw
    assert_eq!(w.camera.yaw, start_yaw + 1_000_000);
}

#[test]
fn update_leaves_scene_untouched() {
    let mut w = triangle_world();
    let mut input = InputState::default();
    input.s = true;
    w.update(&input, 16_666);
    assert!(w.check_wf());
    assert_eq!(w.assets.meshes.len(), 1);
    assert_eq!(w.nodes.len(), 1);
    assert_eq!(w.screen, (0, 0, 800, 600));
}

#[test]
fn camera_new_saturates_orientation() {
    let cam = Camera::new(10_000_000, 2_000_000, 45, (1, 1));
    assert_eq!(cam.yaw, 6_283_185);
    assert_eq!(cam.pitch, 1_335_177);
    let cam2 = Camera::new(-10_000_000, -2_000_000, 60, (16, 9));
    assert_eq!(cam2.yaw, -6_283_185);
    assert_eq!(cam2.pitch, -1_335_177);
    assert_eq!(cam2.fovy_deg, 60);
    assert_eq!(cam2.dimensions, (16, 9));
}

#[test]
fn check_wf_rejects_a_broken_world() {
    let mut w = triangle_world();
    assert!(w.check_wf());
    w.nodes[0].mesh = 9;
    assert!(!w.check_wf());
}

#[test]
fn viewport_origin_offsets_the_area() {
    let mut w = triangle_world();
    // the display area spans from the origin coordinates to the extents
    w.update_viewport(100, 0, 900, 600);
    assert_eq!(w.screen, (100, 0, 900, 600));
    assert_eq!(w.camera.dimensions, (320, 240));
    let plan = w.render();
    assert_eq!(plan.blit, (100, 0, 900, 600));
}

#[test]
fn from_scene_propagates_import_errors() {
    let mut doc = triangle_doc();
    doc.scene = None;
    assert_eq!(
        World::from_scene(&doc, Program(1), Program(2)).err(),
        Some(renderer::ImportError::MissingScene)
    );
}

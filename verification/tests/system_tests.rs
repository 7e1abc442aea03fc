use tungus::algebra::{Vec2w, Vec3w, Vec4w};
use tungus::controls::{signals_of, Controller, InputEvent, Key, SignalType, Slot};
use tungus::data::{framebuffer_complete, require_complete, BufferType, PolygonMode};
use tungus::meshes::{canvas_attr_plan, instance_attr_plan, vertex_attr_plan, BasicMesh, Canvas, Drawable, Skybox};
use tungus::models::{
    ImportedMaterial, ImportedMesh, ImportedNode, ImportedScene, MaterialProperty, Model,
    PropertyData, TexSemantic,
};
use tungus::camera::Camera;
use tungus::lighting::Spotlight;
use tungus::scene::{SceneObject, SceneParameters};
use tungus::screen::{Screen, ScreenController, SHADOW_RESOLUTION};
use tungus::shaders::{set_material, MaterialSlot, TexUnits};
use tungus::systems::{ControllerHub, Program, ProgramController};
use tungus::textures::{CubeMap, Material, Texture2D, TextureType};
use tungus::utils::{constrained_step, RTController, RandomTransform};

fn f(bits: u32) -> f32 {
    f32::from_bits(bits)
}

fn b(x: f32) -> u32 {
    x.to_bits()
}

fn v3(x: f32, y: f32, z: f32) -> Vec3w {
    Vec3w { x: b(x), y: b(y), z: b(z) }
}

#[test]
fn cube_builder_yields_unit_cube() {
    let cube = BasicMesh::cube(b(1.0));
    assert_eq!(cube.vertices.len(), 24);
    assert_eq!(cube.indices.len(), 36);
    for v in cube.vertices.iter() {
        // every coordinate sits on a face of the 1x1x1 cube
        assert_eq!(f(v.pos.x).abs(), 0.5);
        assert_eq!(f(v.pos.y).abs(), 0.5);
        assert_eq!(f(v.pos.z).abs(), 0.5);
        // every normal is unit length
        let (nx, ny, nz) = (f(v.normal.x), f(v.normal.y), f(v.normal.z));
        assert_eq!(nx * nx + ny * ny + nz * nz, 1.0);
        // and points away from the cube center
        let dot = nx * f(v.pos.x) + ny * f(v.pos.y) + nz * f(v.pos.z);
        assert!(dot > 0.0);
    }
    for i in cube.indices.iter() {
        assert!((*i as usize) < 24);
    }
}

#[test]
fn square_builder_faces_forward() {
    let square = BasicMesh::square(b(2.0));
    assert_eq!(square.vertices.len(), 4);
    assert_eq!(square.indices.len(), 6);
    for v in square.vertices.iter() {
        assert_eq!(f(v.normal.z), 1.0);
        assert_eq!(f(v.pos.x).abs(), 1.0);
        assert_eq!(f(v.pos.z), 0.0);
    }
}

#[test]
fn skybox_box_sits_at_far_distance() {
    let skybox = Skybox::new(CubeMap::new(3, TextureType::Diffuse));
    assert_eq!(skybox.vertices.len(), 24);
    assert_eq!(skybox.indices.len(), 36);
    for v in skybox.vertices.iter() {
        assert_eq!(f(v.pos.x).abs(), 5.0);
    }
}

#[test]
fn vertex_layout_packs_three_attributes() {
    let plan = vertex_attr_plan();
    assert_eq!(plan.len(), 3);
    assert_eq!(plan[0].offset, 0);
    assert_eq!(plan[1].offset, 12);
    assert_eq!(plan[2].offset, 24);
    for a in plan.iter() {
        assert_eq!(a.stride, 36);
        assert_eq!(a.size, 3);
        assert_eq!(a.divisor, 0);
    }
}

#[test]
fn canvas_layout_binds_positions_and_texture_coordinates() {
    let plan = canvas_attr_plan();
    assert_eq!(plan.len(), 2);
    assert_eq!(plan[0].index, 0);
    assert_eq!(plan[0].offset, 0);
    assert_eq!(plan[1].index, 1);
    assert_eq!(plan[1].offset, 24);
    for a in plan.iter() {
        assert_eq!(a.stride, 36);
        assert_eq!(a.size, 3);
        assert_eq!(a.divisor, 0);
    }
}

#[test]
fn instance_layout_steps_per_instance() {
    let plan = instance_attr_plan();
    assert_eq!(plan.len(), 7);
    for (i, a) in plan.iter().enumerate() {
        assert_eq!(a.stride, 228);
        assert_eq!(a.divisor, 1);
        assert_eq!(a.index as usize, 3 + i);
    }
    assert_eq!(plan[3].offset, 48);
    assert_eq!(plan[4].offset, 64);
    assert_eq!(plan[6].offset, 88);
}

#[test]
fn quit_signal_stops_the_loop_at_the_boundary() {
    let mut controller = ProgramController::new();
    let mut program = Program { loop_active: true };
    controller.on_signal(SignalType::KeyPressed(Key::W));
    controller.process_signals(&mut program);
    assert!(program.loop_active);
    controller.on_signal(SignalType::KeyPressed(Key::Escape));
    controller.process_signals(&mut program);
    assert!(!program.loop_active);
}

#[test]
fn events_coalesce_keyboard_state() {
    let events = vec![
        InputEvent::Keyboard { key: Key::W, pressed: true },
        InputEvent::MouseMotion { x_delta: 3, y_delta: -2 },
        InputEvent::Keyboard { key: Key::A, pressed: true },
        InputEvent::Keyboard { key: Key::W, pressed: false },
        InputEvent::MouseWheel { y_delta: 1 },
        InputEvent::Quit,
    ];
    let signals = signals_of(&events);
    assert_eq!(
        signals,
        vec![
            SignalType::MouseMoved(-2, 3),
            SignalType::MouseScrolled(1),
            SignalType::Quit,
            SignalType::KeyReleased(Key::W),
            SignalType::KeyPressed(Key::A),
        ]
    );
}

#[test]
fn hub_fans_signals_out_and_applies_them() {
    let mut hub = ControllerHub::init();
    let mut camera = Camera::new(v3(0.0, 0.0, -2.0));
    let yaw0 = f(camera.get_yaw());
    let mut flashlight = Spotlight::new(
        v3(0.0, 0.0, -2.0),
        v3(0.0, 0.0, 1.0),
        v3(0.1, 0.1, 0.1),
        v3(0.5, 0.5, 0.5),
        v3(0.5, 0.5, 0.5),
        v3(1.0, 0.5, 0.25),
        b(0.3),
        b(0.4),
    );
    let mut program = Program { loop_active: true };
    let mut screen = Screen::new(
        SceneObject::from(Drawable::Screen(Canvas::new())),
        Vec4w { x: b(0.1), y: b(0.1), z: b(0.1), w: b(1.0) },
        (600, 600),
        7,
        0,
    );
    let mut params = SceneParameters::init();
    let mut rts: Vec<RandomTransform> = Vec::new();

    let signals = vec![
        SignalType::KeyPressed(Key::F),
        SignalType::KeyPressed(Key::N),
        SignalType::MouseMoved(0, 4),
        SignalType::KeyPressed(Key::E),
    ];
    hub.update(
        b(10.0),
        &signals,
        &mut camera,
        &mut flashlight,
        &mut program,
        &mut screen,
        &mut params,
        &mut rts,
    );
    assert!(flashlight.on);
    assert!(program.loop_active);
    assert!(params.visualize_normals);
    assert!(screen.params.sobel_on);
    // the mouse delta turned the camera by 4 * rot_speed degrees
    let expected_yaw = yaw0 + (4.0f32 * (10.0f32 * 0.01)).to_radians();
    assert_eq!(f(camera.get_yaw()), expected_yaw);
    // per-tick accumulators reset; the flashlight state persists
    assert_eq!(hub.camera.signal_list.len(), 0);
    assert_eq!(f(hub.camera.delta_zoom), 0.0);
    assert!(hub.flashlight.on);

    hub.update(
        b(10.0),
        &vec![SignalType::KeyPressed(Key::F)],
        &mut camera,
        &mut flashlight,
        &mut program,
        &mut screen,
        &mut params,
        &mut rts,
    );
    assert!(!flashlight.on);
}

#[test]
fn forward_key_walks_toward_the_view() {
    let mut hub = ControllerHub::init();
    let mut camera = Camera::new(v3(0.0, 0.0, -2.0));
    let z0 = f(camera.get_pos().z);
    let mut flashlight = Spotlight::new(
        v3(0.0, 0.0, -2.0),
        v3(0.0, 0.0, 1.0),
        v3(0.1, 0.1, 0.1),
        v3(0.5, 0.5, 0.5),
        v3(0.5, 0.5, 0.5),
        v3(1.0, 0.5, 0.25),
        b(0.3),
        b(0.4),
    );
    let mut program = Program { loop_active: true };
    let mut screen = Screen::new(
        SceneObject::from(Drawable::Screen(Canvas::new())),
        Vec4w { x: b(0.1), y: b(0.1), z: b(0.1), w: b(1.0) },
        (600, 600),
        7,
        0,
    );
    let mut params = SceneParameters::init();
    let mut rts: Vec<RandomTransform> = Vec::new();
    hub.update(
        b(100.0),
        &vec![SignalType::KeyPressed(Key::W)],
        &mut camera,
        &mut flashlight,
        &mut program,
        &mut screen,
        &mut params,
        &mut rts,
    );
    // the camera looks toward +z, so the forward key raises z
    assert!(f(camera.get_pos().z) > z0);
}

#[test]
fn screen_controller_clamps_gamma() {
    let mut controller = ScreenController::new();
    for _ in 0..20 {
        controller.on_key_pressed(Key::Equals);
    }
    assert_eq!(f(controller.gamma), 3.0);
    for _ in 0..40 {
        controller.on_key_pressed(Key::Minus);
    }
    assert_eq!(f(controller.gamma), 1.0);
    controller.on_key_pressed(Key::E);
    assert!(controller.sobel_on);
    controller.on_key_pressed(Key::M);
    assert!(!controller.msaa_on);
}

#[test]
fn screen_passes_reset_texture_units_once_each() {
    let canvas = SceneObject::from(Drawable::Screen(Canvas::new()));
    let screen = Screen::new(
        canvas,
        Vec4w { x: b(0.1), y: b(0.1), z: b(0.1), w: b(1.0) },
        (600, 600),
        7,
        0,
    );
    let plan = screen.draw_on_screen();
    let mut resets = 0;
    for cmd in plan.iter() {
        if matches!(cmd, tungus::rendering::RenderCmd::ResetTexUnits) {
            resets += 1;
        }
    }
    assert_eq!(resets, 1);
    assert_eq!(SHADOW_RESOLUTION, 1024);
}

#[test]
fn picture_in_picture_scales_and_offsets_the_canvas() {
    let make = || {
        Screen::new(
            SceneObject::from(Drawable::Screen(Canvas::new())),
            Vec4w { x: b(0.1), y: b(0.1), z: b(0.1), w: b(1.0) },
            (600, 600),
            7,
            0,
        )
    };
    let mirror = make();
    let main = make();
    let plan = mirror.draw_on_another(&main, b(0.3), Vec2w { x: b(0.5), y: b(0.5) });
    let mut model = None;
    for cmd in plan.iter() {
        if let tungus::rendering::RenderCmd::SetUboModel(m) = cmd {
            model = Some(*m);
        }
    }
    let m = model.unwrap();
    assert_eq!(f(m.0[0]), 0.3);
    assert_eq!(f(m.0[5]), 0.3);
    assert_eq!(f(m.0[12]), 0.5);
    assert_eq!(f(m.0[13]), 0.5);
}

#[test]
fn material_bindings_take_consecutive_units() {
    let mut units = TexUnits::new();
    units.increment_tex_count();
    let material = Material::new(
        vec![Texture2D::new(11, TextureType::Diffuse), Texture2D::new(12, TextureType::Diffuse)],
        Vec::new(),
        b(8.0),
    );
    let uniforms = set_material(&mut units, &material);
    assert_eq!(uniforms.bindings.len(), 3);
    assert_eq!(uniforms.bindings[0].unit, 1);
    assert_eq!(uniforms.bindings[1].unit, 2);
    assert_eq!(uniforms.bindings[2].unit, 3);
    assert_eq!(uniforms.bindings[0].texture, 11);
    assert!(!uniforms.bindings[0].placeholder);
    assert_eq!(uniforms.bindings[2].slot, MaterialSlot::Specular);
    assert!(uniforms.bindings[2].placeholder);
    assert_eq!(uniforms.loaded_diffuse, 2);
    assert_eq!(uniforms.loaded_specular, 1);
    assert_eq!(units.tex_count(), 4);
    assert_eq!(f(uniforms.shininess), 8.0);
}

#[test]
fn framebuffer_must_be_complete_after_setup() {
    assert!(framebuffer_complete(0x8CD5));
    assert!(require_complete(0x8CD5).is_ok());
    let failed = require_complete(0x8CD6);
    assert!(failed.is_err());
    match failed {
        Err(e) => assert_eq!(e.status, 0x8CD6),
        Ok(_) => unreachable!(),
    }
    assert_eq!(BufferType::Array.gl_value(), 0x8892);
    assert_eq!(PolygonMode::Fill.gl_value(), 0x1B02);
}

#[test]
fn cyclic_step_wraps_in_both_directions() {
    assert_eq!(constrained_step(5, 0, 7, 10), 2);
    assert_eq!(constrained_step(5, 0, -7, 10), 8);
    assert_eq!(constrained_step(15, 10, 4, 5), 14);
    assert_eq!(constrained_step(15, 10, -4, 5), 11);
    assert_eq!(constrained_step(3, 3, 0, 1), 3);
}

#[test]
fn random_transforms_tick_down_to_refresh() {
    let rts = vec![
        RandomTransform::continuous(b(0.1), b(0.1), 3, 2),
        RandomTransform::continuous(b(0.1), b(0.1), 1, 5),
    ];
    let mut controller = RTController::new();
    controller.add_rts(&rts);
    assert_eq!(controller.tick_list.len(), 2);
    assert_eq!(controller.tick_list[0], (3, 2));
    let mut targets = rts;
    controller.process_signals(&mut targets);
    assert_eq!(controller.tick_list[0], (2, 1));
    // the second transform's angular tick restarts from its rate
    assert_eq!(controller.tick_list[1], (1, 4));
}

#[test]
fn imported_meshes_flatten_depth_first() {
    let positions = vec![v3(0.0, 0.0, 0.0), v3(1.0, 0.0, 0.0), v3(0.0, 1.0, 0.0)];
    let tex = vec![v3(0.0, 0.25, 0.0), v3(1.0, 0.5, 0.0), v3(0.5, 1.0, 0.0)];
    let mesh = ImportedMesh {
        vertices: positions,
        normals: Vec::new(),
        tex_coords: tex,
        faces: vec![vec![0, 1, 2], vec![2, 1, 0]],
        material_index: 0,
    };
    let material = ImportedMaterial {
        properties: vec![
            MaterialProperty {
                key: b"$mat.shininess".to_vec(),
                semantic: TexSemantic::Other,
                data: PropertyData::Floats(vec![b(16.0)]),
            },
            MaterialProperty {
                key: b"file".to_vec(),
                semantic: TexSemantic::Diffuse,
                data: PropertyData::Text(b"wall.jpg".to_vec()),
            },
            MaterialProperty {
                key: b"file".to_vec(),
                semantic: TexSemantic::Diffuse,
                data: PropertyData::Text(b"wall.jpg".to_vec()),
            },
        ],
    };
    let scene = ImportedScene {
        meshes: vec![mesh],
        materials: vec![material],
        root: ImportedNode {
            meshes: Vec::new(),
            children: vec![ImportedNode { meshes: vec![0], children: Vec::new() }],
        },
    };
    let model = Model::new(b"assets".to_vec(), &scene);
    assert_eq!(model.meshes.len(), 1);
    let m = &model.meshes[0];
    assert_eq!(m.indices, vec![0, 1, 2, 2, 1, 0]);
    assert_eq!(m.vertices.len(), 3);
    // texture coordinates flip vertically; missing normals stay zero
    assert_eq!(f(m.vertices[0].tex_coords.y), -0.25);
    assert_eq!(f(m.vertices[0].normal.x), 0.0);
    // the duplicate texture path loads once, joined against the directory
    assert_eq!(m.material.get_diffuse_maps().len(), 1);
    assert_eq!(m.material.get_diffuse_maps()[0].path, b"assets/wall.jpg".to_vec());
    // the specular slot falls back to a solid color placeholder
    assert_eq!(m.material.get_specular_maps().len(), 1);
    assert_eq!(m.material.get_specular_maps()[0].path.len(), 0);
    assert_eq!(f(m.material.get_shininess()), 16.0);
}

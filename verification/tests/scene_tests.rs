use tungus::algebra::{Mat4w, Vec3w, Vec4w};
use tungus::camera::Camera;
use tungus::controls::{Controller, Key, SignalType, Slot};
use tungus::lighting::{DirectionalLight, FlashlightController, Lighting, PointLight, Spotlight};
use tungus::meshes::{BasicMesh, Canvas, Drawable};
use tungus::rendering::RenderCmd;
use tungus::scene::{
    build_scene_objects, object_distance, sort_back_to_front, Instance, Scene, SceneController,
    SceneObject, SceneParameters, INSTANCES,
};
use tungus::textures::Material;
use tungus::spatial::Spatial;

fn f(bits: u32) -> f32 {
    f32::from_bits(bits)
}

fn b(x: f32) -> u32 {
    x.to_bits()
}

fn v3(x: f32, y: f32, z: f32) -> Vec3w {
    Vec3w { x: b(x), y: b(y), z: b(z) }
}

fn cube_object() -> SceneObject {
    SceneObject::from(Drawable::Mesh(BasicMesh::cube(b(1.0))))
}

fn test_lighting() -> Lighting {
    let color = v3(0.5, 0.5, 0.5);
    Lighting {
        dir: DirectionalLight::new(v3(1.0, -2.0, 1.5), color, color, color),
        point: vec![PointLight::new(v3(0.0, 2.0, 0.0), color, color, color, v3(1.0, 0.5, 0.25))],
        spot: Spotlight::new(
            v3(0.0, 0.0, -2.0),
            v3(0.0, 0.0, 1.0),
            color,
            color,
            color,
            v3(1.0, 0.5, 0.25),
            b(15.0f32.to_radians()),
            b(20.0f32.to_radians()),
        ),
    }
}

fn test_scene(objects: Vec<SceneObject>) -> Scene {
    Scene {
        objects,
        skyboxes: Vec::new(),
        object_shader: 1,
        skybox_shader: 2,
        outline_shader: 3,
        shadow_shader: 4,
        debug_shader: 5,
        camera: Camera::new(v3(0.0, 0.0, -2.0)),
        lighting: test_lighting(),
        params: SceneParameters::init(),
    }
}

#[test]
fn instance_records_accumulate_in_order() {
    let mut object = cube_object();
    assert_eq!(object.get_instances(), 1);
    object.add_instances(4);
    assert_eq!(object.get_instances(), 5);
    object.add_instance();
    assert_eq!(object.get_instances(), 6);
}

#[test]
fn instance_buffer_holds_contiguous_records() {
    let mut object = cube_object();
    object.add_instances(2);
    object.get_instance_mut(1).translate(&v3(1.0, 2.0, 3.0));
    let words = object.instance_words();
    assert_eq!(words.len(), 57 * 3);
    // the first record is the identity instance
    let one = Instance::new();
    let mut expected = Vec::new();
    expected.extend_from_slice(&one.model.0);
    expected.extend_from_slice(&one.normal.0);
    expected.extend_from_slice(&one.trans.0);
    expected.extend_from_slice(&one.rot.0);
    assert_eq!(&words[0..57], &expected[..]);
    // the second record carries the translated model matrix in place
    assert_eq!(f(words[57 + 12]), 1.0);
    assert_eq!(f(words[57 + 13]), 2.0);
    assert_eq!(f(words[57 + 14]), 3.0);
}

#[test]
fn draw_requests_every_instance() {
    let mut object = cube_object();
    object.add_instances(9);
    let plan = object.draw(0);
    let mut found = false;
    for cmd in plan.iter() {
        if let RenderCmd::DrawObject { object: idx, instances } = cmd {
            assert_eq!(*idx, 0);
            assert_eq!(*instances, 10);
            found = true;
        }
    }
    assert!(found);
}

#[test]
fn dirty_instances_upload_before_drawing() {
    let mut object = cube_object();
    object.get_instance_mut(0).translate(&v3(0.5, 0.0, 0.0));
    let plan = object.draw(7);
    assert!(matches!(plan[0], RenderCmd::UploadInstances { object: 7 }));
    assert!(matches!(plan[1], RenderCmd::DrawObject { object: 7, instances: 1 }));
}

#[test]
fn translation_column_survives_rotation_and_scaling() {
    let mut object = cube_object();
    object.translate(&v3(1.0, 2.0, 3.0));
    object.rotate(b(0.7), &v3(0.0, 1.0, 0.0));
    object.scale(&v3(2.0, 2.0, 2.0));
    object.translate(&v3(0.5, -1.0, 0.25));
    object.rotate(b(1.2), &v3(1.0, 0.0, 0.0));
    let model = object.get_model();
    assert_eq!(f(model.0[12]), 1.0 + 0.5);
    assert_eq!(f(model.0[13]), 2.0 + -1.0);
    assert_eq!(f(model.0[14]), 3.0 + 0.25);
}

#[test]
fn back_to_front_sort_orders_by_distance() {
    let cam = v3(0.0, 0.0, 0.0);
    let mut objects = Vec::new();
    let distances = [1.0f32, 9.0, 4.0, 16.0, 0.5];
    for d in distances.iter() {
        let mut o = cube_object();
        o.translate(&v3(*d, 0.0, 0.0));
        objects.push(o);
    }
    let sorted = sort_back_to_front(cam, objects);
    assert_eq!(sorted.len(), 5);
    for i in 0..sorted.len() - 1 {
        let a = f(object_distance(cam, &sorted[i]));
        let bd = f(object_distance(cam, &sorted[i + 1]));
        assert!(a >= bd);
    }
    assert_eq!(f(object_distance(cam, &sorted[0])), 16.0);
    assert_eq!(f(object_distance(cam, &sorted[4])), 0.5);
}

#[test]
fn compose_orders_skybox_before_objects() {
    let mut scene = test_scene(vec![cube_object(), cube_object()]);
    let plan = scene.compose();
    let mut skybox_state_seen = false;
    let mut first_object_draw = None;
    let mut lighting_at = None;
    for (i, cmd) in plan.iter().enumerate() {
        match cmd {
            RenderCmd::DepthLessOrEqual => skybox_state_seen = true,
            RenderCmd::DrawObject { .. } => {
                if first_object_draw.is_none() {
                    first_object_draw = Some(i);
                }
            },
            RenderCmd::SetLightingUniforms => lighting_at = Some(i),
            _ => {},
        }
    }
    assert!(skybox_state_seen);
    let first_draw = first_object_draw.unwrap();
    assert!(lighting_at.unwrap() < first_draw);
}

#[test]
fn outline_redraw_follows_its_object() {
    let mut outlined = cube_object();
    outlined.set_outline(Vec4w { x: b(0.5), y: b(0.2), z: b(0.3), w: b(1.0) });
    assert!(outlined.has_outline());
    let mut scene = test_scene(vec![outlined]);
    let plan = scene.compose();
    let mut object_draw = None;
    let mut outline_draw = None;
    for (i, cmd) in plan.iter().enumerate() {
        match cmd {
            RenderCmd::DrawObject { .. } => object_draw = Some(i),
            RenderCmd::DrawOutline { object } => {
                assert_eq!(*object, 0);
                outline_draw = Some(i);
            },
            _ => {},
        }
    }
    assert!(object_draw.unwrap() < outline_draw.unwrap());
}

#[test]
fn shadow_pass_culls_front_faces_around_depth_draws() {
    let scene = test_scene(vec![cube_object()]);
    let plan = scene.set_shadow_maps(1024, 1024);
    assert!(matches!(plan[0], RenderCmd::SetViewport { width: 1024, height: 1024 }));
    assert!(matches!(plan[1], RenderCmd::CullFront));
    assert!(matches!(plan[plan.len() - 1], RenderCmd::CullBack));
    let mut saw_draw = false;
    let mut saw_shadow_map = false;
    for cmd in plan.iter() {
        match cmd {
            RenderCmd::DrawObject { .. } => saw_draw = true,
            RenderCmd::BindShadowMap => saw_shadow_map = true,
            _ => {},
        }
    }
    assert!(saw_draw && saw_shadow_map);
}

#[test]
fn mirrored_scene_shares_objects_and_inverts_camera() {
    let mut scene = test_scene(vec![cube_object()]);
    scene.objects[0].translate(&v3(1.0, 0.0, 0.0));
    scene.camera.rotate(v3(15.0, 0.0, 0.0));
    let mirrored = scene.mirrored();
    assert_eq!(mirrored.objects.len(), 1);
    assert_eq!(f(mirrored.objects[0].model.0[12]), 1.0);
    let p0 = f(scene.camera.get_pitch());
    let p1 = f(mirrored.camera.get_pitch());
    assert!((p1 + p0).abs() < 1e-4);
}

#[test]
fn flashlight_toggles_back_after_two_presses() {
    let mut controller = FlashlightController::new();
    let initial = controller.on;
    controller.on_key_pressed(Key::F);
    assert_eq!(controller.on, !initial);
    controller.on_key_pressed(Key::F);
    assert_eq!(controller.on, initial);
}

#[test]
fn spotlight_off_contributes_zero_colors() {
    let mut light = Spotlight::new(
        v3(1.0, 2.0, 3.0),
        v3(0.0, 0.0, 1.0),
        v3(0.4, 0.4, 0.4),
        v3(0.9, 0.9, 0.9),
        v3(1.0, 1.0, 1.0),
        v3(1.0, 0.5, 0.25),
        b(0.3),
        b(0.4),
    );
    light.on = false;
    for c in [light.get_amb(), light.get_diff(), light.get_spec()].iter() {
        assert_eq!(f(c.x), 0.0);
        assert_eq!(f(c.y), 0.0);
        assert_eq!(f(c.z), 0.0);
    }
    let uniforms = tungus::shaders::set_spotlight(&light);
    assert_eq!(f(uniforms.ambient.x), 0.0);
    assert_eq!(f(uniforms.diffuse.y), 0.0);
    assert_eq!(f(uniforms.specular.z), 0.0);
    assert_eq!(f(uniforms.phi_cos), 0.3f32.cos());
    light.on = true;
    assert_eq!(f(light.get_diff().x), 0.9);
}

#[test]
fn normal_visualization_toggle_gates_debug_redraw() {
    let mut controller = SceneController::new();
    controller.on_signal(SignalType::KeyPressed(Key::N));
    let mut params = SceneParameters::init();
    controller.process_signals(&mut params);
    assert!(params.visualize_normals);

    let mut scene = test_scene(vec![cube_object()]);
    scene.params = params;
    let plan = scene.compose();
    let mut draws = 0;
    for cmd in plan.iter() {
        if let RenderCmd::DrawObject { .. } = cmd {
            draws += 1;
        }
    }
    assert_eq!(draws, 2);
}

#[test]
fn canvas_quad_spans_clip_space() {
    let canvas = Canvas::new();
    assert_eq!(canvas.vertices.len(), 4);
    assert_eq!(canvas.indices.len(), 6);
    assert_eq!(f(canvas.vertices[0].pos.x), -1.0);
    assert_eq!(f(canvas.vertices[0].tex_coords.y), 1.0);
    assert_eq!(f(canvas.vertices[3].pos.y), -1.0);
}

#[test]
fn adding_instances_marks_the_buffer_for_reupload() {
    let mut object = cube_object();
    assert!(!object.dirty_instances);
    object.add_instances(3);
    assert!(object.dirty_instances);
    let plan = object.draw(0);
    assert!(matches!(plan[0], RenderCmd::UploadInstances { object: 0 }));
    assert!(matches!(plan[1], RenderCmd::DrawObject { object: 0, instances: 4 }));

    let mut one_more = cube_object();
    one_more.add_instance();
    assert!(one_more.dirty_instances);
}

#[test]
fn object_normal_recomputes_after_a_model_change() {
    let mut object = cube_object();
    object.scale(&v3(2.0, 4.0, 8.0));
    assert!(object.dirty_normal);
    let normal = object.get_normal().unwrap();
    assert_eq!(f(normal.0[0]), 0.5);
    assert_eq!(f(normal.0[4]), 0.25);
    assert_eq!(f(normal.0[8]), 0.125);
    assert!(!object.dirty_normal);
}

#[test]
fn scene_builder_lays_out_the_five_objects() {
    let empty = || Material::new(Vec::new(), Vec::new(), b(8.0));
    let lamps = vec![
        PointLight::new(v3(0.0, 2.0, 0.0), v3(0.2, 0.2, 0.2), v3(1.0, 1.0, 1.0), v3(1.0, 1.0, 1.0), v3(1.0, 0.5, 0.25)),
        PointLight::new(v3(-1.0, -2.0, -1.0), v3(0.2, 0.2, 0.2), v3(1.0, 1.0, 1.0), v3(1.0, 1.0, 1.0), v3(1.0, 0.5, 0.25)),
    ];
    let objects = build_scene_objects(
        Drawable::Mesh(BasicMesh::cube(b(1.0))),
        empty(),
        empty(),
        empty(),
        empty(),
        &lamps,
    );
    assert_eq!(objects.len(), 5);
    assert_eq!(objects[0].get_instances(), INSTANCES);
    assert!(objects[0].dirty_instances);
    for i in 0..INSTANCES {
        let m = &objects[0].get_instance(i as isize).model;
        let x = f(m.0[12]);
        assert!(-100.0 <= x && x <= 100.0);
    }
    assert!(objects[1].has_outline());
    assert_eq!(f(objects[1].outline.x), 0.5);
    assert_eq!(f(objects[2].model.0[13]), 1.5);
    assert_eq!(f(objects[2].model.0[14]), -1.5);
    assert_eq!(objects[3].get_instances(), 2);
    assert_eq!(f(objects[3].get_instance(0).model.0[13]), 2.0);
    assert_eq!(f(objects[3].get_instance(1).model.0[12]), -1.0);
    assert_eq!(f(objects[4].model.0[13]), -1.5);
    // the floor turned flat: its plane normal direction moved off the z axis
    assert!(f(objects[4].model.0[6]).abs() > 0.9);
}

#[test]
fn normal_matrix_is_inverse_transpose() {
    let mut instance = Instance::new();
    // a non-uniform scaling model: the normal matrix inverts each factor
    instance.scale(&v3(2.0, 4.0, 8.0));
    let normal = instance.get_normal().unwrap();
    assert_eq!(f(normal.0[0]), 0.5);
    assert_eq!(f(normal.0[4]), 0.25);
    assert_eq!(f(normal.0[8]), 0.125);
    assert_eq!(f(normal.0[1]), 0.0);

    let mut flat = Instance::new();
    flat.scale(&v3(1.0, 0.0, 1.0));
    assert!(flat.get_normal().is_none());
}

#[test]
fn shadow_projection_matches_reference_ortho() {
    let scene = test_scene(vec![cube_object()]);
    let plan = scene.set_shadow_maps(1024, 1024);
    let mut projection = None;
    for cmd in plan.iter() {
        if let RenderCmd::SetUboProjection(m) = cmd {
            projection = Some(*m);
            break;
        }
    }
    let m = projection.unwrap();
    let expected = nalgebra_glm::ortho(-10.0f32, 10.0, -10.0, 10.0, -2.0, 10.0);
    for k in 0..16 {
        assert_eq!(f(m.0[k]), expected.as_slice()[k]);
    }
}

#[test]
fn random_position_lands_in_its_ranges() {
    for _ in 0..20 {
        let mut instance = Instance::new();
        tungus::utils::RandomTransform::position(
            &mut instance,
            (b(-3.0), b(-1.0)),
            (b(0.0), b(2.0)),
            (b(5.0), b(5.0)),
        );
        let m = instance.get_model();
        let x = f(m.0[12]);
        let y = f(m.0[13]);
        let z = f(m.0[14]);
        assert!(-3.0 <= x && x <= -1.0);
        assert!(0.0 <= y && y <= 2.0);
        assert_eq!(z, 5.0);
    }
}

#[test]
fn scaling_multiplies_the_linear_block() {
    // the matrix product runs under apply_scaling: the linear block of the
    // translated object really gets multiplied, the translation kept
    let mut object = cube_object();
    object.translate(&v3(1.0, 2.0, 3.0));
    object.apply_scaling(&Mat4w::scaling(v3(2.0, 4.0, 8.0)));
    let m = object.get_model();
    assert_eq!(f(m.0[0]), 2.0);
    assert_eq!(f(m.0[5]), 4.0);
    assert_eq!(f(m.0[10]), 8.0);
    assert_eq!(f(m.0[12]), 1.0);
    assert_eq!(f(m.0[13]), 2.0);
    assert_eq!(f(m.0[14]), 3.0);
}

#[test]
fn vertex_rotation_turns_the_position() {
    let mut vertex = tungus::meshes::Vertex::new(b(1.0), b(0.0), b(0.0));
    vertex.rotate(b(std::f32::consts::PI / 2.0), &v3(0.0, 0.0, 1.0));
    assert!((f(vertex.pos.x)).abs() < 1e-6);
    assert!((f(vertex.pos.y) - 1.0).abs() < 1e-6);
}

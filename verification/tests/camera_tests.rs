use tungus::algebra::Vec3w;
use tungus::camera::{Camera, CameraController};
use tungus::controls::{Controller, SignalType, Slot};
use tungus::fbits;

fn f(bits: u32) -> f32 {
    f32::from_bits(bits)
}

fn b(x: f32) -> u32 {
    x.to_bits()
}

fn v3(x: f32, y: f32, z: f32) -> Vec3w {
    Vec3w { x: b(x), y: b(y), z: b(z) }
}

const PITCH_LIMIT: f32 = std::f32::consts::PI / 2.0 - 0.001;

#[test]
fn pitch_stays_clamped_under_repeated_rotation() {
    let mut camera = Camera::new(v3(0.0, 0.0, -2.0));
    for _ in 0..50 {
        camera.rotate(v3(37.5, 10.0, 0.0));
        let pitch = f(camera.get_pitch());
        assert!(pitch <= PITCH_LIMIT);
        assert!(pitch >= -PITCH_LIMIT);
    }
    for _ in 0..100 {
        camera.rotate(v3(-89.9, 0.0, 0.0));
        let pitch = f(camera.get_pitch());
        assert!(pitch <= PITCH_LIMIT);
        assert!(pitch >= -PITCH_LIMIT);
    }
}

#[test]
fn invert_twice_restores_pitch_and_wraps_yaw() {
    let mut camera = Camera::new(v3(0.0, 0.0, -2.0));
    camera.rotate(v3(20.0, 30.0, 0.0));
    let pitch0 = f(camera.get_pitch());
    let yaw0 = f(camera.get_yaw());
    let twice = camera.invert().invert();
    let pitch2 = f(twice.get_pitch());
    let yaw2 = f(twice.get_yaw());
    assert!((pitch2 - pitch0).abs() < 1e-4);
    assert!((yaw2 - (yaw0 + 2.0 * std::f32::consts::PI)).abs() < 1e-4);
}

#[test]
fn forward_walk_moves_along_z_only() {
    let mut camera = Camera::new(v3(0.0, 0.0, -2.0));
    let before = camera.get_pos();
    camera.translate_forward(b(1.0));
    let after = camera.get_pos();
    assert!((f(after.x) - f(before.x)).abs() < 1e-6);
    assert_eq!(f(after.y), f(before.y));
    let dz = f(after.z) - f(before.z);
    assert!((dz - 1.0).abs() < 1e-4);
}

#[test]
fn view_relative_translation_matches_reference_formula() {
    let mut camera = Camera::new(v3(1.0, 2.0, -3.0));
    camera.rotate(v3(5.0, 25.0, 0.0));
    let pos = camera.get_pos();
    let dir = camera.get_dir();
    let offset = (0.25f32, -0.5f32, 0.75f32);
    camera.translate(v3(offset.0, offset.1, offset.2));

    let p = nalgebra_glm::vec3(f(pos.x), f(pos.y), f(pos.z));
    let d = nalgebra_glm::vec3(f(dir.x), f(dir.y), f(dir.z));
    let up = nalgebra_glm::vec3(0.0f32, 1.0, 0.0);
    let mut expected = p - offset.2 * d;
    let right = nalgebra_glm::normalize(&nalgebra_glm::cross(&up, &d));
    expected -= offset.0 * right;
    let cam_up = nalgebra_glm::cross(&d, &right);
    expected -= offset.1 * cam_up;

    let got = camera.get_pos();
    assert_eq!(f(got.x), expected.x);
    assert_eq!(f(got.y), expected.y);
    assert_eq!(f(got.z), expected.z);
}

#[test]
fn look_at_matches_reference_view_matrix() {
    let camera = Camera::new(v3(0.5, 1.0, -2.0));
    let view = camera.look_at();
    let pos = camera.get_pos();
    let dir = camera.get_dir();
    let p = nalgebra_glm::vec3(f(pos.x), f(pos.y), f(pos.z));
    let d = nalgebra_glm::vec3(f(dir.x), f(dir.y), f(dir.z));
    let expected = nalgebra_glm::look_at(&p, &(d + p), &nalgebra_glm::vec3(0.0, 1.0, 0.0));
    for k in 0..16 {
        assert_eq!(f(view.0[k]), expected.as_slice()[k]);
    }
}

#[test]
fn change_fov_accumulates_radians() {
    let mut camera = Camera::new(v3(0.0, 0.0, -2.0));
    camera.change_fov(b(45.0));
    let expected = 1.0f32 + 45.0f32.to_radians();
    assert_eq!(f(camera.get_fov()), expected);
}

#[test]
fn controller_applies_mouse_and_zoom_deltas() {
    let mut controller = CameraController::new();
    controller.set_speeds(b(10.0));
    assert_eq!(f(controller.rot_speed), 10.0f32 * 0.01);
    controller.on_signal(SignalType::MouseMoved(4, 6));
    controller.on_signal(SignalType::MouseScrolled(2));
    let mut camera = Camera::new(v3(0.0, 0.0, -2.0));
    let yaw0 = f(camera.get_yaw());
    let fov0 = f(camera.get_fov());
    controller.process_signals(&mut camera);
    let expected_yaw = yaw0 + (6.0f32 * (10.0f32 * 0.01)).to_radians();
    assert_eq!(f(camera.get_yaw()), expected_yaw);
    let expected_fov = fov0 + (2.0f32 * (10.0f32 * 0.1)).to_radians();
    assert_eq!(f(camera.get_fov()), expected_fov);
    assert_eq!(f(controller.delta_zoom), 0.0);
    assert_eq!(controller.signal_list.len(), 0);
}

#[test]
fn scalar_order_matches_float_order() {
    let samples = [-100.5f32, -1.0, 0.0, 0.5, 2.0, 1000.0];
    for &a in samples.iter() {
        for &bv in samples.iter() {
            assert_eq!(fbits::le_bits(b(a), b(bv)), a <= bv);
        }
    }
    assert_eq!(f(fbits::clamp_bits(b(5.0), b(-1.0), b(1.0))), 1.0);
    assert_eq!(f(fbits::clamp_bits(b(-5.0), b(-1.0), b(1.0))), -1.0);
    assert_eq!(f(fbits::clamp_bits(b(0.25), b(-1.0), b(1.0))), 0.25);
    assert_eq!(f(fbits::neg_bits(b(3.5))), -3.5);
}

#[test]
fn scalar_arithmetic_reaches_the_library_through_vertices() {
    // addition through a vertex move
    let mut vertex = tungus::meshes::Vertex::new(b(1.5), b(0.0), b(0.0));
    vertex.translate(b(2.25), b(0.0), b(0.0));
    assert_eq!(f(vertex.pos.x), 3.75);
    // subtraction and multiplication through the componentwise vector helpers
    let d = tungus::algebra::vec3_sub(v3(1.5, 0.0, 0.0), v3(2.25, 0.0, 0.0));
    assert_eq!(f(d.x), -0.75);
    let s = tungus::algebra::vec3_scale(b(1.5), v3(2.0, 4.0, 0.0));
    assert_eq!(f(s.x), 3.0);
    assert_eq!(f(s.y), 6.0);
    // division through the cube builder's halving of the side
    let cube = tungus::meshes::BasicMesh::cube(b(3.0));
    assert_eq!(f(cube.vertices[0].pos.y), 1.5);
}

use cgmath::InnerSpace;
use scene_renderer::camera::camera::{Camera, CameraUniform, Heading, Projection};
use scene_renderer::camera::controller::CameraController;
use scene_renderer::camera::ortho_camera::{
    OrthoBounds, OrthoCamera, OrthoCameraUniform, OrthoProjection, ORTHO_ZFAR, ORTHO_ZNEAR,
};
use scene_renderer::camera::{get_ortho_matrix, get_ortho_projection_matrix};
use scene_renderer::event::{ElementState, MouseScrollDelta, VirtualKeyCode};
use scene_renderer::matrix::{depth_remap, from_translation, identity, to_homogeneous};
use scene_renderer::scalar::clamp;

const SAFE_FRAC_PI_2: f32 = std::f32::consts::FRAC_PI_2 - 0.0001;

fn sin_cos(angle: f32) -> (f32, f32) {
    angle.sin_cos()
}

fn normalize(v: [f32; 3]) -> [f32; 3] {
    cgmath::Vector3::from(v).normalize().into()
}

fn look_to_rh(eye: [f32; 3], direction: [f32; 3], up: [f32; 3]) -> [[f32; 4]; 4] {
    cgmath::Matrix4::look_to_rh(eye.into(), direction.into(), up.into()).into()
}

fn perspective(fovy: f32, aspect: f32, znear: f32, zfar: f32) -> [[f32; 4]; 4] {
    cgmath::perspective(cgmath::Rad(fovy), aspect, znear, zfar).into()
}

fn ortho(l: f32, r: f32, b: f32, t: f32, n: f32, f: f32) -> [[f32; 4]; 4] {
    cgmath::ortho(l, r, b, t, n, f).into()
}

fn multiply(a: [[f32; 4]; 4], b: [[f32; 4]; 4]) -> [[f32; 4]; 4] {
    (cgmath::Matrix4::from(a) * cgmath::Matrix4::from(b)).into()
}

fn to_scalar(n: i64) -> f32 {
    n as f32
}

fn amounts(c: &CameraController<f32>) -> [bool; 6] {
    [
        c.amount_forward,
        c.amount_backward,
        c.amount_left,
        c.amount_right,
        c.amount_up,
        c.amount_down,
    ]
}

fn length(v: [f32; 3]) -> f32 {
    (v[0] * v[0] + v[1] * v[1] + v[2] * v[2]).sqrt()
}

fn axes() -> Heading<f32> {
    Heading { forward: [1.0, 0.0, 0.0], right: [0.0, 0.0, 1.0], look: [0.0, 1.0, 0.0] }
}

#[test]
fn identity_matrix_has_ones_on_the_diagonal() {
    assert_eq!(
        identity(0.0f32, 1.0),
        [[1.0, 0.0, 0.0, 0.0], [0.0, 1.0, 0.0, 0.0], [0.0, 0.0, 1.0, 0.0], [0.0, 0.0, 0.0, 1.0]]
    );
}

#[test]
fn translation_matrix_has_the_offset_in_the_last_column() {
    assert_eq!(
        from_translation([2.0f32, -3.0, 4.5], 0.0, 1.0),
        [[1.0, 0.0, 0.0, 0.0], [0.0, 1.0, 0.0, 0.0], [0.0, 0.0, 1.0, 0.0], [2.0, -3.0, 4.5, 1.0]]
    );
}

#[test]
fn homogeneous_point_ends_in_one() {
    assert_eq!(to_homogeneous([0.0f32, 5.0, 10.0], 1.0), [0.0, 5.0, 10.0, 1.0]);
}

#[test]
fn depth_remap_halves_depth_and_adds_half_of_w() {
    let remap = depth_remap(0.0f32, 1.0);
    assert_eq!(
        remap,
        [[1.0, 0.0, 0.0, 0.0], [0.0, 1.0, 0.0, 0.0], [0.0, 0.0, 0.5, 0.0], [0.0, 0.0, 0.5, 1.0]]
    );
    // The near plane at depth -1 goes to 0, the far plane at depth 1 to 1.
    let remap = cgmath::Matrix4::from(remap);
    let near = remap * cgmath::Vector4::new(0.25, -0.5, -1.0, 1.0);
    let far = remap * cgmath::Vector4::new(0.25, -0.5, 1.0, 1.0);
    assert_eq!(near, cgmath::Vector4::new(0.25, -0.5, 0.0, 1.0));
    assert_eq!(far, cgmath::Vector4::new(0.25, -0.5, 1.0, 1.0));
}

#[test]
fn ortho_matrix_takes_pixels_to_clip_space() {
    let matrix = get_ortho_matrix(800.0f32, 600.0, 0.0, 1.0);
    assert_eq!(
        matrix,
        [
            [2.0 / 800.0, 0.0, 0.0, 0.0],
            [0.0, -2.0 / 600.0, 0.0, 0.0],
            [0.0, 0.0, 1.0, 0.0],
            [-1.0, 1.0, 0.0, 1.0]
        ]
    );
    let matrix = cgmath::Matrix4::from(matrix);
    let corner = matrix * cgmath::Vector4::new(0.0, 0.0, 0.0, 1.0);
    assert_eq!((corner.x, corner.y), (-1.0, 1.0));
    let middle = matrix * cgmath::Vector4::new(400.0, 300.0, 0.0, 1.0);
    assert_eq!((middle.x, middle.y), (0.0, 0.0));
}

#[test]
fn ortho_projection_matrix_hands_the_viewport_to_ortho() {
    let matrix = get_ortho_projection_matrix(800.0f32, 600.0, 0.0, 1.0, &ortho);
    assert_eq!(matrix, ortho(0.0, 800.0, 600.0, 0.0, 1.0, -1.0));
}

#[test]
fn clamp_holds_a_value_between_two_bounds() {
    assert_eq!(clamp(0.5f32, -1.0, 1.0), 0.5);
    assert_eq!(clamp(-7.0f32, -1.0, 1.0), -1.0);
    assert_eq!(clamp(7.0f32, -1.0, 1.0), 1.0);
    assert_eq!(clamp(-1.0f32, -1.0, 1.0), -1.0);
    assert_eq!(clamp(1.0f32, -1.0, 1.0), 1.0);
    assert_eq!(clamp(f32::INFINITY, -1.0, 1.0), 1.0);
    assert_eq!(clamp(f32::NEG_INFINITY, -1.0, 1.0), -1.0);
    assert_eq!(clamp(12i32, 0, 10), 10);
}

#[test]
fn new_controller_is_at_rest() {
    let controller = CameraController::new(4.0f32, 0.4, 0.0);
    assert_eq!(controller.speed, 4.0);
    assert_eq!(controller.sensitivity, 0.4);
    assert_eq!(controller.scroll, 0.0);
    assert_eq!(controller.rotate_horizontal, 0.0);
    assert_eq!(controller.rotate_vertical, 0.0);
    assert_eq!(amounts(&controller), [false; 6]);
}

#[test]
fn movement_keys_set_their_amount() {
    let keys = [
        (VirtualKeyCode::W, 0usize),
        (VirtualKeyCode::Up, 0),
        (VirtualKeyCode::S, 1),
        (VirtualKeyCode::Down, 1),
        (VirtualKeyCode::A, 2),
        (VirtualKeyCode::Left, 2),
        (VirtualKeyCode::D, 3),
        (VirtualKeyCode::Right, 3),
        (VirtualKeyCode::Space, 4),
        (VirtualKeyCode::LShift, 5),
    ];
    for (key, slot) in keys.iter() {
        let mut controller = CameraController::new(4.0f32, 0.4, 0.0);
        assert!(controller.process_keyboard(*key, ElementState::Pressed));
        let mut expected = [false; 6];
        expected[*slot] = true;
        assert_eq!(amounts(&controller), expected);
        assert!(controller.process_keyboard(*key, ElementState::Released));
        assert_eq!(amounts(&controller), [false; 6]);
    }
}

#[test]
fn a_key_overwrites_and_does_not_accumulate() {
    let mut controller = CameraController::new(4.0f32, 0.4, 0.0);
    controller.process_keyboard(VirtualKeyCode::W, ElementState::Pressed);
    controller.process_keyboard(VirtualKeyCode::Up, ElementState::Pressed);
    controller.process_keyboard(VirtualKeyCode::W, ElementState::Pressed);
    assert_eq!(amounts(&controller), [true, false, false, false, false, false]);
    controller.process_keyboard(VirtualKeyCode::Up, ElementState::Released);
    assert_eq!(amounts(&controller), [false; 6]);
}

#[test]
fn other_keys_are_not_handled_and_change_nothing() {
    let others = [
        VirtualKeyCode::B,
        VirtualKeyCode::M,
        VirtualKeyCode::H,
        VirtualKeyCode::N,
        VirtualKeyCode::J,
        VirtualKeyCode::K,
        VirtualKeyCode::Escape,
        VirtualKeyCode::Other,
    ];
    for key in others.iter() {
        let mut controller = CameraController::new(4.0f32, 0.4, 0.0);
        controller.process_keyboard(VirtualKeyCode::D, ElementState::Pressed);
        let before = format!("{:?}", controller);
        assert!(!controller.process_keyboard(*key, ElementState::Pressed));
        assert!(!controller.process_keyboard(*key, ElementState::Released));
        assert_eq!(format!("{:?}", controller), before);
    }
}

#[test]
fn mouse_motion_overwrites_the_rotation() {
    let mut controller = CameraController::new(4.0f32, 0.4, 0.0);
    controller.process_mouse(3.0, -2.0);
    controller.process_mouse(0.5, 7.0);
    assert_eq!(controller.rotate_horizontal, 0.5);
    assert_eq!(controller.rotate_vertical, 7.0);
    assert_eq!(controller.scroll, 0.0);
    assert_eq!(amounts(&controller), [false; 6]);
}

#[test]
fn scroll_overwrites_the_scroll() {
    let mut controller = CameraController::new(4.0f32, 0.4, 0.0);
    controller.process_scroll(&MouseScrollDelta::PixelDelta(5.0, 100.0), &to_scalar);
    controller.process_scroll(&MouseScrollDelta::PixelDelta(7.0, -250.0), &to_scalar);
    assert_eq!(controller.scroll, -250.0);
    assert_eq!(controller.rotate_horizontal, 0.0);
}

#[test]
fn a_line_of_scrolling_counts_as_a_hundred_pixels() {
    let mut controller = CameraController::new(4.0f32, 0.4, 0.0);
    controller.process_scroll(&MouseScrollDelta::LineDelta(9.0, 1.5), &to_scalar);
    assert_eq!(controller.scroll, 150.0);
    controller.process_scroll(&MouseScrollDelta::LineDelta(0.0, -2.0), &to_scalar);
    assert_eq!(controller.scroll, -200.0);
    assert_eq!(scene_renderer::camera::controller::PIXELS_PER_LINE, 100);
}

#[test]
fn finishing_an_update_forgets_mouse_and_wheel_and_keeps_keys() {
    let mut controller = CameraController::new(4.0f32, 0.4, 0.0);
    controller.process_keyboard(VirtualKeyCode::W, ElementState::Pressed);
    controller.process_mouse(3.0, -2.0);
    controller.process_scroll(&MouseScrollDelta::PixelDelta(0.0, 100.0), &to_scalar);
    controller.finish_update(0.0);
    assert_eq!(controller.scroll, 0.0);
    assert_eq!(controller.rotate_horizontal, 0.0);
    assert_eq!(controller.rotate_vertical, 0.0);
    assert_eq!(amounts(&controller), [true, false, false, false, false, false]);
    assert_eq!(controller.speed, 4.0);
    assert_eq!(controller.sensitivity, 0.4);
}

#[test]
fn camera_keeps_what_it_is_given() {
    let camera = Camera::new([0.0f32, 5.0, 10.0], -1.5, -0.35);
    assert_eq!(camera.position, [0.0, 5.0, 10.0]);
    assert_eq!(camera.yaw, -1.5);
    assert_eq!(camera.pitch, -0.35);
}

#[test]
fn heading_of_a_level_camera_along_x() {
    let camera = Camera::new([0.0f32, 0.0, 0.0], 0.0, 0.0);
    let heading = camera.heading(0.0, &sin_cos, &normalize);
    assert_eq!(heading.forward, [1.0, 0.0, 0.0]);
    assert_eq!(heading.right, [0.0, 0.0, 1.0]);
    assert_eq!(heading.look, [1.0, 0.0, 0.0]);
}

#[test]
fn heading_follows_yaw_and_pitch() {
    let yaw: f32 = 0.7;
    let pitch: f32 = -0.3;
    let camera = Camera::new([1.0f32, 2.0, 3.0], yaw, pitch);
    let heading = camera.heading(0.0, &sin_cos, &normalize);
    assert_eq!(heading.forward, normalize([yaw.cos(), 0.0, yaw.sin()]));
    assert_eq!(heading.right, normalize([-yaw.sin(), 0.0, yaw.cos()]));
    assert_eq!(
        heading.look,
        normalize([pitch.cos() * yaw.cos(), pitch.sin(), pitch.cos() * yaw.sin()])
    );
}

#[test]
fn the_camera_looks_along_a_unit_vector() {
    let steps: i32 = 16;
    for i in -steps..=steps {
        for j in -steps..=steps {
            let yaw = SAFE_FRAC_PI_2 * i as f32 / steps as f32;
            let pitch = SAFE_FRAC_PI_2 * j as f32 / steps as f32;
            let heading = Camera::new([0.0f32; 3], yaw, pitch).heading(0.0, &sin_cos, &normalize);
            assert!((length(heading.look) - 1.0).abs() < 1e-5);
            assert!((length(heading.forward) - 1.0).abs() < 1e-5);
            assert!((length(heading.right) - 1.0).abs() < 1e-5);
        }
    }
}

#[test]
fn the_view_matrix_takes_the_eye_to_the_origin() {
    let cameras = [
        Camera::new([0.0f32, 5.0, 10.0], -1.5707964, -0.34906584),
        Camera::new([3.0f32, -2.0, 7.5], 0.4, 1.2),
        Camera::new([-100.0f32, 0.25, 0.0], 2.9, -1.5),
        Camera::new([0.0f32, 0.0, 0.0], 0.0, 0.0),
    ];
    for camera in cameras.iter() {
        let heading = camera.heading(0.0, &sin_cos, &normalize);
        let view = camera.calc_matrix(heading.look, 0.0, 1.0, &look_to_rh);
        assert_eq!(view, look_to_rh(camera.position, heading.look, [0.0, 1.0, 0.0]));
        let eye = cgmath::Matrix4::from(view)
            * cgmath::Vector4::new(camera.position[0], camera.position[1], camera.position[2], 1.0);
        assert!(eye.x.abs() < 1e-3 && eye.y.abs() < 1e-3 && eye.z.abs() < 1e-3);
        assert_eq!(eye.w, 1.0);
    }
}

#[test]
fn update_over_no_time_leaves_the_camera_alone() {
    let mut controller = CameraController::new(4.0f32, 0.4, 0.0);
    controller.process_keyboard(VirtualKeyCode::W, ElementState::Pressed);
    controller.process_keyboard(VirtualKeyCode::D, ElementState::Pressed);
    controller.process_keyboard(VirtualKeyCode::Space, ElementState::Pressed);
    controller.process_mouse(300.0, -200.0);
    controller.process_scroll(&MouseScrollDelta::PixelDelta(0.0, 500.0), &to_scalar);
    let mut camera = Camera::new([0.0f32, 5.0, 10.0], -1.5, -0.35);
    let heading = camera.heading(0.0, &sin_cos, &normalize);
    controller.update_camera(&mut camera, &heading, 0.0, 0.0, 1.0, SAFE_FRAC_PI_2);
    assert_eq!(camera.position, [0.0, 5.0, 10.0]);
    assert_eq!(camera.yaw, -1.5);
    assert_eq!(camera.pitch, -0.35);
}

#[test]
fn update_moves_along_the_heading() {
    let mut controller = CameraController::new(4.0f32, 0.5, 0.0);
    controller.process_keyboard(VirtualKeyCode::W, ElementState::Pressed);
    controller.process_keyboard(VirtualKeyCode::A, ElementState::Pressed);
    controller.process_keyboard(VirtualKeyCode::Space, ElementState::Pressed);
    controller.process_scroll(&MouseScrollDelta::PixelDelta(0.0, 2.0), &to_scalar);
    let mut camera = Camera::new([1.0f32, 2.0, 3.0], 0.0, 0.0);
    controller.update_camera(&mut camera, &axes(), 0.25, 0.0, 1.0, SAFE_FRAC_PI_2);
    // forward along x by 1 * 4 * 0.25, left along -z by 1 * 4 * 0.25,
    // along the view (here y) by 2 * 4 * 0.5 * 0.25, up by 1 * 4 * 0.25
    assert_eq!(camera.position, [2.0, 4.0, 2.0]);
    assert_eq!(camera.yaw, 0.0);
    assert_eq!(camera.pitch, 0.0);
    assert_eq!(controller.scroll, 0.0);
    assert_eq!(amounts(&controller), [true, false, true, false, true, false]);
}

#[test]
fn update_moves_backwards_right_and_down() {
    let mut controller = CameraController::new(2.0f32, 0.5, 0.0);
    controller.process_keyboard(VirtualKeyCode::S, ElementState::Pressed);
    controller.process_keyboard(VirtualKeyCode::D, ElementState::Pressed);
    controller.process_keyboard(VirtualKeyCode::LShift, ElementState::Pressed);
    let mut camera = Camera::new([0.0f32, 0.0, 0.0], 0.0, 0.0);
    controller.update_camera(&mut camera, &axes(), 0.5, 0.0, 1.0, SAFE_FRAC_PI_2);
    assert_eq!(camera.position, [-1.0, -1.0, 1.0]);
}

#[test]
fn update_turns_by_the_mouse_and_forgets_it() {
    let mut controller = CameraController::new(4.0f32, 0.5, 0.0);
    controller.process_mouse(2.0, 1.0);
    let mut camera = Camera::new([1.0f32, 2.0, 3.0], 0.25, 0.5);
    controller.update_camera(&mut camera, &axes(), 0.25, 0.0, 1.0, SAFE_FRAC_PI_2);
    assert_eq!(camera.position, [1.0, 2.0, 3.0]);
    assert_eq!(camera.yaw, 0.25 + 2.0 * 0.5 * 0.25);
    assert_eq!(camera.pitch, 0.5 + -1.0 * 0.5 * 0.25);
    assert_eq!(controller.rotate_horizontal, 0.0);
    assert_eq!(controller.rotate_vertical, 0.0);
    let (yaw, pitch) = (camera.yaw, camera.pitch);
    controller.update_camera(&mut camera, &axes(), 0.25, 0.0, 1.0, SAFE_FRAC_PI_2);
    assert_eq!((camera.yaw, camera.pitch), (yaw, pitch));
}

#[test]
fn pitch_stays_in_the_safe_range() {
    let pushes: [f32; 6] = [1.0e9, -1.0e9, 3.0e38, -3.0e38, f32::INFINITY, f32::NEG_INFINITY];
    for push in pushes.iter() {
        let mut controller = CameraController::new(4.0f32, 0.4, 0.0);
        controller.process_mouse(0.0, *push);
        let mut camera = Camera::new([0.0f32, 5.0, 10.0], -1.5, -0.35);
        controller.update_camera(&mut camera, &axes(), 0.016, 0.0, 1.0, SAFE_FRAC_PI_2);
        assert!(camera.pitch >= -SAFE_FRAC_PI_2 && camera.pitch <= SAFE_FRAC_PI_2);
        // The mouse moving down pushes the pitch up, and the other way round.
        if *push > 0.0 {
            assert_eq!(camera.pitch, -SAFE_FRAC_PI_2);
        } else {
            assert_eq!(camera.pitch, SAFE_FRAC_PI_2);
        }
    }
}

#[test]
fn projection_resize_changes_only_the_aspect() {
    let mut projection = Projection::new(800, 600, 0.785f32, 0.1, 100.0);
    projection.resize(1920, 1080);
    assert_eq!(projection.width, 1920);
    assert_eq!(projection.height, 1080);
    assert_eq!(projection.fovy, 0.785);
    assert_eq!(projection.znear, 0.1);
    assert_eq!(projection.zfar, 100.0);
}

#[test]
fn projection_matrix_is_remap_times_perspective() {
    let projection = Projection::new(800, 600, 0.785f32, 0.1, 100.0);
    let remap = depth_remap(0.0f32, 1.0);
    let matrix = projection.calc_matrix(remap, &to_scalar, &perspective, &multiply);
    assert_eq!(matrix, multiply(remap, perspective(0.785, 800.0 / 600.0, 0.1, 100.0)));
    assert_ne!(matrix, multiply(perspective(0.785, 800.0 / 600.0, 0.1, 100.0), remap));
}

#[test]
fn camera_uniform_starts_as_identity() {
    let uniform = CameraUniform::new(0.0f32, 1.0);
    assert_eq!(uniform.view_position, [0.0; 4]);
    assert_eq!(uniform.view_projection, identity(0.0, 1.0));
}

#[test]
fn camera_uniform_holds_projection_times_view() {
    let camera = Camera::new([0.0f32, 5.0, 10.0], -1.5, -0.35);
    let heading = camera.heading(0.0, &sin_cos, &normalize);
    let view = camera.calc_matrix(heading.look, 0.0, 1.0, &look_to_rh);
    let projection = perspective(0.785, 1.5, 0.1, 100.0);
    let mut uniform = CameraUniform::new(0.0f32, 1.0);
    uniform.update_view_projection(&camera, projection, view, 1.0, &multiply);
    assert_eq!(uniform.view_position, [0.0, 5.0, 10.0, 1.0]);
    assert_eq!(uniform.view_projection, multiply(projection, view));
    assert_ne!(uniform.view_projection, multiply(view, projection));
}

#[test]
fn ortho_projection_default_is_empty() {
    let projection = OrthoProjection::default();
    assert_eq!(projection, OrthoProjection { width: 0, height: 0, znear: -1, zfar: 1 });
}

#[test]
fn ortho_projection_shows_the_viewport_with_y_down() {
    let projection = OrthoProjection::new(800, 600, -1, 1);
    assert_eq!(
        projection.bounds(),
        OrthoBounds { left: 0, right: 800, bottom: 600, top: 0, near: -10, far: 100 }
    );
    assert_eq!((ORTHO_ZNEAR, ORTHO_ZFAR), (-10, 100));
}

#[test]
fn ortho_projection_matrix_is_remap_times_ortho() {
    let projection = OrthoProjection::new(800, 600, -1, 1);
    let remap = depth_remap(0.0f32, 1.0);
    let matrix = projection.calc_matrix(remap, &to_scalar, &ortho, &multiply);
    assert_eq!(matrix, multiply(remap, ortho(0.0, 800.0, 600.0, 0.0, -10.0, 100.0)));
}

#[test]
fn ortho_resize_changes_the_projection_and_not_the_view() {
    let mut projection = OrthoProjection::new(800, 600, -1, 1);
    let mut camera = OrthoCamera::new([4.0f32, 5.0, 6.0], [800, 600]);
    let remap = depth_remap(0.0f32, 1.0);
    let view_before = camera.calc_matrix(0.0, 1.0);
    let projection_before = projection.calc_matrix(remap, &to_scalar, &ortho, &multiply);
    projection.resize(1024, 768);
    camera.resize(1024, 768);
    assert_eq!(projection, OrthoProjection { width: 1024, height: 768, znear: -1, zfar: 1 });
    assert_eq!(
        projection.bounds(),
        OrthoBounds { left: 0, right: 1024, bottom: 768, top: 0, near: -10, far: 100 }
    );
    let projection_after = projection.calc_matrix(remap, &to_scalar, &ortho, &multiply);
    assert_eq!(projection_after, multiply(remap, ortho(0.0, 1024.0, 768.0, 0.0, -10.0, 100.0)));
    assert_ne!(projection_after, projection_before);
    assert_eq!(camera.dimensions, [1024, 768]);
    assert_eq!(camera.position, [4.0, 5.0, 6.0]);
    assert_eq!(camera.calc_matrix(0.0, 1.0), view_before);
    assert_eq!(view_before, from_translation([4.0, 5.0, 6.0], 0.0, 1.0));
}

#[test]
fn ortho_uniform_holds_projection_times_view() {
    let camera = OrthoCamera::new([4.0f32, 5.0, 6.0], [800, 600]);
    let view = camera.calc_matrix(0.0, 1.0);
    let projection = ortho(0.0, 800.0, 600.0, 0.0, -10.0, 100.0);
    let mut uniform = OrthoCameraUniform::new(0.0f32, 1.0);
    assert_eq!(uniform.view_position, [0.0; 4]);
    assert_eq!(uniform.view_projection, identity(0.0, 1.0));
    uniform.update_view_projection(&camera, projection, view, 1.0, &multiply);
    assert_eq!(uniform.view_position, [4.0, 5.0, 6.0, 1.0]);
    assert_eq!(uniform.view_projection, multiply(projection, view));
}

use scene_renderer::event::VirtualKeyCode;
use scene_renderer::light::LightUniform;

#[test]
fn a_light_keeps_position_and_colour() {
    let mut light = LightUniform::new([2.0f32, 2.0, 2.0], [1.0, 0.5, 0.25]);
    assert_eq!(light.position, [2.0, 2.0, 2.0]);
    assert_eq!(light.color, [1.0, 0.5, 0.25]);
    light.update_position([0.0, -1.0, 3.0]);
    assert_eq!(light.position, [0.0, -1.0, 3.0]);
    assert_eq!(light.color, [1.0, 0.5, 0.25]);
}

#[test]
fn light_keys_step_along_their_axis() {
    let steps = [
        (VirtualKeyCode::B, [1.0f32, 2.0, 2.0]),
        (VirtualKeyCode::M, [3.0, 2.0, 2.0]),
        (VirtualKeyCode::H, [2.0, 3.0, 2.0]),
        (VirtualKeyCode::N, [2.0, 1.0, 2.0]),
        (VirtualKeyCode::J, [2.0, 2.0, 1.0]),
        (VirtualKeyCode::K, [2.0, 2.0, 3.0]),
    ];
    for (key, expected) in steps.iter() {
        let mut light = LightUniform::new([2.0f32, 2.0, 2.0], [1.0, 1.0, 1.0]);
        assert!(light.nudge(*key, 1.0));
        assert_eq!(light.position, *expected);
        assert_eq!(light.color, [1.0, 1.0, 1.0]);
    }
}

#[test]
fn opposite_light_keys_undo_each_other() {
    let mut light = LightUniform::new([2.0f32, 2.0, 2.0], [1.0, 1.0, 1.0]);
    light.nudge(VirtualKeyCode::B, 1.0);
    light.nudge(VirtualKeyCode::B, 1.0);
    light.nudge(VirtualKeyCode::M, 1.0);
    light.nudge(VirtualKeyCode::K, 1.0);
    assert_eq!(light.position, [1.0, 2.0, 3.0]);
}

#[test]
fn other_keys_leave_the_light_alone() {
    let others = [
        VirtualKeyCode::W,
        VirtualKeyCode::A,
        VirtualKeyCode::S,
        VirtualKeyCode::D,
        VirtualKeyCode::Space,
        VirtualKeyCode::LShift,
        VirtualKeyCode::Escape,
        VirtualKeyCode::Other,
    ];
    for key in others.iter() {
        let mut light = LightUniform::new([2.0f32, 2.0, 2.0], [1.0, 1.0, 1.0]);
        assert!(!light.nudge(*key, 1.0));
        assert_eq!(light.position, [2.0, 2.0, 2.0]);
    }
}

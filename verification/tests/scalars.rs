use scene_renderer::scalar::{add3, scale3, sub2, sub3};

#[test]
fn vectors_add_component_by_component() {
    assert_eq!(add3([1.0f32, 2.0, 3.0], [0.5, 0.25, -3.0]), [1.5, 2.25, 0.0]);
}

#[test]
fn vectors_subtract_component_by_component() {
    assert_eq!(sub3([1.0f32, 2.0, 3.0], [0.5, 0.25, -3.0]), [0.5, 1.75, 6.0]);
    assert_eq!(sub2([1.0f32, 0.0], [0.25, 1.0]), [0.75, -1.0]);
}

#[test]
fn vectors_scale_by_a_factor() {
    assert_eq!(scale3([1.0f32, -2.0, 0.5], 4.0), [4.0, -8.0, 2.0]);
}

#[test]
fn vectors_of_integers_work_too() {
    assert_eq!(add3([1i64, 2, 3], [10, 20, 30]), [11, 22, 33]);
    assert_eq!(scale3([1i64, -2, 3], -4), [-4, 8, -12]);
}

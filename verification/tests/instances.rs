use cgmath::{InnerSpace, Rotation3};
use scene_renderer::buffer::BufferUsages;
use scene_renderer::instance::{
    create_instances, Instance, InstanceBuffer, Rotation, RotationAxis, ROTATION_DEGREES,
    SPACE_BETWEEN,
};

fn to_scalar(n: i64) -> f32 {
    n as f32
}

#[test]
fn world_positions_are_half_the_grid_coordinates() {
    let world: Vec<[f32; 3]> = create_instances(2)
        .iter()
        .map(|instance| instance.world_position(0.0f32, 1.0, &to_scalar))
        .collect();
    assert_eq!(
        world,
        vec![[-1.5, 0.0, -1.5], [1.5, 0.0, -1.5], [-1.5, 0.0, 1.5], [1.5, 0.0, 1.5]]
    );
    assert_eq!(create_instances(1)[0].world_position(0.0f32, 1.0, &to_scalar), [0.0, 0.0, 0.0]);
}

fn normalize(v: [f32; 3]) -> [f32; 3] {
    cgmath::Vector3::from(v).normalize().into()
}

fn rotation(axis: [f32; 3], degrees: f32) -> [[f32; 4]; 4] {
    cgmath::Matrix4::from(cgmath::Quaternion::from_axis_angle(axis.into(), cgmath::Deg(degrees)))
        .into()
}

fn multiply(a: [[f32; 4]; 4], b: [[f32; 4]; 4]) -> [[f32; 4]; 4] {
    (cgmath::Matrix4::from(a) * cgmath::Matrix4::from(b)).into()
}

fn raw(instance: &Instance) -> [[f32; 4]; 4] {
    let position = instance.world_position(0.0f32, 1.0, &to_scalar);
    instance.to_raw(position, 0.0, 1.0, &to_scalar, &normalize, &rotation, &multiply).model
}

#[test]
fn the_instance_at_the_origin_has_the_identity_for_its_model_matrix() {
    let instance = &create_instances(1)[0];
    assert_eq!(
        raw(instance),
        [[1.0, 0.0, 0.0, 0.0], [0.0, 1.0, 0.0, 0.0], [0.0, 0.0, 1.0, 0.0], [0.0, 0.0, 0.0, 1.0]]
    );
}

#[test]
fn an_instance_off_the_origin_is_turned_about_its_direction_and_then_placed() {
    let instance = &create_instances(2)[1];
    let position = [1.5f32, 0.0, -1.5];
    let turn = rotation(normalize(position), 45.0);
    let place =
        [[1.0, 0.0, 0.0, 0.0], [0.0, 1.0, 0.0, 0.0], [0.0, 0.0, 1.0, 0.0], [1.5, 0.0, -1.5, 1.0]];
    assert_eq!(raw(instance), multiply(place, turn));
    // the matrix keeps lengths: it turns and moves, and does not scale
    let model = cgmath::Matrix4::from(raw(instance));
    let moved = model * cgmath::Vector4::new(1.0, 0.0, 0.0, 0.0);
    assert!((moved.x * moved.x + moved.y * moved.y + moved.z * moved.z - 1.0).abs() < 1e-5);
}

fn identity() -> Rotation {
    Rotation { axis: RotationAxis::UnitZ, degrees: 0 }
}

fn turned() -> Rotation {
    Rotation { axis: RotationAxis::Position, degrees: 45 }
}

#[test]
fn no_instances_for_an_empty_grid() {
    assert!(create_instances(0).is_empty());
}

#[test]
fn one_instance_stands_at_the_origin_unturned() {
    let instances = create_instances(1);
    assert_eq!(instances, vec![Instance { x: 0, z: 0, rotation: identity() }]);
}

#[test]
fn four_instances_stand_symmetric_about_the_origin() {
    let instances = create_instances(2);
    assert_eq!(
        instances,
        vec![
            Instance { x: -3, z: -3, rotation: turned() },
            Instance { x: 3, z: -3, rotation: turned() },
            Instance { x: -3, z: 3, rotation: turned() },
            Instance { x: 3, z: 3, rotation: turned() },
        ]
    );
    // In world units the four stand at (+-1.5, +-1.5), SPACE_BETWEEN apart.
    let world: Vec<(f32, f32)> =
        instances.iter().map(|i| (i.x as f32 / 2.0, i.z as f32 / 2.0)).collect();
    assert_eq!(world, vec![(-1.5, -1.5), (1.5, -1.5), (-1.5, 1.5), (1.5, 1.5)]);
    assert_eq!(world[1].0 - world[0].0, SPACE_BETWEEN as f32);
    assert_eq!(world[2].1 - world[0].1, SPACE_BETWEEN as f32);
}

#[test]
fn nine_instances_row_by_row_with_the_middle_unturned() {
    let instances = create_instances(3);
    assert_eq!(instances.len(), 9);
    let expected: [(i64, i64); 9] =
        [(-6, -6), (0, -6), (6, -6), (-6, 0), (0, 0), (6, 0), (-6, 6), (0, 6), (6, 6)];
    for (instance, (x, z)) in instances.iter().zip(expected.iter()) {
        assert_eq!((instance.x, instance.z), (*x, *z));
    }
    for (i, instance) in instances.iter().enumerate() {
        if i == 4 {
            assert_eq!(instance.rotation, identity());
        } else {
            assert_eq!(instance.rotation, turned());
        }
    }
}

#[test]
fn every_grid_is_symmetric_about_the_origin() {
    for amount in 0u32..7 {
        let instances = create_instances(amount);
        assert_eq!(instances.len(), (amount * amount) as usize);
        for (i, instance) in instances.iter().enumerate() {
            let opposite = &instances[instances.len() - 1 - i];
            assert_eq!((opposite.x, opposite.z), (-instance.x, -instance.z));
        }
    }
}

#[test]
fn neighbours_are_one_spacing_apart() {
    let amount: usize = 5;
    let instances = create_instances(amount as u32);
    for row in 0..amount {
        for column in 0..amount - 1 {
            let here = &instances[row * amount + column];
            let next = &instances[row * amount + column + 1];
            assert_eq!(next.x - here.x, 2 * SPACE_BETWEEN as i64);
            assert_eq!(next.z, here.z);
        }
    }
}

#[test]
fn an_even_grid_has_no_instance_at_the_origin() {
    let instances = create_instances(4);
    assert!(instances.iter().all(|i| i.rotation == turned()));
    assert!(instances.iter().all(|i| i.x != 0 && i.z != 0));
}

#[test]
fn rotation_angle_is_forty_five_degrees() {
    assert_eq!(ROTATION_DEGREES, 45);
    assert_eq!(SPACE_BETWEEN, 3);
}

#[test]
fn instance_buffer_holds_the_whole_list() {
    let instances = create_instances(3);
    let buffer = InstanceBuffer::new(&instances);
    assert_eq!(buffer, Some(InstanceBuffer { count: 9 }));
    let descriptor = buffer.unwrap().descriptor();
    assert_eq!(descriptor.label, "Instance Buffer");
    assert_eq!(descriptor.size, 9 * 64);
    assert_eq!(descriptor.usage, BufferUsages::vertex());
}

#[test]
fn instance_buffer_of_no_instances_is_empty() {
    let buffer = InstanceBuffer::new(&Vec::new()).unwrap();
    assert_eq!(buffer.count, 0);
    assert_eq!(buffer.descriptor().size, 0);
}

use tree_scene::instance::{instance_grid, rotation_for, Instance, Position, Rotation};

#[test]
fn grid_has_sixty_four_instances() {
    assert_eq!(instance_grid().len(), 64);
}

#[test]
fn grid_is_centred_row_major() {
    let g = instance_grid();
    assert_eq!(g[0].position, Position { x: -4, y: 0, z: -4 });
    assert_eq!(g[1].position, Position { x: -3, y: 0, z: -4 });
    assert_eq!(g[8].position, Position { x: -4, y: 0, z: -3 });
    assert_eq!(g[63].position, Position { x: 3, y: 0, z: 3 });
    for (i, inst) in g.iter().enumerate() {
        assert_eq!(inst.position.x, (i % 8) as i32 - 4);
        assert_eq!(inst.position.y, 0);
        assert_eq!(inst.position.z, (i / 8) as i32 - 4);
    }
}

#[test]
fn origin_instance_has_identity_rotation() {
    let g = instance_grid();
    let zero: Vec<&Instance> = g.iter().filter(|i| i.position == Position { x: 0, y: 0, z: 0 }).collect();
    assert_eq!(zero.len(), 1);
    assert_eq!(zero[0].rotation, Rotation::Identity);
    assert_eq!(g[36].rotation, Rotation::Identity);
}

#[test]
fn other_instances_tilt_about_their_position() {
    for inst in instance_grid() {
        if inst.position != (Position { x: 0, y: 0, z: 0 }) {
            assert_eq!(inst.rotation, Rotation::Tilted { axis: inst.position });
        }
    }
}

#[test]
fn rotation_for_special_cases_zero() {
    assert_eq!(rotation_for(Position { x: 0, y: 0, z: 0 }), Rotation::Identity);
    let p = Position { x: 1, y: 0, z: -2 };
    assert_eq!(rotation_for(p), Rotation::Tilted { axis: p });
}

#[test]
fn instance_new_keeps_fields() {
    let p = Position { x: 2, y: 0, z: 1 };
    let i = Instance::new(p, Rotation::Identity);
    assert_eq!(i.position, p);
    assert_eq!(i.rotation, Rotation::Identity);
}

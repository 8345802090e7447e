use chain_rig::{
    spawn_chain, spawn_scene, spawn_spike, BodyKind, BuildError, ChainDescription, Rect,
    SpikeDescription, Vec2i, World,
};

fn description(count: usize) -> ChainDescription {
    ChainDescription {
        tail_pos: Vec2i::new(240, 120),
        direction: Vec2i::new(5, -8),
        link_length: 32,
        link_width: 8,
        link_gap: 4,
        link_count: count,
    }
}

/// World position of a body, in length units.
fn world_pos(world: &World, id: usize) -> (f64, f64) {
    let p = world.bodies[id].pose;
    let (ax, ay) = (p.axis.x as f64, p.axis.y as f64);
    let len = (ax * ax + ay * ay).sqrt();
    let d = p.along_halves as f64 / 2.0;
    (p.origin.x as f64 + d * ax / len, p.origin.y as f64 + d * ay / len)
}

#[test]
fn builds_reference_chain() {
    let mut world = World::new();
    let chain = spawn_chain(&mut world, description(5)).unwrap();
    assert_eq!(world.body_count(), 6);
    assert_eq!(world.joint_count(), 5);
    assert_eq!(chain.tail_entity, 0);
    assert_eq!(chain.head_entity, 5);
    assert_eq!(world.bodies[0].kind, BodyKind::Static);
    assert!(world.bodies[0].shape.is_none());
    let dynamic = world.bodies.iter().filter(|b| b.kind == BodyKind::Dynamic).count();
    assert_eq!(dynamic, 5);
    let heads: Vec<usize> = (0..6).filter(|&i| world.bodies[i].head).collect();
    assert_eq!(heads, vec![5]);
    for i in 1..6 {
        assert_eq!(world.bodies[i].shape, Some(Rect { length: 32, width: 8 }));
        assert_eq!(world.bodies[i].pose.axis, Vec2i::new(5, -8));
    }
    let centers: Vec<u64> = (1..6).map(|i| world.bodies[i].pose.along_halves).collect();
    assert_eq!(centers, vec![32, 104, 176, 248, 320]);
}

#[test]
fn reference_chain_world_positions() {
    let mut world = World::new();
    spawn_chain(&mut world, description(5)).unwrap();
    let (ux, uy) = (5.0 / 89f64.sqrt(), -8.0 / 89f64.sqrt());
    assert!((ux - 0.530).abs() < 0.001 && (uy + 0.848).abs() < 0.001);
    let first = world_pos(&world, 1);
    assert!((first.0 - (240.0 + 16.0 * ux)).abs() < 1e-9);
    assert!((first.1 - (120.0 + 16.0 * uy)).abs() < 1e-9);
    for i in 1..5 {
        let a = world_pos(&world, i);
        let b = world_pos(&world, i + 1);
        assert!((b.0 - a.0 - 36.0 * ux).abs() < 1e-9);
        assert!((b.1 - a.1 - 36.0 * uy).abs() < 1e-9);
    }
}

#[test]
fn joint_anchors() {
    let mut world = World::new();
    spawn_chain(&mut world, description(5)).unwrap();
    for (i, j) in world.joints.iter().enumerate() {
        assert_eq!(j.body_a, i);
        assert_eq!(j.body_b, i + 1);
        assert_eq!(j.anchor_b_halves, -36);
        assert_eq!(j.anchor_a_halves, if i == 0 { 32 } else { 36 });
    }
}

#[test]
fn single_link_chain() {
    let mut world = World::new();
    let chain = spawn_chain(&mut world, description(1)).unwrap();
    assert_eq!(chain.head_entity, 1);
    assert_eq!(world.body_count(), 2);
    assert_eq!(world.joint_count(), 1);
    assert!(world.bodies[1].head);
    assert_eq!(world.joints[0].anchor_a_halves, 32);
}

#[test]
fn second_chain_follows_first() {
    let mut world = World::new();
    spawn_chain(&mut world, description(2)).unwrap();
    let chain = spawn_chain(&mut world, description(3)).unwrap();
    assert_eq!(chain.tail_entity, 3);
    assert_eq!(chain.head_entity, 6);
    assert_eq!(world.joints[2].body_a, 3);
    assert_eq!(world.joints[2].body_b, 4);
    let heads: Vec<usize> = (0..7).filter(|&i| world.bodies[i].head).collect();
    assert_eq!(heads, vec![2, 6]);
}

#[test]
fn empty_chain_is_rejected() {
    let mut world = World::new();
    assert_eq!(
        spawn_chain(&mut world, description(0)),
        Err(BuildError::InvalidChainDescription)
    );
    let mut d = description(0);
    d.direction = Vec2i::new(0, 0);
    assert_eq!(spawn_chain(&mut world, d), Err(BuildError::InvalidChainDescription));
    assert_eq!(world.body_count(), 0);
    assert_eq!(world.joint_count(), 0);
}

#[test]
fn zero_direction_is_rejected() {
    let mut world = World::new();
    let mut d = description(4);
    d.direction = Vec2i::new(0, 0);
    assert_eq!(spawn_chain(&mut world, d), Err(BuildError::InvalidDirection));
    assert_eq!(world.body_count(), 0);
    let spike = SpikeDescription {
        pos: Vec2i::new(0, 0),
        width: 2,
        height: 2,
        direction: Vec2i::new(0, 0),
    };
    assert_eq!(spawn_spike(&mut world, spike), Err(BuildError::InvalidDirection));
    assert_eq!(world.body_count(), 0);
}

#[test]
fn spike_is_kinematic_hazard() {
    let mut world = World::new();
    let spike = SpikeDescription {
        pos: Vec2i::new(200, 0),
        width: 20,
        height: 10,
        direction: Vec2i::new(3, 0),
    };
    let id = spawn_spike(&mut world, spike).unwrap();
    assert_eq!(id, 0);
    let b = world.bodies[0];
    assert_eq!(b.kind, BodyKind::Kinematic);
    assert_eq!(b.push, Some(Vec2i::new(3, 0)));
    assert_eq!(b.shape, Some(Rect { length: 20, width: 10 }));
    assert!(!b.head);
    assert!(b.force.is_none());
}

#[test]
fn level_scene() {
    let mut world = World::new();
    let scene = spawn_scene(&mut world).unwrap();
    assert_eq!(scene.right_chain.tail_entity, 0);
    assert_eq!(scene.right_chain.head_entity, 5);
    assert_eq!(scene.left_chain.tail_entity, 6);
    assert_eq!(scene.left_chain.head_entity, 11);
    assert_eq!(scene.spike, 12);
    assert_eq!(world.body_count(), 13);
    assert_eq!(world.joint_count(), 10);
    assert_eq!(world.bodies[6].pose.origin, Vec2i::new(-100, 220));
    assert_eq!(world.bodies[12].push, Some(Vec2i::new(1, 0)));
}

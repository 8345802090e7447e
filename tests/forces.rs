use chain_rig::{
    heads_scared, spawn_chain, spawn_spike, ChainDescription, Force, SpikeDescription, Vec2i,
    World, PUSH_SCALE,
};

fn chain(x: i32, count: usize) -> ChainDescription {
    ChainDescription {
        tail_pos: Vec2i::new(x, 100),
        direction: Vec2i::new(0, -1),
        link_length: 10,
        link_width: 2,
        link_gap: 1,
        link_count: count,
    }
}

fn spike(x: i32, dx: i32, dy: i32) -> SpikeDescription {
    SpikeDescription { pos: Vec2i::new(x, 0), width: 4, height: 4, direction: Vec2i::new(dx, dy) }
}

#[test]
fn no_hazard_force_stays_zero() {
    let mut world = World::new();
    let c = spawn_chain(&mut world, chain(0, 3)).unwrap();
    assert!(world.bodies[c.head_entity].force.is_none());
    for _ in 0..5 {
        heads_scared(&mut world);
        assert_eq!(world.bodies[c.head_entity].force, Some(Force { x: 0, y: 0 }));
    }
    for i in 0..c.head_entity {
        assert!(world.bodies[i].force.is_none());
    }
}

#[test]
fn every_hazard_pushes_every_head() {
    let mut world = World::new();
    let a = spawn_chain(&mut world, chain(0, 2)).unwrap();
    let b = spawn_chain(&mut world, chain(500, 4)).unwrap();
    spawn_spike(&mut world, spike(-1000, 1, 0)).unwrap();
    spawn_spike(&mut world, spike(9000, 2, -3)).unwrap();
    spawn_spike(&mut world, spike(30, 0, 5)).unwrap();
    heads_scared(&mut world);
    let expected = Force { x: 3 * PUSH_SCALE, y: 2 * PUSH_SCALE };
    assert_eq!(PUSH_SCALE, 100000);
    assert_eq!(world.bodies[a.head_entity].force, Some(expected));
    assert_eq!(world.bodies[b.head_entity].force, Some(expected));
    let total: i128 = world.bodies.iter().filter_map(|x| x.force).map(|f| f.x).sum();
    assert_eq!(total, 2 * 3 * PUSH_SCALE);
}

#[test]
fn repeated_ticks_do_not_accumulate() {
    let mut world = World::new();
    let a = spawn_chain(&mut world, chain(0, 2)).unwrap();
    spawn_spike(&mut world, spike(0, 1, 0)).unwrap();
    heads_scared(&mut world);
    heads_scared(&mut world);
    heads_scared(&mut world);
    assert_eq!(world.bodies[a.head_entity].force, Some(Force { x: PUSH_SCALE, y: 0 }));
}

#[test]
fn hazards_without_heads() {
    let mut world = World::new();
    spawn_spike(&mut world, spike(0, 1, 0)).unwrap();
    heads_scared(&mut world);
    assert!(world.bodies[0].force.is_none());
    let mut empty = World::new();
    heads_scared(&mut empty);
    assert_eq!(empty.body_count(), 0);
}

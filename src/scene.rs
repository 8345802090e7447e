//! The level's actors: two chains hanging from the upper part of the map
//! and one hazard pushing to the right.
use vstd::prelude::*;
use crate::chain::{
    chain_bodies, chain_error, chain_joints, fits, spawn_chain, spawn_spike, spike_body,
    BuildError, Chain, ChainDescription, SpikeDescription,
};
use crate::world::{EntityId, Vec2i, World};

verus! {

/// Handles of the actors of the level.
#[derive(Clone, Copy, Debug, PartialEq, Eq, Structural)]
pub struct Scene {
    pub right_chain: Chain,
    pub left_chain: Chain,
    pub spike: EntityId,
}

pub open spec fn right_chain_layout() -> ChainDescription {
    ChainDescription {
        tail_pos: Vec2i { x: 240, y: 120 },
        direction: Vec2i { x: 5, y: -8i32 },
        link_length: 32,
        link_width: 8,
        link_gap: 4,
        link_count: 5,
    }
}

pub open spec fn left_chain_layout() -> ChainDescription {
    ChainDescription {
        tail_pos: Vec2i { x: -100i32, y: 220 },
        direction: Vec2i { x: -5i32, y: -1i32 },
        link_length: 32,
        link_width: 8,
        link_gap: 4,
        link_count: 5,
    }
}

pub open spec fn spike_layout() -> SpikeDescription {
    SpikeDescription {
        pos: Vec2i { x: 200, y: 0 },
        width: 20,
        height: 20,
        direction: Vec2i { x: 1, y: 0 },
    }
}

/// The chain hanging down to the right of the map's center.
pub fn right_chain() -> (r: ChainDescription)
    ensures
        r == right_chain_layout(),
{
    ChainDescription {
        tail_pos: Vec2i { x: 240, y: 120 },
        direction: Vec2i { x: 5, y: -8 },
        link_length: 32,
        link_width: 8,
        link_gap: 4,
        link_count: 5,
    }
}

/// The chain hanging down to the left of the map's center.
pub fn left_chain() -> (r: ChainDescription)
    ensures
        r == left_chain_layout(),
{
    ChainDescription {
        tail_pos: Vec2i { x: -100, y: 220 },
        direction: Vec2i { x: -5, y: -1 },
        link_length: 32,
        link_width: 8,
        link_gap: 4,
        link_count: 5,
    }
}

/// The hazard of the level.
pub fn spike() -> (r: SpikeDescription)
    ensures
        r == spike_layout(),
{
    SpikeDescription {
        pos: Vec2i { x: 200, y: 0 },
        width: 20,
        height: 20,
        direction: Vec2i { x: 1, y: 0 },
    }
}

/// Builds the level's two chains and its hazard into `world`, in that order.
pub fn spawn_scene(world: &mut World) -> (r: Result<Scene, BuildError>)
    requires
        old(world).bodies@.len() + 13 < usize::MAX,
    ensures
        ({
            let base = old(world).bodies@.len() as int;
            &&& r == Ok::<Scene, BuildError>(
                Scene {
                    right_chain: Chain {
                        head_entity: (base + 5) as usize,
                        tail_entity: base as usize,
                    },
                    left_chain: Chain {
                        head_entity: (base + 11) as usize,
                        tail_entity: (base + 6) as usize,
                    },
                    spike: (base + 12) as usize,
                },
            )
            &&& final(world).bodies@ == old(world).bodies@ + chain_bodies(right_chain_layout())
                + chain_bodies(left_chain_layout()) + seq![spike_body(spike_layout())]
            &&& final(world).joints@ == old(world).joints@ + chain_joints(right_chain_layout(), base)
                + chain_joints(left_chain_layout(), base + 6)
        }),
        old(world).wf() ==> final(world).wf(),
{
    let ghost b0 = world.bodies@;
    let ghost j0 = world.joints@;
    let right = right_chain();
    let left = left_chain();
    assert(fits(right) && fits(left) && chain_error(right).is_none() && chain_error(left).is_none());
    let right_chain = match spawn_chain(world, right) {
        Ok(c) => c,
        Err(e) => {
            return Err(e);
        },
    };
    assert(chain_bodies(right).len() == 6);
    let left_chain = match spawn_chain(world, left) {
        Ok(c) => c,
        Err(e) => {
            return Err(e);
        },
    };
    assert(chain_bodies(left).len() == 6);
    let spike = match spawn_spike(world, spike()) {
        Ok(id) => id,
        Err(e) => {
            return Err(e);
        },
    };
    assert(world.bodies@ =~= b0 + chain_bodies(right) + chain_bodies(left) + seq![
        spike_body(spike_layout()),
    ]);
    assert(world.joints@ =~= j0 + chain_joints(right, b0.len() as int) + chain_joints(
        left,
        b0.len() + 6int,
    ));
    Ok(Scene { right_chain, left_chain, spike })
}

} // verus!

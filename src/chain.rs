//! Building jointed chains and hazards into the world.
//!
//! A chain hangs from a static, geometry-less tail anchor. Its links are
//! dynamic rectangles laid out along the chain's direction, each joined to its
//! predecessor (the tail anchor for the first) by a rotational joint, and the
//! last link carries the head marker.
//!
//! The first link's center lies half a link length from the tail along the
//! chain's direction; each later center lies `link_length + link_gap` further.
use vstd::prelude::*;
use crate::world::{Body, BodyKind, EntityId, Joint, Pose, Rect, Vec2i, World};

verus! {

/// Declarative description of one chain.
#[derive(Clone, Copy, Debug, PartialEq, Eq, Structural)]
pub struct ChainDescription {
    /// Position of the tail anchor.
    pub tail_pos: Vec2i,
    /// Direction from tail to head; need not be normalized, must not be zero.
    pub direction: Vec2i,
    pub link_length: u32,
    pub link_width: u32,
    /// Gap left between two consecutive links.
    pub link_gap: u32,
    /// Number of links; at least one.
    pub link_count: usize,
}

/// Handles of a built chain. The world owns the entities.
#[derive(Clone, Copy, Debug, PartialEq, Eq, Structural)]
pub struct Chain {
    pub head_entity: EntityId,
    pub tail_entity: EntityId,
}

/// Declarative description of one hazard.
#[derive(Clone, Copy, Debug, PartialEq, Eq, Structural)]
pub struct SpikeDescription {
    pub pos: Vec2i,
    pub width: u32,
    pub height: u32,
    /// Push direction; also the direction the hazard faces. Must not be zero.
    pub direction: Vec2i,
}

/// Why a description was rejected. Nothing is added to the world then.
#[derive(Clone, Copy, Debug, PartialEq, Eq, Structural)]
pub enum BuildError {
    /// The chain has no links.
    InvalidChainDescription,
    /// The direction has zero length and cannot give an orientation.
    InvalidDirection,
}

/// Distance between the centers of two consecutive links, in half units.
pub open spec fn pitch_halves(d: ChainDescription) -> int {
    2 * (d.link_length + d.link_gap)
}

/// Distance of link `i`'s center from the tail along the direction, in half units.
pub open spec fn center_halves(d: ChainDescription, i: int) -> int {
    d.link_length + i * pitch_halves(d)
}

/// Whether the layout of the chain fits the integer widths used.
pub open spec fn fits(d: ChainDescription) -> bool {
    d.link_count * pitch_halves(d) <= u64::MAX
}

pub open spec fn tail_body(d: ChainDescription) -> Body {
    Body {
        kind: BodyKind::Static,
        pose: Pose { origin: d.tail_pos, axis: d.direction, along_halves: 0 },
        shape: None,
        head: false,
        push: None,
        force: None,
    }
}

pub open spec fn link_body(d: ChainDescription, i: int) -> Body {
    Body {
        kind: BodyKind::Dynamic,
        pose: Pose {
            origin: d.tail_pos,
            axis: d.direction,
            along_halves: center_halves(d, i) as u64,
        },
        shape: Some(Rect { length: d.link_length, width: d.link_width }),
        head: i == d.link_count - 1,
        push: None,
        force: None,
    }
}

/// The bodies a chain adds to the world: the tail anchor, then the links
/// from tail to head.
pub open spec fn chain_bodies(d: ChainDescription) -> Seq<Body> {
    seq![tail_body(d)] + Seq::new(d.link_count as nat, |i: int| link_body(d, i))
}

/// Anchor on the leading body of joint `i`: half a link from the
/// geometry-less tail, half a pitch from a link.
pub open spec fn lead_anchor_halves(d: ChainDescription, i: int) -> int {
    if i == 0 {
        d.link_length as int
    } else {
        d.link_length + d.link_gap
    }
}

/// Anchor on the trailing body of every joint: its trailing edge, half a pitch back.
pub open spec fn trail_anchor_halves(d: ChainDescription) -> int {
    -(d.link_length + d.link_gap)
}

/// Joint `i` of a chain whose tail anchor got identifier `base`.
pub open spec fn link_joint(d: ChainDescription, base: int, i: int) -> Joint {
    Joint {
        body_a: (base + i) as usize,
        body_b: (base + i + 1) as usize,
        anchor_a_halves: lead_anchor_halves(d, i) as i64,
        anchor_b_halves: trail_anchor_halves(d) as i64,
    }
}

/// The joints a chain adds to the world.
pub open spec fn chain_joints(d: ChainDescription, base: int) -> Seq<Joint> {
    Seq::new(d.link_count as nat, |i: int| link_joint(d, base, i))
}

/// The error a chain description is rejected with, if any.
pub open spec fn chain_error(d: ChainDescription) -> Option<BuildError> {
    if d.link_count == 0 {
        Some(BuildError::InvalidChainDescription)
    } else if d.direction.is_zero_spec() {
        Some(BuildError::InvalidDirection)
    } else {
        None
    }
}

pub open spec fn spike_body(d: SpikeDescription) -> Body {
    Body {
        kind: BodyKind::Kinematic,
        pose: Pose { origin: d.pos, axis: d.direction, along_halves: 0 },
        shape: Some(Rect { length: d.width, width: d.height }),
        head: false,
        push: Some(d.direction),
        force: None,
    }
}

proof fn lemma_center_fits(d: ChainDescription, i: int)
    requires
        0 <= i < d.link_count,
        fits(d),
    ensures
        0 <= center_halves(d, i) <= u64::MAX,
        center_halves(d, i) + pitch_halves(d) == center_halves(d, i + 1),
{
    let p = pitch_halves(d);
    let n = d.link_count as int;
    assert(0 <= i * p) by (nonlinear_arith)
        requires
            0 <= i,
            0 <= p,
    ;
    assert(i * p + p <= n * p) by (nonlinear_arith)
        requires
            i < n,
            0 <= p,
    ;
    assert(i * p + p == (i + 1) * p) by (nonlinear_arith);
}

/// Builds a chain into `world` and returns the handles of its head and tail.
///
/// The tail anchor gets the first free identifier, the links the following
/// ones from tail to head; the joints are appended in the same order.
pub fn spawn_chain(world: &mut World, description: ChainDescription) -> (r: Result<
    Chain,
    BuildError,
>)
    requires
        fits(description),
        old(world).bodies@.len() + description.link_count < usize::MAX,
    ensures
        match chain_error(description) {
            Some(e) => r == Err::<Chain, BuildError>(e) && *final(world) == *old(world),
            None => {
                let base = old(world).bodies@.len() as int;
                &&& r == Ok::<Chain, BuildError>(
                    Chain {
                        head_entity: (base + description.link_count) as usize,
                        tail_entity: base as usize,
                    },
                )
                &&& final(world).bodies@ == old(world).bodies@ + chain_bodies(description)
                &&& final(world).joints@ == old(world).joints@ + chain_joints(description, base)
            },
        },
        old(world).wf() ==> final(world).wf(),
{
    let d = description;
    if d.link_count == 0 {
        return Err(BuildError::InvalidChainDescription);
    }
    if d.direction.is_zero() {
        return Err(BuildError::InvalidDirection);
    }
    let ghost old_bodies = world.bodies@;
    let ghost old_joints = world.joints@;
    let ghost wf_before = world.wf();
    let base: usize = world.bodies.len();
    let pitch: u64 = 2 * (d.link_length as u64 + d.link_gap as u64);
    let lead_first: i64 = d.link_length as i64;
    let lead: i64 = d.link_length as i64 + d.link_gap as i64;
    let trail: i64 = -lead;

    world.bodies.push(
        Body {
            kind: BodyKind::Static,
            pose: Pose { origin: d.tail_pos, axis: d.direction, along_halves: 0 },
            shape: None,
            head: false,
            push: None,
            force: None,
        },
    );
    proof {
        assert(world.bodies@ =~= old_bodies + chain_bodies(d).take(1));
        assert(world.joints@ =~= old_joints + chain_joints(d, base as int).take(0));
    }

    let mut previous: EntityId = base;
    let mut center: u64 = d.link_length as u64;
    let mut i: usize = 0;
    while i < d.link_count
        invariant
            d == description,
            chain_error(d).is_none(),
            fits(d),
            base == old_bodies.len(),
            base + d.link_count < usize::MAX,
            pitch == pitch_halves(d),
            lead_first == lead_anchor_halves(d, 0),
            lead == d.link_length + d.link_gap,
            trail == trail_anchor_halves(d),
            0 <= i <= d.link_count,
            previous == base + i,
            center == center_halves(d, i as int) || i == d.link_count,
            world.bodies@ == old_bodies + chain_bodies(d).take(i + 1),
            world.joints@ == old_joints + chain_joints(d, base as int).take(i as int),
            old_bodies.len() + i + 1 == world.bodies@.len(),
            old_joints.len() + i == world.joints@.len(),
            old_bodies.len() == base,
            wf_before ==> world.wf(),
        decreases d.link_count - i,
    {
        proof {
            lemma_center_fits(d, i as int);
        }
        let current: EntityId = world.bodies.len();
        world.bodies.push(
            Body {
                kind: BodyKind::Dynamic,
                pose: Pose { origin: d.tail_pos, axis: d.direction, along_halves: center },
                shape: Some(Rect { length: d.link_length, width: d.link_width }),
                head: i + 1 == d.link_count,
                push: None,
                force: None,
            },
        );
        world.joints.push(
            Joint {
                body_a: previous,
                body_b: current,
                anchor_a_halves: if i == 0 {
                    lead_first
                } else {
                    lead
                },
                anchor_b_halves: trail,
            },
        );
        proof {
            assert(world.bodies@ =~= old_bodies + chain_bodies(d).take(i + 2));
            assert(world.joints@ =~= old_joints + chain_joints(d, base as int).take(i + 1));
        }
        previous = current;
        if i + 1 < d.link_count {
            proof {
                lemma_center_fits(d, i + 1);
            }
            center = center + pitch;
        }
        i = i + 1;
    }
    proof {
        assert(chain_bodies(d).take(d.link_count + 1) =~= chain_bodies(d));
        assert(chain_joints(d, base as int).take(d.link_count as int) =~= chain_joints(
            d,
            base as int,
        ));
    }
    Ok(Chain { head_entity: previous, tail_entity: base })
}

/// Builds a hazard into `world` and returns its identifier.
pub fn spawn_spike(world: &mut World, description: SpikeDescription) -> (r: Result<
    EntityId,
    BuildError,
>)
    ensures
        description.direction.is_zero_spec() ==> r == Err::<EntityId, BuildError>(
            BuildError::InvalidDirection,
        ) && *final(world) == *old(world),
        !description.direction.is_zero_spec() ==> {
            &&& r == Ok::<EntityId, BuildError>(old(world).bodies@.len() as usize)
            &&& final(world).bodies@ == old(world).bodies@.push(spike_body(description))
            &&& final(world).joints@ == old(world).joints@
        },
        old(world).wf() ==> final(world).wf(),
{
    let d = description;
    if d.direction.is_zero() {
        return Err(BuildError::InvalidDirection);
    }
    let id: EntityId = world.bodies.len();
    world.bodies.push(
        Body {
            kind: BodyKind::Kinematic,
            pose: Pose { origin: d.pos, axis: d.direction, along_halves: 0 },
            shape: Some(Rect { length: d.width, width: d.height }),
            head: false,
            push: Some(d.direction),
            force: None,
        },
    );
    Ok(id)
}

/// A chain of `n` links adds `n + 1` bodies: first one static, geometry-less
/// tail anchor, then `n` dynamic rectangular links; and `n` joints. Exactly
/// one of the bodies carries the head marker: the last link created.
pub proof fn lemma_chain_counts(d: ChainDescription, base: int)
    requires
        d.link_count >= 1,
    ensures
        chain_bodies(d).len() == d.link_count + 1,
        chain_joints(d, base).len() == d.link_count,
        chain_bodies(d)[0].kind == BodyKind::Static,
        chain_bodies(d)[0].shape.is_none(),
        forall|i: int|
            1 <= i <= d.link_count ==> (#[trigger] chain_bodies(d)[i]).kind == BodyKind::Dynamic
                && chain_bodies(d)[i].shape == Some(
                Rect { length: d.link_length, width: d.link_width },
            ),
        forall|i: int|
            0 <= i < chain_bodies(d).len() ==> ((#[trigger] chain_bodies(d)[i]).head <==> i
                == d.link_count),
{
}

/// Link centers form an arithmetic sequence along the chain's direction: the
/// first lies half a link from the tail, each next one `link_length +
/// link_gap` further, and all are measured from the tail along the direction.
pub proof fn lemma_link_centers(d: ChainDescription)
    requires
        d.link_count >= 1,
        fits(d),
    ensures
        chain_bodies(d)[1].pose.along_halves == d.link_length,
        forall|i: int|
            1 <= i <= d.link_count ==> (#[trigger] chain_bodies(d)[i]).pose.origin == d.tail_pos
                && chain_bodies(d)[i].pose.axis == d.direction,
        forall|i: int|
            1 <= i < d.link_count ==> (#[trigger] chain_bodies(d)[i + 1]).pose.along_halves
                == chain_bodies(d)[i].pose.along_halves + 2 * (d.link_length + d.link_gap),
{
    assert forall|i: int| 1 <= i < d.link_count implies (#[trigger] chain_bodies(d)[i
        + 1]).pose.along_halves == chain_bodies(d)[i].pose.along_halves + 2 * (d.link_length
        + d.link_gap) by {
        lemma_center_fits(d, i - 1);
        lemma_center_fits(d, i);
    }
    lemma_center_fits(d, 0);
}

/// Every joint joins a body to the one created right after it. The anchor on
/// the trailing body is always half a pitch back, `-(link_length + link_gap) /
/// 2`; the anchor on the leading body is half a link on the tail anchor and
/// half a pitch on a link.
pub proof fn lemma_joint_anchors(d: ChainDescription, base: int)
    requires
        d.link_count >= 1,
        0 <= base,
        base + d.link_count <= usize::MAX,
    ensures
        chain_joints(d, base)[0].anchor_a_halves == d.link_length,
        forall|i: int|
            0 <= i < d.link_count ==> {
                &&& (#[trigger] chain_joints(d, base)[i]).anchor_b_halves == -(d.link_length
                    + d.link_gap)
                &&& chain_joints(d, base)[i].body_a == base + i
                &&& chain_joints(d, base)[i].body_b == base + i + 1
            },
        forall|i: int|
            1 <= i < d.link_count ==> (#[trigger] chain_joints(d, base)[i]).anchor_a_halves
                == d.link_length + d.link_gap,
{
}

} // verus!

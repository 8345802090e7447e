//! The entity arena that chains and hazards live in.
//!
//! Entities are records in a contiguous store, identified by their index.
//! Nothing is ever removed, so an index stays valid for the life of the world.
//! Cross references (joint endpoints, chain handles) are plain indices.
//!
//! Positions are exact: a pose places a body at `origin` moved by
//! `along_halves / 2` length units along the unit vector of `axis`, and turns
//! it so that its local x axis points along `axis`. Converting that into
//! floating-point world coordinates is left to the engine side.
use vstd::prelude::*;

verus! {

/// Identifier of an entity: its index in the arena.
pub type EntityId = usize;

/// A 2D vector with integer components (a point, or an unnormalized direction).
#[derive(Clone, Copy, Debug, PartialEq, Eq, Structural)]
pub struct Vec2i {
    pub x: i32,
    pub y: i32,
}

impl Vec2i {
    pub fn new(x: i32, y: i32) -> (r: Vec2i)
        ensures
            r == (Vec2i { x, y }),
    {
        Vec2i { x, y }
    }

    /// Whether the vector has zero length, and so names no direction.
    pub fn is_zero(&self) -> (r: bool)
        ensures
            r == self.is_zero_spec(),
    {
        self.x == 0 && self.y == 0
    }

    pub open spec fn is_zero_spec(&self) -> bool {
        self.x == 0 && self.y == 0
    }
}

/// An accumulated force.
#[derive(Clone, Copy, Debug, PartialEq, Eq, Structural)]
pub struct Force {
    pub x: i128,
    pub y: i128,
}

/// How the physics engine moves a body.
#[derive(Clone, Copy, Debug, PartialEq, Eq, Structural)]
pub enum BodyKind {
    /// Never moves.
    Static,
    /// Moved by forces, joints and contacts.
    Dynamic,
    /// Moved from outside; collides but is not moved by forces.
    Kinematic,
}

/// Where a body is and which way it faces.
#[derive(Clone, Copy, Debug, PartialEq, Eq, Structural)]
pub struct Pose {
    /// Reference point.
    pub origin: Vec2i,
    /// Direction of the body's local x axis, and of the offset from `origin`.
    pub axis: Vec2i,
    /// Distance from `origin` along `axis`, in half length units.
    pub along_halves: u64,
}

/// A rectangular collision shape, `length` along the local x axis.
#[derive(Clone, Copy, Debug, PartialEq, Eq, Structural)]
pub struct Rect {
    pub length: u32,
    pub width: u32,
}

/// One entity of the world.
#[derive(Clone, Copy, Debug)]
pub struct Body {
    pub kind: BodyKind,
    pub pose: Pose,
    /// Collision shape; `None` for a geometry-less body.
    pub shape: Option<Rect>,
    /// Head marker: the free end of a chain.
    pub head: bool,
    /// Push direction of a hazard; `None` for anything else.
    pub push: Option<Vec2i>,
    /// Persistent force accumulator, attached lazily to chain heads.
    pub force: Option<Force>,
}

/// A single-degree-of-freedom rotational joint between two bodies.
///
/// Each anchor is an offset along the local x axis of its own body, in half
/// length units.
#[derive(Clone, Copy, Debug, PartialEq, Eq, Structural)]
pub struct Joint {
    pub body_a: EntityId,
    pub body_b: EntityId,
    pub anchor_a_halves: i64,
    pub anchor_b_halves: i64,
}

/// The arena of bodies and joints.
pub struct World {
    pub bodies: Vec<Body>,
    pub joints: Vec<Joint>,
}

impl World {
    /// Every joint connects two distinct bodies that exist.
    pub open spec fn wf(&self) -> bool {
        forall|j: int|
            0 <= j < self.joints@.len() ==> {
                &&& #[trigger] self.joints@[j].body_a < self.bodies@.len()
                &&& self.joints@[j].body_b < self.bodies@.len()
                &&& self.joints@[j].body_a != self.joints@[j].body_b
            }
    }

    /// An empty world.
    pub fn new() -> (r: World)
        ensures
            r.bodies@.len() == 0,
            r.joints@.len() == 0,
            r.wf(),
    {
        World { bodies: Vec::new(), joints: Vec::new() }
    }

    /// Number of entities.
    pub fn body_count(&self) -> (r: usize)
        ensures
            r == self.bodies@.len(),
    {
        self.bodies.len()
    }

    /// Number of joints.
    pub fn joint_count(&self) -> (r: usize)
        ensures
            r == self.joints@.len(),
    {
        self.joints.len()
    }
}

} // verus!

//! A chain-rigging core for a 2D physics game: a serially jointed chain
//! builder over an entity arena, a hazard push step applied to chain heads
//! every tick, and a pause/step controller for the simulation clock.

pub mod chain;
pub mod clock;
pub mod hazard;
pub mod scene;
pub mod world;

pub use chain::{spawn_chain, spawn_spike, BuildError, Chain, ChainDescription, SpikeDescription};
pub use clock::{step_quantum_ms, transition, ClockAction, ClockEvent, ClockState};
pub use hazard::{heads_scared, PUSH_SCALE};
pub use scene::{spawn_scene, Scene};
pub use world::{Body, BodyKind, EntityId, Force, Joint, Pose, Rect, Vec2i, World};

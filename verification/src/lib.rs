//! Camera model and surface-lifecycle state machine for an interactive
//! equirectangular panorama viewer.
//!
//! The crate holds the two pieces of the viewer that carry real invariants:
//! the input-driven camera state machine (orientation angles, field of view,
//! per-tick updates with clamping and reset) and the presentation-surface
//! lifecycle (initial configuration, resize, and recovery from transient
//! surface errors). Angles are kept in whole degrees; the host that owns the
//! window and the GPU converts them at its edge.

pub mod camera;
pub mod viewer;

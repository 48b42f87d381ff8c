//! A guest-side bridge to a real-time scene host: handles to host-owned
//! objects and materials, the shared keypoint buffer that carries one pose
//! detection at a time, and the lifecycle of the single guest instance that
//! the host drives through its entry points.
//!
//! Coordinates are kept generic: the library moves scalars between the host
//! and the guest without doing arithmetic on them.
//!
//! Coordinate system: +X = left, +Y = up, +Z = forward. An object's position
//! is the top-left corner of its bounding box.

pub mod pose;
pub mod bridge;
pub mod handle;

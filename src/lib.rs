//! Discrete core of a gravitational N-body simulation: body kinds, bounded
//! trails, the id-keyed body roster, the collision pair scan, force-backend
//! and tick scheduling, octree decisions, scenario names, generated names and
//! colours, and the byte layout of the GPU kernel's uniform block.

pub mod collision;
pub mod gpu_layout;
pub mod kind;
pub mod naming;
pub mod octree;
pub mod roster;
pub mod scenario;
pub mod schedule;
pub mod trail;

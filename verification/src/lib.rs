//! Types and verified logic for simulating FFXIV combat.

pub mod enums;
pub mod job;
pub mod math;
pub mod rng;
pub mod runtime;
pub mod timeline;
pub mod timing;
pub mod util;
pub mod world;

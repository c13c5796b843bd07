//! Decoder for the binary physics files of a classic first-person-shooter
//! engine.
//!
//! Two generations of the physics format exist. The older one is a flat
//! stream of tagged chunks; the newer one is wrapped in a directory-indexed
//! archive of embedded subfiles. Both carry five kinds of fixed-size records:
//! monsters, effects, projectiles, weapons and a pair of movement profiles.
//!
//! Everything here works on bytes that are already in memory and is verified:
//! each decoder's contract ties its result to a byte-offset model of the
//! format.

pub mod error;
pub mod namedb;
pub mod physics;
pub mod util;
pub mod wad;

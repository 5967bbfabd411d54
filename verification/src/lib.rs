//! Core rules of a small arcade game: a rotating player shape made of
//! colored angular sectors must "match" colored enemies that spawn in
//! timed waves around it.  This crate holds the game's decision logic —
//! the level table, the wave scheduler, the sector-match collision rule
//! and the level-progression state machine — over plain integer values.
//! Angles are measured in millidegrees and times in milliseconds, so
//! every rule here is exact; the engine shell converts at the edges.
use vstd::prelude::*;

pub mod angle;
pub mod color;
pub mod enemy;
pub mod level;
pub mod player;
pub mod state;

verus! {

/// One full turn, in millidegrees.  Divisible by every sector count the
/// level table uses (2 through 6), so sector widths are exact.
pub const TURN_MDEG: u32 = 360000;

/// Half a turn, in millidegrees.
pub const HALF_TURN_MDEG: u32 = 180000;

} // verus!

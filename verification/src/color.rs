//! The fixed six-color palette shared by enemies and the player's
//! sectors, and the two ordinal mappings the game uses.
//!
//! Note: the spawn/mesh palette places yellow at ordinal 4 and cyan at
//! ordinal 5, while the collision check maps cyan to sector 4 and
//! yellow to sector 5 — the two orders swap the last pair.  Both are
//! kept exactly as the game defines them.
use vstd::prelude::*;

verus! {

/// A color tag drawn from the game's fixed palette.
#[derive(Clone, Copy, Debug, PartialEq, Eq, Structural, Default)]
pub enum ObjectColor {
    #[default]
    RED,
    BLUE,
    GREEN,
    PINK,
    YELLOW,
    CYAN,
}

/// Ordinal of a color in the spawn/mesh palette order.
pub open spec fn spawn_index(c: ObjectColor) -> int {
    match c {
        ObjectColor::RED => 0,
        ObjectColor::BLUE => 1,
        ObjectColor::GREEN => 2,
        ObjectColor::PINK => 3,
        ObjectColor::YELLOW => 4,
        ObjectColor::CYAN => 5,
    }
}

/// Sector ordinal of a color in the collision-check order: cyan and
/// yellow are swapped relative to the spawn palette.
pub open spec fn check_index(c: ObjectColor) -> int {
    match c {
        ObjectColor::RED => 0,
        ObjectColor::BLUE => 1,
        ObjectColor::GREEN => 2,
        ObjectColor::PINK => 3,
        ObjectColor::CYAN => 4,
        ObjectColor::YELLOW => 5,
    }
}

/// The color at a spawn-palette ordinal; anything past the palette
/// falls back to the first entry.
pub open spec fn palette_color(i: int) -> ObjectColor {
    if i == 0 {
        ObjectColor::RED
    } else if i == 1 {
        ObjectColor::BLUE
    } else if i == 2 {
        ObjectColor::GREEN
    } else if i == 3 {
        ObjectColor::PINK
    } else if i == 4 {
        ObjectColor::YELLOW
    } else if i == 5 {
        ObjectColor::CYAN
    } else {
        ObjectColor::RED
    }
}

/// Look a palette entry up by ordinal, with the defensive fallback to
/// red for an out-of-range ordinal.
pub fn color_of_index(i: u8) -> (c: ObjectColor)
    ensures
        c == palette_color(i as int),
{
    match i {
        0 => ObjectColor::RED,
        1 => ObjectColor::BLUE,
        2 => ObjectColor::GREEN,
        3 => ObjectColor::PINK,
        4 => ObjectColor::YELLOW,
        5 => ObjectColor::CYAN,
        _ => ObjectColor::RED,
    }
}

} // verus!

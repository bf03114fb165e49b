//! Fixed-point 3-D coordinates.
//!
//! Positions are measured in thousandths of a world unit, so fractional
//! engine coordinates such as 2.5 are carried exactly as 2500.

use vstd::prelude::*;

verus! {

/// How many fixed-point steps make one whole world unit.
pub const MILLIS_PER_UNIT: i64 = 1000;

/// Largest magnitude of a whole-unit coordinate that still scales into an
/// `i64` without overflow.
pub const MAX_WHOLE_COORD: i64 = 9_000_000_000_000_000;

/// A point or direction, each axis in thousandths of a world unit.
#[derive(Clone, Copy, PartialEq, Eq, Structural, Debug)]
pub struct Vec3Fixed {
    pub x_milli: i64,
    pub y_milli: i64,
    pub z_milli: i64,
}

/// The point `(x, y, z)` in whole world units, scaled to fixed point.
pub open spec fn fixed_from_units(x: int, y: int, z: int) -> Vec3Fixed {
    Vec3Fixed {
        x_milli: (MILLIS_PER_UNIT * x) as i64,
        y_milli: (MILLIS_PER_UNIT * y) as i64,
        z_milli: (MILLIS_PER_UNIT * z) as i64,
    }
}

impl Vec3Fixed {
    /// Scales whole-unit coordinates into a fixed-point point.
    pub fn from_units(x: i64, y: i64, z: i64) -> (v: Vec3Fixed)
        requires
            -MAX_WHOLE_COORD <= x <= MAX_WHOLE_COORD,
            -MAX_WHOLE_COORD <= y <= MAX_WHOLE_COORD,
            -MAX_WHOLE_COORD <= z <= MAX_WHOLE_COORD,
        ensures
            v == fixed_from_units(x as int, y as int, z as int),
    {
        Vec3Fixed {
            x_milli: MILLIS_PER_UNIT * x,
            y_milli: MILLIS_PER_UNIT * y,
            z_milli: MILLIS_PER_UNIT * z,
        }
    }

    /// The origin.
    pub fn zero() -> (v: Vec3Fixed)
        ensures
            v == fixed_from_units(0, 0, 0),
    {
        Vec3Fixed { x_milli: 0, y_milli: 0, z_milli: 0 }
    }
}

} // verus!

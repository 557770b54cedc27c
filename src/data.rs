//! Value types that say where an entity stands.
//!
//! Coordinates and angles are single-precision floats on the wire. The
//! simulation core only copies and compares them, so they are held here as
//! their IEEE-754 bit patterns (`f32::to_bits`), which keeps every value plain
//! and exactly comparable.
use vstd::prelude::*;

verus! {

/// A point in a map: each coordinate is the bit pattern of an `f32`.
#[derive(Clone, Copy, Debug, PartialEq, Eq, Structural)]
pub struct Vector3d {
    pub x: u32,
    pub y: u32,
    pub z: u32,
}

/// A destination that may lie on another map than the entity's own.
#[derive(Clone, Copy, Debug, PartialEq, Eq, Structural)]
pub struct WorldZoneLocation {
    pub map: u32,
    pub area: u32,
    pub position: Vector3d,
    /// Bit pattern of the facing angle, an `f32` in radians.
    pub orientation: u32,
}

/// A point and a facing angle on the entity's current map.
#[derive(Clone, Copy, Debug, PartialEq, Eq, Structural)]
pub struct PositionAndOrientation {
    pub position: Vector3d,
    /// Bit pattern of the facing angle, an `f32` in radians.
    pub orientation: u32,
}

impl WorldZoneLocation {
    /// The place within the map, without the map and area.
    pub open spec fn spot(self) -> PositionAndOrientation {
        PositionAndOrientation { position: self.position, orientation: self.orientation }
    }
}

impl From<WorldZoneLocation> for PositionAndOrientation {
    fn from(wzl: WorldZoneLocation) -> (r: Self)
        ensures
            r == wzl.spot(),
    {
        PositionAndOrientation { position: wzl.position, orientation: wzl.orientation }
    }
}

impl vstd::std_specs::convert::FromSpecImpl<WorldZoneLocation> for PositionAndOrientation {
    open spec fn obeys_from_spec() -> bool {
        true
    }

    open spec fn from_spec(v: WorldZoneLocation) -> Self {
        v.spot()
    }
}

} // verus!

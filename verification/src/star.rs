//! The star at the center of the system.

use vstd::prelude::*;

verus! {

/// The kinds of star a system can be built around.  The kind fixes the
/// star's nominal visual radius and display name; its color is a concern
/// of the rendering layer.
#[derive(Debug, Clone, Copy, PartialEq, Eq, Structural)]
pub enum StarType {
    YellowDwarf,
    RedDwarf,
    BlueGiant,
    BlackHole,
}

impl StarType {
    /// Nominal visual radius of this kind of star, in micro-pixels.
    pub open spec fn spec_radius(self) -> int {
        match self {
            StarType::YellowDwarf => 30_000_000,
            StarType::RedDwarf => 20_000_000,
            StarType::BlueGiant => 50_000_000,
            StarType::BlackHole => 25_000_000,
        }
    }

    /// Nominal visual radius of this kind of star, in micro-pixels.
    pub fn radius(&self) -> (r: i64)
        ensures
            r == self.spec_radius(),
    {
        match self {
            StarType::YellowDwarf => 30_000_000,
            StarType::RedDwarf => 20_000_000,
            StarType::BlueGiant => 50_000_000,
            StarType::BlackHole => 25_000_000,
        }
    }

    /// The display name as a sequence of characters.
    pub open spec fn spec_name(self) -> Seq<char> {
        match self {
            StarType::YellowDwarf => "Yellow Dwarf"@,
            StarType::RedDwarf => "Red Dwarf"@,
            StarType::BlueGiant => "Blue Giant"@,
            StarType::BlackHole => "Black Hole"@,
        }
    }

    /// Display name of this kind of star.
    pub fn name(&self) -> (r: &'static str)
        ensures
            r@ == self.spec_name(),
    {
        match self {
            StarType::YellowDwarf => "Yellow Dwarf",
            StarType::RedDwarf => "Red Dwarf",
            StarType::BlueGiant => "Blue Giant",
            StarType::BlackHole => "Black Hole",
        }
    }
}

/// The star: a fixed world position and a visual radius, both in
/// micro-pixels.
#[derive(Debug, Clone, Copy)]
pub struct Star {
    pub x: i64,
    pub y: i64,
    pub radius: i64,
    pub star_type: StarType,
}

impl Star {
    /// A star of the given kind at the given position, with the kind's
    /// nominal radius.
    pub fn new(x: i64, y: i64, star_type: StarType) -> (r: Star)
        ensures
            r == (Star { x, y, radius: star_type.spec_radius() as i64, star_type }),
    {
        Star { x, y, radius: star_type.radius(), star_type }
    }
}

} // verus!

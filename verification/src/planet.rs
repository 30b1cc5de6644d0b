//! An orbiting body: a planet circling the star.
//!
//! The orbital angle is a pure accumulation in micro-radians; the derived
//! world position (`center + radius * (cos angle, sin angle)`) involves
//! trigonometry and is computed by the rendering layer, which hands the
//! ship a per-tick snapshot of each body (see `spaceship::PlanetView`).

use vstd::prelude::*;

use crate::economy::ProductType;
use crate::units::COORD_LIMIT;
use crate::units::i64_sat_add;
use crate::units::spec_clamp;

verus! {

/// Largest magnitude of an orbital speed, in micro-radians per
/// millisecond.
pub const ORBITAL_SPEED_LIMIT: i64 = 1_000_000;

/// A planet: orbital state in fixed-point units and the product kind it
/// was permanently assigned at creation.
#[derive(Debug, Clone, Copy)]
pub struct Planet {
    /// Current orbital angle, in micro-radians.  Accumulates without
    /// wraparound.
    pub angle: i64,
    /// Distance from the system center, in micro-pixels.
    pub orbital_radius: i64,
    /// Signed angular speed, in micro-radians per millisecond.
    pub orbital_speed: i64,
    /// Visual radius, in micro-pixels.
    pub radius: i64,
    /// The good this planet produces, sells, and refuses to buy back.
    pub product: ProductType,
}

impl Planet {
    /// Bounds under which orbital stepping stays exact: the speed is
    /// within the fixed-point limit and the radii are valid coordinates.
    pub open spec fn wf(self) -> bool {
        &&& -ORBITAL_SPEED_LIMIT <= self.orbital_speed <= ORBITAL_SPEED_LIMIT
        &&& 0 <= self.orbital_radius <= COORD_LIMIT
        &&& 0 <= self.radius <= COORD_LIMIT
    }

    /// A planet with the given orbital parameters and assigned product.
    pub fn new(
        orbital_radius: i64,
        orbital_speed: i64,
        radius: i64,
        product: ProductType,
        initial_angle: i64,
    ) -> (r: Planet)
        requires
            -ORBITAL_SPEED_LIMIT <= orbital_speed <= ORBITAL_SPEED_LIMIT,
            0 <= orbital_radius <= COORD_LIMIT,
            0 <= radius <= COORD_LIMIT,
        ensures
            r == (Planet { angle: initial_angle, orbital_radius, orbital_speed, radius, product }),
            r.wf(),
    {
        Planet { angle: initial_angle, orbital_radius, orbital_speed, radius, product }
    }

    /// The planet after `dt` milliseconds: the angle has advanced by
    /// `orbital_speed * dt` (saturating at the ends of the `i64` range);
    /// everything else is unchanged.
    pub open spec fn spec_step(self, dt: u32) -> Planet {
        Planet {
            angle: spec_clamp(
                self.angle + self.orbital_speed * dt,
                i64::MIN as int,
                i64::MAX as int,
            ) as i64,
            ..self
        }
    }

    /// Advances the orbital angle by `orbital_speed * dt`.
    pub fn update(&mut self, dt: u32)
        requires
            old(self).wf(),
        ensures
            *final(self) == old(self).spec_step(dt),
            final(self).wf(),
    {
        proof {
            assert(-ORBITAL_SPEED_LIMIT * u32::MAX <= self.orbital_speed * dt
                <= ORBITAL_SPEED_LIMIT * u32::MAX) by (nonlinear_arith)
                requires
                    -ORBITAL_SPEED_LIMIT <= self.orbital_speed <= ORBITAL_SPEED_LIMIT,
                    0 <= dt <= u32::MAX,
            ;
        }
        let delta: i64 = self.orbital_speed * (dt as i64);
        self.angle = i64_sat_add(self.angle, delta);
    }
}

} // verus!

//! World composition: one star and an ordered sequence of planets.

use vstd::prelude::*;

use crate::planet::Planet;
use crate::star::Star;
use crate::star::StarType;

verus! {

/// Largest visual radius among the given planets, in micro-pixels
/// (zero when there are none).
pub open spec fn spec_max_planet_radius(planets: Seq<Planet>) -> int
    decreases planets.len(),
{
    if planets.len() == 0 {
        0
    } else {
        let rest = spec_max_planet_radius(planets.drop_last());
        if planets.last().radius > rest {
            planets.last().radius as int
        } else {
            rest
        }
    }
}

/// The world: a star and its orbiting planets, advanced together each
/// tick.
#[derive(Debug, Clone)]
pub struct SolarSystem {
    pub star: Star,
    pub planets: Vec<Planet>,
}

impl SolarSystem {
    /// Every planet satisfies its stepping bounds.
    pub open spec fn wf(self) -> bool {
        forall|i: int| 0 <= i < self.planets@.len() ==> self.planets@[i].wf()
    }

    /// Builds the world around a star of the given kind at `(x, y)`.
    /// The star's radius is raised, if needed, to at least three times
    /// the largest planet's visual radius, so the star always dominates
    /// its planets visually.
    pub fn new(x: i64, y: i64, star_type: StarType, planets: Vec<Planet>) -> (r: SolarSystem)
        requires
            forall|i: int| 0 <= i < planets@.len() ==> planets@[i].wf(),
        ensures
            r.planets == planets,
            r.star.x == x,
            r.star.y == y,
            r.star.star_type == star_type,
            r.star.radius == if star_type.spec_radius() >= 3 * spec_max_planet_radius(planets@) {
                star_type.spec_radius()
            } else {
                3 * spec_max_planet_radius(planets@)
            },
            r.wf(),
    {
        let mut max_radius: i64 = 0;
        let mut i: usize = 0;
        while i < planets.len()
            invariant
                0 <= i <= planets@.len(),
                forall|j: int| 0 <= j < planets@.len() ==> planets@[j].wf(),
                max_radius == spec_max_planet_radius(planets@.take(i as int)),
                0 <= max_radius <= crate::units::COORD_LIMIT,
            decreases planets@.len() - i,
        {
            proof {
                assert(planets@.take(i + 1).drop_last() =~= planets@.take(i as int));
                assert(planets@.take(i + 1).last() == planets@[i as int]);
            }
            if planets[i].radius > max_radius {
                max_radius = planets[i].radius;
            }
            i = i + 1;
        }
        proof {
            assert(planets@.take(planets@.len() as int) =~= planets@);
        }

        let mut star = Star::new(x, y, star_type);
        let min_star_radius = 3 * max_radius;
        if star.radius < min_star_radius {
            star.radius = min_star_radius;
        }

        SolarSystem { star, planets }
    }

    /// Advances every planet's orbital angle by `orbital_speed * dt`.
    pub fn update(&mut self, dt: u32)
        requires
            old(self).wf(),
        ensures
            final(self).star == old(self).star,
            final(self).planets@.len() == old(self).planets@.len(),
            forall|i: int|
                0 <= i < old(self).planets@.len() ==> final(self).planets@[i] == old(
                    self,
                ).planets@[i].spec_step(dt),
            final(self).wf(),
    {
        let n = self.planets.len();
        let mut i: usize = 0;
        while i < n
            invariant
                0 <= i <= n,
                n == self.planets@.len(),
                self.star == old(self).star,
                forall|j: int| 0 <= j < n ==> old(self).planets@[j].wf(),
                forall|j: int| i <= j < n ==> self.planets@[j] == old(self).planets@[j],
                forall|j: int| 0 <= j < i ==> self.planets@[j] == old(self).planets@[j].spec_step(dt),
            decreases n - i,
        {
            let mut planet = self.planets[i];
            planet.update(dt);
            self.planets.set(i, planet);
            i = i + 1;
        }
    }
}

} // verus!

//! The player ship: flight state machine, movement, resource consumption
//! and the landing/takeoff animation.
//!
//! The ship works on a per-tick snapshot of the world handed in by the
//! caller: for each planet its derived world position (the rendering
//! layer evaluates `center + radius * (cos angle, sin angle)`), visual
//! radius and product kind.  All ship arithmetic is exact fixed-point:
//! positions in micro-pixels, velocities in micro-pixels per millisecond,
//! fuel in micro-units, animation progress in millionths.

use vstd::prelude::*;

use crate::economy::CAPACITY;
use crate::economy::Inventory;
use crate::economy::SELL_PRODUCT_PRICE;
use crate::economy::ProductType;
use crate::units::COORD_LIMIT;
use crate::units::i128_clamp_to_i64;
use crate::units::spec_clamp;

verus! {

/// How close (beyond the planet's own radius) the ship must be to land,
/// in micro-pixels.
pub const PROXIMITY_THRESHOLD: i64 = 20_000_000;

/// The ship's visual size when created, in micro-pixels.
pub const SHIP_BASE_SIZE: i64 = 15_000_000;

/// The ship's movement speed when created (100 pixels per second), in
/// micro-pixels per millisecond.
pub const SHIP_SPEED: i64 = 100_000;

/// Largest movement speed the fixed-point step supports, in micro-pixels
/// per millisecond.
pub const SHIP_SPEED_LIMIT: i64 = 1_000_000;

/// Largest visual size the fixed-point interpolation supports, in
/// micro-pixels.
pub const SHIP_SIZE_LIMIT: i64 = 1_000_000_000_000;

/// Animation progress value standing for 1.0 (fully landed or fully
/// taken off), in millionths.
pub const ANIM_FULL: u32 = 1_000_000;

/// Animation progress gained per millisecond (2.0 per second), in
/// millionths.
pub const ANIM_RATE: u32 = 2_000;

/// Fuel burnt per millisecond of powered flight (0.5 units per second),
/// in micro-units.
pub const FUEL_BURN: u64 = 500;

/// Time between food consumption ticks, in milliseconds.
pub const FOOD_INTERVAL: u32 = 5_000;

/// Food consumed per interval while flying.
pub const FOOD_PER_INTERVAL: u32 = 1;

/// Numerator and denominator of the factor applied to each velocity
/// component of a diagonal move, approximating `1 / sqrt(2)` so that
/// diagonal movement is not faster than movement along an axis.
pub const DIAG_NUM: i64 = 707;
pub const DIAG_DEN: i64 = 1_000;

/// The flight phases of the ship.
#[derive(Debug, Clone, Copy, PartialEq, Eq, Structural)]
pub enum SpaceshipState {
    Flying,
    Landing,
    Landed,
    TakingOff,
}

/// One planet as the ship sees it this tick: derived world position,
/// visual radius (micro-pixels) and assigned product.
#[derive(Debug, Clone, Copy, PartialEq, Eq, Structural)]
pub struct PlanetView {
    pub x: i64,
    pub y: i64,
    pub radius: i64,
    pub product: ProductType,
}

impl PlanetView {
    /// The view's coordinates and radius are valid world values.
    pub open spec fn wf(self) -> bool {
        &&& -COORD_LIMIT <= self.x <= COORD_LIMIT
        &&& -COORD_LIMIT <= self.y <= COORD_LIMIT
        &&& 0 <= self.radius <= COORD_LIMIT
    }
}

/// Every view in the snapshot is valid.
pub open spec fn spec_views_ok(views: Seq<PlanetView>) -> bool {
    forall|i: int| 0 <= i < views.len() ==> views[i].wf()
}

/// The ship is within landing range of the body: the distance from the
/// ship to the body's position is below the proximity threshold plus the
/// body's radius (stated over squares, which is equivalent since both
/// sides are non-negative).
pub open spec fn spec_near(sx: int, sy: int, body: PlanetView) -> bool {
    (sx - body.x) * (sx - body.x) + (sy - body.y) * (sy - body.y) < (PROXIMITY_THRESHOLD
        + body.radius) * (PROXIMITY_THRESHOLD + body.radius)
}

/// Index of the first body at position `i` or later that is within
/// landing range, scanning in order.
pub open spec fn spec_find_nearby_from(
    sx: int,
    sy: int,
    views: Seq<PlanetView>,
    i: int,
) -> Option<usize>
    decreases views.len() - i,
{
    if i < 0 || i >= views.len() {
        None
    } else if spec_near(sx, sy, views[i]) {
        Some(i as usize)
    } else {
        spec_find_nearby_from(sx, sy, views, i + 1)
    }
}

/// Index of the first body within landing range of `(sx, sy)`, if any.
pub open spec fn spec_find_nearby(sx: int, sy: int, views: Seq<PlanetView>) -> Option<usize> {
    spec_find_nearby_from(sx, sy, views, 0)
}

/// The ship.  `landed_planet_index` is `Some` exactly while the state is
/// `Landing`, `Landed` or `TakingOff`.
#[derive(Debug, Clone)]
pub struct Spaceship {
    /// World position, in micro-pixels.
    pub x: i64,
    pub y: i64,
    /// Velocity, in micro-pixels per millisecond.
    pub vx: i64,
    pub vy: i64,
    /// The direction the ship faces: the last non-zero movement intent,
    /// one step in `{-1, 0, 1}` per axis.
    pub facing_dx: i32,
    pub facing_dy: i32,
    /// Current visual size, in micro-pixels; shrinks while landing and
    /// grows back while taking off.
    pub size: i64,
    /// Visual size in level flight, in micro-pixels.
    pub base_size: i64,
    /// Movement speed, in micro-pixels per millisecond.
    pub speed: i64,
    pub state: SpaceshipState,
    /// Index into the world's body sequence while landing, landed or
    /// taking off; `None` while flying.
    pub landed_planet_index: Option<usize>,
    /// Landing/takeoff animation progress, in millionths of 1.0.
    pub animation_progress: u32,
    pub inventory: Inventory,
    /// Milliseconds accumulated towards the next food consumption tick.
    pub food_timer: u32,
}

impl Spaceship {
    /// The ship invariant: coordinates and tuning values within their
    /// fixed-point bounds, the animation progress at most 1.0, the state
    /// tag consistent with the captured body index, a valid ledger, and
    /// the food timer strictly below its interval.
    pub open spec fn wf(self) -> bool {
        &&& -COORD_LIMIT <= self.x <= COORD_LIMIT
        &&& -COORD_LIMIT <= self.y <= COORD_LIMIT
        &&& 0 <= self.speed <= SHIP_SPEED_LIMIT
        &&& -self.speed <= self.vx <= self.speed
        &&& -self.speed <= self.vy <= self.speed
        &&& -1 <= self.facing_dx <= 1
        &&& -1 <= self.facing_dy <= 1
        &&& !(self.facing_dx == 0 && self.facing_dy == 0)
        &&& 0 <= self.base_size <= SHIP_SIZE_LIMIT
        &&& 0 <= self.size <= self.base_size
        &&& self.animation_progress <= ANIM_FULL
        &&& (self.state == SpaceshipState::Flying <==> self.landed_planet_index is None)
        &&& self.inventory.wf()
        &&& self.food_timer < FOOD_INTERVAL
    }

    /// A fresh ship at the given position: flying, facing along the
    /// positive x axis, at rest, with a fresh inventory.
    pub fn new(x: i64, y: i64) -> (r: Spaceship)
        requires
            -COORD_LIMIT <= x <= COORD_LIMIT,
            -COORD_LIMIT <= y <= COORD_LIMIT,
        ensures
            r == (Spaceship {
                x,
                y,
                vx: 0i64,
                vy: 0i64,
                facing_dx: 1i32,
                facing_dy: 0i32,
                size: SHIP_BASE_SIZE,
                base_size: SHIP_BASE_SIZE,
                speed: SHIP_SPEED,
                state: SpaceshipState::Flying,
                landed_planet_index: None::<usize>,
                animation_progress: 0u32,
                inventory: Inventory::spec_new(),
                food_timer: 0u32,
            }),
            r.wf(),
    {
        Spaceship {
            x,
            y,
            vx: 0,
            vy: 0,
            facing_dx: 1,
            facing_dy: 0,
            size: SHIP_BASE_SIZE,
            base_size: SHIP_BASE_SIZE,
            speed: SHIP_SPEED,
            state: SpaceshipState::Flying,
            landed_planet_index: None,
            animation_progress: 0,
            inventory: Inventory::new(),
            food_timer: 0,
        }
    }

    /// Scans the bodies in order and returns the index of the first one
    /// within landing range, if any.
    pub fn find_nearby_planet(&self, views: &Vec<PlanetView>) -> (r: Option<usize>)
        requires
            -COORD_LIMIT <= self.x <= COORD_LIMIT,
            -COORD_LIMIT <= self.y <= COORD_LIMIT,
            spec_views_ok(views@),
        ensures
            r == spec_find_nearby(self.x as int, self.y as int, views@),
            r is Some ==> {
                let i = r->Some_0 as int;
                &&& 0 <= i < views@.len()
                &&& spec_near(self.x as int, self.y as int, views@[i])
                &&& forall|j: int| 0 <= j < i ==> !spec_near(self.x as int, self.y as int, views@[j])
            },
            r is None ==> forall|j: int|
                0 <= j < views@.len() ==> !spec_near(self.x as int, self.y as int, views@[j]),
    {
        let sx = self.x;
        let sy = self.y;
        let n = views.len();
        let mut i: usize = 0;
        while i < n
            invariant
                0 <= i <= n,
                n == views@.len(),
                sx == self.x,
                sy == self.y,
                -COORD_LIMIT <= sx <= COORD_LIMIT,
                -COORD_LIMIT <= sy <= COORD_LIMIT,
                spec_views_ok(views@),
                forall|j: int| 0 <= j < i ==> !spec_near(sx as int, sy as int, views@[j]),
                spec_find_nearby(sx as int, sy as int, views@) == spec_find_nearby_from(
                    sx as int,
                    sy as int,
                    views@,
                    i as int,
                ),
            decreases n - i,
        {
            let body = views[i];
            let dx: i128 = sx as i128 - body.x as i128;
            let dy: i128 = sy as i128 - body.y as i128;
            let reach: i128 = (PROXIMITY_THRESHOLD + body.radius) as i128;
            proof {
                let l2 = 2 * COORD_LIMIT as int;
                assert(0 <= dx * dx <= l2 * l2 && 0 <= dy * dy <= l2 * l2 && 0 <= reach * reach
                    <= l2 * l2) by (nonlinear_arith)
                    requires
                        -l2 <= dx <= l2,
                        -l2 <= dy <= l2,
                        0 <= reach <= l2,
                ;
            }
            if dx * dx + dy * dy < reach * reach {
                return Some(i);
            }
            i = i + 1;
        }
        None
    }

    /// Whether a land prompt applies: the ship is flying and some body is
    /// within landing range.
    pub fn is_near_planet(&self, views: &Vec<PlanetView>) -> (r: bool)
        requires
            -COORD_LIMIT <= self.x <= COORD_LIMIT,
            -COORD_LIMIT <= self.y <= COORD_LIMIT,
            spec_views_ok(views@),
        ensures
            r == (self.state == SpaceshipState::Flying && spec_find_nearby(
                self.x as int,
                self.y as int,
                views@,
            ) is Some),
    {
        match self.state {
            SpaceshipState::Flying => self.find_nearby_planet(views).is_some(),
            _ => false,
        }
    }

    /// One velocity component of a move with intent step `d` at `speed`:
    /// the full speed along an axis, scaled by the diagonal factor when
    /// the other axis moves too.
    pub open spec fn spec_velocity_component(d: int, speed: int, diagonal: bool) -> int {
        if diagonal {
            d * (speed * DIAG_NUM / (DIAG_DEN as int))
        } else {
            d * speed
        }
    }

    /// The ship after one input sample: while flying, the movement
    /// intent `(dx, dy)` sets the velocity and (when non-zero) the
    /// facing, and a land command within range of a body starts the
    /// landing on the first such body; while landed, a takeoff command
    /// starts the takeoff.  Commands in any other situation are ignored.
    pub open spec fn spec_after_input(
        self,
        dx: int,
        dy: int,
        action: bool,
        views: Seq<PlanetView>,
    ) -> Spaceship {
        match self.state {
            SpaceshipState::Flying => {
                let diagonal = dx != 0 && dy != 0;
                let moved = Spaceship {
                    vx: Self::spec_velocity_component(dx, self.speed as int, diagonal) as i64,
                    vy: Self::spec_velocity_component(dy, self.speed as int, diagonal) as i64,
                    facing_dx: if dx != 0 || dy != 0 {
                        dx as i32
                    } else {
                        self.facing_dx
                    },
                    facing_dy: if dx != 0 || dy != 0 {
                        dy as i32
                    } else {
                        self.facing_dy
                    },
                    ..self
                };
                if action && spec_find_nearby(self.x as int, self.y as int, views) is Some {
                    Spaceship {
                        state: SpaceshipState::Landing,
                        landed_planet_index: spec_find_nearby(self.x as int, self.y as int, views),
                        animation_progress: 0u32,
                        vx: 0i64,
                        vy: 0i64,
                        ..moved
                    }
                } else {
                    moved
                }
            },
            SpaceshipState::Landed => {
                if action {
                    Spaceship {
                        state: SpaceshipState::TakingOff,
                        animation_progress: 0u32,
                        ..self
                    }
                } else {
                    self
                }
            },
            _ => self,
        }
    }

    /// Samples one tick of input: the movement intent (one step in
    /// `{-1, 0, 1}` per axis) and whether the land/takeoff command was
    /// pressed, against this tick's view of the bodies.
    pub fn handle_input(&mut self, dx: i32, dy: i32, action: bool, views: &Vec<PlanetView>)
        requires
            old(self).wf(),
            -1 <= dx <= 1,
            -1 <= dy <= 1,
            spec_views_ok(views@),
        ensures
            *final(self) == old(self).spec_after_input(dx as int, dy as int, action, views@),
            final(self).wf(),
    {
        match self.state {
            SpaceshipState::Flying => {
                let diag_speed: i64 = self.speed * DIAG_NUM / DIAG_DEN;
                proof {
                    assert(0 <= self.speed * DIAG_NUM / (DIAG_DEN as int) <= self.speed)
                        by (nonlinear_arith)
                        requires
                            0 <= self.speed,
                    ;
                }
                let component = if dx != 0 && dy != 0 {
                    diag_speed
                } else {
                    self.speed
                };
                proof {
                    assert(-component <= (dx as int) * component <= component && -component <= (
                    dy as int) * component <= component) by (nonlinear_arith)
                        requires
                            -1 <= dx <= 1,
                            -1 <= dy <= 1,
                            0 <= component,
                    ;
                }
                self.vx = (dx as i64) * component;
                self.vy = (dy as i64) * component;
                if dx != 0 || dy != 0 {
                    self.facing_dx = dx;
                    self.facing_dy = dy;
                }
                if action {
                    let found = self.find_nearby_planet(views);
                    if found.is_some() {
                        self.state = SpaceshipState::Landing;
                        self.landed_planet_index = found;
                        self.animation_progress = 0;
                        self.vx = 0;
                        self.vy = 0;
                    }
                }
            },
            SpaceshipState::Landed => {
                if action {
                    self.state = SpaceshipState::TakingOff;
                    self.animation_progress = 0;
                }
            },
            _ => {},
        }
    }

    /// The food stock after one consumption tick: one interval's worth
    /// less, floored at zero.
    pub open spec fn spec_food_dec(food: u32) -> u32 {
        if food >= FOOD_PER_INTERVAL {
            (food - FOOD_PER_INTERVAL) as u32
        } else {
            0u32
        }
    }

    /// The ship after the food clock has seen `dt` more milliseconds:
    /// when the accumulated time reaches the interval the clock resets
    /// and, only while flying, the food stock drops by one tick's worth.
    pub open spec fn spec_after_food(self, dt: u32) -> Spaceship {
        let t = self.food_timer + dt;
        if t >= FOOD_INTERVAL {
            Spaceship {
                food_timer: 0u32,
                inventory: if self.state == SpaceshipState::Flying {
                    Inventory {
                        food: Self::spec_food_dec(self.inventory.food),
                        ..self.inventory
                    }
                } else {
                    self.inventory
                },
                ..self
            }
        } else {
            Spaceship { food_timer: t as u32, ..self }
        }
    }

    /// The ship moved onto its captured body's position, when that body
    /// exists in this tick's snapshot.
    pub open spec fn spec_pin_to_body(self, views: Seq<PlanetView>) -> Spaceship {
        match self.landed_planet_index {
            Some(i) => if i < views.len() {
                Spaceship { x: views[i as int].x, y: views[i as int].y, ..self }
            } else {
                self
            },
            None => self,
        }
    }

    /// Visual size while landing: interpolates from the full base size
    /// down to 30% of it as the progress goes from 0 to 1.
    pub open spec fn spec_landing_size(base: int, progress: int) -> int {
        base * (1_000_000 - 7 * progress / 10) / 1_000_000
    }

    /// Visual size while taking off: interpolates from 30% of the base
    /// size back up to the full base size as the progress goes from 0
    /// to 1.
    pub open spec fn spec_takeoff_size(base: int, progress: int) -> int {
        base * (300_000 + 7 * progress / 10) / 1_000_000
    }

    /// The state-specific part of one tick, applied after the food
    /// clock:
    /// - flying with fuel and a non-zero velocity moves the ship and
    ///   burns fuel (floored at zero); flying with no fuel at all stops
    ///   it;
    /// - landing and taking off advance the animation, interpolate the
    ///   visual size, and complete into `Landed` (liquidating all cargo
    ///   except the planet's own product, exactly once) or into `Flying`
    ///   (releasing the captured body index) when the progress reaches
    ///   1.0;
    /// - while landing, landed or taking off the ship rides on its
    ///   captured body's current position.
    pub open spec fn spec_after_motion(self, dt: u32, views: Seq<PlanetView>) -> Spaceship {
        match self.state {
            SpaceshipState::Flying => {
                if self.inventory.fuel > 0 && !(self.vx == 0 && self.vy == 0) {
                    Spaceship {
                        x: spec_clamp(
                            self.x + self.vx * dt,
                            -COORD_LIMIT as int,
                            COORD_LIMIT as int,
                        ) as i64,
                        y: spec_clamp(
                            self.y + self.vy * dt,
                            -COORD_LIMIT as int,
                            COORD_LIMIT as int,
                        ) as i64,
                        inventory: Inventory {
                            fuel: if self.inventory.fuel >= FUEL_BURN * dt {
                                (self.inventory.fuel - FUEL_BURN * dt) as u64
                            } else {
                                0u64
                            },
                            ..self.inventory
                        },
                        ..self
                    }
                } else if self.inventory.fuel == 0 {
                    Spaceship { vx: 0i64, vy: 0i64, ..self }
                } else {
                    self
                }
            },
            SpaceshipState::Landing => {
                let p = self.animation_progress + ANIM_RATE * dt;
                let complete = p >= ANIM_FULL;
                let pc: int = if complete {
                    ANIM_FULL as int
                } else {
                    p
                };
                let inv = if complete {
                    match self.landed_planet_index {
                        Some(i) => if i < views.len() {
                            self.inventory.spec_after_sale(views[i as int].product)
                        } else {
                            self.inventory
                        },
                        None => self.inventory,
                    }
                } else {
                    self.inventory
                };
                let stepped = Spaceship {
                    state: if complete {
                        SpaceshipState::Landed
                    } else {
                        SpaceshipState::Landing
                    },
                    animation_progress: pc as u32,
                    inventory: inv,
                    size: Self::spec_landing_size(self.base_size as int, pc) as i64,
                    ..self
                };
                stepped.spec_pin_to_body(views)
            },
            SpaceshipState::Landed => self.spec_pin_to_body(views),
            SpaceshipState::TakingOff => {
                let p = self.animation_progress + ANIM_RATE * dt;
                let complete = p >= ANIM_FULL;
                let pc: int = if complete {
                    ANIM_FULL as int
                } else {
                    p
                };
                let stepped = Spaceship {
                    state: if complete {
                        SpaceshipState::Flying
                    } else {
                        SpaceshipState::TakingOff
                    },
                    landed_planet_index: if complete {
                        None
                    } else {
                        self.landed_planet_index
                    },
                    animation_progress: pc as u32,
                    size: Self::spec_takeoff_size(self.base_size as int, pc) as i64,
                    ..self
                };
                stepped.spec_pin_to_body(views)
            },
        }
    }

    /// The ship after one whole tick of `dt` milliseconds: the food
    /// clock advances first, then the state-specific step runs.
    pub open spec fn spec_after_update(self, dt: u32, views: Seq<PlanetView>) -> Spaceship {
        self.spec_after_food(dt).spec_after_motion(dt, views)
    }

    /// Advances the ship by `dt` milliseconds against this tick's view
    /// of the bodies.
    pub fn update(&mut self, dt: u32, views: &Vec<PlanetView>)
        requires
            old(self).wf(),
            spec_views_ok(views@),
            old(self).inventory.money + CAPACITY * SELL_PRODUCT_PRICE <= i64::MAX,
        ensures
            *final(self) == old(self).spec_after_update(dt, views@),
            final(self).wf(),
    {
        let t: u64 = self.food_timer as u64 + dt as u64;
        if t >= FOOD_INTERVAL as u64 {
            self.food_timer = 0;
            match self.state {
                SpaceshipState::Flying => {
                    if self.inventory.food >= FOOD_PER_INTERVAL {
                        self.inventory.food = self.inventory.food - FOOD_PER_INTERVAL;
                    } else {
                        self.inventory.food = 0;
                    }
                },
                _ => {},
            }
        } else {
            self.food_timer = t as u32;
        }
        proof {
            assert(*self == old(self).spec_after_food(dt));
        }

        match self.state {
            SpaceshipState::Flying => {
                if self.inventory.fuel > 0 && !(self.vx == 0 && self.vy == 0) {
                    proof {
                        assert(-(SHIP_SPEED_LIMIT * u32::MAX) <= (self.vx as int) * (dt as int)
                            <= SHIP_SPEED_LIMIT * u32::MAX && -(SHIP_SPEED_LIMIT * u32::MAX) <= (
                        self.vy as int) * (dt as int) <= SHIP_SPEED_LIMIT * u32::MAX)
                            by (nonlinear_arith)
                            requires
                                -SHIP_SPEED_LIMIT <= self.vx <= SHIP_SPEED_LIMIT,
                                -SHIP_SPEED_LIMIT <= self.vy <= SHIP_SPEED_LIMIT,
                                0 <= dt <= u32::MAX,
                        ;
                    }
                    let nx = i128_clamp_to_i64(
                        self.x as i128 + self.vx as i128 * dt as i128,
                        -COORD_LIMIT,
                        COORD_LIMIT,
                    );
                    let ny = i128_clamp_to_i64(
                        self.y as i128 + self.vy as i128 * dt as i128,
                        -COORD_LIMIT,
                        COORD_LIMIT,
                    );
                    self.x = nx;
                    self.y = ny;
                    let burn: u64 = FUEL_BURN * dt as u64;
                    if self.inventory.fuel >= burn {
                        self.inventory.fuel = self.inventory.fuel - burn;
                    } else {
                        self.inventory.fuel = 0;
                    }
                } else if self.inventory.fuel == 0 {
                    self.vx = 0;
                    self.vy = 0;
                }
            },
            SpaceshipState::Landing => {
                let p: u64 = self.animation_progress as u64 + (ANIM_RATE as u64) * (dt as u64);
                if p >= ANIM_FULL as u64 {
                    self.animation_progress = ANIM_FULL;
                    self.state = SpaceshipState::Landed;
                    if let Some(idx) = self.landed_planet_index {
                        if idx < views.len() {
                            self.inventory.sell_all_cargo(views[idx].product);
                        }
                    }
                } else {
                    self.animation_progress = p as u32;
                }
                self.size = Self::scaled_size(
                    self.base_size,
                    1_000_000 - (7 * self.animation_progress) / 10,
                );
                if let Some(idx) = self.landed_planet_index {
                    if idx < views.len() {
                        self.x = views[idx].x;
                        self.y = views[idx].y;
                    }
                }
            },
            SpaceshipState::Landed => {
                if let Some(idx) = self.landed_planet_index {
                    if idx < views.len() {
                        self.x = views[idx].x;
                        self.y = views[idx].y;
                    }
                }
            },
            SpaceshipState::TakingOff => {
                let p: u64 = self.animation_progress as u64 + (ANIM_RATE as u64) * (dt as u64);
                if p >= ANIM_FULL as u64 {
                    self.animation_progress = ANIM_FULL;
                    self.state = SpaceshipState::Flying;
                    self.landed_planet_index = None;
                } else {
                    self.animation_progress = p as u32;
                }
                self.size = Self::scaled_size(
                    self.base_size,
                    300_000 + (7 * self.animation_progress) / 10,
                );
                if let Some(idx) = self.landed_planet_index {
                    if idx < views.len() {
                        self.x = views[idx].x;
                        self.y = views[idx].y;
                    }
                }
            },
        }
    }

    /// Law: a flying ship with an empty tank does not move, whatever the
    /// movement intent.  Sampling a non-zero intent `(dx, dy)` (with no
    /// land command) and then updating leaves the position exactly where
    /// it was.
    pub proof fn lemma_no_fuel_no_motion(
        self,
        dx: int,
        dy: int,
        dt: u32,
        views: Seq<PlanetView>,
    )
        requires
            self.wf(),
            self.state == SpaceshipState::Flying,
            self.inventory.fuel == 0,
            -1 <= dx <= 1,
            -1 <= dy <= 1,
            !(dx == 0 && dy == 0),
        ensures
            ({
                let stepped = self.spec_after_input(dx, dy, false, views).spec_after_update(
                    dt,
                    views,
                );
                stepped.x == self.x && stepped.y == self.y
            }),
    {
    }

    /// Law: from `Landing`, the transition to `Landed` happens exactly
    /// when the animation progress (advanced by `ANIM_RATE * dt`) first
    /// reaches 1.0, and that completing tick liquidates the cargo
    /// through the captured planet's product exactly once: a
    /// non-completing landing tick leaves the inventory untouched, and
    /// once `Landed` no later tick sells anything.
    pub proof fn lemma_landing_completion(self, dt: u32, views: Seq<PlanetView>)
        requires
            self.wf(),
        ensures
            self.state == SpaceshipState::Landing ==> ({
                let stepped = self.spec_after_update(dt, views);
                let complete = self.animation_progress + ANIM_RATE * dt >= ANIM_FULL;
                &&& (stepped.state == SpaceshipState::Landed <==> complete)
                &&& (!complete ==> stepped.state == SpaceshipState::Landing
                    && stepped.animation_progress == self.animation_progress + ANIM_RATE * dt
                    && stepped.inventory == self.inventory)
                &&& (complete ==> (forall|i: usize|
                    self.landed_planet_index == Some(i) && i < views.len()
                        ==> stepped.inventory == self.inventory.spec_after_sale(
                        views[i as int].product,
                    )))
            }),
            self.state == SpaceshipState::Landed ==> ({
                let stepped = self.spec_after_update(dt, views);
                stepped.state == SpaceshipState::Landed && stepped.inventory == self.inventory
            }),
    {
    }

    /// Law: a takeoff command from `Landed` followed by enough elapsed
    /// time to complete the takeoff animation returns the ship to
    /// `Flying`, releases the captured body index, and restores the
    /// visual size to the base size.
    pub proof fn lemma_takeoff_round_trip(self, dt: u32, views: Seq<PlanetView>)
        requires
            self.wf(),
            self.state == SpaceshipState::Landed,
            ANIM_RATE * dt >= ANIM_FULL,
        ensures
            ({
                let lifted = self.spec_after_input(0, 0, true, views);
                let stepped = lifted.spec_after_update(dt, views);
                &&& lifted.state == SpaceshipState::TakingOff
                &&& lifted.animation_progress == 0
                &&& stepped.state == SpaceshipState::Flying
                &&& stepped.landed_planet_index is None
                &&& stepped.size == self.base_size
            }),
    {
        assert(7 * (ANIM_FULL as int) / 10 == 700_000);
        assert(self.base_size * 1_000_000 / 1_000_000 == self.base_size) by (nonlinear_arith);
    }

    /// Law: while flying, the food stock drops by one tick's worth
    /// exactly each time the food clock accumulates a full interval (the
    /// clock then restarts), and it never drops while landed.
    pub proof fn lemma_food_consumption(self, dt: u32, views: Seq<PlanetView>)
        requires
            self.wf(),
        ensures
            self.state == SpaceshipState::Flying ==> self.spec_after_update(dt, views).state
                == SpaceshipState::Flying,
            self.state == SpaceshipState::Flying && self.food_timer + dt >= FOOD_INTERVAL ==> ({
                let stepped = self.spec_after_update(dt, views);
                stepped.inventory.food == Self::spec_food_dec(self.inventory.food)
                    && stepped.food_timer == 0
            }),
            self.state == SpaceshipState::Flying && self.food_timer + dt < FOOD_INTERVAL ==> ({
                let stepped = self.spec_after_update(dt, views);
                stepped.inventory.food == self.inventory.food && stepped.food_timer
                    == self.food_timer + dt
            }),
            self.state == SpaceshipState::Landed ==> self.spec_after_update(
                dt,
                views,
            ).inventory.food == self.inventory.food,
    {
    }

    /// Law: one tick preserves the ship invariant, whatever the elapsed
    /// time and whatever valid snapshot of the bodies it runs against.
    pub proof fn lemma_update_preserves_wf(self, dt: u32, views: Seq<PlanetView>)
        requires
            self.wf(),
            spec_views_ok(views),
        ensures
            self.spec_after_update(dt, views).wf(),
    {
        let fed = self.spec_after_food(dt);
        match fed.state {
            SpaceshipState::Landing => {
                let p = fed.animation_progress + ANIM_RATE * dt;
                let pc: int = if p >= ANIM_FULL {
                    ANIM_FULL as int
                } else {
                    p
                };
                assert(0 <= Self::spec_landing_size(fed.base_size as int, pc) <= fed.base_size)
                    by (nonlinear_arith)
                    requires
                        0 <= fed.base_size,
                        0 <= pc <= ANIM_FULL,
                ;
            },
            SpaceshipState::TakingOff => {
                let p = fed.animation_progress + ANIM_RATE * dt;
                let pc: int = if p >= ANIM_FULL {
                    ANIM_FULL as int
                } else {
                    p
                };
                assert(0 <= Self::spec_takeoff_size(fed.base_size as int, pc) <= fed.base_size)
                    by (nonlinear_arith)
                    requires
                        0 <= fed.base_size,
                        0 <= pc <= ANIM_FULL,
                ;
            },
            _ => {},
        }
    }

    /// The ship after a whole run of ticks, one `spec_after_update` per
    /// elapsed-time sample.
    pub open spec fn spec_run(self, dts: Seq<u32>, views: Seq<PlanetView>) -> Spaceship
        decreases dts.len(),
    {
        if dts.len() == 0 {
            self
        } else {
            self.spec_after_update(dts[0], views).spec_run(dts.drop_first(), views)
        }
    }

    /// The food stock and clock after a run of elapsed-time samples
    /// spent continuously flying: each sample advances the clock, and
    /// each time the clock reaches a full interval it restarts and one
    /// tick's worth of food is consumed (floored at zero).
    pub open spec fn spec_clock_run(food: u32, timer: u32, dts: Seq<u32>) -> (u32, u32)
        decreases dts.len(),
    {
        if dts.len() == 0 {
            (food, timer)
        } else {
            let t = timer + dts[0];
            if t >= FOOD_INTERVAL {
                Self::spec_clock_run(Self::spec_food_dec(food), 0u32, dts.drop_first())
            } else {
                Self::spec_clock_run(food, t as u32, dts.drop_first())
            }
        }
    }

    /// Law: over any run of ticks spent continuously flying, the ship
    /// stays flying and its food stock and food clock evolve exactly as
    /// the interval clock dictates: one tick's worth of food is consumed
    /// precisely each time a full interval of elapsed time accumulates.
    pub proof fn lemma_flying_run_food(self, dts: Seq<u32>, views: Seq<PlanetView>)
        requires
            self.wf(),
            spec_views_ok(views),
            self.state == SpaceshipState::Flying,
        ensures
            ({
                let run = self.spec_run(dts, views);
                let clock = Self::spec_clock_run(self.inventory.food, self.food_timer, dts);
                &&& run.state == SpaceshipState::Flying
                &&& run.wf()
                &&& run.inventory.food == clock.0
                &&& run.food_timer == clock.1
            }),
        decreases dts.len(),
    {
        if dts.len() > 0 {
            let stepped = self.spec_after_update(dts[0], views);
            self.lemma_update_preserves_wf(dts[0], views);
            stepped.lemma_flying_run_food(dts.drop_first(), views);
        }
    }

    /// `base * factor / 1_000_000`, the fixed-point size interpolation.
    fn scaled_size(base: i64, factor: u32) -> (r: i64)
        requires
            0 <= base <= SHIP_SIZE_LIMIT,
            factor <= 1_000_000,
        ensures
            r == base * factor / 1_000_000,
            0 <= r <= base,
    {
        proof {
            assert(0 <= base * factor / 1_000_000 <= base && base * factor <= SHIP_SIZE_LIMIT
                * 1_000_000) by (nonlinear_arith)
                requires
                    0 <= base <= SHIP_SIZE_LIMIT,
                    0 <= factor <= 1_000_000,
            ;
        }
        ((base as i128 * factor as i128) / 1_000_000) as i64
    }
}

} // verus!

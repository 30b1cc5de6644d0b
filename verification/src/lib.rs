//! Verified core of a small orbital trading game.
//!
//! The library models the ship's economy ledger, the planet/star world
//! composition, the menu navigation, and the ship's flight state machine
//! over exact integer arithmetic.  Continuous quantities use fixed-point
//! units: positions and radii in micro-pixels, time in milliseconds, fuel
//! in micro-units, animation progress in millionths.  The rendering and
//! input layer lives outside the library and exchanges plain values with it.

pub mod economy;
pub mod menu;
pub mod planet;
pub mod solar_system;
pub mod spaceship;
pub mod star;
pub mod units;

pub use economy::Inventory;
pub use economy::ProductType;
pub use menu::GameState;
pub use menu::Menu;
pub use menu::MenuSelection;
pub use planet::Planet;
pub use solar_system::SolarSystem;
pub use spaceship::PlanetView;
pub use spaceship::Spaceship;
pub use spaceship::SpaceshipState;
pub use star::Star;
pub use star::StarType;

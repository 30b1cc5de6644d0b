use solar_economy::economy::ProductType;
use solar_economy::planet::Planet;
use solar_economy::solar_system::SolarSystem;
use solar_economy::star::Star;
use solar_economy::star::StarType;

#[test]
fn star_types_have_their_nominal_radii() {
    assert_eq!(StarType::YellowDwarf.radius(), 30_000_000);
    assert_eq!(StarType::RedDwarf.radius(), 20_000_000);
    assert_eq!(StarType::BlueGiant.radius(), 50_000_000);
    assert_eq!(StarType::BlackHole.radius(), 25_000_000);
}

#[test]
fn star_names() {
    assert_eq!(StarType::YellowDwarf.name(), "Yellow Dwarf");
    assert_eq!(StarType::RedDwarf.name(), "Red Dwarf");
    assert_eq!(StarType::BlueGiant.name(), "Blue Giant");
    assert_eq!(StarType::BlackHole.name(), "Black Hole");
}

#[test]
fn new_star_takes_its_types_radius() {
    let star = Star::new(5, -5, StarType::BlueGiant);
    assert_eq!(star.x, 5);
    assert_eq!(star.y, -5);
    assert_eq!(star.radius, 50_000_000);
}

#[test]
fn planet_angle_accumulates_speed_times_time() {
    let mut planet = Planet::new(500_000_000, 500, 10_000_000, ProductType::Spice, 1_000);
    assert_eq!(planet.angle, 1_000);
    planet.update(2_000);
    // 0.5 micro-radians per millisecond over two seconds.
    assert_eq!(planet.angle, 1_001_000);
    planet.update(0);
    assert_eq!(planet.angle, 1_001_000);
}

#[test]
fn retrograde_orbit_accumulates_negative_angle() {
    let mut planet = Planet::new(500_000_000, -250, 10_000_000, ProductType::Minerals, 0);
    planet.update(1_000);
    assert_eq!(planet.angle, -250_000);
}

#[test]
fn system_update_advances_every_planet() {
    let planets = vec![
        Planet::new(200_000_000, 100, 8_000_000, ProductType::Spice, 0),
        Planet::new(400_000_000, -50, 12_000_000, ProductType::Minerals, 777),
    ];
    let mut system = SolarSystem::new(0, 0, StarType::YellowDwarf, planets);
    system.update(1_000);
    assert_eq!(system.planets[0].angle, 100_000);
    assert_eq!(system.planets[1].angle, 777 - 50_000);
    // Orbital parameters other than the angle are untouched.
    assert_eq!(system.planets[0].orbital_radius, 200_000_000);
    assert_eq!(system.planets[1].product, ProductType::Minerals);
}

#[test]
fn star_radius_dominates_largest_planet() {
    // Largest planet 35 px; a 30 px yellow dwarf is raised to 105 px.
    let planets = vec![
        Planet::new(200_000_000, 100, 8_000_000, ProductType::Spice, 0),
        Planet::new(400_000_000, 50, 35_000_000, ProductType::Biomatter, 0),
    ];
    let system = SolarSystem::new(0, 0, StarType::YellowDwarf, planets);
    assert_eq!(system.star.radius, 105_000_000);

    // A 50 px blue giant already dominates a 10 px planet.
    let small = vec![Planet::new(200_000_000, 100, 10_000_000, ProductType::Spice, 0)];
    let system2 = SolarSystem::new(0, 0, StarType::BlueGiant, small);
    assert_eq!(system2.star.radius, 50_000_000);
}

#[test]
fn empty_system_keeps_the_nominal_star() {
    let system = SolarSystem::new(0, 0, StarType::RedDwarf, Vec::new());
    assert_eq!(system.star.radius, 20_000_000);
    assert_eq!(system.planets.len(), 0);
}

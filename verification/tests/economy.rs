use solar_economy::economy::Inventory;
use solar_economy::economy::ProductType;
use solar_economy::economy::BUY_PRODUCT_PRICE;
use solar_economy::economy::CAPACITY;
use solar_economy::economy::FOOD_PRICE;
use solar_economy::economy::FUEL_PRICE;
use solar_economy::economy::SELL_PRODUCT_PRICE;
use solar_economy::economy::STARTING_FOOD;
use solar_economy::economy::STARTING_FUEL;
use solar_economy::economy::STARTING_MONEY;

#[test]
fn product_names() {
    assert_eq!(ProductType::Spice.name(), "Spice");
    assert_eq!(ProductType::Minerals.name(), "Minerals");
    assert_eq!(ProductType::Biomatter.name(), "Biomatter");
}

#[test]
fn product_all_lists_each_kind_once() {
    let all = ProductType::all();
    assert_eq!(
        all,
        vec![
            ProductType::Spice,
            ProductType::Minerals,
            ProductType::Biomatter
        ]
    );
}

#[test]
fn new_inventory_has_starting_resources() {
    let inv = Inventory::new();
    assert_eq!(inv.fuel, STARTING_FUEL);
    assert_eq!(inv.food, STARTING_FOOD);
    assert_eq!(inv.money, STARTING_MONEY);
    assert_eq!(inv.spice, 0);
    assert_eq!(inv.minerals, 0);
    assert_eq!(inv.biomatter, 0);
    // 50 units of fuel + 30 food, no cargo.
    assert_eq!(inv.total_cargo(), 80);
    assert_eq!(inv.available_space(), 20);
}

#[test]
fn fractional_fuel_occupies_a_whole_unit() {
    let mut inv = Inventory::new();
    // Burning one micro-unit leaves the rounded-up occupancy unchanged.
    inv.fuel -= 1;
    assert_eq!(inv.total_cargo(), 80);
    // 49.000001 units still occupy 50.
    inv.fuel = 49_000_001;
    assert_eq!(inv.total_cargo(), 80);
    inv.fuel = 49_000_000;
    assert_eq!(inv.total_cargo(), 79);
    inv.fuel = 0;
    assert_eq!(inv.total_cargo(), 30);
}

#[test]
fn occupied_space_never_exceeds_capacity() {
    // A long arbitrary sequence of add/remove calls keeps the invariant.
    let mut inv = Inventory::new();
    let kinds = [
        ProductType::Spice,
        ProductType::Minerals,
        ProductType::Biomatter,
    ];
    for step in 0..200u32 {
        let kind = kinds[(step % 3) as usize];
        if step % 7 < 4 {
            inv.add_cargo(kind, step % 11);
        } else {
            inv.remove_cargo(kind, step % 5);
        }
        assert!(inv.total_cargo() <= CAPACITY);
    }
}

#[test]
fn add_cargo_succeeds_within_space() {
    let mut inv = Inventory::new();
    assert!(inv.add_cargo(ProductType::Minerals, 20));
    assert_eq!(inv.minerals, 20);
    assert_eq!(inv.available_space(), 0);
}

#[test]
fn add_cargo_beyond_space_changes_nothing() {
    let mut inv = Inventory::new();
    let before = inv.clone();
    assert!(!inv.add_cargo(ProductType::Spice, 21));
    assert_eq!(inv, before);
}

#[test]
fn add_cargo_exactly_at_capacity_boundary() {
    let mut inv = Inventory::new();
    assert!(inv.add_cargo(ProductType::Spice, 20));
    let before = inv.clone();
    assert!(!inv.add_cargo(ProductType::Spice, 1));
    assert_eq!(inv, before);
}

#[test]
fn remove_cargo_succeeds_down_to_zero() {
    let mut inv = Inventory::new();
    assert!(inv.add_cargo(ProductType::Biomatter, 5));
    assert!(inv.remove_cargo(ProductType::Biomatter, 3));
    assert_eq!(inv.biomatter, 2);
    assert!(inv.remove_cargo(ProductType::Biomatter, 2));
    assert_eq!(inv.biomatter, 0);
}

#[test]
fn remove_more_than_held_changes_nothing() {
    let mut inv = Inventory::new();
    assert!(inv.add_cargo(ProductType::Spice, 2));
    let before = inv.clone();
    assert!(!inv.remove_cargo(ProductType::Spice, 3));
    assert_eq!(inv, before);
    // A kind never added behaves as quantity zero.
    assert!(!inv.remove_cargo(ProductType::Minerals, 1));
    assert_eq!(inv, before);
}

#[test]
fn sell_all_cargo_spares_the_planets_own_product() {
    let mut inv = Inventory::new();
    assert!(inv.add_cargo(ProductType::Spice, 5));
    assert!(inv.add_cargo(ProductType::Minerals, 2));
    let money_before = inv.money;
    let earned = inv.sell_all_cargo(ProductType::Spice);
    assert_eq!(earned, 2 * SELL_PRODUCT_PRICE);
    assert_eq!(inv.spice, 5);
    assert_eq!(inv.minerals, 0);
    assert_eq!(inv.biomatter, 0);
    assert_eq!(inv.money, money_before + earned);
}

#[test]
fn sell_all_cargo_with_empty_hold_earns_nothing() {
    let mut inv = Inventory::new();
    let before = inv.clone();
    let earned = inv.sell_all_cargo(ProductType::Biomatter);
    assert_eq!(earned, 0);
    assert_eq!(inv, before);
}

#[test]
fn buying_one_product_unit() {
    // The worked example: a fresh inventory buying one unit of a product.
    let mut inv = Inventory::new();
    assert_eq!(inv.money, 100);
    assert!(inv.buy_product(ProductType::Spice));
    assert_eq!(inv.money, 100 - BUY_PRODUCT_PRICE);
    assert_eq!(inv.spice, 1);
    assert_eq!(inv.minerals, 0);
    assert_eq!(inv.biomatter, 0);
}

#[test]
fn buy_product_needs_money_and_space() {
    let mut inv = Inventory::new();
    inv.money = BUY_PRODUCT_PRICE - 1;
    let before = inv.clone();
    assert!(!inv.buy_product(ProductType::Spice));
    assert_eq!(inv, before);

    let mut full = Inventory::new();
    assert!(full.add_cargo(ProductType::Minerals, 20));
    let before_full = full.clone();
    assert!(!full.buy_product(ProductType::Spice));
    assert_eq!(full, before_full);
}

#[test]
fn buy_fuel_requires_space_for_the_whole_batch() {
    let mut inv = Inventory::new();
    // 20 units free: one batch of 10 fits.
    assert!(inv.buy_fuel());
    assert_eq!(inv.fuel, 60_000_000);
    assert_eq!(inv.money, 100 - FUEL_PRICE);
    assert_eq!(inv.available_space(), 10);
    assert!(inv.buy_fuel());
    assert_eq!(inv.available_space(), 0);
    let before = inv.clone();
    assert!(!inv.buy_fuel());
    assert_eq!(inv, before);
}

#[test]
fn buy_food_adds_one_unit() {
    let mut inv = Inventory::new();
    assert!(inv.buy_food());
    assert_eq!(inv.food, 31);
    assert_eq!(inv.money, 100 - FOOD_PRICE);
}

//! Economy ledger: tradeable product kinds and the ship's inventory.
//!
//! Fuel is measured in micro-units (one million micro-units of fuel equal
//! one fuel unit of cargo space, rounded up).  Cargo quantities, food and
//! money are exact integers.

use vstd::prelude::*;

verus! {

/// One fuel unit expressed in micro-units of fuel.
pub const FUEL_UNIT: u64 = 1_000_000;

/// Price paid per unit when buying a product at a planet.
pub const BUY_PRODUCT_PRICE: i64 = 20;
/// Credit received per unit when cargo is liquidated on landing.
pub const SELL_PRODUCT_PRICE: i64 = 23;
/// Price of one fuel purchase.
pub const FUEL_PRICE: i64 = 5;
/// Price of one unit of food.
pub const FOOD_PRICE: i64 = 3;

/// Total units an inventory may hold across cargo, fuel and food.
pub const CAPACITY: u32 = 100;

/// Fuel units received per fuel purchase.
pub const FUEL_BUY_UNITS: u32 = 10;

/// Starting resources of a fresh inventory.
pub const STARTING_FUEL: u64 = 50_000_000;
pub const STARTING_FOOD: u32 = 30;
pub const STARTING_MONEY: i64 = 100;

/// The closed set of tradeable goods.  A planet is permanently assigned
/// one kind at creation; it sells that kind and refuses to buy it back.
#[derive(Debug, Clone, Copy, PartialEq, Eq, Structural)]
pub enum ProductType {
    Spice,
    Minerals,
    Biomatter,
}

impl ProductType {
    /// Display name of the product kind.
    pub fn name(&self) -> (r: &'static str)
        ensures
            r@ == self.spec_name(),
    {
        match self {
            ProductType::Spice => "Spice",
            ProductType::Minerals => "Minerals",
            ProductType::Biomatter => "Biomatter",
        }
    }

    /// The display name as a sequence of characters.
    pub open spec fn spec_name(self) -> Seq<char> {
        match self {
            ProductType::Spice => "Spice"@,
            ProductType::Minerals => "Minerals"@,
            ProductType::Biomatter => "Biomatter"@,
        }
    }

    /// Every product kind, each exactly once.
    pub fn all() -> (r: Vec<ProductType>)
        ensures
            r@ =~= seq![ProductType::Spice, ProductType::Minerals, ProductType::Biomatter],
    {
        vec![ProductType::Spice, ProductType::Minerals, ProductType::Biomatter]
    }
}

/// The ship's ledger: cargo quantities per product kind, fuel in
/// micro-units, food and money.  A kind absent from the hold is simply a
/// kind whose quantity is zero.
#[derive(Debug, Clone, Copy, PartialEq, Eq, Structural)]
pub struct Inventory {
    pub spice: u32,
    pub minerals: u32,
    pub biomatter: u32,
    pub fuel: u64,
    pub food: u32,
    pub money: i64,
}

impl Inventory {
    /// Quantity of one product kind currently in the hold.
    pub open spec fn spec_qty(self, product: ProductType) -> int {
        match product {
            ProductType::Spice => self.spice as int,
            ProductType::Minerals => self.minerals as int,
            ProductType::Biomatter => self.biomatter as int,
        }
    }

    /// Sum of all cargo quantities.
    pub open spec fn spec_cargo_total(self) -> int {
        self.spice + self.minerals + self.biomatter
    }

    /// Fuel rounded up to whole units: the cargo space the fuel occupies.
    pub open spec fn spec_fuel_units(self) -> int {
        (self.fuel as int + FUEL_UNIT as int - 1) / FUEL_UNIT as int
    }

    /// Units occupied across cargo, fuel and food.
    pub open spec fn spec_occupied(self) -> int {
        self.spec_cargo_total() + self.spec_fuel_units() + self.food
    }

    /// The ledger invariant: occupied space never exceeds the capacity.
    pub open spec fn wf(self) -> bool {
        self.spec_occupied() <= CAPACITY
    }

    /// The fixed starting resources: no cargo, the starting fuel, food
    /// and money.
    pub open spec fn spec_new() -> Inventory {
        Inventory {
            spice: 0u32,
            minerals: 0u32,
            biomatter: 0u32,
            fuel: STARTING_FUEL,
            food: STARTING_FOOD,
            money: STARTING_MONEY,
        }
    }

    /// A fresh inventory with the fixed starting resources.
    pub fn new() -> (r: Inventory)
        ensures
            r == Inventory::spec_new(),
            r.wf(),
    {
        Inventory {
            spice: 0,
            minerals: 0,
            biomatter: 0,
            fuel: STARTING_FUEL,
            food: STARTING_FOOD,
            money: STARTING_MONEY,
        }
    }

    /// Units occupied across cargo, fuel and food.
    pub fn total_cargo(&self) -> (r: u32)
        requires
            self.wf(),
        ensures
            r == self.spec_occupied(),
    {
        let fuel_units = ((self.fuel + (FUEL_UNIT - 1)) / FUEL_UNIT) as u32;
        self.spice + self.minerals + self.biomatter + fuel_units + self.food
    }

    /// Units still free under the capacity.
    pub fn available_space(&self) -> (r: u32)
        requires
            self.wf(),
        ensures
            r == CAPACITY - self.spec_occupied(),
    {
        CAPACITY - self.total_cargo()
    }

    /// The inventory with one product kind's quantity replaced.
    pub open spec fn spec_set_qty(self, product: ProductType, q: u32) -> Inventory {
        match product {
            ProductType::Spice => Inventory { spice: q, ..self },
            ProductType::Minerals => Inventory { minerals: q, ..self },
            ProductType::Biomatter => Inventory { biomatter: q, ..self },
        }
    }

    /// Adds `amount` units of a product.  Succeeds exactly when the free
    /// space covers the amount; a failed call leaves the ledger unchanged.
    pub fn add_cargo(&mut self, product: ProductType, amount: u32) -> (r: bool)
        requires
            old(self).wf(),
        ensures
            r == (amount <= CAPACITY - old(self).spec_occupied()),
            r ==> *final(self) == old(self).spec_set_qty(
                product,
                (old(self).spec_qty(product) + amount) as u32,
            ),
            !r ==> *final(self) == *old(self),
            *final(self) == spec_apply_cargo_op(*old(self), CargoOp::Add(product, amount)),
            final(self).wf(),
    {
        if amount <= self.available_space() {
            match product {
                ProductType::Spice => {
                    self.spice = self.spice + amount;
                }
                ProductType::Minerals => {
                    self.minerals = self.minerals + amount;
                }
                ProductType::Biomatter => {
                    self.biomatter = self.biomatter + amount;
                }
            }
            true
        } else {
            false
        }
    }

    /// Removes `amount` units of a product.  Succeeds exactly when at
    /// least that much is held; a failed call leaves the ledger unchanged.
    pub fn remove_cargo(&mut self, product: ProductType, amount: u32) -> (r: bool)
        requires
            old(self).wf(),
        ensures
            r == (amount <= old(self).spec_qty(product)),
            r ==> *final(self) == old(self).spec_set_qty(
                product,
                (old(self).spec_qty(product) - amount) as u32,
            ),
            !r ==> *final(self) == *old(self),
            *final(self) == spec_apply_cargo_op(*old(self), CargoOp::Remove(product, amount)),
            final(self).wf(),
    {
        match product {
            ProductType::Spice => {
                if amount <= self.spice {
                    self.spice = self.spice - amount;
                    true
                } else {
                    false
                }
            }
            ProductType::Minerals => {
                if amount <= self.minerals {
                    self.minerals = self.minerals - amount;
                    true
                } else {
                    false
                }
            }
            ProductType::Biomatter => {
                if amount <= self.biomatter {
                    self.biomatter = self.biomatter - amount;
                    true
                } else {
                    false
                }
            }
        }
    }

    /// Cargo units that a sale at a planet producing `excluded` would move:
    /// everything in the hold except the planet's own product.
    pub open spec fn spec_sellable(self, excluded: ProductType) -> int {
        self.spec_cargo_total() - self.spec_qty(excluded)
    }

    /// The inventory after liquidating all cargo except `excluded`:
    /// the other kinds are emptied and their value is credited to money.
    pub open spec fn spec_after_sale(self, excluded: ProductType) -> Inventory {
        Inventory {
            spice: if excluded == ProductType::Spice { self.spice } else { 0u32 },
            minerals: if excluded == ProductType::Minerals { self.minerals } else { 0u32 },
            biomatter: if excluded == ProductType::Biomatter { self.biomatter } else { 0u32 },
            money: (self.money + self.spec_sellable(excluded) * SELL_PRODUCT_PRICE) as i64,
            ..self
        }
    }

    /// Sells every cargo kind other than `planet_product`, crediting
    /// `quantity * SELL_PRODUCT_PRICE` per kind, and returns the total
    /// credited.  The planet's own product is left untouched.
    pub fn sell_all_cargo(&mut self, planet_product: ProductType) -> (earned: i64)
        requires
            old(self).wf(),
            old(self).money + old(self).spec_sellable(planet_product) * SELL_PRODUCT_PRICE
                <= i64::MAX,
        ensures
            earned == old(self).spec_sellable(planet_product) * SELL_PRODUCT_PRICE,
            *final(self) == old(self).spec_after_sale(planet_product),
            final(self).wf(),
    {
        let mut earned: i64 = 0;

        if planet_product != ProductType::Spice {
            earned = earned + (self.spice as i64) * SELL_PRODUCT_PRICE;
            self.spice = 0;
        }
        if planet_product != ProductType::Minerals {
            earned = earned + (self.minerals as i64) * SELL_PRODUCT_PRICE;
            self.minerals = 0;
        }
        if planet_product != ProductType::Biomatter {
            earned = earned + (self.biomatter as i64) * SELL_PRODUCT_PRICE;
            self.biomatter = 0;
        }

        self.money = self.money + earned;
        earned
    }

    /// Buys one unit of `product` at the fixed purchase price.  Succeeds
    /// exactly when the money covers the price and one unit of space is
    /// free; a failed call leaves the ledger unchanged.
    pub fn buy_product(&mut self, product: ProductType) -> (r: bool)
        requires
            old(self).wf(),
        ensures
            r == (old(self).money >= BUY_PRODUCT_PRICE
                && old(self).spec_occupied() + 1 <= CAPACITY),
            r ==> *final(self) == (Inventory {
                money: (old(self).money - BUY_PRODUCT_PRICE) as i64,
                ..old(self).spec_set_qty(product, (old(self).spec_qty(product) + 1) as u32)
            }),
            !r ==> *final(self) == *old(self),
            final(self).wf(),
    {
        if self.money >= BUY_PRODUCT_PRICE && self.available_space() >= 1 {
            self.add_cargo(product, 1);
            self.money = self.money - BUY_PRODUCT_PRICE;
            true
        } else {
            false
        }
    }

    /// Buys one batch of fuel.  The space required is computed from the
    /// purchased amount alone.  Succeeds exactly when the money covers the
    /// price and the batch fits; a failed call leaves the ledger unchanged.
    pub fn buy_fuel(&mut self) -> (r: bool)
        requires
            old(self).wf(),
        ensures
            r == (old(self).money >= FUEL_PRICE
                && old(self).spec_occupied() + FUEL_BUY_UNITS <= CAPACITY),
            r ==> *final(self) == (Inventory {
                fuel: (old(self).fuel + FUEL_BUY_UNITS * FUEL_UNIT) as u64,
                money: (old(self).money - FUEL_PRICE) as i64,
                ..*old(self)
            }),
            !r ==> *final(self) == *old(self),
            final(self).wf(),
    {
        if self.money >= FUEL_PRICE && self.available_space() >= FUEL_BUY_UNITS {
            proof {
                lemma_fuel_units_shift(self.fuel, FUEL_BUY_UNITS as int);
            }
            self.fuel = self.fuel + (FUEL_BUY_UNITS as u64) * FUEL_UNIT;
            self.money = self.money - FUEL_PRICE;
            true
        } else {
            false
        }
    }

    /// Buys one unit of food.  Succeeds exactly when the money covers the
    /// price and one unit of space is free; a failed call leaves the
    /// ledger unchanged.
    pub fn buy_food(&mut self) -> (r: bool)
        requires
            old(self).wf(),
        ensures
            r == (old(self).money >= FOOD_PRICE && old(self).spec_occupied() + 1 <= CAPACITY),
            r ==> *final(self) == (Inventory {
                food: (old(self).food + 1) as u32,
                money: (old(self).money - FOOD_PRICE) as i64,
                ..*old(self)
            }),
            !r ==> *final(self) == *old(self),
            final(self).wf(),
    {
        if self.money >= FOOD_PRICE && self.available_space() >= 1 {
            self.food = self.food + 1;
            self.money = self.money - FOOD_PRICE;
            true
        } else {
            false
        }
    }
}

/// Adding whole fuel units shifts the rounded-up unit count by exactly
/// that many units.
proof fn lemma_fuel_units_shift(fuel: u64, units: int)
    requires
        units >= 0,
    ensures
        (fuel + units * FUEL_UNIT + FUEL_UNIT - 1) / (FUEL_UNIT as int)
            == (fuel + FUEL_UNIT - 1) / (FUEL_UNIT as int) + units,
{
    let m = FUEL_UNIT as int;
    let a = fuel + m - 1;
    assert((a + units * m) / m == a / m + units) by (nonlinear_arith)
        requires
            m > 0,
            a >= 0,
            units >= 0,
    ;
}

/// One cargo call, as the capacity law quantifies over call sequences.
#[derive(Debug, Clone, Copy, PartialEq, Eq, Structural)]
pub enum CargoOp {
    Add(ProductType, u32),
    Remove(ProductType, u32),
}

/// What one `add_cargo` or `remove_cargo` call does to the ledger: the
/// two calls ensure exactly this.
pub open spec fn spec_apply_cargo_op(inv: Inventory, op: CargoOp) -> Inventory {
    match op {
        CargoOp::Add(product, amount) => if amount <= CAPACITY - inv.spec_occupied() {
            inv.spec_set_qty(product, (inv.spec_qty(product) + amount) as u32)
        } else {
            inv
        },
        CargoOp::Remove(product, amount) => if amount <= inv.spec_qty(product) {
            inv.spec_set_qty(product, (inv.spec_qty(product) - amount) as u32)
        } else {
            inv
        },
    }
}

/// The ledger after a whole sequence of cargo calls, applied in order.
pub open spec fn spec_run_cargo_ops(inv: Inventory, ops: Seq<CargoOp>) -> Inventory
    decreases ops.len(),
{
    if ops.len() == 0 {
        inv
    } else {
        spec_run_cargo_ops(spec_apply_cargo_op(inv, ops[0]), ops.drop_first())
    }
}

/// Law: along any sequence of `add_cargo`/`remove_cargo` calls from a
/// well-formed ledger, the ledger stays well formed and the occupied
/// space never exceeds the capacity at any point of the sequence.
pub proof fn lemma_capacity_never_exceeded(inv: Inventory, ops: Seq<CargoOp>)
    requires
        inv.wf(),
    ensures
        spec_run_cargo_ops(inv, ops).wf(),
        forall|k: int|
            0 <= k <= ops.len() ==> spec_run_cargo_ops(inv, ops.take(k)).spec_occupied()
                <= CAPACITY,
    decreases ops.len(),
{
    if ops.len() == 0 {
        assert forall|k: int| 0 <= k <= ops.len() implies spec_run_cargo_ops(
            inv,
            ops.take(k),
        ).spec_occupied() <= CAPACITY by {
            assert(ops.take(k).len() == 0);
        }
    } else {
        let stepped = spec_apply_cargo_op(inv, ops[0]);
        assert(stepped.wf());
        lemma_capacity_never_exceeded(stepped, ops.drop_first());
        assert forall|k: int| 0 <= k <= ops.len() implies spec_run_cargo_ops(
            inv,
            ops.take(k),
        ).spec_occupied() <= CAPACITY by {
            if k == 0 {
                assert(ops.take(0).len() == 0);
            } else {
                assert(ops.take(k).drop_first() =~= ops.drop_first().take(k - 1));
                assert(ops.take(k)[0] == ops[0]);
            }
        }
    }
}

} // verus!

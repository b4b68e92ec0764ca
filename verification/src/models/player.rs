//! A player: money, position, fuel and hold.

use vstd::prelude::*;
use crate::models::cargo::{cargo_weight, capped, capped_sum, add_capped, CargoInventory, CargoType};

verus! {

/// A player's aircraft and purse. Fuel efficiency is the distance flown on
/// one unit of fuel, in metres.
#[derive(Debug)]
pub struct Player {
    pub money: u32,
    pub current_airport: String,
    pub fuel: u32,
    pub max_fuel: u32,
    pub cargo_inventory: CargoInventory,
    pub max_cargo_weight: u32,
    pub fuel_efficiency: u32,
}

/// The smaller of two numbers.
pub open spec fn min_of(a: int, b: int) -> int {
    if a <= b {
        a
    } else {
        b
    }
}

/// A quotient rounded up.
pub open spec fn ceil_div(n: nat, d: nat) -> nat
    recommends
        d > 0,
{
    ((n + d - 1) / (d as int)) as nat
}

/// The fuel that a distance takes at a given efficiency: the distance
/// divided by the efficiency, rounded up, and kept at the largest amount
/// where it would pass it. An aircraft that flies no distance on a unit of
/// fuel needs the largest amount for any way at all, and none for no way.
pub open spec fn fuel_needed(distance: nat, efficiency: nat) -> u32 {
    if efficiency == 0 {
        if distance == 0 {
            0
        } else {
            u32::MAX
        }
    } else {
        capped(ceil_div(distance, efficiency))
    }
}

/// The fuel of a tank after an amount is added: the sum, kept at the brim.
pub open spec fn fuel_after_adding(fuel: u32, amount: u32, max_fuel: u32) -> u32 {
    min_of(fuel + amount, max_fuel as int) as u32
}

/// The fuel that a new aircraft starts with: two thirds of a tank.
pub open spec fn starting_fuel(max_fuel: u32) -> u32 {
    (max_fuel * 2 / 3) as u32
}

impl Clone for Player {
    fn clone(&self) -> (r: Self)
        ensures
            r.same_as(*self),
    {
        Player {
            money: self.money,
            current_airport: self.current_airport.clone(),
            fuel: self.fuel,
            max_fuel: self.max_fuel,
            cargo_inventory: self.cargo_inventory.clone(),
            max_cargo_weight: self.max_cargo_weight,
            fuel_efficiency: self.fuel_efficiency,
        }
    }
}

impl Player {
    /// Whether two players agree in every respect.
    pub open spec fn same_as(self, other: Player) -> bool {
        &&& self.money == other.money
        &&& self.current_airport@ == other.current_airport@
        &&& self.fuel == other.fuel
        &&& self.max_fuel == other.max_fuel
        &&& self.cargo_inventory@ == other.cargo_inventory@
        &&& self.max_cargo_weight == other.max_cargo_weight
        &&& self.fuel_efficiency == other.fuel_efficiency
    }

    /// A player at an airport, with an empty hold and a tank two thirds
    /// full.
    pub fn new(
        starting_money: u32,
        starting_airport: &str,
        max_fuel: u32,
        max_cargo_weight: u32,
        fuel_efficiency: u32,
    ) -> (r: Self)
        ensures
            r.money == starting_money,
            r.current_airport@ == starting_airport@,
            r.fuel == starting_fuel(max_fuel),
            r.max_fuel == max_fuel,
            r.cargo_inventory@ == Map::<Seq<char>, u32>::empty(),
            r.max_cargo_weight == max_cargo_weight,
            r.fuel_efficiency == fuel_efficiency,
    {
        let two_thirds: u64 = max_fuel as u64 * 2 / 3;
        Player {
            money: starting_money,
            current_airport: starting_airport.to_string(),
            fuel: two_thirds as u32,
            max_fuel,
            cargo_inventory: CargoInventory::new(),
            max_cargo_weight,
            fuel_efficiency,
        }
    }

    /// Whether the player's money covers a cost.
    pub fn can_afford(&self, cost: u32) -> (r: bool)
        ensures
            r == (self.money >= cost),
    {
        self.money >= cost
    }

    /// Pays an amount if the player's money covers it, and says whether it
    /// did. Nothing changes where it does not.
    pub fn spend_money(&mut self, amount: u32) -> (r: bool)
        ensures
            r == (amount <= old(self).money),
            r ==> *final(self) == (Player {
                money: (old(self).money - amount) as u32,
                ..*old(self)
            }),
            !r ==> *final(self) == *old(self),
    {
        if self.can_afford(amount) {
            self.money -= amount;
            true
        } else {
            false
        }
    }

    /// Takes in an amount. The purse stops at the largest amount.
    pub fn earn_money(&mut self, amount: u32)
        ensures
            *final(self) == (Player { money: capped_sum(old(self).money, amount), ..*old(self) }),
    {
        self.money = add_capped(self.money, amount);
    }

    /// Whether the hold can take a further weight.
    pub fn can_carry_more_weight(&self, additional_weight: u32, cargo_types: &Vec<CargoType>) -> (r:
        bool)
        ensures
            r == (cargo_weight(self.cargo_inventory@, cargo_types@) + additional_weight
                <= self.max_cargo_weight),
    {
        let current_weight = self.cargo_inventory.exact_weight(cargo_types);
        current_weight <= self.max_cargo_weight as u128 && current_weight
            + additional_weight as u128 <= self.max_cargo_weight as u128
    }

    /// Burns an amount of fuel if the tank holds it, and says whether it
    /// did. Nothing changes where it does not.
    pub fn consume_fuel(&mut self, amount: u32) -> (r: bool)
        ensures
            r == (amount <= old(self).fuel),
            r ==> *final(self) == (Player { fuel: (old(self).fuel - amount) as u32, ..*old(self) }),
            !r ==> *final(self) == *old(self),
    {
        if self.fuel >= amount {
            self.fuel -= amount;
            true
        } else {
            false
        }
    }

    /// Fills in an amount of fuel; what the tank cannot hold is lost.
    pub fn add_fuel(&mut self, amount: u32)
        ensures
            *final(self) == (Player {
                fuel: fuel_after_adding(old(self).fuel, amount, old(self).max_fuel),
                ..*old(self)
            }),
            final(self).fuel <= final(self).max_fuel,
    {
        let sum: u64 = self.fuel as u64 + amount as u64;
        if sum < self.max_fuel as u64 {
            self.fuel = sum as u32;
        } else {
            self.fuel = self.max_fuel;
        }
    }

    /// The fuel that a distance, in metres, takes.
    pub fn fuel_needed_for_distance(&self, distance: u64) -> (r: u32)
        ensures
            r == fuel_needed(distance as nat, self.fuel_efficiency as nat),
    {
        if self.fuel_efficiency == 0 {
            if distance == 0 {
                0
            } else {
                u32::MAX
            }
        } else {
            let d: u128 = distance as u128;
            let e: u128 = self.fuel_efficiency as u128;
            let q: u128 = (d + e - 1) / e;
            if q > u32::MAX as u128 {
                u32::MAX
            } else {
                q as u32
            }
        }
    }

    /// Whether the tank holds the fuel that a distance, in metres, takes.
    pub fn can_travel_distance(&self, distance: u64) -> (r: bool)
        ensures
            r == (self.fuel >= fuel_needed(distance as nat, self.fuel_efficiency as nat)),
    {
        let fuel_needed = self.fuel_needed_for_distance(distance);
        self.fuel >= fuel_needed
    }

    /// The weight of the hold, kept at the largest amount where it would
    /// pass it.
    pub fn current_cargo_weight(&self, cargo_types: &Vec<CargoType>) -> (r: u32)
        ensures
            r == capped(cargo_weight(self.cargo_inventory@, cargo_types@)),
    {
        self.cargo_inventory.total_weight(cargo_types)
    }
}

} // verus!

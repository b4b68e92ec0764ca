//! Trading for a player on their own: cargo and fuel at the market where
//! the player is.

use vstd::prelude::*;
use crate::models::amounts::amount_in;
use crate::models::cargo::{
    capped, capped_sum, cargo_type_index, cargo_weight, find_cargo_type, times, CargoType,
};
use crate::models::market::Market;
use crate::models::player::{fuel_after_adding, min_of, Player};

verus! {

/// Why a trade was not made.
#[derive(Debug, Clone, Copy, PartialEq, Eq, Structural)]
pub enum TradingError {
    InsufficientFunds,
    InsufficientCargo,
    InsufficientCapacity,
    CargoNotAvailable,
    InvalidQuantity,
}

/// The rules of trading.
pub struct TradingSystem;

/// What stands against a purchase of cargo, if anything does.
pub open spec fn cargo_purchase_error(
    player: Player,
    market: Market,
    cargo_types: Seq<CargoType>,
    cargo_id: Seq<char>,
    quantity: u32,
) -> Option<TradingError> {
    let c = cargo_type_index(cargo_types, cargo_id);
    if quantity == 0 {
        Some(TradingError::InvalidQuantity)
    } else if c < 0 || !market.cargo_prices@.contains_key(cargo_id) {
        Some(TradingError::CargoNotAvailable)
    } else if market.cargo_prices@[cargo_id] * quantity > player.money {
        Some(TradingError::InsufficientFunds)
    } else if cargo_weight(player.cargo_inventory@, cargo_types) + cargo_types[c].weight_per_unit
        * quantity > player.max_cargo_weight {
        Some(TradingError::InsufficientCapacity)
    } else {
        None
    }
}

/// What stands against a sale of cargo, if anything does.
pub open spec fn cargo_sale_error(player: Player, market: Market, cargo_id: Seq<char>, quantity: u32) -> Option<
    TradingError,
> {
    if quantity == 0 {
        Some(TradingError::InvalidQuantity)
    } else if amount_in(player.cargo_inventory@, cargo_id) < quantity {
        Some(TradingError::InsufficientCargo)
    } else if !market.cargo_prices@.contains_key(cargo_id) {
        Some(TradingError::CargoNotAvailable)
    } else {
        None
    }
}

/// The units of fuel for which a tank has room.
pub open spec fn room_in_tank(player: Player) -> u32 {
    if player.max_fuel >= player.fuel {
        (player.max_fuel - player.fuel) as u32
    } else {
        0
    }
}

/// The units of fuel that a purchase brings: those asked for, or as many
/// as the tank has room for where that is less.
pub open spec fn fuel_bought(player: Player, quantity: u32) -> u32 {
    min_of(quantity as int, room_in_tank(player) as int) as u32
}

/// What stands against a purchase of fuel, if anything does. The money
/// must cover all the units asked for, though only those that the tank
/// takes are paid for.
pub open spec fn fuel_purchase_error(player: Player, market: Market, quantity: u32) -> Option<
    TradingError,
> {
    if quantity == 0 {
        Some(TradingError::InvalidQuantity)
    } else if market.fuel_price * quantity > player.money {
        Some(TradingError::InsufficientFunds)
    } else if room_in_tank(player) == 0 {
        Some(TradingError::InsufficientCapacity)
    } else {
        None
    }
}

/// The most units of a kind of cargo that a player can buy at a market:
/// as many as the money pays for and the hold has room for.
pub open spec fn max_buyable(
    player: Player,
    market: Market,
    cargo_types: Seq<CargoType>,
    cargo_id: Seq<char>,
) -> u32 {
    let c = cargo_type_index(cargo_types, cargo_id);
    if c < 0 || !market.cargo_prices@.contains_key(cargo_id) || market.cargo_prices@[cargo_id]
        == 0 {
        0
    } else {
        let by_money = player.money / market.cargo_prices@[cargo_id];
        let held = capped(cargo_weight(player.cargo_inventory@, cargo_types));
        let free = if player.max_cargo_weight >= held {
            player.max_cargo_weight - held
        } else {
            0
        };
        let by_weight = if cargo_types[c].weight_per_unit > 0 {
            free / (cargo_types[c].weight_per_unit as int)
        } else {
            by_money as int
        };
        min_of(by_money as int, by_weight) as u32
    }
}

/// The most units of fuel that a player can buy at a market: as many as
/// the money pays for and the tank has room for.
pub open spec fn max_fuel_buyable(player: Player, market: Market) -> u32 {
    if market.fuel_price == 0 {
        0
    } else {
        min_of((player.money / market.fuel_price) as int, room_in_tank(player) as int) as u32
    }
}

impl TradingSystem {
    /// Buys cargo for a player, if a quantity is named, the market trades
    /// the kind, and the player has the money and the room in the hold.
    /// Answers with what was paid.
    pub fn buy_cargo(
        player: &mut Player,
        market: &Market,
        cargo_types: &Vec<CargoType>,
        cargo_id: &str,
        quantity: u32,
    ) -> (r: Result<u32, TradingError>)
        ensures
            match r {
                Ok(cost) => {
                    &&& cargo_purchase_error(*old(player), *market, cargo_types@, cargo_id@, quantity)
                        is None
                    &&& cost == market.cargo_prices@[cargo_id@] * quantity
                    &&& *final(player) == (Player {
                        money: (old(player).money - cost) as u32,
                        cargo_inventory: final(player).cargo_inventory,
                        ..*old(player)
                    })
                    &&& final(player).cargo_inventory@ == old(player).cargo_inventory@.insert(
                        cargo_id@,
                        capped_sum(amount_in(old(player).cargo_inventory@, cargo_id@), quantity),
                    )
                },
                Err(e) => {
                    &&& cargo_purchase_error(*old(player), *market, cargo_types@, cargo_id@, quantity)
                        == Some(e)
                    &&& *final(player) == *old(player)
                },
            },
    {
        if quantity == 0 {
            return Err(TradingError::InvalidQuantity);
        }
        let weight_per_unit = match find_cargo_type(cargo_types, cargo_id) {
            Some(cargo_type) => cargo_type.weight_per_unit,
            None => {
                return Err(TradingError::CargoNotAvailable);
            },
        };
        let unit_price = match market.get_cargo_price(cargo_id) {
            Some(price) => price,
            None => {
                return Err(TradingError::CargoNotAvailable);
            },
        };
        let total_cost = times(unit_price, quantity);
        let total_weight = times(weight_per_unit, quantity);
        if total_cost > player.money as u64 {
            return Err(TradingError::InsufficientFunds);
        }
        let current_weight = player.cargo_inventory.exact_weight(cargo_types);
        let max_weight = player.max_cargo_weight;
        if current_weight > max_weight as u128 || total_weight > max_weight as u64 || current_weight
            + total_weight as u128 > max_weight as u128 {
            return Err(TradingError::InsufficientCapacity);
        }
        player.spend_money(total_cost as u32);
        player.cargo_inventory.add_cargo(cargo_id, quantity);
        Ok(total_cost as u32)
    }

    /// Sells cargo for a player, if a quantity is named, the player holds
    /// the units and the market has a price for the kind. Answers with the
    /// proceeds, which stop at the largest amount, as does the purse.
    pub fn sell_cargo(player: &mut Player, market: &Market, cargo_id: &str, quantity: u32) -> (r:
        Result<u32, TradingError>)
        ensures
            match r {
                Ok(revenue) => {
                    &&& cargo_sale_error(*old(player), *market, cargo_id@, quantity) is None
                    &&& revenue == capped((market.cargo_prices@[cargo_id@] * quantity) as nat)
                    &&& *final(player) == (Player {
                        money: capped_sum(old(player).money, revenue),
                        cargo_inventory: final(player).cargo_inventory,
                        ..*old(player)
                    })
                    &&& final(player).cargo_inventory@ == crate::models::cargo::after_removal(
                        old(player).cargo_inventory@,
                        cargo_id@,
                        quantity,
                    )
                },
                Err(e) => {
                    &&& cargo_sale_error(*old(player), *market, cargo_id@, quantity) == Some(e)
                    &&& *final(player) == *old(player)
                },
            },
    {
        if quantity == 0 {
            return Err(TradingError::InvalidQuantity);
        }
        let player_quantity = player.cargo_inventory.get_quantity(cargo_id);
        if player_quantity < quantity {
            return Err(TradingError::InsufficientCargo);
        }
        let unit_price = match market.get_cargo_price(cargo_id) {
            Some(price) => price,
            None => {
                return Err(TradingError::CargoNotAvailable);
            },
        };
        let exact = times(unit_price, quantity);
        let total_revenue: u32 = if exact > u32::MAX as u64 {
            u32::MAX
        } else {
            exact as u32
        };
        player.cargo_inventory.remove_cargo(cargo_id, quantity);
        player.earn_money(total_revenue);
        Ok(total_revenue)
    }

    /// Buys fuel for a player, if a quantity is named, the player's money
    /// covers all of it and the tank has room for any. The tank takes what
    /// it has room for, and that much is paid. Answers with what was paid.
    pub fn buy_fuel(player: &mut Player, market: &Market, quantity: u32) -> (r: Result<
        u32,
        TradingError,
    >)
        ensures
            match r {
                Ok(cost) => {
                    &&& fuel_purchase_error(*old(player), *market, quantity) is None
                    &&& cost == market.fuel_price * fuel_bought(*old(player), quantity)
                    &&& *final(player) == (Player {
                        money: (old(player).money - cost) as u32,
                        fuel: fuel_after_adding(old(player).fuel, quantity, old(player).max_fuel),
                        ..*old(player)
                    })
                },
                Err(e) => {
                    &&& fuel_purchase_error(*old(player), *market, quantity) == Some(e)
                    &&& *final(player) == *old(player)
                },
            },
    {
        if quantity == 0 {
            return Err(TradingError::InvalidQuantity);
        }
        let unit_price = market.fuel_price;
        let total_cost = times(unit_price, quantity);
        if total_cost > player.money as u64 {
            return Err(TradingError::InsufficientFunds);
        }
        let available_capacity = player.max_fuel.saturating_sub(player.fuel);
        let quantity_to_buy = if quantity < available_capacity {
            quantity
        } else {
            available_capacity
        };
        if quantity_to_buy == 0 {
            return Err(TradingError::InsufficientCapacity);
        }
        let actual_cost = times(unit_price, quantity_to_buy);
        assert(actual_cost <= total_cost) by (nonlinear_arith)
            requires
                actual_cost == unit_price * quantity_to_buy,
                total_cost == unit_price * quantity,
                quantity_to_buy <= quantity,
        ;
        player.spend_money(actual_cost as u32);
        player.add_fuel(quantity_to_buy);
        Ok(actual_cost as u32)
    }

    /// The most units of a kind of cargo that a player can buy at a
    /// market.
    pub fn get_max_buyable_quantity(
        player: &Player,
        market: &Market,
        cargo_types: &Vec<CargoType>,
        cargo_id: &str,
    ) -> (r: u32)
        ensures
            r == max_buyable(*player, *market, cargo_types@, cargo_id@),
    {
        let weight_per_unit = match find_cargo_type(cargo_types, cargo_id) {
            Some(cargo_type) => cargo_type.weight_per_unit,
            None => {
                return 0;
            },
        };
        let unit_price = match market.get_cargo_price(cargo_id) {
            Some(price) => price,
            None => {
                return 0;
            },
        };
        if unit_price == 0 {
            return 0;
        }
        let max_by_money = player.money / unit_price;
        let current_weight = player.current_cargo_weight(cargo_types);
        let available_weight = player.max_cargo_weight.saturating_sub(current_weight);
        let max_by_weight = if weight_per_unit > 0 {
            available_weight / weight_per_unit
        } else {
            max_by_money
        };
        if max_by_money < max_by_weight {
            max_by_money
        } else {
            max_by_weight
        }
    }

    /// The most units of fuel that a player can buy at a market.
    pub fn get_max_fuel_buyable(player: &Player, market: &Market) -> (r: u32)
        ensures
            r == max_fuel_buyable(*player, *market),
    {
        let unit_price = market.fuel_price;
        if unit_price == 0 {
            return 0;
        }
        let max_by_money = player.money / unit_price;
        let max_by_capacity = player.max_fuel.saturating_sub(player.fuel);
        if max_by_money < max_by_capacity {
            max_by_money
        } else {
            max_by_capacity
        }
    }
}

} // verus!

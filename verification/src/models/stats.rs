//! The statistics of a game played alone. Distances are in metres; every
//! total stops at the largest number it can hold.

use vstd::prelude::*;
use crate::models::cargo::{add_capped, capped, capped_sum};
use crate::systems::events::{capped_distance, has_name, visited_after};

verus! {

/// What a player has done in a game played alone.
#[derive(Debug, Clone)]
pub struct GameStats {
    pub total_trades: u32,
    pub successful_trades: u32,
    pub total_profit: i64,
    pub total_loss: i64,
    pub best_trade_profit: i64,
    pub worst_trade_loss: i64,
    pub total_distance_traveled: u64,
    pub total_fuel_consumed: u32,
    pub total_fuel_purchased: u32,
    pub total_cargo_bought: u32,
    pub total_cargo_sold: u32,
    pub airports_visited: Vec<String>,
    pub favorite_cargo: Option<String>,
    pub most_profitable_route: Option<(String, String)>,
    pub peak_money: u32,
    pub lowest_money: u32,
    pub times_went_broke: u32,
}

/// A number kept within the numbers that 64 bits with a sign hold.
pub open spec fn clamped(n: int) -> i64 {
    if n > i64::MAX {
        i64::MAX
    } else if n < i64::MIN {
        i64::MIN
    } else {
        n as i64
    }
}

/// A quotient rounded towards zero.
pub open spec fn quotient_towards_zero(n: int, d: int) -> int
    recommends
        d > 0,
{
    if n >= 0 {
        n / d
    } else {
        -((-n) / d)
    }
}

/// Brings a number within the numbers that 64 bits with a sign hold.
pub fn clamp(n: i128) -> (r: i64)
    ensures
        r == clamped(n as int),
{
    if n > i64::MAX as i128 {
        i64::MAX
    } else if n < i64::MIN as i128 {
        i64::MIN
    } else {
        n as i64
    }
}

impl GameStats {
    /// Whether nothing has been recorded yet in a game that began with a
    /// sum of money.
    pub open spec fn is_fresh(self, starting_money: u32) -> bool {
        &&& self.has_no_records(starting_money)
        &&& self.airports_visited@ == Seq::<String>::empty()
    }

    /// Whether no trade, flight or purchase has been recorded yet in a game
    /// that began with a sum of money.
    pub open spec fn has_no_records(self, starting_money: u32) -> bool {
        &&& self.total_trades == 0
        &&& self.successful_trades == 0
        &&& self.total_profit == 0
        &&& self.total_loss == 0
        &&& self.best_trade_profit == 0
        &&& self.worst_trade_loss == 0
        &&& self.total_distance_traveled == 0
        &&& self.total_fuel_consumed == 0
        &&& self.total_fuel_purchased == 0
        &&& self.total_cargo_bought == 0
        &&& self.total_cargo_sold == 0
        &&& self.favorite_cargo is None
        &&& self.most_profitable_route is None
        &&& self.peak_money == starting_money
        &&& self.lowest_money == starting_money
        &&& self.times_went_broke == 0
    }

    /// The statistics after a trade. A purchase counts its units; a sale
    /// counts its units and its profit or loss.
    pub open spec fn with_trade(self, profit: i64, quantity: u32, is_buy: bool) -> GameStats {
        if is_buy {
            GameStats {
                total_trades: capped_sum(self.total_trades, 1),
                total_cargo_bought: capped_sum(self.total_cargo_bought, quantity),
                ..self
            }
        } else if profit > 0 {
            GameStats {
                total_trades: capped_sum(self.total_trades, 1),
                total_cargo_sold: capped_sum(self.total_cargo_sold, quantity),
                successful_trades: capped_sum(self.successful_trades, 1),
                total_profit: clamped(self.total_profit + profit),
                best_trade_profit: if profit > self.best_trade_profit {
                    profit
                } else {
                    self.best_trade_profit
                },
                ..self
            }
        } else if profit < 0 {
            GameStats {
                total_trades: capped_sum(self.total_trades, 1),
                total_cargo_sold: capped_sum(self.total_cargo_sold, quantity),
                total_loss: clamped(self.total_loss - profit),
                worst_trade_loss: if profit < self.worst_trade_loss {
                    profit
                } else {
                    self.worst_trade_loss
                },
                ..self
            }
        } else {
            GameStats {
                total_trades: capped_sum(self.total_trades, 1),
                total_cargo_sold: capped_sum(self.total_cargo_sold, quantity),
                ..self
            }
        }
    }

    /// The statistics after the money has been looked at.
    pub open spec fn with_money(self, current_money: u32) -> GameStats {
        GameStats {
            peak_money: if current_money > self.peak_money {
                current_money
            } else {
                self.peak_money
            },
            lowest_money: if current_money < self.lowest_money {
                current_money
            } else {
                self.lowest_money
            },
            times_went_broke: if current_money == 0 {
                capped_sum(self.times_went_broke, 1)
            } else {
                self.times_went_broke
            },
            ..self
        }
    }

    /// Statistics with nothing recorded, for a game that begins with a sum
    /// of money.
    pub fn new(starting_money: u32) -> (r: Self)
        ensures
            r.is_fresh(starting_money),
    {
        GameStats {
            total_trades: 0,
            successful_trades: 0,
            total_profit: 0,
            total_loss: 0,
            best_trade_profit: 0,
            worst_trade_loss: 0,
            total_distance_traveled: 0,
            total_fuel_consumed: 0,
            total_fuel_purchased: 0,
            total_cargo_bought: 0,
            total_cargo_sold: 0,
            airports_visited: Vec::new(),
            favorite_cargo: None,
            most_profitable_route: None,
            peak_money: starting_money,
            lowest_money: starting_money,
            times_went_broke: 0,
        }
    }

    /// Records a trade.
    pub fn record_trade(&mut self, profit: i64, _cargo_type: String, quantity: u32, is_buy: bool)
        ensures
            *final(self) == old(self).with_trade(profit, quantity, is_buy),
    {
        self.total_trades = add_capped(self.total_trades, 1);
        if is_buy {
            self.total_cargo_bought = add_capped(self.total_cargo_bought, quantity);
        } else {
            self.total_cargo_sold = add_capped(self.total_cargo_sold, quantity);
            if profit > 0 {
                self.successful_trades = add_capped(self.successful_trades, 1);
                self.total_profit = clamp(self.total_profit as i128 + profit as i128);
                if profit > self.best_trade_profit {
                    self.best_trade_profit = profit;
                }
            } else if profit < 0 {
                self.total_loss = clamp(self.total_loss as i128 - profit as i128);
                if profit < self.worst_trade_loss {
                    self.worst_trade_loss = profit;
                }
            }
        }
    }

    /// Records a flight: its distance and fuel, and the airport reached
    /// unless it is on the list of those visited.
    pub fn record_travel(&mut self, distance: u64, fuel_consumed: u32, _from: String, to: String)
        ensures
            *final(self) == (GameStats {
                total_distance_traveled: capped_distance(
                    old(self).total_distance_traveled,
                    distance,
                ),
                total_fuel_consumed: capped_sum(old(self).total_fuel_consumed, fuel_consumed),
                airports_visited: final(self).airports_visited,
                ..*old(self)
            }),
            visited_after(old(self).airports_visited@, final(self).airports_visited@, to@),
    {
        self.total_distance_traveled = self.total_distance_traveled.saturating_add(distance);
        self.total_fuel_consumed = add_capped(self.total_fuel_consumed, fuel_consumed);
        if !has_name(&self.airports_visited, to.as_str()) {
            self.airports_visited.push(to);
            proof {
                assert(self.airports_visited@.drop_last() =~= old(self).airports_visited@);
            }
        }
    }

    /// Records a purchase of fuel.
    pub fn record_fuel_purchase(&mut self, amount: u32)
        ensures
            *final(self) == (GameStats {
                total_fuel_purchased: capped_sum(old(self).total_fuel_purchased, amount),
                ..*old(self)
            }),
    {
        self.total_fuel_purchased = add_capped(self.total_fuel_purchased, amount);
    }

    /// Looks at the money: a new peak or a new low is kept, and having
    /// nothing counts as going broke.
    pub fn update_money_stats(&mut self, current_money: u32)
        ensures
            *final(self) == old(self).with_money(current_money),
    {
        if current_money > self.peak_money {
            self.peak_money = current_money;
        }
        if current_money < self.lowest_money {
            self.lowest_money = current_money;
        }
        if current_money == 0 {
            self.times_went_broke = add_capped(self.times_went_broke, 1);
        }
    }

    /// The share of trades that made a profit, in hundredths, rounded
    /// down; nothing where no trade was made.
    pub fn get_success_rate(&self) -> (r: u32)
        ensures
            r == if self.total_trades == 0 {
                0
            } else {
                capped((self.successful_trades * 100 / (self.total_trades as int)) as nat)
            },
    {
        if self.total_trades == 0 {
            0
        } else {
            let rate: u64 = self.successful_trades as u64 * 100 / self.total_trades as u64;
            assert(rate <= 0xffff_ffff * 100);
            if rate > u32::MAX as u64 {
                u32::MAX
            } else {
                rate as u32
            }
        }
    }

    /// Profit less loss.
    pub fn get_net_profit(&self) -> (r: i64)
        ensures
            r == clamped(self.total_profit - self.total_loss),
    {
        clamp(self.total_profit as i128 - self.total_loss as i128)
    }

    /// Profit less loss by trade, rounded towards zero; nothing where no
    /// trade was made.
    pub fn get_average_profit_per_trade(&self) -> (r: i64)
        ensures
            r == if self.total_trades == 0 {
                0
            } else {
                quotient_towards_zero(
                    clamped(self.total_profit - self.total_loss) as int,
                    self.total_trades as int,
                )
            },
    {
        if self.total_trades == 0 {
            0
        } else {
            self.get_net_profit() / self.total_trades as i64
        }
    }

    /// The metres flown on one unit of fuel, rounded down; nothing where
    /// no fuel was burnt.
    pub fn get_fuel_efficiency(&self) -> (r: u64)
        ensures
            r == if self.total_fuel_consumed == 0 {
                0
            } else {
                self.total_distance_traveled / (self.total_fuel_consumed as u64)
            },
    {
        if self.total_fuel_consumed == 0 {
            0
        } else {
            self.total_distance_traveled / self.total_fuel_consumed as u64
        }
    }
}

} // verus!

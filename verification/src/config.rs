//! The settings of a game played alone. Shares and factors are counted in
//! thousandths, fuel efficiency in metres per unit of fuel.

use vstd::prelude::*;

verus! {

/// The settings of a game.
#[derive(Debug, Clone)]
pub struct GameConfig {
    pub starting_money: u32,
    pub starting_fuel_percentage: u32,
    pub starting_airport: String,
    pub win_condition_money: u32,
    pub max_fuel: u32,
    pub max_cargo_weight: u32,
    pub fuel_efficiency: u32,
    pub price_volatility_multiplier: u32,
    pub fuel_price_multiplier: u32,
}

impl Default for GameConfig {
    fn default() -> (r: Self)
        ensures
            r.is_normal(),
    {
        GameConfig {
            starting_money: 5000,
            starting_fuel_percentage: 660,
            starting_airport: "ORD".to_string(),
            win_condition_money: 100000,
            max_fuel: 150,
            max_cargo_weight: 500,
            fuel_efficiency: 10000,
            price_volatility_multiplier: 1000,
            fuel_price_multiplier: 1000,
        }
    }
}

impl GameConfig {
    /// Whether these are the settings that all levels share, whatever the
    /// money, the fuel and the factors.
    pub open spec fn has_common_settings(self) -> bool {
        &&& self.starting_airport@ == "ORD"@
        &&& self.max_fuel == 150
        &&& self.max_cargo_weight == 500
        &&& self.fuel_efficiency == 10000
    }

    /// Whether these are the settings of the normal level.
    pub open spec fn is_normal(self) -> bool {
        &&& self.has_common_settings()
        &&& self.starting_money == 5000
        &&& self.starting_fuel_percentage == 660
        &&& self.win_condition_money == 100000
        &&& self.price_volatility_multiplier == 1000
        &&& self.fuel_price_multiplier == 1000
    }

    /// Whether these are the settings of the easy level.
    pub open spec fn is_easy(self) -> bool {
        &&& self.has_common_settings()
        &&& self.starting_money == 8000
        &&& self.starting_fuel_percentage == 1000
        &&& self.win_condition_money == 50000
        &&& self.price_volatility_multiplier == 1000
        &&& self.fuel_price_multiplier == 800
    }

    /// Whether these are the settings of the hard level.
    pub open spec fn is_hard(self) -> bool {
        &&& self.has_common_settings()
        &&& self.starting_money == 3000
        &&& self.starting_fuel_percentage == 500
        &&& self.win_condition_money == 150000
        &&& self.price_volatility_multiplier == 1500
        &&& self.fuel_price_multiplier == 1300
    }

    /// The easy level: more money, a full tank, a nearer goal, cheaper
    /// fuel.
    pub fn easy() -> (r: Self)
        ensures
            r.is_easy(),
    {
        let mut config = Self::default();
        config.starting_money = 8000;
        config.starting_fuel_percentage = 1000;
        config.win_condition_money = 50000;
        config.fuel_price_multiplier = 800;
        config
    }

    /// The normal level.
    pub fn normal() -> (r: Self)
        ensures
            r.is_normal(),
    {
        Self::default()
    }

    /// The hard level: less money, half a tank, a farther goal, wilder
    /// prices, dearer fuel.
    pub fn hard() -> (r: Self)
        ensures
            r.is_hard(),
    {
        let mut config = Self::default();
        config.starting_money = 3000;
        config.starting_fuel_percentage = 500;
        config.win_condition_money = 150000;
        config.price_volatility_multiplier = 1500;
        config.fuel_price_multiplier = 1300;
        config
    }
}

} // verus!

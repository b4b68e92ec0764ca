//! The six kinds of cargo of the game.

use vstd::prelude::*;
use crate::models::cargo::CargoType;

verus! {

/// Whether a kind of cargo is what the catalog says of it.
pub open spec fn is_cargo_type(
    cargo: CargoType,
    id: Seq<char>,
    name: Seq<char>,
    base_price: u32,
    weight_per_unit: u32,
    volatility: u32,
) -> bool {
    &&& cargo.id@ == id
    &&& cargo.name@ == name
    &&& cargo.base_price == base_price
    &&& cargo.weight_per_unit == weight_per_unit
    &&& cargo.volatility == volatility
}

/// Whether a catalog holds the kinds of cargo of the game.
pub open spec fn are_default_cargo_types(cargo_types: Seq<CargoType>) -> bool {
    &&& cargo_types.len() == 6
    &&& is_cargo_type(cargo_types[0], "electronics"@, "Electronics"@, 500, 1, 400)
    &&& is_cargo_type(cargo_types[1], "food"@, "Food & Beverages"@, 100, 2, 200)
    &&& is_cargo_type(cargo_types[2], "textiles"@, "Textiles"@, 200, 3, 250)
    &&& is_cargo_type(cargo_types[3], "industrial"@, "Industrial Parts"@, 300, 5, 300)
    &&& is_cargo_type(cargo_types[4], "luxury"@, "Luxury Goods"@, 1000, 1, 500)
    &&& is_cargo_type(cargo_types[5], "materials"@, "Raw Materials"@, 50, 4, 150)
}

/// The kinds of cargo of the game.
pub fn get_default_cargo_types() -> (r: Vec<CargoType>)
    ensures
        are_default_cargo_types(r@),
{
    let mut cargo_types: Vec<CargoType> = Vec::new();
    cargo_types.push(CargoType::new("electronics", "Electronics", 500, 1, 400));
    cargo_types.push(CargoType::new("food", "Food & Beverages", 100, 2, 200));
    cargo_types.push(CargoType::new("textiles", "Textiles", 200, 3, 250));
    cargo_types.push(CargoType::new("industrial", "Industrial Parts", 300, 5, 300));
    cargo_types.push(CargoType::new("luxury", "Luxury Goods", 1000, 1, 500));
    cargo_types.push(CargoType::new("materials", "Raw Materials", 50, 4, 150));
    cargo_types
}

} // verus!

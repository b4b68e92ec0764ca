//! How markets get their prices: each kind of cargo moves round its base
//! price by its volatility and by what the airport makes and uses; fuel
//! moves round the airport's base price. All factors are counted in
//! thousandths.

use vstd::prelude::*;
use crate::chance::{draw, draw_or_low};
use crate::clock::now;
use crate::models::airport::Airport;
use crate::models::amounts::AmountMap;
use crate::models::cargo::CargoType;
use crate::models::market::Market;
use crate::systems::events::{has_name, lists_name};

verus! {

/// The rules by which markets are priced.
pub struct MarketSystem;

/// A price scaled by two factors in thousandths, rounded down, and kept
/// between one and the largest amount. A factor below nothing gives the
/// least price.
pub open spec fn scaled_price(base_price: u32, first: int, second: int) -> u32 {
    if first <= 0 || second <= 0 {
        1
    } else {
        let scaled = base_price * first * second / 1_000_000;
        if scaled < 1 {
            1
        } else if scaled > u32::MAX {
            u32::MAX
        } else {
            scaled as u32
        }
    }
}

/// Scales a price by two factors in thousandths.
pub fn scale_price(base_price: u32, first: i64, second: i64) -> (r: u32)
    ensures
        r == scaled_price(base_price, first as int, second as int),
        r >= 1,
{
    if first <= 0 || second <= 0 {
        return 1;
    }
    let a: u128 = base_price as u128;
    let b: u128 = first as u128;
    let c: u128 = second as u128;
    assert(a * b <= 0xffff_ffff * 0x7fff_ffff_ffff_ffff) by (nonlinear_arith)
        requires
            a <= 0xffff_ffff,
            b <= 0x7fff_ffff_ffff_ffff,
    ;
    let ab: u128 = a * b;
    assert(a * b * c == base_price * first * second) by (nonlinear_arith)
        requires
            a == base_price,
            b == first,
            c == second,
    ;
    if ab >= 0x1_0000_0000 * 1_000_000 {
        assert(ab * c / 1_000_000 >= 0x1_0000_0000) by (nonlinear_arith)
            requires
                ab >= 0x1_0000_0000 * 1_000_000,
                c >= 1,
        ;
        return u32::MAX;
    }
    assert(ab * c <= 0x1_0000_0000 * 1_000_000 * 0x7fff_ffff_ffff_ffff) by (nonlinear_arith)
        requires
            ab <= 0x1_0000_0000 * 1_000_000,
            c <= 0x7fff_ffff_ffff_ffff,
    ;
    let scaled: u128 = ab * c / 1_000_000;
    if scaled < 1 {
        1
    } else if scaled > u32::MAX as u128 {
        u32::MAX
    } else {
        scaled as u32
    }
}

/// The range from which the factor of an airport's profile is drawn for a
/// kind of cargo: low where the airport makes it, high where it uses it.
pub open spec fn profile_range(airport: Airport, cargo_id: Seq<char>) -> (int, int) {
    if lists_name(airport.market_profile.produces@, cargo_id) {
        (700, 900)
    } else if lists_name(airport.market_profile.consumes@, cargo_id) {
        (1100, 1400)
    } else {
        (900, 1100)
    }
}

/// Whether a price is one that a kind of cargo can have at an airport.
pub open spec fn is_market_price(price: u32, airport: Airport, cargo: CargoType) -> bool {
    exists|swing: int, profile: int|
        {
            &&& -(cargo.volatility as int) <= swing <= cargo.volatility
            &&& profile_range(airport, cargo.id@).0 <= profile < profile_range(
                airport,
                cargo.id@,
            ).1
            &&& price == #[trigger] scaled_price(cargo.base_price, 1000 + swing, profile)
        }
}

/// Whether a price is one that fuel can have at an airport.
pub open spec fn is_fuel_price(price: u32, airport: Airport) -> bool {
    exists|swing: int|
        850 <= swing < 1150 && price == #[trigger] scaled_price(
            airport.base_fuel_price,
            airport.market_profile.fuel_modifier as int,
            swing,
        )
}

/// Whether a table prices the kinds of a catalog, and no others, each as
/// one of them can be priced at an airport.
pub open spec fn are_market_prices(
    prices: Map<Seq<char>, u32>,
    airport: Airport,
    cargo_types: Seq<CargoType>,
) -> bool {
    &&& forall|i: int|
        0 <= i < cargo_types.len() ==> prices.contains_key(#[trigger] cargo_types[i].id@)
    &&& forall|id: Seq<char>| #[trigger]
        prices.contains_key(id) ==> exists|i: int|
            0 <= i < cargo_types.len() && cargo_types[i].id@ == id && is_market_price(
                prices[id],
                airport,
                #[trigger] cargo_types[i],
            )
}

/// Whether a catalog lists a kind of cargo.
pub open spec fn lists_kind(cargo_types: Seq<CargoType>, id: Seq<char>) -> bool {
    exists|i: int| 0 <= i < cargo_types.len() && cargo_types[i].id@ == id
}

/// Whether a table of prices is what becomes of another when the kinds of
/// a catalog are priced anew at an airport: each kind of the catalog has a
/// price that it can have there, and every other price is as it was.
pub open spec fn are_updated_prices(
    before: Map<Seq<char>, u32>,
    after: Map<Seq<char>, u32>,
    airport: Airport,
    cargo_types: Seq<CargoType>,
) -> bool {
    &&& forall|i: int|
        0 <= i < cargo_types.len() ==> after.contains_key(#[trigger] cargo_types[i].id@)
    &&& forall|id: Seq<char>| #[trigger]
        after.contains_key(id) || before.contains_key(id) ==> if lists_kind(cargo_types, id) {
            after.contains_key(id) && exists|i: int|
                0 <= i < cargo_types.len() && cargo_types[i].id@ == id && is_market_price(
                    after[id],
                    airport,
                    #[trigger] cargo_types[i],
                )
        } else {
            after.contains_key(id) == before.contains_key(id) && after[id] == before[id]
        }
}

impl MarketSystem {
    /// The range from which the factor of an airport's profile is drawn
    /// for a kind of cargo.
    pub fn profile_bounds(airport: &Airport, cargo_id: &str) -> (r: (i64, i64))
        ensures
            r.0 == profile_range(*airport, cargo_id@).0,
            r.1 == profile_range(*airport, cargo_id@).1,
            0 < r.0 < r.1,
    {
        if has_name(&airport.market_profile.produces, cargo_id) {
            (700, 900)
        } else if has_name(&airport.market_profile.consumes, cargo_id) {
            (1100, 1400)
        } else {
            (900, 1100)
        }
    }

    /// Prices one kind of cargo at an airport.
    pub fn generate_cargo_price(airport: &Airport, cargo_type: &CargoType) -> (r: u32)
        ensures
            is_market_price(r, *airport, *cargo_type),
            r >= 1,
    {
        let volatility = cargo_type.volatility as i64;
        let swing = draw_or_low(-volatility, volatility);
        let bounds = Self::profile_bounds(airport, cargo_type.id.as_str());
        let profile = draw(bounds.0, bounds.1);
        let price = scale_price(cargo_type.base_price, 1000 + swing, profile);
        proof {
            assert(price == scaled_price(cargo_type.base_price, 1000 + swing, profile as int));
        }
        price
    }

    /// Prices every kind of cargo of a catalog at an airport.
    pub fn generate_market_prices(airport: &Airport, cargo_types: &Vec<CargoType>) -> (r: AmountMap)
        ensures
            are_market_prices(r@, *airport, cargo_types@),
    {
        let mut prices = AmountMap::new();
        let mut i: usize = 0;
        while i < cargo_types.len()
            invariant
                i <= cargo_types.len(),
                are_market_prices(prices@, *airport, cargo_types@.subrange(0, i as int)),
            decreases cargo_types.len() - i,
        {
            let ghost before = prices@;
            let ghost seen = cargo_types@.subrange(0, i as int);
            let price = Self::generate_cargo_price(airport, &cargo_types[i]);
            prices.insert(cargo_types[i].id.as_str(), price);
            proof {
                let more = cargo_types@.subrange(0, i + 1);
                assert forall|j: int| 0 <= j < more.len() implies prices@.contains_key(
                    #[trigger] more[j].id@,
                ) by {
                    if j < i {
                        assert(seen[j] == more[j]);
                    }
                }
                assert forall|id: Seq<char>| #[trigger] prices@.contains_key(id) implies exists|
                    j: int,
                |
                    0 <= j < more.len() && more[j].id@ == id && is_market_price(
                        prices@[id],
                        *airport,
                        #[trigger] more[j],
                    ) by {
                    if id == cargo_types[i as int].id@ {
                        assert(more[i as int] == cargo_types[i as int]);
                    } else {
                        assert(before.contains_key(id));
                        let j = choose|j: int|
                            0 <= j < seen.len() && seen[j].id@ == id && is_market_price(
                                before[id],
                                *airport,
                                #[trigger] seen[j],
                            );
                        assert(more[j] == seen[j]);
                    }
                }
            }
            i += 1;
        }
        proof {
            assert(cargo_types@.subrange(0, i as int) =~= cargo_types@);
        }
        prices
    }

    /// Prices fuel at an airport.
    pub fn generate_fuel_price(airport: &Airport) -> (r: u32)
        ensures
            is_fuel_price(r, *airport),
            r >= 1,
    {
        let swing = draw(850, 1150);
        let price = scale_price(
            airport.base_fuel_price,
            airport.market_profile.fuel_modifier as i64,
            swing,
        );
        proof {
            assert(price == scaled_price(
                airport.base_fuel_price,
                airport.market_profile.fuel_modifier as int,
                swing as int,
            ));
        }
        price
    }

    /// Prices a market anew: every kind of cargo of the catalog, and fuel.
    /// Prices of kinds that the catalog does not list stay.
    pub fn update_market_prices(market: &mut Market, airport: &Airport, cargo_types: &Vec<CargoType>)
        ensures
            final(market).airport_id == old(market).airport_id,
            is_fuel_price(final(market).fuel_price, *airport),
            are_updated_prices(
                old(market).cargo_prices@,
                final(market).cargo_prices@,
                *airport,
                cargo_types@,
            ),
    {
        let mut i: usize = 0;
        while i < cargo_types.len()
            invariant
                i <= cargo_types.len(),
                market.airport_id == old(market).airport_id,
                are_updated_prices(
                    old(market).cargo_prices@,
                    market.cargo_prices@,
                    *airport,
                    cargo_types@.subrange(0, i as int),
                ),
            decreases cargo_types.len() - i,
        {
            let ghost before = market.cargo_prices@;
            let ghost seen = cargo_types@.subrange(0, i as int);
            let price = Self::generate_cargo_price(airport, &cargo_types[i]);
            market.set_cargo_price(cargo_types[i].id.as_str(), price);
            proof {
                let more = cargo_types@.subrange(0, i + 1);
                let started = old(market).cargo_prices@;
                let after = market.cargo_prices@;
                assert forall|id: Seq<char>| #[trigger]
                    after.contains_key(id) || started.contains_key(id) implies if lists_kind(
                    more,
                    id,
                ) {
                    after.contains_key(id) && exists|j: int|
                        0 <= j < more.len() && more[j].id@ == id && is_market_price(
                            after[id],
                            *airport,
                            #[trigger] more[j],
                        )
                } else {
                    after.contains_key(id) == started.contains_key(id) && after[id] == started[id]
                } by {
                    if id == cargo_types[i as int].id@ {
                        assert(more[i as int].id@ == id);
                        assert(more[i as int] == cargo_types[i as int]);
                    } else {
                        if lists_kind(more, id) {
                            let k = choose|k: int| 0 <= k < more.len() && more[k].id@ == id;
                            assert(seen[k].id@ == id);
                            assert(lists_kind(seen, id));
                            assert(before.contains_key(id) || started.contains_key(id));
                            let j = choose|j: int|
                                0 <= j < seen.len() && seen[j].id@ == id && is_market_price(
                                    before[id],
                                    *airport,
                                    #[trigger] seen[j],
                                );
                            assert(more[j] == seen[j]);
                        } else {
                            if lists_kind(seen, id) {
                                let k = choose|k: int| 0 <= k < seen.len() && seen[k].id@ == id;
                                assert(more[k].id@ == id);
                            }
                            assert(before.contains_key(id) || started.contains_key(id));
                        }
                    }
                }
                assert forall|j: int| 0 <= j < more.len() implies after.contains_key(
                    #[trigger] more[j].id@,
                ) by {
                    if j < i {
                        assert(seen[j] == more[j]);
                    }
                }
            }
            i += 1;
        }
        proof {
            assert(cargo_types@.subrange(0, i as int) =~= cargo_types@);
        }
        let fuel_price = Self::generate_fuel_price(airport);
        market.update_fuel_price(fuel_price);
    }

    /// Opens a market at each airport of a catalog, priced for the kinds
    /// of cargo of a catalog.
    pub fn initialize_all_markets(airports: &Vec<Airport>, cargo_types: &Vec<CargoType>) -> (r: Vec<
        Market,
    >)
        ensures
            r@.len() == airports@.len(),
            forall|i: int|
                0 <= i < r@.len() ==> (#[trigger] r[i]).airport_id@ == airports[i].id@
                    && is_fuel_price(r[i].fuel_price, airports[i]) && are_market_prices(
                    r[i].cargo_prices@,
                    airports[i],
                    cargo_types@,
                ),
    {
        let mut markets: Vec<Market> = Vec::new();
        let mut i: usize = 0;
        while i < airports.len()
            invariant
                i <= airports.len(),
                markets.len() == i,
                forall|j: int|
                    0 <= j < i ==> (#[trigger] markets[j]).airport_id@ == airports[j].id@
                        && is_fuel_price(markets[j].fuel_price, airports[j]) && are_market_prices(
                        markets[j].cargo_prices@,
                        airports[j],
                        cargo_types@,
                    ),
            decreases airports.len() - i,
        {
            let fuel_price = Self::generate_fuel_price(&airports[i]);
            let cargo_prices = Self::generate_market_prices(&airports[i], cargo_types);
            markets.push(
                Market {
                    airport_id: airports[i].id.clone(),
                    fuel_price,
                    cargo_prices,
                    last_updated: now(),
                },
            );
            i += 1;
        }
        markets
    }
}

} // verus!

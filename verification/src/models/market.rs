//! The market of one airport: the price of fuel and of each kind of cargo.

use vstd::prelude::*;
use crate::clock::now;
use crate::models::amounts::AmountMap;
use crate::search::{first_where, lemma_first_where_at, lemma_first_where_none};

verus! {

/// The prices at one airport, with the time they were last changed.
#[derive(Debug)]
pub struct Market {
    pub airport_id: String,
    pub fuel_price: u32,
    pub cargo_prices: AmountMap,
    pub last_updated: i64,
}

impl Clone for Market {
    fn clone(&self) -> (r: Self)
        ensures
            r.airport_id == self.airport_id,
            r.fuel_price == self.fuel_price,
            r.cargo_prices@ == self.cargo_prices@,
            r.last_updated == self.last_updated,
    {
        Market {
            airport_id: self.airport_id.clone(),
            fuel_price: self.fuel_price,
            cargo_prices: self.cargo_prices.clone(),
            last_updated: self.last_updated,
        }
    }
}

impl Market {
    /// A market with a fuel price and no cargo prices yet, stamped with the
    /// current time.
    pub fn new(airport_id: &str, fuel_price: u32) -> (r: Self)
        ensures
            r.airport_id@ == airport_id@,
            r.fuel_price == fuel_price,
            r.cargo_prices@ == Map::<Seq<char>, u32>::empty(),
    {
        Market {
            airport_id: airport_id.to_string(),
            fuel_price,
            cargo_prices: AmountMap::new(),
            last_updated: now(),
        }
    }

    /// Sets the price of a kind of cargo and stamps the market with the
    /// current time.
    pub fn set_cargo_price(&mut self, cargo_id: &str, price: u32)
        ensures
            final(self).cargo_prices@ == old(self).cargo_prices@.insert(cargo_id@, price),
            final(self).airport_id == old(self).airport_id,
            final(self).fuel_price == old(self).fuel_price,
    {
        self.cargo_prices.insert(cargo_id, price);
        self.last_updated = now();
    }

    /// The price of a kind of cargo, if the market trades it.
    pub fn get_cargo_price(&self, cargo_id: &str) -> (r: Option<u32>)
        ensures
            r == price_in(self.cargo_prices@, cargo_id@),
    {
        match self.cargo_prices.get(cargo_id) {
            Some(p) => Some(*p),
            None => None,
        }
    }

    /// Sets the price of fuel and stamps the market with the current time.
    pub fn update_fuel_price(&mut self, new_price: u32)
        ensures
            final(self).fuel_price == new_price,
            final(self).airport_id == old(self).airport_id,
            final(self).cargo_prices == old(self).cargo_prices,
    {
        self.fuel_price = new_price;
        self.last_updated = now();
    }

    /// All cargo prices, as a table from kinds to prices.
    pub fn get_all_cargo_prices(&self) -> (r: &AmountMap)
        ensures
            *r == self.cargo_prices,
    {
        &self.cargo_prices
    }
}

/// The price that a table holds for a kind of cargo.
pub open spec fn price_in(prices: Map<Seq<char>, u32>, cargo_id: Seq<char>) -> Option<u32> {
    if prices.contains_key(cargo_id) {
        Some(prices[cargo_id])
    } else {
        None
    }
}

/// The position of the first market of a list that belongs to an airport,
/// or -1.
pub open spec fn market_index(markets: Seq<Market>, airport_id: Seq<char>) -> int {
    first_where(markets, |m: Market| m.airport_id@ == airport_id)
}

/// Finds the market of an airport in a list of markets.
pub fn find_market<'a>(markets: &'a Vec<Market>, airport_id: &str) -> (r: Option<&'a Market>)
    ensures
        match r {
            Some(m) => market_index(markets@, airport_id@) >= 0 && *m == markets[market_index(
                markets@,
                airport_id@,
            )],
            None => market_index(markets@, airport_id@) < 0,
        },
{
    let wanted = airport_id.to_owned();
    let mut i: usize = 0;
    while i < markets.len()
        invariant
            i <= markets.len(),
            wanted@ == airport_id@,
            forall|j: int| 0 <= j < i ==> markets[j].airport_id@ != airport_id@,
        decreases markets.len() - i,
    {
        if markets[i].airport_id == wanted {
            proof {
                lemma_first_where_at(markets@, |m: Market| m.airport_id@ == airport_id@, i as int);
            }
            return Some(&markets[i]);
        }
        i += 1;
    }
    proof {
        lemma_first_where_none(markets@, |m: Market| m.airport_id@ == airport_id@);
    }
    None
}

} // verus!

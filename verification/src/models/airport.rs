//! Airports, and the distances between them.

use vstd::prelude::*;
use crate::search::{first_where, lemma_first_where_at, lemma_first_where_none};

verus! {

/// What an airport's market makes cheap and dear. The fuel modifier is
/// counted in thousandths: 1000 leaves the base price of fuel as it is.
#[derive(Debug)]
pub struct MarketProfile {
    pub produces: Vec<String>,
    pub consumes: Vec<String>,
    pub fuel_modifier: u32,
}

/// An airport. Its coordinates are latitude and longitude in millionths of
/// a degree.
#[derive(Debug)]
pub struct Airport {
    pub id: String,
    pub name: String,
    pub coordinates: (i32, i32),
    pub base_fuel_price: u32,
    pub market_profile: MarketProfile,
}

/// Everything an airport is made from.
#[derive(Debug)]
pub struct AirportConfig {
    pub id: String,
    pub name: String,
    pub coordinates: (i32, i32),
    pub base_fuel_price: u32,
    pub produces: Vec<String>,
    pub consumes: Vec<String>,
    pub fuel_modifier: u32,
}

/// A copy of a list of names.
pub fn clone_names(names: &Vec<String>) -> (r: Vec<String>)
    ensures
        r@ == names@,
{
    let mut copy: Vec<String> = Vec::new();
    let mut i: usize = 0;
    while i < names.len()
        invariant
            i <= names.len(),
            copy@ == names@.subrange(0, i as int),
        decreases names.len() - i,
    {
        copy.push(names[i].clone());
        proof {
            assert(copy@ =~= names@.subrange(0, i + 1));
        }
        i += 1;
    }
    proof {
        assert(names@.subrange(0, i as int) =~= names@);
    }
    copy
}

impl Clone for MarketProfile {
    fn clone(&self) -> (r: Self)
        ensures
            r.produces@ == self.produces@,
            r.consumes@ == self.consumes@,
            r.fuel_modifier == self.fuel_modifier,
    {
        MarketProfile {
            produces: clone_names(&self.produces),
            consumes: clone_names(&self.consumes),
            fuel_modifier: self.fuel_modifier,
        }
    }
}

impl Clone for Airport {
    fn clone(&self) -> (r: Self)
        ensures
            r.same_as(*self),
    {
        Airport {
            id: self.id.clone(),
            name: self.name.clone(),
            coordinates: self.coordinates,
            base_fuel_price: self.base_fuel_price,
            market_profile: self.market_profile.clone(),
        }
    }
}

impl Airport {
    /// Whether two airports agree in every respect.
    pub open spec fn same_as(self, other: Airport) -> bool {
        &&& self.id@ == other.id@
        &&& self.name@ == other.name@
        &&& self.coordinates == other.coordinates
        &&& self.base_fuel_price == other.base_fuel_price
        &&& self.market_profile.produces@ == other.market_profile.produces@
        &&& self.market_profile.consumes@ == other.market_profile.consumes@
        &&& self.market_profile.fuel_modifier == other.market_profile.fuel_modifier
    }

    pub fn new(
        id: &str,
        name: &str,
        coordinates: (i32, i32),
        base_fuel_price: u32,
        produces: Vec<String>,
        consumes: Vec<String>,
        fuel_modifier: u32,
    ) -> (r: Self)
        ensures
            r.id@ == id@,
            r.name@ == name@,
            r.coordinates == coordinates,
            r.base_fuel_price == base_fuel_price,
            r.market_profile.produces == produces,
            r.market_profile.consumes == consumes,
            r.market_profile.fuel_modifier == fuel_modifier,
    {
        let config = AirportConfig {
            id: id.to_string(),
            name: name.to_string(),
            coordinates,
            base_fuel_price,
            produces,
            consumes,
            fuel_modifier,
        };
        Self::from_config(config)
    }

    pub fn from_config(config: AirportConfig) -> (r: Self)
        ensures
            r.id == config.id,
            r.name == config.name,
            r.coordinates == config.coordinates,
            r.base_fuel_price == config.base_fuel_price,
            r.market_profile.produces == config.produces,
            r.market_profile.consumes == config.consumes,
            r.market_profile.fuel_modifier == config.fuel_modifier,
    {
        Airport {
            id: config.id,
            name: config.name,
            coordinates: config.coordinates,
            base_fuel_price: config.base_fuel_price,
            market_profile: MarketProfile {
                produces: config.produces,
                consumes: config.consumes,
                fuel_modifier: config.fuel_modifier,
            },
        }
    }
}

/// The position of the first airport of a catalog with a given id, or -1.
pub open spec fn airport_index(catalog: Seq<Airport>, id: Seq<char>) -> int {
    first_where(catalog, |a: Airport| a.id@ == id)
}

/// Finds an airport in a catalog by its id.
pub fn find_airport<'a>(catalog: &'a Vec<Airport>, id: &str) -> (r: Option<&'a Airport>)
    ensures
        match r {
            Some(a) => airport_index(catalog@, id@) >= 0 && *a == catalog[airport_index(
                catalog@,
                id@,
            )],
            None => airport_index(catalog@, id@) < 0,
        },
{
    let wanted = id.to_owned();
    let mut i: usize = 0;
    while i < catalog.len()
        invariant
            i <= catalog.len(),
            wanted@ == id@,
            forall|j: int| 0 <= j < i ==> catalog[j].id@ != id@,
        decreases catalog.len() - i,
    {
        if catalog[i].id == wanted {
            proof {
                lemma_first_where_at(catalog@, |a: Airport| a.id@ == id@, i as int);
            }
            return Some(&catalog[i]);
        }
        i += 1;
    }
    proof {
        lemma_first_where_none(catalog@, |a: Airport| a.id@ == id@);
    }
    None
}

/// The distance between two airports, in metres. A route leads both ways.
#[derive(Debug)]
pub struct Route {
    pub from: String,
    pub to: String,
    pub distance: u64,
}

impl Clone for Route {
    fn clone(&self) -> (r: Self)
        ensures
            r == *self,
    {
        Route { from: self.from.clone(), to: self.to.clone(), distance: self.distance }
    }
}

impl Route {
    pub fn new(from: &str, to: &str, distance: u64) -> (r: Self)
        ensures
            r.from@ == from@,
            r.to@ == to@,
            r.distance == distance,
    {
        Route { from: from.to_string(), to: to.to_string(), distance }
    }

    /// Whether the route joins two airports, in either direction.
    pub open spec fn joins(self, a: Seq<char>, b: Seq<char>) -> bool {
        (self.from@ == a && self.to@ == b) || (self.from@ == b && self.to@ == a)
    }
}

/// The position of the first route of a table that joins two airports, or
/// -1.
pub open spec fn route_index(routes: Seq<Route>, a: Seq<char>, b: Seq<char>) -> int {
    first_where(routes, |r: Route| r.joins(a, b))
}

/// The distance between two airports by a table of routes: nothing from an
/// airport to itself, else what the first route that joins them says, if
/// there is one.
pub open spec fn distance_between(routes: Seq<Route>, a: Seq<char>, b: Seq<char>) -> Option<u64> {
    if a == b {
        Some(0u64)
    } else if route_index(routes, a, b) >= 0 {
        Some(routes[route_index(routes, a, b)].distance)
    } else {
        None
    }
}

/// Looks up the distance between two airports in a table of routes.
pub fn find_distance(routes: &Vec<Route>, from: &str, to: &str) -> (r: Option<u64>)
    ensures
        r == distance_between(routes@, from@, to@),
{
    let a = from.to_owned();
    let b = to.to_owned();
    if a == b {
        return Some(0);
    }
    let mut i: usize = 0;
    while i < routes.len()
        invariant
            i <= routes.len(),
            a@ == from@,
            b@ == to@,
            from@ != to@,
            forall|j: int| 0 <= j < i ==> !routes[j].joins(from@, to@),
        decreases routes.len() - i,
    {
        let route = &routes[i];
        if (route.from == a && route.to == b) || (route.from == b && route.to == a) {
            proof {
                lemma_first_where_at(routes@, |r: Route| r.joins(from@, to@), i as int);
            }
            return Some(route.distance);
        }
        i += 1;
    }
    proof {
        lemma_first_where_none(routes@, |r: Route| r.joins(from@, to@));
    }
    None
}

} // verus!

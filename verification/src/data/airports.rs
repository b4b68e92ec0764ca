//! The six airports of the game and the distances between them.

use vstd::prelude::*;
use crate::models::airport::{Airport, Route};

verus! {

/// Whether an airport is what the catalog says of it.
pub open spec fn is_airport(
    airport: Airport,
    id: Seq<char>,
    name: Seq<char>,
    coordinates: (int, int),
    base_fuel_price: u32,
    produces: (Seq<char>, Seq<char>),
    consumes: (Seq<char>, Seq<char>),
    fuel_modifier: u32,
) -> bool {
    &&& airport.id@ == id
    &&& airport.name@ == name
    &&& airport.coordinates.0 == coordinates.0
    &&& airport.coordinates.1 == coordinates.1
    &&& airport.base_fuel_price == base_fuel_price
    &&& airport.market_profile.produces@.len() == 2
    &&& airport.market_profile.produces[0]@ == produces.0
    &&& airport.market_profile.produces[1]@ == produces.1
    &&& airport.market_profile.consumes@.len() == 2
    &&& airport.market_profile.consumes[0]@ == consumes.0
    &&& airport.market_profile.consumes[1]@ == consumes.1
    &&& airport.market_profile.fuel_modifier == fuel_modifier
}

/// Whether a route is what the table says of it.
pub open spec fn is_route(route: Route, from: Seq<char>, to: Seq<char>, distance: u64) -> bool {
    route.from@ == from && route.to@ == to && route.distance == distance
}

fn pair(first: &str, second: &str) -> (r: Vec<String>)
    ensures
        r@.len() == 2,
        r[0]@ == first@,
        r[1]@ == second@,
{
    let mut names: Vec<String> = Vec::new();
    names.push(first.to_string());
    names.push(second.to_string());
    names
}

/// Whether a catalog holds the airports of the game.
pub open spec fn are_default_airports(airports: Seq<Airport>) -> bool {
    &&& airports.len() == 6
    &&& is_airport(
        airports[0],
        "JFK"@,
        "New York JFK"@,
        (40_641_300, -73_778_100),
        80,
        ("electronics"@, "luxury"@),
        ("food"@, "materials"@),
        1200,
    )
    &&& is_airport(
        airports[1],
        "LAX"@,
        "Los Angeles LAX"@,
        (33_942_500, -118_408_100),
        75,
        ("electronics"@, "textiles"@),
        ("industrial"@, "materials"@),
        1100,
    )
    &&& is_airport(
        airports[2],
        "MIA"@,
        "Miami MIA"@,
        (25_795_900, -80_287_000),
        70,
        ("food"@, "luxury"@),
        ("electronics"@, "textiles"@),
        900,
    )
    &&& is_airport(
        airports[3],
        "ORD"@,
        "Chicago O'Hare"@,
        (41_974_200, -87_907_300),
        65,
        ("industrial"@, "food"@),
        ("luxury"@, "electronics"@),
        1000,
    )
    &&& is_airport(
        airports[4],
        "DEN"@,
        "Denver DEN"@,
        (39_856_100, -104_673_700),
        60,
        ("materials"@, "industrial"@),
        ("luxury"@, "food"@),
        800,
    )
    &&& is_airport(
        airports[5],
        "SEA"@,
        "Seattle SEA"@,
        (47_450_200, -122_308_800),
        85,
        ("electronics"@, "food"@),
        ("textiles"@, "materials"@),
        1300,
    )
}

/// The airports of the game.
pub fn get_default_airports() -> (r: Vec<Airport>)
    ensures
        are_default_airports(r@),
{
    let mut airports: Vec<Airport> = Vec::new();
    airports.push(
        Airport::new(
            "JFK",
            "New York JFK",
            (40_641_300, -73_778_100),
            80,
            pair("electronics", "luxury"),
            pair("food", "materials"),
            1200,
        ),
    );
    airports.push(
        Airport::new(
            "LAX",
            "Los Angeles LAX",
            (33_942_500, -118_408_100),
            75,
            pair("electronics", "textiles"),
            pair("industrial", "materials"),
            1100,
        ),
    );
    airports.push(
        Airport::new(
            "MIA",
            "Miami MIA",
            (25_795_900, -80_287_000),
            70,
            pair("food", "luxury"),
            pair("electronics", "textiles"),
            900,
        ),
    );
    airports.push(
        Airport::new(
            "ORD",
            "Chicago O'Hare",
            (41_974_200, -87_907_300),
            65,
            pair("industrial", "food"),
            pair("luxury", "electronics"),
            1000,
        ),
    );
    airports.push(
        Airport::new(
            "DEN",
            "Denver DEN",
            (39_856_100, -104_673_700),
            60,
            pair("materials", "industrial"),
            pair("luxury", "food"),
            800,
        ),
    );
    airports.push(
        Airport::new(
            "SEA",
            "Seattle SEA",
            (47_450_200, -122_308_800),
            85,
            pair("electronics", "food"),
            pair("textiles", "materials"),
            1300,
        ),
    );
    airports
}

/// Whether a table holds the great-circle distances between the airports of
/// the game, in metres, each rounded up to a full metre.
pub open spec fn are_default_distances(routes: Seq<Route>) -> bool {
    &&& routes.len() == 15
    &&& is_route(routes[0], "JFK"@, "LAX"@, 3_974_262)
    &&& is_route(routes[1], "JFK"@, "MIA"@, 1_756_903)
    &&& is_route(routes[2], "JFK"@, "ORD"@, 1_188_053)
    &&& is_route(routes[3], "JFK"@, "DEN"@, 2_610_013)
    &&& is_route(routes[4], "JFK"@, "SEA"@, 3_886_589)
    &&& is_route(routes[5], "LAX"@, "MIA"@, 3_762_852)
    &&& is_route(routes[6], "LAX"@, "ORD"@, 2_801_848)
    &&& is_route(routes[7], "LAX"@, "DEN"@, 1_384_839)
    &&& is_route(routes[8], "LAX"@, "SEA"@, 1_537_035)
    &&& is_route(routes[9], "MIA"@, "ORD"@, 1_929_511)
    &&& is_route(routes[10], "MIA"@, "DEN"@, 2_748_538)
    &&& is_route(routes[11], "MIA"@, "SEA"@, 4_379_537)
    &&& is_route(routes[12], "ORD"@, "DEN"@, 1_426_001)
    &&& is_route(routes[13], "ORD"@, "SEA"@, 2_761_752)
    &&& is_route(routes[14], "DEN"@, "SEA"@, 1_645_431)
}

/// The distances between the airports of the game.
pub fn get_default_distances() -> (r: Vec<Route>)
    ensures
        are_default_distances(r@),
{
    let mut routes: Vec<Route> = Vec::new();
    routes.push(Route::new("JFK", "LAX", 3_974_262));
    routes.push(Route::new("JFK", "MIA", 1_756_903));
    routes.push(Route::new("JFK", "ORD", 1_188_053));
    routes.push(Route::new("JFK", "DEN", 2_610_013));
    routes.push(Route::new("JFK", "SEA", 3_886_589));
    routes.push(Route::new("LAX", "MIA", 3_762_852));
    routes.push(Route::new("LAX", "ORD", 2_801_848));
    routes.push(Route::new("LAX", "DEN", 1_384_839));
    routes.push(Route::new("LAX", "SEA", 1_537_035));
    routes.push(Route::new("MIA", "ORD", 1_929_511));
    routes.push(Route::new("MIA", "DEN", 2_748_538));
    routes.push(Route::new("MIA", "SEA", 4_379_537));
    routes.push(Route::new("ORD", "DEN", 1_426_001));
    routes.push(Route::new("ORD", "SEA", 2_761_752));
    routes.push(Route::new("DEN", "SEA", 1_645_431));
    routes
}

} // verus!

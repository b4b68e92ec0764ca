//! A player's running totals, and the events that move market prices.

use vstd::prelude::*;
use crate::chance::{draw, draw_index};
use crate::models::airport::{airport_index, clone_names, find_airport, Airport};
use crate::models::cargo::{add_capped, capped_sum, cargo_type_index, find_cargo_type, CargoType};
use crate::models::market::Market;
use crate::search::{keep_where, lemma_keep_where_step, lemma_pairwise_push, pairwise};
use crate::systems::market::{scale_price, scaled_price};
use crate::text::{
    before_char, join3, join4, join5, text_before, underscores_to_spaces, with_spaces,
};

verus! {

/// What a player has earned, spent and flown so far. The totals are for
/// display; each stops at the largest amount it can hold. Distances are in
/// metres.
#[derive(Debug)]
pub struct GameStatistics {
    pub total_revenue: u32,
    pub total_expenses: u32,
    pub net_profit: u32,
    pub cargo_trades: u32,
    pub fuel_purchased: u32,
    pub distances_traveled: u64,
    pub airports_visited: Vec<String>,
    pub best_single_trade: u32,
    pub most_profitable_cargo: String,
    pub efficiency_score: u32,
}

/// Revenue less expenses, and nothing where more was spent than earned.
pub open spec fn profit(revenue: u32, expenses: u32) -> u32 {
    if revenue >= expenses {
        (revenue - expenses) as u32
    } else {
        0
    }
}

/// The sum of two distances, kept at the largest distance where it would
/// pass it.
pub open spec fn capped_distance(a: u64, b: u64) -> u64 {
    if a + b > u64::MAX {
        u64::MAX
    } else {
        (a + b) as u64
    }
}

/// Whether a list of names holds a given name.
pub open spec fn lists_name(names: Seq<String>, name: Seq<char>) -> bool {
    exists|i: int| 0 <= i < names.len() && names[i]@ == name
}

/// How the list of airports visited changes when an airport is reached: a
/// name that is on the list leaves it as it is, a new name joins its end.
pub open spec fn visited_after(before: Seq<String>, after: Seq<String>, airport: Seq<char>) -> bool {
    if lists_name(before, airport) {
        after == before
    } else {
        after.len() == before.len() + 1 && after.drop_last() == before && after.last()@ == airport
    }
}

/// Whether a list of names holds a given name.
pub fn has_name(names: &Vec<String>, name: &str) -> (r: bool)
    ensures
        r == lists_name(names@, name@),
{
    let wanted = name.to_owned();
    let mut i: usize = 0;
    while i < names.len()
        invariant
            i <= names.len(),
            wanted@ == name@,
            forall|j: int| 0 <= j < i ==> names[j]@ != name@,
        decreases names.len() - i,
    {
        if names[i] == wanted {
            return true;
        }
        i += 1;
    }
    false
}

impl Clone for GameStatistics {
    fn clone(&self) -> (r: Self)
        ensures
            r == (GameStatistics { airports_visited: r.airports_visited, ..*self }),
            r.airports_visited@ == self.airports_visited@,
    {
        GameStatistics {
            total_revenue: self.total_revenue,
            total_expenses: self.total_expenses,
            net_profit: self.net_profit,
            cargo_trades: self.cargo_trades,
            fuel_purchased: self.fuel_purchased,
            distances_traveled: self.distances_traveled,
            airports_visited: clone_names(&self.airports_visited),
            best_single_trade: self.best_single_trade,
            most_profitable_cargo: self.most_profitable_cargo.clone(),
            efficiency_score: self.efficiency_score,
        }
    }
}

impl Default for GameStatistics {
    fn default() -> (r: Self)
        ensures
            r.is_blank(),
    {
        Self::new()
    }
}

impl GameStatistics {
    /// Whether nothing has been recorded yet.
    pub open spec fn is_blank(self) -> bool {
        &&& self.total_revenue == 0
        &&& self.total_expenses == 0
        &&& self.net_profit == 0
        &&& self.cargo_trades == 0
        &&& self.fuel_purchased == 0
        &&& self.distances_traveled == 0
        &&& self.airports_visited@ == Seq::<String>::empty()
        &&& self.best_single_trade == 0
        &&& self.most_profitable_cargo@ == Seq::<char>::empty()
        &&& self.efficiency_score == 0
    }

    /// Statistics with nothing recorded.
    pub fn new() -> (r: Self)
        ensures
            r.is_blank(),
    {
        GameStatistics {
            total_revenue: 0,
            total_expenses: 0,
            net_profit: 0,
            cargo_trades: 0,
            fuel_purchased: 0,
            distances_traveled: 0,
            airports_visited: Vec::new(),
            best_single_trade: 0,
            most_profitable_cargo: String::new(),
            efficiency_score: 0,
        }
    }

    /// The statistics after an expense.
    pub open spec fn with_purchase(self, expense: u32) -> GameStatistics {
        GameStatistics {
            total_expenses: capped_sum(self.total_expenses, expense),
            net_profit: profit(self.total_revenue, capped_sum(self.total_expenses, expense)),
            ..self
        }
    }

    /// The statistics after a purchase of cargo.
    pub open spec fn with_cargo_purchase(self, expense: u32) -> GameStatistics {
        GameStatistics {
            cargo_trades: capped_sum(self.cargo_trades, 1),
            ..self.with_purchase(expense)
        }
    }

    /// The statistics after a purchase of fuel.
    pub open spec fn with_fuel_purchase(self, fuel_amount: u32, cost: u32) -> GameStatistics {
        GameStatistics {
            fuel_purchased: capped_sum(self.fuel_purchased, fuel_amount),
            ..self.with_purchase(cost)
        }
    }

    /// Whether these are the statistics that follow `before` on a sale.
    pub open spec fn is_after_sale(self, before: GameStatistics, cargo_type: Seq<char>, revenue: u32) -> bool {
        &&& self == (GameStatistics {
            total_revenue: capped_sum(before.total_revenue, revenue),
            net_profit: profit(capped_sum(before.total_revenue, revenue), before.total_expenses),
            cargo_trades: capped_sum(before.cargo_trades, 1),
            best_single_trade: if revenue > before.best_single_trade {
                revenue
            } else {
                before.best_single_trade
            },
            most_profitable_cargo: self.most_profitable_cargo,
            ..before
        })
        &&& self.most_profitable_cargo@ == if revenue > before.best_single_trade {
            cargo_type
        } else {
            before.most_profitable_cargo@
        }
    }

    /// Whether these are the statistics that follow `before` on a flight.
    pub open spec fn is_after_travel(self, before: GameStatistics, airport: Seq<char>, distance: u64) -> bool {
        &&& self == (GameStatistics {
            distances_traveled: capped_distance(before.distances_traveled, distance),
            airports_visited: self.airports_visited,
            ..before
        })
        &&& visited_after(before.airports_visited@, self.airports_visited@, airport)
    }

    /// Records a sale: the revenue is added, and a sale that beats the best
    /// so far takes its place.
    pub fn record_sale(&mut self, cargo_type: &str, revenue: u32)
        ensures
            final(self).is_after_sale(*old(self), cargo_type@, revenue),
    {
        self.total_revenue = add_capped(self.total_revenue, revenue);
        self.net_profit = self.total_revenue.saturating_sub(self.total_expenses);
        self.cargo_trades = add_capped(self.cargo_trades, 1);
        if revenue > self.best_single_trade {
            self.best_single_trade = revenue;
            self.most_profitable_cargo = cargo_type.to_string();
        }
    }

    /// Records an expense.
    pub fn record_purchase(&mut self, expense: u32)
        ensures
            *final(self) == old(self).with_purchase(expense),
    {
        self.total_expenses = add_capped(self.total_expenses, expense);
        self.net_profit = self.total_revenue.saturating_sub(self.total_expenses);
    }

    /// Records the purchase of cargo: an expense and a trade.
    pub fn record_cargo_purchase(&mut self, expense: u32)
        ensures
            *final(self) == old(self).with_cargo_purchase(expense),
    {
        self.record_purchase(expense);
        self.cargo_trades = add_capped(self.cargo_trades, 1);
    }

    /// Records the purchase of fuel: the units bought and what they cost.
    pub fn record_fuel_purchase(&mut self, fuel_amount: u32, cost: u32)
        ensures
            *final(self) == old(self).with_fuel_purchase(fuel_amount, cost),
    {
        self.fuel_purchased = add_capped(self.fuel_purchased, fuel_amount);
        self.record_purchase(cost);
    }

    /// Records a flight: the distance is added, and the airport joins the
    /// list of those visited unless it is on it.
    pub fn record_travel(&mut self, airport: &str, distance: u64)
        ensures
            final(self).is_after_travel(*old(self), airport@, distance),
    {
        self.distances_traveled = self.distances_traveled.saturating_add(distance);
        if !has_name(&self.airports_visited, airport) {
            self.airports_visited.push(airport.to_string());
            proof {
                assert(self.airports_visited@.drop_last() =~= old(self).airports_visited@);
            }
        }
    }

    /// Works out the profit made per turn, once a turn has been played.
    pub fn calculate_efficiency(&mut self, turns: u32)
        ensures
            *final(self) == (GameStatistics {
                efficiency_score: if turns > 0 {
                    old(self).net_profit / turns
                } else {
                    old(self).efficiency_score
                },
                ..*old(self)
            }),
    {
        if turns > 0 {
            self.efficiency_score = self.net_profit / turns;
        }
    }
}

/// The kinds of event that move a market.
#[derive(Debug, Clone, Copy, PartialEq, Eq, Structural)]
pub enum MarketEventType {
    /// Sudden demand raises a price.
    PriceSpike,
    /// Oversupply lowers a price.
    PriceCrash,
    /// Short supply raises a price.
    Shortage,
    /// A boom in a region.
    Boom,
    /// A downturn.
    Recession,
    /// News about a kind of cargo.
    NewsEvent,
}

/// An event that moves the price of a kind of cargo at an airport for a
/// number of turns. The multiplier is counted in thousandths.
#[derive(Debug)]
pub struct MarketEvent {
    pub event_type: MarketEventType,
    pub affected_cargo: String,
    pub affected_airport: String,
    pub price_multiplier: u32,
    pub duration_turns: u32,
    pub turns_remaining: u32,
    pub description: String,
}

impl Clone for MarketEvent {
    fn clone(&self) -> (r: Self)
        ensures
            r == *self,
    {
        MarketEvent {
            event_type: self.event_type,
            affected_cargo: self.affected_cargo.clone(),
            affected_airport: self.affected_airport.clone(),
            price_multiplier: self.price_multiplier,
            duration_turns: self.duration_turns,
            turns_remaining: self.turns_remaining,
            description: self.description.clone(),
        }
    }
}

/// The rules by which events come, act and pass.
pub struct EventSystem;

/// The range from which the multiplier of an event is drawn, in
/// thousandths. News is good or bad.
pub open spec fn multiplier_range(event_type: MarketEventType, good_news: bool) -> (int, int) {
    match event_type {
        MarketEventType::PriceSpike => (1500, 2500),
        MarketEventType::PriceCrash => (300, 700),
        MarketEventType::Shortage => (1800, 3000),
        MarketEventType::NewsEvent => if good_news {
            (1300, 2000)
        } else {
            (500, 800)
        },
        _ => (1000, 1001),
    }
}

/// The range from which the number of turns of an event is drawn.
pub open spec fn duration_range(event_type: MarketEventType) -> (int, int) {
    match event_type {
        MarketEventType::PriceSpike => (3, 8),
        MarketEventType::PriceCrash => (4, 10),
        MarketEventType::Shortage => (2, 6),
        MarketEventType::NewsEvent => (5, 12),
        _ => (1, 2),
    }
}

/// What two draws decide: whether an event comes, and of which kind.
pub open spec fn kind_decided(chance: int, kind: int) -> Option<MarketEventType> {
    if chance >= 150 {
        None
    } else if kind == 0 {
        Some(MarketEventType::PriceSpike)
    } else if kind == 1 {
        Some(MarketEventType::PriceCrash)
    } else if kind == 2 {
        Some(MarketEventType::Shortage)
    } else {
        Some(MarketEventType::NewsEvent)
    }
}

/// What is told of a rise in price.
pub open spec fn spike_text(variant: int, airport: Seq<char>, cargo: Seq<char>) -> Seq<char> {
    if variant == 0 {
        "BREAKING: Factory fire at "@ + airport + " creates urgent demand for "@ + cargo + "!"@
    } else if variant == 1 {
        "MARKET ALERT: Supply chain disruption drives up "@ + cargo + " prices at "@ + airport
    } else if variant == 2 {
        "URGENT: Emergency stockpiling of "@ + cargo + " needed at "@ + airport
            + " due to regulations"@
    } else {
        "HOT COMMODITY: Unexpected surge in "@ + cargo + " demand at "@ + airport
            + " - prices soaring!"@
    }
}

/// What is told of a fall in price.
pub open spec fn crash_text(variant: int, airport: Seq<char>, cargo: Seq<char>) -> Seq<char> {
    if variant == 0 {
        "MARKET CRASH: Oversupply of "@ + cargo + " floods "@ + airport
            + " market - prices plummet!"@
    } else if variant == 1 {
        "PRICE ALERT: Major competitor dumps "@ + cargo + " inventory at "@ + airport
            + " - prices collapse"@
    } else if variant == 2 {
        "DEMAND SHOCK: Economic slowdown kills "@ + cargo + " demand at "@ + airport
    } else {
        "BEARISH: Analysts downgrade "@ + cargo + " outlook for "@ + airport + " region"@
    }
}

/// What is told of a shortage.
pub open spec fn shortage_text(variant: int, airport: Seq<char>, cargo: Seq<char>) -> Seq<char> {
    if variant == 0 {
        "SHORTAGE: Critical "@ + cargo + " shortage at "@ + airport
            + " - limited supply available"@
    } else if variant == 1 {
        "SUPPLY CRISIS: "@ + cargo + " production halted - "@ + airport
            + " faces severe shortage"@
    } else if variant == 2 {
        "RESTRICTED: Export controls limit "@ + cargo + " availability at "@ + airport
    } else {
        "SCARCITY: Strike action disrupts "@ + cargo + " supply chain to "@ + airport
    }
}

/// What is told of news about a kind of cargo.
pub open spec fn news_text(variant: int, good_news: bool, cargo: Seq<char>) -> Seq<char> {
    if good_news {
        if variant == 0 {
            "BUSINESS NEWS: New technology breakthrough boosts "@ + cargo + " industry outlook"@
        } else if variant == 1 {
            "INNOVATION: Revolutionary "@ + cargo + " applications drive market optimism"@
        } else if variant == 2 {
            "ANALYST UPGRADE: "@ + cargo + " sector receives strong buy rating from Wall Street"@
        } else {
            "GROWTH STORY: "@ + cargo + " demand expected to surge on global expansion"@
        }
    } else {
        if variant == 0 {
            "MARKET NEWS: Regulatory concerns weigh on "@ + cargo + " sector performance"@
        } else if variant == 1 {
            "INDUSTRY ALERT: Environmental issues impact "@ + cargo + " market sentiment"@
        } else if variant == 2 {
            "ANALYST DOWNGRADE: "@ + cargo + " sector faces headwinds from economic uncertainty"@
        } else {
            "CLOUDY OUTLOOK: Global tensions affect "@ + cargo + " international trade"@
        }
    }
}

/// The name of an airport of a catalog, or the id itself where the catalog
/// does not list it.
pub open spec fn airport_name_or_id(airports: Seq<Airport>, id: Seq<char>) -> Seq<char> {
    let i = airport_index(airports, id);
    if i >= 0 {
        airports[i].name@
    } else {
        id
    }
}

/// The name of a kind of cargo of a catalog, or the id itself where the
/// catalog does not list it.
pub open spec fn cargo_name_or_id(cargo_types: Seq<CargoType>, id: Seq<char>) -> Seq<char> {
    let i = cargo_type_index(cargo_types, id);
    if i >= 0 {
        cargo_types[i].name@
    } else {
        id
    }
}

/// What is told of an event of a kind: one of four tellings. News goes by
/// the id of the cargo with spaces for underscores, all else by the names
/// of cargo and airport.
pub open spec fn event_text(
    event_type: MarketEventType,
    variant: int,
    good_news: bool,
    airports: Seq<Airport>,
    cargo_types: Seq<CargoType>,
    airport_id: Seq<char>,
    cargo_id: Seq<char>,
) -> Seq<char> {
    let airport = airport_name_or_id(airports, airport_id);
    let cargo = cargo_name_or_id(cargo_types, cargo_id);
    match event_type {
        MarketEventType::PriceSpike => spike_text(variant, airport, cargo),
        MarketEventType::PriceCrash => crash_text(variant, airport, cargo),
        MarketEventType::Shortage => shortage_text(variant, airport, cargo),
        _ => news_text(variant, good_news, with_spaces(cargo_id)),
    }
}

/// The prices of a market after an event has acted on them: the price of
/// the event's cargo is scaled by the event's multiplier, where the market
/// has one.
pub open spec fn prices_after_event(prices: Map<Seq<char>, u32>, event: MarketEvent) -> Map<
    Seq<char>,
    u32,
> {
    if prices.contains_key(event.affected_cargo@) {
        prices.insert(
            event.affected_cargo@,
            scaled_price(prices[event.affected_cargo@], event.price_multiplier as int, 1000),
        )
    } else {
        prices
    }
}

/// What is told when an event has passed.
pub open spec fn expiry_text(description: Seq<char>) -> Seq<char> {
    "Market conditions normalize: "@ + before_char(description, ':') + " effects have ended"@
}

/// An event one turn later.
pub open spec fn aged(event: MarketEvent) -> MarketEvent {
    MarketEvent {
        turns_remaining: if event.turns_remaining > 0 {
            (event.turns_remaining - 1) as u32
        } else {
            0
        },
        ..event
    }
}

/// The condition of lasting on.
pub open spec fn is_lasting() -> spec_fn(MarketEvent) -> bool {
    |event: MarketEvent| event.turns_remaining > 0
}

/// The condition of having passed.
pub open spec fn is_over() -> spec_fn(MarketEvent) -> bool {
    |event: MarketEvent| event.turns_remaining == 0
}

/// The relation of what is told of an event that has passed to the event.
pub open spec fn tells_end() -> spec_fn(String, MarketEvent) -> bool {
    |told: String, event: MarketEvent| told@ == expiry_text(event.description@)
}

/// All events one turn later.
pub open spec fn all_aged(events: Seq<MarketEvent>) -> Seq<MarketEvent> {
    events.map_values(|event: MarketEvent| aged(event))
}

/// Whether an event is one that chance can bring to airports and kinds of
/// cargo: it names an airport and a kind of cargo of the catalogs, its
/// multiplier and its turns are in the ranges of its kind, its turns have
/// all yet to pass, and what is told of it is one of the tellings of its
/// kind.
pub open spec fn is_possible_event(
    event: MarketEvent,
    airports: Seq<Airport>,
    cargo_types: Seq<CargoType>,
) -> bool {
    exists|variant: int, good_news: bool|
        {
            &&& event.event_type == MarketEventType::PriceSpike || event.event_type
                == MarketEventType::PriceCrash || event.event_type == MarketEventType::Shortage
                || event.event_type == MarketEventType::NewsEvent
            &&& exists|i: int| 0 <= i < airports.len() && airports[i].id == event.affected_airport
            &&& exists|i: int|
                0 <= i < cargo_types.len() && cargo_types[i].id == event.affected_cargo
            &&& multiplier_range(event.event_type, good_news).0 <= event.price_multiplier
                < multiplier_range(event.event_type, good_news).1
            &&& duration_range(event.event_type).0 <= event.duration_turns < duration_range(
                event.event_type,
            ).1
            &&& event.turns_remaining == event.duration_turns
            &&& 0 <= variant < 4
            &&& event.description@ == #[trigger] event_text(
                event.event_type,
                variant,
                good_news,
                airports,
                cargo_types,
                event.affected_airport@,
                event.affected_cargo@,
            )
        }
}

fn spike_description(variant: i64, airport: &str, cargo: &str) -> (r: String)
    ensures
        r@ == spike_text(variant as int, airport@, cargo@),
{
    if variant == 0 {
        join5("BREAKING: Factory fire at ", airport, " creates urgent demand for ", cargo, "!")
    } else if variant == 1 {
        join4("MARKET ALERT: Supply chain disruption drives up ", cargo, " prices at ", airport)
    } else if variant == 2 {
        join5(
            "URGENT: Emergency stockpiling of ",
            cargo,
            " needed at ",
            airport,
            " due to regulations",
        )
    } else {
        join5(
            "HOT COMMODITY: Unexpected surge in ",
            cargo,
            " demand at ",
            airport,
            " - prices soaring!",
        )
    }
}

fn crash_description(variant: i64, airport: &str, cargo: &str) -> (r: String)
    ensures
        r@ == crash_text(variant as int, airport@, cargo@),
{
    if variant == 0 {
        join5("MARKET CRASH: Oversupply of ", cargo, " floods ", airport, " market - prices plummet!")
    } else if variant == 1 {
        join5(
            "PRICE ALERT: Major competitor dumps ",
            cargo,
            " inventory at ",
            airport,
            " - prices collapse",
        )
    } else if variant == 2 {
        join4("DEMAND SHOCK: Economic slowdown kills ", cargo, " demand at ", airport)
    } else {
        join5("BEARISH: Analysts downgrade ", cargo, " outlook for ", airport, " region")
    }
}

fn shortage_description(variant: i64, airport: &str, cargo: &str) -> (r: String)
    ensures
        r@ == shortage_text(variant as int, airport@, cargo@),
{
    if variant == 0 {
        join5("SHORTAGE: Critical ", cargo, " shortage at ", airport, " - limited supply available")
    } else if variant == 1 {
        join5("SUPPLY CRISIS: ", cargo, " production halted - ", airport, " faces severe shortage")
    } else if variant == 2 {
        join4("RESTRICTED: Export controls limit ", cargo, " availability at ", airport)
    } else {
        join4("SCARCITY: Strike action disrupts ", cargo, " supply chain to ", airport)
    }
}

fn news_description(variant: i64, good_news: bool, cargo: &str) -> (r: String)
    ensures
        r@ == news_text(variant as int, good_news, cargo@),
{
    if good_news {
        if variant == 0 {
            join3("BUSINESS NEWS: New technology breakthrough boosts ", cargo, " industry outlook")
        } else if variant == 1 {
            join3("INNOVATION: Revolutionary ", cargo, " applications drive market optimism")
        } else if variant == 2 {
            join3("ANALYST UPGRADE: ", cargo, " sector receives strong buy rating from Wall Street")
        } else {
            join3("GROWTH STORY: ", cargo, " demand expected to surge on global expansion")
        }
    } else {
        if variant == 0 {
            join3("MARKET NEWS: Regulatory concerns weigh on ", cargo, " sector performance")
        } else if variant == 1 {
            join3("INDUSTRY ALERT: Environmental issues impact ", cargo, " market sentiment")
        } else if variant == 2 {
            join3("ANALYST DOWNGRADE: ", cargo, " sector faces headwinds from economic uncertainty")
        } else {
            join3("CLOUDY OUTLOOK: Global tensions affect ", cargo, " international trade")
        }
    }
}

impl EventSystem {
    /// What is told of an event of a kind, in one of four tellings.
    pub fn describe_event(
        event_type: MarketEventType,
        variant: i64,
        good_news: bool,
        airports: &Vec<Airport>,
        cargo_types: &Vec<CargoType>,
        airport_id: &str,
        cargo_id: &str,
    ) -> (r: String)
        ensures
            r@ == event_text(
                event_type,
                variant as int,
                good_news,
                airports@,
                cargo_types@,
                airport_id@,
                cargo_id@,
            ),
    {
        let airport_name = match find_airport(airports, airport_id) {
            Some(airport) => airport.name.clone(),
            None => airport_id.to_string(),
        };
        let cargo_name = match find_cargo_type(cargo_types, cargo_id) {
            Some(cargo) => cargo.name.clone(),
            None => cargo_id.to_string(),
        };
        match event_type {
            MarketEventType::PriceSpike => spike_description(
                variant,
                airport_name.as_str(),
                cargo_name.as_str(),
            ),
            MarketEventType::PriceCrash => crash_description(
                variant,
                airport_name.as_str(),
                cargo_name.as_str(),
            ),
            MarketEventType::Shortage => shortage_description(
                variant,
                airport_name.as_str(),
                cargo_name.as_str(),
            ),
            _ => news_description(variant, good_news, underscores_to_spaces(cargo_id).as_str()),
        }
    }

    /// Makes the event that a kind, a place, a multiplier, a number of
    /// turns and a telling give.
    pub fn make_event(
        event_type: MarketEventType,
        airports: &Vec<Airport>,
        cargo_types: &Vec<CargoType>,
        airport_at: usize,
        cargo_at: usize,
        price_multiplier: u32,
        duration: u32,
        good_news: bool,
        variant: i64,
    ) -> (r: MarketEvent)
        requires
            airport_at < airports@.len(),
            cargo_at < cargo_types@.len(),
        ensures
            r.event_type == event_type,
            r.affected_airport == airports[airport_at as int].id,
            r.affected_cargo == cargo_types[cargo_at as int].id,
            r.price_multiplier == price_multiplier,
            r.duration_turns == duration,
            r.turns_remaining == duration,
            r.description@ == event_text(
                event_type,
                variant as int,
                good_news,
                airports@,
                cargo_types@,
                airports[airport_at as int].id@,
                cargo_types[cargo_at as int].id@,
            ),
    {
        let affected_airport = airports[airport_at].id.clone();
        let affected_cargo = cargo_types[cargo_at].id.clone();
        let description = Self::describe_event(
            event_type,
            variant,
            good_news,
            airports,
            cargo_types,
            affected_airport.as_str(),
            affected_cargo.as_str(),
        );
        MarketEvent {
            event_type,
            affected_cargo,
            affected_airport,
            price_multiplier,
            duration_turns: duration,
            turns_remaining: duration,
            description,
        }
    }

    /// What two draws, each from nought up to a thousand and up to four,
    /// decide: whether an event comes, which is so for a first draw below
    /// one hundred and fifty, and of which kind it is.
    pub fn event_kind(chance: i64, kind: i64) -> (r: Option<MarketEventType>)
        ensures
            r == kind_decided(chance as int, kind as int),
    {
        if chance >= 150 {
            None
        } else if kind == 0 {
            Some(MarketEventType::PriceSpike)
        } else if kind == 1 {
            Some(MarketEventType::PriceCrash)
        } else if kind == 2 {
            Some(MarketEventType::Shortage)
        } else {
            Some(MarketEventType::NewsEvent)
        }
    }

    /// Whether a draw from nought up to ten makes news good: six in ten
    /// do.
    pub fn is_good_news(draw: i64) -> (r: bool)
        ensures
            r == (draw < 6),
    {
        draw < 6
    }

    /// The ranges from which the multiplier and the number of turns of an
    /// event are drawn.
    pub fn event_ranges(event_type: MarketEventType, good_news: bool) -> (r: ((i64, i64), (i64, i64)))
        ensures
            r.0.0 == multiplier_range(event_type, good_news).0,
            r.0.1 == multiplier_range(event_type, good_news).1,
            r.1.0 == duration_range(event_type).0,
            r.1.1 == duration_range(event_type).1,
            0 <= r.0.0 < r.0.1 <= 3000,
            0 <= r.1.0 < r.1.1 <= 12,
    {
        match event_type {
            MarketEventType::PriceSpike => ((1500, 2500), (3, 8)),
            MarketEventType::PriceCrash => ((300, 700), (4, 10)),
            MarketEventType::Shortage => ((1800, 3000), (2, 6)),
            MarketEventType::NewsEvent => if good_news {
                ((1300, 2000), (5, 12))
            } else {
                ((500, 800), (5, 12))
            },
            _ => ((1000, 1001), (1, 2)),
        }
    }

    /// Leaves it to chance whether an event comes, and which. An event
    /// comes about three times in twenty; none comes where there is no
    /// airport or no kind of cargo for it.
    pub fn generate_random_event(airports: &Vec<Airport>, cargo_types: &Vec<CargoType>) -> (r:
        Option<MarketEvent>)
        ensures
            r is Some ==> is_possible_event(r->0, airports@, cargo_types@),
            airports@.len() == 0 || cargo_types@.len() == 0 ==> r is None,
    {
        let event_type = match Self::event_kind(draw(0, 1000), draw(0, 4)) {
            Some(event_type) => event_type,
            None => {
                return None;
            },
        };
        if airports.len() == 0 || cargo_types.len() == 0 {
            return None;
        }
        let cargo_at = draw_index(cargo_types.len());
        let airport_at = draw_index(airports.len());
        let good_news = Self::is_good_news(draw(0, 10));
        let (multipliers, durations) = Self::event_ranges(event_type, good_news);
        let price_multiplier = draw(multipliers.0, multipliers.1);
        let duration = draw(durations.0, durations.1);
        let variant = draw(0, 4);
        let event = Self::make_event(
            event_type,
            airports,
            cargo_types,
            airport_at,
            cargo_at,
            price_multiplier as u32,
            duration as u32,
            good_news,
            variant,
        );
        proof {
            assert(event.description@ == event_text(
                event.event_type,
                variant as int,
                good_news,
                airports@,
                cargo_types@,
                event.affected_airport@,
                event.affected_cargo@,
            ));
            assert(airports[airport_at as int].id == event.affected_airport);
            assert(cargo_types[cargo_at as int].id == event.affected_cargo);
        }
        Some(event)
    }

    /// Moves the price of the cargo of an event at a market by the event's
    /// multiplier. A market that does not trade the cargo stays as it is.
    pub fn apply_event_to_market(event: &MarketEvent, market: &mut Market)
        ensures
            final(market).airport_id == old(market).airport_id,
            final(market).fuel_price == old(market).fuel_price,
            final(market).cargo_prices@ == prices_after_event(old(market).cargo_prices@, *event),
            !old(market).cargo_prices@.contains_key(event.affected_cargo@) ==> *final(market)
                == *old(market),
    {
        match market.get_cargo_price(event.affected_cargo.as_str()) {
            Some(current_price) => {
                let new_price = scale_price(current_price, event.price_multiplier as i64, 1000);
                market.set_cargo_price(event.affected_cargo.as_str(), new_price);
            },
            None => {},
        }
    }

    /// Lets a turn pass for all events. Those whose turns are over leave
    /// the list; of each of them it is told that it has passed.
    pub fn update_events(events: &mut Vec<MarketEvent>) -> (r: Vec<String>)
        ensures
            final(events)@ == keep_where(all_aged(old(events)@), is_lasting()),
            pairwise(r@, keep_where(all_aged(old(events)@), is_over()), tells_end()),
    {
        let ghost turned = all_aged(events@);
        let mut lasting: Vec<MarketEvent> = Vec::new();
        let mut expired_events: Vec<String> = Vec::new();
        let mut i: usize = 0;
        while i < events.len()
            invariant
                i <= events.len(),
                events@ == old(events)@,
                turned == all_aged(events@),
                lasting@ == keep_where(turned.subrange(0, i as int), is_lasting()),
                pairwise(
                    expired_events@,
                    keep_where(turned.subrange(0, i as int), is_over()),
                    tells_end(),
                ),
            decreases events.len() - i,
        {
            proof {
                lemma_keep_where_step(turned, is_lasting(), i as int);
                lemma_keep_where_step(turned, is_over(), i as int);
            }
            let mut event = events[i].clone();
            event.turns_remaining = event.turns_remaining.saturating_sub(1);
            assert(event == turned[i as int]);
            if event.turns_remaining == 0 {
                let told = join3(
                    "Market conditions normalize: ",
                    text_before(event.description.as_str(), ':').as_str(),
                    " effects have ended",
                );
                proof {
                    lemma_pairwise_push(
                        expired_events@,
                        keep_where(turned.subrange(0, i as int), is_over()),
                        tells_end(),
                        told,
                        event,
                    );
                }
                expired_events.push(told);
            } else {
                lasting.push(event);
            }
            i += 1;
        }
        proof {
            assert(turned.subrange(0, i as int) =~= turned);
        }
        *events = lasting;
        expired_events
    }
}

} // verus!

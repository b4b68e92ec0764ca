//! A game played alone: one player, the airports with their markets, the
//! events in force and the turn.

use vstd::prelude::*;
use crate::config::GameConfig;
use crate::models::airport::{
    airport_index, distance_between, find_airport, find_distance, Airport, Route,
};
use crate::models::cargo::{add_capped, capped_sum, CargoType};
use crate::models::market::{find_market, market_index, Market};
use crate::models::message_board::{Message, MessageBoard};
use crate::models::player::Player;
use crate::models::stats::GameStats;
use crate::search::{
    keep_where, lemma_first_where_at, lemma_first_where_none, lemma_keep_where_step,
};
use crate::systems::events::{
    all_aged, is_lasting, is_possible_event, prices_after_event, EventSystem, MarketEvent,
};
use crate::systems::market::{
    are_market_prices, are_updated_prices, is_fuel_price, MarketSystem,
};

verus! {

/// The distances between airports, as a game keeps them.
pub type DistanceCache = Vec<Route>;

/// The number of messages that the board of a game keeps.
pub const GAME_BOARD_CAPACITY: usize = 50;

/// A game played alone.
#[derive(Debug, Clone)]
pub struct GameState {
    pub player: Player,
    pub airports: Vec<Airport>,
    pub cargo_types: Vec<CargoType>,
    pub markets: Vec<Market>,
    pub distance_cache: DistanceCache,
    pub turn_number: u32,
    pub cheat_mode: bool,
    pub stats: GameStats,
    pub win_condition_money: u32,
    pub active_events: Vec<MarketEvent>,
    pub message_board: MessageBoard,
}

/// A share of a tank, counted in thousandths and rounded down; no more
/// than what 32 bits hold.
pub open spec fn share_of_tank(max_fuel: u32, share: u32) -> u32 {
    let fuel = max_fuel * share / 1000;
    if fuel > u32::MAX {
        u32::MAX
    } else {
        fuel as u32
    }
}

/// The condition of being another airport than a given one.
pub open spec fn is_other_than(airport_id: Seq<char>) -> spec_fn(Airport) -> bool {
    |a: Airport| a.id@ != airport_id
}

/// The airports that references point to.
pub open spec fn airports_pointed_to(refs: Seq<&Airport>) -> Seq<Airport> {
    refs.map_values(|a: &Airport| *a)
}

/// Whether markets stand at the same airports, in the same order, with the
/// same prices of fuel, as other markets.
pub open spec fn are_same_places(after: Seq<Market>, before: Seq<Market>) -> bool {
    &&& after.len() == before.len()
    &&& forall|i: int|
        0 <= i < after.len() ==> (#[trigger] after[i]).airport_id == before[i].airport_id
            && after[i].fuel_price == before[i].fuel_price
}

/// Whether markets stand at the same airports, in the same order, as other
/// markets.
pub open spec fn are_same_airports(after: Seq<Market>, before: Seq<Market>) -> bool {
    &&& after.len() == before.len()
    &&& forall|i: int|
        0 <= i < after.len() ==> (#[trigger] after[i]).airport_id == before[i].airport_id
}

/// Whether a list of events is another with, at most, one event more that
/// chance can bring.
pub open spec fn is_with_new_event(
    after: Seq<MarketEvent>,
    before: Seq<MarketEvent>,
    airports: Seq<Airport>,
    cargo_types: Seq<CargoType>,
) -> bool {
    after == before || (after.len() > 0 && after.drop_last() == before && is_possible_event(
        after.last(),
        airports,
        cargo_types,
    ))
}

/// The prices of the market at a position after events have acted, one
/// after the other, each on the first market that stands at its airport.
pub open spec fn prices_after_events(markets: Seq<Market>, at: int, events: Seq<MarketEvent>) -> Map<
    Seq<char>,
    u32,
>
    decreases events.len(),
{
    if events.len() == 0 {
        markets[at].cargo_prices@
    } else {
        let before = prices_after_events(markets, at, events.drop_last());
        if market_index(markets, events.last().affected_airport@) == at {
            prices_after_event(before, events.last())
        } else {
            before
        }
    }
}

/// Whether markets are what becomes of other markets when events act on
/// them: they stand where they stood, fuel costs what it cost, and the
/// prices of cargo are what the events make of them.
pub open spec fn are_acted_on(after: Seq<Market>, before: Seq<Market>, events: Seq<MarketEvent>) -> bool {
    &&& are_same_places(after, before)
    &&& forall|i: int|
        0 <= i < after.len() ==> (#[trigger] after[i]).cargo_prices@ == prices_after_events(
            before,
            i,
            events,
        )
}

/// Whether a market is what becomes of another when it is priced anew for
/// the airport of a catalog at which it stands; a market that stands at no
/// airport of the catalog stays as it is.
pub open spec fn is_refreshed_market(
    after: Market,
    before: Market,
    airports: Seq<Airport>,
    cargo_types: Seq<CargoType>,
) -> bool {
    let a = airport_index(airports, before.airport_id@);
    if a >= 0 {
        &&& after.airport_id == before.airport_id
        &&& is_fuel_price(after.fuel_price, airports[a])
        &&& are_updated_prices(before.cargo_prices@, after.cargo_prices@, airports[a], cargo_types)
    } else {
        after == before
    }
}

/// How a game stands after chance was asked for an event: as before, where
/// none came; else the event that came is the last of those in force, and
/// has acted on the first market that stands at its airport.
pub open spec fn has_asked_for_event(before: GameState, after: GameState) -> bool {
    ||| after == before
    ||| {
        let event = after.active_events@.last();
        &&& after == (GameState {
            markets: after.markets,
            active_events: after.active_events,
            ..before
        })
        &&& after.active_events@.len() > 0
        &&& after.active_events@.drop_last() == before.active_events@
        &&& is_possible_event(event, before.airports@, before.cargo_types@)
        &&& are_acted_on(after.markets@, before.markets@, seq![event])
    }
}

/// Markets that stand at the same airports are found at the same
/// positions.
pub proof fn lemma_same_airports_same_index(a: Seq<Market>, b: Seq<Market>, airport_id: Seq<char>)
    requires
        are_same_airports(a, b),
    ensures
        market_index(a, airport_id) == market_index(b, airport_id),
    decreases a.len(),
{
    if a.len() > 0 {
        assert(a[0].airport_id == b[0].airport_id);
        assert forall|i: int| 0 <= i < a.drop_first().len() implies (#[trigger] a.drop_first()[i]).airport_id
            == b.drop_first()[i].airport_id by {
            assert(a[i + 1].airport_id == b[i + 1].airport_id);
        }
        lemma_same_airports_same_index(a.drop_first(), b.drop_first(), airport_id);
    }
}

impl GameState {
    /// Whether a game has just begun, by given settings.
    pub open spec fn is_new_game(
        self,
        airports: Vec<Airport>,
        cargo_types: Vec<CargoType>,
        distances: Vec<Route>,
        config: GameConfig,
        cheat_mode: bool,
    ) -> bool {
        &&& self.player.money == config.starting_money
        &&& self.player.current_airport@ == config.starting_airport@
        &&& self.player.fuel == share_of_tank(config.max_fuel, config.starting_fuel_percentage)
        &&& self.player.max_fuel == config.max_fuel
        &&& self.player.cargo_inventory@ == Map::<Seq<char>, u32>::empty()
        &&& self.player.max_cargo_weight == config.max_cargo_weight
        &&& self.player.fuel_efficiency == config.fuel_efficiency
        &&& self.airports == airports
        &&& self.cargo_types == cargo_types
        &&& self.distance_cache == distances
        &&& self.turn_number == 1
        &&& self.cheat_mode == cheat_mode
        &&& self.stats.has_no_records(config.starting_money)
        &&& self.stats.airports_visited@.len() == 1
        &&& self.stats.airports_visited[0]@ == config.starting_airport@
        &&& self.win_condition_money == config.win_condition_money
        &&& self.active_events@ == Seq::<MarketEvent>::empty()
        &&& self.message_board.posts() == Seq::<Message>::empty()
        &&& self.message_board.capacity() == GAME_BOARD_CAPACITY
        &&& self.markets@.len() == airports@.len()
        &&& forall|i: int|
            0 <= i < self.markets@.len() ==> (#[trigger] self.markets[i]).airport_id@
                == airports[i].id@ && is_fuel_price(self.markets[i].fuel_price, airports[i])
                && are_market_prices(self.markets[i].cargo_prices@, airports[i], cargo_types@)
    }

    /// A new game by the normal settings, without cheating.
    pub fn new(airports: Vec<Airport>, cargo_types: Vec<CargoType>, distances: Vec<Route>) -> (r:
        Self)
        ensures
            exists|config: GameConfig|
                config.is_normal() && #[trigger] r.is_new_game(
                    airports,
                    cargo_types,
                    distances,
                    config,
                    false,
                ),
    {
        let config = GameConfig::default();
        let game = Self::new_with_config(airports, cargo_types, distances, config, false);
        proof {
            assert(game.is_new_game(airports, cargo_types, distances, config, false));
        }
        game
    }

    /// A new game by given settings: the player stands at the starting
    /// airport, which counts as visited, and every airport has a market
    /// priced by chance.
    pub fn new_with_config(
        airports: Vec<Airport>,
        cargo_types: Vec<CargoType>,
        distances: Vec<Route>,
        config: GameConfig,
        cheat_mode: bool,
    ) -> (r: Self)
        ensures
            r.is_new_game(airports, cargo_types, distances, config, cheat_mode),
    {
        let mut player = Player::new(
            config.starting_money,
            config.starting_airport.as_str(),
            config.max_fuel,
            config.max_cargo_weight,
            config.fuel_efficiency,
        );
        let share: u64 = crate::models::cargo::times(config.max_fuel, config.starting_fuel_percentage)
            / 1000;
        player.fuel = if share > u32::MAX as u64 {
            u32::MAX
        } else {
            share as u32
        };
        let mut stats = GameStats::new(config.starting_money);
        stats.airports_visited.push(config.starting_airport.clone());
        let markets = MarketSystem::initialize_all_markets(&airports, &cargo_types);
        GameState {
            player,
            airports,
            cargo_types,
            markets,
            distance_cache: distances,
            turn_number: 1,
            cheat_mode,
            stats,
            win_condition_money: config.win_condition_money,
            active_events: Vec::new(),
            message_board: MessageBoard::new(GAME_BOARD_CAPACITY),
        }
    }

    /// The distance between two airports, where the game knows it.
    pub fn get_distance(&self, from: &str, to: &str) -> (r: Option<u64>)
        ensures
            r == distance_between(self.distance_cache@, from@, to@),
    {
        find_distance(&self.distance_cache, from, to)
    }

    /// The airport where the player is.
    pub fn get_current_airport(&self) -> (r: Option<&Airport>)
        ensures
            match r {
                Some(a) => airport_index(self.airports@, self.player.current_airport@) >= 0 && *a
                    == self.airports[airport_index(self.airports@, self.player.current_airport@)],
                None => airport_index(self.airports@, self.player.current_airport@) < 0,
            },
    {
        find_airport(&self.airports, self.player.current_airport.as_str())
    }

    /// The market where the player is.
    pub fn get_current_market(&self) -> (r: Option<&Market>)
        ensures
            match r {
                Some(m) => market_index(self.markets@, self.player.current_airport@) >= 0 && *m
                    == self.markets[market_index(self.markets@, self.player.current_airport@)],
                None => market_index(self.markets@, self.player.current_airport@) < 0,
            },
    {
        find_market(&self.markets, self.player.current_airport.as_str())
    }

    fn market_position(&self, airport_id: &str) -> (r: Option<usize>)
        ensures
            match r {
                Some(i) => i == market_index(self.markets@, airport_id@) && i < self.markets@.len(),
                None => market_index(self.markets@, airport_id@) < 0,
            },
    {
        let wanted = airport_id.to_owned();
        let mut i: usize = 0;
        while i < self.markets.len()
            invariant
                i <= self.markets.len(),
                wanted@ == airport_id@,
                forall|j: int| 0 <= j < i ==> self.markets[j].airport_id@ != airport_id@,
            decreases self.markets.len() - i,
        {
            if self.markets[i].airport_id == wanted {
                proof {
                    lemma_first_where_at(
                        self.markets@,
                        |m: Market| m.airport_id@ == airport_id@,
                        i as int,
                    );
                }
                return Some(i);
            }
            i += 1;
        }
        proof {
            lemma_first_where_none(self.markets@, |m: Market| m.airport_id@ == airport_id@);
        }
        None
    }

    /// The market where the player is, to be changed in place.
    pub fn get_current_market_mut(&mut self) -> (r: Option<&mut Market>)
        ensures
            match r {
                Some(m) => {
                    let i = market_index(old(self).markets@, old(self).player.current_airport@);
                    &&& i >= 0
                    &&& *m == old(self).markets[i]
                    &&& *final(self) == (GameState { markets: final(self).markets, ..*old(self) })
                    &&& final(self).markets@ == old(self).markets@.update(i, *final(m))
                },
                None => market_index(old(self).markets@, old(self).player.current_airport@) < 0
                    && *final(self) == *old(self),
            },
    {
        let here = self.player.current_airport.clone();
        match self.market_position(here.as_str()) {
            Some(i) => Some(&mut self.markets[i]),
            None => None,
        }
    }

    /// All airports but the one where the player is, in the order of the
    /// catalog.
    pub fn get_available_destinations(&self) -> (r: Vec<&Airport>)
        ensures
            airports_pointed_to(r@) == keep_where(
                self.airports@,
                is_other_than(self.player.current_airport@),
            ),
    {
        let ghost others = is_other_than(self.player.current_airport@);
        let mut found: Vec<&Airport> = Vec::new();
        let mut i: usize = 0;
        while i < self.airports.len()
            invariant
                i <= self.airports.len(),
                others == is_other_than(self.player.current_airport@),
                airports_pointed_to(found@) == keep_where(
                    self.airports@.subrange(0, i as int),
                    others,
                ),
            decreases self.airports.len() - i,
        {
            proof {
                lemma_keep_where_step(self.airports@, others, i as int);
            }
            if !(self.airports[i].id == self.player.current_airport) {
                let ghost before = airports_pointed_to(found@);
                found.push(&self.airports[i]);
                proof {
                    assert(airports_pointed_to(found@) =~= before.push(self.airports[i as int]));
                }
            }
            i += 1;
        }
        proof {
            assert(self.airports@.subrange(0, i as int) =~= self.airports@);
        }
        found
    }

    /// Whether the player has reached the sum of money that wins the game.
    pub fn is_game_won(&self) -> (r: bool)
        ensures
            r == (self.player.money >= self.win_condition_money),
    {
        self.player.money >= self.win_condition_money
    }

    /// Whether the player can go on: there is fuel in the tank, or money
    /// for a unit of fuel at the market where the player is.
    pub fn can_player_continue(&self) -> (r: bool)
        ensures
            r == (self.player.fuel > 0 || ({
                let m = market_index(self.markets@, self.player.current_airport@);
                m >= 0 && self.player.money >= self.markets[m].fuel_price
            })),
    {
        if self.player.fuel > 0 {
            return true;
        }
        match self.get_current_market() {
            Some(market) => self.player.can_afford(market.fuel_price),
            None => false,
        }
    }

    /// Applies each event in force to the market of its airport, one after
    /// the other.
    fn apply_active_events(&mut self)
        ensures
            *final(self) == (GameState { markets: final(self).markets, ..*old(self) }),
            are_acted_on(final(self).markets@, old(self).markets@, old(self).active_events@),
    {
        let mut n: usize = 0;
        while n < self.active_events.len()
            invariant
                n <= self.active_events.len(),
                *self == (GameState { markets: self.markets, ..*old(self) }),
                are_acted_on(
                    self.markets@,
                    old(self).markets@,
                    self.active_events@.subrange(0, n as int),
                ),
            decreases self.active_events.len() - n,
        {
            let ghost before = self.markets@;
            let ghost acted = self.active_events@.subrange(0, n as int);
            let ghost more = self.active_events@.subrange(0, n + 1);
            let airport = self.active_events[n].affected_airport.clone();
            let found = self.market_position(airport.as_str());
            proof {
                assert(more.drop_last() =~= acted);
                assert(more.last() == self.active_events@[n as int]);
                assert(are_same_airports(before, old(self).markets@));
                lemma_same_airports_same_index(before, old(self).markets@, airport@);
            }
            match found {
                Some(m) => {
                    let event = self.active_events[n].clone();
                    EventSystem::apply_event_to_market(&event, &mut self.markets[m]);
                    proof {
                        assert forall|i: int| 0 <= i < self.markets@.len() implies (
                        #[trigger] self.markets@[i]).airport_id == old(self).markets@[i].airport_id
                            && self.markets@[i].fuel_price == old(self).markets@[i].fuel_price
                            && self.markets@[i].cargo_prices@ == prices_after_events(
                            old(self).markets@,
                            i,
                            more,
                        ) by {
                            if i != m {
                                assert(self.markets@[i] == before[i]);
                            }
                        }
                    }
                },
                None => {
                    proof {
                        assert forall|i: int| 0 <= i < self.markets@.len() implies (
                        #[trigger] self.markets@[i]).cargo_prices@ == prices_after_events(
                            old(self).markets@,
                            i,
                            more,
                        ) by {
                            assert(self.markets@[i] == before[i]);
                        }
                    }
                },
            }
            n += 1;
        }
        proof {
            assert(self.active_events@.subrange(0, n as int) =~= self.active_events@);
        }
    }

    /// Moves the game on by one turn: the events in force grow a turn
    /// older, those that are over pass, the others act on their markets
    /// again; then chance may bring a new event, which acts at once. So
    /// the prices of cargo are those of before with all events that are
    /// then in force applied, one after the other.
    pub fn advance_turn(&mut self)
        ensures
            final(self).turn_number == capped_sum(old(self).turn_number, 1),
            final(self).player == old(self).player,
            final(self).airports == old(self).airports,
            final(self).cargo_types == old(self).cargo_types,
            final(self).distance_cache == old(self).distance_cache,
            final(self).cheat_mode == old(self).cheat_mode,
            final(self).stats == old(self).stats,
            final(self).win_condition_money == old(self).win_condition_money,
            final(self).message_board == old(self).message_board,
            is_with_new_event(
                final(self).active_events@,
                keep_where(all_aged(old(self).active_events@), is_lasting()),
                old(self).airports@,
                old(self).cargo_types@,
            ),
            are_acted_on(final(self).markets@, old(self).markets@, final(self).active_events@),
    {
        self.turn_number = add_capped(self.turn_number, 1);
        self.process_market_events();
        let ghost aged = *self;
        self.maybe_generate_event();
        proof {
            if *self != aged {
                let event = self.active_events@.last();
                let came = seq![event];
                assert(came.drop_last().len() == 0);
                assert(came.last() == event);
                lemma_same_airports_same_index(
                    aged.markets@,
                    old(self).markets@,
                    event.affected_airport@,
                );
                assert forall|i: int| 0 <= i < self.markets@.len() implies (
                #[trigger] self.markets@[i]).cargo_prices@ == prices_after_events(
                    old(self).markets@,
                    i,
                    self.active_events@,
                ) by {
                    assert(prices_after_events(aged.markets@, i, came.drop_last())
                        == aged.markets@[i].cargo_prices@);
                    assert(self.markets@[i].cargo_prices@ == prices_after_events(
                        aged.markets@,
                        i,
                        came,
                    ));
                    assert(aged.markets@[i].cargo_prices@ == prices_after_events(
                        old(self).markets@,
                        i,
                        aged.active_events@,
                    ));
                }
            }
        }
    }

    fn process_market_events(&mut self)
        ensures
            *final(self) == (GameState {
                markets: final(self).markets,
                active_events: final(self).active_events,
                ..*old(self)
            }),
            final(self).active_events@ == keep_where(all_aged(old(self).active_events@), is_lasting()),
            are_acted_on(final(self).markets@, old(self).markets@, final(self).active_events@),
    {
        let _expired = EventSystem::update_events(&mut self.active_events);
        self.apply_active_events();
    }

    /// Asks chance for an event; one that comes is kept with those in
    /// force and acts at once on the market of its airport.
    fn maybe_generate_event(&mut self)
        ensures
            has_asked_for_event(*old(self), *final(self)),
    {
        match EventSystem::generate_random_event(&self.airports, &self.cargo_types) {
            Some(new_event) => {
                let ghost came = seq![new_event];
                proof {
                    assert(came.drop_last().len() == 0);
                    assert(came.last() == new_event);
                }
                match self.market_position(new_event.affected_airport.as_str()) {
                    Some(m) => {
                        EventSystem::apply_event_to_market(&new_event, &mut self.markets[m]);
                        proof {
                            assert forall|i: int| 0 <= i < self.markets@.len() implies (
                            #[trigger] self.markets@[i]).airport_id == old(self).markets@[i].airport_id
                                && self.markets@[i].fuel_price == old(self).markets@[i].fuel_price
                                && self.markets@[i].cargo_prices@ == prices_after_events(
                                old(self).markets@,
                                i,
                                came,
                            ) by {
                                assert(prices_after_events(
                                    old(self).markets@,
                                    i,
                                    came.drop_last(),
                                ) == old(self).markets@[i].cargo_prices@);
                                if i != m {
                                    assert(self.markets@[i] == old(self).markets@[i]);
                                }
                            }
                        }
                    },
                    None => {
                        proof {
                            assert forall|i: int| 0 <= i < self.markets@.len() implies (
                            #[trigger] self.markets@[i]).cargo_prices@ == prices_after_events(
                                old(self).markets@,
                                i,
                                came,
                            ) by {
                                assert(prices_after_events(
                                    old(self).markets@,
                                    i,
                                    came.drop_last(),
                                ) == old(self).markets@[i].cargo_prices@);
                            }
                        }
                    },
                }
                assert(are_acted_on(self.markets@, old(self).markets@, came));
                self.active_events.push(new_event);
                proof {
                    assert(self.active_events@.drop_last() =~= old(self).active_events@);
                    assert(self.active_events@.last() == new_event);
                }
            },
            None => {},
        }
    }

    /// Prices the market where the player is anew, by chance.
    pub fn refresh_current_market(&mut self)
        ensures
            *final(self) == (GameState { markets: final(self).markets, ..*old(self) }),
            are_same_airports(final(self).markets@, old(self).markets@),
            ({
                let a = airport_index(old(self).airports@, old(self).player.current_airport@);
                let m = market_index(old(self).markets@, old(self).player.current_airport@);
                if a >= 0 && m >= 0 {
                    &&& final(self).markets@ == old(self).markets@.update(m, final(self).markets[m])
                    &&& final(self).markets[m].airport_id == old(self).markets[m].airport_id
                    &&& is_fuel_price(final(self).markets[m].fuel_price, old(self).airports[a])
                    &&& crate::systems::market::are_updated_prices(
                        old(self).markets[m].cargo_prices@,
                        final(self).markets[m].cargo_prices@,
                        old(self).airports[a],
                        old(self).cargo_types@,
                    )
                } else {
                    final(self).markets@ == old(self).markets@
                }
            }),
    {
        let here = self.player.current_airport.clone();
        match find_airport(&self.airports, here.as_str()) {
            Some(airport) => {
                match self.market_position(here.as_str()) {
                    Some(m) => {
                        MarketSystem::update_market_prices(
                            &mut self.markets[m],
                            airport,
                            &self.cargo_types,
                        );
                        proof {
                            assert(self.markets@ =~= old(self).markets@.update(
                                m as int,
                                self.markets[m as int],
                            ));
                        }
                    },
                    None => {},
                }
            },
            None => {},
        }
    }

    /// Prices all markets anew, by chance, each for the airport of the
    /// catalog that it belongs to.
    pub fn refresh_all_markets(&mut self)
        ensures
            *final(self) == (GameState { markets: final(self).markets, ..*old(self) }),
            final(self).markets@.len() == old(self).markets@.len(),
            forall|i: int|
                0 <= i < final(self).markets@.len() ==> is_refreshed_market(
                    #[trigger] final(self).markets@[i],
                    old(self).markets@[i],
                    old(self).airports@,
                    old(self).cargo_types@,
                ),
    {
        let mut i: usize = 0;
        while i < self.markets.len()
            invariant
                i <= self.markets.len(),
                *self == (GameState { markets: self.markets, ..*old(self) }),
                self.markets@.len() == old(self).markets@.len(),
                forall|j: int|
                    0 <= j < i ==> is_refreshed_market(
                        #[trigger] self.markets@[j],
                        old(self).markets@[j],
                        old(self).airports@,
                        old(self).cargo_types@,
                    ),
                forall|j: int|
                    i <= j < self.markets@.len() ==> #[trigger] self.markets@[j] == old(
                        self,
                    ).markets@[j],
            decreases self.markets.len() - i,
        {
            let airport_id = self.markets[i].airport_id.clone();
            match find_airport(&self.airports, airport_id.as_str()) {
                Some(airport) => {
                    MarketSystem::update_market_prices(
                        &mut self.markets[i],
                        airport,
                        &self.cargo_types,
                    );
                },
                None => {},
            }
            i += 1;
        }
    }
}

} // verus!

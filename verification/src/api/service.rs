//! The service for games played alone: the games that are under way, each
//! under the id of its session, and what each request does to its game.

use vstd::prelude::*;
use crate::api::models::{
    CreateGameRequest, CreateGameResponse, EventInfo, FuelRequest, FuelResponse,
    GameStateResponse, PlayerInfo, StatisticsInfo, TradeAction, TradeRequest, TradeResponse,
    TravelRequest, TravelResponse,
};
use crate::api::room_actions::{
    build_inventory_map, fails_with, fueled_text, hold_after_sale,
    insufficient_fuel_text, inventory_report, statistics_changed, tank_space, tank_text,
    traveled_text,
};
use crate::api::room_view::{
    destination_infos, is_blank_info, is_destination_from, is_market_info, is_statistics_info,
    market_info, shows_destination, statistics_info_of,
};
use crate::data::airports::{
    are_default_airports, are_default_distances, get_default_airports, get_default_distances,
};
use crate::data::cargo_types::{are_default_cargo_types, get_default_cargo_types};
use crate::ident::fresh_id;
use crate::models::airport::{airport_index, distance_between, find_airport, find_distance};
use crate::models::amounts::amount_in;
use crate::models::cargo::{
    capped, capped_sum, cargo_type_index, cargo_weight, find_cargo_type, times,
};
use crate::models::market::{find_market, market_index};
use crate::models::player::{fuel_after_adding, fuel_needed, Player};
use crate::search::{
    first_where, keep_where, lemma_first_where_at, lemma_first_where_none,
    pairwise,
};
use crate::models::message_board::Message;
use crate::systems::events::{GameStatistics, MarketEvent};
use crate::systems::game::{GameState, GAME_BOARD_CAPACITY};
use crate::systems::market::{are_market_prices, is_fuel_price};
use crate::systems::multiplayer::{
    airport_or_default, is_for, is_starting_player, statistics_index, PlayerStatistics,
    STARTING_FUEL_EFFICIENCY, STARTING_MAX_CARGO_WEIGHT, STARTING_MAX_FUEL, STARTING_MONEY,
};
use crate::text::{decimal, decimal_string};

verus! {

/// A game under the id of its session.
#[derive(Debug, Clone)]
pub struct StoredGame {
    pub session_id: u128,
    pub game_state: GameState,
}

/// The games that are under way, and the statistics of their players.
#[derive(Debug, Clone)]
pub struct GameService {
    sessions: Vec<StoredGame>,
    statistics: Vec<PlayerStatistics>,
}

/// The condition of being the game of a session.
pub open spec fn is_game_of(session_id: u128) -> spec_fn(StoredGame) -> bool {
    |stored: StoredGame| stored.session_id == session_id
}

/// The position of the game of a session, or -1.
pub open spec fn game_index(games: Seq<StoredGame>, session_id: u128) -> int {
    first_where(games, is_game_of(session_id))
}

/// The games after one is entered: in place of the game that the session
/// had, or behind all others.
pub open spec fn with_game(games: Seq<StoredGame>, stored: StoredGame) -> Seq<StoredGame> {
    let i = game_index(games, stored.session_id);
    if i >= 0 {
        games.update(i, stored)
    } else {
        games.push(stored)
    }
}

/// Whether a list of statistics is another after blank statistics were
/// entered for a session: in place of those that the session had, or behind
/// all others.
pub open spec fn with_blank_statistics(
    before: Seq<PlayerStatistics>,
    after: Seq<PlayerStatistics>,
    session_id: u128,
) -> bool {
    let j = statistics_index(before, session_id);
    let at = if j >= 0 {
        j
    } else {
        before.len() as int
    };
    &&& 0 <= at < after.len()
    &&& after[at].player_id == session_id
    &&& after[at].statistics.is_blank()
    &&& after == if j >= 0 {
        before.update(j, after[at])
    } else {
        before.push(after[at])
    }
}

/// Whether an entry shows the player of a game played alone.
pub open spec fn is_solo_player_info(info: PlayerInfo, game: GameState) -> bool {
    &&& info.id is None
    &&& info.name@ == "Player"@
    &&& info.money == game.player.money
    &&& info.current_airport == game.player.current_airport
    &&& info.fuel == game.player.fuel
    &&& info.max_fuel == game.player.max_fuel
    &&& info.cargo_inventory@ == inventory_report(game.player.cargo_inventory@)
    &&& info.cargo_weight == capped(cargo_weight(game.player.cargo_inventory@, game.cargo_types@))
    &&& info.max_cargo_weight == game.player.max_cargo_weight
    &&& info.fuel_efficiency == game.player.fuel_efficiency
    &&& info.is_online is None
    &&& info.last_seen is None
    &&& info.is_host is None
}

/// Whether a response shows a game, with the statistics kept for it.
pub open spec fn is_game_state(
    response: GameStateResponse,
    game: GameState,
    statistics: Seq<PlayerStatistics>,
    session_id: u128,
) -> bool {
    let here = game.player.current_airport@;
    let j = statistics_index(statistics, session_id);
    &&& is_solo_player_info(response.player, game)
    &&& is_market_info(
        response.current_market,
        game.markets[market_index(game.markets@, here)],
        game.airports[airport_index(game.airports@, here)],
    )
    &&& pairwise(
        response.available_destinations@,
        keep_where(game.airports@, is_destination_from(game.distance_cache@, here)),
        shows_destination(game.markets@, game.distance_cache@, game.player),
    )
    &&& response.active_events@ == Seq::<EventInfo>::empty()
    &&& if j >= 0 {
        is_statistics_info(response.statistics, statistics[j].statistics)
    } else {
        is_blank_info(response.statistics)
    }
    &&& response.turn_number == game.turn_number
}

/// What stands against showing a game, if anything does.
pub open spec fn show_error(game: GameState) -> Option<Seq<char>> {
    if airport_index(game.airports@, game.player.current_airport@) < 0 {
        Some("Current airport not found"@)
    } else if market_index(game.markets@, game.player.current_airport@) < 0 {
        Some("Current market not found"@)
    } else {
        None
    }
}

/// What a game answers to the request to be shown.
pub open spec fn game_shown(
    game: GameState,
    statistics: Seq<PlayerStatistics>,
    session_id: u128,
    result: Result<GameStateResponse, String>,
) -> bool {
    match show_error(game) {
        Some(reason) => fails_with(result, reason),
        None => result is Ok && is_game_state(result->Ok_0, game, statistics, session_id),
    }
}

/// Whether an optional response shows a game.
pub open spec fn shows_game(
    response: Option<GameStateResponse>,
    game: GameState,
    statistics: Seq<PlayerStatistics>,
    session_id: u128,
) -> bool {
    response is Some && is_game_state(response->0, game, statistics, session_id)
}

fn position_of_statistics(statistics: &Vec<PlayerStatistics>, session_id: u128) -> (r: Option<
    usize,
>)
    ensures
        match r {
            Some(j) => j == statistics_index(statistics@, session_id) && j < statistics@.len()
                && statistics[j as int].player_id == session_id,
            None => statistics_index(statistics@, session_id) < 0,
        },
{
    let mut j: usize = 0;
    while j < statistics.len()
        invariant
            j <= statistics.len(),
            forall|k: int| 0 <= k < j ==> !is_for(session_id)(#[trigger] statistics[k]),
        decreases statistics.len() - j,
    {
        if statistics[j].player_id == session_id {
            proof {
                lemma_first_where_at(statistics@, is_for(session_id), j as int);
            }
            return Some(j);
        }
        j += 1;
    }
    proof {
        lemma_first_where_none(statistics@, is_for(session_id));
    }
    None
}

/// Shows a game, with the statistics kept for its session.
pub fn build_game_state_response(
    game_state: &GameState,
    statistics: &Vec<PlayerStatistics>,
    session_id: u128,
) -> (r: Result<GameStateResponse, String>)
    ensures
        game_shown(*game_state, statistics@, session_id, r),
{
    let current_airport = match find_airport(
        &game_state.airports,
        game_state.player.current_airport.as_str(),
    ) {
        Some(airport) => airport,
        None => {
            return Err("Current airport not found".to_string());
        },
    };
    let current_market = match game_state.get_current_market() {
        Some(market) => market,
        None => {
            return Err("Current market not found".to_string());
        },
    };
    let statistics_info = match position_of_statistics(statistics, session_id) {
        Some(j) => statistics_info_of(&statistics[j].statistics),
        None => StatisticsInfo::default(),
    };
    Ok(
        GameStateResponse {
            player: PlayerInfo {
                id: None,
                name: "Player".to_string(),
                money: game_state.player.money,
                current_airport: game_state.player.current_airport.clone(),
                fuel: game_state.player.fuel,
                max_fuel: game_state.player.max_fuel,
                cargo_inventory: build_inventory_map(&game_state.player),
                cargo_weight: game_state.player.current_cargo_weight(&game_state.cargo_types),
                max_cargo_weight: game_state.player.max_cargo_weight,
                fuel_efficiency: game_state.player.fuel_efficiency,
                is_online: None,
                last_seen: None,
                is_host: None,
            },
            current_market: market_info(current_market, current_airport),
            available_destinations: destination_infos(
                &game_state.airports,
                &game_state.markets,
                &game_state.distance_cache,
                &game_state.player,
            ),
            active_events: Vec::new(),
            statistics: statistics_info,
            turn_number: game_state.turn_number,
        },
    )
}

/// What becomes of a request to fly in a game played alone.
pub enum SoloTravelDecision {
    /// The game knows no airport of that id.
    NoDestination,
    /// The game knows no airport where the player is.
    NoCurrentAirport,
    /// The game knows no distance between the two airports.
    NoRoute,
    /// The tank holds less than the flight takes.
    ShortOfFuel,
    /// The destination has no market.
    NoMarket,
    /// The player flies.
    Fly,
}

/// The distance from where the player of a game is to a destination, where
/// the game knows it.
pub open spec fn solo_distance(game: GameState, destination: Seq<char>) -> Option<u64> {
    distance_between(game.distance_cache@, game.player.current_airport@, destination)
}

/// The fuel that a flight to a destination takes in a game.
pub open spec fn solo_fuel(game: GameState, destination: Seq<char>) -> u32 {
    fuel_needed(solo_distance(game, destination)->0 as nat, game.player.fuel_efficiency as nat)
}

/// Decides a request to fly in a game played alone.
pub open spec fn solo_travel_decision(game: GameState, destination: Seq<char>) -> SoloTravelDecision {
    if airport_index(game.airports@, destination) < 0 {
        SoloTravelDecision::NoDestination
    } else if airport_index(game.airports@, game.player.current_airport@) < 0 {
        SoloTravelDecision::NoCurrentAirport
    } else if solo_distance(game, destination) is None {
        SoloTravelDecision::NoRoute
    } else if game.player.fuel < solo_fuel(game, destination) {
        SoloTravelDecision::ShortOfFuel
    } else if market_index(game.markets@, destination) < 0 {
        SoloTravelDecision::NoMarket
    } else {
        SoloTravelDecision::Fly
    }
}

/// A game after a flight: the fuel is burnt, the player is at the
/// destination, and the game has moved on by one turn.
pub open spec fn solo_flown(before: GameState, after: GameState, destination: Seq<char>) -> bool {
    &&& after == (GameState {
        player: after.player,
        turn_number: capped_sum(before.turn_number, 1),
        ..before
    })
    &&& after.player == (Player {
        fuel: (before.player.fuel - solo_fuel(before, destination)) as u32,
        current_airport: after.player.current_airport,
        ..before.player
    })
    &&& after.player.current_airport@ == destination
}

/// What becomes of a request to trade in a game played alone.
pub enum SoloTradeDecision {
    /// The game has no market where the player is.
    NoMarket,
    /// The market has no price for that kind of cargo.
    NotTraded,
    /// The player's money does not cover the purchase.
    Unaffordable,
    /// The game knows no such kind of cargo.
    InvalidCargo,
    /// The hold cannot take the weight of the purchase.
    TooHeavy,
    /// The player holds fewer units than are to be sold.
    NotHeld,
    /// The game knows no airport where the player is.
    NoCurrentAirport,
    /// The player buys.
    Buy,
    /// The player sells.
    Sell,
}

/// What a trade comes to in a game: the price of the cargo where the
/// player is, times the quantity.
pub open spec fn solo_amount(game: GameState, cargo_type: Seq<char>, quantity: u32) -> nat {
    (game.markets[market_index(game.markets@, game.player.current_airport@)].cargo_prices@[cargo_type]
        * quantity) as nat
}

/// Decides a request to trade in a game played alone.
pub open spec fn solo_trade_decision(
    game: GameState,
    cargo_type: Seq<char>,
    quantity: u32,
    action: TradeAction,
) -> SoloTradeDecision {
    let m = market_index(game.markets@, game.player.current_airport@);
    let c = cargo_type_index(game.cargo_types@, cargo_type);
    let no_airport = airport_index(game.airports@, game.player.current_airport@) < 0;
    if m < 0 {
        SoloTradeDecision::NoMarket
    } else if !game.markets[m].cargo_prices@.contains_key(cargo_type) {
        SoloTradeDecision::NotTraded
    } else {
        match action {
            TradeAction::Buy => if solo_amount(game, cargo_type, quantity) > game.player.money {
                SoloTradeDecision::Unaffordable
            } else if c < 0 {
                SoloTradeDecision::InvalidCargo
            } else if cargo_weight(game.player.cargo_inventory@, game.cargo_types@)
                + game.cargo_types[c].weight_per_unit * quantity > game.player.max_cargo_weight {
                SoloTradeDecision::TooHeavy
            } else if no_airport {
                SoloTradeDecision::NoCurrentAirport
            } else {
                SoloTradeDecision::Buy
            },
            TradeAction::Sell => if amount_in(game.player.cargo_inventory@, cargo_type) < quantity {
                SoloTradeDecision::NotHeld
            } else if no_airport {
                SoloTradeDecision::NoCurrentAirport
            } else {
                SoloTradeDecision::Sell
            },
        }
    }
}

/// What a player is told after a purchase in a game played alone.
pub open spec fn solo_bought_text(quantity: u32, cargo_type: Seq<char>) -> Seq<char> {
    "Successfully Buyed "@ + decimal(quantity as nat) + " units of "@ + cargo_type
}

/// What a player is told after a sale in a game played alone.
pub open spec fn solo_sold_text(quantity: u32, cargo_type: Seq<char>) -> Seq<char> {
    "Successfully Selled "@ + decimal(quantity as nat) + " units of "@ + cargo_type
}

/// A game after a purchase of cargo.
pub open spec fn solo_bought(before: GameState, after: GameState, cargo_type: Seq<char>, quantity: u32) -> bool {
    &&& after == (GameState { player: after.player, ..before })
    &&& after.player == (Player {
        money: (before.player.money - solo_amount(before, cargo_type, quantity)) as u32,
        cargo_inventory: after.player.cargo_inventory,
        ..before.player
    })
    &&& after.player.cargo_inventory@ == before.player.cargo_inventory@.insert(
        cargo_type,
        capped_sum(amount_in(before.player.cargo_inventory@, cargo_type), quantity),
    )
}

/// A game after a sale of cargo. The proceeds, and the purse that takes
/// them, stop at the largest amount.
pub open spec fn solo_sold(before: GameState, after: GameState, cargo_type: Seq<char>, quantity: u32) -> bool {
    &&& after == (GameState { player: after.player, ..before })
    &&& after.player == (Player {
        money: capped_sum(
            before.player.money,
            capped(solo_amount(before, cargo_type, quantity)),
        ),
        cargo_inventory: after.player.cargo_inventory,
        ..before.player
    })
    &&& after.player.cargo_inventory@ == hold_after_sale(
        before.player.cargo_inventory@,
        cargo_type,
        quantity,
    )
}

/// What becomes of a request to buy fuel in a game played alone.
pub enum SoloFuelDecision {
    /// The game has no market where the player is.
    NoMarket,
    /// The player's money does not cover the purchase.
    Unaffordable,
    /// The tank has room for fewer units than are asked for.
    TankTooSmall,
    /// The game knows no airport where the player is.
    NoCurrentAirport,
    /// The player buys.
    Buy,
}

/// What a purchase of fuel costs in a game.
pub open spec fn solo_fuel_cost(game: GameState, quantity: u32) -> nat {
    (game.markets[market_index(game.markets@, game.player.current_airport@)].fuel_price
        * quantity) as nat
}

/// Decides a request to buy fuel in a game played alone.
pub open spec fn solo_fuel_decision(game: GameState, quantity: u32) -> SoloFuelDecision {
    if market_index(game.markets@, game.player.current_airport@) < 0 {
        SoloFuelDecision::NoMarket
    } else if solo_fuel_cost(game, quantity) > game.player.money {
        SoloFuelDecision::Unaffordable
    } else if quantity > tank_space(game.player) {
        SoloFuelDecision::TankTooSmall
    } else if airport_index(game.airports@, game.player.current_airport@) < 0 {
        SoloFuelDecision::NoCurrentAirport
    } else {
        SoloFuelDecision::Buy
    }
}

/// A game after a purchase of fuel.
pub open spec fn solo_fueled(before: GameState, after: GameState, quantity: u32) -> bool {
    after == (GameState {
        player: Player {
            money: (before.player.money - solo_fuel_cost(before, quantity)) as u32,
            fuel: fuel_after_adding(before.player.fuel, quantity, before.player.max_fuel),
            ..before.player
        },
        ..before
    })
}

/// Whether a game is one that the service has just begun: cargo, airports
/// and distances are those of the game, every airport has a market priced
/// by chance, and the player stands at the airport asked for with the money
/// asked for and all else that a player starts with.
pub open spec fn is_begun_game(game: GameState, starting_money: u32, starting_airport: Seq<char>) -> bool {
    &&& are_default_airports(game.airports@)
    &&& are_default_cargo_types(game.cargo_types@)
    &&& are_default_distances(game.distance_cache@)
    &&& game.player.money == starting_money
    &&& is_starting_player(Player { money: STARTING_MONEY, ..game.player }, starting_airport)
    &&& game.turn_number == 1
    &&& !game.cheat_mode
    &&& game.stats.has_no_records(5000)
    &&& game.stats.airports_visited@.len() == 1
    &&& game.stats.airports_visited[0]@ == "ORD"@
    &&& game.win_condition_money == 100000
    &&& game.active_events@ == Seq::<MarketEvent>::empty()
    &&& game.message_board.posts() == Seq::<Message>::empty()
    &&& game.message_board.capacity() == GAME_BOARD_CAPACITY
    &&& game.markets@.len() == game.airports@.len()
    &&& forall|i: int|
        0 <= i < game.markets@.len() ==> (#[trigger] game.markets[i]).airport_id@
            == game.airports[i].id@ && is_fuel_price(game.markets[i].fuel_price, game.airports[i])
            && are_market_prices(game.markets[i].cargo_prices@, game.airports[i], game.cargo_types@)
}

/// The money asked for, or what every player starts with.
pub open spec fn money_asked(starting_money: Option<u32>) -> u32 {
    match starting_money {
        Some(money) => money,
        None => STARTING_MONEY,
    }
}

/// How the service and the answer stand after a request for a new game: a
/// game that cannot be shown is not kept.
pub open spec fn game_created(
    before: GameService,
    after: GameService,
    session_id: u128,
    request: CreateGameRequest,
    result: Result<CreateGameResponse, String>,
) -> bool {
    exists|game: GameState| #[trigger]
        is_begun_game(
            game,
            money_asked(request.starting_money),
            airport_or_default(request.starting_airport),
        ) && match show_error(game) {
            Some(reason) => after.same_as(before) && fails_with(result, reason),
            None => {
                &&& after.games() == with_game(
                    before.games(),
                    StoredGame { session_id, game_state: game },
                )
                &&& with_blank_statistics(before.statistics(), after.statistics(), session_id)
                &&& result is Ok
                &&& result->Ok_0.session_id == session_id
                &&& result->Ok_0.player_name == request.player_name
                &&& is_game_state(result->Ok_0.game_state, game, before.statistics(), session_id)
            },
        }
}

/// How the service and the answer stand after a request that one game
/// takes: a session that has no game turns it down, else that game and the
/// statistics take the step and all other games stay.
pub open spec fn in_game<T>(
    before: GameService,
    after: GameService,
    session_id: u128,
    result: Result<T, String>,
    step: spec_fn(GameState, GameState, Seq<PlayerStatistics>, Seq<PlayerStatistics>) -> bool,
) -> bool {
    let i = game_index(before.games(), session_id);
    if i < 0 {
        after.same_as(before) && fails_with(result, "Game session not found"@)
    } else {
        &&& after.games() == before.games().update(i, after.games()[i])
        &&& after.games()[i].session_id == session_id
        &&& step(
            before.games()[i].game_state,
            after.games()[i].game_state,
            before.statistics(),
            after.statistics(),
        )
    }
}

/// The step of a game in which its player asks to fly.
pub open spec fn solo_travels(
    session_id: u128,
    destination: Seq<char>,
    result: Result<TravelResponse, String>,
) -> spec_fn(GameState, GameState, Seq<PlayerStatistics>, Seq<PlayerStatistics>) -> bool {
    |before: GameState, after: GameState, kept: Seq<PlayerStatistics>, now_kept: Seq<PlayerStatistics>|
        match solo_travel_decision(before, destination) {
            SoloTravelDecision::NoDestination => after == before && now_kept == kept && fails_with(
                result,
                "Destination airport not found"@,
            ),
            SoloTravelDecision::NoCurrentAirport => after == before && now_kept == kept
                && fails_with(result, "Current airport not found"@),
            SoloTravelDecision::NoRoute => after == before && now_kept == kept && fails_with(
                result,
                "No route to destination"@,
            ),
            SoloTravelDecision::NoMarket => after == before && now_kept == kept && fails_with(
                result,
                "Current market not found"@,
            ),
            SoloTravelDecision::ShortOfFuel => {
                &&& after == before
                &&& now_kept == kept
                &&& result is Ok
                &&& !result->Ok_0.success
                &&& result->Ok_0.message@ == insufficient_fuel_text(
                    solo_fuel(before, destination),
                    before.player.fuel,
                )
                &&& result->Ok_0.fuel_consumed is None
                &&& result->Ok_0.new_location is None
                &&& result->Ok_0.game_state is None
            },
            SoloTravelDecision::Fly => {
                &&& solo_flown(before, after, destination)
                &&& statistics_changed(
                    kept,
                    now_kept,
                    session_id,
                    |b: GameStatistics, a: GameStatistics|
                        a.is_after_travel(b, destination, solo_distance(before, destination)->0),
                )
                &&& result is Ok
                &&& result->Ok_0.success
                &&& result->Ok_0.message@ == traveled_text(
                    before.airports[airport_index(before.airports@, destination)].name@,
                    destination,
                )
                &&& result->Ok_0.fuel_consumed == Some(solo_fuel(before, destination))
                &&& result->Ok_0.new_location is Some
                &&& result->Ok_0.new_location->0@ == destination
                &&& shows_game(result->Ok_0.game_state, after, now_kept, session_id)
            },
        }
}

/// Whether a response turns a trade down for a reason.
pub open spec fn is_solo_trade_refusal(response: TradeResponse, reason: Seq<char>) -> bool {
    &&& !response.success
    &&& response.message@ == reason
    &&& response.transaction_amount is None
    &&& response.new_money is None
    &&& response.new_inventory is None
    &&& response.game_state is None
}

/// Whether a response reports a trade that was made.
pub open spec fn is_solo_trade_report(
    response: TradeResponse,
    message: Seq<char>,
    amount: u32,
    game: GameState,
    kept: Seq<PlayerStatistics>,
    session_id: u128,
) -> bool {
    &&& response.success
    &&& response.message@ == message
    &&& response.transaction_amount == Some(amount)
    &&& response.new_money == Some(game.player.money)
    &&& response.new_inventory is Some
    &&& response.new_inventory->0@ == inventory_report(game.player.cargo_inventory@)
    &&& shows_game(response.game_state, game, kept, session_id)
}

/// The step of a game in which its player asks to trade.
pub open spec fn solo_trades(
    session_id: u128,
    request: TradeRequest,
    result: Result<TradeResponse, String>,
) -> spec_fn(GameState, GameState, Seq<PlayerStatistics>, Seq<PlayerStatistics>) -> bool {
    |before: GameState, after: GameState, kept: Seq<PlayerStatistics>, now_kept: Seq<PlayerStatistics>|
        {
            let cargo = request.cargo_type@;
            let quantity = request.quantity;
            match solo_trade_decision(before, cargo, quantity, request.action) {
                SoloTradeDecision::NoMarket => after == before && now_kept == kept && fails_with(
                    result,
                    "No market available at current location"@,
                ),
                SoloTradeDecision::NotTraded => after == before && now_kept == kept && fails_with(
                    result,
                    "Cargo type not available at this market"@,
                ),
                SoloTradeDecision::InvalidCargo => after == before && now_kept == kept
                    && fails_with(result, "Invalid cargo type"@),
                SoloTradeDecision::NoCurrentAirport => after == before && now_kept == kept
                    && fails_with(result, "Current airport not found"@),
                SoloTradeDecision::Unaffordable => after == before && now_kept == kept && result
                    is Ok && is_solo_trade_refusal(result->Ok_0, "Insufficient funds"@),
                SoloTradeDecision::TooHeavy => after == before && now_kept == kept && result is Ok
                    && is_solo_trade_refusal(result->Ok_0, "Insufficient cargo capacity"@),
                SoloTradeDecision::NotHeld => after == before && now_kept == kept && result is Ok
                    && is_solo_trade_refusal(result->Ok_0, "Insufficient cargo to sell"@),
                SoloTradeDecision::Buy => {
                    &&& solo_bought(before, after, cargo, quantity)
                    &&& statistics_changed(
                        kept,
                        now_kept,
                        session_id,
                        |b: GameStatistics, a: GameStatistics|
                            a == b.with_cargo_purchase(solo_amount(before, cargo, quantity) as u32),
                    )
                    &&& result is Ok
                    &&& is_solo_trade_report(
                        result->Ok_0,
                        solo_bought_text(quantity, cargo),
                        solo_amount(before, cargo, quantity) as u32,
                        after,
                        now_kept,
                        session_id,
                    )
                },
                SoloTradeDecision::Sell => {
                    &&& solo_sold(before, after, cargo, quantity)
                    &&& statistics_changed(
                        kept,
                        now_kept,
                        session_id,
                        |b: GameStatistics, a: GameStatistics|
                            a.is_after_sale(b, cargo, capped(solo_amount(before, cargo, quantity))),
                    )
                    &&& result is Ok
                    &&& is_solo_trade_report(
                        result->Ok_0,
                        solo_sold_text(quantity, cargo),
                        capped(solo_amount(before, cargo, quantity)),
                        after,
                        now_kept,
                        session_id,
                    )
                },
            }
        }
}

/// Whether a response turns a purchase of fuel down for a reason.
pub open spec fn is_solo_fuel_refusal(response: FuelResponse, reason: Seq<char>) -> bool {
    &&& !response.success
    &&& response.message@ == reason
    &&& response.cost is None
    &&& response.new_fuel is None
    &&& response.new_money is None
    &&& response.game_state is None
}

/// The step of a game in which its player asks for fuel.
pub open spec fn solo_refuels(
    session_id: u128,
    request: FuelRequest,
    result: Result<FuelResponse, String>,
) -> spec_fn(GameState, GameState, Seq<PlayerStatistics>, Seq<PlayerStatistics>) -> bool {
    |before: GameState, after: GameState, kept: Seq<PlayerStatistics>, now_kept: Seq<PlayerStatistics>|
        {
            let quantity = request.quantity;
            match solo_fuel_decision(before, quantity) {
                SoloFuelDecision::NoMarket => after == before && now_kept == kept && fails_with(
                    result,
                    "No market available at current location"@,
                ),
                SoloFuelDecision::NoCurrentAirport => after == before && now_kept == kept
                    && fails_with(result, "Current airport not found"@),
                SoloFuelDecision::Unaffordable => after == before && now_kept == kept && result
                    is Ok && is_solo_fuel_refusal(
                    result->Ok_0,
                    "Insufficient funds for fuel purchase"@,
                ),
                SoloFuelDecision::TankTooSmall => after == before && now_kept == kept && result
                    is Ok && is_solo_fuel_refusal(
                    result->Ok_0,
                    tank_text(tank_space(before.player)),
                ),
                SoloFuelDecision::Buy => {
                    &&& solo_fueled(before, after, quantity)
                    &&& statistics_changed(
                        kept,
                        now_kept,
                        session_id,
                        |b: GameStatistics, a: GameStatistics|
                            a == b.with_fuel_purchase(quantity, solo_fuel_cost(before, quantity) as u32),
                    )
                    &&& result is Ok
                    &&& result->Ok_0.success
                    &&& result->Ok_0.message@ == fueled_text(
                        quantity,
                        solo_fuel_cost(before, quantity) as u32,
                    )
                    &&& result->Ok_0.cost == Some(solo_fuel_cost(before, quantity) as u32)
                    &&& result->Ok_0.new_fuel == Some(after.player.fuel)
                    &&& result->Ok_0.new_money == Some(after.player.money)
                    &&& shows_game(result->Ok_0.game_state, after, now_kept, session_id)
                },
            }
        }
}

fn solo_trade_refusal(reason: &str) -> (r: TradeResponse)
    ensures
        is_solo_trade_refusal(r, reason@),
{
    TradeResponse {
        success: false,
        message: reason.to_string(),
        transaction_amount: None,
        new_money: None,
        new_inventory: None,
        game_state: None,
    }
}

fn solo_fuel_refusal(reason: String) -> (r: FuelResponse)
    ensures
        is_solo_fuel_refusal(r, reason@),
{
    FuelResponse {
        success: false,
        message: reason,
        cost: None,
        new_fuel: None,
        new_money: None,
        game_state: None,
    }
}

impl Default for GameService {
    fn default() -> (r: Self)
        ensures
            r.games() == Seq::<StoredGame>::empty(),
            r.statistics() == Seq::<PlayerStatistics>::empty(),
    {
        Self::new()
    }
}

impl GameService {
    /// The games under way, in the order they were begun.
    pub closed spec fn games(self) -> Seq<StoredGame> {
        self.sessions@
    }

    /// The statistics kept, by session.
    pub closed spec fn statistics(self) -> Seq<PlayerStatistics> {
        self.statistics@
    }

    /// Whether two services hold the same games and statistics.
    pub open spec fn same_as(self, other: GameService) -> bool {
        self.games() == other.games() && self.statistics() == other.statistics()
    }

    /// A service with no game under way.
    pub fn new() -> (r: Self)
        ensures
            r.games() == Seq::<StoredGame>::empty(),
            r.statistics() == Seq::<PlayerStatistics>::empty(),
    {
        GameService { sessions: Vec::new(), statistics: Vec::new() }
    }

    /// The games under way.
    pub fn all_games(&self) -> (r: &Vec<StoredGame>)
        ensures
            r@ == self.games(),
    {
        &self.sessions
    }

    /// The statistics kept.
    pub fn all_statistics(&self) -> (r: &Vec<PlayerStatistics>)
        ensures
            r@ == self.statistics(),
    {
        &self.statistics
    }

    fn game_position(&self, session_id: u128) -> (r: Option<usize>)
        ensures
            match r {
                Some(i) => i == game_index(self.sessions@, session_id) && i < self.sessions@.len()
                    && self.sessions[i as int].session_id == session_id,
                None => game_index(self.sessions@, session_id) < 0,
            },
    {
        let mut i: usize = 0;
        while i < self.sessions.len()
            invariant
                i <= self.sessions.len(),
                forall|j: int| 0 <= j < i ==> !is_game_of(session_id)(#[trigger] self.sessions[j]),
            decreases self.sessions.len() - i,
        {
            if self.sessions[i].session_id == session_id {
                proof {
                    lemma_first_where_at(self.sessions@, is_game_of(session_id), i as int);
                }
                return Some(i);
            }
            i += 1;
        }
        proof {
            lemma_first_where_none(self.sessions@, is_game_of(session_id));
        }
        None
    }

    /// The game of a session, to be changed in place.
    pub fn get_game_mut(&mut self, session_id: u128) -> (r: Option<&mut GameState>)
        ensures
            final(self).statistics() == old(self).statistics(),
            match r {
                Some(game) => {
                    let i = game_index(old(self).games(), session_id);
                    &&& i >= 0
                    &&& *game == old(self).games()[i].game_state
                    &&& final(self).games() == old(self).games().update(
                        i,
                        StoredGame { session_id, game_state: *final(game) },
                    )
                },
                None => game_index(old(self).games(), session_id) < 0 && final(self).games()
                    == old(self).games(),
            },
    {
        match self.game_position(session_id) {
            Some(i) => Some(&mut self.sessions[i].game_state),
            None => None,
        }
    }

    /// Begins a game under a given id: with the airports, cargo and
    /// distances of the game, markets priced by chance, and a player who
    /// has the money and stands at the airport asked for, or 5000 at JFK.
    pub fn create_game_with(&mut self, session_id: u128, request: CreateGameRequest) -> (r: Result<
        CreateGameResponse,
        String,
    >)
        ensures
            game_created(*old(self), *final(self), session_id, request, r),
    {
        let starting_money = match request.starting_money {
            Some(money) => money,
            None => STARTING_MONEY,
        };
        let mut game_state = GameState::new(
            get_default_airports(),
            get_default_cargo_types(),
            get_default_distances(),
        );
        game_state.player = match &request.starting_airport {
            Some(airport) => Player::new(
                starting_money,
                airport.as_str(),
                STARTING_MAX_FUEL,
                STARTING_MAX_CARGO_WEIGHT,
                STARTING_FUEL_EFFICIENCY,
            ),
            None => Player::new(
                starting_money,
                "JFK",
                STARTING_MAX_FUEL,
                STARTING_MAX_CARGO_WEIGHT,
                STARTING_FUEL_EFFICIENCY,
            ),
        };
        let ghost game = game_state;
        proof {
            reveal_strlit("ORD");
            assert(is_begun_game(
                game,
                money_asked(request.starting_money),
                airport_or_default(request.starting_airport),
            ));
        }
        let game_state_response = match build_game_state_response(
            &game_state,
            &self.statistics,
            session_id,
        ) {
            Ok(response) => response,
            Err(reason) => {
                return Err(reason);
            },
        };
        match self.game_position(session_id) {
            Some(i) => {
                self.sessions[i] = StoredGame { session_id, game_state };
            },
            None => {
                self.sessions.push(StoredGame { session_id, game_state });
            },
        }
        match position_of_statistics(&self.statistics, session_id) {
            Some(j) => {
                self.statistics[j] = PlayerStatistics {
                    player_id: session_id,
                    statistics: GameStatistics::new(),
                };
            },
            None => {
                self.statistics.push(
                    PlayerStatistics { player_id: session_id, statistics: GameStatistics::new() },
                );
            },
        }
        Ok(
            CreateGameResponse {
                session_id,
                player_name: request.player_name,
                game_state: game_state_response,
            },
        )
    }

    /// Begins a game under a new id.
    pub fn create_game(&mut self, request: CreateGameRequest) -> (r: Result<
        CreateGameResponse,
        String,
    >)
        ensures
            exists|session_id: u128|
                #[trigger] game_created(*old(self), *final(self), session_id, request, r),
    {
        let session_id = fresh_id();
        self.create_game_with(session_id, request)
    }

    /// Shows the game of a session.
    pub fn get_game_state(&self, session_id: u128) -> (r: Result<GameStateResponse, String>)
        ensures
            game_index(self.games(), session_id) < 0 ==> fails_with(r, "Game session not found"@),
            game_index(self.games(), session_id) >= 0 ==> game_shown(
                self.games()[game_index(self.games(), session_id)].game_state,
                self.statistics(),
                session_id,
                r,
            ),
    {
        match self.game_position(session_id) {
            Some(i) => build_game_state_response(
                &self.sessions[i].game_state,
                &self.statistics,
                session_id,
            ),
            None => Err("Game session not found".to_string()),
        }
    }

    /// Flies the player of a game to a destination, if the game knows the
    /// way, the tank holds the fuel and the destination has a market: the
    /// fuel is burnt, the flight is recorded and the game moves on by one
    /// turn.
    pub fn travel(&mut self, session_id: u128, request: TravelRequest) -> (r: Result<
        TravelResponse,
        String,
    >)
        ensures
            in_game(
                *old(self),
                *final(self),
                session_id,
                r,
                solo_travels(session_id, request.destination@, r),
            ),
    {
        let at = match self.game_position(session_id) {
            Some(i) => i,
            None => {
                return Err("Game session not found".to_string());
            },
        };
        proof {
            assert(self.sessions@ =~= self.sessions@.update(at as int, self.sessions[at as int]));
        }
        let destination_name = match find_airport(
            &self.sessions[at].game_state.airports,
            request.destination.as_str(),
        ) {
            Some(airport) => airport.name.clone(),
            None => {
                return Err("Destination airport not found".to_string());
            },
        };
        if find_airport(
            &self.sessions[at].game_state.airports,
            self.sessions[at].game_state.player.current_airport.as_str(),
        ).is_none() {
            return Err("Current airport not found".to_string());
        }
        let distance = match find_distance(
            &self.sessions[at].game_state.distance_cache,
            self.sessions[at].game_state.player.current_airport.as_str(),
            request.destination.as_str(),
        ) {
            Some(d) => d,
            None => {
                return Err("No route to destination".to_string());
            },
        };
        let fuel_required = self.sessions[at].game_state.player.fuel_needed_for_distance(distance);
        if !self.sessions[at].game_state.player.can_travel_distance(distance) {
            let mut message = "Insufficient fuel. Need ".to_string();
            message.append(decimal_string(fuel_required as u64).as_str());
            message.append(" units, have ");
            message.append(
                decimal_string(self.sessions[at].game_state.player.fuel as u64).as_str(),
            );
            return Ok(
                TravelResponse {
                    success: false,
                    message,
                    fuel_consumed: None,
                    new_location: None,
                    game_state: None,
                },
            );
        }
        if find_market(&self.sessions[at].game_state.markets, request.destination.as_str()).is_none() {
            return Err("Current market not found".to_string());
        }
        self.sessions[at].game_state.player.consume_fuel(fuel_required);
        self.sessions[at].game_state.player.current_airport = request.destination.clone();
        match position_of_statistics(&self.statistics, session_id) {
            Some(j) => {
                self.statistics[j].statistics.record_travel(request.destination.as_str(), distance);
            },
            None => {},
        }
        self.sessions[at].game_state.turn_number = crate::models::cargo::add_capped(
            self.sessions[at].game_state.turn_number,
            1,
        );
        proof {
            assert(self.sessions@ =~= old(self).sessions@.update(at as int, self.sessions[at as int]));
            let j = statistics_index(old(self).statistics@, session_id);
            if j >= 0 {
                assert(self.statistics@ =~= old(self).statistics@.update(j, self.statistics[j]));
            }
        }
        let new_game_state = match build_game_state_response(
            &self.sessions[at].game_state,
            &self.statistics,
            session_id,
        ) {
            Ok(response) => response,
            Err(reason) => {
                return Err(reason);
            },
        };
        let mut message = "Traveled to ".to_string();
        message.append(destination_name.as_str());
        message.append(" (");
        message.append(request.destination.as_str());
        message.append(")");
        Ok(
            TravelResponse {
                success: true,
                message,
                fuel_consumed: Some(fuel_required),
                new_location: Some(request.destination),
                game_state: Some(new_game_state),
            },
        )
    }

    /// Makes a trade for the player of a game, if the game's rules allow
    /// it, and records it.
    pub fn trade(&mut self, session_id: u128, request: TradeRequest) -> (r: Result<
        TradeResponse,
        String,
    >)
        ensures
            in_game(*old(self), *final(self), session_id, r, solo_trades(session_id, request, r)),
    {
        let at = match self.game_position(session_id) {
            Some(i) => i,
            None => {
                return Err("Game session not found".to_string());
            },
        };
        proof {
            assert(self.sessions@ =~= self.sessions@.update(at as int, self.sessions[at as int]));
        }
        let cargo_price = match self.sessions[at].game_state.get_current_market() {
            Some(market) => match market.get_cargo_price(request.cargo_type.as_str()) {
                Some(price) => price,
                None => {
                    return Err("Cargo type not available at this market".to_string());
                },
            },
            None => {
                return Err("No market available at current location".to_string());
            },
        };
        let has_airport = self.sessions[at].game_state.get_current_airport().is_some();
        let transaction_amount: u64 = times(cargo_price, request.quantity);
        let amount: u32;
        let lead: &str;
        match request.action {
            TradeAction::Buy => {
                if transaction_amount > self.sessions[at].game_state.player.money as u64 {
                    return Ok(solo_trade_refusal("Insufficient funds"));
                }
                let weight_per_unit = match find_cargo_type(
                    &self.sessions[at].game_state.cargo_types,
                    request.cargo_type.as_str(),
                ) {
                    Some(cargo_type) => cargo_type.weight_per_unit,
                    None => {
                        return Err("Invalid cargo type".to_string());
                    },
                };
                let additional_weight: u64 = times(weight_per_unit, request.quantity);
                let current_weight = self.sessions[at].game_state.player.cargo_inventory.exact_weight(
                    &self.sessions[at].game_state.cargo_types,
                );
                let max_weight = self.sessions[at].game_state.player.max_cargo_weight;
                if current_weight > max_weight as u128 || additional_weight > max_weight as u64
                    || current_weight + additional_weight as u128 > max_weight as u128 {
                    return Ok(solo_trade_refusal("Insufficient cargo capacity"));
                }
                if !has_airport {
                    return Err("Current airport not found".to_string());
                }
                amount = transaction_amount as u32;
                lead = "Successfully Buyed ";
                self.sessions[at].game_state.player.spend_money(amount);
                self.sessions[at].game_state.player.cargo_inventory.add_cargo(
                    request.cargo_type.as_str(),
                    request.quantity,
                );
                match position_of_statistics(&self.statistics, session_id) {
                    Some(j) => {
                        self.statistics[j].statistics.record_cargo_purchase(amount);
                    },
                    None => {},
                }
            },
            TradeAction::Sell => {
                if self.sessions[at].game_state.player.cargo_inventory.get_quantity(
                    request.cargo_type.as_str(),
                ) < request.quantity {
                    return Ok(solo_trade_refusal("Insufficient cargo to sell"));
                }
                if !has_airport {
                    return Err("Current airport not found".to_string());
                }
                amount = if transaction_amount > u32::MAX as u64 {
                    u32::MAX
                } else {
                    transaction_amount as u32
                };
                lead = "Successfully Selled ";
                self.sessions[at].game_state.player.cargo_inventory.remove_cargo(
                    request.cargo_type.as_str(),
                    request.quantity,
                );
                self.sessions[at].game_state.player.earn_money(amount);
                match position_of_statistics(&self.statistics, session_id) {
                    Some(j) => {
                        self.statistics[j].statistics.record_sale(
                            request.cargo_type.as_str(),
                            amount,
                        );
                    },
                    None => {},
                }
            },
        }
        proof {
            assert(self.sessions@ =~= old(self).sessions@.update(at as int, self.sessions[at as int]));
            let j = statistics_index(old(self).statistics@, session_id);
            if j >= 0 {
                assert(self.statistics@ =~= old(self).statistics@.update(j, self.statistics[j]));
            }
        }
        let new_inventory = build_inventory_map(&self.sessions[at].game_state.player);
        let new_game_state = match build_game_state_response(
            &self.sessions[at].game_state,
            &self.statistics,
            session_id,
        ) {
            Ok(response) => response,
            Err(reason) => {
                return Err(reason);
            },
        };
        let mut message = lead.to_string();
        message.append(decimal_string(request.quantity as u64).as_str());
        message.append(" units of ");
        message.append(request.cargo_type.as_str());
        Ok(
            TradeResponse {
                success: true,
                message,
                transaction_amount: Some(amount),
                new_money: Some(self.sessions[at].game_state.player.money),
                new_inventory: Some(new_inventory),
                game_state: Some(new_game_state),
            },
        )
    }

    /// Buys fuel for the player of a game, if the player's money covers it
    /// and the tank has room for all of it, and records the purchase.
    pub fn buy_fuel(&mut self, session_id: u128, request: FuelRequest) -> (r: Result<
        FuelResponse,
        String,
    >)
        ensures
            in_game(*old(self), *final(self), session_id, r, solo_refuels(session_id, request, r)),
    {
        let at = match self.game_position(session_id) {
            Some(i) => i,
            None => {
                return Err("Game session not found".to_string());
            },
        };
        proof {
            assert(self.sessions@ =~= self.sessions@.update(at as int, self.sessions[at as int]));
        }
        let fuel_price = match self.sessions[at].game_state.get_current_market() {
            Some(market) => market.fuel_price,
            None => {
                return Err("No market available at current location".to_string());
            },
        };
        let fuel_cost: u64 = times(fuel_price, request.quantity);
        if fuel_cost > self.sessions[at].game_state.player.money as u64 {
            return Ok(solo_fuel_refusal("Insufficient funds for fuel purchase".to_string()));
        }
        let space_available = self.sessions[at].game_state.player.max_fuel.saturating_sub(
            self.sessions[at].game_state.player.fuel,
        );
        if request.quantity > space_available {
            let mut message = "Fuel tank can only hold ".to_string();
            message.append(decimal_string(space_available as u64).as_str());
            message.append(" more units");
            return Ok(solo_fuel_refusal(message));
        }
        if self.sessions[at].game_state.get_current_airport().is_none() {
            return Err("Current airport not found".to_string());
        }
        let cost = fuel_cost as u32;
        self.sessions[at].game_state.player.spend_money(cost);
        self.sessions[at].game_state.player.add_fuel(request.quantity);
        match position_of_statistics(&self.statistics, session_id) {
            Some(j) => {
                self.statistics[j].statistics.record_fuel_purchase(request.quantity, cost);
            },
            None => {},
        }
        proof {
            assert(self.sessions@ =~= old(self).sessions@.update(at as int, self.sessions[at as int]));
            let j = statistics_index(old(self).statistics@, session_id);
            if j >= 0 {
                assert(self.statistics@ =~= old(self).statistics@.update(j, self.statistics[j]));
            }
        }
        let new_game_state = match build_game_state_response(
            &self.sessions[at].game_state,
            &self.statistics,
            session_id,
        ) {
            Ok(response) => response,
            Err(reason) => {
                return Err(reason);
            },
        };
        let mut message = "Purchased ".to_string();
        message.append(decimal_string(request.quantity as u64).as_str());
        message.append(" units of fuel for $");
        message.append(decimal_string(cost as u64).as_str());
        Ok(
            FuelResponse {
                success: true,
                message,
                cost: Some(cost),
                new_fuel: Some(self.sessions[at].game_state.player.fuel),
                new_money: Some(self.sessions[at].game_state.player.money),
                game_state: Some(new_game_state),
            },
        )
    }
}

} // verus!

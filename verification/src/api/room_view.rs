//! What a player sees of a room: the room itself, the players who are
//! online, the market at hand, the airports within reach of a flight plan,
//! and the player's own statistics.

use vstd::prelude::*;
use crate::api::models::{
    DestinationInfo, MarketInfo, MultiplayerGameStateResponse, PlayerInfo, RoomInfo,
    StatisticsInfo,
};
use crate::api::room_actions::{build_inventory_map, fails_with, inventory_report};
use crate::models::airport::{
    airport_index, clone_names, distance_between, find_airport, find_distance, Airport, Route,
};
use crate::models::cargo::{capped, cargo_weight};
use crate::models::market::{find_market, market_index, Market};
use crate::models::player::{fuel_needed, Player};
use crate::search::{
    keep_where, lemma_keep_where_step, lemma_pairwise_push, pairwise,
};
use crate::systems::events::GameStatistics;
use crate::systems::multiplayer::{
    is_online, online_count, player_index, statistics_index, GameRoom, PlayerGameState,
    ROOM_FUEL_PRICE,
};

verus! {

/// The name of a room's host: that of the player who is the host, or
/// "Unknown" where no player is.
pub open spec fn host_name(room: GameRoom) -> Seq<char> {
    let h = player_index(room.players@, room.host_player_id);
    if h >= 0 {
        room.players[h].player_name@
    } else {
        "Unknown"@
    }
}

/// Whether a summary shows a room. The two counts are given in 32 bits, of
/// which larger counts keep the low 32.
pub open spec fn is_room_info(info: RoomInfo, room: GameRoom) -> bool {
    &&& info.id == room.id
    &&& info.name == room.name
    &&& info.host_player_name@ == host_name(room)
    &&& info.current_players == online_count(room.players@) as u32
    &&& info.max_players == room.max_players as u32
    &&& info.created_at == room.created_at
    &&& info.game_status == room.game_status
    &&& info.is_joinable == room.joinable()
}

/// Sums a room up.
pub fn room_info(room: &GameRoom) -> (r: RoomInfo)
    ensures
        is_room_info(r, *room),
{
    let host_player_name = match room.get_player(&room.host_player_id) {
        Some(host) => host.player_name.clone(),
        None => "Unknown".to_string(),
    };
    RoomInfo {
        id: room.id,
        name: room.name.clone(),
        host_player_name,
        current_players: #[verifier::truncate]
        (room.online_players() as u32),
        max_players: #[verifier::truncate]
        (room.max_players as u32),
        created_at: room.created_at,
        game_status: room.game_status,
        is_joinable: room.is_joinable(),
    }
}

/// Whether an entry shows a player of a room.
pub open spec fn is_player_info(info: PlayerInfo, state: PlayerGameState, room: GameRoom) -> bool {
    &&& info.id == Some(state.player_id)
    &&& info.name == state.player_name
    &&& info.money == state.player.money
    &&& info.current_airport == state.player.current_airport
    &&& info.fuel == state.player.fuel
    &&& info.max_fuel == state.player.max_fuel
    &&& info.cargo_inventory@ == inventory_report(state.player.cargo_inventory@)
    &&& info.cargo_weight == capped(
        cargo_weight(state.player.cargo_inventory@, room.shared_state.cargo_types@),
    )
    &&& info.max_cargo_weight == state.player.max_cargo_weight
    &&& info.fuel_efficiency == state.player.fuel_efficiency
    &&& info.is_online == Some(state.is_online)
    &&& info.last_seen == Some(state.last_seen)
    &&& info.is_host == Some(state.player_id == room.host_player_id)
}

/// The relation of an entry to the player of a room that it shows.
pub open spec fn shows_player(room: GameRoom) -> spec_fn(PlayerInfo, PlayerGameState) -> bool {
    |info: PlayerInfo, state: PlayerGameState| is_player_info(info, state, room)
}

fn player_info(state: &PlayerGameState, room: &GameRoom) -> (r: PlayerInfo)
    ensures
        is_player_info(r, *state, *room),
{
    PlayerInfo {
        id: Some(state.player_id),
        name: state.player_name.clone(),
        money: state.player.money,
        current_airport: state.player.current_airport.clone(),
        fuel: state.player.fuel,
        max_fuel: state.player.max_fuel,
        cargo_inventory: build_inventory_map(&state.player),
        cargo_weight: state.player.current_cargo_weight(&room.shared_state.cargo_types),
        max_cargo_weight: state.player.max_cargo_weight,
        fuel_efficiency: state.player.fuel_efficiency,
        is_online: Some(state.is_online),
        last_seen: Some(state.last_seen),
        is_host: Some(state.player_id == room.host_player_id),
    }
}

/// The players of a room who are online, in the order they came in.
fn online_player_infos(room: &GameRoom) -> (r: Vec<PlayerInfo>)
    ensures
        pairwise(r@, keep_where(room.players@, is_online()), shows_player(*room)),
{
    let mut infos: Vec<PlayerInfo> = Vec::new();
    let mut i: usize = 0;
    while i < room.players.len()
        invariant
            i <= room.players.len(),
            pairwise(
                infos@,
                keep_where(room.players@.subrange(0, i as int), is_online()),
                shows_player(*room),
            ),
        decreases room.players.len() - i,
    {
        proof {
            lemma_keep_where_step(room.players@, is_online(), i as int);
        }
        if room.players[i].is_online {
            let info = player_info(&room.players[i], room);
            proof {
                lemma_pairwise_push(
                    infos@,
                    keep_where(room.players@.subrange(0, i as int), is_online()),
                    shows_player(*room),
                    info,
                    room.players[i as int],
                );
            }
            infos.push(info);
        }
        i += 1;
    }
    proof {
        assert(room.players@.subrange(0, i as int) =~= room.players@);
    }
    infos
}

/// The condition of being an airport to which a way is known from another
/// airport.
pub open spec fn is_destination_from(routes: Seq<Route>, here: Seq<char>) -> spec_fn(Airport) -> bool {
    |a: Airport| a.id@ != here && distance_between(routes, here, a.id@) is Some
}

/// The price of fuel at an airport of a room: that of its market, or the
/// price that a room's markets open with where it has none.
pub open spec fn fuel_price_at(markets: Seq<Market>, airport_id: Seq<char>) -> u32 {
    let m = market_index(markets, airport_id);
    if m >= 0 {
        markets[m].fuel_price
    } else {
        ROOM_FUEL_PRICE
    }
}

/// Whether an entry shows an airport as a player's destination, by given
/// markets and distances.
pub open spec fn is_destination_info(
    info: DestinationInfo,
    airport: Airport,
    markets: Seq<Market>,
    distances: Seq<Route>,
    player: Player,
) -> bool {
    let distance = distance_between(distances, player.current_airport@, airport.id@)->0;
    let need = fuel_needed(distance as nat, player.fuel_efficiency as nat);
    &&& info.airport_id == airport.id
    &&& info.airport_name == airport.name
    &&& info.distance == distance
    &&& info.fuel_required == need
    &&& info.can_travel == (player.fuel >= need)
    &&& info.fuel_price == fuel_price_at(markets, airport.id@)
}

/// The relation of an entry to the airport that it shows as a player's
/// destination.
pub open spec fn shows_destination(markets: Seq<Market>, distances: Seq<Route>, player: Player) -> spec_fn(
    DestinationInfo,
    Airport,
) -> bool {
    |info: DestinationInfo, airport: Airport|
        is_destination_info(info, airport, markets, distances, player)
}

/// The airports to which a player can plan a flight: all others of a
/// catalog to which the way is known, in the order of the catalog.
pub fn destination_infos(
    airports: &Vec<Airport>,
    markets: &Vec<Market>,
    distances: &Vec<Route>,
    player: &Player,
) -> (r: Vec<DestinationInfo>)
    ensures
        pairwise(
            r@,
            keep_where(airports@, is_destination_from(distances@, player.current_airport@)),
            shows_destination(markets@, distances@, *player),
        ),
{
    let ghost wanted = is_destination_from(distances@, player.current_airport@);
    let mut infos: Vec<DestinationInfo> = Vec::new();
    let mut i: usize = 0;
    while i < airports.len()
        invariant
            i <= airports.len(),
            wanted == is_destination_from(distances@, player.current_airport@),
            pairwise(
                infos@,
                keep_where(airports@.subrange(0, i as int), wanted),
                shows_destination(markets@, distances@, *player),
            ),
        decreases airports.len() - i,
    {
        proof {
            lemma_keep_where_step(airports@, wanted, i as int);
        }
        let airport = &airports[i];
        if !(airport.id == player.current_airport) {
            match find_distance(distances, player.current_airport.as_str(), airport.id.as_str()) {
                Some(distance) => {
                    let fuel_price = match find_market(markets, airport.id.as_str()) {
                        Some(market) => market.fuel_price,
                        None => ROOM_FUEL_PRICE,
                    };
                    let info = DestinationInfo {
                        airport_id: airport.id.clone(),
                        airport_name: airport.name.clone(),
                        distance,
                        fuel_required: player.fuel_needed_for_distance(distance),
                        can_travel: player.can_travel_distance(distance),
                        fuel_price,
                    };
                    proof {
                        lemma_pairwise_push(
                            infos@,
                            keep_where(airports@.subrange(0, i as int), wanted),
                            shows_destination(markets@, distances@, *player),
                            info,
                            airports[i as int],
                        );
                    }
                    infos.push(info);
                },
                None => {},
            }
        }
        i += 1;
    }
    proof {
        assert(airports@.subrange(0, i as int) =~= airports@);
    }
    infos
}

/// Whether an entry shows statistics.
pub open spec fn is_statistics_info(info: StatisticsInfo, statistics: GameStatistics) -> bool {
    &&& info.total_revenue == statistics.total_revenue
    &&& info.total_expenses == statistics.total_expenses
    &&& info.net_profit == statistics.net_profit
    &&& info.cargo_trades == statistics.cargo_trades
    &&& info.fuel_purchased == statistics.fuel_purchased
    &&& info.distances_traveled == statistics.distances_traveled
    &&& info.airports_visited@ == statistics.airports_visited@
    &&& info.best_single_trade == statistics.best_single_trade
    &&& info.most_profitable_cargo == statistics.most_profitable_cargo
    &&& info.efficiency_score == statistics.efficiency_score
}

/// Whether an entry shows statistics in which nothing is recorded.
pub open spec fn is_blank_info(info: StatisticsInfo) -> bool {
    &&& info.total_revenue == 0
    &&& info.total_expenses == 0
    &&& info.net_profit == 0
    &&& info.cargo_trades == 0
    &&& info.fuel_purchased == 0
    &&& info.distances_traveled == 0
    &&& info.airports_visited@ == Seq::<String>::empty()
    &&& info.best_single_trade == 0
    &&& info.most_profitable_cargo@ == Seq::<char>::empty()
    &&& info.efficiency_score == 0
}

impl Default for StatisticsInfo {
    fn default() -> (r: Self)
        ensures
            is_blank_info(r),
    {
        StatisticsInfo {
            total_revenue: 0,
            total_expenses: 0,
            net_profit: 0,
            cargo_trades: 0,
            fuel_purchased: 0,
            distances_traveled: 0,
            airports_visited: Vec::new(),
            best_single_trade: 0,
            most_profitable_cargo: String::new(),
            efficiency_score: 0,
        }
    }
}

/// Whether an entry shows the statistics that a room keeps for a player:
/// those, or blank ones where it keeps none.
pub open spec fn is_statistics_of(info: StatisticsInfo, room: GameRoom, player_id: u128) -> bool {
    let j = statistics_index(room.player_statistics@, player_id);
    if j >= 0 {
        is_statistics_info(info, room.player_statistics[j].statistics)
    } else {
        is_blank_info(info)
    }
}

/// Shows statistics.
pub fn statistics_info_of(statistics: &GameStatistics) -> (r: StatisticsInfo)
    ensures
        is_statistics_info(r, *statistics),
{
    StatisticsInfo {
        total_revenue: statistics.total_revenue,
        total_expenses: statistics.total_expenses,
        net_profit: statistics.net_profit,
        cargo_trades: statistics.cargo_trades,
        fuel_purchased: statistics.fuel_purchased,
        distances_traveled: statistics.distances_traveled,
        airports_visited: clone_names(&statistics.airports_visited),
        best_single_trade: statistics.best_single_trade,
        most_profitable_cargo: statistics.most_profitable_cargo.clone(),
        efficiency_score: statistics.efficiency_score,
    }
}

fn statistics_info(room: &GameRoom, player_id: u128) -> (r: StatisticsInfo)
    ensures
        is_statistics_of(r, *room, player_id),
{
    match room.statistics_position(player_id) {
        Some(j) => statistics_info_of(&room.player_statistics[j].statistics),
        None => StatisticsInfo::default(),
    }
}

/// Shows a market at an airport.
pub fn market_info(market: &Market, airport: &Airport) -> (r: MarketInfo)
    ensures
        is_market_info(r, *market, *airport),
{
    MarketInfo {
        airport_id: market.airport_id.clone(),
        airport_name: airport.name.clone(),
        fuel_price: market.fuel_price,
        cargo_prices: market.cargo_prices.clone(),
        last_updated: market.last_updated,
    }
}

/// Whether an entry shows a market at an airport.
pub open spec fn is_market_info(info: MarketInfo, market: Market, airport: Airport) -> bool {
    &&& info.airport_id == market.airport_id
    &&& info.airport_name == airport.name
    &&& info.fuel_price == market.fuel_price
    &&& info.cargo_prices@ == market.cargo_prices@
    &&& info.last_updated == market.last_updated
}

/// Whether a response shows a room as a player of it sees it.
pub open spec fn is_room_state(
    response: MultiplayerGameStateResponse,
    room: GameRoom,
    player_id: u128,
) -> bool {
    let state = room.players[player_index(room.players@, player_id)];
    let here = state.player.current_airport@;
    &&& is_room_info(response.room_info, room)
    &&& response.my_player_id == player_id
    &&& pairwise(response.players@, keep_where(room.players@, is_online()), shows_player(room))
    &&& is_market_info(
        response.current_market,
        room.shared_state.markets[market_index(room.shared_state.markets@, here)],
        room.shared_state.airports[airport_index(room.shared_state.airports@, here)],
    )
    &&& pairwise(
        response.available_destinations@,
        keep_where(
            room.shared_state.airports@,
            is_destination_from(room.shared_state.distances@, here),
        ),
        shows_destination(
            room.shared_state.markets@,
            room.shared_state.distances@,
            state.player,
        ),
    )
    &&& is_statistics_of(response.statistics, room, player_id)
    &&& response.turn_number == room.shared_state.turn_number
    &&& response.world_time == room.shared_state.world_time
}

/// What a room answers to a player who asks how it stands.
pub open spec fn state_shown(
    room: GameRoom,
    player_id: u128,
    result: Result<MultiplayerGameStateResponse, String>,
) -> bool {
    let p = player_index(room.players@, player_id);
    if p < 0 {
        fails_with(result, "Requesting player not found"@)
    } else if airport_index(room.shared_state.airports@, room.players[p].player.current_airport@)
        < 0 {
        fails_with(result, "Current airport not found"@)
    } else if market_index(room.shared_state.markets@, room.players[p].player.current_airport@)
        < 0 {
        fails_with(result, "Current market not found"@)
    } else {
        result is Ok && is_room_state(result->Ok_0, room, player_id)
    }
}

/// Shows a room to one of its players.
pub fn build_multiplayer_game_state_response(room: &GameRoom, requesting_player_id: u128) -> (r:
    Result<MultiplayerGameStateResponse, String>)
    ensures
        state_shown(*room, requesting_player_id, r),
{
    let state = match room.get_player(&requesting_player_id) {
        Some(state) => state,
        None => {
            return Err("Requesting player not found".to_string());
        },
    };
    let current_airport = match find_airport(
        &room.shared_state.airports,
        state.player.current_airport.as_str(),
    ) {
        Some(airport) => airport,
        None => {
            return Err("Current airport not found".to_string());
        },
    };
    let current_market = match room.get_current_market(state.player.current_airport.as_str()) {
        Some(market) => market,
        None => {
            return Err("Current market not found".to_string());
        },
    };
    Ok(
        MultiplayerGameStateResponse {
            room_info: room_info(room),
            my_player_id: requesting_player_id,
            players: online_player_infos(room),
            current_market: market_info(current_market, current_airport),
            available_destinations: destination_infos(
                &room.shared_state.airports,
                &room.shared_state.markets,
                &room.shared_state.distances,
                &state.player,
            ),
            statistics: statistics_info(room, requesting_player_id),
            turn_number: room.shared_state.turn_number,
            world_time: room.shared_state.world_time,
        },
    )
}

} // verus!

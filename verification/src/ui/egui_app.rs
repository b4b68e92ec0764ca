//! What the window keeps of the game of a room: where the application
//! stands, and the game of the player as the answers of the server show
//! it.

use vstd::prelude::*;
use crate::api::models::{MultiplayerGameStateResponse, PlayerInfo};
use crate::data::airports::{
    are_default_airports, are_default_distances, get_default_airports, get_default_distances,
};
use crate::data::cargo_types::{are_default_cargo_types, get_default_cargo_types};
use crate::models::airport::Airport;
use crate::models::cargo::{CargoInventory, CargoType};
use crate::models::market::Market;
use crate::models::message_board::{Message, MessageBoard};
use crate::models::player::Player;
use crate::models::stats::GameStats;
use crate::search::{first_where, lemma_first_where_at, lemma_first_where_none};
use crate::systems::events::MarketEvent;
use crate::systems::game::{GameState, GAME_BOARD_CAPACITY};
use crate::systems::multiplayer::{base_prices, GameRoom, ROOM_FUEL_PRICE, STARTING_MONEY};
use crate::ui::scenes::room_lobby::GameSession;

verus! {

/// Where the application stands.
#[derive(Debug, Clone)]
pub enum AppState {
    ServerConnection,
    RoomLobby,
    /// In a game, as a player of a room.
    InGame(GameSession),
}

/// The sum of money that wins a game.
pub const WIN_CONDITION_MONEY: u32 = 100000;

/// The condition of being the entry of the player with an id.
pub open spec fn is_entry_of(player_id: u128) -> spec_fn(PlayerInfo) -> bool {
    |info: PlayerInfo| info.id == Some(player_id)
}

/// The position of the entry of the player with an id in a list of
/// players, or -1.
pub open spec fn entry_index(players: Seq<PlayerInfo>, player_id: u128) -> int {
    first_where(players, is_entry_of(player_id))
}

/// Whether a player is the one that an entry shows.
pub open spec fn is_player_shown(player: Player, info: PlayerInfo) -> bool {
    &&& player.money == info.money
    &&& player.current_airport == info.current_airport
    &&& player.fuel == info.fuel
    &&& player.max_fuel == info.max_fuel
    &&& player.cargo_inventory@ == info.cargo_inventory@
    &&& player.max_cargo_weight == info.max_cargo_weight
    &&& player.fuel_efficiency == info.fuel_efficiency
}

/// Whether a market is the one that the window takes to be at an airport:
/// the market that the server shows where that is the airport's, else one
/// with the prices that a room's markets open with.
pub open spec fn is_assumed_market(
    market: Market,
    airport: Airport,
    cargo_types: Seq<CargoType>,
    shown: MultiplayerGameStateResponse,
) -> bool {
    &&& market.airport_id@ == airport.id@
    &&& if airport.id@ == shown.current_market.airport_id@ {
        &&& market.fuel_price == shown.current_market.fuel_price
        &&& market.cargo_prices@ == shown.current_market.cargo_prices@
    } else {
        &&& market.fuel_price == ROOM_FUEL_PRICE
        &&& market.cargo_prices@ == base_prices(cargo_types)
    }
}

/// Whether a game is the one that the window makes of what the server
/// shows of a room to a player.
pub open spec fn is_converted_game(game: GameState, shown: MultiplayerGameStateResponse, player_id: u128) -> bool {
    let info = shown.players[entry_index(shown.players@, player_id)];
    &&& is_player_shown(game.player, info)
    &&& are_default_airports(game.airports@)
    &&& are_default_cargo_types(game.cargo_types@)
    &&& are_default_distances(game.distance_cache@)
    &&& game.markets@.len() == game.airports@.len()
    &&& forall|i: int|
        0 <= i < game.markets@.len() ==> is_assumed_market(
            #[trigger] game.markets[i],
            game.airports[i],
            game.cargo_types@,
            shown,
        )
    &&& game.turn_number == shown.turn_number
    &&& !game.cheat_mode
    &&& game.stats.is_fresh(STARTING_MONEY)
    &&& game.win_condition_money == WIN_CONDITION_MONEY
    &&& game.active_events@ == Seq::<MarketEvent>::empty()
    &&& game.message_board.posts() == Seq::<Message>::empty()
    &&& game.message_board.capacity() == GAME_BOARD_CAPACITY
}

/// The entry of the player with an id in what the server shows.
pub fn find_my_player(multiplayer_state: &MultiplayerGameStateResponse, player_id: u128) -> (r:
    Option<&PlayerInfo>)
    ensures
        match r {
            Some(info) => entry_index(multiplayer_state.players@, player_id) >= 0 && *info
                == multiplayer_state.players[entry_index(multiplayer_state.players@, player_id)],
            None => entry_index(multiplayer_state.players@, player_id) < 0,
        },
{
    let players = &multiplayer_state.players;
    let mut i: usize = 0;
    while i < players.len()
        invariant
            i <= players.len(),
            players == &multiplayer_state.players,
            forall|j: int| 0 <= j < i ==> !is_entry_of(player_id)(#[trigger] players[j]),
        decreases players.len() - i,
    {
        let found = match players[i].id {
            Some(id) => id == player_id,
            None => false,
        };
        if found {
            proof {
                lemma_first_where_at(players@, is_entry_of(player_id), i as int);
            }
            return Some(&players[i]);
        }
        i += 1;
    }
    proof {
        lemma_first_where_none(players@, is_entry_of(player_id));
    }
    None
}

/// The game that the window makes of what the server shows of a room to
/// a player: the player as shown, the airports, cargo and distances of the
/// game, the market at hand as shown and all others at their opening
/// prices. Nothing is made where the player is not shown.
pub fn convert_multiplayer_to_game_state(
    multiplayer_state: &MultiplayerGameStateResponse,
    session: &GameSession,
) -> (r: Option<GameState>)
    ensures
        match r {
            Some(game) => entry_index(multiplayer_state.players@, session.player_id) >= 0
                && is_converted_game(game, *multiplayer_state, session.player_id),
            None => entry_index(multiplayer_state.players@, session.player_id) < 0,
        },
{
    let my_player = match find_my_player(multiplayer_state, session.player_id) {
        Some(info) => info,
        None => {
            return None;
        },
    };
    let player = Player {
        money: my_player.money,
        current_airport: my_player.current_airport.clone(),
        fuel: my_player.fuel,
        max_fuel: my_player.max_fuel,
        cargo_inventory: CargoInventory::from_amounts(&my_player.cargo_inventory),
        max_cargo_weight: my_player.max_cargo_weight,
        fuel_efficiency: my_player.fuel_efficiency,
    };
    let airports = get_default_airports();
    let cargo_types = get_default_cargo_types();
    let mut markets: Vec<Market> = Vec::new();
    let mut i: usize = 0;
    while i < airports.len()
        invariant
            i <= airports.len(),
            markets.len() == i,
            forall|j: int|
                0 <= j < i ==> is_assumed_market(
                    #[trigger] markets[j],
                    airports[j],
                    cargo_types@,
                    *multiplayer_state,
                ),
        decreases airports.len() - i,
    {
        let mut market = Market::new(airports[i].id.as_str(), ROOM_FUEL_PRICE);
        if airports[i].id == multiplayer_state.current_market.airport_id {
            market.update_fuel_price(multiplayer_state.current_market.fuel_price);
            market.cargo_prices = multiplayer_state.current_market.cargo_prices.clone();
        } else {
            market.cargo_prices = GameRoom::opening_prices(&cargo_types);
        }
        markets.push(market);
        i += 1;
    }
    Some(
        GameState {
            player,
            airports,
            cargo_types,
            markets,
            distance_cache: get_default_distances(),
            turn_number: multiplayer_state.turn_number,
            cheat_mode: false,
            stats: GameStats::new(STARTING_MONEY),
            win_condition_money: WIN_CONDITION_MONEY,
            active_events: Vec::new(),
            message_board: MessageBoard::new(GAME_BOARD_CAPACITY),
        },
    )
}

/// Brings the game that the window keeps up to what the server shows of
/// the player: money, airport, fuel, hold and turn. Nothing changes where
/// the player is not shown.
pub fn update_converted_state_player(
    converted_state: &mut GameState,
    multiplayer_state: &MultiplayerGameStateResponse,
    session: &GameSession,
)
    ensures
        entry_index(multiplayer_state.players@, session.player_id) < 0 ==> *final(converted_state)
            == *old(converted_state),
        entry_index(multiplayer_state.players@, session.player_id) >= 0 ==> ({
            let info = multiplayer_state.players[entry_index(
                multiplayer_state.players@,
                session.player_id,
            )];
            &&& *final(converted_state) == (GameState {
                player: final(converted_state).player,
                turn_number: multiplayer_state.turn_number,
                ..*old(converted_state)
            })
            &&& final(converted_state).player == (Player {
                money: info.money,
                current_airport: info.current_airport,
                fuel: info.fuel,
                cargo_inventory: final(converted_state).player.cargo_inventory,
                ..old(converted_state).player
            })
            &&& final(converted_state).player.cargo_inventory@ == info.cargo_inventory@
        }),
{
    match find_my_player(multiplayer_state, session.player_id) {
        Some(my_player) => {
            converted_state.player.money = my_player.money;
            converted_state.player.current_airport = my_player.current_airport.clone();
            converted_state.player.fuel = my_player.fuel;
            if !converted_state.player.cargo_inventory.get_all_cargo().same_as(
                &my_player.cargo_inventory,
            ) {
                converted_state.player.cargo_inventory = CargoInventory::from_amounts(
                    &my_player.cargo_inventory,
                );
            }
            converted_state.turn_number = multiplayer_state.turn_number;
        },
        None => {},
    }
}

/// Whether something has happened to a player between two looks: the
/// money, the fuel, the airport or the hold is no longer what it was.
pub fn has_player_changed(before: &Player, after: &Player) -> (r: bool)
    ensures
        r == (after.money != before.money || after.fuel != before.fuel || after.current_airport@
            != before.current_airport@ || after.cargo_inventory@ != before.cargo_inventory@),
{
    after.money != before.money || after.fuel != before.fuel || !(after.current_airport
        == before.current_airport) || !after.cargo_inventory.same_as(&before.cargo_inventory)
}

} // verus!

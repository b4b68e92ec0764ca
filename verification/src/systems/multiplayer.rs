//! A room: one shared game with its markets, its turn counter and its
//! players, who may leave and come back under the name they had.

use vstd::prelude::*;
use crate::clock::{is_longer_than, longer_than, now};
use crate::ident::fresh_id;
use crate::models::airport::{Airport, Route};
use crate::models::amounts::AmountMap;
use crate::models::cargo::{capped_sum, add_capped, CargoType};
use crate::models::market::{find_market, market_index, Market};
use crate::models::message_board::{Message, MessageBoard};
use crate::models::player::{starting_fuel, Player};
use crate::search::{
    count_where, first_where, lemma_count_where_step,
    lemma_first_where_at, lemma_first_where_none,
};
use crate::systems::events::GameStatistics;

verus! {

/// The money a player starts with.
pub const STARTING_MONEY: u32 = 5000;

/// The size of a player's tank.
pub const STARTING_MAX_FUEL: u32 = 200;

/// The weight a player's hold takes.
pub const STARTING_MAX_CARGO_WEIGHT: u32 = 1000;

/// The metres a player's aircraft flies on one unit of fuel.
pub const STARTING_FUEL_EFFICIENCY: u32 = 15000;

/// The price of fuel in a room's markets.
pub const ROOM_FUEL_PRICE: u32 = 50;

/// The number of messages a room's board keeps.
pub const ROOM_BOARD_CAPACITY: usize = 50;

/// The seconds within which a player who was last seen counts as present.
pub const FRESHNESS_SECONDS: u32 = 5;

/// Where a game stands.
#[derive(Debug, Clone, Copy, PartialEq, Eq, Structural, Default)]
pub enum GameStatus {
    #[default]
    WaitingForPlayers,
    InProgress,
    Finished,
}

/// What all players of a room share: the turn, the markets and the
/// catalogs they were made from, the distances between the airports, and
/// the world's clock.
#[derive(Debug, Clone)]
pub struct SharedGameState {
    pub turn_number: u32,
    pub markets: Vec<Market>,
    pub airports: Vec<Airport>,
    pub cargo_types: Vec<CargoType>,
    pub distances: Vec<Route>,
    pub world_time: i64,
    pub last_market_update: i64,
}

/// One player of a room.
#[derive(Debug, Clone)]
pub struct PlayerGameState {
    pub player_id: u128,
    pub player_name: String,
    pub player: Player,
    pub is_online: bool,
    pub last_seen: i64,
    pub joined_at: i64,
}

/// The statistics of one player of a room.
#[derive(Debug, Clone)]
pub struct PlayerStatistics {
    pub player_id: u128,
    pub statistics: GameStatistics,
}

/// Where a player was last connected.
#[derive(Debug)]
pub struct PlayerSession {
    pub player_id: u128,
    pub player_name: String,
    pub game_room_id: Option<u128>,
    pub connected_at: i64,
}

impl Clone for PlayerSession {
    fn clone(&self) -> (r: Self)
        ensures
            r == *self,
    {
        PlayerSession {
            player_id: self.player_id,
            player_name: self.player_name.clone(),
            game_room_id: self.game_room_id,
            connected_at: self.connected_at,
        }
    }
}

/// A room.
#[derive(Debug, Clone)]
pub struct GameRoom {
    pub id: u128,
    pub name: String,
    pub host_player_id: u128,
    pub max_players: usize,
    pub created_at: i64,
    pub game_status: GameStatus,
    pub shared_state: SharedGameState,
    pub players: Vec<PlayerGameState>,
    pub player_statistics: Vec<PlayerStatistics>,
    pub message_board: MessageBoard,
}

/// The condition of being online.
pub open spec fn is_online() -> spec_fn(PlayerGameState) -> bool {
    |p: PlayerGameState| p.is_online
}

/// The condition of bearing a name.
pub open spec fn is_named(name: Seq<char>) -> spec_fn(PlayerGameState) -> bool {
    |p: PlayerGameState| p.player_name@ == name
}

/// The condition of bearing a name and being offline.
pub open spec fn is_named_offline(name: Seq<char>) -> spec_fn(PlayerGameState) -> bool {
    |p: PlayerGameState| p.player_name@ == name && !p.is_online
}

/// The condition of having an id.
pub open spec fn has_id(id: u128) -> spec_fn(PlayerGameState) -> bool {
    |p: PlayerGameState| p.player_id == id
}

/// The condition of belonging to the player with an id.
pub open spec fn is_for(id: u128) -> spec_fn(PlayerStatistics) -> bool {
    |s: PlayerStatistics| s.player_id == id
}

/// How many of a room's players are online.
pub open spec fn online_count(players: Seq<PlayerGameState>) -> nat {
    count_where(players, is_online())
}

/// The position of the first player with an id, or -1.
pub open spec fn player_index(players: Seq<PlayerGameState>, id: u128) -> int {
    first_where(players, has_id(id))
}

/// The position of the first player with a name, or -1.
pub open spec fn name_index(players: Seq<PlayerGameState>, name: Seq<char>) -> int {
    first_where(players, is_named(name))
}

/// The position of the statistics of the player with an id, or -1.
pub open spec fn statistics_index(statistics: Seq<PlayerStatistics>, id: u128) -> int {
    first_where(statistics, is_for(id))
}

/// The prices a room's markets open with: each kind of cargo at its base
/// price.
pub open spec fn base_prices(cargo_types: Seq<CargoType>) -> Map<Seq<char>, u32>
    decreases cargo_types.len(),
{
    if cargo_types.len() == 0 {
        Map::empty()
    } else {
        base_prices(cargo_types.drop_last()).insert(
            cargo_types.last().id@,
            cargo_types.last().base_price,
        )
    }
}

/// Whether a market is the one that a room opens at an airport.
pub open spec fn is_opening_market(
    market: Market,
    airport: Airport,
    cargo_types: Seq<CargoType>,
    now: i64,
) -> bool {
    &&& market.airport_id@ == airport.id@
    &&& market.fuel_price == ROOM_FUEL_PRICE
    &&& market.cargo_prices@ == base_prices(cargo_types)
    &&& market.last_updated == now
}

/// Whether markets are those that a room opens, one at each airport.
pub open spec fn are_opening_markets(
    markets: Seq<Market>,
    airports: Seq<Airport>,
    cargo_types: Seq<CargoType>,
    now: i64,
) -> bool {
    &&& markets.len() == airports.len()
    &&& forall|i: int|
        0 <= i < markets.len() ==> is_opening_market(
            #[trigger] markets[i],
            airports[i],
            cargo_types,
            now,
        )
}

/// Whether a player has what every player starts with, at an airport.
pub open spec fn is_starting_player(player: Player, airport: Seq<char>) -> bool {
    &&& player.money == STARTING_MONEY
    &&& player.current_airport@ == airport
    &&& player.fuel == starting_fuel(STARTING_MAX_FUEL)
    &&& player.max_fuel == STARTING_MAX_FUEL
    &&& player.cargo_inventory@ == Map::<Seq<char>, u32>::empty()
    &&& player.max_cargo_weight == STARTING_MAX_CARGO_WEIGHT
    &&& player.fuel_efficiency == STARTING_FUEL_EFFICIENCY
}

/// Whether a player's state is that of one who has just come in.
pub open spec fn is_newcomer(
    state: PlayerGameState,
    id: u128,
    name: String,
    airport: Seq<char>,
    now: i64,
) -> bool {
    &&& state.player_id == id
    &&& state.player_name == name
    &&& is_starting_player(state.player, airport)
    &&& state.is_online
    &&& state.last_seen == now
    &&& state.joined_at == now
}

/// The airport a player starts at: the one asked for, or the default.
pub open spec fn airport_or_default(airport: Option<String>) -> Seq<char> {
    match airport {
        Some(a) => a@,
        None => "JFK"@,
    }
}

/// What becomes of a request to come into a room.
pub enum JoinDecision {
    /// As many players are online as the room takes.
    RoomFull,
    /// A player of that name is online and was seen a moment ago.
    NameTaken,
    /// A player of that name is offline, or has not been seen for a while:
    /// the request takes that player's place.
    Rejoin,
    /// No player has the name, but one has the id.
    AlreadyInRoom,
    /// A new player comes in.
    Admit,
}

/// Decides a request to come into a room.
pub open spec fn join_decision(room: GameRoom, now: i64, player_id: u128, name: Seq<char>) -> JoinDecision {
    let i = name_index(room.players@, name);
    if online_count(room.players@) >= room.max_players {
        JoinDecision::RoomFull
    } else if i >= 0 {
        if room.players[i].is_online && !longer_than(
            room.players[i].last_seen,
            now,
            FRESHNESS_SECONDS as int,
        ) {
            JoinDecision::NameTaken
        } else {
            JoinDecision::Rejoin
        }
    } else if player_index(room.players@, player_id) >= 0 {
        JoinDecision::AlreadyInRoom
    } else {
        JoinDecision::Admit
    }
}

/// A player's state after the player has come back at a time.
pub open spec fn back_online(state: PlayerGameState, now: i64) -> PlayerGameState {
    PlayerGameState { is_online: true, last_seen: now, ..state }
}

/// A player's state after the player has left at a time.
pub open spec fn gone_offline(state: PlayerGameState, now: i64) -> PlayerGameState {
    PlayerGameState { is_online: false, last_seen: now, ..state }
}

/// How a room and the answer stand after a request to come in.
pub open spec fn joined(
    before: GameRoom,
    after: GameRoom,
    now: i64,
    player_id: u128,
    name: String,
    airport: Option<String>,
    result: Result<u128, String>,
) -> bool {
    match join_decision(before, now, player_id, name@) {
        JoinDecision::RoomFull => {
            &&& after == before
            &&& result is Err
            &&& result->Err_0@ == "Room is full"@
        },
        JoinDecision::NameTaken => {
            &&& after == before
            &&& result is Err
            &&& result->Err_0@ == "Player name already taken in this room"@
        },
        JoinDecision::AlreadyInRoom => {
            &&& after == before
            &&& result is Err
            &&& result->Err_0@ == "Player already in room"@
        },
        JoinDecision::Rejoin => {
            let i = name_index(before.players@, name@);
            &&& result == Ok::<u128, String>(before.players[i].player_id)
            &&& after == (GameRoom { players: after.players, ..before })
            &&& after.players@ == before.players@.update(i, back_online(before.players[i], now))
        },
        JoinDecision::Admit => {
            &&& result == Ok::<u128, String>(player_id)
            &&& after == (GameRoom {
                players: after.players,
                player_statistics: after.player_statistics,
                ..before
            })
            &&& after.players@.len() == before.players@.len() + 1
            &&& after.players@.drop_last() == before.players@
            &&& is_newcomer(after.players@.last(), player_id, name, airport_or_default(airport), now)
            &&& after.player_statistics@.len() == before.player_statistics@.len() + 1
            &&& after.player_statistics@.drop_last() == before.player_statistics@
            &&& after.player_statistics@.last().player_id == player_id
            &&& after.player_statistics@.last().statistics.is_blank()
        },
    }
}

/// How a room and the answer stand after a player was marked offline.
pub open spec fn left(before: GameRoom, after: GameRoom, now: i64, player_id: u128, result: Result<(), String>) -> bool {
    let i = player_index(before.players@, player_id);
    if i >= 0 {
        &&& result is Ok
        &&& after == (GameRoom { players: after.players, ..before })
        &&& after.players@ == before.players@.update(i, gone_offline(before.players[i], now))
    } else {
        &&& after == before
        &&& result is Err
        &&& result->Err_0@ == "Player not in room"@
    }
}

/// How a room stands after a player was seen.
pub open spec fn seen(before: GameRoom, after: GameRoom, now: i64, player_id: u128) -> bool {
    let i = player_index(before.players@, player_id);
    if i >= 0 {
        &&& after == (GameRoom { players: after.players, ..before })
        &&& after.players@ == before.players@.update(i, back_online(before.players[i], now))
    } else {
        after == before
    }
}

/// How a room stands after a turn.
pub open spec fn turned(before: GameRoom, after: GameRoom, now: i64) -> bool {
    after == (GameRoom {
        shared_state: SharedGameState {
            turn_number: capped_sum(before.shared_state.turn_number, 1),
            world_time: now,
            ..before.shared_state
        },
        ..before
    })
}

impl GameRoom {
    /// Whether no two players of the room share an id or a name.
    pub open spec fn has_distinct_players(self) -> bool {
        forall|i: int, j: int|
            0 <= i < j < self.players@.len() ==> self.players[i].player_id
                != self.players[j].player_id && self.players[i].player_name@
                != self.players[j].player_name@
    }

    /// Whether no more players are online than the room takes.
    pub open spec fn is_within_capacity(self) -> bool {
        online_count(self.players@) <= self.max_players
    }

    /// Whether the room's host is one of its players.
    pub open spec fn has_host(self) -> bool {
        player_index(self.players@, self.host_player_id) >= 0
    }

    /// Whether the room was just made, at a time, with a host.
    pub open spec fn is_new_room(
        self,
        room_id: u128,
        now: i64,
        name: String,
        host_player_id: u128,
        host_player_name: String,
        max_players: usize,
        airports: Vec<Airport>,
        cargo_types: Vec<CargoType>,
        distances: Vec<Route>,
    ) -> bool {
        &&& self.id == room_id
        &&& self.name == name
        &&& self.host_player_id == host_player_id
        &&& self.max_players == max_players
        &&& self.created_at == now
        &&& self.game_status == GameStatus::WaitingForPlayers
        &&& self.shared_state.turn_number == 1
        &&& are_opening_markets(self.shared_state.markets@, airports@, cargo_types@, now)
        &&& self.shared_state.airports == airports
        &&& self.shared_state.cargo_types == cargo_types
        &&& self.shared_state.distances == distances
        &&& self.shared_state.world_time == now
        &&& self.shared_state.last_market_update == now
        &&& self.players@.len() == 1
        &&& is_newcomer(self.players[0], host_player_id, host_player_name, "JFK"@, now)
        &&& self.player_statistics@.len() == 1
        &&& self.player_statistics[0].player_id == host_player_id
        &&& self.player_statistics[0].statistics.is_blank()
        &&& self.message_board.posts() == Seq::<Message>::empty()
        &&& self.message_board.capacity() == ROOM_BOARD_CAPACITY
    }

    /// The prices a room's markets open with.
    pub fn opening_prices(cargo_types: &Vec<CargoType>) -> (r: AmountMap)
        ensures
            r@ == base_prices(cargo_types@),
    {
        let mut prices = AmountMap::new();
        let mut i: usize = 0;
        while i < cargo_types.len()
            invariant
                i <= cargo_types.len(),
                prices@ == base_prices(cargo_types@.subrange(0, i as int)),
            decreases cargo_types.len() - i,
        {
            proof {
                assert(cargo_types@.subrange(0, i + 1).drop_last() =~= cargo_types@.subrange(
                    0,
                    i as int,
                ));
            }
            prices.insert(cargo_types[i].id.as_str(), cargo_types[i].base_price);
            i += 1;
        }
        proof {
            assert(cargo_types@.subrange(0, i as int) =~= cargo_types@);
        }
        prices
    }

    /// The markets a room opens, one at each airport.
    fn opening_markets(airports: &Vec<Airport>, cargo_types: &Vec<CargoType>, now: i64) -> (r: Vec<
        Market,
    >)
        ensures
            are_opening_markets(r@, airports@, cargo_types@, now),
    {
        let mut markets: Vec<Market> = Vec::new();
        let mut i: usize = 0;
        while i < airports.len()
            invariant
                i <= airports.len(),
                markets.len() == i,
                forall|j: int|
                    0 <= j < i ==> is_opening_market(
                        #[trigger] markets[j],
                        airports[j],
                        cargo_types@,
                        now,
                    ),
            decreases airports.len() - i,
        {
            markets.push(
                Market {
                    airport_id: airports[i].id.clone(),
                    fuel_price: ROOM_FUEL_PRICE,
                    cargo_prices: Self::opening_prices(cargo_types),
                    last_updated: now,
                },
            );
            i += 1;
        }
        markets
    }

    /// A player's state on coming in.
    fn newcomer(player_id: u128, player_name: String, airport: &str, now: i64) -> (r:
        PlayerGameState)
        ensures
            is_newcomer(r, player_id, player_name, airport@, now),
    {
        PlayerGameState {
            player_id,
            player_name,
            player: Player::new(
                STARTING_MONEY,
                airport,
                STARTING_MAX_FUEL,
                STARTING_MAX_CARGO_WEIGHT,
                STARTING_FUEL_EFFICIENCY,
            ),
            is_online: true,
            last_seen: now,
            joined_at: now,
        }
    }

    /// A room with a given id, made at a given time: its host is online at
    /// the default airport with what every player starts with, each airport
    /// has a market, and the game waits for players.
    pub fn new_with(
        room_id: u128,
        now: i64,
        name: String,
        host_player_id: u128,
        host_player_name: String,
        max_players: usize,
        airports: Vec<Airport>,
        cargo_types: Vec<CargoType>,
        distances: Vec<Route>,
    ) -> (r: Self)
        ensures
            r.is_new_room(
                room_id,
                now,
                name,
                host_player_id,
                host_player_name,
                max_players,
                airports,
                cargo_types,
                distances,
            ),
    {
        let markets = Self::opening_markets(&airports, &cargo_types, now);
        let shared_state = SharedGameState {
            turn_number: 1,
            markets,
            airports,
            cargo_types,
            distances,
            world_time: now,
            last_market_update: now,
        };
        let mut players: Vec<PlayerGameState> = Vec::new();
        players.push(Self::newcomer(host_player_id, host_player_name, "JFK", now));
        let mut player_statistics: Vec<PlayerStatistics> = Vec::new();
        player_statistics.push(
            PlayerStatistics { player_id: host_player_id, statistics: GameStatistics::new() },
        );
        GameRoom {
            id: room_id,
            name,
            host_player_id,
            max_players,
            created_at: now,
            game_status: GameStatus::WaitingForPlayers,
            shared_state,
            players,
            player_statistics,
            message_board: MessageBoard::new(ROOM_BOARD_CAPACITY),
        }
    }

    /// A room under a new id, made now.
    pub fn new(
        name: String,
        host_player_id: u128,
        host_player_name: String,
        max_players: usize,
        airports: Vec<Airport>,
        cargo_types: Vec<CargoType>,
        distances: Vec<Route>,
    ) -> (r: Self)
        ensures
            r.is_new_room(
                r.id,
                r.created_at,
                name,
                host_player_id,
                host_player_name,
                max_players,
                airports,
                cargo_types,
                distances,
            ),
    {
        let room_id = fresh_id();
        let now = now();
        Self::new_with(
            room_id,
            now,
            name,
            host_player_id,
            host_player_name,
            max_players,
            airports,
            cargo_types,
            distances,
        )
    }

    /// How many of the room's players are online.
    pub fn online_players(&self) -> (r: usize)
        ensures
            r == online_count(self.players@),
    {
        let mut count: usize = 0;
        let mut i: usize = 0;
        while i < self.players.len()
            invariant
                i <= self.players.len(),
                count == count_where(self.players@.subrange(0, i as int), is_online()),
                count <= i,
            decreases self.players.len() - i,
        {
            proof {
                lemma_count_where_step(self.players@, is_online(), i as int);
            }
            if self.players[i].is_online {
                count += 1;
            }
            i += 1;
        }
        proof {
            assert(self.players@.subrange(0, i as int) =~= self.players@);
        }
        count
    }

    /// The position of the player with an id.
    pub fn player_position(&self, player_id: u128) -> (r: Option<usize>)
        ensures
            match r {
                Some(i) => i == player_index(self.players@, player_id) && i < self.players@.len()
                    && self.players[i as int].player_id == player_id,
                None => player_index(self.players@, player_id) < 0,
            },
    {
        let mut i: usize = 0;
        while i < self.players.len()
            invariant
                i <= self.players.len(),
                forall|j: int| 0 <= j < i ==> !has_id(player_id)(#[trigger] self.players[j]),
            decreases self.players.len() - i,
        {
            if self.players[i].player_id == player_id {
                proof {
                    lemma_first_where_at(self.players@, has_id(player_id), i as int);
                }
                return Some(i);
            }
            i += 1;
        }
        proof {
            lemma_first_where_none(self.players@, has_id(player_id));
        }
        None
    }

    /// The position of the player with a name.
    pub fn name_position(&self, player_name: &str) -> (r: Option<usize>)
        ensures
            match r {
                Some(i) => i == name_index(self.players@, player_name@) && i < self.players@.len()
                    && self.players[i as int].player_name@ == player_name@,
                None => name_index(self.players@, player_name@) < 0,
            },
    {
        let wanted = player_name.to_owned();
        let mut i: usize = 0;
        while i < self.players.len()
            invariant
                i <= self.players.len(),
                wanted@ == player_name@,
                forall|j: int| 0 <= j < i ==> !is_named(player_name@)(#[trigger] self.players[j]),
            decreases self.players.len() - i,
        {
            if self.players[i].player_name == wanted {
                proof {
                    lemma_first_where_at(self.players@, is_named(player_name@), i as int);
                }
                return Some(i);
            }
            i += 1;
        }
        proof {
            lemma_first_where_none(self.players@, is_named(player_name@));
        }
        None
    }

    /// The position of the statistics of the player with an id.
    pub fn statistics_position(&self, player_id: u128) -> (r: Option<usize>)
        ensures
            match r {
                Some(i) => i == statistics_index(self.player_statistics@, player_id) && i
                    < self.player_statistics@.len() && self.player_statistics[i as int].player_id
                    == player_id,
                None => statistics_index(self.player_statistics@, player_id) < 0,
            },
    {
        let mut i: usize = 0;
        while i < self.player_statistics.len()
            invariant
                i <= self.player_statistics.len(),
                forall|j: int|
                    0 <= j < i ==> !is_for(player_id)(#[trigger] self.player_statistics[j]),
            decreases self.player_statistics.len() - i,
        {
            if self.player_statistics[i].player_id == player_id {
                proof {
                    lemma_first_where_at(self.player_statistics@, is_for(player_id), i as int);
                }
                return Some(i);
            }
            i += 1;
        }
        proof {
            lemma_first_where_none(self.player_statistics@, is_for(player_id));
        }
        None
    }

    /// The id of the first player who bears a name and is offline.
    pub fn find_offline_player_by_name(&self, player_name: &str) -> (r: Option<u128>)
        ensures
            r == ({
                let i = first_where(self.players@, is_named_offline(player_name@));
                if i >= 0 {
                    Some(self.players[i].player_id)
                } else {
                    None
                }
            }),
    {
        let wanted = player_name.to_owned();
        let mut i: usize = 0;
        while i < self.players.len()
            invariant
                i <= self.players.len(),
                wanted@ == player_name@,
                forall|j: int|
                    0 <= j < i ==> !is_named_offline(player_name@)(#[trigger] self.players[j]),
            decreases self.players.len() - i,
        {
            if self.players[i].player_name == wanted && !self.players[i].is_online {
                proof {
                    lemma_first_where_at(self.players@, is_named_offline(player_name@), i as int);
                }
                return Some(self.players[i].player_id);
            }
            i += 1;
        }
        proof {
            lemma_first_where_none(self.players@, is_named_offline(player_name@));
        }
        None
    }

    /// Lets a player into the room at a given time. A room with as many
    /// players online as it takes lets nobody in. A name that a player of
    /// the room bears is taken while that player is online and was seen
    /// within the last five seconds; else whoever asks under that name takes
    /// that player's place, id and all. A new name comes in as a new player
    /// under the id asked for, unless that id is in the room. The id in the
    /// answer is the player's id from then on.
    pub fn add_player_at(
        &mut self,
        now: i64,
        player_id: u128,
        player_name: String,
        starting_airport: Option<String>,
    ) -> (r: Result<u128, String>)
        ensures
            joined(*old(self), *final(self), now, player_id, player_name, starting_airport, r),
    {
        if self.online_players() >= self.max_players {
            return Err("Room is full".to_string());
        }
        match self.name_position(player_name.as_str()) {
            Some(i) => {
                if self.players[i].is_online && !is_longer_than(
                    self.players[i].last_seen,
                    now,
                    FRESHNESS_SECONDS,
                ) {
                    return Err("Player name already taken in this room".to_string());
                }
                self.players[i].is_online = true;
                self.players[i].last_seen = now;
                proof {
                    assert(self.players@ =~= old(self).players@.update(
                        i as int,
                        back_online(old(self).players[i as int], now),
                    ));
                }
                Ok(self.players[i].player_id)
            },
            None => {
                if self.player_position(player_id).is_some() {
                    return Err("Player already in room".to_string());
                }
                let state = match starting_airport {
                    Some(airport) => Self::newcomer(player_id, player_name, airport.as_str(), now),
                    None => Self::newcomer(player_id, player_name, "JFK", now),
                };
                self.players.push(state);
                self.player_statistics.push(
                    PlayerStatistics { player_id, statistics: GameStatistics::new() },
                );
                proof {
                    assert(self.players@.drop_last() =~= old(self).players@);
                    assert(self.player_statistics@.drop_last() =~= old(self).player_statistics@);
                }
                Ok(player_id)
            },
        }
    }

    /// Lets a player into the room now.
    pub fn add_player(
        &mut self,
        player_id: u128,
        player_name: String,
        starting_airport: Option<String>,
    ) -> (r: Result<u128, String>)
        ensures
            exists|now: i64|
                joined(*old(self), *final(self), now, player_id, player_name, starting_airport, r),
    {
        let now = now();
        self.add_player_at(now, player_id, player_name, starting_airport)
    }

    /// Marks a player offline at a given time. The player stays in the room
    /// with all that is theirs.
    pub fn mark_player_offline_at(&mut self, now: i64, player_id: u128) -> (r: Result<(), String>)
        ensures
            left(*old(self), *final(self), now, player_id, r),
    {
        match self.player_position(player_id) {
            Some(i) => {
                self.players[i].is_online = false;
                self.players[i].last_seen = now;
                proof {
                    assert(self.players@ =~= old(self).players@.update(
                        i as int,
                        gone_offline(old(self).players[i as int], now),
                    ));
                }
                Ok(())
            },
            None => Err("Player not in room".to_string()),
        }
    }

    /// Marks a player offline now.
    pub fn mark_player_offline(&mut self, player_id: u128) -> (r: Result<(), String>)
        ensures
            exists|now: i64| left(*old(self), *final(self), now, player_id, r),
    {
        let now = now();
        self.mark_player_offline_at(now, player_id)
    }

    /// Takes a player and the player's statistics out of the room for good.
    /// Where the host goes and others stay, the first of them becomes the
    /// host.
    pub fn remove_player(&mut self, player_id: u128) -> (r: Result<(), String>)
        ensures
            removed(*old(self), *final(self), player_id, r),
    {
        let at = match self.player_position(player_id) {
            Some(i) => i,
            None => {
                return Err("Player not in room".to_string());
            },
        };
        self.players.remove(at);
        match self.statistics_position(player_id) {
            Some(j) => {
                self.player_statistics.remove(j);
            },
            None => {},
        }
        if self.host_player_id == player_id && self.players.len() > 0 {
            self.host_player_id = self.players[0].player_id;
        }
        Ok(())
    }

    /// The player with an id.
    pub fn get_player(&self, player_id: &u128) -> (r: Option<&PlayerGameState>)
        ensures
            match r {
                Some(p) => player_index(self.players@, *player_id) >= 0 && *p == self.players[player_index(
                    self.players@,
                    *player_id,
                )],
                None => player_index(self.players@, *player_id) < 0,
            },
    {
        match self.player_position(*player_id) {
            Some(i) => Some(&self.players[i]),
            None => None,
        }
    }

    /// The player with an id, to be changed in place.
    pub fn get_player_mut(&mut self, player_id: &u128) -> (r: Option<&mut PlayerGameState>)
        ensures
            match r {
                Some(p) => {
                    let i = player_index(old(self).players@, *player_id);
                    &&& i >= 0
                    &&& *p == old(self).players[i]
                    &&& *final(self) == (GameRoom { players: final(self).players, ..*old(self) })
                    &&& final(self).players@ == old(self).players@.update(i, *final(p))
                },
                None => player_index(old(self).players@, *player_id) < 0 && *final(self) == *old(
                    self,
                ),
            },
    {
        match self.player_position(*player_id) {
            Some(i) => Some(&mut self.players[i]),
            None => None,
        }
    }

    /// Notes at a given time that a player was seen: the player is online.
    pub fn update_player_activity_at(&mut self, now: i64, player_id: &u128)
        ensures
            seen(*old(self), *final(self), now, *player_id),
    {
        match self.player_position(*player_id) {
            Some(i) => {
                self.players[i].last_seen = now;
                self.players[i].is_online = true;
                proof {
                    assert(self.players@ =~= old(self).players@.update(
                        i as int,
                        back_online(old(self).players[i as int], now),
                    ));
                }
            },
            None => {},
        }
    }

    /// Notes that a player was seen now.
    pub fn update_player_activity(&mut self, player_id: &u128)
        ensures
            exists|now: i64| seen(*old(self), *final(self), now, *player_id),
    {
        let now = now();
        self.update_player_activity_at(now, player_id)
    }

    /// The market at an airport.
    pub fn get_current_market(&self, airport_id: &str) -> (r: Option<&Market>)
        ensures
            match r {
                Some(m) => market_index(self.shared_state.markets@, airport_id@) >= 0 && *m
                    == self.shared_state.markets[market_index(
                    self.shared_state.markets@,
                    airport_id@,
                )],
                None => market_index(self.shared_state.markets@, airport_id@) < 0,
            },
    {
        find_market(&self.shared_state.markets, airport_id)
    }

    /// Moves the game on by one turn at a given time. The count of turns
    /// stops at the largest number.
    pub fn advance_turn_at(&mut self, now: i64)
        ensures
            turned(*old(self), *final(self), now),
    {
        self.shared_state.turn_number = add_capped(self.shared_state.turn_number, 1);
        self.shared_state.world_time = now;
    }

    /// Moves the game on by one turn now.
    pub fn advance_turn(&mut self)
        ensures
            exists|now: i64| turned(*old(self), *final(self), now),
    {
        let now = now();
        self.advance_turn_at(now)
    }

    /// Starts the game, if the room has a player.
    pub fn start_game(&mut self) -> (r: Result<(), String>)
        ensures
            old(self).players@.len() > 0 ==> r is Ok && *final(self) == (GameRoom {
                game_status: GameStatus::InProgress,
                ..*old(self)
            }),
            old(self).players@.len() == 0 ==> r is Err && r->Err_0@
                == "Need at least 1 player to start"@ && *final(self) == *old(self),
    {
        if self.players.len() == 0 {
            return Err("Need at least 1 player to start".to_string());
        }
        self.game_status = GameStatus::InProgress;
        Ok(())
    }

    /// Whether players can come in: the game waits for players and fewer
    /// are online than the room takes.
    pub fn is_joinable(&self) -> (r: bool)
        ensures
            r == self.joinable(),
    {
        self.game_status == GameStatus::WaitingForPlayers && self.online_players()
            < self.max_players
    }

    /// Whether players can come in.
    pub open spec fn joinable(self) -> bool {
        self.game_status == GameStatus::WaitingForPlayers && online_count(self.players@)
            < self.max_players
    }
}

/// How a room and the answer stand after a player was taken out.
pub open spec fn removed(before: GameRoom, after: GameRoom, player_id: u128, result: Result<(), String>) -> bool {
    let i = player_index(before.players@, player_id);
    let j = statistics_index(before.player_statistics@, player_id);
    if i >= 0 {
        &&& result is Ok
        &&& after == (GameRoom {
            players: after.players,
            player_statistics: after.player_statistics,
            host_player_id: after.host_player_id,
            ..before
        })
        &&& after.players@ == before.players@.remove(i)
        &&& after.player_statistics@ == if j >= 0 {
            before.player_statistics@.remove(j)
        } else {
            before.player_statistics@
        }
        &&& after.host_player_id == if before.host_player_id == player_id && after.players@.len()
            > 0 {
            after.players[0].player_id
        } else {
            before.host_player_id
        }
    } else {
        &&& after == before
        &&& result is Err
        &&& result->Err_0@ == "Player not in room"@
    }
}

} // verus!

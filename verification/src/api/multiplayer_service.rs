//! The room service: the rooms that are open and the sessions of the
//! players in them, and what each request does to both.

use vstd::prelude::*;
use crate::api::models::{
    CreateRoomResponse, FuelRequest, GetMessagesResponse, JoinRoomResponse, LeaveRoomResponse,
    MultiplayerGameStateResponse, PlayerFuelResponse, PlayerSessionInfo, PlayerTradeResponse,
    PlayerTravelResponse, PostMessageResponse, RoomInfo, TradeRequest,
};
use crate::api::room_actions::{
    board_read, buy_fuel_in_room, fails_with, post_in_room, posted, read_board_in_room, refueled,
    trade_in_room, traded, travel_in_room, traveled,
};
use crate::api::room_view::{
    build_multiplayer_game_state_response, is_room_info, room_info, state_shown,
};
use crate::clock::now;
use crate::data::airports::{
    are_default_airports, are_default_distances, get_default_airports, get_default_distances,
};
use crate::data::cargo_types::{are_default_cargo_types, get_default_cargo_types};
use crate::ident::fresh_id;
use crate::search::{
    first_where, keep_where, lemma_first_where_at,
    lemma_first_where_none, lemma_keep_where_step, lemma_pairwise_push, pairwise,
};
use crate::systems::multiplayer::{
    joined, left, online_count, player_index, seen, GameRoom, GameStatus,
    PlayerSession,
};

verus! {

/// The number of players a room takes where none is asked for.
pub const DEFAULT_MAX_PLAYERS: usize = 4;

/// The condition of being the room with an id.
pub open spec fn is_room(id: u128) -> spec_fn(GameRoom) -> bool {
    |room: GameRoom| room.id == id
}

/// The condition of being the session of the player with an id.
pub open spec fn is_session_of(id: u128) -> spec_fn(PlayerSession) -> bool {
    |session: PlayerSession| session.player_id == id
}

/// The position of the first room with an id, or -1.
pub open spec fn room_index(rooms: Seq<GameRoom>, id: u128) -> int {
    first_where(rooms, is_room(id))
}

/// The position of the first session of the player with an id, or -1.
pub open spec fn session_index(sessions: Seq<PlayerSession>, id: u128) -> int {
    first_where(sessions, is_session_of(id))
}

/// The rooms after one is entered: in place of the room that had its id, or
/// behind all others.
pub open spec fn with_room(rooms: Seq<GameRoom>, room: GameRoom) -> Seq<GameRoom> {
    let i = room_index(rooms, room.id);
    if i >= 0 {
        rooms.update(i, room)
    } else {
        rooms.push(room)
    }
}

/// The sessions after one is entered: in place of the session that the
/// player had, or behind all others.
pub open spec fn with_session(sessions: Seq<PlayerSession>, session: PlayerSession) -> Seq<
    PlayerSession,
> {
    let i = session_index(sessions, session.player_id);
    if i >= 0 {
        sessions.update(i, session)
    } else {
        sessions.push(session)
    }
}

/// The sessions after a player has left the room: the player's session, if
/// there is one, names no room.
pub open spec fn without_room(sessions: Seq<PlayerSession>, player_id: u128) -> Seq<PlayerSession> {
    let i = session_index(sessions, player_id);
    if i >= 0 {
        sessions.update(i, PlayerSession { game_room_id: None, ..sessions[i] })
    } else {
        sessions
    }
}

/// Whether a room is one that the service has just opened: a new room with
/// the airports, the kinds of cargo and the distances of the game.
pub open spec fn is_opened_room(
    room: GameRoom,
    room_id: u128,
    now: i64,
    name: String,
    host_player_id: u128,
    host_player_name: String,
    max_players: usize,
) -> bool {
    &&& room.is_new_room(
        room_id,
        now,
        name,
        host_player_id,
        host_player_name,
        max_players,
        room.shared_state.airports,
        room.shared_state.cargo_types,
        room.shared_state.distances,
    )
    &&& are_default_airports(room.shared_state.airports@)
    &&& are_default_cargo_types(room.shared_state.cargo_types@)
    &&& are_default_distances(room.shared_state.distances@)
}

/// The number of players asked for, or the default.
pub open spec fn players_asked(max_players: Option<usize>) -> usize {
    match max_players {
        Some(n) => n,
        None => DEFAULT_MAX_PLAYERS,
    }
}

/// The rooms that are open and the sessions of their players.
#[derive(Debug, Clone)]
pub struct MultiplayerGameService {
    rooms: Vec<GameRoom>,
    player_sessions: Vec<PlayerSession>,
}

/// How the service and the answer stand after a request to open a room.
pub open spec fn room_created(
    before: MultiplayerGameService,
    after: MultiplayerGameService,
    room_id: u128,
    host_player_id: u128,
    now: i64,
    name: String,
    host_player_name: String,
    max_players: Option<usize>,
    result: Result<CreateRoomResponse, String>,
) -> bool {
    let asked = players_asked(max_players);
    if asked < 1 || asked > 8 {
        after.same_as(before) && fails_with(result, "Max players must be between 1 and 8"@)
    } else {
        let i = room_index(before.rooms(), room_id);
        let at = if i >= 0 {
            i
        } else {
            before.rooms().len() as int
        };
        &&& 0 <= at < after.rooms().len()
        &&& is_opened_room(
            after.rooms()[at],
            room_id,
            now,
            name,
            host_player_id,
            host_player_name,
            asked,
        )
        &&& after.rooms() == with_room(before.rooms(), after.rooms()[at])
        &&& after.sessions() == with_session(
            before.sessions(),
            PlayerSession {
                player_id: host_player_id,
                player_name: host_player_name,
                game_room_id: Some(room_id),
                connected_at: now,
            },
        )
        &&& result is Ok
        &&& result->Ok_0.room_id == room_id
        &&& result->Ok_0.room_name == name
        &&& result->Ok_0.host_player_id == host_player_id
        &&& result->Ok_0.host_player_name == host_player_name
        &&& result->Ok_0.max_players == asked
        &&& result->Ok_0.current_players == 1
    }
}

/// The answer of a room to a request to come in, as the answer of the
/// service tells it.
pub open spec fn room_answer(result: Result<JoinRoomResponse, String>) -> Result<u128, String> {
    match result {
        Ok(response) => Ok(response.player_id),
        Err(reason) => Err(reason),
    }
}

/// How the service and the answer stand after a request to come into a
/// room.
pub open spec fn room_joined(
    before: MultiplayerGameService,
    after: MultiplayerGameService,
    candidate_id: u128,
    now: i64,
    room_id: u128,
    player_name: String,
    starting_airport: Option<String>,
    result: Result<JoinRoomResponse, String>,
) -> bool {
    let i = room_index(before.rooms(), room_id);
    if i < 0 {
        after.same_as(before) && fails_with(result, "Room not found"@)
    } else if !before.rooms()[i].joinable() {
        after.same_as(before) && fails_with(result, "Room is not joinable"@)
    } else {
        &&& after.rooms() == before.rooms().update(i, after.rooms()[i])
        &&& joined(
            before.rooms()[i],
            after.rooms()[i],
            now,
            candidate_id,
            player_name,
            starting_airport,
            room_answer(result),
        )
        &&& match result {
            Ok(response) => {
                &&& response.room_id == room_id
                &&& response.player_name == player_name
                &&& response.success
                &&& response.message@ == "Successfully joined room"@
                &&& after.sessions() == with_session(
                    before.sessions(),
                    PlayerSession {
                        player_id: response.player_id,
                        player_name,
                        game_room_id: Some(room_id),
                        connected_at: now,
                    },
                )
            },
            Err(_) => after.sessions() == before.sessions(),
        }
    }
}

/// A room after one of its players has left: where nobody is online any
/// more, the game waits for players.
pub open spec fn settled(room: GameRoom) -> GameRoom {
    if online_count(room.players@) == 0 {
        GameRoom { game_status: GameStatus::WaitingForPlayers, ..room }
    } else {
        room
    }
}

/// How the service and the answer stand after a request to leave a room.
pub open spec fn room_left(
    before: MultiplayerGameService,
    after: MultiplayerGameService,
    now: i64,
    room_id: u128,
    player_id: u128,
    result: Result<LeaveRoomResponse, String>,
) -> bool {
    let i = room_index(before.rooms(), room_id);
    if i >= 0 && player_index(before.rooms()[i].players@, player_id) < 0 {
        after.same_as(before) && fails_with(result, "Player not in room"@)
    } else {
        &&& result is Ok
        &&& result->Ok_0.success
        &&& result->Ok_0.message@ == "Successfully left room"@
        &&& after.sessions() == without_room(before.sessions(), player_id)
        &&& if i >= 0 {
            exists|gone: GameRoom|
                #![trigger settled(gone)]
                left(before.rooms()[i], gone, now, player_id, Ok(())) && after.rooms()
                    == before.rooms().update(i, settled(gone))
        } else {
            after.rooms() == before.rooms()
        }
    }
}

/// How the service and the answer stand after a request that one room
/// takes: a room that is not there turns it down, else that room alone
/// takes the step and all sessions stay.
pub open spec fn in_room<T>(
    before: MultiplayerGameService,
    after: MultiplayerGameService,
    room_id: u128,
    result: Result<T, String>,
    step: spec_fn(GameRoom, GameRoom) -> bool,
) -> bool {
    let i = room_index(before.rooms(), room_id);
    if i < 0 {
        after.same_as(before) && fails_with(result, "Room not found"@)
    } else {
        &&& after.sessions() == before.sessions()
        &&& after.rooms() == before.rooms().update(i, after.rooms()[i])
        &&& step(before.rooms()[i], after.rooms()[i])
    }
}

/// How a room and the answer stand after a player asked how the room
/// stands: the player was seen, and is shown the room as it is then.
pub open spec fn state_read(
    before: GameRoom,
    after: GameRoom,
    now: i64,
    player_id: u128,
    result: Result<MultiplayerGameStateResponse, String>,
) -> bool {
    &&& seen(before, after, now, player_id)
    &&& if player_index(before.players@, player_id) < 0 {
        fails_with(result, "Player not in room"@)
    } else {
        state_shown(after, player_id, result)
    }
}

/// The step of a room in which a player asks how it stands.
pub open spec fn reads_state(
    now: i64,
    player_id: u128,
    result: Result<MultiplayerGameStateResponse, String>,
) -> spec_fn(GameRoom, GameRoom) -> bool {
    |before: GameRoom, after: GameRoom| state_read(before, after, now, player_id, result)
}

/// The step of a room in which a player asks to fly.
pub open spec fn travels(
    now: i64,
    player_id: u128,
    destination: Seq<char>,
    result: Result<PlayerTravelResponse, String>,
) -> spec_fn(GameRoom, GameRoom) -> bool {
    |before: GameRoom, after: GameRoom| traveled(before, after, now, player_id, destination, result)
}

/// The step of a room in which a player asks to trade.
pub open spec fn trades(
    player_id: u128,
    request: TradeRequest,
    result: Result<PlayerTradeResponse, String>,
) -> spec_fn(GameRoom, GameRoom) -> bool {
    |before: GameRoom, after: GameRoom| traded(before, after, player_id, request, result)
}

/// The step of a room in which a player asks for fuel.
pub open spec fn refuels(
    player_id: u128,
    request: FuelRequest,
    result: Result<PlayerFuelResponse, String>,
) -> spec_fn(GameRoom, GameRoom) -> bool {
    |before: GameRoom, after: GameRoom| refueled(before, after, player_id, request, result)
}

/// The step of a room in which a player asks to write on the board.
pub open spec fn posts(
    message_id: u128,
    now: i64,
    player_id: u128,
    content: String,
    result: Result<PostMessageResponse, String>,
) -> spec_fn(GameRoom, GameRoom) -> bool {
    |before: GameRoom, after: GameRoom|
        posted(before, after, message_id, now, player_id, content, result)
}

/// The condition of being a session under a name that names a room.
pub open spec fn is_in_room_as(name: Seq<char>) -> spec_fn(PlayerSession) -> bool {
    |session: PlayerSession| session.player_name@ == name && session.game_room_id is Some
}

/// The name of the room with an id, or "Unknown Room" where there is none.
pub open spec fn room_name(rooms: Seq<GameRoom>, room_id: u128) -> Seq<char> {
    let i = room_index(rooms, room_id);
    if i >= 0 {
        rooms[i].name@
    } else {
        "Unknown Room"@
    }
}

/// The relation of an entry to the session that it shows.
pub open spec fn shows_session(rooms: Seq<GameRoom>) -> spec_fn(
    PlayerSessionInfo,
    PlayerSession,
) -> bool {
    |info: PlayerSessionInfo, session: PlayerSession|
        {
            &&& info.player_id == session.player_id
            &&& info.player_name == session.player_name
            &&& session.game_room_id == Some(info.room_id)
            &&& info.room_name@ == room_name(rooms, info.room_id)
            &&& info.connected_at == session.connected_at
        }
}

/// The relation of a summary to the room that it shows.
pub open spec fn shows_room() -> spec_fn(RoomInfo, GameRoom) -> bool {
    |info: RoomInfo, room: GameRoom| is_room_info(info, room)
}

impl MultiplayerGameService {
    /// The rooms that are open, in the order they were opened.
    pub closed spec fn rooms(self) -> Seq<GameRoom> {
        self.rooms@
    }

    /// The sessions of the players, in the order they first came.
    pub closed spec fn sessions(self) -> Seq<PlayerSession> {
        self.player_sessions@
    }

    /// Whether two services hold the same rooms and sessions.
    pub open spec fn same_as(self, other: MultiplayerGameService) -> bool {
        self.rooms() == other.rooms() && self.sessions() == other.sessions()
    }

    /// A service with no room and no session.
    pub fn new() -> (r: Self)
        ensures
            r.rooms() == Seq::<GameRoom>::empty(),
            r.sessions() == Seq::<PlayerSession>::empty(),
    {
        MultiplayerGameService { rooms: Vec::new(), player_sessions: Vec::new() }
    }

    /// A service that takes up rooms and sessions that were kept.
    pub fn with_state(rooms: Vec<GameRoom>, player_sessions: Vec<PlayerSession>) -> (r: Self)
        ensures
            r.rooms() == rooms@,
            r.sessions() == player_sessions@,
    {
        MultiplayerGameService { rooms, player_sessions }
    }

    /// The rooms that are open.
    pub fn all_rooms(&self) -> (r: &Vec<GameRoom>)
        ensures
            r@ == self.rooms(),
    {
        &self.rooms
    }

    /// The sessions of the players.
    pub fn all_sessions(&self) -> (r: &Vec<PlayerSession>)
        ensures
            r@ == self.sessions(),
    {
        &self.player_sessions
    }

    fn room_position(&self, room_id: u128) -> (r: Option<usize>)
        ensures
            match r {
                Some(i) => i == room_index(self.rooms@, room_id) && i < self.rooms@.len()
                    && self.rooms[i as int].id == room_id,
                None => room_index(self.rooms@, room_id) < 0,
            },
    {
        let mut i: usize = 0;
        while i < self.rooms.len()
            invariant
                i <= self.rooms.len(),
                forall|j: int| 0 <= j < i ==> !is_room(room_id)(#[trigger] self.rooms[j]),
            decreases self.rooms.len() - i,
        {
            if self.rooms[i].id == room_id {
                proof {
                    lemma_first_where_at(self.rooms@, is_room(room_id), i as int);
                }
                return Some(i);
            }
            i += 1;
        }
        proof {
            lemma_first_where_none(self.rooms@, is_room(room_id));
        }
        None
    }

    fn session_position(&self, player_id: u128) -> (r: Option<usize>)
        ensures
            match r {
                Some(i) => i == session_index(self.player_sessions@, player_id) && i
                    < self.player_sessions@.len(),
                None => session_index(self.player_sessions@, player_id) < 0,
            },
    {
        let mut i: usize = 0;
        while i < self.player_sessions.len()
            invariant
                i <= self.player_sessions.len(),
                forall|j: int|
                    0 <= j < i ==> !is_session_of(player_id)(#[trigger] self.player_sessions[j]),
            decreases self.player_sessions.len() - i,
        {
            if self.player_sessions[i].player_id == player_id {
                proof {
                    lemma_first_where_at(self.player_sessions@, is_session_of(player_id), i as int);
                }
                return Some(i);
            }
            i += 1;
        }
        proof {
            lemma_first_where_none(self.player_sessions@, is_session_of(player_id));
        }
        None
    }

    /// The room with an id.
    pub fn get_room(&self, room_id: u128) -> (r: Option<&GameRoom>)
        ensures
            match r {
                Some(room) => room_index(self.rooms(), room_id) >= 0 && *room == self.rooms()[room_index(
                    self.rooms(),
                    room_id,
                )],
                None => room_index(self.rooms(), room_id) < 0,
            },
    {
        match self.room_position(room_id) {
            Some(i) => Some(&self.rooms[i]),
            None => None,
        }
    }

    /// The room with an id, to be changed in place.
    pub fn get_room_mut(&mut self, room_id: u128) -> (r: Option<&mut GameRoom>)
        ensures
            final(self).sessions() == old(self).sessions(),
            match r {
                Some(room) => {
                    let i = room_index(old(self).rooms(), room_id);
                    &&& i >= 0
                    &&& *room == old(self).rooms()[i]
                    &&& final(self).rooms() == old(self).rooms().update(i, *final(room))
                },
                None => room_index(old(self).rooms(), room_id) < 0 && final(self).rooms() == old(
                    self,
                ).rooms(),
            },
    {
        match self.room_position(room_id) {
            Some(i) => Some(&mut self.rooms[i]),
            None => None,
        }
    }

    /// The session of the player with an id.
    pub fn get_session(&self, player_id: u128) -> (r: Option<&PlayerSession>)
        ensures
            match r {
                Some(session) => session_index(self.sessions(), player_id) >= 0 && *session
                    == self.sessions()[session_index(self.sessions(), player_id)],
                None => session_index(self.sessions(), player_id) < 0,
            },
    {
        match self.session_position(player_id) {
            Some(i) => Some(&self.player_sessions[i]),
            None => None,
        }
    }

    /// Enters a room, in place of the room that had its id or behind all
    /// others, and answers with its id.
    pub fn insert_room(&mut self, room: GameRoom) -> (r: u128)
        ensures
            r == room.id,
            final(self).rooms() == with_room(old(self).rooms(), room),
            final(self).sessions() == old(self).sessions(),
    {
        let room_id = room.id;
        match self.room_position(room_id) {
            Some(i) => {
                self.rooms[i] = room;
            },
            None => {
                self.rooms.push(room);
            },
        }
        room_id
    }

    /// Enters a session: in place of the session that the player had, or
    /// behind all others.
    pub fn insert_session(&mut self, session: PlayerSession)
        ensures
            final(self).sessions() == with_session(old(self).sessions(), session),
            final(self).rooms() == old(self).rooms(),
    {
        match self.session_position(session.player_id) {
            Some(i) => {
                self.player_sessions[i] = session;
            },
            None => {
                self.player_sessions.push(session);
            },
        }
    }

    /// Closes a room that has no player left, and says whether it did.
    pub fn remove_room_if_empty(&mut self, room_id: u128) -> (r: bool)
        ensures
            final(self).sessions() == old(self).sessions(),
            r == (room_index(old(self).rooms(), room_id) >= 0 && old(self).rooms()[room_index(
                old(self).rooms(),
                room_id,
            )].players@.len() == 0),
            r ==> final(self).rooms() == old(self).rooms().remove(
                room_index(old(self).rooms(), room_id),
            ),
            !r ==> final(self).same_as(*old(self)),
    {
        match self.room_position(room_id) {
            Some(i) => {
                if self.rooms[i].players.len() == 0 {
                    self.rooms.remove(i);
                    true
                } else {
                    false
                }
            },
            None => false,
        }
    }

    /// Opens a room under given ids at a given time, with a host who is its
    /// first player. A room takes one to eight players, four where no
    /// number is asked for.
    pub fn create_room_with(
        &mut self,
        room_id: u128,
        host_player_id: u128,
        now: i64,
        name: String,
        host_player_name: String,
        max_players: Option<usize>,
    ) -> (r: Result<CreateRoomResponse, String>)
        ensures
            room_created(
                *old(self),
                *final(self),
                room_id,
                host_player_id,
                now,
                name,
                host_player_name,
                max_players,
                r,
            ),
    {
        let max_players = match max_players {
            Some(n) => n,
            None => DEFAULT_MAX_PLAYERS,
        };
        if max_players < 1 || max_players > 8 {
            return Err("Max players must be between 1 and 8".to_string());
        }
        let room = GameRoom::new_with(
            room_id,
            now,
            name.clone(),
            host_player_id,
            host_player_name.clone(),
            max_players,
            get_default_airports(),
            get_default_cargo_types(),
            get_default_distances(),
        );
        let player_session = PlayerSession {
            player_id: host_player_id,
            player_name: host_player_name.clone(),
            game_room_id: Some(room_id),
            connected_at: now,
        };
        let ghost opened = room;
        let _ = self.insert_room(room);
        self.insert_session(player_session);
        proof {
            let i = room_index(old(self).rooms(), room_id);
            let at = if i >= 0 {
                i
            } else {
                old(self).rooms().len() as int
            };
            crate::search::lemma_first_where(old(self).rooms(), is_room(room_id));
            assert(self.rooms()[at] == opened);
        }
        Ok(
            CreateRoomResponse {
                room_id,
                room_name: name,
                host_player_id,
                host_player_name,
                max_players,
                current_players: 1,
            },
        )
    }

    /// Opens a room now, under new ids.
    pub fn create_room(
        &mut self,
        name: String,
        host_player_name: String,
        max_players: Option<usize>,
    ) -> (r: Result<CreateRoomResponse, String>)
        ensures
            exists|room_id: u128, host_player_id: u128, now: i64|
                room_created(
                    *old(self),
                    *final(self),
                    room_id,
                    host_player_id,
                    now,
                    name,
                    host_player_name,
                    max_players,
                    r,
                ),
    {
        let host_player_id = fresh_id();
        let room_id = fresh_id();
        let now = now();
        self.create_room_with(room_id, host_player_id, now, name, host_player_name, max_players)
    }

    /// The rooms that are open, each summed up, in the order they were
    /// opened.
    pub fn list_rooms(&self) -> (r: Vec<RoomInfo>)
        ensures
            pairwise(r@, self.rooms(), shows_room()),
    {
        let mut infos: Vec<RoomInfo> = Vec::new();
        let mut i: usize = 0;
        while i < self.rooms.len()
            invariant
                i <= self.rooms.len(),
                pairwise(infos@, self.rooms@.subrange(0, i as int), shows_room()),
            decreases self.rooms.len() - i,
        {
            let info = room_info(&self.rooms[i]);
            proof {
                lemma_pairwise_push(
                    infos@,
                    self.rooms@.subrange(0, i as int),
                    shows_room(),
                    info,
                    self.rooms[i as int],
                );
                assert(self.rooms@.subrange(0, i as int).push(self.rooms[i as int])
                    =~= self.rooms@.subrange(0, i + 1));
            }
            infos.push(info);
            i += 1;
        }
        proof {
            assert(self.rooms@.subrange(0, i as int) =~= self.rooms@);
        }
        infos
    }

    /// Lets a player into a room at a given time, under a given id unless
    /// the player takes the place of one who was there. The room must be
    /// there and must let players in.
    pub fn join_room_with(
        &mut self,
        candidate_id: u128,
        now: i64,
        room_id: u128,
        player_name: String,
        starting_airport: Option<String>,
    ) -> (r: Result<JoinRoomResponse, String>)
        ensures
            room_joined(
                *old(self),
                *final(self),
                candidate_id,
                now,
                room_id,
                player_name,
                starting_airport,
                r,
            ),
    {
        let at = match self.room_position(room_id) {
            Some(i) => i,
            None => {
                return Err("Room not found".to_string());
            },
        };
        if !self.rooms[at].is_joinable() {
            return Err("Room is not joinable".to_string());
        }
        let player_id = match self.rooms[at].add_player_at(
            now,
            candidate_id,
            player_name.clone(),
            starting_airport,
        ) {
            Ok(id) => id,
            Err(reason) => {
                proof {
                    assert(self.rooms@ =~= old(self).rooms@.update(at as int, self.rooms[at as int]));
                }
                return Err(reason);
            },
        };
        proof {
            assert(self.rooms@ =~= old(self).rooms@.update(at as int, self.rooms[at as int]));
        }
        let player_session = PlayerSession {
            player_id,
            player_name: player_name.clone(),
            game_room_id: Some(room_id),
            connected_at: now,
        };
        self.insert_session(player_session);
        Ok(
            JoinRoomResponse {
                room_id,
                player_id,
                player_name,
                success: true,
                message: "Successfully joined room".to_string(),
            },
        )
    }

    /// Lets a player into a room now.
    pub fn join_room(
        &mut self,
        room_id: u128,
        player_name: String,
        starting_airport: Option<String>,
    ) -> (r: Result<JoinRoomResponse, String>)
        ensures
            exists|candidate_id: u128, now: i64|
                room_joined(
                    *old(self),
                    *final(self),
                    candidate_id,
                    now,
                    room_id,
                    player_name,
                    starting_airport,
                    r,
                ),
    {
        let candidate_id = fresh_id();
        let now = now();
        self.join_room_with(candidate_id, now, room_id, player_name, starting_airport)
    }

    /// Marks a player of a room offline at a given time; the player stays
    /// in the room. Where nobody is online any more, the game waits for
    /// players. The player's session names no room from then on.
    pub fn leave_room_at(&mut self, now: i64, room_id: u128, player_id: u128) -> (r: Result<
        LeaveRoomResponse,
        String,
    >)
        ensures
            room_left(*old(self), *final(self), now, room_id, player_id, r),
    {
        match self.room_position(room_id) {
            Some(at) => {
                match self.rooms[at].mark_player_offline_at(now, player_id) {
                    Ok(()) => {},
                    Err(reason) => {
                        proof {
                            assert(self.rooms@ =~= old(self).rooms@);
                        }
                        return Err(reason);
                    },
                }
                let ghost gone = self.rooms[at as int];
                if self.rooms[at].online_players() == 0 {
                    self.rooms[at].game_status = GameStatus::WaitingForPlayers;
                }
                proof {
                    assert(self.rooms[at as int] == settled(gone));
                    assert(self.rooms@ =~= old(self).rooms@.update(at as int, settled(gone)));
                }
            },
            None => {},
        }
        match self.session_position(player_id) {
            Some(j) => {
                self.player_sessions[j].game_room_id = None;
                proof {
                    assert(self.player_sessions@ =~= without_room(
                        old(self).player_sessions@,
                        player_id,
                    ));
                }
            },
            None => {},
        }
        Ok(LeaveRoomResponse { success: true, message: "Successfully left room".to_string() })
    }

    /// Marks a player of a room offline now.
    pub fn leave_room(&mut self, room_id: u128, player_id: u128) -> (r: Result<
        LeaveRoomResponse,
        String,
    >)
        ensures
            exists|now: i64| room_left(*old(self), *final(self), now, room_id, player_id, r),
    {
        let now = now();
        self.leave_room_at(now, room_id, player_id)
    }

    /// Of sessions that were kept, those under a name that name a room,
    /// each with the name of its room.
    pub fn find_player_sessions(&self, player_name: &str, stored: &Vec<PlayerSession>) -> (r: Vec<
        PlayerSessionInfo,
    >)
        ensures
            pairwise(
                r@,
                keep_where(stored@, is_in_room_as(player_name@)),
                shows_session(self.rooms()),
            ),
    {
        let wanted = player_name.to_owned();
        let ghost matching = is_in_room_as(player_name@);
        let mut infos: Vec<PlayerSessionInfo> = Vec::new();
        let mut i: usize = 0;
        while i < stored.len()
            invariant
                i <= stored.len(),
                wanted@ == player_name@,
                matching == is_in_room_as(player_name@),
                pairwise(
                    infos@,
                    keep_where(stored@.subrange(0, i as int), matching),
                    shows_session(self.rooms()),
                ),
            decreases stored.len() - i,
        {
            proof {
                lemma_keep_where_step(stored@, matching, i as int);
            }
            let session = &stored[i];
            if session.player_name == wanted {
                match session.game_room_id {
                    Some(room_id) => {
                        let room_name = match self.get_room(room_id) {
                            Some(room) => room.name.clone(),
                            None => "Unknown Room".to_string(),
                        };
                        let info = PlayerSessionInfo {
                            player_id: session.player_id,
                            player_name: session.player_name.clone(),
                            room_id,
                            room_name,
                            connected_at: session.connected_at,
                        };
                        proof {
                            lemma_pairwise_push(
                                infos@,
                                keep_where(stored@.subrange(0, i as int), matching),
                                shows_session(self.rooms()),
                                info,
                                stored[i as int],
                            );
                        }
                        infos.push(info);
                    },
                    None => {},
                }
            }
            i += 1;
        }
        proof {
            assert(stored@.subrange(0, i as int) =~= stored@);
        }
        infos
    }

    /// Shows a room to one of its players at a given time, and notes that
    /// the player was seen.
    pub fn get_room_state_at(&mut self, now: i64, room_id: u128, requesting_player_id: u128) -> (r:
        Result<MultiplayerGameStateResponse, String>)
        ensures
            in_room(
                *old(self),
                *final(self),
                room_id,
                r,
                reads_state(now, requesting_player_id, r),
            ),
    {
        let at = match self.room_position(room_id) {
            Some(i) => i,
            None => {
                return Err("Room not found".to_string());
            },
        };
        let is_player = self.rooms[at].player_position(requesting_player_id).is_some();
        self.rooms[at].update_player_activity_at(now, &requesting_player_id);
        proof {
            assert(self.rooms@ =~= old(self).rooms@.update(at as int, self.rooms[at as int]));
        }
        if !is_player {
            return Err("Player not in room".to_string());
        }
        build_multiplayer_game_state_response(&self.rooms[at], requesting_player_id)
    }

    /// Shows a room to one of its players now.
    pub fn get_room_state(&mut self, room_id: u128, requesting_player_id: u128) -> (r: Result<
        MultiplayerGameStateResponse,
        String,
    >)
        ensures
            exists|now: i64|
                in_room(
                    *old(self),
                    *final(self),
                    room_id,
                    r,
                    #[trigger] reads_state(now, requesting_player_id, r),
                ),
    {
        let now = now();
        self.get_room_state_at(now, room_id, requesting_player_id)
    }

    /// Flies a player of a room to a destination at a given time.
    pub fn player_travel_at(&mut self, now: i64, room_id: u128, player_id: u128, destination: String) -> (r:
        Result<PlayerTravelResponse, String>)
        ensures
            in_room(
                *old(self),
                *final(self),
                room_id,
                r,
                travels(now, player_id, destination@, r),
            ),
    {
        let at = match self.room_position(room_id) {
            Some(i) => i,
            None => {
                return Err("Room not found".to_string());
            },
        };
        let result = travel_in_room(&mut self.rooms[at], now, player_id, destination);
        proof {
            assert(self.rooms@ =~= old(self).rooms@.update(at as int, self.rooms[at as int]));
        }
        result
    }

    /// Flies a player of a room to a destination now.
    pub fn player_travel(&mut self, room_id: u128, player_id: u128, destination: String) -> (r:
        Result<PlayerTravelResponse, String>)
        ensures
            exists|now: i64|
                in_room(
                    *old(self),
                    *final(self),
                    room_id,
                    r,
                    #[trigger] travels(now, player_id, destination@, r),
                ),
    {
        let now = now();
        self.player_travel_at(now, room_id, player_id, destination)
    }

    /// Makes a trade for a player of a room.
    pub fn player_trade(&mut self, room_id: u128, player_id: u128, request: TradeRequest) -> (r:
        Result<PlayerTradeResponse, String>)
        ensures
            in_room(
                *old(self),
                *final(self),
                room_id,
                r,
                trades(player_id, request, r),
            ),
    {
        let at = match self.room_position(room_id) {
            Some(i) => i,
            None => {
                return Err("Room not found".to_string());
            },
        };
        let result = trade_in_room(&mut self.rooms[at], player_id, request);
        proof {
            assert(self.rooms@ =~= old(self).rooms@.update(at as int, self.rooms[at as int]));
        }
        result
    }

    /// Buys fuel for a player of a room.
    pub fn player_buy_fuel(&mut self, room_id: u128, player_id: u128, request: FuelRequest) -> (r:
        Result<PlayerFuelResponse, String>)
        ensures
            in_room(
                *old(self),
                *final(self),
                room_id,
                r,
                refuels(player_id, request, r),
            ),
    {
        let at = match self.room_position(room_id) {
            Some(i) => i,
            None => {
                return Err("Room not found".to_string());
            },
        };
        let result = buy_fuel_in_room(&mut self.rooms[at], player_id, request);
        proof {
            assert(self.rooms@ =~= old(self).rooms@.update(at as int, self.rooms[at as int]));
        }
        result
    }

    /// Writes a player's message on the board of a room, under a given id
    /// and time.
    pub fn post_message_with(
        &mut self,
        message_id: u128,
        now: i64,
        room_id: u128,
        player_id: u128,
        content: String,
    ) -> (r: Result<PostMessageResponse, String>)
        ensures
            in_room(
                *old(self),
                *final(self),
                room_id,
                r,
                posts(message_id, now, player_id, content, r),
            ),
    {
        let at = match self.room_position(room_id) {
            Some(i) => i,
            None => {
                return Err("Room not found".to_string());
            },
        };
        let result = post_in_room(&mut self.rooms[at], message_id, now, player_id, content);
        proof {
            assert(self.rooms@ =~= old(self).rooms@.update(at as int, self.rooms[at as int]));
        }
        result
    }

    /// Writes a player's message on the board of a room now, under a new
    /// id.
    pub fn post_message(&mut self, room_id: u128, player_id: u128, content: String) -> (r: Result<
        PostMessageResponse,
        String,
    >)
        ensures
            exists|message_id: u128, now: i64|
                in_room(
                    *old(self),
                    *final(self),
                    room_id,
                    r,
                    #[trigger] posts(message_id, now, player_id, content, r),
                ),
    {
        let message_id = fresh_id();
        let now = now();
        self.post_message_with(message_id, now, room_id, player_id, content)
    }

    /// Reads the board of a room for one of its players.
    pub fn get_messages(&self, room_id: u128, player_id: u128) -> (r: Result<
        GetMessagesResponse,
        String,
    >)
        ensures
            room_index(self.rooms(), room_id) < 0 ==> fails_with(r, "Room not found"@),
            room_index(self.rooms(), room_id) >= 0 ==> board_read(
                self.rooms()[room_index(self.rooms(), room_id)],
                player_id,
                r,
            ),
    {
        match self.room_position(room_id) {
            Some(at) => read_board_in_room(&self.rooms[at], player_id),
            None => Err("Room not found".to_string()),
        }
    }
}

impl Default for MultiplayerGameService {
    fn default() -> (r: Self)
        ensures
            r.rooms() == Seq::<GameRoom>::empty(),
            r.sessions() == Seq::<PlayerSession>::empty(),
    {
        Self::new()
    }
}

} // verus!

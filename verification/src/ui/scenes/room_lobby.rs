//! The lobby: the scene in which a player picks a room or opens one.

use vstd::prelude::*;
use crate::api::models::{CreateRoomResponse, JoinRoomResponse, PlayerSessionInfo, RoomInfo};
use crate::text::join2;
use crate::ui::game_api_client::ApiError;

verus! {

/// What the lobby is doing.
#[derive(Debug, Clone)]
pub enum LobbyState {
    Loading,
    ShowingRooms,
    CreatingRoom,
    /// Joining a room, by its id.
    JoiningRoom(u128),
    /// Something failed, for a reason.
    Error(String),
}

/// What the lobby keeps. The time of the last refresh is in nanoseconds
/// since the Unix epoch.
#[derive(Debug, Clone)]
pub struct RoomLobbyScene {
    pub lobby_state: LobbyState,
    pub available_rooms: Vec<RoomInfo>,
    pub player_name: String,
    pub previous_player_name: String,
    pub existing_sessions: Vec<PlayerSessionInfo>,
    pub create_room_name: String,
    pub create_room_max_players: usize,
    pub error_message: Option<String>,
    pub last_refresh: i64,
}

/// A player in a room.
#[derive(Debug, Clone)]
pub struct GameSession {
    pub room_id: u128,
    pub player_id: u128,
    pub player_name: String,
}

impl GameSession {
    /// The session of the host of a room that was just opened.
    pub fn of_host(response: CreateRoomResponse) -> (r: Self)
        ensures
            r.room_id == response.room_id,
            r.player_id == response.host_player_id,
            r.player_name == response.host_player_name,
    {
        GameSession {
            room_id: response.room_id,
            player_id: response.host_player_id,
            player_name: response.host_player_name,
        }
    }

    /// The session of a player who was just let into a room.
    pub fn of_player(response: JoinRoomResponse) -> (r: Self)
        ensures
            r.room_id == response.room_id,
            r.player_id == response.player_id,
            r.player_name == response.player_name,
    {
        GameSession {
            room_id: response.room_id,
            player_id: response.player_id,
            player_name: response.player_name,
        }
    }
}

impl RoomLobbyScene {
    /// The lobby as it is first shown, at a given time.
    pub fn new_at(now: i64) -> (r: Self)
        ensures
            r.lobby_state is Loading,
            r.available_rooms@ == Seq::<RoomInfo>::empty(),
            r.player_name@ == "Player"@,
            r.previous_player_name@ == Seq::<char>::empty(),
            r.existing_sessions@ == Seq::<PlayerSessionInfo>::empty(),
            r.create_room_name@ == "My Game Room"@,
            r.create_room_max_players == 4,
            r.error_message is None,
            r.last_refresh == now,
    {
        RoomLobbyScene {
            lobby_state: LobbyState::Loading,
            available_rooms: Vec::new(),
            player_name: "Player".to_string(),
            previous_player_name: String::new(),
            existing_sessions: Vec::new(),
            create_room_name: "My Game Room".to_string(),
            create_room_max_players: 4,
            error_message: None,
            last_refresh: now,
        }
    }

    /// Begins to fetch the rooms, at a given time.
    pub fn begin_refresh(&mut self, now: i64)
        ensures
            *final(self) == (RoomLobbyScene {
                lobby_state: LobbyState::Loading,
                last_refresh: now,
                ..*old(self)
            }),
    {
        self.lobby_state = LobbyState::Loading;
        self.last_refresh = now;
    }

    /// Takes in what fetching the rooms came to: the rooms, which are then
    /// shown, or an error, which empties the list.
    pub fn rooms_fetched(&mut self, fetched: Result<Vec<RoomInfo>, ApiError>)
        ensures
            match fetched {
                Ok(rooms) => *final(self) == (RoomLobbyScene {
                    available_rooms: rooms,
                    lobby_state: LobbyState::ShowingRooms,
                    ..*old(self)
                }),
                Err(error) => {
                    &&& *final(self) == (RoomLobbyScene {
                        available_rooms: final(self).available_rooms,
                        lobby_state: final(self).lobby_state,
                        ..*old(self)
                    })
                    &&& final(self).available_rooms@ == Seq::<RoomInfo>::empty()
                    &&& final(self).lobby_state is Error
                    &&& final(self).lobby_state->Error_0@ == "Failed to fetch rooms: "@
                        + error.text()
                },
            },
    {
        match fetched {
            Ok(rooms) => {
                self.available_rooms = rooms;
                self.lobby_state = LobbyState::ShowingRooms;
            },
            Err(error) => {
                self.available_rooms = Vec::new();
                self.lobby_state = LobbyState::Error(
                    join2("Failed to fetch rooms: ", error.message().as_str()),
                );
            },
        }
    }

    /// Forgets the sessions that were found for the player.
    pub fn check_existing_sessions(&mut self)
        ensures
            *final(self) == (RoomLobbyScene {
                existing_sessions: final(self).existing_sessions,
                ..*old(self)
            }),
            final(self).existing_sessions@ == Seq::<PlayerSessionInfo>::empty(),
    {
        self.existing_sessions = Vec::new();
    }
}

} // verus!

//! How a request that could not be answered is reported: under a tag that
//! names the request, with a status that tells whose fault it was.

use vstd::prelude::*;

verus! {

/// The requests that the services answer.
#[derive(Debug, Clone, Copy, PartialEq, Eq, Structural)]
pub enum Endpoint {
    CreateRoom,
    ListRooms,
    JoinRoom,
    LeaveRoom,
    GetRoomState,
    PlayerTravel,
    PlayerTrade,
    PlayerFuel,
    FindPlayerSessions,
    PostMessage,
    GetMessages,
    CreateGame,
    GetGameState,
    Travel,
    Trade,
    BuyFuel,
}

/// The report of a request that could not be answered.
#[derive(Debug, Clone)]
pub struct ErrorResponse {
    pub error: String,
    pub message: String,
}

/// The status of a request that was wrong.
pub const BAD_REQUEST: u16 = 400;

/// The status of a request for what is not there.
pub const NOT_FOUND: u16 = 404;

/// The status of a request that the server could not handle.
pub const INTERNAL_SERVER_ERROR: u16 = 500;

/// The tag under which a failed request is reported.
pub open spec fn tag_of(endpoint: Endpoint) -> Seq<char> {
    match endpoint {
        Endpoint::CreateRoom => "CreateRoomError"@,
        Endpoint::ListRooms => "ListRoomsError"@,
        Endpoint::JoinRoom => "JoinRoomError"@,
        Endpoint::LeaveRoom => "LeaveRoomError"@,
        Endpoint::GetRoomState => "GetRoomStateError"@,
        Endpoint::PlayerTravel => "PlayerTravelError"@,
        Endpoint::PlayerTrade => "PlayerTradeError"@,
        Endpoint::PlayerFuel => "PlayerFuelError"@,
        Endpoint::FindPlayerSessions => "FindPlayerSessionsError"@,
        Endpoint::PostMessage => "PostMessageError"@,
        Endpoint::GetMessages => "GetMessagesError"@,
        Endpoint::CreateGame => "GameCreationError"@,
        Endpoint::GetGameState => "GameNotFound"@,
        Endpoint::Travel => "TravelError"@,
        Endpoint::Trade => "TradeError"@,
        Endpoint::BuyFuel => "FuelPurchaseError"@,
    }
}

/// The status with which a failed request is reported: a list of rooms
/// that cannot be had is the server's fault, a game that cannot be shown is
/// not there, all else is a bad request.
pub open spec fn status_of(endpoint: Endpoint) -> u16 {
    match endpoint {
        Endpoint::ListRooms => INTERNAL_SERVER_ERROR,
        Endpoint::GetGameState => NOT_FOUND,
        _ => BAD_REQUEST,
    }
}

/// The tag under which a failed request is reported.
pub fn error_tag(endpoint: Endpoint) -> (r: &'static str)
    ensures
        r@ == tag_of(endpoint),
{
    match endpoint {
        Endpoint::CreateRoom => "CreateRoomError",
        Endpoint::ListRooms => "ListRoomsError",
        Endpoint::JoinRoom => "JoinRoomError",
        Endpoint::LeaveRoom => "LeaveRoomError",
        Endpoint::GetRoomState => "GetRoomStateError",
        Endpoint::PlayerTravel => "PlayerTravelError",
        Endpoint::PlayerTrade => "PlayerTradeError",
        Endpoint::PlayerFuel => "PlayerFuelError",
        Endpoint::FindPlayerSessions => "FindPlayerSessionsError",
        Endpoint::PostMessage => "PostMessageError",
        Endpoint::GetMessages => "GetMessagesError",
        Endpoint::CreateGame => "GameCreationError",
        Endpoint::GetGameState => "GameNotFound",
        Endpoint::Travel => "TravelError",
        Endpoint::Trade => "TradeError",
        Endpoint::BuyFuel => "FuelPurchaseError",
    }
}

/// The status with which a failed request is reported.
pub fn error_status(endpoint: Endpoint) -> (r: u16)
    ensures
        r == status_of(endpoint),
{
    match endpoint {
        Endpoint::ListRooms => INTERNAL_SERVER_ERROR,
        Endpoint::GetGameState => NOT_FOUND,
        _ => BAD_REQUEST,
    }
}

/// The report of a request that failed for a reason.
pub fn error_response(endpoint: Endpoint, message: String) -> (r: ErrorResponse)
    ensures
        r.error@ == tag_of(endpoint),
        r.message == message,
{
    ErrorResponse { error: error_tag(endpoint).to_string(), message }
}

} // verus!

//! The requests that players send and the responses they get. Ids are
//! 128-bit numbers, times are nanoseconds since the Unix epoch, distances
//! are metres.

use vstd::prelude::*;
use crate::models::amounts::AmountMap;
use crate::systems::multiplayer::GameStatus;

verus! {

/// A request for a new game played alone.
#[derive(Debug, Clone)]
pub struct CreateGameRequest {
    pub player_name: String,
    pub starting_money: Option<u32>,
    pub starting_airport: Option<String>,
}

/// What is shown of a player.
#[derive(Debug, Clone)]
pub struct PlayerInfo {
    pub id: Option<u128>,
    pub name: String,
    pub money: u32,
    pub current_airport: String,
    pub fuel: u32,
    pub max_fuel: u32,
    pub cargo_inventory: AmountMap,
    pub cargo_weight: u32,
    pub max_cargo_weight: u32,
    pub fuel_efficiency: u32,
    pub is_online: Option<bool>,
    pub last_seen: Option<i64>,
    pub is_host: Option<bool>,
}

/// What is shown of the market where a player is.
#[derive(Debug, Clone)]
pub struct MarketInfo {
    pub airport_id: String,
    pub airport_name: String,
    pub fuel_price: u32,
    pub cargo_prices: AmountMap,
    pub last_updated: i64,
}

/// What is shown of an airport that a player could fly to.
#[derive(Debug, Clone)]
pub struct DestinationInfo {
    pub airport_id: String,
    pub airport_name: String,
    pub distance: u64,
    pub fuel_required: u32,
    pub can_travel: bool,
    pub fuel_price: u32,
}

/// What is shown of a player's statistics.
#[derive(Debug, Clone)]
pub struct StatisticsInfo {
    pub total_revenue: u32,
    pub total_expenses: u32,
    pub net_profit: u32,
    pub cargo_trades: u32,
    pub fuel_purchased: u32,
    pub distances_traveled: u64,
    pub airports_visited: Vec<String>,
    pub best_single_trade: u32,
    pub most_profitable_cargo: String,
    pub efficiency_score: u32,
}

/// A request to fly to an airport.
#[derive(Debug, Clone)]
pub struct TravelRequest {
    pub destination: String,
}

/// A request to buy or sell cargo.
#[derive(Debug, Clone)]
pub struct TradeRequest {
    pub cargo_type: String,
    pub quantity: u32,
    pub action: TradeAction,
}

/// The two sides of a trade.
#[derive(Debug, Clone, Copy, PartialEq, Eq, Structural)]
pub enum TradeAction {
    Buy,
    Sell,
}

/// A request to buy fuel.
#[derive(Debug, Clone)]
pub struct FuelRequest {
    pub quantity: u32,
}

/// A request to open a room.
#[derive(Debug, Clone)]
pub struct CreateRoomRequest {
    pub name: String,
    pub host_player_name: String,
    pub max_players: Option<usize>,
}

/// The answer to a request to open a room.
#[derive(Debug, Clone)]
pub struct CreateRoomResponse {
    pub room_id: u128,
    pub room_name: String,
    pub host_player_id: u128,
    pub host_player_name: String,
    pub max_players: usize,
    pub current_players: usize,
}

/// A room summed up.
#[derive(Debug, Clone)]
pub struct RoomInfo {
    pub id: u128,
    pub name: String,
    pub host_player_name: String,
    pub current_players: u32,
    pub max_players: u32,
    pub created_at: i64,
    pub game_status: GameStatus,
    pub is_joinable: bool,
}

/// A request to come into a room.
#[derive(Debug, Clone)]
pub struct JoinRoomRequest {
    pub player_name: String,
    pub starting_airport: Option<String>,
}

/// The answer to a request to come into a room: the id in it is the
/// player's from then on.
#[derive(Debug, Clone)]
pub struct JoinRoomResponse {
    pub room_id: u128,
    pub player_id: u128,
    pub player_name: String,
    pub success: bool,
    pub message: String,
}

/// The answer to a request to leave a room.
#[derive(Debug, Clone)]
pub struct LeaveRoomResponse {
    pub success: bool,
    pub message: String,
}

/// A session of a player, with the name of its room.
#[derive(Debug, Clone)]
pub struct PlayerSessionInfo {
    pub player_id: u128,
    pub player_name: String,
    pub room_id: u128,
    pub room_name: String,
    pub connected_at: i64,
}

/// A room as one of its players sees it.
#[derive(Debug, Clone)]
pub struct MultiplayerGameStateResponse {
    pub room_info: RoomInfo,
    pub my_player_id: u128,
    pub players: Vec<PlayerInfo>,
    pub current_market: MarketInfo,
    pub available_destinations: Vec<DestinationInfo>,
    pub statistics: StatisticsInfo,
    pub turn_number: u32,
    pub world_time: i64,
}

/// The answer to a request to fly in a room.
#[derive(Debug, Clone)]
pub struct PlayerTravelResponse {
    pub success: bool,
    pub message: String,
    pub fuel_consumed: Option<u32>,
    pub new_location: Option<String>,
}

/// The answer to a request to trade in a room.
#[derive(Debug, Clone)]
pub struct PlayerTradeResponse {
    pub success: bool,
    pub message: String,
    pub transaction_amount: Option<u32>,
    pub new_money: Option<u32>,
    pub new_inventory: Option<AmountMap>,
}

/// The answer to a request to buy fuel in a room.
#[derive(Debug, Clone)]
pub struct PlayerFuelResponse {
    pub success: bool,
    pub message: String,
    pub cost: Option<u32>,
    pub new_fuel: Option<u32>,
    pub new_money: Option<u32>,
}

/// A request to write on the board of a room.
#[derive(Debug, Clone)]
pub struct PostMessageRequest {
    pub content: String,
}

/// The answer to a request to write on the board of a room.
#[derive(Debug, Clone)]
pub struct PostMessageResponse {
    pub success: bool,
    pub message: String,
    pub message_id: Option<u128>,
}

/// A message as it is shown.
#[derive(Debug, Clone)]
pub struct MessageInfo {
    pub id: u128,
    pub author_id: u128,
    pub author_name: String,
    pub content: String,
    pub airport_id: String,
    pub created_at: i64,
}

/// The answer to a request to read the board: the messages at an airport,
/// and how many were written there in all.
#[derive(Debug, Clone)]
pub struct GetMessagesResponse {
    pub messages: Vec<MessageInfo>,
    pub airport_id: String,
    pub total_count: usize,
}

/// What is shown of an event.
#[derive(Debug, Clone)]
pub struct EventInfo {
    pub event_type: String,
    pub affected_cargo: String,
    pub affected_airport: String,
    pub price_multiplier: u32,
    pub turns_remaining: u32,
    pub description: String,
}

/// A game played alone as its player sees it.
#[derive(Debug, Clone)]
pub struct GameStateResponse {
    pub player: PlayerInfo,
    pub current_market: MarketInfo,
    pub available_destinations: Vec<DestinationInfo>,
    pub active_events: Vec<EventInfo>,
    pub statistics: StatisticsInfo,
    pub turn_number: u32,
}

/// The answer to a request for a new game played alone.
#[derive(Debug, Clone)]
pub struct CreateGameResponse {
    pub session_id: u128,
    pub player_name: String,
    pub game_state: GameStateResponse,
}

/// The answer to a request to fly in a game played alone.
#[derive(Debug, Clone)]
pub struct TravelResponse {
    pub success: bool,
    pub message: String,
    pub fuel_consumed: Option<u32>,
    pub new_location: Option<String>,
    pub game_state: Option<GameStateResponse>,
}

/// The answer to a request to trade in a game played alone.
#[derive(Debug, Clone)]
pub struct TradeResponse {
    pub success: bool,
    pub message: String,
    pub transaction_amount: Option<u32>,
    pub new_money: Option<u32>,
    pub new_inventory: Option<AmountMap>,
    pub game_state: Option<GameStateResponse>,
}

/// The answer to a request to buy fuel in a game played alone.
#[derive(Debug, Clone)]
pub struct FuelResponse {
    pub success: bool,
    pub message: String,
    pub cost: Option<u32>,
    pub new_fuel: Option<u32>,
    pub new_money: Option<u32>,
    pub game_state: Option<GameStateResponse>,
}

} // verus!

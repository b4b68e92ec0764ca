use kzrk::api::multiplayer_service::MultiplayerGameService;
use kzrk::clock::now;
use kzrk::models::market::Market;
use kzrk::systems::multiplayer::GameStatus;

/// A service that takes up the rooms and sessions of another, as a server
/// does that is started again over what it kept.
fn restarted(service: &MultiplayerGameService) -> MultiplayerGameService {
    MultiplayerGameService::with_state(service.all_rooms().clone(), service.all_sessions().clone())
}

#[test]
fn test_room_persistence_through_service_restart() {
    // Create first service instance
    let mut service = MultiplayerGameService::new();

    // Create a room
    let room_response = service
        .create_room(
            "Persistence Test Room".to_string(),
            "TestHost".to_string(),
            Some(4),
        )
        .expect("Failed to create room");

    // Verify room exists
    let rooms = service.list_rooms();
    assert_eq!(rooms.len(), 1);
    assert_eq!(rooms[0].name, "Persistence Test Room");

    // Create second service instance (simulates server restart)
    let service = restarted(&service);

    // Verify room persists
    let rooms = service.list_rooms();
    assert_eq!(rooms.len(), 1);
    assert_eq!(rooms[0].id, room_response.room_id);
    assert_eq!(rooms[0].name, "Persistence Test Room");
    assert_eq!(rooms[0].host_player_name, "TestHost");
}

#[test]
fn test_empty_room_persistence() {
    let mut service = MultiplayerGameService::new();

    // Create room
    let room_response = service
        .create_room("Empty Room Test".to_string(), "Host".to_string(), Some(4))
        .expect("Failed to create room");
    let room_id = room_response.room_id;
    let host_id = room_response.host_player_id;

    // Join second player
    let join_response = service
        .join_room(room_id, "Player2".to_string(), Some("LAX".to_string()))
        .expect("Failed to join room");
    let player_id = join_response.player_id;

    // Verify room has 2 players
    let rooms = service.list_rooms();
    assert_eq!(rooms[0].current_players, 2);

    // Both players leave
    service
        .leave_room(room_id, host_id)
        .expect("Failed for host to leave");
    service
        .leave_room(room_id, player_id)
        .expect("Failed for player to leave");

    // Verify room still exists but is empty
    let rooms = service.list_rooms();
    assert_eq!(rooms.len(), 1);
    assert_eq!(rooms[0].current_players, 0);
    assert_eq!(rooms[0].game_status, GameStatus::WaitingForPlayers);
    assert!(rooms[0].is_joinable);

    // Create new service and verify empty room persists
    let mut service = restarted(&service);

    let rooms = service.list_rooms();
    assert_eq!(rooms.len(), 1);
    assert_eq!(rooms[0].id, room_id);
    assert_eq!(rooms[0].current_players, 0);
    assert!(rooms[0].is_joinable);

    // Verify we can rejoin the empty room
    let rejoin_response = service
        .join_room(
            room_id,
            "RejoiningPlayer".to_string(),
            Some("JFK".to_string()),
        )
        .expect("Failed to rejoin empty room");

    assert_eq!(rejoin_response.room_id, room_id);
    assert_eq!(rejoin_response.player_name, "RejoiningPlayer");

    // Verify room now has 1 player again
    let rooms = service.list_rooms();
    assert_eq!(rooms[0].current_players, 1);
}

#[test]
fn test_game_state_persistence() {
    let mut service = MultiplayerGameService::new();

    let room_response = service
        .create_room(
            "Game State Test".to_string(),
            "GameHost".to_string(),
            Some(4),
        )
        .expect("Failed to create room");
    let room_id = room_response.room_id;
    let player_id = room_response.host_player_id;

    // Get initial game state without performing actions
    let initial_state = service
        .get_room_state(room_id, player_id)
        .expect("Failed to get room state");

    // Verify player state
    let player = initial_state
        .players
        .iter()
        .find(|p| p.id == Some(player_id))
        .expect("Player not found");
    assert_eq!(player.current_airport, "JFK"); // Default starting airport

    // Create new service and verify game state persists
    let mut service = restarted(&service);

    let persisted_state = service
        .get_room_state(room_id, player_id)
        .expect("Failed to get persisted room state");

    // Verify game state persisted
    let player = persisted_state
        .players
        .iter()
        .find(|p| p.id == Some(player_id))
        .expect("Player not found after persistence");

    assert_eq!(player.current_airport, "JFK");
    assert_eq!(player.name, "GameHost");

    // Verify room metadata persisted
    assert_eq!(persisted_state.room_info.name, "Game State Test");
    assert_eq!(persisted_state.room_info.current_players, 1);
}

#[test]
fn test_multiple_rooms_persistence() {
    let mut room_ids = Vec::new();

    // Create multiple rooms
    let mut service = MultiplayerGameService::new();

    for i in 0..3 {
        let response = service
            .create_room(format!("Room {}", i), format!("Host{}", i), Some(4))
            .expect("Failed to create room");
        room_ids.push(response.room_id);
    }

    // Verify all rooms exist
    let rooms = service.list_rooms();
    assert_eq!(rooms.len(), 3);

    // Verify all rooms persist
    let service = restarted(&service);

    let rooms = service.list_rooms();
    assert_eq!(rooms.len(), 3);

    // Verify each room persisted correctly
    for (i, &room_id) in room_ids.iter().enumerate() {
        let room = rooms
            .iter()
            .find(|r| r.id == room_id)
            .unwrap_or_else(|| panic!("Room {} not found", i));

        assert_eq!(room.name, format!("Room {}", i));
        assert_eq!(room.host_player_name, format!("Host{}", i));
        assert_eq!(room.max_players, 4);
    }
}

#[test]
fn test_in_memory_service() {
    // A service that keeps nothing starts with nothing.
    let mut service = MultiplayerGameService::new();

    let _room_response = service
        .create_room(
            "In Memory Room".to_string(),
            "InMemoryHost".to_string(),
            Some(4),
        )
        .expect("Failed to create room");

    let rooms = service.list_rooms();
    assert_eq!(rooms.len(), 1);
    assert_eq!(rooms[0].name, "In Memory Room");

    // Drop the service and create a new one - room should not persist
    drop(service);
    let new_service = MultiplayerGameService::new();
    let empty_rooms = new_service.list_rooms();
    assert_eq!(empty_rooms.len(), 0); // Should be empty since it's in-memory
}

/// Waits until the clock has moved on from a reading.
fn wait_for_the_clock(after: i64) {
    while now() <= after {}
}

#[test]
fn test_last_updated_changes() {
    let mut market = Market::new("JFK", 100);
    let initial_time = market.last_updated;

    // Small delay to ensure time difference
    wait_for_the_clock(initial_time);

    market.set_cargo_price("electronics", 500);
    assert!(market.last_updated > initial_time);

    let second_update_time = market.last_updated;
    wait_for_the_clock(second_update_time);

    market.update_fuel_price(120);
    assert!(market.last_updated > second_update_time);
}

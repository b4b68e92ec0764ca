use kzrk::api::models::{FuelRequest, TradeAction, TradeRequest};
use kzrk::api::multiplayer_service::MultiplayerGameService;
use kzrk::systems::multiplayer::{GameStatus, PlayerSession};

const SECOND: i64 = 1_000_000_000;

fn service_with_room(max_players: usize) -> (MultiplayerGameService, u128, u128) {
    let mut service = MultiplayerGameService::new();
    let created = service
        .create_room_with(1, 100, 0, "Room".to_string(), "Host".to_string(), Some(max_players))
        .unwrap();
    (service, created.room_id, created.host_player_id)
}

fn buy(cargo: &str, quantity: u32) -> TradeRequest {
    TradeRequest { cargo_type: cargo.to_string(), quantity, action: TradeAction::Buy }
}

fn sell(cargo: &str, quantity: u32) -> TradeRequest {
    TradeRequest { cargo_type: cargo.to_string(), quantity, action: TradeAction::Sell }
}

#[test]
fn create_room_answers_with_the_room_and_its_host() {
    let mut service = MultiplayerGameService::new();
    let created = service
        .create_room_with(1, 100, 9, "Room".to_string(), "Host".to_string(), None)
        .unwrap();
    assert_eq!(created.room_id, 1);
    assert_eq!(created.room_name, "Room");
    assert_eq!(created.host_player_id, 100);
    assert_eq!(created.host_player_name, "Host");
    assert_eq!(created.max_players, 4);
    assert_eq!(created.current_players, 1);
    let room = service.get_room(1).unwrap();
    assert_eq!(room.created_at, 9);
    assert_eq!(room.shared_state.airports.len(), 6);
    assert_eq!(room.shared_state.cargo_types.len(), 6);
    assert_eq!(room.shared_state.distances.len(), 15);
    let session = service.get_session(100).unwrap();
    assert_eq!(session.player_name, "Host");
    assert_eq!(session.game_room_id, Some(1));
    assert_eq!(session.connected_at, 9);
}

#[test]
fn create_room_takes_one_to_eight_players() {
    let mut service = MultiplayerGameService::new();
    for bad in [0usize, 9, 100] {
        let result =
            service.create_room_with(1, 100, 0, "Room".to_string(), "Host".to_string(), Some(bad));
        assert_eq!(result.unwrap_err(), "Max players must be between 1 and 8");
    }
    assert_eq!(service.all_rooms().len(), 0);
    assert_eq!(service.all_sessions().len(), 0);
    for (i, good) in [1usize, 8].into_iter().enumerate() {
        let created = service
            .create_room_with(i as u128, 100 + i as u128, 0, "R".to_string(), "H".to_string(), Some(good))
            .unwrap();
        assert_eq!(created.max_players, good);
    }
    assert_eq!(service.list_rooms().len(), 2);
}

#[test]
fn create_room_now_draws_new_ids() {
    let mut service = MultiplayerGameService::new();
    let first = service.create_room("A".to_string(), "H".to_string(), Some(4)).unwrap();
    let second = service.create_room("B".to_string(), "H".to_string(), Some(4)).unwrap();
    assert_ne!(first.room_id, second.room_id);
    assert_ne!(first.host_player_id, second.host_player_id);
    assert_ne!(first.room_id, first.host_player_id);
    assert!(kzrk::ident::has_random_kind(first.room_id));
    assert_eq!(service.list_rooms().len(), 2);
}

#[test]
fn scenario_leave_and_rejoin_returns_the_same_player() {
    // create room (max_players=4) -> host at default airport with default money
    let (mut service, room_id, host_id) = service_with_room(4);
    let host = service.get_room(room_id).unwrap().get_player(&host_id).unwrap();
    assert_eq!(host.player.current_airport, "JFK");
    assert_eq!(host.player.money, 5000);

    // join second player "Bob" at "LAX"
    let joined = service
        .join_room_with(200, SECOND, room_id, "Bob".to_string(), Some("LAX".to_string()))
        .unwrap();
    assert!(joined.success);
    assert_eq!(joined.message, "Successfully joined room");
    let bob_id = joined.player_id;
    let before = service.get_room(room_id).unwrap().get_player(&bob_id).unwrap();
    let (money, fuel) = (before.player.money, before.player.fuel);

    // Bob leaves
    let left = service.leave_room_at(2 * SECOND, room_id, bob_id).unwrap();
    assert!(left.success);
    assert_eq!(left.message, "Successfully left room");
    assert!(!service.get_room(room_id).unwrap().get_player(&bob_id).unwrap().is_online);
    assert_eq!(service.get_session(bob_id).unwrap().game_room_id, None);

    // Bob rejoins with name "Bob"
    let rejoined = service
        .join_room_with(300, 3 * SECOND, room_id, "Bob".to_string(), None)
        .unwrap();
    assert_eq!(rejoined.player_id, bob_id);
    let after = service.get_room(room_id).unwrap().get_player(&bob_id).unwrap();
    assert!(after.is_online);
    assert_eq!(after.player.money, money);
    assert_eq!(after.player.fuel, fuel);
    assert_eq!(after.player.current_airport, "LAX");
    assert_eq!(service.get_session(bob_id).unwrap().game_room_id, Some(room_id));
    assert_eq!(service.get_room(room_id).unwrap().players.len(), 2);
}

#[test]
fn scenario_fuel_beyond_the_tank_is_turned_down_with_the_room_left() {
    let (mut service, room_id, host_id) = service_with_room(4);
    // 5000 money, fuel price 50, a tank with room for 80 only.
    service.get_room_mut(room_id).unwrap().players[0].player.fuel = 120;
    let response = service
        .player_buy_fuel(room_id, host_id, FuelRequest { quantity: 200 })
        .unwrap();
    assert!(!response.success);
    assert_eq!(response.message, "Fuel tank can only hold 80 more units");
    assert!(response.message.contains("80"));
    assert_eq!(response.cost, None);
    assert_eq!(response.new_fuel, None);
    assert_eq!(response.new_money, None);
    let host = service.get_room(room_id).unwrap().get_player(&host_id).unwrap();
    assert_eq!(host.player.money, 5000);
    assert_eq!(host.player.fuel, 120);
}

#[test]
fn scenario_two_trades_for_more_than_half_the_money_each() {
    // Luxury goods cost 1000: three units come to 3000, more than half of 5000.
    let (mut service, room_id, host_id) = service_with_room(4);
    let first = service.player_trade(room_id, host_id, buy("luxury", 3)).unwrap();
    let second = service.player_trade(room_id, host_id, buy("luxury", 3)).unwrap();
    assert!(first.success);
    assert_eq!(first.transaction_amount, Some(3000));
    assert_eq!(first.new_money, Some(2000));
    assert!(!second.success);
    assert_eq!(second.message, "Insufficient funds");
    assert_eq!(second.new_money, None);
    let host = service.get_room(room_id).unwrap().get_player(&host_id).unwrap();
    assert_eq!(host.player.money, 5000 - 3000);
    assert_eq!(host.player.cargo_inventory.get_quantity("luxury"), 3);
}

#[test]
fn join_needs_a_room_that_lets_players_in() {
    let (mut service, room_id, _) = service_with_room(1);
    let result = service.join_room_with(200, 1, 999, "Bob".to_string(), None);
    assert_eq!(result.unwrap_err(), "Room not found");
    let result = service.join_room_with(200, 1, room_id, "Bob".to_string(), None);
    assert_eq!(result.unwrap_err(), "Room is not joinable");
    assert_eq!(service.all_sessions().len(), 1);
}

#[test]
fn join_passes_on_what_the_room_answers() {
    let (mut service, room_id, host_id) = service_with_room(4);
    let result = service.join_room_with(200, 1, room_id, "Host".to_string(), None);
    assert_eq!(result.unwrap_err(), "Player name already taken in this room");
    let result = service.join_room_with(host_id, 1, room_id, "Bob".to_string(), None);
    assert_eq!(result.unwrap_err(), "Player already in room");
    assert_eq!(service.all_sessions().len(), 1);
    let joined = service.join_room_with(200, 1, room_id, "Bob".to_string(), None).unwrap();
    assert_eq!(joined.player_id, 200);
    assert_eq!(joined.room_id, room_id);
    assert_eq!(joined.player_name, "Bob");
    assert_eq!(service.all_sessions().len(), 2);
    assert_eq!(service.get_session(200).unwrap().connected_at, 1);
}

#[test]
fn join_now_draws_an_id() {
    let (mut service, room_id, host_id) = service_with_room(4);
    let joined = service.join_room(room_id, "Bob".to_string(), None).unwrap();
    assert_ne!(joined.player_id, host_id);
    assert!(kzrk::ident::has_random_kind(joined.player_id));
    assert_eq!(service.get_room(room_id).unwrap().online_players(), 2);
}

#[test]
fn leaving_makes_an_empty_room_wait_for_players() {
    let (mut service, room_id, host_id) = service_with_room(4);
    service.get_room_mut(room_id).unwrap().start_game().unwrap();
    let bob = service.join_room_with(200, 1, room_id, "Bob".to_string(), None);
    assert_eq!(bob.unwrap_err(), "Room is not joinable");
    service.get_room_mut(room_id).unwrap().game_status = GameStatus::WaitingForPlayers;
    service.join_room_with(200, 1, room_id, "Bob".to_string(), None).unwrap();
    service.get_room_mut(room_id).unwrap().start_game().unwrap();

    service.leave_room_at(2, room_id, 200).unwrap();
    assert_eq!(service.get_room(room_id).unwrap().game_status, GameStatus::InProgress);
    service.leave_room_at(3, room_id, host_id).unwrap();
    assert_eq!(
        service.get_room(room_id).unwrap().game_status,
        GameStatus::WaitingForPlayers
    );
    assert_eq!(service.get_room(room_id).unwrap().players.len(), 2);
}

#[test]
fn leaving_a_room_one_is_not_in_is_an_error() {
    let (mut service, room_id, host_id) = service_with_room(4);
    let result = service.leave_room_at(1, room_id, 555);
    assert_eq!(result.unwrap_err(), "Player not in room");
    assert_eq!(service.get_session(host_id).unwrap().game_room_id, Some(room_id));
    // A room that is not there: the session is cleared all the same.
    let left = service.leave_room_at(1, 999, host_id).unwrap();
    assert!(left.success);
    assert_eq!(service.get_session(host_id).unwrap().game_room_id, None);
    assert!(service.get_room(room_id).unwrap().players[0].is_online);
    service.leave_room(room_id, host_id).unwrap();
    assert!(!service.get_room(room_id).unwrap().players[0].is_online);
}

#[test]
fn rooms_are_listed_with_their_host_and_count() {
    let (mut service, room_id, host_id) = service_with_room(4);
    service.join_room_with(200, 1, room_id, "Bob".to_string(), None).unwrap();
    let rooms = service.list_rooms();
    assert_eq!(rooms.len(), 1);
    assert_eq!(rooms[0].id, room_id);
    assert_eq!(rooms[0].name, "Room");
    assert_eq!(rooms[0].host_player_name, "Host");
    assert_eq!(rooms[0].current_players, 2);
    assert_eq!(rooms[0].max_players, 4);
    assert_eq!(rooms[0].game_status, GameStatus::WaitingForPlayers);
    assert!(rooms[0].is_joinable);
    service.get_room_mut(room_id).unwrap().remove_player(host_id).unwrap();
    service.get_room_mut(room_id).unwrap().host_player_id = 12345;
    assert_eq!(service.list_rooms()[0].host_player_name, "Unknown");
}

#[test]
fn travel_burns_fuel_and_moves_the_game_on() {
    let (mut service, room_id, host_id) = service_with_room(4);
    let response = service
        .player_travel_at(5, room_id, host_id, "ORD".to_string())
        .unwrap();
    assert!(response.success);
    assert_eq!(response.message, "Traveled to Chicago O'Hare (ORD)");
    assert_eq!(response.fuel_consumed, Some(80));
    assert_eq!(response.new_location, Some("ORD".to_string()));
    let room = service.get_room(room_id).unwrap();
    let host = room.get_player(&host_id).unwrap();
    assert_eq!(host.player.fuel, 133 - 80);
    assert_eq!(host.player.current_airport, "ORD");
    assert_eq!(room.shared_state.turn_number, 2);
    assert_eq!(room.shared_state.world_time, 5);
    let statistics = &room.player_statistics[0].statistics;
    assert_eq!(statistics.distances_traveled, 1_188_053);
    assert_eq!(statistics.airports_visited, vec!["ORD".to_string()]);
}

#[test]
fn travel_without_the_fuel_is_turned_down() {
    let (mut service, room_id, host_id) = service_with_room(4);
    let response = service
        .player_travel_at(5, room_id, host_id, "LAX".to_string())
        .unwrap();
    assert!(!response.success);
    assert_eq!(response.message, "Insufficient fuel. Need 265 units, have 133");
    assert_eq!(response.fuel_consumed, None);
    assert_eq!(response.new_location, None);
    let room = service.get_room(room_id).unwrap();
    assert_eq!(room.players[0].player.fuel, 133);
    assert_eq!(room.players[0].player.current_airport, "JFK");
    assert_eq!(room.shared_state.turn_number, 1);
}

#[test]
fn travel_needs_room_player_airports_and_a_route() {
    let (mut service, room_id, host_id) = service_with_room(4);
    let result = service.player_travel_at(5, 999, host_id, "ORD".to_string());
    assert_eq!(result.unwrap_err(), "Room not found");
    let result = service.player_travel_at(5, room_id, host_id, "XXX".to_string());
    assert_eq!(result.unwrap_err(), "Destination airport not found");
    let result = service.player_travel_at(5, room_id, 555, "ORD".to_string());
    assert_eq!(result.unwrap_err(), "Player not found in room");
    service.get_room_mut(room_id).unwrap().players[0].player.current_airport = "XXX".to_string();
    let result = service.player_travel_at(5, room_id, host_id, "ORD".to_string());
    assert_eq!(result.unwrap_err(), "Current airport not found");
    service.get_room_mut(room_id).unwrap().players[0].player.current_airport = "JFK".to_string();
    service.get_room_mut(room_id).unwrap().shared_state.distances.clear();
    let result = service.player_travel_at(5, room_id, host_id, "ORD".to_string());
    assert_eq!(result.unwrap_err(), "No route to destination");
    // From an airport to itself the way is nothing, with or without a table.
    let response = service
        .player_travel_at(5, room_id, host_id, "JFK".to_string())
        .unwrap();
    assert!(response.success);
    assert_eq!(response.fuel_consumed, Some(0));
}

#[test]
fn travel_now_advances_the_world_clock() {
    let (mut service, room_id, host_id) = service_with_room(4);
    let response = service.player_travel(room_id, host_id, "MIA".to_string()).unwrap();
    assert!(response.success);
    assert_eq!(response.fuel_consumed, Some(118));
    assert!(service.get_room(room_id).unwrap().shared_state.world_time > 0);
}

#[test]
fn buying_cargo_takes_money_and_room_in_the_hold() {
    let (mut service, room_id, host_id) = service_with_room(4);
    let response = service.player_trade(room_id, host_id, buy("food", 10)).unwrap();
    assert!(response.success);
    assert_eq!(response.message, "Successfully bought 10 units of food");
    assert_eq!(response.transaction_amount, Some(1000));
    assert_eq!(response.new_money, Some(4000));
    let inventory = response.new_inventory.unwrap();
    assert_eq!(inventory.len(), 1);
    assert_eq!(inventory.get("food"), Some(&10));
    let room = service.get_room(room_id).unwrap();
    assert_eq!(room.player_statistics[0].statistics.total_expenses, 1000);
    assert_eq!(room.player_statistics[0].statistics.cargo_trades, 1);
    assert_eq!(room.shared_state.turn_number, 1);

    // Industrial parts weigh 5 each; the hold holds 20 already.
    service.get_room_mut(room_id).unwrap().players[0].player.max_cargo_weight = 29;
    let response = service.player_trade(room_id, host_id, buy("industrial", 2)).unwrap();
    assert!(!response.success);
    assert_eq!(response.message, "Insufficient cargo capacity");
    service.get_room_mut(room_id).unwrap().players[0].player.max_cargo_weight = 340;
    let response = service.player_trade(room_id, host_id, buy("materials", 80)).unwrap();
    assert!(response.success);
    assert_eq!(response.new_money, Some(0));
    let response = service.player_trade(room_id, host_id, buy("materials", 1)).unwrap();
    assert!(!response.success);
    assert_eq!(response.message, "Insufficient funds");
}

#[test]
fn selling_cargo_takes_the_units_and_pays() {
    let (mut service, room_id, host_id) = service_with_room(4);
    service.player_trade(room_id, host_id, buy("electronics", 4)).unwrap();
    let response = service.player_trade(room_id, host_id, sell("electronics", 5)).unwrap();
    assert!(!response.success);
    assert_eq!(response.message, "Insufficient cargo to sell");
    let response = service.player_trade(room_id, host_id, sell("electronics", 3)).unwrap();
    assert!(response.success);
    assert_eq!(response.message, "Successfully sold 3 units of electronics");
    assert_eq!(response.transaction_amount, Some(1500));
    assert_eq!(response.new_money, Some(4500));
    assert_eq!(response.new_inventory.unwrap().get("electronics"), Some(&1));
    let response = service.player_trade(room_id, host_id, sell("electronics", 1)).unwrap();
    assert!(response.success);
    assert_eq!(response.new_inventory.unwrap().len(), 0);
    let room = service.get_room(room_id).unwrap();
    assert!(room.players[0].player.cargo_inventory.is_empty());
    let statistics = &room.player_statistics[0].statistics;
    assert_eq!(statistics.total_revenue, 2000);
    assert_eq!(statistics.total_expenses, 2000);
    assert_eq!(statistics.net_profit, 0);
    assert_eq!(statistics.cargo_trades, 3);
    assert_eq!(statistics.best_single_trade, 1500);
    assert_eq!(statistics.most_profitable_cargo, "electronics");
}

#[test]
fn a_refused_trade_changes_nothing() {
    let (mut service, room_id, host_id) = service_with_room(4);
    service.player_trade(room_id, host_id, buy("food", 2)).unwrap();
    let before = format!("{:?}", service.get_room(room_id).unwrap());
    for request in [
        buy("luxury", 6),
        buy("industrial", 250),
        sell("food", 3),
        sell("luxury", 1),
        buy("electronics", u32::MAX),
    ] {
        let response = service.player_trade(room_id, host_id, request).unwrap();
        assert!(!response.success);
        assert_eq!(response.transaction_amount, None);
        assert_eq!(response.new_money, None);
        assert!(response.new_inventory.is_none());
        assert_eq!(format!("{:?}", service.get_room(room_id).unwrap()), before);
    }
    for (player, request, reason) in [
        (555u128, buy("food", 1), "Player not found in room"),
        (host_id, buy("gold", 1), "Cargo type not available at this market"),
    ] {
        let result = service.player_trade(room_id, player, request);
        assert_eq!(result.unwrap_err(), reason);
        assert_eq!(format!("{:?}", service.get_room(room_id).unwrap()), before);
    }
    assert_eq!(
        service.player_trade(999, host_id, buy("food", 1)).unwrap_err(),
        "Room not found"
    );
}

#[test]
fn trade_needs_a_market_and_a_known_kind_of_cargo() {
    let (mut service, room_id, host_id) = service_with_room(4);
    service.get_room_mut(room_id).unwrap().shared_state.markets[0].set_cargo_price("gold", 7);
    let result = service.player_trade(room_id, host_id, buy("gold", 1));
    assert_eq!(result.unwrap_err(), "Invalid cargo type");
    service.get_room_mut(room_id).unwrap().players[0].player.current_airport = "XXX".to_string();
    let result = service.player_trade(room_id, host_id, buy("food", 1));
    assert_eq!(result.unwrap_err(), "No market available at current location");
}

#[test]
fn proceeds_and_purse_stop_at_the_largest_amount() {
    let (mut service, room_id, host_id) = service_with_room(4);
    {
        let room = service.get_room_mut(room_id).unwrap();
        room.shared_state.markets[0].set_cargo_price("luxury", u32::MAX);
        room.players[0].player.cargo_inventory.add_cargo("luxury", 2);
    }
    let response = service.player_trade(room_id, host_id, sell("luxury", 2)).unwrap();
    assert!(response.success);
    assert_eq!(response.transaction_amount, Some(u32::MAX));
    assert_eq!(response.new_money, Some(u32::MAX));
}

#[test]
fn buying_fuel_fills_the_tank() {
    let (mut service, room_id, host_id) = service_with_room(4);
    let response = service
        .player_buy_fuel(room_id, host_id, FuelRequest { quantity: 67 })
        .unwrap();
    assert!(response.success);
    assert_eq!(response.message, "Purchased 67 units of fuel for $3350");
    assert_eq!(response.cost, Some(3350));
    assert_eq!(response.new_fuel, Some(200));
    assert_eq!(response.new_money, Some(1650));
    let room = service.get_room(room_id).unwrap();
    assert_eq!(room.player_statistics[0].statistics.fuel_purchased, 67);
    assert_eq!(room.player_statistics[0].statistics.total_expenses, 3350);
    let response = service
        .player_buy_fuel(room_id, host_id, FuelRequest { quantity: 1 })
        .unwrap();
    assert!(!response.success);
    assert_eq!(response.message, "Fuel tank can only hold 0 more units");
}

#[test]
fn fuel_that_the_purse_does_not_cover_is_turned_down() {
    let (mut service, room_id, host_id) = service_with_room(4);
    service.get_room_mut(room_id).unwrap().players[0].player.money = 100;
    let response = service
        .player_buy_fuel(room_id, host_id, FuelRequest { quantity: 3 })
        .unwrap();
    assert!(!response.success);
    assert_eq!(response.message, "Insufficient funds for fuel purchase");
    let room = service.get_room(room_id).unwrap();
    assert_eq!(room.players[0].player.money, 100);
    assert_eq!(room.players[0].player.fuel, 133);
    assert_eq!(
        service
            .player_buy_fuel(room_id, 555, FuelRequest { quantity: 3 })
            .unwrap_err(),
        "Player not found in room"
    );
    assert_eq!(
        service
            .player_buy_fuel(999, host_id, FuelRequest { quantity: 3 })
            .unwrap_err(),
        "Room not found"
    );
}

#[test]
fn sessions_are_found_by_name_with_their_rooms() {
    let (mut service, room_id, _) = service_with_room(4);
    service.join_room_with(200, 7, room_id, "Bob".to_string(), None).unwrap();
    let stored = vec![
        PlayerSession { player_id: 200, player_name: "Bob".to_string(), game_room_id: Some(room_id), connected_at: 7 },
        PlayerSession { player_id: 201, player_name: "Bob".to_string(), game_room_id: None, connected_at: 8 },
        PlayerSession { player_id: 202, player_name: "Bob".to_string(), game_room_id: Some(999), connected_at: 9 },
        PlayerSession { player_id: 203, player_name: "Carol".to_string(), game_room_id: Some(room_id), connected_at: 10 },
    ];
    let found = service.find_player_sessions("Bob", &stored);
    assert_eq!(found.len(), 2);
    assert_eq!(found[0].player_id, 200);
    assert_eq!(found[0].room_id, room_id);
    assert_eq!(found[0].room_name, "Room");
    assert_eq!(found[0].connected_at, 7);
    assert_eq!(found[1].player_id, 202);
    assert_eq!(found[1].room_name, "Unknown Room");
    assert_eq!(service.find_player_sessions("Nobody", &stored).len(), 0);
}

#[test]
fn the_state_of_a_room_shows_who_is_online() {
    let (mut service, room_id, host_id) = service_with_room(4);
    service.join_room_with(200, 1, room_id, "Bob".to_string(), Some("LAX".to_string())).unwrap();
    service.join_room_with(300, 1, room_id, "Carol".to_string(), None).unwrap();
    service.leave_room_at(2, room_id, 300).unwrap();
    service.player_trade(room_id, host_id, buy("industrial", 2)).unwrap();
    let state = service.get_room_state_at(50, room_id, host_id).unwrap();
    assert_eq!(state.my_player_id, host_id);
    assert_eq!(state.room_info.id, room_id);
    assert_eq!(state.room_info.current_players, 2);
    assert_eq!(state.room_info.host_player_name, "Host");
    assert_eq!(state.players.len(), 2);
    assert_eq!(state.players[0].name, "Host");
    assert_eq!(state.players[0].is_host, Some(true));
    assert_eq!(state.players[0].last_seen, Some(50));
    assert_eq!(state.players[0].cargo_weight, 10);
    assert_eq!(state.players[0].cargo_inventory.get("industrial"), Some(&2));
    assert_eq!(state.players[0].money, 4400);
    assert_eq!(state.players[1].name, "Bob");
    assert_eq!(state.players[1].is_host, Some(false));
    assert_eq!(state.players[1].current_airport, "LAX");
    assert_eq!(state.current_market.airport_id, "JFK");
    assert_eq!(state.current_market.airport_name, "New York JFK");
    assert_eq!(state.current_market.fuel_price, 50);
    assert_eq!(state.current_market.cargo_prices.len(), 6);
    assert_eq!(state.turn_number, 1);
    assert_eq!(state.statistics.total_expenses, 600);
    let destinations: Vec<(&str, u64, u32, bool)> = state
        .available_destinations
        .iter()
        .map(|d| (d.airport_id.as_str(), d.distance, d.fuel_required, d.can_travel))
        .collect();
    assert_eq!(
        destinations,
        vec![
            ("LAX", 3_974_262, 265, false),
            ("MIA", 1_756_903, 118, true),
            ("ORD", 1_188_053, 80, true),
            ("DEN", 2_610_013, 175, false),
            ("SEA", 3_886_589, 260, false),
        ]
    );
    assert_eq!(state.available_destinations[0].airport_name, "Los Angeles LAX");
    assert_eq!(state.available_destinations[0].fuel_price, 50);
}

#[test]
fn reading_the_state_counts_as_activity() {
    let (mut service, room_id, host_id) = service_with_room(4);
    service.leave_room_at(2, room_id, host_id).unwrap();
    let state = service.get_room_state_at(9, room_id, host_id).unwrap();
    assert_eq!(state.players.len(), 1);
    let room = service.get_room(room_id).unwrap();
    assert!(room.players[0].is_online);
    assert_eq!(room.players[0].last_seen, 9);
    assert_eq!(
        service.get_room_state_at(9, room_id, 555).unwrap_err(),
        "Player not in room"
    );
    assert_eq!(
        service.get_room_state_at(9, 999, host_id).unwrap_err(),
        "Room not found"
    );
    service.get_room_mut(room_id).unwrap().players[0].player.current_airport = "XXX".to_string();
    assert_eq!(
        service.get_room_state(room_id, host_id).unwrap_err(),
        "Current airport not found"
    );
}

#[test]
fn messages_are_read_where_the_player_is() {
    let (mut service, room_id, host_id) = service_with_room(4);
    service.join_room_with(200, 1, room_id, "Bob".to_string(), Some("LAX".to_string())).unwrap();
    let posted = service
        .post_message_with(11, 100, room_id, host_id, "Hello from JFK".to_string())
        .unwrap();
    assert!(posted.success);
    assert_eq!(posted.message, "Message posted successfully");
    assert_eq!(posted.message_id, Some(11));
    service.post_message_with(12, 200, room_id, 200, "Hello from LAX".to_string()).unwrap();
    service.post_message_with(13, 300, room_id, host_id, "Again".to_string()).unwrap();
    let read = service.get_messages(room_id, host_id).unwrap();
    assert_eq!(read.airport_id, "JFK");
    assert_eq!(read.total_count, 2);
    assert_eq!(read.messages.len(), 2);
    assert_eq!(read.messages[0].content, "Again");
    assert_eq!(read.messages[0].id, 13);
    assert_eq!(read.messages[0].author_id, host_id);
    assert_eq!(read.messages[0].author_name, "Host");
    assert_eq!(read.messages[0].created_at, 300);
    assert_eq!(read.messages[1].content, "Hello from JFK");
    let read = service.get_messages(room_id, 200).unwrap();
    assert_eq!(read.airport_id, "LAX");
    assert_eq!(read.messages.len(), 1);
    assert_eq!(read.messages[0].author_name, "Bob");
    assert_eq!(service.get_messages(999, host_id).unwrap_err(), "Room not found");
    assert_eq!(
        service.get_messages(room_id, 555).unwrap_err(),
        "Player not in this room"
    );
}

#[test]
fn an_answer_lists_twenty_messages_at_most() {
    let (mut service, room_id, host_id) = service_with_room(4);
    for i in 0..30 {
        service
            .post_message_with(i, i as i64, room_id, host_id, format!("m{}", i))
            .unwrap();
    }
    let read = service.get_messages(room_id, host_id).unwrap();
    assert_eq!(read.messages.len(), 20);
    assert_eq!(read.total_count, 30);
    assert_eq!(read.messages[0].content, "m29");
    assert_eq!(read.messages[19].content, "m10");
}

#[test]
fn the_board_of_a_room_keeps_fifty_messages() {
    let (mut service, room_id, host_id) = service_with_room(4);
    for i in 0..51 {
        service
            .post_message_with(i, i as i64, room_id, host_id, format!("m{}", i))
            .unwrap();
    }
    let room = service.get_room(room_id).unwrap();
    assert_eq!(room.message_board.message_count(None), 50);
    assert_eq!(room.message_board.messages()[0].content, "m1");
    assert_eq!(room.message_board.messages()[49].content, "m50");
}

#[test]
fn a_message_that_the_board_refuses_is_an_error() {
    let (mut service, room_id, host_id) = service_with_room(4);
    let result = service.post_message_with(1, 1, room_id, host_id, String::new());
    assert_eq!(result.unwrap_err(), "Message content cannot be empty");
    let result = service.post_message_with(1, 1, room_id, host_id, "a".repeat(501));
    assert_eq!(
        result.unwrap_err(),
        "Message content cannot exceed 500 characters"
    );
    let result = service.post_message_with(1, 1, room_id, 555, "x".to_string());
    assert_eq!(result.unwrap_err(), "Player not in this room");
    let result = service.post_message_with(1, 1, 999, host_id, "x".to_string());
    assert_eq!(result.unwrap_err(), "Room not found");
    assert_eq!(
        service.get_room(room_id).unwrap().message_board.message_count(None),
        0
    );
    let posted = service.post_message(room_id, host_id, "x".to_string()).unwrap();
    assert!(kzrk::ident::has_random_kind(posted.message_id.unwrap()));
}

#[test]
fn an_empty_room_is_closed_on_request() {
    let (mut service, room_id, host_id) = service_with_room(4);
    assert!(!service.remove_room_if_empty(room_id));
    assert!(!service.remove_room_if_empty(999));
    service.get_room_mut(room_id).unwrap().remove_player(host_id).unwrap();
    assert!(service.remove_room_if_empty(room_id));
    assert!(service.get_room(room_id).is_none());
    assert_eq!(service.all_sessions().len(), 1);
}

#[test]
fn a_room_is_entered_in_place_of_the_room_with_its_id() {
    let (mut service, room_id, host_id) = service_with_room(4);
    let mut copy = service.get_room(room_id).unwrap().clone();
    copy.name = "Renamed".to_string();
    assert_eq!(service.insert_room(copy.clone()), room_id);
    assert_eq!(service.all_rooms().len(), 1);
    assert_eq!(service.get_room(room_id).unwrap().name, "Renamed");
    copy.id = 2;
    assert_eq!(service.insert_room(copy), 2);
    assert_eq!(service.all_rooms().len(), 2);
    service.insert_session(PlayerSession {
        player_id: host_id,
        player_name: "Other".to_string(),
        game_room_id: None,
        connected_at: 3,
    });
    assert_eq!(service.all_sessions().len(), 1);
    assert_eq!(service.get_session(host_id).unwrap().player_name, "Other");
}

#[test]
fn kept_rooms_and_sessions_are_taken_up() {
    let (service, room_id, host_id) = service_with_room(4);
    let rooms = service.all_rooms().clone();
    let sessions = service.all_sessions().clone();
    let restarted = MultiplayerGameService::with_state(rooms, sessions);
    assert_eq!(restarted.list_rooms().len(), 1);
    assert_eq!(restarted.get_room(room_id).unwrap().name, "Room");
    assert_eq!(restarted.get_session(host_id).unwrap().player_name, "Host");
}

#[test]
fn test_basic_room_lifecycle() {
    let mut service = MultiplayerGameService::new();

    // Phase 1: Room Creation
    let create_response = service
        .create_room(
            "Lifecycle Test Room".to_string(),
            "LifecycleHost".to_string(),
            Some(4),
        )
        .expect("Failed to create room");

    let room_id = create_response.room_id;
    let host_id = create_response.host_player_id;

    // Verify room is created correctly
    let rooms = service.list_rooms();
    assert_eq!(rooms.len(), 1);
    assert_eq!(rooms[0].id, room_id);
    assert_eq!(rooms[0].current_players, 1);
    assert_eq!(rooms[0].game_status, GameStatus::WaitingForPlayers);

    // Phase 2: Player Joins
    let player2_response = service
        .join_room(room_id, "Player2".to_string(), Some("LAX".to_string()))
        .expect("Failed for player2 to join");

    // Verify room has both players
    let rooms = service.list_rooms();
    assert_eq!(rooms[0].current_players, 2);

    // Phase 3: Players Leave
    service
        .leave_room(room_id, player2_response.player_id)
        .expect("Failed for player2 to leave");

    let rooms = service.list_rooms();
    assert_eq!(rooms[0].current_players, 1);

    // Phase 4: Host Leaves (Room becomes empty)
    service
        .leave_room(room_id, host_id)
        .expect("Failed for host to leave");

    // Room should still exist but be empty
    let rooms = service.list_rooms();
    assert_eq!(rooms.len(), 1);
    assert_eq!(rooms[0].current_players, 0);
    assert_eq!(rooms[0].game_status, GameStatus::WaitingForPlayers);
    assert!(rooms[0].is_joinable);

    // Phase 5: New Player Joins Empty Room
    let new_player_response = service
        .join_room(room_id, "NewPlayer".to_string(), Some("DEN".to_string()))
        .expect("Failed for new player to join empty room");

    let rooms = service.list_rooms();
    assert_eq!(rooms[0].current_players, 1);

    // Verify new player can get game state
    let final_state = service
        .get_room_state(room_id, new_player_response.player_id)
        .expect("Failed to get final room state");

    assert_eq!(final_state.players.len(), 1);
    assert_eq!(final_state.room_info.id, room_id);
    assert_eq!(final_state.room_info.name, "Lifecycle Test Room");
}

#[test]
fn test_multiple_empty_rooms_management() {
    let mut room_data = Vec::new();

    let mut service = MultiplayerGameService::new();

    // Create 3 rooms
    for i in 0..3 {
        let create_response = service
            .create_room(format!("Empty Room {}", i), format!("Host{}", i), Some(4))
            .expect("Failed to create room");

        let room_id = create_response.room_id;
        let host_id = create_response.host_player_id;

        // Join another player
        let player_response = service
            .join_room(room_id, format!("Player{}", i), Some("LAX".to_string()))
            .expect("Failed to join room");

        // Both leave
        service
            .leave_room(room_id, host_id)
            .expect("Host failed to leave");
        service
            .leave_room(room_id, player_response.player_id)
            .expect("Player failed to leave");

        room_data.push((room_id, format!("Empty Room {}", i)));
    }

    // Verify all rooms are empty but still exist
    let rooms = service.list_rooms();
    assert_eq!(rooms.len(), 3);
    for room in &rooms {
        assert_eq!(room.current_players, 0);
        assert!(room.is_joinable);
    }

    // Test rejoining each empty room
    for (room_id, room_name) in &room_data {
        let join_response = service
            .join_room(
                *room_id,
                format!("Rejoiner for {}", room_name),
                Some("JFK".to_string()),
            )
            .unwrap_or_else(|_| panic!("Failed to rejoin {}", room_name));

        assert_eq!(join_response.room_id, *room_id);

        // Leave immediately to keep room empty for next test
        service
            .leave_room(*room_id, join_response.player_id)
            .expect("Failed to leave after rejoining");
    }
}

#[test]
fn test_rapid_leave_rejoin() {
    let mut service = MultiplayerGameService::new();

    let create_response = service
        .create_room(
            "Rapid Test Room".to_string(),
            "RapidHost".to_string(),
            Some(4),
        )
        .expect("Failed to create room");

    let room_id = create_response.room_id;
    let host_id = create_response.host_player_id;

    // Rapid leave/rejoin cycles
    for i in 0..3 {
        // Join a player
        let join_response = service
            .join_room(
                room_id,
                format!("RapidPlayer{}", i),
                Some("LAX".to_string()),
            )
            .expect("Failed to join rapidly");

        // Immediately leave
        service
            .leave_room(room_id, join_response.player_id)
            .expect("Failed to leave rapidly");

        // Verify room state is consistent
        let rooms = service.list_rooms();
        assert_eq!(rooms.len(), 1);
        assert_eq!(rooms[0].current_players, 1); // Only host remains
    }

    // Host leaves and rejoins
    service
        .leave_room(room_id, host_id)
        .expect("Host failed to leave");

    let rooms = service.list_rooms();
    assert_eq!(rooms[0].current_players, 0);

    // Rejoin as different player
    let rejoin_response = service
        .join_room(
            room_id,
            "RejoinerPlayer".to_string(),
            Some("MIA".to_string()),
        )
        .expect("Failed to rejoin empty room");

    let rooms = service.list_rooms();
    assert_eq!(rooms[0].current_players, 1);

    // Verify room state is still valid
    let final_state = service
        .get_room_state(room_id, rejoin_response.player_id)
        .expect("Failed to get final state");

    assert_eq!(final_state.players.len(), 1);
    assert_eq!(final_state.room_info.name, "Rapid Test Room");
}

#[test]
fn test_message_board_api_integration() {
    let mut service = MultiplayerGameService::new();

    // Create a room
    let create_response = service
        .create_room("Test Room".to_string(), "TestHost".to_string(), Some(4))
        .unwrap();

    let room_id = create_response.room_id;
    let player_id = create_response.host_player_id;

    // Post a message
    let message_content = "Hello from the API!".to_string();
    let post_response = service
        .post_message(room_id, player_id, message_content.clone())
        .unwrap();

    assert!(post_response.success);
    assert!(post_response.message_id.is_some());

    // Get messages
    let get_response = service.get_messages(room_id, player_id).unwrap();

    assert_eq!(get_response.messages.len(), 1);
    assert_eq!(get_response.messages[0].content, message_content);
    assert_eq!(get_response.messages[0].author_name, "TestHost");
    assert_eq!(get_response.airport_id, "JFK"); // Default starting airport
}

#[test]
fn test_message_board_multiplayer() {
    let mut service = MultiplayerGameService::new();

    // Create a room
    let create_response = service
        .create_room("Multiplayer Room".to_string(), "Host".to_string(), Some(4))
        .unwrap();

    let room_id = create_response.room_id;
    let host_id = create_response.host_player_id;

    // Join with another player
    let join_response = service
        .join_room(room_id, "Guest".to_string(), Some("JFK".to_string()))
        .unwrap();

    let guest_id = join_response.player_id;

    // Host posts a message
    service
        .post_message(room_id, host_id, "Welcome to the room!".to_string())
        .unwrap();

    // Guest posts a message
    service
        .post_message(room_id, guest_id, "Thanks for having me!".to_string())
        .unwrap();

    // Both players should see both messages at JFK
    let host_messages = service.get_messages(room_id, host_id).unwrap();
    let guest_messages = service.get_messages(room_id, guest_id).unwrap();

    assert_eq!(host_messages.messages.len(), 2);
    assert_eq!(guest_messages.messages.len(), 2);

    // Messages should be in reverse chronological order (newest first)
    assert_eq!(host_messages.messages[0].content, "Thanks for having me!");
    assert_eq!(host_messages.messages[1].content, "Welcome to the room!");
}

#[test]
fn test_message_board_location_based() {
    let mut service = MultiplayerGameService::new();

    // Create a room
    let create_response = service
        .create_room(
            "Location Test Room".to_string(),
            "Traveler".to_string(),
            Some(2),
        )
        .unwrap();

    let room_id = create_response.room_id;
    let player_id = create_response.host_player_id;

    // Post message at JFK
    service
        .post_message(room_id, player_id, "Message at JFK".to_string())
        .unwrap();

    // Travel to ORD (Chicago) instead - should be closer than LAX from JFK
    let travel_result = service
        .player_travel(room_id, player_id, "ORD".to_string())
        .unwrap();
    println!("Travel result: {:?}", travel_result);

    assert!(
        travel_result.success,
        "Travel should succeed: {}",
        travel_result.message
    );

    // Post message at ORD
    service
        .post_message(room_id, player_id, "Message at ORD".to_string())
        .unwrap();

    // Get messages - should only see ORD messages
    let messages = service.get_messages(room_id, player_id).unwrap();
    println!("Messages at ORD: {:?}", messages.messages);
    println!("Airport ID: {}", messages.airport_id);
    println!("Expected airport: ORD, got: {}", messages.airport_id);
    assert_eq!(messages.messages.len(), 1);
    assert_eq!(messages.messages[0].content, "Message at ORD");
    assert_eq!(messages.airport_id, "ORD");
}

#[test]
fn the_state_of_a_room_needs_airport_and_market_of_the_player() {
    let (mut service, room_id, host_id) = service_with_room(4);
    service.get_room_mut(room_id).unwrap().shared_state.markets.remove(0);
    assert_eq!(
        service.get_room_state_at(1, room_id, host_id).unwrap_err(),
        "Current market not found"
    );
    let room = service.get_room(room_id).unwrap();
    assert_eq!(
        kzrk::api::room_view::build_multiplayer_game_state_response(room, 555).unwrap_err(),
        "Requesting player not found"
    );
    // A destination without a market is shown with the price that markets open with.
    service.get_room_mut(room_id).unwrap().players[0].player.current_airport = "LAX".to_string();
    let state = service.get_room_state_at(2, room_id, host_id).unwrap();
    assert_eq!(state.available_destinations[0].airport_id, "JFK");
    assert_eq!(state.available_destinations[0].fuel_price, 50);
}

use kzrk::data::cargo_types::get_default_cargo_types;
use kzrk::models::cargo::CargoType;
use kzrk::models::market::Market;
use kzrk::models::player::Player;
use std::time::Instant;

/// Distances are given to the library in metres, each rounded up to a full
/// metre; the cases below are written in kilometres.
fn metres(kilometres: f64) -> u64 {
    (kilometres * 1000.0).ceil() as u64
}

/// Fuel efficiency is given in metres per unit of fuel.
fn per_unit(kilometres: f64) -> u32 {
    (kilometres * 1000.0) as u32
}

fn create_test_player() -> Player {
    Player::new(1000, "TEST", 100, 500, per_unit(10.0))
}

#[test]
fn test_player_creation() {
    let player = create_test_player();
    assert_eq!(player.money, 1000);
    assert_eq!(player.current_airport, "TEST");
    assert_eq!(player.fuel, 66); // 2/3 of max_fuel (100)
    assert_eq!(player.max_fuel, 100);
    assert_eq!(player.max_cargo_weight, 500);
    assert_eq!(player.fuel_efficiency, per_unit(10.0));
}

#[test]
fn test_can_afford() {
    let player = create_test_player();
    assert!(player.can_afford(500));
    assert!(player.can_afford(1000));
    assert!(!player.can_afford(1001));
}

#[test]
fn test_spend_money() {
    let mut player = create_test_player();
    assert!(player.spend_money(500));
    assert_eq!(player.money, 500);

    assert!(!player.spend_money(600));
    assert_eq!(player.money, 500); // Money shouldn't change on failed spend
}

#[test]
fn test_earn_money() {
    let mut player = create_test_player();
    player.earn_money(500);
    assert_eq!(player.money, 1500);
}

#[test]
fn test_consume_fuel() {
    let mut player = create_test_player();
    assert!(player.consume_fuel(30));
    assert_eq!(player.fuel, 36);

    assert!(!player.consume_fuel(50));
    assert_eq!(player.fuel, 36); // Fuel shouldn't change on failed consume
}

#[test]
fn test_add_fuel() {
    let mut player = create_test_player();
    player.add_fuel(20);
    assert_eq!(player.fuel, 86);

    // Test fuel cap
    player.add_fuel(50);
    assert_eq!(player.fuel, 100); // Should cap at max_fuel
}

#[test]
fn test_fuel_calculations() {
    let player = create_test_player();

    let fuel_needed = player.fuel_needed_for_distance(metres(100.0));
    assert_eq!(fuel_needed, 10); // 100.0 / 10.0 = 10

    assert!(player.can_travel_distance(metres(100.0)));
    assert!(player.can_travel_distance(metres(660.0))); // Just within fuel limit
    assert!(!player.can_travel_distance(metres(670.0))); // Beyond fuel limit
}

#[test]
fn test_can_carry_more_weight() {
    let player = create_test_player();
    let cargo_types: Vec<CargoType> = Vec::new(); // Empty cargo types for simplicity

    // With empty inventory, should be able to carry up to max weight
    assert!(player.can_carry_more_weight(500, &cargo_types));
    assert!(!player.can_carry_more_weight(501, &cargo_types));
}

#[test]
fn test_player_money_underflow_protection() {
    let mut player = Player::new(100, "JFK", 200, 1000, per_unit(15.0));

    // Try to spend more money than available
    let success = player.spend_money(200);
    assert!(!success);
    assert_eq!(player.money, 100); // Should be unchanged
}

#[test]
fn test_fuel_underflow_protection() {
    let mut player = Player::new(5000, "JFK", 200, 1000, per_unit(15.0));
    player.fuel = 50;

    // Try to consume more fuel than available
    let success = player.consume_fuel(100);
    assert!(!success);
    assert_eq!(player.fuel, 50); // Should be unchanged
}

#[test]
fn test_fuel_overflow_protection() {
    let mut player = Player::new(5000, "JFK", 200, 1000, per_unit(15.0));
    player.fuel = 150;

    // Try to add fuel beyond capacity
    player.add_fuel(100);
    assert_eq!(player.fuel, 200); // Should be capped at max_fuel
    assert!(player.fuel <= player.max_fuel);
}

#[test]
fn test_cargo_weight_validation() {
    let player = Player::new(5000, "JFK", 200, 100, per_unit(15.0)); // Low cargo capacity
    let cargo_types = get_default_cargo_types();

    // Should reject cargo that exceeds capacity
    let can_carry = player.can_carry_more_weight(200, &cargo_types);
    assert!(!can_carry);
}

#[test]
fn test_player_market_interaction() {
    // Create a player and market
    let mut player = Player::new(1000, "JFK", 100, 500, per_unit(10.0));
    let mut market = Market::new("JFK", 50);

    // Set up some cargo prices
    market.set_cargo_price("electronics", 200);
    market.set_cargo_price("textiles", 150);

    // Test fuel purchase
    let fuel_cost = market.fuel_price * 20; // 20 units of fuel
    assert!(player.can_afford(fuel_cost));
    assert!(player.spend_money(fuel_cost));
    player.add_fuel(20);

    // Verify player state after fuel purchase
    assert_eq!(player.money, 1000 - fuel_cost);
    assert_eq!(player.fuel, 86); // Started with 66, added 20
}

#[test]
fn test_player_cargo_weight_limits() {
    let player = Player::new(1000, "JFK", 100, 100, per_unit(10.0)); // Low cargo limit
    let cargo_types = get_default_cargo_types();

    // Test that we respect cargo weight limits
    assert!(player.can_carry_more_weight(50, &cargo_types));
    assert!(player.can_carry_more_weight(100, &cargo_types));
    assert!(!player.can_carry_more_weight(101, &cargo_types));
}

#[test]
fn test_fuel_travel_calculations() {
    let player = Player::new(1000, "JFK", 100, 500, per_unit(10.0));

    // Test various distances
    assert!(player.can_travel_distance(metres(100.0))); // Needs 10 fuel, has 66
    assert!(player.can_travel_distance(metres(500.0))); // Needs 50 fuel, has 66
    assert!(player.can_travel_distance(metres(660.0))); // Needs 66 fuel, has exactly 66
    assert!(!player.can_travel_distance(metres(670.0))); // Needs 67 fuel, has 66
}

#[test]
fn test_complete_trading_scenario() {
    let mut player = Player::new(5000, "NYC", 200, 1000, per_unit(15.0)); // More starting money
    let mut origin_market = Market::new("NYC", 20); // Cheaper fuel
    let mut destination_market = Market::new("LAX", 30);

    // Set up profitable trade route
    origin_market.set_cargo_price("electronics", 100); // Buy low
    destination_market.set_cargo_price("electronics", 300); // Sell high

    // Player buys fuel and cargo at origin
    let fuel_cost = origin_market.fuel_price * 20; // Buy 20 units of fuel
    let cargo_cost = origin_market.get_cargo_price("electronics").unwrap() * 3; // Buy 3 units
    let total_cost = fuel_cost + cargo_cost;

    // Ensure the transaction is affordable
    assert!(player.can_afford(total_cost));
    assert!(player.spend_money(total_cost));
    player.add_fuel(20);

    // Simulate travel (consume fuel for distance)
    let travel_distance = metres(300.0);
    let fuel_needed = player.fuel_needed_for_distance(travel_distance);
    assert!(player.can_travel_distance(travel_distance));
    assert!(player.consume_fuel(fuel_needed));

    // Verify player state after travel
    assert_eq!(player.money, 5000 - total_cost);
    assert!(player.fuel < 200); // Should have consumed some fuel

    // At destination, sell cargo
    let sell_price = destination_market.get_cargo_price("electronics").unwrap() * 3;
    player.earn_money(sell_price);

    // Verify profit was made
    let expected_profit = (300 - 100) * 3; // 200 profit per unit * 3 units = 600
    let final_money_change = player.money as i32 - 5000;
    let expected_final_change = expected_profit - fuel_cost as i32;
    assert_eq!(final_money_change, expected_final_change);
}

#[test]
fn test_player_operations_performance() {
    let start = Instant::now();

    // Create many players and perform operations
    for _ in 0..10000 {
        let mut player = Player::new(1000, "TEST", 100, 500, per_unit(10.0));
        player.spend_money(100);
        player.earn_money(50);
        player.consume_fuel(10);
        player.add_fuel(5);
        let _ = player.can_travel_distance(metres(100.0));
        let _ = player.fuel_needed_for_distance(metres(100.0));
    }

    let duration = start.elapsed();

    // Should complete well under 1 second
    assert!(
        duration.as_millis() < 1000,
        "Player operations took too long: {:?}",
        duration
    );
}

#[test]
fn spend_succeeds_exactly_when_covered() {
    for (money, cost) in [(0u32, 0u32), (0, 1), (10, 10), (10, 11), (u32::MAX, u32::MAX), (5, 0)] {
        let mut player = Player::new(money, "JFK", 200, 1000, 15_000);
        let paid = player.spend_money(cost);
        assert_eq!(paid, cost <= money);
        assert_eq!(player.money, if paid { money - cost } else { money });
    }
}

#[test]
fn added_fuel_is_the_sum_kept_at_the_brim() {
    for (fuel, amount, max_fuel) in [
        (0u32, 0u32, 0u32),
        (10, 5, 100),
        (90, 10, 100),
        (90, 11, 100),
        (u32::MAX - 1, 5, u32::MAX),
        (150, 0, 100),
    ] {
        let mut player = Player::new(0, "JFK", max_fuel, 1000, 15_000);
        player.fuel = fuel;
        player.add_fuel(amount);
        let expected = std::cmp::min(fuel as u64 + amount as u64, max_fuel as u64) as u32;
        assert_eq!(player.fuel, expected);
        assert!(player.fuel <= player.max_fuel);
    }
}

#[test]
fn fuel_needed_rounds_up_and_grows_with_distance() {
    let player = Player::new(0, "JFK", 200, 1000, 15_000);
    assert_eq!(player.fuel_needed_for_distance(0), 0);
    assert_eq!(player.fuel_needed_for_distance(1), 1);
    assert_eq!(player.fuel_needed_for_distance(15_000), 1);
    assert_eq!(player.fuel_needed_for_distance(15_001), 2);
    assert_eq!(player.fuel_needed_for_distance(1_188_053), 80);
    assert_eq!(player.fuel_needed_for_distance(3_974_262), 265);
    let mut last = 0;
    for distance in (0..200_000u64).step_by(777) {
        let need = player.fuel_needed_for_distance(distance);
        assert!(need >= last);
        last = need;
    }
}

#[test]
fn fuel_needed_stops_at_the_largest_amount() {
    let slow = Player::new(0, "JFK", 200, 1000, 1);
    assert_eq!(slow.fuel_needed_for_distance(u64::MAX), u32::MAX);
    let stuck = Player::new(0, "JFK", 200, 1000, 0);
    assert_eq!(stuck.fuel_needed_for_distance(0), 0);
    assert_eq!(stuck.fuel_needed_for_distance(1), u32::MAX);
}

#[test]
fn earned_money_stops_at_the_largest_amount() {
    let mut player = Player::new(u32::MAX - 10, "JFK", 200, 1000, 15_000);
    player.earn_money(5);
    assert_eq!(player.money, u32::MAX - 5);
    player.earn_money(100);
    assert_eq!(player.money, u32::MAX);
}

#[test]
fn starting_fuel_is_two_thirds_of_the_tank() {
    assert_eq!(Player::new(0, "JFK", 200, 1000, 15_000).fuel, 133);
    assert_eq!(Player::new(0, "JFK", 0, 1000, 15_000).fuel, 0);
    assert_eq!(Player::new(0, "JFK", u32::MAX, 1000, 15_000).fuel, 2_863_311_530);
}

#[test]
fn cargo_weight_counts_each_kind_of_the_catalog() {
    let cargo_types = get_default_cargo_types();
    let mut player = Player::new(0, "JFK", 200, 100, 15_000);
    player.cargo_inventory.add_cargo("industrial", 3); // 5 each
    player.cargo_inventory.add_cargo("food", 10); // 2 each
    player.cargo_inventory.add_cargo("unlisted", 1000); // not in the catalog
    assert_eq!(player.current_cargo_weight(&cargo_types), 35);
    assert!(player.can_carry_more_weight(65, &cargo_types));
    assert!(!player.can_carry_more_weight(66, &cargo_types));
}

use kzrk::config::GameConfig;
use kzrk::data::airports::{get_default_airports, get_default_distances};
use kzrk::data::cargo_types::get_default_cargo_types;
use kzrk::models::airport::{find_airport, find_distance, Airport, Route};
use kzrk::models::market::Market;
use kzrk::systems::events::{EventSystem, GameStatistics, MarketEvent, MarketEventType};
use kzrk::systems::game::GameState;
use kzrk::systems::market::{scale_price, MarketSystem};
use kzrk::systems::travel::{TravelError, TravelSystem};

fn new_game() -> GameState {
    GameState::new(
        get_default_airports(),
        get_default_cargo_types(),
        get_default_distances(),
    )
}

#[test]
fn test_airport_data_consistency() {
    let airports = get_default_airports();

    // Test that all airports have valid data
    for airport in airports {
        let id = airport.id.clone();
        assert!(!airport.name.is_empty(), "Airport {} has empty name", id);

        // Coordinates are kept in millionths of a degree.
        let latitude = airport.coordinates.0 as f64 / 1_000_000.0;
        let longitude = airport.coordinates.1 as f64 / 1_000_000.0;
        assert!(
            latitude >= -90.0 && latitude <= 90.0,
            "Airport {} has invalid latitude: {}",
            id,
            latitude
        );
        assert!(
            longitude >= -180.0 && longitude <= 180.0,
            "Airport {} has invalid longitude: {}",
            id,
            longitude
        );

        // Fuel prices should be reasonable
        assert!(airport.base_fuel_price > 0, "Airport {} has zero fuel price", id);
        assert!(
            airport.base_fuel_price < 500,
            "Airport {} has unreasonably high fuel price: {}",
            id,
            airport.base_fuel_price
        );

        // The fuel modifier is kept in thousandths.
        let fuel_modifier = airport.market_profile.fuel_modifier as f64 / 1000.0;
        assert!(fuel_modifier > 0.0, "Airport {} has non-positive fuel modifier", id);
        assert!(
            fuel_modifier < 5.0,
            "Airport {} has extremely high fuel modifier: {}",
            id,
            fuel_modifier
        );
    }
}

#[test]
fn the_catalog_lists_six_airports_and_all_distances_between_them() {
    let airports = get_default_airports();
    let distances = get_default_distances();
    let ids: Vec<&str> = airports.iter().map(|a| a.id.as_str()).collect();
    assert_eq!(ids, vec!["JFK", "LAX", "MIA", "ORD", "DEN", "SEA"]);
    assert_eq!(find_airport(&airports, "ORD").unwrap().name, "Chicago O'Hare");
    assert_eq!(find_airport(&airports, "JFK").unwrap().coordinates, (40_641_300, -73_778_100));
    assert!(find_airport(&airports, "XXX").is_none());
    for a in &ids {
        for b in &ids {
            let there = find_distance(&distances, a, b).unwrap();
            let back = find_distance(&distances, b, a).unwrap();
            assert_eq!(there, back);
            assert_eq!(there == 0, a == b);
        }
    }
    assert_eq!(find_distance(&distances, "JFK", "ORD"), Some(1_188_053));
    assert_eq!(find_distance(&distances, "SEA", "MIA"), Some(4_379_537));
    assert_eq!(find_distance(&distances, "JFK", "XXX"), None);
    assert_eq!(find_distance(&distances, "XXX", "XXX"), Some(0));
}

#[test]
fn the_distances_are_the_great_circle_distances_of_the_coordinates() {
    let airports = get_default_airports();
    let distances = get_default_distances();
    for route in &distances {
        let from = find_airport(&airports, &route.from).unwrap();
        let to = find_airport(&airports, &route.to).unwrap();
        let (lat1, lon1) = (from.coordinates.0 as f64 / 1e6, from.coordinates.1 as f64 / 1e6);
        let (lat2, lon2) = (to.coordinates.0 as f64 / 1e6, to.coordinates.1 as f64 / 1e6);
        let dlat = (lat2 - lat1).to_radians();
        let dlon = (lon2 - lon1).to_radians();
        let a = (dlat / 2.0).sin().powi(2)
            + lat1.to_radians().cos() * lat2.to_radians().cos() * (dlon / 2.0).sin().powi(2);
        let kilometres = 6371.0 * 2.0 * a.sqrt().atan2((1.0 - a).sqrt());
        assert_eq!(route.distance, (kilometres * 1000.0).ceil() as u64);
    }
}

#[test]
fn airports_are_made_from_their_parts() {
    let airport = Airport::new(
        "A1",
        "Airport 1",
        (1, -2),
        50,
        vec!["food".to_string()],
        vec![],
        1000,
    );
    assert_eq!(airport.id, "A1");
    assert_eq!(airport.name, "Airport 1");
    assert_eq!(airport.coordinates, (1, -2));
    assert_eq!(airport.base_fuel_price, 50);
    assert_eq!(airport.market_profile.produces, vec!["food".to_string()]);
    assert!(airport.market_profile.consumes.is_empty());
    assert_eq!(airport.market_profile.fuel_modifier, 1000);
    let copy = airport.clone();
    assert_eq!(copy.id, "A1");
    let route = Route::new("A1", "A2", 5);
    assert_eq!(find_distance(&vec![route.clone()], "A2", "A1"), Some(5));
}

#[test]
fn the_levels_differ_in_money_fuel_and_goal() {
    let normal = GameConfig::normal();
    assert_eq!(normal.starting_money, 5000);
    assert_eq!(normal.starting_fuel_percentage, 660);
    assert_eq!(normal.starting_airport, "ORD");
    assert_eq!(normal.win_condition_money, 100000);
    assert_eq!(normal.max_fuel, 150);
    assert_eq!(normal.max_cargo_weight, 500);
    assert_eq!(normal.fuel_efficiency, 10000);
    assert_eq!(normal.price_volatility_multiplier, 1000);
    assert_eq!(normal.fuel_price_multiplier, 1000);
    let easy = GameConfig::easy();
    assert_eq!(
        (easy.starting_money, easy.starting_fuel_percentage, easy.win_condition_money, easy.fuel_price_multiplier),
        (8000, 1000, 50000, 800)
    );
    assert_eq!(easy.max_fuel, 150);
    let hard = GameConfig::hard();
    assert_eq!(
        (hard.starting_money, hard.starting_fuel_percentage, hard.win_condition_money),
        (3000, 500, 150000)
    );
    assert_eq!((hard.price_volatility_multiplier, hard.fuel_price_multiplier), (1500, 1300));
    assert_eq!(GameConfig::default().starting_money, 5000);
}

#[test]
fn a_new_game_starts_at_the_starting_airport_with_priced_markets() {
    let game = new_game();
    assert_eq!(game.player.money, 5000);
    assert_eq!(game.player.current_airport, "ORD");
    assert_eq!(game.player.fuel, 99); // 66 % of 150
    assert_eq!(game.player.max_fuel, 150);
    assert_eq!(game.player.fuel_efficiency, 10000);
    assert_eq!(game.turn_number, 1);
    assert!(!game.cheat_mode);
    assert_eq!(game.win_condition_money, 100000);
    assert_eq!(game.stats.airports_visited, vec!["ORD".to_string()]);
    assert_eq!(game.stats.peak_money, 5000);
    assert!(game.active_events.is_empty());
    assert_eq!(game.message_board.max_messages(), 50);
    assert_eq!(game.markets.len(), 6);
    for (market, airport) in game.markets.iter().zip(game.airports.iter()) {
        assert_eq!(market.airport_id, airport.id);
        assert!(market.fuel_price >= 1);
        // base price times the modifier times 0.85 to 1.15
        let low = airport.base_fuel_price as u64 * airport.market_profile.fuel_modifier as u64 * 850 / 1_000_000;
        let high = airport.base_fuel_price as u64 * airport.market_profile.fuel_modifier as u64 * 1150 / 1_000_000;
        assert!(market.fuel_price as u64 >= low && market.fuel_price as u64 <= high);
        assert_eq!(market.cargo_prices.len(), 6);
        for cargo in &game.cargo_types {
            let price = market.get_cargo_price(&cargo.id).unwrap() as u64;
            let base = cargo.base_price as u64;
            let low = base * (1000 - cargo.volatility as u64) * 700 / 1_000_000;
            let high = base * (1000 + cargo.volatility as u64) * 1400 / 1_000_000;
            assert!(price >= std::cmp::max(low, 1) && price <= high);
        }
    }
    assert!(game.get_current_airport().is_some());
    assert!(game.get_current_market().is_some());
    assert!(!game.is_game_won());
    assert!(game.can_player_continue());
}

#[test]
fn a_game_by_settings_takes_the_settings() {
    let game = GameState::new_with_config(
        get_default_airports(),
        get_default_cargo_types(),
        get_default_distances(),
        GameConfig::hard(),
        true,
    );
    assert_eq!(game.player.money, 3000);
    assert_eq!(game.player.fuel, 75);
    assert!(game.cheat_mode);
    assert_eq!(game.win_condition_money, 150000);
    assert_eq!(game.stats.lowest_money, 3000);
}

#[test]
fn a_game_knows_its_distances_and_destinations() {
    let game = new_game();
    assert_eq!(game.get_distance("JFK", "ORD"), Some(1_188_053));
    assert_eq!(game.get_distance("ORD", "ORD"), Some(0));
    assert_eq!(game.get_distance("ORD", "XXX"), None);
    let destinations: Vec<&str> = game
        .get_available_destinations()
        .iter()
        .map(|a| a.id.as_str())
        .collect();
    assert_eq!(destinations, vec!["JFK", "LAX", "MIA", "DEN", "SEA"]);
}

#[test]
fn the_game_is_won_with_the_money_and_lost_without_fuel_or_money() {
    let mut game = new_game();
    game.player.money = 100000;
    assert!(game.is_game_won());
    game.player.money = 99999;
    assert!(!game.is_game_won());
    game.player.fuel = 0;
    assert!(game.can_player_continue());
    game.player.money = 0;
    assert!(!game.can_player_continue());
    game.player.money = 5000;
    game.player.current_airport = "XXX".to_string();
    assert!(!game.can_player_continue());
    game.player.fuel = 1;
    assert!(game.can_player_continue());
    assert!(game.get_current_market_mut().is_none());
    game.player.current_airport = "ORD".to_string();
    game.get_current_market_mut().unwrap().update_fuel_price(7);
    assert_eq!(game.get_current_market().unwrap().fuel_price, 7);
}

fn event(turns: u32, multiplier: u32, description: &str) -> MarketEvent {
    MarketEvent {
        event_type: MarketEventType::PriceSpike,
        affected_cargo: "food".to_string(),
        affected_airport: "ORD".to_string(),
        price_multiplier: multiplier,
        duration_turns: turns,
        turns_remaining: turns,
        description: description.to_string(),
    }
}

#[test]
fn events_grow_older_and_pass() {
    let mut events = vec![
        event(2, 1500, "BREAKING: a"),
        event(1, 1500, "MARKET ALERT: b: c"),
        event(0, 1500, "no colon"),
        event(3, 1500, "URGENT: d"),
    ];
    let told = EventSystem::update_events(&mut events);
    assert_eq!(
        told,
        vec![
            "Market conditions normalize: MARKET ALERT effects have ended".to_string(),
            "Market conditions normalize: no colon effects have ended".to_string(),
        ]
    );
    assert_eq!(events.len(), 2);
    assert_eq!(events[0].turns_remaining, 1);
    assert_eq!(events[0].description, "BREAKING: a");
    assert_eq!(events[1].turns_remaining, 2);
    assert_eq!(events[1].duration_turns, 3);
}

#[test]
fn an_event_moves_the_price_of_its_cargo() {
    let mut market = Market::new("ORD", 50);
    market.set_cargo_price("food", 100);
    market.set_cargo_price("luxury", 1000);
    EventSystem::apply_event_to_market(&event(3, 1500, "x"), &mut market);
    assert_eq!(market.get_cargo_price("food"), Some(150));
    assert_eq!(market.get_cargo_price("luxury"), Some(1000));
    EventSystem::apply_event_to_market(&event(3, 333, "x"), &mut market);
    assert_eq!(market.get_cargo_price("food"), Some(49));
    EventSystem::apply_event_to_market(&event(3, 0, "x"), &mut market);
    assert_eq!(market.get_cargo_price("food"), Some(1));
    let mut other = Market::new("ORD", 50);
    EventSystem::apply_event_to_market(&event(3, 1500, "x"), &mut other);
    assert!(other.cargo_prices.is_empty());
    assert_eq!(other.fuel_price, 50);
}

#[test]
fn prices_are_scaled_in_thousandths() {
    assert_eq!(scale_price(100, 1000, 1000), 100);
    assert_eq!(scale_price(100, 1500, 1000), 150);
    assert_eq!(scale_price(100, 1200, 900), 108);
    assert_eq!(scale_price(999, 1001, 999), 998);
    assert_eq!(scale_price(1, 1, 1), 1);
    assert_eq!(scale_price(0, 1000, 1000), 1);
    assert_eq!(scale_price(100, 0, 1000), 1);
    assert_eq!(scale_price(100, -5, 1000), 1);
    assert_eq!(scale_price(u32::MAX, 2000, 1000), u32::MAX);
    assert_eq!(scale_price(u32::MAX, i64::MAX, i64::MAX), u32::MAX);
    assert_eq!(scale_price(80, 1200, 1149), 110);
}

#[test]
fn an_event_is_told_in_one_of_four_ways() {
    let airports = get_default_airports();
    let cargo_types = get_default_cargo_types();
    let told = EventSystem::describe_event(
        MarketEventType::PriceSpike,
        0,
        true,
        &airports,
        &cargo_types,
        "JFK",
        "food",
    );
    assert_eq!(
        told,
        "BREAKING: Factory fire at New York JFK creates urgent demand for Food & Beverages!"
    );
    let told = EventSystem::describe_event(
        MarketEventType::PriceCrash,
        3,
        true,
        &airports,
        &cargo_types,
        "XXX",
        "gold",
    );
    assert_eq!(told, "BEARISH: Analysts downgrade gold outlook for XXX region");
    let told = EventSystem::describe_event(
        MarketEventType::Shortage,
        1,
        true,
        &airports,
        &cargo_types,
        "SEA",
        "luxury",
    );
    assert_eq!(
        told,
        "SUPPLY CRISIS: Luxury Goods production halted - Seattle SEA faces severe shortage"
    );
    let told = EventSystem::describe_event(
        MarketEventType::NewsEvent,
        2,
        false,
        &airports,
        &cargo_types,
        "SEA",
        "raw_rare_metals",
    );
    assert_eq!(
        told,
        "ANALYST DOWNGRADE: raw rare metals sector faces headwinds from economic uncertainty"
    );
    let told = EventSystem::describe_event(
        MarketEventType::NewsEvent,
        0,
        true,
        &airports,
        &cargo_types,
        "SEA",
        "food",
    );
    assert_eq!(
        told,
        "BUSINESS NEWS: New technology breakthrough boosts food industry outlook"
    );
}

#[test]
fn an_event_is_made_from_its_parts() {
    let airports = get_default_airports();
    let cargo_types = get_default_cargo_types();
    let made = EventSystem::make_event(
        MarketEventType::Shortage,
        &airports,
        &cargo_types,
        3,
        4,
        2000,
        5,
        true,
        2,
    );
    assert_eq!(made.event_type, MarketEventType::Shortage);
    assert_eq!(made.affected_airport, "ORD");
    assert_eq!(made.affected_cargo, "luxury");
    assert_eq!(made.price_multiplier, 2000);
    assert_eq!(made.duration_turns, 5);
    assert_eq!(made.turns_remaining, 5);
    assert_eq!(
        made.description,
        "RESTRICTED: Export controls limit Luxury Goods availability at Chicago O'Hare"
    );
}

#[test]
fn chance_brings_events_within_their_ranges() {
    let airports = get_default_airports();
    let cargo_types = get_default_cargo_types();
    let mut seen = 0;
    for _ in 0..2000 {
        if let Some(event) = EventSystem::generate_random_event(&airports, &cargo_types) {
            seen += 1;
            assert!(find_airport(&airports, &event.affected_airport).is_some());
            assert!(cargo_types.iter().any(|c| c.id == event.affected_cargo));
            assert_eq!(event.turns_remaining, event.duration_turns);
            let (low, high, least, most) = match event.event_type {
                MarketEventType::PriceSpike => (1500, 2500, 3, 8),
                MarketEventType::PriceCrash => (300, 700, 4, 10),
                MarketEventType::Shortage => (1800, 3000, 2, 6),
                MarketEventType::NewsEvent => (500, 2000, 5, 12),
                _ => panic!("no such event comes by chance"),
            };
            assert!(event.price_multiplier >= low && event.price_multiplier < high);
            assert!(event.duration_turns >= least && event.duration_turns < most);
            assert!(event.description.contains(':'));
        }
    }
    // About three in twenty come; far fewer or far more would be a fault.
    assert!(seen > 150 && seen < 500, "{} events in 2000 turns", seen);
    assert!(EventSystem::generate_random_event(&Vec::new(), &cargo_types).is_none());
    assert!(EventSystem::generate_random_event(&airports, &Vec::new()).is_none());
}

#[test]
fn markets_are_priced_within_their_ranges() {
    let airports = get_default_airports();
    let cargo_types = get_default_cargo_types();
    let jfk = &airports[0];
    for _ in 0..200 {
        let fuel = MarketSystem::generate_fuel_price(jfk);
        // 80 * 1.2 * 0.85 .. 80 * 1.2 * 1.15
        assert!(fuel >= 81 && fuel <= 110, "fuel at {}", fuel);
        // JFK makes electronics: 500 * (0.6 .. 1.4) * (0.7 .. 0.9)
        let price = MarketSystem::generate_cargo_price(jfk, &cargo_types[0]);
        assert!(price >= 210 && price <= 630, "electronics at {}", price);
        // JFK uses food: 100 * (0.8 .. 1.2) * (1.1 .. 1.4)
        let price = MarketSystem::generate_cargo_price(jfk, &cargo_types[1]);
        assert!(price >= 88 && price <= 168, "food at {}", price);
        // Textiles are neither made nor used there: 200 * (0.75 .. 1.25) * (0.9 .. 1.1)
        let price = MarketSystem::generate_cargo_price(jfk, &cargo_types[2]);
        assert!(price >= 135 && price <= 275, "textiles at {}", price);
    }
    let prices = MarketSystem::generate_market_prices(jfk, &cargo_types);
    assert_eq!(prices.len(), 6);
    let mut market = Market::new("JFK", 1);
    market.set_cargo_price("gold", 7);
    MarketSystem::update_market_prices(&mut market, jfk, &cargo_types);
    assert_eq!(market.cargo_prices.len(), 7);
    assert_eq!(market.get_cargo_price("gold"), Some(7));
    assert!(market.fuel_price >= 81);
    let markets = MarketSystem::initialize_all_markets(&airports, &cargo_types);
    assert_eq!(markets.len(), 6);
    assert_eq!(markets[5].airport_id, "SEA");
}

#[test]
fn a_turn_ages_the_events_and_may_bring_one() {
    let mut game = new_game();
    game.active_events.push(event(1, 1500, "BREAKING: a"));
    game.active_events.push(event(5, 2000, "URGENT: b"));
    let food_before = game.markets[3].get_cargo_price("food").unwrap();
    let fuel_before: Vec<u32> = game.markets.iter().map(|m| m.fuel_price).collect();
    game.advance_turn();
    assert_eq!(game.turn_number, 2);
    assert!(game.active_events.len() == 1 || game.active_events.len() == 2);
    assert_eq!(game.active_events[0].description, "URGENT: b");
    assert_eq!(game.active_events[0].turns_remaining, 4);
    let fuel_after: Vec<u32> = game.markets.iter().map(|m| m.fuel_price).collect();
    assert_eq!(fuel_before, fuel_after);
    // The lasting event doubled the price of food at ORD, unless a new event moved it again.
    if game.active_events.len() == 1 {
        assert_eq!(game.markets[3].get_cargo_price("food"), Some(food_before * 2));
    }
    game.refresh_current_market();
    game.refresh_all_markets();
    assert_eq!(game.markets.len(), 6);
    assert_eq!(game.markets[3].airport_id, "ORD");
}

#[test]
fn flying_alone_burns_fuel_and_moves_the_game_on() {
    let mut game = new_game();
    game.player.fuel = 150;
    let info = TravelSystem::travel_to(&mut game, "DEN").unwrap();
    assert_eq!(info.from, "Chicago O'Hare");
    assert_eq!(info.to, "Denver DEN");
    assert_eq!(info.distance, 1_426_001);
    assert_eq!(info.fuel_consumed, 143);
    assert_eq!(info.remaining_fuel, 7);
    assert_eq!(game.player.fuel, 7);
    assert_eq!(game.player.current_airport, "DEN");
    assert_eq!(game.turn_number, 2);
}

#[test]
fn flying_alone_names_what_stands_against_it() {
    let mut game = new_game();
    assert_eq!(
        TravelSystem::travel_to(&mut game, "XXX").unwrap_err(),
        TravelError::DestinationNotFound
    );
    assert_eq!(
        TravelSystem::travel_to(&mut game, "ORD").unwrap_err(),
        TravelError::SameLocation
    );
    assert_eq!(
        TravelSystem::travel_to(&mut game, "SEA").unwrap_err(),
        TravelError::InsufficientFuel
    );
    game.distance_cache.clear();
    assert_eq!(
        TravelSystem::travel_to(&mut game, "DEN").unwrap_err(),
        TravelError::InvalidDestination
    );
    game.player.current_airport = "XXX".to_string();
    assert_eq!(
        TravelSystem::travel_to(&mut game, "DEN").unwrap_err(),
        TravelError::InvalidDestination
    );
    assert_eq!(game.turn_number, 1);
    assert_eq!(game.player.fuel, 99);
}

#[test]
fn who_cheats_flies_without_fuel() {
    let mut game = GameState::new_with_config(
        get_default_airports(),
        get_default_cargo_types(),
        get_default_distances(),
        GameConfig::normal(),
        true,
    );
    game.player.fuel = 0;
    let info = TravelSystem::travel_to(&mut game, "SEA").unwrap();
    assert_eq!(info.fuel_consumed, 0);
    assert_eq!(info.distance, 2_761_752);
    assert_eq!(game.player.current_airport, "SEA");
    let reachable = TravelSystem::get_reachable_destinations(&game);
    assert!(reachable.iter().all(|d| d.can_afford));
}

#[test]
fn destinations_are_listed_nearest_first() {
    let game = new_game();
    let reachable = TravelSystem::get_reachable_destinations(&game);
    let listed: Vec<(&str, u64, u32, bool)> = reachable
        .iter()
        .map(|d| (d.airport_id.as_str(), d.distance, d.fuel_needed, d.can_afford))
        .collect();
    // From ORD with 99 units of fuel at 10 km a unit.
    assert_eq!(
        listed,
        vec![
            ("JFK", 1_188_053, 119, false),
            ("DEN", 1_426_001, 143, false),
            ("MIA", 1_929_511, 193, false),
            ("SEA", 2_761_752, 277, false),
            ("LAX", 2_801_848, 281, false),
        ]
    );
    assert_eq!(reachable[0].airport_name, "New York JFK");
    let in_catalog_order: Vec<String> = TravelSystem::list_destinations(&game)
        .iter()
        .map(|d| d.airport_id.clone())
        .collect();
    assert_eq!(in_catalog_order, vec!["JFK", "LAX", "MIA", "DEN", "SEA"]);
    assert_eq!(TravelSystem::calculate_travel_cost(&game, "JFK"), Some(119));
    assert_eq!(TravelSystem::calculate_travel_cost(&game, "ORD"), Some(0));
    assert_eq!(TravelSystem::calculate_travel_cost(&game, "XXX"), None);
    assert_eq!(TravelSystem::calculate_fuel_needed(&game.player, 10_001), 2);
    let jfk = &game.airports[0];
    let ord = &game.airports[3];
    assert_eq!(
        TravelSystem::can_travel_to(&game.player, ord, jfk, &game.distance_cache),
        Err(TravelError::InsufficientFuel)
    );
    assert_eq!(
        TravelSystem::can_travel_to(&game.player, ord, ord, &game.distance_cache),
        Err(TravelError::SameLocation)
    );
    assert_eq!(
        TravelSystem::can_travel_to(&game.player, ord, jfk, &Vec::new()),
        Err(TravelError::InvalidDestination)
    );
    let mut player = game.player.clone();
    player.fuel = 119;
    assert_eq!(
        TravelSystem::can_travel_to(&player, ord, jfk, &game.distance_cache),
        Ok(119)
    );
}

#[test]
fn statistics_of_a_room_player_add_up() {
    let mut statistics = GameStatistics::new();
    statistics.record_cargo_purchase(700);
    statistics.record_fuel_purchase(20, 1000);
    statistics.record_sale("food", 900);
    statistics.record_sale("luxury", 1500);
    statistics.record_sale("food", 1500);
    statistics.record_travel("ORD", 1000);
    statistics.record_travel("JFK", 500);
    statistics.record_travel("ORD", 1);
    assert_eq!(statistics.total_revenue, 3900);
    assert_eq!(statistics.total_expenses, 1700);
    assert_eq!(statistics.net_profit, 2200);
    assert_eq!(statistics.cargo_trades, 4);
    assert_eq!(statistics.fuel_purchased, 20);
    assert_eq!(statistics.best_single_trade, 1500);
    assert_eq!(statistics.most_profitable_cargo, "luxury");
    assert_eq!(statistics.distances_traveled, 1501);
    assert_eq!(statistics.airports_visited, vec!["ORD".to_string(), "JFK".to_string()]);
    statistics.calculate_efficiency(0);
    assert_eq!(statistics.efficiency_score, 0);
    statistics.calculate_efficiency(4);
    assert_eq!(statistics.efficiency_score, 550);
    statistics.record_purchase(5000);
    assert_eq!(statistics.net_profit, 0);
    statistics.record_sale("food", u32::MAX);
    assert_eq!(statistics.total_revenue, u32::MAX);
    let copy = statistics.clone();
    assert_eq!(copy.airports_visited.len(), 2);
    assert_eq!(GameStatistics::default().total_revenue, 0);
}

#[test]
fn draws_decide_whether_an_event_comes_and_which() {
    assert_eq!(EventSystem::event_kind(0, 0), Some(MarketEventType::PriceSpike));
    assert_eq!(EventSystem::event_kind(149, 1), Some(MarketEventType::PriceCrash));
    assert_eq!(EventSystem::event_kind(10, 2), Some(MarketEventType::Shortage));
    assert_eq!(EventSystem::event_kind(10, 3), Some(MarketEventType::NewsEvent));
    assert_eq!(EventSystem::event_kind(150, 0), None);
    assert_eq!(EventSystem::event_kind(999, 3), None);
    assert!(EventSystem::is_good_news(0));
    assert!(EventSystem::is_good_news(5));
    assert!(!EventSystem::is_good_news(6));
    assert_eq!(
        EventSystem::event_ranges(MarketEventType::PriceSpike, false),
        ((1500, 2500), (3, 8))
    );
    assert_eq!(
        EventSystem::event_ranges(MarketEventType::PriceCrash, true),
        ((300, 700), (4, 10))
    );
    assert_eq!(
        EventSystem::event_ranges(MarketEventType::Shortage, true),
        ((1800, 3000), (2, 6))
    );
    assert_eq!(
        EventSystem::event_ranges(MarketEventType::NewsEvent, true),
        ((1300, 2000), (5, 12))
    );
    assert_eq!(
        EventSystem::event_ranges(MarketEventType::NewsEvent, false),
        ((500, 800), (5, 12))
    );
}

#[test]
fn an_airport_makes_cheap_what_it_makes_and_dear_what_it_uses() {
    let airports = get_default_airports();
    let jfk = &airports[0];
    assert_eq!(MarketSystem::profile_bounds(jfk, "electronics"), (700, 900));
    assert_eq!(MarketSystem::profile_bounds(jfk, "luxury"), (700, 900));
    assert_eq!(MarketSystem::profile_bounds(jfk, "food"), (1100, 1400));
    assert_eq!(MarketSystem::profile_bounds(jfk, "materials"), (1100, 1400));
    assert_eq!(MarketSystem::profile_bounds(jfk, "textiles"), (900, 1100));
    assert_eq!(MarketSystem::profile_bounds(jfk, "unknown"), (900, 1100));
}

#[test]
fn a_turn_applies_every_event_in_force_to_the_first_market_of_its_airport() {
    let mut game = new_game();
    let mut second = Market::new("ORD", 9);
    second.set_cargo_price("food", 100);
    game.markets.push(second);
    game.active_events.push(event(4, 1500, "BREAKING: a"));
    game.active_events.push(event(1, 3000, "MARKET ALERT: b"));
    game.active_events.push(event(5, 2000, "URGENT: c"));
    let before: Vec<Market> = game.markets.clone();
    game.advance_turn();
    assert!(game.active_events.len() == 2 || game.active_events.len() == 3);
    assert_eq!(game.active_events[0].price_multiplier, 1500);
    assert_eq!(game.active_events[1].price_multiplier, 2000);
    assert_eq!(game.markets.len(), 7);
    for (i, market) in game.markets.iter().enumerate() {
        let mut expected = before[i].cargo_prices.clone();
        for e in game.active_events.iter() {
            let first = before.iter().position(|m| m.airport_id == e.affected_airport);
            if first == Some(i) {
                if let Some(price) = expected.get(e.affected_cargo.as_str()) {
                    let moved = scale_price(*price, e.price_multiplier as i64, 1000);
                    expected.insert(e.affected_cargo.as_str(), moved);
                }
            }
        }
        assert!(market.cargo_prices.same_as(&expected), "market {}", i);
        assert_eq!(market.fuel_price, before[i].fuel_price);
        assert_eq!(market.airport_id, before[i].airport_id);
    }
    assert_eq!(game.markets[6].get_cargo_price("food"), Some(100));
    if game.active_events.len() == 2 {
        let food = before[3].get_cargo_price("food").unwrap();
        let risen = scale_price(food, 1500, 1000);
        assert_eq!(game.markets[3].get_cargo_price("food"), Some(scale_price(risen, 2000, 1000)));
    }
}

#[test]
fn refreshing_all_markets_prices_each_for_its_airport_and_leaves_the_others() {
    let mut game = new_game();
    let mut nowhere = Market::new("XXX", 7);
    nowhere.set_cargo_price("gold", 3);
    game.markets.push(nowhere);
    game.markets[0].set_cargo_price("gold", 11);
    game.markets[0].update_fuel_price(1);
    game.markets[0].set_cargo_price("electronics", 1);
    game.refresh_all_markets();
    assert_eq!(game.markets.len(), 7);
    assert_eq!(game.markets[0].airport_id, "JFK");
    assert!(game.markets[0].fuel_price >= 81 && game.markets[0].fuel_price <= 110);
    let electronics = game.markets[0].get_cargo_price("electronics").unwrap();
    assert!(electronics >= 210 && electronics <= 630, "electronics at {}", electronics);
    assert_eq!(game.markets[0].get_cargo_price("gold"), Some(11));
    assert_eq!(game.markets[0].cargo_prices.len(), 7);
    assert_eq!(game.markets[6].airport_id, "XXX");
    assert_eq!(game.markets[6].fuel_price, 7);
    assert_eq!(game.markets[6].cargo_prices.len(), 1);
    assert_eq!(game.markets[6].get_cargo_price("gold"), Some(3));
}

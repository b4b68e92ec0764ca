use kzrk::chance::{draw, draw_index, draw_or_low};
use kzrk::clock::{is_longer_than, now};
use kzrk::ident::{fresh_id, has_random_kind};
use kzrk::models::stats::GameStats;
use kzrk::systems::save::{SaveError, SaveGame, SaveInfo, SaveSystem};
use kzrk::text::{
    join2, decimal_string, same_text, starts_with, text_before, trim_trailing,
    underscores_to_spaces,
};
use kzrk::ui::game_api_client::{base_url, ApiError, GameApiClient};
use kzrk::ui::scenes::server_connection::{ConnectionState, ServerConnectionScene};
use kzrk::ui::scenes::{Location, Scene, SceneState};
use kzrk::ui::terminal::{ListChoice, MainMenuChoice, TerminalUI, TradingMenuChoice};

#[test]
fn numbers_are_spelt_in_decimal() {
    for n in [0u64, 1, 9, 10, 11, 99, 100, 101, 5000, 1_188_053, u32::MAX as u64, u64::MAX] {
        assert_eq!(decimal_string(n), n.to_string());
    }
}

#[test]
fn texts_are_compared_joined_and_cut() {
    assert!(same_text("abc", "abc"));
    assert!(!same_text("abc", "abd"));
    assert!(!same_text("abc", "ab"));
    assert!(same_text("", ""));
    assert_eq!(join2("ab", "cd"), "abcd");
    assert_eq!(text_before("BREAKING: fire: now", ':'), "BREAKING");
    assert_eq!(text_before("no colon", ':'), "no colon");
    assert_eq!(text_before(":x", ':'), "");
    assert_eq!(text_before("é:x", ':'), "é");
    assert_eq!(underscores_to_spaces("raw_rare__metals_"), "raw rare  metals ");
    assert_eq!(underscores_to_spaces("é_ü"), "é ü");
    assert!(starts_with("http://x", "http://"));
    assert!(!starts_with("http:/", "http://"));
    assert!(!starts_with("xhttp://", "http://"));
    assert!(starts_with("abc", ""));
    assert_eq!(trim_trailing("abc///", '/'), "abc");
    assert_eq!(trim_trailing("a/b/", '/'), "a/b");
    assert_eq!(trim_trailing("///", '/'), "");
    assert_eq!(trim_trailing("abc", '/'), "abc");
}

#[test]
fn a_server_is_called_under_its_base_url() {
    assert_eq!(base_url("127.0.0.1:3000"), "http://127.0.0.1:3000");
    assert_eq!(base_url("http://127.0.0.1:3000"), "http://127.0.0.1:3000");
    assert_eq!(base_url("http://127.0.0.1:3000/"), "http://127.0.0.1:3000");
    assert_eq!(base_url("https://example.org///"), "https://example.org");
    assert_eq!(base_url("example.org/"), "http://example.org/");
    let client = GameApiClient::new("https://example.org/".to_string());
    assert_eq!(client.base_url, "https://example.org");
    assert_eq!(client.url("/health"), "https://example.org/health");
    assert_eq!(GameApiClient::new("10.0.0.1:3000".to_string()).url("/rooms"), "http://10.0.0.1:3000/rooms");
}

#[test]
fn errors_are_told_in_words() {
    assert_eq!(
        ApiError::NetworkError("down".to_string()).message(),
        "Network error: down"
    );
    assert_eq!(ApiError::ParseError("bad".to_string()).message(), "Parse error: bad");
    assert_eq!(ApiError::ServerError("no".to_string()).message(), "Server error: no");
    assert_eq!(SaveError::IoError("disk".to_string()).message(), "IO error: disk");
    assert_eq!(
        SaveError::SerializationError("json".to_string()).message(),
        "Serialization error: json"
    );
    assert_eq!(SaveError::InvalidSaveFile.message(), "Invalid save file format");
    assert_eq!(SaveError::SaveNotFound.message(), "Save file not found");
}

#[test]
fn the_scene_state_starts_at_the_connection_scene() {
    let state = SceneState::new();
    assert_eq!(state.current_scene, Scene::ServerConnection);
    assert_eq!(state.current_location, Location::MainDesk);
    assert_eq!(state.selected_cargo, None);
    assert_eq!(state.trade_quantity, 1);
    assert_eq!(state.selected_destination, None);
    assert_eq!(state.fuel_quantity, 10);
    assert_eq!(state.message_input, "");
    assert!(!state.show_message_compose);
    assert_eq!(Scene::default(), Scene::ServerConnection);
    assert_eq!(Location::default(), Location::MainDesk);
    assert_eq!(SceneState::default().trade_quantity, 0);
}

#[test]
fn going_to_a_location_drops_what_was_selected() {
    let mut state = SceneState::new();
    state.selected_cargo = Some("food".to_string());
    state.selected_destination = Some("LAX".to_string());
    state.message_input = "half a message".to_string();
    state.show_message_compose = true;
    state.trade_quantity = 7;
    state.go_to_location(Location::FuelPump);
    assert_eq!(state.current_location, Location::FuelPump);
    assert_eq!(state.selected_cargo, None);
    assert_eq!(state.selected_destination, None);
    assert_eq!(state.message_input, "");
    assert!(!state.show_message_compose);
    assert_eq!(state.trade_quantity, 7);
    assert_eq!(state.current_scene, Scene::ServerConnection);
}

#[test]
fn arriving_at_an_airport_leads_to_the_main_desk() {
    let mut state = SceneState::new();
    state.go_to_location(Location::TradingDesk);
    state.selected_cargo = Some("food".to_string());
    state.message_input = "kept".to_string();
    state.travel_to_airport("LAX".to_string());
    assert_eq!(state.current_scene, Scene::Airport("LAX".to_string()));
    assert_eq!(state.current_location, Location::MainDesk);
    assert_eq!(state.selected_cargo, None);
    assert_eq!(state.message_input, "kept");
}

#[test]
fn the_connection_scene_starts_disconnected() {
    let mut scene = ServerConnectionScene::default();
    assert_eq!(scene.server_address, "http://127.0.0.1:3000");
    assert!(matches!(scene.connection_state, ConnectionState::Disconnected));
    assert!(scene.error_message.is_none());
    scene.connection_state = ConnectionState::Error("refused".to_string());
    scene.error_message = Some("refused".to_string());
    scene.begin_connecting();
    assert!(matches!(scene.connection_state, ConnectionState::Connecting));
    assert!(scene.error_message.is_none());
    assert!(matches!(ConnectionState::default(), ConnectionState::Disconnected));
}

#[test]
fn identifiers_are_random_and_marked_so() {
    let a = fresh_id();
    let b = fresh_id();
    assert_ne!(a, b);
    assert!(has_random_kind(a));
    assert!(has_random_kind(b));
    assert!(!has_random_kind(0));
    assert!(!has_random_kind(u128::MAX));
    assert!(has_random_kind(0x0000_0000_0000_4000_8000_0000_0000_0000));
}

#[test]
fn the_clock_runs_and_spans_are_measured() {
    let first = now();
    let second = now();
    assert!(second >= first);
    assert!(first > 1_577_836_800_000_000_000);
    let second_in_nanos = 1_000_000_000;
    assert!(!is_longer_than(0, 5 * second_in_nanos, 5));
    assert!(is_longer_than(0, 5 * second_in_nanos + 1, 5));
    assert!(!is_longer_than(10, 0, 5));
    assert!(is_longer_than(i64::MIN, i64::MAX, u32::MAX));
    assert!(!is_longer_than(i64::MAX, i64::MIN, 0));
    assert!(is_longer_than(0, 1, 0));
}

#[test]
fn draws_stay_within_their_range() {
    for _ in 0..1000 {
        let n = draw(-3, 4);
        assert!(n >= -3 && n < 4);
        assert!(draw_index(3) < 3);
        assert_eq!(draw_or_low(5, 5), 5);
        assert_eq!(draw_or_low(5, 1), 5);
        let m = draw_or_low(5, 7);
        assert!(m == 5 || m == 6);
    }
    assert_eq!(draw(9, 10), 9);
    assert_eq!(draw_index(1), 0);
}

#[test]
fn draws_are_not_always_the_lower_bound() {
    let drawn: Vec<i64> = (0..200).map(|_| draw(0, 1000)).collect();
    assert!(drawn.iter().any(|n| *n != 0));
    assert!(drawn.iter().any(|n| *n != drawn[0]));
    let picked: Vec<usize> = (0..200).map(|_| draw_index(1000)).collect();
    assert!(picked.iter().any(|n| *n != 0));
}

#[test]
fn statistics_of_a_game_alone_add_up() {
    let mut stats = GameStats::new(1000);
    assert_eq!(stats.peak_money, 1000);
    assert_eq!(stats.get_success_rate(), 0);
    assert_eq!(stats.get_average_profit_per_trade(), 0);
    assert_eq!(stats.get_fuel_efficiency(), 0);
    stats.record_trade(0, "food".to_string(), 5, true);
    stats.record_trade(300, "food".to_string(), 3, false);
    stats.record_trade(-500, "food".to_string(), 2, false);
    stats.record_trade(100, "food".to_string(), 1, false);
    stats.record_trade(0, "food".to_string(), 1, false);
    assert_eq!(stats.total_trades, 5);
    assert_eq!(stats.successful_trades, 2);
    assert_eq!(stats.total_cargo_bought, 5);
    assert_eq!(stats.total_cargo_sold, 7);
    assert_eq!(stats.total_profit, 400);
    assert_eq!(stats.total_loss, 500);
    assert_eq!(stats.best_trade_profit, 300);
    assert_eq!(stats.worst_trade_loss, -500);
    assert_eq!(stats.get_net_profit(), -100);
    assert_eq!(stats.get_average_profit_per_trade(), -20);
    assert_eq!(stats.get_success_rate(), 40);
    stats.record_trade(-3, "food".to_string(), 1, false);
    assert_eq!(stats.get_net_profit(), -103);
    assert_eq!(stats.get_average_profit_per_trade(), -17); // rounded towards zero
    stats.record_trade(i64::MIN, "food".to_string(), 1, false);
    assert_eq!(stats.total_loss, i64::MAX);
    stats.record_travel(1000, 3, "JFK".to_string(), "ORD".to_string());
    stats.record_travel(500, 2, "ORD".to_string(), "JFK".to_string());
    stats.record_travel(500, 2, "JFK".to_string(), "ORD".to_string());
    assert_eq!(stats.total_distance_traveled, 2000);
    assert_eq!(stats.total_fuel_consumed, 7);
    assert_eq!(stats.airports_visited, vec!["ORD".to_string(), "JFK".to_string()]);
    assert_eq!(stats.get_fuel_efficiency(), 285);
    stats.record_fuel_purchase(20);
    stats.record_fuel_purchase(u32::MAX);
    assert_eq!(stats.total_fuel_purchased, u32::MAX);
    stats.update_money_stats(1500);
    stats.update_money_stats(0);
    stats.update_money_stats(0);
    stats.update_money_stats(700);
    assert_eq!(stats.peak_money, 1500);
    assert_eq!(stats.lowest_money, 0);
    assert_eq!(stats.times_went_broke, 2);
}

fn save(name: &str, timestamp: i64) -> SaveInfo {
    SaveInfo {
        name: name.to_string(),
        timestamp,
        turn: 1,
        money: 2,
        location: "JFK".to_string(),
        file_name: name.to_string(),
    }
}

#[test]
fn saves_are_named_and_listed_newest_first() {
    assert_eq!(SaveSystem::save_file_name("autosave"), "autosave.json");
    let ordered = SaveSystem::order_saves(vec![
        save("b", 20),
        save("d", 40),
        save("a", 10),
        save("c1", 30),
        save("c2", 30),
    ]);
    let names: Vec<&str> = ordered.iter().map(|s| s.name.as_str()).collect();
    assert_eq!(names, vec!["d", "c1", "c2", "b", "a"]);
    assert!(SaveSystem::order_saves(Vec::new()).is_empty());
}

#[test]
fn a_save_is_described_by_its_game() {
    let mut game = kzrk::systems::game::GameState::new(
        kzrk::data::airports::get_default_airports(),
        kzrk::data::cargo_types::get_default_cargo_types(),
        kzrk::data::airports::get_default_distances(),
    );
    game.turn_number = 9;
    game.player.money = 4242;
    let kept = SaveGame {
        game_state: game,
        save_name: "mine".to_string(),
        timestamp: 77,
        version: "0.1.0".to_string(),
    };
    let info = SaveSystem::describe_save(&kept, "mine_file".to_string());
    assert_eq!(info.name, "mine");
    assert_eq!(info.timestamp, 77);
    assert_eq!(info.turn, 9);
    assert_eq!(info.money, 4242);
    assert_eq!(info.location, "ORD");
    assert_eq!(info.file_name, "mine_file");
}

#[test]
fn menu_choices_are_read_from_what_is_typed() {
    assert_eq!(TerminalUI::main_menu_choice("1"), Some(MainMenuChoice::ViewMarket));
    assert_eq!(TerminalUI::main_menu_choice("2"), Some(MainMenuChoice::Trade));
    assert_eq!(TerminalUI::main_menu_choice("3"), Some(MainMenuChoice::Travel));
    assert_eq!(TerminalUI::main_menu_choice("4"), Some(MainMenuChoice::Help));
    assert_eq!(TerminalUI::main_menu_choice("5"), Some(MainMenuChoice::Quit));
    for other in ["", "0", "6", "11", " 1", "one"] {
        assert_eq!(TerminalUI::main_menu_choice(other), None);
    }
    assert_eq!(TerminalUI::trading_menu_choice("1"), Some(TradingMenuChoice::BuyCargo));
    assert_eq!(TerminalUI::trading_menu_choice("2"), Some(TradingMenuChoice::SellCargo));
    assert_eq!(TerminalUI::trading_menu_choice("3"), Some(TradingMenuChoice::BuyFuel));
    assert_eq!(TerminalUI::trading_menu_choice("4"), Some(TradingMenuChoice::Back));
    assert_eq!(TerminalUI::trading_menu_choice("5"), None);
    assert_eq!(TerminalUI::list_choice("0", 3), ListChoice::Back);
    assert_eq!(TerminalUI::list_choice("1", 3), ListChoice::Entry(0));
    assert_eq!(TerminalUI::list_choice("3", 3), ListChoice::Entry(2));
    assert_eq!(TerminalUI::list_choice("4", 3), ListChoice::Nothing);
    assert_eq!(TerminalUI::list_choice("x", 3), ListChoice::Nothing);
    assert_eq!(TerminalUI::list_choice("1", 0), ListChoice::Nothing);
    assert!(TerminalUI::is_tradable_quantity(1, 1));
    assert!(!TerminalUI::is_tradable_quantity(0, 1));
    assert!(!TerminalUI::is_tradable_quantity(2, 1));
}

#[test]
fn numbers_are_read_as_the_language_reads_them() {
    for text in [
        "0", "7", "42", "007", "+5", "+", "", "-1", "4294967295", "4294967296", "99999999999999999999",
        "12a", "a12", "1 2", " 1", "１", "+-1", "++1", "1+",
    ] {
        assert_eq!(TerminalUI::parse_number(text), text.parse::<u32>().ok(), "for {:?}", text);
    }
}

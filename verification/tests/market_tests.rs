use kzrk::models::market::Market;
use std::time::Instant;

#[test]
fn test_market_creation() {
    let market = Market::new("JFK", 100);
    assert_eq!(market.airport_id, "JFK");
    assert_eq!(market.fuel_price, 100);
    assert!(market.cargo_prices.is_empty());
}

#[test]
fn test_set_and_get_cargo_price() {
    let mut market = Market::new("JFK", 100);
    market.set_cargo_price("electronics", 500);

    assert_eq!(market.get_cargo_price("electronics"), Some(500));
    assert_eq!(market.get_cargo_price("nonexistent"), None);
}

#[test]
fn test_update_fuel_price() {
    let mut market = Market::new("JFK", 100);
    market.update_fuel_price(120);
    assert_eq!(market.fuel_price, 120);
}

#[test]
fn test_get_all_cargo_prices() {
    let mut market = Market::new("JFK", 100);
    market.set_cargo_price("electronics", 500);
    market.set_cargo_price("textiles", 300);

    let all_prices = market.get_all_cargo_prices();
    assert_eq!(all_prices.len(), 2);
    assert_eq!(all_prices.get("electronics"), Some(&500));
    assert_eq!(all_prices.get("textiles"), Some(&300));
}

#[test]
fn test_market_price_consistency() {
    let mut market1 = Market::new("JFK", 100);
    let mut market2 = Market::new("LAX", 120);

    // Set different prices in different markets
    market1.set_cargo_price("electronics", 200);
    market2.set_cargo_price("electronics", 300);

    // Verify markets maintain separate pricing
    assert_eq!(market1.get_cargo_price("electronics"), Some(200));
    assert_eq!(market2.get_cargo_price("electronics"), Some(300));
    assert_eq!(market1.fuel_price, 100);
    assert_eq!(market2.fuel_price, 120);
}

#[test]
fn test_market_operations_performance() {
    let start = Instant::now();

    // Create many markets and perform operations
    for i in 0..10000 {
        let mut market = Market::new(&format!("AIRPORT_{}", i), 100);
        market.set_cargo_price("electronics", 200);
        market.set_cargo_price("textiles", 150);
        market.update_fuel_price(120);
        let _ = market.get_cargo_price("electronics");
        let _ = market.get_all_cargo_prices();
    }

    let duration = start.elapsed();

    // Should complete well under 1 second
    assert!(
        duration.as_millis() < 1000,
        "Market operations took too long: {:?}",
        duration
    );
}

#[test]
fn market_price_is_replaced_not_added() {
    let mut market = Market::new("JFK", 100);
    market.set_cargo_price("electronics", 500);
    market.set_cargo_price("electronics", 450);
    assert_eq!(market.get_cargo_price("electronics"), Some(450));
    assert_eq!(market.get_all_cargo_prices().len(), 1);
}

#[test]
fn market_is_stamped_with_a_recent_time() {
    let market = Market::new("JFK", 100);
    // Any time after the year 2020, in nanoseconds since the Unix epoch.
    assert!(market.last_updated > 1_577_836_800_000_000_000);
}

use gdax_client::clock::Instant;
use gdax_client::public::Level;
use gdax_client::{Method, PublicClient, Request};

fn check_public(request: &Request, url: &str) {
    assert_eq!(request.method, Method::Get);
    assert_eq!(request.url, url);
    assert_eq!(request.headers, vec!["User-Agent: rust-gdax-client/1.2.0"]);
    assert_eq!(request.body, "");
}

#[test]
fn fixed_addresses() {
    let client = PublicClient::new();
    check_public(&client.get_products(), "https://api.gdax.com/products");
    check_public(&client.get_currencies(), "https://api.gdax.com/currencies");
    check_public(&client.get_time(), "https://api.gdax.com/time");
    check_public(&client.get(String::from("https://example.org/x")), "https://example.org/x");
}

#[test]
fn product_addresses() {
    let client = PublicClient::new();
    check_public(&client.get_product_ticker("BTC-USD"), "https://api.gdax.com/products/BTC-USD/ticker");
    check_public(&client.get_trades("BTC-USD"), "https://api.gdax.com/products/BTC-USD/trades");
    check_public(&client.get_24hr_stats("ETH-EUR"), "https://api.gdax.com/products/ETH-EUR/stats");
}

#[test]
fn book_addresses_name_the_level() {
    let client = PublicClient::new();
    check_public(&client.get_best_order("BTC-USD"), "https://api.gdax.com/products/BTC-USD/book?level=1");
    check_public(&client.get_top50_orders("BTC-USD"), "https://api.gdax.com/products/BTC-USD/book?level=2");
    check_public(&client.get_full_book("BTC-USD"), "https://api.gdax.com/products/BTC-USD/book?level=3");
    check_public(&client.get_book("X", Level::Top50), "https://api.gdax.com/products/X/book?level=2");
}

#[test]
fn candle_address_holds_both_instants() {
    let client = PublicClient::new();
    let start = Instant { seconds: 1465516800, nanoseconds: 0 };
    let end = Instant { seconds: 1465646400, nanoseconds: 999_999_999 };
    check_public(
        &client.get_historic_rates("BTC-USD", start, end, 15 * 60).unwrap(),
        "https://api.gdax.com/products/BTC-USD/candles?start=2016-06-10T00:00:00Z&end=2016-06-11T12:00:00Z&granularity=900",
    );
    let same = chrono::DateTime::from_timestamp(1465516800, 0).unwrap();
    assert_eq!(
        start.to_rfc3339().unwrap(),
        same.to_rfc3339_opts(chrono::SecondsFormat::Secs, true)
    );
}

#[test]
fn instants_are_written_to_the_second() {
    assert_eq!(Instant { seconds: 0, nanoseconds: 0 }.to_rfc3339().unwrap(), "1970-01-01T00:00:00Z");
    assert_eq!(Instant { seconds: -1, nanoseconds: 5 }.to_rfc3339().unwrap(), "1969-12-31T23:59:59Z");
    assert_eq!(
        Instant { seconds: 1483228799, nanoseconds: 1_500_000_000 }.to_rfc3339().unwrap(),
        "2016-12-31T23:59:60Z"
    );
}

#[test]
fn instants_outside_the_calendar_give_no_request() {
    let client = PublicClient::new();
    let fine = Instant { seconds: 0, nanoseconds: 0 };
    let far = Instant { seconds: i64::MAX, nanoseconds: 0 };
    let odd = Instant { seconds: 0, nanoseconds: 2_000_000_000 };
    assert!(far.to_rfc3339().is_none());
    assert!(odd.to_rfc3339().is_none());
    assert!(client.get_historic_rates("BTC-USD", far, fine, 60).is_none());
    assert!(client.get_historic_rates("BTC-USD", fine, far, 60).is_none());
    assert!(client.get_historic_rates("BTC-USD", fine, odd, 60).is_none());
    assert!(client.get_historic_rates("BTC-USD", fine, fine, 0).is_some());
}

use gdax_client::amount::is_number;
use gdax_client::json::{write_object, Member};
use gdax_client::{Amount, Error, Funds, JsonFailure, NewOrder, Side, Size, SizeOrFunds};

fn amount(text: &str) -> Amount {
    Amount::parse(text).unwrap()
}

fn keys(json: &str) -> Vec<String> {
    let value: serde_json::Value = serde_json::from_str(json).unwrap();
    value.as_object().unwrap().keys().cloned().collect()
}

#[test]
fn limit_order_encodes_exactly() {
    let order = NewOrder::limit(Side::Buy, "BTC-USD", amount("1.0"), amount("100.0"));
    let json = order.serialize().unwrap();
    assert_eq!(
        json,
        "{\"type\":\"limit\",\"side\":\"buy\",\"product_id\":\"BTC-USD\",\"price\":100.0,\"size\":1.0}"
    );
    let value: serde_json::Value = serde_json::from_str(&json).unwrap();
    let object = value.as_object().unwrap();
    assert_eq!(object.len(), 5);
    assert_eq!(object["type"].as_str(), Some("limit"));
    assert_eq!(object["side"].as_str(), Some("buy"));
    assert_eq!(object["product_id"].as_str(), Some("BTC-USD"));
    assert_eq!(object["price"].as_f64(), Some(100.0));
    assert_eq!(object["size"].as_f64(), Some(1.0));
    assert!(!object.contains_key("funds"));
}

#[test]
fn market_order_encodes_size_or_funds() {
    let by_size = NewOrder::market(Side::Sell, "ETH-EUR", Size(amount("0.25")));
    assert_eq!(
        by_size.serialize().unwrap(),
        "{\"type\":\"market\",\"side\":\"sell\",\"product_id\":\"ETH-EUR\",\"size\":0.25}"
    );
    let by_funds = NewOrder::market(Side::Buy, "BTC-CAD", Funds(amount("10000.0")));
    assert_eq!(
        by_funds.serialize().unwrap(),
        "{\"type\":\"market\",\"side\":\"buy\",\"product_id\":\"BTC-CAD\",\"funds\":10000.0}"
    );
}

#[test]
fn stop_order_encodes_size_or_funds() {
    let by_size = NewOrder::stop(Side::Buy, "BTC-CAD", Size(amount("1.01")), amount("1.01"));
    assert_eq!(
        by_size.serialize().unwrap(),
        "{\"type\":\"stop\",\"side\":\"buy\",\"product_id\":\"BTC-CAD\",\"price\":1.01,\"size\":1.01}"
    );
    let by_funds = NewOrder::stop(Side::Sell, "BTC-USD", Funds(amount("5e3")), amount("-0.5"));
    assert_eq!(
        by_funds.serialize().unwrap(),
        "{\"type\":\"stop\",\"side\":\"sell\",\"product_id\":\"BTC-USD\",\"price\":-0.5,\"funds\":5e3}"
    );
}

#[test]
fn exactly_one_of_size_and_funds_is_present() {
    let quantities: Vec<(SizeOrFunds, &str, &str)> = vec![
        (Size(amount("1")), "size", "funds"),
        (Funds(amount("1")), "funds", "size"),
        (Size(amount("0.001")), "size", "funds"),
        (Funds(amount("1e10")), "funds", "size"),
    ];
    for (quantity, present, absent) in quantities {
        let copy = match &quantity {
            Size(a) => Size(a.duplicate()),
            Funds(a) => Funds(a.duplicate()),
        };
        let market = keys(&NewOrder::market(Side::Buy, "BTC-USD", quantity).serialize().unwrap());
        assert_eq!(market.iter().filter(|k| *k == present).count(), 1);
        assert_eq!(market.iter().filter(|k| *k == absent).count(), 0);
        let stop = keys(&NewOrder::stop(Side::Buy, "BTC-USD", copy, amount("2")).serialize().unwrap());
        assert_eq!(stop.iter().filter(|k| *k == present).count(), 1);
        assert_eq!(stop.iter().filter(|k| *k == absent).count(), 0);
    }
}

#[test]
fn product_name_is_escaped_by_the_codec() {
    let order = NewOrder::market(Side::Buy, "BTC\"USD\\\n", Size(amount("1")));
    let json = order.serialize().unwrap();
    assert_eq!(
        json,
        "{\"type\":\"market\",\"side\":\"buy\",\"product_id\":\"BTC\\\"USD\\\\\\n\",\"size\":1}"
    );
    let value: serde_json::Value = serde_json::from_str(&json).unwrap();
    assert_eq!(value["product_id"].as_str(), Some("BTC\"USD\\\n"));
}

#[test]
fn serialize_with_takes_the_codec_answer() {
    let order = NewOrder::market(Side::Buy, "BTC-USD", Size(amount("1")));
    assert_eq!(
        order.serialize_with(Ok(String::from("\"X\""))).unwrap(),
        "{\"type\":\"market\",\"side\":\"buy\",\"product_id\":\"X\",\"size\":1}"
    );
    match order.serialize_with(Err(String::from("broken"))) {
        Err(Error::Json(JsonFailure::Codec(message))) => assert_eq!(message, "broken"),
        other => panic!("unexpected: {:?}", other),
    }
    assert_eq!(order.product_id(), "BTC-USD");
}

#[test]
fn constructors_keep_their_arguments() {
    match NewOrder::limit(Side::Sell, "BTC-USD", amount("1.5"), amount("250")) {
        NewOrder::Limit { side, product_id, price, size } => {
            assert_eq!(side, Side::Sell);
            assert_eq!(product_id, "BTC-USD");
            assert_eq!(price.as_str(), "250");
            assert_eq!(size.as_str(), "1.5");
        }
        other => panic!("unexpected: {:?}", other),
    }
    match NewOrder::stop(Side::Buy, "ETH-USD", Funds(amount("7")), amount("3")) {
        NewOrder::Stop { side, product_id, price, size_or_funds: Funds(funds) } => {
            assert_eq!(side, Side::Buy);
            assert_eq!(product_id, "ETH-USD");
            assert_eq!(price.as_str(), "3");
            assert_eq!(funds.as_str(), "7");
        }
        other => panic!("unexpected: {:?}", other),
    }
    match NewOrder::market(Side::Buy, "ETH-USD", Size(amount("9"))) {
        NewOrder::Market { side, product_id, size_or_funds: Size(size) } => {
            assert_eq!(side, Side::Buy);
            assert_eq!(product_id, "ETH-USD");
            assert_eq!(size.as_str(), "9");
        }
        other => panic!("unexpected: {:?}", other),
    }
}

#[test]
fn amounts_are_json_numbers() {
    for text in [
        "0", "-0", "1", "10", "1.0", "100.0", "0.5", "-12.75", "1e5", "1E5", "1e+5", "1e-7",
        "1.5e300", "-0.0", "123456789012345678901234567890", "0e0",
    ] {
        let parsed = Amount::parse(text);
        assert!(parsed.is_some(), "{}", text);
        assert_eq!(parsed.unwrap().as_str(), text);
        assert!(serde_json::from_str::<serde_json::Number>(text).is_ok(), "{}", text);
    }
}

#[test]
fn other_texts_are_not_amounts() {
    for text in [
        "", "-", "+1", "01", "00", "-01", "1.", ".5", "1.e5", "1e", "1e+", "1e-", "e5", "1.5.5",
        "1e5e5", " 1", "1 ", "1,0", "0x10", "NaN", "null", "Infinity", "1.0f", "--1", "1e5.0",
        "1\u{661}", "\u{ff11}",
    ] {
        assert!(Amount::parse(text).is_none(), "{:?}", text);
    }
    assert!(!is_number(&vec!['1', '.']));
    assert!(is_number(&vec!['1', '.', '0']));
}

#[test]
fn objects_are_written_in_order() {
    assert_eq!(write_object(&vec![]), "{}");
    assert_eq!(write_object(&vec![Member::raw("a", "1")]), "{\"a\":1}");
    assert_eq!(
        write_object(&vec![Member::raw("a", "1"), Member::word("b", "x"), Member::raw("c", "null")]),
        "{\"a\":1,\"b\":\"x\",\"c\":null}"
    );
}

use gdax_client::private::{EntryType, HoldType};
use gdax_client::public::Level;
use gdax_client::text::{concatenate, decimal_text, fold_ascii, is_word, join};
use gdax_client::{JsonFailure, Side};

#[test]
fn side_reads_any_case() {
    assert_eq!(Side::deserialize("buy").unwrap(), Side::Buy);
    assert_eq!(Side::deserialize("BUY").unwrap(), Side::Buy);
    assert_eq!(Side::deserialize("Buy").unwrap(), Side::Buy);
    assert_eq!(Side::deserialize("sell").unwrap(), Side::Sell);
    assert_eq!(Side::deserialize("SeLL").unwrap(), Side::Sell);
}

#[test]
fn side_refuses_other_words() {
    match Side::deserialize("long") {
        Err(JsonFailure::InvalidValue(found)) => assert_eq!(found, "long"),
        other => panic!("unexpected: {:?}", other),
    }
    for text in ["", "b", "buyy", " buy", "buy ", "sel", "b\u{fc}y", "\u{212a}"] {
        assert!(matches!(Side::deserialize(text), Err(JsonFailure::InvalidValue(_))), "{:?}", text);
    }
}

#[test]
fn side_writes_lower_case_and_shows_capitalised() {
    assert_eq!(Side::Buy.serialize(), "buy");
    assert_eq!(Side::Sell.serialize(), "sell");
    assert_eq!(Side::Buy.to_string(), "Buy");
    assert_eq!(Side::Sell.to_string(), "Sell");
    assert_eq!(Side::deserialize(Side::Buy.serialize()).unwrap(), Side::Buy);
    assert_eq!(Side::deserialize(Side::Sell.serialize()).unwrap(), Side::Sell);
}

#[test]
fn entry_type_reads_its_vocabulary() {
    assert_eq!(EntryType::deserialize("fee").unwrap(), EntryType::Fee);
    assert_eq!(EntryType::deserialize("FEE").unwrap(), EntryType::Fee);
    assert_eq!(EntryType::deserialize("match").unwrap(), EntryType::Match);
    assert_eq!(EntryType::deserialize("Match").unwrap(), EntryType::Match);
    assert_eq!(EntryType::deserialize("transfer").unwrap(), EntryType::Transfer);
    assert_eq!(EntryType::deserialize("TRANSFER").unwrap(), EntryType::Transfer);
    match EntryType::deserialize("order") {
        Err(JsonFailure::InvalidValue(found)) => assert_eq!(found, "order"),
        other => panic!("unexpected: {:?}", other),
    }
    assert!(EntryType::deserialize("").is_err());
}

#[test]
fn hold_type_reads_its_vocabulary() {
    assert_eq!(HoldType::deserialize("order").unwrap(), HoldType::Order);
    assert_eq!(HoldType::deserialize("Order").unwrap(), HoldType::Order);
    assert_eq!(HoldType::deserialize("transfer").unwrap(), HoldType::Transfer);
    assert_eq!(HoldType::deserialize("tRaNsFeR").unwrap(), HoldType::Transfer);
    match HoldType::deserialize("fee") {
        Err(JsonFailure::InvalidValue(found)) => assert_eq!(found, "fee"),
        other => panic!("unexpected: {:?}", other),
    }
}

#[test]
fn vocabularies_write_lower_case_and_read_it_back() {
    for entry_type in [EntryType::Fee, EntryType::Match, EntryType::Transfer] {
        assert_eq!(EntryType::deserialize(entry_type.serialize()).unwrap(), entry_type);
    }
    for hold_type in [HoldType::Order, HoldType::Transfer] {
        assert_eq!(HoldType::deserialize(hold_type.serialize()).unwrap(), hold_type);
    }
    assert_eq!(EntryType::Fee.serialize(), "fee");
    assert_eq!(EntryType::Match.serialize(), "match");
    assert_eq!(EntryType::Transfer.serialize(), "transfer");
    assert_eq!(HoldType::Order.serialize(), "order");
    assert_eq!(HoldType::Transfer.serialize(), "transfer");
}

#[test]
fn levels_are_numbered_from_one() {
    assert_eq!(Level::Best.as_number(), 1);
    assert_eq!(Level::Top50.as_number(), 2);
    assert_eq!(Level::Full.as_number(), 3);
}

#[test]
fn folding_touches_ascii_capitals_only() {
    assert_eq!(fold_ascii('A'), 'a');
    assert_eq!(fold_ascii('Z'), 'z');
    assert_eq!(fold_ascii('a'), 'a');
    assert_eq!(fold_ascii('@'), '@');
    assert_eq!(fold_ascii('['), '[');
    assert_eq!(fold_ascii('\u{c9}'), '\u{c9}');
    assert!(is_word("HeLLo", "hello"));
    assert!(!is_word("hello", "HELLO"));
    assert!(!is_word("hell", "hello"));
    assert!(is_word("", ""));
}

#[test]
fn decimal_numerals() {
    assert_eq!(decimal_text(0), "0");
    assert_eq!(decimal_text(7), "7");
    assert_eq!(decimal_text(10), "10");
    assert_eq!(decimal_text(-1), "-1");
    assert_eq!(decimal_text(1500000000), "1500000000");
    assert_eq!(decimal_text(i64::MAX), "9223372036854775807");
    assert_eq!(decimal_text(i64::MIN), "-9223372036854775808");
    for n in [-1000i64, -99, -10, -9, 9, 99, 100, 101, 12345678901] {
        assert_eq!(decimal_text(n), n.to_string());
    }
}

#[test]
fn joining_and_concatenating() {
    assert_eq!(concatenate("ab", "cd"), "abcd");
    assert_eq!(concatenate("", ""), "");
    assert_eq!(join(&vec![], "&"), "");
    assert_eq!(join(&vec![String::from("a")], "&"), "a");
    assert_eq!(join(&vec![String::from("a"), String::from("b"), String::from("")], ", "), "a, b, ");
}

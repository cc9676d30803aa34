use gdax_client::response::{
    cancel_all_orders_response, cancel_order_response, cancelled_order, decode, is_success,
};
use gdax_client::{ApiError, Error, JsonFailure};

#[test]
fn refusal_keeps_the_body_verbatim() {
    let body = "{\"message\":\"Invalid API Key\"}";
    match decode(401, body.as_bytes().to_vec()) {
        Err(Error::Api(ApiError { message })) => assert_eq!(message, body),
        other => panic!("unexpected: {:?}", other),
    }
    match decode(500, Vec::new()) {
        Err(Error::Api(error)) => assert_eq!(error.message, ""),
        other => panic!("unexpected: {:?}", other),
    }
    match decode(404, "pas trouv\u{e9}".as_bytes().to_vec()) {
        Err(Error::Api(error)) => assert_eq!(error.message, "pas trouv\u{e9}"),
        other => panic!("unexpected: {:?}", other),
    }
}

#[test]
fn success_hands_the_body_on() {
    let body = b"[{\"id\":\"BTC\"}]".to_vec();
    assert_eq!(decode(200, body.clone()).unwrap(), body);
    assert_eq!(decode(201, body.clone()).unwrap(), body);
    assert_eq!(decode(299, vec![0xff, 0xfe]).unwrap(), vec![0xff, 0xfe]);
}

#[test]
fn success_is_the_two_hundreds() {
    assert!(!is_success(0));
    assert!(!is_success(199));
    assert!(is_success(200));
    assert!(is_success(204));
    assert!(is_success(299));
    assert!(!is_success(300));
    assert!(!is_success(404));
    assert!(matches!(decode(199, Vec::new()), Err(Error::Api(_))));
    assert!(matches!(decode(300, Vec::new()), Err(Error::Api(_))));
}

#[test]
fn cancelling_an_unknown_order_is_an_error() {
    assert!(matches!(cancelled_order(&vec![]), Err(Error::Json(JsonFailure::EmptyResult))));
}

#[test]
fn cancelling_an_order_names_it() {
    assert_eq!(cancelled_order(&vec![7]).unwrap(), 7);
    assert_eq!(cancelled_order(&vec![9, 7]).unwrap(), 9);
}

#[test]
fn failures_become_errors() {
    assert!(matches!(
        Error::from(JsonFailure::EmptyResult),
        Error::Json(JsonFailure::EmptyResult)
    ));
    let failure = base64::decode("%").unwrap_err();
    assert!(matches!(Error::from(failure), Error::InvalidSecretKey));
}

#[test]
fn cancel_order_against_an_unknown_order_is_an_error() {
    assert!(matches!(
        cancel_order_response(200, b"[]".to_vec()),
        Err(Error::Json(JsonFailure::EmptyResult))
    ));
    assert!(matches!(
        cancel_order_response(200, b" [ ] ".to_vec()),
        Err(Error::Json(JsonFailure::EmptyResult))
    ));
}

#[test]
fn cancel_order_returns_the_first_identifier() {
    let body = b"[\"0f8fad5b-d9cb-469f-a165-70867728950e\"]".to_vec();
    assert_eq!(cancel_order_response(200, body).unwrap(), 0x0f8fad5bd9cb469fa16570867728950e);
    let two = b"[\"00000000-0000-0000-0000-000000000002\",\"00000000-0000-0000-0000-000000000001\"]";
    assert_eq!(cancel_order_response(200, two.to_vec()).unwrap(), 2);
}

#[test]
fn cancel_order_keeps_the_exchange_complaint() {
    match cancel_order_response(404, b"{\"message\":\"order not found\"}".to_vec()) {
        Err(Error::Api(error)) => assert_eq!(error.message, "{\"message\":\"order not found\"}"),
        other => panic!("unexpected: {:?}", other),
    }
    match cancel_order_response(400, b"[]".to_vec()) {
        Err(Error::Api(error)) => assert_eq!(error.message, "[]"),
        other => panic!("unexpected: {:?}", other),
    }
}

#[test]
fn cancel_responses_refuse_other_bodies() {
    for body in ["", "{}", "[1]", "[\"not an id\"]", "[\"0f8fad5b-d9cb-469f-a165-70867728950e\"", "null", "[] x"] {
        assert!(
            matches!(
                cancel_order_response(200, body.as_bytes().to_vec()),
                Err(Error::Json(JsonFailure::Codec(_)))
            ),
            "{:?}",
            body
        );
        assert!(
            matches!(
                cancel_all_orders_response(200, body.as_bytes().to_vec()),
                Err(Error::Json(JsonFailure::Codec(_)))
            ),
            "{:?}",
            body
        );
    }
}

#[test]
fn cancel_all_orders_lists_every_identifier() {
    assert_eq!(cancel_all_orders_response(200, b"[]".to_vec()).unwrap(), Vec::<u128>::new());
    let two = b"[\"00000000-0000-0000-0000-000000000002\",\"a1a2a3a4-b1b2-c1c2-d1d2-d3d4d5d6d7d8\"]";
    assert_eq!(
        cancel_all_orders_response(200, two.to_vec()).unwrap(),
        vec![2, 0xa1a2a3a4b1b2c1c2d1d2d3d4d5d6d7d8]
    );
    assert!(matches!(cancel_all_orders_response(500, b"oops".to_vec()), Err(Error::Api(_))));
}

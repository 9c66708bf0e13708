//! Order defaults, the flattened wire encoding, and order decoding.

use apca_rest::decimal::Decimal;
use apca_rest::error::ApiError;
use apca_rest::json::JsonValue;
use apca_rest::orders::{
    decode_order, OrderClass, OrderStatus, OrderType, Side, StopLossSpec, SubmitOrder,
    TakeProfitSpec, TimeInForce,
};

fn to_json(v: &serde_json::Value) -> JsonValue {
    match v {
        serde_json::Value::Null => JsonValue::Null,
        serde_json::Value::Bool(b) => JsonValue::Bool(*b),
        serde_json::Value::Number(n) => JsonValue::Num(n.to_string()),
        serde_json::Value::String(s) => JsonValue::Str(s.clone()),
        serde_json::Value::Array(items) => JsonValue::Arr(items.iter().map(to_json).collect()),
        serde_json::Value::Object(m) => {
            JsonValue::Obj(m.iter().map(|(k, v)| (k.clone(), to_json(v))).collect())
        }
    }
}

fn parse(text: &str) -> JsonValue {
    to_json(&serde_json::from_str::<serde_json::Value>(text).unwrap())
}

#[test]
fn defaults() {
    assert!(matches!(OrderType::default(), OrderType::Market));
    assert!(matches!(TimeInForce::default(), TimeInForce::Day));
    assert!(matches!(OrderClass::default(), OrderClass::Simple));
    assert!(matches!(Side::default(), Side::Buy));
}

#[test]
fn simple_limit_body() {
    let req = SubmitOrder::new("AAPL")
        .order_type(OrderType::limit(Decimal::new(100, 0)))
        .order_class(OrderClass::Simple);
    let body = req.encode().unwrap();
    assert!(body.contains("\"type\":\"limit\",\"limit_price\":\"100\""));
    assert!(!body.contains("take_profit"));
    assert!(!body.contains("stop_loss"));
    assert!(body.contains("\"order_class\":\"simple\""));
}

#[test]
fn simple_order_body_text() {
    let req = SubmitOrder::new("AAPL")
        .qty(15)
        .side(Side::Buy)
        .order_type(OrderType::market())
        .time_in_force(TimeInForce::Day)
        .extended_hours(false)
        .client_order_id("904837e3-3b76-47ec-b432-046db621571b")
        .order_class(OrderClass::Simple);
    assert_eq!(
        req.encode().unwrap(),
        r#"{"symbol":"AAPL","qty":"15","side":"buy","type":"market","time_in_force":"day","extended_hours":false,"client_order_id":"904837e3-3b76-47ec-b432-046db621571b","order_class":"simple"}"#.to_string()
    );
}

#[test]
fn bracket_order_body_text() {
    let req = SubmitOrder::new("SPY")
        .client_order_id("904837e3-3b76-47ec-b432-046db621571b")
        .qty(100)
        .time_in_force(TimeInForce::GoodTilCancelled)
        .order_class(OrderClass::Bracket {
            take_profit: TakeProfitSpec {
                limit_price: Decimal::new(301, 0),
            },
            stop_loss: StopLossSpec {
                stop_price: Decimal::new(299, 0),
                limit_price: Some(Decimal::new(2985, 1)),
            },
        });
    let body = req.encode().unwrap();
    assert_eq!(
        body,
        r#"{"symbol":"SPY","qty":"100","side":"buy","type":"market","time_in_force":"gtc","extended_hours":false,"client_order_id":"904837e3-3b76-47ec-b432-046db621571b","order_class":"bracket","take_profit":{"limit_price":"301"},"stop_loss":{"stop_price":"299","limit_price":"298.5"}}"#.to_string()
    );
    // top-level keys flattened beside the base order fields
    assert!(body.contains("\"order_class\":\"bracket\""));
    assert!(body.contains("\"take_profit\":{"));
    assert!(body.contains("\"stop_loss\":{"));
}

#[test]
fn trailing_stop_validation() {
    let both_unset = SubmitOrder::new("AAPL").order_type(OrderType::TrailingStop {
        trail_price: None,
        trail_percent: None,
    });
    match both_unset.encode() {
        Err(ApiError::Validation { field }) => assert_eq!(field, "trail".to_string()),
        other => panic!("expected a validation error, got {:?}", other),
    }
    let both_set = SubmitOrder::new("AAPL").order_type(OrderType::TrailingStop {
        trail_price: Some(Decimal::new(1, 0)),
        trail_percent: Some(Decimal::new(1, 0)),
    });
    assert!(matches!(
        both_set.encode(),
        Err(ApiError::Validation { .. })
    ));
    let ok = SubmitOrder::new("AAPL").order_type(OrderType::trail_price(Decimal::new(105, 2)));
    let body = ok.encode().unwrap();
    // the unset offset is omitted, not sent as null
    assert!(body.contains("\"type\":\"trailing_stop\",\"trail_price\":\"1.05\""));
    assert!(!body.contains("trail_percent"));
}

#[test]
fn unset_client_order_id_is_omitted() {
    let body = SubmitOrder::new("AAPL").encode().unwrap();
    assert!(!body.contains("client_order_id"));
    assert_eq!(
        body,
        r#"{"symbol":"AAPL","qty":"1","side":"buy","type":"market","time_in_force":"gtc","extended_hours":false,"order_class":"simple"}"#.to_string()
    );
}

#[test]
fn validity_is_decidable() {
    // unverified callers test the codec bounds before encoding
    assert!(SubmitOrder::new("AAPL")
        .order_type(OrderType::limit(Decimal::new(100, 0)))
        .is_wf());
    let out_of_range = SubmitOrder::new("AAPL").order_type(OrderType::Limit {
        limit_price: Decimal {
            mantissa: 1,
            scale: 29,
        },
    });
    assert!(!out_of_range.is_wf());
    assert!(Decimal::new(100, 0).is_wf());
    assert!(!Decimal { mantissa: 1, scale: 29 }.is_wf());
}

const ORDER: &str = r#"{
    "id": "904837e3-3b76-47ec-b432-046db621571b",
    "client_order_id": "904837e3-3b76-47ec-b432-046db621571b",
    "created_at": "2018-10-05T05:48:59Z",
    "updated_at": "2018-10-05T05:48:59Z",
    "submitted_at": "2018-10-05T05:48:59Z",
    "filled_at": null,
    "expired_at": null,
    "canceled_at": null,
    "failed_at": null,
    "replaced_at": null,
    "replaced_by": null,
    "replaces": null,
    "asset_id": "904837e3-3b76-47ec-b432-046db621571b",
    "symbol": "AAPL",
    "asset_class": "us_equity",
    "qty": "15",
    "filled_qty": "0",
    "type": "limit",
    "limit_price": "107.00",
    "side": "buy",
    "time_in_force": "day",
    "filled_avg_price": "106.00",
    "status": "accepted",
    "extended_hours": false,
    "legs": null,
    "trail_price": "1.05",
    "trail_percent": null,
    "hwm": "108.05"
}"#;

#[test]
fn decode_order_fields() {
    let v = parse(ORDER);
    let o = decode_order(&v).unwrap();
    let id = uuid::Uuid::parse_str("904837e3-3b76-47ec-b432-046db621571b")
        .unwrap()
        .as_u128();
    assert_eq!(o.id, id);
    assert_eq!(o.asset_id, id);
    assert_eq!(o.symbol, "AAPL".to_string());
    assert_eq!(o.qty, 15);
    assert_eq!(o.filled_qty, 0);
    assert_eq!(o.filled_avg_price, Some(Decimal::new(10600, 2)));
    assert_eq!(
        o.order_type,
        OrderType::Limit {
            limit_price: Decimal::new(10700, 2)
        }
    );
    assert!(matches!(o.side, Side::Buy));
    assert!(matches!(o.time_in_force, TimeInForce::Day));
    assert!(matches!(o.status, OrderStatus::Accepted));
    assert!(!o.extended_hours);
    assert!(o.legs.is_none());
    assert_eq!(o.trail_price, Some(Decimal::new(105, 2)));
    assert_eq!(o.trail_percent, None);
    assert_eq!(o.hwm, Some(Decimal::new(10805, 2)));
    assert!(o.updated_at.is_some());
    assert!(o.filled_at.is_none());
}

#[test]
fn decode_order_with_legs() {
    let text = format!(
        r#"{{
            "id": "904837e3-3b76-47ec-b432-046db621571b",
            "client_order_id": "a",
            "created_at": "2018-10-05T05:48:59Z",
            "asset_id": "904837e3-3b76-47ec-b432-046db621571b",
            "symbol": "SPY",
            "asset_class": "us_equity",
            "qty": "100",
            "filled_qty": "0",
            "type": "market",
            "side": "buy",
            "time_in_force": "gtc",
            "status": "accepted",
            "extended_hours": false,
            "legs": [{}]
        }}"#,
        ORDER
    );
    let v = parse(&text);
    let o = decode_order(&v).unwrap();
    let legs = o.legs.unwrap();
    assert_eq!(legs.len(), 1);
    assert_eq!(legs[0].symbol, "AAPL".to_string());
    assert_eq!(legs[0].qty, 15);
}

#[test]
fn decode_order_tolerates_absent_optional_fields() {
    // only the fields the concrete type needs are present
    let text = r#"{
        "id": "904837e3-3b76-47ec-b432-046db621571b",
        "client_order_id": "a",
        "created_at": "2018-10-05T05:48:59Z",
        "asset_id": "904837e3-3b76-47ec-b432-046db621571b",
        "symbol": "AAPL",
        "asset_class": "us_equity",
        "qty": "1",
        "filled_qty": "0",
        "type": "market",
        "side": "sell",
        "time_in_force": "day",
        "status": "new",
        "extended_hours": true
    }"#;
    let o = decode_order(&parse(text)).unwrap();
    assert!(matches!(o.order_type, OrderType::Market));
    assert!(o.updated_at.is_none());
    assert!(o.legs.is_none());
    assert!(o.hwm.is_none());
}

#[test]
fn decode_order_reports_field_and_token() {
    // a quantity under the strict-string profile refuses a bare number
    let text = r#"{
        "id": "904837e3-3b76-47ec-b432-046db621571b",
        "client_order_id": "a",
        "created_at": "2018-10-05T05:48:59Z",
        "asset_id": "904837e3-3b76-47ec-b432-046db621571b",
        "symbol": "AAPL",
        "asset_class": "us_equity",
        "qty": 15,
        "filled_qty": "0",
        "type": "market",
        "side": "buy",
        "time_in_force": "day",
        "status": "new",
        "extended_hours": false
    }"#;
    let err = decode_order(&parse(text)).unwrap_err();
    assert_eq!(err.field, "qty".to_string());
    assert_eq!(err.value, "15".to_string());
}

#[test]
fn terminal_statuses() {
    assert!(OrderStatus::Filled.is_terminal());
    assert!(OrderStatus::Canceled.is_terminal());
    assert!(OrderStatus::Expired.is_terminal());
    assert!(OrderStatus::Rejected.is_terminal());
    assert!(OrderStatus::Replaced.is_terminal());
    assert!(OrderStatus::DoneForDay.is_terminal());
    assert!(!OrderStatus::New.is_terminal());
    assert!(!OrderStatus::PartiallyFilled.is_terminal());
    assert!(!OrderStatus::Accepted.is_terminal());
}

#[test]
fn side_negation() {
    assert!(matches!(Side::Buy.neg(), Side::Sell));
    assert!(matches!(Side::Sell.neg(), Side::Buy));
}

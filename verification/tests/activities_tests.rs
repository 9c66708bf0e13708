//! The untagged activity union, the strict and lenient number profiles,
//! and the activity listing requests.

use apca_rest::activities::{
    decode_activity, Activity, ActivityType, GetAccountActivities, GetAccountActivitiesByType,
};
use apca_rest::codec::{req_decimal_lenient, req_qty_strict};
use apca_rest::decimal::Decimal;
use apca_rest::json::JsonValue;
use apca_rest::temporal::Date;

fn to_json(v: &serde_json::Value) -> JsonValue {
    match v {
        serde_json::Value::Null => JsonValue::Null,
        serde_json::Value::Bool(b) => JsonValue::Bool(*b),
        serde_json::Value::Number(n) => JsonValue::Num(n.to_string()),
        serde_json::Value::String(s) => JsonValue::Str(s.clone()),
        serde_json::Value::Array(items) => JsonValue::Arr(items.iter().map(to_json).collect()),
        serde_json::Value::Object(m) => {
            JsonValue::Obj(m.iter().map(|(k, v)| (k.clone(), to_json(v))).collect())
        }
    }
}

fn parse(text: &str) -> JsonValue {
    to_json(&serde_json::from_str::<serde_json::Value>(text).unwrap())
}

const TRADE_ACTIVITY: &str = r#"{
    "activity_type": "FILL",
    "cum_qty": "1",
    "id": "20190524113406977::8efc7b9a-8b2b-4000-9955-d36e7db0df74",
    "leaves_qty": "0",
    "price": "1.63",
    "qty": "1",
    "side": "buy",
    "symbol": "LPCN",
    "transaction_time": "2019-05-24T15:34:06.977Z",
    "order_id": "904837e3-3b76-47ec-b432-046db621571b",
    "type": "fill"
}"#;

const NONTRADE_ACTIVITY: &str = r#"{
    "activity_type": "DIV",
    "id": "20190801011955195::5f596936-6f23-4cef-bdf1-3806aae57dbf",
    "date": "2019-08-01",
    "net_amount": "1.02",
    "symbol": "T",
    "qty": "2",
    "per_share_amount": "0.51"
}"#;

#[test]
fn payload_with_side_and_price_is_a_trade() {
    let a = decode_activity(&parse(TRADE_ACTIVITY)).unwrap();
    match a {
        Activity::TradeActivity {
            activity_type,
            price,
            qty,
            symbol,
            ..
        } => {
            assert!(matches!(activity_type, ActivityType::Fill));
            assert_eq!(price, Decimal::new(163, 2));
            assert_eq!(qty, Decimal::new(1, 0));
            assert_eq!(symbol, "LPCN".to_string());
        }
        other => panic!("expected a trade activity, got {:?}", other),
    }
}

#[test]
fn payload_without_side_and_price_is_a_non_trade() {
    let a = decode_activity(&parse(NONTRADE_ACTIVITY)).unwrap();
    match a {
        Activity::NonTradeActivity {
            activity_type,
            date,
            net_amount,
            symbol,
            qty,
            per_share_amount,
            ..
        } => {
            assert!(matches!(activity_type, ActivityType::Dividend));
            assert_eq!(date, Date::new(2019, 8, 1));
            assert_eq!(net_amount, Decimal::new(102, 2));
            assert_eq!(symbol, Some("T".to_string()));
            assert_eq!(qty, Some(2));
            assert_eq!(per_share_amount, Some(Decimal::new(51, 2)));
        }
        other => panic!("expected a non-trade activity, got {:?}", other),
    }
}

#[test]
fn unmatched_payload_names_both_shapes() {
    let err = decode_activity(&parse(r#"{"activity_type": "DIV"}"#)).unwrap_err();
    assert_eq!(err.field, "activity".to_string());
    assert!(err.value.contains("TradeActivity"));
    assert!(err.value.contains("NonTradeActivity"));
}

#[test]
fn lenient_share_count_accepts_both_forms() {
    // the dividend share count is lenient: numeric 2 and string "2"
    // both decode to 2
    let quoted = NONTRADE_ACTIVITY.to_string();
    let bare = quoted.replace("\"qty\": \"2\"", "\"qty\": 2");
    assert_ne!(quoted, bare);
    for text in [quoted, bare] {
        match decode_activity(&parse(&text)).unwrap() {
            Activity::NonTradeActivity { qty, .. } => assert_eq!(qty, Some(2)),
            other => panic!("expected a non-trade activity, got {:?}", other),
        }
    }
    // an unreadable token refuses the shape, so neither shape fits
    let bad = NONTRADE_ACTIVITY.to_string().replace("\"qty\": \"2\"", "\"qty\": \"two\"");
    let err = decode_activity(&parse(&bad)).unwrap_err();
    assert_eq!(err.field, "activity".to_string());
}

#[test]
fn strict_quantity_refuses_bare_numbers() {
    // the strict-string profile: "15" decodes, bare 15 is an error
    let quoted = parse(r#"{"qty": "15"}"#);
    let bare = parse(r#"{"qty": 15}"#);
    let quoted_fields = match quoted {
        JsonValue::Obj(f) => f,
        _ => unreachable!(),
    };
    let bare_fields = match bare {
        JsonValue::Obj(f) => f,
        _ => unreachable!(),
    };
    assert_eq!(req_qty_strict(&quoted_fields, "qty").unwrap(), 15);
    let err = req_qty_strict(&bare_fields, "qty").unwrap_err();
    assert_eq!(err.field, "qty".to_string());
    assert_eq!(err.value, "15".to_string());
    // the lenient profile accepts either form and reads 15 exactly
    assert_eq!(
        req_decimal_lenient(&quoted_fields, "qty").unwrap(),
        Decimal::new(15, 0)
    );
    assert_eq!(
        req_decimal_lenient(&bare_fields, "qty").unwrap(),
        Decimal::new(15, 0)
    );
}

#[test]
fn activity_listing_query() {
    let req = GetAccountActivities::new()
        .add_activity(ActivityType::Fill)
        .on_date(Date::new(2020, 1, 1));
    let q = req.query();
    assert_eq!(
        q,
        vec![
            ("activity_types".to_string(), "FILL".to_string()),
            ("date".to_string(), "2020-01-01".to_string()),
        ]
    );
}

#[test]
fn activity_listing_date_range() {
    let req = GetAccountActivities::new()
        .after_date(Date::new(2000, 1, 1))
        .before_date(Date::new(2022, 1, 1));
    let q = req.query();
    assert_eq!(
        q,
        vec![
            ("until".to_string(), "2022-01-01".to_string()),
            ("after".to_string(), "2000-01-01".to_string()),
        ]
    );
    // narrowing one bound keeps the other
    let req = GetAccountActivities::new()
        .before_date(Date::new(2022, 1, 1))
        .after_date(Date::new(2000, 1, 1));
    assert_eq!(req.query(), q);
}

#[test]
fn comma_joined_activity_types() {
    let req = GetAccountActivities::new()
        .add_activities(&[ActivityType::Fill, ActivityType::Dividend, ActivityType::Interest]);
    let q = req.query();
    assert_eq!(
        q,
        vec![("activity_types".to_string(), "FILL,DIV,INT".to_string())]
    );
}

#[test]
fn by_type_endpoint_path() {
    let req = GetAccountActivitiesByType::new(ActivityType::Dividend);
    assert_eq!(req.endpoint(), "/v2/account/activities/DIV".to_string());
    let req = GetAccountActivitiesByType::new(ActivityType::Fill);
    assert_eq!(req.endpoint(), "/v2/account/activities/FILL".to_string());
}

#[test]
fn trade_timestamp_has_subsecond_precision() {
    // relies on the RFC 3339 wrapper mapping text to an instant, not
    // handing the text back
    let a = decode_activity(&parse(TRADE_ACTIVITY)).unwrap();
    match a {
        Activity::TradeActivity {
            transaction_time, ..
        } => {
            assert_eq!(transaction_time.nanos, 977_000_000);
            assert!(transaction_time.secs > 1_500_000_000);
            assert!(transaction_time.secs < 1_600_000_000);
        }
        _ => unreachable!(),
    }
}

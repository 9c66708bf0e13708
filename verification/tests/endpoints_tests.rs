//! The remaining endpoint bindings: paths, queries, bodies, the
//! response gate, and the smaller decoders.

use apca_rest::account::{decode_account, AccountStatus, GetAccount};
use apca_rest::account_configurations::{
    decode_account_configurations, DtbpCheck, GetAccountConfigurations,
    PatchAccountConfigurations, TradeConfirmEmail,
};
use apca_rest::assets::{decode_asset, GetAsset, GetAssets, Status};
use apca_rest::calendar::{decode_calendars, GetCalendar};
use apca_rest::clock::{decode_clock, GetClock};
use apca_rest::common::{AssetClass, Exchange, Sort};
use apca_rest::decimal::Decimal;
use apca_rest::error::{gate_response, ApiError};
use apca_rest::json::JsonValue;
use apca_rest::orders::{CancelAllOrders, CancelOrder, GetOrder, GetOrders, QueryOrderStatus, ReplaceOrder};
use apca_rest::portfolio_history::{
    decode_portfolio_history, GetPortfolioHistory, Period, Timeframe,
};
use apca_rest::positions::{decode_positions, ClosePosition, CloseAllPositions, GetPosition, GetPositions};
use apca_rest::symbology::Identifier;
use apca_rest::temporal::{parse_clock_time, parse_date, parse_rfc3339, format_rfc3339, ClockTime, Date, Timestamp};
use apca_rest::watchlists::{
    decode_watchlist, AddAssetToWatchlist, CreateWatchlist, DeleteWatchlist, GetWatchlist,
    GetWatchlists, RemoveAssetFromWatchlist, UpdateWatchlist,
};

fn to_json(v: &serde_json::Value) -> JsonValue {
    match v {
        serde_json::Value::Null => JsonValue::Null,
        serde_json::Value::Bool(b) => JsonValue::Bool(*b),
        serde_json::Value::Number(n) => JsonValue::Num(n.to_string()),
        serde_json::Value::String(s) => JsonValue::Str(s.clone()),
        serde_json::Value::Array(items) => JsonValue::Arr(items.iter().map(to_json).collect()),
        serde_json::Value::Object(m) => {
            JsonValue::Obj(m.iter().map(|(k, v)| (k.clone(), to_json(v))).collect())
        }
    }
}

fn parse(text: &str) -> JsonValue {
    to_json(&serde_json::from_str::<serde_json::Value>(text).unwrap())
}

#[test]
fn non_success_status_is_an_http_error() {
    // a 404 on get-order-by-id surfaces as an HTTP status error with
    // code 404, never as a decode attempt
    let r = gate_response(404, "not found".to_string());
    match r {
        Err(ApiError::Http { status, body }) => {
            assert_eq!(status, 404);
            assert_eq!(body, "not found".to_string());
        }
        other => panic!("expected an HTTP error, got {:?}", other),
    }
    assert_eq!(gate_response(200, "x".to_string()), Ok("x".to_string()));
    assert_eq!(gate_response(204, "".to_string()), Ok("".to_string()));
    assert!(matches!(
        gate_response(500, "".to_string()),
        Err(ApiError::Http { status: 500, .. })
    ));
}

#[test]
fn order_endpoint_paths() {
    let id = uuid::Uuid::parse_str("904837e3-3b76-47ec-b432-046db621571b")
        .unwrap()
        .as_u128();
    assert_eq!(
        GetOrder::new(id).endpoint(),
        "/v2/orders/904837e3-3b76-47ec-b432-046db621571b".to_string()
    );
    assert_eq!(
        CancelOrder::new(id).endpoint(),
        "/v2/orders/904837e3-3b76-47ec-b432-046db621571b".to_string()
    );
    assert_eq!(CancelAllOrders.endpoint(), "/v2/orders".to_string());
    assert_eq!(
        ReplaceOrder::new(id).endpoint(),
        "/v2/orders/904837e3-3b76-47ec-b432-046db621571b".to_string()
    );
}

#[test]
fn get_orders_query() {
    let req = GetOrders::new()
        .status(QueryOrderStatus::Open)
        .limit(50)
        .sort(Sort::Descending)
        .nested(false);
    let q = req.query().unwrap();
    assert_eq!(
        q,
        vec![
            ("status".to_string(), "open".to_string()),
            ("limit".to_string(), "50".to_string()),
            ("direction".to_string(), "desc".to_string()),
            ("nested".to_string(), "false".to_string()),
        ]
    );
}

#[test]
fn get_orders_time_filters() {
    let req = GetOrders::new().after(Timestamp { secs: 0, nanos: 0 });
    let q = req.query().unwrap();
    assert_eq!(q.len(), 1);
    assert_eq!(q[0].0, "after".to_string());
    assert_eq!(q[0].1, "1970-01-01T00:00:00+00:00".to_string());
}

#[test]
fn replace_order_body() {
    let id = uuid::Uuid::nil().as_u128();
    let req = ReplaceOrder::new(id)
        .qty(2)
        .time_in_force(apca_rest::orders::TimeInForce::Day)
        .limit_price(Decimal::new(100, 0))
        .client_order_id("A");
    assert_eq!(
        req.encode(),
        r#"{"qty":2,"time_in_force":"day","limit_price":"100","client_order_id":"A"}"#.to_string()
    );
}

#[test]
fn temporal_codecs() {
    assert_eq!(parse_date("2018-01-03"), Some(Date::new(2018, 1, 3)));
    assert_eq!(parse_date("2018-13-03"), None);
    assert_eq!(parse_date("2018-1-3"), None);
    assert_eq!(parse_clock_time("09:30"), Some(ClockTime::new(9, 30)));
    assert_eq!(parse_clock_time("24:00"), None);
    assert_eq!(
        parse_rfc3339("1970-01-01T00:00:01Z"),
        Some(Timestamp { secs: 1, nanos: 0 })
    );
    assert_eq!(parse_rfc3339("not a time"), None);
    assert_eq!(
        format_rfc3339(&Timestamp { secs: 0, nanos: 0 }),
        Some("1970-01-01T00:00:00+00:00".to_string())
    );
}

#[test]
fn calendar_decoding_and_query() {
    let v = parse(r#"[{"date": "2018-01-03", "open": "09:30", "close": "16:00"}]"#);
    let days = decode_calendars(&v).unwrap();
    assert_eq!(days.len(), 1);
    assert_eq!(days[0].date, Date::new(2018, 1, 3));
    assert_eq!(days[0].open, ClockTime::new(9, 30));
    assert_eq!(days[0].close, ClockTime::new(16, 0));
    let req = GetCalendar::new();
    assert_eq!(
        req.query(),
        vec![
            ("start".to_string(), "1970-01-01".to_string()),
            ("end".to_string(), "2029-12-31".to_string()),
        ]
    );
    assert_eq!(req.endpoint(), "/v2/calendar".to_string());
}

#[test]
fn clock_decoding() {
    let v = parse(
        r#"{
            "timestamp": "2018-04-01T12:00:00.000Z",
            "is_open": true,
            "next_open": "2018-04-01T12:00:00.000Z",
            "next_close": "2018-04-01T12:00:00.000Z"
        }"#,
    );
    let c = decode_clock(&v).unwrap();
    assert!(c.is_open);
    assert_eq!(c.timestamp, c.next_open);
    assert_eq!(GetClock.endpoint(), "/v2/clock".to_string());
}

const ASSET: &str = r#"{
    "id": "904837e3-3b76-47ec-b432-046db621571b",
    "class": "us_equity",
    "exchange": "NASDAQ",
    "symbol": "AAPL",
    "status": "active",
    "tradable": true,
    "marginable": true,
    "shortable": true,
    "easy_to_borrow": true,
    "fractionable": true
}"#;

#[test]
fn asset_decoding_and_endpoints() {
    let a = decode_asset(&parse(ASSET)).unwrap();
    assert_eq!(a.symbol, "AAPL".to_string());
    assert!(matches!(a.class, AssetClass::UsEquity));
    assert!(matches!(a.exchange, Exchange::Nasdaq));
    assert!(matches!(a.status, Status::Active));
    assert!(a.tradable && a.easy_to_borrow && a.fractionable);
    let req = GetAssets::new();
    assert_eq!(
        req.query(),
        vec![
            ("status".to_string(), "active".to_string()),
            ("asset_class".to_string(), "us_equity".to_string()),
        ]
    );
    assert_eq!(
        GetAsset::new(Identifier::Symbol("AAPL".to_string(), None)).endpoint(),
        "/v2/assets/AAPL".to_string()
    );
}

const POSITION: &str = r#"{
    "asset_id": "904837e3-3b76-47ec-b432-046db621571b",
    "symbol": "AAPL",
    "exchange": "NASDAQ",
    "asset_class": "us_equity",
    "avg_entry_price": "100.0",
    "qty": "5",
    "side": "long",
    "market_value": "600.0",
    "cost_basis": "500.0",
    "unrealized_pl": "100.0",
    "unrealized_plpc": "0.20",
    "unrealized_intraday_pl": "10.0",
    "unrealized_intraday_plpc": "0.0084",
    "current_price": "120.0",
    "lastday_price": "119.0",
    "change_today": "0.0084"
}"#;

#[test]
fn position_decoding_and_endpoints() {
    let list = format!("[{}]", POSITION);
    let ps = decode_positions(&parse(&list)).unwrap();
    assert_eq!(ps.len(), 1);
    assert_eq!(ps[0].qty, 5);
    assert_eq!(ps[0].avg_entry_price, Decimal::new(1000, 1));
    assert!(matches!(ps[0].side, apca_rest::positions::Side::Long));
    assert_eq!(GetPositions.endpoint(), "/v2/positions".to_string());
    assert_eq!(
        GetPosition::new(Identifier::Symbol("AAPL".to_string(), None)).endpoint(),
        "/v2/positions/AAPL".to_string()
    );
    assert_eq!(
        ClosePosition::new(Identifier::AssetId(uuid::Uuid::nil().as_u128())).endpoint(),
        "/v2/positions/00000000-0000-0000-0000-000000000000".to_string()
    );
    assert_eq!(
        CloseAllPositions::new().cancel_orders(true).query(),
        vec![("cancel_orders".to_string(), "true".to_string())]
    );
}

const ACCOUNT: &str = r#"{
    "account_blocked": false,
    "account_number": "010203ABCD",
    "buying_power": "262113.632",
    "cash": "-23140.2",
    "created_at": "2019-06-12T22:47:07.99658Z",
    "currency": "USD",
    "daytrade_count": 0,
    "daytrading_buying_power": "262113.632",
    "equity": "103820.56",
    "id": "e6fe16f3-64a4-4921-8928-cadf02f92f98",
    "initial_margin": "63480.38",
    "last_equity": "103529.24",
    "last_maintenance_margin": "38000.832",
    "long_market_value": "126960.76",
    "maintenance_margin": "38088.228",
    "multiplier": "4",
    "pattern_day_trader": false,
    "regt_buying_power": "80680.36",
    "short_market_value": "0",
    "shorting_enabled": true,
    "sma": "0",
    "status": "ACTIVE",
    "trade_suspended_by_user": false,
    "trading_blocked": false,
    "transfers_blocked": false
}"#;

#[test]
fn account_decoding() {
    let a = decode_account(&parse(ACCOUNT)).unwrap();
    assert_eq!(a.account_number, "010203ABCD".to_string());
    assert!(matches!(a.status, AccountStatus::Active));
    assert_eq!(a.cash, Decimal::new(-231402, 1));
    assert_eq!(a.daytrade_count, 0);
    assert_eq!(a.multiplier, Decimal::new(4, 0));
    assert!(a.shorting_enabled);
    assert_eq!(GetAccount.endpoint(), "/v2/account".to_string());
}

#[test]
fn configurations_round_trip() {
    let v = parse(
        r#"{
            "dtbp_check": "entry",
            "no_shorting": false,
            "suspend_trade": false,
            "trade_confirm_email": "all"
        }"#,
    );
    let c = decode_account_configurations(&v).unwrap();
    assert!(matches!(c.dtbp_check, DtbpCheck::Entry));
    assert!(matches!(c.trade_confirm_email, TradeConfirmEmail::All));
    assert!(!c.suspend_trade && !c.no_shorting);
    let patch = PatchAccountConfigurations::new()
        .dtbp_check(DtbpCheck::Entry)
        .trade_confirm_email(TradeConfirmEmail::All)
        .suspend_trade(false)
        .no_shorting(false);
    assert_eq!(
        patch.encode(),
        r#"{"dtbp_check":"entry","trade_confirm_email":"all","suspend_trade":false,"no_shorting":false}"#.to_string()
    );
    // unset settings are omitted, not sent as null
    assert_eq!(PatchAccountConfigurations::new().encode(), "{}".to_string());
    assert_eq!(
        PatchAccountConfigurations::new()
            .suspend_trade(true)
            .encode(),
        r#"{"suspend_trade":true}"#.to_string()
    );
    assert_eq!(
        GetAccountConfigurations.endpoint(),
        "/v2/account/configurations".to_string()
    );
}

const PORTFOLIO_HISTORY: &str = r#"{
    "timestamp": [1580826600, 1580827500, 1580828400],
    "equity": ["27423.73", "27408.19", "27515.97"],
    "profit_loss": ["11.8", "-3.74", "104.04"],
    "profit_loss_pct": ["0.0004", "-0.0001", "0.0037"],
    "base_value": "27411.93",
    "timeframe": "15Min"
}"#;

#[test]
fn portfolio_history_decoding_and_query() {
    let h = decode_portfolio_history(&parse(PORTFOLIO_HISTORY)).unwrap();
    assert_eq!(h.timestamp.len(), 3);
    assert_eq!(h.timestamp[0], Timestamp { secs: 1580826600, nanos: 0 });
    assert_eq!(h.equity[2], Decimal::new(2751597, 2));
    assert_eq!(h.profit_loss[1], Decimal::new(-374, 2));
    assert_eq!(h.base_value, Decimal::new(2741193, 2));
    assert!(matches!(h.timeframe, Timeframe::FifteenMinutes));
    let req = GetPortfolioHistory::new()
        .period(Period::days(1))
        .timeframe(Timeframe::OneMinute)
        .date_end(Date::new(2021, 1, 1))
        .extended_hours(false);
    assert_eq!(
        req.query(),
        vec![
            ("period".to_string(), "1D".to_string()),
            ("timeframe".to_string(), "1Min".to_string()),
            ("date_end".to_string(), "2021-01-01".to_string()),
            ("extended_hours".to_string(), "false".to_string()),
        ]
    );
    assert_eq!(
        req.endpoint(),
        "/v2/account/portfolio/history".to_string()
    );
    assert_eq!(Period::years(1).text(), "1A".to_string());
    assert_eq!(Period::weeks(2).text(), "2W".to_string());
    assert_eq!(Period::months(3).text(), "3M".to_string());
}

const WATCHLIST: &str = r#"{
    "account_id": "1d5493c9-ea39-4377-aa94-340734c368ae",
    "assets": [
        {
            "class": "us_equity",
            "easy_to_borrow": true,
            "exchange": "ARCA",
            "id": "b28f4066-5c6d-479b-a2af-85dc1a8f16fb",
            "marginable": true,
            "shortable": true,
            "status": "active",
            "symbol": "SPY",
            "tradable": true,
            "fractionable": true
        }
    ],
    "created_at": "2019-10-30T07:54:42.981322Z",
    "id": "fb306e55-16d3-4118-8c3d-c1615fcd4c03",
    "name": "Monday List",
    "updated_at": "2019-10-30T07:54:42.981322Z"
}"#;

#[test]
fn watchlist_decoding_and_bodies() {
    let w = decode_watchlist(&parse(WATCHLIST)).unwrap();
    assert_eq!(w.name, "Monday List".to_string());
    assert_eq!(w.assets.len(), 1);
    assert_eq!(w.assets[0].symbol, "SPY".to_string());
    let create = CreateWatchlist::new(
        "Monday list",
        vec!["SPY".to_string(), "AMZN".to_string()],
    );
    assert_eq!(
        create.encode(),
        r#"{"name":"Monday list","symbols":["SPY","AMZN"]}"#.to_string()
    );
    let id = uuid::Uuid::parse_str("1d5493c9-ea39-4377-aa94-340734c368ae")
        .unwrap()
        .as_u128();
    let update = UpdateWatchlist::new(id)
        .name("Monday list")
        .symbols(vec!["SPY".to_string(), "AMZN".to_string()]);
    assert_eq!(
        update.encode(),
        r#"{"name":"Monday list","symbols":["SPY","AMZN"]}"#.to_string()
    );
    assert_eq!(
        update.endpoint(),
        "/v2/watchlists/1d5493c9-ea39-4377-aa94-340734c368ae".to_string()
    );
    let add = AddAssetToWatchlist::new(id, "SPY");
    assert_eq!(add.encode(), r#"{"symbol":"SPY"}"#.to_string());
    assert_eq!(
        RemoveAssetFromWatchlist::new(id, "FB").endpoint(),
        "/v2/watchlists/1d5493c9-ea39-4377-aa94-340734c368ae/FB".to_string()
    );
    assert_eq!(
        DeleteWatchlist::new(id).endpoint(),
        "/v2/watchlists/1d5493c9-ea39-4377-aa94-340734c368ae".to_string()
    );
    assert_eq!(GetWatchlists.endpoint(), "/v2/watchlists".to_string());
    assert_eq!(
        GetWatchlist::new(id).endpoint(),
        "/v2/watchlists/1d5493c9-ea39-4377-aa94-340734c368ae".to_string()
    );
}

#[test]
fn body_strings_are_escaped() {
    let create = CreateWatchlist::new("a\"b\\c", vec![]);
    assert_eq!(
        create.encode(),
        "{\"name\":\"a\\\"b\\\\c\",\"symbols\":[]}".to_string()
    );
}

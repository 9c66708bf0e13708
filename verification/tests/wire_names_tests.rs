//! Enum wire casing: each type's tokens read back as themselves.

use apca_rest::account::AccountStatus;
use apca_rest::account_configurations::{DtbpCheck, TradeConfirmEmail};
use apca_rest::activities::{ActivityType, FillType};
use apca_rest::common::{AssetClass, Exchange};
use apca_rest::orders::{OrderStatus, Side, TimeInForce};
use apca_rest::portfolio_history::Timeframe;

#[test]
fn lowercase_tokens_for_order_enums() {
    for side in [Side::Buy, Side::Sell] {
        assert_eq!(Side::from_wire(side.wire_name()), Some(side));
    }
    for tif in [
        TimeInForce::Day,
        TimeInForce::GoodTilCancelled,
        TimeInForce::Open,
        TimeInForce::Close,
        TimeInForce::ImmediateOrCancel,
        TimeInForce::FillOrKill,
    ] {
        assert_eq!(TimeInForce::from_wire(tif.wire_name()), Some(tif));
    }
    assert_eq!(TimeInForce::GoodTilCancelled.wire_name(), "gtc");
    assert_eq!(
        OrderStatus::from_wire("partially_filled"),
        Some(OrderStatus::PartiallyFilled)
    );
    assert_eq!(OrderStatus::from_wire("PARTIALLY_FILLED"), None);
}

#[test]
fn snake_case_tokens_for_asset_classes() {
    for c in [AssetClass::UsEquity, AssetClass::Crypto] {
        assert_eq!(AssetClass::from_wire(c.wire_name()), Some(c));
    }
    assert_eq!(AssetClass::UsEquity.wire_name(), "us_equity");
    assert_eq!(AssetClass::from_wire("US_EQUITY"), None);
}

#[test]
fn uppercase_tokens_for_exchanges() {
    for x in [
        Exchange::Amex,
        Exchange::Arca,
        Exchange::Bats,
        Exchange::Nyse,
        Exchange::Nasdaq,
        Exchange::NyseArca,
        Exchange::Otc,
        Exchange::ErisX,
    ] {
        assert_eq!(Exchange::from_wire(x.wire_name()), Some(x));
    }
    assert_eq!(Exchange::NyseArca.wire_name(), "NYSEARCA");
    assert_eq!(Exchange::from_wire("nasdaq"), None);
}

#[test]
fn screaming_snake_tokens_for_account_status() {
    assert_eq!(
        AccountStatus::from_wire("ACCOUNT_UPDATE"),
        Some(AccountStatus::AccountUpdate)
    );
    assert_eq!(AccountStatus::from_wire("active"), None);
    assert_eq!(AccountStatus::from_wire("ACTIVE"), Some(AccountStatus::Active));
}

#[test]
fn activity_codes_round_trip() {
    for t in [
        ActivityType::Fill,
        ActivityType::CashTransactions,
        ActivityType::Dividend,
        ActivityType::DividendTefraWithheld,
        ActivityType::JournalEntryStock,
        ActivityType::StockSplit,
    ] {
        assert_eq!(ActivityType::from_wire(t.wire_name()), Some(t));
    }
    // the tax-exempt dividend shares its code with the Tefra-withheld
    // dividend and reads back as that one
    assert_eq!(ActivityType::DividendTaxExempt.wire_name(), "DIVTXEX");
    assert_eq!(
        ActivityType::from_wire("DIVTXEX"),
        Some(ActivityType::DividendTefraWithheld)
    );
}

#[test]
fn remaining_enum_tokens() {
    assert_eq!(FillType::from_wire("fill"), Some(FillType::Fill));
    assert_eq!(FillType::from_wire("partial_fill"), Some(FillType::PartialFill));
    assert_eq!(FillType::from_wire("FILL"), None);
    for d in [DtbpCheck::Both, DtbpCheck::Entry, DtbpCheck::Exit] {
        assert_eq!(DtbpCheck::from_wire(d.wire_name()), Some(d));
    }
    for m in [TradeConfirmEmail::All, TradeConfirmEmail::Zero] {
        assert_eq!(TradeConfirmEmail::from_wire(m.wire_name()), Some(m));
    }
    assert_eq!(TradeConfirmEmail::Zero.wire_name(), "none");
    for t in [
        Timeframe::OneMinute,
        Timeframe::FiveMinutes,
        Timeframe::FifteenMinutes,
        Timeframe::OneHour,
        Timeframe::OneDay,
    ] {
        assert_eq!(Timeframe::from_wire(t.wire_name()), Some(t));
    }
}

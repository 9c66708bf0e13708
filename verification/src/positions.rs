//! Open positions and their endpoints.

use vstd::prelude::*;

use crate::common::{AssetClass, Exchange};
use crate::decimal::Decimal;
use crate::error::DecodeError;
use crate::json::JsonValue;
use crate::request::Method;
use crate::symbology::Identifier;

verus! {

use vstd::string::StringExecFns;

/// Whether a position is long or short.
#[derive(Clone, Copy, Debug, PartialEq, Eq, Structural)]
pub enum Side {
    /// Long: more than zero shares.
    Long,
    /// Short: less than zero shares.
    Short,
}

impl Default for Side {
    /// The default side is long.
    fn default() -> (r: Self)
        ensures
            r == Side::Long,
    {
        Side::Long
    }
}

impl Side {
    /// The wire token of the side.
    pub open spec fn spec_wire_name(&self) -> Seq<char> {
        match self {
            Side::Long => "long"@,
            Side::Short => "short"@,
        }
    }

    /// What a wire token means.
    pub open spec fn spec_from_wire(s: Seq<char>) -> Option<Side> {
        if s == "long"@ {
            Some(Side::Long)
        } else if s == "short"@ {
            Some(Side::Short)
        } else {
            None
        }
    }

    /// Reads a wire token.
    pub fn from_wire(s: &str) -> (r: Option<Side>)
        ensures
            r == Self::spec_from_wire(s@),
    {
        if crate::strutil::str_eq(s, "long") {
            Some(Side::Long)
        } else if crate::strutil::str_eq(s, "short") {
            Some(Side::Short)
        } else {
            None
        }
    }
}

/// An open position.
#[derive(Clone, Debug, PartialEq)]
pub struct Position {
    /// Asset id.
    pub asset_id: u128,
    /// Ticker symbol.
    pub symbol: String,
    /// Exchange the asset lists on.
    pub exchange: Exchange,
    /// Asset class.
    pub asset_class: AssetClass,
    /// Average entry price.
    pub avg_entry_price: Decimal,
    /// Signed share count; travels as a strict string token.
    pub qty: i64,
    /// Long or short.
    pub side: Side,
    /// Market value of the position.
    pub market_value: Decimal,
    /// Cost basis.
    pub cost_basis: Decimal,
    /// Unrealized profit or loss.
    pub unrealized_pl: Decimal,
    /// Unrealized profit or loss as a factor of one.
    pub unrealized_plpc: Decimal,
    /// Unrealized intraday profit or loss.
    pub unrealized_intraday_pl: Decimal,
    /// Unrealized intraday profit or loss as a factor of one.
    pub unrealized_intraday_plpc: Decimal,
    /// Current price per share.
    pub current_price: Decimal,
    /// Closing price of the last trading day.
    pub lastday_price: Decimal,
    /// Change from the last day's price, as a factor of one.
    pub change_today: Decimal,
}

/// Whether a position payload decodes.
pub open spec fn spec_position_ok(fields: Seq<(String, JsonValue)>) -> bool {
    &&& crate::codec::uuid_field(fields, "asset_id"@) is Some
    &&& crate::codec::str_field(fields, "symbol"@) is Some
    &&& (match crate::codec::str_field(fields, "exchange"@) {
        Some(s) => Exchange::spec_from_wire(s) is Some,
        None => false,
    })
    &&& (match crate::codec::str_field(fields, "asset_class"@) {
        Some(s) => AssetClass::spec_from_wire(s) is Some,
        None => false,
    })
    &&& crate::codec::lenient_decimal_field(fields, "avg_entry_price"@) is Some
    &&& crate::codec::strict_int_field(fields, "qty"@) is Some
    &&& (match crate::codec::str_field(fields, "side"@) {
        Some(s) => Side::spec_from_wire(s) is Some,
        None => false,
    })
    &&& crate::codec::lenient_decimal_field(fields, "market_value"@) is Some
    &&& crate::codec::lenient_decimal_field(fields, "cost_basis"@) is Some
    &&& crate::codec::lenient_decimal_field(fields, "unrealized_pl"@) is Some
    &&& crate::codec::lenient_decimal_field(fields, "unrealized_plpc"@) is Some
    &&& crate::codec::lenient_decimal_field(fields, "unrealized_intraday_pl"@) is Some
    &&& crate::codec::lenient_decimal_field(fields, "unrealized_intraday_plpc"@) is Some
    &&& crate::codec::lenient_decimal_field(fields, "current_price"@) is Some
    &&& crate::codec::lenient_decimal_field(fields, "lastday_price"@) is Some
    &&& crate::codec::lenient_decimal_field(fields, "change_today"@) is Some
}

/// What each decoded position field holds.
pub open spec fn spec_position_matches(fields: Seq<(String, JsonValue)>, p: Position) -> bool {
    &&& crate::codec::uuid_field(fields, "asset_id"@) == Some(p.asset_id)
    &&& crate::codec::str_field(fields, "symbol"@) == Some(p.symbol@)
    &&& (match crate::codec::str_field(fields, "exchange"@) {
        Some(s) => Exchange::spec_from_wire(s) == Some(p.exchange),
        None => false,
    })
    &&& (match crate::codec::str_field(fields, "asset_class"@) {
        Some(s) => AssetClass::spec_from_wire(s) == Some(p.asset_class),
        None => false,
    })
    &&& crate::codec::lenient_decimal_field(fields, "avg_entry_price"@) == Some(p.avg_entry_price)
    &&& crate::codec::strict_int_field(fields, "qty"@) == Some(p.qty)
    &&& (match crate::codec::str_field(fields, "side"@) {
        Some(s) => Side::spec_from_wire(s) == Some(p.side),
        None => false,
    })
    &&& crate::codec::lenient_decimal_field(fields, "market_value"@) == Some(p.market_value)
    &&& crate::codec::lenient_decimal_field(fields, "cost_basis"@) == Some(p.cost_basis)
    &&& crate::codec::lenient_decimal_field(fields, "unrealized_pl"@) == Some(p.unrealized_pl)
    &&& crate::codec::lenient_decimal_field(fields, "unrealized_plpc"@) == Some(p.unrealized_plpc)
    &&& crate::codec::lenient_decimal_field(fields, "unrealized_intraday_pl"@) == Some(
        p.unrealized_intraday_pl,
    )
    &&& crate::codec::lenient_decimal_field(fields, "unrealized_intraday_plpc"@) == Some(
        p.unrealized_intraday_plpc,
    )
    &&& crate::codec::lenient_decimal_field(fields, "current_price"@) == Some(p.current_price)
    &&& crate::codec::lenient_decimal_field(fields, "lastday_price"@) == Some(p.lastday_price)
    &&& crate::codec::lenient_decimal_field(fields, "change_today"@) == Some(p.change_today)
}

/// Decodes a position payload.
pub fn decode_position(v: &JsonValue) -> (r: Result<Position, DecodeError>)
    ensures
        r is Ok <==> (v matches JsonValue::Obj(fields) && spec_position_ok(fields@)),
        r matches Ok(p) ==> (v matches JsonValue::Obj(fields) && spec_position_matches(fields@, p)),
{
    let fields = match v {
        JsonValue::Obj(fields) => fields,
        _ => {
            return Err(
                DecodeError {
                    field: String::from_str("position"),
                    value: crate::json::raw_token(v),
                },
            );
        },
    };
    let asset_id = crate::codec::req_uuid(fields, "asset_id")?;
    let symbol = crate::codec::req_str(fields, "symbol")?;
    let exchange_token = crate::codec::req_str(fields, "exchange")?;
    let exchange = match Exchange::from_wire(exchange_token.as_str()) {
        Some(e) => e,
        None => {
            return Err(DecodeError { field: String::from_str("exchange"), value: exchange_token });
        },
    };
    let class_token = crate::codec::req_str(fields, "asset_class")?;
    let asset_class = match AssetClass::from_wire(class_token.as_str()) {
        Some(c) => c,
        None => {
            return Err(DecodeError { field: String::from_str("asset_class"), value: class_token });
        },
    };
    let avg_entry_price = crate::codec::req_decimal_lenient(fields, "avg_entry_price")?;
    let qty = crate::codec::req_int_strict(fields, "qty")?;
    let side_token = crate::codec::req_str(fields, "side")?;
    let side = match Side::from_wire(side_token.as_str()) {
        Some(s) => s,
        None => {
            return Err(DecodeError { field: String::from_str("side"), value: side_token });
        },
    };
    let market_value = crate::codec::req_decimal_lenient(fields, "market_value")?;
    let cost_basis = crate::codec::req_decimal_lenient(fields, "cost_basis")?;
    let unrealized_pl = crate::codec::req_decimal_lenient(fields, "unrealized_pl")?;
    let unrealized_plpc = crate::codec::req_decimal_lenient(fields, "unrealized_plpc")?;
    let unrealized_intraday_pl = crate::codec::req_decimal_lenient(
        fields,
        "unrealized_intraday_pl",
    )?;
    let unrealized_intraday_plpc = crate::codec::req_decimal_lenient(
        fields,
        "unrealized_intraday_plpc",
    )?;
    let current_price = crate::codec::req_decimal_lenient(fields, "current_price")?;
    let lastday_price = crate::codec::req_decimal_lenient(fields, "lastday_price")?;
    let change_today = crate::codec::req_decimal_lenient(fields, "change_today")?;
    Ok(
        Position {
            asset_id,
            symbol,
            exchange,
            asset_class,
            avg_entry_price,
            qty,
            side,
            market_value,
            cost_basis,
            unrealized_pl,
            unrealized_plpc,
            unrealized_intraday_pl,
            unrealized_intraday_plpc,
            current_price,
            lastday_price,
            change_today,
        },
    )
}

/// Decodes a list of positions.
#[verifier::loop_isolation(false)]
pub fn decode_positions(v: &JsonValue) -> (r: Result<Vec<Position>, DecodeError>)
    ensures
        r is Ok <==> (v matches JsonValue::Arr(items) && (forall|i: int|
            0 <= i < items@.len() ==> ((#[trigger] items@[i]) matches JsonValue::Obj(fields)
                && spec_position_ok(fields@)))),
        r matches Ok(os) ==> (v matches JsonValue::Arr(items) && os@.len() == items@.len() && (
        forall|i: int|
            0 <= i < items@.len() ==> ((#[trigger] items@[i]) matches JsonValue::Obj(fields)
                && spec_position_matches(fields@, os@[i])))),
{
    let items = match v {
        JsonValue::Arr(items) => items,
        _ => {
            return Err(
                DecodeError {
                    field: String::from_str("positions"),
                    value: crate::json::raw_token(v),
                },
            );
        },
    };
    let mut out: Vec<Position> = Vec::new();
    let n = items.len();
    let mut i: usize = 0;
    while i < n
        invariant
            i <= n,
            n == items@.len(),
            out@.len() == i,
            forall|j: int|
                0 <= j < i ==> ((#[trigger] items@[j]) matches JsonValue::Obj(fields)
                    && spec_position_ok(fields@) && spec_position_matches(fields@, out@[j])),
        decreases n - i,
    {
        let p = decode_position(&items[i])?;
        out.push(p);
        i = i + 1;
    }
    Ok(out)
}

/// Lists the account's open positions.
#[derive(Clone, Copy, Debug, PartialEq, Eq, Structural)]
pub struct GetPositions;

impl GetPositions {
    /// The path of the position-listing endpoint.
    pub fn endpoint(&self) -> (r: String)
        ensures
            r@ == "/v2/positions"@,
    {
        String::from_str("/v2/positions")
    }

    /// The method of the position-listing endpoint.
    pub fn method(&self) -> (r: Method)
        ensures
            r == Method::Get,
    {
        Method::Get
    }
}

/// Retrieves the open position for one symbol or asset id.
#[derive(Clone, Debug, PartialEq)]
pub struct GetPosition {
    /// Which position.
    pub identifier: Identifier,
}

impl GetPosition {
    /// A new request for the given identifier.
    pub fn new(identifier: Identifier) -> (r: GetPosition)
        ensures
            r.identifier == identifier,
    {
        GetPosition { identifier }
    }

    /// The path of the position endpoint: the listing path with the
    /// identifier's text appended.
    pub fn endpoint(&self) -> (r: String)
        ensures
            r@ == "/v2/positions/"@ + crate::symbology::spec_format_identifier(self.identifier@),
    {
        let mut out = String::from_str("/v2/positions/");
        let id = crate::symbology::format_identifier(&self.identifier);
        out.append(id.as_str());
        out
    }

    /// The method of the position endpoint.
    pub fn method(&self) -> (r: Method)
        ensures
            r == Method::Get,
    {
        Method::Get
    }
}

/// Liquidates all open positions; the multi-status answer reports each
/// attempt.
#[derive(Clone, Copy, Debug, PartialEq, Eq, Structural)]
pub struct CloseAllPositions {
    /// Whether open orders are canceled before liquidation.
    pub cancel_orders: Option<bool>,
}

impl CloseAllPositions {
    /// A new request that leaves open orders alone.
    pub fn new() -> (r: CloseAllPositions)
        ensures
            r.cancel_orders is None,
    {
        CloseAllPositions { cancel_orders: None }
    }

    /// Sets whether open orders are canceled first.
    pub fn cancel_orders(self, cancel_orders: bool) -> (r: Self)
        ensures
            r == (CloseAllPositions { cancel_orders: Some(cancel_orders) }),
    {
        CloseAllPositions { cancel_orders: Some(cancel_orders) }
    }

    /// The query the flag spells.
    pub open spec fn spec_query(&self) -> Seq<(Seq<char>, Seq<char>)> {
        match self.cancel_orders {
            Some(b) => seq![("cancel_orders"@, crate::request::spec_bool_text(b))],
            None => Seq::<(Seq<char>, Seq<char>)>::empty(),
        }
    }

    /// Builds the query parameters.
    pub fn query(&self) -> (r: Vec<(String, String)>)
        ensures
            crate::request::pairs_view(r@) == self.spec_query(),
    {
        let mut q: Vec<(String, String)> = Vec::new();
        match self.cancel_orders {
            Some(b) => crate::request::push_pair(
                &mut q,
                "cancel_orders",
                String::from_str(crate::request::bool_text(b)),
            ),
            None => {},
        }
        proof {
            assert(crate::request::pairs_view(q@) =~= self.spec_query());
        }
        q
    }

    /// The path of the liquidation endpoint.
    pub fn endpoint(&self) -> (r: String)
        ensures
            r@ == "/v2/positions"@,
    {
        String::from_str("/v2/positions")
    }

    /// The method of the liquidation endpoint.
    pub fn method(&self) -> (r: Method)
        ensures
            r == Method::Delete,
    {
        Method::Delete
    }
}

/// Liquidates the open position for one symbol or asset id.
#[derive(Clone, Debug, PartialEq)]
pub struct ClosePosition {
    /// Which position.
    pub identifier: Identifier,
}

impl ClosePosition {
    /// A new request for the given identifier.
    pub fn new(identifier: Identifier) -> (r: ClosePosition)
        ensures
            r.identifier == identifier,
    {
        ClosePosition { identifier }
    }

    /// The path of the liquidation endpoint for one position.
    pub fn endpoint(&self) -> (r: String)
        ensures
            r@ == "/v2/positions/"@ + crate::symbology::spec_format_identifier(self.identifier@),
    {
        let mut out = String::from_str("/v2/positions/");
        let id = crate::symbology::format_identifier(&self.identifier);
        out.append(id.as_str());
        out
    }

    /// The method of the liquidation endpoint for one position.
    pub fn method(&self) -> (r: Method)
        ensures
            r == Method::Delete,
    {
        Method::Delete
    }
}

/// A wire token reads back as the position side it was written from.
pub proof fn lemma_position_side_wire_round_trip(x: Side)
    ensures
        Side::spec_from_wire(x.spec_wire_name()) == Some(x),
{
    reveal_strlit("long");
    assert(("long"@).len() == 4);
    reveal_strlit("short");
    assert(("short"@).len() == 5);
    match x {
        Side::Long => {
            assert(Side::spec_from_wire("long"@) == Some(Side::Long));
        },
        Side::Short => {
            assert(Side::spec_from_wire("short"@) == Some(Side::Short));
        },
    }
}

} // verus!

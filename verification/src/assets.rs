//! Tradable assets and their endpoints.

use vstd::prelude::*;

use crate::common::{AssetClass, Exchange};
use crate::error::DecodeError;
use crate::json::JsonValue;
use crate::request::Method;
use crate::symbology::Identifier;

verus! {

use vstd::string::StringExecFns;

/// Whether an asset is active or inactive.
#[derive(Clone, Copy, Debug, PartialEq, Eq, Hash, Structural)]
pub enum Status {
    /// Active asset.
    Active,
    /// Inactive asset.
    Inactive,
}

impl Default for Status {
    /// The default filter is active assets.
    fn default() -> (r: Self)
        ensures
            r == Status::Active,
    {
        Status::Active
    }
}

impl Status {
    /// The wire token of the status.
    pub open spec fn spec_wire_name(&self) -> Seq<char> {
        match self {
            Status::Active => "active"@,
            Status::Inactive => "inactive"@,
        }
    }

    /// The wire token of the status.
    pub fn wire_name(&self) -> (r: &'static str)
        ensures
            r@ == self.spec_wire_name(),
    {
        match self {
            Status::Active => "active",
            Status::Inactive => "inactive",
        }
    }

    /// What a wire token means.
    pub open spec fn spec_from_wire(s: Seq<char>) -> Option<Status> {
        if s == "active"@ {
            Some(Status::Active)
        } else if s == "inactive"@ {
            Some(Status::Inactive)
        } else {
            None
        }
    }

    /// Reads a wire token.
    pub fn from_wire(s: &str) -> (r: Option<Status>)
        ensures
            r == Self::spec_from_wire(s@),
    {
        if crate::strutil::str_eq(s, "active") {
            Some(Status::Active)
        } else if crate::strutil::str_eq(s, "inactive") {
            Some(Status::Inactive)
        } else {
            None
        }
    }
}

/// A tradable asset.
#[derive(Clone, Debug, PartialEq)]
pub struct Asset {
    /// Asset id.
    pub id: u128,
    /// Asset class; arrives under the key `class`.
    pub class: AssetClass,
    /// Primary exchange.
    pub exchange: Exchange,
    /// Ticker symbol.
    pub symbol: String,
    /// Active or inactive.
    pub status: Status,
    /// Whether the asset is tradable here.
    pub tradable: bool,
    /// Whether the asset is marginable.
    pub marginable: bool,
    /// Whether the asset is shortable.
    pub shortable: bool,
    /// Whether the asset is easy to borrow.
    pub easy_to_borrow: bool,
    /// Whether the asset is fractionable.
    pub fractionable: bool,
}

/// Whether an asset payload decodes.
pub open spec fn spec_asset_ok(fields: Seq<(String, JsonValue)>) -> bool {
    &&& crate::codec::uuid_field(fields, "id"@) is Some
    &&& (match crate::codec::str_field(fields, "class"@) {
        Some(s) => AssetClass::spec_from_wire(s) is Some,
        None => false,
    })
    &&& (match crate::codec::str_field(fields, "exchange"@) {
        Some(s) => Exchange::spec_from_wire(s) is Some,
        None => false,
    })
    &&& crate::codec::str_field(fields, "symbol"@) is Some
    &&& (match crate::codec::str_field(fields, "status"@) {
        Some(s) => Status::spec_from_wire(s) is Some,
        None => false,
    })
    &&& crate::codec::bool_field(fields, "tradable"@) is Some
    &&& crate::codec::bool_field(fields, "marginable"@) is Some
    &&& crate::codec::bool_field(fields, "shortable"@) is Some
    &&& crate::codec::bool_field(fields, "easy_to_borrow"@) is Some
    &&& crate::codec::bool_field(fields, "fractionable"@) is Some
}

/// What each decoded asset field holds.
pub open spec fn spec_asset_matches(fields: Seq<(String, JsonValue)>, a: Asset) -> bool {
    &&& crate::codec::uuid_field(fields, "id"@) == Some(a.id)
    &&& (match crate::codec::str_field(fields, "class"@) {
        Some(s) => AssetClass::spec_from_wire(s) == Some(a.class),
        None => false,
    })
    &&& (match crate::codec::str_field(fields, "exchange"@) {
        Some(s) => Exchange::spec_from_wire(s) == Some(a.exchange),
        None => false,
    })
    &&& crate::codec::str_field(fields, "symbol"@) == Some(a.symbol@)
    &&& (match crate::codec::str_field(fields, "status"@) {
        Some(s) => Status::spec_from_wire(s) == Some(a.status),
        None => false,
    })
    &&& crate::codec::bool_field(fields, "tradable"@) == Some(a.tradable)
    &&& crate::codec::bool_field(fields, "marginable"@) == Some(a.marginable)
    &&& crate::codec::bool_field(fields, "shortable"@) == Some(a.shortable)
    &&& crate::codec::bool_field(fields, "easy_to_borrow"@) == Some(a.easy_to_borrow)
    &&& crate::codec::bool_field(fields, "fractionable"@) == Some(a.fractionable)
}

/// Decodes an asset payload.
pub fn decode_asset(v: &JsonValue) -> (r: Result<Asset, DecodeError>)
    ensures
        r is Ok <==> (v matches JsonValue::Obj(fields) && spec_asset_ok(fields@)),
        r matches Ok(a) ==> (v matches JsonValue::Obj(fields) && spec_asset_matches(fields@, a)),
{
    let fields = match v {
        JsonValue::Obj(fields) => fields,
        _ => {
            return Err(
                DecodeError { field: String::from_str("asset"), value: crate::json::raw_token(v) },
            );
        },
    };
    let id = crate::codec::req_uuid(fields, "id")?;
    let class_token = crate::codec::req_str(fields, "class")?;
    let class = match AssetClass::from_wire(class_token.as_str()) {
        Some(c) => c,
        None => {
            return Err(DecodeError { field: String::from_str("class"), value: class_token });
        },
    };
    let exchange_token = crate::codec::req_str(fields, "exchange")?;
    let exchange = match Exchange::from_wire(exchange_token.as_str()) {
        Some(e) => e,
        None => {
            return Err(DecodeError { field: String::from_str("exchange"), value: exchange_token });
        },
    };
    let symbol = crate::codec::req_str(fields, "symbol")?;
    let status_token = crate::codec::req_str(fields, "status")?;
    let status = match Status::from_wire(status_token.as_str()) {
        Some(s) => s,
        None => {
            return Err(DecodeError { field: String::from_str("status"), value: status_token });
        },
    };
    let tradable = crate::codec::req_bool(fields, "tradable")?;
    let marginable = crate::codec::req_bool(fields, "marginable")?;
    let shortable = crate::codec::req_bool(fields, "shortable")?;
    let easy_to_borrow = crate::codec::req_bool(fields, "easy_to_borrow")?;
    let fractionable = crate::codec::req_bool(fields, "fractionable")?;
    Ok(
        Asset {
            id,
            class,
            exchange,
            symbol,
            status,
            tradable,
            marginable,
            shortable,
            easy_to_borrow,
            fractionable,
        },
    )
}

/// Decodes a list of assets.
#[verifier::loop_isolation(false)]
pub fn decode_assets(v: &JsonValue) -> (r: Result<Vec<Asset>, DecodeError>)
    ensures
        r is Ok <==> (v matches JsonValue::Arr(items) && (forall|i: int|
            0 <= i < items@.len() ==> ((#[trigger] items@[i]) matches JsonValue::Obj(fields)
                && spec_asset_ok(fields@)))),
        r matches Ok(os) ==> (v matches JsonValue::Arr(items) && os@.len() == items@.len() && (
        forall|i: int|
            0 <= i < items@.len() ==> ((#[trigger] items@[i]) matches JsonValue::Obj(fields)
                && spec_asset_matches(fields@, os@[i])))),
{
    let items = match v {
        JsonValue::Arr(items) => items,
        _ => {
            return Err(
                DecodeError { field: String::from_str("assets"), value: crate::json::raw_token(v) },
            );
        },
    };
    let mut out: Vec<Asset> = Vec::new();
    let n = items.len();
    let mut i: usize = 0;
    while i < n
        invariant
            i <= n,
            n == items@.len(),
            out@.len() == i,
            forall|j: int|
                0 <= j < i ==> ((#[trigger] items@[j]) matches JsonValue::Obj(fields)
                    && spec_asset_ok(fields@) && spec_asset_matches(fields@, out@[j])),
        decreases n - i,
    {
        let a = decode_asset(&items[i])?;
        out.push(a);
        i = i + 1;
    }
    Ok(out)
}

/// Lists assets by status and class.
#[derive(Clone, Copy, Debug, PartialEq, Eq, Structural)]
pub struct GetAssets {
    /// Status filter.
    pub status: Status,
    /// Class filter.
    pub asset_class: AssetClass,
}

impl Default for GetAssets {
    /// The default filter lists active United States equities.
    fn default() -> (r: Self)
        ensures
            r == (GetAssets { status: Status::Active, asset_class: AssetClass::UsEquity }),
    {
        GetAssets { status: Status::Active, asset_class: AssetClass::UsEquity }
    }
}

impl GetAssets {
    /// A new request with the default filters.
    pub fn new() -> (r: GetAssets)
        ensures
            r == (GetAssets { status: Status::Active, asset_class: AssetClass::UsEquity }),
    {
        GetAssets { status: Status::Active, asset_class: AssetClass::UsEquity }
    }

    /// Sets the status filter.
    pub fn status(self, status: Status) -> (r: Self)
        ensures
            r == (GetAssets { status, ..self }),
    {
        GetAssets { status, ..self }
    }

    /// Sets the class filter.
    pub fn asset_class(self, asset_class: AssetClass) -> (r: Self)
        ensures
            r == (GetAssets { asset_class, ..self }),
    {
        GetAssets { asset_class, ..self }
    }

    /// The query the filters spell: both are always sent.
    pub open spec fn spec_query(&self) -> Seq<(Seq<char>, Seq<char>)> {
        seq![
            ("status"@, self.status.spec_wire_name()),
            ("asset_class"@, self.asset_class.spec_wire_name()),
        ]
    }

    /// Builds the query parameters.
    pub fn query(&self) -> (r: Vec<(String, String)>)
        ensures
            crate::request::pairs_view(r@) == self.spec_query(),
    {
        let mut q: Vec<(String, String)> = Vec::new();
        crate::request::push_pair(&mut q, "status", String::from_str(self.status.wire_name()));
        crate::request::push_pair(
            &mut q,
            "asset_class",
            String::from_str(self.asset_class.wire_name()),
        );
        proof {
            assert(crate::request::pairs_view(q@) =~= self.spec_query());
        }
        q
    }

    /// The path of the asset-listing endpoint.
    pub fn endpoint(&self) -> (r: String)
        ensures
            r@ == "/v2/assets"@,
    {
        String::from_str("/v2/assets")
    }

    /// The method of the asset-listing endpoint.
    pub fn method(&self) -> (r: Method)
        ensures
            r == Method::Get,
    {
        Method::Get
    }
}

/// Retrieves one asset by symbol or id.
#[derive(Clone, Debug, PartialEq)]
pub struct GetAsset {
    /// Which asset.
    pub identifier: Identifier,
}

impl GetAsset {
    /// A new request for the given identifier.
    pub fn new(identifier: Identifier) -> (r: GetAsset)
        ensures
            r.identifier == identifier,
    {
        GetAsset { identifier }
    }

    /// The path of the asset endpoint: the listing path with the
    /// identifier's text appended.
    pub fn endpoint(&self) -> (r: String)
        ensures
            r@ == "/v2/assets/"@ + crate::symbology::spec_format_identifier(self.identifier@),
    {
        let mut out = String::from_str("/v2/assets/");
        let id = crate::symbology::format_identifier(&self.identifier);
        out.append(id.as_str());
        out
    }

    /// The method of the asset endpoint.
    pub fn method(&self) -> (r: Method)
        ensures
            r == Method::Get,
    {
        Method::Get
    }
}

/// A wire token reads back as the status it was written from.
pub proof fn lemma_status_wire_round_trip(x: Status)
    ensures
        Status::spec_from_wire(x.spec_wire_name()) == Some(x),
{
    reveal_strlit("active");
    assert(("active"@).len() == 6);
    reveal_strlit("inactive");
    assert(("inactive"@).len() == 8);
    match x {
        Status::Active => {
            assert(Status::spec_from_wire("active"@) == Some(Status::Active));
        },
        Status::Inactive => {
            assert(Status::spec_from_wire("inactive"@) == Some(Status::Inactive));
        },
    }
}

} // verus!

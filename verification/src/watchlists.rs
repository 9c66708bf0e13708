//! Watchlists and their endpoints.

use vstd::prelude::*;

use crate::assets::{spec_asset_matches, spec_asset_ok, Asset};
use crate::body::{fields_view, FieldValue, FieldValueView, Scalar, ScalarView, spec_body_text};
use crate::error::DecodeError;
use crate::json::JsonValue;
use crate::request::Method;
use crate::temporal::Timestamp;

verus! {

use vstd::string::StringExecFns;

/// A watchlist: a named, ordered list of assets.
#[derive(Clone, Debug, PartialEq)]
pub struct Watchlist {
    /// Watchlist id.
    pub id: u128,
    /// When the watchlist was created.
    pub created_at: Timestamp,
    /// When the watchlist was last updated.
    pub updated_at: Timestamp,
    /// User-chosen name.
    pub name: String,
    /// Owning account's id.
    pub account_id: u128,
    /// The content, in the order the client registered it; empty when
    /// the payload omits it.
    pub assets: Vec<Asset>,
}

/// Whether a watchlist payload decodes.  The asset list may be absent.
pub open spec fn spec_watchlist_ok(fields: Seq<(String, JsonValue)>) -> bool {
    &&& crate::codec::uuid_field(fields, "id"@) is Some
    &&& crate::codec::timestamp_field(fields, "created_at"@) is Some
    &&& crate::codec::timestamp_field(fields, "updated_at"@) is Some
    &&& crate::codec::str_field(fields, "name"@) is Some
    &&& crate::codec::uuid_field(fields, "account_id"@) is Some
    &&& (match crate::json::spec_get(fields, "assets"@) {
        None => true,
        Some(JsonValue::Null) => true,
        Some(JsonValue::Arr(items)) => forall|i: int|
            0 <= i < items@.len() ==> ((#[trigger] items@[i]) matches JsonValue::Obj(f)
                && spec_asset_ok(f@)),
        _ => false,
    })
}

/// What each decoded watchlist field holds.
pub open spec fn spec_watchlist_matches(fields: Seq<(String, JsonValue)>, w: Watchlist) -> bool {
    &&& crate::codec::uuid_field(fields, "id"@) == Some(w.id)
    &&& crate::codec::timestamp_field(fields, "created_at"@) == Some(w.created_at)
    &&& crate::codec::timestamp_field(fields, "updated_at"@) == Some(w.updated_at)
    &&& crate::codec::str_field(fields, "name"@) == Some(w.name@)
    &&& crate::codec::uuid_field(fields, "account_id"@) == Some(w.account_id)
    &&& (match crate::json::spec_get(fields, "assets"@) {
        None => w.assets@.len() == 0,
        Some(JsonValue::Null) => w.assets@.len() == 0,
        Some(JsonValue::Arr(items)) => w.assets@.len() == items@.len() && (forall|i: int|
            0 <= i < items@.len() ==> ((#[trigger] items@[i]) matches JsonValue::Obj(f)
                && spec_asset_matches(f@, w.assets@[i]))),
        _ => false,
    })
}

/// Decodes a watchlist payload.
#[verifier::loop_isolation(false)]
pub fn decode_watchlist(v: &JsonValue) -> (r: Result<Watchlist, DecodeError>)
    ensures
        r is Ok <==> (v matches JsonValue::Obj(fields) && spec_watchlist_ok(fields@)),
        r matches Ok(w) ==> (v matches JsonValue::Obj(fields) && spec_watchlist_matches(
            fields@,
            w,
        )),
{
    let fields = match v {
        JsonValue::Obj(fields) => fields,
        _ => {
            return Err(
                DecodeError {
                    field: String::from_str("watchlist"),
                    value: crate::json::raw_token(v),
                },
            );
        },
    };
    let id = crate::codec::req_uuid(fields, "id")?;
    let created_at = crate::codec::req_timestamp(fields, "created_at")?;
    let updated_at = crate::codec::req_timestamp(fields, "updated_at")?;
    let name = crate::codec::req_str(fields, "name")?;
    let account_id = crate::codec::req_uuid(fields, "account_id")?;
    let assets = match crate::json::obj_get(fields, "assets") {
        None => Vec::new(),
        Some(JsonValue::Null) => Vec::new(),
        Some(JsonValue::Arr(items)) => {
            let mut out: Vec<Asset> = Vec::new();
            let n = items.len();
            let mut i: usize = 0;
            while i < n
                invariant
                    i <= n,
                    n == items@.len(),
                    out@.len() == i,
                    forall|j: int|
                        0 <= j < i ==> ((#[trigger] items@[j]) matches JsonValue::Obj(f)
                            && spec_asset_ok(f@) && spec_asset_matches(f@, out@[j])),
                decreases n - i,
            {
                let a = crate::assets::decode_asset(&items[i])?;
                out.push(a);
                i = i + 1;
            }
            out
        },
        Some(other) => {
            return Err(
                DecodeError {
                    field: String::from_str("assets"),
                    value: crate::json::raw_token(other),
                },
            );
        },
    };
    Ok(Watchlist { id, created_at, updated_at, name, account_id, assets })
}

/// Decodes a list of watchlists.
#[verifier::loop_isolation(false)]
pub fn decode_watchlists(v: &JsonValue) -> (r: Result<Vec<Watchlist>, DecodeError>)
    ensures
        r is Ok <==> (v matches JsonValue::Arr(items) && (forall|i: int|
            0 <= i < items@.len() ==> ((#[trigger] items@[i]) matches JsonValue::Obj(fields)
                && spec_watchlist_ok(fields@)))),
        r matches Ok(os) ==> (v matches JsonValue::Arr(items) && os@.len() == items@.len() && (
        forall|i: int|
            0 <= i < items@.len() ==> ((#[trigger] items@[i]) matches JsonValue::Obj(fields)
                && spec_watchlist_matches(fields@, os@[i])))),
{
    let items = match v {
        JsonValue::Arr(items) => items,
        _ => {
            return Err(
                DecodeError {
                    field: String::from_str("watchlists"),
                    value: crate::json::raw_token(v),
                },
            );
        },
    };
    let mut out: Vec<Watchlist> = Vec::new();
    let n = items.len();
    let mut i: usize = 0;
    while i < n
        invariant
            i <= n,
            n == items@.len(),
            out@.len() == i,
            forall|j: int|
                0 <= j < i ==> ((#[trigger] items@[j]) matches JsonValue::Obj(fields)
                    && spec_watchlist_ok(fields@) && spec_watchlist_matches(fields@, out@[j])),
        decreases n - i,
    {
        let w = decode_watchlist(&items[i])?;
        out.push(w);
        i = i + 1;
    }
    Ok(out)
}

/// Lists the account's watchlists.
#[derive(Clone, Copy, Debug, PartialEq, Eq, Structural)]
pub struct GetWatchlists;

impl GetWatchlists {
    /// The path of the watchlist-listing endpoint.
    pub fn endpoint(&self) -> (r: String)
        ensures
            r@ == "/v2/watchlists"@,
    {
        String::from_str("/v2/watchlists")
    }

    /// The method of the watchlist-listing endpoint.
    pub fn method(&self) -> (r: Method)
        ensures
            r == Method::Get,
    {
        Method::Get
    }
}

/// Retrieves one watchlist by id.
#[derive(Clone, Copy, Debug, PartialEq, Eq, Structural)]
pub struct GetWatchlist {
    /// Watchlist id.
    pub id: u128,
}

impl GetWatchlist {
    /// A new request for the given id.
    pub fn new(id: u128) -> (r: GetWatchlist)
        ensures
            r.id == id,
    {
        GetWatchlist { id }
    }

    /// The path of the watchlist endpoint.
    pub fn endpoint(&self) -> (r: String)
        ensures
            r@ == "/v2/watchlists/"@ + crate::symbology::uuid_text(self.id),
    {
        let mut out = String::from_str("/v2/watchlists/");
        let id = crate::symbology::uuid_format(self.id);
        out.append(id.as_str());
        out
    }

    /// The method of the watchlist endpoint.
    pub fn method(&self) -> (r: Method)
        ensures
            r == Method::Get,
    {
        Method::Get
    }
}

/// Creates a watchlist with an initial set of symbols.
#[derive(Clone, Debug, PartialEq)]
pub struct CreateWatchlist {
    /// Name of the new watchlist.
    pub name: String,
    /// Initial symbols, in order.
    pub symbols: Vec<String>,
}

impl CreateWatchlist {
    /// A new request with the given name and symbols.
    pub fn new(name: &str, symbols: Vec<String>) -> (r: CreateWatchlist)
        ensures
            r.name@ == name@,
            r.symbols == symbols,
    {
        CreateWatchlist { name: String::from_str(name), symbols }
    }

    /// The fields of the request body: the name, then the symbol array.
    pub open spec fn spec_fields(&self) -> Seq<(Seq<char>, FieldValueView)> {
        seq![
            ("name"@, FieldValueView::Scalar(ScalarView::Str(self.name@))),
            ("symbols"@, FieldValueView::StrArr(self.symbols@.map_values(|s: String| s@))),
        ]
    }

    /// Encodes the request body.
    pub fn encode(&self) -> (r: String)
        ensures
            exists|fs: Seq<(String, FieldValue)>|
                fields_view(fs) == self.spec_fields() && r@ == spec_body_text(fs),
    {
        let mut fs: Vec<(String, FieldValue)> = Vec::new();
        crate::body::push_field(&mut fs, "name", FieldValue::Scalar(Scalar::Str(self.name.clone())));
        crate::body::push_field(&mut fs, "symbols", FieldValue::StrArr(self.symbols.clone()));
        proof {
            assert(fields_view(fs@) =~= self.spec_fields());
        }
        crate::body::render_body(&fs)
    }

    /// The path of the creation endpoint.
    pub fn endpoint(&self) -> (r: String)
        ensures
            r@ == "/v2/watchlists"@,
    {
        String::from_str("/v2/watchlists")
    }

    /// The method of the creation endpoint.
    pub fn method(&self) -> (r: Method)
        ensures
            r == Method::Post,
    {
        Method::Post
    }
}

/// Updates a watchlist's name and/or content.
#[derive(Clone, Debug, PartialEq)]
pub struct UpdateWatchlist {
    /// Watchlist id.
    pub id: u128,
    /// New name, when given.
    pub name: Option<String>,
    /// New symbols, when given.
    pub symbols: Option<Vec<String>>,
}

impl UpdateWatchlist {
    /// A new request that changes nothing.
    pub fn new(id: u128) -> (r: UpdateWatchlist)
        ensures
            r.id == id,
            r.name is None,
            r.symbols is None,
    {
        UpdateWatchlist { id, name: None, symbols: None }
    }

    /// Sets the new name.
    pub fn name(self, name: &str) -> (r: Self)
        ensures
            r.name matches Some(n) && n@ == name@,
            r == (UpdateWatchlist { name: r.name, ..self }),
    {
        UpdateWatchlist { name: Some(String::from_str(name)), ..self }
    }

    /// Sets the new symbols.
    pub fn symbols(self, symbols: Vec<String>) -> (r: Self)
        ensures
            r == (UpdateWatchlist { symbols: Some(r.symbols.unwrap()), ..self }),
            r.symbols matches Some(ss) && ss == symbols,
    {
        UpdateWatchlist { symbols: Some(symbols), ..self }
    }

    /// The fields of the request body, unset parts omitted.
    pub open spec fn spec_fields(&self) -> Seq<(Seq<char>, FieldValueView)> {
        (match self.name {
            Some(n) => seq![("name"@, FieldValueView::Scalar(ScalarView::Str(n@)))],
            None => Seq::<(Seq<char>, FieldValueView)>::empty(),
        }) + (match self.symbols {
            Some(ss) => seq![("symbols"@, FieldValueView::StrArr(ss@.map_values(|s: String| s@)))],
            None => Seq::<(Seq<char>, FieldValueView)>::empty(),
        })
    }

    /// Encodes the request body.
    pub fn encode(&self) -> (r: String)
        ensures
            exists|fs: Seq<(String, FieldValue)>|
                fields_view(fs) == self.spec_fields() && r@ == spec_body_text(fs),
    {
        let mut fs: Vec<(String, FieldValue)> = Vec::new();
        match &self.name {
            Some(n) => crate::body::push_field(
                &mut fs,
                "name",
                FieldValue::Scalar(Scalar::Str(n.clone())),
            ),
            None => {},
        }
        match &self.symbols {
            Some(ss) => crate::body::push_field(&mut fs, "symbols", FieldValue::StrArr(ss.clone())),
            None => {},
        }
        proof {
            assert(fields_view(fs@) =~= self.spec_fields());
        }
        crate::body::render_body(&fs)
    }

    /// The path of the update endpoint.
    pub fn endpoint(&self) -> (r: String)
        ensures
            r@ == "/v2/watchlists/"@ + crate::symbology::uuid_text(self.id),
    {
        let mut out = String::from_str("/v2/watchlists/");
        let id = crate::symbology::uuid_format(self.id);
        out.append(id.as_str());
        out
    }

    /// The method of the update endpoint.
    pub fn method(&self) -> (r: Method)
        ensures
            r == Method::Put,
    {
        Method::Put
    }
}

/// Appends one symbol to a watchlist.
#[derive(Clone, Debug, PartialEq)]
pub struct AddAssetToWatchlist {
    /// Watchlist id.
    pub id: u128,
    /// Symbol to append.
    pub symbol: String,
}

impl AddAssetToWatchlist {
    /// A new request for the given id and symbol.
    pub fn new(id: u128, symbol: &str) -> (r: AddAssetToWatchlist)
        ensures
            r.id == id,
            r.symbol@ == symbol@,
    {
        AddAssetToWatchlist { id, symbol: String::from_str(symbol) }
    }

    /// The fields of the request body: the symbol alone.
    pub open spec fn spec_fields(&self) -> Seq<(Seq<char>, FieldValueView)> {
        seq![("symbol"@, FieldValueView::Scalar(ScalarView::Str(self.symbol@)))]
    }

    /// Encodes the request body.
    pub fn encode(&self) -> (r: String)
        ensures
            exists|fs: Seq<(String, FieldValue)>|
                fields_view(fs) == self.spec_fields() && r@ == spec_body_text(fs),
    {
        let mut fs: Vec<(String, FieldValue)> = Vec::new();
        crate::body::push_field(
            &mut fs,
            "symbol",
            FieldValue::Scalar(Scalar::Str(self.symbol.clone())),
        );
        proof {
            assert(fields_view(fs@) =~= self.spec_fields());
        }
        crate::body::render_body(&fs)
    }

    /// The path of the append endpoint.
    pub fn endpoint(&self) -> (r: String)
        ensures
            r@ == "/v2/watchlists/"@ + crate::symbology::uuid_text(self.id),
    {
        let mut out = String::from_str("/v2/watchlists/");
        let id = crate::symbology::uuid_format(self.id);
        out.append(id.as_str());
        out
    }

    /// The method of the append endpoint.
    pub fn method(&self) -> (r: Method)
        ensures
            r == Method::Post,
    {
        Method::Post
    }
}

/// Deletes a watchlist, permanently.
#[derive(Clone, Copy, Debug, PartialEq, Eq, Structural)]
pub struct DeleteWatchlist {
    /// Watchlist id.
    pub id: u128,
}

impl DeleteWatchlist {
    /// A new request for the given id.
    pub fn new(id: u128) -> (r: DeleteWatchlist)
        ensures
            r.id == id,
    {
        DeleteWatchlist { id }
    }

    /// The path of the deletion endpoint.
    pub fn endpoint(&self) -> (r: String)
        ensures
            r@ == "/v2/watchlists/"@ + crate::symbology::uuid_text(self.id),
    {
        let mut out = String::from_str("/v2/watchlists/");
        let id = crate::symbology::uuid_format(self.id);
        out.append(id.as_str());
        out
    }

    /// The method of the deletion endpoint.  Its success answer is
    /// empty.
    pub fn method(&self) -> (r: Method)
        ensures
            r == Method::Delete,
    {
        Method::Delete
    }
}

/// Removes one symbol's entry from a watchlist.
#[derive(Clone, Debug, PartialEq)]
pub struct RemoveAssetFromWatchlist {
    /// Watchlist id.
    pub id: u128,
    /// Symbol to remove.
    pub symbol: String,
}

impl RemoveAssetFromWatchlist {
    /// A new request for the given id and symbol.
    pub fn new(id: u128, symbol: &str) -> (r: RemoveAssetFromWatchlist)
        ensures
            r.id == id,
            r.symbol@ == symbol@,
    {
        RemoveAssetFromWatchlist { id, symbol: String::from_str(symbol) }
    }

    /// The path of the removal endpoint: the watchlist's path with the
    /// symbol appended.
    pub fn endpoint(&self) -> (r: String)
        ensures
            r@ == "/v2/watchlists/"@ + crate::symbology::uuid_text(self.id) + seq!['/']
                + self.symbol@,
    {
        let mut out = String::from_str("/v2/watchlists/");
        let id = crate::symbology::uuid_format(self.id);
        out.append(id.as_str());
        out.push('/');
        out.append(self.symbol.as_str());
        proof {
            assert(out@ =~= "/v2/watchlists/"@ + crate::symbology::uuid_text(self.id) + seq!['/']
                + self.symbol@);
        }
        out
    }

    /// The method of the removal endpoint.  Its success answer is empty.
    pub fn method(&self) -> (r: Method)
        ensures
            r == Method::Delete,
    {
        Method::Delete
    }
}

} // verus!

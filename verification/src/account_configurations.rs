//! Account configuration: reading it and patching it.

use vstd::prelude::*;

use crate::body::{fields_view, FieldValue, FieldValueView, Scalar, ScalarView, spec_body_text};
use crate::error::DecodeError;
use crate::json::JsonValue;
use crate::request::Method;

verus! {

use vstd::string::StringExecFns;

/// When day-trading margin checks run.
#[derive(Clone, Copy, Debug, PartialEq, Eq, Structural)]
pub enum DtbpCheck {
    /// On entry and exit.
    Both,
    /// On entry only.
    Entry,
    /// On exit only.
    Exit,
}

impl Default for DtbpCheck {
    /// The default check runs on entry.
    fn default() -> (r: Self)
        ensures
            r == DtbpCheck::Entry,
    {
        DtbpCheck::Entry
    }
}

impl DtbpCheck {
    /// The wire token of the setting.
    pub open spec fn spec_wire_name(&self) -> Seq<char> {
        match self {
            DtbpCheck::Both => "both"@,
            DtbpCheck::Entry => "entry"@,
            DtbpCheck::Exit => "exit"@,
        }
    }

    /// The wire token of the setting.
    pub fn wire_name(&self) -> (r: &'static str)
        ensures
            r@ == self.spec_wire_name(),
    {
        match self {
            DtbpCheck::Both => "both",
            DtbpCheck::Entry => "entry",
            DtbpCheck::Exit => "exit",
        }
    }

    /// What a wire token means.
    pub open spec fn spec_from_wire(s: Seq<char>) -> Option<DtbpCheck> {
        if s == "both"@ {
            Some(DtbpCheck::Both)
        } else if s == "entry"@ {
            Some(DtbpCheck::Entry)
        } else if s == "exit"@ {
            Some(DtbpCheck::Exit)
        } else {
            None
        }
    }

    /// Reads a wire token.
    pub fn from_wire(s: &str) -> (r: Option<DtbpCheck>)
        ensures
            r == Self::spec_from_wire(s@),
    {
        if crate::strutil::str_eq(s, "both") {
            Some(DtbpCheck::Both)
        } else if crate::strutil::str_eq(s, "entry") {
            Some(DtbpCheck::Entry)
        } else if crate::strutil::str_eq(s, "exit") {
            Some(DtbpCheck::Exit)
        } else {
            None
        }
    }
}

/// Whether order fills are confirmed by mail.
#[derive(Clone, Copy, Debug, PartialEq, Eq, Structural)]
pub enum TradeConfirmEmail {
    /// Mail for every trade.
    All,
    /// No mail.
    Zero,
}

impl Default for TradeConfirmEmail {
    /// The default is mail for every trade.
    fn default() -> (r: Self)
        ensures
            r == TradeConfirmEmail::All,
    {
        TradeConfirmEmail::All
    }
}

impl TradeConfirmEmail {
    /// The wire token of the setting; no mail travels as `none`.
    pub open spec fn spec_wire_name(&self) -> Seq<char> {
        match self {
            TradeConfirmEmail::All => "all"@,
            TradeConfirmEmail::Zero => "none"@,
        }
    }

    /// The wire token of the setting.
    pub fn wire_name(&self) -> (r: &'static str)
        ensures
            r@ == self.spec_wire_name(),
    {
        match self {
            TradeConfirmEmail::All => "all",
            TradeConfirmEmail::Zero => "none",
        }
    }

    /// What a wire token means.
    pub open spec fn spec_from_wire(s: Seq<char>) -> Option<TradeConfirmEmail> {
        if s == "all"@ {
            Some(TradeConfirmEmail::All)
        } else if s == "none"@ {
            Some(TradeConfirmEmail::Zero)
        } else {
            None
        }
    }

    /// Reads a wire token.
    pub fn from_wire(s: &str) -> (r: Option<TradeConfirmEmail>)
        ensures
            r == Self::spec_from_wire(s@),
    {
        if crate::strutil::str_eq(s, "all") {
            Some(TradeConfirmEmail::All)
        } else if crate::strutil::str_eq(s, "none") {
            Some(TradeConfirmEmail::Zero)
        } else {
            None
        }
    }
}

/// The account's configuration values.
#[derive(Clone, Copy, Debug, PartialEq, Eq, Structural)]
pub struct AccountConfigurations {
    /// When day-trading margin checks run.
    pub dtbp_check: DtbpCheck,
    /// Whether order fills are confirmed by mail.
    pub trade_confirm_email: TradeConfirmEmail,
    /// Whether new orders are blocked.
    pub suspend_trade: bool,
    /// Whether the account is long-only.
    pub no_shorting: bool,
}

impl Default for AccountConfigurations {
    /// The defaults of every setting.
    fn default() -> (r: Self)
        ensures
            r == (AccountConfigurations {
                dtbp_check: DtbpCheck::Entry,
                trade_confirm_email: TradeConfirmEmail::All,
                suspend_trade: false,
                no_shorting: false,
            }),
    {
        AccountConfigurations {
            dtbp_check: DtbpCheck::Entry,
            trade_confirm_email: TradeConfirmEmail::All,
            suspend_trade: false,
            no_shorting: false,
        }
    }
}

/// Whether a configuration payload decodes.
pub open spec fn spec_configurations_ok(fields: Seq<(String, JsonValue)>) -> bool {
    &&& (match crate::codec::str_field(fields, "dtbp_check"@) {
        Some(s) => DtbpCheck::spec_from_wire(s) is Some,
        None => false,
    })
    &&& (match crate::codec::str_field(fields, "trade_confirm_email"@) {
        Some(s) => TradeConfirmEmail::spec_from_wire(s) is Some,
        None => false,
    })
    &&& crate::codec::bool_field(fields, "suspend_trade"@) is Some
    &&& crate::codec::bool_field(fields, "no_shorting"@) is Some
}

/// What each decoded configuration field holds.
pub open spec fn spec_configurations_matches(
    fields: Seq<(String, JsonValue)>,
    c: AccountConfigurations,
) -> bool {
    &&& (match crate::codec::str_field(fields, "dtbp_check"@) {
        Some(s) => DtbpCheck::spec_from_wire(s) == Some(c.dtbp_check),
        None => false,
    })
    &&& (match crate::codec::str_field(fields, "trade_confirm_email"@) {
        Some(s) => TradeConfirmEmail::spec_from_wire(s) == Some(c.trade_confirm_email),
        None => false,
    })
    &&& crate::codec::bool_field(fields, "suspend_trade"@) == Some(c.suspend_trade)
    &&& crate::codec::bool_field(fields, "no_shorting"@) == Some(c.no_shorting)
}

/// Decodes a configuration payload.
pub fn decode_account_configurations(v: &JsonValue) -> (r: Result<
    AccountConfigurations,
    DecodeError,
>)
    ensures
        r is Ok <==> (v matches JsonValue::Obj(fields) && spec_configurations_ok(fields@)),
        r matches Ok(c) ==> (v matches JsonValue::Obj(fields) && spec_configurations_matches(
            fields@,
            c,
        )),
{
    let fields = match v {
        JsonValue::Obj(fields) => fields,
        _ => {
            return Err(
                DecodeError {
                    field: String::from_str("configurations"),
                    value: crate::json::raw_token(v),
                },
            );
        },
    };
    let dtbp_token = crate::codec::req_str(fields, "dtbp_check")?;
    let dtbp_check = match DtbpCheck::from_wire(dtbp_token.as_str()) {
        Some(c) => c,
        None => {
            return Err(DecodeError { field: String::from_str("dtbp_check"), value: dtbp_token });
        },
    };
    let mail_token = crate::codec::req_str(fields, "trade_confirm_email")?;
    let trade_confirm_email = match TradeConfirmEmail::from_wire(mail_token.as_str()) {
        Some(c) => c,
        None => {
            return Err(
                DecodeError { field: String::from_str("trade_confirm_email"), value: mail_token },
            );
        },
    };
    let suspend_trade = crate::codec::req_bool(fields, "suspend_trade")?;
    let no_shorting = crate::codec::req_bool(fields, "no_shorting")?;
    Ok(AccountConfigurations { dtbp_check, trade_confirm_email, suspend_trade, no_shorting })
}

/// Returns the current configuration values.
#[derive(Clone, Copy, Debug, PartialEq, Eq, Structural)]
pub struct GetAccountConfigurations;

impl GetAccountConfigurations {
    /// The path of the configuration endpoint.
    pub fn endpoint(&self) -> (r: String)
        ensures
            r@ == "/v2/account/configurations"@,
    {
        String::from_str("/v2/account/configurations")
    }

    /// The method of the read endpoint.
    pub fn method(&self) -> (r: Method)
        ensures
            r == Method::Get,
    {
        Method::Get
    }
}

/// Updates configuration values; an unset field is omitted and left
/// unchanged by the server.
#[derive(Clone, Copy, Debug, PartialEq, Eq, Structural)]
pub struct PatchAccountConfigurations {
    /// New day-trading margin check setting.
    pub dtbp_check: Option<DtbpCheck>,
    /// New mail confirmation setting.
    pub trade_confirm_email: Option<TradeConfirmEmail>,
    /// New order-blocking setting.
    pub suspend_trade: Option<bool>,
    /// New long-only setting.
    pub no_shorting: Option<bool>,
}

impl PatchAccountConfigurations {
    /// A new request that changes nothing.
    pub fn new() -> (r: PatchAccountConfigurations)
        ensures
            r.dtbp_check is None,
            r.trade_confirm_email is None,
            r.suspend_trade is None,
            r.no_shorting is None,
    {
        PatchAccountConfigurations {
            dtbp_check: None,
            trade_confirm_email: None,
            suspend_trade: None,
            no_shorting: None,
        }
    }

    /// Sets when day-trading margin checks run.
    pub fn dtbp_check(self, dtbp_check: DtbpCheck) -> (r: Self)
        ensures
            r == (PatchAccountConfigurations { dtbp_check: Some(dtbp_check), ..self }),
    {
        PatchAccountConfigurations { dtbp_check: Some(dtbp_check), ..self }
    }

    /// Sets whether order fills are confirmed by mail.
    pub fn trade_confirm_email(self, trade_confirm_email: TradeConfirmEmail) -> (r: Self)
        ensures
            r == (PatchAccountConfigurations {
                trade_confirm_email: Some(trade_confirm_email),
                ..self
            }),
    {
        PatchAccountConfigurations { trade_confirm_email: Some(trade_confirm_email), ..self }
    }

    /// Sets whether new orders are blocked.
    pub fn suspend_trade(self, suspend_trade: bool) -> (r: Self)
        ensures
            r == (PatchAccountConfigurations { suspend_trade: Some(suspend_trade), ..self }),
    {
        PatchAccountConfigurations { suspend_trade: Some(suspend_trade), ..self }
    }

    /// Sets whether the account is long-only.
    pub fn no_shorting(self, no_shorting: bool) -> (r: Self)
        ensures
            r == (PatchAccountConfigurations { no_shorting: Some(no_shorting), ..self }),
    {
        PatchAccountConfigurations { no_shorting: Some(no_shorting), ..self }
    }

    /// The fields of the request body, in wire order, unset settings
    /// omitted.
    pub open spec fn spec_fields(&self) -> Seq<(Seq<char>, FieldValueView)> {
        (match self.dtbp_check {
            Some(c) => seq![
                ("dtbp_check"@, FieldValueView::Scalar(ScalarView::Str(c.spec_wire_name()))),
            ],
            None => Seq::<(Seq<char>, FieldValueView)>::empty(),
        }) + (match self.trade_confirm_email {
            Some(c) => seq![
                (
                    "trade_confirm_email"@,
                    FieldValueView::Scalar(ScalarView::Str(c.spec_wire_name())),
                ),
            ],
            None => Seq::<(Seq<char>, FieldValueView)>::empty(),
        }) + (match self.suspend_trade {
            Some(b) => seq![
                ("suspend_trade"@, FieldValueView::Scalar(ScalarView::Bool(b))),
            ],
            None => Seq::<(Seq<char>, FieldValueView)>::empty(),
        }) + (match self.no_shorting {
            Some(b) => seq![
                ("no_shorting"@, FieldValueView::Scalar(ScalarView::Bool(b))),
            ],
            None => Seq::<(Seq<char>, FieldValueView)>::empty(),
        })
    }

    /// Encodes the request body.
    pub fn encode(&self) -> (r: String)
        ensures
            exists|fs: Seq<(String, FieldValue)>|
                fields_view(fs) == self.spec_fields() && r@ == spec_body_text(fs),
    {
        let mut fs: Vec<(String, FieldValue)> = Vec::new();
        match &self.dtbp_check {
            Some(c) => crate::body::push_field(
                &mut fs,
                "dtbp_check",
                FieldValue::Scalar(Scalar::Str(String::from_str(c.wire_name()))),
            ),
            None => {},
        }
        match &self.trade_confirm_email {
            Some(c) => crate::body::push_field(
                &mut fs,
                "trade_confirm_email",
                FieldValue::Scalar(Scalar::Str(String::from_str(c.wire_name()))),
            ),
            None => {},
        }
        match self.suspend_trade {
            Some(b) => crate::body::push_field(
                &mut fs,
                "suspend_trade",
                FieldValue::Scalar(Scalar::Bool(b)),
            ),
            None => {},
        }
        match self.no_shorting {
            Some(b) => crate::body::push_field(
                &mut fs,
                "no_shorting",
                FieldValue::Scalar(Scalar::Bool(b)),
            ),
            None => {},
        }
        proof {
            assert(fields_view(fs@) =~= self.spec_fields());
        }
        crate::body::render_body(&fs)
    }

    /// The path of the configuration endpoint.
    pub fn endpoint(&self) -> (r: String)
        ensures
            r@ == "/v2/account/configurations"@,
    {
        String::from_str("/v2/account/configurations")
    }

    /// The method of the update endpoint.
    pub fn method(&self) -> (r: Method)
        ensures
            r == Method::Patch,
    {
        Method::Patch
    }
}

/// A wire token reads back as the setting it was written from.
pub proof fn lemma_dtbp_check_wire_round_trip(x: DtbpCheck)
    ensures
        DtbpCheck::spec_from_wire(x.spec_wire_name()) == Some(x),
{
    reveal_strlit("both");
    assert(("both"@).len() == 4);
    reveal_strlit("entry");
    assert(("entry"@).len() == 5);
    reveal_strlit("exit");
    assert(("exit"@).len() == 4);
    match x {
        DtbpCheck::Both => {
            assert(DtbpCheck::spec_from_wire("both"@) == Some(DtbpCheck::Both));
        },
        DtbpCheck::Entry => {
            assert(DtbpCheck::spec_from_wire("entry"@) == Some(DtbpCheck::Entry));
        },
        DtbpCheck::Exit => {
            assert(("exit"@)[0] != ("both"@)[0]);
            assert(DtbpCheck::spec_from_wire("exit"@) == Some(DtbpCheck::Exit));
        },
    }
}

/// A wire token reads back as the setting it was written from.
pub proof fn lemma_trade_confirm_email_wire_round_trip(x: TradeConfirmEmail)
    ensures
        TradeConfirmEmail::spec_from_wire(x.spec_wire_name()) == Some(x),
{
    reveal_strlit("all");
    assert(("all"@).len() == 3);
    reveal_strlit("none");
    assert(("none"@).len() == 4);
    match x {
        TradeConfirmEmail::All => {
            assert(TradeConfirmEmail::spec_from_wire("all"@) == Some(TradeConfirmEmail::All));
        },
        TradeConfirmEmail::Zero => {
            assert(TradeConfirmEmail::spec_from_wire("none"@) == Some(TradeConfirmEmail::Zero));
        },
    }
}

} // verus!

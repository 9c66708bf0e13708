//! The account profile and its endpoint.

use vstd::prelude::*;

use crate::decimal::Decimal;
use crate::error::DecodeError;
use crate::json::JsonValue;
use crate::request::Method;
use crate::temporal::Timestamp;

verus! {

use vstd::string::StringExecFns;

/// Lifecycle state of the account.  Status codes travel in upper snake
/// case, unlike the lower-case enums of the order protocol.
#[derive(Clone, Copy, Debug, PartialEq, Eq, Structural)]
pub enum AccountStatus {
    /// The account is onboarding.
    Onboarding,
    /// The application submission failed.
    SubmissionFailed,
    /// The application has been submitted for review.
    Submitted,
    /// The account information is being updated.
    AccountUpdate,
    /// The final approval is pending.
    ApprovalPending,
    /// The account is active for trading.
    Active,
    /// The application was rejected.
    Rejected,
}

impl AccountStatus {
    /// The wire code of the status, in upper snake case.
    pub open spec fn spec_wire_name(&self) -> Seq<char> {
        match self {
            AccountStatus::Onboarding => "ONBOARDING"@,
            AccountStatus::SubmissionFailed => "SUBMISSION_FAILED"@,
            AccountStatus::Submitted => "SUBMITTED"@,
            AccountStatus::AccountUpdate => "ACCOUNT_UPDATE"@,
            AccountStatus::ApprovalPending => "APPROVAL_PENDING"@,
            AccountStatus::Active => "ACTIVE"@,
            AccountStatus::Rejected => "REJECTED"@,
        }
    }

    /// What a wire code means.
    pub open spec fn spec_from_wire(s: Seq<char>) -> Option<AccountStatus> {
        if s == "ONBOARDING"@ {
            Some(AccountStatus::Onboarding)
        } else if s == "SUBMISSION_FAILED"@ {
            Some(AccountStatus::SubmissionFailed)
        } else if s == "SUBMITTED"@ {
            Some(AccountStatus::Submitted)
        } else if s == "ACCOUNT_UPDATE"@ {
            Some(AccountStatus::AccountUpdate)
        } else if s == "APPROVAL_PENDING"@ {
            Some(AccountStatus::ApprovalPending)
        } else if s == "ACTIVE"@ {
            Some(AccountStatus::Active)
        } else if s == "REJECTED"@ {
            Some(AccountStatus::Rejected)
        } else {
            None
        }
    }

    /// Reads a wire code.
    pub fn from_wire(s: &str) -> (r: Option<AccountStatus>)
        ensures
            r == Self::spec_from_wire(s@),
    {
        if crate::strutil::str_eq(s, "ONBOARDING") {
            Some(AccountStatus::Onboarding)
        } else if crate::strutil::str_eq(s, "SUBMISSION_FAILED") {
            Some(AccountStatus::SubmissionFailed)
        } else if crate::strutil::str_eq(s, "SUBMITTED") {
            Some(AccountStatus::Submitted)
        } else if crate::strutil::str_eq(s, "ACCOUNT_UPDATE") {
            Some(AccountStatus::AccountUpdate)
        } else if crate::strutil::str_eq(s, "APPROVAL_PENDING") {
            Some(AccountStatus::ApprovalPending)
        } else if crate::strutil::str_eq(s, "ACTIVE") {
            Some(AccountStatus::Active)
        } else if crate::strutil::str_eq(s, "REJECTED") {
            Some(AccountStatus::Rejected)
        } else {
            None
        }
    }
}

/// The account profile.
#[derive(Clone, Debug, PartialEq)]
pub struct Account {
    /// Account id.
    pub id: u128,
    /// Account number.
    pub account_number: String,
    /// Lifecycle state.
    pub status: AccountStatus,
    /// Currency of the balances.
    pub currency: String,
    /// Cash balance.
    pub cash: Decimal,
    /// Whether the account is flagged as a pattern day trader.
    pub pattern_day_trader: bool,
    /// Whether the user suspended trading.
    pub trade_suspended_by_user: bool,
    /// Whether the account may place orders.
    pub trading_blocked: bool,
    /// Whether the account may request transfers.
    pub transfers_blocked: bool,
    /// Whether all account activity is prohibited.
    pub account_blocked: bool,
    /// When the account was created.
    pub created_at: Timestamp,
    /// Whether the account may short.
    pub shorting_enabled: bool,
    /// Market value of all long positions.
    pub long_market_value: Decimal,
    /// Market value of all short positions.
    pub short_market_value: Decimal,
    /// Cash plus long and short market value.
    pub equity: Decimal,
    /// Equity as of the previous trading day.
    pub last_equity: Decimal,
    /// Buying-power multiplier.
    pub multiplier: Decimal,
    /// Current buying power.
    pub buying_power: Decimal,
    /// Initial margin requirement.
    pub initial_margin: Decimal,
    /// Maintenance margin requirement.
    pub maintenance_margin: Decimal,
    /// Value of the special memorandum account.
    pub sma: Decimal,
    /// Day trades made in the last five trading days.
    pub daytrade_count: u64,
    /// Maintenance margin requirement of the previous trading day.
    pub last_maintenance_margin: Decimal,
    /// Buying power for day trades.
    pub daytrading_buying_power: Decimal,
    /// Buying power under Regulation T.
    pub regt_buying_power: Decimal,
}

/// Whether an account payload decodes: every field present and
/// well-formed, the balances under the lenient decimal profile and the
/// day-trade count a bare number.
pub open spec fn spec_account_ok(fields: Seq<(String, JsonValue)>) -> bool {
    &&& crate::codec::uuid_field(fields, "id"@) is Some
    &&& crate::codec::str_field(fields, "account_number"@) is Some
    &&& (match crate::codec::str_field(fields, "status"@) {
        Some(s) => AccountStatus::spec_from_wire(s) is Some,
        None => false,
    })
    &&& crate::codec::str_field(fields, "currency"@) is Some
    &&& crate::codec::lenient_decimal_field(fields, "cash"@) is Some
    &&& crate::codec::bool_field(fields, "pattern_day_trader"@) is Some
    &&& crate::codec::bool_field(fields, "trade_suspended_by_user"@) is Some
    &&& crate::codec::bool_field(fields, "trading_blocked"@) is Some
    &&& crate::codec::bool_field(fields, "transfers_blocked"@) is Some
    &&& crate::codec::bool_field(fields, "account_blocked"@) is Some
    &&& crate::codec::timestamp_field(fields, "created_at"@) is Some
    &&& crate::codec::bool_field(fields, "shorting_enabled"@) is Some
    &&& crate::codec::lenient_decimal_field(fields, "long_market_value"@) is Some
    &&& crate::codec::lenient_decimal_field(fields, "short_market_value"@) is Some
    &&& crate::codec::lenient_decimal_field(fields, "equity"@) is Some
    &&& crate::codec::lenient_decimal_field(fields, "last_equity"@) is Some
    &&& crate::codec::lenient_decimal_field(fields, "multiplier"@) is Some
    &&& crate::codec::lenient_decimal_field(fields, "buying_power"@) is Some
    &&& crate::codec::lenient_decimal_field(fields, "initial_margin"@) is Some
    &&& crate::codec::lenient_decimal_field(fields, "maintenance_margin"@) is Some
    &&& crate::codec::lenient_decimal_field(fields, "sma"@) is Some
    &&& crate::codec::num_uint_field(fields, "daytrade_count"@) is Some
    &&& crate::codec::lenient_decimal_field(fields, "last_maintenance_margin"@) is Some
    &&& crate::codec::lenient_decimal_field(fields, "daytrading_buying_power"@) is Some
    &&& crate::codec::lenient_decimal_field(fields, "regt_buying_power"@) is Some
}

/// What each decoded field of an account holds.
pub open spec fn spec_account_matches(fields: Seq<(String, JsonValue)>, a: Account) -> bool {
    &&& crate::codec::uuid_field(fields, "id"@) == Some(a.id)
    &&& crate::codec::str_field(fields, "account_number"@) == Some(a.account_number@)
    &&& (match crate::codec::str_field(fields, "status"@) {
        Some(s) => AccountStatus::spec_from_wire(s) == Some(a.status),
        None => false,
    })
    &&& crate::codec::str_field(fields, "currency"@) == Some(a.currency@)
    &&& crate::codec::lenient_decimal_field(fields, "cash"@) == Some(a.cash)
    &&& crate::codec::bool_field(fields, "pattern_day_trader"@) == Some(a.pattern_day_trader)
    &&& crate::codec::bool_field(fields, "trade_suspended_by_user"@) == Some(
        a.trade_suspended_by_user,
    )
    &&& crate::codec::bool_field(fields, "trading_blocked"@) == Some(a.trading_blocked)
    &&& crate::codec::bool_field(fields, "transfers_blocked"@) == Some(a.transfers_blocked)
    &&& crate::codec::bool_field(fields, "account_blocked"@) == Some(a.account_blocked)
    &&& crate::codec::timestamp_field(fields, "created_at"@) == Some(a.created_at)
    &&& crate::codec::bool_field(fields, "shorting_enabled"@) == Some(a.shorting_enabled)
    &&& crate::codec::lenient_decimal_field(fields, "long_market_value"@) == Some(
        a.long_market_value,
    )
    &&& crate::codec::lenient_decimal_field(fields, "short_market_value"@) == Some(
        a.short_market_value,
    )
    &&& crate::codec::lenient_decimal_field(fields, "equity"@) == Some(a.equity)
    &&& crate::codec::lenient_decimal_field(fields, "last_equity"@) == Some(a.last_equity)
    &&& crate::codec::lenient_decimal_field(fields, "multiplier"@) == Some(a.multiplier)
    &&& crate::codec::lenient_decimal_field(fields, "buying_power"@) == Some(a.buying_power)
    &&& crate::codec::lenient_decimal_field(fields, "initial_margin"@) == Some(a.initial_margin)
    &&& crate::codec::lenient_decimal_field(fields, "maintenance_margin"@) == Some(
        a.maintenance_margin,
    )
    &&& crate::codec::lenient_decimal_field(fields, "sma"@) == Some(a.sma)
    &&& crate::codec::num_uint_field(fields, "daytrade_count"@) == Some(a.daytrade_count)
    &&& crate::codec::lenient_decimal_field(fields, "last_maintenance_margin"@) == Some(
        a.last_maintenance_margin,
    )
    &&& crate::codec::lenient_decimal_field(fields, "daytrading_buying_power"@) == Some(
        a.daytrading_buying_power,
    )
    &&& crate::codec::lenient_decimal_field(fields, "regt_buying_power"@) == Some(
        a.regt_buying_power,
    )
}

/// Decodes an account payload.
pub fn decode_account(v: &JsonValue) -> (r: Result<Account, DecodeError>)
    ensures
        r is Ok <==> (v matches JsonValue::Obj(fields) && spec_account_ok(fields@)),
        r matches Ok(a) ==> (v matches JsonValue::Obj(fields) && spec_account_matches(fields@, a)),
{
    let fields = match v {
        JsonValue::Obj(fields) => fields,
        _ => {
            return Err(
                DecodeError {
                    field: String::from_str("account"),
                    value: crate::json::raw_token(v),
                },
            );
        },
    };
    let id = crate::codec::req_uuid(fields, "id")?;
    let account_number = crate::codec::req_str(fields, "account_number")?;
    let status_token = crate::codec::req_str(fields, "status")?;
    let status = match AccountStatus::from_wire(status_token.as_str()) {
        Some(s) => s,
        None => {
            return Err(DecodeError { field: String::from_str("status"), value: status_token });
        },
    };
    let currency = crate::codec::req_str(fields, "currency")?;
    let cash = crate::codec::req_decimal_lenient(fields, "cash")?;
    let pattern_day_trader = crate::codec::req_bool(fields, "pattern_day_trader")?;
    let trade_suspended_by_user = crate::codec::req_bool(fields, "trade_suspended_by_user")?;
    let trading_blocked = crate::codec::req_bool(fields, "trading_blocked")?;
    let transfers_blocked = crate::codec::req_bool(fields, "transfers_blocked")?;
    let account_blocked = crate::codec::req_bool(fields, "account_blocked")?;
    let created_at = crate::codec::req_timestamp(fields, "created_at")?;
    let shorting_enabled = crate::codec::req_bool(fields, "shorting_enabled")?;
    let long_market_value = crate::codec::req_decimal_lenient(fields, "long_market_value")?;
    let short_market_value = crate::codec::req_decimal_lenient(fields, "short_market_value")?;
    let equity = crate::codec::req_decimal_lenient(fields, "equity")?;
    let last_equity = crate::codec::req_decimal_lenient(fields, "last_equity")?;
    let multiplier = crate::codec::req_decimal_lenient(fields, "multiplier")?;
    let buying_power = crate::codec::req_decimal_lenient(fields, "buying_power")?;
    let initial_margin = crate::codec::req_decimal_lenient(fields, "initial_margin")?;
    let maintenance_margin = crate::codec::req_decimal_lenient(fields, "maintenance_margin")?;
    let sma = crate::codec::req_decimal_lenient(fields, "sma")?;
    let daytrade_count = crate::codec::req_uint_num(fields, "daytrade_count")?;
    let last_maintenance_margin = crate::codec::req_decimal_lenient(
        fields,
        "last_maintenance_margin",
    )?;
    let daytrading_buying_power = crate::codec::req_decimal_lenient(
        fields,
        "daytrading_buying_power",
    )?;
    let regt_buying_power = crate::codec::req_decimal_lenient(fields, "regt_buying_power")?;
    Ok(
        Account {
            id,
            account_number,
            status,
            currency,
            cash,
            pattern_day_trader,
            trade_suspended_by_user,
            trading_blocked,
            transfers_blocked,
            account_blocked,
            created_at,
            shorting_enabled,
            long_market_value,
            short_market_value,
            equity,
            last_equity,
            multiplier,
            buying_power,
            initial_margin,
            maintenance_margin,
            sma,
            daytrade_count,
            last_maintenance_margin,
            daytrading_buying_power,
            regt_buying_power,
        },
    )
}

/// Returns the account behind the credentials.
#[derive(Clone, Copy, Debug, PartialEq, Eq, Structural)]
pub struct GetAccount;

impl GetAccount {
    /// The path of the account endpoint.
    pub fn endpoint(&self) -> (r: String)
        ensures
            r@ == "/v2/account"@,
    {
        String::from_str("/v2/account")
    }

    /// The method of the account endpoint.
    pub fn method(&self) -> (r: Method)
        ensures
            r == Method::Get,
    {
        Method::Get
    }
}

/// A wire code reads back as the account status it was written from.
pub proof fn lemma_account_status_wire_round_trip(x: AccountStatus)
    ensures
        AccountStatus::spec_from_wire(x.spec_wire_name()) == Some(x),
{
    reveal_strlit("ONBOARDING");
    assert(("ONBOARDING"@).len() == 10);
    reveal_strlit("SUBMISSION_FAILED");
    assert(("SUBMISSION_FAILED"@).len() == 17);
    reveal_strlit("SUBMITTED");
    assert(("SUBMITTED"@).len() == 9);
    reveal_strlit("ACCOUNT_UPDATE");
    assert(("ACCOUNT_UPDATE"@).len() == 14);
    reveal_strlit("APPROVAL_PENDING");
    assert(("APPROVAL_PENDING"@).len() == 16);
    reveal_strlit("ACTIVE");
    assert(("ACTIVE"@).len() == 6);
    reveal_strlit("REJECTED");
    assert(("REJECTED"@).len() == 8);
    match x {
        AccountStatus::Onboarding => {
            assert(AccountStatus::spec_from_wire("ONBOARDING"@) == Some(AccountStatus::Onboarding));
        },
        AccountStatus::SubmissionFailed => {
            assert(AccountStatus::spec_from_wire("SUBMISSION_FAILED"@) == Some(AccountStatus::SubmissionFailed));
        },
        AccountStatus::Submitted => {
            assert(AccountStatus::spec_from_wire("SUBMITTED"@) == Some(AccountStatus::Submitted));
        },
        AccountStatus::AccountUpdate => {
            assert(AccountStatus::spec_from_wire("ACCOUNT_UPDATE"@) == Some(AccountStatus::AccountUpdate));
        },
        AccountStatus::ApprovalPending => {
            assert(AccountStatus::spec_from_wire("APPROVAL_PENDING"@) == Some(AccountStatus::ApprovalPending));
        },
        AccountStatus::Active => {
            assert(AccountStatus::spec_from_wire("ACTIVE"@) == Some(AccountStatus::Active));
        },
        AccountStatus::Rejected => {
            assert(AccountStatus::spec_from_wire("REJECTED"@) == Some(AccountStatus::Rejected));
        },
    }
}

} // verus!

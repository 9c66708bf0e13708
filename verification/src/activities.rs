//! Account activities: the untagged trade/non-trade union, the activity
//! listing requests, and their pagination.
//!
//! An activity payload carries no discriminator.  Decoding tries the
//! trade shape first and the non-trade shape second, accepting the first
//! whose required fields are all present; when neither fits, the decode
//! error names both attempted shapes.

use vstd::prelude::*;

use crate::decimal::Decimal;
use crate::error::DecodeError;
use crate::json::JsonValue;
use crate::request::Method;
use crate::temporal::{Date, Timestamp};

verus! {

use vstd::string::StringExecFns;

/// Whether a trade activity is a partial or a full fill.
#[derive(Clone, Copy, Debug, PartialEq, Eq, Structural)]
pub enum FillType {
    /// Full fill.
    Fill,
    /// Partial fill.
    PartialFill,
}

impl FillType {
    /// The wire token of the fill type.
    pub open spec fn spec_wire_name(&self) -> Seq<char> {
        match self {
            FillType::Fill => "fill"@,
            FillType::PartialFill => "partial_fill"@,
        }
    }

    /// What a wire token means.
    pub open spec fn spec_from_wire(s: Seq<char>) -> Option<FillType> {
        if s == "fill"@ {
            Some(FillType::Fill)
        } else if s == "partial_fill"@ {
            Some(FillType::PartialFill)
        } else {
            None
        }
    }

    /// Reads a wire token.
    pub fn from_wire(s: &str) -> (r: Option<FillType>)
        ensures
            r == Self::spec_from_wire(s@),
    {
        if crate::strutil::str_eq(s, "fill") {
            Some(FillType::Fill)
        } else if crate::strutil::str_eq(s, "partial_fill") {
            Some(FillType::PartialFill)
        } else {
            None
        }
    }
}

/// The side of a trade execution.
#[derive(Clone, Copy, Debug, PartialEq, Eq, Structural)]
pub enum Side {
    /// Buy.
    Buy,
    /// Sell.
    Sell,
    /// Short sale.
    SellShort,
}

impl Side {
    /// The wire token of the side.
    pub open spec fn spec_wire_name(&self) -> Seq<char> {
        match self {
            Side::Buy => "buy"@,
            Side::Sell => "sell"@,
            Side::SellShort => "sell_short"@,
        }
    }

    /// What a wire token means.
    pub open spec fn spec_from_wire(s: Seq<char>) -> Option<Side> {
        if s == "buy"@ {
            Some(Side::Buy)
        } else if s == "sell"@ {
            Some(Side::Sell)
        } else if s == "sell_short"@ {
            Some(Side::SellShort)
        } else {
            None
        }
    }

    /// Reads a wire token.
    pub fn from_wire(s: &str) -> (r: Option<Side>)
        ensures
            r == Self::spec_from_wire(s@),
    {
        if crate::strutil::str_eq(s, "buy") {
            Some(Side::Buy)
        } else if crate::strutil::str_eq(s, "sell") {
            Some(Side::Sell)
        } else if crate::strutil::str_eq(s, "sell_short") {
            Some(Side::SellShort)
        } else {
            None
        }
    }
}

/// The kinds of account activity the API reports.  Codes travel in
/// upper case.
#[derive(Clone, Copy, Debug, PartialEq, Eq, Structural)]
pub enum ActivityType {
    /// Order fills, partial and full.
    Fill,
    /// Cash transactions, deposits and withdrawals.
    CashTransactions,
    /// Miscellaneous or rarely used types.
    Miscellaneous,
    /// ACATS in or out, cash.
    AcatsCash,
    /// ACATS in or out, securities.
    AcatsSecurities,
    /// Cash deposit.
    CashDeposit,
    /// Cash withdrawal.
    CashWithdrawal,
    /// Dividend.
    Dividend,
    /// Dividend, long-term capital gain.
    DividendLongTermCapitalGain,
    /// Dividend, short-term capital gain.
    DividendShortTermCapitalGain,
    /// Dividend fee.
    DividendFee,
    /// Dividend adjusted for foreign tax withheld.
    DividendForeignTaxWithheld,
    /// Dividend adjusted for NRA withheld.
    DividendNraWithheld,
    /// Dividend return of capital.
    DividendReturnOfCapital,
    /// Dividend adjusted for Tefra withheld.  Shares its code with the
    /// tax-exempt dividend, which therefore never reads back as itself.
    DividendTefraWithheld,
    /// Dividend, tax exempt.
    DividendTaxExempt,
    /// Interest.
    Interest,
    /// Interest adjusted for NRA withheld.
    InterestNraWithheld,
    /// Interest adjusted for Tefra withheld.
    InterestTefraWithheld,
    /// Journal entry.
    JournalEntry,
    /// Journal entry, cash.
    JournalEntryCash,
    /// Journal entry, stock.
    JournalEntryStock,
    /// Merger or acquisition.
    MergerAcquisition,
    /// Name change.
    NameChange,
    /// Option assignment.
    OptionAssignment,
    /// Option expiration.
    OptionExpiration,
    /// Option exercise.
    OptionExercise,
    /// Pass-through charge.
    PassThroughCharge,
    /// Pass-through rebate.
    PassThroughRebate,
    /// Reorganization.
    Reorgnization,
    /// Symbol change.
    SymbolChange,
    /// Stock spinoff.
    StockSpinoff,
    /// Stock split.
    StockSplit,
}

impl ActivityType {
    /// The wire code of the activity type.
    pub open spec fn spec_wire_name(&self) -> Seq<char> {
        match self {
            ActivityType::Fill => "FILL"@,
            ActivityType::CashTransactions => "TRANS"@,
            ActivityType::Miscellaneous => "MISC"@,
            ActivityType::AcatsCash => "ACATC"@,
            ActivityType::AcatsSecurities => "ACATS"@,
            ActivityType::CashDeposit => "CSD"@,
            ActivityType::CashWithdrawal => "CSW"@,
            ActivityType::Dividend => "DIV"@,
            ActivityType::DividendLongTermCapitalGain => "DIVCGL"@,
            ActivityType::DividendShortTermCapitalGain => "DIVCGS"@,
            ActivityType::DividendFee => "DIVFEE"@,
            ActivityType::DividendForeignTaxWithheld => "DIVFT"@,
            ActivityType::DividendNraWithheld => "DIVNRA"@,
            ActivityType::DividendReturnOfCapital => "DIVROC"@,
            ActivityType::DividendTefraWithheld => "DIVTXEX"@,
            ActivityType::DividendTaxExempt => "DIVTXEX"@,
            ActivityType::Interest => "INT"@,
            ActivityType::InterestNraWithheld => "INTNRA"@,
            ActivityType::InterestTefraWithheld => "INTTW"@,
            ActivityType::JournalEntry => "JNL"@,
            ActivityType::JournalEntryCash => "JNLC"@,
            ActivityType::JournalEntryStock => "JNLS"@,
            ActivityType::MergerAcquisition => "MA"@,
            ActivityType::NameChange => "NC"@,
            ActivityType::OptionAssignment => "OPASN"@,
            ActivityType::OptionExpiration => "OPEXP"@,
            ActivityType::OptionExercise => "OPXRC"@,
            ActivityType::PassThroughCharge => "PTC"@,
            ActivityType::PassThroughRebate => "PTR"@,
            ActivityType::Reorgnization => "REORG"@,
            ActivityType::SymbolChange => "SC"@,
            ActivityType::StockSpinoff => "SSO"@,
            ActivityType::StockSplit => "SSP"@,
        }
    }

    /// The wire code of the activity type.
    pub fn wire_name(&self) -> (r: &'static str)
        ensures
            r@ == self.spec_wire_name(),
    {
        match self {
            ActivityType::Fill => "FILL",
            ActivityType::CashTransactions => "TRANS",
            ActivityType::Miscellaneous => "MISC",
            ActivityType::AcatsCash => "ACATC",
            ActivityType::AcatsSecurities => "ACATS",
            ActivityType::CashDeposit => "CSD",
            ActivityType::CashWithdrawal => "CSW",
            ActivityType::Dividend => "DIV",
            ActivityType::DividendLongTermCapitalGain => "DIVCGL",
            ActivityType::DividendShortTermCapitalGain => "DIVCGS",
            ActivityType::DividendFee => "DIVFEE",
            ActivityType::DividendForeignTaxWithheld => "DIVFT",
            ActivityType::DividendNraWithheld => "DIVNRA",
            ActivityType::DividendReturnOfCapital => "DIVROC",
            ActivityType::DividendTefraWithheld => "DIVTXEX",
            ActivityType::DividendTaxExempt => "DIVTXEX",
            ActivityType::Interest => "INT",
            ActivityType::InterestNraWithheld => "INTNRA",
            ActivityType::InterestTefraWithheld => "INTTW",
            ActivityType::JournalEntry => "JNL",
            ActivityType::JournalEntryCash => "JNLC",
            ActivityType::JournalEntryStock => "JNLS",
            ActivityType::MergerAcquisition => "MA",
            ActivityType::NameChange => "NC",
            ActivityType::OptionAssignment => "OPASN",
            ActivityType::OptionExpiration => "OPEXP",
            ActivityType::OptionExercise => "OPXRC",
            ActivityType::PassThroughCharge => "PTC",
            ActivityType::PassThroughRebate => "PTR",
            ActivityType::Reorgnization => "REORG",
            ActivityType::SymbolChange => "SC",
            ActivityType::StockSpinoff => "SSO",
            ActivityType::StockSplit => "SSP",
        }
    }

    /// What a wire code means.  The shared dividend code reads as the
    /// Tefra-withheld dividend, the first of its two variants.
    pub open spec fn spec_from_wire(s: Seq<char>) -> Option<ActivityType> {
        if s == "FILL"@ {
            Some(ActivityType::Fill)
        } else if s == "TRANS"@ {
            Some(ActivityType::CashTransactions)
        } else if s == "MISC"@ {
            Some(ActivityType::Miscellaneous)
        } else if s == "ACATC"@ {
            Some(ActivityType::AcatsCash)
        } else if s == "ACATS"@ {
            Some(ActivityType::AcatsSecurities)
        } else if s == "CSD"@ {
            Some(ActivityType::CashDeposit)
        } else if s == "CSW"@ {
            Some(ActivityType::CashWithdrawal)
        } else if s == "DIV"@ {
            Some(ActivityType::Dividend)
        } else if s == "DIVCGL"@ {
            Some(ActivityType::DividendLongTermCapitalGain)
        } else if s == "DIVCGS"@ {
            Some(ActivityType::DividendShortTermCapitalGain)
        } else if s == "DIVFEE"@ {
            Some(ActivityType::DividendFee)
        } else if s == "DIVFT"@ {
            Some(ActivityType::DividendForeignTaxWithheld)
        } else if s == "DIVNRA"@ {
            Some(ActivityType::DividendNraWithheld)
        } else if s == "DIVROC"@ {
            Some(ActivityType::DividendReturnOfCapital)
        } else if s == "DIVTXEX"@ {
            Some(ActivityType::DividendTefraWithheld)
        } else if s == "INT"@ {
            Some(ActivityType::Interest)
        } else if s == "INTNRA"@ {
            Some(ActivityType::InterestNraWithheld)
        } else if s == "INTTW"@ {
            Some(ActivityType::InterestTefraWithheld)
        } else if s == "JNL"@ {
            Some(ActivityType::JournalEntry)
        } else if s == "JNLC"@ {
            Some(ActivityType::JournalEntryCash)
        } else if s == "JNLS"@ {
            Some(ActivityType::JournalEntryStock)
        } else if s == "MA"@ {
            Some(ActivityType::MergerAcquisition)
        } else if s == "NC"@ {
            Some(ActivityType::NameChange)
        } else if s == "OPASN"@ {
            Some(ActivityType::OptionAssignment)
        } else if s == "OPEXP"@ {
            Some(ActivityType::OptionExpiration)
        } else if s == "OPXRC"@ {
            Some(ActivityType::OptionExercise)
        } else if s == "PTC"@ {
            Some(ActivityType::PassThroughCharge)
        } else if s == "PTR"@ {
            Some(ActivityType::PassThroughRebate)
        } else if s == "REORG"@ {
            Some(ActivityType::Reorgnization)
        } else if s == "SC"@ {
            Some(ActivityType::SymbolChange)
        } else if s == "SSO"@ {
            Some(ActivityType::StockSpinoff)
        } else if s == "SSP"@ {
            Some(ActivityType::StockSplit)
        } else {
            None
        }
    }

    /// Reads a wire code.
    pub fn from_wire(s: &str) -> (r: Option<ActivityType>)
        ensures
            r == Self::spec_from_wire(s@),
    {
        if crate::strutil::str_eq(s, "FILL") {
            Some(ActivityType::Fill)
        } else if crate::strutil::str_eq(s, "TRANS") {
            Some(ActivityType::CashTransactions)
        } else if crate::strutil::str_eq(s, "MISC") {
            Some(ActivityType::Miscellaneous)
        } else if crate::strutil::str_eq(s, "ACATC") {
            Some(ActivityType::AcatsCash)
        } else if crate::strutil::str_eq(s, "ACATS") {
            Some(ActivityType::AcatsSecurities)
        } else if crate::strutil::str_eq(s, "CSD") {
            Some(ActivityType::CashDeposit)
        } else if crate::strutil::str_eq(s, "CSW") {
            Some(ActivityType::CashWithdrawal)
        } else if crate::strutil::str_eq(s, "DIV") {
            Some(ActivityType::Dividend)
        } else if crate::strutil::str_eq(s, "DIVCGL") {
            Some(ActivityType::DividendLongTermCapitalGain)
        } else if crate::strutil::str_eq(s, "DIVCGS") {
            Some(ActivityType::DividendShortTermCapitalGain)
        } else if crate::strutil::str_eq(s, "DIVFEE") {
            Some(ActivityType::DividendFee)
        } else if crate::strutil::str_eq(s, "DIVFT") {
            Some(ActivityType::DividendForeignTaxWithheld)
        } else if crate::strutil::str_eq(s, "DIVNRA") {
            Some(ActivityType::DividendNraWithheld)
        } else if crate::strutil::str_eq(s, "DIVROC") {
            Some(ActivityType::DividendReturnOfCapital)
        } else if crate::strutil::str_eq(s, "DIVTXEX") {
            Some(ActivityType::DividendTefraWithheld)
        } else if crate::strutil::str_eq(s, "INT") {
            Some(ActivityType::Interest)
        } else if crate::strutil::str_eq(s, "INTNRA") {
            Some(ActivityType::InterestNraWithheld)
        } else if crate::strutil::str_eq(s, "INTTW") {
            Some(ActivityType::InterestTefraWithheld)
        } else if crate::strutil::str_eq(s, "JNL") {
            Some(ActivityType::JournalEntry)
        } else if crate::strutil::str_eq(s, "JNLC") {
            Some(ActivityType::JournalEntryCash)
        } else if crate::strutil::str_eq(s, "JNLS") {
            Some(ActivityType::JournalEntryStock)
        } else if crate::strutil::str_eq(s, "MA") {
            Some(ActivityType::MergerAcquisition)
        } else if crate::strutil::str_eq(s, "NC") {
            Some(ActivityType::NameChange)
        } else if crate::strutil::str_eq(s, "OPASN") {
            Some(ActivityType::OptionAssignment)
        } else if crate::strutil::str_eq(s, "OPEXP") {
            Some(ActivityType::OptionExpiration)
        } else if crate::strutil::str_eq(s, "OPXRC") {
            Some(ActivityType::OptionExercise)
        } else if crate::strutil::str_eq(s, "PTC") {
            Some(ActivityType::PassThroughCharge)
        } else if crate::strutil::str_eq(s, "PTR") {
            Some(ActivityType::PassThroughRebate)
        } else if crate::strutil::str_eq(s, "REORG") {
            Some(ActivityType::Reorgnization)
        } else if crate::strutil::str_eq(s, "SC") {
            Some(ActivityType::SymbolChange)
        } else if crate::strutil::str_eq(s, "SSO") {
            Some(ActivityType::StockSpinoff)
        } else if crate::strutil::str_eq(s, "SSP") {
            Some(ActivityType::StockSplit)
        } else {
            None
        }
    }
}

/// One account activity: a trade execution, or anything else.
#[derive(Clone, Debug, PartialEq)]
pub enum Activity {
    /// A trade execution.
    TradeActivity {
        /// Kind of activity being reported.
        activity_type: ActivityType,
        /// Cumulative quantity executed so far.
        cum_qty: Decimal,
        /// Id of the activity; pages of results cursor on it.
        id: String,
        /// Quantity left to fill, for partial fills.
        leaves_qty: Decimal,
        /// Per-share execution price.
        price: Decimal,
        /// Quantity of this execution.
        qty: Decimal,
        /// Side of the execution.
        side: Side,
        /// Symbol of the traded security.
        symbol: String,
        /// When the execution occurred.
        transaction_time: Timestamp,
        /// Id of the order that filled.
        order_id: u128,
        /// Partial or full fill.
        fill_type: FillType,
    },
    /// Any non-trade activity.
    NonTradeActivity {
        /// Kind of activity being reported.
        activity_type: ActivityType,
        /// Id of the activity; pages of results cursor on it.
        id: String,
        /// Date the activity occurred or settled.
        date: Date,
        /// Net money amount of the activity.
        net_amount: Decimal,
        /// Symbol involved, when one is.
        symbol: Option<String>,
        /// Shares contributing to a dividend, when reported.
        qty: Option<i32>,
        /// Average amount paid per share, when reported.
        per_share_amount: Option<Decimal>,
    },
}

impl Activity {
    /// The id of the activity, whichever shape it has.
    pub open spec fn spec_id(&self) -> Seq<char> {
        match self {
            Activity::TradeActivity { id, .. } => id@,
            Activity::NonTradeActivity { id, .. } => id@,
        }
    }

    /// The id of the activity.
    pub fn id(&self) -> (r: &String)
        ensures
            r@ == self.spec_id(),
    {
        match self {
            Activity::TradeActivity { id, .. } => id,
            Activity::NonTradeActivity { id, .. } => id,
        }
    }
}

/// The activity-type field read off a payload.
pub open spec fn activity_type_field(fields: Seq<(String, JsonValue)>) -> Option<ActivityType> {
    match crate::codec::str_field(fields, "activity_type"@) {
        Some(s) => ActivityType::spec_from_wire(s),
        None => None,
    }
}

/// Whether a payload has the trade shape: every field the trade variant
/// requires is present and well-formed.  The quantities and prices hold
/// the lenient profile.
pub open spec fn spec_trade_ok(fields: Seq<(String, JsonValue)>) -> bool {
    &&& activity_type_field(fields) is Some
    &&& crate::codec::lenient_decimal_field(fields, "cum_qty"@) is Some
    &&& crate::codec::str_field(fields, "id"@) is Some
    &&& crate::codec::lenient_decimal_field(fields, "leaves_qty"@) is Some
    &&& crate::codec::lenient_decimal_field(fields, "price"@) is Some
    &&& crate::codec::lenient_decimal_field(fields, "qty"@) is Some
    &&& (match crate::codec::str_field(fields, "side"@) {
        Some(s) => Side::spec_from_wire(s) is Some,
        None => false,
    })
    &&& crate::codec::str_field(fields, "symbol"@) is Some
    &&& crate::codec::timestamp_field(fields, "transaction_time"@) is Some
    &&& crate::codec::uuid_field(fields, "order_id"@) is Some
    &&& (match crate::codec::str_field(fields, "type"@) {
        Some(s) => FillType::spec_from_wire(s) is Some,
        None => false,
    })
}

/// What a decoded trade activity holds.
pub open spec fn spec_trade_matches(fields: Seq<(String, JsonValue)>, a: Activity) -> bool {
    match a {
        Activity::TradeActivity {
            activity_type,
            cum_qty,
            id,
            leaves_qty,
            price,
            qty,
            side,
            symbol,
            transaction_time,
            order_id,
            fill_type,
        } => {
            &&& activity_type_field(fields) == Some(activity_type)
            &&& crate::codec::lenient_decimal_field(fields, "cum_qty"@) == Some(cum_qty)
            &&& crate::codec::str_field(fields, "id"@) == Some(id@)
            &&& crate::codec::lenient_decimal_field(fields, "leaves_qty"@) == Some(leaves_qty)
            &&& crate::codec::lenient_decimal_field(fields, "price"@) == Some(price)
            &&& crate::codec::lenient_decimal_field(fields, "qty"@) == Some(qty)
            &&& (match crate::codec::str_field(fields, "side"@) {
                Some(s) => Side::spec_from_wire(s) == Some(side),
                None => false,
            })
            &&& crate::codec::str_field(fields, "symbol"@) == Some(symbol@)
            &&& crate::codec::timestamp_field(fields, "transaction_time"@) == Some(
                transaction_time,
            )
            &&& crate::codec::uuid_field(fields, "order_id"@) == Some(order_id)
            &&& (match crate::codec::str_field(fields, "type"@) {
                Some(s) => FillType::spec_from_wire(s) == Some(fill_type),
                None => false,
            })
        },
        _ => false,
    }
}

/// Whether a payload has the non-trade shape.
pub open spec fn spec_nontrade_ok(fields: Seq<(String, JsonValue)>) -> bool {
    &&& activity_type_field(fields) is Some
    &&& crate::codec::str_field(fields, "id"@) is Some
    &&& crate::codec::date_field(fields, "date"@) is Some
    &&& crate::codec::lenient_decimal_field(fields, "net_amount"@) is Some
    &&& crate::codec::opt_str_field(fields, "symbol"@) is Some
    &&& crate::codec::lenient_int_field(fields, "qty"@) is Some
    &&& crate::codec::opt_lenient_decimal_field(fields, "per_share_amount"@) is Some
}

/// What a decoded non-trade activity holds.
pub open spec fn spec_nontrade_matches(fields: Seq<(String, JsonValue)>, a: Activity) -> bool {
    match a {
        Activity::NonTradeActivity {
            activity_type,
            id,
            date,
            net_amount,
            symbol,
            qty,
            per_share_amount,
        } => {
            &&& activity_type_field(fields) == Some(activity_type)
            &&& crate::codec::str_field(fields, "id"@) == Some(id@)
            &&& crate::codec::date_field(fields, "date"@) == Some(date)
            &&& crate::codec::lenient_decimal_field(fields, "net_amount"@) == Some(net_amount)
            &&& (match (crate::codec::opt_str_field(fields, "symbol"@), symbol) {
                (Some(Some(s)), Some(t)) => s == t@,
                (Some(None), None) => true,
                _ => false,
            })
            &&& crate::codec::lenient_int_field(fields, "qty"@) == Some(qty)
            &&& crate::codec::opt_lenient_decimal_field(fields, "per_share_amount"@) == Some(
                per_share_amount,
            )
        },
        _ => false,
    }
}

/// Tries to read a payload as a trade activity.
fn decode_trade(fields: &Vec<(String, JsonValue)>) -> (r: Option<Activity>)
    ensures
        r is Some <==> spec_trade_ok(fields@),
        r matches Some(a) ==> spec_trade_matches(fields@, a),
{
    let type_token = match crate::codec::req_str(fields, "activity_type") {
        Ok(t) => t,
        Err(_) => {
            return None;
        },
    };
    let activity_type = match ActivityType::from_wire(type_token.as_str()) {
        Some(t) => t,
        None => {
            return None;
        },
    };
    let cum_qty = match crate::codec::req_decimal_lenient(fields, "cum_qty") {
        Ok(d) => d,
        Err(_) => {
            return None;
        },
    };
    let id = match crate::codec::req_str(fields, "id") {
        Ok(s) => s,
        Err(_) => {
            return None;
        },
    };
    let leaves_qty = match crate::codec::req_decimal_lenient(fields, "leaves_qty") {
        Ok(d) => d,
        Err(_) => {
            return None;
        },
    };
    let price = match crate::codec::req_decimal_lenient(fields, "price") {
        Ok(d) => d,
        Err(_) => {
            return None;
        },
    };
    let qty = match crate::codec::req_decimal_lenient(fields, "qty") {
        Ok(d) => d,
        Err(_) => {
            return None;
        },
    };
    let side_token = match crate::codec::req_str(fields, "side") {
        Ok(s) => s,
        Err(_) => {
            return None;
        },
    };
    let side = match Side::from_wire(side_token.as_str()) {
        Some(s) => s,
        None => {
            return None;
        },
    };
    let symbol = match crate::codec::req_str(fields, "symbol") {
        Ok(s) => s,
        Err(_) => {
            return None;
        },
    };
    let transaction_time = match crate::codec::req_timestamp(fields, "transaction_time") {
        Ok(t) => t,
        Err(_) => {
            return None;
        },
    };
    let order_id = match crate::codec::req_uuid(fields, "order_id") {
        Ok(u) => u,
        Err(_) => {
            return None;
        },
    };
    let fill_token = match crate::codec::req_str(fields, "type") {
        Ok(s) => s,
        Err(_) => {
            return None;
        },
    };
    let fill_type = match FillType::from_wire(fill_token.as_str()) {
        Some(f) => f,
        None => {
            return None;
        },
    };
    Some(
        Activity::TradeActivity {
            activity_type,
            cum_qty,
            id,
            leaves_qty,
            price,
            qty,
            side,
            symbol,
            transaction_time,
            order_id,
            fill_type,
        },
    )
}

/// Tries to read a payload as a non-trade activity.
fn decode_nontrade(fields: &Vec<(String, JsonValue)>) -> (r: Option<Activity>)
    ensures
        r is Some <==> spec_nontrade_ok(fields@),
        r matches Some(a) ==> spec_nontrade_matches(fields@, a),
{
    let type_token = match crate::codec::req_str(fields, "activity_type") {
        Ok(t) => t,
        Err(_) => {
            return None;
        },
    };
    let activity_type = match ActivityType::from_wire(type_token.as_str()) {
        Some(t) => t,
        None => {
            return None;
        },
    };
    let id = match crate::codec::req_str(fields, "id") {
        Ok(s) => s,
        Err(_) => {
            return None;
        },
    };
    let date = match crate::codec::req_date(fields, "date") {
        Ok(d) => d,
        Err(_) => {
            return None;
        },
    };
    let net_amount = match crate::codec::req_decimal_lenient(fields, "net_amount") {
        Ok(d) => d,
        Err(_) => {
            return None;
        },
    };
    let symbol = match crate::codec::opt_str(fields, "symbol") {
        Ok(s) => s,
        Err(_) => {
            return None;
        },
    };
    let qty = match crate::codec::opt_int_lenient(fields, "qty") {
        Ok(q) => q,
        Err(_) => {
            return None;
        },
    };
    let per_share_amount = match crate::codec::opt_decimal_lenient(fields, "per_share_amount") {
        Ok(d) => d,
        Err(_) => {
            return None;
        },
    };
    Some(
        Activity::NonTradeActivity {
            activity_type,
            id,
            date,
            net_amount,
            symbol,
            qty,
            per_share_amount,
        },
    )
}

/// Decodes one activity payload.  The payload carries no discriminator:
/// the trade shape is tried first and the non-trade shape second, in
/// that declared order, and the first whose required fields are all
/// present wins.  When neither fits, the error names both attempted
/// shapes.
pub fn decode_activity(v: &JsonValue) -> (r: Result<Activity, DecodeError>)
    ensures
        r is Ok <==> (v matches JsonValue::Obj(fields) && (spec_trade_ok(fields@)
            || spec_nontrade_ok(fields@))),
        r matches Ok(a) ==> (v matches JsonValue::Obj(fields) && {
            if spec_trade_ok(fields@) {
                spec_trade_matches(fields@, a)
            } else {
                spec_nontrade_matches(fields@, a)
            }
        }),
        r matches Err(e) ==> e.field@ == "activity"@ && (match v {
            JsonValue::Obj(_) => e.value@ == "neither TradeActivity nor NonTradeActivity"@,
            _ => e.value@ == crate::json::spec_raw_token(*v),
        }),
{
    let fields = match v {
        JsonValue::Obj(fields) => fields,
        _ => {
            return Err(
                DecodeError {
                    field: String::from_str("activity"),
                    value: crate::json::raw_token(v),
                },
            );
        },
    };
    match decode_trade(fields) {
        Some(a) => Ok(a),
        None => match decode_nontrade(fields) {
            Some(a) => Ok(a),
            None => Err(
                DecodeError {
                    field: String::from_str("activity"),
                    value: String::from_str("neither TradeActivity nor NonTradeActivity"),
                },
            ),
        },
    }
}

/// Decodes a list of activities.
#[verifier::loop_isolation(false)]
pub fn decode_activities(v: &JsonValue) -> (r: Result<Vec<Activity>, DecodeError>)
    ensures
        r is Ok <==> (v matches JsonValue::Arr(items) && (forall|i: int|
            0 <= i < items@.len() ==> ((#[trigger] items@[i]) matches JsonValue::Obj(fields) && (
            spec_trade_ok(fields@) || spec_nontrade_ok(fields@))))),
        r matches Ok(os) ==> (v matches JsonValue::Arr(items) && os@.len() == items@.len() && (
        forall|i: int|
            0 <= i < items@.len() ==> ((#[trigger] items@[i]) matches JsonValue::Obj(fields) && {
                if spec_trade_ok(fields@) {
                    spec_trade_matches(fields@, os@[i])
                } else {
                    spec_nontrade_matches(fields@, os@[i])
                }
            }))),
{
    let items = match v {
        JsonValue::Arr(items) => items,
        _ => {
            return Err(
                DecodeError {
                    field: String::from_str("activities"),
                    value: crate::json::raw_token(v),
                },
            );
        },
    };
    let mut out: Vec<Activity> = Vec::new();
    let n = items.len();
    let mut i: usize = 0;
    while i < n
        invariant
            i <= n,
            n == items@.len(),
            out@.len() == i,
            forall|j: int|
                0 <= j < i ==> ((#[trigger] items@[j]) matches JsonValue::Obj(fields) && (
                spec_trade_ok(fields@) || spec_nontrade_ok(fields@)) && {
                    if spec_trade_ok(fields@) {
                        spec_trade_matches(fields@, out@[j])
                    } else {
                        spec_nontrade_matches(fields@, out@[j])
                    }
                }),
        decreases n - i,
    {
        let a = decode_activity(&items[i])?;
        out.push(a);
        i = i + 1;
    }
    Ok(out)
}

/// The date filter of an activity listing: one single date, or an
/// until/after range.
#[derive(Clone, Copy, Debug, PartialEq, Eq, Structural)]
pub enum DateSpec {
    /// Activities of one date.
    OnDate {
        /// The date.
        date: Date,
    },
    /// Activities until and/or after the given dates.
    UntilAfter {
        /// Only activities before this date.
        until: Option<Date>,
        /// Only activities after this date.
        after: Option<Date>,
    },
}

/// The cursor an activity listing pages with.
pub type AccountActivitiesPage = crate::pagination::PageCursor;

/// The query pairs a date filter contributes.
pub open spec fn spec_date_spec_query(d: Option<DateSpec>) -> Seq<(Seq<char>, Seq<char>)> {
    match d {
        None => Seq::<(Seq<char>, Seq<char>)>::empty(),
        Some(DateSpec::OnDate { date }) => seq![
            ("date"@, crate::temporal::spec_date_text(date)),
        ],
        Some(DateSpec::UntilAfter { until, after }) => (match until {
            Some(u) => seq![("until"@, crate::temporal::spec_date_text(u))],
            None => Seq::<(Seq<char>, Seq<char>)>::empty(),
        }) + (match after {
            Some(a) => seq![("after"@, crate::temporal::spec_date_text(a))],
            None => Seq::<(Seq<char>, Seq<char>)>::empty(),
        }),
    }
}

/// All dates of a filter lie in the codec's ranges.
pub open spec fn spec_date_spec_wf(d: Option<DateSpec>) -> bool {
    match d {
        None => true,
        Some(DateSpec::OnDate { date }) => date.wf(),
        Some(DateSpec::UntilAfter { until, after }) => (match until {
            Some(u) => u.wf(),
            None => true,
        }) && (match after {
            Some(a) => a.wf(),
            None => true,
        }),
    }
}

/// Decides [`spec_date_spec_wf`] executably.
pub fn date_spec_is_wf(d: &Option<DateSpec>) -> (r: bool)
    ensures
        r == spec_date_spec_wf(*d),
{
    match d {
        None => true,
        Some(DateSpec::OnDate { date }) => date.is_wf(),
        Some(DateSpec::UntilAfter { until, after }) => (match until {
            Some(u) => u.is_wf(),
            None => true,
        }) && (match after {
            Some(a) => a.is_wf(),
            None => true,
        }),
    }
}

/// Narrows a date filter to end before `date`, keeping any `after`
/// bound: a single-date filter is discarded for the range form, as a
/// range and a single date cannot be sent together.
pub open spec fn spec_before_date(d: Option<DateSpec>, date: Date) -> DateSpec {
    match d {
        Some(DateSpec::UntilAfter { after, .. }) => DateSpec::UntilAfter {
            until: Some(date),
            after,
        },
        _ => DateSpec::UntilAfter { until: Some(date), after: None },
    }
}

/// Narrows a date filter to begin after `date`, keeping any `until`
/// bound.
pub open spec fn spec_after_date(d: Option<DateSpec>, date: Date) -> DateSpec {
    match d {
        Some(DateSpec::UntilAfter { until, .. }) => DateSpec::UntilAfter {
            until,
            after: Some(date),
        },
        _ => DateSpec::UntilAfter { until: None, after: Some(date) },
    }
}

/// Appends a date filter's query pairs.
fn push_date_spec(q: &mut Vec<(String, String)>, d: &Option<DateSpec>)
    requires
        spec_date_spec_wf(*d),
    ensures
        crate::request::pairs_view(final(q)@) == crate::request::pairs_view(old(q)@)
            + spec_date_spec_query(*d),
{
    match d {
        None => {},
        Some(DateSpec::OnDate { date }) => {
            crate::request::push_pair(q, "date", crate::temporal::format_date(date));
        },
        Some(DateSpec::UntilAfter { until, after }) => {
            match until {
                Some(u) => crate::request::push_pair(q, "until", crate::temporal::format_date(u)),
                None => {},
            }
            match after {
                Some(a) => crate::request::push_pair(q, "after", crate::temporal::format_date(a)),
                None => {},
            }
        },
    }
    proof {
        assert(crate::request::pairs_view(final(q)@) =~= crate::request::pairs_view(old(q)@)
            + spec_date_spec_query(*d));
    }
}

/// The wire codes of an activity-type filter, in order.
pub open spec fn spec_activity_codes(ts: Seq<ActivityType>) -> Seq<Seq<char>> {
    ts.map_values(|t: ActivityType| t.spec_wire_name())
}

/// The wire codes of an activity-type filter, collected.
fn activity_codes(ts: &Vec<ActivityType>) -> (r: Vec<String>)
    ensures
        r@.map_values(|s: String| s@) == spec_activity_codes(ts@),
{
    let mut out: Vec<String> = Vec::new();
    let n = ts.len();
    let mut i: usize = 0;
    while i < n
        invariant
            i <= n,
            n == ts@.len(),
            out@.len() == i,
            forall|j: int| 0 <= j < i ==> (#[trigger] out@[j])@ == ts@[j].spec_wire_name(),
        decreases n - i,
    {
        out.push(String::from_str(ts[i].wire_name()));
        i = i + 1;
    }
    proof {
        assert(out@.map_values(|s: String| s@) =~= spec_activity_codes(ts@));
    }
    out
}

/// Lists account activities of many types.
#[derive(Clone, Debug, Default)]
pub struct GetAccountActivities {
    /// Only these kinds of activity; empty means all.
    pub activity_types: Vec<ActivityType>,
    /// Date filter.
    pub date_spec: Option<DateSpec>,
    /// Sort direction; sent as `direction`.
    pub sort: Option<crate::common::Sort>,
    /// Number of items per page, at most one hundred.
    pub page_size: Option<u64>,
    /// Id of the activity the page begins after.
    pub page_token: Option<String>,
}

impl GetAccountActivities {
    /// A new request with no filters.
    pub fn new() -> (r: GetAccountActivities)
        ensures
            r.activity_types@.len() == 0,
            r.date_spec is None,
            r.sort is None,
            r.page_size is None,
            r.page_token is None,
    {
        GetAccountActivities {
            activity_types: Vec::new(),
            date_spec: None,
            sort: None,
            page_size: None,
            page_token: None,
        }
    }

    /// Adds one kind of activity to the filter.
    pub fn add_activity(self, activity_type: ActivityType) -> (r: Self)
        ensures
            r.activity_types@ == self.activity_types@.push(activity_type),
            r.date_spec == self.date_spec,
            r.sort == self.sort,
            r.page_size == self.page_size,
            r.page_token == self.page_token,
    {
        let mut types = self.activity_types;
        types.push(activity_type);
        GetAccountActivities { activity_types: types, ..self }
    }

    /// Adds several kinds of activity to the filter.
    pub fn add_activities(self, activity_types: &[ActivityType]) -> (r: Self)
        ensures
            r.activity_types@ == self.activity_types@ + activity_types@,
            r.date_spec == self.date_spec,
            r.sort == self.sort,
            r.page_size == self.page_size,
            r.page_token == self.page_token,
    {
        let mut types = self.activity_types;
        let n = activity_types.len();
        let mut i: usize = 0;
        proof {
            assert(types@ =~= self.activity_types@ + activity_types@.subrange(0, 0));
        }
        while i < n
            invariant
                i <= n,
                n == activity_types@.len(),
                types@ == self.activity_types@ + activity_types@.subrange(0, i as int),
            decreases n - i,
        {
            types.push(activity_types[i]);
            i = i + 1;
            proof {
                assert(types@ =~= self.activity_types@ + activity_types@.subrange(0, i as int));
            }
        }
        proof {
            assert(activity_types@.subrange(0, n as int) =~= activity_types@);
        }
        GetAccountActivities { activity_types: types, ..self }
    }

    /// Filters to one single date.
    pub fn on_date(self, date: Date) -> (r: Self)
        ensures
            r == (GetAccountActivities {
                date_spec: Some(DateSpec::OnDate { date }),
                ..self
            }),
    {
        GetAccountActivities { date_spec: Some(DateSpec::OnDate { date }), ..self }
    }

    /// Filters to activities before `date`, keeping any `after` bound.
    pub fn before_date(self, date: Date) -> (r: Self)
        ensures
            r == (GetAccountActivities {
                date_spec: Some(spec_before_date(self.date_spec, date)),
                ..self
            }),
    {
        let date_spec = match self.date_spec {
            Some(DateSpec::UntilAfter { after, .. }) => DateSpec::UntilAfter {
                until: Some(date),
                after,
            },
            _ => DateSpec::UntilAfter { until: Some(date), after: None },
        };
        GetAccountActivities { date_spec: Some(date_spec), ..self }
    }

    /// Filters to activities after `date`, keeping any `until` bound.
    pub fn after_date(self, date: Date) -> (r: Self)
        ensures
            r == (GetAccountActivities {
                date_spec: Some(spec_after_date(self.date_spec, date)),
                ..self
            }),
    {
        let date_spec = match self.date_spec {
            Some(DateSpec::UntilAfter { until, .. }) => DateSpec::UntilAfter {
                until,
                after: Some(date),
            },
            _ => DateSpec::UntilAfter { until: None, after: Some(date) },
        };
        GetAccountActivities { date_spec: Some(date_spec), ..self }
    }

    /// Sets the sort direction.
    pub fn sort(self, sort: crate::common::Sort) -> (r: Self)
        ensures
            r == (GetAccountActivities { sort: Some(sort), ..self }),
    {
        GetAccountActivities { sort: Some(sort), ..self }
    }

    /// Sets the page size.
    pub fn page_size(self, page_size: u64) -> (r: Self)
        ensures
            r == (GetAccountActivities { page_size: Some(page_size), ..self }),
    {
        GetAccountActivities { page_size: Some(page_size), ..self }
    }

    /// Sets the id the page begins after.
    pub fn page_token(self, page_token: String) -> (r: Self)
        ensures
            r == (GetAccountActivities { page_token: Some(r.page_token.unwrap()), ..self }),
            r.page_token matches Some(t) && t == page_token,
    {
        GetAccountActivities { page_token: Some(page_token), ..self }
    }

    /// All dates of the request lie in the codec's ranges.
    pub open spec fn spec_wf(&self) -> bool {
        spec_date_spec_wf(self.date_spec)
    }

    /// Decides [`Self::spec_wf`] executably, so an unverified caller can
    /// test it before building the query.
    pub fn is_wf(&self) -> (r: bool)
        ensures
            r == self.spec_wf(),
    {
        date_spec_is_wf(&self.date_spec)
    }

    /// The query the filters spell: the activity types comma-joined into
    /// one parameter when any are set, the date filter, `direction`,
    /// `page_size` and `page_token`, unset filters omitted.
    pub open spec fn spec_query(&self) -> Seq<(Seq<char>, Seq<char>)> {
        (if self.activity_types@.len() == 0 {
            Seq::<(Seq<char>, Seq<char>)>::empty()
        } else {
            seq![
                (
                    "activity_types"@,
                    crate::request::spec_comma_join(spec_activity_codes(self.activity_types@)),
                ),
            ]
        }) + spec_date_spec_query(self.date_spec) + (match self.sort {
            Some(s) => seq![("direction"@, s.spec_wire_name())],
            None => Seq::<(Seq<char>, Seq<char>)>::empty(),
        }) + (match self.page_size {
            Some(n) => seq![("page_size"@, crate::strutil::uint_chars(n as nat))],
            None => Seq::<(Seq<char>, Seq<char>)>::empty(),
        }) + (match self.page_token {
            Some(t) => seq![("page_token"@, t@)],
            None => Seq::<(Seq<char>, Seq<char>)>::empty(),
        })
    }

    /// Builds the query parameters.
    #[verifier::rlimit(60)]
    pub fn query(&self) -> (r: Vec<(String, String)>)
        requires
            self.spec_wf(),
        ensures
            crate::request::pairs_view(r@) == self.spec_query(),
    {
        let mut q: Vec<(String, String)> = Vec::new();
        if self.activity_types.len() > 0 {
            let codes = activity_codes(&self.activity_types);
            let joined = crate::request::comma_join(&codes);
            crate::request::push_pair(&mut q, "activity_types", joined);
        }
        push_date_spec(&mut q, &self.date_spec);
        match &self.sort {
            Some(s) => crate::request::push_pair(
                &mut q,
                "direction",
                String::from_str(s.wire_name()),
            ),
            None => {},
        }
        match &self.page_size {
            Some(n) => {
                let mut t = String::new();
                crate::strutil::push_uint(&mut t, *n as u128);
                proof {
                    assert(t@ =~= crate::strutil::uint_chars(*n as nat));
                }
                crate::request::push_pair(&mut q, "page_size", t);
            },
            None => {},
        }
        match &self.page_token {
            Some(t) => crate::request::push_pair(&mut q, "page_token", t.clone()),
            None => {},
        }
        proof {
            assert(crate::request::pairs_view(q@) =~= self.spec_query());
        }
        q
    }

    /// The path of the activity-listing endpoint.
    pub fn endpoint(&self) -> (r: String)
        ensures
            r@ == "/v2/account/activities"@,
    {
        String::from_str("/v2/account/activities")
    }

    /// The method of the activity-listing endpoint.
    pub fn method(&self) -> (r: Method)
        ensures
            r == Method::Get,
    {
        Method::Get
    }
}

/// Lists account activities of one type; pages through results with a
/// cursor on the last activity's id.
#[derive(Clone, Debug)]
pub struct GetAccountActivitiesByType {
    /// The kind of activity, named in the path.
    pub activity_type: ActivityType,
    /// Date filter.
    pub date_spec: Option<DateSpec>,
    /// Sort direction; sent as `direction`.
    pub sort: Option<crate::common::Sort>,
    /// Number of items per page, at most one hundred.
    pub page_size: Option<u64>,
    /// Id of the activity the page begins after.
    pub page_token: Option<String>,
}

impl GetAccountActivitiesByType {
    /// A new request for one kind of activity.
    pub fn new(activity_type: ActivityType) -> (r: GetAccountActivitiesByType)
        ensures
            r.activity_type == activity_type,
            r.date_spec is None,
            r.sort is None,
            r.page_size is None,
            r.page_token is None,
    {
        GetAccountActivitiesByType {
            activity_type,
            date_spec: None,
            sort: None,
            page_size: None,
            page_token: None,
        }
    }

    /// Filters to one single date.
    pub fn on_date(self, date: Date) -> (r: Self)
        ensures
            r == (GetAccountActivitiesByType {
                date_spec: Some(DateSpec::OnDate { date }),
                ..self
            }),
    {
        GetAccountActivitiesByType { date_spec: Some(DateSpec::OnDate { date }), ..self }
    }

    /// Filters to activities before `date`, keeping any `after` bound.
    pub fn before_date(self, date: Date) -> (r: Self)
        ensures
            r == (GetAccountActivitiesByType {
                date_spec: Some(spec_before_date(self.date_spec, date)),
                ..self
            }),
    {
        let date_spec = match self.date_spec {
            Some(DateSpec::UntilAfter { after, .. }) => DateSpec::UntilAfter {
                until: Some(date),
                after,
            },
            _ => DateSpec::UntilAfter { until: Some(date), after: None },
        };
        GetAccountActivitiesByType { date_spec: Some(date_spec), ..self }
    }

    /// Filters to activities after `date`, keeping any `until` bound.
    pub fn after_date(self, date: Date) -> (r: Self)
        ensures
            r == (GetAccountActivitiesByType {
                date_spec: Some(spec_after_date(self.date_spec, date)),
                ..self
            }),
    {
        let date_spec = match self.date_spec {
            Some(DateSpec::UntilAfter { until, .. }) => DateSpec::UntilAfter {
                until,
                after: Some(date),
            },
            _ => DateSpec::UntilAfter { until: None, after: Some(date) },
        };
        GetAccountActivitiesByType { date_spec: Some(date_spec), ..self }
    }

    /// Sets the sort direction.
    pub fn sort(self, sort: crate::common::Sort) -> (r: Self)
        ensures
            r == (GetAccountActivitiesByType { sort: Some(sort), ..self }),
    {
        GetAccountActivitiesByType { sort: Some(sort), ..self }
    }

    /// Sets the page size.
    pub fn page_size(self, page_size: u64) -> (r: Self)
        ensures
            r == (GetAccountActivitiesByType { page_size: Some(page_size), ..self }),
    {
        GetAccountActivitiesByType { page_size: Some(page_size), ..self }
    }

    /// Sets the id the page begins after.
    pub fn page_token(self, page_token: String) -> (r: Self)
        ensures
            r == (GetAccountActivitiesByType {
                page_token: Some(r.page_token.unwrap()),
                ..self
            }),
            r.page_token matches Some(t) && t == page_token,
    {
        GetAccountActivitiesByType { page_token: Some(page_token), ..self }
    }

    /// All dates of the request lie in the codec's ranges.
    pub open spec fn spec_wf(&self) -> bool {
        spec_date_spec_wf(self.date_spec)
    }

    /// Decides [`Self::spec_wf`] executably, so an unverified caller can
    /// test it before building the query.
    pub fn is_wf(&self) -> (r: bool)
        ensures
            r == self.spec_wf(),
    {
        date_spec_is_wf(&self.date_spec)
    }

    /// The query the filters spell.
    pub open spec fn spec_query(&self) -> Seq<(Seq<char>, Seq<char>)> {
        spec_date_spec_query(self.date_spec) + (match self.sort {
            Some(s) => seq![("direction"@, s.spec_wire_name())],
            None => Seq::<(Seq<char>, Seq<char>)>::empty(),
        }) + (match self.page_size {
            Some(n) => seq![("page_size"@, crate::strutil::uint_chars(n as nat))],
            None => Seq::<(Seq<char>, Seq<char>)>::empty(),
        }) + (match self.page_token {
            Some(t) => seq![("page_token"@, t@)],
            None => Seq::<(Seq<char>, Seq<char>)>::empty(),
        })
    }

    /// Builds the query parameters.
    pub fn query(&self) -> (r: Vec<(String, String)>)
        requires
            self.spec_wf(),
        ensures
            crate::request::pairs_view(r@) == self.spec_query(),
    {
        let mut q: Vec<(String, String)> = Vec::new();
        push_date_spec(&mut q, &self.date_spec);
        match &self.sort {
            Some(s) => crate::request::push_pair(
                &mut q,
                "direction",
                String::from_str(s.wire_name()),
            ),
            None => {},
        }
        match &self.page_size {
            Some(n) => {
                let mut t = String::new();
                crate::strutil::push_uint(&mut t, *n as u128);
                proof {
                    assert(t@ =~= crate::strutil::uint_chars(*n as nat));
                }
                crate::request::push_pair(&mut q, "page_size", t);
            },
            None => {},
        }
        match &self.page_token {
            Some(t) => crate::request::push_pair(&mut q, "page_token", t.clone()),
            None => {},
        }
        proof {
            assert(crate::request::pairs_view(q@) =~= self.spec_query());
        }
        q
    }

    /// The path of the by-type endpoint: the listing path with the
    /// activity code appended.
    pub fn endpoint(&self) -> (r: String)
        ensures
            r@ == "/v2/account/activities/"@ + self.activity_type.spec_wire_name(),
    {
        let mut out = String::from_str("/v2/account/activities/");
        out.append(self.activity_type.wire_name());
        out
    }

    /// The method of the by-type endpoint.
    pub fn method(&self) -> (r: Method)
        ensures
            r == Method::Get,
    {
        Method::Get
    }

    /// The cursor the next page request carries, derived from the page
    /// just received: for a non-empty page, the previous cursor's page
    /// size (or the default) and the id of the page's last activity; an
    /// empty page ends the sequence.
    pub fn next_page(prev: Option<&AccountActivitiesPage>, page: &Vec<Activity>) -> (r: Option<
        AccountActivitiesPage,
    >)
        ensures
            page@.len() == 0 ==> r is None,
            page@.len() > 0 ==> (r matches Some(c) && c.page_token@ == page@.last().spec_id()
                && c.page_size == (match prev {
                Some(p) => p.page_size,
                None => crate::pagination::DEFAULT_PAGE_SIZE,
            })),
    {
        if page.len() == 0 {
            None
        } else {
            let page_size = match prev {
                Some(p) => p.page_size,
                None => crate::pagination::DEFAULT_PAGE_SIZE,
            };
            let page_token = page[page.len() - 1].id().clone();
            Some(AccountActivitiesPage { page_size, page_token })
        }
    }
}

/// A wire token reads back as the trade side it was written from.
pub proof fn lemma_trade_side_wire_round_trip(x: Side)
    ensures
        Side::spec_from_wire(x.spec_wire_name()) == Some(x),
{
    reveal_strlit("buy");
    assert(("buy"@).len() == 3);
    reveal_strlit("sell");
    assert(("sell"@).len() == 4);
    reveal_strlit("sell_short");
    assert(("sell_short"@).len() == 10);
    match x {
        Side::Buy => {
            assert(Side::spec_from_wire("buy"@) == Some(Side::Buy));
        },
        Side::Sell => {
            assert(Side::spec_from_wire("sell"@) == Some(Side::Sell));
        },
        Side::SellShort => {
            assert(Side::spec_from_wire("sell_short"@) == Some(Side::SellShort));
        },
    }
}

/// A wire token reads back as the fill type it was written from.
pub proof fn lemma_fill_type_wire_round_trip(x: FillType)
    ensures
        FillType::spec_from_wire(x.spec_wire_name()) == Some(x),
{
    reveal_strlit("fill");
    assert(("fill"@).len() == 4);
    reveal_strlit("partial_fill");
    assert(("partial_fill"@).len() == 12);
    match x {
        FillType::Fill => {
            assert(FillType::spec_from_wire("fill"@) == Some(FillType::Fill));
        },
        FillType::PartialFill => {
            assert(FillType::spec_from_wire("partial_fill"@) == Some(FillType::PartialFill));
        },
    }
}

/// A wire code reads back as the activity type it was written from
/// — for every type but the tax-exempt dividend, whose code is shared
/// with the Tefra-withheld dividend and reads back as that one.
pub proof fn lemma_activity_type_wire_round_trip(x: ActivityType)
    requires
        !(x is DividendTaxExempt),
    ensures
        ActivityType::spec_from_wire(x.spec_wire_name()) == Some(x),
{
    reveal_strlit("FILL");
    assert(("FILL"@).len() == 4);
    reveal_strlit("TRANS");
    assert(("TRANS"@).len() == 5);
    reveal_strlit("MISC");
    assert(("MISC"@).len() == 4);
    reveal_strlit("ACATC");
    assert(("ACATC"@).len() == 5);
    reveal_strlit("ACATS");
    assert(("ACATS"@).len() == 5);
    reveal_strlit("CSD");
    assert(("CSD"@).len() == 3);
    reveal_strlit("CSW");
    assert(("CSW"@).len() == 3);
    reveal_strlit("DIV");
    assert(("DIV"@).len() == 3);
    reveal_strlit("DIVCGL");
    assert(("DIVCGL"@).len() == 6);
    reveal_strlit("DIVCGS");
    assert(("DIVCGS"@).len() == 6);
    reveal_strlit("DIVFEE");
    assert(("DIVFEE"@).len() == 6);
    reveal_strlit("DIVFT");
    assert(("DIVFT"@).len() == 5);
    reveal_strlit("DIVNRA");
    assert(("DIVNRA"@).len() == 6);
    reveal_strlit("DIVROC");
    assert(("DIVROC"@).len() == 6);
    reveal_strlit("DIVTXEX");
    assert(("DIVTXEX"@).len() == 7);
    reveal_strlit("INT");
    assert(("INT"@).len() == 3);
    reveal_strlit("INTNRA");
    assert(("INTNRA"@).len() == 6);
    reveal_strlit("INTTW");
    assert(("INTTW"@).len() == 5);
    reveal_strlit("JNL");
    assert(("JNL"@).len() == 3);
    reveal_strlit("JNLC");
    assert(("JNLC"@).len() == 4);
    reveal_strlit("JNLS");
    assert(("JNLS"@).len() == 4);
    reveal_strlit("MA");
    assert(("MA"@).len() == 2);
    reveal_strlit("NC");
    assert(("NC"@).len() == 2);
    reveal_strlit("OPASN");
    assert(("OPASN"@).len() == 5);
    reveal_strlit("OPEXP");
    assert(("OPEXP"@).len() == 5);
    reveal_strlit("OPXRC");
    assert(("OPXRC"@).len() == 5);
    reveal_strlit("PTC");
    assert(("PTC"@).len() == 3);
    reveal_strlit("PTR");
    assert(("PTR"@).len() == 3);
    reveal_strlit("REORG");
    assert(("REORG"@).len() == 5);
    reveal_strlit("SC");
    assert(("SC"@).len() == 2);
    reveal_strlit("SSO");
    assert(("SSO"@).len() == 3);
    reveal_strlit("SSP");
    assert(("SSP"@).len() == 3);
    match x {
        ActivityType::Fill => {
            assert(ActivityType::spec_from_wire("FILL"@) == Some(ActivityType::Fill));
        },
        ActivityType::CashTransactions => {
            assert(ActivityType::spec_from_wire("TRANS"@) == Some(ActivityType::CashTransactions));
        },
        ActivityType::Miscellaneous => {
            assert(("MISC"@)[0] != ("FILL"@)[0]);
            assert(ActivityType::spec_from_wire("MISC"@) == Some(ActivityType::Miscellaneous));
        },
        ActivityType::AcatsCash => {
            assert(("ACATC"@)[0] != ("TRANS"@)[0]);
            assert(ActivityType::spec_from_wire("ACATC"@) == Some(ActivityType::AcatsCash));
        },
        ActivityType::AcatsSecurities => {
            assert(("ACATS"@)[0] != ("TRANS"@)[0]);
            assert(("ACATS"@)[4] != ("ACATC"@)[4]);
            assert(ActivityType::spec_from_wire("ACATS"@) == Some(ActivityType::AcatsSecurities));
        },
        ActivityType::CashDeposit => {
            assert(ActivityType::spec_from_wire("CSD"@) == Some(ActivityType::CashDeposit));
        },
        ActivityType::CashWithdrawal => {
            assert(("CSW"@)[2] != ("CSD"@)[2]);
            assert(ActivityType::spec_from_wire("CSW"@) == Some(ActivityType::CashWithdrawal));
        },
        ActivityType::Dividend => {
            assert(("DIV"@)[0] != ("CSD"@)[0]);
            assert(("DIV"@)[0] != ("CSW"@)[0]);
            assert(ActivityType::spec_from_wire("DIV"@) == Some(ActivityType::Dividend));
        },
        ActivityType::DividendLongTermCapitalGain => {
            assert(ActivityType::spec_from_wire("DIVCGL"@) == Some(ActivityType::DividendLongTermCapitalGain));
        },
        ActivityType::DividendShortTermCapitalGain => {
            assert(("DIVCGS"@)[5] != ("DIVCGL"@)[5]);
            assert(ActivityType::spec_from_wire("DIVCGS"@) == Some(ActivityType::DividendShortTermCapitalGain));
        },
        ActivityType::DividendFee => {
            assert(("DIVFEE"@)[3] != ("DIVCGL"@)[3]);
            assert(("DIVFEE"@)[3] != ("DIVCGS"@)[3]);
            assert(ActivityType::spec_from_wire("DIVFEE"@) == Some(ActivityType::DividendFee));
        },
        ActivityType::DividendForeignTaxWithheld => {
            assert(("DIVFT"@)[0] != ("TRANS"@)[0]);
            assert(("DIVFT"@)[0] != ("ACATC"@)[0]);
            assert(("DIVFT"@)[0] != ("ACATS"@)[0]);
            assert(ActivityType::spec_from_wire("DIVFT"@) == Some(ActivityType::DividendForeignTaxWithheld));
        },
        ActivityType::DividendNraWithheld => {
            assert(("DIVNRA"@)[3] != ("DIVCGL"@)[3]);
            assert(("DIVNRA"@)[3] != ("DIVCGS"@)[3]);
            assert(("DIVNRA"@)[3] != ("DIVFEE"@)[3]);
            assert(ActivityType::spec_from_wire("DIVNRA"@) == Some(ActivityType::DividendNraWithheld));
        },
        ActivityType::DividendReturnOfCapital => {
            assert(("DIVROC"@)[3] != ("DIVCGL"@)[3]);
            assert(("DIVROC"@)[3] != ("DIVCGS"@)[3]);
            assert(("DIVROC"@)[3] != ("DIVFEE"@)[3]);
            assert(("DIVROC"@)[3] != ("DIVNRA"@)[3]);
            assert(ActivityType::spec_from_wire("DIVROC"@) == Some(ActivityType::DividendReturnOfCapital));
        },
        ActivityType::DividendTefraWithheld => {
            assert(ActivityType::spec_from_wire("DIVTXEX"@) == Some(ActivityType::DividendTefraWithheld));
        },
        ActivityType::DividendTaxExempt => {},
        ActivityType::Interest => {
            assert(("INT"@)[0] != ("CSD"@)[0]);
            assert(("INT"@)[0] != ("CSW"@)[0]);
            assert(("INT"@)[0] != ("DIV"@)[0]);
            assert(ActivityType::spec_from_wire("INT"@) == Some(ActivityType::Interest));
        },
        ActivityType::InterestNraWithheld => {
            assert(("INTNRA"@)[0] != ("DIVCGL"@)[0]);
            assert(("INTNRA"@)[0] != ("DIVCGS"@)[0]);
            assert(("INTNRA"@)[0] != ("DIVFEE"@)[0]);
            assert(("INTNRA"@)[0] != ("DIVNRA"@)[0]);
            assert(("INTNRA"@)[0] != ("DIVROC"@)[0]);
            assert(ActivityType::spec_from_wire("INTNRA"@) == Some(ActivityType::InterestNraWithheld));
        },
        ActivityType::InterestTefraWithheld => {
            assert(("INTTW"@)[0] != ("TRANS"@)[0]);
            assert(("INTTW"@)[0] != ("ACATC"@)[0]);
            assert(("INTTW"@)[0] != ("ACATS"@)[0]);
            assert(("INTTW"@)[0] != ("DIVFT"@)[0]);
            assert(ActivityType::spec_from_wire("INTTW"@) == Some(ActivityType::InterestTefraWithheld));
        },
        ActivityType::JournalEntry => {
            assert(("JNL"@)[0] != ("CSD"@)[0]);
            assert(("JNL"@)[0] != ("CSW"@)[0]);
            assert(("JNL"@)[0] != ("DIV"@)[0]);
            assert(("JNL"@)[0] != ("INT"@)[0]);
            assert(ActivityType::spec_from_wire("JNL"@) == Some(ActivityType::JournalEntry));
        },
        ActivityType::JournalEntryCash => {
            assert(("JNLC"@)[0] != ("FILL"@)[0]);
            assert(("JNLC"@)[0] != ("MISC"@)[0]);
            assert(ActivityType::spec_from_wire("JNLC"@) == Some(ActivityType::JournalEntryCash));
        },
        ActivityType::JournalEntryStock => {
            assert(("JNLS"@)[0] != ("FILL"@)[0]);
            assert(("JNLS"@)[0] != ("MISC"@)[0]);
            assert(("JNLS"@)[3] != ("JNLC"@)[3]);
            assert(ActivityType::spec_from_wire("JNLS"@) == Some(ActivityType::JournalEntryStock));
        },
        ActivityType::MergerAcquisition => {
            assert(ActivityType::spec_from_wire("MA"@) == Some(ActivityType::MergerAcquisition));
        },
        ActivityType::NameChange => {
            assert(("NC"@)[0] != ("MA"@)[0]);
            assert(ActivityType::spec_from_wire("NC"@) == Some(ActivityType::NameChange));
        },
        ActivityType::OptionAssignment => {
            assert(("OPASN"@)[0] != ("TRANS"@)[0]);
            assert(("OPASN"@)[0] != ("ACATC"@)[0]);
            assert(("OPASN"@)[0] != ("ACATS"@)[0]);
            assert(("OPASN"@)[0] != ("DIVFT"@)[0]);
            assert(("OPASN"@)[0] != ("INTTW"@)[0]);
            assert(ActivityType::spec_from_wire("OPASN"@) == Some(ActivityType::OptionAssignment));
        },
        ActivityType::OptionExpiration => {
            assert(("OPEXP"@)[0] != ("TRANS"@)[0]);
            assert(("OPEXP"@)[0] != ("ACATC"@)[0]);
            assert(("OPEXP"@)[0] != ("ACATS"@)[0]);
            assert(("OPEXP"@)[0] != ("DIVFT"@)[0]);
            assert(("OPEXP"@)[0] != ("INTTW"@)[0]);
            assert(("OPEXP"@)[2] != ("OPASN"@)[2]);
            assert(ActivityType::spec_from_wire("OPEXP"@) == Some(ActivityType::OptionExpiration));
        },
        ActivityType::OptionExercise => {
            assert(("OPXRC"@)[0] != ("TRANS"@)[0]);
            assert(("OPXRC"@)[0] != ("ACATC"@)[0]);
            assert(("OPXRC"@)[0] != ("ACATS"@)[0]);
            assert(("OPXRC"@)[0] != ("DIVFT"@)[0]);
            assert(("OPXRC"@)[0] != ("INTTW"@)[0]);
            assert(("OPXRC"@)[2] != ("OPASN"@)[2]);
            assert(("OPXRC"@)[2] != ("OPEXP"@)[2]);
            assert(ActivityType::spec_from_wire("OPXRC"@) == Some(ActivityType::OptionExercise));
        },
        ActivityType::PassThroughCharge => {
            assert(("PTC"@)[0] != ("CSD"@)[0]);
            assert(("PTC"@)[0] != ("CSW"@)[0]);
            assert(("PTC"@)[0] != ("DIV"@)[0]);
            assert(("PTC"@)[0] != ("INT"@)[0]);
            assert(("PTC"@)[0] != ("JNL"@)[0]);
            assert(ActivityType::spec_from_wire("PTC"@) == Some(ActivityType::PassThroughCharge));
        },
        ActivityType::PassThroughRebate => {
            assert(("PTR"@)[0] != ("CSD"@)[0]);
            assert(("PTR"@)[0] != ("CSW"@)[0]);
            assert(("PTR"@)[0] != ("DIV"@)[0]);
            assert(("PTR"@)[0] != ("INT"@)[0]);
            assert(("PTR"@)[0] != ("JNL"@)[0]);
            assert(("PTR"@)[2] != ("PTC"@)[2]);
            assert(ActivityType::spec_from_wire("PTR"@) == Some(ActivityType::PassThroughRebate));
        },
        ActivityType::Reorgnization => {
            assert(("REORG"@)[0] != ("TRANS"@)[0]);
            assert(("REORG"@)[0] != ("ACATC"@)[0]);
            assert(("REORG"@)[0] != ("ACATS"@)[0]);
            assert(("REORG"@)[0] != ("DIVFT"@)[0]);
            assert(("REORG"@)[0] != ("INTTW"@)[0]);
            assert(("REORG"@)[0] != ("OPASN"@)[0]);
            assert(("REORG"@)[0] != ("OPEXP"@)[0]);
            assert(("REORG"@)[0] != ("OPXRC"@)[0]);
            assert(ActivityType::spec_from_wire("REORG"@) == Some(ActivityType::Reorgnization));
        },
        ActivityType::SymbolChange => {
            assert(("SC"@)[0] != ("MA"@)[0]);
            assert(("SC"@)[0] != ("NC"@)[0]);
            assert(ActivityType::spec_from_wire("SC"@) == Some(ActivityType::SymbolChange));
        },
        ActivityType::StockSpinoff => {
            assert(("SSO"@)[0] != ("CSD"@)[0]);
            assert(("SSO"@)[0] != ("CSW"@)[0]);
            assert(("SSO"@)[0] != ("DIV"@)[0]);
            assert(("SSO"@)[0] != ("INT"@)[0]);
            assert(("SSO"@)[0] != ("JNL"@)[0]);
            assert(("SSO"@)[0] != ("PTC"@)[0]);
            assert(("SSO"@)[0] != ("PTR"@)[0]);
            assert(ActivityType::spec_from_wire("SSO"@) == Some(ActivityType::StockSpinoff));
        },
        ActivityType::StockSplit => {
            assert(("SSP"@)[0] != ("CSD"@)[0]);
            assert(("SSP"@)[0] != ("CSW"@)[0]);
            assert(("SSP"@)[0] != ("DIV"@)[0]);
            assert(("SSP"@)[0] != ("INT"@)[0]);
            assert(("SSP"@)[0] != ("JNL"@)[0]);
            assert(("SSP"@)[0] != ("PTC"@)[0]);
            assert(("SSP"@)[0] != ("PTR"@)[0]);
            assert(("SSP"@)[2] != ("SSO"@)[2]);
            assert(ActivityType::spec_from_wire("SSP"@) == Some(ActivityType::StockSplit));
        },
    }
}

} // verus!

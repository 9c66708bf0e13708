//! The order model: order types, order classes, the outbound order
//! request and its wire encoding, and the order endpoints.
//!
//! The wire encoding tags the order type with a `type` discriminator and
//! the order class with an `order_class` discriminator, and flattens the
//! chosen variant's fields into the surrounding object: a limit order
//! contributes `"type":"limit","limit_price":"…"` at the top level, and a
//! bracket class contributes `order_class`, `take_profit` and `stop_loss`
//! keys beside the base order fields.

use vstd::prelude::*;

use crate::body::{
    fields_view, push_field, FieldValue, FieldValueView, Scalar, ScalarView, spec_body_text,
};
use crate::decimal::{format_decimal, spec_decimal_text, Decimal};
use crate::error::ApiError;
use crate::request::Method;
use crate::strutil::uint_chars;
use crate::temporal::{rfc3339_text, Timestamp};

verus! {

use vstd::string::StringExecFns;

/// The type of an order.
#[derive(Clone, Debug, PartialEq)]
pub enum OrderType {
    /// Market order: matched immediately, at no guaranteed price.
    Market,
    /// Limit order: filled at the limit price or better.
    Limit {
        /// The worst price at which the order may execute.
        limit_price: Decimal,
    },
    /// Stop order: becomes a market order at the stop price.
    Stop {
        /// The price at which the order stops out.
        stop_price: Decimal,
    },
    /// Stop-limit order: becomes a limit order at the stop price.
    StopLimit {
        /// The worst price at which the order may execute.
        limit_price: Decimal,
        /// The price at which the order stops out.
        stop_price: Decimal,
    },
    /// Trailing stop: the stop follows the high-water mark at a price or
    /// percent offset.  Exactly one of the two offsets must be set; the
    /// encoder checks this business rule.
    TrailingStop {
        /// Price offset from the high-water mark.
        trail_price: Option<Decimal>,
        /// Percent offset from the high-water mark.
        trail_percent: Option<Decimal>,
    },
}

impl OrderType {
    /// A market order type.
    pub fn market() -> (r: OrderType)
        ensures
            r == OrderType::Market,
    {
        OrderType::Market
    }

    /// A limit order type.
    pub fn limit(limit_price: Decimal) -> (r: OrderType)
        ensures
            r == (OrderType::Limit { limit_price }),
    {
        OrderType::Limit { limit_price }
    }

    /// A stop order type.
    pub fn stop(stop_price: Decimal) -> (r: OrderType)
        ensures
            r == (OrderType::Stop { stop_price }),
    {
        OrderType::Stop { stop_price }
    }

    /// A stop-limit order type.
    pub fn stop_limit(stop_price: Decimal, limit_price: Decimal) -> (r: OrderType)
        ensures
            r == (OrderType::StopLimit { limit_price, stop_price }),
    {
        OrderType::StopLimit { limit_price, stop_price }
    }

    /// A trailing stop at a price offset.
    pub fn trail_price(trail_price: Decimal) -> (r: OrderType)
        ensures
            r == (OrderType::TrailingStop {
                trail_price: Some(trail_price),
                trail_percent: None,
            }),
    {
        OrderType::TrailingStop { trail_price: Some(trail_price), trail_percent: None }
    }

    /// A trailing stop at a percent offset.
    pub fn trail_percent(trail_percent: Decimal) -> (r: OrderType)
        ensures
            r == (OrderType::TrailingStop {
                trail_price: None,
                trail_percent: Some(trail_percent),
            }),
    {
        OrderType::TrailingStop { trail_price: None, trail_percent: Some(trail_percent) }
    }

    /// The `type` discriminator this order type sends.
    pub open spec fn spec_tag(&self) -> Seq<char> {
        match self {
            OrderType::Market => "market"@,
            OrderType::Limit { .. } => "limit"@,
            OrderType::Stop { .. } => "stop"@,
            OrderType::StopLimit { .. } => "stop_limit"@,
            OrderType::TrailingStop { .. } => "trailing_stop"@,
        }
    }

    /// The business rule on trailing stops: exactly one of the price and
    /// percent offsets is set.  Every other type is valid as built.
    pub open spec fn spec_valid(&self) -> bool {
        match self {
            OrderType::TrailingStop { trail_price, trail_percent } => (trail_price is Some)
                != (trail_percent is Some),
            _ => true,
        }
    }

    /// All decimal amounts of the type lie within the codec's bounds.
    pub open spec fn spec_wf(&self) -> bool {
        match self {
            OrderType::Market => true,
            OrderType::Limit { limit_price } => limit_price.wf(),
            OrderType::Stop { stop_price } => stop_price.wf(),
            OrderType::StopLimit { limit_price, stop_price } => limit_price.wf()
                && stop_price.wf(),
            OrderType::TrailingStop { trail_price, trail_percent } => (match trail_price {
                Some(d) => d.wf(),
                None => true,
            }) && (match trail_percent {
                Some(d) => d.wf(),
                None => true,
            }),
        }
    }

    /// Whether every decimal amount lies in the codec's bounds, decided
    /// executably — for callers that build the type from raw fields.
    pub fn is_wf(&self) -> (r: bool)
        ensures
            r == self.spec_wf(),
    {
        match self {
            OrderType::Market => true,
            OrderType::Limit { limit_price } => limit_price.is_wf(),
            OrderType::Stop { stop_price } => stop_price.is_wf(),
            OrderType::StopLimit { limit_price, stop_price } => limit_price.is_wf()
                && stop_price.is_wf(),
            OrderType::TrailingStop { trail_price, trail_percent } => (match trail_price {
                Some(d) => d.is_wf(),
                None => true,
            }) && (match trail_percent {
                Some(d) => d.is_wf(),
                None => true,
            }),
        }
    }
}

impl Default for OrderType {
    /// The default order type is a market order.
    fn default() -> (r: Self)
        ensures
            r == OrderType::Market,
    {
        OrderType::Market
    }
}

/// How long an order stays eligible for execution.
#[derive(Clone, Copy, Debug, PartialEq, Eq, Structural)]
pub enum TimeInForce {
    /// Eligible on its day only.
    Day,
    /// Good until canceled.
    GoodTilCancelled,
    /// Eligible in the opening auction only.
    Open,
    /// Eligible in the closing auction only.
    Close,
    /// Immediate or cancel: any unfilled part is canceled.
    ImmediateOrCancel,
    /// Fill or kill: executed only if fully fillable.
    FillOrKill,
}

impl Default for TimeInForce {
    /// The default time in force is a day order.
    fn default() -> (r: Self)
        ensures
            r == TimeInForce::Day,
    {
        TimeInForce::Day
    }
}

impl TimeInForce {
    /// The wire token of the time in force.
    pub open spec fn spec_wire_name(&self) -> Seq<char> {
        match self {
            TimeInForce::Day => "day"@,
            TimeInForce::GoodTilCancelled => "gtc"@,
            TimeInForce::Open => "opg"@,
            TimeInForce::Close => "cls"@,
            TimeInForce::ImmediateOrCancel => "ioc"@,
            TimeInForce::FillOrKill => "fok"@,
        }
    }

    /// The wire token of the time in force.
    pub fn wire_name(&self) -> (r: &'static str)
        ensures
            r@ == self.spec_wire_name(),
    {
        match self {
            TimeInForce::Day => "day",
            TimeInForce::GoodTilCancelled => "gtc",
            TimeInForce::Open => "opg",
            TimeInForce::Close => "cls",
            TimeInForce::ImmediateOrCancel => "ioc",
            TimeInForce::FillOrKill => "fok",
        }
    }

    /// What a wire token means, the inverse of [`Self::wire_name`].
    pub open spec fn spec_from_wire(s: Seq<char>) -> Option<TimeInForce> {
        if s == "day"@ {
            Some(TimeInForce::Day)
        } else if s == "gtc"@ {
            Some(TimeInForce::GoodTilCancelled)
        } else if s == "opg"@ {
            Some(TimeInForce::Open)
        } else if s == "cls"@ {
            Some(TimeInForce::Close)
        } else if s == "ioc"@ {
            Some(TimeInForce::ImmediateOrCancel)
        } else if s == "fok"@ {
            Some(TimeInForce::FillOrKill)
        } else {
            None
        }
    }

    /// Reads a wire token.
    pub fn from_wire(s: &str) -> (r: Option<TimeInForce>)
        ensures
            r == Self::spec_from_wire(s@),
    {
        if crate::strutil::str_eq(s, "day") {
            Some(TimeInForce::Day)
        } else if crate::strutil::str_eq(s, "gtc") {
            Some(TimeInForce::GoodTilCancelled)
        } else if crate::strutil::str_eq(s, "opg") {
            Some(TimeInForce::Open)
        } else if crate::strutil::str_eq(s, "cls") {
            Some(TimeInForce::Close)
        } else if crate::strutil::str_eq(s, "ioc") {
            Some(TimeInForce::ImmediateOrCancel)
        } else if crate::strutil::str_eq(s, "fok") {
            Some(TimeInForce::FillOrKill)
        } else {
            None
        }
    }
}

/// The take-profit leg of a compound order.
#[derive(Clone, Copy, Debug, PartialEq, Eq, Structural)]
pub struct TakeProfitSpec {
    /// The price at which the take-profit leg executes.
    pub limit_price: Decimal,
}

/// The stop-loss leg of a compound order.
#[derive(Clone, Copy, Debug, PartialEq, Eq, Structural)]
pub struct StopLossSpec {
    /// The price at which the stop-loss leg executes.
    pub stop_price: Decimal,
    /// When set, the leg is sent as a stop-limit instead of a stop.
    pub limit_price: Option<Decimal>,
}

/// The single leg of a one-triggers-other order.
#[derive(Clone, Copy, Debug, PartialEq, Eq, Structural)]
pub enum OtoSpec {
    /// A take-profit leg.
    TakeProfit(TakeProfitSpec),
    /// A stop-loss leg.
    StopLoss(StopLossSpec),
}

/// The class of an order: simple, or one of the compound classes whose
/// legs ride along as sub-objects.
#[derive(Clone, Copy, Debug, PartialEq, Eq, Structural)]
pub enum OrderClass {
    /// A standalone order.
    Simple,
    /// Entry order plus take-profit and stop-loss exits.
    Bracket {
        /// The take-profit leg.
        take_profit: TakeProfitSpec,
        /// The stop-loss leg.
        stop_loss: StopLossSpec,
    },
    /// Take-profit and stop-loss exits for an existing position; one
    /// cancels the other.
    OneCancelsOther {
        /// The take-profit leg.
        take_profit: TakeProfitSpec,
        /// The stop-loss leg.
        stop_loss: StopLossSpec,
    },
    /// Entry order that triggers a single exit leg.
    OneTriggersOther {
        /// The exit leg.
        spec: OtoSpec,
    },
}

impl Default for OrderClass {
    /// The default order class is simple.
    fn default() -> (r: Self)
        ensures
            r == OrderClass::Simple,
    {
        OrderClass::Simple
    }
}

impl OrderClass {
    /// The `order_class` discriminator this class sends.
    pub open spec fn spec_tag(&self) -> Seq<char> {
        match self {
            OrderClass::Simple => "simple"@,
            OrderClass::Bracket { .. } => "bracket"@,
            OrderClass::OneCancelsOther { .. } => "onecancelsother"@,
            OrderClass::OneTriggersOther { .. } => "onetriggersother"@,
        }
    }

    /// All decimal amounts of the class lie within the codec's bounds.
    pub open spec fn spec_wf(&self) -> bool {
        match self {
            OrderClass::Simple => true,
            OrderClass::Bracket { take_profit, stop_loss } => take_profit.limit_price.wf()
                && spec_stop_loss_wf(*stop_loss),
            OrderClass::OneCancelsOther { take_profit, stop_loss } => take_profit.limit_price.wf()
                && spec_stop_loss_wf(*stop_loss),
            OrderClass::OneTriggersOther { spec } => match spec {
                OtoSpec::TakeProfit(tp) => tp.limit_price.wf(),
                OtoSpec::StopLoss(sl) => spec_stop_loss_wf(*sl),
            },
        }
    }

    /// Whether every decimal amount lies in the codec's bounds, decided
    /// executably.
    pub fn is_wf(&self) -> (r: bool)
        ensures
            r == self.spec_wf(),
    {
        match self {
            OrderClass::Simple => true,
            OrderClass::Bracket { take_profit, stop_loss } => take_profit.limit_price.is_wf()
                && stop_loss_is_wf(stop_loss),
            OrderClass::OneCancelsOther { take_profit, stop_loss } => take_profit.limit_price.is_wf()
                && stop_loss_is_wf(stop_loss),
            OrderClass::OneTriggersOther { spec } => match spec {
                OtoSpec::TakeProfit(tp) => tp.limit_price.is_wf(),
                OtoSpec::StopLoss(sl) => stop_loss_is_wf(sl),
            },
        }
    }
}

/// All decimal amounts of a stop-loss leg lie within the codec's bounds.
pub open spec fn spec_stop_loss_wf(sl: StopLossSpec) -> bool {
    sl.stop_price.wf() && (match sl.limit_price {
        Some(d) => d.wf(),
        None => true,
    })
}

/// Decides [`spec_stop_loss_wf`] executably.
pub fn stop_loss_is_wf(sl: &StopLossSpec) -> (r: bool)
    ensures
        r == spec_stop_loss_wf(*sl),
{
    sl.stop_price.is_wf() && (match &sl.limit_price {
        Some(d) => d.is_wf(),
        None => true,
    })
}

/// The lifecycle state of an order.
#[derive(Clone, Copy, Debug, PartialEq, Eq, Structural)]
pub enum OrderStatus {
    /// Received, not yet routed.
    Accepted,
    /// Received by exchanges, being priced.
    AcceptedForBidding,
    /// Done for the day with settlement pending.
    Calculated,
    /// Canceled.  Terminal.
    Canceled,
    /// Done executing for the day.  Terminal.
    DoneForDay,
    /// Expired.  Terminal.
    Expired,
    /// Filled.  Terminal.
    Filled,
    /// Routed for execution: the usual initial state.
    New,
    /// Partially filled.
    PartiallyFilled,
    /// Waiting to be canceled.
    PendingCancel,
    /// Routed but not yet accepted for execution.
    PendingNew,
    /// Waiting to be replaced.
    PendingReplace,
    /// Rejected.  Terminal.
    Rejected,
    /// Replaced by another order.  Terminal.
    Replaced,
    /// Trade guaranteed but not yet occurred.
    Stopped,
    /// Suspended, not eligible for trading.
    Suspended,
}

impl Default for OrderStatus {
    /// The default status is `New`.
    fn default() -> (r: Self)
        ensures
            r == OrderStatus::New,
    {
        OrderStatus::New
    }
}

impl OrderStatus {
    /// Whether the status is terminal: no further update will occur.
    /// Purely descriptive — the client never enforces transitions.
    pub fn is_terminal(&self) -> (r: bool)
        ensures
            r == (self is Filled || self is Canceled || self is Expired || self is Rejected
                || self is Replaced || self is DoneForDay),
    {
        match self {
            OrderStatus::Filled => true,
            OrderStatus::Canceled => true,
            OrderStatus::Expired => true,
            OrderStatus::Rejected => true,
            OrderStatus::Replaced => true,
            OrderStatus::DoneForDay => true,
            _ => false,
        }
    }

    /// What a wire token means.
    pub open spec fn spec_from_wire(s: Seq<char>) -> Option<OrderStatus> {
        if s == "accepted"@ {
            Some(OrderStatus::Accepted)
        } else if s == "accepted_for_bidding"@ {
            Some(OrderStatus::AcceptedForBidding)
        } else if s == "calculated"@ {
            Some(OrderStatus::Calculated)
        } else if s == "canceled"@ {
            Some(OrderStatus::Canceled)
        } else if s == "done_for_day"@ {
            Some(OrderStatus::DoneForDay)
        } else if s == "expired"@ {
            Some(OrderStatus::Expired)
        } else if s == "filled"@ {
            Some(OrderStatus::Filled)
        } else if s == "new"@ {
            Some(OrderStatus::New)
        } else if s == "partially_filled"@ {
            Some(OrderStatus::PartiallyFilled)
        } else if s == "pending_cancel"@ {
            Some(OrderStatus::PendingCancel)
        } else if s == "pending_new"@ {
            Some(OrderStatus::PendingNew)
        } else if s == "pending_replace"@ {
            Some(OrderStatus::PendingReplace)
        } else if s == "rejected"@ {
            Some(OrderStatus::Rejected)
        } else if s == "replaced"@ {
            Some(OrderStatus::Replaced)
        } else if s == "stopped"@ {
            Some(OrderStatus::Stopped)
        } else if s == "suspended"@ {
            Some(OrderStatus::Suspended)
        } else {
            None
        }
    }

    /// Reads a wire token.
    pub fn from_wire(s: &str) -> (r: Option<OrderStatus>)
        ensures
            r == Self::spec_from_wire(s@),
    {
        if crate::strutil::str_eq(s, "accepted") {
            Some(OrderStatus::Accepted)
        } else if crate::strutil::str_eq(s, "accepted_for_bidding") {
            Some(OrderStatus::AcceptedForBidding)
        } else if crate::strutil::str_eq(s, "calculated") {
            Some(OrderStatus::Calculated)
        } else if crate::strutil::str_eq(s, "canceled") {
            Some(OrderStatus::Canceled)
        } else if crate::strutil::str_eq(s, "done_for_day") {
            Some(OrderStatus::DoneForDay)
        } else if crate::strutil::str_eq(s, "expired") {
            Some(OrderStatus::Expired)
        } else if crate::strutil::str_eq(s, "filled") {
            Some(OrderStatus::Filled)
        } else if crate::strutil::str_eq(s, "new") {
            Some(OrderStatus::New)
        } else if crate::strutil::str_eq(s, "partially_filled") {
            Some(OrderStatus::PartiallyFilled)
        } else if crate::strutil::str_eq(s, "pending_cancel") {
            Some(OrderStatus::PendingCancel)
        } else if crate::strutil::str_eq(s, "pending_new") {
            Some(OrderStatus::PendingNew)
        } else if crate::strutil::str_eq(s, "pending_replace") {
            Some(OrderStatus::PendingReplace)
        } else if crate::strutil::str_eq(s, "rejected") {
            Some(OrderStatus::Rejected)
        } else if crate::strutil::str_eq(s, "replaced") {
            Some(OrderStatus::Replaced)
        } else if crate::strutil::str_eq(s, "stopped") {
            Some(OrderStatus::Stopped)
        } else if crate::strutil::str_eq(s, "suspended") {
            Some(OrderStatus::Suspended)
        } else {
            None
        }
    }
}

/// The side of an order.
#[derive(Clone, Copy, Debug, PartialEq, Eq, Structural)]
pub enum Side {
    /// Buy.
    Buy,
    /// Sell.
    Sell,
}

impl Default for Side {
    /// The default side is buy.
    fn default() -> (r: Self)
        ensures
            r == Side::Buy,
    {
        Side::Buy
    }
}

impl Side {
    /// The opposite side.
    pub fn neg(self) -> (r: Side)
        ensures
            self is Buy ==> r is Sell,
            self is Sell ==> r is Buy,
    {
        match self {
            Side::Buy => Side::Sell,
            Side::Sell => Side::Buy,
        }
    }

    /// The wire token of the side.
    pub open spec fn spec_wire_name(&self) -> Seq<char> {
        match self {
            Side::Buy => "buy"@,
            Side::Sell => "sell"@,
        }
    }

    /// The wire token of the side.
    pub fn wire_name(&self) -> (r: &'static str)
        ensures
            r@ == self.spec_wire_name(),
    {
        match self {
            Side::Buy => "buy",
            Side::Sell => "sell",
        }
    }

    /// What a wire token means.
    pub open spec fn spec_from_wire(s: Seq<char>) -> Option<Side> {
        if s == "buy"@ {
            Some(Side::Buy)
        } else if s == "sell"@ {
            Some(Side::Sell)
        } else {
            None
        }
    }

    /// Reads a wire token.
    pub fn from_wire(s: &str) -> (r: Option<Side>)
        ensures
            r == Self::spec_from_wire(s@),
    {
        if crate::strutil::str_eq(s, "buy") {
            Some(Side::Buy)
        } else if crate::strutil::str_eq(s, "sell") {
            Some(Side::Sell)
        } else {
            None
        }
    }
}

/// The `type` discriminator's token.
fn type_tag(ot: &OrderType) -> (r: &'static str)
    ensures
        r@ == ot.spec_tag(),
{
    match ot {
        OrderType::Market => "market",
        OrderType::Limit { .. } => "limit",
        OrderType::Stop { .. } => "stop",
        OrderType::StopLimit { .. } => "stop_limit",
        OrderType::TrailingStop { .. } => "trailing_stop",
    }
}

/// The flattened fields an order type contributes, the `type`
/// discriminator first.
pub open spec fn spec_type_fields(ot: OrderType) -> Seq<(Seq<char>, FieldValueView)> {
    let tag = seq![
        ("type"@, FieldValueView::Scalar(ScalarView::Str(ot.spec_tag()))),
    ];
    match ot {
        OrderType::Market => tag,
        OrderType::Limit { limit_price } => tag + seq![
            (
                "limit_price"@,
                FieldValueView::Scalar(ScalarView::Str(spec_decimal_text(limit_price))),
            ),
        ],
        OrderType::Stop { stop_price } => tag + seq![
            (
                "stop_price"@,
                FieldValueView::Scalar(ScalarView::Str(spec_decimal_text(stop_price))),
            ),
        ],
        OrderType::StopLimit { limit_price, stop_price } => tag + seq![
            (
                "limit_price"@,
                FieldValueView::Scalar(ScalarView::Str(spec_decimal_text(limit_price))),
            ),
            (
                "stop_price"@,
                FieldValueView::Scalar(ScalarView::Str(spec_decimal_text(stop_price))),
            ),
        ],
        OrderType::TrailingStop { trail_price, trail_percent } => tag + (match trail_price {
            Some(d) => seq![
                (
                    "trail_price"@,
                    FieldValueView::Scalar(ScalarView::Str(spec_decimal_text(d))),
                ),
            ],
            None => Seq::<(Seq<char>, FieldValueView)>::empty(),
        }) + (match trail_percent {
            Some(d) => seq![
                (
                    "trail_percent"@,
                    FieldValueView::Scalar(ScalarView::Str(spec_decimal_text(d))),
                ),
            ],
            None => Seq::<(Seq<char>, FieldValueView)>::empty(),
        }),
    }
}

/// The sub-object a take-profit leg sends.
pub open spec fn spec_take_profit_obj(tp: TakeProfitSpec) -> Seq<(Seq<char>, ScalarView)> {
    seq![("limit_price"@, ScalarView::Str(spec_decimal_text(tp.limit_price)))]
}

/// The sub-object a stop-loss leg sends: the limit price rides along
/// only when set.
pub open spec fn spec_stop_loss_obj(sl: StopLossSpec) -> Seq<(Seq<char>, ScalarView)> {
    let head = seq![("stop_price"@, ScalarView::Str(spec_decimal_text(sl.stop_price)))];
    match sl.limit_price {
        Some(p) => head + seq![("limit_price"@, ScalarView::Str(spec_decimal_text(p)))],
        None => head,
    }
}

/// The flattened fields an order class contributes, the `order_class`
/// discriminator first.
pub open spec fn spec_class_fields(oc: OrderClass) -> Seq<(Seq<char>, FieldValueView)> {
    let tag = seq![
        ("order_class"@, FieldValueView::Scalar(ScalarView::Str(oc.spec_tag()))),
    ];
    match oc {
        OrderClass::Simple => tag,
        OrderClass::Bracket { take_profit, stop_loss } => tag + seq![
            ("take_profit"@, FieldValueView::Obj(spec_take_profit_obj(take_profit))),
            ("stop_loss"@, FieldValueView::Obj(spec_stop_loss_obj(stop_loss))),
        ],
        OrderClass::OneCancelsOther { take_profit, stop_loss } => tag + seq![
            ("take_profit"@, FieldValueView::Obj(spec_take_profit_obj(take_profit))),
            ("stop_loss"@, FieldValueView::Obj(spec_stop_loss_obj(stop_loss))),
        ],
        OrderClass::OneTriggersOther { spec } => tag + (match spec {
            OtoSpec::TakeProfit(tp) => seq![
                (
                    "spec"@,
                    FieldValueView::Wrapped("TakeProfit"@, spec_take_profit_obj(tp)),
                ),
            ],
            OtoSpec::StopLoss(sl) => seq![
                ("spec"@, FieldValueView::Wrapped("StopLoss"@, spec_stop_loss_obj(sl))),
            ],
        }),
    }
}

/// Places a new order.
#[derive(Clone, Debug, PartialEq)]
pub struct SubmitOrder {
    /// Ticker symbol of the asset.
    pub symbol: String,
    /// Number of shares.
    pub qty: u64,
    /// Buy or sell.
    pub side: Side,
    /// The order type and its prices.
    pub order_type: OrderType,
    /// How long the order stays eligible.
    pub time_in_force: TimeInForce,
    /// Whether the order may execute outside regular hours.
    pub extended_hours: bool,
    /// Caller-chosen id; omitted when unset.
    pub client_order_id: Option<String>,
    /// The order class and its legs.
    pub order_class: OrderClass,
}

impl SubmitOrder {
    /// A new request: one share, buy, market, good until canceled,
    /// regular hours, simple class.
    pub fn new(symbol: &str) -> (r: SubmitOrder)
        ensures
            r.symbol@ == symbol@,
            r.qty == 1,
            r.side == Side::Buy,
            r.order_type == OrderType::Market,
            r.time_in_force == TimeInForce::GoodTilCancelled,
            r.extended_hours == false,
            r.client_order_id is None,
            r.order_class == OrderClass::Simple,
    {
        SubmitOrder {
            symbol: String::from_str(symbol),
            qty: 1,
            side: Side::Buy,
            order_type: OrderType::Market,
            time_in_force: TimeInForce::GoodTilCancelled,
            extended_hours: false,
            client_order_id: None,
            order_class: OrderClass::Simple,
        }
    }

    /// Sets the quantity.
    pub fn qty(self, qty: u64) -> (r: Self)
        ensures
            r == (SubmitOrder { qty, ..self }),
    {
        SubmitOrder { qty, ..self }
    }

    /// Sets the side.
    pub fn side(self, side: Side) -> (r: Self)
        ensures
            r == (SubmitOrder { side, ..self }),
    {
        SubmitOrder { side, ..self }
    }

    /// Sets the order type.
    pub fn order_type(self, order_type: OrderType) -> (r: Self)
        ensures
            r == (SubmitOrder { order_type, ..self }),
    {
        SubmitOrder { order_type, ..self }
    }

    /// Sets the time in force.
    pub fn time_in_force(self, time_in_force: TimeInForce) -> (r: Self)
        ensures
            r == (SubmitOrder { time_in_force, ..self }),
    {
        SubmitOrder { time_in_force, ..self }
    }

    /// Sets eligibility outside regular hours.
    pub fn extended_hours(self, extended_hours: bool) -> (r: Self)
        ensures
            r == (SubmitOrder { extended_hours, ..self }),
    {
        SubmitOrder { extended_hours, ..self }
    }

    /// Sets the client order id.
    pub fn client_order_id(self, client_order_id: &str) -> (r: Self)
        ensures
            r.client_order_id matches Some(c) && c@ == client_order_id@,
            r == (SubmitOrder { client_order_id: r.client_order_id, ..self }),
    {
        SubmitOrder { client_order_id: Some(String::from_str(client_order_id)), ..self }
    }

    /// Sets the order class.
    pub fn order_class(self, order_class: OrderClass) -> (r: Self)
        ensures
            r == (SubmitOrder { order_class, ..self }),
    {
        SubmitOrder { order_class, ..self }
    }

    /// All decimal amounts of the request lie within the codec's bounds.
    pub open spec fn spec_wf(&self) -> bool {
        self.order_type.spec_wf() && self.order_class.spec_wf()
    }

    /// Decides [`Self::spec_wf`] executably, so an unverified caller can
    /// test it before encoding.
    pub fn is_wf(&self) -> (r: bool)
        ensures
            r == self.spec_wf(),
    {
        self.order_type.is_wf() && self.order_class.is_wf()
    }

    /// The fields of the request body, in wire order: the base fields,
    /// the order type's fields flattened in, then the order class's.
    pub open spec fn spec_fields(&self) -> Seq<(Seq<char>, FieldValueView)> {
        seq![
            ("symbol"@, FieldValueView::Scalar(ScalarView::Str(self.symbol@))),
            ("qty"@, FieldValueView::Scalar(ScalarView::Str(uint_chars(self.qty as nat)))),
            ("side"@, FieldValueView::Scalar(ScalarView::Str(self.side.spec_wire_name()))),
        ] + spec_type_fields(self.order_type) + seq![
            (
                "time_in_force"@,
                FieldValueView::Scalar(ScalarView::Str(self.time_in_force.spec_wire_name())),
            ),
            ("extended_hours"@, FieldValueView::Scalar(ScalarView::Bool(self.extended_hours))),
        ] + (match self.client_order_id {
            Some(c) => seq![
                ("client_order_id"@, FieldValueView::Scalar(ScalarView::Str(c@))),
            ],
            None => Seq::<(Seq<char>, FieldValueView)>::empty(),
        }) + spec_class_fields(self.order_class)
    }

    /// Encodes the request body, validating the trailing-stop rule
    /// first: an invalid trailing stop is refused as a validation error
    /// before any request is sent, never silently defaulted.
    pub fn encode(&self) -> (r: Result<String, ApiError>)
        requires
            self.spec_wf(),
        ensures
            r matches Ok(text) ==> self.order_type.spec_valid() && (exists|
                fs: Seq<(String, FieldValue)>,
            |
                fields_view(fs) == self.spec_fields() && text@ == spec_body_text(fs)),
            r is Ok <==> self.order_type.spec_valid(),
            r matches Err(e) ==> (e matches ApiError::Validation { field } && field@
                == "trail"@),
    {
        let valid = match &self.order_type {
            OrderType::TrailingStop { trail_price, trail_percent } => {
                (trail_price.is_some() && trail_percent.is_none()) || (trail_price.is_none()
                    && trail_percent.is_some())
            },
            _ => true,
        };
        if !valid {
            return Err(ApiError::Validation { field: String::from_str("trail") });
        }
        let fs = self.body_fields();
        let text = crate::body::render_body(&fs);
        Ok(text)
    }

    /// Builds the request body's fields.
    fn body_fields(&self) -> (fs: Vec<(String, FieldValue)>)
        requires
            self.spec_wf(),
        ensures
            fields_view(fs@) == self.spec_fields(),
    {
        let mut fs: Vec<(String, FieldValue)> = Vec::new();
        push_field(
            &mut fs,
            "symbol",
            FieldValue::Scalar(Scalar::Str(self.symbol.clone())),
        );
        let mut qty_text = String::new();
        crate::strutil::push_uint(&mut qty_text, self.qty as u128);
        proof {
            assert(qty_text@ =~= uint_chars(self.qty as nat));
        }
        push_field(&mut fs, "qty", FieldValue::Scalar(Scalar::Str(qty_text)));
        push_field(
            &mut fs,
            "side",
            FieldValue::Scalar(Scalar::Str(String::from_str(self.side.wire_name()))),
        );
        let ghost base = fields_view(fs@);
        push_type_fields(&mut fs, &self.order_type);
        push_field(
            &mut fs,
            "time_in_force",
            FieldValue::Scalar(Scalar::Str(String::from_str(self.time_in_force.wire_name()))),
        );
        push_field(
            &mut fs,
            "extended_hours",
            FieldValue::Scalar(Scalar::Bool(self.extended_hours)),
        );
        match &self.client_order_id {
            Some(c) => push_field(
                &mut fs,
                "client_order_id",
                FieldValue::Scalar(Scalar::Str(c.clone())),
            ),
            None => {},
        }
        push_class_fields(&mut fs, &self.order_class);
        proof {
            assert(fields_view(fs@) =~= self.spec_fields());
        }
        fs
    }

    /// The path of the order-placement endpoint.
    pub fn endpoint(&self) -> (r: String)
        ensures
            r@ == "/v2/orders"@,
    {
        String::from_str("/v2/orders")
    }

    /// The method of the order-placement endpoint.
    pub fn method(&self) -> (r: Method)
        ensures
            r == Method::Post,
    {
        Method::Post
    }
}

/// A scalar holding a decimal's wire token.
fn decimal_scalar(d: &Decimal) -> (r: Scalar)
    requires
        d.wf(),
    ensures
        r@ == ScalarView::Str(spec_decimal_text(*d)),
{
    Scalar::Str(format_decimal(d))
}

/// Appends the flattened fields of an order type.
fn push_type_fields(fs: &mut Vec<(String, FieldValue)>, ot: &OrderType)
    requires
        ot.spec_wf(),
    ensures
        fields_view(final(fs)@) == fields_view(old(fs)@) + spec_type_fields(*ot),
{
    push_field(fs, "type", FieldValue::Scalar(Scalar::Str(String::from_str(type_tag(ot)))));
    match ot {
        OrderType::Market => {},
        OrderType::Limit { limit_price } => {
            push_field(fs, "limit_price", FieldValue::Scalar(decimal_scalar(limit_price)));
        },
        OrderType::Stop { stop_price } => {
            push_field(fs, "stop_price", FieldValue::Scalar(decimal_scalar(stop_price)));
        },
        OrderType::StopLimit { limit_price, stop_price } => {
            push_field(fs, "limit_price", FieldValue::Scalar(decimal_scalar(limit_price)));
            push_field(fs, "stop_price", FieldValue::Scalar(decimal_scalar(stop_price)));
        },
        OrderType::TrailingStop { trail_price, trail_percent } => {
            match trail_price {
                Some(d) => push_field(fs, "trail_price", FieldValue::Scalar(decimal_scalar(d))),
                None => {},
            }
            match trail_percent {
                Some(d) => push_field(fs, "trail_percent", FieldValue::Scalar(decimal_scalar(d))),
                None => {},
            }
        },
    }
    proof {
        assert(fields_view(final(fs)@) =~= fields_view(old(fs)@) + spec_type_fields(*ot));
    }
}

/// The sub-object of a take-profit leg.
fn take_profit_obj(tp: &TakeProfitSpec) -> (r: Vec<(String, Scalar)>)
    requires
        tp.limit_price.wf(),
    ensures
        crate::body::obj_fields_view(r@) == spec_take_profit_obj(*tp),
{
    let mut obj: Vec<(String, Scalar)> = Vec::new();
    obj.push((String::from_str("limit_price"), decimal_scalar(&tp.limit_price)));
    proof {
        assert(crate::body::obj_fields_view(obj@) =~= spec_take_profit_obj(*tp));
    }
    obj
}

/// The sub-object of a stop-loss leg.
fn stop_loss_obj(sl: &StopLossSpec) -> (r: Vec<(String, Scalar)>)
    requires
        spec_stop_loss_wf(*sl),
    ensures
        crate::body::obj_fields_view(r@) == spec_stop_loss_obj(*sl),
{
    let mut obj: Vec<(String, Scalar)> = Vec::new();
    obj.push((String::from_str("stop_price"), decimal_scalar(&sl.stop_price)));
    match &sl.limit_price {
        Some(p) => {
            obj.push((String::from_str("limit_price"), decimal_scalar(p)));
        },
        None => {},
    }
    proof {
        assert(crate::body::obj_fields_view(obj@) =~= spec_stop_loss_obj(*sl));
    }
    obj
}

/// Appends the flattened fields of an order class.
fn push_class_fields(fs: &mut Vec<(String, FieldValue)>, oc: &OrderClass)
    requires
        oc.spec_wf(),
    ensures
        fields_view(final(fs)@) == fields_view(old(fs)@) + spec_class_fields(*oc),
{
    let tag = match oc {
        OrderClass::Simple => "simple",
        OrderClass::Bracket { .. } => "bracket",
        OrderClass::OneCancelsOther { .. } => "onecancelsother",
        OrderClass::OneTriggersOther { .. } => "onetriggersother",
    };
    proof {
        assert(tag@ == oc.spec_tag());
    }
    push_field(fs, "order_class", FieldValue::Scalar(Scalar::Str(String::from_str(tag))));
    match oc {
        OrderClass::Simple => {},
        OrderClass::Bracket { take_profit, stop_loss } => {
            push_field(fs, "take_profit", FieldValue::Obj(take_profit_obj(take_profit)));
            push_field(fs, "stop_loss", FieldValue::Obj(stop_loss_obj(stop_loss)));
        },
        OrderClass::OneCancelsOther { take_profit, stop_loss } => {
            push_field(fs, "take_profit", FieldValue::Obj(take_profit_obj(take_profit)));
            push_field(fs, "stop_loss", FieldValue::Obj(stop_loss_obj(stop_loss)));
        },
        OrderClass::OneTriggersOther { spec } => match spec {
            OtoSpec::TakeProfit(tp) => {
                push_field(
                    fs,
                    "spec",
                    FieldValue::Wrapped(String::from_str("TakeProfit"), take_profit_obj(tp)),
                );
            },
            OtoSpec::StopLoss(sl) => {
                push_field(
                    fs,
                    "spec",
                    FieldValue::Wrapped(String::from_str("StopLoss"), stop_loss_obj(sl)),
                );
            },
        },
    }
    proof {
        assert(fields_view(final(fs)@) =~= fields_view(old(fs)@) + spec_class_fields(*oc));
    }
}

/// An order as the API reports it.
#[derive(Debug)]
pub struct Order {
    /// Order id.
    pub id: u128,
    /// Caller-chosen order id.
    pub client_order_id: String,
    /// When the order was created.
    pub created_at: Timestamp,
    /// When the order was last updated.
    pub updated_at: Option<Timestamp>,
    /// When the order was submitted.
    pub submitted_at: Option<Timestamp>,
    /// When the order was filled.
    pub filled_at: Option<Timestamp>,
    /// When the order expired.
    pub expired_at: Option<Timestamp>,
    /// When the order was canceled.
    pub canceled_at: Option<Timestamp>,
    /// When the order failed.
    pub failed_at: Option<Timestamp>,
    /// When the order was replaced.
    pub replaced_at: Option<Timestamp>,
    /// Id of the order that replaced this one.
    pub replaced_by: Option<u128>,
    /// Id of the order this one replaces.
    pub replaces: Option<u128>,
    /// Asset id.
    pub asset_id: u128,
    /// Asset symbol.
    pub symbol: String,
    /// Asset class.
    pub asset_class: crate::common::AssetClass,
    /// Ordered quantity.
    pub qty: u64,
    /// Filled quantity.
    pub filled_qty: u64,
    /// Average fill price.
    pub filled_avg_price: Option<Decimal>,
    /// The order type and its prices.
    pub order_type: OrderType,
    /// Buy or sell.
    pub side: Side,
    /// How long the order stays eligible.
    pub time_in_force: TimeInForce,
    /// Lifecycle state.
    pub status: OrderStatus,
    /// Whether the order may execute outside regular hours.
    pub extended_hours: bool,
    /// Child orders of a compound class, present under a nested query.
    pub legs: Option<Vec<Order>>,
    /// Percent offset of a trailing stop.
    pub trail_percent: Option<Decimal>,
    /// Price offset of a trailing stop.
    pub trail_price: Option<Decimal>,
    /// High-water mark of a trailing stop.
    pub hwm: Option<Decimal>,
}

/// The order type a payload's flattened fields spell, read off the
/// `type` discriminator.
pub open spec fn spec_order_type_of(fields: Seq<(String, crate::json::JsonValue)>) -> Option<
    OrderType,
> {
    match crate::codec::str_field(fields, "type"@) {
        Some(tag) => {
            if tag == "market"@ {
                Some(OrderType::Market)
            } else if tag == "limit"@ {
                match crate::codec::lenient_decimal_field(fields, "limit_price"@) {
                    Some(d) => Some(OrderType::Limit { limit_price: d }),
                    None => None,
                }
            } else if tag == "stop"@ {
                match crate::codec::lenient_decimal_field(fields, "stop_price"@) {
                    Some(d) => Some(OrderType::Stop { stop_price: d }),
                    None => None,
                }
            } else if tag == "stop_limit"@ {
                match (
                    crate::codec::lenient_decimal_field(fields, "limit_price"@),
                    crate::codec::lenient_decimal_field(fields, "stop_price"@),
                ) {
                    (Some(l), Some(s)) => Some(OrderType::StopLimit {
                        limit_price: l,
                        stop_price: s,
                    }),
                    _ => None,
                }
            } else if tag == "trailing_stop"@ {
                match (
                    crate::codec::opt_lenient_decimal_field(fields, "trail_price"@),
                    crate::codec::opt_lenient_decimal_field(fields, "trail_percent"@),
                ) {
                    (Some(p), Some(c)) => Some(OrderType::TrailingStop {
                        trail_price: p,
                        trail_percent: c,
                    }),
                    _ => None,
                }
            } else {
                None
            }
        },
        None => None,
    }
}

/// Whether every field of an order payload other than `legs` decodes.
/// Fields that are optional read absence — or `null` — as nothing; the
/// quantities hold the strict-string profile and the prices the lenient
/// one.
pub open spec fn spec_order_base_ok(fields: Seq<(String, crate::json::JsonValue)>) -> bool {
    &&& crate::codec::uuid_field(fields, "id"@) is Some
    &&& crate::codec::str_field(fields, "client_order_id"@) is Some
    &&& crate::codec::timestamp_field(fields, "created_at"@) is Some
    &&& crate::codec::opt_timestamp_field(fields, "updated_at"@) is Some
    &&& crate::codec::opt_timestamp_field(fields, "submitted_at"@) is Some
    &&& crate::codec::opt_timestamp_field(fields, "filled_at"@) is Some
    &&& crate::codec::opt_timestamp_field(fields, "expired_at"@) is Some
    &&& crate::codec::opt_timestamp_field(fields, "canceled_at"@) is Some
    &&& crate::codec::opt_timestamp_field(fields, "failed_at"@) is Some
    &&& crate::codec::opt_timestamp_field(fields, "replaced_at"@) is Some
    &&& crate::codec::opt_uuid_field(fields, "replaced_by"@) is Some
    &&& crate::codec::opt_uuid_field(fields, "replaces"@) is Some
    &&& crate::codec::uuid_field(fields, "asset_id"@) is Some
    &&& crate::codec::str_field(fields, "symbol"@) is Some
    &&& (match crate::codec::str_field(fields, "asset_class"@) {
        Some(s) => crate::common::AssetClass::spec_from_wire(s) is Some,
        None => false,
    })
    &&& crate::codec::strict_qty_field(fields, "qty"@) is Some
    &&& crate::codec::strict_qty_field(fields, "filled_qty"@) is Some
    &&& crate::codec::opt_lenient_decimal_field(fields, "filled_avg_price"@) is Some
    &&& spec_order_type_of(fields) is Some
    &&& (match crate::codec::str_field(fields, "side"@) {
        Some(s) => Side::spec_from_wire(s) is Some,
        None => false,
    })
    &&& (match crate::codec::str_field(fields, "time_in_force"@) {
        Some(s) => TimeInForce::spec_from_wire(s) is Some,
        None => false,
    })
    &&& (match crate::codec::str_field(fields, "status"@) {
        Some(s) => OrderStatus::spec_from_wire(s) is Some,
        None => false,
    })
    &&& crate::codec::bool_field(fields, "extended_hours"@) is Some
    &&& crate::codec::opt_lenient_decimal_field(fields, "trail_percent"@) is Some
    &&& crate::codec::opt_lenient_decimal_field(fields, "trail_price"@) is Some
    &&& crate::codec::opt_lenient_decimal_field(fields, "hwm"@) is Some
}

/// What each decoded field of an order holds, `legs` aside.
pub open spec fn spec_order_base_matches(
    fields: Seq<(String, crate::json::JsonValue)>,
    o: Order,
) -> bool {
    &&& crate::codec::uuid_field(fields, "id"@) == Some(o.id)
    &&& crate::codec::str_field(fields, "client_order_id"@) == Some(o.client_order_id@)
    &&& crate::codec::timestamp_field(fields, "created_at"@) == Some(o.created_at)
    &&& crate::codec::opt_timestamp_field(fields, "updated_at"@) == Some(o.updated_at)
    &&& crate::codec::opt_timestamp_field(fields, "submitted_at"@) == Some(o.submitted_at)
    &&& crate::codec::opt_timestamp_field(fields, "filled_at"@) == Some(o.filled_at)
    &&& crate::codec::opt_timestamp_field(fields, "expired_at"@) == Some(o.expired_at)
    &&& crate::codec::opt_timestamp_field(fields, "canceled_at"@) == Some(o.canceled_at)
    &&& crate::codec::opt_timestamp_field(fields, "failed_at"@) == Some(o.failed_at)
    &&& crate::codec::opt_timestamp_field(fields, "replaced_at"@) == Some(o.replaced_at)
    &&& crate::codec::opt_uuid_field(fields, "replaced_by"@) == Some(o.replaced_by)
    &&& crate::codec::opt_uuid_field(fields, "replaces"@) == Some(o.replaces)
    &&& crate::codec::uuid_field(fields, "asset_id"@) == Some(o.asset_id)
    &&& crate::codec::str_field(fields, "symbol"@) == Some(o.symbol@)
    &&& (match crate::codec::str_field(fields, "asset_class"@) {
        Some(s) => crate::common::AssetClass::spec_from_wire(s) == Some(o.asset_class),
        None => false,
    })
    &&& crate::codec::strict_qty_field(fields, "qty"@) == Some(o.qty)
    &&& crate::codec::strict_qty_field(fields, "filled_qty"@) == Some(o.filled_qty)
    &&& crate::codec::opt_lenient_decimal_field(fields, "filled_avg_price"@) == Some(
        o.filled_avg_price,
    )
    &&& spec_order_type_of(fields) == Some(o.order_type)
    &&& (match crate::codec::str_field(fields, "side"@) {
        Some(s) => Side::spec_from_wire(s) == Some(o.side),
        None => false,
    })
    &&& (match crate::codec::str_field(fields, "time_in_force"@) {
        Some(s) => TimeInForce::spec_from_wire(s) == Some(o.time_in_force),
        None => false,
    })
    &&& (match crate::codec::str_field(fields, "status"@) {
        Some(s) => OrderStatus::spec_from_wire(s) == Some(o.status),
        None => false,
    })
    &&& crate::codec::bool_field(fields, "extended_hours"@) == Some(o.extended_hours)
    &&& crate::codec::opt_lenient_decimal_field(fields, "trail_percent"@) == Some(o.trail_percent)
    &&& crate::codec::opt_lenient_decimal_field(fields, "trail_price"@) == Some(o.trail_price)
    &&& crate::codec::opt_lenient_decimal_field(fields, "hwm"@) == Some(o.hwm)
}

/// Whether a child order's payload decodes: everything of an order, with
/// no legs of its own.  The rollup is one level deep: only the primary
/// order of a compound class carries legs, and a leg's own `legs` field
/// must be absent or `null`.
pub open spec fn spec_leg_ok(v: crate::json::JsonValue) -> bool {
    match v {
        crate::json::JsonValue::Obj(fields) => spec_order_base_ok(fields@) && (match crate::json::spec_get(
            fields@,
            "legs"@,
        ) {
            Some(crate::json::JsonValue::Null) => true,
            None => true,
            _ => false,
        }),
        _ => false,
    }
}

/// Whether an order payload decodes, legs included.
pub open spec fn spec_order_ok(v: crate::json::JsonValue) -> bool {
    match v {
        crate::json::JsonValue::Obj(fields) => spec_order_base_ok(fields@) && (match crate::json::spec_get(
            fields@,
            "legs"@,
        ) {
            Some(crate::json::JsonValue::Null) => true,
            None => true,
            Some(crate::json::JsonValue::Arr(items)) => forall|i: int|
                0 <= i < items@.len() ==> spec_leg_ok(#[trigger] items@[i]),
            _ => false,
        }),
        _ => false,
    }
}

/// What a decoded child order holds.
pub open spec fn spec_leg_matches(v: crate::json::JsonValue, o: Order) -> bool {
    match v {
        crate::json::JsonValue::Obj(fields) => spec_order_base_matches(fields@, o)
            && o.legs is None,
        _ => false,
    }
}

/// What a decoded order holds, legs included.
pub open spec fn spec_order_matches(v: crate::json::JsonValue, o: Order) -> bool {
    match v {
        crate::json::JsonValue::Obj(fields) => spec_order_base_matches(fields@, o) && (match crate::json::spec_get(
            fields@,
            "legs"@,
        ) {
            Some(crate::json::JsonValue::Null) => o.legs is None,
            None => o.legs is None,
            Some(crate::json::JsonValue::Arr(items)) => (match o.legs {
                Some(l) => l@.len() == items@.len() && (forall|i: int|
                    0 <= i < items@.len() ==> spec_leg_matches(
                        #[trigger] items@[i],
                        l@[i],
                    )),
                None => false,
            }),
            _ => false,
        }),
        _ => false,
    }
}

/// Decodes the fields of an order other than `legs`.
fn decode_order_base(fields: &Vec<(String, crate::json::JsonValue)>) -> (r: Result<
    Order,
    crate::error::DecodeError,
>)
    ensures
        r is Ok <==> spec_order_base_ok(fields@),
        r matches Ok(o) ==> spec_order_base_matches(fields@, o) && o.legs is None,
{
    let id = crate::codec::req_uuid(fields, "id")?;
    let client_order_id = crate::codec::req_str(fields, "client_order_id")?;
    let created_at = crate::codec::req_timestamp(fields, "created_at")?;
    let updated_at = crate::codec::opt_timestamp(fields, "updated_at")?;
    let submitted_at = crate::codec::opt_timestamp(fields, "submitted_at")?;
    let filled_at = crate::codec::opt_timestamp(fields, "filled_at")?;
    let expired_at = crate::codec::opt_timestamp(fields, "expired_at")?;
    let canceled_at = crate::codec::opt_timestamp(fields, "canceled_at")?;
    let failed_at = crate::codec::opt_timestamp(fields, "failed_at")?;
    let replaced_at = crate::codec::opt_timestamp(fields, "replaced_at")?;
    let replaced_by = crate::codec::opt_uuid(fields, "replaced_by")?;
    let replaces = crate::codec::opt_uuid(fields, "replaces")?;
    let asset_id = crate::codec::req_uuid(fields, "asset_id")?;
    let symbol = crate::codec::req_str(fields, "symbol")?;
    let class_token = crate::codec::req_str(fields, "asset_class")?;
    let asset_class = match crate::common::AssetClass::from_wire(class_token.as_str()) {
        Some(c) => c,
        None => {
            return Err(
                crate::error::DecodeError {
                    field: String::from_str("asset_class"),
                    value: class_token,
                },
            );
        },
    };
    let qty = crate::codec::req_qty_strict(fields, "qty")?;
    let filled_qty = crate::codec::req_qty_strict(fields, "filled_qty")?;
    let filled_avg_price = crate::codec::opt_decimal_lenient(fields, "filled_avg_price")?;
    let order_type = decode_order_type(fields)?;
    let side_token = crate::codec::req_str(fields, "side")?;
    let side = match Side::from_wire(side_token.as_str()) {
        Some(s) => s,
        None => {
            return Err(
                crate::error::DecodeError { field: String::from_str("side"), value: side_token },
            );
        },
    };
    let tif_token = crate::codec::req_str(fields, "time_in_force")?;
    let time_in_force = match TimeInForce::from_wire(tif_token.as_str()) {
        Some(t) => t,
        None => {
            return Err(
                crate::error::DecodeError {
                    field: String::from_str("time_in_force"),
                    value: tif_token,
                },
            );
        },
    };
    let status_token = crate::codec::req_str(fields, "status")?;
    let status = match OrderStatus::from_wire(status_token.as_str()) {
        Some(s) => s,
        None => {
            return Err(
                crate::error::DecodeError {
                    field: String::from_str("status"),
                    value: status_token,
                },
            );
        },
    };
    let extended_hours = crate::codec::req_bool(fields, "extended_hours")?;
    let trail_percent = crate::codec::opt_decimal_lenient(fields, "trail_percent")?;
    let trail_price = crate::codec::opt_decimal_lenient(fields, "trail_price")?;
    let hwm = crate::codec::opt_decimal_lenient(fields, "hwm")?;
    Ok(
        Order {
            id,
            client_order_id,
            created_at,
            updated_at,
            submitted_at,
            filled_at,
            expired_at,
            canceled_at,
            failed_at,
            replaced_at,
            replaced_by,
            replaces,
            asset_id,
            symbol,
            asset_class,
            qty,
            filled_qty,
            filled_avg_price,
            order_type,
            side,
            time_in_force,
            status,
            extended_hours,
            legs: None,
            trail_percent,
            trail_price,
            hwm,
        },
    )
}

/// Decodes the flattened order-type fields.
fn decode_order_type(fields: &Vec<(String, crate::json::JsonValue)>) -> (r: Result<
    OrderType,
    crate::error::DecodeError,
>)
    ensures
        r is Ok <==> spec_order_type_of(fields@) is Some,
        r matches Ok(ot) ==> spec_order_type_of(fields@) == Some(ot),
{
    let tag = crate::codec::req_str(fields, "type")?;
    if crate::strutil::str_eq(tag.as_str(), "market") {
        Ok(OrderType::Market)
    } else if crate::strutil::str_eq(tag.as_str(), "limit") {
        let limit_price = crate::codec::req_decimal_lenient(fields, "limit_price")?;
        Ok(OrderType::Limit { limit_price })
    } else if crate::strutil::str_eq(tag.as_str(), "stop") {
        let stop_price = crate::codec::req_decimal_lenient(fields, "stop_price")?;
        Ok(OrderType::Stop { stop_price })
    } else if crate::strutil::str_eq(tag.as_str(), "stop_limit") {
        let limit_price = crate::codec::req_decimal_lenient(fields, "limit_price")?;
        let stop_price = crate::codec::req_decimal_lenient(fields, "stop_price")?;
        Ok(OrderType::StopLimit { limit_price, stop_price })
    } else if crate::strutil::str_eq(tag.as_str(), "trailing_stop") {
        let trail_price = crate::codec::opt_decimal_lenient(fields, "trail_price")?;
        let trail_percent = crate::codec::opt_decimal_lenient(fields, "trail_percent")?;
        Ok(OrderType::TrailingStop { trail_price, trail_percent })
    } else {
        Err(crate::error::DecodeError { field: String::from_str("type"), value: tag })
    }
}

/// Decodes an order payload, rolling up one level of legs.
#[verifier::loop_isolation(false)]
pub fn decode_order(v: &crate::json::JsonValue) -> (r: Result<Order, crate::error::DecodeError>)
    ensures
        r is Ok <==> spec_order_ok(*v),
        r matches Ok(o) ==> spec_order_matches(*v, o),
{
    let fields = match v {
        crate::json::JsonValue::Obj(fields) => fields,
        _ => {
            return Err(
                crate::error::DecodeError {
                    field: String::from_str("order"),
                    value: crate::json::raw_token(v),
                },
            );
        },
    };
    let mut order = decode_order_base(fields)?;
    match crate::json::obj_get(fields, "legs") {
        None => Ok(order),
        Some(crate::json::JsonValue::Null) => Ok(order),
        Some(crate::json::JsonValue::Arr(items)) => {
            let mut legs: Vec<Order> = Vec::new();
            let n = items.len();
            let mut i: usize = 0;
            while i < n
                invariant
                    i <= n,
                    n == items@.len(),
                    legs@.len() == i,
                    forall|j: int| 0 <= j < i ==> spec_leg_matches(items@[j], legs@[j]),
                    forall|j: int| 0 <= j < i ==> spec_leg_ok(#[trigger] items@[j]),
                decreases n - i,
            {
                let leg = decode_leg(&items[i])?;
                legs.push(leg);
                i = i + 1;
            }
            order.legs = Some(legs);
            Ok(order)
        },
        Some(other) => Err(
            crate::error::DecodeError {
                field: String::from_str("legs"),
                value: crate::json::raw_token(other),
            },
        ),
    }
}

/// Decodes a child order: an order whose own `legs` is absent or `null`.
fn decode_leg(v: &crate::json::JsonValue) -> (r: Result<Order, crate::error::DecodeError>)
    ensures
        r is Ok <==> spec_leg_ok(*v),
        r matches Ok(o) ==> spec_leg_matches(*v, o),
{
    let fields = match v {
        crate::json::JsonValue::Obj(fields) => fields,
        _ => {
            return Err(
                crate::error::DecodeError {
                    field: String::from_str("legs"),
                    value: crate::json::raw_token(v),
                },
            );
        },
    };
    let order = decode_order_base(fields)?;
    match crate::json::obj_get(fields, "legs") {
        None => Ok(order),
        Some(crate::json::JsonValue::Null) => Ok(order),
        Some(other) => Err(
            crate::error::DecodeError {
                field: String::from_str("legs"),
                value: crate::json::raw_token(other),
            },
        ),
    }
}

/// Decodes a list of orders, as the listing and cancel-all endpoints
/// answer.
#[verifier::loop_isolation(false)]
pub fn decode_orders(v: &crate::json::JsonValue) -> (r: Result<
    Vec<Order>,
    crate::error::DecodeError,
>)
    ensures
        r is Ok <==> (v matches crate::json::JsonValue::Arr(items) && (forall|i: int|
            0 <= i < items@.len() ==> spec_order_ok(#[trigger] items@[i]))),
        r matches Ok(os) ==> (v matches crate::json::JsonValue::Arr(items) && os@.len()
            == items@.len() && (forall|i: int|
            0 <= i < items@.len() ==> spec_order_matches(#[trigger] items@[i], os@[i]))),
{
    let items = match v {
        crate::json::JsonValue::Arr(items) => items,
        _ => {
            return Err(
                crate::error::DecodeError {
                    field: String::from_str("orders"),
                    value: crate::json::raw_token(v),
                },
            );
        },
    };
    let mut out: Vec<Order> = Vec::new();
    let n = items.len();
    let mut i: usize = 0;
    while i < n
        invariant
            i <= n,
            n == items@.len(),
            out@.len() == i,
            forall|j: int| 0 <= j < i ==> spec_order_matches(items@[j], out@[j]),
            forall|j: int| 0 <= j < i ==> spec_order_ok(#[trigger] items@[j]),
        decreases n - i,
    {
        let o = decode_order(&items[i])?;
        out.push(o);
        i = i + 1;
    }
    Ok(out)
}

/// Which orders a listing returns.
#[derive(Clone, Copy, Debug, PartialEq, Eq, Structural)]
pub enum QueryOrderStatus {
    /// Only active orders.
    Open,
    /// Only inactive orders.
    Closed,
    /// Both.
    All,
}

impl QueryOrderStatus {
    /// The wire token of the filter.
    pub open spec fn spec_wire_name(&self) -> Seq<char> {
        match self {
            QueryOrderStatus::Open => "open"@,
            QueryOrderStatus::Closed => "closed"@,
            QueryOrderStatus::All => "all"@,
        }
    }

    /// The wire token of the filter.
    pub fn wire_name(&self) -> (r: &'static str)
        ensures
            r@ == self.spec_wire_name(),
    {
        match self {
            QueryOrderStatus::Open => "open",
            QueryOrderStatus::Closed => "closed",
            QueryOrderStatus::All => "all",
        }
    }
}

/// Lists orders, filtered by the query parameters.
#[derive(Clone, Debug, Default)]
pub struct GetOrders {
    /// Filter on order activity.
    pub status: Option<QueryOrderStatus>,
    /// Most orders to return.
    pub limit: Option<u64>,
    /// Only orders submitted after this instant.
    pub after: Option<Timestamp>,
    /// Only orders submitted until this instant.
    pub until: Option<Timestamp>,
    /// Sort direction; sent as `direction`.
    pub sort: Option<crate::common::Sort>,
    /// Whether compound orders roll their legs up.
    pub nested: Option<bool>,
    /// Only these symbols.
    pub symbols: Option<Vec<String>>,
}

impl GetOrders {
    /// A new request with no filters.
    pub fn new() -> (r: GetOrders)
        ensures
            r.status is None,
            r.limit is None,
            r.after is None,
            r.until is None,
            r.sort is None,
            r.nested is None,
            r.symbols is None,
    {
        GetOrders {
            status: None,
            limit: None,
            after: None,
            until: None,
            sort: None,
            nested: None,
            symbols: None,
        }
    }

    /// Sets the activity filter.
    pub fn status(self, status: QueryOrderStatus) -> (r: Self)
        ensures
            r == (GetOrders { status: Some(status), ..self }),
    {
        GetOrders { status: Some(status), ..self }
    }

    /// Sets the most orders to return.
    pub fn limit(self, limit: u64) -> (r: Self)
        ensures
            r == (GetOrders { limit: Some(limit), ..self }),
    {
        GetOrders { limit: Some(limit), ..self }
    }

    /// Only orders submitted after this instant.
    pub fn after(self, after: Timestamp) -> (r: Self)
        ensures
            r == (GetOrders { after: Some(after), ..self }),
    {
        GetOrders { after: Some(after), ..self }
    }

    /// Only orders submitted until this instant.
    pub fn until(self, until: Timestamp) -> (r: Self)
        ensures
            r == (GetOrders { until: Some(until), ..self }),
    {
        GetOrders { until: Some(until), ..self }
    }

    /// Sets the sort direction.
    pub fn sort(self, sort: crate::common::Sort) -> (r: Self)
        ensures
            r == (GetOrders { sort: Some(sort), ..self }),
    {
        GetOrders { sort: Some(sort), ..self }
    }

    /// Sets whether compound orders roll their legs up.
    pub fn nested(self, nested: bool) -> (r: Self)
        ensures
            r == (GetOrders { nested: Some(nested), ..self }),
    {
        GetOrders { nested: Some(nested), ..self }
    }

    /// Only these symbols.
    pub fn symbols(self, symbols: Vec<String>) -> (r: Self)
        ensures
            r == (GetOrders { symbols: Some(symbols), ..self }),
    {
        GetOrders { symbols: Some(symbols), ..self }
    }

    /// The query the filters spell, unset filters omitted: `status`,
    /// `limit`, `after`, `until`, `direction`, `nested`, then `symbols`
    /// comma-joined.
    pub open spec fn spec_query(&self) -> Seq<(Seq<char>, Seq<char>)> {
        (match self.status {
            Some(s) => seq![("status"@, s.spec_wire_name())],
            None => Seq::<(Seq<char>, Seq<char>)>::empty(),
        }) + (match self.limit {
            Some(l) => seq![("limit"@, uint_chars(l as nat))],
            None => Seq::<(Seq<char>, Seq<char>)>::empty(),
        }) + (match self.after {
            Some(t) => seq![("after"@, rfc3339_text(t))],
            None => Seq::<(Seq<char>, Seq<char>)>::empty(),
        }) + (match self.until {
            Some(t) => seq![("until"@, rfc3339_text(t))],
            None => Seq::<(Seq<char>, Seq<char>)>::empty(),
        }) + (match self.sort {
            Some(s) => seq![("direction"@, s.spec_wire_name())],
            None => Seq::<(Seq<char>, Seq<char>)>::empty(),
        }) + (match self.nested {
            Some(b) => seq![("nested"@, crate::request::spec_bool_text(b))],
            None => Seq::<(Seq<char>, Seq<char>)>::empty(),
        }) + (match self.symbols {
            Some(ss) => seq![
                ("symbols"@, crate::request::spec_comma_join(ss@.map_values(|s: String| s@))),
            ],
            None => Seq::<(Seq<char>, Seq<char>)>::empty(),
        })
    }

    /// Whether every time filter of the request lies in the range
    /// RFC 3339 text can carry.
    pub open spec fn spec_times_representable(&self) -> bool {
        &&& (match self.after {
            Some(t) => crate::temporal::rfc3339_representable(t),
            None => true,
        })
        &&& (match self.until {
            Some(t) => crate::temporal::rfc3339_representable(t),
            None => true,
        })
    }

    /// Builds the query parameters.  Fails exactly when a time filter
    /// lies outside the representable range of RFC 3339 text; with no
    /// time filters it always succeeds.
    #[verifier::rlimit(60)]
    pub fn query(&self) -> (r: Result<Vec<(String, String)>, ApiError>)
        ensures
            r matches Ok(q) ==> crate::request::pairs_view(q@) == self.spec_query(),
            r is Ok <==> self.spec_times_representable(),
            r matches Err(e) ==> e is Validation,
    {
        let mut q: Vec<(String, String)> = Vec::new();
        match &self.status {
            Some(s) => crate::request::push_pair(&mut q, "status", String::from_str(s.wire_name())),
            None => {},
        }
        match &self.limit {
            Some(l) => {
                let mut t = String::new();
                crate::strutil::push_uint(&mut t, *l as u128);
                proof {
                    assert(t@ =~= uint_chars(*l as nat));
                }
                crate::request::push_pair(&mut q, "limit", t);
            },
            None => {},
        }
        match &self.after {
            Some(ts) => {
                match crate::temporal::format_rfc3339(ts) {
                    Some(t) => crate::request::push_pair(&mut q, "after", t),
                    None => {
                        return Err(ApiError::Validation { field: String::from_str("after") });
                    },
                }
            },
            None => {},
        }
        match &self.until {
            Some(ts) => {
                match crate::temporal::format_rfc3339(ts) {
                    Some(t) => crate::request::push_pair(&mut q, "until", t),
                    None => {
                        return Err(ApiError::Validation { field: String::from_str("until") });
                    },
                }
            },
            None => {},
        }
        match &self.sort {
            Some(s) => crate::request::push_pair(
                &mut q,
                "direction",
                String::from_str(s.wire_name()),
            ),
            None => {},
        }
        match &self.nested {
            Some(b) => crate::request::push_pair(
                &mut q,
                "nested",
                String::from_str(crate::request::bool_text(*b)),
            ),
            None => {},
        }
        match &self.symbols {
            Some(ss) => {
                let joined = crate::request::comma_join(ss);
                crate::request::push_pair(&mut q, "symbols", joined);
            },
            None => {},
        }
        proof {
            assert(crate::request::pairs_view(q@) =~= self.spec_query());
        }
        Ok(q)
    }

    /// The path of the order-listing endpoint.
    pub fn endpoint(&self) -> (r: String)
        ensures
            r@ == "/v2/orders"@,
    {
        String::from_str("/v2/orders")
    }

    /// The method of the order-listing endpoint.
    pub fn method(&self) -> (r: Method)
        ensures
            r == Method::Get,
    {
        Method::Get
    }
}

/// Retrieves a single order by id.
#[derive(Clone, Debug, PartialEq)]
pub struct GetOrder {
    /// Id of the order.
    pub order_id: u128,
    /// Whether a compound order rolls its legs up.
    pub nested: Option<bool>,
}

impl GetOrder {
    /// A new request for the given order id.
    pub fn new(order_id: u128) -> (r: GetOrder)
        ensures
            r.order_id == order_id,
            r.nested is None,
    {
        GetOrder { order_id, nested: None }
    }

    /// Sets whether a compound order rolls its legs up.
    pub fn nested(self, nested: bool) -> (r: Self)
        ensures
            r == (GetOrder { nested: Some(nested), ..self }),
    {
        GetOrder { nested: Some(nested), ..self }
    }

    /// The path of the order endpoint: the listing path with the order's
    /// canonical UUID text appended.
    pub fn endpoint(&self) -> (r: String)
        ensures
            r@ == "/v2/orders/"@ + crate::symbology::uuid_text(self.order_id),
    {
        let mut out = String::from_str("/v2/orders/");
        let id = crate::symbology::uuid_format(self.order_id);
        out.append(id.as_str());
        out
    }

    /// The query: the `nested` flag when set.
    pub open spec fn spec_query(&self) -> Seq<(Seq<char>, Seq<char>)> {
        match self.nested {
            Some(b) => seq![("nested"@, crate::request::spec_bool_text(b))],
            None => Seq::<(Seq<char>, Seq<char>)>::empty(),
        }
    }

    /// Builds the query parameters.
    pub fn query(&self) -> (r: Vec<(String, String)>)
        ensures
            crate::request::pairs_view(r@) == self.spec_query(),
    {
        let mut q: Vec<(String, String)> = Vec::new();
        match &self.nested {
            Some(b) => crate::request::push_pair(
                &mut q,
                "nested",
                String::from_str(crate::request::bool_text(*b)),
            ),
            None => {},
        }
        proof {
            assert(crate::request::pairs_view(q@) =~= self.spec_query());
        }
        q
    }

    /// The method of the order endpoint.
    pub fn method(&self) -> (r: Method)
        ensures
            r == Method::Get,
    {
        Method::Get
    }
}

/// Replaces an order's parameters; each set field overrides the
/// existing order's, the rest stay.
#[derive(Clone, Debug, PartialEq)]
pub struct ReplaceOrder {
    /// Id of the order to replace.
    pub id: u128,
    /// New quantity.
    pub qty: Option<u64>,
    /// New time in force.
    pub time_in_force: Option<TimeInForce>,
    /// New limit price.
    pub limit_price: Option<Decimal>,
    /// New stop price.
    pub stop_price: Option<Decimal>,
    /// New trail offset: the price if the order trails by price,
    /// otherwise the percent.
    pub trail: Option<Decimal>,
    /// New client order id.
    pub client_order_id: Option<String>,
}

impl ReplaceOrder {
    /// A new request that overrides nothing.
    pub fn new(id: u128) -> (r: ReplaceOrder)
        ensures
            r.id == id,
            r.qty is None,
            r.time_in_force is None,
            r.limit_price is None,
            r.stop_price is None,
            r.trail is None,
            r.client_order_id is None,
    {
        ReplaceOrder {
            id,
            qty: None,
            time_in_force: None,
            limit_price: None,
            stop_price: None,
            trail: None,
            client_order_id: None,
        }
    }

    /// Overrides the quantity.
    pub fn qty(self, qty: u64) -> (r: Self)
        ensures
            r == (ReplaceOrder { qty: Some(qty), ..self }),
    {
        ReplaceOrder { qty: Some(qty), ..self }
    }

    /// Overrides the time in force.
    pub fn time_in_force(self, time_in_force: TimeInForce) -> (r: Self)
        ensures
            r == (ReplaceOrder { time_in_force: Some(time_in_force), ..self }),
    {
        ReplaceOrder { time_in_force: Some(time_in_force), ..self }
    }

    /// Overrides the limit price.
    pub fn limit_price(self, limit_price: Decimal) -> (r: Self)
        ensures
            r == (ReplaceOrder { limit_price: Some(limit_price), ..self }),
    {
        ReplaceOrder { limit_price: Some(limit_price), ..self }
    }

    /// Overrides the stop price.
    pub fn stop_price(self, stop_price: Decimal) -> (r: Self)
        ensures
            r == (ReplaceOrder { stop_price: Some(stop_price), ..self }),
    {
        ReplaceOrder { stop_price: Some(stop_price), ..self }
    }

    /// Overrides the trail offset.
    pub fn trail(self, trail: Decimal) -> (r: Self)
        ensures
            r == (ReplaceOrder { trail: Some(trail), ..self }),
    {
        ReplaceOrder { trail: Some(trail), ..self }
    }

    /// Overrides the client order id.
    pub fn client_order_id(self, client_order_id: &str) -> (r: Self)
        ensures
            r.client_order_id matches Some(c) && c@ == client_order_id@,
            r == (ReplaceOrder { client_order_id: r.client_order_id, ..self }),
    {
        ReplaceOrder { client_order_id: Some(String::from_str(client_order_id)), ..self }
    }

    /// All decimal amounts of the request lie within the codec's bounds.
    pub open spec fn spec_wf(&self) -> bool {
        &&& (match self.limit_price {
            Some(d) => d.wf(),
            None => true,
        })
        &&& (match self.stop_price {
            Some(d) => d.wf(),
            None => true,
        })
        &&& (match self.trail {
            Some(d) => d.wf(),
            None => true,
        })
    }

    /// Decides [`Self::spec_wf`] executably, so an unverified caller can
    /// test it before encoding.
    pub fn is_wf(&self) -> (r: bool)
        ensures
            r == self.spec_wf(),
    {
        (match &self.limit_price {
            Some(d) => d.is_wf(),
            None => true,
        }) && (match &self.stop_price {
            Some(d) => d.is_wf(),
            None => true,
        }) && (match &self.trail {
            Some(d) => d.is_wf(),
            None => true,
        })
    }

    /// The fields of the request body, in wire order, unset overrides
    /// omitted.  The quantity travels as a bare number here, unlike an
    /// order placement's quoted quantity.
    pub open spec fn spec_fields(&self) -> Seq<(Seq<char>, FieldValueView)> {
        (match self.qty {
            Some(n) => seq![
                ("qty"@, FieldValueView::Scalar(ScalarView::Num(uint_chars(n as nat)))),
            ],
            None => Seq::<(Seq<char>, FieldValueView)>::empty(),
        }) + (match self.time_in_force {
            Some(t) => seq![
                ("time_in_force"@, FieldValueView::Scalar(ScalarView::Str(t.spec_wire_name()))),
            ],
            None => Seq::<(Seq<char>, FieldValueView)>::empty(),
        }) + (match self.limit_price {
            Some(d) => seq![
                ("limit_price"@, FieldValueView::Scalar(ScalarView::Str(spec_decimal_text(d)))),
            ],
            None => Seq::<(Seq<char>, FieldValueView)>::empty(),
        }) + (match self.stop_price {
            Some(d) => seq![
                ("stop_price"@, FieldValueView::Scalar(ScalarView::Str(spec_decimal_text(d)))),
            ],
            None => Seq::<(Seq<char>, FieldValueView)>::empty(),
        }) + (match self.trail {
            Some(d) => seq![
                ("trail"@, FieldValueView::Scalar(ScalarView::Str(spec_decimal_text(d)))),
            ],
            None => Seq::<(Seq<char>, FieldValueView)>::empty(),
        }) + (match self.client_order_id {
            Some(c) => seq![("client_order_id"@, FieldValueView::Scalar(ScalarView::Str(c@)))],
            None => Seq::<(Seq<char>, FieldValueView)>::empty(),
        })
    }

    /// Encodes the request body.
    pub fn encode(&self) -> (r: String)
        requires
            self.spec_wf(),
        ensures
            exists|fs: Seq<(String, FieldValue)>|
                fields_view(fs) == self.spec_fields() && r@ == spec_body_text(fs),
    {
        let mut fs: Vec<(String, FieldValue)> = Vec::new();
        match &self.qty {
            Some(n) => {
                let mut t = String::new();
                crate::strutil::push_uint(&mut t, *n as u128);
                proof {
                    assert(t@ =~= uint_chars(*n as nat));
                }
                push_field(&mut fs, "qty", FieldValue::Scalar(Scalar::Num(t)));
            },
            None => {},
        }
        match &self.time_in_force {
            Some(t) => push_field(
                &mut fs,
                "time_in_force",
                FieldValue::Scalar(Scalar::Str(String::from_str(t.wire_name()))),
            ),
            None => {},
        }
        match &self.limit_price {
            Some(d) => push_field(&mut fs, "limit_price", FieldValue::Scalar(decimal_scalar(d))),
            None => {},
        }
        match &self.stop_price {
            Some(d) => push_field(&mut fs, "stop_price", FieldValue::Scalar(decimal_scalar(d))),
            None => {},
        }
        match &self.trail {
            Some(d) => push_field(&mut fs, "trail", FieldValue::Scalar(decimal_scalar(d))),
            None => {},
        }
        match &self.client_order_id {
            Some(c) => push_field(
                &mut fs,
                "client_order_id",
                FieldValue::Scalar(Scalar::Str(c.clone())),
            ),
            None => {},
        }
        proof {
            assert(fields_view(fs@) =~= self.spec_fields());
        }
        crate::body::render_body(&fs)
    }

    /// The path of the order-replacement endpoint.
    pub fn endpoint(&self) -> (r: String)
        ensures
            r@ == "/v2/orders/"@ + crate::symbology::uuid_text(self.id),
    {
        let mut out = String::from_str("/v2/orders/");
        let id = crate::symbology::uuid_format(self.id);
        out.append(id.as_str());
        out
    }

    /// The method of the order-replacement endpoint.
    pub fn method(&self) -> (r: Method)
        ensures
            r == Method::Post,
    {
        Method::Post
    }
}

/// Cancels one order.
#[derive(Clone, Copy, Debug, PartialEq, Eq, Structural)]
pub struct CancelOrder {
    /// Id of the order to cancel.
    pub id: u128,
}

impl CancelOrder {
    /// A new request for the given order id.
    pub fn new(id: u128) -> (r: CancelOrder)
        ensures
            r.id == id,
    {
        CancelOrder { id }
    }

    /// The path of the cancellation endpoint.
    pub fn endpoint(&self) -> (r: String)
        ensures
            r@ == "/v2/orders/"@ + crate::symbology::uuid_text(self.id),
    {
        let mut out = String::from_str("/v2/orders/");
        let id = crate::symbology::uuid_format(self.id);
        out.append(id.as_str());
        out
    }

    /// The method of the cancellation endpoint.  Its success answer is
    /// empty.
    pub fn method(&self) -> (r: Method)
        ensures
            r == Method::Delete,
    {
        Method::Delete
    }
}

/// Cancels all open orders; the answer reports each attempt.
#[derive(Clone, Copy, Debug, PartialEq, Eq, Structural)]
pub struct CancelAllOrders;

impl CancelAllOrders {
    /// The path of the cancel-all endpoint.
    pub fn endpoint(&self) -> (r: String)
        ensures
            r@ == "/v2/orders"@,
    {
        String::from_str("/v2/orders")
    }

    /// The method of the cancel-all endpoint.
    pub fn method(&self) -> (r: Method)
        ensures
            r == Method::Delete,
    {
        Method::Delete
    }
}

/// A wire token reads back as the side it was written from.
pub proof fn lemma_side_wire_round_trip(x: Side)
    ensures
        Side::spec_from_wire(x.spec_wire_name()) == Some(x),
{
    reveal_strlit("buy");
    assert(("buy"@).len() == 3);
    reveal_strlit("sell");
    assert(("sell"@).len() == 4);
    match x {
        Side::Buy => {
            assert(Side::spec_from_wire("buy"@) == Some(Side::Buy));
        },
        Side::Sell => {
            assert(Side::spec_from_wire("sell"@) == Some(Side::Sell));
        },
    }
}

/// A wire token reads back as the time in force it was written from.
pub proof fn lemma_time_in_force_wire_round_trip(x: TimeInForce)
    ensures
        TimeInForce::spec_from_wire(x.spec_wire_name()) == Some(x),
{
    reveal_strlit("day");
    assert(("day"@).len() == 3);
    reveal_strlit("gtc");
    assert(("gtc"@).len() == 3);
    reveal_strlit("opg");
    assert(("opg"@).len() == 3);
    reveal_strlit("cls");
    assert(("cls"@).len() == 3);
    reveal_strlit("ioc");
    assert(("ioc"@).len() == 3);
    reveal_strlit("fok");
    assert(("fok"@).len() == 3);
    match x {
        TimeInForce::Day => {
            assert(TimeInForce::spec_from_wire("day"@) == Some(TimeInForce::Day));
        },
        TimeInForce::GoodTilCancelled => {
            assert(("gtc"@)[0] != ("day"@)[0]);
            assert(TimeInForce::spec_from_wire("gtc"@) == Some(TimeInForce::GoodTilCancelled));
        },
        TimeInForce::Open => {
            assert(("opg"@)[0] != ("day"@)[0]);
            assert(("opg"@)[0] != ("gtc"@)[0]);
            assert(TimeInForce::spec_from_wire("opg"@) == Some(TimeInForce::Open));
        },
        TimeInForce::Close => {
            assert(("cls"@)[0] != ("day"@)[0]);
            assert(("cls"@)[0] != ("gtc"@)[0]);
            assert(("cls"@)[0] != ("opg"@)[0]);
            assert(TimeInForce::spec_from_wire("cls"@) == Some(TimeInForce::Close));
        },
        TimeInForce::ImmediateOrCancel => {
            assert(("ioc"@)[0] != ("day"@)[0]);
            assert(("ioc"@)[0] != ("gtc"@)[0]);
            assert(("ioc"@)[0] != ("opg"@)[0]);
            assert(("ioc"@)[0] != ("cls"@)[0]);
            assert(TimeInForce::spec_from_wire("ioc"@) == Some(TimeInForce::ImmediateOrCancel));
        },
        TimeInForce::FillOrKill => {
            assert(("fok"@)[0] != ("day"@)[0]);
            assert(("fok"@)[0] != ("gtc"@)[0]);
            assert(("fok"@)[0] != ("opg"@)[0]);
            assert(("fok"@)[0] != ("cls"@)[0]);
            assert(("fok"@)[0] != ("ioc"@)[0]);
            assert(TimeInForce::spec_from_wire("fok"@) == Some(TimeInForce::FillOrKill));
        },
    }
}

} // verus!

//! Decoders of the order messages: open order, completed order, order
//! status, execution data and commission report. The wire is positional, so
//! each decoder is a fixed sequence of field blocks; which blocks a message
//! carries depends on the version that was negotiated with the server.

use vstd::prelude::*;
use vstd::string::*;
use crate::contracts::ComboLeg;
use crate::contracts::ComboLegOpenClose;
use crate::contracts::ComboLegView;
use crate::contracts::Contract;
use crate::contracts::ContractView;
use crate::contracts::Currency;
use crate::contracts::DeltaNeutralContract;
use crate::contracts::DeltaNeutralContractView;
use crate::contracts::Exchange;
use crate::contracts::SecurityType;
use crate::contracts::SecurityTypeView;
use crate::contracts::Symbol;
use crate::contracts::TagValue;
use crate::contracts::TagValueView;
use crate::errors::Error;
use crate::errors::ErrorView;
use crate::messages::MessageView;
use crate::messages::ResponseMessage;
use crate::numeric::format_integer;
use crate::numeric::integer_text;
use crate::numeric::Decimal;
use crate::orders::conditions::ExecutionCondition;
use crate::orders::conditions::ExecutionConditionView;
use crate::orders::conditions::MarginCondition;
use crate::orders::conditions::MarginConditionView;
use crate::orders::conditions::OrderCondition;
use crate::orders::conditions::OrderConditionView;
use crate::orders::conditions::PercentChangeCondition;
use crate::orders::conditions::PercentChangeConditionView;
use crate::orders::conditions::PriceCondition;
use crate::orders::conditions::PriceConditionView;
use crate::orders::conditions::TimeCondition;
use crate::orders::conditions::TimeConditionView;
use crate::orders::conditions::TriggerMethod;
use crate::orders::conditions::VolumeCondition;
use crate::orders::conditions::VolumeConditionView;
use crate::orders::Action;
use crate::orders::AuctionStrategy;
use crate::orders::CommissionReport;
use crate::orders::CommissionReportView;
use crate::orders::Execution;
use crate::orders::ExecutionData;
use crate::orders::ExecutionDataView;
use crate::orders::ExecutionView;
use crate::orders::Liquidity;
use crate::orders::OcaType;
use crate::orders::Order;
use crate::orders::OrderAllocation;
use crate::orders::OrderAllocationView;
use crate::orders::OrderComboLeg;
use crate::orders::OrderComboLegView;
use crate::orders::OrderData;
use crate::orders::OrderDataView;
use crate::orders::OrderOpenClose;
use crate::orders::OrderOrigin;
use crate::orders::OrderState;
use crate::orders::OrderStateView;
use crate::orders::OrderStatus;
use crate::orders::OrderStatusView;
use crate::orders::OrderView;
use crate::orders::ReferencePriceType;
use crate::orders::Rule80A;
use crate::orders::ShortSaleSlot;
use crate::orders::SoftDollarTier;
use crate::orders::SoftDollarTierView;
use crate::orders::TimeInForce;
use crate::orders::VolatilityType;
use crate::reading::viewed;
use crate::reading::Reading;
use crate::server_versions::AUTO_CANCEL_PARENT;
use crate::server_versions::AUTO_PRICE_FOR_HEDGE;
use crate::server_versions::BOND_ACCRUED_INTEREST;
use crate::server_versions::CASH_QTY;
use crate::server_versions::CME_TAGGING_FIELDS_IN_OPEN_ORDER;
use crate::server_versions::CUSTOMER_ACCOUNT;
use crate::server_versions::DURATION;
use crate::server_versions::D_PEG_ORDERS;
use crate::server_versions::FA_PROFILE_DESUPPORT;
use crate::server_versions::FULL_ORDER_PREVIEW_FIELDS;
use crate::server_versions::IMBALANCE_ONLY;
use crate::server_versions::INCLUDE_OVERNIGHT;
use crate::server_versions::LAST_LIQUIDITY;
use crate::server_versions::MARKET_CAP_PRICE;
use crate::server_versions::MODELS_SUPPORT;
use crate::server_versions::ORDER_CONTAINER;
use crate::server_versions::PEGBEST_PEGMID_OFFSETS;
use crate::server_versions::PEGGED_TO_BENCHMARK;
use crate::server_versions::PENDING_PRICE_REVISION;
use crate::server_versions::POST_TO_ATS;
use crate::server_versions::PRICE_MGMT_ALGO;
use crate::server_versions::PROFESSIONAL_CUSTOMER;
use crate::server_versions::SOFT_DOLLAR_TIER;
use crate::server_versions::SUBMITTER;
use crate::server_versions::WHAT_IF_EXT_FIELDS;
use crate::views::lemma_views_push;
use crate::views::optional_int;
use crate::views::optional_long;
use crate::views::optional_view;
use crate::views::views_of;

verus! {

/// Reason of an action field that names no side.
pub open spec fn reason_unknown_action() -> Seq<char> {
    "unknown action"@
}

/// Reason of a condition whose kind is not known.
pub open spec fn reason_unknown_condition() -> Seq<char> {
    "Unknown condition type"@
}

/// The order type of an order that is pegged to a benchmark.
pub open spec fn peg_bench() -> Seq<char> {
    "PEG BENCH"@
}

/// The fields of a price condition: the contract, the exchange, the direction, the price
/// and the trigger method. The kind and the conjunction flag stand before
/// them and are read by the caller.
pub open spec fn price_condition(m: MessageView, is_conjunction: bool) -> Reading<PriceConditionView> {
    Reading::start(
        m,
        PriceConditionView { is_conjunction, ..PriceConditionView::initial() },
    ).put_int(|d: PriceConditionView, v: int| PriceConditionView { contract_id: v, ..d })
        .and(
            |s: Reading<PriceConditionView>|
                s.put_string(
                    |d: PriceConditionView, v: Seq<char>|
                        PriceConditionView { exchange: v, ..d },
                ),
        )
        .and(
            |s: Reading<PriceConditionView>|
                s.put_bool(|d: PriceConditionView, v: bool| PriceConditionView { is_more: v, ..d }),
        )
        .and(
            |s: Reading<PriceConditionView>|
                s.put_double(
                    |d: PriceConditionView, v: Seq<char>|
                        PriceConditionView { price: v, ..d },
                ),
        )
        .and(
            |s: Reading<PriceConditionView>|
                s.put_int(
                    |d: PriceConditionView, v: int|
                        PriceConditionView { trigger_method: TriggerMethod::of_code(v), ..d },
                ),
        )
}

/// Decodes the fields of a price condition: the contract, the exchange, the direction, the price
/// and the trigger method.
pub fn decode_price_condition(message: &mut ResponseMessage, is_conjunction: bool) -> (r: Result<
    OrderCondition,
    Error,
>)
    ensures
        price_condition(old(message)@, is_conjunction).converted(
            |c: PriceConditionView| OrderConditionView::Price(c),
        ).yields(final(message)@, viewed(r)),
{
    let mut condition = PriceCondition::default();
    condition.is_conjunction = is_conjunction;
    condition.contract_id = message.next_int()?;
    condition.exchange = message.next_string()?;
    condition.is_more = message.next_bool()?;
    condition.price = message.next_double()?;
    condition.trigger_method = TriggerMethod::from(message.next_int()?);
    Ok(OrderCondition::Price(condition))
}

/// The fields of a time condition: the direction and the time. The kind and the conjunction flag stand before
/// them and are read by the caller.
pub open spec fn time_condition(m: MessageView, is_conjunction: bool) -> Reading<TimeConditionView> {
    Reading::start(
        m,
        TimeConditionView { is_conjunction, ..TimeConditionView::initial() },
    ).put_bool(|d: TimeConditionView, v: bool| TimeConditionView { is_more: v, ..d })
        .and(
            |s: Reading<TimeConditionView>|
                s.put_string(
                    |d: TimeConditionView, v: Seq<char>|
                        TimeConditionView { time: v, ..d },
                ),
        )
}

/// Decodes the fields of a time condition: the direction and the time.
pub fn decode_time_condition(message: &mut ResponseMessage, is_conjunction: bool) -> (r: Result<
    OrderCondition,
    Error,
>)
    ensures
        time_condition(old(message)@, is_conjunction).converted(
            |c: TimeConditionView| OrderConditionView::Time(c),
        ).yields(final(message)@, viewed(r)),
{
    let mut condition = TimeCondition::default();
    condition.is_conjunction = is_conjunction;
    condition.is_more = message.next_bool()?;
    condition.time = message.next_string()?;
    Ok(OrderCondition::Time(condition))
}

/// The fields of a margin condition: the direction and the percentage. The kind and the conjunction flag stand before
/// them and are read by the caller.
pub open spec fn margin_condition(m: MessageView, is_conjunction: bool) -> Reading<MarginConditionView> {
    Reading::start(
        m,
        MarginConditionView { is_conjunction, ..MarginConditionView::initial() },
    ).put_bool(|d: MarginConditionView, v: bool| MarginConditionView { is_more: v, ..d })
        .and(
            |s: Reading<MarginConditionView>|
                s.put_int(|d: MarginConditionView, v: int| MarginConditionView { percent: v, ..d }),
        )
}

/// Decodes the fields of a margin condition: the direction and the percentage.
pub fn decode_margin_condition(message: &mut ResponseMessage, is_conjunction: bool) -> (r: Result<
    OrderCondition,
    Error,
>)
    ensures
        margin_condition(old(message)@, is_conjunction).converted(
            |c: MarginConditionView| OrderConditionView::Margin(c),
        ).yields(final(message)@, viewed(r)),
{
    let mut condition = MarginCondition::default();
    condition.is_conjunction = is_conjunction;
    condition.is_more = message.next_bool()?;
    condition.percent = message.next_int()?;
    Ok(OrderCondition::Margin(condition))
}

/// The fields of an execution condition: the symbol, the kind of security and the
/// exchange. The kind and the conjunction flag stand before
/// them and are read by the caller.
pub open spec fn execution_condition(m: MessageView, is_conjunction: bool) -> Reading<ExecutionConditionView> {
    Reading::start(
        m,
        ExecutionConditionView { is_conjunction, ..ExecutionConditionView::initial() },
    ).put_string(
        |d: ExecutionConditionView, v: Seq<char>|
            ExecutionConditionView { symbol: v, ..d },
    )
        .and(
            |s: Reading<ExecutionConditionView>|
                s.put_string(
                    |d: ExecutionConditionView, v: Seq<char>|
                        ExecutionConditionView { security_type: v, ..d },
                ),
        )
        .and(
            |s: Reading<ExecutionConditionView>|
                s.put_string(
                    |d: ExecutionConditionView, v: Seq<char>|
                        ExecutionConditionView { exchange: v, ..d },
                ),
        )
}

/// Decodes the fields of an execution condition: the symbol, the kind of security and the
/// exchange.
pub fn decode_execution_condition(message: &mut ResponseMessage, is_conjunction: bool) -> (r: Result<
    OrderCondition,
    Error,
>)
    ensures
        execution_condition(old(message)@, is_conjunction).converted(
            |c: ExecutionConditionView| OrderConditionView::Execution(c),
        ).yields(final(message)@, viewed(r)),
{
    let mut condition = ExecutionCondition::default();
    condition.is_conjunction = is_conjunction;
    condition.symbol = message.next_string()?;
    condition.security_type = message.next_string()?;
    condition.exchange = message.next_string()?;
    Ok(OrderCondition::Execution(condition))
}

/// The fields of a volume condition: the contract, the exchange, the direction and the
/// volume. The kind and the conjunction flag stand before
/// them and are read by the caller.
pub open spec fn volume_condition(m: MessageView, is_conjunction: bool) -> Reading<VolumeConditionView> {
    Reading::start(
        m,
        VolumeConditionView { is_conjunction, ..VolumeConditionView::initial() },
    ).put_int(|d: VolumeConditionView, v: int| VolumeConditionView { contract_id: v, ..d })
        .and(
            |s: Reading<VolumeConditionView>|
                s.put_string(
                    |d: VolumeConditionView, v: Seq<char>|
                        VolumeConditionView { exchange: v, ..d },
                ),
        )
        .and(
            |s: Reading<VolumeConditionView>|
                s.put_bool(
                    |d: VolumeConditionView, v: bool|
                        VolumeConditionView { is_more: v, ..d },
                ),
        )
        .and(
            |s: Reading<VolumeConditionView>|
                s.put_int(|d: VolumeConditionView, v: int| VolumeConditionView { volume: v, ..d }),
        )
}

/// Decodes the fields of a volume condition: the contract, the exchange, the direction and the
/// volume.
pub fn decode_volume_condition(message: &mut ResponseMessage, is_conjunction: bool) -> (r: Result<
    OrderCondition,
    Error,
>)
    ensures
        volume_condition(old(message)@, is_conjunction).converted(
            |c: VolumeConditionView| OrderConditionView::Volume(c),
        ).yields(final(message)@, viewed(r)),
{
    let mut condition = VolumeCondition::default();
    condition.is_conjunction = is_conjunction;
    condition.contract_id = message.next_int()?;
    condition.exchange = message.next_string()?;
    condition.is_more = message.next_bool()?;
    condition.volume = message.next_int()?;
    Ok(OrderCondition::Volume(condition))
}

/// The fields of a percent-change condition: the contract, the exchange, the direction
/// and the percentage. The kind and the conjunction flag stand before
/// them and are read by the caller.
pub open spec fn percent_change_condition(m: MessageView, is_conjunction: bool) -> Reading<PercentChangeConditionView> {
    Reading::start(
        m,
        PercentChangeConditionView { is_conjunction, ..PercentChangeConditionView::initial() },
    ).put_int(
        |d: PercentChangeConditionView, v: int|
            PercentChangeConditionView { contract_id: v, ..d },
    )
        .and(
            |s: Reading<PercentChangeConditionView>|
                s.put_string(
                    |d: PercentChangeConditionView, v: Seq<char>|
                        PercentChangeConditionView { exchange: v, ..d },
                ),
        )
        .and(
            |s: Reading<PercentChangeConditionView>|
                s.put_bool(
                    |d: PercentChangeConditionView, v: bool|
                        PercentChangeConditionView { is_more: v, ..d },
                ),
        )
        .and(
            |s: Reading<PercentChangeConditionView>|
                s.put_double(
                    |d: PercentChangeConditionView, v: Seq<char>|
                        PercentChangeConditionView { percent: v, ..d },
                ),
        )
}

/// Decodes the fields of a percent-change condition: the contract, the exchange, the direction
/// and the percentage.
pub fn decode_percent_change_condition(message: &mut ResponseMessage, is_conjunction: bool) -> (r: Result<
    OrderCondition,
    Error,
>)
    ensures
        percent_change_condition(old(message)@, is_conjunction).converted(
            |c: PercentChangeConditionView| OrderConditionView::PercentChange(c),
        ).yields(final(message)@, viewed(r)),
{
    let mut condition = PercentChangeCondition::default();
    condition.is_conjunction = is_conjunction;
    condition.contract_id = message.next_int()?;
    condition.exchange = message.next_string()?;
    condition.is_more = message.next_bool()?;
    condition.percent = message.next_double()?;
    Ok(OrderCondition::PercentChange(condition))
}

/// One condition: the code of its kind, the conjunction flag, then the
/// fields of its kind. A kind that is not known stops the decoder; the error
/// carries the code.
pub open spec fn condition(m: MessageView) -> Reading<OrderConditionView> {
    let unread = OrderConditionView::Time(TimeConditionView::initial());
    match m.read_int() {
        Ok(kind) => match m.skip().read_bool() {
            Ok(is_conjunction) => {
                let rest = m.skip().skip();
                if kind == 1 {
                    price_condition(rest, is_conjunction).converted(
                        |c: PriceConditionView| OrderConditionView::Price(c),
                    )
                } else if kind == 3 {
                    time_condition(rest, is_conjunction).converted(
                        |c: TimeConditionView| OrderConditionView::Time(c),
                    )
                } else if kind == 4 {
                    margin_condition(rest, is_conjunction).converted(
                        |c: MarginConditionView| OrderConditionView::Margin(c),
                    )
                } else if kind == 5 {
                    execution_condition(rest, is_conjunction).converted(
                        |c: ExecutionConditionView| OrderConditionView::Execution(c),
                    )
                } else if kind == 6 {
                    volume_condition(rest, is_conjunction).converted(
                        |c: VolumeConditionView| OrderConditionView::Volume(c),
                    )
                } else if kind == 7 {
                    percent_change_condition(rest, is_conjunction).converted(
                        |c: PercentChangeConditionView| OrderConditionView::PercentChange(c),
                    )
                } else {
                    Reading::start(rest, unread).stopped(
                        ErrorView::Parse(0, integer_text(kind), reason_unknown_condition()),
                    )
                }
            },
            Err(e) => Reading::start(m.skip(), unread).failed(e),
        },
        Err(e) => Reading::start(m, unread).failed(e),
    }
}

/// Decodes one condition of whatever kind.
pub fn decode_condition(message: &mut ResponseMessage) -> (r: Result<OrderCondition, Error>)
    ensures
        condition(old(message)@).yields(final(message)@, viewed(r)),
{
    let condition_type = message.next_int()?;
    let is_conjunction = message.next_bool()?;
    if condition_type == 1 {
        decode_price_condition(message, is_conjunction)
    } else if condition_type == 3 {
        decode_time_condition(message, is_conjunction)
    } else if condition_type == 4 {
        decode_margin_condition(message, is_conjunction)
    } else if condition_type == 5 {
        decode_execution_condition(message, is_conjunction)
    } else if condition_type == 6 {
        decode_volume_condition(message, is_conjunction)
    } else if condition_type == 7 {
        decode_percent_change_condition(message, is_conjunction)
    } else {
        Err(
            Error::Parse(
                0,
                format_integer(condition_type as i64),
                "Unknown condition type".to_owned(),
            ),
        )
    }
}

/// Where the decoder of an order message starts: behind the message kind
/// and, before the kind alone told the layout, behind the message version.
/// The order identifier is minus one until it is read.
pub open spec fn begin(v: int, m: MessageView) -> Reading<OrderDataView> {
    Reading::start(
        if v < ORDER_CONTAINER {
            m.skip().skip()
        } else {
            m.skip()
        },
        OrderDataView { order_id: -1, ..OrderDataView::initial() },
    )
}

/// The identifier of the order, which the order itself holds too.
#[verifier::opaque]
pub open spec fn order_id(s: Reading<OrderDataView>) -> Reading<OrderDataView> {
    s.put_int(
        |d: OrderDataView, v: int| OrderDataView { order_id: v, order: d.order.with_order_id(v), ..d },
    )
}

/// What the contract is: its identifier, symbol, kind and date.
#[verifier::opaque]
pub open spec fn contract_identity(s: Reading<OrderDataView>) -> Reading<OrderDataView> {
    s.put_int(
        |d: OrderDataView, v: int|
            OrderDataView { contract: d.contract.with_contract_id(v), ..d },
    )
        .and(
            |s: Reading<OrderDataView>|
                s.put_string(
                    |d: OrderDataView, v: Seq<char>|
                        OrderDataView { contract: d.contract.with_symbol(v), ..d },
                ),
        )
        .and(
            |s: Reading<OrderDataView>|
                s.put_string(
                    |d: OrderDataView, v: Seq<char>|
                        OrderDataView { contract: d.contract.with_security_type(SecurityTypeView::of_text(v)), ..d },
                ),
        )
        .and(
            |s: Reading<OrderDataView>|
                s.put_string(
                    |d: OrderDataView, v: Seq<char>|
                        OrderDataView { contract: d.contract.with_last_trade_date_or_contract_month(v), ..d },
                ),
        )
}

/// The terms of a derivative: strike, right and multiplier.
#[verifier::opaque]
pub open spec fn contract_terms(s: Reading<OrderDataView>) -> Reading<OrderDataView> {
    s.put_double(
        |d: OrderDataView, v: Seq<char>|
            OrderDataView { contract: d.contract.with_strike(v), ..d },
    )
        .and(
            |s: Reading<OrderDataView>|
                s.put_string(
                    |d: OrderDataView, v: Seq<char>|
                        OrderDataView { contract: d.contract.with_right(v), ..d },
                ),
        )
        .and(
            |s: Reading<OrderDataView>|
                s.put_string(
                    |d: OrderDataView, v: Seq<char>|
                        OrderDataView { contract: d.contract.with_multiplier(v), ..d },
                ),
        )
}

/// Where the contract trades: exchange, currency, local symbol and
/// trading class.
#[verifier::opaque]
pub open spec fn contract_listing(s: Reading<OrderDataView>) -> Reading<OrderDataView> {
    s.put_string(
        |d: OrderDataView, v: Seq<char>|
            OrderDataView { contract: d.contract.with_exchange(v), ..d },
    )
        .and(
            |s: Reading<OrderDataView>|
                s.put_string(
                    |d: OrderDataView, v: Seq<char>|
                        OrderDataView { contract: d.contract.with_currency(v), ..d },
                ),
        )
        .and(
            |s: Reading<OrderDataView>|
                s.put_string(
                    |d: OrderDataView, v: Seq<char>|
                        OrderDataView { contract: d.contract.with_local_symbol(v), ..d },
                ),
        )
        .and(
            |s: Reading<OrderDataView>|
                s.put_string(
                    |d: OrderDataView, v: Seq<char>|
                        OrderDataView { contract: d.contract.with_trading_class(v), ..d },
                ),
        )
}

/// The eleven fields that describe the contract.
#[verifier::opaque]
pub open spec fn contract_fields(s: Reading<OrderDataView>) -> Reading<OrderDataView> {
    contract_identity(s)
        .and(|s: Reading<OrderDataView>| contract_terms(s))
        .and(|s: Reading<OrderDataView>| contract_listing(s))
}

/// The side of the order; a name that is no side stops the decoder.
#[verifier::opaque]
pub open spec fn action(s: Reading<OrderDataView>) -> Reading<OrderDataView> {
    match s.message.read_string() {
        Ok(name) => match Action::of_text(name) {
            Some(action) => s.stored(
                OrderDataView { order: s.value.order.with_action(action), ..s.value },
            ),
            None => s.failed(s.message.malformed(reason_unknown_action())),
        },
        Err(e) => s.failed(e),
    }
}

/// The number of units to trade.
#[verifier::opaque]
pub open spec fn total_quantity(s: Reading<OrderDataView>) -> Reading<OrderDataView> {
    s.put_double(
        |d: OrderDataView, v: Seq<char>|
            OrderDataView { order: d.order.with_total_quantity(v), ..d },
    )
}

/// The type of the order.
#[verifier::opaque]
pub open spec fn order_type(s: Reading<OrderDataView>) -> Reading<OrderDataView> {
    s.put_string(
        |d: OrderDataView, v: Seq<char>|
            OrderDataView { order: d.order.with_order_type(v), ..d },
    )
}

/// The limit price.
#[verifier::opaque]
pub open spec fn limit_price(s: Reading<OrderDataView>) -> Reading<OrderDataView> {
    s.put_optional_double(
        |d: OrderDataView, v: Option<Seq<char>>|
            OrderDataView { order: d.order.with_limit_price(v), ..d },
    )
}

/// The auxiliary price.
#[verifier::opaque]
pub open spec fn aux_price(s: Reading<OrderDataView>) -> Reading<OrderDataView> {
    s.put_optional_double(
        |d: OrderDataView, v: Option<Seq<char>>|
            OrderDataView { order: d.order.with_aux_price(v), ..d },
    )
}

/// The time in force.
#[verifier::opaque]
pub open spec fn tif(s: Reading<OrderDataView>) -> Reading<OrderDataView> {
    s.put_string(
        |d: OrderDataView, v: Seq<char>|
            OrderDataView { order: d.order.with_tif(TimeInForce::of_text(v)), ..d },
    )
}

/// The one-cancels-all group.
#[verifier::opaque]
pub open spec fn oca_group(s: Reading<OrderDataView>) -> Reading<OrderDataView> {
    s.put_string(
        |d: OrderDataView, v: Seq<char>|
            OrderDataView { order: d.order.with_oca_group(v), ..d },
    )
}

/// The account.
#[verifier::opaque]
pub open spec fn account(s: Reading<OrderDataView>) -> Reading<OrderDataView> {
    s.put_string(
        |d: OrderDataView, v: Seq<char>|
            OrderDataView { order: d.order.with_account(v), ..d },
    )
}

/// Whether the order opens or closes a position.
#[verifier::opaque]
pub open spec fn open_close(s: Reading<OrderDataView>) -> Reading<OrderDataView> {
    s.put_string(
        |d: OrderDataView, v: Seq<char>|
            OrderDataView { order: d.order.with_open_close(OrderOpenClose::of_text(v)), ..d },
    )
}

/// The origin of the order.
#[verifier::opaque]
pub open spec fn origin(s: Reading<OrderDataView>) -> Reading<OrderDataView> {
    s.put_int(
        |d: OrderDataView, v: int|
            OrderDataView { order: d.order.with_origin(OrderOrigin::of_code(v)), ..d },
    )
}

/// The reference of the customer.
#[verifier::opaque]
pub open spec fn order_ref(s: Reading<OrderDataView>) -> Reading<OrderDataView> {
    s.put_string(
        |d: OrderDataView, v: Seq<char>|
            OrderDataView { order: d.order.with_order_ref(v), ..d },
    )
}

/// The client that placed the order.
#[verifier::opaque]
pub open spec fn client_id(s: Reading<OrderDataView>) -> Reading<OrderDataView> {
    s.put_int(
        |d: OrderDataView, v: int|
            OrderDataView { order: d.order.with_client_id(v), ..d },
    )
}

/// The identifier of the order at the host.
#[verifier::opaque]
pub open spec fn perm_id(s: Reading<OrderDataView>) -> Reading<OrderDataView> {
    s.put_int(|d: OrderDataView, v: int| OrderDataView { order: d.order.with_perm_id(v), ..d })
}

/// Whether the order may fill outside regular trading hours.
#[verifier::opaque]
pub open spec fn outside_rth(s: Reading<OrderDataView>) -> Reading<OrderDataView> {
    s.put_bool(
        |d: OrderDataView, v: bool|
            OrderDataView { order: d.order.with_outside_rth(v), ..d },
    )
}

/// Whether the order is hidden.
#[verifier::opaque]
pub open spec fn hidden(s: Reading<OrderDataView>) -> Reading<OrderDataView> {
    s.put_bool(|d: OrderDataView, v: bool| OrderDataView { order: d.order.with_hidden(v), ..d })
}

/// The discretionary amount.
#[verifier::opaque]
pub open spec fn discretionary_amt(s: Reading<OrderDataView>) -> Reading<OrderDataView> {
    s.put_double(
        |d: OrderDataView, v: Seq<char>|
            OrderDataView { order: d.order.with_discretionary_amt(v), ..d },
    )
}

/// The time after which the order is active.
#[verifier::opaque]
pub open spec fn good_after_time(s: Reading<OrderDataView>) -> Reading<OrderDataView> {
    s.put_string(
        |d: OrderDataView, v: Seq<char>|
            OrderDataView { order: d.order.with_good_after_time(v), ..d },
    )
}

/// The advisor profile, which the server sent until it was withdrawn. It
/// lands where the percentage is.
#[verifier::opaque]
pub open spec fn fa_profile(v: int, s: Reading<OrderDataView>) -> Reading<OrderDataView> {
    if v >= FA_PROFILE_DESUPPORT {
        s
    } else {
        s.put_string(
            |d: OrderDataView, v: Seq<char>|
                OrderDataView { order: d.order.with_fa_percentage(v), ..d },
        )
    }
}

/// The advisor group, method and percentage.
#[verifier::opaque]
pub open spec fn fa_allocation(s: Reading<OrderDataView>) -> Reading<OrderDataView> {
    s.put_string(
        |d: OrderDataView, v: Seq<char>|
            OrderDataView { order: d.order.with_fa_group(v), ..d },
    )
        .and(
            |s: Reading<OrderDataView>|
                s.put_string(
                    |d: OrderDataView, v: Seq<char>|
                        OrderDataView { order: d.order.with_fa_method(v), ..d },
                ),
        )
        .and(
            |s: Reading<OrderDataView>|
                s.put_string(
                    |d: OrderDataView, v: Seq<char>|
                        OrderDataView { order: d.order.with_fa_percentage(v), ..d },
                ),
        )
}

/// The advisor parameters: group, method and percentage, then the profile
/// where the server still sends it.
#[verifier::opaque]
pub open spec fn fa_params(v: int, s: Reading<OrderDataView>) -> Reading<OrderDataView> {
    fa_allocation(s)
        .and(|s: Reading<OrderDataView>| fa_profile(v, s))
}

/// The model code.
#[verifier::opaque]
pub open spec fn model_code(v: int, s: Reading<OrderDataView>) -> Reading<OrderDataView> {
    if v < MODELS_SUPPORT {
        s
    } else {
        s.put_string(
            |d: OrderDataView, v: Seq<char>|
                OrderDataView { order: d.order.with_model_code(v), ..d },
        )
    }
}

/// The time until which the order is active.
#[verifier::opaque]
pub open spec fn good_till_date(s: Reading<OrderDataView>) -> Reading<OrderDataView> {
    s.put_string(
        |d: OrderDataView, v: Seq<char>|
            OrderDataView { order: d.order.with_good_till_date(v), ..d },
    )
}

/// The capacity in which the order is entered.
#[verifier::opaque]
pub open spec fn rule_80_a(s: Reading<OrderDataView>) -> Reading<OrderDataView> {
    s.put_string(
        |d: OrderDataView, v: Seq<char>|
            OrderDataView { order: d.order.with_rule_80_a(Rule80A::of_text(v)), ..d },
    )
}

/// The offset of a relative order.
#[verifier::opaque]
pub open spec fn percent_offset(s: Reading<OrderDataView>) -> Reading<OrderDataView> {
    s.put_optional_double(
        |d: OrderDataView, v: Option<Seq<char>>|
            OrderDataView { order: d.order.with_percent_offset(v), ..d },
    )
}

/// The settling firm.
#[verifier::opaque]
pub open spec fn settling_firm(s: Reading<OrderDataView>) -> Reading<OrderDataView> {
    s.put_string(
        |d: OrderDataView, v: Seq<char>|
            OrderDataView { order: d.order.with_settling_firm(v), ..d },
    )
}

/// The three fields of a short sale.
#[verifier::opaque]
pub open spec fn short_sale_params(s: Reading<OrderDataView>) -> Reading<OrderDataView> {
    s.put_int(
        |d: OrderDataView, v: int|
            OrderDataView { order: d.order.with_short_sale_slot(ShortSaleSlot::of_code(v)), ..d },
    )
        .and(
            |s: Reading<OrderDataView>|
                s.put_string(
                    |d: OrderDataView, v: Seq<char>|
                        OrderDataView { order: d.order.with_designated_location(v), ..d },
                ),
        )
        .and(
            |s: Reading<OrderDataView>|
                s.put_int(
                    |d: OrderDataView, v: int|
                        OrderDataView { order: d.order.with_exempt_code(v), ..d },
                ),
        )
}

/// The auction strategy; unset and zero both stand for none.
#[verifier::opaque]
pub open spec fn auction_strategy(s: Reading<OrderDataView>) -> Reading<OrderDataView> {
    s.put_optional_int(
        |d: OrderDataView, v: Option<int>|
            OrderDataView { order: d.order.with_auction_strategy(match v {
                Some(code) => AuctionStrategy::of_code(code),
                None => None,
            }), ..d },
    )
}

/// The three prices of a BOX order.
#[verifier::opaque]
pub open spec fn box_order_params(s: Reading<OrderDataView>) -> Reading<OrderDataView> {
    s.put_optional_double(
        |d: OrderDataView, v: Option<Seq<char>>|
            OrderDataView { order: d.order.with_starting_price(v), ..d },
    )
        .and(
            |s: Reading<OrderDataView>|
                s.put_optional_double(
                    |d: OrderDataView, v: Option<Seq<char>>|
                        OrderDataView { order: d.order.with_stock_ref_price(v), ..d },
                ),
        )
        .and(
            |s: Reading<OrderDataView>|
                s.put_optional_double(
                    |d: OrderDataView, v: Option<Seq<char>>|
                        OrderDataView { order: d.order.with_delta(v), ..d },
                ),
        )
}

/// The stock range of a pegged or volatility order.
#[verifier::opaque]
pub open spec fn peg_to_stock_or_vol_order_params(s: Reading<OrderDataView>) -> Reading<OrderDataView> {
    s.put_optional_double(
        |d: OrderDataView, v: Option<Seq<char>>|
            OrderDataView { order: d.order.with_stock_range_lower(v), ..d },
    )
        .and(
            |s: Reading<OrderDataView>|
                s.put_optional_double(
                    |d: OrderDataView, v: Option<Seq<char>>|
                        OrderDataView { order: d.order.with_stock_range_upper(v), ..d },
                ),
        )
}

/// The displayed size.
#[verifier::opaque]
pub open spec fn display_size(s: Reading<OrderDataView>) -> Reading<OrderDataView> {
    s.put_optional_int(
        |d: OrderDataView, v: Option<int>|
            OrderDataView { order: d.order.with_display_size(v), ..d },
    )
}

/// Whether this is a block order.
#[verifier::opaque]
pub open spec fn block_order(s: Reading<OrderDataView>) -> Reading<OrderDataView> {
    s.put_bool(
        |d: OrderDataView, v: bool|
            OrderDataView { order: d.order.with_block_order(v), ..d },
    )
}

/// Whether this is a sweep-to-fill order.
#[verifier::opaque]
pub open spec fn sweep_to_fill(s: Reading<OrderDataView>) -> Reading<OrderDataView> {
    s.put_bool(
        |d: OrderDataView, v: bool|
            OrderDataView { order: d.order.with_sweep_to_fill(v), ..d },
    )
}

/// Whether the order must fill in full.
#[verifier::opaque]
pub open spec fn all_or_none(s: Reading<OrderDataView>) -> Reading<OrderDataView> {
    s.put_bool(
        |d: OrderDataView, v: bool|
            OrderDataView { order: d.order.with_all_or_none(v), ..d },
    )
}

/// The minimum quantity.
#[verifier::opaque]
pub open spec fn min_qty(s: Reading<OrderDataView>) -> Reading<OrderDataView> {
    s.put_optional_int(
        |d: OrderDataView, v: Option<int>|
            OrderDataView { order: d.order.with_min_qty(v), ..d },
    )
}

/// How the rest of the one-cancels-all group is treated.
#[verifier::opaque]
pub open spec fn oca_type(s: Reading<OrderDataView>) -> Reading<OrderDataView> {
    s.put_int(
        |d: OrderDataView, v: int|
            OrderDataView { order: d.order.with_oca_type(OcaType::of_code(v)), ..d },
    )
}

/// The parent order.
#[verifier::opaque]
pub open spec fn parent_id(s: Reading<OrderDataView>) -> Reading<OrderDataView> {
    s.put_int(
        |d: OrderDataView, v: int|
            OrderDataView { order: d.order.with_parent_id(v), ..d },
    )
}

/// How a simulated stop is triggered.
#[verifier::opaque]
pub open spec fn trigger_method(s: Reading<OrderDataView>) -> Reading<OrderDataView> {
    s.put_int(
        |d: OrderDataView, v: int|
            OrderDataView { order: d.order.with_trigger_method(TriggerMethod::of_code(v)), ..d },
    )
}

/// The four attributes that the hedge order of an open order carries.
#[verifier::opaque]
pub open spec fn delta_neutral_attributes(s: Reading<OrderDataView>) -> Reading<OrderDataView> {
    s.put_string(
        |d: OrderDataView, v: Seq<char>|
            OrderDataView { order: d.order.with_delta_neutral_settling_firm(v), ..d },
    )
        .and(
            |s: Reading<OrderDataView>|
                s.put_string(
                    |d: OrderDataView, v: Seq<char>|
                        OrderDataView { order: d.order.with_delta_neutral_clearing_account(v), ..d },
                ),
        )
        .and(
            |s: Reading<OrderDataView>|
                s.put_string(
                    |d: OrderDataView, v: Seq<char>|
                        OrderDataView { order: d.order.with_delta_neutral_clearing_intent(v), ..d },
                ),
        )
        .and(
            |s: Reading<OrderDataView>|
                s.put_string(
                    |d: OrderDataView, v: Seq<char>|
                        OrderDataView { order: d.order.with_delta_neutral_open_close(v), ..d },
                ),
        )
}

/// The contract of the hedge order.
#[verifier::opaque]
pub open spec fn delta_neutral_con_id(s: Reading<OrderDataView>) -> Reading<OrderDataView> {
    s.put_int(
        |d: OrderDataView, v: int|
            OrderDataView { order: d.order.with_delta_neutral_con_id(v), ..d },
    )
}

/// The three fields of the short sale of the hedge order.
#[verifier::opaque]
pub open spec fn delta_neutral_short_sale(s: Reading<OrderDataView>) -> Reading<OrderDataView> {
    s.put_bool(
        |d: OrderDataView, v: bool|
            OrderDataView { order: d.order.with_delta_neutral_short_sale(v), ..d },
    )
        .and(
            |s: Reading<OrderDataView>|
                s.put_int(
                    |d: OrderDataView, v: int|
                        OrderDataView { order: d.order.with_delta_neutral_short_sale_slot(v), ..d },
                ),
        )
        .and(
            |s: Reading<OrderDataView>|
                s.put_string(
                    |d: OrderDataView, v: Seq<char>|
                        OrderDataView { order: d.order.with_delta_neutral_designated_location(v), ..d },
                ),
        )
}

/// The hedge order of a delta-neutral volatility order: its contract, the
/// attributes of an open order where the message carries them, and the three
/// fields of its short sale.
#[verifier::opaque]
pub open spec fn delta_neutral_hedge(s: Reading<OrderDataView>, open_order_attributes: bool) -> Reading<OrderDataView> {
    delta_neutral_con_id(s)
        .and(
            |s: Reading<OrderDataView>|
                if open_order_attributes {
                    delta_neutral_attributes(s)
                } else {
                    s
                },
        )
        .and(|s: Reading<OrderDataView>| delta_neutral_short_sale(s))
}

/// The volatility, its period, and the type and auxiliary price of the
/// hedge order.
#[verifier::opaque]
pub open spec fn volatility(s: Reading<OrderDataView>) -> Reading<OrderDataView> {
    s.put_optional_double(
        |d: OrderDataView, v: Option<Seq<char>>|
            OrderDataView { order: d.order.with_volatility(v), ..d },
    )
        .and(
            |s: Reading<OrderDataView>|
                s.put_optional_int(
                    |d: OrderDataView, v: Option<int>|
                        OrderDataView { order: d.order.with_volatility_type(match v {
                    Some(code) => VolatilityType::of_code(code),
                    None => None,
                }), ..d },
                ),
        )
        .and(
            |s: Reading<OrderDataView>|
                s.put_string(
                    |d: OrderDataView, v: Seq<char>|
                        OrderDataView { order: d.order.with_delta_neutral_order_type(v), ..d },
                ),
        )
        .and(
            |s: Reading<OrderDataView>|
                s.put_optional_double(
                    |d: OrderDataView, v: Option<Seq<char>>|
                        OrderDataView { order: d.order.with_delta_neutral_aux_price(v), ..d },
                ),
        )
}

/// Whether the price follows the underlying, and how the reference price
/// is computed.
#[verifier::opaque]
pub open spec fn volatility_reference(s: Reading<OrderDataView>) -> Reading<OrderDataView> {
    s.put_bool(
        |d: OrderDataView, v: bool|
            OrderDataView { order: d.order.with_continuous_update(v), ..d },
    )
        .and(
            |s: Reading<OrderDataView>|
                s.put_optional_int(
                    |d: OrderDataView, v: Option<int>|
                        OrderDataView { order: d.order.with_reference_price_type(match v {
                    Some(code) => ReferencePriceType::of_code(code),
                    None => None,
                }), ..d },
                ),
        )
}

/// The fields of a volatility order. The hedge order follows only where a
/// type of hedge order is named.
#[verifier::opaque]
pub open spec fn volatility_order_params(s: Reading<OrderDataView>, open_order_attributes: bool) -> Reading<OrderDataView> {
    volatility(s)
        .and(
            |s: Reading<OrderDataView>|
                if s.value.order.delta_neutral_order_type.len() > 0 {
                    delta_neutral_hedge(s, open_order_attributes)
                } else {
                    s
                },
        )
        .and(|s: Reading<OrderDataView>| volatility_reference(s))
}

/// The two fields of a trailing order.
#[verifier::opaque]
pub open spec fn trail_params(s: Reading<OrderDataView>) -> Reading<OrderDataView> {
    s.put_optional_double(
        |d: OrderDataView, v: Option<Seq<char>>|
            OrderDataView { order: d.order.with_trail_stop_price(v), ..d },
    )
        .and(
            |s: Reading<OrderDataView>|
                s.put_optional_double(
                    |d: OrderDataView, v: Option<Seq<char>>|
                        OrderDataView { order: d.order.with_trailing_percent(v), ..d },
                ),
        )
}

/// The basis points of an EFP order.
#[verifier::opaque]
pub open spec fn basis_points(s: Reading<OrderDataView>) -> Reading<OrderDataView> {
    s.put_optional_double(
        |d: OrderDataView, v: Option<Seq<char>>|
            OrderDataView { order: d.order.with_basis_points(v), ..d },
    )
        .and(
            |s: Reading<OrderDataView>|
                s.put_optional_int(
                    |d: OrderDataView, v: Option<int>|
                        OrderDataView { order: d.order.with_basis_points_type(v), ..d },
                ),
        )
}

/// One leg of the combination: eight fields, which become one more leg of
/// the contract.
#[verifier::opaque]
pub open spec fn combo_leg_entry(s: Reading<OrderDataView>) -> Reading<OrderDataView> {
    s.part(
        |m: MessageView|
            Reading::start(m, ComboLegView::initial()).put_int(|d: ComboLegView, v: int| ComboLegView { contract_id: v, ..d })
                .and(
                    |s: Reading<ComboLegView>|
                        s.put_int(|d: ComboLegView, v: int| ComboLegView { ratio: v, ..d }),
                )
                .and(
                    |s: Reading<ComboLegView>|
                        s.put_string(
                            |d: ComboLegView, v: Seq<char>|
                                ComboLegView { action: v, ..d },
                        ),
                )
                .and(
                    |s: Reading<ComboLegView>|
                        s.put_string(
                            |d: ComboLegView, v: Seq<char>|
                                ComboLegView { exchange: v, ..d },
                        ),
                )
                .and(
                    |s: Reading<ComboLegView>|
                        s.put_int(
                            |d: ComboLegView, v: int|
                                ComboLegView { open_close: ComboLegOpenClose::of_code(v), ..d },
                        ),
                )
                .and(
                    |s: Reading<ComboLegView>|
                        s.put_int(
                            |d: ComboLegView, v: int|
                                ComboLegView { short_sale_slot: v, ..d },
                        ),
                )
                .and(
                    |s: Reading<ComboLegView>|
                        s.put_string(
                            |d: ComboLegView, v: Seq<char>|
                                ComboLegView { designated_location: v, ..d },
                        ),
                )
                .and(
                    |s: Reading<ComboLegView>|
                        s.put_int(|d: ComboLegView, v: int| ComboLegView { exempt_code: v, ..d }),
                ),
        |d: OrderDataView, leg: ComboLegView|
            OrderDataView { contract: d.contract.with_combo_legs(d.contract.combo_legs.push(leg)), ..d },
    )
}

/// Legs one after the other: `count` of them, or as many as can be read
/// before one fails. A count below one reads nothing.
pub open spec fn combo_leg_run(s: Reading<OrderDataView>, count: int) -> Reading<OrderDataView>
    decreases count,
{
    if count <= 0 || s.failure is Some {
        s
    } else {
        combo_leg_run(combo_leg_entry(s), count - 1)
    }
}

/// The legs of the contract: their number, then the legs.
#[verifier::opaque]
pub open spec fn contract_combo_legs(s: Reading<OrderDataView>) -> Reading<OrderDataView> {
    match s.message.read_int() {
        Ok(count) => combo_leg_run(s.skip(), count),
        Err(e) => s.failed(e),
    }
}

/// The price of one leg: one field, which becomes one more leg of the order.
#[verifier::opaque]
pub open spec fn order_combo_leg_entry(s: Reading<OrderDataView>) -> Reading<OrderDataView> {
    s.part(
        |m: MessageView|
            Reading::start(m, OrderComboLegView::initial()).put_optional_double(
                |d: OrderComboLegView, v: Option<Seq<char>>|
                    OrderComboLegView { price: v, ..d },
            ),
        |d: OrderDataView, leg: OrderComboLegView|
            OrderDataView { order: d.order.with_order_combo_legs(d.order.order_combo_legs.push(leg)), ..d },
    )
}

/// Leg prices one after the other: `count` of them, or as many as can be read
/// before one fails. A count below one reads nothing.
pub open spec fn order_combo_leg_run(s: Reading<OrderDataView>, count: int) -> Reading<OrderDataView>
    decreases count,
{
    if count <= 0 || s.failure is Some {
        s
    } else {
        order_combo_leg_run(order_combo_leg_entry(s), count - 1)
    }
}

/// The leg prices of the order: their number, then the prices.
#[verifier::opaque]
pub open spec fn order_combo_legs(s: Reading<OrderDataView>) -> Reading<OrderDataView> {
    match s.message.read_int() {
        Ok(count) => order_combo_leg_run(s.skip(), count),
        Err(e) => s.failed(e),
    }
}

/// The description of the legs.
#[verifier::opaque]
pub open spec fn combo_legs_description(s: Reading<OrderDataView>) -> Reading<OrderDataView> {
    s.put_string(
        |d: OrderDataView, v: Seq<char>|
            OrderDataView { contract: d.contract.with_combo_legs_description(v), ..d },
    )
}

/// The combination: its description, the legs of the contract and the leg
/// prices of the order.
#[verifier::opaque]
pub open spec fn combo_legs(s: Reading<OrderDataView>) -> Reading<OrderDataView> {
    combo_legs_description(s)
        .and(|s: Reading<OrderDataView>| contract_combo_legs(s))
        .and(|s: Reading<OrderDataView>| order_combo_legs(s))
}

/// One parameter of smart combination routing: a name and a value.
#[verifier::opaque]
pub open spec fn smart_combo_routing_entry(s: Reading<OrderDataView>) -> Reading<OrderDataView> {
    s.part(
        |m: MessageView|
            Reading::start(m, TagValueView::initial()).put_string(|d: TagValueView, v: Seq<char>| TagValueView { tag: v, ..d })
                .and(
                    |s: Reading<TagValueView>|
                        s.put_string(|d: TagValueView, v: Seq<char>| TagValueView { value: v, ..d }),
                ),
        |d: OrderDataView, param: TagValueView|
            OrderDataView { order: d.order.with_smart_combo_routing_params(d.order.smart_combo_routing_params.push(param)), ..d },
    )
}

/// Parameters of smart combination routing one after the other: `count` of them, or as many as can be read
/// before one fails. A count below one reads nothing.
pub open spec fn smart_combo_routing_run(s: Reading<OrderDataView>, count: int) -> Reading<OrderDataView>
    decreases count,
{
    if count <= 0 || s.failure is Some {
        s
    } else {
        smart_combo_routing_run(smart_combo_routing_entry(s), count - 1)
    }
}

/// The parameters of smart combination routing: their number, then the
/// parameters.
#[verifier::opaque]
pub open spec fn smart_combo_routing_params(s: Reading<OrderDataView>) -> Reading<OrderDataView> {
    match s.message.read_int() {
        Ok(count) => smart_combo_routing_run(s.skip(), count),
        Err(e) => s.failed(e),
    }
}

/// How the price of a scale order is adjusted, its profit offset, and
/// whether it restarts by itself.
#[verifier::opaque]
pub open spec fn scale_price_adjustment(s: Reading<OrderDataView>) -> Reading<OrderDataView> {
    s.put_optional_double(
        |d: OrderDataView, v: Option<Seq<char>>|
            OrderDataView { order: d.order.with_scale_price_adjust_value(v), ..d },
    )
        .and(
            |s: Reading<OrderDataView>|
                s.put_optional_int(
                    |d: OrderDataView, v: Option<int>|
                        OrderDataView { order: d.order.with_scale_price_adjust_interval(v), ..d },
                ),
        )
        .and(
            |s: Reading<OrderDataView>|
                s.put_optional_double(
                    |d: OrderDataView, v: Option<Seq<char>>|
                        OrderDataView { order: d.order.with_scale_profit_offset(v), ..d },
                ),
        )
        .and(
            |s: Reading<OrderDataView>|
                s.put_bool(
                    |d: OrderDataView, v: bool|
                        OrderDataView { order: d.order.with_scale_auto_reset(v), ..d },
                ),
        )
}

/// The initial position and fill of a scale order, and whether its sizes
/// are randomised.
#[verifier::opaque]
pub open spec fn scale_position(s: Reading<OrderDataView>) -> Reading<OrderDataView> {
    s.put_optional_int(
        |d: OrderDataView, v: Option<int>|
            OrderDataView { order: d.order.with_scale_init_position(v), ..d },
    )
        .and(
            |s: Reading<OrderDataView>|
                s.put_optional_int(
                    |d: OrderDataView, v: Option<int>|
                        OrderDataView { order: d.order.with_scale_init_fill_qty(v), ..d },
                ),
        )
        .and(
            |s: Reading<OrderDataView>|
                s.put_bool(
                    |d: OrderDataView, v: bool|
                        OrderDataView { order: d.order.with_scale_random_percent(v), ..d },
                ),
        )
}

/// The seven fields that a scale order with a price increment carries.
#[verifier::opaque]
pub open spec fn scale_table(s: Reading<OrderDataView>) -> Reading<OrderDataView> {
    scale_price_adjustment(s)
        .and(|s: Reading<OrderDataView>| scale_position(s))
}

/// The level sizes and the price increment of a scale order.
#[verifier::opaque]
pub open spec fn scale_levels(s: Reading<OrderDataView>) -> Reading<OrderDataView> {
    s.put_optional_int(
        |d: OrderDataView, v: Option<int>|
            OrderDataView { order: d.order.with_scale_init_level_size(v), ..d },
    )
        .and(
            |s: Reading<OrderDataView>|
                s.put_optional_int(
                    |d: OrderDataView, v: Option<int>|
                        OrderDataView { order: d.order.with_scale_subs_level_size(v), ..d },
                ),
        )
        .and(
            |s: Reading<OrderDataView>|
                s.put_optional_double(
                    |d: OrderDataView, v: Option<Seq<char>>|
                        OrderDataView { order: d.order.with_scale_price_increment(v), ..d },
                ),
        )
}

/// The fields of a scale order. Seven more follow where the price
/// increment is above zero.
#[verifier::opaque]
pub open spec fn scale_order_params(s: Reading<OrderDataView>) -> Reading<OrderDataView> {
    scale_levels(s)
        .and(
            |s: Reading<OrderDataView>|
                if s.value.order.has_scale_increment() {
                    scale_table(s)
                } else {
                    s
                },
        )
}

/// The parameter of the hedge.
#[verifier::opaque]
pub open spec fn hedge_param(s: Reading<OrderDataView>) -> Reading<OrderDataView> {
    s.put_string(
        |d: OrderDataView, v: Seq<char>|
            OrderDataView { order: d.order.with_hedge_param(v), ..d },
    )
}

/// The kind of hedge.
#[verifier::opaque]
pub open spec fn hedge_type(s: Reading<OrderDataView>) -> Reading<OrderDataView> {
    s.put_string(
        |d: OrderDataView, v: Seq<char>|
            OrderDataView { order: d.order.with_hedge_type(v), ..d },
    )
}

/// The kind of hedge and, where one is named, its parameter.
#[verifier::opaque]
pub open spec fn hedge_params(s: Reading<OrderDataView>) -> Reading<OrderDataView> {
    hedge_type(s)
        .and(
            |s: Reading<OrderDataView>|
                if s.value.order.hedge_type.len() > 0 {
                    hedge_param(s)
                } else {
                    s
                },
        )
}

/// Whether the order opts out of smart routing.
#[verifier::opaque]
pub open spec fn opt_out_smart_routing(s: Reading<OrderDataView>) -> Reading<OrderDataView> {
    s.put_bool(
        |d: OrderDataView, v: bool|
            OrderDataView { order: d.order.with_opt_out_smart_routing(v), ..d },
    )
}

/// The clearing account and intent.
#[verifier::opaque]
pub open spec fn clearing_params(s: Reading<OrderDataView>) -> Reading<OrderDataView> {
    s.put_string(
        |d: OrderDataView, v: Seq<char>|
            OrderDataView { order: d.order.with_clearing_account(v), ..d },
    )
        .and(
            |s: Reading<OrderDataView>|
                s.put_string(
                    |d: OrderDataView, v: Seq<char>|
                        OrderDataView { order: d.order.with_clearing_intent(v), ..d },
                ),
        )
}

/// Whether the order is not held.
#[verifier::opaque]
pub open spec fn not_held(s: Reading<OrderDataView>) -> Reading<OrderDataView> {
    s.put_bool(
        |d: OrderDataView, v: bool|
            OrderDataView { order: d.order.with_not_held(v), ..d },
    )
}

/// The underlying of a delta-neutral combination: three fields.
#[verifier::opaque]
pub open spec fn delta_neutral_contract(s: Reading<OrderDataView>) -> Reading<OrderDataView> {
    s.part(
        |m: MessageView|
            Reading::start(m, DeltaNeutralContractView::initial()).put_int(
                |d: DeltaNeutralContractView, v: int|
                    DeltaNeutralContractView { contract_id: v, ..d },
            )
                .and(
                    |s: Reading<DeltaNeutralContractView>|
                        s.put_double(
                            |d: DeltaNeutralContractView, v: Seq<char>|
                                DeltaNeutralContractView { delta: v, ..d },
                        ),
                )
                .and(
                    |s: Reading<DeltaNeutralContractView>|
                        s.put_double(
                            |d: DeltaNeutralContractView, v: Seq<char>|
                                DeltaNeutralContractView { price: v, ..d },
                        ),
                ),
        |d: OrderDataView, underlying: DeltaNeutralContractView|
            OrderDataView { contract: d.contract.with_delta_neutral_contract(Some(underlying)), ..d },
    )
}

/// A flag, and the delta-neutral underlying where the flag is set.
#[verifier::opaque]
pub open spec fn delta_neutral(s: Reading<OrderDataView>) -> Reading<OrderDataView> {
    match s.message.read_bool() {
        Ok(present) => if present {
            delta_neutral_contract(s.skip())
        } else {
            s.skip()
        },
        Err(e) => s.failed(e),
    }
}

/// One parameter of the algorithm: a name and a value.
#[verifier::opaque]
pub open spec fn algo_param_entry(s: Reading<OrderDataView>) -> Reading<OrderDataView> {
    s.part(
        |m: MessageView|
            Reading::start(m, TagValueView::initial()).put_string(|d: TagValueView, v: Seq<char>| TagValueView { tag: v, ..d })
                .and(
                    |s: Reading<TagValueView>|
                        s.put_string(|d: TagValueView, v: Seq<char>| TagValueView { value: v, ..d }),
                ),
        |d: OrderDataView, param: TagValueView|
            OrderDataView { order: d.order.with_algo_params(d.order.algo_params.push(param)), ..d },
    )
}

/// Parameters of the algorithm one after the other: `count` of them, or as many as can be read
/// before one fails. A count below one reads nothing.
pub open spec fn algo_param_run(s: Reading<OrderDataView>, count: int) -> Reading<OrderDataView>
    decreases count,
{
    if count <= 0 || s.failure is Some {
        s
    } else {
        algo_param_run(algo_param_entry(s), count - 1)
    }
}

/// The parameters of the algorithm: their number, then the parameters.
#[verifier::opaque]
pub open spec fn algo_param_list(s: Reading<OrderDataView>) -> Reading<OrderDataView> {
    match s.message.read_int() {
        Ok(count) => algo_param_run(s.skip(), count),
        Err(e) => s.failed(e),
    }
}

/// The name of the algorithm.
#[verifier::opaque]
pub open spec fn algo_strategy(s: Reading<OrderDataView>) -> Reading<OrderDataView> {
    s.put_string(
        |d: OrderDataView, v: Seq<char>|
            OrderDataView { order: d.order.with_algo_strategy(v), ..d },
    )
}

/// The algorithm and, where one is named, its parameters.
#[verifier::opaque]
pub open spec fn algo_params(s: Reading<OrderDataView>) -> Reading<OrderDataView> {
    algo_strategy(s)
        .and(
            |s: Reading<OrderDataView>|
                if s.value.order.algo_strategy.len() > 0 {
                    algo_param_list(s)
                } else {
                    s
                },
        )
}

/// Whether the broker solicited the trade.
#[verifier::opaque]
pub open spec fn solicited(s: Reading<OrderDataView>) -> Reading<OrderDataView> {
    s.put_bool(
        |d: OrderDataView, v: bool|
            OrderDataView { order: d.order.with_solicited(v), ..d },
    )
}

/// The status of the order.
#[verifier::opaque]
pub open spec fn order_status(s: Reading<OrderDataView>) -> Reading<OrderDataView> {
    s.put_string(
        |d: OrderDataView, v: Seq<char>|
            OrderDataView { order_state: d.order_state.with_status(v), ..d },
    )
}

/// The margins before the order.
#[verifier::opaque]
pub open spec fn margin_before(s: Reading<OrderDataView>) -> Reading<OrderDataView> {
    s.put_optional_double(
        |d: OrderDataView, v: Option<Seq<char>>|
            OrderDataView { order_state: d.order_state.with_initial_margin_before(v), ..d },
    )
        .and(
            |s: Reading<OrderDataView>|
                s.put_optional_double(
                    |d: OrderDataView, v: Option<Seq<char>>|
                        OrderDataView { order_state: d.order_state.with_maintenance_margin_before(v), ..d },
                ),
        )
        .and(
            |s: Reading<OrderDataView>|
                s.put_optional_double(
                    |d: OrderDataView, v: Option<Seq<char>>|
                        OrderDataView { order_state: d.order_state.with_equity_with_loan_before(v), ..d },
                ),
        )
}

/// The change of the margins.
#[verifier::opaque]
pub open spec fn margin_change(s: Reading<OrderDataView>) -> Reading<OrderDataView> {
    s.put_optional_double(
        |d: OrderDataView, v: Option<Seq<char>>|
            OrderDataView { order_state: d.order_state.with_initial_margin_change(v), ..d },
    )
        .and(
            |s: Reading<OrderDataView>|
                s.put_optional_double(
                    |d: OrderDataView, v: Option<Seq<char>>|
                        OrderDataView { order_state: d.order_state.with_maintenance_margin_change(v), ..d },
                ),
        )
        .and(
            |s: Reading<OrderDataView>|
                s.put_optional_double(
                    |d: OrderDataView, v: Option<Seq<char>>|
                        OrderDataView { order_state: d.order_state.with_equity_with_loan_change(v), ..d },
                ),
        )
}

/// The margins before the order and their change: six fields.
#[verifier::opaque]
pub open spec fn margin_before_and_change(v: int, s: Reading<OrderDataView>) -> Reading<OrderDataView> {
    if v < WHAT_IF_EXT_FIELDS {
        s
    } else {
        margin_before(s)
            .and(|s: Reading<OrderDataView>| margin_change(s))
    }
}

/// One allocation of the order to an account: seven fields.
#[verifier::opaque]
pub open spec fn order_allocation_entry(s: Reading<OrderDataView>) -> Reading<OrderDataView> {
    s.part(
        |m: MessageView|
            Reading::start(m, OrderAllocationView::initial()).put_string(
                |d: OrderAllocationView, v: Seq<char>|
                    OrderAllocationView { account: v, ..d },
            )
                .and(
                    |s: Reading<OrderAllocationView>|
                        s.put_optional_double(
                            |d: OrderAllocationView, v: Option<Seq<char>>|
                                OrderAllocationView { position: v, ..d },
                        ),
                )
                .and(
                    |s: Reading<OrderAllocationView>|
                        s.put_optional_double(
                            |d: OrderAllocationView, v: Option<Seq<char>>|
                                OrderAllocationView { position_desired: v, ..d },
                        ),
                )
                .and(
                    |s: Reading<OrderAllocationView>|
                        s.put_optional_double(
                            |d: OrderAllocationView, v: Option<Seq<char>>|
                                OrderAllocationView { position_after: v, ..d },
                        ),
                )
                .and(
                    |s: Reading<OrderAllocationView>|
                        s.put_optional_double(
                            |d: OrderAllocationView, v: Option<Seq<char>>|
                                OrderAllocationView { desired_alloc_qty: v, ..d },
                        ),
                )
                .and(
                    |s: Reading<OrderAllocationView>|
                        s.put_optional_double(
                            |d: OrderAllocationView, v: Option<Seq<char>>|
                                OrderAllocationView { allowed_alloc_qty: v, ..d },
                        ),
                )
                .and(
                    |s: Reading<OrderAllocationView>|
                        s.put_bool(
                            |d: OrderAllocationView, v: bool|
                                OrderAllocationView { is_monetary: v, ..d },
                        ),
                ),
        |d: OrderDataView, allocation: OrderAllocationView|
            OrderDataView { order_state: d.order_state.with_order_allocations(d.order_state.order_allocations.push(allocation)), ..d },
    )
}

/// Allocations one after the other: `count` of them, or as many as can be read
/// before one fails. A count below one reads nothing.
pub open spec fn order_allocation_run(s: Reading<OrderDataView>, count: int) -> Reading<OrderDataView>
    decreases count,
{
    if count <= 0 || s.failure is Some {
        s
    } else {
        order_allocation_run(order_allocation_entry(s), count - 1)
    }
}

/// The allocations of the order: their number, then the allocations.
#[verifier::opaque]
pub open spec fn order_allocations(s: Reading<OrderDataView>) -> Reading<OrderDataView> {
    match s.message.read_int() {
        Ok(count) => order_allocation_run(s.skip(), count),
        Err(e) => s.failed(e),
    }
}

/// The margin currency and the margins before the order, outside regular
/// hours.
#[verifier::opaque]
pub open spec fn preview_margin_before(s: Reading<OrderDataView>) -> Reading<OrderDataView> {
    s.put_string(
        |d: OrderDataView, v: Seq<char>|
            OrderDataView { order_state: d.order_state.with_margin_currency(v), ..d },
    )
        .and(
            |s: Reading<OrderDataView>|
                s.put_optional_double(
                    |d: OrderDataView, v: Option<Seq<char>>|
                        OrderDataView { order_state: d.order_state.with_initial_margin_before_outside_rth(v), ..d },
                ),
        )
        .and(
            |s: Reading<OrderDataView>|
                s.put_optional_double(
                    |d: OrderDataView, v: Option<Seq<char>>|
                        OrderDataView { order_state: d.order_state.with_maintenance_margin_before_outside_rth(v), ..d },
                ),
        )
        .and(
            |s: Reading<OrderDataView>|
                s.put_optional_double(
                    |d: OrderDataView, v: Option<Seq<char>>|
                        OrderDataView { order_state: d.order_state.with_equity_with_loan_before_outside_rth(v), ..d },
                ),
        )
}

/// The change of the margins, outside regular hours.
#[verifier::opaque]
pub open spec fn preview_margin_change(s: Reading<OrderDataView>) -> Reading<OrderDataView> {
    s.put_optional_double(
        |d: OrderDataView, v: Option<Seq<char>>|
            OrderDataView { order_state: d.order_state.with_initial_margin_change_outside_rth(v), ..d },
    )
        .and(
            |s: Reading<OrderDataView>|
                s.put_optional_double(
                    |d: OrderDataView, v: Option<Seq<char>>|
                        OrderDataView { order_state: d.order_state.with_maintenance_margin_change_outside_rth(v), ..d },
                ),
        )
        .and(
            |s: Reading<OrderDataView>|
                s.put_optional_double(
                    |d: OrderDataView, v: Option<Seq<char>>|
                        OrderDataView { order_state: d.order_state.with_equity_with_loan_change_outside_rth(v), ..d },
                ),
        )
}

/// The margins after the order, outside regular hours.
#[verifier::opaque]
pub open spec fn preview_margin_after(s: Reading<OrderDataView>) -> Reading<OrderDataView> {
    s.put_optional_double(
        |d: OrderDataView, v: Option<Seq<char>>|
            OrderDataView { order_state: d.order_state.with_initial_margin_after_outside_rth(v), ..d },
    )
        .and(
            |s: Reading<OrderDataView>|
                s.put_optional_double(
                    |d: OrderDataView, v: Option<Seq<char>>|
                        OrderDataView { order_state: d.order_state.with_maintenance_margin_after_outside_rth(v), ..d },
                ),
        )
        .and(
            |s: Reading<OrderDataView>|
                s.put_optional_double(
                    |d: OrderDataView, v: Option<Seq<char>>|
                        OrderDataView { order_state: d.order_state.with_equity_with_loan_after_outside_rth(v), ..d },
                ),
        )
}

/// The suggested size and the reject reason.
#[verifier::opaque]
pub open spec fn preview_advice(s: Reading<OrderDataView>) -> Reading<OrderDataView> {
    s.put_optional_double(
        |d: OrderDataView, v: Option<Seq<char>>|
            OrderDataView { order_state: d.order_state.with_suggested_size(v), ..d },
    )
        .and(
            |s: Reading<OrderDataView>|
                s.put_string(
                    |d: OrderDataView, v: Seq<char>|
                        OrderDataView { order_state: d.order_state.with_reject_reason(v), ..d },
                ),
        )
}

/// The full preview of the order: the margins outside regular hours and
/// what goes with them, then the allocations.
#[verifier::opaque]
pub open spec fn full_order_preview(v: int, s: Reading<OrderDataView>) -> Reading<OrderDataView> {
    if v < FULL_ORDER_PREVIEW_FIELDS {
        s
    } else {
        preview_margin_before(s)
            .and(|s: Reading<OrderDataView>| preview_margin_change(s))
            .and(|s: Reading<OrderDataView>| preview_margin_after(s))
            .and(|s: Reading<OrderDataView>| preview_advice(s))
            .and(|s: Reading<OrderDataView>| order_allocations(s))
    }
}

/// Whether the order only asks for margin and commission.
#[verifier::opaque]
pub open spec fn what_if(s: Reading<OrderDataView>) -> Reading<OrderDataView> {
    s.put_bool(
        |d: OrderDataView, v: bool|
            OrderDataView { order: d.order.with_what_if(v), ..d },
    )
}

/// The margins after the order.
#[verifier::opaque]
pub open spec fn margin_after(s: Reading<OrderDataView>) -> Reading<OrderDataView> {
    s.put_optional_double(
        |d: OrderDataView, v: Option<Seq<char>>|
            OrderDataView { order_state: d.order_state.with_initial_margin_after(v), ..d },
    )
        .and(
            |s: Reading<OrderDataView>|
                s.put_optional_double(
                    |d: OrderDataView, v: Option<Seq<char>>|
                        OrderDataView { order_state: d.order_state.with_maintenance_margin_after(v), ..d },
                ),
        )
        .and(
            |s: Reading<OrderDataView>|
                s.put_optional_double(
                    |d: OrderDataView, v: Option<Seq<char>>|
                        OrderDataView { order_state: d.order_state.with_equity_with_loan_after(v), ..d },
                ),
        )
}

/// The commission, its bounds and its currency.
#[verifier::opaque]
pub open spec fn commission(s: Reading<OrderDataView>) -> Reading<OrderDataView> {
    s.put_optional_double(
        |d: OrderDataView, v: Option<Seq<char>>|
            OrderDataView { order_state: d.order_state.with_commission(v), ..d },
    )
        .and(
            |s: Reading<OrderDataView>|
                s.put_optional_double(
                    |d: OrderDataView, v: Option<Seq<char>>|
                        OrderDataView { order_state: d.order_state.with_minimum_commission(v), ..d },
                ),
        )
        .and(
            |s: Reading<OrderDataView>|
                s.put_optional_double(
                    |d: OrderDataView, v: Option<Seq<char>>|
                        OrderDataView { order_state: d.order_state.with_maximum_commission(v), ..d },
                ),
        )
        .and(
            |s: Reading<OrderDataView>|
                s.put_string(
                    |d: OrderDataView, v: Seq<char>|
                        OrderDataView { order_state: d.order_state.with_commission_currency(v), ..d },
                ),
        )
}

/// The margins after the order and the commission: seven fields.
#[verifier::opaque]
pub open spec fn margin_after_and_commission(s: Reading<OrderDataView>) -> Reading<OrderDataView> {
    margin_after(s)
        .and(|s: Reading<OrderDataView>| commission(s))
}

/// The warning that came with the order.
#[verifier::opaque]
pub open spec fn warning_text(s: Reading<OrderDataView>) -> Reading<OrderDataView> {
    s.put_string(
        |d: OrderDataView, v: Seq<char>|
            OrderDataView { order_state: d.order_state.with_warning_text(v), ..d },
    )
}

/// What a what-if order reports: the status, the margins and the commission,
/// with the blocks that later versions added among them.
#[verifier::opaque]
pub open spec fn what_if_info_and_commission(v: int, s: Reading<OrderDataView>) -> Reading<OrderDataView> {
    what_if(s)
        .and(|s: Reading<OrderDataView>| order_status(s))
        .and(|s: Reading<OrderDataView>| margin_before_and_change(v, s))
        .and(|s: Reading<OrderDataView>| margin_after_and_commission(s))
        .and(|s: Reading<OrderDataView>| full_order_preview(v, s))
        .and(|s: Reading<OrderDataView>| warning_text(s))
}

/// Whether size and price are randomised.
#[verifier::opaque]
pub open spec fn vol_randomize_flags(s: Reading<OrderDataView>) -> Reading<OrderDataView> {
    s.put_bool(
        |d: OrderDataView, v: bool|
            OrderDataView { order: d.order.with_randomize_size(v), ..d },
    )
        .and(
            |s: Reading<OrderDataView>|
                s.put_bool(
                    |d: OrderDataView, v: bool|
                        OrderDataView { order: d.order.with_randomize_price(v), ..d },
                ),
        )
}

/// The contract of the benchmark, and whether the pegged amount decreases.
#[verifier::opaque]
pub open spec fn benchmark_reference(s: Reading<OrderDataView>) -> Reading<OrderDataView> {
    s.put_int(
        |d: OrderDataView, v: int|
            OrderDataView { order: d.order.with_reference_contract_id(v), ..d },
    )
        .and(
            |s: Reading<OrderDataView>|
                s.put_bool(
                    |d: OrderDataView, v: bool|
                        OrderDataView { order: d.order.with_is_pegged_change_amount_decrease(v), ..d },
                ),
        )
}

/// The two change amounts and the exchange of the benchmark.
#[verifier::opaque]
pub open spec fn benchmark_amounts(s: Reading<OrderDataView>) -> Reading<OrderDataView> {
    s.put_optional_double(
        |d: OrderDataView, v: Option<Seq<char>>|
            OrderDataView { order: d.order.with_pegged_change_amount(v), ..d },
    )
        .and(
            |s: Reading<OrderDataView>|
                s.put_optional_double(
                    |d: OrderDataView, v: Option<Seq<char>>|
                        OrderDataView { order: d.order.with_reference_change_amount(v), ..d },
                ),
        )
        .and(
            |s: Reading<OrderDataView>|
                s.put_string(
                    |d: OrderDataView, v: Seq<char>|
                        OrderDataView { order: d.order.with_reference_exchange(v), ..d },
                ),
        )
}

/// The fields of an order that is pegged to a benchmark; no other order
/// type carries them.
#[verifier::opaque]
pub open spec fn peg_to_bench_params(v: int, s: Reading<OrderDataView>) -> Reading<OrderDataView> {
    if v < PEGGED_TO_BENCHMARK || s.value.order.order_type != peg_bench() {
        s
    } else {
        benchmark_reference(s)
            .and(|s: Reading<OrderDataView>| benchmark_amounts(s))
    }
}

/// One condition, which becomes one more condition of the order.
#[verifier::opaque]
pub open spec fn condition_entry(s: Reading<OrderDataView>) -> Reading<OrderDataView> {
    s.part(
        |m: MessageView| condition(m),
        |d: OrderDataView, c: OrderConditionView|
            OrderDataView { order: d.order.with_conditions(d.order.conditions.push(c)), ..d },
    )
}

/// The two flags that hold for all conditions.
#[verifier::opaque]
pub open spec fn condition_flags(s: Reading<OrderDataView>) -> Reading<OrderDataView> {
    s.put_bool(
        |d: OrderDataView, v: bool|
            OrderDataView { order: d.order.with_conditions_ignore_rth(v), ..d },
    )
        .and(
            |s: Reading<OrderDataView>|
                s.put_bool(
                    |d: OrderDataView, v: bool|
                        OrderDataView { order: d.order.with_conditions_cancel_order(v), ..d },
                ),
        )
}

/// Conditions one after the other: `count` of them, or as many as can be read
/// before one fails. A count below one reads nothing.
pub open spec fn condition_run(s: Reading<OrderDataView>, count: int) -> Reading<OrderDataView>
    decreases count,
{
    if count <= 0 || s.failure is Some {
        s
    } else {
        condition_run(condition_entry(s), count - 1)
    }
}

/// The conditions of the order: their number, the conditions and, where
/// there is at least one, two flags that hold for all of them.
#[verifier::opaque]
pub open spec fn conditions(v: int, s: Reading<OrderDataView>) -> Reading<OrderDataView> {
    if v < PEGGED_TO_BENCHMARK {
        s
    } else {
        match s.message.read_int() {
            Ok(count) => condition_run(s.skip(), count).and(
                |s: Reading<OrderDataView>|
                    if count > 0 {
                        condition_flags(s)
                    } else {
                        s
                    },
            ),
            Err(e) => s.failed(e),
        }
    }
}

/// The type of the adjusted order and the prices that trigger it.
#[verifier::opaque]
pub open spec fn adjusted_order(s: Reading<OrderDataView>) -> Reading<OrderDataView> {
    s.put_string(
        |d: OrderDataView, v: Seq<char>|
            OrderDataView { order: d.order.with_adjusted_order_type(v), ..d },
    )
        .and(
            |s: Reading<OrderDataView>|
                s.put_optional_double(
                    |d: OrderDataView, v: Option<Seq<char>>|
                        OrderDataView { order: d.order.with_trigger_price(v), ..d },
                ),
        )
        .and(
            |s: Reading<OrderDataView>|
                s.put_optional_double(
                    |d: OrderDataView, v: Option<Seq<char>>|
                        OrderDataView { order: d.order.with_trail_stop_price(v), ..d },
                ),
        )
        .and(
            |s: Reading<OrderDataView>|
                s.put_optional_double(
                    |d: OrderDataView, v: Option<Seq<char>>|
                        OrderDataView { order: d.order.with_limit_price_offset(v), ..d },
                ),
        )
}

/// The stop prices and the trailing amount after the adjustment.
#[verifier::opaque]
pub open spec fn adjusted_stops(s: Reading<OrderDataView>) -> Reading<OrderDataView> {
    s.put_optional_double(
        |d: OrderDataView, v: Option<Seq<char>>|
            OrderDataView { order: d.order.with_adjusted_stop_price(v), ..d },
    )
        .and(
            |s: Reading<OrderDataView>|
                s.put_optional_double(
                    |d: OrderDataView, v: Option<Seq<char>>|
                        OrderDataView { order: d.order.with_adjusted_stop_limit_price(v), ..d },
                ),
        )
        .and(
            |s: Reading<OrderDataView>|
                s.put_optional_double(
                    |d: OrderDataView, v: Option<Seq<char>>|
                        OrderDataView { order: d.order.with_adjusted_trailing_amount(v), ..d },
                ),
        )
        .and(
            |s: Reading<OrderDataView>|
                s.put_int(
                    |d: OrderDataView, v: int|
                        OrderDataView { order: d.order.with_adjustable_trailing_unit(v), ..d },
                ),
        )
}

/// The fields of an adjusted order.
#[verifier::opaque]
pub open spec fn adjusted_order_params(v: int, s: Reading<OrderDataView>) -> Reading<OrderDataView> {
    if v < PEGGED_TO_BENCHMARK {
        s
    } else {
        adjusted_order(s)
            .and(|s: Reading<OrderDataView>| adjusted_stops(s))
    }
}

/// The soft-dollar tier: three fields.
#[verifier::opaque]
pub open spec fn soft_dollar_tier(v: int, s: Reading<OrderDataView>) -> Reading<OrderDataView> {
    if v < SOFT_DOLLAR_TIER {
        s
    } else {
        s.part(
            |m: MessageView|
                Reading::start(m, SoftDollarTierView::initial()).put_string(
                    |d: SoftDollarTierView, v: Seq<char>|
                        SoftDollarTierView { name: v, ..d },
                )
                    .and(
                        |s: Reading<SoftDollarTierView>|
                            s.put_string(
                                |d: SoftDollarTierView, v: Seq<char>|
                                    SoftDollarTierView { value: v, ..d },
                            ),
                    )
                    .and(
                        |s: Reading<SoftDollarTierView>|
                            s.put_string(
                                |d: SoftDollarTierView, v: Seq<char>|
                                    SoftDollarTierView { display_name: v, ..d },
                            ),
                    ),
            |d: OrderDataView, tier: SoftDollarTierView|
                OrderDataView { order: d.order.with_soft_dollar_tier(tier), ..d },
        )
    }
}

/// The cash quantity.
#[verifier::opaque]
pub open spec fn cash_qty(v: int, s: Reading<OrderDataView>) -> Reading<OrderDataView> {
    if v < CASH_QTY {
        s
    } else {
        s.put_optional_double(
            |d: OrderDataView, v: Option<Seq<char>>|
                OrderDataView { order: d.order.with_cash_qty(v), ..d },
        )
    }
}

/// Whether the hedge keeps its own price.
#[verifier::opaque]
pub open spec fn dont_use_auto_price_for_hedge(v: int, s: Reading<OrderDataView>) -> Reading<OrderDataView> {
    if v < AUTO_PRICE_FOR_HEDGE {
        s
    } else {
        s.put_bool(
            |d: OrderDataView, v: bool|
                OrderDataView { order: d.order.with_dont_use_auto_price_for_hedge(v), ..d },
        )
    }
}

/// Whether the order is an OMS container.
#[verifier::opaque]
pub open spec fn is_oms_container(v: int, s: Reading<OrderDataView>) -> Reading<OrderDataView> {
    if v < ORDER_CONTAINER {
        s
    } else {
        s.put_bool(
            |d: OrderDataView, v: bool|
                OrderDataView { order: d.order.with_is_oms_container(v), ..d },
        )
    }
}

/// Whether discretion reaches up to the limit price.
#[verifier::opaque]
pub open spec fn discretionary_up_to_limit_price(v: int, s: Reading<OrderDataView>) -> Reading<OrderDataView> {
    if v < D_PEG_ORDERS {
        s
    } else {
        s.put_bool(
            |d: OrderDataView, v: bool|
                OrderDataView { order: d.order.with_discretionary_up_to_limit_price(v), ..d },
        )
    }
}

/// Whether the price management algorithm is used.
#[verifier::opaque]
pub open spec fn use_price_mgmt_algo(v: int, s: Reading<OrderDataView>) -> Reading<OrderDataView> {
    if v < PRICE_MGMT_ALGO {
        s
    } else {
        s.put_bool(
            |d: OrderDataView, v: bool|
                OrderDataView { order: d.order.with_use_price_mgmt_algo(v), ..d },
        )
    }
}

/// The duration of the order.
#[verifier::opaque]
pub open spec fn duration(v: int, s: Reading<OrderDataView>) -> Reading<OrderDataView> {
    if v < DURATION {
        s
    } else {
        s.put_optional_int(
            |d: OrderDataView, v: Option<int>|
                OrderDataView { order: d.order.with_duration(v), ..d },
        )
    }
}

/// Whether the order is posted to the ATS.
#[verifier::opaque]
pub open spec fn post_to_ats(v: int, s: Reading<OrderDataView>) -> Reading<OrderDataView> {
    if v < POST_TO_ATS {
        s
    } else {
        s.put_optional_int(
            |d: OrderDataView, v: Option<int>|
                OrderDataView { order: d.order.with_post_to_ats(v), ..d },
        )
    }
}

/// Whether cancelling the children cancels the parent.
#[verifier::opaque]
pub open spec fn auto_cancel_parent(v: int, s: Reading<OrderDataView>) -> Reading<OrderDataView> {
    if v < AUTO_CANCEL_PARENT {
        s
    } else {
        s.put_bool(
            |d: OrderDataView, v: bool|
                OrderDataView { order: d.order.with_auto_cancel_parent(v), ..d },
        )
    }
}

/// The least quantity to trade and the least size to compete.
#[verifier::opaque]
pub open spec fn peg_best_sizes(s: Reading<OrderDataView>) -> Reading<OrderDataView> {
    s.put_optional_int(
        |d: OrderDataView, v: Option<int>|
            OrderDataView { order: d.order.with_min_trade_qty(v), ..d },
    )
        .and(
            |s: Reading<OrderDataView>|
                s.put_optional_int(
                    |d: OrderDataView, v: Option<int>|
                        OrderDataView { order: d.order.with_min_compete_size(v), ..d },
                ),
        )
}

/// The offset against the best price and the two mid offsets.
#[verifier::opaque]
pub open spec fn peg_best_offsets(s: Reading<OrderDataView>) -> Reading<OrderDataView> {
    s.put_optional_double(
        |d: OrderDataView, v: Option<Seq<char>>|
            OrderDataView { order: d.order.with_compete_against_best_offset(v), ..d },
    )
        .and(
            |s: Reading<OrderDataView>|
                s.put_optional_double(
                    |d: OrderDataView, v: Option<Seq<char>>|
                        OrderDataView { order: d.order.with_mid_offset_at_whole(v), ..d },
                ),
        )
        .and(
            |s: Reading<OrderDataView>|
                s.put_optional_double(
                    |d: OrderDataView, v: Option<Seq<char>>|
                        OrderDataView { order: d.order.with_mid_offset_at_half(v), ..d },
                ),
        )
}

/// The five fields of an order pegged to the best price or to the midpoint.
#[verifier::opaque]
pub open spec fn peg_best_peg_mid_order_attributes(v: int, s: Reading<OrderDataView>) -> Reading<OrderDataView> {
    if v < PEGBEST_PEGMID_OFFSETS {
        s
    } else {
        peg_best_sizes(s)
            .and(|s: Reading<OrderDataView>| peg_best_offsets(s))
    }
}

/// The account of the customer.
#[verifier::opaque]
pub open spec fn customer_account(v: int, s: Reading<OrderDataView>) -> Reading<OrderDataView> {
    if v < CUSTOMER_ACCOUNT {
        s
    } else {
        s.put_string(
            |d: OrderDataView, v: Seq<char>|
                OrderDataView { order: d.order.with_customer_account(v), ..d },
        )
    }
}

/// Whether the customer is a professional.
#[verifier::opaque]
pub open spec fn professional_customer(v: int, s: Reading<OrderDataView>) -> Reading<OrderDataView> {
    if v < PROFESSIONAL_CUSTOMER {
        s
    } else {
        s.put_bool(
            |d: OrderDataView, v: bool|
                OrderDataView { order: d.order.with_professional_customer(v), ..d },
        )
    }
}

/// The accrued interest of a bond.
#[verifier::opaque]
pub open spec fn bond_accrued_interest(v: int, s: Reading<OrderDataView>) -> Reading<OrderDataView> {
    if v < BOND_ACCRUED_INTEREST {
        s
    } else {
        s.put_string(
            |d: OrderDataView, v: Seq<char>|
                OrderDataView { order: d.order.with_bond_accrued_interest(v), ..d },
        )
    }
}

/// Whether the order takes part in overnight trading.
#[verifier::opaque]
pub open spec fn include_overnight(v: int, s: Reading<OrderDataView>) -> Reading<OrderDataView> {
    if v < INCLUDE_OVERNIGHT {
        s
    } else {
        s.put_bool(
            |d: OrderDataView, v: bool|
                OrderDataView { order: d.order.with_include_overnight(v), ..d },
        )
    }
}

/// The two CME tagging fields.
#[verifier::opaque]
pub open spec fn cme_tagging_fields(v: int, s: Reading<OrderDataView>) -> Reading<OrderDataView> {
    if v < CME_TAGGING_FIELDS_IN_OPEN_ORDER {
        s
    } else {
        s.put_string(
            |d: OrderDataView, v: Seq<char>|
                OrderDataView { order: d.order.with_ext_operator(v), ..d },
        )
            .and(
                |s: Reading<OrderDataView>|
                    s.put_optional_int(
                        |d: OrderDataView, v: Option<int>|
                            OrderDataView { order: d.order.with_manual_order_indicator(v), ..d },
                    ),
            )
    }
}

/// Who submitted the order.
#[verifier::opaque]
pub open spec fn submitter(v: int, s: Reading<OrderDataView>) -> Reading<OrderDataView> {
    if v < SUBMITTER {
        s
    } else {
        s.put_string(
            |d: OrderDataView, v: Seq<char>|
                OrderDataView { order: d.order.with_submitter(v), ..d },
        )
    }
}

/// The trailing stop price and the offset of the limit price.
#[verifier::opaque]
pub open spec fn stop_price_and_limit_price_offset(s: Reading<OrderDataView>) -> Reading<OrderDataView> {
    s.put_optional_double(
        |d: OrderDataView, v: Option<Seq<char>>|
            OrderDataView { order: d.order.with_trail_stop_price(v), ..d },
    )
        .and(
            |s: Reading<OrderDataView>|
                s.put_optional_double(
                    |d: OrderDataView, v: Option<Seq<char>>|
                        OrderDataView { order: d.order.with_limit_price_offset(v), ..d },
                ),
        )
}

/// The date at which the order is cancelled by itself.
#[verifier::opaque]
pub open spec fn auto_cancel_date(s: Reading<OrderDataView>) -> Reading<OrderDataView> {
    s.put_string(
        |d: OrderDataView, v: Seq<char>|
            OrderDataView { order: d.order.with_auto_cancel_date(v), ..d },
    )
}

/// The quantity that has been filled.
#[verifier::opaque]
pub open spec fn filled_quantity(s: Reading<OrderDataView>) -> Reading<OrderDataView> {
    s.put_double(
        |d: OrderDataView, v: Seq<char>|
            OrderDataView { order: d.order.with_filled_quantity(v), ..d },
    )
}

/// The contract of the reference future.
#[verifier::opaque]
pub open spec fn ref_futures_contract_id(s: Reading<OrderDataView>) -> Reading<OrderDataView> {
    s.put_optional_int(
        |d: OrderDataView, v: Option<int>|
            OrderDataView { order: d.order.with_ref_futures_con_id(v), ..d },
    )
}

/// The shareholder status.
#[verifier::opaque]
pub open spec fn shareholder(s: Reading<OrderDataView>) -> Reading<OrderDataView> {
    s.put_string(
        |d: OrderDataView, v: Seq<char>|
            OrderDataView { order: d.order.with_shareholder(v), ..d },
    )
}

/// Whether the order trades imbalances only.
#[verifier::opaque]
pub open spec fn imbalance_only(v: int, s: Reading<OrderDataView>) -> Reading<OrderDataView> {
    if v < IMBALANCE_ONLY {
        s
    } else {
        s.put_bool(
            |d: OrderDataView, v: bool|
                OrderDataView { order: d.order.with_imbalance_only(v), ..d },
        )
    }
}

/// Whether the order trades imbalances only, at every version: a
/// completed order always carries the field.
#[verifier::opaque]
pub open spec fn imbalance_only_always(s: Reading<OrderDataView>) -> Reading<OrderDataView> {
    s.put_bool(
        |d: OrderDataView, v: bool|
            OrderDataView { order: d.order.with_imbalance_only(v), ..d },
    )
}

/// Whether a marketable order is routed to the best bid or offer.
#[verifier::opaque]
pub open spec fn route_marketable_to_bbo(s: Reading<OrderDataView>) -> Reading<OrderDataView> {
    s.put_bool(
        |d: OrderDataView, v: bool|
            OrderDataView { order: d.order.with_route_marketable_to_bbo(v), ..d },
    )
}

/// The host identifier of the parent order.
#[verifier::opaque]
pub open spec fn parent_perm_id(s: Reading<OrderDataView>) -> Reading<OrderDataView> {
    s.put_optional_long(
        |d: OrderDataView, v: Option<int>|
            OrderDataView { order: d.order.with_parent_perm_id(v), ..d },
    )
}

/// When the order was completed.
#[verifier::opaque]
pub open spec fn completed_time(s: Reading<OrderDataView>) -> Reading<OrderDataView> {
    s.put_string(
        |d: OrderDataView, v: Seq<char>|
            OrderDataView { order_state: d.order_state.with_completed_time(v), ..d },
    )
}

/// How the order was completed.
#[verifier::opaque]
pub open spec fn completed_status(s: Reading<OrderDataView>) -> Reading<OrderDataView> {
    s.put_string(
        |d: OrderDataView, v: Seq<char>|
            OrderDataView { order_state: d.order_state.with_completed_status(v), ..d },
    )
}

/// Which order it is and what it asks for: the identifier, the contract,
/// the side, the quantity, the type, the prices, the time in force, the
/// group and the account.
#[verifier::opaque]
pub open spec fn open_order_header(s: Reading<OrderDataView>) -> Reading<OrderDataView> {
    order_id(s)
        .and(|s: Reading<OrderDataView>| contract_fields(s))
        .and(|s: Reading<OrderDataView>| action(s))
        .and(|s: Reading<OrderDataView>| total_quantity(s))
        .and(|s: Reading<OrderDataView>| order_type(s))
        .and(|s: Reading<OrderDataView>| limit_price(s))
        .and(|s: Reading<OrderDataView>| aux_price(s))
        .and(|s: Reading<OrderDataView>| tif(s))
        .and(|s: Reading<OrderDataView>| oca_group(s))
        .and(|s: Reading<OrderDataView>| account(s))
}

/// How the order is handled: from whom it comes, and when and where it may
/// trade.
#[verifier::opaque]
pub open spec fn open_order_handling(s: Reading<OrderDataView>) -> Reading<OrderDataView> {
    open_close(s)
        .and(|s: Reading<OrderDataView>| origin(s))
        .and(|s: Reading<OrderDataView>| order_ref(s))
        .and(|s: Reading<OrderDataView>| client_id(s))
        .and(|s: Reading<OrderDataView>| perm_id(s))
        .and(|s: Reading<OrderDataView>| outside_rth(s))
        .and(|s: Reading<OrderDataView>| hidden(s))
        .and(|s: Reading<OrderDataView>| discretionary_amt(s))
        .and(|s: Reading<OrderDataView>| good_after_time(s))
        .and(|s: Reading<OrderDataView>| s.skip())
}

/// The advisor and model, the validity, the capacity and the short sale,
/// then the auction and the reference prices.
#[verifier::opaque]
pub open spec fn open_order_routing(v: int, s: Reading<OrderDataView>) -> Reading<OrderDataView> {
    fa_params(v, s)
        .and(|s: Reading<OrderDataView>| model_code(v, s))
        .and(|s: Reading<OrderDataView>| good_till_date(s))
        .and(|s: Reading<OrderDataView>| rule_80_a(s))
        .and(|s: Reading<OrderDataView>| percent_offset(s))
        .and(|s: Reading<OrderDataView>| settling_firm(s))
        .and(|s: Reading<OrderDataView>| short_sale_params(s))
        .and(|s: Reading<OrderDataView>| auction_strategy(s))
        .and(|s: Reading<OrderDataView>| box_order_params(s))
        .and(|s: Reading<OrderDataView>| peg_to_stock_or_vol_order_params(s))
}

/// How the order may fill, its group, its parent and its trigger.
#[verifier::opaque]
pub open spec fn open_order_filling(s: Reading<OrderDataView>) -> Reading<OrderDataView> {
    display_size(s)
        .and(|s: Reading<OrderDataView>| block_order(s))
        .and(|s: Reading<OrderDataView>| sweep_to_fill(s))
        .and(|s: Reading<OrderDataView>| all_or_none(s))
        .and(|s: Reading<OrderDataView>| min_qty(s))
        .and(|s: Reading<OrderDataView>| oca_type(s))
        .and(|s: Reading<OrderDataView>| s.skip())
        .and(|s: Reading<OrderDataView>| s.skip())
        .and(|s: Reading<OrderDataView>| s.skip())
        .and(|s: Reading<OrderDataView>| parent_id(s))
        .and(|s: Reading<OrderDataView>| trigger_method(s))
}

/// Volatility, trailing, combination, scale, hedge and clearing.
#[verifier::opaque]
pub open spec fn open_order_strategy(s: Reading<OrderDataView>) -> Reading<OrderDataView> {
    volatility_order_params(s, true)
        .and(|s: Reading<OrderDataView>| trail_params(s))
        .and(|s: Reading<OrderDataView>| basis_points(s))
        .and(|s: Reading<OrderDataView>| combo_legs(s))
        .and(|s: Reading<OrderDataView>| smart_combo_routing_params(s))
        .and(|s: Reading<OrderDataView>| scale_order_params(s))
        .and(|s: Reading<OrderDataView>| hedge_params(s))
        .and(|s: Reading<OrderDataView>| opt_out_smart_routing(s))
        .and(|s: Reading<OrderDataView>| clearing_params(s))
        .and(|s: Reading<OrderDataView>| not_held(s))
}

/// The delta-neutral underlying, the algorithm, the what-if report, the
/// benchmark, the conditions, the adjustment, the tier and the cash quantity.
#[verifier::opaque]
pub open spec fn open_order_report(v: int, s: Reading<OrderDataView>) -> Reading<OrderDataView> {
    delta_neutral(s)
        .and(|s: Reading<OrderDataView>| algo_params(s))
        .and(|s: Reading<OrderDataView>| solicited(s))
        .and(|s: Reading<OrderDataView>| what_if_info_and_commission(v, s))
        .and(|s: Reading<OrderDataView>| vol_randomize_flags(s))
        .and(|s: Reading<OrderDataView>| peg_to_bench_params(v, s))
        .and(|s: Reading<OrderDataView>| conditions(v, s))
        .and(|s: Reading<OrderDataView>| adjusted_order_params(v, s))
        .and(|s: Reading<OrderDataView>| soft_dollar_tier(v, s))
        .and(|s: Reading<OrderDataView>| cash_qty(v, s))
}

/// The single fields that versions 141 to 170 added.
#[verifier::opaque]
pub open spec fn open_order_extensions(v: int, s: Reading<OrderDataView>) -> Reading<OrderDataView> {
    dont_use_auto_price_for_hedge(v, s)
        .and(|s: Reading<OrderDataView>| is_oms_container(v, s))
        .and(|s: Reading<OrderDataView>| discretionary_up_to_limit_price(v, s))
        .and(|s: Reading<OrderDataView>| use_price_mgmt_algo(v, s))
        .and(|s: Reading<OrderDataView>| duration(v, s))
        .and(|s: Reading<OrderDataView>| post_to_ats(v, s))
        .and(|s: Reading<OrderDataView>| auto_cancel_parent(v, s))
        .and(|s: Reading<OrderDataView>| peg_best_peg_mid_order_attributes(v, s))
}

/// The fields that versions 183 to 199 added at the end.
#[verifier::opaque]
pub open spec fn open_order_additions(v: int, s: Reading<OrderDataView>) -> Reading<OrderDataView> {
    customer_account(v, s)
        .and(|s: Reading<OrderDataView>| professional_customer(v, s))
        .and(|s: Reading<OrderDataView>| bond_accrued_interest(v, s))
        .and(|s: Reading<OrderDataView>| include_overnight(v, s))
        .and(|s: Reading<OrderDataView>| cme_tagging_fields(v, s))
        .and(|s: Reading<OrderDataView>| submitter(v, s))
        .and(|s: Reading<OrderDataView>| imbalance_only(v, s))
}

/// What the order asked for: the contract, the side, the quantity, the
/// type, the prices, the time in force, the group and the account.
#[verifier::opaque]
pub open spec fn completed_order_header(s: Reading<OrderDataView>) -> Reading<OrderDataView> {
    contract_fields(s)
        .and(|s: Reading<OrderDataView>| action(s))
        .and(|s: Reading<OrderDataView>| total_quantity(s))
        .and(|s: Reading<OrderDataView>| order_type(s))
        .and(|s: Reading<OrderDataView>| limit_price(s))
        .and(|s: Reading<OrderDataView>| aux_price(s))
        .and(|s: Reading<OrderDataView>| tif(s))
        .and(|s: Reading<OrderDataView>| oca_group(s))
        .and(|s: Reading<OrderDataView>| account(s))
}

/// How the order was handled: from whom it came, and when and where it
/// might trade.
#[verifier::opaque]
pub open spec fn completed_order_handling(s: Reading<OrderDataView>) -> Reading<OrderDataView> {
    open_close(s)
        .and(|s: Reading<OrderDataView>| origin(s))
        .and(|s: Reading<OrderDataView>| order_ref(s))
        .and(|s: Reading<OrderDataView>| perm_id(s))
        .and(|s: Reading<OrderDataView>| outside_rth(s))
        .and(|s: Reading<OrderDataView>| hidden(s))
        .and(|s: Reading<OrderDataView>| discretionary_amt(s))
        .and(|s: Reading<OrderDataView>| good_after_time(s))
}

/// The advisor and model, the validity, the capacity and the short sale,
/// then the reference prices.
#[verifier::opaque]
pub open spec fn completed_order_routing(v: int, s: Reading<OrderDataView>) -> Reading<OrderDataView> {
    fa_params(v, s)
        .and(|s: Reading<OrderDataView>| model_code(v, s))
        .and(|s: Reading<OrderDataView>| good_till_date(s))
        .and(|s: Reading<OrderDataView>| rule_80_a(s))
        .and(|s: Reading<OrderDataView>| percent_offset(s))
        .and(|s: Reading<OrderDataView>| settling_firm(s))
        .and(|s: Reading<OrderDataView>| short_sale_params(s))
        .and(|s: Reading<OrderDataView>| box_order_params(s))
        .and(|s: Reading<OrderDataView>| peg_to_stock_or_vol_order_params(s))
}

/// How the order might fill, its group and its trigger.
#[verifier::opaque]
pub open spec fn completed_order_filling(s: Reading<OrderDataView>) -> Reading<OrderDataView> {
    display_size(s)
        .and(|s: Reading<OrderDataView>| sweep_to_fill(s))
        .and(|s: Reading<OrderDataView>| all_or_none(s))
        .and(|s: Reading<OrderDataView>| min_qty(s))
        .and(|s: Reading<OrderDataView>| oca_type(s))
        .and(|s: Reading<OrderDataView>| trigger_method(s))
}

/// Volatility, trailing, combination, scale, hedge and clearing.
#[verifier::opaque]
pub open spec fn completed_order_strategy(s: Reading<OrderDataView>) -> Reading<OrderDataView> {
    volatility_order_params(s, false)
        .and(|s: Reading<OrderDataView>| trail_params(s))
        .and(|s: Reading<OrderDataView>| combo_legs(s))
        .and(|s: Reading<OrderDataView>| smart_combo_routing_params(s))
        .and(|s: Reading<OrderDataView>| scale_order_params(s))
        .and(|s: Reading<OrderDataView>| hedge_params(s))
        .and(|s: Reading<OrderDataView>| clearing_params(s))
        .and(|s: Reading<OrderDataView>| not_held(s))
}

/// The delta-neutral underlying, the algorithm, the status, the benchmark,
/// the conditions, the stop price and the cash quantity.
#[verifier::opaque]
pub open spec fn completed_order_report(v: int, s: Reading<OrderDataView>) -> Reading<OrderDataView> {
    delta_neutral(s)
        .and(|s: Reading<OrderDataView>| algo_params(s))
        .and(|s: Reading<OrderDataView>| solicited(s))
        .and(|s: Reading<OrderDataView>| order_status(s))
        .and(|s: Reading<OrderDataView>| vol_randomize_flags(s))
        .and(|s: Reading<OrderDataView>| peg_to_bench_params(v, s))
        .and(|s: Reading<OrderDataView>| conditions(v, s))
        .and(|s: Reading<OrderDataView>| stop_price_and_limit_price_offset(s))
        .and(|s: Reading<OrderDataView>| cash_qty(v, s))
}

/// What was filled, and the flags that go with it.
#[verifier::opaque]
pub open spec fn completed_order_fill(v: int, s: Reading<OrderDataView>) -> Reading<OrderDataView> {
    dont_use_auto_price_for_hedge(v, s)
        .and(|s: Reading<OrderDataView>| is_oms_container(v, s))
        .and(|s: Reading<OrderDataView>| auto_cancel_date(s))
        .and(|s: Reading<OrderDataView>| filled_quantity(s))
        .and(|s: Reading<OrderDataView>| ref_futures_contract_id(s))
        .and(|s: Reading<OrderDataView>| auto_cancel_parent(v, s))
}

/// Who held the order, its parent, and when and how it was completed.
#[verifier::opaque]
pub open spec fn completed_order_completion(v: int, s: Reading<OrderDataView>) -> Reading<OrderDataView> {
    shareholder(s)
        .and(|s: Reading<OrderDataView>| imbalance_only_always(s))
        .and(|s: Reading<OrderDataView>| route_marketable_to_bbo(s))
        .and(|s: Reading<OrderDataView>| parent_perm_id(s))
        .and(|s: Reading<OrderDataView>| completed_time(s))
        .and(|s: Reading<OrderDataView>| completed_status(s))
        .and(|s: Reading<OrderDataView>| peg_best_peg_mid_order_attributes(v, s))
}

/// The fields that versions 183 to 198 added at the end.
#[verifier::opaque]
pub open spec fn completed_order_additions(v: int, s: Reading<OrderDataView>) -> Reading<OrderDataView> {
    customer_account(v, s)
        .and(|s: Reading<OrderDataView>| professional_customer(v, s))
        .and(|s: Reading<OrderDataView>| submitter(v, s))
}

/// The layout of an open order as far as version 182 knows it: the order
/// identifier, the contract, then the blocks of the order in wire order.
pub open spec fn open_order_base(v: int, m: MessageView) -> Reading<OrderDataView> {
    begin(v, m)
        .and(|s: Reading<OrderDataView>| open_order_header(s))
        .and(|s: Reading<OrderDataView>| open_order_handling(s))
        .and(|s: Reading<OrderDataView>| open_order_routing(v, s))
        .and(|s: Reading<OrderDataView>| open_order_filling(s))
        .and(|s: Reading<OrderDataView>| open_order_strategy(s))
        .and(|s: Reading<OrderDataView>| open_order_report(v, s))
        .and(|s: Reading<OrderDataView>| open_order_extensions(v, s))
}

/// The layout of an open order: the base layout, then the blocks that
/// versions 183 to 199 added at the end.
pub open spec fn open_order(v: int, m: MessageView) -> Reading<OrderDataView> {
    open_order_base(v, m)
        .and(|s: Reading<OrderDataView>| open_order_additions(v, s))
}

/// The layout of a completed order as far as version 182 knows it. It has
/// no order identifier, client, auction strategy, basis points or what-if
/// block; the status stands alone, and the completion closes it.
pub open spec fn completed_order_base(v: int, m: MessageView) -> Reading<OrderDataView> {
    begin(v, m)
        .and(|s: Reading<OrderDataView>| completed_order_header(s))
        .and(|s: Reading<OrderDataView>| completed_order_handling(s))
        .and(|s: Reading<OrderDataView>| completed_order_routing(v, s))
        .and(|s: Reading<OrderDataView>| completed_order_filling(s))
        .and(|s: Reading<OrderDataView>| completed_order_strategy(s))
        .and(|s: Reading<OrderDataView>| completed_order_report(v, s))
        .and(|s: Reading<OrderDataView>| completed_order_fill(v, s))
        .and(|s: Reading<OrderDataView>| completed_order_completion(v, s))
}

/// The layout of a completed order: the base layout, then the blocks that
/// versions 183 to 198 added at the end.
pub open spec fn completed_order(v: int, m: MessageView) -> Reading<OrderDataView> {
    completed_order_base(v, m)
        .and(|s: Reading<OrderDataView>| completed_order_additions(v, s))
}

/// The decoder of an order message at work: the version that was
/// negotiated, the message with its reader, and the record as far as it is
/// filled. Every step takes the decoder and hands it back, or the error
/// that stopped it.
pub struct OrderDecoder {
    server_version: i32,
    message: ResponseMessage,
    order_id: i32,
    contract: Contract,
    order: Order,
    order_state: OrderState,
}

impl OrderDecoder {
    /// The version that was negotiated with the server.
    pub closed spec fn version(&self) -> int {
        self.server_version as int
    }

    /// The record as far as it is filled.
    #[verifier::opaque]
    pub closed spec fn record(&self) -> OrderDataView {
        OrderDataView {
            order_id: self.order_id as int,
            contract: self.contract@,
            order: self.order@,
            order_state: self.order_state@,
        }
    }

    /// The decoder as a reading: the reader, the record, and no failure.
    pub closed spec fn view(&self) -> Reading<OrderDataView> {
        Reading { message: self.message@, value: self.record(), failure: None }
    }

    /// A decoder at the start of an order message.
    pub fn new(server_version: i32, message: ResponseMessage) -> (r: OrderDecoder)
        ensures
            r.version() == server_version,
            r@ == begin(server_version as int, message@),
    {
        reveal(OrderDecoder::record);
        let mut message = message;
        message.skip();  // message type
        if server_version < ORDER_CONTAINER {
            message.skip();  // message version
        }
        OrderDecoder {
            server_version,
            message,
            order_id: -1,
            contract: Contract::default(),
            order: Order::default(),
            order_state: OrderState::default(),
        }
    }

    /// Reads the length that stands before a list.
    pub fn read_count(self) -> (r: Result<(OrderDecoder, i32), Error>)
        ensures
            match r {
                Ok((d, count)) => {
                    &&& d.version() == self.version()
                    &&& d@ == self@.skip()
                    &&& self@.message.read_int() == Ok::<int, ErrorView>(count as int)
                },
                Err(e) => self@.message.read_int() == Err::<int, ErrorView>(e@),
            },
    {
        reveal(OrderDecoder::record);
        let OrderDecoder { server_version, mut message, order_id, contract, order, order_state } = self;
        let count = message.next_int()?;
        Ok((OrderDecoder { server_version, message, order_id, contract, order, order_state }, count))
    }

    /// Reads the flag that stands before an optional part.
    pub fn read_flag(self) -> (r: Result<(OrderDecoder, bool), Error>)
        ensures
            match r {
                Ok((d, flag)) => {
                    &&& d.version() == self.version()
                    &&& d@ == self@.skip()
                    &&& self@.message.read_bool() == Ok::<bool, ErrorView>(flag)
                },
                Err(e) => self@.message.read_bool() == Err::<bool, ErrorView>(e@),
            },
    {
        reveal(OrderDecoder::record);
        let OrderDecoder { server_version, mut message, order_id, contract, order, order_state } = self;
        let flag = message.next_bool()?;
        Ok((OrderDecoder { server_version, message, order_id, contract, order, order_state }, flag))
    }

    /// Reads the identifier of the order, which the order itself holds too.
    pub fn read_order_id(self) -> (r: Result<OrderDecoder, Error>)
        ensures
            match r {
                Ok(d) => d.version() == self.version() && d@ == order_id(self@),
                Err(e) => order_id(self@).failure == Some(e@),
            },
    {
        reveal(order_id);
        reveal(OrderDecoder::record);
        let OrderDecoder { server_version, mut message, order_id: _, contract, order, order_state } = self;
        let order_id = message.next_int()?;
        let order = order.set_order_id(order_id);
        let d = OrderDecoder { server_version, message, order_id, contract, order, order_state };
        Ok(d)
    }

    /// Reads what the contract is: its identifier, symbol, kind and date.
    pub fn read_contract_identity(self) -> (r: Result<OrderDecoder, Error>)
        ensures
            match r {
                Ok(d) => d.version() == self.version() && d@ == contract_identity(self@),
                Err(e) => contract_identity(self@).failure == Some(e@),
            },
    {
        reveal(contract_identity);
        reveal(OrderDecoder::record);
        let OrderDecoder { server_version, mut message, order_id, contract, order, order_state } = self;
        let contract_id = message.next_int()?;
        let symbol = Symbol::from(message.next_string()?);
        let security_type = SecurityType::from(message.next_string()?.as_str());
        let last_trade_date_or_contract_month = message.next_string()?;
        let contract = contract
            .set_contract_id(contract_id)
            .set_symbol(symbol)
            .set_security_type(security_type)
            .set_last_trade_date_or_contract_month(last_trade_date_or_contract_month);
        let d = OrderDecoder { server_version, message, order_id, contract, order, order_state };
        Ok(d)
    }

    /// Reads the terms of a derivative: strike, right and multiplier.
    pub fn read_contract_terms(self) -> (r: Result<OrderDecoder, Error>)
        ensures
            match r {
                Ok(d) => d.version() == self.version() && d@ == contract_terms(self@),
                Err(e) => contract_terms(self@).failure == Some(e@),
            },
    {
        reveal(contract_terms);
        reveal(OrderDecoder::record);
        let OrderDecoder { server_version, mut message, order_id, contract, order, order_state } = self;
        let strike = message.next_double()?;
        let right = message.next_string()?;
        let multiplier = message.next_string()?;
        let contract = contract.set_strike(strike).set_right(right).set_multiplier(multiplier);
        let d = OrderDecoder { server_version, message, order_id, contract, order, order_state };
        Ok(d)
    }

    /// Reads where the contract trades: exchange, currency, local symbol and
    /// trading class.
    pub fn read_contract_listing(self) -> (r: Result<OrderDecoder, Error>)
        ensures
            match r {
                Ok(d) => d.version() == self.version() && d@ == contract_listing(self@),
                Err(e) => contract_listing(self@).failure == Some(e@),
            },
    {
        reveal(contract_listing);
        reveal(OrderDecoder::record);
        let OrderDecoder { server_version, mut message, order_id, contract, order, order_state } = self;
        let exchange = Exchange::from(message.next_string()?);
        let currency = Currency::from(message.next_string()?);
        let local_symbol = message.next_string()?;
        let trading_class = message.next_string()?;
        let contract = contract
            .set_exchange(exchange)
            .set_currency(currency)
            .set_local_symbol(local_symbol)
            .set_trading_class(trading_class);
        let d = OrderDecoder { server_version, message, order_id, contract, order, order_state };
        Ok(d)
    }

    /// Reads the eleven fields that describe the contract.
    pub fn read_contract_fields(self) -> (r: Result<OrderDecoder, Error>)
        ensures
            match r {
                Ok(d) => d.version() == self.version() && d@ == contract_fields(self@),
                Err(e) => contract_fields(self@).failure == Some(e@),
            },
    {
        reveal(contract_fields);
        let d = self.read_contract_identity()?;
        let d = d.read_contract_terms()?;
        let d = d.read_contract_listing()?;
        Ok(d)
    }

    /// Reads the side of the order; a name that is no side stops the decoder.
    pub fn read_action(self) -> (r: Result<OrderDecoder, Error>)
        ensures
            match r {
                Ok(d) => d.version() == self.version() && d@ == action(self@),
                Err(e) => action(self@).failure == Some(e@),
            },
    {
        reveal(action);
        reveal(OrderDecoder::record);
        let OrderDecoder { server_version, mut message, order_id, contract, order, order_state } = self;
        let name = message.next_string()?;
        let action = match Action::from(name.as_str()) {
            Some(action) => action,
            None => {
                return Err(Error::Parse(message.position(), name, "unknown action".to_owned()));
            },
        };
        let order = order.set_action(action);
        let d = OrderDecoder { server_version, message, order_id, contract, order, order_state };
        Ok(d)
    }

    /// Reads the number of units to trade.
    pub fn read_total_quantity(self) -> (r: Result<OrderDecoder, Error>)
        ensures
            match r {
                Ok(d) => d.version() == self.version() && d@ == total_quantity(self@),
                Err(e) => total_quantity(self@).failure == Some(e@),
            },
    {
        reveal(total_quantity);
        reveal(OrderDecoder::record);
        let OrderDecoder { server_version, mut message, order_id, contract, order, order_state } = self;
        let total_quantity = message.next_double()?;
        let order = order.set_total_quantity(total_quantity);
        let d = OrderDecoder { server_version, message, order_id, contract, order, order_state };
        Ok(d)
    }

    /// Reads the type of the order.
    pub fn read_order_type(self) -> (r: Result<OrderDecoder, Error>)
        ensures
            match r {
                Ok(d) => d.version() == self.version() && d@ == order_type(self@),
                Err(e) => order_type(self@).failure == Some(e@),
            },
    {
        reveal(order_type);
        reveal(OrderDecoder::record);
        let OrderDecoder { server_version, mut message, order_id, contract, order, order_state } = self;
        let order_type = message.next_string()?;
        let order = order.set_order_type(order_type);
        let d = OrderDecoder { server_version, message, order_id, contract, order, order_state };
        Ok(d)
    }

    /// Reads the limit price.
    pub fn read_limit_price(self) -> (r: Result<OrderDecoder, Error>)
        ensures
            match r {
                Ok(d) => d.version() == self.version() && d@ == limit_price(self@),
                Err(e) => limit_price(self@).failure == Some(e@),
            },
    {
        reveal(limit_price);
        reveal(OrderDecoder::record);
        let OrderDecoder { server_version, mut message, order_id, contract, order, order_state } = self;
        let limit_price = message.next_optional_double()?;
        let order = order.set_limit_price(limit_price);
        let d = OrderDecoder { server_version, message, order_id, contract, order, order_state };
        Ok(d)
    }

    /// Reads the auxiliary price.
    pub fn read_aux_price(self) -> (r: Result<OrderDecoder, Error>)
        ensures
            match r {
                Ok(d) => d.version() == self.version() && d@ == aux_price(self@),
                Err(e) => aux_price(self@).failure == Some(e@),
            },
    {
        reveal(aux_price);
        reveal(OrderDecoder::record);
        let OrderDecoder { server_version, mut message, order_id, contract, order, order_state } = self;
        let aux_price = message.next_optional_double()?;
        let order = order.set_aux_price(aux_price);
        let d = OrderDecoder { server_version, message, order_id, contract, order, order_state };
        Ok(d)
    }

    /// Reads the time in force.
    pub fn read_tif(self) -> (r: Result<OrderDecoder, Error>)
        ensures
            match r {
                Ok(d) => d.version() == self.version() && d@ == tif(self@),
                Err(e) => tif(self@).failure == Some(e@),
            },
    {
        reveal(tif);
        reveal(OrderDecoder::record);
        let OrderDecoder { server_version, mut message, order_id, contract, order, order_state } = self;
        let tif = TimeInForce::from(message.next_string()?.as_str());
        let order = order.set_tif(tif);
        let d = OrderDecoder { server_version, message, order_id, contract, order, order_state };
        Ok(d)
    }

    /// Reads the one-cancels-all group.
    pub fn read_oca_group(self) -> (r: Result<OrderDecoder, Error>)
        ensures
            match r {
                Ok(d) => d.version() == self.version() && d@ == oca_group(self@),
                Err(e) => oca_group(self@).failure == Some(e@),
            },
    {
        reveal(oca_group);
        reveal(OrderDecoder::record);
        let OrderDecoder { server_version, mut message, order_id, contract, order, order_state } = self;
        let oca_group = message.next_string()?;
        let order = order.set_oca_group(oca_group);
        let d = OrderDecoder { server_version, message, order_id, contract, order, order_state };
        Ok(d)
    }

    /// Reads the account.
    pub fn read_account(self) -> (r: Result<OrderDecoder, Error>)
        ensures
            match r {
                Ok(d) => d.version() == self.version() && d@ == account(self@),
                Err(e) => account(self@).failure == Some(e@),
            },
    {
        reveal(account);
        reveal(OrderDecoder::record);
        let OrderDecoder { server_version, mut message, order_id, contract, order, order_state } = self;
        let account = message.next_string()?;
        let order = order.set_account(account);
        let d = OrderDecoder { server_version, message, order_id, contract, order, order_state };
        Ok(d)
    }

    /// Reads whether the order opens or closes a position.
    pub fn read_open_close(self) -> (r: Result<OrderDecoder, Error>)
        ensures
            match r {
                Ok(d) => d.version() == self.version() && d@ == open_close(self@),
                Err(e) => open_close(self@).failure == Some(e@),
            },
    {
        reveal(open_close);
        reveal(OrderDecoder::record);
        let OrderDecoder { server_version, mut message, order_id, contract, order, order_state } = self;
        let open_close = OrderOpenClose::from(message.next_string()?.as_str());
        let order = order.set_open_close(open_close);
        let d = OrderDecoder { server_version, message, order_id, contract, order, order_state };
        Ok(d)
    }

    /// Reads the origin of the order.
    pub fn read_origin(self) -> (r: Result<OrderDecoder, Error>)
        ensures
            match r {
                Ok(d) => d.version() == self.version() && d@ == origin(self@),
                Err(e) => origin(self@).failure == Some(e@),
            },
    {
        reveal(origin);
        reveal(OrderDecoder::record);
        let OrderDecoder { server_version, mut message, order_id, contract, order, order_state } = self;
        let origin = OrderOrigin::from(message.next_int()?);
        let order = order.set_origin(origin);
        let d = OrderDecoder { server_version, message, order_id, contract, order, order_state };
        Ok(d)
    }

    /// Reads the reference of the customer.
    pub fn read_order_ref(self) -> (r: Result<OrderDecoder, Error>)
        ensures
            match r {
                Ok(d) => d.version() == self.version() && d@ == order_ref(self@),
                Err(e) => order_ref(self@).failure == Some(e@),
            },
    {
        reveal(order_ref);
        reveal(OrderDecoder::record);
        let OrderDecoder { server_version, mut message, order_id, contract, order, order_state } = self;
        let order_ref = message.next_string()?;
        let order = order.set_order_ref(order_ref);
        let d = OrderDecoder { server_version, message, order_id, contract, order, order_state };
        Ok(d)
    }

    /// Reads the client that placed the order.
    pub fn read_client_id(self) -> (r: Result<OrderDecoder, Error>)
        ensures
            match r {
                Ok(d) => d.version() == self.version() && d@ == client_id(self@),
                Err(e) => client_id(self@).failure == Some(e@),
            },
    {
        reveal(client_id);
        reveal(OrderDecoder::record);
        let OrderDecoder { server_version, mut message, order_id, contract, order, order_state } = self;
        let client_id = message.next_int()?;
        let order = order.set_client_id(client_id);
        let d = OrderDecoder { server_version, message, order_id, contract, order, order_state };
        Ok(d)
    }

    /// Reads the identifier of the order at the host.
    pub fn read_perm_id(self) -> (r: Result<OrderDecoder, Error>)
        ensures
            match r {
                Ok(d) => d.version() == self.version() && d@ == perm_id(self@),
                Err(e) => perm_id(self@).failure == Some(e@),
            },
    {
        reveal(perm_id);
        reveal(OrderDecoder::record);
        let OrderDecoder { server_version, mut message, order_id, contract, order, order_state } = self;
        let perm_id = message.next_int()?;
        let order = order.set_perm_id(perm_id);
        let d = OrderDecoder { server_version, message, order_id, contract, order, order_state };
        Ok(d)
    }

    /// Reads whether the order may fill outside regular trading hours.
    pub fn read_outside_rth(self) -> (r: Result<OrderDecoder, Error>)
        ensures
            match r {
                Ok(d) => d.version() == self.version() && d@ == outside_rth(self@),
                Err(e) => outside_rth(self@).failure == Some(e@),
            },
    {
        reveal(outside_rth);
        reveal(OrderDecoder::record);
        let OrderDecoder { server_version, mut message, order_id, contract, order, order_state } = self;
        let outside_rth = message.next_bool()?;
        let order = order.set_outside_rth(outside_rth);
        let d = OrderDecoder { server_version, message, order_id, contract, order, order_state };
        Ok(d)
    }

    /// Reads whether the order is hidden.
    pub fn read_hidden(self) -> (r: Result<OrderDecoder, Error>)
        ensures
            match r {
                Ok(d) => d.version() == self.version() && d@ == hidden(self@),
                Err(e) => hidden(self@).failure == Some(e@),
            },
    {
        reveal(hidden);
        reveal(OrderDecoder::record);
        let OrderDecoder { server_version, mut message, order_id, contract, order, order_state } = self;
        let hidden = message.next_bool()?;
        let order = order.set_hidden(hidden);
        let d = OrderDecoder { server_version, message, order_id, contract, order, order_state };
        Ok(d)
    }

    /// Reads the discretionary amount.
    pub fn read_discretionary_amt(self) -> (r: Result<OrderDecoder, Error>)
        ensures
            match r {
                Ok(d) => d.version() == self.version() && d@ == discretionary_amt(self@),
                Err(e) => discretionary_amt(self@).failure == Some(e@),
            },
    {
        reveal(discretionary_amt);
        reveal(OrderDecoder::record);
        let OrderDecoder { server_version, mut message, order_id, contract, order, order_state } = self;
        let discretionary_amt = message.next_double()?;
        let order = order.set_discretionary_amt(discretionary_amt);
        let d = OrderDecoder { server_version, message, order_id, contract, order, order_state };
        Ok(d)
    }

    /// Reads the time after which the order is active.
    pub fn read_good_after_time(self) -> (r: Result<OrderDecoder, Error>)
        ensures
            match r {
                Ok(d) => d.version() == self.version() && d@ == good_after_time(self@),
                Err(e) => good_after_time(self@).failure == Some(e@),
            },
    {
        reveal(good_after_time);
        reveal(OrderDecoder::record);
        let OrderDecoder { server_version, mut message, order_id, contract, order, order_state } = self;
        let good_after_time = message.next_string()?;
        let order = order.set_good_after_time(good_after_time);
        let d = OrderDecoder { server_version, message, order_id, contract, order, order_state };
        Ok(d)
    }

    /// Passes over the shares allocation, which is no longer in use.
    pub fn skip_shares_allocation(self) -> (d: OrderDecoder)
        ensures
            d.version() == self.version(),
            d@ == self@.skip(),
    {
        reveal(OrderDecoder::record);
        let OrderDecoder { server_version, mut message, order_id, contract, order, order_state } = self;
        message.skip();
        OrderDecoder { server_version, message, order_id, contract, order, order_state }
    }

    /// Reads the advisor profile, which the server sent until it was withdrawn. It
    /// lands where the percentage is.
    pub fn read_fa_profile(self) -> (r: Result<OrderDecoder, Error>)
        ensures
            match r {
                Ok(d) => d.version() == self.version() && d@ == fa_profile(self.version(), self@),
                Err(e) => fa_profile(self.version(), self@).failure == Some(e@),
            },
    {
        reveal(fa_profile);
        reveal(OrderDecoder::record);
        if self.server_version >= FA_PROFILE_DESUPPORT {
            return Ok(self);
        }
        let OrderDecoder { server_version, mut message, order_id, contract, order, order_state } = self;
        let fa_percentage = message.next_string()?;
        let order = order.set_fa_percentage(fa_percentage);
        let d = OrderDecoder { server_version, message, order_id, contract, order, order_state };
        Ok(d)
    }

    /// Reads the advisor group, method and percentage.
    pub fn read_fa_allocation(self) -> (r: Result<OrderDecoder, Error>)
        ensures
            match r {
                Ok(d) => d.version() == self.version() && d@ == fa_allocation(self@),
                Err(e) => fa_allocation(self@).failure == Some(e@),
            },
    {
        reveal(fa_allocation);
        reveal(OrderDecoder::record);
        let OrderDecoder { server_version, mut message, order_id, contract, order, order_state } = self;
        let fa_group = message.next_string()?;
        let fa_method = message.next_string()?;
        let fa_percentage = message.next_string()?;
        let order = order
            .set_fa_group(fa_group)
            .set_fa_method(fa_method)
            .set_fa_percentage(fa_percentage);
        let d = OrderDecoder { server_version, message, order_id, contract, order, order_state };
        Ok(d)
    }

    /// Reads the advisor parameters: group, method and percentage, then the profile
    /// where the server still sends it.
    pub fn read_fa_params(self) -> (r: Result<OrderDecoder, Error>)
        ensures
            match r {
                Ok(d) => d.version() == self.version() && d@ == fa_params(self.version(), self@),
                Err(e) => fa_params(self.version(), self@).failure == Some(e@),
            },
    {
        reveal(fa_params);
        let d = self.read_fa_allocation()?;
        let d = d.read_fa_profile()?;
        Ok(d)
    }

    /// Reads the model code.
    pub fn read_model_code(self) -> (r: Result<OrderDecoder, Error>)
        ensures
            match r {
                Ok(d) => d.version() == self.version() && d@ == model_code(self.version(), self@),
                Err(e) => model_code(self.version(), self@).failure == Some(e@),
            },
    {
        reveal(model_code);
        reveal(OrderDecoder::record);
        if self.server_version < MODELS_SUPPORT {
            return Ok(self);
        }
        let OrderDecoder { server_version, mut message, order_id, contract, order, order_state } = self;
        let model_code = message.next_string()?;
        let order = order.set_model_code(model_code);
        let d = OrderDecoder { server_version, message, order_id, contract, order, order_state };
        Ok(d)
    }

    /// Reads the time until which the order is active.
    pub fn read_good_till_date(self) -> (r: Result<OrderDecoder, Error>)
        ensures
            match r {
                Ok(d) => d.version() == self.version() && d@ == good_till_date(self@),
                Err(e) => good_till_date(self@).failure == Some(e@),
            },
    {
        reveal(good_till_date);
        reveal(OrderDecoder::record);
        let OrderDecoder { server_version, mut message, order_id, contract, order, order_state } = self;
        let good_till_date = message.next_string()?;
        let order = order.set_good_till_date(good_till_date);
        let d = OrderDecoder { server_version, message, order_id, contract, order, order_state };
        Ok(d)
    }

    /// Reads the capacity in which the order is entered.
    pub fn read_rule_80_a(self) -> (r: Result<OrderDecoder, Error>)
        ensures
            match r {
                Ok(d) => d.version() == self.version() && d@ == rule_80_a(self@),
                Err(e) => rule_80_a(self@).failure == Some(e@),
            },
    {
        reveal(rule_80_a);
        reveal(OrderDecoder::record);
        let OrderDecoder { server_version, mut message, order_id, contract, order, order_state } = self;
        let rule_80_a = Rule80A::from(message.next_string()?.as_str());
        let order = order.set_rule_80_a(rule_80_a);
        let d = OrderDecoder { server_version, message, order_id, contract, order, order_state };
        Ok(d)
    }

    /// Reads the offset of a relative order.
    pub fn read_percent_offset(self) -> (r: Result<OrderDecoder, Error>)
        ensures
            match r {
                Ok(d) => d.version() == self.version() && d@ == percent_offset(self@),
                Err(e) => percent_offset(self@).failure == Some(e@),
            },
    {
        reveal(percent_offset);
        reveal(OrderDecoder::record);
        let OrderDecoder { server_version, mut message, order_id, contract, order, order_state } = self;
        let percent_offset = message.next_optional_double()?;
        let order = order.set_percent_offset(percent_offset);
        let d = OrderDecoder { server_version, message, order_id, contract, order, order_state };
        Ok(d)
    }

    /// Reads the settling firm.
    pub fn read_settling_firm(self) -> (r: Result<OrderDecoder, Error>)
        ensures
            match r {
                Ok(d) => d.version() == self.version() && d@ == settling_firm(self@),
                Err(e) => settling_firm(self@).failure == Some(e@),
            },
    {
        reveal(settling_firm);
        reveal(OrderDecoder::record);
        let OrderDecoder { server_version, mut message, order_id, contract, order, order_state } = self;
        let settling_firm = message.next_string()?;
        let order = order.set_settling_firm(settling_firm);
        let d = OrderDecoder { server_version, message, order_id, contract, order, order_state };
        Ok(d)
    }

    /// Reads the three fields of a short sale.
    pub fn read_short_sale_params(self) -> (r: Result<OrderDecoder, Error>)
        ensures
            match r {
                Ok(d) => d.version() == self.version() && d@ == short_sale_params(self@),
                Err(e) => short_sale_params(self@).failure == Some(e@),
            },
    {
        reveal(short_sale_params);
        reveal(OrderDecoder::record);
        let OrderDecoder { server_version, mut message, order_id, contract, order, order_state } = self;
        let short_sale_slot = ShortSaleSlot::from(message.next_int()?);
        let designated_location = message.next_string()?;
        let exempt_code = message.next_int()?;
        let order = order
            .set_short_sale_slot(short_sale_slot)
            .set_designated_location(designated_location)
            .set_exempt_code(exempt_code);
        let d = OrderDecoder { server_version, message, order_id, contract, order, order_state };
        Ok(d)
    }

    /// Reads the auction strategy; unset and zero both stand for none.
    pub fn read_auction_strategy(self) -> (r: Result<OrderDecoder, Error>)
        ensures
            match r {
                Ok(d) => d.version() == self.version() && d@ == auction_strategy(self@),
                Err(e) => auction_strategy(self@).failure == Some(e@),
            },
    {
        reveal(auction_strategy);
        reveal(OrderDecoder::record);
        let OrderDecoder { server_version, mut message, order_id, contract, order, order_state } = self;
        let auction_strategy = match message.next_optional_int()? {
            Some(code) => AuctionStrategy::from(code),
            None => None,
        };
        let order = order.set_auction_strategy(auction_strategy);
        let d = OrderDecoder { server_version, message, order_id, contract, order, order_state };
        Ok(d)
    }

    /// Reads the three prices of a BOX order.
    pub fn read_box_order_params(self) -> (r: Result<OrderDecoder, Error>)
        ensures
            match r {
                Ok(d) => d.version() == self.version() && d@ == box_order_params(self@),
                Err(e) => box_order_params(self@).failure == Some(e@),
            },
    {
        reveal(box_order_params);
        reveal(OrderDecoder::record);
        let OrderDecoder { server_version, mut message, order_id, contract, order, order_state } = self;
        let starting_price = message.next_optional_double()?;
        let stock_ref_price = message.next_optional_double()?;
        let delta = message.next_optional_double()?;
        let order = order
            .set_starting_price(starting_price)
            .set_stock_ref_price(stock_ref_price)
            .set_delta(delta);
        let d = OrderDecoder { server_version, message, order_id, contract, order, order_state };
        Ok(d)
    }

    /// Reads the stock range of a pegged or volatility order.
    pub fn read_peg_to_stock_or_vol_order_params(self) -> (r: Result<OrderDecoder, Error>)
        ensures
            match r {
                Ok(d) => d.version() == self.version() && d@ == peg_to_stock_or_vol_order_params(self@),
                Err(e) => peg_to_stock_or_vol_order_params(self@).failure == Some(e@),
            },
    {
        reveal(peg_to_stock_or_vol_order_params);
        reveal(OrderDecoder::record);
        let OrderDecoder { server_version, mut message, order_id, contract, order, order_state } = self;
        let stock_range_lower = message.next_optional_double()?;
        let stock_range_upper = message.next_optional_double()?;
        let order = order
            .set_stock_range_lower(stock_range_lower)
            .set_stock_range_upper(stock_range_upper);
        let d = OrderDecoder { server_version, message, order_id, contract, order, order_state };
        Ok(d)
    }

    /// Reads the displayed size.
    pub fn read_display_size(self) -> (r: Result<OrderDecoder, Error>)
        ensures
            match r {
                Ok(d) => d.version() == self.version() && d@ == display_size(self@),
                Err(e) => display_size(self@).failure == Some(e@),
            },
    {
        reveal(display_size);
        reveal(OrderDecoder::record);
        let OrderDecoder { server_version, mut message, order_id, contract, order, order_state } = self;
        let display_size = message.next_optional_int()?;
        let order = order.set_display_size(display_size);
        let d = OrderDecoder { server_version, message, order_id, contract, order, order_state };
        Ok(d)
    }

    /// Reads whether this is a block order.
    pub fn read_block_order(self) -> (r: Result<OrderDecoder, Error>)
        ensures
            match r {
                Ok(d) => d.version() == self.version() && d@ == block_order(self@),
                Err(e) => block_order(self@).failure == Some(e@),
            },
    {
        reveal(block_order);
        reveal(OrderDecoder::record);
        let OrderDecoder { server_version, mut message, order_id, contract, order, order_state } = self;
        let block_order = message.next_bool()?;
        let order = order.set_block_order(block_order);
        let d = OrderDecoder { server_version, message, order_id, contract, order, order_state };
        Ok(d)
    }

    /// Reads whether this is a sweep-to-fill order.
    pub fn read_sweep_to_fill(self) -> (r: Result<OrderDecoder, Error>)
        ensures
            match r {
                Ok(d) => d.version() == self.version() && d@ == sweep_to_fill(self@),
                Err(e) => sweep_to_fill(self@).failure == Some(e@),
            },
    {
        reveal(sweep_to_fill);
        reveal(OrderDecoder::record);
        let OrderDecoder { server_version, mut message, order_id, contract, order, order_state } = self;
        let sweep_to_fill = message.next_bool()?;
        let order = order.set_sweep_to_fill(sweep_to_fill);
        let d = OrderDecoder { server_version, message, order_id, contract, order, order_state };
        Ok(d)
    }

    /// Reads whether the order must fill in full.
    pub fn read_all_or_none(self) -> (r: Result<OrderDecoder, Error>)
        ensures
            match r {
                Ok(d) => d.version() == self.version() && d@ == all_or_none(self@),
                Err(e) => all_or_none(self@).failure == Some(e@),
            },
    {
        reveal(all_or_none);
        reveal(OrderDecoder::record);
        let OrderDecoder { server_version, mut message, order_id, contract, order, order_state } = self;
        let all_or_none = message.next_bool()?;
        let order = order.set_all_or_none(all_or_none);
        let d = OrderDecoder { server_version, message, order_id, contract, order, order_state };
        Ok(d)
    }

    /// Reads the minimum quantity.
    pub fn read_min_qty(self) -> (r: Result<OrderDecoder, Error>)
        ensures
            match r {
                Ok(d) => d.version() == self.version() && d@ == min_qty(self@),
                Err(e) => min_qty(self@).failure == Some(e@),
            },
    {
        reveal(min_qty);
        reveal(OrderDecoder::record);
        let OrderDecoder { server_version, mut message, order_id, contract, order, order_state } = self;
        let min_qty = message.next_optional_int()?;
        let order = order.set_min_qty(min_qty);
        let d = OrderDecoder { server_version, message, order_id, contract, order, order_state };
        Ok(d)
    }

    /// Reads how the rest of the one-cancels-all group is treated.
    pub fn read_oca_type(self) -> (r: Result<OrderDecoder, Error>)
        ensures
            match r {
                Ok(d) => d.version() == self.version() && d@ == oca_type(self@),
                Err(e) => oca_type(self@).failure == Some(e@),
            },
    {
        reveal(oca_type);
        reveal(OrderDecoder::record);
        let OrderDecoder { server_version, mut message, order_id, contract, order, order_state } = self;
        let oca_type = OcaType::from(message.next_int()?);
        let order = order.set_oca_type(oca_type);
        let d = OrderDecoder { server_version, message, order_id, contract, order, order_state };
        Ok(d)
    }

    /// Passes over a field that is no longer in use.
    pub fn skip_etrade_only(self) -> (d: OrderDecoder)
        ensures
            d.version() == self.version(),
            d@ == self@.skip(),
    {
        reveal(OrderDecoder::record);
        let OrderDecoder { server_version, mut message, order_id, contract, order, order_state } = self;
        message.skip();
        OrderDecoder { server_version, message, order_id, contract, order, order_state }
    }

    /// Passes over a field that is no longer in use.
    pub fn skip_firm_quote_only(self) -> (d: OrderDecoder)
        ensures
            d.version() == self.version(),
            d@ == self@.skip(),
    {
        reveal(OrderDecoder::record);
        let OrderDecoder { server_version, mut message, order_id, contract, order, order_state } = self;
        message.skip();
        OrderDecoder { server_version, message, order_id, contract, order, order_state }
    }

    /// Passes over a field that is no longer in use.
    pub fn skip_nbbo_price_cap(self) -> (d: OrderDecoder)
        ensures
            d.version() == self.version(),
            d@ == self@.skip(),
    {
        reveal(OrderDecoder::record);
        let OrderDecoder { server_version, mut message, order_id, contract, order, order_state } = self;
        message.skip();
        OrderDecoder { server_version, message, order_id, contract, order, order_state }
    }

    /// Reads the parent order.
    pub fn read_parent_id(self) -> (r: Result<OrderDecoder, Error>)
        ensures
            match r {
                Ok(d) => d.version() == self.version() && d@ == parent_id(self@),
                Err(e) => parent_id(self@).failure == Some(e@),
            },
    {
        reveal(parent_id);
        reveal(OrderDecoder::record);
        let OrderDecoder { server_version, mut message, order_id, contract, order, order_state } = self;
        let parent_id = message.next_int()?;
        let order = order.set_parent_id(parent_id);
        let d = OrderDecoder { server_version, message, order_id, contract, order, order_state };
        Ok(d)
    }

    /// Reads how a simulated stop is triggered.
    pub fn read_trigger_method(self) -> (r: Result<OrderDecoder, Error>)
        ensures
            match r {
                Ok(d) => d.version() == self.version() && d@ == trigger_method(self@),
                Err(e) => trigger_method(self@).failure == Some(e@),
            },
    {
        reveal(trigger_method);
        reveal(OrderDecoder::record);
        let OrderDecoder { server_version, mut message, order_id, contract, order, order_state } = self;
        let trigger_method = TriggerMethod::from(message.next_int()?);
        let order = order.set_trigger_method(trigger_method);
        let d = OrderDecoder { server_version, message, order_id, contract, order, order_state };
        Ok(d)
    }

    /// Reads the four attributes that the hedge order of an open order carries.
    pub fn read_delta_neutral_attributes(self) -> (r: Result<OrderDecoder, Error>)
        ensures
            match r {
                Ok(d) => d.version() == self.version() && d@ == delta_neutral_attributes(self@),
                Err(e) => delta_neutral_attributes(self@).failure == Some(e@),
            },
    {
        reveal(delta_neutral_attributes);
        reveal(OrderDecoder::record);
        let OrderDecoder { server_version, mut message, order_id, contract, order, order_state } = self;
        let delta_neutral_settling_firm = message.next_string()?;
        let delta_neutral_clearing_account = message.next_string()?;
        let delta_neutral_clearing_intent = message.next_string()?;
        let delta_neutral_open_close = message.next_string()?;
        let order = order
            .set_delta_neutral_settling_firm(delta_neutral_settling_firm)
            .set_delta_neutral_clearing_account(delta_neutral_clearing_account)
            .set_delta_neutral_clearing_intent(delta_neutral_clearing_intent)
            .set_delta_neutral_open_close(delta_neutral_open_close);
        let d = OrderDecoder { server_version, message, order_id, contract, order, order_state };
        Ok(d)
    }

    /// Reads the contract of the hedge order.
    pub fn read_delta_neutral_con_id(self) -> (r: Result<OrderDecoder, Error>)
        ensures
            match r {
                Ok(d) => d.version() == self.version() && d@ == delta_neutral_con_id(self@),
                Err(e) => delta_neutral_con_id(self@).failure == Some(e@),
            },
    {
        reveal(delta_neutral_con_id);
        reveal(OrderDecoder::record);
        let OrderDecoder { server_version, mut message, order_id, contract, order, order_state } = self;
        let delta_neutral_con_id = message.next_int()?;
        let order = order.set_delta_neutral_con_id(delta_neutral_con_id);
        let d = OrderDecoder { server_version, message, order_id, contract, order, order_state };
        Ok(d)
    }

    /// Reads the three fields of the short sale of the hedge order.
    pub fn read_delta_neutral_short_sale(self) -> (r: Result<OrderDecoder, Error>)
        ensures
            match r {
                Ok(d) => d.version() == self.version() && d@ == delta_neutral_short_sale(self@),
                Err(e) => delta_neutral_short_sale(self@).failure == Some(e@),
            },
    {
        reveal(delta_neutral_short_sale);
        reveal(OrderDecoder::record);
        let OrderDecoder { server_version, mut message, order_id, contract, order, order_state } = self;
        let delta_neutral_short_sale = message.next_bool()?;
        let delta_neutral_short_sale_slot = message.next_int()?;
        let delta_neutral_designated_location = message.next_string()?;
        let order = order
            .set_delta_neutral_short_sale(delta_neutral_short_sale)
            .set_delta_neutral_short_sale_slot(delta_neutral_short_sale_slot)
            .set_delta_neutral_designated_location(delta_neutral_designated_location);
        let d = OrderDecoder { server_version, message, order_id, contract, order, order_state };
        Ok(d)
    }

    /// Reads the hedge order of a delta-neutral volatility order: its contract, the
    /// attributes of an open order where the message carries them, and the three
    /// fields of its short sale.
    pub fn read_delta_neutral_hedge(self, read_open_order_attributes: bool) -> (r: Result<OrderDecoder, Error>)
        ensures
            match r {
                Ok(d) => d.version() == self.version() && d@ == delta_neutral_hedge(self@, read_open_order_attributes),
                Err(e) => delta_neutral_hedge(self@, read_open_order_attributes).failure == Some(e@),
            },
    {
        reveal(delta_neutral_hedge);
        let d = self.read_delta_neutral_con_id()?;
        let d = if read_open_order_attributes {
            d.read_delta_neutral_attributes()?
        } else {
            d
        };
        let d = d.read_delta_neutral_short_sale()?;
        Ok(d)
    }

    /// Reads the volatility, its period, and the type and auxiliary price of the
    /// hedge order.
    pub fn read_volatility(self) -> (r: Result<OrderDecoder, Error>)
        ensures
            match r {
                Ok(d) => d.version() == self.version() && d@ == volatility(self@),
                Err(e) => volatility(self@).failure == Some(e@),
            },
    {
        reveal(volatility);
        reveal(OrderDecoder::record);
        let OrderDecoder { server_version, mut message, order_id, contract, order, order_state } = self;
        let volatility = message.next_optional_double()?;
        let volatility_type = match message.next_optional_int()? {
            Some(code) => VolatilityType::from(code),
            None => None,
        };
        let delta_neutral_order_type = message.next_string()?;
        let delta_neutral_aux_price = message.next_optional_double()?;
        let order = order
            .set_volatility(volatility)
            .set_volatility_type(volatility_type)
            .set_delta_neutral_order_type(delta_neutral_order_type)
            .set_delta_neutral_aux_price(delta_neutral_aux_price);
        let d = OrderDecoder { server_version, message, order_id, contract, order, order_state };
        Ok(d)
    }

    /// Reads whether the price follows the underlying, and how the reference price
    /// is computed.
    pub fn read_volatility_reference(self) -> (r: Result<OrderDecoder, Error>)
        ensures
            match r {
                Ok(d) => d.version() == self.version() && d@ == volatility_reference(self@),
                Err(e) => volatility_reference(self@).failure == Some(e@),
            },
    {
        reveal(volatility_reference);
        reveal(OrderDecoder::record);
        let OrderDecoder { server_version, mut message, order_id, contract, order, order_state } = self;
        let continuous_update = message.next_bool()?;
        let reference_price_type = match message.next_optional_int()? {
            Some(code) => ReferencePriceType::from(code),
            None => None,
        };
        let order = order
            .set_continuous_update(continuous_update)
            .set_reference_price_type(reference_price_type);
        let d = OrderDecoder { server_version, message, order_id, contract, order, order_state };
        Ok(d)
    }

    /// Reads the fields of a volatility order. The hedge order follows only where a
    /// type of hedge order is named.
    pub fn read_volatility_order_params(self, read_open_order_attributes: bool) -> (r: Result<OrderDecoder, Error>)
        ensures
            match r {
                Ok(d) => d.version() == self.version() && d@ == volatility_order_params(self@, read_open_order_attributes),
                Err(e) => volatility_order_params(self@, read_open_order_attributes).failure == Some(e@),
            },
    {
        reveal(volatility_order_params);
        reveal(OrderDecoder::record);
        let d = self.read_volatility()?;
        let d = if d.order.is_delta_neutral() {
            d.read_delta_neutral_hedge(read_open_order_attributes)?
        } else {
            d
        };
        let d = d.read_volatility_reference()?;
        Ok(d)
    }

    /// Reads the two fields of a trailing order.
    pub fn read_trail_params(self) -> (r: Result<OrderDecoder, Error>)
        ensures
            match r {
                Ok(d) => d.version() == self.version() && d@ == trail_params(self@),
                Err(e) => trail_params(self@).failure == Some(e@),
            },
    {
        reveal(trail_params);
        reveal(OrderDecoder::record);
        let OrderDecoder { server_version, mut message, order_id, contract, order, order_state } = self;
        let trail_stop_price = message.next_optional_double()?;
        let trailing_percent = message.next_optional_double()?;
        let order = order
            .set_trail_stop_price(trail_stop_price)
            .set_trailing_percent(trailing_percent);
        let d = OrderDecoder { server_version, message, order_id, contract, order, order_state };
        Ok(d)
    }

    /// Reads the basis points of an EFP order.
    pub fn read_basis_points(self) -> (r: Result<OrderDecoder, Error>)
        ensures
            match r {
                Ok(d) => d.version() == self.version() && d@ == basis_points(self@),
                Err(e) => basis_points(self@).failure == Some(e@),
            },
    {
        reveal(basis_points);
        reveal(OrderDecoder::record);
        let OrderDecoder { server_version, mut message, order_id, contract, order, order_state } = self;
        let basis_points = message.next_optional_double()?;
        let basis_points_type = message.next_optional_int()?;
        let order = order.set_basis_points(basis_points).set_basis_points_type(basis_points_type);
        let d = OrderDecoder { server_version, message, order_id, contract, order, order_state };
        Ok(d)
    }

    /// Reads one leg of the combination: eight fields, which become one more leg of
    /// the contract.
    pub fn read_combo_leg(self) -> (r: Result<OrderDecoder, Error>)
        ensures
            match r {
                Ok(d) => d.version() == self.version() && d@ == combo_leg_entry(self@),
                Err(e) => combo_leg_entry(self@).failure == Some(e@),
            },
    {
        reveal(combo_leg_entry);
        reveal(OrderDecoder::record);
        let OrderDecoder { server_version, mut message, order_id, contract, order, order_state } = self;
        let mut leg = ComboLeg::default();
        leg.contract_id = message.next_int()?;
        leg.ratio = message.next_int()?;
        leg.action = message.next_string()?;
        leg.exchange = message.next_string()?;
        leg.open_close = ComboLegOpenClose::from(message.next_int()?);
        leg.short_sale_slot = message.next_int()?;
        leg.designated_location = message.next_string()?;
        leg.exempt_code = message.next_int()?;
        let contract = contract.push_combo_legs(leg);
        let d = OrderDecoder { server_version, message, order_id, contract, order, order_state };
        Ok(d)
    }

    /// Reads the legs of the contract: their number, then the legs.
    pub fn read_contract_combo_legs(self) -> (r: Result<OrderDecoder, Error>)
        ensures
            match r {
                Ok(d) => d.version() == self.version() && d@ == contract_combo_legs(self@),
                Err(e) => contract_combo_legs(self@).failure == Some(e@),
            },
    {
        reveal(contract_combo_legs);
        let (d, count) = self.read_count()?;
        let ghost first = d@;
        let mut d = d;
        let mut k: i32 = 0;
        while k < count
            invariant
                0 <= k,
                d.server_version == self.server_version,
                self@.message.read_int() == Ok::<int, ErrorView>(count as int),
                first == self@.skip(),
                combo_leg_run(first, count as int) == combo_leg_run(d@, count - k),
            decreases count - k,
        {
            let ghost before = d@;
            match d.read_combo_leg() {
                Ok(next) => {
                    d = next;
                },
                Err(e) => {
                    proof {
                        reveal(contract_combo_legs);
                        let stopped = combo_leg_entry(before);
                        assert(before.failure is None);
                        assert(stopped.failure == Some(e@));
                        assert(combo_leg_run(stopped, count - k - 1) == stopped);
                        assert(combo_leg_run(before, count - k) == combo_leg_run(stopped, count - k - 1));
                        assert(combo_leg_run(first, count as int) == stopped);
                    }
                    return Err(e);
                },
            }
            k += 1;
        }
        Ok(d)
    }

    /// Reads the price of one leg: one field, which becomes one more leg of the order.
    pub fn read_order_combo_leg(self) -> (r: Result<OrderDecoder, Error>)
        ensures
            match r {
                Ok(d) => d.version() == self.version() && d@ == order_combo_leg_entry(self@),
                Err(e) => order_combo_leg_entry(self@).failure == Some(e@),
            },
    {
        reveal(order_combo_leg_entry);
        reveal(OrderDecoder::record);
        let OrderDecoder { server_version, mut message, order_id, contract, order, order_state } = self;
        let mut leg = OrderComboLeg::default();
        leg.price = message.next_optional_double()?;
        let order = order.push_order_combo_legs(leg);
        let d = OrderDecoder { server_version, message, order_id, contract, order, order_state };
        Ok(d)
    }

    /// Reads the leg prices of the order: their number, then the prices.
    pub fn read_order_combo_legs(self) -> (r: Result<OrderDecoder, Error>)
        ensures
            match r {
                Ok(d) => d.version() == self.version() && d@ == order_combo_legs(self@),
                Err(e) => order_combo_legs(self@).failure == Some(e@),
            },
    {
        reveal(order_combo_legs);
        let (d, count) = self.read_count()?;
        let ghost first = d@;
        let mut d = d;
        let mut k: i32 = 0;
        while k < count
            invariant
                0 <= k,
                d.server_version == self.server_version,
                self@.message.read_int() == Ok::<int, ErrorView>(count as int),
                first == self@.skip(),
                order_combo_leg_run(first, count as int) == order_combo_leg_run(d@, count - k),
            decreases count - k,
        {
            let ghost before = d@;
            match d.read_order_combo_leg() {
                Ok(next) => {
                    d = next;
                },
                Err(e) => {
                    proof {
                        reveal(order_combo_legs);
                        let stopped = order_combo_leg_entry(before);
                        assert(before.failure is None);
                        assert(stopped.failure == Some(e@));
                        assert(order_combo_leg_run(stopped, count - k - 1) == stopped);
                        assert(order_combo_leg_run(before, count - k) == order_combo_leg_run(stopped, count - k - 1));
                        assert(order_combo_leg_run(first, count as int) == stopped);
                    }
                    return Err(e);
                },
            }
            k += 1;
        }
        Ok(d)
    }

    /// Reads the description of the legs.
    pub fn read_combo_legs_description(self) -> (r: Result<OrderDecoder, Error>)
        ensures
            match r {
                Ok(d) => d.version() == self.version() && d@ == combo_legs_description(self@),
                Err(e) => combo_legs_description(self@).failure == Some(e@),
            },
    {
        reveal(combo_legs_description);
        reveal(OrderDecoder::record);
        let OrderDecoder { server_version, mut message, order_id, contract, order, order_state } = self;
        let combo_legs_description = message.next_string()?;
        let contract = contract.set_combo_legs_description(combo_legs_description);
        let d = OrderDecoder { server_version, message, order_id, contract, order, order_state };
        Ok(d)
    }

    /// Reads the combination: its description, the legs of the contract and the leg
    /// prices of the order.
    pub fn read_combo_legs(self) -> (r: Result<OrderDecoder, Error>)
        ensures
            match r {
                Ok(d) => d.version() == self.version() && d@ == combo_legs(self@),
                Err(e) => combo_legs(self@).failure == Some(e@),
            },
    {
        reveal(combo_legs);
        let d = self.read_combo_legs_description()?;
        let d = d.read_contract_combo_legs()?;
        let d = d.read_order_combo_legs()?;
        Ok(d)
    }

    /// Reads one parameter of smart combination routing: a name and a value.
    pub fn read_smart_combo_routing_param(self) -> (r: Result<OrderDecoder, Error>)
        ensures
            match r {
                Ok(d) => d.version() == self.version() && d@ == smart_combo_routing_entry(self@),
                Err(e) => smart_combo_routing_entry(self@).failure == Some(e@),
            },
    {
        reveal(smart_combo_routing_entry);
        reveal(OrderDecoder::record);
        let OrderDecoder { server_version, mut message, order_id, contract, order, order_state } = self;
        let mut param = TagValue::default();
        param.tag = message.next_string()?;
        param.value = message.next_string()?;
        let order = order.push_smart_combo_routing_params(param);
        let d = OrderDecoder { server_version, message, order_id, contract, order, order_state };
        Ok(d)
    }

    /// Reads the parameters of smart combination routing: their number, then the
    /// parameters.
    pub fn read_smart_combo_routing_params(self) -> (r: Result<OrderDecoder, Error>)
        ensures
            match r {
                Ok(d) => d.version() == self.version() && d@ == smart_combo_routing_params(self@),
                Err(e) => smart_combo_routing_params(self@).failure == Some(e@),
            },
    {
        reveal(smart_combo_routing_params);
        let (d, count) = self.read_count()?;
        let ghost first = d@;
        let mut d = d;
        let mut k: i32 = 0;
        while k < count
            invariant
                0 <= k,
                d.server_version == self.server_version,
                self@.message.read_int() == Ok::<int, ErrorView>(count as int),
                first == self@.skip(),
                smart_combo_routing_run(first, count as int) == smart_combo_routing_run(d@, count - k),
            decreases count - k,
        {
            let ghost before = d@;
            match d.read_smart_combo_routing_param() {
                Ok(next) => {
                    d = next;
                },
                Err(e) => {
                    proof {
                        reveal(smart_combo_routing_params);
                        let stopped = smart_combo_routing_entry(before);
                        assert(before.failure is None);
                        assert(stopped.failure == Some(e@));
                        assert(smart_combo_routing_run(stopped, count - k - 1) == stopped);
                        assert(smart_combo_routing_run(before, count - k) == smart_combo_routing_run(stopped, count - k - 1));
                        assert(smart_combo_routing_run(first, count as int) == stopped);
                    }
                    return Err(e);
                },
            }
            k += 1;
        }
        Ok(d)
    }

    /// Reads how the price of a scale order is adjusted, its profit offset, and
    /// whether it restarts by itself.
    pub fn read_scale_price_adjustment(self) -> (r: Result<OrderDecoder, Error>)
        ensures
            match r {
                Ok(d) => d.version() == self.version() && d@ == scale_price_adjustment(self@),
                Err(e) => scale_price_adjustment(self@).failure == Some(e@),
            },
    {
        reveal(scale_price_adjustment);
        reveal(OrderDecoder::record);
        let OrderDecoder { server_version, mut message, order_id, contract, order, order_state } = self;
        let scale_price_adjust_value = message.next_optional_double()?;
        let scale_price_adjust_interval = message.next_optional_int()?;
        let scale_profit_offset = message.next_optional_double()?;
        let scale_auto_reset = message.next_bool()?;
        let order = order
            .set_scale_price_adjust_value(scale_price_adjust_value)
            .set_scale_price_adjust_interval(scale_price_adjust_interval)
            .set_scale_profit_offset(scale_profit_offset)
            .set_scale_auto_reset(scale_auto_reset);
        let d = OrderDecoder { server_version, message, order_id, contract, order, order_state };
        Ok(d)
    }

    /// Reads the initial position and fill of a scale order, and whether its sizes
    /// are randomised.
    pub fn read_scale_position(self) -> (r: Result<OrderDecoder, Error>)
        ensures
            match r {
                Ok(d) => d.version() == self.version() && d@ == scale_position(self@),
                Err(e) => scale_position(self@).failure == Some(e@),
            },
    {
        reveal(scale_position);
        reveal(OrderDecoder::record);
        let OrderDecoder { server_version, mut message, order_id, contract, order, order_state } = self;
        let scale_init_position = message.next_optional_int()?;
        let scale_init_fill_qty = message.next_optional_int()?;
        let scale_random_percent = message.next_bool()?;
        let order = order
            .set_scale_init_position(scale_init_position)
            .set_scale_init_fill_qty(scale_init_fill_qty)
            .set_scale_random_percent(scale_random_percent);
        let d = OrderDecoder { server_version, message, order_id, contract, order, order_state };
        Ok(d)
    }

    /// Reads the seven fields that a scale order with a price increment carries.
    pub fn read_scale_table(self) -> (r: Result<OrderDecoder, Error>)
        ensures
            match r {
                Ok(d) => d.version() == self.version() && d@ == scale_table(self@),
                Err(e) => scale_table(self@).failure == Some(e@),
            },
    {
        reveal(scale_table);
        let d = self.read_scale_price_adjustment()?;
        let d = d.read_scale_position()?;
        Ok(d)
    }

    /// Reads the level sizes and the price increment of a scale order.
    pub fn read_scale_levels(self) -> (r: Result<OrderDecoder, Error>)
        ensures
            match r {
                Ok(d) => d.version() == self.version() && d@ == scale_levels(self@),
                Err(e) => scale_levels(self@).failure == Some(e@),
            },
    {
        reveal(scale_levels);
        reveal(OrderDecoder::record);
        let OrderDecoder { server_version, mut message, order_id, contract, order, order_state } = self;
        let scale_init_level_size = message.next_optional_int()?;
        let scale_subs_level_size = message.next_optional_int()?;
        let scale_price_increment = message.next_optional_double()?;
        let order = order
            .set_scale_init_level_size(scale_init_level_size)
            .set_scale_subs_level_size(scale_subs_level_size)
            .set_scale_price_increment(scale_price_increment);
        let d = OrderDecoder { server_version, message, order_id, contract, order, order_state };
        Ok(d)
    }

    /// Reads the fields of a scale order. Seven more follow where the price
    /// increment is above zero.
    pub fn read_scale_order_params(self) -> (r: Result<OrderDecoder, Error>)
        ensures
            match r {
                Ok(d) => d.version() == self.version() && d@ == scale_order_params(self@),
                Err(e) => scale_order_params(self@).failure == Some(e@),
            },
    {
        reveal(scale_order_params);
        reveal(OrderDecoder::record);
        let d = self.read_scale_levels()?;
        let d = if d.order.has_scale_increment() {
            d.read_scale_table()?
        } else {
            d
        };
        Ok(d)
    }

    /// Reads the parameter of the hedge.
    pub fn read_hedge_param(self) -> (r: Result<OrderDecoder, Error>)
        ensures
            match r {
                Ok(d) => d.version() == self.version() && d@ == hedge_param(self@),
                Err(e) => hedge_param(self@).failure == Some(e@),
            },
    {
        reveal(hedge_param);
        reveal(OrderDecoder::record);
        let OrderDecoder { server_version, mut message, order_id, contract, order, order_state } = self;
        let hedge_param = message.next_string()?;
        let order = order.set_hedge_param(hedge_param);
        let d = OrderDecoder { server_version, message, order_id, contract, order, order_state };
        Ok(d)
    }

    /// Reads the kind of hedge.
    pub fn read_hedge_type(self) -> (r: Result<OrderDecoder, Error>)
        ensures
            match r {
                Ok(d) => d.version() == self.version() && d@ == hedge_type(self@),
                Err(e) => hedge_type(self@).failure == Some(e@),
            },
    {
        reveal(hedge_type);
        reveal(OrderDecoder::record);
        let OrderDecoder { server_version, mut message, order_id, contract, order, order_state } = self;
        let hedge_type = message.next_string()?;
        let order = order.set_hedge_type(hedge_type);
        let d = OrderDecoder { server_version, message, order_id, contract, order, order_state };
        Ok(d)
    }

    /// Reads the kind of hedge and, where one is named, its parameter.
    pub fn read_hedge_params(self) -> (r: Result<OrderDecoder, Error>)
        ensures
            match r {
                Ok(d) => d.version() == self.version() && d@ == hedge_params(self@),
                Err(e) => hedge_params(self@).failure == Some(e@),
            },
    {
        reveal(hedge_params);
        reveal(OrderDecoder::record);
        let d = self.read_hedge_type()?;
        let d = if d.order.has_hedge() {
            d.read_hedge_param()?
        } else {
            d
        };
        Ok(d)
    }

    /// Reads whether the order opts out of smart routing.
    pub fn read_opt_out_smart_routing(self) -> (r: Result<OrderDecoder, Error>)
        ensures
            match r {
                Ok(d) => d.version() == self.version() && d@ == opt_out_smart_routing(self@),
                Err(e) => opt_out_smart_routing(self@).failure == Some(e@),
            },
    {
        reveal(opt_out_smart_routing);
        reveal(OrderDecoder::record);
        let OrderDecoder { server_version, mut message, order_id, contract, order, order_state } = self;
        let opt_out_smart_routing = message.next_bool()?;
        let order = order.set_opt_out_smart_routing(opt_out_smart_routing);
        let d = OrderDecoder { server_version, message, order_id, contract, order, order_state };
        Ok(d)
    }

    /// Reads the clearing account and intent.
    pub fn read_clearing_params(self) -> (r: Result<OrderDecoder, Error>)
        ensures
            match r {
                Ok(d) => d.version() == self.version() && d@ == clearing_params(self@),
                Err(e) => clearing_params(self@).failure == Some(e@),
            },
    {
        reveal(clearing_params);
        reveal(OrderDecoder::record);
        let OrderDecoder { server_version, mut message, order_id, contract, order, order_state } = self;
        let clearing_account = message.next_string()?;
        let clearing_intent = message.next_string()?;
        let order = order
            .set_clearing_account(clearing_account)
            .set_clearing_intent(clearing_intent);
        let d = OrderDecoder { server_version, message, order_id, contract, order, order_state };
        Ok(d)
    }

    /// Reads whether the order is not held.
    pub fn read_not_held(self) -> (r: Result<OrderDecoder, Error>)
        ensures
            match r {
                Ok(d) => d.version() == self.version() && d@ == not_held(self@),
                Err(e) => not_held(self@).failure == Some(e@),
            },
    {
        reveal(not_held);
        reveal(OrderDecoder::record);
        let OrderDecoder { server_version, mut message, order_id, contract, order, order_state } = self;
        let not_held = message.next_bool()?;
        let order = order.set_not_held(not_held);
        let d = OrderDecoder { server_version, message, order_id, contract, order, order_state };
        Ok(d)
    }

    /// Reads the underlying of a delta-neutral combination: three fields.
    pub fn read_delta_neutral_contract(self) -> (r: Result<OrderDecoder, Error>)
        ensures
            match r {
                Ok(d) => d.version() == self.version() && d@ == delta_neutral_contract(self@),
                Err(e) => delta_neutral_contract(self@).failure == Some(e@),
            },
    {
        reveal(delta_neutral_contract);
        reveal(OrderDecoder::record);
        let OrderDecoder { server_version, mut message, order_id, contract, order, order_state } = self;
        let mut underlying = DeltaNeutralContract::default();
        underlying.contract_id = message.next_int()?;
        underlying.delta = message.next_double()?;
        underlying.price = message.next_double()?;
        let delta_neutral_contract = Some(underlying);
        let contract = contract.set_delta_neutral_contract(delta_neutral_contract);
        let d = OrderDecoder { server_version, message, order_id, contract, order, order_state };
        Ok(d)
    }

    /// Reads a flag, and the delta-neutral underlying where the flag is set.
    pub fn read_delta_neutral(self) -> (r: Result<OrderDecoder, Error>)
        ensures
            match r {
                Ok(d) => d.version() == self.version() && d@ == delta_neutral(self@),
                Err(e) => delta_neutral(self@).failure == Some(e@),
            },
    {
        reveal(delta_neutral);
        let (d, has_delta_neutral_contract) = self.read_flag()?;
        let d = if has_delta_neutral_contract {
            d.read_delta_neutral_contract()?
        } else {
            d
        };
        Ok(d)
    }

    /// Reads one parameter of the algorithm: a name and a value.
    pub fn read_algo_param(self) -> (r: Result<OrderDecoder, Error>)
        ensures
            match r {
                Ok(d) => d.version() == self.version() && d@ == algo_param_entry(self@),
                Err(e) => algo_param_entry(self@).failure == Some(e@),
            },
    {
        reveal(algo_param_entry);
        reveal(OrderDecoder::record);
        let OrderDecoder { server_version, mut message, order_id, contract, order, order_state } = self;
        let mut param = TagValue::default();
        param.tag = message.next_string()?;
        param.value = message.next_string()?;
        let order = order.push_algo_params(param);
        let d = OrderDecoder { server_version, message, order_id, contract, order, order_state };
        Ok(d)
    }

    /// Reads the parameters of the algorithm: their number, then the parameters.
    pub fn read_algo_param_list(self) -> (r: Result<OrderDecoder, Error>)
        ensures
            match r {
                Ok(d) => d.version() == self.version() && d@ == algo_param_list(self@),
                Err(e) => algo_param_list(self@).failure == Some(e@),
            },
    {
        reveal(algo_param_list);
        let (d, count) = self.read_count()?;
        let ghost first = d@;
        let mut d = d;
        let mut k: i32 = 0;
        while k < count
            invariant
                0 <= k,
                d.server_version == self.server_version,
                self@.message.read_int() == Ok::<int, ErrorView>(count as int),
                first == self@.skip(),
                algo_param_run(first, count as int) == algo_param_run(d@, count - k),
            decreases count - k,
        {
            let ghost before = d@;
            match d.read_algo_param() {
                Ok(next) => {
                    d = next;
                },
                Err(e) => {
                    proof {
                        reveal(algo_param_list);
                        let stopped = algo_param_entry(before);
                        assert(before.failure is None);
                        assert(stopped.failure == Some(e@));
                        assert(algo_param_run(stopped, count - k - 1) == stopped);
                        assert(algo_param_run(before, count - k) == algo_param_run(stopped, count - k - 1));
                        assert(algo_param_run(first, count as int) == stopped);
                    }
                    return Err(e);
                },
            }
            k += 1;
        }
        Ok(d)
    }

    /// Reads the name of the algorithm.
    pub fn read_algo_strategy(self) -> (r: Result<OrderDecoder, Error>)
        ensures
            match r {
                Ok(d) => d.version() == self.version() && d@ == algo_strategy(self@),
                Err(e) => algo_strategy(self@).failure == Some(e@),
            },
    {
        reveal(algo_strategy);
        reveal(OrderDecoder::record);
        let OrderDecoder { server_version, mut message, order_id, contract, order, order_state } = self;
        let algo_strategy = message.next_string()?;
        let order = order.set_algo_strategy(algo_strategy);
        let d = OrderDecoder { server_version, message, order_id, contract, order, order_state };
        Ok(d)
    }

    /// Reads the algorithm and, where one is named, its parameters.
    pub fn read_algo_params(self) -> (r: Result<OrderDecoder, Error>)
        ensures
            match r {
                Ok(d) => d.version() == self.version() && d@ == algo_params(self@),
                Err(e) => algo_params(self@).failure == Some(e@),
            },
    {
        reveal(algo_params);
        reveal(OrderDecoder::record);
        let d = self.read_algo_strategy()?;
        let d = if d.order.has_algo() {
            d.read_algo_param_list()?
        } else {
            d
        };
        Ok(d)
    }

    /// Reads whether the broker solicited the trade.
    pub fn read_solicited(self) -> (r: Result<OrderDecoder, Error>)
        ensures
            match r {
                Ok(d) => d.version() == self.version() && d@ == solicited(self@),
                Err(e) => solicited(self@).failure == Some(e@),
            },
    {
        reveal(solicited);
        reveal(OrderDecoder::record);
        let OrderDecoder { server_version, mut message, order_id, contract, order, order_state } = self;
        let solicited = message.next_bool()?;
        let order = order.set_solicited(solicited);
        let d = OrderDecoder { server_version, message, order_id, contract, order, order_state };
        Ok(d)
    }

    /// Reads the status of the order.
    pub fn read_order_status(self) -> (r: Result<OrderDecoder, Error>)
        ensures
            match r {
                Ok(d) => d.version() == self.version() && d@ == order_status(self@),
                Err(e) => order_status(self@).failure == Some(e@),
            },
    {
        reveal(order_status);
        reveal(OrderDecoder::record);
        let OrderDecoder { server_version, mut message, order_id, contract, order, order_state } = self;
        let status = message.next_string()?;
        let order_state = order_state.set_status(status);
        let d = OrderDecoder { server_version, message, order_id, contract, order, order_state };
        Ok(d)
    }

    /// Reads the margins before the order.
    pub fn read_margin_before(self) -> (r: Result<OrderDecoder, Error>)
        ensures
            match r {
                Ok(d) => d.version() == self.version() && d@ == margin_before(self@),
                Err(e) => margin_before(self@).failure == Some(e@),
            },
    {
        reveal(margin_before);
        reveal(OrderDecoder::record);
        let OrderDecoder { server_version, mut message, order_id, contract, order, order_state } = self;
        let initial_margin_before = message.next_optional_double()?;
        let maintenance_margin_before = message.next_optional_double()?;
        let equity_with_loan_before = message.next_optional_double()?;
        let order_state = order_state
            .set_initial_margin_before(initial_margin_before)
            .set_maintenance_margin_before(maintenance_margin_before)
            .set_equity_with_loan_before(equity_with_loan_before);
        let d = OrderDecoder { server_version, message, order_id, contract, order, order_state };
        Ok(d)
    }

    /// Reads the change of the margins.
    pub fn read_margin_change(self) -> (r: Result<OrderDecoder, Error>)
        ensures
            match r {
                Ok(d) => d.version() == self.version() && d@ == margin_change(self@),
                Err(e) => margin_change(self@).failure == Some(e@),
            },
    {
        reveal(margin_change);
        reveal(OrderDecoder::record);
        let OrderDecoder { server_version, mut message, order_id, contract, order, order_state } = self;
        let initial_margin_change = message.next_optional_double()?;
        let maintenance_margin_change = message.next_optional_double()?;
        let equity_with_loan_change = message.next_optional_double()?;
        let order_state = order_state
            .set_initial_margin_change(initial_margin_change)
            .set_maintenance_margin_change(maintenance_margin_change)
            .set_equity_with_loan_change(equity_with_loan_change);
        let d = OrderDecoder { server_version, message, order_id, contract, order, order_state };
        Ok(d)
    }

    /// Reads the margins before the order and their change: six fields.
    pub fn read_margin_before_and_change(self) -> (r: Result<OrderDecoder, Error>)
        ensures
            match r {
                Ok(d) => d.version() == self.version() && d@ == margin_before_and_change(self.version(), self@),
                Err(e) => margin_before_and_change(self.version(), self@).failure == Some(e@),
            },
    {
        reveal(margin_before_and_change);
        if self.server_version < WHAT_IF_EXT_FIELDS {
            return Ok(self);
        }
        let d = self.read_margin_before()?;
        let d = d.read_margin_change()?;
        Ok(d)
    }

    /// Reads one allocation of the order to an account: seven fields.
    pub fn read_order_allocation(self) -> (r: Result<OrderDecoder, Error>)
        ensures
            match r {
                Ok(d) => d.version() == self.version() && d@ == order_allocation_entry(self@),
                Err(e) => order_allocation_entry(self@).failure == Some(e@),
            },
    {
        reveal(order_allocation_entry);
        reveal(OrderDecoder::record);
        let OrderDecoder { server_version, mut message, order_id, contract, order, order_state } = self;
        let mut allocation = OrderAllocation::default();
        allocation.account = message.next_string()?;
        allocation.position = message.next_optional_double()?;
        allocation.position_desired = message.next_optional_double()?;
        allocation.position_after = message.next_optional_double()?;
        allocation.desired_alloc_qty = message.next_optional_double()?;
        allocation.allowed_alloc_qty = message.next_optional_double()?;
        allocation.is_monetary = message.next_bool()?;
        let order_state = order_state.push_order_allocations(allocation);
        let d = OrderDecoder { server_version, message, order_id, contract, order, order_state };
        Ok(d)
    }

    /// Reads the allocations of the order: their number, then the allocations.
    pub fn read_order_allocations(self) -> (r: Result<OrderDecoder, Error>)
        ensures
            match r {
                Ok(d) => d.version() == self.version() && d@ == order_allocations(self@),
                Err(e) => order_allocations(self@).failure == Some(e@),
            },
    {
        reveal(order_allocations);
        let (d, count) = self.read_count()?;
        let ghost first = d@;
        let mut d = d;
        let mut k: i32 = 0;
        while k < count
            invariant
                0 <= k,
                d.server_version == self.server_version,
                self@.message.read_int() == Ok::<int, ErrorView>(count as int),
                first == self@.skip(),
                order_allocation_run(first, count as int) == order_allocation_run(d@, count - k),
            decreases count - k,
        {
            let ghost before = d@;
            match d.read_order_allocation() {
                Ok(next) => {
                    d = next;
                },
                Err(e) => {
                    proof {
                        reveal(order_allocations);
                        let stopped = order_allocation_entry(before);
                        assert(before.failure is None);
                        assert(stopped.failure == Some(e@));
                        assert(order_allocation_run(stopped, count - k - 1) == stopped);
                        assert(order_allocation_run(before, count - k) == order_allocation_run(stopped, count - k - 1));
                        assert(order_allocation_run(first, count as int) == stopped);
                    }
                    return Err(e);
                },
            }
            k += 1;
        }
        Ok(d)
    }

    /// Reads the margin currency and the margins before the order, outside regular
    /// hours.
    pub fn read_preview_margin_before(self) -> (r: Result<OrderDecoder, Error>)
        ensures
            match r {
                Ok(d) => d.version() == self.version() && d@ == preview_margin_before(self@),
                Err(e) => preview_margin_before(self@).failure == Some(e@),
            },
    {
        reveal(preview_margin_before);
        reveal(OrderDecoder::record);
        let OrderDecoder { server_version, mut message, order_id, contract, order, order_state } = self;
        let margin_currency = message.next_string()?;
        let initial_margin_before_outside_rth = message.next_optional_double()?;
        let maintenance_margin_before_outside_rth = message.next_optional_double()?;
        let equity_with_loan_before_outside_rth = message.next_optional_double()?;
        let order_state = order_state
            .set_margin_currency(margin_currency)
            .set_initial_margin_before_outside_rth(initial_margin_before_outside_rth)
            .set_maintenance_margin_before_outside_rth(maintenance_margin_before_outside_rth)
            .set_equity_with_loan_before_outside_rth(equity_with_loan_before_outside_rth);
        let d = OrderDecoder { server_version, message, order_id, contract, order, order_state };
        Ok(d)
    }

    /// Reads the change of the margins, outside regular hours.
    pub fn read_preview_margin_change(self) -> (r: Result<OrderDecoder, Error>)
        ensures
            match r {
                Ok(d) => d.version() == self.version() && d@ == preview_margin_change(self@),
                Err(e) => preview_margin_change(self@).failure == Some(e@),
            },
    {
        reveal(preview_margin_change);
        reveal(OrderDecoder::record);
        let OrderDecoder { server_version, mut message, order_id, contract, order, order_state } = self;
        let initial_margin_change_outside_rth = message.next_optional_double()?;
        let maintenance_margin_change_outside_rth = message.next_optional_double()?;
        let equity_with_loan_change_outside_rth = message.next_optional_double()?;
        let order_state = order_state
            .set_initial_margin_change_outside_rth(initial_margin_change_outside_rth)
            .set_maintenance_margin_change_outside_rth(maintenance_margin_change_outside_rth)
            .set_equity_with_loan_change_outside_rth(equity_with_loan_change_outside_rth);
        let d = OrderDecoder { server_version, message, order_id, contract, order, order_state };
        Ok(d)
    }

    /// Reads the margins after the order, outside regular hours.
    pub fn read_preview_margin_after(self) -> (r: Result<OrderDecoder, Error>)
        ensures
            match r {
                Ok(d) => d.version() == self.version() && d@ == preview_margin_after(self@),
                Err(e) => preview_margin_after(self@).failure == Some(e@),
            },
    {
        reveal(preview_margin_after);
        reveal(OrderDecoder::record);
        let OrderDecoder { server_version, mut message, order_id, contract, order, order_state } = self;
        let initial_margin_after_outside_rth = message.next_optional_double()?;
        let maintenance_margin_after_outside_rth = message.next_optional_double()?;
        let equity_with_loan_after_outside_rth = message.next_optional_double()?;
        let order_state = order_state
            .set_initial_margin_after_outside_rth(initial_margin_after_outside_rth)
            .set_maintenance_margin_after_outside_rth(maintenance_margin_after_outside_rth)
            .set_equity_with_loan_after_outside_rth(equity_with_loan_after_outside_rth);
        let d = OrderDecoder { server_version, message, order_id, contract, order, order_state };
        Ok(d)
    }

    /// Reads the suggested size and the reject reason.
    pub fn read_preview_advice(self) -> (r: Result<OrderDecoder, Error>)
        ensures
            match r {
                Ok(d) => d.version() == self.version() && d@ == preview_advice(self@),
                Err(e) => preview_advice(self@).failure == Some(e@),
            },
    {
        reveal(preview_advice);
        reveal(OrderDecoder::record);
        let OrderDecoder { server_version, mut message, order_id, contract, order, order_state } = self;
        let suggested_size = message.next_optional_double()?;
        let reject_reason = message.next_string()?;
        let order_state = order_state
            .set_suggested_size(suggested_size)
            .set_reject_reason(reject_reason);
        let d = OrderDecoder { server_version, message, order_id, contract, order, order_state };
        Ok(d)
    }

    /// Reads the full preview of the order: the margins outside regular hours and
    /// what goes with them, then the allocations.
    pub fn read_full_order_preview(self) -> (r: Result<OrderDecoder, Error>)
        ensures
            match r {
                Ok(d) => d.version() == self.version() && d@ == full_order_preview(self.version(), self@),
                Err(e) => full_order_preview(self.version(), self@).failure == Some(e@),
            },
    {
        reveal(full_order_preview);
        if self.server_version < FULL_ORDER_PREVIEW_FIELDS {
            return Ok(self);
        }
        let d = self.read_preview_margin_before()?;
        let d = d.read_preview_margin_change()?;
        let d = d.read_preview_margin_after()?;
        let d = d.read_preview_advice()?;
        let d = d.read_order_allocations()?;
        Ok(d)
    }

    /// Reads whether the order only asks for margin and commission.
    pub fn read_what_if(self) -> (r: Result<OrderDecoder, Error>)
        ensures
            match r {
                Ok(d) => d.version() == self.version() && d@ == what_if(self@),
                Err(e) => what_if(self@).failure == Some(e@),
            },
    {
        reveal(what_if);
        reveal(OrderDecoder::record);
        let OrderDecoder { server_version, mut message, order_id, contract, order, order_state } = self;
        let what_if = message.next_bool()?;
        let order = order.set_what_if(what_if);
        let d = OrderDecoder { server_version, message, order_id, contract, order, order_state };
        Ok(d)
    }

    /// Reads the margins after the order.
    pub fn read_margin_after(self) -> (r: Result<OrderDecoder, Error>)
        ensures
            match r {
                Ok(d) => d.version() == self.version() && d@ == margin_after(self@),
                Err(e) => margin_after(self@).failure == Some(e@),
            },
    {
        reveal(margin_after);
        reveal(OrderDecoder::record);
        let OrderDecoder { server_version, mut message, order_id, contract, order, order_state } = self;
        let initial_margin_after = message.next_optional_double()?;
        let maintenance_margin_after = message.next_optional_double()?;
        let equity_with_loan_after = message.next_optional_double()?;
        let order_state = order_state
            .set_initial_margin_after(initial_margin_after)
            .set_maintenance_margin_after(maintenance_margin_after)
            .set_equity_with_loan_after(equity_with_loan_after);
        let d = OrderDecoder { server_version, message, order_id, contract, order, order_state };
        Ok(d)
    }

    /// Reads the commission, its bounds and its currency.
    pub fn read_commission(self) -> (r: Result<OrderDecoder, Error>)
        ensures
            match r {
                Ok(d) => d.version() == self.version() && d@ == commission(self@),
                Err(e) => commission(self@).failure == Some(e@),
            },
    {
        reveal(commission);
        reveal(OrderDecoder::record);
        let OrderDecoder { server_version, mut message, order_id, contract, order, order_state } = self;
        let commission = message.next_optional_double()?;
        let minimum_commission = message.next_optional_double()?;
        let maximum_commission = message.next_optional_double()?;
        let commission_currency = message.next_string()?;
        let order_state = order_state
            .set_commission(commission)
            .set_minimum_commission(minimum_commission)
            .set_maximum_commission(maximum_commission)
            .set_commission_currency(commission_currency);
        let d = OrderDecoder { server_version, message, order_id, contract, order, order_state };
        Ok(d)
    }

    /// Reads the margins after the order and the commission: seven fields.
    pub fn read_margin_after_and_commission(self) -> (r: Result<OrderDecoder, Error>)
        ensures
            match r {
                Ok(d) => d.version() == self.version() && d@ == margin_after_and_commission(self@),
                Err(e) => margin_after_and_commission(self@).failure == Some(e@),
            },
    {
        reveal(margin_after_and_commission);
        let d = self.read_margin_after()?;
        let d = d.read_commission()?;
        Ok(d)
    }

    /// Reads the warning that came with the order.
    pub fn read_warning_text(self) -> (r: Result<OrderDecoder, Error>)
        ensures
            match r {
                Ok(d) => d.version() == self.version() && d@ == warning_text(self@),
                Err(e) => warning_text(self@).failure == Some(e@),
            },
    {
        reveal(warning_text);
        reveal(OrderDecoder::record);
        let OrderDecoder { server_version, mut message, order_id, contract, order, order_state } = self;
        let warning_text = message.next_string()?;
        let order_state = order_state.set_warning_text(warning_text);
        let d = OrderDecoder { server_version, message, order_id, contract, order, order_state };
        Ok(d)
    }

    /// Reads what a what-if order reports: the status, the margins and the commission,
    /// with the blocks that later versions added among them.
    pub fn read_what_if_info_and_commission(self) -> (r: Result<OrderDecoder, Error>)
        ensures
            match r {
                Ok(d) => d.version() == self.version() && d@ == what_if_info_and_commission(self.version(), self@),
                Err(e) => what_if_info_and_commission(self.version(), self@).failure == Some(e@),
            },
    {
        reveal(what_if_info_and_commission);
        let d = self.read_what_if()?;
        let d = d.read_order_status()?;
        let d = d.read_margin_before_and_change()?;
        let d = d.read_margin_after_and_commission()?;
        let d = d.read_full_order_preview()?;
        let d = d.read_warning_text()?;
        Ok(d)
    }

    /// Reads whether size and price are randomised.
    pub fn read_vol_randomize_flags(self) -> (r: Result<OrderDecoder, Error>)
        ensures
            match r {
                Ok(d) => d.version() == self.version() && d@ == vol_randomize_flags(self@),
                Err(e) => vol_randomize_flags(self@).failure == Some(e@),
            },
    {
        reveal(vol_randomize_flags);
        reveal(OrderDecoder::record);
        let OrderDecoder { server_version, mut message, order_id, contract, order, order_state } = self;
        let randomize_size = message.next_bool()?;
        let randomize_price = message.next_bool()?;
        let order = order.set_randomize_size(randomize_size).set_randomize_price(randomize_price);
        let d = OrderDecoder { server_version, message, order_id, contract, order, order_state };
        Ok(d)
    }

    /// Reads the contract of the benchmark, and whether the pegged amount decreases.
    pub fn read_benchmark_reference(self) -> (r: Result<OrderDecoder, Error>)
        ensures
            match r {
                Ok(d) => d.version() == self.version() && d@ == benchmark_reference(self@),
                Err(e) => benchmark_reference(self@).failure == Some(e@),
            },
    {
        reveal(benchmark_reference);
        reveal(OrderDecoder::record);
        let OrderDecoder { server_version, mut message, order_id, contract, order, order_state } = self;
        let reference_contract_id = message.next_int()?;
        let is_pegged_change_amount_decrease = message.next_bool()?;
        let order = order
            .set_reference_contract_id(reference_contract_id)
            .set_is_pegged_change_amount_decrease(is_pegged_change_amount_decrease);
        let d = OrderDecoder { server_version, message, order_id, contract, order, order_state };
        Ok(d)
    }

    /// Reads the two change amounts and the exchange of the benchmark.
    pub fn read_benchmark_amounts(self) -> (r: Result<OrderDecoder, Error>)
        ensures
            match r {
                Ok(d) => d.version() == self.version() && d@ == benchmark_amounts(self@),
                Err(e) => benchmark_amounts(self@).failure == Some(e@),
            },
    {
        reveal(benchmark_amounts);
        reveal(OrderDecoder::record);
        let OrderDecoder { server_version, mut message, order_id, contract, order, order_state } = self;
        let pegged_change_amount = message.next_optional_double()?;
        let reference_change_amount = message.next_optional_double()?;
        let reference_exchange = message.next_string()?;
        let order = order
            .set_pegged_change_amount(pegged_change_amount)
            .set_reference_change_amount(reference_change_amount)
            .set_reference_exchange(reference_exchange);
        let d = OrderDecoder { server_version, message, order_id, contract, order, order_state };
        Ok(d)
    }

    /// Reads the fields of an order that is pegged to a benchmark; no other order
    /// type carries them.
    pub fn read_peg_to_bench_params(self) -> (r: Result<OrderDecoder, Error>)
        ensures
            match r {
                Ok(d) => d.version() == self.version() && d@ == peg_to_bench_params(self.version(), self@),
                Err(e) => peg_to_bench_params(self.version(), self@).failure == Some(e@),
            },
    {
        reveal(peg_to_bench_params);
        reveal(OrderDecoder::record);
        if self.server_version < PEGGED_TO_BENCHMARK || !self.order.is_pegged_to_benchmark() {
            return Ok(self);
        }
        let d = self.read_benchmark_reference()?;
        let d = d.read_benchmark_amounts()?;
        Ok(d)
    }

    /// Reads one condition, which becomes one more condition of the order.
    pub fn read_condition(self) -> (r: Result<OrderDecoder, Error>)
        ensures
            match r {
                Ok(d) => d.version() == self.version() && d@ == condition_entry(self@),
                Err(e) => condition_entry(self@).failure == Some(e@),
            },
    {
        reveal(condition_entry);
        reveal(OrderDecoder::record);
        let OrderDecoder { server_version, mut message, order_id, contract, order, order_state } = self;
        let condition = decode_condition(&mut message)?;
        let order = order.push_conditions(condition);
        let d = OrderDecoder { server_version, message, order_id, contract, order, order_state };
        Ok(d)
    }

    /// Reads the two flags that hold for all conditions.
    pub fn read_condition_flags(self) -> (r: Result<OrderDecoder, Error>)
        ensures
            match r {
                Ok(d) => d.version() == self.version() && d@ == condition_flags(self@),
                Err(e) => condition_flags(self@).failure == Some(e@),
            },
    {
        reveal(condition_flags);
        reveal(OrderDecoder::record);
        let OrderDecoder { server_version, mut message, order_id, contract, order, order_state } = self;
        let conditions_ignore_rth = message.next_bool()?;
        let conditions_cancel_order = message.next_bool()?;
        let order = order
            .set_conditions_ignore_rth(conditions_ignore_rth)
            .set_conditions_cancel_order(conditions_cancel_order);
        let d = OrderDecoder { server_version, message, order_id, contract, order, order_state };
        Ok(d)
    }

    /// Reads the conditions of the order: their number, the conditions and, where
    /// there is at least one, two flags that hold for all of them.
    pub fn read_conditions(self) -> (r: Result<OrderDecoder, Error>)
        ensures
            match r {
                Ok(d) => d.version() == self.version() && d@ == conditions(self.version(), self@),
                Err(e) => conditions(self.version(), self@).failure == Some(e@),
            },
    {
        reveal(conditions);
        if self.server_version < PEGGED_TO_BENCHMARK {
            return Ok(self);
        }
        let (d, count) = self.read_count()?;
        let ghost first = d@;
        let mut d = d;
        let mut k: i32 = 0;
        while k < count
            invariant
                0 <= k,
                d.server_version == self.server_version,
                self.server_version >= PEGGED_TO_BENCHMARK,
                self@.message.read_int() == Ok::<int, ErrorView>(count as int),
                first == self@.skip(),
                condition_run(first, count as int) == condition_run(d@, count - k),
            decreases count - k,
        {
            let ghost before = d@;
            match d.read_condition() {
                Ok(next) => {
                    d = next;
                },
                Err(e) => {
                    proof {
                        reveal(conditions);
                        let stopped = condition_entry(before);
                        assert(before.failure is None);
                        assert(stopped.failure == Some(e@));
                        assert(condition_run(stopped, count - k - 1) == stopped);
                        assert(condition_run(before, count - k) == condition_run(stopped, count - k - 1));
                        assert(condition_run(first, count as int) == stopped);
                    }
                    return Err(e);
                },
            }
            k += 1;
        }
        let d = if count > 0 {
            d.read_condition_flags()?
        } else {
            d
        };
        Ok(d)
    }

    /// Reads the type of the adjusted order and the prices that trigger it.
    pub fn read_adjusted_order(self) -> (r: Result<OrderDecoder, Error>)
        ensures
            match r {
                Ok(d) => d.version() == self.version() && d@ == adjusted_order(self@),
                Err(e) => adjusted_order(self@).failure == Some(e@),
            },
    {
        reveal(adjusted_order);
        reveal(OrderDecoder::record);
        let OrderDecoder { server_version, mut message, order_id, contract, order, order_state } = self;
        let adjusted_order_type = message.next_string()?;
        let trigger_price = message.next_optional_double()?;
        let trail_stop_price = message.next_optional_double()?;
        let limit_price_offset = message.next_optional_double()?;
        let order = order
            .set_adjusted_order_type(adjusted_order_type)
            .set_trigger_price(trigger_price)
            .set_trail_stop_price(trail_stop_price)
            .set_limit_price_offset(limit_price_offset);
        let d = OrderDecoder { server_version, message, order_id, contract, order, order_state };
        Ok(d)
    }

    /// Reads the stop prices and the trailing amount after the adjustment.
    pub fn read_adjusted_stops(self) -> (r: Result<OrderDecoder, Error>)
        ensures
            match r {
                Ok(d) => d.version() == self.version() && d@ == adjusted_stops(self@),
                Err(e) => adjusted_stops(self@).failure == Some(e@),
            },
    {
        reveal(adjusted_stops);
        reveal(OrderDecoder::record);
        let OrderDecoder { server_version, mut message, order_id, contract, order, order_state } = self;
        let adjusted_stop_price = message.next_optional_double()?;
        let adjusted_stop_limit_price = message.next_optional_double()?;
        let adjusted_trailing_amount = message.next_optional_double()?;
        let adjustable_trailing_unit = message.next_int()?;
        let order = order
            .set_adjusted_stop_price(adjusted_stop_price)
            .set_adjusted_stop_limit_price(adjusted_stop_limit_price)
            .set_adjusted_trailing_amount(adjusted_trailing_amount)
            .set_adjustable_trailing_unit(adjustable_trailing_unit);
        let d = OrderDecoder { server_version, message, order_id, contract, order, order_state };
        Ok(d)
    }

    /// Reads the fields of an adjusted order.
    pub fn read_adjusted_order_params(self) -> (r: Result<OrderDecoder, Error>)
        ensures
            match r {
                Ok(d) => d.version() == self.version() && d@ == adjusted_order_params(self.version(), self@),
                Err(e) => adjusted_order_params(self.version(), self@).failure == Some(e@),
            },
    {
        reveal(adjusted_order_params);
        if self.server_version < PEGGED_TO_BENCHMARK {
            return Ok(self);
        }
        let d = self.read_adjusted_order()?;
        let d = d.read_adjusted_stops()?;
        Ok(d)
    }

    /// Reads the soft-dollar tier: three fields.
    pub fn read_soft_dollar_tier(self) -> (r: Result<OrderDecoder, Error>)
        ensures
            match r {
                Ok(d) => d.version() == self.version() && d@ == soft_dollar_tier(self.version(), self@),
                Err(e) => soft_dollar_tier(self.version(), self@).failure == Some(e@),
            },
    {
        reveal(soft_dollar_tier);
        reveal(OrderDecoder::record);
        if self.server_version < SOFT_DOLLAR_TIER {
            return Ok(self);
        }
        let OrderDecoder { server_version, mut message, order_id, contract, order, order_state } = self;
        let mut tier = SoftDollarTier::default();
        tier.name = message.next_string()?;
        tier.value = message.next_string()?;
        tier.display_name = message.next_string()?;
        let order = order.set_soft_dollar_tier(tier);
        let d = OrderDecoder { server_version, message, order_id, contract, order, order_state };
        Ok(d)
    }

    /// Reads the cash quantity.
    pub fn read_cash_qty(self) -> (r: Result<OrderDecoder, Error>)
        ensures
            match r {
                Ok(d) => d.version() == self.version() && d@ == cash_qty(self.version(), self@),
                Err(e) => cash_qty(self.version(), self@).failure == Some(e@),
            },
    {
        reveal(cash_qty);
        reveal(OrderDecoder::record);
        if self.server_version < CASH_QTY {
            return Ok(self);
        }
        let OrderDecoder { server_version, mut message, order_id, contract, order, order_state } = self;
        let cash_qty = message.next_optional_double()?;
        let order = order.set_cash_qty(cash_qty);
        let d = OrderDecoder { server_version, message, order_id, contract, order, order_state };
        Ok(d)
    }

    /// Reads whether the hedge keeps its own price.
    pub fn read_dont_use_auto_price_for_hedge(self) -> (r: Result<OrderDecoder, Error>)
        ensures
            match r {
                Ok(d) => d.version() == self.version() && d@ == dont_use_auto_price_for_hedge(self.version(), self@),
                Err(e) => dont_use_auto_price_for_hedge(self.version(), self@).failure == Some(e@),
            },
    {
        reveal(dont_use_auto_price_for_hedge);
        reveal(OrderDecoder::record);
        if self.server_version < AUTO_PRICE_FOR_HEDGE {
            return Ok(self);
        }
        let OrderDecoder { server_version, mut message, order_id, contract, order, order_state } = self;
        let dont_use_auto_price_for_hedge = message.next_bool()?;
        let order = order.set_dont_use_auto_price_for_hedge(dont_use_auto_price_for_hedge);
        let d = OrderDecoder { server_version, message, order_id, contract, order, order_state };
        Ok(d)
    }

    /// Reads whether the order is an OMS container.
    pub fn read_is_oms_container(self) -> (r: Result<OrderDecoder, Error>)
        ensures
            match r {
                Ok(d) => d.version() == self.version() && d@ == is_oms_container(self.version(), self@),
                Err(e) => is_oms_container(self.version(), self@).failure == Some(e@),
            },
    {
        reveal(is_oms_container);
        reveal(OrderDecoder::record);
        if self.server_version < ORDER_CONTAINER {
            return Ok(self);
        }
        let OrderDecoder { server_version, mut message, order_id, contract, order, order_state } = self;
        let is_oms_container = message.next_bool()?;
        let order = order.set_is_oms_container(is_oms_container);
        let d = OrderDecoder { server_version, message, order_id, contract, order, order_state };
        Ok(d)
    }

    /// Reads whether discretion reaches up to the limit price.
    pub fn read_discretionary_up_to_limit_price(self) -> (r: Result<OrderDecoder, Error>)
        ensures
            match r {
                Ok(d) => d.version() == self.version() && d@ == discretionary_up_to_limit_price(self.version(), self@),
                Err(e) => discretionary_up_to_limit_price(self.version(), self@).failure == Some(e@),
            },
    {
        reveal(discretionary_up_to_limit_price);
        reveal(OrderDecoder::record);
        if self.server_version < D_PEG_ORDERS {
            return Ok(self);
        }
        let OrderDecoder { server_version, mut message, order_id, contract, order, order_state } = self;
        let discretionary_up_to_limit_price = message.next_bool()?;
        let order = order.set_discretionary_up_to_limit_price(discretionary_up_to_limit_price);
        let d = OrderDecoder { server_version, message, order_id, contract, order, order_state };
        Ok(d)
    }

    /// Reads whether the price management algorithm is used.
    pub fn read_use_price_mgmt_algo(self) -> (r: Result<OrderDecoder, Error>)
        ensures
            match r {
                Ok(d) => d.version() == self.version() && d@ == use_price_mgmt_algo(self.version(), self@),
                Err(e) => use_price_mgmt_algo(self.version(), self@).failure == Some(e@),
            },
    {
        reveal(use_price_mgmt_algo);
        reveal(OrderDecoder::record);
        if self.server_version < PRICE_MGMT_ALGO {
            return Ok(self);
        }
        let OrderDecoder { server_version, mut message, order_id, contract, order, order_state } = self;
        let use_price_mgmt_algo = message.next_bool()?;
        let order = order.set_use_price_mgmt_algo(use_price_mgmt_algo);
        let d = OrderDecoder { server_version, message, order_id, contract, order, order_state };
        Ok(d)
    }

    /// Reads the duration of the order.
    pub fn read_duration(self) -> (r: Result<OrderDecoder, Error>)
        ensures
            match r {
                Ok(d) => d.version() == self.version() && d@ == duration(self.version(), self@),
                Err(e) => duration(self.version(), self@).failure == Some(e@),
            },
    {
        reveal(duration);
        reveal(OrderDecoder::record);
        if self.server_version < DURATION {
            return Ok(self);
        }
        let OrderDecoder { server_version, mut message, order_id, contract, order, order_state } = self;
        let duration = message.next_optional_int()?;
        let order = order.set_duration(duration);
        let d = OrderDecoder { server_version, message, order_id, contract, order, order_state };
        Ok(d)
    }

    /// Reads whether the order is posted to the ATS.
    pub fn read_post_to_ats(self) -> (r: Result<OrderDecoder, Error>)
        ensures
            match r {
                Ok(d) => d.version() == self.version() && d@ == post_to_ats(self.version(), self@),
                Err(e) => post_to_ats(self.version(), self@).failure == Some(e@),
            },
    {
        reveal(post_to_ats);
        reveal(OrderDecoder::record);
        if self.server_version < POST_TO_ATS {
            return Ok(self);
        }
        let OrderDecoder { server_version, mut message, order_id, contract, order, order_state } = self;
        let post_to_ats = message.next_optional_int()?;
        let order = order.set_post_to_ats(post_to_ats);
        let d = OrderDecoder { server_version, message, order_id, contract, order, order_state };
        Ok(d)
    }

    /// Reads whether cancelling the children cancels the parent.
    pub fn read_auto_cancel_parent(self) -> (r: Result<OrderDecoder, Error>)
        ensures
            match r {
                Ok(d) => d.version() == self.version() && d@ == auto_cancel_parent(self.version(), self@),
                Err(e) => auto_cancel_parent(self.version(), self@).failure == Some(e@),
            },
    {
        reveal(auto_cancel_parent);
        reveal(OrderDecoder::record);
        if self.server_version < AUTO_CANCEL_PARENT {
            return Ok(self);
        }
        let OrderDecoder { server_version, mut message, order_id, contract, order, order_state } = self;
        let auto_cancel_parent = message.next_bool()?;
        let order = order.set_auto_cancel_parent(auto_cancel_parent);
        let d = OrderDecoder { server_version, message, order_id, contract, order, order_state };
        Ok(d)
    }

    /// Reads the least quantity to trade and the least size to compete.
    pub fn read_peg_best_sizes(self) -> (r: Result<OrderDecoder, Error>)
        ensures
            match r {
                Ok(d) => d.version() == self.version() && d@ == peg_best_sizes(self@),
                Err(e) => peg_best_sizes(self@).failure == Some(e@),
            },
    {
        reveal(peg_best_sizes);
        reveal(OrderDecoder::record);
        let OrderDecoder { server_version, mut message, order_id, contract, order, order_state } = self;
        let min_trade_qty = message.next_optional_int()?;
        let min_compete_size = message.next_optional_int()?;
        let order = order.set_min_trade_qty(min_trade_qty).set_min_compete_size(min_compete_size);
        let d = OrderDecoder { server_version, message, order_id, contract, order, order_state };
        Ok(d)
    }

    /// Reads the offset against the best price and the two mid offsets.
    pub fn read_peg_best_offsets(self) -> (r: Result<OrderDecoder, Error>)
        ensures
            match r {
                Ok(d) => d.version() == self.version() && d@ == peg_best_offsets(self@),
                Err(e) => peg_best_offsets(self@).failure == Some(e@),
            },
    {
        reveal(peg_best_offsets);
        reveal(OrderDecoder::record);
        let OrderDecoder { server_version, mut message, order_id, contract, order, order_state } = self;
        let compete_against_best_offset = message.next_optional_double()?;
        let mid_offset_at_whole = message.next_optional_double()?;
        let mid_offset_at_half = message.next_optional_double()?;
        let order = order
            .set_compete_against_best_offset(compete_against_best_offset)
            .set_mid_offset_at_whole(mid_offset_at_whole)
            .set_mid_offset_at_half(mid_offset_at_half);
        let d = OrderDecoder { server_version, message, order_id, contract, order, order_state };
        Ok(d)
    }

    /// Reads the five fields of an order pegged to the best price or to the midpoint.
    pub fn read_peg_best_peg_mid_order_attributes(self) -> (r: Result<OrderDecoder, Error>)
        ensures
            match r {
                Ok(d) => d.version() == self.version() && d@ == peg_best_peg_mid_order_attributes(self.version(), self@),
                Err(e) => peg_best_peg_mid_order_attributes(self.version(), self@).failure == Some(e@),
            },
    {
        reveal(peg_best_peg_mid_order_attributes);
        if self.server_version < PEGBEST_PEGMID_OFFSETS {
            return Ok(self);
        }
        let d = self.read_peg_best_sizes()?;
        let d = d.read_peg_best_offsets()?;
        Ok(d)
    }

    /// Reads the account of the customer.
    pub fn read_customer_account(self) -> (r: Result<OrderDecoder, Error>)
        ensures
            match r {
                Ok(d) => d.version() == self.version() && d@ == customer_account(self.version(), self@),
                Err(e) => customer_account(self.version(), self@).failure == Some(e@),
            },
    {
        reveal(customer_account);
        reveal(OrderDecoder::record);
        if self.server_version < CUSTOMER_ACCOUNT {
            return Ok(self);
        }
        let OrderDecoder { server_version, mut message, order_id, contract, order, order_state } = self;
        let customer_account = message.next_string()?;
        let order = order.set_customer_account(customer_account);
        let d = OrderDecoder { server_version, message, order_id, contract, order, order_state };
        Ok(d)
    }

    /// Reads whether the customer is a professional.
    pub fn read_professional_customer(self) -> (r: Result<OrderDecoder, Error>)
        ensures
            match r {
                Ok(d) => d.version() == self.version() && d@ == professional_customer(self.version(), self@),
                Err(e) => professional_customer(self.version(), self@).failure == Some(e@),
            },
    {
        reveal(professional_customer);
        reveal(OrderDecoder::record);
        if self.server_version < PROFESSIONAL_CUSTOMER {
            return Ok(self);
        }
        let OrderDecoder { server_version, mut message, order_id, contract, order, order_state } = self;
        let professional_customer = message.next_bool()?;
        let order = order.set_professional_customer(professional_customer);
        let d = OrderDecoder { server_version, message, order_id, contract, order, order_state };
        Ok(d)
    }

    /// Reads the accrued interest of a bond.
    pub fn read_bond_accrued_interest(self) -> (r: Result<OrderDecoder, Error>)
        ensures
            match r {
                Ok(d) => d.version() == self.version() && d@ == bond_accrued_interest(self.version(), self@),
                Err(e) => bond_accrued_interest(self.version(), self@).failure == Some(e@),
            },
    {
        reveal(bond_accrued_interest);
        reveal(OrderDecoder::record);
        if self.server_version < BOND_ACCRUED_INTEREST {
            return Ok(self);
        }
        let OrderDecoder { server_version, mut message, order_id, contract, order, order_state } = self;
        let bond_accrued_interest = message.next_string()?;
        let order = order.set_bond_accrued_interest(bond_accrued_interest);
        let d = OrderDecoder { server_version, message, order_id, contract, order, order_state };
        Ok(d)
    }

    /// Reads whether the order takes part in overnight trading.
    pub fn read_include_overnight(self) -> (r: Result<OrderDecoder, Error>)
        ensures
            match r {
                Ok(d) => d.version() == self.version() && d@ == include_overnight(self.version(), self@),
                Err(e) => include_overnight(self.version(), self@).failure == Some(e@),
            },
    {
        reveal(include_overnight);
        reveal(OrderDecoder::record);
        if self.server_version < INCLUDE_OVERNIGHT {
            return Ok(self);
        }
        let OrderDecoder { server_version, mut message, order_id, contract, order, order_state } = self;
        let include_overnight = message.next_bool()?;
        let order = order.set_include_overnight(include_overnight);
        let d = OrderDecoder { server_version, message, order_id, contract, order, order_state };
        Ok(d)
    }

    /// Reads the two CME tagging fields.
    pub fn read_cme_tagging_fields(self) -> (r: Result<OrderDecoder, Error>)
        ensures
            match r {
                Ok(d) => d.version() == self.version() && d@ == cme_tagging_fields(self.version(), self@),
                Err(e) => cme_tagging_fields(self.version(), self@).failure == Some(e@),
            },
    {
        reveal(cme_tagging_fields);
        reveal(OrderDecoder::record);
        if self.server_version < CME_TAGGING_FIELDS_IN_OPEN_ORDER {
            return Ok(self);
        }
        let OrderDecoder { server_version, mut message, order_id, contract, order, order_state } = self;
        let ext_operator = message.next_string()?;
        let manual_order_indicator = message.next_optional_int()?;
        let order = order
            .set_ext_operator(ext_operator)
            .set_manual_order_indicator(manual_order_indicator);
        let d = OrderDecoder { server_version, message, order_id, contract, order, order_state };
        Ok(d)
    }

    /// Reads who submitted the order.
    pub fn read_submitter(self) -> (r: Result<OrderDecoder, Error>)
        ensures
            match r {
                Ok(d) => d.version() == self.version() && d@ == submitter(self.version(), self@),
                Err(e) => submitter(self.version(), self@).failure == Some(e@),
            },
    {
        reveal(submitter);
        reveal(OrderDecoder::record);
        if self.server_version < SUBMITTER {
            return Ok(self);
        }
        let OrderDecoder { server_version, mut message, order_id, contract, order, order_state } = self;
        let submitter = message.next_string()?;
        let order = order.set_submitter(submitter);
        let d = OrderDecoder { server_version, message, order_id, contract, order, order_state };
        Ok(d)
    }

    /// Reads the trailing stop price and the offset of the limit price.
    pub fn read_stop_price_and_limit_price_offset(self) -> (r: Result<OrderDecoder, Error>)
        ensures
            match r {
                Ok(d) => d.version() == self.version() && d@ == stop_price_and_limit_price_offset(self@),
                Err(e) => stop_price_and_limit_price_offset(self@).failure == Some(e@),
            },
    {
        reveal(stop_price_and_limit_price_offset);
        reveal(OrderDecoder::record);
        let OrderDecoder { server_version, mut message, order_id, contract, order, order_state } = self;
        let trail_stop_price = message.next_optional_double()?;
        let limit_price_offset = message.next_optional_double()?;
        let order = order
            .set_trail_stop_price(trail_stop_price)
            .set_limit_price_offset(limit_price_offset);
        let d = OrderDecoder { server_version, message, order_id, contract, order, order_state };
        Ok(d)
    }

    /// Reads the date at which the order is cancelled by itself.
    pub fn read_auto_cancel_date(self) -> (r: Result<OrderDecoder, Error>)
        ensures
            match r {
                Ok(d) => d.version() == self.version() && d@ == auto_cancel_date(self@),
                Err(e) => auto_cancel_date(self@).failure == Some(e@),
            },
    {
        reveal(auto_cancel_date);
        reveal(OrderDecoder::record);
        let OrderDecoder { server_version, mut message, order_id, contract, order, order_state } = self;
        let auto_cancel_date = message.next_string()?;
        let order = order.set_auto_cancel_date(auto_cancel_date);
        let d = OrderDecoder { server_version, message, order_id, contract, order, order_state };
        Ok(d)
    }

    /// Reads the quantity that has been filled.
    pub fn read_filled_quantity(self) -> (r: Result<OrderDecoder, Error>)
        ensures
            match r {
                Ok(d) => d.version() == self.version() && d@ == filled_quantity(self@),
                Err(e) => filled_quantity(self@).failure == Some(e@),
            },
    {
        reveal(filled_quantity);
        reveal(OrderDecoder::record);
        let OrderDecoder { server_version, mut message, order_id, contract, order, order_state } = self;
        let filled_quantity = message.next_double()?;
        let order = order.set_filled_quantity(filled_quantity);
        let d = OrderDecoder { server_version, message, order_id, contract, order, order_state };
        Ok(d)
    }

    /// Reads the contract of the reference future.
    pub fn read_ref_futures_contract_id(self) -> (r: Result<OrderDecoder, Error>)
        ensures
            match r {
                Ok(d) => d.version() == self.version() && d@ == ref_futures_contract_id(self@),
                Err(e) => ref_futures_contract_id(self@).failure == Some(e@),
            },
    {
        reveal(ref_futures_contract_id);
        reveal(OrderDecoder::record);
        let OrderDecoder { server_version, mut message, order_id, contract, order, order_state } = self;
        let ref_futures_con_id = message.next_optional_int()?;
        let order = order.set_ref_futures_con_id(ref_futures_con_id);
        let d = OrderDecoder { server_version, message, order_id, contract, order, order_state };
        Ok(d)
    }

    /// Reads the shareholder status.
    pub fn read_shareholder(self) -> (r: Result<OrderDecoder, Error>)
        ensures
            match r {
                Ok(d) => d.version() == self.version() && d@ == shareholder(self@),
                Err(e) => shareholder(self@).failure == Some(e@),
            },
    {
        reveal(shareholder);
        reveal(OrderDecoder::record);
        let OrderDecoder { server_version, mut message, order_id, contract, order, order_state } = self;
        let shareholder = message.next_string()?;
        let order = order.set_shareholder(shareholder);
        let d = OrderDecoder { server_version, message, order_id, contract, order, order_state };
        Ok(d)
    }

    /// Reads whether the order trades imbalances only.
    pub fn read_imbalance_only(self) -> (r: Result<OrderDecoder, Error>)
        ensures
            match r {
                Ok(d) => d.version() == self.version() && d@ == imbalance_only(self.version(), self@),
                Err(e) => imbalance_only(self.version(), self@).failure == Some(e@),
            },
    {
        reveal(imbalance_only);
        reveal(OrderDecoder::record);
        if self.server_version < IMBALANCE_ONLY {
            return Ok(self);
        }
        let OrderDecoder { server_version, mut message, order_id, contract, order, order_state } = self;
        let imbalance_only = message.next_bool()?;
        let order = order.set_imbalance_only(imbalance_only);
        let d = OrderDecoder { server_version, message, order_id, contract, order, order_state };
        Ok(d)
    }

    /// Reads whether the order trades imbalances only, at every version: a
    /// completed order always carries the field.
    pub fn read_imbalance_only_always(self) -> (r: Result<OrderDecoder, Error>)
        ensures
            match r {
                Ok(d) => d.version() == self.version() && d@ == imbalance_only_always(self@),
                Err(e) => imbalance_only_always(self@).failure == Some(e@),
            },
    {
        reveal(imbalance_only_always);
        reveal(OrderDecoder::record);
        let OrderDecoder { server_version, mut message, order_id, contract, order, order_state } = self;
        let imbalance_only = message.next_bool()?;
        let order = order.set_imbalance_only(imbalance_only);
        let d = OrderDecoder { server_version, message, order_id, contract, order, order_state };
        Ok(d)
    }

    /// Reads whether a marketable order is routed to the best bid or offer.
    pub fn read_route_marketable_to_bbo(self) -> (r: Result<OrderDecoder, Error>)
        ensures
            match r {
                Ok(d) => d.version() == self.version() && d@ == route_marketable_to_bbo(self@),
                Err(e) => route_marketable_to_bbo(self@).failure == Some(e@),
            },
    {
        reveal(route_marketable_to_bbo);
        reveal(OrderDecoder::record);
        let OrderDecoder { server_version, mut message, order_id, contract, order, order_state } = self;
        let route_marketable_to_bbo = message.next_bool()?;
        let order = order.set_route_marketable_to_bbo(route_marketable_to_bbo);
        let d = OrderDecoder { server_version, message, order_id, contract, order, order_state };
        Ok(d)
    }

    /// Reads the host identifier of the parent order.
    pub fn read_parent_perm_id(self) -> (r: Result<OrderDecoder, Error>)
        ensures
            match r {
                Ok(d) => d.version() == self.version() && d@ == parent_perm_id(self@),
                Err(e) => parent_perm_id(self@).failure == Some(e@),
            },
    {
        reveal(parent_perm_id);
        reveal(OrderDecoder::record);
        let OrderDecoder { server_version, mut message, order_id, contract, order, order_state } = self;
        let parent_perm_id = message.next_optional_long()?;
        let order = order.set_parent_perm_id(parent_perm_id);
        let d = OrderDecoder { server_version, message, order_id, contract, order, order_state };
        Ok(d)
    }

    /// Reads when the order was completed.
    pub fn read_completed_time(self) -> (r: Result<OrderDecoder, Error>)
        ensures
            match r {
                Ok(d) => d.version() == self.version() && d@ == completed_time(self@),
                Err(e) => completed_time(self@).failure == Some(e@),
            },
    {
        reveal(completed_time);
        reveal(OrderDecoder::record);
        let OrderDecoder { server_version, mut message, order_id, contract, order, order_state } = self;
        let completed_time = message.next_string()?;
        let order_state = order_state.set_completed_time(completed_time);
        let d = OrderDecoder { server_version, message, order_id, contract, order, order_state };
        Ok(d)
    }

    /// Reads how the order was completed.
    pub fn read_completed_status(self) -> (r: Result<OrderDecoder, Error>)
        ensures
            match r {
                Ok(d) => d.version() == self.version() && d@ == completed_status(self@),
                Err(e) => completed_status(self@).failure == Some(e@),
            },
    {
        reveal(completed_status);
        reveal(OrderDecoder::record);
        let OrderDecoder { server_version, mut message, order_id, contract, order, order_state } = self;
        let completed_status = message.next_string()?;
        let order_state = order_state.set_completed_status(completed_status);
        let d = OrderDecoder { server_version, message, order_id, contract, order, order_state };
        Ok(d)
    }

    /// Reads which order it is and what it asks for: the identifier, the contract,
    /// the side, the quantity, the type, the prices, the time in force, the
    /// group and the account.
    pub fn read_open_order_header(self) -> (r: Result<OrderDecoder, Error>)
        ensures
            match r {
                Ok(d) => d.version() == self.version() && d@ == open_order_header(self@),
                Err(e) => open_order_header(self@).failure == Some(e@),
            },
    {
        reveal(open_order_header);
        let d = self.read_order_id()?;
        let d = d.read_contract_fields()?;
        let d = d.read_action()?;
        let d = d.read_total_quantity()?;
        let d = d.read_order_type()?;
        let d = d.read_limit_price()?;
        let d = d.read_aux_price()?;
        let d = d.read_tif()?;
        let d = d.read_oca_group()?;
        let d = d.read_account()?;
        Ok(d)
    }

    /// Reads how the order is handled: from whom it comes, and when and where it may
    /// trade.
    pub fn read_open_order_handling(self) -> (r: Result<OrderDecoder, Error>)
        ensures
            match r {
                Ok(d) => d.version() == self.version() && d@ == open_order_handling(self@),
                Err(e) => open_order_handling(self@).failure == Some(e@),
            },
    {
        reveal(open_order_handling);
        let d = self.read_open_close()?;
        let d = d.read_origin()?;
        let d = d.read_order_ref()?;
        let d = d.read_client_id()?;
        let d = d.read_perm_id()?;
        let d = d.read_outside_rth()?;
        let d = d.read_hidden()?;
        let d = d.read_discretionary_amt()?;
        let d = d.read_good_after_time()?;
        let d = d.skip_shares_allocation();
        Ok(d)
    }

    /// Reads the advisor and model, the validity, the capacity and the short sale,
    /// then the auction and the reference prices.
    pub fn read_open_order_routing(self) -> (r: Result<OrderDecoder, Error>)
        ensures
            match r {
                Ok(d) => d.version() == self.version() && d@ == open_order_routing(self.version(), self@),
                Err(e) => open_order_routing(self.version(), self@).failure == Some(e@),
            },
    {
        reveal(open_order_routing);
        let d = self.read_fa_params()?;
        let d = d.read_model_code()?;
        let d = d.read_good_till_date()?;
        let d = d.read_rule_80_a()?;
        let d = d.read_percent_offset()?;
        let d = d.read_settling_firm()?;
        let d = d.read_short_sale_params()?;
        let d = d.read_auction_strategy()?;
        let d = d.read_box_order_params()?;
        let d = d.read_peg_to_stock_or_vol_order_params()?;
        Ok(d)
    }

    /// Reads how the order may fill, its group, its parent and its trigger.
    pub fn read_open_order_filling(self) -> (r: Result<OrderDecoder, Error>)
        ensures
            match r {
                Ok(d) => d.version() == self.version() && d@ == open_order_filling(self@),
                Err(e) => open_order_filling(self@).failure == Some(e@),
            },
    {
        reveal(open_order_filling);
        let d = self.read_display_size()?;
        let d = d.read_block_order()?;
        let d = d.read_sweep_to_fill()?;
        let d = d.read_all_or_none()?;
        let d = d.read_min_qty()?;
        let d = d.read_oca_type()?;
        let d = d.skip_etrade_only();
        let d = d.skip_firm_quote_only();
        let d = d.skip_nbbo_price_cap();
        let d = d.read_parent_id()?;
        let d = d.read_trigger_method()?;
        Ok(d)
    }

    /// Reads volatility, trailing, combination, scale, hedge and clearing.
    pub fn read_open_order_strategy(self) -> (r: Result<OrderDecoder, Error>)
        ensures
            match r {
                Ok(d) => d.version() == self.version() && d@ == open_order_strategy(self@),
                Err(e) => open_order_strategy(self@).failure == Some(e@),
            },
    {
        reveal(open_order_strategy);
        let d = self.read_volatility_order_params(true)?;
        let d = d.read_trail_params()?;
        let d = d.read_basis_points()?;
        let d = d.read_combo_legs()?;
        let d = d.read_smart_combo_routing_params()?;
        let d = d.read_scale_order_params()?;
        let d = d.read_hedge_params()?;
        let d = d.read_opt_out_smart_routing()?;
        let d = d.read_clearing_params()?;
        let d = d.read_not_held()?;
        Ok(d)
    }

    /// Reads the delta-neutral underlying, the algorithm, the what-if report, the
    /// benchmark, the conditions, the adjustment, the tier and the cash quantity.
    pub fn read_open_order_report(self) -> (r: Result<OrderDecoder, Error>)
        ensures
            match r {
                Ok(d) => d.version() == self.version() && d@ == open_order_report(self.version(), self@),
                Err(e) => open_order_report(self.version(), self@).failure == Some(e@),
            },
    {
        reveal(open_order_report);
        let d = self.read_delta_neutral()?;
        let d = d.read_algo_params()?;
        let d = d.read_solicited()?;
        let d = d.read_what_if_info_and_commission()?;
        let d = d.read_vol_randomize_flags()?;
        let d = d.read_peg_to_bench_params()?;
        let d = d.read_conditions()?;
        let d = d.read_adjusted_order_params()?;
        let d = d.read_soft_dollar_tier()?;
        let d = d.read_cash_qty()?;
        Ok(d)
    }

    /// Reads the single fields that versions 141 to 170 added.
    pub fn read_open_order_extensions(self) -> (r: Result<OrderDecoder, Error>)
        ensures
            match r {
                Ok(d) => d.version() == self.version() && d@ == open_order_extensions(self.version(), self@),
                Err(e) => open_order_extensions(self.version(), self@).failure == Some(e@),
            },
    {
        reveal(open_order_extensions);
        let d = self.read_dont_use_auto_price_for_hedge()?;
        let d = d.read_is_oms_container()?;
        let d = d.read_discretionary_up_to_limit_price()?;
        let d = d.read_use_price_mgmt_algo()?;
        let d = d.read_duration()?;
        let d = d.read_post_to_ats()?;
        let d = d.read_auto_cancel_parent()?;
        let d = d.read_peg_best_peg_mid_order_attributes()?;
        Ok(d)
    }

    /// Reads the fields that versions 183 to 199 added at the end.
    pub fn read_open_order_additions(self) -> (r: Result<OrderDecoder, Error>)
        ensures
            match r {
                Ok(d) => d.version() == self.version() && d@ == open_order_additions(self.version(), self@),
                Err(e) => open_order_additions(self.version(), self@).failure == Some(e@),
            },
    {
        reveal(open_order_additions);
        let d = self.read_customer_account()?;
        let d = d.read_professional_customer()?;
        let d = d.read_bond_accrued_interest()?;
        let d = d.read_include_overnight()?;
        let d = d.read_cme_tagging_fields()?;
        let d = d.read_submitter()?;
        let d = d.read_imbalance_only()?;
        Ok(d)
    }

    /// Reads what the order asked for: the contract, the side, the quantity, the
    /// type, the prices, the time in force, the group and the account.
    pub fn read_completed_order_header(self) -> (r: Result<OrderDecoder, Error>)
        ensures
            match r {
                Ok(d) => d.version() == self.version() && d@ == completed_order_header(self@),
                Err(e) => completed_order_header(self@).failure == Some(e@),
            },
    {
        reveal(completed_order_header);
        let d = self.read_contract_fields()?;
        let d = d.read_action()?;
        let d = d.read_total_quantity()?;
        let d = d.read_order_type()?;
        let d = d.read_limit_price()?;
        let d = d.read_aux_price()?;
        let d = d.read_tif()?;
        let d = d.read_oca_group()?;
        let d = d.read_account()?;
        Ok(d)
    }

    /// Reads how the order was handled: from whom it came, and when and where it
    /// might trade.
    pub fn read_completed_order_handling(self) -> (r: Result<OrderDecoder, Error>)
        ensures
            match r {
                Ok(d) => d.version() == self.version() && d@ == completed_order_handling(self@),
                Err(e) => completed_order_handling(self@).failure == Some(e@),
            },
    {
        reveal(completed_order_handling);
        let d = self.read_open_close()?;
        let d = d.read_origin()?;
        let d = d.read_order_ref()?;
        let d = d.read_perm_id()?;
        let d = d.read_outside_rth()?;
        let d = d.read_hidden()?;
        let d = d.read_discretionary_amt()?;
        let d = d.read_good_after_time()?;
        Ok(d)
    }

    /// Reads the advisor and model, the validity, the capacity and the short sale,
    /// then the reference prices.
    pub fn read_completed_order_routing(self) -> (r: Result<OrderDecoder, Error>)
        ensures
            match r {
                Ok(d) => d.version() == self.version() && d@ == completed_order_routing(self.version(), self@),
                Err(e) => completed_order_routing(self.version(), self@).failure == Some(e@),
            },
    {
        reveal(completed_order_routing);
        let d = self.read_fa_params()?;
        let d = d.read_model_code()?;
        let d = d.read_good_till_date()?;
        let d = d.read_rule_80_a()?;
        let d = d.read_percent_offset()?;
        let d = d.read_settling_firm()?;
        let d = d.read_short_sale_params()?;
        let d = d.read_box_order_params()?;
        let d = d.read_peg_to_stock_or_vol_order_params()?;
        Ok(d)
    }

    /// Reads how the order might fill, its group and its trigger.
    pub fn read_completed_order_filling(self) -> (r: Result<OrderDecoder, Error>)
        ensures
            match r {
                Ok(d) => d.version() == self.version() && d@ == completed_order_filling(self@),
                Err(e) => completed_order_filling(self@).failure == Some(e@),
            },
    {
        reveal(completed_order_filling);
        let d = self.read_display_size()?;
        let d = d.read_sweep_to_fill()?;
        let d = d.read_all_or_none()?;
        let d = d.read_min_qty()?;
        let d = d.read_oca_type()?;
        let d = d.read_trigger_method()?;
        Ok(d)
    }

    /// Reads volatility, trailing, combination, scale, hedge and clearing.
    pub fn read_completed_order_strategy(self) -> (r: Result<OrderDecoder, Error>)
        ensures
            match r {
                Ok(d) => d.version() == self.version() && d@ == completed_order_strategy(self@),
                Err(e) => completed_order_strategy(self@).failure == Some(e@),
            },
    {
        reveal(completed_order_strategy);
        let d = self.read_volatility_order_params(false)?;
        let d = d.read_trail_params()?;
        let d = d.read_combo_legs()?;
        let d = d.read_smart_combo_routing_params()?;
        let d = d.read_scale_order_params()?;
        let d = d.read_hedge_params()?;
        let d = d.read_clearing_params()?;
        let d = d.read_not_held()?;
        Ok(d)
    }

    /// Reads the delta-neutral underlying, the algorithm, the status, the benchmark,
    /// the conditions, the stop price and the cash quantity.
    pub fn read_completed_order_report(self) -> (r: Result<OrderDecoder, Error>)
        ensures
            match r {
                Ok(d) => d.version() == self.version() && d@ == completed_order_report(self.version(), self@),
                Err(e) => completed_order_report(self.version(), self@).failure == Some(e@),
            },
    {
        reveal(completed_order_report);
        let d = self.read_delta_neutral()?;
        let d = d.read_algo_params()?;
        let d = d.read_solicited()?;
        let d = d.read_order_status()?;
        let d = d.read_vol_randomize_flags()?;
        let d = d.read_peg_to_bench_params()?;
        let d = d.read_conditions()?;
        let d = d.read_stop_price_and_limit_price_offset()?;
        let d = d.read_cash_qty()?;
        Ok(d)
    }

    /// Reads what was filled, and the flags that go with it.
    pub fn read_completed_order_fill(self) -> (r: Result<OrderDecoder, Error>)
        ensures
            match r {
                Ok(d) => d.version() == self.version() && d@ == completed_order_fill(self.version(), self@),
                Err(e) => completed_order_fill(self.version(), self@).failure == Some(e@),
            },
    {
        reveal(completed_order_fill);
        let d = self.read_dont_use_auto_price_for_hedge()?;
        let d = d.read_is_oms_container()?;
        let d = d.read_auto_cancel_date()?;
        let d = d.read_filled_quantity()?;
        let d = d.read_ref_futures_contract_id()?;
        let d = d.read_auto_cancel_parent()?;
        Ok(d)
    }

    /// Reads who held the order, its parent, and when and how it was completed.
    pub fn read_completed_order_completion(self) -> (r: Result<OrderDecoder, Error>)
        ensures
            match r {
                Ok(d) => d.version() == self.version() && d@ == completed_order_completion(self.version(), self@),
                Err(e) => completed_order_completion(self.version(), self@).failure == Some(e@),
            },
    {
        reveal(completed_order_completion);
        let d = self.read_shareholder()?;
        let d = d.read_imbalance_only_always()?;
        let d = d.read_route_marketable_to_bbo()?;
        let d = d.read_parent_perm_id()?;
        let d = d.read_completed_time()?;
        let d = d.read_completed_status()?;
        let d = d.read_peg_best_peg_mid_order_attributes()?;
        Ok(d)
    }

    /// Reads the fields that versions 183 to 198 added at the end.
    pub fn read_completed_order_additions(self) -> (r: Result<OrderDecoder, Error>)
        ensures
            match r {
                Ok(d) => d.version() == self.version() && d@ == completed_order_additions(self.version(), self@),
                Err(e) => completed_order_additions(self.version(), self@).failure == Some(e@),
            },
    {
        reveal(completed_order_additions);
        let d = self.read_customer_account()?;
        let d = d.read_professional_customer()?;
        let d = d.read_submitter()?;
        Ok(d)
    }

    /// The record that the decoder has filled.
    pub fn into_order_data(self) -> (r: OrderData)
        ensures
            r@ == self@.value,
    {
        reveal(OrderDecoder::record);
        OrderData {
            order_id: self.order_id,
            contract: self.contract,
            order: self.order,
            order_state: self.order_state,
        }
    }
}

/// Decodes an open order.
pub fn decode_open_order(server_version: i32, message: ResponseMessage) -> (r: Result<OrderData, Error>)
    ensures
        open_order(server_version as int, message@).gives(viewed(r)),
{
    let decoder = OrderDecoder::new(server_version, message);
    let decoder = decoder.read_open_order_header()?;
    let decoder = decoder.read_open_order_handling()?;
    let decoder = decoder.read_open_order_routing()?;
    let decoder = decoder.read_open_order_filling()?;
    let decoder = decoder.read_open_order_strategy()?;
    let decoder = decoder.read_open_order_report()?;
    let decoder = decoder.read_open_order_extensions()?;
    let decoder = decoder.read_open_order_additions()?;
    Ok(decoder.into_order_data())
}

/// Decodes a completed order.
pub fn decode_completed_order(server_version: i32, message: ResponseMessage) -> (r: Result<OrderData, Error>)
    ensures
        completed_order(server_version as int, message@).gives(viewed(r)),
{
    let decoder = OrderDecoder::new(server_version, message);
    let decoder = decoder.read_completed_order_header()?;
    let decoder = decoder.read_completed_order_handling()?;
    let decoder = decoder.read_completed_order_routing()?;
    let decoder = decoder.read_completed_order_filling()?;
    let decoder = decoder.read_completed_order_strategy()?;
    let decoder = decoder.read_completed_order_report()?;
    let decoder = decoder.read_completed_order_fill()?;
    let decoder = decoder.read_completed_order_completion()?;
    let decoder = decoder.read_completed_order_additions()?;
    Ok(decoder.into_order_data())
}

/// The layout of an order status: the message kind; the message version,
/// until the server stopped sending it; ten fields; and the capped price
/// since the server sends it.
pub open spec fn order_status_message(v: int, m: MessageView) -> Reading<OrderStatusView> {
    Reading::start(m, OrderStatusView::initial()).skip()
        .and(
            |s: Reading<OrderStatusView>|
                if v < MARKET_CAP_PRICE {
                    s.skip()
                } else {
                    s
                },
        )
        .and(
            |s: Reading<OrderStatusView>|
                s.put_int(|d: OrderStatusView, v: int| OrderStatusView { order_id: v, ..d }),
        )
        .and(
            |s: Reading<OrderStatusView>|
                s.put_string(|d: OrderStatusView, v: Seq<char>| OrderStatusView { status: v, ..d }),
        )
        .and(
            |s: Reading<OrderStatusView>|
                s.put_double(|d: OrderStatusView, v: Seq<char>| OrderStatusView { filled: v, ..d }),
        )
        .and(
            |s: Reading<OrderStatusView>|
                s.put_double(
                    |d: OrderStatusView, v: Seq<char>|
                        OrderStatusView { remaining: v, ..d },
                ),
        )
        .and(
            |s: Reading<OrderStatusView>|
                s.put_double(
                    |d: OrderStatusView, v: Seq<char>|
                        OrderStatusView { average_fill_price: v, ..d },
                ),
        )
        .and(
            |s: Reading<OrderStatusView>|
                s.put_int(|d: OrderStatusView, v: int| OrderStatusView { perm_id: v, ..d }),
        )
        .and(
            |s: Reading<OrderStatusView>|
                s.put_int(|d: OrderStatusView, v: int| OrderStatusView { parent_id: v, ..d }),
        )
        .and(
            |s: Reading<OrderStatusView>|
                s.put_double(
                    |d: OrderStatusView, v: Seq<char>|
                        OrderStatusView { last_fill_price: v, ..d },
                ),
        )
        .and(
            |s: Reading<OrderStatusView>|
                s.put_int(|d: OrderStatusView, v: int| OrderStatusView { client_id: v, ..d }),
        )
        .and(
            |s: Reading<OrderStatusView>|
                s.put_string(
                    |d: OrderStatusView, v: Seq<char>|
                        OrderStatusView { why_held: v, ..d },
                ),
        )
        .and(
            |s: Reading<OrderStatusView>|
                if v >= MARKET_CAP_PRICE {
                    s.put_double(
                        |d: OrderStatusView, v: Seq<char>|
                            OrderStatusView { market_cap_price: v, ..d },
                    )
                } else {
                    s
                },
        )
}

/// Decodes an order status.
pub fn decode_order_status(server_version: i32, message: &mut ResponseMessage) -> (r: Result<OrderStatus, Error>)
    ensures
        order_status_message(server_version as int, old(message)@).yields(final(message)@, viewed(r)),
{
    let mut status = OrderStatus::default();
    message.skip();
    if server_version < MARKET_CAP_PRICE {
        message.skip();
    }
    status.order_id = message.next_int()?;
    status.status = message.next_string()?;
    status.filled = message.next_double()?;
    status.remaining = message.next_double()?;
    status.average_fill_price = message.next_double()?;
    status.perm_id = message.next_int()?;
    status.parent_id = message.next_int()?;
    status.last_fill_price = message.next_double()?;
    status.client_id = message.next_int()?;
    status.why_held = message.next_string()?;
    if server_version >= MARKET_CAP_PRICE {
        status.market_cap_price = message.next_double()?;
    }
    Ok(status)
}

/// The request that asked for the execution, and the order that was
/// executed.
#[verifier::opaque]
pub open spec fn execution_ids(s: Reading<ExecutionDataView>) -> Reading<ExecutionDataView> {
    s.put_int(|d: ExecutionDataView, v: int| ExecutionDataView { request_id: v, ..d })
        .and(
            |s: Reading<ExecutionDataView>|
                s.put_int(
                    |d: ExecutionDataView, v: int|
                        ExecutionDataView { execution: d.execution.with_order_id(v), ..d },
                ),
        )
}

/// Reads the request that asked for the execution, and the order that was
/// executed.
fn read_execution_ids(message: &mut ResponseMessage, data: ExecutionData) -> (r: Result<
    ExecutionData,
    Error,
>)
    ensures
        execution_ids(Reading::start(old(message)@, data@)).yields(final(message)@, viewed(r)),
{
    reveal(execution_ids);
    let ExecutionData { request_id, contract, execution } = data;
    let request_id = message.next_int()?;
    let order_id = message.next_int()?;
    let execution = execution
        .set_order_id(order_id);
    Ok(ExecutionData { request_id, contract, execution })
}

/// The eleven fields that describe the contract.
#[verifier::opaque]
pub open spec fn execution_contract(s: Reading<ExecutionDataView>) -> Reading<ExecutionDataView> {
    s.put_int(
        |d: ExecutionDataView, v: int|
            ExecutionDataView { contract: d.contract.with_contract_id(v), ..d },
    )
        .and(
            |s: Reading<ExecutionDataView>|
                s.put_string(
                    |d: ExecutionDataView, v: Seq<char>|
                        ExecutionDataView { contract: d.contract.with_symbol(v), ..d },
                ),
        )
        .and(
            |s: Reading<ExecutionDataView>|
                s.put_string(
                    |d: ExecutionDataView, v: Seq<char>|
                        ExecutionDataView { contract: d.contract.with_security_type(SecurityTypeView::of_text(v)), ..d },
                ),
        )
        .and(
            |s: Reading<ExecutionDataView>|
                s.put_string(
                    |d: ExecutionDataView, v: Seq<char>|
                        ExecutionDataView { contract: d.contract.with_last_trade_date_or_contract_month(v), ..d },
                ),
        )
        .and(
            |s: Reading<ExecutionDataView>|
                s.put_double(
                    |d: ExecutionDataView, v: Seq<char>|
                        ExecutionDataView { contract: d.contract.with_strike(v), ..d },
                ),
        )
        .and(
            |s: Reading<ExecutionDataView>|
                s.put_string(
                    |d: ExecutionDataView, v: Seq<char>|
                        ExecutionDataView { contract: d.contract.with_right(v), ..d },
                ),
        )
        .and(
            |s: Reading<ExecutionDataView>|
                s.put_string(
                    |d: ExecutionDataView, v: Seq<char>|
                        ExecutionDataView { contract: d.contract.with_multiplier(v), ..d },
                ),
        )
        .and(
            |s: Reading<ExecutionDataView>|
                s.put_string(
                    |d: ExecutionDataView, v: Seq<char>|
                        ExecutionDataView { contract: d.contract.with_exchange(v), ..d },
                ),
        )
        .and(
            |s: Reading<ExecutionDataView>|
                s.put_string(
                    |d: ExecutionDataView, v: Seq<char>|
                        ExecutionDataView { contract: d.contract.with_currency(v), ..d },
                ),
        )
        .and(
            |s: Reading<ExecutionDataView>|
                s.put_string(
                    |d: ExecutionDataView, v: Seq<char>|
                        ExecutionDataView { contract: d.contract.with_local_symbol(v), ..d },
                ),
        )
        .and(
            |s: Reading<ExecutionDataView>|
                s.put_string(
                    |d: ExecutionDataView, v: Seq<char>|
                        ExecutionDataView { contract: d.contract.with_trading_class(v), ..d },
                ),
        )
}

/// Reads the eleven fields that describe the contract.
fn read_execution_contract(message: &mut ResponseMessage, data: ExecutionData) -> (r: Result<
    ExecutionData,
    Error,
>)
    ensures
        execution_contract(Reading::start(old(message)@, data@)).yields(final(message)@, viewed(r)),
{
    reveal(execution_contract);
    let ExecutionData { request_id, contract, execution } = data;
    let contract_id = message.next_int()?;
    let symbol = Symbol::from(message.next_string()?);
    let security_type = SecurityType::from(message.next_string()?.as_str());
    let last_trade_date_or_contract_month = message.next_string()?;
    let strike = message.next_double()?;
    let right = message.next_string()?;
    let multiplier = message.next_string()?;
    let exchange = Exchange::from(message.next_string()?);
    let currency = Currency::from(message.next_string()?);
    let local_symbol = message.next_string()?;
    let trading_class = message.next_string()?;
    let contract = contract
        .set_contract_id(contract_id)
        .set_symbol(symbol)
        .set_security_type(security_type)
        .set_last_trade_date_or_contract_month(last_trade_date_or_contract_month)
        .set_strike(strike)
        .set_right(right)
        .set_multiplier(multiplier)
        .set_exchange(exchange)
        .set_currency(currency)
        .set_local_symbol(local_symbol)
        .set_trading_class(trading_class);
    Ok(ExecutionData { request_id, contract, execution })
}

/// The fifteen fields of the execution itself.
#[verifier::opaque]
pub open spec fn execution_details(s: Reading<ExecutionDataView>) -> Reading<ExecutionDataView> {
    s.put_string(
        |d: ExecutionDataView, v: Seq<char>|
            ExecutionDataView { execution: d.execution.with_execution_id(v), ..d },
    )
        .and(
            |s: Reading<ExecutionDataView>|
                s.put_string(
                    |d: ExecutionDataView, v: Seq<char>|
                        ExecutionDataView { execution: d.execution.with_time(v), ..d },
                ),
        )
        .and(
            |s: Reading<ExecutionDataView>|
                s.put_string(
                    |d: ExecutionDataView, v: Seq<char>|
                        ExecutionDataView { execution: d.execution.with_account_number(v), ..d },
                ),
        )
        .and(
            |s: Reading<ExecutionDataView>|
                s.put_string(
                    |d: ExecutionDataView, v: Seq<char>|
                        ExecutionDataView { execution: d.execution.with_exchange(v), ..d },
                ),
        )
        .and(
            |s: Reading<ExecutionDataView>|
                s.put_string(
                    |d: ExecutionDataView, v: Seq<char>|
                        ExecutionDataView { execution: d.execution.with_side(v), ..d },
                ),
        )
        .and(
            |s: Reading<ExecutionDataView>|
                s.put_double(
                    |d: ExecutionDataView, v: Seq<char>|
                        ExecutionDataView { execution: d.execution.with_shares(v), ..d },
                ),
        )
        .and(
            |s: Reading<ExecutionDataView>|
                s.put_double(
                    |d: ExecutionDataView, v: Seq<char>|
                        ExecutionDataView { execution: d.execution.with_price(v), ..d },
                ),
        )
        .and(
            |s: Reading<ExecutionDataView>|
                s.put_int(
                    |d: ExecutionDataView, v: int|
                        ExecutionDataView { execution: d.execution.with_perm_id(v), ..d },
                ),
        )
        .and(
            |s: Reading<ExecutionDataView>|
                s.put_int(
                    |d: ExecutionDataView, v: int|
                        ExecutionDataView { execution: d.execution.with_client_id(v), ..d },
                ),
        )
        .and(
            |s: Reading<ExecutionDataView>|
                s.put_int(
                    |d: ExecutionDataView, v: int|
                        ExecutionDataView { execution: d.execution.with_liquidation(v), ..d },
                ),
        )
        .and(
            |s: Reading<ExecutionDataView>|
                s.put_double(
                    |d: ExecutionDataView, v: Seq<char>|
                        ExecutionDataView { execution: d.execution.with_cumulative_quantity(v), ..d },
                ),
        )
        .and(
            |s: Reading<ExecutionDataView>|
                s.put_double(
                    |d: ExecutionDataView, v: Seq<char>|
                        ExecutionDataView { execution: d.execution.with_average_price(v), ..d },
                ),
        )
        .and(
            |s: Reading<ExecutionDataView>|
                s.put_string(
                    |d: ExecutionDataView, v: Seq<char>|
                        ExecutionDataView { execution: d.execution.with_order_reference(v), ..d },
                ),
        )
        .and(
            |s: Reading<ExecutionDataView>|
                s.put_string(
                    |d: ExecutionDataView, v: Seq<char>|
                        ExecutionDataView { execution: d.execution.with_ev_rule(v), ..d },
                ),
        )
        .and(
            |s: Reading<ExecutionDataView>|
                s.put_optional_double(
                    |d: ExecutionDataView, v: Option<Seq<char>>|
                        ExecutionDataView { execution: d.execution.with_ev_multiplier(v), ..d },
                ),
        )
}

/// Reads the fifteen fields of the execution itself.
fn read_execution_details(message: &mut ResponseMessage, data: ExecutionData) -> (r: Result<
    ExecutionData,
    Error,
>)
    ensures
        execution_details(Reading::start(old(message)@, data@)).yields(final(message)@, viewed(r)),
{
    reveal(execution_details);
    let ExecutionData { request_id, contract, execution } = data;
    let execution_id = message.next_string()?;
    let time = message.next_string()?;
    let account_number = message.next_string()?;
    let exchange = message.next_string()?;
    let side = message.next_string()?;
    let shares = message.next_double()?;
    let price = message.next_double()?;
    let perm_id = message.next_int()?;
    let client_id = message.next_int()?;
    let liquidation = message.next_int()?;
    let cumulative_quantity = message.next_double()?;
    let average_price = message.next_double()?;
    let order_reference = message.next_string()?;
    let ev_rule = message.next_string()?;
    let ev_multiplier = message.next_optional_double()?;
    let execution = execution
        .set_execution_id(execution_id)
        .set_time(time)
        .set_account_number(account_number)
        .set_exchange(exchange)
        .set_side(side)
        .set_shares(shares)
        .set_price(price)
        .set_perm_id(perm_id)
        .set_client_id(client_id)
        .set_liquidation(liquidation)
        .set_cumulative_quantity(cumulative_quantity)
        .set_average_price(average_price)
        .set_order_reference(order_reference)
        .set_ev_rule(ev_rule)
        .set_ev_multiplier(ev_multiplier);
    Ok(ExecutionData { request_id, contract, execution })
}

/// The model code.
#[verifier::opaque]
pub open spec fn execution_model_code(v: int, s: Reading<ExecutionDataView>) -> Reading<ExecutionDataView> {
    if v < MODELS_SUPPORT {
        s
    } else {
        s.put_string(
            |d: ExecutionDataView, v: Seq<char>|
                ExecutionDataView { execution: d.execution.with_model_code(v), ..d },
        )
    }
}

/// Reads the model code.
fn read_execution_model_code(server_version: i32, message: &mut ResponseMessage, data: ExecutionData) -> (r: Result<
    ExecutionData,
    Error,
>)
    ensures
        execution_model_code(server_version as int, Reading::start(old(message)@, data@)).yields(final(message)@, viewed(r)),
{
    reveal(execution_model_code);
    if server_version < MODELS_SUPPORT {
        return Ok(data);
    }
    let ExecutionData { request_id, contract, execution } = data;
    let model_code = message.next_string()?;
    let execution = execution
        .set_model_code(model_code);
    Ok(ExecutionData { request_id, contract, execution })
}

/// The liquidity of the last fill.
#[verifier::opaque]
pub open spec fn execution_last_liquidity(v: int, s: Reading<ExecutionDataView>) -> Reading<ExecutionDataView> {
    if v < LAST_LIQUIDITY {
        s
    } else {
        s.put_int(
            |d: ExecutionDataView, v: int|
                ExecutionDataView { execution: d.execution.with_last_liquidity(Liquidity::of_code(v)), ..d },
        )
    }
}

/// Reads the liquidity of the last fill.
fn read_execution_last_liquidity(server_version: i32, message: &mut ResponseMessage, data: ExecutionData) -> (r: Result<
    ExecutionData,
    Error,
>)
    ensures
        execution_last_liquidity(server_version as int, Reading::start(old(message)@, data@)).yields(final(message)@, viewed(r)),
{
    reveal(execution_last_liquidity);
    if server_version < LAST_LIQUIDITY {
        return Ok(data);
    }
    let ExecutionData { request_id, contract, execution } = data;
    let last_liquidity = Liquidity::from(message.next_int()?);
    let execution = execution
        .set_last_liquidity(last_liquidity);
    Ok(ExecutionData { request_id, contract, execution })
}

/// Whether the price may still be revised.
#[verifier::opaque]
pub open spec fn execution_pending_price_revision(v: int, s: Reading<ExecutionDataView>) -> Reading<ExecutionDataView> {
    if v < PENDING_PRICE_REVISION {
        s
    } else {
        s.put_bool(
            |d: ExecutionDataView, v: bool|
                ExecutionDataView { execution: d.execution.with_pending_price_revision(v), ..d },
        )
    }
}

/// Reads whether the price may still be revised.
fn read_execution_pending_price_revision(server_version: i32, message: &mut ResponseMessage, data: ExecutionData) -> (r: Result<
    ExecutionData,
    Error,
>)
    ensures
        execution_pending_price_revision(server_version as int, Reading::start(old(message)@, data@)).yields(final(message)@, viewed(r)),
{
    reveal(execution_pending_price_revision);
    if server_version < PENDING_PRICE_REVISION {
        return Ok(data);
    }
    let ExecutionData { request_id, contract, execution } = data;
    let pending_price_revision = message.next_bool()?;
    let execution = execution
        .set_pending_price_revision(pending_price_revision);
    Ok(ExecutionData { request_id, contract, execution })
}

/// Who submitted the order.
#[verifier::opaque]
pub open spec fn execution_submitter(v: int, s: Reading<ExecutionDataView>) -> Reading<ExecutionDataView> {
    if v < SUBMITTER {
        s
    } else {
        s.put_string(
            |d: ExecutionDataView, v: Seq<char>|
                ExecutionDataView { execution: d.execution.with_submitter(v), ..d },
        )
    }
}

/// Reads who submitted the order.
fn read_execution_submitter(server_version: i32, message: &mut ResponseMessage, data: ExecutionData) -> (r: Result<
    ExecutionData,
    Error,
>)
    ensures
        execution_submitter(server_version as int, Reading::start(old(message)@, data@)).yields(final(message)@, viewed(r)),
{
    reveal(execution_submitter);
    if server_version < SUBMITTER {
        return Ok(data);
    }
    let ExecutionData { request_id, contract, execution } = data;
    let submitter = message.next_string()?;
    let execution = execution
        .set_submitter(submitter);
    Ok(ExecutionData { request_id, contract, execution })
}

/// The layout of an execution: the message kind; the message version,
/// until the server stopped sending it; the request, the order, the contract
/// and the execution; then the fields that later versions added.
pub open spec fn execution_data_message(v: int, m: MessageView) -> Reading<ExecutionDataView> {
    Reading::start(
        if v < LAST_LIQUIDITY {
            m.skip().skip()
        } else {
            m.skip()
        },
        ExecutionDataView::initial(),
    )
        .and(|s: Reading<ExecutionDataView>| execution_ids(s))
        .and(|s: Reading<ExecutionDataView>| execution_contract(s))
        .and(|s: Reading<ExecutionDataView>| execution_details(s))
        .and(|s: Reading<ExecutionDataView>| execution_model_code(v, s))
        .and(|s: Reading<ExecutionDataView>| execution_last_liquidity(v, s))
        .and(|s: Reading<ExecutionDataView>| execution_pending_price_revision(v, s))
        .and(|s: Reading<ExecutionDataView>| execution_submitter(v, s))
}

/// Decodes an execution.
pub fn decode_execution_data(server_version: i32, message: &mut ResponseMessage) -> (r: Result<
    ExecutionData,
    Error,
>)
    ensures
        execution_data_message(server_version as int, old(message)@).yields(
            final(message)@,
            viewed(r),
        ),
{
    message.skip();  // message type
    if server_version < LAST_LIQUIDITY {
        message.skip();  // message version
    }
    let data = ExecutionData::default();
    let data = read_execution_ids(message, data)?;
    let data = read_execution_contract(message, data)?;
    let data = read_execution_details(message, data)?;
    let data = read_execution_model_code(server_version, message, data)?;
    let data = read_execution_last_liquidity(server_version, message, data)?;
    let data = read_execution_pending_price_revision(server_version, message, data)?;
    let data = read_execution_submitter(server_version, message, data)?;
    Ok(data)
}

/// The layout of a commission report, which is the same at every version:
/// the message kind, the message version and six fields.
pub open spec fn commission_report_message(v: int, m: MessageView) -> Reading<CommissionReportView> {
    Reading::start(m, CommissionReportView::initial()).skip()
        .and(|s: Reading<CommissionReportView>| s.skip())
        .and(
            |s: Reading<CommissionReportView>|
                s.put_string(
                    |d: CommissionReportView, v: Seq<char>|
                        CommissionReportView { execution_id: v, ..d },
                ),
        )
        .and(
            |s: Reading<CommissionReportView>|
                s.put_double(
                    |d: CommissionReportView, v: Seq<char>|
                        CommissionReportView { commission: v, ..d },
                ),
        )
        .and(
            |s: Reading<CommissionReportView>|
                s.put_string(
                    |d: CommissionReportView, v: Seq<char>|
                        CommissionReportView { currency: v, ..d },
                ),
        )
        .and(
            |s: Reading<CommissionReportView>|
                s.put_optional_double(
                    |d: CommissionReportView, v: Option<Seq<char>>|
                        CommissionReportView { realized_pnl: v, ..d },
                ),
        )
        .and(
            |s: Reading<CommissionReportView>|
                s.put_optional_double(
                    |d: CommissionReportView, v: Option<Seq<char>>|
                        CommissionReportView { yields: v, ..d },
                ),
        )
        .and(
            |s: Reading<CommissionReportView>|
                s.put_string(
                    |d: CommissionReportView, v: Seq<char>|
                        CommissionReportView { yield_redemption_date: v, ..d },
                ),
        )
}

/// Decodes a commission report.
pub fn decode_commission_report(_server_version: i32, message: &mut ResponseMessage) -> (r: Result<CommissionReport, Error>)
    ensures
        commission_report_message(_server_version as int, old(message)@).yields(final(message)@, viewed(r)),
{
    let mut report = CommissionReport::default();
    message.skip();
    message.skip();
    report.execution_id = message.next_string()?;
    report.commission = message.next_double()?;
    report.currency = message.next_string()?;
    report.realized_pnl = message.next_optional_double()?;
    report.yields = message.next_optional_double()?;
    report.yield_redemption_date = message.next_string()?;
    Ok(report)
}

} // verus!

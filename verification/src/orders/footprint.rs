//! Which fields a block of an order message changes: of the identifier
//! of the order and of the fields that later versions added, every block
//! leaves alone what it does not read.

use vstd::prelude::*;
use crate::contracts::ContractView;
use crate::contracts::TagValueView;
use crate::orders::decoders::account;
use crate::orders::decoders::action;
use crate::orders::decoders::adjusted_order;
use crate::orders::decoders::adjusted_order_params;
use crate::orders::decoders::adjusted_stops;
use crate::orders::decoders::algo_param_entry;
use crate::orders::decoders::algo_param_list;
use crate::orders::decoders::algo_param_run;
use crate::orders::decoders::algo_params;
use crate::orders::decoders::algo_strategy;
use crate::orders::decoders::all_or_none;
use crate::orders::decoders::auction_strategy;
use crate::orders::decoders::auto_cancel_date;
use crate::orders::decoders::auto_cancel_parent;
use crate::orders::decoders::aux_price;
use crate::orders::decoders::basis_points;
use crate::orders::decoders::benchmark_amounts;
use crate::orders::decoders::benchmark_reference;
use crate::orders::decoders::block_order;
use crate::orders::decoders::bond_accrued_interest;
use crate::orders::decoders::box_order_params;
use crate::orders::decoders::cash_qty;
use crate::orders::decoders::clearing_params;
use crate::orders::decoders::client_id;
use crate::orders::decoders::cme_tagging_fields;
use crate::orders::decoders::combo_leg_entry;
use crate::orders::decoders::combo_leg_run;
use crate::orders::decoders::combo_legs;
use crate::orders::decoders::combo_legs_description;
use crate::orders::decoders::commission;
use crate::orders::decoders::completed_status;
use crate::orders::decoders::completed_time;
use crate::orders::decoders::condition_entry;
use crate::orders::decoders::condition_flags;
use crate::orders::decoders::condition_run;
use crate::orders::decoders::conditions;
use crate::orders::decoders::contract_combo_legs;
use crate::orders::decoders::contract_fields;
use crate::orders::decoders::contract_identity;
use crate::orders::decoders::contract_listing;
use crate::orders::decoders::contract_terms;
use crate::orders::decoders::customer_account;
use crate::orders::decoders::delta_neutral;
use crate::orders::decoders::delta_neutral_attributes;
use crate::orders::decoders::delta_neutral_con_id;
use crate::orders::decoders::delta_neutral_contract;
use crate::orders::decoders::delta_neutral_hedge;
use crate::orders::decoders::delta_neutral_short_sale;
use crate::orders::decoders::discretionary_amt;
use crate::orders::decoders::discretionary_up_to_limit_price;
use crate::orders::decoders::display_size;
use crate::orders::decoders::dont_use_auto_price_for_hedge;
use crate::orders::decoders::duration;
use crate::orders::decoders::fa_allocation;
use crate::orders::decoders::fa_params;
use crate::orders::decoders::fa_profile;
use crate::orders::decoders::filled_quantity;
use crate::orders::decoders::full_order_preview;
use crate::orders::decoders::good_after_time;
use crate::orders::decoders::good_till_date;
use crate::orders::decoders::hedge_param;
use crate::orders::decoders::hedge_params;
use crate::orders::decoders::hedge_type;
use crate::orders::decoders::hidden;
use crate::orders::decoders::imbalance_only;
use crate::orders::decoders::imbalance_only_always;
use crate::orders::decoders::include_overnight;
use crate::orders::decoders::is_oms_container;
use crate::orders::decoders::limit_price;
use crate::orders::decoders::margin_after;
use crate::orders::decoders::margin_after_and_commission;
use crate::orders::decoders::margin_before;
use crate::orders::decoders::margin_before_and_change;
use crate::orders::decoders::margin_change;
use crate::orders::decoders::min_qty;
use crate::orders::decoders::model_code;
use crate::orders::decoders::not_held;
use crate::orders::decoders::oca_group;
use crate::orders::decoders::oca_type;
use crate::orders::decoders::open_close;
use crate::orders::decoders::opt_out_smart_routing;
use crate::orders::decoders::order_allocation_entry;
use crate::orders::decoders::order_allocation_run;
use crate::orders::decoders::order_allocations;
use crate::orders::decoders::order_combo_leg_entry;
use crate::orders::decoders::order_combo_leg_run;
use crate::orders::decoders::order_combo_legs;
use crate::orders::decoders::order_id;
use crate::orders::decoders::order_ref;
use crate::orders::decoders::order_status;
use crate::orders::decoders::order_type;
use crate::orders::decoders::origin;
use crate::orders::decoders::outside_rth;
use crate::orders::decoders::parent_id;
use crate::orders::decoders::parent_perm_id;
use crate::orders::decoders::peg_best_offsets;
use crate::orders::decoders::peg_best_peg_mid_order_attributes;
use crate::orders::decoders::peg_best_sizes;
use crate::orders::decoders::peg_to_bench_params;
use crate::orders::decoders::peg_to_stock_or_vol_order_params;
use crate::orders::decoders::percent_offset;
use crate::orders::decoders::perm_id;
use crate::orders::decoders::post_to_ats;
use crate::orders::decoders::preview_advice;
use crate::orders::decoders::preview_margin_after;
use crate::orders::decoders::preview_margin_before;
use crate::orders::decoders::preview_margin_change;
use crate::orders::decoders::professional_customer;
use crate::orders::decoders::ref_futures_contract_id;
use crate::orders::decoders::route_marketable_to_bbo;
use crate::orders::decoders::rule_80_a;
use crate::orders::decoders::scale_levels;
use crate::orders::decoders::scale_order_params;
use crate::orders::decoders::scale_position;
use crate::orders::decoders::scale_price_adjustment;
use crate::orders::decoders::scale_table;
use crate::orders::decoders::settling_firm;
use crate::orders::decoders::shareholder;
use crate::orders::decoders::short_sale_params;
use crate::orders::decoders::smart_combo_routing_entry;
use crate::orders::decoders::smart_combo_routing_params;
use crate::orders::decoders::smart_combo_routing_run;
use crate::orders::decoders::soft_dollar_tier;
use crate::orders::decoders::solicited;
use crate::orders::decoders::stop_price_and_limit_price_offset;
use crate::orders::decoders::submitter;
use crate::orders::decoders::sweep_to_fill;
use crate::orders::decoders::tif;
use crate::orders::decoders::total_quantity;
use crate::orders::decoders::trail_params;
use crate::orders::decoders::trigger_method;
use crate::orders::decoders::use_price_mgmt_algo;
use crate::orders::decoders::vol_randomize_flags;
use crate::orders::decoders::volatility;
use crate::orders::decoders::volatility_order_params;
use crate::orders::decoders::volatility_reference;
use crate::orders::decoders::warning_text;
use crate::orders::decoders::what_if;
use crate::orders::decoders::what_if_info_and_commission;
use crate::orders::OrderAllocationView;
use crate::orders::OrderDataView;
use crate::orders::OrderStateView;
use crate::orders::OrderView;
use crate::orders::SoftDollarTierView;
use crate::reading::Reading;
use crate::server_versions::AUTO_CANCEL_PARENT;
use crate::server_versions::BOND_ACCRUED_INTEREST;
use crate::server_versions::CASH_QTY;
use crate::server_versions::CME_TAGGING_FIELDS_IN_OPEN_ORDER;
use crate::server_versions::CUSTOMER_ACCOUNT;
use crate::server_versions::DURATION;
use crate::server_versions::FULL_ORDER_PREVIEW_FIELDS;
use crate::server_versions::IMBALANCE_ONLY;
use crate::server_versions::INCLUDE_OVERNIGHT;
use crate::server_versions::PEGBEST_PEGMID_OFFSETS;
use crate::server_versions::POST_TO_ATS;
use crate::server_versions::PROFESSIONAL_CUSTOMER;
use crate::server_versions::SOFT_DOLLAR_TIER;
use crate::server_versions::SUBMITTER;

verus! {

/// The identifier of an order, and the fields that later versions added to
/// an order and to its state.
pub struct LateFieldsView {
    pub order_id: int,
    pub customer_account: Seq<char>,
    pub professional_customer: bool,
    pub bond_accrued_interest: Seq<char>,
    pub include_overnight: bool,
    pub ext_operator: Seq<char>,
    pub manual_order_indicator: Option<int>,
    pub submitter: Seq<char>,
    pub imbalance_only: bool,
    pub cash_qty: Option<Seq<char>>,
    pub soft_dollar_tier: SoftDollarTierView,
    pub duration: Option<int>,
    pub post_to_ats: Option<int>,
    pub auto_cancel_parent: bool,
    pub min_trade_qty: Option<int>,
    pub min_compete_size: Option<int>,
    pub compete_against_best_offset: Option<Seq<char>>,
    pub mid_offset_at_whole: Option<Seq<char>>,
    pub mid_offset_at_half: Option<Seq<char>>,
    pub margin_currency: Seq<char>,
    pub initial_margin_before_outside_rth: Option<Seq<char>>,
    pub maintenance_margin_before_outside_rth: Option<Seq<char>>,
    pub equity_with_loan_before_outside_rth: Option<Seq<char>>,
    pub initial_margin_change_outside_rth: Option<Seq<char>>,
    pub maintenance_margin_change_outside_rth: Option<Seq<char>>,
    pub equity_with_loan_change_outside_rth: Option<Seq<char>>,
    pub initial_margin_after_outside_rth: Option<Seq<char>>,
    pub maintenance_margin_after_outside_rth: Option<Seq<char>>,
    pub equity_with_loan_after_outside_rth: Option<Seq<char>>,
    pub suggested_size: Option<Seq<char>>,
    pub reject_reason: Seq<char>,
    pub order_allocations: Seq<OrderAllocationView>,
}

/// The identifier and the fields that later versions added, as a record
/// holds them.
pub open spec fn late(d: OrderDataView) -> LateFieldsView {
    LateFieldsView {
        order_id: d.order_id,
        customer_account: d.order.customer_account,
        professional_customer: d.order.professional_customer,
        bond_accrued_interest: d.order.bond_accrued_interest,
        include_overnight: d.order.include_overnight,
        ext_operator: d.order.ext_operator,
        manual_order_indicator: d.order.manual_order_indicator,
        submitter: d.order.submitter,
        imbalance_only: d.order.imbalance_only,
        cash_qty: d.order.cash_qty,
        soft_dollar_tier: d.order.soft_dollar_tier,
        duration: d.order.duration,
        post_to_ats: d.order.post_to_ats,
        auto_cancel_parent: d.order.auto_cancel_parent,
        min_trade_qty: d.order.min_trade_qty,
        min_compete_size: d.order.min_compete_size,
        compete_against_best_offset: d.order.compete_against_best_offset,
        mid_offset_at_whole: d.order.mid_offset_at_whole,
        mid_offset_at_half: d.order.mid_offset_at_half,
        margin_currency: d.order_state.margin_currency,
        initial_margin_before_outside_rth: d.order_state.initial_margin_before_outside_rth,
        maintenance_margin_before_outside_rth: d.order_state.maintenance_margin_before_outside_rth,
        equity_with_loan_before_outside_rth: d.order_state.equity_with_loan_before_outside_rth,
        initial_margin_change_outside_rth: d.order_state.initial_margin_change_outside_rth,
        maintenance_margin_change_outside_rth: d.order_state.maintenance_margin_change_outside_rth,
        equity_with_loan_change_outside_rth: d.order_state.equity_with_loan_change_outside_rth,
        initial_margin_after_outside_rth: d.order_state.initial_margin_after_outside_rth,
        maintenance_margin_after_outside_rth: d.order_state.maintenance_margin_after_outside_rth,
        equity_with_loan_after_outside_rth: d.order_state.equity_with_loan_after_outside_rth,
        suggested_size: d.order_state.suggested_size,
        reject_reason: d.order_state.reject_reason,
        order_allocations: d.order_state.order_allocations,
    }
}

/// Of the fields that are watched, `order_id` changes only those that are
/// named here, and those only at the versions that carry them.
pub proof fn lemma_order_id_keeps(v: int, s: Reading<OrderDataView>)
    ensures
        late(order_id(s).value) == (LateFieldsView {
            order_id: order_id(s).value.order_id,
            ..late(s.value)
        }),
{
    reveal(order_id);
    reveal(OrderView::with_order_id);
}

/// Of the fields that are watched, `contract_identity` changes only those that are
/// named here, and those only at the versions that carry them.
pub proof fn lemma_contract_identity_keeps(v: int, s: Reading<OrderDataView>)
    ensures
        late(contract_identity(s).value) == (LateFieldsView {
            ..late(s.value)
        }),
{
    reveal(contract_identity);
    reveal(ContractView::with_contract_id);
    reveal(ContractView::with_symbol);
    reveal(ContractView::with_security_type);
    reveal(ContractView::with_last_trade_date_or_contract_month);
}

/// Of the fields that are watched, `contract_terms` changes only those that are
/// named here, and those only at the versions that carry them.
pub proof fn lemma_contract_terms_keeps(v: int, s: Reading<OrderDataView>)
    ensures
        late(contract_terms(s).value) == (LateFieldsView {
            ..late(s.value)
        }),
{
    reveal(contract_terms);
    reveal(ContractView::with_strike);
    reveal(ContractView::with_right);
    reveal(ContractView::with_multiplier);
}

/// Of the fields that are watched, `contract_listing` changes only those that are
/// named here, and those only at the versions that carry them.
pub proof fn lemma_contract_listing_keeps(v: int, s: Reading<OrderDataView>)
    ensures
        late(contract_listing(s).value) == (LateFieldsView {
            ..late(s.value)
        }),
{
    reveal(contract_listing);
    reveal(ContractView::with_exchange);
    reveal(ContractView::with_currency);
    reveal(ContractView::with_local_symbol);
    reveal(ContractView::with_trading_class);
}

/// Of the fields that are watched, `contract_fields` changes only those that are
/// named here, and those only at the versions that carry them.
pub proof fn lemma_contract_fields_keeps(v: int, s: Reading<OrderDataView>)
    ensures
        late(contract_fields(s).value) == (LateFieldsView {
            ..late(s.value)
        }),
{
    reveal(contract_fields);
    lemma_contract_identity_keeps(v, s);
    let s1 = contract_identity(s);
    if s1.failure is None {
        lemma_contract_terms_keeps(v, s1);
    }
    let s2 = if s1.failure is Some {
        s1
    } else {
        contract_terms(s1)
    };
    if s2.failure is None {
        lemma_contract_listing_keeps(v, s2);
    }
    let s3 = if s2.failure is Some {
        s2
    } else {
        contract_listing(s2)
    };
}

/// Of the fields that are watched, `action` changes only those that are
/// named here, and those only at the versions that carry them.
pub proof fn lemma_action_keeps(v: int, s: Reading<OrderDataView>)
    ensures
        late(action(s).value) == (LateFieldsView {
            ..late(s.value)
        }),
{
    reveal(action);
    reveal(OrderView::with_action);
}

/// Of the fields that are watched, `total_quantity` changes only those that are
/// named here, and those only at the versions that carry them.
pub proof fn lemma_total_quantity_keeps(v: int, s: Reading<OrderDataView>)
    ensures
        late(total_quantity(s).value) == (LateFieldsView {
            ..late(s.value)
        }),
{
    reveal(total_quantity);
    reveal(OrderView::with_total_quantity);
}

/// Of the fields that are watched, `order_type` changes only those that are
/// named here, and those only at the versions that carry them.
pub proof fn lemma_order_type_keeps(v: int, s: Reading<OrderDataView>)
    ensures
        late(order_type(s).value) == (LateFieldsView {
            ..late(s.value)
        }),
{
    reveal(order_type);
    reveal(OrderView::with_order_type);
}

/// Of the fields that are watched, `limit_price` changes only those that are
/// named here, and those only at the versions that carry them.
pub proof fn lemma_limit_price_keeps(v: int, s: Reading<OrderDataView>)
    ensures
        late(limit_price(s).value) == (LateFieldsView {
            ..late(s.value)
        }),
{
    reveal(limit_price);
    reveal(OrderView::with_limit_price);
}

/// Of the fields that are watched, `aux_price` changes only those that are
/// named here, and those only at the versions that carry them.
pub proof fn lemma_aux_price_keeps(v: int, s: Reading<OrderDataView>)
    ensures
        late(aux_price(s).value) == (LateFieldsView {
            ..late(s.value)
        }),
{
    reveal(aux_price);
    reveal(OrderView::with_aux_price);
}

/// Of the fields that are watched, `tif` changes only those that are
/// named here, and those only at the versions that carry them.
pub proof fn lemma_tif_keeps(v: int, s: Reading<OrderDataView>)
    ensures
        late(tif(s).value) == (LateFieldsView {
            ..late(s.value)
        }),
{
    reveal(tif);
    reveal(OrderView::with_tif);
}

/// Of the fields that are watched, `oca_group` changes only those that are
/// named here, and those only at the versions that carry them.
pub proof fn lemma_oca_group_keeps(v: int, s: Reading<OrderDataView>)
    ensures
        late(oca_group(s).value) == (LateFieldsView {
            ..late(s.value)
        }),
{
    reveal(oca_group);
    reveal(OrderView::with_oca_group);
}

/// Of the fields that are watched, `account` changes only those that are
/// named here, and those only at the versions that carry them.
pub proof fn lemma_account_keeps(v: int, s: Reading<OrderDataView>)
    ensures
        late(account(s).value) == (LateFieldsView {
            ..late(s.value)
        }),
{
    reveal(account);
    reveal(OrderView::with_account);
}

/// Of the fields that are watched, `open_close` changes only those that are
/// named here, and those only at the versions that carry them.
pub proof fn lemma_open_close_keeps(v: int, s: Reading<OrderDataView>)
    ensures
        late(open_close(s).value) == (LateFieldsView {
            ..late(s.value)
        }),
{
    reveal(open_close);
    reveal(OrderView::with_open_close);
}

/// Of the fields that are watched, `origin` changes only those that are
/// named here, and those only at the versions that carry them.
pub proof fn lemma_origin_keeps(v: int, s: Reading<OrderDataView>)
    ensures
        late(origin(s).value) == (LateFieldsView {
            ..late(s.value)
        }),
{
    reveal(origin);
    reveal(OrderView::with_origin);
}

/// Of the fields that are watched, `order_ref` changes only those that are
/// named here, and those only at the versions that carry them.
pub proof fn lemma_order_ref_keeps(v: int, s: Reading<OrderDataView>)
    ensures
        late(order_ref(s).value) == (LateFieldsView {
            ..late(s.value)
        }),
{
    reveal(order_ref);
    reveal(OrderView::with_order_ref);
}

/// Of the fields that are watched, `client_id` changes only those that are
/// named here, and those only at the versions that carry them.
pub proof fn lemma_client_id_keeps(v: int, s: Reading<OrderDataView>)
    ensures
        late(client_id(s).value) == (LateFieldsView {
            ..late(s.value)
        }),
{
    reveal(client_id);
    reveal(OrderView::with_client_id);
}

/// Of the fields that are watched, `perm_id` changes only those that are
/// named here, and those only at the versions that carry them.
pub proof fn lemma_perm_id_keeps(v: int, s: Reading<OrderDataView>)
    ensures
        late(perm_id(s).value) == (LateFieldsView {
            ..late(s.value)
        }),
{
    reveal(perm_id);
    reveal(OrderView::with_perm_id);
}

/// Of the fields that are watched, `outside_rth` changes only those that are
/// named here, and those only at the versions that carry them.
pub proof fn lemma_outside_rth_keeps(v: int, s: Reading<OrderDataView>)
    ensures
        late(outside_rth(s).value) == (LateFieldsView {
            ..late(s.value)
        }),
{
    reveal(outside_rth);
    reveal(OrderView::with_outside_rth);
}

/// Of the fields that are watched, `hidden` changes only those that are
/// named here, and those only at the versions that carry them.
pub proof fn lemma_hidden_keeps(v: int, s: Reading<OrderDataView>)
    ensures
        late(hidden(s).value) == (LateFieldsView {
            ..late(s.value)
        }),
{
    reveal(hidden);
    reveal(OrderView::with_hidden);
}

/// Of the fields that are watched, `discretionary_amt` changes only those that are
/// named here, and those only at the versions that carry them.
pub proof fn lemma_discretionary_amt_keeps(v: int, s: Reading<OrderDataView>)
    ensures
        late(discretionary_amt(s).value) == (LateFieldsView {
            ..late(s.value)
        }),
{
    reveal(discretionary_amt);
    reveal(OrderView::with_discretionary_amt);
}

/// Of the fields that are watched, `good_after_time` changes only those that are
/// named here, and those only at the versions that carry them.
pub proof fn lemma_good_after_time_keeps(v: int, s: Reading<OrderDataView>)
    ensures
        late(good_after_time(s).value) == (LateFieldsView {
            ..late(s.value)
        }),
{
    reveal(good_after_time);
    reveal(OrderView::with_good_after_time);
}

/// Of the fields that are watched, `fa_profile` changes only those that are
/// named here, and those only at the versions that carry them.
pub proof fn lemma_fa_profile_keeps(v: int, s: Reading<OrderDataView>)
    ensures
        late(fa_profile(v, s).value) == (LateFieldsView {
            ..late(s.value)
        }),
{
    reveal(fa_profile);
    reveal(OrderView::with_fa_percentage);
}

/// Of the fields that are watched, `fa_allocation` changes only those that are
/// named here, and those only at the versions that carry them.
pub proof fn lemma_fa_allocation_keeps(v: int, s: Reading<OrderDataView>)
    ensures
        late(fa_allocation(s).value) == (LateFieldsView {
            ..late(s.value)
        }),
{
    reveal(fa_allocation);
    reveal(OrderView::with_fa_group);
    reveal(OrderView::with_fa_method);
    reveal(OrderView::with_fa_percentage);
}

/// Of the fields that are watched, `fa_params` changes only those that are
/// named here, and those only at the versions that carry them.
pub proof fn lemma_fa_params_keeps(v: int, s: Reading<OrderDataView>)
    ensures
        late(fa_params(v, s).value) == (LateFieldsView {
            ..late(s.value)
        }),
{
    reveal(fa_params);
    lemma_fa_allocation_keeps(v, s);
    let s1 = fa_allocation(s);
    if s1.failure is None {
        lemma_fa_profile_keeps(v, s1);
    }
    let s2 = if s1.failure is Some {
        s1
    } else {
        fa_profile(v, s1)
    };
}

/// Of the fields that are watched, `model_code` changes only those that are
/// named here, and those only at the versions that carry them.
pub proof fn lemma_model_code_keeps(v: int, s: Reading<OrderDataView>)
    ensures
        late(model_code(v, s).value) == (LateFieldsView {
            ..late(s.value)
        }),
{
    reveal(model_code);
    reveal(OrderView::with_model_code);
}

/// Of the fields that are watched, `good_till_date` changes only those that are
/// named here, and those only at the versions that carry them.
pub proof fn lemma_good_till_date_keeps(v: int, s: Reading<OrderDataView>)
    ensures
        late(good_till_date(s).value) == (LateFieldsView {
            ..late(s.value)
        }),
{
    reveal(good_till_date);
    reveal(OrderView::with_good_till_date);
}

/// Of the fields that are watched, `rule_80_a` changes only those that are
/// named here, and those only at the versions that carry them.
pub proof fn lemma_rule_80_a_keeps(v: int, s: Reading<OrderDataView>)
    ensures
        late(rule_80_a(s).value) == (LateFieldsView {
            ..late(s.value)
        }),
{
    reveal(rule_80_a);
    reveal(OrderView::with_rule_80_a);
}

/// Of the fields that are watched, `percent_offset` changes only those that are
/// named here, and those only at the versions that carry them.
pub proof fn lemma_percent_offset_keeps(v: int, s: Reading<OrderDataView>)
    ensures
        late(percent_offset(s).value) == (LateFieldsView {
            ..late(s.value)
        }),
{
    reveal(percent_offset);
    reveal(OrderView::with_percent_offset);
}

/// Of the fields that are watched, `settling_firm` changes only those that are
/// named here, and those only at the versions that carry them.
pub proof fn lemma_settling_firm_keeps(v: int, s: Reading<OrderDataView>)
    ensures
        late(settling_firm(s).value) == (LateFieldsView {
            ..late(s.value)
        }),
{
    reveal(settling_firm);
    reveal(OrderView::with_settling_firm);
}

/// Of the fields that are watched, `short_sale_params` changes only those that are
/// named here, and those only at the versions that carry them.
pub proof fn lemma_short_sale_params_keeps(v: int, s: Reading<OrderDataView>)
    ensures
        late(short_sale_params(s).value) == (LateFieldsView {
            ..late(s.value)
        }),
{
    reveal(short_sale_params);
    reveal(OrderView::with_short_sale_slot);
    reveal(OrderView::with_designated_location);
    reveal(OrderView::with_exempt_code);
}

/// Of the fields that are watched, `auction_strategy` changes only those that are
/// named here, and those only at the versions that carry them.
pub proof fn lemma_auction_strategy_keeps(v: int, s: Reading<OrderDataView>)
    ensures
        late(auction_strategy(s).value) == (LateFieldsView {
            ..late(s.value)
        }),
{
    reveal(auction_strategy);
    reveal(OrderView::with_auction_strategy);
}

/// Of the fields that are watched, `box_order_params` changes only those that are
/// named here, and those only at the versions that carry them.
pub proof fn lemma_box_order_params_keeps(v: int, s: Reading<OrderDataView>)
    ensures
        late(box_order_params(s).value) == (LateFieldsView {
            ..late(s.value)
        }),
{
    reveal(box_order_params);
    reveal(OrderView::with_starting_price);
    reveal(OrderView::with_stock_ref_price);
    reveal(OrderView::with_delta);
}

/// Of the fields that are watched, `peg_to_stock_or_vol_order_params` changes only those that are
/// named here, and those only at the versions that carry them.
pub proof fn lemma_peg_to_stock_or_vol_order_params_keeps(v: int, s: Reading<OrderDataView>)
    ensures
        late(peg_to_stock_or_vol_order_params(s).value) == (LateFieldsView {
            ..late(s.value)
        }),
{
    reveal(peg_to_stock_or_vol_order_params);
    reveal(OrderView::with_stock_range_lower);
    reveal(OrderView::with_stock_range_upper);
}

/// Of the fields that are watched, `display_size` changes only those that are
/// named here, and those only at the versions that carry them.
pub proof fn lemma_display_size_keeps(v: int, s: Reading<OrderDataView>)
    ensures
        late(display_size(s).value) == (LateFieldsView {
            ..late(s.value)
        }),
{
    reveal(display_size);
    reveal(OrderView::with_display_size);
}

/// Of the fields that are watched, `block_order` changes only those that are
/// named here, and those only at the versions that carry them.
pub proof fn lemma_block_order_keeps(v: int, s: Reading<OrderDataView>)
    ensures
        late(block_order(s).value) == (LateFieldsView {
            ..late(s.value)
        }),
{
    reveal(block_order);
    reveal(OrderView::with_block_order);
}

/// Of the fields that are watched, `sweep_to_fill` changes only those that are
/// named here, and those only at the versions that carry them.
pub proof fn lemma_sweep_to_fill_keeps(v: int, s: Reading<OrderDataView>)
    ensures
        late(sweep_to_fill(s).value) == (LateFieldsView {
            ..late(s.value)
        }),
{
    reveal(sweep_to_fill);
    reveal(OrderView::with_sweep_to_fill);
}

/// Of the fields that are watched, `all_or_none` changes only those that are
/// named here, and those only at the versions that carry them.
pub proof fn lemma_all_or_none_keeps(v: int, s: Reading<OrderDataView>)
    ensures
        late(all_or_none(s).value) == (LateFieldsView {
            ..late(s.value)
        }),
{
    reveal(all_or_none);
    reveal(OrderView::with_all_or_none);
}

/// Of the fields that are watched, `min_qty` changes only those that are
/// named here, and those only at the versions that carry them.
pub proof fn lemma_min_qty_keeps(v: int, s: Reading<OrderDataView>)
    ensures
        late(min_qty(s).value) == (LateFieldsView {
            ..late(s.value)
        }),
{
    reveal(min_qty);
    reveal(OrderView::with_min_qty);
}

/// Of the fields that are watched, `oca_type` changes only those that are
/// named here, and those only at the versions that carry them.
pub proof fn lemma_oca_type_keeps(v: int, s: Reading<OrderDataView>)
    ensures
        late(oca_type(s).value) == (LateFieldsView {
            ..late(s.value)
        }),
{
    reveal(oca_type);
    reveal(OrderView::with_oca_type);
}

/// Of the fields that are watched, `parent_id` changes only those that are
/// named here, and those only at the versions that carry them.
pub proof fn lemma_parent_id_keeps(v: int, s: Reading<OrderDataView>)
    ensures
        late(parent_id(s).value) == (LateFieldsView {
            ..late(s.value)
        }),
{
    reveal(parent_id);
    reveal(OrderView::with_parent_id);
}

/// Of the fields that are watched, `trigger_method` changes only those that are
/// named here, and those only at the versions that carry them.
pub proof fn lemma_trigger_method_keeps(v: int, s: Reading<OrderDataView>)
    ensures
        late(trigger_method(s).value) == (LateFieldsView {
            ..late(s.value)
        }),
{
    reveal(trigger_method);
    reveal(OrderView::with_trigger_method);
}

/// Of the fields that are watched, `delta_neutral_attributes` changes only those that are
/// named here, and those only at the versions that carry them.
pub proof fn lemma_delta_neutral_attributes_keeps(v: int, s: Reading<OrderDataView>)
    ensures
        late(delta_neutral_attributes(s).value) == (LateFieldsView {
            ..late(s.value)
        }),
{
    reveal(delta_neutral_attributes);
    reveal(OrderView::with_delta_neutral_settling_firm);
    reveal(OrderView::with_delta_neutral_clearing_account);
    reveal(OrderView::with_delta_neutral_clearing_intent);
    reveal(OrderView::with_delta_neutral_open_close);
}

/// Of the fields that are watched, `delta_neutral_con_id` changes only those that are
/// named here, and those only at the versions that carry them.
pub proof fn lemma_delta_neutral_con_id_keeps(v: int, s: Reading<OrderDataView>)
    ensures
        late(delta_neutral_con_id(s).value) == (LateFieldsView {
            ..late(s.value)
        }),
{
    reveal(delta_neutral_con_id);
    reveal(OrderView::with_delta_neutral_con_id);
}

/// Of the fields that are watched, `delta_neutral_short_sale` changes only those that are
/// named here, and those only at the versions that carry them.
pub proof fn lemma_delta_neutral_short_sale_keeps(v: int, s: Reading<OrderDataView>)
    ensures
        late(delta_neutral_short_sale(s).value) == (LateFieldsView {
            ..late(s.value)
        }),
{
    reveal(delta_neutral_short_sale);
    reveal(OrderView::with_delta_neutral_short_sale);
    reveal(OrderView::with_delta_neutral_short_sale_slot);
    reveal(OrderView::with_delta_neutral_designated_location);
}

/// Of the fields that are watched, `delta_neutral_hedge` changes only those that are
/// named here, and those only at the versions that carry them.
pub proof fn lemma_delta_neutral_hedge_keeps(v: int, s: Reading<OrderDataView>, open_order_attributes: bool)
    ensures
        late(delta_neutral_hedge(s, open_order_attributes).value) == (LateFieldsView {
            ..late(s.value)
        }),
{
    reveal(delta_neutral_hedge);
    lemma_delta_neutral_con_id_keeps(v, s);
    let s1 = delta_neutral_con_id(s);
    if s1.failure is None {
        if open_order_attributes {
            lemma_delta_neutral_attributes_keeps(v, s1);
        }
    }
    let s2 = if s1.failure is Some {
        s1
    } else {
        if open_order_attributes { delta_neutral_attributes(s1) } else { s1 }
    };
    if s2.failure is None {
        lemma_delta_neutral_short_sale_keeps(v, s2);
    }
    let s3 = if s2.failure is Some {
        s2
    } else {
        delta_neutral_short_sale(s2)
    };
}

/// Of the fields that are watched, `volatility` changes only those that are
/// named here, and those only at the versions that carry them.
pub proof fn lemma_volatility_keeps(v: int, s: Reading<OrderDataView>)
    ensures
        late(volatility(s).value) == (LateFieldsView {
            ..late(s.value)
        }),
{
    reveal(volatility);
    reveal(OrderView::with_volatility);
    reveal(OrderView::with_volatility_type);
    reveal(OrderView::with_delta_neutral_order_type);
    reveal(OrderView::with_delta_neutral_aux_price);
}

/// Of the fields that are watched, `volatility_reference` changes only those that are
/// named here, and those only at the versions that carry them.
pub proof fn lemma_volatility_reference_keeps(v: int, s: Reading<OrderDataView>)
    ensures
        late(volatility_reference(s).value) == (LateFieldsView {
            ..late(s.value)
        }),
{
    reveal(volatility_reference);
    reveal(OrderView::with_continuous_update);
    reveal(OrderView::with_reference_price_type);
}

/// Of the fields that are watched, `volatility_order_params` changes only those that are
/// named here, and those only at the versions that carry them.
pub proof fn lemma_volatility_order_params_keeps(v: int, s: Reading<OrderDataView>, open_order_attributes: bool)
    ensures
        late(volatility_order_params(s, open_order_attributes).value) == (LateFieldsView {
            ..late(s.value)
        }),
{
    reveal(volatility_order_params);
    lemma_volatility_keeps(v, s);
    let s1 = volatility(s);
    if s1.failure is None {
        if s1.value.order.delta_neutral_order_type.len() > 0 {
            lemma_delta_neutral_hedge_keeps(v, s1, open_order_attributes);
        }
    }
    let s2 = if s1.failure is Some {
        s1
    } else {
        if s1.value.order.delta_neutral_order_type.len() > 0 { delta_neutral_hedge(s1, open_order_attributes) } else { s1 }
    };
    if s2.failure is None {
        lemma_volatility_reference_keeps(v, s2);
    }
    let s3 = if s2.failure is Some {
        s2
    } else {
        volatility_reference(s2)
    };
}

/// Of the fields that are watched, `trail_params` changes only those that are
/// named here, and those only at the versions that carry them.
pub proof fn lemma_trail_params_keeps(v: int, s: Reading<OrderDataView>)
    ensures
        late(trail_params(s).value) == (LateFieldsView {
            ..late(s.value)
        }),
{
    reveal(trail_params);
    reveal(OrderView::with_trail_stop_price);
    reveal(OrderView::with_trailing_percent);
}

/// Of the fields that are watched, `basis_points` changes only those that are
/// named here, and those only at the versions that carry them.
pub proof fn lemma_basis_points_keeps(v: int, s: Reading<OrderDataView>)
    ensures
        late(basis_points(s).value) == (LateFieldsView {
            ..late(s.value)
        }),
{
    reveal(basis_points);
    reveal(OrderView::with_basis_points);
    reveal(OrderView::with_basis_points_type);
}

/// Of the fields that are watched, `combo_leg_entry` changes only those that are
/// named here, and those only at the versions that carry them.
pub proof fn lemma_combo_leg_entry_keeps(v: int, s: Reading<OrderDataView>)
    ensures
        late(combo_leg_entry(s).value) == (LateFieldsView {
            ..late(s.value)
        }),
{
    reveal(combo_leg_entry);
    reveal(ContractView::with_combo_legs);
}

/// Of the fields that are watched, a run of `combo_leg_entry` changes only
/// those that the entry changes.
pub proof fn lemma_combo_leg_run_keeps(v: int, s: Reading<OrderDataView>, count: int)
    ensures
        late(combo_leg_run(s, count).value) == (LateFieldsView {
            ..late(s.value)
        }),
    decreases count,
{
    if count > 0 && s.failure is None {
        lemma_combo_leg_entry_keeps(v, s);
        lemma_combo_leg_run_keeps(v, combo_leg_entry(s), count - 1);
    }
}

/// Of the fields that are watched, `contract_combo_legs` changes only those that are
/// named here, and those only at the versions that carry them.
pub proof fn lemma_contract_combo_legs_keeps(v: int, s: Reading<OrderDataView>)
    ensures
        late(contract_combo_legs(s).value) == (LateFieldsView {
            ..late(s.value)
        }),
{
    reveal(contract_combo_legs);
    match s.message.read_int() {
        Ok(count) => lemma_combo_leg_run_keeps(v, s.skip(), count),
        Err(_) => {},
    }
}

/// Of the fields that are watched, `order_combo_leg_entry` changes only those that are
/// named here, and those only at the versions that carry them.
pub proof fn lemma_order_combo_leg_entry_keeps(v: int, s: Reading<OrderDataView>)
    ensures
        late(order_combo_leg_entry(s).value) == (LateFieldsView {
            ..late(s.value)
        }),
{
    reveal(order_combo_leg_entry);
    reveal(OrderView::with_order_combo_legs);
}

/// Of the fields that are watched, a run of `order_combo_leg_entry` changes only
/// those that the entry changes.
pub proof fn lemma_order_combo_leg_run_keeps(v: int, s: Reading<OrderDataView>, count: int)
    ensures
        late(order_combo_leg_run(s, count).value) == (LateFieldsView {
            ..late(s.value)
        }),
    decreases count,
{
    if count > 0 && s.failure is None {
        lemma_order_combo_leg_entry_keeps(v, s);
        lemma_order_combo_leg_run_keeps(v, order_combo_leg_entry(s), count - 1);
    }
}

/// Of the fields that are watched, `order_combo_legs` changes only those that are
/// named here, and those only at the versions that carry them.
pub proof fn lemma_order_combo_legs_keeps(v: int, s: Reading<OrderDataView>)
    ensures
        late(order_combo_legs(s).value) == (LateFieldsView {
            ..late(s.value)
        }),
{
    reveal(order_combo_legs);
    match s.message.read_int() {
        Ok(count) => lemma_order_combo_leg_run_keeps(v, s.skip(), count),
        Err(_) => {},
    }
}

/// Of the fields that are watched, `combo_legs_description` changes only those that are
/// named here, and those only at the versions that carry them.
pub proof fn lemma_combo_legs_description_keeps(v: int, s: Reading<OrderDataView>)
    ensures
        late(combo_legs_description(s).value) == (LateFieldsView {
            ..late(s.value)
        }),
{
    reveal(combo_legs_description);
    reveal(ContractView::with_combo_legs_description);
}

/// Of the fields that are watched, `combo_legs` changes only those that are
/// named here, and those only at the versions that carry them.
pub proof fn lemma_combo_legs_keeps(v: int, s: Reading<OrderDataView>)
    ensures
        late(combo_legs(s).value) == (LateFieldsView {
            ..late(s.value)
        }),
{
    reveal(combo_legs);
    lemma_combo_legs_description_keeps(v, s);
    let s1 = combo_legs_description(s);
    if s1.failure is None {
        lemma_contract_combo_legs_keeps(v, s1);
    }
    let s2 = if s1.failure is Some {
        s1
    } else {
        contract_combo_legs(s1)
    };
    if s2.failure is None {
        lemma_order_combo_legs_keeps(v, s2);
    }
    let s3 = if s2.failure is Some {
        s2
    } else {
        order_combo_legs(s2)
    };
}

/// Of the fields that are watched, `smart_combo_routing_entry` changes only those that are
/// named here, and those only at the versions that carry them.
pub proof fn lemma_smart_combo_routing_entry_keeps(v: int, s: Reading<OrderDataView>)
    ensures
        late(smart_combo_routing_entry(s).value) == (LateFieldsView {
            ..late(s.value)
        }),
{
    reveal(smart_combo_routing_entry);
    reveal(OrderView::with_smart_combo_routing_params);
}

/// Of the fields that are watched, a run of `smart_combo_routing_entry` changes only
/// those that the entry changes.
pub proof fn lemma_smart_combo_routing_run_keeps(v: int, s: Reading<OrderDataView>, count: int)
    ensures
        late(smart_combo_routing_run(s, count).value) == (LateFieldsView {
            ..late(s.value)
        }),
    decreases count,
{
    if count > 0 && s.failure is None {
        lemma_smart_combo_routing_entry_keeps(v, s);
        lemma_smart_combo_routing_run_keeps(v, smart_combo_routing_entry(s), count - 1);
    }
}

/// Of the fields that are watched, `smart_combo_routing_params` changes only those that are
/// named here, and those only at the versions that carry them.
pub proof fn lemma_smart_combo_routing_params_keeps(v: int, s: Reading<OrderDataView>)
    ensures
        late(smart_combo_routing_params(s).value) == (LateFieldsView {
            ..late(s.value)
        }),
{
    reveal(smart_combo_routing_params);
    match s.message.read_int() {
        Ok(count) => lemma_smart_combo_routing_run_keeps(v, s.skip(), count),
        Err(_) => {},
    }
}

/// Of the fields that are watched, `scale_price_adjustment` changes only those that are
/// named here, and those only at the versions that carry them.
pub proof fn lemma_scale_price_adjustment_keeps(v: int, s: Reading<OrderDataView>)
    ensures
        late(scale_price_adjustment(s).value) == (LateFieldsView {
            ..late(s.value)
        }),
{
    reveal(scale_price_adjustment);
    reveal(OrderView::with_scale_price_adjust_value);
    reveal(OrderView::with_scale_price_adjust_interval);
    reveal(OrderView::with_scale_profit_offset);
    reveal(OrderView::with_scale_auto_reset);
}

/// Of the fields that are watched, `scale_position` changes only those that are
/// named here, and those only at the versions that carry them.
pub proof fn lemma_scale_position_keeps(v: int, s: Reading<OrderDataView>)
    ensures
        late(scale_position(s).value) == (LateFieldsView {
            ..late(s.value)
        }),
{
    reveal(scale_position);
    reveal(OrderView::with_scale_init_position);
    reveal(OrderView::with_scale_init_fill_qty);
    reveal(OrderView::with_scale_random_percent);
}

/// Of the fields that are watched, `scale_table` changes only those that are
/// named here, and those only at the versions that carry them.
pub proof fn lemma_scale_table_keeps(v: int, s: Reading<OrderDataView>)
    ensures
        late(scale_table(s).value) == (LateFieldsView {
            ..late(s.value)
        }),
{
    reveal(scale_table);
    lemma_scale_price_adjustment_keeps(v, s);
    let s1 = scale_price_adjustment(s);
    if s1.failure is None {
        lemma_scale_position_keeps(v, s1);
    }
    let s2 = if s1.failure is Some {
        s1
    } else {
        scale_position(s1)
    };
}

/// Of the fields that are watched, `scale_levels` changes only those that are
/// named here, and those only at the versions that carry them.
pub proof fn lemma_scale_levels_keeps(v: int, s: Reading<OrderDataView>)
    ensures
        late(scale_levels(s).value) == (LateFieldsView {
            ..late(s.value)
        }),
{
    reveal(scale_levels);
    reveal(OrderView::with_scale_init_level_size);
    reveal(OrderView::with_scale_subs_level_size);
    reveal(OrderView::with_scale_price_increment);
}

/// Of the fields that are watched, `scale_order_params` changes only those that are
/// named here, and those only at the versions that carry them.
pub proof fn lemma_scale_order_params_keeps(v: int, s: Reading<OrderDataView>)
    ensures
        late(scale_order_params(s).value) == (LateFieldsView {
            ..late(s.value)
        }),
{
    reveal(scale_order_params);
    lemma_scale_levels_keeps(v, s);
    let s1 = scale_levels(s);
    if s1.failure is None {
        if s1.value.order.has_scale_increment() {
            lemma_scale_table_keeps(v, s1);
        }
    }
    let s2 = if s1.failure is Some {
        s1
    } else {
        if s1.value.order.has_scale_increment() { scale_table(s1) } else { s1 }
    };
}

/// Of the fields that are watched, `hedge_param` changes only those that are
/// named here, and those only at the versions that carry them.
pub proof fn lemma_hedge_param_keeps(v: int, s: Reading<OrderDataView>)
    ensures
        late(hedge_param(s).value) == (LateFieldsView {
            ..late(s.value)
        }),
{
    reveal(hedge_param);
    reveal(OrderView::with_hedge_param);
}

/// Of the fields that are watched, `hedge_type` changes only those that are
/// named here, and those only at the versions that carry them.
pub proof fn lemma_hedge_type_keeps(v: int, s: Reading<OrderDataView>)
    ensures
        late(hedge_type(s).value) == (LateFieldsView {
            ..late(s.value)
        }),
{
    reveal(hedge_type);
    reveal(OrderView::with_hedge_type);
}

/// Of the fields that are watched, `hedge_params` changes only those that are
/// named here, and those only at the versions that carry them.
pub proof fn lemma_hedge_params_keeps(v: int, s: Reading<OrderDataView>)
    ensures
        late(hedge_params(s).value) == (LateFieldsView {
            ..late(s.value)
        }),
{
    reveal(hedge_params);
    lemma_hedge_type_keeps(v, s);
    let s1 = hedge_type(s);
    if s1.failure is None {
        if s1.value.order.hedge_type.len() > 0 {
            lemma_hedge_param_keeps(v, s1);
        }
    }
    let s2 = if s1.failure is Some {
        s1
    } else {
        if s1.value.order.hedge_type.len() > 0 { hedge_param(s1) } else { s1 }
    };
}

/// Of the fields that are watched, `opt_out_smart_routing` changes only those that are
/// named here, and those only at the versions that carry them.
pub proof fn lemma_opt_out_smart_routing_keeps(v: int, s: Reading<OrderDataView>)
    ensures
        late(opt_out_smart_routing(s).value) == (LateFieldsView {
            ..late(s.value)
        }),
{
    reveal(opt_out_smart_routing);
    reveal(OrderView::with_opt_out_smart_routing);
}

/// Of the fields that are watched, `clearing_params` changes only those that are
/// named here, and those only at the versions that carry them.
pub proof fn lemma_clearing_params_keeps(v: int, s: Reading<OrderDataView>)
    ensures
        late(clearing_params(s).value) == (LateFieldsView {
            ..late(s.value)
        }),
{
    reveal(clearing_params);
    reveal(OrderView::with_clearing_account);
    reveal(OrderView::with_clearing_intent);
}

/// Of the fields that are watched, `not_held` changes only those that are
/// named here, and those only at the versions that carry them.
pub proof fn lemma_not_held_keeps(v: int, s: Reading<OrderDataView>)
    ensures
        late(not_held(s).value) == (LateFieldsView {
            ..late(s.value)
        }),
{
    reveal(not_held);
    reveal(OrderView::with_not_held);
}

/// Of the fields that are watched, `delta_neutral_contract` changes only those that are
/// named here, and those only at the versions that carry them.
pub proof fn lemma_delta_neutral_contract_keeps(v: int, s: Reading<OrderDataView>)
    ensures
        late(delta_neutral_contract(s).value) == (LateFieldsView {
            ..late(s.value)
        }),
{
    reveal(delta_neutral_contract);
    reveal(ContractView::with_delta_neutral_contract);
}

/// Of the fields that are watched, `delta_neutral` changes only those that are
/// named here, and those only at the versions that carry them.
pub proof fn lemma_delta_neutral_keeps(v: int, s: Reading<OrderDataView>)
    ensures
        late(delta_neutral(s).value) == (LateFieldsView {
            ..late(s.value)
        }),
{
    reveal(delta_neutral);
    lemma_delta_neutral_contract_keeps(v, s.skip());
}

/// Of the fields that are watched, `algo_param_entry` changes only those that are
/// named here, and those only at the versions that carry them.
pub proof fn lemma_algo_param_entry_keeps(v: int, s: Reading<OrderDataView>)
    ensures
        late(algo_param_entry(s).value) == (LateFieldsView {
            ..late(s.value)
        }),
{
    reveal(algo_param_entry);
    reveal(OrderView::with_algo_params);
}

/// Of the fields that are watched, a run of `algo_param_entry` changes only
/// those that the entry changes.
pub proof fn lemma_algo_param_run_keeps(v: int, s: Reading<OrderDataView>, count: int)
    ensures
        late(algo_param_run(s, count).value) == (LateFieldsView {
            ..late(s.value)
        }),
    decreases count,
{
    if count > 0 && s.failure is None {
        lemma_algo_param_entry_keeps(v, s);
        lemma_algo_param_run_keeps(v, algo_param_entry(s), count - 1);
    }
}

/// Of the fields that are watched, `algo_param_list` changes only those that are
/// named here, and those only at the versions that carry them.
pub proof fn lemma_algo_param_list_keeps(v: int, s: Reading<OrderDataView>)
    ensures
        late(algo_param_list(s).value) == (LateFieldsView {
            ..late(s.value)
        }),
{
    reveal(algo_param_list);
    match s.message.read_int() {
        Ok(count) => lemma_algo_param_run_keeps(v, s.skip(), count),
        Err(_) => {},
    }
}

/// Of the fields that are watched, `algo_strategy` changes only those that are
/// named here, and those only at the versions that carry them.
pub proof fn lemma_algo_strategy_keeps(v: int, s: Reading<OrderDataView>)
    ensures
        late(algo_strategy(s).value) == (LateFieldsView {
            ..late(s.value)
        }),
{
    reveal(algo_strategy);
    reveal(OrderView::with_algo_strategy);
}

/// Of the fields that are watched, `algo_params` changes only those that are
/// named here, and those only at the versions that carry them.
pub proof fn lemma_algo_params_keeps(v: int, s: Reading<OrderDataView>)
    ensures
        late(algo_params(s).value) == (LateFieldsView {
            ..late(s.value)
        }),
{
    reveal(algo_params);
    lemma_algo_strategy_keeps(v, s);
    let s1 = algo_strategy(s);
    if s1.failure is None {
        if s1.value.order.algo_strategy.len() > 0 {
            lemma_algo_param_list_keeps(v, s1);
        }
    }
    let s2 = if s1.failure is Some {
        s1
    } else {
        if s1.value.order.algo_strategy.len() > 0 { algo_param_list(s1) } else { s1 }
    };
}

/// Of the fields that are watched, `solicited` changes only those that are
/// named here, and those only at the versions that carry them.
pub proof fn lemma_solicited_keeps(v: int, s: Reading<OrderDataView>)
    ensures
        late(solicited(s).value) == (LateFieldsView {
            ..late(s.value)
        }),
{
    reveal(solicited);
    reveal(OrderView::with_solicited);
}

/// Of the fields that are watched, `order_status` changes only those that are
/// named here, and those only at the versions that carry them.
pub proof fn lemma_order_status_keeps(v: int, s: Reading<OrderDataView>)
    ensures
        late(order_status(s).value) == (LateFieldsView {
            ..late(s.value)
        }),
{
    reveal(order_status);
    reveal(OrderStateView::with_status);
}

/// Of the fields that are watched, `margin_before` changes only those that are
/// named here, and those only at the versions that carry them.
pub proof fn lemma_margin_before_keeps(v: int, s: Reading<OrderDataView>)
    ensures
        late(margin_before(s).value) == (LateFieldsView {
            ..late(s.value)
        }),
{
    reveal(margin_before);
    reveal(OrderStateView::with_initial_margin_before);
    reveal(OrderStateView::with_maintenance_margin_before);
    reveal(OrderStateView::with_equity_with_loan_before);
}

/// Of the fields that are watched, `margin_change` changes only those that are
/// named here, and those only at the versions that carry them.
pub proof fn lemma_margin_change_keeps(v: int, s: Reading<OrderDataView>)
    ensures
        late(margin_change(s).value) == (LateFieldsView {
            ..late(s.value)
        }),
{
    reveal(margin_change);
    reveal(OrderStateView::with_initial_margin_change);
    reveal(OrderStateView::with_maintenance_margin_change);
    reveal(OrderStateView::with_equity_with_loan_change);
}

/// Of the fields that are watched, `margin_before_and_change` changes only those that are
/// named here, and those only at the versions that carry them.
pub proof fn lemma_margin_before_and_change_keeps(v: int, s: Reading<OrderDataView>)
    ensures
        late(margin_before_and_change(v, s).value) == (LateFieldsView {
            ..late(s.value)
        }),
{
    reveal(margin_before_and_change);
    lemma_margin_before_keeps(v, s);
    let s1 = margin_before(s);
    if s1.failure is None {
        lemma_margin_change_keeps(v, s1);
    }
    let s2 = if s1.failure is Some {
        s1
    } else {
        margin_change(s1)
    };
}

/// Of the fields that are watched, `order_allocation_entry` changes only those that are
/// named here, and those only at the versions that carry them.
pub proof fn lemma_order_allocation_entry_keeps(v: int, s: Reading<OrderDataView>)
    ensures
        late(order_allocation_entry(s).value) == (LateFieldsView {
            order_allocations: order_allocation_entry(s).value.order_state.order_allocations,
            ..late(s.value)
        }),
{
    reveal(order_allocation_entry);
    reveal(OrderStateView::with_order_allocations);
}

/// Of the fields that are watched, a run of `order_allocation_entry` changes only
/// those that the entry changes.
pub proof fn lemma_order_allocation_run_keeps(v: int, s: Reading<OrderDataView>, count: int)
    ensures
        late(order_allocation_run(s, count).value) == (LateFieldsView {
            order_allocations: order_allocation_run(s, count).value.order_state.order_allocations,
            ..late(s.value)
        }),
    decreases count,
{
    if count > 0 && s.failure is None {
        lemma_order_allocation_entry_keeps(v, s);
        lemma_order_allocation_run_keeps(v, order_allocation_entry(s), count - 1);
    }
}

/// Of the fields that are watched, `order_allocations` changes only those that are
/// named here, and those only at the versions that carry them.
pub proof fn lemma_order_allocations_keeps(v: int, s: Reading<OrderDataView>)
    ensures
        late(order_allocations(s).value) == (LateFieldsView {
            order_allocations: order_allocations(s).value.order_state.order_allocations,
            ..late(s.value)
        }),
{
    reveal(order_allocations);
    match s.message.read_int() {
        Ok(count) => lemma_order_allocation_run_keeps(v, s.skip(), count),
        Err(_) => {},
    }
}

/// Of the fields that are watched, `preview_margin_before` changes only those that are
/// named here, and those only at the versions that carry them.
pub proof fn lemma_preview_margin_before_keeps(v: int, s: Reading<OrderDataView>)
    ensures
        late(preview_margin_before(s).value) == (LateFieldsView {
            margin_currency: preview_margin_before(s).value.order_state.margin_currency,
            initial_margin_before_outside_rth: preview_margin_before(s).value.order_state.initial_margin_before_outside_rth,
            maintenance_margin_before_outside_rth: preview_margin_before(s).value.order_state.maintenance_margin_before_outside_rth,
            equity_with_loan_before_outside_rth: preview_margin_before(s).value.order_state.equity_with_loan_before_outside_rth,
            ..late(s.value)
        }),
{
    reveal(preview_margin_before);
    reveal(OrderStateView::with_margin_currency);
    reveal(OrderStateView::with_initial_margin_before_outside_rth);
    reveal(OrderStateView::with_maintenance_margin_before_outside_rth);
    reveal(OrderStateView::with_equity_with_loan_before_outside_rth);
}

/// Of the fields that are watched, `preview_margin_change` changes only those that are
/// named here, and those only at the versions that carry them.
pub proof fn lemma_preview_margin_change_keeps(v: int, s: Reading<OrderDataView>)
    ensures
        late(preview_margin_change(s).value) == (LateFieldsView {
            initial_margin_change_outside_rth: preview_margin_change(s).value.order_state.initial_margin_change_outside_rth,
            maintenance_margin_change_outside_rth: preview_margin_change(s).value.order_state.maintenance_margin_change_outside_rth,
            equity_with_loan_change_outside_rth: preview_margin_change(s).value.order_state.equity_with_loan_change_outside_rth,
            ..late(s.value)
        }),
{
    reveal(preview_margin_change);
    reveal(OrderStateView::with_initial_margin_change_outside_rth);
    reveal(OrderStateView::with_maintenance_margin_change_outside_rth);
    reveal(OrderStateView::with_equity_with_loan_change_outside_rth);
}

/// Of the fields that are watched, `preview_margin_after` changes only those that are
/// named here, and those only at the versions that carry them.
pub proof fn lemma_preview_margin_after_keeps(v: int, s: Reading<OrderDataView>)
    ensures
        late(preview_margin_after(s).value) == (LateFieldsView {
            initial_margin_after_outside_rth: preview_margin_after(s).value.order_state.initial_margin_after_outside_rth,
            maintenance_margin_after_outside_rth: preview_margin_after(s).value.order_state.maintenance_margin_after_outside_rth,
            equity_with_loan_after_outside_rth: preview_margin_after(s).value.order_state.equity_with_loan_after_outside_rth,
            ..late(s.value)
        }),
{
    reveal(preview_margin_after);
    reveal(OrderStateView::with_initial_margin_after_outside_rth);
    reveal(OrderStateView::with_maintenance_margin_after_outside_rth);
    reveal(OrderStateView::with_equity_with_loan_after_outside_rth);
}

/// Of the fields that are watched, `preview_advice` changes only those that are
/// named here, and those only at the versions that carry them.
pub proof fn lemma_preview_advice_keeps(v: int, s: Reading<OrderDataView>)
    ensures
        late(preview_advice(s).value) == (LateFieldsView {
            suggested_size: preview_advice(s).value.order_state.suggested_size,
            reject_reason: preview_advice(s).value.order_state.reject_reason,
            ..late(s.value)
        }),
{
    reveal(preview_advice);
    reveal(OrderStateView::with_suggested_size);
    reveal(OrderStateView::with_reject_reason);
}

/// Of the fields that are watched, `full_order_preview` changes only those that are
/// named here, and those only at the versions that carry them.
pub proof fn lemma_full_order_preview_keeps(v: int, s: Reading<OrderDataView>)
    ensures
        late(full_order_preview(v, s).value) == (LateFieldsView {
            margin_currency: if v >= FULL_ORDER_PREVIEW_FIELDS {
                full_order_preview(v, s).value.order_state.margin_currency
            } else {
                s.value.order_state.margin_currency
            },
            initial_margin_before_outside_rth: if v >= FULL_ORDER_PREVIEW_FIELDS {
                full_order_preview(v, s).value.order_state.initial_margin_before_outside_rth
            } else {
                s.value.order_state.initial_margin_before_outside_rth
            },
            maintenance_margin_before_outside_rth: if v >= FULL_ORDER_PREVIEW_FIELDS {
                full_order_preview(v, s).value.order_state.maintenance_margin_before_outside_rth
            } else {
                s.value.order_state.maintenance_margin_before_outside_rth
            },
            equity_with_loan_before_outside_rth: if v >= FULL_ORDER_PREVIEW_FIELDS {
                full_order_preview(v, s).value.order_state.equity_with_loan_before_outside_rth
            } else {
                s.value.order_state.equity_with_loan_before_outside_rth
            },
            initial_margin_change_outside_rth: if v >= FULL_ORDER_PREVIEW_FIELDS {
                full_order_preview(v, s).value.order_state.initial_margin_change_outside_rth
            } else {
                s.value.order_state.initial_margin_change_outside_rth
            },
            maintenance_margin_change_outside_rth: if v >= FULL_ORDER_PREVIEW_FIELDS {
                full_order_preview(v, s).value.order_state.maintenance_margin_change_outside_rth
            } else {
                s.value.order_state.maintenance_margin_change_outside_rth
            },
            equity_with_loan_change_outside_rth: if v >= FULL_ORDER_PREVIEW_FIELDS {
                full_order_preview(v, s).value.order_state.equity_with_loan_change_outside_rth
            } else {
                s.value.order_state.equity_with_loan_change_outside_rth
            },
            initial_margin_after_outside_rth: if v >= FULL_ORDER_PREVIEW_FIELDS {
                full_order_preview(v, s).value.order_state.initial_margin_after_outside_rth
            } else {
                s.value.order_state.initial_margin_after_outside_rth
            },
            maintenance_margin_after_outside_rth: if v >= FULL_ORDER_PREVIEW_FIELDS {
                full_order_preview(v, s).value.order_state.maintenance_margin_after_outside_rth
            } else {
                s.value.order_state.maintenance_margin_after_outside_rth
            },
            equity_with_loan_after_outside_rth: if v >= FULL_ORDER_PREVIEW_FIELDS {
                full_order_preview(v, s).value.order_state.equity_with_loan_after_outside_rth
            } else {
                s.value.order_state.equity_with_loan_after_outside_rth
            },
            suggested_size: if v >= FULL_ORDER_PREVIEW_FIELDS {
                full_order_preview(v, s).value.order_state.suggested_size
            } else {
                s.value.order_state.suggested_size
            },
            reject_reason: if v >= FULL_ORDER_PREVIEW_FIELDS {
                full_order_preview(v, s).value.order_state.reject_reason
            } else {
                s.value.order_state.reject_reason
            },
            order_allocations: if v >= FULL_ORDER_PREVIEW_FIELDS {
                full_order_preview(v, s).value.order_state.order_allocations
            } else {
                s.value.order_state.order_allocations
            },
            ..late(s.value)
        }),
{
    reveal(full_order_preview);
    lemma_preview_margin_before_keeps(v, s);
    let s1 = preview_margin_before(s);
    if s1.failure is None {
        lemma_preview_margin_change_keeps(v, s1);
    }
    let s2 = if s1.failure is Some {
        s1
    } else {
        preview_margin_change(s1)
    };
    if s2.failure is None {
        lemma_preview_margin_after_keeps(v, s2);
    }
    let s3 = if s2.failure is Some {
        s2
    } else {
        preview_margin_after(s2)
    };
    if s3.failure is None {
        lemma_preview_advice_keeps(v, s3);
    }
    let s4 = if s3.failure is Some {
        s3
    } else {
        preview_advice(s3)
    };
    if s4.failure is None {
        lemma_order_allocations_keeps(v, s4);
    }
    let s5 = if s4.failure is Some {
        s4
    } else {
        order_allocations(s4)
    };
}

/// Of the fields that are watched, `what_if` changes only those that are
/// named here, and those only at the versions that carry them.
pub proof fn lemma_what_if_keeps(v: int, s: Reading<OrderDataView>)
    ensures
        late(what_if(s).value) == (LateFieldsView {
            ..late(s.value)
        }),
{
    reveal(what_if);
    reveal(OrderView::with_what_if);
}

/// Of the fields that are watched, `margin_after` changes only those that are
/// named here, and those only at the versions that carry them.
pub proof fn lemma_margin_after_keeps(v: int, s: Reading<OrderDataView>)
    ensures
        late(margin_after(s).value) == (LateFieldsView {
            ..late(s.value)
        }),
{
    reveal(margin_after);
    reveal(OrderStateView::with_initial_margin_after);
    reveal(OrderStateView::with_maintenance_margin_after);
    reveal(OrderStateView::with_equity_with_loan_after);
}

/// Of the fields that are watched, `commission` changes only those that are
/// named here, and those only at the versions that carry them.
pub proof fn lemma_commission_keeps(v: int, s: Reading<OrderDataView>)
    ensures
        late(commission(s).value) == (LateFieldsView {
            ..late(s.value)
        }),
{
    reveal(commission);
    reveal(OrderStateView::with_commission);
    reveal(OrderStateView::with_minimum_commission);
    reveal(OrderStateView::with_maximum_commission);
    reveal(OrderStateView::with_commission_currency);
}

/// Of the fields that are watched, `margin_after_and_commission` changes only those that are
/// named here, and those only at the versions that carry them.
pub proof fn lemma_margin_after_and_commission_keeps(v: int, s: Reading<OrderDataView>)
    ensures
        late(margin_after_and_commission(s).value) == (LateFieldsView {
            ..late(s.value)
        }),
{
    reveal(margin_after_and_commission);
    lemma_margin_after_keeps(v, s);
    let s1 = margin_after(s);
    if s1.failure is None {
        lemma_commission_keeps(v, s1);
    }
    let s2 = if s1.failure is Some {
        s1
    } else {
        commission(s1)
    };
}

/// Of the fields that are watched, `warning_text` changes only those that are
/// named here, and those only at the versions that carry them.
pub proof fn lemma_warning_text_keeps(v: int, s: Reading<OrderDataView>)
    ensures
        late(warning_text(s).value) == (LateFieldsView {
            ..late(s.value)
        }),
{
    reveal(warning_text);
    reveal(OrderStateView::with_warning_text);
}

/// Of the fields that are watched, `what_if_info_and_commission` changes only those that are
/// named here, and those only at the versions that carry them.
pub proof fn lemma_what_if_info_and_commission_keeps(v: int, s: Reading<OrderDataView>)
    ensures
        late(what_if_info_and_commission(v, s).value) == (LateFieldsView {
            margin_currency: if v >= FULL_ORDER_PREVIEW_FIELDS {
                what_if_info_and_commission(v, s).value.order_state.margin_currency
            } else {
                s.value.order_state.margin_currency
            },
            initial_margin_before_outside_rth: if v >= FULL_ORDER_PREVIEW_FIELDS {
                what_if_info_and_commission(v, s).value.order_state.initial_margin_before_outside_rth
            } else {
                s.value.order_state.initial_margin_before_outside_rth
            },
            maintenance_margin_before_outside_rth: if v >= FULL_ORDER_PREVIEW_FIELDS {
                what_if_info_and_commission(v, s).value.order_state.maintenance_margin_before_outside_rth
            } else {
                s.value.order_state.maintenance_margin_before_outside_rth
            },
            equity_with_loan_before_outside_rth: if v >= FULL_ORDER_PREVIEW_FIELDS {
                what_if_info_and_commission(v, s).value.order_state.equity_with_loan_before_outside_rth
            } else {
                s.value.order_state.equity_with_loan_before_outside_rth
            },
            initial_margin_change_outside_rth: if v >= FULL_ORDER_PREVIEW_FIELDS {
                what_if_info_and_commission(v, s).value.order_state.initial_margin_change_outside_rth
            } else {
                s.value.order_state.initial_margin_change_outside_rth
            },
            maintenance_margin_change_outside_rth: if v >= FULL_ORDER_PREVIEW_FIELDS {
                what_if_info_and_commission(v, s).value.order_state.maintenance_margin_change_outside_rth
            } else {
                s.value.order_state.maintenance_margin_change_outside_rth
            },
            equity_with_loan_change_outside_rth: if v >= FULL_ORDER_PREVIEW_FIELDS {
                what_if_info_and_commission(v, s).value.order_state.equity_with_loan_change_outside_rth
            } else {
                s.value.order_state.equity_with_loan_change_outside_rth
            },
            initial_margin_after_outside_rth: if v >= FULL_ORDER_PREVIEW_FIELDS {
                what_if_info_and_commission(v, s).value.order_state.initial_margin_after_outside_rth
            } else {
                s.value.order_state.initial_margin_after_outside_rth
            },
            maintenance_margin_after_outside_rth: if v >= FULL_ORDER_PREVIEW_FIELDS {
                what_if_info_and_commission(v, s).value.order_state.maintenance_margin_after_outside_rth
            } else {
                s.value.order_state.maintenance_margin_after_outside_rth
            },
            equity_with_loan_after_outside_rth: if v >= FULL_ORDER_PREVIEW_FIELDS {
                what_if_info_and_commission(v, s).value.order_state.equity_with_loan_after_outside_rth
            } else {
                s.value.order_state.equity_with_loan_after_outside_rth
            },
            suggested_size: if v >= FULL_ORDER_PREVIEW_FIELDS {
                what_if_info_and_commission(v, s).value.order_state.suggested_size
            } else {
                s.value.order_state.suggested_size
            },
            reject_reason: if v >= FULL_ORDER_PREVIEW_FIELDS {
                what_if_info_and_commission(v, s).value.order_state.reject_reason
            } else {
                s.value.order_state.reject_reason
            },
            order_allocations: if v >= FULL_ORDER_PREVIEW_FIELDS {
                what_if_info_and_commission(v, s).value.order_state.order_allocations
            } else {
                s.value.order_state.order_allocations
            },
            ..late(s.value)
        }),
{
    reveal(what_if_info_and_commission);
    lemma_what_if_keeps(v, s);
    let s1 = what_if(s);
    if s1.failure is None {
        lemma_order_status_keeps(v, s1);
    }
    let s2 = if s1.failure is Some {
        s1
    } else {
        order_status(s1)
    };
    if s2.failure is None {
        lemma_margin_before_and_change_keeps(v, s2);
    }
    let s3 = if s2.failure is Some {
        s2
    } else {
        margin_before_and_change(v, s2)
    };
    if s3.failure is None {
        lemma_margin_after_and_commission_keeps(v, s3);
    }
    let s4 = if s3.failure is Some {
        s3
    } else {
        margin_after_and_commission(s3)
    };
    if s4.failure is None {
        lemma_full_order_preview_keeps(v, s4);
    }
    let s5 = if s4.failure is Some {
        s4
    } else {
        full_order_preview(v, s4)
    };
    if s5.failure is None {
        lemma_warning_text_keeps(v, s5);
    }
    let s6 = if s5.failure is Some {
        s5
    } else {
        warning_text(s5)
    };
}

/// Of the fields that are watched, `vol_randomize_flags` changes only those that are
/// named here, and those only at the versions that carry them.
pub proof fn lemma_vol_randomize_flags_keeps(v: int, s: Reading<OrderDataView>)
    ensures
        late(vol_randomize_flags(s).value) == (LateFieldsView {
            ..late(s.value)
        }),
{
    reveal(vol_randomize_flags);
    reveal(OrderView::with_randomize_size);
    reveal(OrderView::with_randomize_price);
}

/// Of the fields that are watched, `benchmark_reference` changes only those that are
/// named here, and those only at the versions that carry them.
pub proof fn lemma_benchmark_reference_keeps(v: int, s: Reading<OrderDataView>)
    ensures
        late(benchmark_reference(s).value) == (LateFieldsView {
            ..late(s.value)
        }),
{
    reveal(benchmark_reference);
    reveal(OrderView::with_reference_contract_id);
    reveal(OrderView::with_is_pegged_change_amount_decrease);
}

/// Of the fields that are watched, `benchmark_amounts` changes only those that are
/// named here, and those only at the versions that carry them.
pub proof fn lemma_benchmark_amounts_keeps(v: int, s: Reading<OrderDataView>)
    ensures
        late(benchmark_amounts(s).value) == (LateFieldsView {
            ..late(s.value)
        }),
{
    reveal(benchmark_amounts);
    reveal(OrderView::with_pegged_change_amount);
    reveal(OrderView::with_reference_change_amount);
    reveal(OrderView::with_reference_exchange);
}

/// Of the fields that are watched, `peg_to_bench_params` changes only those that are
/// named here, and those only at the versions that carry them.
pub proof fn lemma_peg_to_bench_params_keeps(v: int, s: Reading<OrderDataView>)
    ensures
        late(peg_to_bench_params(v, s).value) == (LateFieldsView {
            ..late(s.value)
        }),
{
    reveal(peg_to_bench_params);
    lemma_benchmark_reference_keeps(v, s);
    let s1 = benchmark_reference(s);
    if s1.failure is None {
        lemma_benchmark_amounts_keeps(v, s1);
    }
    let s2 = if s1.failure is Some {
        s1
    } else {
        benchmark_amounts(s1)
    };
}

/// Of the fields that are watched, `condition_entry` changes only those that are
/// named here, and those only at the versions that carry them.
pub proof fn lemma_condition_entry_keeps(v: int, s: Reading<OrderDataView>)
    ensures
        late(condition_entry(s).value) == (LateFieldsView {
            ..late(s.value)
        }),
{
    reveal(condition_entry);
    reveal(OrderView::with_conditions);
}

/// Of the fields that are watched, `condition_flags` changes only those that are
/// named here, and those only at the versions that carry them.
pub proof fn lemma_condition_flags_keeps(v: int, s: Reading<OrderDataView>)
    ensures
        late(condition_flags(s).value) == (LateFieldsView {
            ..late(s.value)
        }),
{
    reveal(condition_flags);
    reveal(OrderView::with_conditions_ignore_rth);
    reveal(OrderView::with_conditions_cancel_order);
}

/// Of the fields that are watched, a run of `condition_entry` changes only
/// those that the entry changes.
pub proof fn lemma_condition_run_keeps(v: int, s: Reading<OrderDataView>, count: int)
    ensures
        late(condition_run(s, count).value) == (LateFieldsView {
            ..late(s.value)
        }),
    decreases count,
{
    if count > 0 && s.failure is None {
        lemma_condition_entry_keeps(v, s);
        lemma_condition_run_keeps(v, condition_entry(s), count - 1);
    }
}

/// Of the fields that are watched, `conditions` changes only those that are
/// named here, and those only at the versions that carry them.
pub proof fn lemma_conditions_keeps(v: int, s: Reading<OrderDataView>)
    ensures
        late(conditions(v, s).value) == (LateFieldsView {
            ..late(s.value)
        }),
{
    reveal(conditions);
    match s.message.read_int() {
        Ok(count) => {
            lemma_condition_run_keeps(v, s.skip(), count);
            lemma_condition_flags_keeps(v, condition_run(s.skip(), count));
        },
        Err(_) => {},
    }
}

/// Of the fields that are watched, `adjusted_order` changes only those that are
/// named here, and those only at the versions that carry them.
pub proof fn lemma_adjusted_order_keeps(v: int, s: Reading<OrderDataView>)
    ensures
        late(adjusted_order(s).value) == (LateFieldsView {
            ..late(s.value)
        }),
{
    reveal(adjusted_order);
    reveal(OrderView::with_adjusted_order_type);
    reveal(OrderView::with_trigger_price);
    reveal(OrderView::with_trail_stop_price);
    reveal(OrderView::with_limit_price_offset);
}

/// Of the fields that are watched, `adjusted_stops` changes only those that are
/// named here, and those only at the versions that carry them.
pub proof fn lemma_adjusted_stops_keeps(v: int, s: Reading<OrderDataView>)
    ensures
        late(adjusted_stops(s).value) == (LateFieldsView {
            ..late(s.value)
        }),
{
    reveal(adjusted_stops);
    reveal(OrderView::with_adjusted_stop_price);
    reveal(OrderView::with_adjusted_stop_limit_price);
    reveal(OrderView::with_adjusted_trailing_amount);
    reveal(OrderView::with_adjustable_trailing_unit);
}

/// Of the fields that are watched, `adjusted_order_params` changes only those that are
/// named here, and those only at the versions that carry them.
pub proof fn lemma_adjusted_order_params_keeps(v: int, s: Reading<OrderDataView>)
    ensures
        late(adjusted_order_params(v, s).value) == (LateFieldsView {
            ..late(s.value)
        }),
{
    reveal(adjusted_order_params);
    lemma_adjusted_order_keeps(v, s);
    let s1 = adjusted_order(s);
    if s1.failure is None {
        lemma_adjusted_stops_keeps(v, s1);
    }
    let s2 = if s1.failure is Some {
        s1
    } else {
        adjusted_stops(s1)
    };
}

/// Of the fields that are watched, `soft_dollar_tier` changes only those that are
/// named here, and those only at the versions that carry them.
pub proof fn lemma_soft_dollar_tier_keeps(v: int, s: Reading<OrderDataView>)
    ensures
        late(soft_dollar_tier(v, s).value) == (LateFieldsView {
            soft_dollar_tier: if v >= SOFT_DOLLAR_TIER {
                soft_dollar_tier(v, s).value.order.soft_dollar_tier
            } else {
                s.value.order.soft_dollar_tier
            },
            ..late(s.value)
        }),
{
    reveal(soft_dollar_tier);
    reveal(OrderView::with_soft_dollar_tier);
}

/// Of the fields that are watched, `cash_qty` changes only those that are
/// named here, and those only at the versions that carry them.
pub proof fn lemma_cash_qty_keeps(v: int, s: Reading<OrderDataView>)
    ensures
        late(cash_qty(v, s).value) == (LateFieldsView {
            cash_qty: if v >= CASH_QTY {
                cash_qty(v, s).value.order.cash_qty
            } else {
                s.value.order.cash_qty
            },
            ..late(s.value)
        }),
{
    reveal(cash_qty);
    reveal(OrderView::with_cash_qty);
}

/// Of the fields that are watched, `dont_use_auto_price_for_hedge` changes only those that are
/// named here, and those only at the versions that carry them.
pub proof fn lemma_dont_use_auto_price_for_hedge_keeps(v: int, s: Reading<OrderDataView>)
    ensures
        late(dont_use_auto_price_for_hedge(v, s).value) == (LateFieldsView {
            ..late(s.value)
        }),
{
    reveal(dont_use_auto_price_for_hedge);
    reveal(OrderView::with_dont_use_auto_price_for_hedge);
}

/// Of the fields that are watched, `is_oms_container` changes only those that are
/// named here, and those only at the versions that carry them.
pub proof fn lemma_is_oms_container_keeps(v: int, s: Reading<OrderDataView>)
    ensures
        late(is_oms_container(v, s).value) == (LateFieldsView {
            ..late(s.value)
        }),
{
    reveal(is_oms_container);
    reveal(OrderView::with_is_oms_container);
}

/// Of the fields that are watched, `discretionary_up_to_limit_price` changes only those that are
/// named here, and those only at the versions that carry them.
pub proof fn lemma_discretionary_up_to_limit_price_keeps(v: int, s: Reading<OrderDataView>)
    ensures
        late(discretionary_up_to_limit_price(v, s).value) == (LateFieldsView {
            ..late(s.value)
        }),
{
    reveal(discretionary_up_to_limit_price);
    reveal(OrderView::with_discretionary_up_to_limit_price);
}

/// Of the fields that are watched, `use_price_mgmt_algo` changes only those that are
/// named here, and those only at the versions that carry them.
pub proof fn lemma_use_price_mgmt_algo_keeps(v: int, s: Reading<OrderDataView>)
    ensures
        late(use_price_mgmt_algo(v, s).value) == (LateFieldsView {
            ..late(s.value)
        }),
{
    reveal(use_price_mgmt_algo);
    reveal(OrderView::with_use_price_mgmt_algo);
}

/// Of the fields that are watched, `duration` changes only those that are
/// named here, and those only at the versions that carry them.
pub proof fn lemma_duration_keeps(v: int, s: Reading<OrderDataView>)
    ensures
        late(duration(v, s).value) == (LateFieldsView {
            duration: if v >= DURATION {
                duration(v, s).value.order.duration
            } else {
                s.value.order.duration
            },
            ..late(s.value)
        }),
{
    reveal(duration);
    reveal(OrderView::with_duration);
}

/// Of the fields that are watched, `post_to_ats` changes only those that are
/// named here, and those only at the versions that carry them.
pub proof fn lemma_post_to_ats_keeps(v: int, s: Reading<OrderDataView>)
    ensures
        late(post_to_ats(v, s).value) == (LateFieldsView {
            post_to_ats: if v >= POST_TO_ATS {
                post_to_ats(v, s).value.order.post_to_ats
            } else {
                s.value.order.post_to_ats
            },
            ..late(s.value)
        }),
{
    reveal(post_to_ats);
    reveal(OrderView::with_post_to_ats);
}

/// Of the fields that are watched, `auto_cancel_parent` changes only those that are
/// named here, and those only at the versions that carry them.
pub proof fn lemma_auto_cancel_parent_keeps(v: int, s: Reading<OrderDataView>)
    ensures
        late(auto_cancel_parent(v, s).value) == (LateFieldsView {
            auto_cancel_parent: if v >= AUTO_CANCEL_PARENT {
                auto_cancel_parent(v, s).value.order.auto_cancel_parent
            } else {
                s.value.order.auto_cancel_parent
            },
            ..late(s.value)
        }),
{
    reveal(auto_cancel_parent);
    reveal(OrderView::with_auto_cancel_parent);
}

/// Of the fields that are watched, `peg_best_sizes` changes only those that are
/// named here, and those only at the versions that carry them.
pub proof fn lemma_peg_best_sizes_keeps(v: int, s: Reading<OrderDataView>)
    ensures
        late(peg_best_sizes(s).value) == (LateFieldsView {
            min_trade_qty: peg_best_sizes(s).value.order.min_trade_qty,
            min_compete_size: peg_best_sizes(s).value.order.min_compete_size,
            ..late(s.value)
        }),
{
    reveal(peg_best_sizes);
    reveal(OrderView::with_min_trade_qty);
    reveal(OrderView::with_min_compete_size);
}

/// Of the fields that are watched, `peg_best_offsets` changes only those that are
/// named here, and those only at the versions that carry them.
pub proof fn lemma_peg_best_offsets_keeps(v: int, s: Reading<OrderDataView>)
    ensures
        late(peg_best_offsets(s).value) == (LateFieldsView {
            compete_against_best_offset: peg_best_offsets(s).value.order.compete_against_best_offset,
            mid_offset_at_whole: peg_best_offsets(s).value.order.mid_offset_at_whole,
            mid_offset_at_half: peg_best_offsets(s).value.order.mid_offset_at_half,
            ..late(s.value)
        }),
{
    reveal(peg_best_offsets);
    reveal(OrderView::with_compete_against_best_offset);
    reveal(OrderView::with_mid_offset_at_whole);
    reveal(OrderView::with_mid_offset_at_half);
}

/// Of the fields that are watched, `peg_best_peg_mid_order_attributes` changes only those that are
/// named here, and those only at the versions that carry them.
pub proof fn lemma_peg_best_peg_mid_order_attributes_keeps(v: int, s: Reading<OrderDataView>)
    ensures
        late(peg_best_peg_mid_order_attributes(v, s).value) == (LateFieldsView {
            min_trade_qty: if v >= PEGBEST_PEGMID_OFFSETS {
                peg_best_peg_mid_order_attributes(v, s).value.order.min_trade_qty
            } else {
                s.value.order.min_trade_qty
            },
            min_compete_size: if v >= PEGBEST_PEGMID_OFFSETS {
                peg_best_peg_mid_order_attributes(v, s).value.order.min_compete_size
            } else {
                s.value.order.min_compete_size
            },
            compete_against_best_offset: if v >= PEGBEST_PEGMID_OFFSETS {
                peg_best_peg_mid_order_attributes(v, s).value.order.compete_against_best_offset
            } else {
                s.value.order.compete_against_best_offset
            },
            mid_offset_at_whole: if v >= PEGBEST_PEGMID_OFFSETS {
                peg_best_peg_mid_order_attributes(v, s).value.order.mid_offset_at_whole
            } else {
                s.value.order.mid_offset_at_whole
            },
            mid_offset_at_half: if v >= PEGBEST_PEGMID_OFFSETS {
                peg_best_peg_mid_order_attributes(v, s).value.order.mid_offset_at_half
            } else {
                s.value.order.mid_offset_at_half
            },
            ..late(s.value)
        }),
{
    reveal(peg_best_peg_mid_order_attributes);
    lemma_peg_best_sizes_keeps(v, s);
    let s1 = peg_best_sizes(s);
    if s1.failure is None {
        lemma_peg_best_offsets_keeps(v, s1);
    }
    let s2 = if s1.failure is Some {
        s1
    } else {
        peg_best_offsets(s1)
    };
}

/// Of the fields that are watched, `customer_account` changes only those that are
/// named here, and those only at the versions that carry them.
pub proof fn lemma_customer_account_keeps(v: int, s: Reading<OrderDataView>)
    ensures
        late(customer_account(v, s).value) == (LateFieldsView {
            customer_account: if v >= CUSTOMER_ACCOUNT {
                customer_account(v, s).value.order.customer_account
            } else {
                s.value.order.customer_account
            },
            ..late(s.value)
        }),
{
    reveal(customer_account);
    reveal(OrderView::with_customer_account);
}

/// Of the fields that are watched, `professional_customer` changes only those that are
/// named here, and those only at the versions that carry them.
pub proof fn lemma_professional_customer_keeps(v: int, s: Reading<OrderDataView>)
    ensures
        late(professional_customer(v, s).value) == (LateFieldsView {
            professional_customer: if v >= PROFESSIONAL_CUSTOMER {
                professional_customer(v, s).value.order.professional_customer
            } else {
                s.value.order.professional_customer
            },
            ..late(s.value)
        }),
{
    reveal(professional_customer);
    reveal(OrderView::with_professional_customer);
}

/// Of the fields that are watched, `bond_accrued_interest` changes only those that are
/// named here, and those only at the versions that carry them.
pub proof fn lemma_bond_accrued_interest_keeps(v: int, s: Reading<OrderDataView>)
    ensures
        late(bond_accrued_interest(v, s).value) == (LateFieldsView {
            bond_accrued_interest: if v >= BOND_ACCRUED_INTEREST {
                bond_accrued_interest(v, s).value.order.bond_accrued_interest
            } else {
                s.value.order.bond_accrued_interest
            },
            ..late(s.value)
        }),
{
    reveal(bond_accrued_interest);
    reveal(OrderView::with_bond_accrued_interest);
}

/// Of the fields that are watched, `include_overnight` changes only those that are
/// named here, and those only at the versions that carry them.
pub proof fn lemma_include_overnight_keeps(v: int, s: Reading<OrderDataView>)
    ensures
        late(include_overnight(v, s).value) == (LateFieldsView {
            include_overnight: if v >= INCLUDE_OVERNIGHT {
                include_overnight(v, s).value.order.include_overnight
            } else {
                s.value.order.include_overnight
            },
            ..late(s.value)
        }),
{
    reveal(include_overnight);
    reveal(OrderView::with_include_overnight);
}

/// Of the fields that are watched, `cme_tagging_fields` changes only those that are
/// named here, and those only at the versions that carry them.
pub proof fn lemma_cme_tagging_fields_keeps(v: int, s: Reading<OrderDataView>)
    ensures
        late(cme_tagging_fields(v, s).value) == (LateFieldsView {
            ext_operator: if v >= CME_TAGGING_FIELDS_IN_OPEN_ORDER {
                cme_tagging_fields(v, s).value.order.ext_operator
            } else {
                s.value.order.ext_operator
            },
            manual_order_indicator: if v >= CME_TAGGING_FIELDS_IN_OPEN_ORDER {
                cme_tagging_fields(v, s).value.order.manual_order_indicator
            } else {
                s.value.order.manual_order_indicator
            },
            ..late(s.value)
        }),
{
    reveal(cme_tagging_fields);
    reveal(OrderView::with_ext_operator);
    reveal(OrderView::with_manual_order_indicator);
}

/// Of the fields that are watched, `submitter` changes only those that are
/// named here, and those only at the versions that carry them.
pub proof fn lemma_submitter_keeps(v: int, s: Reading<OrderDataView>)
    ensures
        late(submitter(v, s).value) == (LateFieldsView {
            submitter: if v >= SUBMITTER {
                submitter(v, s).value.order.submitter
            } else {
                s.value.order.submitter
            },
            ..late(s.value)
        }),
{
    reveal(submitter);
    reveal(OrderView::with_submitter);
}

/// Of the fields that are watched, `stop_price_and_limit_price_offset` changes only those that are
/// named here, and those only at the versions that carry them.
pub proof fn lemma_stop_price_and_limit_price_offset_keeps(v: int, s: Reading<OrderDataView>)
    ensures
        late(stop_price_and_limit_price_offset(s).value) == (LateFieldsView {
            ..late(s.value)
        }),
{
    reveal(stop_price_and_limit_price_offset);
    reveal(OrderView::with_trail_stop_price);
    reveal(OrderView::with_limit_price_offset);
}

/// Of the fields that are watched, `auto_cancel_date` changes only those that are
/// named here, and those only at the versions that carry them.
pub proof fn lemma_auto_cancel_date_keeps(v: int, s: Reading<OrderDataView>)
    ensures
        late(auto_cancel_date(s).value) == (LateFieldsView {
            ..late(s.value)
        }),
{
    reveal(auto_cancel_date);
    reveal(OrderView::with_auto_cancel_date);
}

/// Of the fields that are watched, `filled_quantity` changes only those that are
/// named here, and those only at the versions that carry them.
pub proof fn lemma_filled_quantity_keeps(v: int, s: Reading<OrderDataView>)
    ensures
        late(filled_quantity(s).value) == (LateFieldsView {
            ..late(s.value)
        }),
{
    reveal(filled_quantity);
    reveal(OrderView::with_filled_quantity);
}

/// Of the fields that are watched, `ref_futures_contract_id` changes only those that are
/// named here, and those only at the versions that carry them.
pub proof fn lemma_ref_futures_contract_id_keeps(v: int, s: Reading<OrderDataView>)
    ensures
        late(ref_futures_contract_id(s).value) == (LateFieldsView {
            ..late(s.value)
        }),
{
    reveal(ref_futures_contract_id);
    reveal(OrderView::with_ref_futures_con_id);
}

/// Of the fields that are watched, `shareholder` changes only those that are
/// named here, and those only at the versions that carry them.
pub proof fn lemma_shareholder_keeps(v: int, s: Reading<OrderDataView>)
    ensures
        late(shareholder(s).value) == (LateFieldsView {
            ..late(s.value)
        }),
{
    reveal(shareholder);
    reveal(OrderView::with_shareholder);
}

/// Of the fields that are watched, `imbalance_only` changes only those that are
/// named here, and those only at the versions that carry them.
pub proof fn lemma_imbalance_only_keeps(v: int, s: Reading<OrderDataView>)
    ensures
        late(imbalance_only(v, s).value) == (LateFieldsView {
            imbalance_only: if v >= IMBALANCE_ONLY {
                imbalance_only(v, s).value.order.imbalance_only
            } else {
                s.value.order.imbalance_only
            },
            ..late(s.value)
        }),
{
    reveal(imbalance_only);
    reveal(OrderView::with_imbalance_only);
}

/// Of the fields that are watched, `imbalance_only_always` changes only those that are
/// named here, and those only at the versions that carry them.
pub proof fn lemma_imbalance_only_always_keeps(v: int, s: Reading<OrderDataView>)
    ensures
        late(imbalance_only_always(s).value) == (LateFieldsView {
            imbalance_only: imbalance_only_always(s).value.order.imbalance_only,
            ..late(s.value)
        }),
{
    reveal(imbalance_only_always);
    reveal(OrderView::with_imbalance_only);
}

/// Of the fields that are watched, `route_marketable_to_bbo` changes only those that are
/// named here, and those only at the versions that carry them.
pub proof fn lemma_route_marketable_to_bbo_keeps(v: int, s: Reading<OrderDataView>)
    ensures
        late(route_marketable_to_bbo(s).value) == (LateFieldsView {
            ..late(s.value)
        }),
{
    reveal(route_marketable_to_bbo);
    reveal(OrderView::with_route_marketable_to_bbo);
}

/// Of the fields that are watched, `parent_perm_id` changes only those that are
/// named here, and those only at the versions that carry them.
pub proof fn lemma_parent_perm_id_keeps(v: int, s: Reading<OrderDataView>)
    ensures
        late(parent_perm_id(s).value) == (LateFieldsView {
            ..late(s.value)
        }),
{
    reveal(parent_perm_id);
    reveal(OrderView::with_parent_perm_id);
}

/// Of the fields that are watched, `completed_time` changes only those that are
/// named here, and those only at the versions that carry them.
pub proof fn lemma_completed_time_keeps(v: int, s: Reading<OrderDataView>)
    ensures
        late(completed_time(s).value) == (LateFieldsView {
            ..late(s.value)
        }),
{
    reveal(completed_time);
    reveal(OrderStateView::with_completed_time);
}

/// Of the fields that are watched, `completed_status` changes only those that are
/// named here, and those only at the versions that carry them.
pub proof fn lemma_completed_status_keeps(v: int, s: Reading<OrderDataView>)
    ensures
        late(completed_status(s).value) == (LateFieldsView {
            ..late(s.value)
        }),
{
    reveal(completed_status);
    reveal(OrderStateView::with_completed_status);
}

} // verus!

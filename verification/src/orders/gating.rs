//! What the negotiated version decides: a block that belongs to later
//! versions is not read at an earlier one, the fields of such a block keep
//! the values of an empty record, and the router finds the key of a frame
//! where the decoder reads it.

use vstd::prelude::*;
use crate::errors::ErrorView;
use crate::messages::MessageView;
use crate::numeric::zero_text;
use crate::router::route_of;
use crate::router::Route;
use crate::router::RoutingKey;
use crate::router::EXECUTION_DATA;
use crate::router::OPEN_ORDER;
use crate::router::ORDER_STATUS;
use crate::orders::decoders::account;
use crate::orders::decoders::action;
use crate::orders::decoders::adjusted_order;
use crate::orders::decoders::adjusted_order_params;
use crate::orders::decoders::adjusted_stops;
use crate::orders::decoders::algo_param_entry;
use crate::orders::decoders::algo_param_list;
use crate::orders::decoders::algo_param_run;
use crate::orders::decoders::algo_params;
use crate::orders::decoders::algo_strategy;
use crate::orders::decoders::all_or_none;
use crate::orders::decoders::auction_strategy;
use crate::orders::decoders::auto_cancel_date;
use crate::orders::decoders::auto_cancel_parent;
use crate::orders::decoders::aux_price;
use crate::orders::decoders::basis_points;
use crate::orders::decoders::begin;
use crate::orders::decoders::benchmark_amounts;
use crate::orders::decoders::benchmark_reference;
use crate::orders::decoders::block_order;
use crate::orders::decoders::bond_accrued_interest;
use crate::orders::decoders::box_order_params;
use crate::orders::decoders::cash_qty;
use crate::orders::decoders::clearing_params;
use crate::orders::decoders::client_id;
use crate::orders::decoders::cme_tagging_fields;
use crate::orders::decoders::combo_leg_entry;
use crate::orders::decoders::combo_leg_run;
use crate::orders::decoders::combo_legs;
use crate::orders::decoders::combo_legs_description;
use crate::orders::decoders::commission;
use crate::orders::decoders::completed_order;
use crate::orders::decoders::completed_order_additions;
use crate::orders::decoders::completed_order_base;
use crate::orders::decoders::completed_order_completion;
use crate::orders::decoders::completed_order_fill;
use crate::orders::decoders::completed_order_filling;
use crate::orders::decoders::completed_order_handling;
use crate::orders::decoders::completed_order_header;
use crate::orders::decoders::completed_order_report;
use crate::orders::decoders::completed_order_routing;
use crate::orders::decoders::completed_order_strategy;
use crate::orders::decoders::completed_status;
use crate::orders::decoders::completed_time;
use crate::orders::decoders::condition_entry;
use crate::orders::decoders::condition_flags;
use crate::orders::decoders::condition_run;
use crate::orders::decoders::conditions;
use crate::orders::decoders::contract_combo_legs;
use crate::orders::decoders::contract_fields;
use crate::orders::decoders::contract_identity;
use crate::orders::decoders::contract_listing;
use crate::orders::decoders::contract_terms;
use crate::orders::decoders::customer_account;
use crate::orders::decoders::delta_neutral;
use crate::orders::decoders::delta_neutral_attributes;
use crate::orders::decoders::delta_neutral_con_id;
use crate::orders::decoders::delta_neutral_contract;
use crate::orders::decoders::delta_neutral_hedge;
use crate::orders::decoders::delta_neutral_short_sale;
use crate::orders::decoders::discretionary_amt;
use crate::orders::decoders::discretionary_up_to_limit_price;
use crate::orders::decoders::display_size;
use crate::orders::decoders::dont_use_auto_price_for_hedge;
use crate::orders::decoders::duration;
use crate::orders::decoders::execution_contract;
use crate::orders::decoders::execution_data_message;
use crate::orders::decoders::execution_details;
use crate::orders::decoders::execution_ids;
use crate::orders::decoders::execution_last_liquidity;
use crate::orders::decoders::execution_model_code;
use crate::orders::decoders::execution_pending_price_revision;
use crate::orders::decoders::execution_submitter;
use crate::orders::decoders::fa_allocation;
use crate::orders::decoders::fa_params;
use crate::orders::decoders::fa_profile;
use crate::orders::decoders::filled_quantity;
use crate::orders::decoders::full_order_preview;
use crate::orders::decoders::good_after_time;
use crate::orders::decoders::good_till_date;
use crate::orders::decoders::hedge_param;
use crate::orders::decoders::hedge_params;
use crate::orders::decoders::hedge_type;
use crate::orders::decoders::hidden;
use crate::orders::decoders::imbalance_only;
use crate::orders::decoders::imbalance_only_always;
use crate::orders::decoders::include_overnight;
use crate::orders::decoders::is_oms_container;
use crate::orders::decoders::limit_price;
use crate::orders::decoders::margin_after;
use crate::orders::decoders::margin_after_and_commission;
use crate::orders::decoders::margin_before;
use crate::orders::decoders::margin_before_and_change;
use crate::orders::decoders::margin_change;
use crate::orders::decoders::min_qty;
use crate::orders::decoders::model_code;
use crate::orders::decoders::not_held;
use crate::orders::decoders::oca_group;
use crate::orders::decoders::oca_type;
use crate::orders::decoders::open_close;
use crate::orders::decoders::open_order;
use crate::orders::decoders::open_order_additions;
use crate::orders::decoders::open_order_base;
use crate::orders::decoders::open_order_extensions;
use crate::orders::decoders::open_order_filling;
use crate::orders::decoders::open_order_handling;
use crate::orders::decoders::open_order_header;
use crate::orders::decoders::open_order_report;
use crate::orders::decoders::open_order_routing;
use crate::orders::decoders::open_order_strategy;
use crate::orders::decoders::opt_out_smart_routing;
use crate::orders::decoders::order_allocation_entry;
use crate::orders::decoders::order_allocation_run;
use crate::orders::decoders::order_allocations;
use crate::orders::decoders::order_combo_leg_entry;
use crate::orders::decoders::order_combo_leg_run;
use crate::orders::decoders::order_combo_legs;
use crate::orders::decoders::order_id;
use crate::orders::decoders::order_ref;
use crate::orders::decoders::order_status;
use crate::orders::decoders::order_status_message;
use crate::orders::decoders::order_type;
use crate::orders::decoders::origin;
use crate::orders::decoders::outside_rth;
use crate::orders::decoders::parent_id;
use crate::orders::decoders::parent_perm_id;
use crate::orders::decoders::peg_bench;
use crate::orders::decoders::peg_best_offsets;
use crate::orders::decoders::peg_best_peg_mid_order_attributes;
use crate::orders::decoders::peg_best_sizes;
use crate::orders::decoders::peg_to_bench_params;
use crate::orders::decoders::peg_to_stock_or_vol_order_params;
use crate::orders::decoders::percent_offset;
use crate::orders::decoders::perm_id;
use crate::orders::decoders::post_to_ats;
use crate::orders::decoders::preview_advice;
use crate::orders::decoders::preview_margin_after;
use crate::orders::decoders::preview_margin_before;
use crate::orders::decoders::preview_margin_change;
use crate::orders::decoders::professional_customer;
use crate::orders::decoders::ref_futures_contract_id;
use crate::orders::decoders::route_marketable_to_bbo;
use crate::orders::decoders::rule_80_a;
use crate::orders::decoders::scale_levels;
use crate::orders::decoders::scale_order_params;
use crate::orders::decoders::scale_position;
use crate::orders::decoders::scale_price_adjustment;
use crate::orders::decoders::scale_table;
use crate::orders::decoders::settling_firm;
use crate::orders::decoders::shareholder;
use crate::orders::decoders::short_sale_params;
use crate::orders::decoders::smart_combo_routing_entry;
use crate::orders::decoders::smart_combo_routing_params;
use crate::orders::decoders::smart_combo_routing_run;
use crate::orders::decoders::soft_dollar_tier;
use crate::orders::decoders::solicited;
use crate::orders::decoders::stop_price_and_limit_price_offset;
use crate::orders::decoders::submitter;
use crate::orders::decoders::sweep_to_fill;
use crate::orders::decoders::tif;
use crate::orders::decoders::total_quantity;
use crate::orders::decoders::trail_params;
use crate::orders::decoders::trigger_method;
use crate::orders::decoders::use_price_mgmt_algo;
use crate::orders::decoders::vol_randomize_flags;
use crate::orders::decoders::volatility;
use crate::orders::decoders::volatility_order_params;
use crate::orders::decoders::volatility_reference;
use crate::orders::decoders::warning_text;
use crate::orders::decoders::what_if;
use crate::orders::decoders::what_if_info_and_commission;
use crate::contracts::ContractView;
use crate::contracts::TagValueView;
use crate::orders::OrderAllocationView;
use crate::orders::OrderStateView;
use crate::orders::ExecutionView;
use crate::orders::Liquidity;
use crate::orders::OrderView;
use crate::orders::SoftDollarTierView;
use crate::orders::footprint::LateFieldsView;
use crate::orders::footprint::late;
use crate::orders::footprint::lemma_account_keeps;
use crate::orders::footprint::lemma_action_keeps;
use crate::orders::footprint::lemma_adjusted_order_keeps;
use crate::orders::footprint::lemma_adjusted_order_params_keeps;
use crate::orders::footprint::lemma_adjusted_stops_keeps;
use crate::orders::footprint::lemma_algo_param_entry_keeps;
use crate::orders::footprint::lemma_algo_param_list_keeps;
use crate::orders::footprint::lemma_algo_param_run_keeps;
use crate::orders::footprint::lemma_algo_params_keeps;
use crate::orders::footprint::lemma_algo_strategy_keeps;
use crate::orders::footprint::lemma_all_or_none_keeps;
use crate::orders::footprint::lemma_auction_strategy_keeps;
use crate::orders::footprint::lemma_auto_cancel_date_keeps;
use crate::orders::footprint::lemma_auto_cancel_parent_keeps;
use crate::orders::footprint::lemma_aux_price_keeps;
use crate::orders::footprint::lemma_basis_points_keeps;
use crate::orders::footprint::lemma_benchmark_amounts_keeps;
use crate::orders::footprint::lemma_benchmark_reference_keeps;
use crate::orders::footprint::lemma_block_order_keeps;
use crate::orders::footprint::lemma_bond_accrued_interest_keeps;
use crate::orders::footprint::lemma_box_order_params_keeps;
use crate::orders::footprint::lemma_cash_qty_keeps;
use crate::orders::footprint::lemma_clearing_params_keeps;
use crate::orders::footprint::lemma_client_id_keeps;
use crate::orders::footprint::lemma_cme_tagging_fields_keeps;
use crate::orders::footprint::lemma_combo_leg_entry_keeps;
use crate::orders::footprint::lemma_combo_leg_run_keeps;
use crate::orders::footprint::lemma_combo_legs_description_keeps;
use crate::orders::footprint::lemma_combo_legs_keeps;
use crate::orders::footprint::lemma_commission_keeps;
use crate::orders::footprint::lemma_completed_status_keeps;
use crate::orders::footprint::lemma_completed_time_keeps;
use crate::orders::footprint::lemma_condition_entry_keeps;
use crate::orders::footprint::lemma_condition_flags_keeps;
use crate::orders::footprint::lemma_condition_run_keeps;
use crate::orders::footprint::lemma_conditions_keeps;
use crate::orders::footprint::lemma_contract_combo_legs_keeps;
use crate::orders::footprint::lemma_contract_fields_keeps;
use crate::orders::footprint::lemma_contract_identity_keeps;
use crate::orders::footprint::lemma_contract_listing_keeps;
use crate::orders::footprint::lemma_contract_terms_keeps;
use crate::orders::footprint::lemma_customer_account_keeps;
use crate::orders::footprint::lemma_delta_neutral_attributes_keeps;
use crate::orders::footprint::lemma_delta_neutral_con_id_keeps;
use crate::orders::footprint::lemma_delta_neutral_contract_keeps;
use crate::orders::footprint::lemma_delta_neutral_hedge_keeps;
use crate::orders::footprint::lemma_delta_neutral_keeps;
use crate::orders::footprint::lemma_delta_neutral_short_sale_keeps;
use crate::orders::footprint::lemma_discretionary_amt_keeps;
use crate::orders::footprint::lemma_discretionary_up_to_limit_price_keeps;
use crate::orders::footprint::lemma_display_size_keeps;
use crate::orders::footprint::lemma_dont_use_auto_price_for_hedge_keeps;
use crate::orders::footprint::lemma_duration_keeps;
use crate::orders::footprint::lemma_fa_allocation_keeps;
use crate::orders::footprint::lemma_fa_params_keeps;
use crate::orders::footprint::lemma_fa_profile_keeps;
use crate::orders::footprint::lemma_filled_quantity_keeps;
use crate::orders::footprint::lemma_full_order_preview_keeps;
use crate::orders::footprint::lemma_good_after_time_keeps;
use crate::orders::footprint::lemma_good_till_date_keeps;
use crate::orders::footprint::lemma_hedge_param_keeps;
use crate::orders::footprint::lemma_hedge_params_keeps;
use crate::orders::footprint::lemma_hedge_type_keeps;
use crate::orders::footprint::lemma_hidden_keeps;
use crate::orders::footprint::lemma_imbalance_only_always_keeps;
use crate::orders::footprint::lemma_imbalance_only_keeps;
use crate::orders::footprint::lemma_include_overnight_keeps;
use crate::orders::footprint::lemma_is_oms_container_keeps;
use crate::orders::footprint::lemma_limit_price_keeps;
use crate::orders::footprint::lemma_margin_after_and_commission_keeps;
use crate::orders::footprint::lemma_margin_after_keeps;
use crate::orders::footprint::lemma_margin_before_and_change_keeps;
use crate::orders::footprint::lemma_margin_before_keeps;
use crate::orders::footprint::lemma_margin_change_keeps;
use crate::orders::footprint::lemma_min_qty_keeps;
use crate::orders::footprint::lemma_model_code_keeps;
use crate::orders::footprint::lemma_not_held_keeps;
use crate::orders::footprint::lemma_oca_group_keeps;
use crate::orders::footprint::lemma_oca_type_keeps;
use crate::orders::footprint::lemma_open_close_keeps;
use crate::orders::footprint::lemma_opt_out_smart_routing_keeps;
use crate::orders::footprint::lemma_order_allocation_entry_keeps;
use crate::orders::footprint::lemma_order_allocation_run_keeps;
use crate::orders::footprint::lemma_order_allocations_keeps;
use crate::orders::footprint::lemma_order_combo_leg_entry_keeps;
use crate::orders::footprint::lemma_order_combo_leg_run_keeps;
use crate::orders::footprint::lemma_order_combo_legs_keeps;
use crate::orders::footprint::lemma_order_id_keeps;
use crate::orders::footprint::lemma_order_ref_keeps;
use crate::orders::footprint::lemma_order_status_keeps;
use crate::orders::footprint::lemma_order_type_keeps;
use crate::orders::footprint::lemma_origin_keeps;
use crate::orders::footprint::lemma_outside_rth_keeps;
use crate::orders::footprint::lemma_parent_id_keeps;
use crate::orders::footprint::lemma_parent_perm_id_keeps;
use crate::orders::footprint::lemma_peg_best_offsets_keeps;
use crate::orders::footprint::lemma_peg_best_peg_mid_order_attributes_keeps;
use crate::orders::footprint::lemma_peg_best_sizes_keeps;
use crate::orders::footprint::lemma_peg_to_bench_params_keeps;
use crate::orders::footprint::lemma_peg_to_stock_or_vol_order_params_keeps;
use crate::orders::footprint::lemma_percent_offset_keeps;
use crate::orders::footprint::lemma_perm_id_keeps;
use crate::orders::footprint::lemma_post_to_ats_keeps;
use crate::orders::footprint::lemma_preview_advice_keeps;
use crate::orders::footprint::lemma_preview_margin_after_keeps;
use crate::orders::footprint::lemma_preview_margin_before_keeps;
use crate::orders::footprint::lemma_preview_margin_change_keeps;
use crate::orders::footprint::lemma_professional_customer_keeps;
use crate::orders::footprint::lemma_ref_futures_contract_id_keeps;
use crate::orders::footprint::lemma_route_marketable_to_bbo_keeps;
use crate::orders::footprint::lemma_rule_80_a_keeps;
use crate::orders::footprint::lemma_scale_levels_keeps;
use crate::orders::footprint::lemma_scale_order_params_keeps;
use crate::orders::footprint::lemma_scale_position_keeps;
use crate::orders::footprint::lemma_scale_price_adjustment_keeps;
use crate::orders::footprint::lemma_scale_table_keeps;
use crate::orders::footprint::lemma_settling_firm_keeps;
use crate::orders::footprint::lemma_shareholder_keeps;
use crate::orders::footprint::lemma_short_sale_params_keeps;
use crate::orders::footprint::lemma_smart_combo_routing_entry_keeps;
use crate::orders::footprint::lemma_smart_combo_routing_params_keeps;
use crate::orders::footprint::lemma_smart_combo_routing_run_keeps;
use crate::orders::footprint::lemma_soft_dollar_tier_keeps;
use crate::orders::footprint::lemma_solicited_keeps;
use crate::orders::footprint::lemma_stop_price_and_limit_price_offset_keeps;
use crate::orders::footprint::lemma_submitter_keeps;
use crate::orders::footprint::lemma_sweep_to_fill_keeps;
use crate::orders::footprint::lemma_tif_keeps;
use crate::orders::footprint::lemma_total_quantity_keeps;
use crate::orders::footprint::lemma_trail_params_keeps;
use crate::orders::footprint::lemma_trigger_method_keeps;
use crate::orders::footprint::lemma_use_price_mgmt_algo_keeps;
use crate::orders::footprint::lemma_vol_randomize_flags_keeps;
use crate::orders::footprint::lemma_volatility_keeps;
use crate::orders::footprint::lemma_volatility_order_params_keeps;
use crate::orders::footprint::lemma_volatility_reference_keeps;
use crate::orders::footprint::lemma_warning_text_keeps;
use crate::orders::footprint::lemma_what_if_info_and_commission_keeps;
use crate::orders::footprint::lemma_what_if_keeps;
use crate::orders::ExecutionDataView;
use crate::orders::OrderDataView;
use crate::reading::Reading;
use crate::server_versions::AUTO_CANCEL_PARENT;
use crate::server_versions::AUTO_PRICE_FOR_HEDGE;
use crate::server_versions::BOND_ACCRUED_INTEREST;
use crate::server_versions::CASH_QTY;
use crate::server_versions::CME_TAGGING_FIELDS_IN_OPEN_ORDER;
use crate::server_versions::CUSTOMER_ACCOUNT;
use crate::server_versions::DURATION;
use crate::server_versions::D_PEG_ORDERS;
use crate::server_versions::FA_PROFILE_DESUPPORT;
use crate::server_versions::FULL_ORDER_PREVIEW_FIELDS;
use crate::server_versions::IMBALANCE_ONLY;
use crate::server_versions::INCLUDE_OVERNIGHT;
use crate::server_versions::LAST_LIQUIDITY;
use crate::server_versions::MARKET_CAP_PRICE;
use crate::server_versions::MODELS_SUPPORT;
use crate::server_versions::ORDER_CONTAINER;
use crate::server_versions::PEGBEST_PEGMID_OFFSETS;
use crate::server_versions::PEGGED_TO_BENCHMARK;
use crate::server_versions::PENDING_PRICE_REVISION;
use crate::server_versions::POST_TO_ATS;
use crate::server_versions::PRICE_MGMT_ALGO;
use crate::server_versions::PROFESSIONAL_CUSTOMER;
use crate::server_versions::SOFT_DOLLAR_TIER;
use crate::server_versions::SUBMITTER;
use crate::server_versions::WHAT_IF_EXT_FIELDS;

verus! {

/// A block that a version introduced is not on the wire below that
/// version, and one that a version withdrew is not on the wire from that
/// version on: there the decoder passes it without reading a field and
/// without touching the record. So the reader stands where it stood, and
/// every attribute of the block keeps the value it had.
pub proof fn lemma_gated_blocks_are_idle(v: int, s: Reading<OrderDataView>)
    ensures
        v >= FA_PROFILE_DESUPPORT ==> fa_profile(v, s) == s,
        v < MODELS_SUPPORT ==> model_code(v, s) == s,
        v < WHAT_IF_EXT_FIELDS ==> margin_before_and_change(v, s) == s,
        v < FULL_ORDER_PREVIEW_FIELDS ==> full_order_preview(v, s) == s,
        (v < PEGGED_TO_BENCHMARK || s.value.order.order_type != peg_bench()) ==> peg_to_bench_params(v, s) == s,
        v < PEGGED_TO_BENCHMARK ==> conditions(v, s) == s,
        v < PEGGED_TO_BENCHMARK ==> adjusted_order_params(v, s) == s,
        v < SOFT_DOLLAR_TIER ==> soft_dollar_tier(v, s) == s,
        v < CASH_QTY ==> cash_qty(v, s) == s,
        v < AUTO_PRICE_FOR_HEDGE ==> dont_use_auto_price_for_hedge(v, s) == s,
        v < ORDER_CONTAINER ==> is_oms_container(v, s) == s,
        v < D_PEG_ORDERS ==> discretionary_up_to_limit_price(v, s) == s,
        v < PRICE_MGMT_ALGO ==> use_price_mgmt_algo(v, s) == s,
        v < DURATION ==> duration(v, s) == s,
        v < POST_TO_ATS ==> post_to_ats(v, s) == s,
        v < AUTO_CANCEL_PARENT ==> auto_cancel_parent(v, s) == s,
        v < PEGBEST_PEGMID_OFFSETS ==> peg_best_peg_mid_order_attributes(v, s) == s,
        v < CUSTOMER_ACCOUNT ==> customer_account(v, s) == s,
        v < PROFESSIONAL_CUSTOMER ==> professional_customer(v, s) == s,
        v < BOND_ACCRUED_INTEREST ==> bond_accrued_interest(v, s) == s,
        v < INCLUDE_OVERNIGHT ==> include_overnight(v, s) == s,
        v < CME_TAGGING_FIELDS_IN_OPEN_ORDER ==> cme_tagging_fields(v, s) == s,
        v < SUBMITTER ==> submitter(v, s) == s,
        v < IMBALANCE_ONLY ==> imbalance_only(v, s) == s,
{
    reveal(fa_profile);
    reveal(model_code);
    reveal(margin_before_and_change);
    reveal(full_order_preview);
    reveal(peg_to_bench_params);
    reveal(conditions);
    reveal(adjusted_order_params);
    reveal(soft_dollar_tier);
    reveal(cash_qty);
    reveal(dont_use_auto_price_for_hedge);
    reveal(is_oms_container);
    reveal(discretionary_up_to_limit_price);
    reveal(use_price_mgmt_algo);
    reveal(duration);
    reveal(post_to_ats);
    reveal(auto_cancel_parent);
    reveal(peg_best_peg_mid_order_attributes);
    reveal(customer_account);
    reveal(professional_customer);
    reveal(bond_accrued_interest);
    reveal(include_overnight);
    reveal(cme_tagging_fields);
    reveal(submitter);
    reveal(imbalance_only);
}

/// The same for the blocks of an execution.
pub proof fn lemma_gated_execution_blocks_are_idle(v: int, s: Reading<ExecutionDataView>)
    ensures
        v < MODELS_SUPPORT ==> execution_model_code(v, s) == s,
        v < LAST_LIQUIDITY ==> execution_last_liquidity(v, s) == s,
        v < PENDING_PRICE_REVISION ==> execution_pending_price_revision(v, s) == s,
        v < SUBMITTER ==> execution_submitter(v, s) == s,
{
    reveal(execution_model_code);
    reveal(execution_last_liquidity);
    reveal(execution_pending_price_revision);
    reveal(execution_submitter);
}

/// Below version 183 an open order ends with the base layout: none of the
/// fields that later versions added at the end is read.
pub proof fn lemma_open_order_below_additions(v: int, m: MessageView)
    requires
        v < CUSTOMER_ACCOUNT,
    ensures
        open_order(v, m) == open_order_base(v, m),
{
    let s = open_order_base(v, m);
    reveal(open_order_additions);
    lemma_gated_blocks_are_idle(v, s);
}

/// Below version 183 a completed order ends with the base layout: none of
/// the fields that later versions added at the end is read.
pub proof fn lemma_completed_order_below_additions(v: int, m: MessageView)
    requires
        v < CUSTOMER_ACCOUNT,
    ensures
        completed_order(v, m) == completed_order_base(v, m),
{
    let s = completed_order_base(v, m);
    reveal(completed_order_additions);
    lemma_gated_blocks_are_idle(v, s);
}

/// Below version 131 an order status carries no capped price: the decoder
/// does not read one, and the price keeps the value it starts with.
pub proof fn lemma_order_status_below_market_cap_price(v: int, m: MessageView)
    requires
        v < MARKET_CAP_PRICE,
    ensures
        order_status_message(v, m).value.market_cap_price == zero_text(),
{
}

/// The four fields that later versions added to an execution.
pub struct LateExecutionFieldsView {
    pub model_code: Seq<char>,
    pub last_liquidity: Liquidity,
    pub pending_price_revision: bool,
    pub submitter: Seq<char>,
}

/// The fields that later versions added, as a record of an execution holds
/// them.
pub open spec fn late_execution(d: ExecutionDataView) -> LateExecutionFieldsView {
    LateExecutionFieldsView {
        model_code: d.execution.model_code,
        last_liquidity: d.execution.last_liquidity,
        pending_price_revision: d.execution.pending_price_revision,
        submitter: d.execution.submitter,
    }
}

proof fn lemma_execution_head_keeps(s: Reading<ExecutionDataView>)
    ensures
        late_execution(execution_ids(s).value) == late_execution(s.value),
        late_execution(execution_contract(s).value) == late_execution(s.value),
        late_execution(execution_details(s).value) == late_execution(s.value),
{
    reveal(execution_ids);
    reveal(execution_contract);
    reveal(execution_details);
    reveal(ContractView::with_contract_id);
    reveal(ContractView::with_symbol);
    reveal(ContractView::with_security_type);
    reveal(ContractView::with_last_trade_date_or_contract_month);
    reveal(ContractView::with_strike);
    reveal(ContractView::with_right);
    reveal(ContractView::with_multiplier);
    reveal(ContractView::with_exchange);
    reveal(ContractView::with_currency);
    reveal(ContractView::with_local_symbol);
    reveal(ContractView::with_trading_class);
    reveal(ExecutionView::with_order_id);
    reveal(ExecutionView::with_client_id);
    reveal(ExecutionView::with_execution_id);
    reveal(ExecutionView::with_time);
    reveal(ExecutionView::with_account_number);
    reveal(ExecutionView::with_exchange);
    reveal(ExecutionView::with_side);
    reveal(ExecutionView::with_shares);
    reveal(ExecutionView::with_price);
    reveal(ExecutionView::with_perm_id);
    reveal(ExecutionView::with_liquidation);
    reveal(ExecutionView::with_cumulative_quantity);
    reveal(ExecutionView::with_average_price);
    reveal(ExecutionView::with_order_reference);
    reveal(ExecutionView::with_ev_rule);
    reveal(ExecutionView::with_ev_multiplier);
    reveal(ExecutionView::with_model_code);
    reveal(ExecutionView::with_last_liquidity);
    reveal(ExecutionView::with_pending_price_revision);
    reveal(ExecutionView::with_submitter);
}

proof fn lemma_execution_tail_keeps(v: int, s: Reading<ExecutionDataView>)
    ensures
        late_execution(execution_model_code(v, s).value) == (LateExecutionFieldsView {
            model_code: if v >= MODELS_SUPPORT {
                execution_model_code(v, s).value.execution.model_code
            } else {
                s.value.execution.model_code
            },
            ..late_execution(s.value)
        }),
        late_execution(execution_last_liquidity(v, s).value) == (LateExecutionFieldsView {
            last_liquidity: if v >= LAST_LIQUIDITY {
                execution_last_liquidity(v, s).value.execution.last_liquidity
            } else {
                s.value.execution.last_liquidity
            },
            ..late_execution(s.value)
        }),
        late_execution(execution_pending_price_revision(v, s).value) == (LateExecutionFieldsView {
            pending_price_revision: if v >= PENDING_PRICE_REVISION {
                execution_pending_price_revision(v, s).value.execution.pending_price_revision
            } else {
                s.value.execution.pending_price_revision
            },
            ..late_execution(s.value)
        }),
        late_execution(execution_submitter(v, s).value) == (LateExecutionFieldsView {
            submitter: if v >= SUBMITTER {
                execution_submitter(v, s).value.execution.submitter
            } else {
                s.value.execution.submitter
            },
            ..late_execution(s.value)
        }),
{
    reveal(execution_model_code);
    reveal(execution_last_liquidity);
    reveal(execution_pending_price_revision);
    reveal(execution_submitter);
    reveal(ExecutionView::with_model_code);
    reveal(ExecutionView::with_last_liquidity);
    reveal(ExecutionView::with_pending_price_revision);
    reveal(ExecutionView::with_submitter);
}

/// What the version decides of a finished execution: a field that a later
/// version added has, below that version, the value that it has in a record
/// into which nothing was read. This holds of every message, also of one
/// that stops the decoder.
pub proof fn lemma_execution_leaves_later_fields_alone(v: int, m: MessageView)
    ensures
        ({
            let d = execution_data_message(v, m).value;
            let fresh = ExecutionDataView::initial();
            &&& v < MODELS_SUPPORT ==> d.execution.model_code == fresh.execution.model_code
            &&& v < LAST_LIQUIDITY ==> d.execution.last_liquidity == fresh.execution.last_liquidity
            &&& v < PENDING_PRICE_REVISION ==> d.execution.pending_price_revision
                == fresh.execution.pending_price_revision
            &&& v < SUBMITTER ==> d.execution.submitter == fresh.execution.submitter
        }),
{
    let s0 = Reading::start(
        if v < LAST_LIQUIDITY {
            m.skip().skip()
        } else {
            m.skip()
        },
        ExecutionDataView::initial(),
    );
    lemma_execution_head_keeps(s0);
    let s1 = execution_ids(s0);
    lemma_execution_head_keeps(s1);
    let s2 = if s1.failure is Some {
        s1
    } else {
        execution_contract(s1)
    };
    lemma_execution_head_keeps(s2);
    let s3 = if s2.failure is Some {
        s2
    } else {
        execution_details(s2)
    };
    lemma_execution_tail_keeps(v, s3);
    let s4 = if s3.failure is Some {
        s3
    } else {
        execution_model_code(v, s3)
    };
    lemma_execution_tail_keeps(v, s4);
    let s5 = if s4.failure is Some {
        s4
    } else {
        execution_last_liquidity(v, s4)
    };
    lemma_execution_tail_keeps(v, s5);
    let s6 = if s5.failure is Some {
        s5
    } else {
        execution_pending_price_revision(v, s5)
    };
    lemma_execution_tail_keeps(v, s6);
}

/// An order status is routed by the order that it names: where the frame
/// starts with the kind of an order status and decodes, the key by which
/// the router finds its owner is the order identifier of the record.
pub proof fn lemma_order_status_is_routed_by_its_order(v: int, m: MessageView)
    requires
        m.position == 0,
        m.read_int() == Ok::<int, ErrorView>(ORDER_STATUS as int),
        order_status_message(v, m).failure is None,
        order_status_message(v, m).value.order_id >= 0,
    ensures
        route_of(m, v) == Ok::<Route, ErrorView>(
            Route {
                kind: ORDER_STATUS,
                key: RoutingKey::Order(order_status_message(v, m).value.order_id as i32),
                end_of_stream: false,
            },
        ),
{
}

/// An execution is routed by the request that asked for it: where the
/// frame starts with the kind of an execution and decodes, the key by which
/// the router finds its owner is the request identifier of the record.
pub proof fn lemma_execution_is_routed_by_its_request(v: int, m: MessageView)
    requires
        m.position == 0,
        m.read_int() == Ok::<int, ErrorView>(EXECUTION_DATA as int),
        execution_data_message(v, m).failure is None,
        execution_data_message(v, m).value.request_id >= 0,
    ensures
        route_of(m, v) == Ok::<Route, ErrorView>(
            Route {
                kind: EXECUTION_DATA,
                key: RoutingKey::Request(execution_data_message(v, m).value.request_id as i32),
                end_of_stream: false,
            },
        ),
{
    reveal(execution_ids);
    reveal(execution_contract);
    reveal(execution_details);
    reveal(execution_model_code);
    reveal(execution_last_liquidity);
    reveal(execution_pending_price_revision);
    reveal(execution_submitter);
}

/// The layout of an execution without the two fields that versions 178 and
/// 198 added at the end.
pub open spec fn execution_data_base(v: int, m: MessageView) -> Reading<ExecutionDataView> {
    Reading::start(
        if v < LAST_LIQUIDITY {
            m.skip().skip()
        } else {
            m.skip()
        },
        ExecutionDataView::initial(),
    )
        .and(|s: Reading<ExecutionDataView>| execution_ids(s))
        .and(|s: Reading<ExecutionDataView>| execution_contract(s))
        .and(|s: Reading<ExecutionDataView>| execution_details(s))
        .and(|s: Reading<ExecutionDataView>| execution_model_code(v, s))
        .and(|s: Reading<ExecutionDataView>| execution_last_liquidity(v, s))
}

/// Below version 178 an execution ends with the base layout: neither the
/// price revision flag nor the submitter is read.
pub proof fn lemma_execution_data_below_additions(v: int, m: MessageView)
    requires
        v < PENDING_PRICE_REVISION,
    ensures
        execution_data_message(v, m) == execution_data_base(v, m),
{
    let s = execution_data_base(v, m);
    lemma_gated_execution_blocks_are_idle(v, s);
}

proof fn lemma_open_order_header_keeps(v: int, s: Reading<OrderDataView>)
    ensures
        late(open_order_header(s).value) == (LateFieldsView {
            order_id: open_order_header(s).value.order_id,
            ..late(s.value)
        }),
{
    reveal(open_order_header);
    lemma_order_id_keeps(v, s);
    let s1 = order_id(s);
    if s1.failure is None {
        lemma_contract_fields_keeps(v, s1);
    }
    let s2 = if s1.failure is Some {
        s1
    } else {
        contract_fields(s1)
    };
    if s2.failure is None {
        lemma_action_keeps(v, s2);
    }
    let s3 = if s2.failure is Some {
        s2
    } else {
        action(s2)
    };
    if s3.failure is None {
        lemma_total_quantity_keeps(v, s3);
    }
    let s4 = if s3.failure is Some {
        s3
    } else {
        total_quantity(s3)
    };
    if s4.failure is None {
        lemma_order_type_keeps(v, s4);
    }
    let s5 = if s4.failure is Some {
        s4
    } else {
        order_type(s4)
    };
    if s5.failure is None {
        lemma_limit_price_keeps(v, s5);
    }
    let s6 = if s5.failure is Some {
        s5
    } else {
        limit_price(s5)
    };
    if s6.failure is None {
        lemma_aux_price_keeps(v, s6);
    }
    let s7 = if s6.failure is Some {
        s6
    } else {
        aux_price(s6)
    };
    if s7.failure is None {
        lemma_tif_keeps(v, s7);
    }
    let s8 = if s7.failure is Some {
        s7
    } else {
        tif(s7)
    };
    if s8.failure is None {
        lemma_oca_group_keeps(v, s8);
    }
    let s9 = if s8.failure is Some {
        s8
    } else {
        oca_group(s8)
    };
    if s9.failure is None {
        lemma_account_keeps(v, s9);
    }
    let s10 = if s9.failure is Some {
        s9
    } else {
        account(s9)
    };
}

proof fn lemma_open_order_handling_keeps(v: int, s: Reading<OrderDataView>)
    ensures
        late(open_order_handling(s).value) == (LateFieldsView {
            ..late(s.value)
        }),
{
    reveal(open_order_handling);
    lemma_open_close_keeps(v, s);
    let s1 = open_close(s);
    if s1.failure is None {
        lemma_origin_keeps(v, s1);
    }
    let s2 = if s1.failure is Some {
        s1
    } else {
        origin(s1)
    };
    if s2.failure is None {
        lemma_order_ref_keeps(v, s2);
    }
    let s3 = if s2.failure is Some {
        s2
    } else {
        order_ref(s2)
    };
    if s3.failure is None {
        lemma_client_id_keeps(v, s3);
    }
    let s4 = if s3.failure is Some {
        s3
    } else {
        client_id(s3)
    };
    if s4.failure is None {
        lemma_perm_id_keeps(v, s4);
    }
    let s5 = if s4.failure is Some {
        s4
    } else {
        perm_id(s4)
    };
    if s5.failure is None {
        lemma_outside_rth_keeps(v, s5);
    }
    let s6 = if s5.failure is Some {
        s5
    } else {
        outside_rth(s5)
    };
    if s6.failure is None {
        lemma_hidden_keeps(v, s6);
    }
    let s7 = if s6.failure is Some {
        s6
    } else {
        hidden(s6)
    };
    if s7.failure is None {
        lemma_discretionary_amt_keeps(v, s7);
    }
    let s8 = if s7.failure is Some {
        s7
    } else {
        discretionary_amt(s7)
    };
    if s8.failure is None {
        lemma_good_after_time_keeps(v, s8);
    }
    let s9 = if s8.failure is Some {
        s8
    } else {
        good_after_time(s8)
    };
    let s10 = if s9.failure is Some {
        s9
    } else {
        s9.skip()
    };
}

proof fn lemma_open_order_routing_keeps(v: int, s: Reading<OrderDataView>)
    ensures
        late(open_order_routing(v, s).value) == (LateFieldsView {
            ..late(s.value)
        }),
{
    reveal(open_order_routing);
    lemma_fa_params_keeps(v, s);
    let s1 = fa_params(v, s);
    if s1.failure is None {
        lemma_model_code_keeps(v, s1);
    }
    let s2 = if s1.failure is Some {
        s1
    } else {
        model_code(v, s1)
    };
    if s2.failure is None {
        lemma_good_till_date_keeps(v, s2);
    }
    let s3 = if s2.failure is Some {
        s2
    } else {
        good_till_date(s2)
    };
    if s3.failure is None {
        lemma_rule_80_a_keeps(v, s3);
    }
    let s4 = if s3.failure is Some {
        s3
    } else {
        rule_80_a(s3)
    };
    if s4.failure is None {
        lemma_percent_offset_keeps(v, s4);
    }
    let s5 = if s4.failure is Some {
        s4
    } else {
        percent_offset(s4)
    };
    if s5.failure is None {
        lemma_settling_firm_keeps(v, s5);
    }
    let s6 = if s5.failure is Some {
        s5
    } else {
        settling_firm(s5)
    };
    if s6.failure is None {
        lemma_short_sale_params_keeps(v, s6);
    }
    let s7 = if s6.failure is Some {
        s6
    } else {
        short_sale_params(s6)
    };
    if s7.failure is None {
        lemma_auction_strategy_keeps(v, s7);
    }
    let s8 = if s7.failure is Some {
        s7
    } else {
        auction_strategy(s7)
    };
    if s8.failure is None {
        lemma_box_order_params_keeps(v, s8);
    }
    let s9 = if s8.failure is Some {
        s8
    } else {
        box_order_params(s8)
    };
    if s9.failure is None {
        lemma_peg_to_stock_or_vol_order_params_keeps(v, s9);
    }
    let s10 = if s9.failure is Some {
        s9
    } else {
        peg_to_stock_or_vol_order_params(s9)
    };
}

proof fn lemma_open_order_filling_keeps(v: int, s: Reading<OrderDataView>)
    ensures
        late(open_order_filling(s).value) == (LateFieldsView {
            ..late(s.value)
        }),
{
    reveal(open_order_filling);
    lemma_display_size_keeps(v, s);
    let s1 = display_size(s);
    if s1.failure is None {
        lemma_block_order_keeps(v, s1);
    }
    let s2 = if s1.failure is Some {
        s1
    } else {
        block_order(s1)
    };
    if s2.failure is None {
        lemma_sweep_to_fill_keeps(v, s2);
    }
    let s3 = if s2.failure is Some {
        s2
    } else {
        sweep_to_fill(s2)
    };
    if s3.failure is None {
        lemma_all_or_none_keeps(v, s3);
    }
    let s4 = if s3.failure is Some {
        s3
    } else {
        all_or_none(s3)
    };
    if s4.failure is None {
        lemma_min_qty_keeps(v, s4);
    }
    let s5 = if s4.failure is Some {
        s4
    } else {
        min_qty(s4)
    };
    if s5.failure is None {
        lemma_oca_type_keeps(v, s5);
    }
    let s6 = if s5.failure is Some {
        s5
    } else {
        oca_type(s5)
    };
    let s7 = if s6.failure is Some {
        s6
    } else {
        s6.skip()
    };
    let s8 = if s7.failure is Some {
        s7
    } else {
        s7.skip()
    };
    let s9 = if s8.failure is Some {
        s8
    } else {
        s8.skip()
    };
    if s9.failure is None {
        lemma_parent_id_keeps(v, s9);
    }
    let s10 = if s9.failure is Some {
        s9
    } else {
        parent_id(s9)
    };
    if s10.failure is None {
        lemma_trigger_method_keeps(v, s10);
    }
    let s11 = if s10.failure is Some {
        s10
    } else {
        trigger_method(s10)
    };
}

proof fn lemma_open_order_strategy_keeps(v: int, s: Reading<OrderDataView>)
    ensures
        late(open_order_strategy(s).value) == (LateFieldsView {
            ..late(s.value)
        }),
{
    reveal(open_order_strategy);
    lemma_volatility_order_params_keeps(v, s, true);
    let s1 = volatility_order_params(s, true);
    if s1.failure is None {
        lemma_trail_params_keeps(v, s1);
    }
    let s2 = if s1.failure is Some {
        s1
    } else {
        trail_params(s1)
    };
    if s2.failure is None {
        lemma_basis_points_keeps(v, s2);
    }
    let s3 = if s2.failure is Some {
        s2
    } else {
        basis_points(s2)
    };
    if s3.failure is None {
        lemma_combo_legs_keeps(v, s3);
    }
    let s4 = if s3.failure is Some {
        s3
    } else {
        combo_legs(s3)
    };
    if s4.failure is None {
        lemma_smart_combo_routing_params_keeps(v, s4);
    }
    let s5 = if s4.failure is Some {
        s4
    } else {
        smart_combo_routing_params(s4)
    };
    if s5.failure is None {
        lemma_scale_order_params_keeps(v, s5);
    }
    let s6 = if s5.failure is Some {
        s5
    } else {
        scale_order_params(s5)
    };
    if s6.failure is None {
        lemma_hedge_params_keeps(v, s6);
    }
    let s7 = if s6.failure is Some {
        s6
    } else {
        hedge_params(s6)
    };
    if s7.failure is None {
        lemma_opt_out_smart_routing_keeps(v, s7);
    }
    let s8 = if s7.failure is Some {
        s7
    } else {
        opt_out_smart_routing(s7)
    };
    if s8.failure is None {
        lemma_clearing_params_keeps(v, s8);
    }
    let s9 = if s8.failure is Some {
        s8
    } else {
        clearing_params(s8)
    };
    if s9.failure is None {
        lemma_not_held_keeps(v, s9);
    }
    let s10 = if s9.failure is Some {
        s9
    } else {
        not_held(s9)
    };
}

proof fn lemma_open_order_report_keeps(v: int, s: Reading<OrderDataView>)
    ensures
        late(open_order_report(v, s).value) == (LateFieldsView {
            cash_qty: if v >= CASH_QTY {
                open_order_report(v, s).value.order.cash_qty
            } else {
                s.value.order.cash_qty
            },
            soft_dollar_tier: if v >= SOFT_DOLLAR_TIER {
                open_order_report(v, s).value.order.soft_dollar_tier
            } else {
                s.value.order.soft_dollar_tier
            },
            margin_currency: if v >= FULL_ORDER_PREVIEW_FIELDS {
                open_order_report(v, s).value.order_state.margin_currency
            } else {
                s.value.order_state.margin_currency
            },
            initial_margin_before_outside_rth: if v >= FULL_ORDER_PREVIEW_FIELDS {
                open_order_report(v, s).value.order_state.initial_margin_before_outside_rth
            } else {
                s.value.order_state.initial_margin_before_outside_rth
            },
            maintenance_margin_before_outside_rth: if v >= FULL_ORDER_PREVIEW_FIELDS {
                open_order_report(v, s).value.order_state.maintenance_margin_before_outside_rth
            } else {
                s.value.order_state.maintenance_margin_before_outside_rth
            },
            equity_with_loan_before_outside_rth: if v >= FULL_ORDER_PREVIEW_FIELDS {
                open_order_report(v, s).value.order_state.equity_with_loan_before_outside_rth
            } else {
                s.value.order_state.equity_with_loan_before_outside_rth
            },
            initial_margin_change_outside_rth: if v >= FULL_ORDER_PREVIEW_FIELDS {
                open_order_report(v, s).value.order_state.initial_margin_change_outside_rth
            } else {
                s.value.order_state.initial_margin_change_outside_rth
            },
            maintenance_margin_change_outside_rth: if v >= FULL_ORDER_PREVIEW_FIELDS {
                open_order_report(v, s).value.order_state.maintenance_margin_change_outside_rth
            } else {
                s.value.order_state.maintenance_margin_change_outside_rth
            },
            equity_with_loan_change_outside_rth: if v >= FULL_ORDER_PREVIEW_FIELDS {
                open_order_report(v, s).value.order_state.equity_with_loan_change_outside_rth
            } else {
                s.value.order_state.equity_with_loan_change_outside_rth
            },
            initial_margin_after_outside_rth: if v >= FULL_ORDER_PREVIEW_FIELDS {
                open_order_report(v, s).value.order_state.initial_margin_after_outside_rth
            } else {
                s.value.order_state.initial_margin_after_outside_rth
            },
            maintenance_margin_after_outside_rth: if v >= FULL_ORDER_PREVIEW_FIELDS {
                open_order_report(v, s).value.order_state.maintenance_margin_after_outside_rth
            } else {
                s.value.order_state.maintenance_margin_after_outside_rth
            },
            equity_with_loan_after_outside_rth: if v >= FULL_ORDER_PREVIEW_FIELDS {
                open_order_report(v, s).value.order_state.equity_with_loan_after_outside_rth
            } else {
                s.value.order_state.equity_with_loan_after_outside_rth
            },
            suggested_size: if v >= FULL_ORDER_PREVIEW_FIELDS {
                open_order_report(v, s).value.order_state.suggested_size
            } else {
                s.value.order_state.suggested_size
            },
            reject_reason: if v >= FULL_ORDER_PREVIEW_FIELDS {
                open_order_report(v, s).value.order_state.reject_reason
            } else {
                s.value.order_state.reject_reason
            },
            order_allocations: if v >= FULL_ORDER_PREVIEW_FIELDS {
                open_order_report(v, s).value.order_state.order_allocations
            } else {
                s.value.order_state.order_allocations
            },
            ..late(s.value)
        }),
{
    reveal(open_order_report);
    lemma_delta_neutral_keeps(v, s);
    let s1 = delta_neutral(s);
    if s1.failure is None {
        lemma_algo_params_keeps(v, s1);
    }
    let s2 = if s1.failure is Some {
        s1
    } else {
        algo_params(s1)
    };
    if s2.failure is None {
        lemma_solicited_keeps(v, s2);
    }
    let s3 = if s2.failure is Some {
        s2
    } else {
        solicited(s2)
    };
    if s3.failure is None {
        lemma_what_if_info_and_commission_keeps(v, s3);
    }
    let s4 = if s3.failure is Some {
        s3
    } else {
        what_if_info_and_commission(v, s3)
    };
    if s4.failure is None {
        lemma_vol_randomize_flags_keeps(v, s4);
    }
    let s5 = if s4.failure is Some {
        s4
    } else {
        vol_randomize_flags(s4)
    };
    if s5.failure is None {
        lemma_peg_to_bench_params_keeps(v, s5);
    }
    let s6 = if s5.failure is Some {
        s5
    } else {
        peg_to_bench_params(v, s5)
    };
    if s6.failure is None {
        lemma_conditions_keeps(v, s6);
    }
    let s7 = if s6.failure is Some {
        s6
    } else {
        conditions(v, s6)
    };
    if s7.failure is None {
        lemma_adjusted_order_params_keeps(v, s7);
    }
    let s8 = if s7.failure is Some {
        s7
    } else {
        adjusted_order_params(v, s7)
    };
    if s8.failure is None {
        lemma_soft_dollar_tier_keeps(v, s8);
    }
    let s9 = if s8.failure is Some {
        s8
    } else {
        soft_dollar_tier(v, s8)
    };
    if s9.failure is None {
        lemma_cash_qty_keeps(v, s9);
    }
    let s10 = if s9.failure is Some {
        s9
    } else {
        cash_qty(v, s9)
    };
}

proof fn lemma_open_order_extensions_keeps(v: int, s: Reading<OrderDataView>)
    ensures
        late(open_order_extensions(v, s).value) == (LateFieldsView {
            duration: if v >= DURATION {
                open_order_extensions(v, s).value.order.duration
            } else {
                s.value.order.duration
            },
            post_to_ats: if v >= POST_TO_ATS {
                open_order_extensions(v, s).value.order.post_to_ats
            } else {
                s.value.order.post_to_ats
            },
            auto_cancel_parent: if v >= AUTO_CANCEL_PARENT {
                open_order_extensions(v, s).value.order.auto_cancel_parent
            } else {
                s.value.order.auto_cancel_parent
            },
            min_trade_qty: if v >= PEGBEST_PEGMID_OFFSETS {
                open_order_extensions(v, s).value.order.min_trade_qty
            } else {
                s.value.order.min_trade_qty
            },
            min_compete_size: if v >= PEGBEST_PEGMID_OFFSETS {
                open_order_extensions(v, s).value.order.min_compete_size
            } else {
                s.value.order.min_compete_size
            },
            compete_against_best_offset: if v >= PEGBEST_PEGMID_OFFSETS {
                open_order_extensions(v, s).value.order.compete_against_best_offset
            } else {
                s.value.order.compete_against_best_offset
            },
            mid_offset_at_whole: if v >= PEGBEST_PEGMID_OFFSETS {
                open_order_extensions(v, s).value.order.mid_offset_at_whole
            } else {
                s.value.order.mid_offset_at_whole
            },
            mid_offset_at_half: if v >= PEGBEST_PEGMID_OFFSETS {
                open_order_extensions(v, s).value.order.mid_offset_at_half
            } else {
                s.value.order.mid_offset_at_half
            },
            ..late(s.value)
        }),
{
    reveal(open_order_extensions);
    lemma_dont_use_auto_price_for_hedge_keeps(v, s);
    let s1 = dont_use_auto_price_for_hedge(v, s);
    if s1.failure is None {
        lemma_is_oms_container_keeps(v, s1);
    }
    let s2 = if s1.failure is Some {
        s1
    } else {
        is_oms_container(v, s1)
    };
    if s2.failure is None {
        lemma_discretionary_up_to_limit_price_keeps(v, s2);
    }
    let s3 = if s2.failure is Some {
        s2
    } else {
        discretionary_up_to_limit_price(v, s2)
    };
    if s3.failure is None {
        lemma_use_price_mgmt_algo_keeps(v, s3);
    }
    let s4 = if s3.failure is Some {
        s3
    } else {
        use_price_mgmt_algo(v, s3)
    };
    if s4.failure is None {
        lemma_duration_keeps(v, s4);
    }
    let s5 = if s4.failure is Some {
        s4
    } else {
        duration(v, s4)
    };
    if s5.failure is None {
        lemma_post_to_ats_keeps(v, s5);
    }
    let s6 = if s5.failure is Some {
        s5
    } else {
        post_to_ats(v, s5)
    };
    if s6.failure is None {
        lemma_auto_cancel_parent_keeps(v, s6);
    }
    let s7 = if s6.failure is Some {
        s6
    } else {
        auto_cancel_parent(v, s6)
    };
    if s7.failure is None {
        lemma_peg_best_peg_mid_order_attributes_keeps(v, s7);
    }
    let s8 = if s7.failure is Some {
        s7
    } else {
        peg_best_peg_mid_order_attributes(v, s7)
    };
}

proof fn lemma_open_order_additions_keeps(v: int, s: Reading<OrderDataView>)
    ensures
        late(open_order_additions(v, s).value) == (LateFieldsView {
            customer_account: if v >= CUSTOMER_ACCOUNT {
                open_order_additions(v, s).value.order.customer_account
            } else {
                s.value.order.customer_account
            },
            professional_customer: if v >= PROFESSIONAL_CUSTOMER {
                open_order_additions(v, s).value.order.professional_customer
            } else {
                s.value.order.professional_customer
            },
            bond_accrued_interest: if v >= BOND_ACCRUED_INTEREST {
                open_order_additions(v, s).value.order.bond_accrued_interest
            } else {
                s.value.order.bond_accrued_interest
            },
            include_overnight: if v >= INCLUDE_OVERNIGHT {
                open_order_additions(v, s).value.order.include_overnight
            } else {
                s.value.order.include_overnight
            },
            ext_operator: if v >= CME_TAGGING_FIELDS_IN_OPEN_ORDER {
                open_order_additions(v, s).value.order.ext_operator
            } else {
                s.value.order.ext_operator
            },
            manual_order_indicator: if v >= CME_TAGGING_FIELDS_IN_OPEN_ORDER {
                open_order_additions(v, s).value.order.manual_order_indicator
            } else {
                s.value.order.manual_order_indicator
            },
            submitter: if v >= SUBMITTER {
                open_order_additions(v, s).value.order.submitter
            } else {
                s.value.order.submitter
            },
            imbalance_only: if v >= IMBALANCE_ONLY {
                open_order_additions(v, s).value.order.imbalance_only
            } else {
                s.value.order.imbalance_only
            },
            ..late(s.value)
        }),
{
    reveal(open_order_additions);
    lemma_customer_account_keeps(v, s);
    let s1 = customer_account(v, s);
    if s1.failure is None {
        lemma_professional_customer_keeps(v, s1);
    }
    let s2 = if s1.failure is Some {
        s1
    } else {
        professional_customer(v, s1)
    };
    if s2.failure is None {
        lemma_bond_accrued_interest_keeps(v, s2);
    }
    let s3 = if s2.failure is Some {
        s2
    } else {
        bond_accrued_interest(v, s2)
    };
    if s3.failure is None {
        lemma_include_overnight_keeps(v, s3);
    }
    let s4 = if s3.failure is Some {
        s3
    } else {
        include_overnight(v, s3)
    };
    if s4.failure is None {
        lemma_cme_tagging_fields_keeps(v, s4);
    }
    let s5 = if s4.failure is Some {
        s4
    } else {
        cme_tagging_fields(v, s4)
    };
    if s5.failure is None {
        lemma_submitter_keeps(v, s5);
    }
    let s6 = if s5.failure is Some {
        s5
    } else {
        submitter(v, s5)
    };
    if s6.failure is None {
        lemma_imbalance_only_keeps(v, s6);
    }
    let s7 = if s6.failure is Some {
        s6
    } else {
        imbalance_only(v, s6)
    };
}

proof fn lemma_completed_order_header_keeps(v: int, s: Reading<OrderDataView>)
    ensures
        late(completed_order_header(s).value) == (LateFieldsView {
            ..late(s.value)
        }),
{
    reveal(completed_order_header);
    lemma_contract_fields_keeps(v, s);
    let s1 = contract_fields(s);
    if s1.failure is None {
        lemma_action_keeps(v, s1);
    }
    let s2 = if s1.failure is Some {
        s1
    } else {
        action(s1)
    };
    if s2.failure is None {
        lemma_total_quantity_keeps(v, s2);
    }
    let s3 = if s2.failure is Some {
        s2
    } else {
        total_quantity(s2)
    };
    if s3.failure is None {
        lemma_order_type_keeps(v, s3);
    }
    let s4 = if s3.failure is Some {
        s3
    } else {
        order_type(s3)
    };
    if s4.failure is None {
        lemma_limit_price_keeps(v, s4);
    }
    let s5 = if s4.failure is Some {
        s4
    } else {
        limit_price(s4)
    };
    if s5.failure is None {
        lemma_aux_price_keeps(v, s5);
    }
    let s6 = if s5.failure is Some {
        s5
    } else {
        aux_price(s5)
    };
    if s6.failure is None {
        lemma_tif_keeps(v, s6);
    }
    let s7 = if s6.failure is Some {
        s6
    } else {
        tif(s6)
    };
    if s7.failure is None {
        lemma_oca_group_keeps(v, s7);
    }
    let s8 = if s7.failure is Some {
        s7
    } else {
        oca_group(s7)
    };
    if s8.failure is None {
        lemma_account_keeps(v, s8);
    }
    let s9 = if s8.failure is Some {
        s8
    } else {
        account(s8)
    };
}

proof fn lemma_completed_order_handling_keeps(v: int, s: Reading<OrderDataView>)
    ensures
        late(completed_order_handling(s).value) == (LateFieldsView {
            ..late(s.value)
        }),
{
    reveal(completed_order_handling);
    lemma_open_close_keeps(v, s);
    let s1 = open_close(s);
    if s1.failure is None {
        lemma_origin_keeps(v, s1);
    }
    let s2 = if s1.failure is Some {
        s1
    } else {
        origin(s1)
    };
    if s2.failure is None {
        lemma_order_ref_keeps(v, s2);
    }
    let s3 = if s2.failure is Some {
        s2
    } else {
        order_ref(s2)
    };
    if s3.failure is None {
        lemma_perm_id_keeps(v, s3);
    }
    let s4 = if s3.failure is Some {
        s3
    } else {
        perm_id(s3)
    };
    if s4.failure is None {
        lemma_outside_rth_keeps(v, s4);
    }
    let s5 = if s4.failure is Some {
        s4
    } else {
        outside_rth(s4)
    };
    if s5.failure is None {
        lemma_hidden_keeps(v, s5);
    }
    let s6 = if s5.failure is Some {
        s5
    } else {
        hidden(s5)
    };
    if s6.failure is None {
        lemma_discretionary_amt_keeps(v, s6);
    }
    let s7 = if s6.failure is Some {
        s6
    } else {
        discretionary_amt(s6)
    };
    if s7.failure is None {
        lemma_good_after_time_keeps(v, s7);
    }
    let s8 = if s7.failure is Some {
        s7
    } else {
        good_after_time(s7)
    };
}

proof fn lemma_completed_order_routing_keeps(v: int, s: Reading<OrderDataView>)
    ensures
        late(completed_order_routing(v, s).value) == (LateFieldsView {
            ..late(s.value)
        }),
{
    reveal(completed_order_routing);
    lemma_fa_params_keeps(v, s);
    let s1 = fa_params(v, s);
    if s1.failure is None {
        lemma_model_code_keeps(v, s1);
    }
    let s2 = if s1.failure is Some {
        s1
    } else {
        model_code(v, s1)
    };
    if s2.failure is None {
        lemma_good_till_date_keeps(v, s2);
    }
    let s3 = if s2.failure is Some {
        s2
    } else {
        good_till_date(s2)
    };
    if s3.failure is None {
        lemma_rule_80_a_keeps(v, s3);
    }
    let s4 = if s3.failure is Some {
        s3
    } else {
        rule_80_a(s3)
    };
    if s4.failure is None {
        lemma_percent_offset_keeps(v, s4);
    }
    let s5 = if s4.failure is Some {
        s4
    } else {
        percent_offset(s4)
    };
    if s5.failure is None {
        lemma_settling_firm_keeps(v, s5);
    }
    let s6 = if s5.failure is Some {
        s5
    } else {
        settling_firm(s5)
    };
    if s6.failure is None {
        lemma_short_sale_params_keeps(v, s6);
    }
    let s7 = if s6.failure is Some {
        s6
    } else {
        short_sale_params(s6)
    };
    if s7.failure is None {
        lemma_box_order_params_keeps(v, s7);
    }
    let s8 = if s7.failure is Some {
        s7
    } else {
        box_order_params(s7)
    };
    if s8.failure is None {
        lemma_peg_to_stock_or_vol_order_params_keeps(v, s8);
    }
    let s9 = if s8.failure is Some {
        s8
    } else {
        peg_to_stock_or_vol_order_params(s8)
    };
}

proof fn lemma_completed_order_filling_keeps(v: int, s: Reading<OrderDataView>)
    ensures
        late(completed_order_filling(s).value) == (LateFieldsView {
            ..late(s.value)
        }),
{
    reveal(completed_order_filling);
    lemma_display_size_keeps(v, s);
    let s1 = display_size(s);
    if s1.failure is None {
        lemma_sweep_to_fill_keeps(v, s1);
    }
    let s2 = if s1.failure is Some {
        s1
    } else {
        sweep_to_fill(s1)
    };
    if s2.failure is None {
        lemma_all_or_none_keeps(v, s2);
    }
    let s3 = if s2.failure is Some {
        s2
    } else {
        all_or_none(s2)
    };
    if s3.failure is None {
        lemma_min_qty_keeps(v, s3);
    }
    let s4 = if s3.failure is Some {
        s3
    } else {
        min_qty(s3)
    };
    if s4.failure is None {
        lemma_oca_type_keeps(v, s4);
    }
    let s5 = if s4.failure is Some {
        s4
    } else {
        oca_type(s4)
    };
    if s5.failure is None {
        lemma_trigger_method_keeps(v, s5);
    }
    let s6 = if s5.failure is Some {
        s5
    } else {
        trigger_method(s5)
    };
}

proof fn lemma_completed_order_strategy_keeps(v: int, s: Reading<OrderDataView>)
    ensures
        late(completed_order_strategy(s).value) == (LateFieldsView {
            ..late(s.value)
        }),
{
    reveal(completed_order_strategy);
    lemma_volatility_order_params_keeps(v, s, false);
    let s1 = volatility_order_params(s, false);
    if s1.failure is None {
        lemma_trail_params_keeps(v, s1);
    }
    let s2 = if s1.failure is Some {
        s1
    } else {
        trail_params(s1)
    };
    if s2.failure is None {
        lemma_combo_legs_keeps(v, s2);
    }
    let s3 = if s2.failure is Some {
        s2
    } else {
        combo_legs(s2)
    };
    if s3.failure is None {
        lemma_smart_combo_routing_params_keeps(v, s3);
    }
    let s4 = if s3.failure is Some {
        s3
    } else {
        smart_combo_routing_params(s3)
    };
    if s4.failure is None {
        lemma_scale_order_params_keeps(v, s4);
    }
    let s5 = if s4.failure is Some {
        s4
    } else {
        scale_order_params(s4)
    };
    if s5.failure is None {
        lemma_hedge_params_keeps(v, s5);
    }
    let s6 = if s5.failure is Some {
        s5
    } else {
        hedge_params(s5)
    };
    if s6.failure is None {
        lemma_clearing_params_keeps(v, s6);
    }
    let s7 = if s6.failure is Some {
        s6
    } else {
        clearing_params(s6)
    };
    if s7.failure is None {
        lemma_not_held_keeps(v, s7);
    }
    let s8 = if s7.failure is Some {
        s7
    } else {
        not_held(s7)
    };
}

proof fn lemma_completed_order_report_keeps(v: int, s: Reading<OrderDataView>)
    ensures
        late(completed_order_report(v, s).value) == (LateFieldsView {
            cash_qty: if v >= CASH_QTY {
                completed_order_report(v, s).value.order.cash_qty
            } else {
                s.value.order.cash_qty
            },
            ..late(s.value)
        }),
{
    reveal(completed_order_report);
    lemma_delta_neutral_keeps(v, s);
    let s1 = delta_neutral(s);
    if s1.failure is None {
        lemma_algo_params_keeps(v, s1);
    }
    let s2 = if s1.failure is Some {
        s1
    } else {
        algo_params(s1)
    };
    if s2.failure is None {
        lemma_solicited_keeps(v, s2);
    }
    let s3 = if s2.failure is Some {
        s2
    } else {
        solicited(s2)
    };
    if s3.failure is None {
        lemma_order_status_keeps(v, s3);
    }
    let s4 = if s3.failure is Some {
        s3
    } else {
        order_status(s3)
    };
    if s4.failure is None {
        lemma_vol_randomize_flags_keeps(v, s4);
    }
    let s5 = if s4.failure is Some {
        s4
    } else {
        vol_randomize_flags(s4)
    };
    if s5.failure is None {
        lemma_peg_to_bench_params_keeps(v, s5);
    }
    let s6 = if s5.failure is Some {
        s5
    } else {
        peg_to_bench_params(v, s5)
    };
    if s6.failure is None {
        lemma_conditions_keeps(v, s6);
    }
    let s7 = if s6.failure is Some {
        s6
    } else {
        conditions(v, s6)
    };
    if s7.failure is None {
        lemma_stop_price_and_limit_price_offset_keeps(v, s7);
    }
    let s8 = if s7.failure is Some {
        s7
    } else {
        stop_price_and_limit_price_offset(s7)
    };
    if s8.failure is None {
        lemma_cash_qty_keeps(v, s8);
    }
    let s9 = if s8.failure is Some {
        s8
    } else {
        cash_qty(v, s8)
    };
}

proof fn lemma_completed_order_fill_keeps(v: int, s: Reading<OrderDataView>)
    ensures
        late(completed_order_fill(v, s).value) == (LateFieldsView {
            auto_cancel_parent: if v >= AUTO_CANCEL_PARENT {
                completed_order_fill(v, s).value.order.auto_cancel_parent
            } else {
                s.value.order.auto_cancel_parent
            },
            ..late(s.value)
        }),
{
    reveal(completed_order_fill);
    lemma_dont_use_auto_price_for_hedge_keeps(v, s);
    let s1 = dont_use_auto_price_for_hedge(v, s);
    if s1.failure is None {
        lemma_is_oms_container_keeps(v, s1);
    }
    let s2 = if s1.failure is Some {
        s1
    } else {
        is_oms_container(v, s1)
    };
    if s2.failure is None {
        lemma_auto_cancel_date_keeps(v, s2);
    }
    let s3 = if s2.failure is Some {
        s2
    } else {
        auto_cancel_date(s2)
    };
    if s3.failure is None {
        lemma_filled_quantity_keeps(v, s3);
    }
    let s4 = if s3.failure is Some {
        s3
    } else {
        filled_quantity(s3)
    };
    if s4.failure is None {
        lemma_ref_futures_contract_id_keeps(v, s4);
    }
    let s5 = if s4.failure is Some {
        s4
    } else {
        ref_futures_contract_id(s4)
    };
    if s5.failure is None {
        lemma_auto_cancel_parent_keeps(v, s5);
    }
    let s6 = if s5.failure is Some {
        s5
    } else {
        auto_cancel_parent(v, s5)
    };
}

proof fn lemma_completed_order_completion_keeps(v: int, s: Reading<OrderDataView>)
    ensures
        late(completed_order_completion(v, s).value) == (LateFieldsView {
            imbalance_only: completed_order_completion(v, s).value.order.imbalance_only,
            min_trade_qty: if v >= PEGBEST_PEGMID_OFFSETS {
                completed_order_completion(v, s).value.order.min_trade_qty
            } else {
                s.value.order.min_trade_qty
            },
            min_compete_size: if v >= PEGBEST_PEGMID_OFFSETS {
                completed_order_completion(v, s).value.order.min_compete_size
            } else {
                s.value.order.min_compete_size
            },
            compete_against_best_offset: if v >= PEGBEST_PEGMID_OFFSETS {
                completed_order_completion(v, s).value.order.compete_against_best_offset
            } else {
                s.value.order.compete_against_best_offset
            },
            mid_offset_at_whole: if v >= PEGBEST_PEGMID_OFFSETS {
                completed_order_completion(v, s).value.order.mid_offset_at_whole
            } else {
                s.value.order.mid_offset_at_whole
            },
            mid_offset_at_half: if v >= PEGBEST_PEGMID_OFFSETS {
                completed_order_completion(v, s).value.order.mid_offset_at_half
            } else {
                s.value.order.mid_offset_at_half
            },
            ..late(s.value)
        }),
{
    reveal(completed_order_completion);
    lemma_shareholder_keeps(v, s);
    let s1 = shareholder(s);
    if s1.failure is None {
        lemma_imbalance_only_always_keeps(v, s1);
    }
    let s2 = if s1.failure is Some {
        s1
    } else {
        imbalance_only_always(s1)
    };
    if s2.failure is None {
        lemma_route_marketable_to_bbo_keeps(v, s2);
    }
    let s3 = if s2.failure is Some {
        s2
    } else {
        route_marketable_to_bbo(s2)
    };
    if s3.failure is None {
        lemma_parent_perm_id_keeps(v, s3);
    }
    let s4 = if s3.failure is Some {
        s3
    } else {
        parent_perm_id(s3)
    };
    if s4.failure is None {
        lemma_completed_time_keeps(v, s4);
    }
    let s5 = if s4.failure is Some {
        s4
    } else {
        completed_time(s4)
    };
    if s5.failure is None {
        lemma_completed_status_keeps(v, s5);
    }
    let s6 = if s5.failure is Some {
        s5
    } else {
        completed_status(s5)
    };
    if s6.failure is None {
        lemma_peg_best_peg_mid_order_attributes_keeps(v, s6);
    }
    let s7 = if s6.failure is Some {
        s6
    } else {
        peg_best_peg_mid_order_attributes(v, s6)
    };
}

proof fn lemma_completed_order_additions_keeps(v: int, s: Reading<OrderDataView>)
    ensures
        late(completed_order_additions(v, s).value) == (LateFieldsView {
            customer_account: if v >= CUSTOMER_ACCOUNT {
                completed_order_additions(v, s).value.order.customer_account
            } else {
                s.value.order.customer_account
            },
            professional_customer: if v >= PROFESSIONAL_CUSTOMER {
                completed_order_additions(v, s).value.order.professional_customer
            } else {
                s.value.order.professional_customer
            },
            submitter: if v >= SUBMITTER {
                completed_order_additions(v, s).value.order.submitter
            } else {
                s.value.order.submitter
            },
            ..late(s.value)
        }),
{
    reveal(completed_order_additions);
    lemma_customer_account_keeps(v, s);
    let s1 = customer_account(v, s);
    if s1.failure is None {
        lemma_professional_customer_keeps(v, s1);
    }
    let s2 = if s1.failure is Some {
        s1
    } else {
        professional_customer(v, s1)
    };
    if s2.failure is None {
        lemma_submitter_keeps(v, s2);
    }
    let s3 = if s2.failure is Some {
        s2
    } else {
        submitter(v, s2)
    };
}

proof fn lemma_open_order_base_keeps(v: int, m: MessageView)
    ensures
        late(open_order_base(v, m).value) == (LateFieldsView {
            order_id: open_order_base(v, m).value.order_id,
            cash_qty: if v >= CASH_QTY {
                open_order_base(v, m).value.order.cash_qty
            } else {
                begin(v, m).value.order.cash_qty
            },
            soft_dollar_tier: if v >= SOFT_DOLLAR_TIER {
                open_order_base(v, m).value.order.soft_dollar_tier
            } else {
                begin(v, m).value.order.soft_dollar_tier
            },
            duration: if v >= DURATION {
                open_order_base(v, m).value.order.duration
            } else {
                begin(v, m).value.order.duration
            },
            post_to_ats: if v >= POST_TO_ATS {
                open_order_base(v, m).value.order.post_to_ats
            } else {
                begin(v, m).value.order.post_to_ats
            },
            auto_cancel_parent: if v >= AUTO_CANCEL_PARENT {
                open_order_base(v, m).value.order.auto_cancel_parent
            } else {
                begin(v, m).value.order.auto_cancel_parent
            },
            min_trade_qty: if v >= PEGBEST_PEGMID_OFFSETS {
                open_order_base(v, m).value.order.min_trade_qty
            } else {
                begin(v, m).value.order.min_trade_qty
            },
            min_compete_size: if v >= PEGBEST_PEGMID_OFFSETS {
                open_order_base(v, m).value.order.min_compete_size
            } else {
                begin(v, m).value.order.min_compete_size
            },
            compete_against_best_offset: if v >= PEGBEST_PEGMID_OFFSETS {
                open_order_base(v, m).value.order.compete_against_best_offset
            } else {
                begin(v, m).value.order.compete_against_best_offset
            },
            mid_offset_at_whole: if v >= PEGBEST_PEGMID_OFFSETS {
                open_order_base(v, m).value.order.mid_offset_at_whole
            } else {
                begin(v, m).value.order.mid_offset_at_whole
            },
            mid_offset_at_half: if v >= PEGBEST_PEGMID_OFFSETS {
                open_order_base(v, m).value.order.mid_offset_at_half
            } else {
                begin(v, m).value.order.mid_offset_at_half
            },
            margin_currency: if v >= FULL_ORDER_PREVIEW_FIELDS {
                open_order_base(v, m).value.order_state.margin_currency
            } else {
                begin(v, m).value.order_state.margin_currency
            },
            initial_margin_before_outside_rth: if v >= FULL_ORDER_PREVIEW_FIELDS {
                open_order_base(v, m).value.order_state.initial_margin_before_outside_rth
            } else {
                begin(v, m).value.order_state.initial_margin_before_outside_rth
            },
            maintenance_margin_before_outside_rth: if v >= FULL_ORDER_PREVIEW_FIELDS {
                open_order_base(v, m).value.order_state.maintenance_margin_before_outside_rth
            } else {
                begin(v, m).value.order_state.maintenance_margin_before_outside_rth
            },
            equity_with_loan_before_outside_rth: if v >= FULL_ORDER_PREVIEW_FIELDS {
                open_order_base(v, m).value.order_state.equity_with_loan_before_outside_rth
            } else {
                begin(v, m).value.order_state.equity_with_loan_before_outside_rth
            },
            initial_margin_change_outside_rth: if v >= FULL_ORDER_PREVIEW_FIELDS {
                open_order_base(v, m).value.order_state.initial_margin_change_outside_rth
            } else {
                begin(v, m).value.order_state.initial_margin_change_outside_rth
            },
            maintenance_margin_change_outside_rth: if v >= FULL_ORDER_PREVIEW_FIELDS {
                open_order_base(v, m).value.order_state.maintenance_margin_change_outside_rth
            } else {
                begin(v, m).value.order_state.maintenance_margin_change_outside_rth
            },
            equity_with_loan_change_outside_rth: if v >= FULL_ORDER_PREVIEW_FIELDS {
                open_order_base(v, m).value.order_state.equity_with_loan_change_outside_rth
            } else {
                begin(v, m).value.order_state.equity_with_loan_change_outside_rth
            },
            initial_margin_after_outside_rth: if v >= FULL_ORDER_PREVIEW_FIELDS {
                open_order_base(v, m).value.order_state.initial_margin_after_outside_rth
            } else {
                begin(v, m).value.order_state.initial_margin_after_outside_rth
            },
            maintenance_margin_after_outside_rth: if v >= FULL_ORDER_PREVIEW_FIELDS {
                open_order_base(v, m).value.order_state.maintenance_margin_after_outside_rth
            } else {
                begin(v, m).value.order_state.maintenance_margin_after_outside_rth
            },
            equity_with_loan_after_outside_rth: if v >= FULL_ORDER_PREVIEW_FIELDS {
                open_order_base(v, m).value.order_state.equity_with_loan_after_outside_rth
            } else {
                begin(v, m).value.order_state.equity_with_loan_after_outside_rth
            },
            suggested_size: if v >= FULL_ORDER_PREVIEW_FIELDS {
                open_order_base(v, m).value.order_state.suggested_size
            } else {
                begin(v, m).value.order_state.suggested_size
            },
            reject_reason: if v >= FULL_ORDER_PREVIEW_FIELDS {
                open_order_base(v, m).value.order_state.reject_reason
            } else {
                begin(v, m).value.order_state.reject_reason
            },
            order_allocations: if v >= FULL_ORDER_PREVIEW_FIELDS {
                open_order_base(v, m).value.order_state.order_allocations
            } else {
                begin(v, m).value.order_state.order_allocations
            },
            ..late(begin(v, m).value)
        }),
{
    let s0 = begin(v, m);
    if s0.failure is None {
        lemma_open_order_header_keeps(v, s0);
    }
    let s1 = if s0.failure is Some {
        s0
    } else {
        open_order_header(s0)
    };
    if s1.failure is None {
        lemma_open_order_handling_keeps(v, s1);
    }
    let s2 = if s1.failure is Some {
        s1
    } else {
        open_order_handling(s1)
    };
    if s2.failure is None {
        lemma_open_order_routing_keeps(v, s2);
    }
    let s3 = if s2.failure is Some {
        s2
    } else {
        open_order_routing(v, s2)
    };
    if s3.failure is None {
        lemma_open_order_filling_keeps(v, s3);
    }
    let s4 = if s3.failure is Some {
        s3
    } else {
        open_order_filling(s3)
    };
    if s4.failure is None {
        lemma_open_order_strategy_keeps(v, s4);
    }
    let s5 = if s4.failure is Some {
        s4
    } else {
        open_order_strategy(s4)
    };
    if s5.failure is None {
        lemma_open_order_report_keeps(v, s5);
    }
    let s6 = if s5.failure is Some {
        s5
    } else {
        open_order_report(v, s5)
    };
    if s6.failure is None {
        lemma_open_order_extensions_keeps(v, s6);
    }
    let s7 = if s6.failure is Some {
        s6
    } else {
        open_order_extensions(v, s6)
    };
}

proof fn lemma_open_order_keeps(v: int, m: MessageView)
    ensures
        late(open_order(v, m).value) == (LateFieldsView {
            order_id: open_order(v, m).value.order_id,
            customer_account: if v >= CUSTOMER_ACCOUNT {
                open_order(v, m).value.order.customer_account
            } else {
                begin(v, m).value.order.customer_account
            },
            professional_customer: if v >= PROFESSIONAL_CUSTOMER {
                open_order(v, m).value.order.professional_customer
            } else {
                begin(v, m).value.order.professional_customer
            },
            bond_accrued_interest: if v >= BOND_ACCRUED_INTEREST {
                open_order(v, m).value.order.bond_accrued_interest
            } else {
                begin(v, m).value.order.bond_accrued_interest
            },
            include_overnight: if v >= INCLUDE_OVERNIGHT {
                open_order(v, m).value.order.include_overnight
            } else {
                begin(v, m).value.order.include_overnight
            },
            ext_operator: if v >= CME_TAGGING_FIELDS_IN_OPEN_ORDER {
                open_order(v, m).value.order.ext_operator
            } else {
                begin(v, m).value.order.ext_operator
            },
            manual_order_indicator: if v >= CME_TAGGING_FIELDS_IN_OPEN_ORDER {
                open_order(v, m).value.order.manual_order_indicator
            } else {
                begin(v, m).value.order.manual_order_indicator
            },
            submitter: if v >= SUBMITTER {
                open_order(v, m).value.order.submitter
            } else {
                begin(v, m).value.order.submitter
            },
            imbalance_only: if v >= IMBALANCE_ONLY {
                open_order(v, m).value.order.imbalance_only
            } else {
                begin(v, m).value.order.imbalance_only
            },
            cash_qty: if v >= CASH_QTY {
                open_order(v, m).value.order.cash_qty
            } else {
                begin(v, m).value.order.cash_qty
            },
            soft_dollar_tier: if v >= SOFT_DOLLAR_TIER {
                open_order(v, m).value.order.soft_dollar_tier
            } else {
                begin(v, m).value.order.soft_dollar_tier
            },
            duration: if v >= DURATION {
                open_order(v, m).value.order.duration
            } else {
                begin(v, m).value.order.duration
            },
            post_to_ats: if v >= POST_TO_ATS {
                open_order(v, m).value.order.post_to_ats
            } else {
                begin(v, m).value.order.post_to_ats
            },
            auto_cancel_parent: if v >= AUTO_CANCEL_PARENT {
                open_order(v, m).value.order.auto_cancel_parent
            } else {
                begin(v, m).value.order.auto_cancel_parent
            },
            min_trade_qty: if v >= PEGBEST_PEGMID_OFFSETS {
                open_order(v, m).value.order.min_trade_qty
            } else {
                begin(v, m).value.order.min_trade_qty
            },
            min_compete_size: if v >= PEGBEST_PEGMID_OFFSETS {
                open_order(v, m).value.order.min_compete_size
            } else {
                begin(v, m).value.order.min_compete_size
            },
            compete_against_best_offset: if v >= PEGBEST_PEGMID_OFFSETS {
                open_order(v, m).value.order.compete_against_best_offset
            } else {
                begin(v, m).value.order.compete_against_best_offset
            },
            mid_offset_at_whole: if v >= PEGBEST_PEGMID_OFFSETS {
                open_order(v, m).value.order.mid_offset_at_whole
            } else {
                begin(v, m).value.order.mid_offset_at_whole
            },
            mid_offset_at_half: if v >= PEGBEST_PEGMID_OFFSETS {
                open_order(v, m).value.order.mid_offset_at_half
            } else {
                begin(v, m).value.order.mid_offset_at_half
            },
            margin_currency: if v >= FULL_ORDER_PREVIEW_FIELDS {
                open_order(v, m).value.order_state.margin_currency
            } else {
                begin(v, m).value.order_state.margin_currency
            },
            initial_margin_before_outside_rth: if v >= FULL_ORDER_PREVIEW_FIELDS {
                open_order(v, m).value.order_state.initial_margin_before_outside_rth
            } else {
                begin(v, m).value.order_state.initial_margin_before_outside_rth
            },
            maintenance_margin_before_outside_rth: if v >= FULL_ORDER_PREVIEW_FIELDS {
                open_order(v, m).value.order_state.maintenance_margin_before_outside_rth
            } else {
                begin(v, m).value.order_state.maintenance_margin_before_outside_rth
            },
            equity_with_loan_before_outside_rth: if v >= FULL_ORDER_PREVIEW_FIELDS {
                open_order(v, m).value.order_state.equity_with_loan_before_outside_rth
            } else {
                begin(v, m).value.order_state.equity_with_loan_before_outside_rth
            },
            initial_margin_change_outside_rth: if v >= FULL_ORDER_PREVIEW_FIELDS {
                open_order(v, m).value.order_state.initial_margin_change_outside_rth
            } else {
                begin(v, m).value.order_state.initial_margin_change_outside_rth
            },
            maintenance_margin_change_outside_rth: if v >= FULL_ORDER_PREVIEW_FIELDS {
                open_order(v, m).value.order_state.maintenance_margin_change_outside_rth
            } else {
                begin(v, m).value.order_state.maintenance_margin_change_outside_rth
            },
            equity_with_loan_change_outside_rth: if v >= FULL_ORDER_PREVIEW_FIELDS {
                open_order(v, m).value.order_state.equity_with_loan_change_outside_rth
            } else {
                begin(v, m).value.order_state.equity_with_loan_change_outside_rth
            },
            initial_margin_after_outside_rth: if v >= FULL_ORDER_PREVIEW_FIELDS {
                open_order(v, m).value.order_state.initial_margin_after_outside_rth
            } else {
                begin(v, m).value.order_state.initial_margin_after_outside_rth
            },
            maintenance_margin_after_outside_rth: if v >= FULL_ORDER_PREVIEW_FIELDS {
                open_order(v, m).value.order_state.maintenance_margin_after_outside_rth
            } else {
                begin(v, m).value.order_state.maintenance_margin_after_outside_rth
            },
            equity_with_loan_after_outside_rth: if v >= FULL_ORDER_PREVIEW_FIELDS {
                open_order(v, m).value.order_state.equity_with_loan_after_outside_rth
            } else {
                begin(v, m).value.order_state.equity_with_loan_after_outside_rth
            },
            suggested_size: if v >= FULL_ORDER_PREVIEW_FIELDS {
                open_order(v, m).value.order_state.suggested_size
            } else {
                begin(v, m).value.order_state.suggested_size
            },
            reject_reason: if v >= FULL_ORDER_PREVIEW_FIELDS {
                open_order(v, m).value.order_state.reject_reason
            } else {
                begin(v, m).value.order_state.reject_reason
            },
            order_allocations: if v >= FULL_ORDER_PREVIEW_FIELDS {
                open_order(v, m).value.order_state.order_allocations
            } else {
                begin(v, m).value.order_state.order_allocations
            },
            ..late(begin(v, m).value)
        }),
{
    lemma_open_order_base_keeps(v, m);
    let s0 = open_order_base(v, m);
    if s0.failure is None {
        lemma_open_order_additions_keeps(v, s0);
    }
    let s1 = if s0.failure is Some {
        s0
    } else {
        open_order_additions(v, s0)
    };
}

/// What the version decides of a finished record: a field that a later
/// version added to an open order has, below that version, the value that
/// it has in a record into which nothing was read. This holds of
/// every message, also of one that stops the decoder.
pub proof fn lemma_open_order_leaves_later_fields_alone(v: int, m: MessageView)
    ensures
        ({
            let d = open_order(v, m).value;
            let fresh = OrderDataView::initial();
            &&& v < CUSTOMER_ACCOUNT ==> d.order.customer_account == fresh.order.customer_account
            &&& v < PROFESSIONAL_CUSTOMER ==> d.order.professional_customer == fresh.order.professional_customer
            &&& v < BOND_ACCRUED_INTEREST ==> d.order.bond_accrued_interest == fresh.order.bond_accrued_interest
            &&& v < INCLUDE_OVERNIGHT ==> d.order.include_overnight == fresh.order.include_overnight
            &&& v < CME_TAGGING_FIELDS_IN_OPEN_ORDER ==> d.order.ext_operator == fresh.order.ext_operator
            &&& v < CME_TAGGING_FIELDS_IN_OPEN_ORDER ==> d.order.manual_order_indicator == fresh.order.manual_order_indicator
            &&& v < SUBMITTER ==> d.order.submitter == fresh.order.submitter
            &&& v < IMBALANCE_ONLY ==> d.order.imbalance_only == fresh.order.imbalance_only
            &&& v < CASH_QTY ==> d.order.cash_qty == fresh.order.cash_qty
            &&& v < SOFT_DOLLAR_TIER ==> d.order.soft_dollar_tier == fresh.order.soft_dollar_tier
            &&& v < DURATION ==> d.order.duration == fresh.order.duration
            &&& v < POST_TO_ATS ==> d.order.post_to_ats == fresh.order.post_to_ats
            &&& v < AUTO_CANCEL_PARENT ==> d.order.auto_cancel_parent == fresh.order.auto_cancel_parent
            &&& v < PEGBEST_PEGMID_OFFSETS ==> d.order.min_trade_qty == fresh.order.min_trade_qty
            &&& v < PEGBEST_PEGMID_OFFSETS ==> d.order.min_compete_size == fresh.order.min_compete_size
            &&& v < PEGBEST_PEGMID_OFFSETS ==> d.order.compete_against_best_offset == fresh.order.compete_against_best_offset
            &&& v < PEGBEST_PEGMID_OFFSETS ==> d.order.mid_offset_at_whole == fresh.order.mid_offset_at_whole
            &&& v < PEGBEST_PEGMID_OFFSETS ==> d.order.mid_offset_at_half == fresh.order.mid_offset_at_half
            &&& v < FULL_ORDER_PREVIEW_FIELDS ==> d.order_state.margin_currency == fresh.order_state.margin_currency
            &&& v < FULL_ORDER_PREVIEW_FIELDS ==> d.order_state.initial_margin_before_outside_rth == fresh.order_state.initial_margin_before_outside_rth
            &&& v < FULL_ORDER_PREVIEW_FIELDS ==> d.order_state.maintenance_margin_before_outside_rth == fresh.order_state.maintenance_margin_before_outside_rth
            &&& v < FULL_ORDER_PREVIEW_FIELDS ==> d.order_state.equity_with_loan_before_outside_rth == fresh.order_state.equity_with_loan_before_outside_rth
            &&& v < FULL_ORDER_PREVIEW_FIELDS ==> d.order_state.initial_margin_change_outside_rth == fresh.order_state.initial_margin_change_outside_rth
            &&& v < FULL_ORDER_PREVIEW_FIELDS ==> d.order_state.maintenance_margin_change_outside_rth == fresh.order_state.maintenance_margin_change_outside_rth
            &&& v < FULL_ORDER_PREVIEW_FIELDS ==> d.order_state.equity_with_loan_change_outside_rth == fresh.order_state.equity_with_loan_change_outside_rth
            &&& v < FULL_ORDER_PREVIEW_FIELDS ==> d.order_state.initial_margin_after_outside_rth == fresh.order_state.initial_margin_after_outside_rth
            &&& v < FULL_ORDER_PREVIEW_FIELDS ==> d.order_state.maintenance_margin_after_outside_rth == fresh.order_state.maintenance_margin_after_outside_rth
            &&& v < FULL_ORDER_PREVIEW_FIELDS ==> d.order_state.equity_with_loan_after_outside_rth == fresh.order_state.equity_with_loan_after_outside_rth
            &&& v < FULL_ORDER_PREVIEW_FIELDS ==> d.order_state.suggested_size == fresh.order_state.suggested_size
            &&& v < FULL_ORDER_PREVIEW_FIELDS ==> d.order_state.reject_reason == fresh.order_state.reject_reason
            &&& v < FULL_ORDER_PREVIEW_FIELDS ==> d.order_state.order_allocations == fresh.order_state.order_allocations
        }),
{
    lemma_open_order_keeps(v, m);
}

proof fn lemma_completed_order_base_keeps(v: int, m: MessageView)
    ensures
        late(completed_order_base(v, m).value) == (LateFieldsView {
            imbalance_only: completed_order_base(v, m).value.order.imbalance_only,
            cash_qty: if v >= CASH_QTY {
                completed_order_base(v, m).value.order.cash_qty
            } else {
                begin(v, m).value.order.cash_qty
            },
            auto_cancel_parent: if v >= AUTO_CANCEL_PARENT {
                completed_order_base(v, m).value.order.auto_cancel_parent
            } else {
                begin(v, m).value.order.auto_cancel_parent
            },
            min_trade_qty: if v >= PEGBEST_PEGMID_OFFSETS {
                completed_order_base(v, m).value.order.min_trade_qty
            } else {
                begin(v, m).value.order.min_trade_qty
            },
            min_compete_size: if v >= PEGBEST_PEGMID_OFFSETS {
                completed_order_base(v, m).value.order.min_compete_size
            } else {
                begin(v, m).value.order.min_compete_size
            },
            compete_against_best_offset: if v >= PEGBEST_PEGMID_OFFSETS {
                completed_order_base(v, m).value.order.compete_against_best_offset
            } else {
                begin(v, m).value.order.compete_against_best_offset
            },
            mid_offset_at_whole: if v >= PEGBEST_PEGMID_OFFSETS {
                completed_order_base(v, m).value.order.mid_offset_at_whole
            } else {
                begin(v, m).value.order.mid_offset_at_whole
            },
            mid_offset_at_half: if v >= PEGBEST_PEGMID_OFFSETS {
                completed_order_base(v, m).value.order.mid_offset_at_half
            } else {
                begin(v, m).value.order.mid_offset_at_half
            },
            ..late(begin(v, m).value)
        }),
{
    let s0 = begin(v, m);
    if s0.failure is None {
        lemma_completed_order_header_keeps(v, s0);
    }
    let s1 = if s0.failure is Some {
        s0
    } else {
        completed_order_header(s0)
    };
    if s1.failure is None {
        lemma_completed_order_handling_keeps(v, s1);
    }
    let s2 = if s1.failure is Some {
        s1
    } else {
        completed_order_handling(s1)
    };
    if s2.failure is None {
        lemma_completed_order_routing_keeps(v, s2);
    }
    let s3 = if s2.failure is Some {
        s2
    } else {
        completed_order_routing(v, s2)
    };
    if s3.failure is None {
        lemma_completed_order_filling_keeps(v, s3);
    }
    let s4 = if s3.failure is Some {
        s3
    } else {
        completed_order_filling(s3)
    };
    if s4.failure is None {
        lemma_completed_order_strategy_keeps(v, s4);
    }
    let s5 = if s4.failure is Some {
        s4
    } else {
        completed_order_strategy(s4)
    };
    if s5.failure is None {
        lemma_completed_order_report_keeps(v, s5);
    }
    let s6 = if s5.failure is Some {
        s5
    } else {
        completed_order_report(v, s5)
    };
    if s6.failure is None {
        lemma_completed_order_fill_keeps(v, s6);
    }
    let s7 = if s6.failure is Some {
        s6
    } else {
        completed_order_fill(v, s6)
    };
    if s7.failure is None {
        lemma_completed_order_completion_keeps(v, s7);
    }
    let s8 = if s7.failure is Some {
        s7
    } else {
        completed_order_completion(v, s7)
    };
}

proof fn lemma_completed_order_keeps(v: int, m: MessageView)
    ensures
        late(completed_order(v, m).value) == (LateFieldsView {
            customer_account: if v >= CUSTOMER_ACCOUNT {
                completed_order(v, m).value.order.customer_account
            } else {
                begin(v, m).value.order.customer_account
            },
            professional_customer: if v >= PROFESSIONAL_CUSTOMER {
                completed_order(v, m).value.order.professional_customer
            } else {
                begin(v, m).value.order.professional_customer
            },
            submitter: if v >= SUBMITTER {
                completed_order(v, m).value.order.submitter
            } else {
                begin(v, m).value.order.submitter
            },
            imbalance_only: completed_order(v, m).value.order.imbalance_only,
            cash_qty: if v >= CASH_QTY {
                completed_order(v, m).value.order.cash_qty
            } else {
                begin(v, m).value.order.cash_qty
            },
            auto_cancel_parent: if v >= AUTO_CANCEL_PARENT {
                completed_order(v, m).value.order.auto_cancel_parent
            } else {
                begin(v, m).value.order.auto_cancel_parent
            },
            min_trade_qty: if v >= PEGBEST_PEGMID_OFFSETS {
                completed_order(v, m).value.order.min_trade_qty
            } else {
                begin(v, m).value.order.min_trade_qty
            },
            min_compete_size: if v >= PEGBEST_PEGMID_OFFSETS {
                completed_order(v, m).value.order.min_compete_size
            } else {
                begin(v, m).value.order.min_compete_size
            },
            compete_against_best_offset: if v >= PEGBEST_PEGMID_OFFSETS {
                completed_order(v, m).value.order.compete_against_best_offset
            } else {
                begin(v, m).value.order.compete_against_best_offset
            },
            mid_offset_at_whole: if v >= PEGBEST_PEGMID_OFFSETS {
                completed_order(v, m).value.order.mid_offset_at_whole
            } else {
                begin(v, m).value.order.mid_offset_at_whole
            },
            mid_offset_at_half: if v >= PEGBEST_PEGMID_OFFSETS {
                completed_order(v, m).value.order.mid_offset_at_half
            } else {
                begin(v, m).value.order.mid_offset_at_half
            },
            ..late(begin(v, m).value)
        }),
{
    lemma_completed_order_base_keeps(v, m);
    let s0 = completed_order_base(v, m);
    if s0.failure is None {
        lemma_completed_order_additions_keeps(v, s0);
    }
    let s1 = if s0.failure is Some {
        s0
    } else {
        completed_order_additions(v, s0)
    };
}

/// What the version decides of a finished record: a field that a later
/// version added to a completed order has, below that version, the value that
/// it has in a record into which nothing was read. This holds of
/// every message, also of one that stops the decoder.
pub proof fn lemma_completed_order_leaves_later_fields_alone(v: int, m: MessageView)
    ensures
        ({
            let d = completed_order(v, m).value;
            let fresh = OrderDataView::initial();
            &&& d.order_id == -1
            &&& v < CUSTOMER_ACCOUNT ==> d.order.customer_account == fresh.order.customer_account
            &&& v < PROFESSIONAL_CUSTOMER ==> d.order.professional_customer == fresh.order.professional_customer
            &&& d.order.bond_accrued_interest == fresh.order.bond_accrued_interest
            &&& d.order.include_overnight == fresh.order.include_overnight
            &&& d.order.ext_operator == fresh.order.ext_operator
            &&& d.order.manual_order_indicator == fresh.order.manual_order_indicator
            &&& v < SUBMITTER ==> d.order.submitter == fresh.order.submitter
            &&& v < CASH_QTY ==> d.order.cash_qty == fresh.order.cash_qty
            &&& d.order.soft_dollar_tier == fresh.order.soft_dollar_tier
            &&& d.order.duration == fresh.order.duration
            &&& d.order.post_to_ats == fresh.order.post_to_ats
            &&& v < AUTO_CANCEL_PARENT ==> d.order.auto_cancel_parent == fresh.order.auto_cancel_parent
            &&& v < PEGBEST_PEGMID_OFFSETS ==> d.order.min_trade_qty == fresh.order.min_trade_qty
            &&& v < PEGBEST_PEGMID_OFFSETS ==> d.order.min_compete_size == fresh.order.min_compete_size
            &&& v < PEGBEST_PEGMID_OFFSETS ==> d.order.compete_against_best_offset == fresh.order.compete_against_best_offset
            &&& v < PEGBEST_PEGMID_OFFSETS ==> d.order.mid_offset_at_whole == fresh.order.mid_offset_at_whole
            &&& v < PEGBEST_PEGMID_OFFSETS ==> d.order.mid_offset_at_half == fresh.order.mid_offset_at_half
            &&& d.order_state.margin_currency == fresh.order_state.margin_currency
            &&& d.order_state.initial_margin_before_outside_rth == fresh.order_state.initial_margin_before_outside_rth
            &&& d.order_state.maintenance_margin_before_outside_rth == fresh.order_state.maintenance_margin_before_outside_rth
            &&& d.order_state.equity_with_loan_before_outside_rth == fresh.order_state.equity_with_loan_before_outside_rth
            &&& d.order_state.initial_margin_change_outside_rth == fresh.order_state.initial_margin_change_outside_rth
            &&& d.order_state.maintenance_margin_change_outside_rth == fresh.order_state.maintenance_margin_change_outside_rth
            &&& d.order_state.equity_with_loan_change_outside_rth == fresh.order_state.equity_with_loan_change_outside_rth
            &&& d.order_state.initial_margin_after_outside_rth == fresh.order_state.initial_margin_after_outside_rth
            &&& d.order_state.maintenance_margin_after_outside_rth == fresh.order_state.maintenance_margin_after_outside_rth
            &&& d.order_state.equity_with_loan_after_outside_rth == fresh.order_state.equity_with_loan_after_outside_rth
            &&& d.order_state.suggested_size == fresh.order_state.suggested_size
            &&& d.order_state.reject_reason == fresh.order_state.reject_reason
            &&& d.order_state.order_allocations == fresh.order_state.order_allocations
        }),
{
    lemma_completed_order_keeps(v, m);
}

proof fn lemma_open_order_header_keeps_identifier(v: int, s: Reading<OrderDataView>)
    ensures
        open_order_header(s).failure is None ==> order_id(s).failure is None && open_order_header(
            s,
        ).value.order_id == order_id(s).value.order_id,
{
    reveal(open_order_header);
    let s1 = order_id(s);
    if s1.failure is None {
        lemma_contract_fields_keeps(v, s1);
    }
    let s2 = if s1.failure is Some {
        s1
    } else {
        contract_fields(s1)
    };
    if s2.failure is None {
        lemma_action_keeps(v, s2);
    }
    let s3 = if s2.failure is Some {
        s2
    } else {
        action(s2)
    };
    if s3.failure is None {
        lemma_total_quantity_keeps(v, s3);
    }
    let s4 = if s3.failure is Some {
        s3
    } else {
        total_quantity(s3)
    };
    if s4.failure is None {
        lemma_order_type_keeps(v, s4);
    }
    let s5 = if s4.failure is Some {
        s4
    } else {
        order_type(s4)
    };
    if s5.failure is None {
        lemma_limit_price_keeps(v, s5);
    }
    let s6 = if s5.failure is Some {
        s5
    } else {
        limit_price(s5)
    };
    if s6.failure is None {
        lemma_aux_price_keeps(v, s6);
    }
    let s7 = if s6.failure is Some {
        s6
    } else {
        aux_price(s6)
    };
    if s7.failure is None {
        lemma_tif_keeps(v, s7);
    }
    let s8 = if s7.failure is Some {
        s7
    } else {
        tif(s7)
    };
    if s8.failure is None {
        lemma_oca_group_keeps(v, s8);
    }
    let s9 = if s8.failure is Some {
        s8
    } else {
        oca_group(s8)
    };
    if s9.failure is None {
        lemma_account_keeps(v, s9);
    }
    let s10 = if s9.failure is Some {
        s9
    } else {
        account(s9)
    };
}

/// An open order is routed by the order that it names: where the frame
/// starts with the kind of an open order and decodes, the key by which the
/// router finds its owner is the order identifier of the record.
pub proof fn lemma_open_order_is_routed_by_its_order(v: int, m: MessageView)
    requires
        m.position == 0,
        m.read_int() == Ok::<int, ErrorView>(OPEN_ORDER as int),
        open_order(v, m).failure is None,
        open_order(v, m).value.order_id >= 0,
    ensures
        route_of(m, v) == Ok::<Route, ErrorView>(
            Route {
                kind: OPEN_ORDER,
                key: RoutingKey::Order(open_order(v, m).value.order_id as i32),
                end_of_stream: false,
            },
        ),
{
    reveal(order_id);
    let s0 = begin(v, m);
    lemma_open_order_header_keeps_identifier(v, s0);
    let s1 = open_order_header(s0);
    if s1.failure is None {
        lemma_open_order_handling_keeps(v, s1);
    }
    let s2 = if s1.failure is Some {
        s1
    } else {
        open_order_handling(s1)
    };
    if s2.failure is None {
        lemma_open_order_routing_keeps(v, s2);
    }
    let s3 = if s2.failure is Some {
        s2
    } else {
        open_order_routing(v, s2)
    };
    if s3.failure is None {
        lemma_open_order_filling_keeps(v, s3);
    }
    let s4 = if s3.failure is Some {
        s3
    } else {
        open_order_filling(s3)
    };
    if s4.failure is None {
        lemma_open_order_strategy_keeps(v, s4);
    }
    let s5 = if s4.failure is Some {
        s4
    } else {
        open_order_strategy(s4)
    };
    if s5.failure is None {
        lemma_open_order_report_keeps(v, s5);
    }
    let s6 = if s5.failure is Some {
        s5
    } else {
        open_order_report(v, s5)
    };
    if s6.failure is None {
        lemma_open_order_extensions_keeps(v, s6);
    }
    let s7 = if s6.failure is Some {
        s6
    } else {
        open_order_extensions(v, s6)
    };
    if s7.failure is None {
        lemma_open_order_additions_keeps(v, s7);
    }
    let s8 = if s7.failure is Some {
        s7
    } else {
        open_order_additions(v, s7)
    };
    assert(open_order(v, m) == s8);
}

} // verus!

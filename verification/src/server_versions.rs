//! The protocol versions at which the server began to send a field block.

use vstd::prelude::*;

verus! {

/// Orders pegged to a benchmark, conditions and adjusted orders.
pub const PEGGED_TO_BENCHMARK: i32 = 102;

/// Model codes.
pub const MODELS_SUPPORT: i32 = 103;

/// Soft-dollar tiers.
pub const SOFT_DOLLAR_TIER: i32 = 106;

/// Cash quantities.
pub const CASH_QTY: i32 = 111;

/// The capped price of an order status, which has no message version since.
pub const MARKET_CAP_PRICE: i32 = 131;

/// The liquidity of the last fill; an execution has no message version since.
pub const LAST_LIQUIDITY: i32 = 136;

/// Hedges that keep their own price.
pub const AUTO_PRICE_FOR_HEDGE: i32 = 141;

/// The margins before a what-if order and their change.
pub const WHAT_IF_EXT_FIELDS: i32 = 142;

/// OMS containers; an order message has no message version since.
pub const ORDER_CONTAINER: i32 = 145;

/// Discretion up to the limit price.
pub const D_PEG_ORDERS: i32 = 148;

/// The price management algorithm.
pub const PRICE_MGMT_ALGO: i32 = 151;

/// The duration of an order.
pub const DURATION: i32 = 158;

/// Posting to the ATS.
pub const POST_TO_ATS: i32 = 160;

/// Cancelling the parent with its children.
pub const AUTO_CANCEL_PARENT: i32 = 162;

/// The offsets of orders pegged to the best price or to the midpoint.
pub const PEGBEST_PEGMID_OFFSETS: i32 = 170;

/// The advisor profile is withdrawn: from this version on it is not sent.
pub const FA_PROFILE_DESUPPORT: i32 = 177;

/// The price revision flag of an execution.
pub const PENDING_PRICE_REVISION: i32 = 178;

/// The account of the customer.
pub const CUSTOMER_ACCOUNT: i32 = 183;

/// The professional customer flag.
pub const PROFESSIONAL_CUSTOMER: i32 = 184;

/// The accrued interest of a bond.
pub const BOND_ACCRUED_INTEREST: i32 = 185;

/// Overnight trading.
pub const INCLUDE_OVERNIGHT: i32 = 189;

/// The CME tagging fields of an open order.
pub const CME_TAGGING_FIELDS_IN_OPEN_ORDER: i32 = 193;

/// The full preview of a what-if order.
pub const FULL_ORDER_PREVIEW_FIELDS: i32 = 195;

/// The submitter of an order.
pub const SUBMITTER: i32 = 198;

/// Orders that trade imbalances only.
pub const IMBALANCE_ONLY: i32 = 199;

} // verus!

//! Conditions under which an order is sent or cancelled.

use vstd::prelude::*;
use vstd::string::*;
use crate::numeric::zero_text;
use crate::numeric::Decimal;

verus! {

/// Which price triggers a simulated stop or a price condition.
#[derive(Clone, Copy, Debug, PartialEq, Eq)]
pub enum TriggerMethod {
    /// The method that is usual for the instrument.
    Standard,
    /// Two bids or asks in a row.
    DoubleBidAsk,
    /// The last price.
    Last,
    /// Two last prices in a row.
    DoubleLast,
    /// The bid or the ask.
    BidAsk,
    /// The last price, or the bid or the ask.
    LastOrBidAsk,
    /// The midpoint.
    Midpoint,
}

impl TriggerMethod {
    /// The value that a wire code stands for.
    pub open spec fn of_code(code: int) -> TriggerMethod {
        if code == 1 {
            TriggerMethod::DoubleBidAsk
        } else if code == 2 {
            TriggerMethod::Last
        } else if code == 3 {
            TriggerMethod::DoubleLast
        } else if code == 4 {
            TriggerMethod::BidAsk
        } else if code == 7 {
            TriggerMethod::LastOrBidAsk
        } else if code == 8 {
            TriggerMethod::Midpoint
        } else {
            TriggerMethod::Standard
        }
    }

    /// The wire code of a value.
    pub open spec fn code_of(self) -> int {
        match self {
            TriggerMethod::Standard => 0,
            TriggerMethod::DoubleBidAsk => 1,
            TriggerMethod::Last => 2,
            TriggerMethod::DoubleLast => 3,
            TriggerMethod::BidAsk => 4,
            TriggerMethod::LastOrBidAsk => 7,
            TriggerMethod::Midpoint => 8,
        }
    }

    /// Reads a wire code; an unknown code reads as `Standard`.
    pub fn from(code: i32) -> (r: TriggerMethod)
        ensures
            r == TriggerMethod::of_code(code as int),
    {
        if code == 1 {
            TriggerMethod::DoubleBidAsk
        } else if code == 2 {
            TriggerMethod::Last
        } else if code == 3 {
            TriggerMethod::DoubleLast
        } else if code == 4 {
            TriggerMethod::BidAsk
        } else if code == 7 {
            TriggerMethod::LastOrBidAsk
        } else if code == 8 {
            TriggerMethod::Midpoint
        } else {
            TriggerMethod::Standard
        }
    }

    /// The wire code of this value.
    pub fn code(&self) -> (r: i32)
        ensures
            r == self.code_of(),
    {
        match self {
            TriggerMethod::Standard => 0,
            TriggerMethod::DoubleBidAsk => 1,
            TriggerMethod::Last => 2,
            TriggerMethod::DoubleLast => 3,
            TriggerMethod::BidAsk => 4,
            TriggerMethod::LastOrBidAsk => 7,
            TriggerMethod::Midpoint => 8,
        }
    }

    /// A value read back from its own wire code is the value.
    pub proof fn lemma_code_round_trip(self)
        ensures
            TriggerMethod::of_code(self.code_of()) == self,
    {
    }
}

/// Holds when the price of a contract passes a level.
#[derive(Clone, Debug, PartialEq)]
pub struct PriceCondition {
    /// Contract whose price is watched.
    pub contract_id: i32,
    /// Exchange where the price is watched.
    pub exchange: String,
    /// Price that triggers the condition.
    pub price: Decimal,
    /// Which price counts.
    pub trigger_method: TriggerMethod,
    /// Whether the price must be above, not below.
    pub is_more: bool,
    /// Whether the next condition is joined by "and", not "or".
    pub is_conjunction: bool,
}

/// The mathematical content of [`PriceCondition`].
pub struct PriceConditionView {
    pub contract_id: int,
    pub exchange: Seq<char>,
    pub price: Seq<char>,
    pub trigger_method: TriggerMethod,
    pub is_more: bool,
    pub is_conjunction: bool,
}

impl View for PriceCondition {
    type V = PriceConditionView;

    open spec fn view(&self) -> PriceConditionView {
        PriceConditionView {
            contract_id: self.contract_id as int,
            exchange: self.exchange@,
            price: self.price@,
            trigger_method: self.trigger_method,
            is_more: self.is_more,
            is_conjunction: self.is_conjunction,
        }
    }
}

impl PriceConditionView {
    /// The record before anything was read into it.
    pub open spec fn initial() -> PriceConditionView {
        PriceConditionView {
            contract_id: 0,
            exchange: Seq::<char>::empty(),
            price: zero_text(),
            trigger_method: TriggerMethod::Standard,
            is_more: false,
            is_conjunction: false,
        }
    }
}

impl Default for PriceCondition {
    fn default() -> (r: PriceCondition)
        ensures
            r@ == PriceConditionView::initial(),
    {
        let r = PriceCondition {
            contract_id: 0,
            exchange: String::new(),
            price: Decimal::zero(),
            trigger_method: TriggerMethod::Standard,
            is_more: false,
            is_conjunction: false,
        };
        r
    }
}

/// Holds before or after a point in time.
#[derive(Clone, Debug, PartialEq)]
pub struct TimeCondition {
    /// Time that triggers the condition.
    pub time: String,
    /// Whether the time must be later, not earlier.
    pub is_more: bool,
    /// Whether the next condition is joined by "and", not "or".
    pub is_conjunction: bool,
}

/// The mathematical content of [`TimeCondition`].
pub struct TimeConditionView {
    pub time: Seq<char>,
    pub is_more: bool,
    pub is_conjunction: bool,
}

impl View for TimeCondition {
    type V = TimeConditionView;

    open spec fn view(&self) -> TimeConditionView {
        TimeConditionView {
            time: self.time@,
            is_more: self.is_more,
            is_conjunction: self.is_conjunction,
        }
    }
}

impl TimeConditionView {
    /// The record before anything was read into it.
    pub open spec fn initial() -> TimeConditionView {
        TimeConditionView {
            time: Seq::<char>::empty(),
            is_more: false,
            is_conjunction: false,
        }
    }
}

impl Default for TimeCondition {
    fn default() -> (r: TimeCondition)
        ensures
            r@ == TimeConditionView::initial(),
    {
        let r = TimeCondition {
            time: String::new(),
            is_more: false,
            is_conjunction: false,
        };
        r
    }
}

/// Holds when the margin cushion passes a level.
#[derive(Clone, Debug, PartialEq)]
pub struct MarginCondition {
    /// Margin cushion in percent.
    pub percent: i32,
    /// Whether the cushion must be above, not below.
    pub is_more: bool,
    /// Whether the next condition is joined by "and", not "or".
    pub is_conjunction: bool,
}

/// The mathematical content of [`MarginCondition`].
pub struct MarginConditionView {
    pub percent: int,
    pub is_more: bool,
    pub is_conjunction: bool,
}

impl View for MarginCondition {
    type V = MarginConditionView;

    open spec fn view(&self) -> MarginConditionView {
        MarginConditionView {
            percent: self.percent as int,
            is_more: self.is_more,
            is_conjunction: self.is_conjunction,
        }
    }
}

impl MarginConditionView {
    /// The record before anything was read into it.
    pub open spec fn initial() -> MarginConditionView {
        MarginConditionView {
            percent: 0,
            is_more: false,
            is_conjunction: false,
        }
    }
}

impl Default for MarginCondition {
    fn default() -> (r: MarginCondition)
        ensures
            r@ == MarginConditionView::initial(),
    {
        let r = MarginCondition {
            percent: 0,
            is_more: false,
            is_conjunction: false,
        };
        r
    }
}

/// Holds when a contract has traded.
#[derive(Clone, Debug, PartialEq)]
pub struct ExecutionCondition {
    /// Symbol of the contract.
    pub symbol: String,
    /// Kind of security.
    pub security_type: String,
    /// Exchange of the contract.
    pub exchange: String,
    /// Whether the next condition is joined by "and", not "or".
    pub is_conjunction: bool,
}

/// The mathematical content of [`ExecutionCondition`].
pub struct ExecutionConditionView {
    pub symbol: Seq<char>,
    pub security_type: Seq<char>,
    pub exchange: Seq<char>,
    pub is_conjunction: bool,
}

impl View for ExecutionCondition {
    type V = ExecutionConditionView;

    open spec fn view(&self) -> ExecutionConditionView {
        ExecutionConditionView {
            symbol: self.symbol@,
            security_type: self.security_type@,
            exchange: self.exchange@,
            is_conjunction: self.is_conjunction,
        }
    }
}

impl ExecutionConditionView {
    /// The record before anything was read into it.
    pub open spec fn initial() -> ExecutionConditionView {
        ExecutionConditionView {
            symbol: Seq::<char>::empty(),
            security_type: Seq::<char>::empty(),
            exchange: Seq::<char>::empty(),
            is_conjunction: false,
        }
    }
}

impl Default for ExecutionCondition {
    fn default() -> (r: ExecutionCondition)
        ensures
            r@ == ExecutionConditionView::initial(),
    {
        let r = ExecutionCondition {
            symbol: String::new(),
            security_type: String::new(),
            exchange: String::new(),
            is_conjunction: false,
        };
        r
    }
}

/// Holds when the volume of a contract passes a level.
#[derive(Clone, Debug, PartialEq)]
pub struct VolumeCondition {
    /// Contract whose volume is watched.
    pub contract_id: i32,
    /// Exchange where the volume is watched.
    pub exchange: String,
    /// Volume that triggers the condition.
    pub volume: i32,
    /// Whether the volume must be above, not below.
    pub is_more: bool,
    /// Whether the next condition is joined by "and", not "or".
    pub is_conjunction: bool,
}

/// The mathematical content of [`VolumeCondition`].
pub struct VolumeConditionView {
    pub contract_id: int,
    pub exchange: Seq<char>,
    pub volume: int,
    pub is_more: bool,
    pub is_conjunction: bool,
}

impl View for VolumeCondition {
    type V = VolumeConditionView;

    open spec fn view(&self) -> VolumeConditionView {
        VolumeConditionView {
            contract_id: self.contract_id as int,
            exchange: self.exchange@,
            volume: self.volume as int,
            is_more: self.is_more,
            is_conjunction: self.is_conjunction,
        }
    }
}

impl VolumeConditionView {
    /// The record before anything was read into it.
    pub open spec fn initial() -> VolumeConditionView {
        VolumeConditionView {
            contract_id: 0,
            exchange: Seq::<char>::empty(),
            volume: 0,
            is_more: false,
            is_conjunction: false,
        }
    }
}

impl Default for VolumeCondition {
    fn default() -> (r: VolumeCondition)
        ensures
            r@ == VolumeConditionView::initial(),
    {
        let r = VolumeCondition {
            contract_id: 0,
            exchange: String::new(),
            volume: 0,
            is_more: false,
            is_conjunction: false,
        };
        r
    }
}

/// Holds when the price of a contract has changed by a percentage.
#[derive(Clone, Debug, PartialEq)]
pub struct PercentChangeCondition {
    /// Contract whose price change is watched.
    pub contract_id: i32,
    /// Exchange where the price is watched.
    pub exchange: String,
    /// Change in percent that triggers the condition.
    pub percent: Decimal,
    /// Whether the change must be above, not below.
    pub is_more: bool,
    /// Whether the next condition is joined by "and", not "or".
    pub is_conjunction: bool,
}

/// The mathematical content of [`PercentChangeCondition`].
pub struct PercentChangeConditionView {
    pub contract_id: int,
    pub exchange: Seq<char>,
    pub percent: Seq<char>,
    pub is_more: bool,
    pub is_conjunction: bool,
}

impl View for PercentChangeCondition {
    type V = PercentChangeConditionView;

    open spec fn view(&self) -> PercentChangeConditionView {
        PercentChangeConditionView {
            contract_id: self.contract_id as int,
            exchange: self.exchange@,
            percent: self.percent@,
            is_more: self.is_more,
            is_conjunction: self.is_conjunction,
        }
    }
}

impl PercentChangeConditionView {
    /// The record before anything was read into it.
    pub open spec fn initial() -> PercentChangeConditionView {
        PercentChangeConditionView {
            contract_id: 0,
            exchange: Seq::<char>::empty(),
            percent: zero_text(),
            is_more: false,
            is_conjunction: false,
        }
    }
}

impl Default for PercentChangeCondition {
    fn default() -> (r: PercentChangeCondition)
        ensures
            r@ == PercentChangeConditionView::initial(),
    {
        let r = PercentChangeCondition {
            contract_id: 0,
            exchange: String::new(),
            percent: Decimal::zero(),
            is_more: false,
            is_conjunction: false,
        };
        r
    }
}

/// A condition of an order, by its kind.
#[derive(Clone, Debug, PartialEq)]
pub enum OrderCondition {
    Price(PriceCondition),
    Time(TimeCondition),
    Margin(MarginCondition),
    Execution(ExecutionCondition),
    Volume(VolumeCondition),
    PercentChange(PercentChangeCondition),
}

/// The mathematical content of [`OrderCondition`].
pub enum OrderConditionView {
    Price(PriceConditionView),
    Time(TimeConditionView),
    Margin(MarginConditionView),
    Execution(ExecutionConditionView),
    Volume(VolumeConditionView),
    PercentChange(PercentChangeConditionView),
}

impl View for OrderCondition {
    type V = OrderConditionView;

    open spec fn view(&self) -> OrderConditionView {
        match *self {
            OrderCondition::Price(c) => OrderConditionView::Price(c@),
            OrderCondition::Time(c) => OrderConditionView::Time(c@),
            OrderCondition::Margin(c) => OrderConditionView::Margin(c@),
            OrderCondition::Execution(c) => OrderConditionView::Execution(c@),
            OrderCondition::Volume(c) => OrderConditionView::Volume(c@),
            OrderCondition::PercentChange(c) => OrderConditionView::PercentChange(c@),
        }
    }
}

impl OrderConditionView {
    /// The code that names the kind of the condition on the wire.
    pub open spec fn kind(self) -> int {
        match self {
            OrderConditionView::Price(_) => 1,
            OrderConditionView::Time(_) => 3,
            OrderConditionView::Margin(_) => 4,
            OrderConditionView::Execution(_) => 5,
            OrderConditionView::Volume(_) => 6,
            OrderConditionView::PercentChange(_) => 7,
        }
    }

    /// Whether the next condition is joined by "and", not "or".
    pub open spec fn conjunction(self) -> bool {
        match self {
            OrderConditionView::Price(c) => c.is_conjunction,
            OrderConditionView::Time(c) => c.is_conjunction,
            OrderConditionView::Margin(c) => c.is_conjunction,
            OrderConditionView::Execution(c) => c.is_conjunction,
            OrderConditionView::Volume(c) => c.is_conjunction,
            OrderConditionView::PercentChange(c) => c.is_conjunction,
        }
    }
}

impl OrderCondition {
    /// The code that names the kind of the condition on the wire.
    pub fn condition_type(&self) -> (r: i32)
        ensures
            r == self@.kind(),
    {
        match self {
            OrderCondition::Price(_) => 1,
            OrderCondition::Time(_) => 3,
            OrderCondition::Margin(_) => 4,
            OrderCondition::Execution(_) => 5,
            OrderCondition::Volume(_) => 6,
            OrderCondition::PercentChange(_) => 7,
        }
    }

    /// Whether the next condition is joined by "and", not "or".
    pub fn is_conjunction(&self) -> (r: bool)
        ensures
            r == self@.conjunction(),
    {
        match self {
            OrderCondition::Price(c) => c.is_conjunction,
            OrderCondition::Time(c) => c.is_conjunction,
            OrderCondition::Margin(c) => c.is_conjunction,
            OrderCondition::Execution(c) => c.is_conjunction,
            OrderCondition::Volume(c) => c.is_conjunction,
            OrderCondition::PercentChange(c) => c.is_conjunction,
        }
    }
}

} // verus!

//! Orders: the order itself, its state, and what the server reports of it.

pub mod conditions;
pub mod decoders;
pub mod encoders;
pub mod footprint;
pub mod gating;

use vstd::prelude::*;
use vstd::string::*;
use crate::contracts::Contract;
use crate::contracts::ContractView;
use crate::contracts::TagValue;
use crate::contracts::TagValueView;
use crate::numeric::decimal_is_positive;
use crate::numeric::zero_text;
use crate::numeric::Decimal;
use crate::orders::conditions::OrderCondition;
use crate::orders::conditions::OrderConditionView;
use crate::orders::conditions::TriggerMethod;
use crate::text::same_text;
use crate::views::lemma_views_push;
use crate::views::optional_int;
use crate::views::optional_long;
use crate::views::optional_view;
use crate::views::views_of;

verus! {

/// The side of an order.
#[derive(Clone, Copy, Debug, PartialEq, Eq)]
pub enum Action {
    /// Buy.
    Buy,
    /// Sell.
    Sell,
    /// Sell short; institutional accounts only.
    SellShort,
    /// Sell long; institutional accounts only.
    SellLong,
}

impl Action {
    /// The value that a wire name stands for.
    pub open spec fn of_text(name: Seq<char>) -> Option<Action> {
        if name == "BUY"@ {
            Some(Action::Buy)
        } else if name == "SELL"@ {
            Some(Action::Sell)
        } else if name == "SSHORT"@ {
            Some(Action::SellShort)
        } else if name == "SLONG"@ {
            Some(Action::SellLong)
        } else {
            None
        }
    }

    /// The wire name of a value.
    pub open spec fn text(self) -> Seq<char> {
        match self {
            Action::Buy => "BUY"@,
            Action::Sell => "SELL"@,
            Action::SellShort => "SSHORT"@,
            Action::SellLong => "SLONG"@,
        }
    }

    /// Reads a wire name; `None` for a name that stands for no value.
    pub fn from(name: &str) -> (r: Option<Action>)
        ensures
            r == Action::of_text(name@),
    {
        if same_text(name, "BUY") {
            Some(Action::Buy)
        } else if same_text(name, "SELL") {
            Some(Action::Sell)
        } else if same_text(name, "SSHORT") {
            Some(Action::SellShort)
        } else if same_text(name, "SLONG") {
            Some(Action::SellLong)
        } else {
            None
        }
    }

    /// The wire name of this value.
    pub fn to_string(&self) -> (r: String)
        ensures
            r@ == self.text(),
    {
        match self {
            Action::Buy => "BUY".to_owned(),
            Action::Sell => "SELL".to_owned(),
            Action::SellShort => "SSHORT".to_owned(),
            Action::SellLong => "SLONG".to_owned(),
        }
    }
}

/// How long an order stays in force.
#[derive(Clone, Copy, Debug, PartialEq, Eq)]
pub enum TimeInForce {
    /// Until the end of the trading day.
    Day,
    /// Until it is cancelled.
    GoodTilCanceled,
    /// What does not fill at once is cancelled.
    ImmediateOrCancel,
    /// Until a given date.
    GoodTilDate,
    /// At the opening.
    OnOpen,
    /// All at once, or nothing.
    FillOrKill,
    /// For the day; then it is deactivated, not cancelled.
    DayTilCanceled,
    /// In the auction.
    Auction,
}

impl TimeInForce {
    /// The value that a wire name stands for.
    pub open spec fn of_text(name: Seq<char>) -> TimeInForce {
        if name == "DAY"@ {
            TimeInForce::Day
        } else if name == "GTC"@ {
            TimeInForce::GoodTilCanceled
        } else if name == "IOC"@ {
            TimeInForce::ImmediateOrCancel
        } else if name == "GTD"@ {
            TimeInForce::GoodTilDate
        } else if name == "OPG"@ {
            TimeInForce::OnOpen
        } else if name == "FOK"@ {
            TimeInForce::FillOrKill
        } else if name == "DTC"@ {
            TimeInForce::DayTilCanceled
        } else if name == "AUC"@ {
            TimeInForce::Auction
        } else {
            TimeInForce::Day
        }
    }

    /// The wire name of a value.
    pub open spec fn text(self) -> Seq<char> {
        match self {
            TimeInForce::Day => "DAY"@,
            TimeInForce::GoodTilCanceled => "GTC"@,
            TimeInForce::ImmediateOrCancel => "IOC"@,
            TimeInForce::GoodTilDate => "GTD"@,
            TimeInForce::OnOpen => "OPG"@,
            TimeInForce::FillOrKill => "FOK"@,
            TimeInForce::DayTilCanceled => "DTC"@,
            TimeInForce::Auction => "AUC"@,
        }
    }

    /// Reads a wire name; an unknown name reads as `Day`.
    pub fn from(name: &str) -> (r: TimeInForce)
        ensures
            r == TimeInForce::of_text(name@),
    {
        if same_text(name, "DAY") {
            TimeInForce::Day
        } else if same_text(name, "GTC") {
            TimeInForce::GoodTilCanceled
        } else if same_text(name, "IOC") {
            TimeInForce::ImmediateOrCancel
        } else if same_text(name, "GTD") {
            TimeInForce::GoodTilDate
        } else if same_text(name, "OPG") {
            TimeInForce::OnOpen
        } else if same_text(name, "FOK") {
            TimeInForce::FillOrKill
        } else if same_text(name, "DTC") {
            TimeInForce::DayTilCanceled
        } else if same_text(name, "AUC") {
            TimeInForce::Auction
        } else {
            TimeInForce::Day
        }
    }

    /// The wire name of this value.
    pub fn to_string(&self) -> (r: String)
        ensures
            r@ == self.text(),
    {
        match self {
            TimeInForce::Day => "DAY".to_owned(),
            TimeInForce::GoodTilCanceled => "GTC".to_owned(),
            TimeInForce::ImmediateOrCancel => "IOC".to_owned(),
            TimeInForce::GoodTilDate => "GTD".to_owned(),
            TimeInForce::OnOpen => "OPG".to_owned(),
            TimeInForce::FillOrKill => "FOK".to_owned(),
            TimeInForce::DayTilCanceled => "DTC".to_owned(),
            TimeInForce::Auction => "AUC".to_owned(),
        }
    }
}

/// The capacity in which an order is entered.
#[derive(Clone, Copy, Debug, PartialEq, Eq)]
pub enum Rule80A {
    /// Individual.
    Individual,
    /// Agency.
    Agency,
    /// Agent for another member.
    AgentOtherMember,
    /// Individual, program trade, index arbitrage.
    IndividualPTIA,
    /// Agency, program trade, index arbitrage.
    AgencyPTIA,
    /// Agent for another member, program trade, index arbitrage.
    AgentOtherMemberPTIA,
    /// Individual, program trade.
    IndividualPT,
    /// Agency, program trade.
    AgencyPT,
    /// Agent for another member, program trade.
    AgentOtherMemberPT,
}

impl Rule80A {
    /// The value that a wire name stands for.
    pub open spec fn of_text(name: Seq<char>) -> Option<Rule80A> {
        if name == "I"@ {
            Some(Rule80A::Individual)
        } else if name == "A"@ {
            Some(Rule80A::Agency)
        } else if name == "W"@ {
            Some(Rule80A::AgentOtherMember)
        } else if name == "J"@ {
            Some(Rule80A::IndividualPTIA)
        } else if name == "U"@ {
            Some(Rule80A::AgencyPTIA)
        } else if name == "M"@ {
            Some(Rule80A::AgentOtherMemberPTIA)
        } else if name == "K"@ {
            Some(Rule80A::IndividualPT)
        } else if name == "Y"@ {
            Some(Rule80A::AgencyPT)
        } else if name == "N"@ {
            Some(Rule80A::AgentOtherMemberPT)
        } else {
            None
        }
    }

    /// The wire name of a value.
    pub open spec fn text(self) -> Seq<char> {
        match self {
            Rule80A::Individual => "I"@,
            Rule80A::Agency => "A"@,
            Rule80A::AgentOtherMember => "W"@,
            Rule80A::IndividualPTIA => "J"@,
            Rule80A::AgencyPTIA => "U"@,
            Rule80A::AgentOtherMemberPTIA => "M"@,
            Rule80A::IndividualPT => "K"@,
            Rule80A::AgencyPT => "Y"@,
            Rule80A::AgentOtherMemberPT => "N"@,
        }
    }

    /// Reads a wire name; `None` for a name that stands for no value.
    pub fn from(name: &str) -> (r: Option<Rule80A>)
        ensures
            r == Rule80A::of_text(name@),
    {
        if same_text(name, "I") {
            Some(Rule80A::Individual)
        } else if same_text(name, "A") {
            Some(Rule80A::Agency)
        } else if same_text(name, "W") {
            Some(Rule80A::AgentOtherMember)
        } else if same_text(name, "J") {
            Some(Rule80A::IndividualPTIA)
        } else if same_text(name, "U") {
            Some(Rule80A::AgencyPTIA)
        } else if same_text(name, "M") {
            Some(Rule80A::AgentOtherMemberPTIA)
        } else if same_text(name, "K") {
            Some(Rule80A::IndividualPT)
        } else if same_text(name, "Y") {
            Some(Rule80A::AgencyPT)
        } else if same_text(name, "N") {
            Some(Rule80A::AgentOtherMemberPT)
        } else {
            None
        }
    }

    /// The wire name of this value.
    pub fn to_string(&self) -> (r: String)
        ensures
            r@ == self.text(),
    {
        match self {
            Rule80A::Individual => "I".to_owned(),
            Rule80A::Agency => "A".to_owned(),
            Rule80A::AgentOtherMember => "W".to_owned(),
            Rule80A::IndividualPTIA => "J".to_owned(),
            Rule80A::AgencyPTIA => "U".to_owned(),
            Rule80A::AgentOtherMemberPTIA => "M".to_owned(),
            Rule80A::IndividualPT => "K".to_owned(),
            Rule80A::AgencyPT => "Y".to_owned(),
            Rule80A::AgentOtherMemberPT => "N".to_owned(),
        }
    }
}

/// Whether an order opens or closes a position.
#[derive(Clone, Copy, Debug, PartialEq, Eq)]
pub enum OrderOpenClose {
    /// The order opens a position.
    Open,
    /// The order closes a position.
    Close,
}

impl OrderOpenClose {
    /// The value that a wire name stands for.
    pub open spec fn of_text(name: Seq<char>) -> Option<OrderOpenClose> {
        if name == "O"@ {
            Some(OrderOpenClose::Open)
        } else if name == "C"@ {
            Some(OrderOpenClose::Close)
        } else {
            None
        }
    }

    /// The wire name of a value.
    pub open spec fn text(self) -> Seq<char> {
        match self {
            OrderOpenClose::Open => "O"@,
            OrderOpenClose::Close => "C"@,
        }
    }

    /// Reads a wire name; `None` for a name that stands for no value.
    pub fn from(name: &str) -> (r: Option<OrderOpenClose>)
        ensures
            r == OrderOpenClose::of_text(name@),
    {
        if same_text(name, "O") {
            Some(OrderOpenClose::Open)
        } else if same_text(name, "C") {
            Some(OrderOpenClose::Close)
        } else {
            None
        }
    }

    /// The wire name of this value.
    pub fn to_string(&self) -> (r: String)
        ensures
            r@ == self.text(),
    {
        match self {
            OrderOpenClose::Open => "O".to_owned(),
            OrderOpenClose::Close => "C".to_owned(),
        }
    }
}

/// How the rest of a one-cancels-all group is treated when one order fills.
#[derive(Clone, Copy, Debug, PartialEq, Eq)]
pub enum OcaType {
    /// The order is in no group.
    Ungrouped,
    /// The others are cancelled, with block.
    CancelWithBlock,
    /// The others are reduced, with block.
    ReduceWithBlock,
    /// The others are reduced, without block.
    ReduceWithoutBlock,
}

impl OcaType {
    /// The value that a wire code stands for.
    pub open spec fn of_code(code: int) -> OcaType {
        if code == 1 {
            OcaType::CancelWithBlock
        } else if code == 2 {
            OcaType::ReduceWithBlock
        } else if code == 3 {
            OcaType::ReduceWithoutBlock
        } else {
            OcaType::Ungrouped
        }
    }

    /// The wire code of a value.
    pub open spec fn code_of(self) -> int {
        match self {
            OcaType::Ungrouped => 0,
            OcaType::CancelWithBlock => 1,
            OcaType::ReduceWithBlock => 2,
            OcaType::ReduceWithoutBlock => 3,
        }
    }

    /// Reads a wire code; an unknown code reads as `Ungrouped`.
    pub fn from(code: i32) -> (r: OcaType)
        ensures
            r == OcaType::of_code(code as int),
    {
        if code == 1 {
            OcaType::CancelWithBlock
        } else if code == 2 {
            OcaType::ReduceWithBlock
        } else if code == 3 {
            OcaType::ReduceWithoutBlock
        } else {
            OcaType::Ungrouped
        }
    }

    /// The wire code of this value.
    pub fn code(&self) -> (r: i32)
        ensures
            r == self.code_of(),
    {
        match self {
            OcaType::Ungrouped => 0,
            OcaType::CancelWithBlock => 1,
            OcaType::ReduceWithBlock => 2,
            OcaType::ReduceWithoutBlock => 3,
        }
    }

    /// A value read back from its own wire code is the value.
    pub proof fn lemma_code_round_trip(self)
        ensures
            OcaType::of_code(self.code_of()) == self,
    {
    }
}

/// Where an order comes from.
#[derive(Clone, Copy, Debug, PartialEq, Eq)]
pub enum OrderOrigin {
    /// A customer.
    Customer,
    /// The firm.
    Firm,
}

impl OrderOrigin {
    /// The value that a wire code stands for.
    pub open spec fn of_code(code: int) -> OrderOrigin {
        if code == 1 {
            OrderOrigin::Firm
        } else {
            OrderOrigin::Customer
        }
    }

    /// The wire code of a value.
    pub open spec fn code_of(self) -> int {
        match self {
            OrderOrigin::Customer => 0,
            OrderOrigin::Firm => 1,
        }
    }

    /// Reads a wire code; an unknown code reads as `Customer`.
    pub fn from(code: i32) -> (r: OrderOrigin)
        ensures
            r == OrderOrigin::of_code(code as int),
    {
        if code == 1 {
            OrderOrigin::Firm
        } else {
            OrderOrigin::Customer
        }
    }

    /// The wire code of this value.
    pub fn code(&self) -> (r: i32)
        ensures
            r == self.code_of(),
    {
        match self {
            OrderOrigin::Customer => 0,
            OrderOrigin::Firm => 1,
        }
    }

    /// A value read back from its own wire code is the value.
    pub proof fn lemma_code_round_trip(self)
        ensures
            OrderOrigin::of_code(self.code_of()) == self,
    {
    }
}

/// Where the shares of a short sale are held.
#[derive(Clone, Copy, Debug, PartialEq, Eq)]
pub enum ShortSaleSlot {
    /// Not a short sale, or not applicable.
    Unspecified,
    /// At the broker.
    Broker,
    /// At a third party.
    ThirdParty,
}

impl ShortSaleSlot {
    /// The value that a wire code stands for.
    pub open spec fn of_code(code: int) -> ShortSaleSlot {
        if code == 1 {
            ShortSaleSlot::Broker
        } else if code == 2 {
            ShortSaleSlot::ThirdParty
        } else {
            ShortSaleSlot::Unspecified
        }
    }

    /// The wire code of a value.
    pub open spec fn code_of(self) -> int {
        match self {
            ShortSaleSlot::Unspecified => 0,
            ShortSaleSlot::Broker => 1,
            ShortSaleSlot::ThirdParty => 2,
        }
    }

    /// Reads a wire code; an unknown code reads as `Unspecified`.
    pub fn from(code: i32) -> (r: ShortSaleSlot)
        ensures
            r == ShortSaleSlot::of_code(code as int),
    {
        if code == 1 {
            ShortSaleSlot::Broker
        } else if code == 2 {
            ShortSaleSlot::ThirdParty
        } else {
            ShortSaleSlot::Unspecified
        }
    }

    /// The wire code of this value.
    pub fn code(&self) -> (r: i32)
        ensures
            r == self.code_of(),
    {
        match self {
            ShortSaleSlot::Unspecified => 0,
            ShortSaleSlot::Broker => 1,
            ShortSaleSlot::ThirdParty => 2,
        }
    }

    /// A value read back from its own wire code is the value.
    pub proof fn lemma_code_round_trip(self)
        ensures
            ShortSaleSlot::of_code(self.code_of()) == self,
    {
    }
}

/// The strategy of a BOX auction.
#[derive(Clone, Copy, Debug, PartialEq, Eq)]
pub enum AuctionStrategy {
    /// Match.
    Match,
    /// Improvement.
    Improvement,
    /// Transparent.
    Transparent,
}

impl AuctionStrategy {
    /// The value that a wire code stands for.
    pub open spec fn of_code(code: int) -> Option<AuctionStrategy> {
        if code == 1 {
            Some(AuctionStrategy::Match)
        } else if code == 2 {
            Some(AuctionStrategy::Improvement)
        } else if code == 3 {
            Some(AuctionStrategy::Transparent)
        } else {
            None
        }
    }

    /// The wire code of a value.
    pub open spec fn code_of(self) -> int {
        match self {
            AuctionStrategy::Match => 1,
            AuctionStrategy::Improvement => 2,
            AuctionStrategy::Transparent => 3,
        }
    }

    /// Reads a wire code; `None` for a code that stands for no value.
    pub fn from(code: i32) -> (r: Option<AuctionStrategy>)
        ensures
            r == AuctionStrategy::of_code(code as int),
    {
        if code == 1 {
            Some(AuctionStrategy::Match)
        } else if code == 2 {
            Some(AuctionStrategy::Improvement)
        } else if code == 3 {
            Some(AuctionStrategy::Transparent)
        } else {
            None
        }
    }

    /// The wire code of this value.
    pub fn code(&self) -> (r: i32)
        ensures
            r == self.code_of(),
    {
        match self {
            AuctionStrategy::Match => 1,
            AuctionStrategy::Improvement => 2,
            AuctionStrategy::Transparent => 3,
        }
    }

    /// A value read back from its own wire code is the value.
    pub proof fn lemma_code_round_trip(self)
        ensures
            AuctionStrategy::of_code(self.code_of()) == Some(self),
    {
    }
}

/// The period of a volatility.
#[derive(Clone, Copy, Debug, PartialEq, Eq)]
pub enum VolatilityType {
    /// Daily volatility.
    Daily,
    /// Annual volatility.
    Annual,
}

impl VolatilityType {
    /// The value that a wire code stands for.
    pub open spec fn of_code(code: int) -> Option<VolatilityType> {
        if code == 1 {
            Some(VolatilityType::Daily)
        } else if code == 2 {
            Some(VolatilityType::Annual)
        } else {
            None
        }
    }

    /// The wire code of a value.
    pub open spec fn code_of(self) -> int {
        match self {
            VolatilityType::Daily => 1,
            VolatilityType::Annual => 2,
        }
    }

    /// Reads a wire code; `None` for a code that stands for no value.
    pub fn from(code: i32) -> (r: Option<VolatilityType>)
        ensures
            r == VolatilityType::of_code(code as int),
    {
        if code == 1 {
            Some(VolatilityType::Daily)
        } else if code == 2 {
            Some(VolatilityType::Annual)
        } else {
            None
        }
    }

    /// The wire code of this value.
    pub fn code(&self) -> (r: i32)
        ensures
            r == self.code_of(),
    {
        match self {
            VolatilityType::Daily => 1,
            VolatilityType::Annual => 2,
        }
    }

    /// A value read back from its own wire code is the value.
    pub proof fn lemma_code_round_trip(self)
        ensures
            VolatilityType::of_code(self.code_of()) == Some(self),
    {
    }
}

/// How the reference price of a volatility order is computed.
#[derive(Clone, Copy, Debug, PartialEq, Eq)]
pub enum ReferencePriceType {
    /// Average of the best bid and offer.
    Average,
    /// Bid or ask, by the side of the order.
    BidOrAsk,
}

impl ReferencePriceType {
    /// The value that a wire code stands for.
    pub open spec fn of_code(code: int) -> Option<ReferencePriceType> {
        if code == 1 {
            Some(ReferencePriceType::Average)
        } else if code == 2 {
            Some(ReferencePriceType::BidOrAsk)
        } else {
            None
        }
    }

    /// The wire code of a value.
    pub open spec fn code_of(self) -> int {
        match self {
            ReferencePriceType::Average => 1,
            ReferencePriceType::BidOrAsk => 2,
        }
    }

    /// Reads a wire code; `None` for a code that stands for no value.
    pub fn from(code: i32) -> (r: Option<ReferencePriceType>)
        ensures
            r == ReferencePriceType::of_code(code as int),
    {
        if code == 1 {
            Some(ReferencePriceType::Average)
        } else if code == 2 {
            Some(ReferencePriceType::BidOrAsk)
        } else {
            None
        }
    }

    /// The wire code of this value.
    pub fn code(&self) -> (r: i32)
        ensures
            r == self.code_of(),
    {
        match self {
            ReferencePriceType::Average => 1,
            ReferencePriceType::BidOrAsk => 2,
        }
    }

    /// A value read back from its own wire code is the value.
    pub proof fn lemma_code_round_trip(self)
        ensures
            ReferencePriceType::of_code(self.code_of()) == Some(self),
    {
    }
}

/// What an execution did to the liquidity of the market.
#[derive(Clone, Copy, Debug, PartialEq, Eq)]
pub enum Liquidity {
    /// Not known.
    Unknown,
    /// It added liquidity.
    AddedLiquidity,
    /// It removed liquidity.
    RemovedLiquidity,
    /// Liquidity was routed out.
    RoundedOut,
}

impl Liquidity {
    /// The value that a wire code stands for.
    pub open spec fn of_code(code: int) -> Liquidity {
        if code == 1 {
            Liquidity::AddedLiquidity
        } else if code == 2 {
            Liquidity::RemovedLiquidity
        } else if code == 3 {
            Liquidity::RoundedOut
        } else {
            Liquidity::Unknown
        }
    }

    /// The wire code of a value.
    pub open spec fn code_of(self) -> int {
        match self {
            Liquidity::Unknown => 0,
            Liquidity::AddedLiquidity => 1,
            Liquidity::RemovedLiquidity => 2,
            Liquidity::RoundedOut => 3,
        }
    }

    /// Reads a wire code; an unknown code reads as `Unknown`.
    pub fn from(code: i32) -> (r: Liquidity)
        ensures
            r == Liquidity::of_code(code as int),
    {
        if code == 1 {
            Liquidity::AddedLiquidity
        } else if code == 2 {
            Liquidity::RemovedLiquidity
        } else if code == 3 {
            Liquidity::RoundedOut
        } else {
            Liquidity::Unknown
        }
    }

    /// The wire code of this value.
    pub fn code(&self) -> (r: i32)
        ensures
            r == self.code_of(),
    {
        match self {
            Liquidity::Unknown => 0,
            Liquidity::AddedLiquidity => 1,
            Liquidity::RemovedLiquidity => 2,
            Liquidity::RoundedOut => 3,
        }
    }

    /// A value read back from its own wire code is the value.
    pub proof fn lemma_code_round_trip(self)
        ensures
            Liquidity::of_code(self.code_of()) == self,
    {
    }
}

/// A soft-dollar tier.
#[derive(Clone, Debug, PartialEq)]
pub struct SoftDollarTier {
    /// Name of the tier.
    pub name: String,
    /// Value of the tier.
    pub value: String,
    /// Name under which the tier is shown.
    pub display_name: String,
}

/// The mathematical content of [`SoftDollarTier`].
pub struct SoftDollarTierView {
    pub name: Seq<char>,
    pub value: Seq<char>,
    pub display_name: Seq<char>,
}

impl View for SoftDollarTier {
    type V = SoftDollarTierView;

    open spec fn view(&self) -> SoftDollarTierView {
        SoftDollarTierView {
            name: self.name@,
            value: self.value@,
            display_name: self.display_name@,
        }
    }
}

impl SoftDollarTierView {
    /// The record before anything was read into it.
    pub open spec fn initial() -> SoftDollarTierView {
        SoftDollarTierView {
            name: Seq::<char>::empty(),
            value: Seq::<char>::empty(),
            display_name: Seq::<char>::empty(),
        }
    }
}

impl Default for SoftDollarTier {
    fn default() -> (r: SoftDollarTier)
        ensures
            r@ == SoftDollarTierView::initial(),
    {
        let r = SoftDollarTier {
            name: String::new(),
            value: String::new(),
            display_name: String::new(),
        };
        r
    }
}

/// The price of one leg of a combination order.
#[derive(Clone, Debug, PartialEq)]
pub struct OrderComboLeg {
    /// Price of the leg.
    pub price: Option<Decimal>,
}

/// The mathematical content of [`OrderComboLeg`].
pub struct OrderComboLegView {
    pub price: Option<Seq<char>>,
}

impl View for OrderComboLeg {
    type V = OrderComboLegView;

    open spec fn view(&self) -> OrderComboLegView {
        OrderComboLegView {
            price: optional_view(self.price),
        }
    }
}

impl OrderComboLegView {
    /// The record before anything was read into it.
    pub open spec fn initial() -> OrderComboLegView {
        OrderComboLegView {
            price: None,
        }
    }
}

impl Default for OrderComboLeg {
    fn default() -> (r: OrderComboLeg)
        ensures
            r@ == OrderComboLegView::initial(),
    {
        let r = OrderComboLeg {
            price: None,
        };
        r
    }
}

/// The part of an order that goes to one account.
#[derive(Clone, Debug, PartialEq)]
pub struct OrderAllocation {
    /// Account of the allocation.
    pub account: String,
    /// Position before the order.
    pub position: Option<Decimal>,
    /// Position that was asked for.
    pub position_desired: Option<Decimal>,
    /// Position after the order.
    pub position_after: Option<Decimal>,
    /// Quantity that was asked for.
    pub desired_alloc_qty: Option<Decimal>,
    /// Quantity that is allowed.
    pub allowed_alloc_qty: Option<Decimal>,
    /// Whether the quantities are amounts of money.
    pub is_monetary: bool,
}

/// The mathematical content of [`OrderAllocation`].
pub struct OrderAllocationView {
    pub account: Seq<char>,
    pub position: Option<Seq<char>>,
    pub position_desired: Option<Seq<char>>,
    pub position_after: Option<Seq<char>>,
    pub desired_alloc_qty: Option<Seq<char>>,
    pub allowed_alloc_qty: Option<Seq<char>>,
    pub is_monetary: bool,
}

impl View for OrderAllocation {
    type V = OrderAllocationView;

    open spec fn view(&self) -> OrderAllocationView {
        OrderAllocationView {
            account: self.account@,
            position: optional_view(self.position),
            position_desired: optional_view(self.position_desired),
            position_after: optional_view(self.position_after),
            desired_alloc_qty: optional_view(self.desired_alloc_qty),
            allowed_alloc_qty: optional_view(self.allowed_alloc_qty),
            is_monetary: self.is_monetary,
        }
    }
}

impl OrderAllocationView {
    /// The record before anything was read into it.
    pub open spec fn initial() -> OrderAllocationView {
        OrderAllocationView {
            account: Seq::<char>::empty(),
            position: None,
            position_desired: None,
            position_after: None,
            desired_alloc_qty: None,
            allowed_alloc_qty: None,
            is_monetary: false,
        }
    }
}

impl Default for OrderAllocation {
    fn default() -> (r: OrderAllocation)
        ensures
            r@ == OrderAllocationView::initial(),
    {
        let r = OrderAllocation {
            account: String::new(),
            position: None,
            position_desired: None,
            position_after: None,
            desired_alloc_qty: None,
            allowed_alloc_qty: None,
            is_monetary: false,
        };
        r
    }
}

/// An order, with every attribute that the server reports of it.
#[derive(Clone, Debug, PartialEq)]
pub struct Order {
    /// Identifier of the order, unique per client.
    pub order_id: i32,
    /// Whether the broker solicited the trade.
    pub solicited: bool,
    /// Identifier of the client that placed the order.
    pub client_id: i32,
    /// Identifier of the order at the host.
    pub perm_id: i32,
    /// Side of the order.
    pub action: Action,
    /// Number of units to trade.
    pub total_quantity: Decimal,
    /// Type of the order, such as `LMT`.
    pub order_type: String,
    /// Limit price of a limit order.
    pub limit_price: Option<Decimal>,
    /// Stop price or offset, by order type.
    pub aux_price: Option<Decimal>,
    /// How long the order stays in force.
    pub tif: TimeInForce,
    /// Name of the one-cancels-all group.
    pub oca_group: String,
    /// How the rest of a one-cancels-all group is treated.
    pub oca_type: OcaType,
    /// Reference that the customer gave the order.
    pub order_ref: String,
    /// Identifier of the parent order.
    pub parent_id: i32,
    /// Whether this is an ISE block order.
    pub block_order: bool,
    /// Whether this is a sweep-to-fill order.
    pub sweep_to_fill: bool,
    /// Publicly shown size of an iceberg order.
    pub display_size: Option<i32>,
    /// How a simulated stop is triggered.
    pub trigger_method: TriggerMethod,
    /// Whether the order may fill outside regular trading hours.
    pub outside_rth: bool,
    /// Whether the order is hidden from market depth.
    pub hidden: bool,
    /// Time after which the order is active.
    pub good_after_time: String,
    /// Time until which the order is active.
    pub good_till_date: String,
    /// Capacity in which the order is entered.
    pub rule_80_a: Option<Rule80A>,
    /// Whether the order must fill in full.
    pub all_or_none: bool,
    /// Minimum quantity to fill.
    pub min_qty: Option<i32>,
    /// Offset of a relative order, in percent.
    pub percent_offset: Option<Decimal>,
    /// Stop price of a trailing order.
    pub trail_stop_price: Option<Decimal>,
    /// Trailing amount in percent.
    pub trailing_percent: Option<Decimal>,
    /// Advisor group.
    pub fa_group: String,
    /// Advisor allocation method.
    pub fa_method: String,
    /// Advisor allocation percentage.
    pub fa_percentage: String,
    /// Whether the order opens or closes a position.
    pub open_close: Option<OrderOpenClose>,
    /// Origin of the order.
    pub origin: OrderOrigin,
    /// For a short sale: where the shares are held.
    pub short_sale_slot: ShortSaleSlot,
    /// For a short sale at a third party: where the shares are held.
    pub designated_location: String,
    /// Short-sale exemption code.
    pub exempt_code: i32,
    /// Amount off the limit price for a discretionary order.
    pub discretionary_amt: Decimal,
    /// Whether the order opts out of smart routing.
    pub opt_out_smart_routing: bool,
    /// Strategy of a BOX auction.
    pub auction_strategy: Option<AuctionStrategy>,
    /// Starting price of a BOX order.
    pub starting_price: Option<Decimal>,
    /// Reference price of the stock.
    pub stock_ref_price: Option<Decimal>,
    /// Delta of the underlying.
    pub delta: Option<Decimal>,
    /// Lower end of the stock range.
    pub stock_range_lower: Option<Decimal>,
    /// Upper end of the stock range.
    pub stock_range_upper: Option<Decimal>,
    /// Volatility of a volatility order.
    pub volatility: Option<Decimal>,
    /// Whether the volatility is daily or annual.
    pub volatility_type: Option<VolatilityType>,
    /// Whether the price follows the underlying.
    pub continuous_update: bool,
    /// How the reference price is computed.
    pub reference_price_type: Option<ReferencePriceType>,
    /// Type of the delta-neutral hedge order.
    pub delta_neutral_order_type: String,
    /// Auxiliary price of the hedge order.
    pub delta_neutral_aux_price: Option<Decimal>,
    /// Contract of the hedge order.
    pub delta_neutral_con_id: i32,
    /// Settling firm of the hedge order.
    pub delta_neutral_settling_firm: String,
    /// Clearing account of the hedge order.
    pub delta_neutral_clearing_account: String,
    /// Clearing intent of the hedge order.
    pub delta_neutral_clearing_intent: String,
    /// Whether the hedge order opens or closes.
    pub delta_neutral_open_close: String,
    /// Whether the hedge order is a short sale.
    pub delta_neutral_short_sale: bool,
    /// Short-sale slot of the hedge order.
    pub delta_neutral_short_sale_slot: i32,
    /// Designated location of the hedge order.
    pub delta_neutral_designated_location: String,
    /// Basis points of an EFP order.
    pub basis_points: Option<Decimal>,
    /// Type of the basis points.
    pub basis_points_type: Option<i32>,
    /// Size of the first level of a scale order.
    pub scale_init_level_size: Option<i32>,
    /// Size of the later levels of a scale order.
    pub scale_subs_level_size: Option<i32>,
    /// Price step between the levels.
    pub scale_price_increment: Option<Decimal>,
    /// Amount by which the price is adjusted.
    pub scale_price_adjust_value: Option<Decimal>,
    /// Interval between price adjustments.
    pub scale_price_adjust_interval: Option<i32>,
    /// Profit offset of a scale order.
    pub scale_profit_offset: Option<Decimal>,
    /// Whether the scale restarts by itself.
    pub scale_auto_reset: bool,
    /// Initial position of a scale order.
    pub scale_init_position: Option<i32>,
    /// Quantity filled at the start.
    pub scale_init_fill_qty: Option<i32>,
    /// Whether the level sizes are randomised.
    pub scale_random_percent: bool,
    /// Kind of hedge: delta, beta, FX or pair.
    pub hedge_type: String,
    /// Parameter of the hedge.
    pub hedge_param: String,
    /// Account of the order.
    pub account: String,
    /// Settling firm.
    pub settling_firm: String,
    /// Clearing account.
    pub clearing_account: String,
    /// Clearing intent.
    pub clearing_intent: String,
    /// Name of the algorithm.
    pub algo_strategy: String,
    /// Parameters of the algorithm.
    pub algo_params: Vec<TagValue>,
    /// Whether the order only asks for margin and commission.
    pub what_if: bool,
    /// Whether the order is not held.
    pub not_held: bool,
    /// Prices of the legs of a combination.
    pub order_combo_legs: Vec<OrderComboLeg>,
    /// Parameters of smart combination routing.
    pub smart_combo_routing_params: Vec<TagValue>,
    /// Model code of the order.
    pub model_code: String,
    /// Whether the size is randomised.
    pub randomize_size: bool,
    /// Whether the price is randomised.
    pub randomize_price: bool,
    /// Contract to which a pegged order refers.
    pub reference_contract_id: i32,
    /// Whether the pegged amount decreases.
    pub is_pegged_change_amount_decrease: bool,
    /// Amount by which the pegged price changes.
    pub pegged_change_amount: Option<Decimal>,
    /// Change of the reference that moves the price.
    pub reference_change_amount: Option<Decimal>,
    /// Exchange of the reference contract.
    pub reference_exchange: String,
    /// Type of the adjusted order.
    pub adjusted_order_type: String,
    /// Price that triggers the adjustment.
    pub trigger_price: Option<Decimal>,
    /// Offset of the limit price.
    pub limit_price_offset: Option<Decimal>,
    /// Stop price after the adjustment.
    pub adjusted_stop_price: Option<Decimal>,
    /// Stop-limit price after the adjustment.
    pub adjusted_stop_limit_price: Option<Decimal>,
    /// Trailing amount after the adjustment.
    pub adjusted_trailing_amount: Option<Decimal>,
    /// Unit of the trailing amount.
    pub adjustable_trailing_unit: i32,
    /// Conditions under which the order is sent or cancelled.
    pub conditions: Vec<OrderCondition>,
    /// Whether the conditions hold outside regular trading hours.
    pub conditions_ignore_rth: bool,
    /// Whether the conditions cancel the order.
    pub conditions_cancel_order: bool,
    /// Soft-dollar tier of the order.
    pub soft_dollar_tier: SoftDollarTier,
    /// Cash quantity.
    pub cash_qty: Option<Decimal>,
    /// Whether the hedge keeps its own price.
    pub dont_use_auto_price_for_hedge: bool,
    /// Whether the order is an OMS container.
    pub is_oms_container: bool,
    /// Whether discretion reaches up to the limit price.
    pub discretionary_up_to_limit_price: bool,
    /// Whether the price management algorithm is used.
    pub use_price_mgmt_algo: bool,
    /// Duration of the order in seconds.
    pub duration: Option<i32>,
    /// Whether the order is posted to the ATS.
    pub post_to_ats: Option<i32>,
    /// Whether cancelling the children cancels the parent.
    pub auto_cancel_parent: bool,
    /// Minimum trade quantity.
    pub min_trade_qty: Option<i32>,
    /// Minimum size to compete.
    pub min_compete_size: Option<i32>,
    /// Offset against the best price.
    pub compete_against_best_offset: Option<Decimal>,
    /// Mid offset at a whole tick.
    pub mid_offset_at_whole: Option<Decimal>,
    /// Mid offset at a half tick.
    pub mid_offset_at_half: Option<Decimal>,
    /// Account of the customer.
    pub customer_account: String,
    /// Whether the customer is a professional.
    pub professional_customer: bool,
    /// Accrued interest of a bond.
    pub bond_accrued_interest: String,
    /// Whether the order takes part in overnight trading.
    pub include_overnight: bool,
    /// External operator.
    pub ext_operator: String,
    /// Manual order indicator.
    pub manual_order_indicator: Option<i32>,
    /// Who submitted the order.
    pub submitter: String,
    /// Whether the order trades imbalances only.
    pub imbalance_only: bool,
    /// Date at which the order is cancelled by itself.
    pub auto_cancel_date: String,
    /// Quantity that has been filled.
    pub filled_quantity: Decimal,
    /// Contract of the reference future.
    pub ref_futures_con_id: Option<i32>,
    /// Shareholder status.
    pub shareholder: String,
    /// Whether a marketable order is routed to the best bid or offer.
    pub route_marketable_to_bbo: bool,
    /// Host identifier of the parent order.
    pub parent_perm_id: Option<i64>,
}

/// The mathematical content of [`Order`].
pub struct OrderView {
    pub order_id: int,
    pub solicited: bool,
    pub client_id: int,
    pub perm_id: int,
    pub action: Action,
    pub total_quantity: Seq<char>,
    pub order_type: Seq<char>,
    pub limit_price: Option<Seq<char>>,
    pub aux_price: Option<Seq<char>>,
    pub tif: TimeInForce,
    pub oca_group: Seq<char>,
    pub oca_type: OcaType,
    pub order_ref: Seq<char>,
    pub parent_id: int,
    pub block_order: bool,
    pub sweep_to_fill: bool,
    pub display_size: Option<int>,
    pub trigger_method: TriggerMethod,
    pub outside_rth: bool,
    pub hidden: bool,
    pub good_after_time: Seq<char>,
    pub good_till_date: Seq<char>,
    pub rule_80_a: Option<Rule80A>,
    pub all_or_none: bool,
    pub min_qty: Option<int>,
    pub percent_offset: Option<Seq<char>>,
    pub trail_stop_price: Option<Seq<char>>,
    pub trailing_percent: Option<Seq<char>>,
    pub fa_group: Seq<char>,
    pub fa_method: Seq<char>,
    pub fa_percentage: Seq<char>,
    pub open_close: Option<OrderOpenClose>,
    pub origin: OrderOrigin,
    pub short_sale_slot: ShortSaleSlot,
    pub designated_location: Seq<char>,
    pub exempt_code: int,
    pub discretionary_amt: Seq<char>,
    pub opt_out_smart_routing: bool,
    pub auction_strategy: Option<AuctionStrategy>,
    pub starting_price: Option<Seq<char>>,
    pub stock_ref_price: Option<Seq<char>>,
    pub delta: Option<Seq<char>>,
    pub stock_range_lower: Option<Seq<char>>,
    pub stock_range_upper: Option<Seq<char>>,
    pub volatility: Option<Seq<char>>,
    pub volatility_type: Option<VolatilityType>,
    pub continuous_update: bool,
    pub reference_price_type: Option<ReferencePriceType>,
    pub delta_neutral_order_type: Seq<char>,
    pub delta_neutral_aux_price: Option<Seq<char>>,
    pub delta_neutral_con_id: int,
    pub delta_neutral_settling_firm: Seq<char>,
    pub delta_neutral_clearing_account: Seq<char>,
    pub delta_neutral_clearing_intent: Seq<char>,
    pub delta_neutral_open_close: Seq<char>,
    pub delta_neutral_short_sale: bool,
    pub delta_neutral_short_sale_slot: int,
    pub delta_neutral_designated_location: Seq<char>,
    pub basis_points: Option<Seq<char>>,
    pub basis_points_type: Option<int>,
    pub scale_init_level_size: Option<int>,
    pub scale_subs_level_size: Option<int>,
    pub scale_price_increment: Option<Seq<char>>,
    pub scale_price_adjust_value: Option<Seq<char>>,
    pub scale_price_adjust_interval: Option<int>,
    pub scale_profit_offset: Option<Seq<char>>,
    pub scale_auto_reset: bool,
    pub scale_init_position: Option<int>,
    pub scale_init_fill_qty: Option<int>,
    pub scale_random_percent: bool,
    pub hedge_type: Seq<char>,
    pub hedge_param: Seq<char>,
    pub account: Seq<char>,
    pub settling_firm: Seq<char>,
    pub clearing_account: Seq<char>,
    pub clearing_intent: Seq<char>,
    pub algo_strategy: Seq<char>,
    pub algo_params: Seq<TagValueView>,
    pub what_if: bool,
    pub not_held: bool,
    pub order_combo_legs: Seq<OrderComboLegView>,
    pub smart_combo_routing_params: Seq<TagValueView>,
    pub model_code: Seq<char>,
    pub randomize_size: bool,
    pub randomize_price: bool,
    pub reference_contract_id: int,
    pub is_pegged_change_amount_decrease: bool,
    pub pegged_change_amount: Option<Seq<char>>,
    pub reference_change_amount: Option<Seq<char>>,
    pub reference_exchange: Seq<char>,
    pub adjusted_order_type: Seq<char>,
    pub trigger_price: Option<Seq<char>>,
    pub limit_price_offset: Option<Seq<char>>,
    pub adjusted_stop_price: Option<Seq<char>>,
    pub adjusted_stop_limit_price: Option<Seq<char>>,
    pub adjusted_trailing_amount: Option<Seq<char>>,
    pub adjustable_trailing_unit: int,
    pub conditions: Seq<OrderConditionView>,
    pub conditions_ignore_rth: bool,
    pub conditions_cancel_order: bool,
    pub soft_dollar_tier: SoftDollarTierView,
    pub cash_qty: Option<Seq<char>>,
    pub dont_use_auto_price_for_hedge: bool,
    pub is_oms_container: bool,
    pub discretionary_up_to_limit_price: bool,
    pub use_price_mgmt_algo: bool,
    pub duration: Option<int>,
    pub post_to_ats: Option<int>,
    pub auto_cancel_parent: bool,
    pub min_trade_qty: Option<int>,
    pub min_compete_size: Option<int>,
    pub compete_against_best_offset: Option<Seq<char>>,
    pub mid_offset_at_whole: Option<Seq<char>>,
    pub mid_offset_at_half: Option<Seq<char>>,
    pub customer_account: Seq<char>,
    pub professional_customer: bool,
    pub bond_accrued_interest: Seq<char>,
    pub include_overnight: bool,
    pub ext_operator: Seq<char>,
    pub manual_order_indicator: Option<int>,
    pub submitter: Seq<char>,
    pub imbalance_only: bool,
    pub auto_cancel_date: Seq<char>,
    pub filled_quantity: Seq<char>,
    pub ref_futures_con_id: Option<int>,
    pub shareholder: Seq<char>,
    pub route_marketable_to_bbo: bool,
    pub parent_perm_id: Option<int>,
}

impl View for Order {
    type V = OrderView;

    closed spec fn view(&self) -> OrderView {
        OrderView {
            order_id: self.order_id as int,
            solicited: self.solicited,
            client_id: self.client_id as int,
            perm_id: self.perm_id as int,
            action: self.action,
            total_quantity: self.total_quantity@,
            order_type: self.order_type@,
            limit_price: optional_view(self.limit_price),
            aux_price: optional_view(self.aux_price),
            tif: self.tif,
            oca_group: self.oca_group@,
            oca_type: self.oca_type,
            order_ref: self.order_ref@,
            parent_id: self.parent_id as int,
            block_order: self.block_order,
            sweep_to_fill: self.sweep_to_fill,
            display_size: optional_int(self.display_size),
            trigger_method: self.trigger_method,
            outside_rth: self.outside_rth,
            hidden: self.hidden,
            good_after_time: self.good_after_time@,
            good_till_date: self.good_till_date@,
            rule_80_a: self.rule_80_a,
            all_or_none: self.all_or_none,
            min_qty: optional_int(self.min_qty),
            percent_offset: optional_view(self.percent_offset),
            trail_stop_price: optional_view(self.trail_stop_price),
            trailing_percent: optional_view(self.trailing_percent),
            fa_group: self.fa_group@,
            fa_method: self.fa_method@,
            fa_percentage: self.fa_percentage@,
            open_close: self.open_close,
            origin: self.origin,
            short_sale_slot: self.short_sale_slot,
            designated_location: self.designated_location@,
            exempt_code: self.exempt_code as int,
            discretionary_amt: self.discretionary_amt@,
            opt_out_smart_routing: self.opt_out_smart_routing,
            auction_strategy: self.auction_strategy,
            starting_price: optional_view(self.starting_price),
            stock_ref_price: optional_view(self.stock_ref_price),
            delta: optional_view(self.delta),
            stock_range_lower: optional_view(self.stock_range_lower),
            stock_range_upper: optional_view(self.stock_range_upper),
            volatility: optional_view(self.volatility),
            volatility_type: self.volatility_type,
            continuous_update: self.continuous_update,
            reference_price_type: self.reference_price_type,
            delta_neutral_order_type: self.delta_neutral_order_type@,
            delta_neutral_aux_price: optional_view(self.delta_neutral_aux_price),
            delta_neutral_con_id: self.delta_neutral_con_id as int,
            delta_neutral_settling_firm: self.delta_neutral_settling_firm@,
            delta_neutral_clearing_account: self.delta_neutral_clearing_account@,
            delta_neutral_clearing_intent: self.delta_neutral_clearing_intent@,
            delta_neutral_open_close: self.delta_neutral_open_close@,
            delta_neutral_short_sale: self.delta_neutral_short_sale,
            delta_neutral_short_sale_slot: self.delta_neutral_short_sale_slot as int,
            delta_neutral_designated_location: self.delta_neutral_designated_location@,
            basis_points: optional_view(self.basis_points),
            basis_points_type: optional_int(self.basis_points_type),
            scale_init_level_size: optional_int(self.scale_init_level_size),
            scale_subs_level_size: optional_int(self.scale_subs_level_size),
            scale_price_increment: optional_view(self.scale_price_increment),
            scale_price_adjust_value: optional_view(self.scale_price_adjust_value),
            scale_price_adjust_interval: optional_int(self.scale_price_adjust_interval),
            scale_profit_offset: optional_view(self.scale_profit_offset),
            scale_auto_reset: self.scale_auto_reset,
            scale_init_position: optional_int(self.scale_init_position),
            scale_init_fill_qty: optional_int(self.scale_init_fill_qty),
            scale_random_percent: self.scale_random_percent,
            hedge_type: self.hedge_type@,
            hedge_param: self.hedge_param@,
            account: self.account@,
            settling_firm: self.settling_firm@,
            clearing_account: self.clearing_account@,
            clearing_intent: self.clearing_intent@,
            algo_strategy: self.algo_strategy@,
            algo_params: views_of(self.algo_params@),
            what_if: self.what_if,
            not_held: self.not_held,
            order_combo_legs: views_of(self.order_combo_legs@),
            smart_combo_routing_params: views_of(self.smart_combo_routing_params@),
            model_code: self.model_code@,
            randomize_size: self.randomize_size,
            randomize_price: self.randomize_price,
            reference_contract_id: self.reference_contract_id as int,
            is_pegged_change_amount_decrease: self.is_pegged_change_amount_decrease,
            pegged_change_amount: optional_view(self.pegged_change_amount),
            reference_change_amount: optional_view(self.reference_change_amount),
            reference_exchange: self.reference_exchange@,
            adjusted_order_type: self.adjusted_order_type@,
            trigger_price: optional_view(self.trigger_price),
            limit_price_offset: optional_view(self.limit_price_offset),
            adjusted_stop_price: optional_view(self.adjusted_stop_price),
            adjusted_stop_limit_price: optional_view(self.adjusted_stop_limit_price),
            adjusted_trailing_amount: optional_view(self.adjusted_trailing_amount),
            adjustable_trailing_unit: self.adjustable_trailing_unit as int,
            conditions: views_of(self.conditions@),
            conditions_ignore_rth: self.conditions_ignore_rth,
            conditions_cancel_order: self.conditions_cancel_order,
            soft_dollar_tier: self.soft_dollar_tier@,
            cash_qty: optional_view(self.cash_qty),
            dont_use_auto_price_for_hedge: self.dont_use_auto_price_for_hedge,
            is_oms_container: self.is_oms_container,
            discretionary_up_to_limit_price: self.discretionary_up_to_limit_price,
            use_price_mgmt_algo: self.use_price_mgmt_algo,
            duration: optional_int(self.duration),
            post_to_ats: optional_int(self.post_to_ats),
            auto_cancel_parent: self.auto_cancel_parent,
            min_trade_qty: optional_int(self.min_trade_qty),
            min_compete_size: optional_int(self.min_compete_size),
            compete_against_best_offset: optional_view(self.compete_against_best_offset),
            mid_offset_at_whole: optional_view(self.mid_offset_at_whole),
            mid_offset_at_half: optional_view(self.mid_offset_at_half),
            customer_account: self.customer_account@,
            professional_customer: self.professional_customer,
            bond_accrued_interest: self.bond_accrued_interest@,
            include_overnight: self.include_overnight,
            ext_operator: self.ext_operator@,
            manual_order_indicator: optional_int(self.manual_order_indicator),
            submitter: self.submitter@,
            imbalance_only: self.imbalance_only,
            auto_cancel_date: self.auto_cancel_date@,
            filled_quantity: self.filled_quantity@,
            ref_futures_con_id: optional_int(self.ref_futures_con_id),
            shareholder: self.shareholder@,
            route_marketable_to_bbo: self.route_marketable_to_bbo,
            parent_perm_id: optional_long(self.parent_perm_id),
        }
    }
}

impl OrderView {
    /// The record before anything was read into it.
    pub open spec fn initial() -> OrderView {
        OrderView {
            order_id: 0,
            solicited: false,
            client_id: 0,
            perm_id: 0,
            action: Action::Buy,
            total_quantity: zero_text(),
            order_type: Seq::<char>::empty(),
            limit_price: None,
            aux_price: None,
            tif: TimeInForce::Day,
            oca_group: Seq::<char>::empty(),
            oca_type: OcaType::Ungrouped,
            order_ref: Seq::<char>::empty(),
            parent_id: 0,
            block_order: false,
            sweep_to_fill: false,
            display_size: None,
            trigger_method: TriggerMethod::Standard,
            outside_rth: false,
            hidden: false,
            good_after_time: Seq::<char>::empty(),
            good_till_date: Seq::<char>::empty(),
            rule_80_a: None,
            all_or_none: false,
            min_qty: None,
            percent_offset: None,
            trail_stop_price: None,
            trailing_percent: None,
            fa_group: Seq::<char>::empty(),
            fa_method: Seq::<char>::empty(),
            fa_percentage: Seq::<char>::empty(),
            open_close: None,
            origin: OrderOrigin::Customer,
            short_sale_slot: ShortSaleSlot::Unspecified,
            designated_location: Seq::<char>::empty(),
            exempt_code: -1,
            discretionary_amt: zero_text(),
            opt_out_smart_routing: false,
            auction_strategy: None,
            starting_price: None,
            stock_ref_price: None,
            delta: None,
            stock_range_lower: None,
            stock_range_upper: None,
            volatility: None,
            volatility_type: None,
            continuous_update: false,
            reference_price_type: None,
            delta_neutral_order_type: Seq::<char>::empty(),
            delta_neutral_aux_price: None,
            delta_neutral_con_id: 0,
            delta_neutral_settling_firm: Seq::<char>::empty(),
            delta_neutral_clearing_account: Seq::<char>::empty(),
            delta_neutral_clearing_intent: Seq::<char>::empty(),
            delta_neutral_open_close: Seq::<char>::empty(),
            delta_neutral_short_sale: false,
            delta_neutral_short_sale_slot: 0,
            delta_neutral_designated_location: Seq::<char>::empty(),
            basis_points: None,
            basis_points_type: None,
            scale_init_level_size: None,
            scale_subs_level_size: None,
            scale_price_increment: None,
            scale_price_adjust_value: None,
            scale_price_adjust_interval: None,
            scale_profit_offset: None,
            scale_auto_reset: false,
            scale_init_position: None,
            scale_init_fill_qty: None,
            scale_random_percent: false,
            hedge_type: Seq::<char>::empty(),
            hedge_param: Seq::<char>::empty(),
            account: Seq::<char>::empty(),
            settling_firm: Seq::<char>::empty(),
            clearing_account: Seq::<char>::empty(),
            clearing_intent: Seq::<char>::empty(),
            algo_strategy: Seq::<char>::empty(),
            algo_params: Seq::<TagValueView>::empty(),
            what_if: false,
            not_held: false,
            order_combo_legs: Seq::<OrderComboLegView>::empty(),
            smart_combo_routing_params: Seq::<TagValueView>::empty(),
            model_code: Seq::<char>::empty(),
            randomize_size: false,
            randomize_price: false,
            reference_contract_id: 0,
            is_pegged_change_amount_decrease: false,
            pegged_change_amount: None,
            reference_change_amount: None,
            reference_exchange: Seq::<char>::empty(),
            adjusted_order_type: Seq::<char>::empty(),
            trigger_price: None,
            limit_price_offset: None,
            adjusted_stop_price: None,
            adjusted_stop_limit_price: None,
            adjusted_trailing_amount: None,
            adjustable_trailing_unit: 0,
            conditions: Seq::<OrderConditionView>::empty(),
            conditions_ignore_rth: false,
            conditions_cancel_order: false,
            soft_dollar_tier: SoftDollarTierView::initial(),
            cash_qty: None,
            dont_use_auto_price_for_hedge: false,
            is_oms_container: false,
            discretionary_up_to_limit_price: false,
            use_price_mgmt_algo: false,
            duration: None,
            post_to_ats: None,
            auto_cancel_parent: false,
            min_trade_qty: None,
            min_compete_size: None,
            compete_against_best_offset: None,
            mid_offset_at_whole: None,
            mid_offset_at_half: None,
            customer_account: Seq::<char>::empty(),
            professional_customer: false,
            bond_accrued_interest: Seq::<char>::empty(),
            include_overnight: false,
            ext_operator: Seq::<char>::empty(),
            manual_order_indicator: None,
            submitter: Seq::<char>::empty(),
            imbalance_only: false,
            auto_cancel_date: Seq::<char>::empty(),
            filled_quantity: zero_text(),
            ref_futures_con_id: None,
            shareholder: Seq::<char>::empty(),
            route_marketable_to_bbo: false,
            parent_perm_id: None,
        }
    }

    /// This record with another value of `order_id`.
    #[verifier::opaque]
    pub open spec fn with_order_id(self, v: int) -> OrderView {
        OrderView { order_id: v, ..self }
    }

    /// This record with another value of `solicited`.
    #[verifier::opaque]
    pub open spec fn with_solicited(self, v: bool) -> OrderView {
        OrderView { solicited: v, ..self }
    }

    /// This record with another value of `client_id`.
    #[verifier::opaque]
    pub open spec fn with_client_id(self, v: int) -> OrderView {
        OrderView { client_id: v, ..self }
    }

    /// This record with another value of `perm_id`.
    #[verifier::opaque]
    pub open spec fn with_perm_id(self, v: int) -> OrderView {
        OrderView { perm_id: v, ..self }
    }

    /// This record with another value of `action`.
    #[verifier::opaque]
    pub open spec fn with_action(self, v: Action) -> OrderView {
        OrderView { action: v, ..self }
    }

    /// This record with another value of `total_quantity`.
    #[verifier::opaque]
    pub open spec fn with_total_quantity(self, v: Seq<char>) -> OrderView {
        OrderView { total_quantity: v, ..self }
    }

    /// This record with another value of `order_type`.
    #[verifier::opaque]
    pub open spec fn with_order_type(self, v: Seq<char>) -> OrderView {
        OrderView { order_type: v, ..self }
    }

    /// This record with another value of `limit_price`.
    #[verifier::opaque]
    pub open spec fn with_limit_price(self, v: Option<Seq<char>>) -> OrderView {
        OrderView { limit_price: v, ..self }
    }

    /// This record with another value of `aux_price`.
    #[verifier::opaque]
    pub open spec fn with_aux_price(self, v: Option<Seq<char>>) -> OrderView {
        OrderView { aux_price: v, ..self }
    }

    /// This record with another value of `tif`.
    #[verifier::opaque]
    pub open spec fn with_tif(self, v: TimeInForce) -> OrderView {
        OrderView { tif: v, ..self }
    }

    /// This record with another value of `oca_group`.
    #[verifier::opaque]
    pub open spec fn with_oca_group(self, v: Seq<char>) -> OrderView {
        OrderView { oca_group: v, ..self }
    }

    /// This record with another value of `oca_type`.
    #[verifier::opaque]
    pub open spec fn with_oca_type(self, v: OcaType) -> OrderView {
        OrderView { oca_type: v, ..self }
    }

    /// This record with another value of `order_ref`.
    #[verifier::opaque]
    pub open spec fn with_order_ref(self, v: Seq<char>) -> OrderView {
        OrderView { order_ref: v, ..self }
    }

    /// This record with another value of `parent_id`.
    #[verifier::opaque]
    pub open spec fn with_parent_id(self, v: int) -> OrderView {
        OrderView { parent_id: v, ..self }
    }

    /// This record with another value of `block_order`.
    #[verifier::opaque]
    pub open spec fn with_block_order(self, v: bool) -> OrderView {
        OrderView { block_order: v, ..self }
    }

    /// This record with another value of `sweep_to_fill`.
    #[verifier::opaque]
    pub open spec fn with_sweep_to_fill(self, v: bool) -> OrderView {
        OrderView { sweep_to_fill: v, ..self }
    }

    /// This record with another value of `display_size`.
    #[verifier::opaque]
    pub open spec fn with_display_size(self, v: Option<int>) -> OrderView {
        OrderView { display_size: v, ..self }
    }

    /// This record with another value of `trigger_method`.
    #[verifier::opaque]
    pub open spec fn with_trigger_method(self, v: TriggerMethod) -> OrderView {
        OrderView { trigger_method: v, ..self }
    }

    /// This record with another value of `outside_rth`.
    #[verifier::opaque]
    pub open spec fn with_outside_rth(self, v: bool) -> OrderView {
        OrderView { outside_rth: v, ..self }
    }

    /// This record with another value of `hidden`.
    #[verifier::opaque]
    pub open spec fn with_hidden(self, v: bool) -> OrderView {
        OrderView { hidden: v, ..self }
    }

    /// This record with another value of `good_after_time`.
    #[verifier::opaque]
    pub open spec fn with_good_after_time(self, v: Seq<char>) -> OrderView {
        OrderView { good_after_time: v, ..self }
    }

    /// This record with another value of `good_till_date`.
    #[verifier::opaque]
    pub open spec fn with_good_till_date(self, v: Seq<char>) -> OrderView {
        OrderView { good_till_date: v, ..self }
    }

    /// This record with another value of `rule_80_a`.
    #[verifier::opaque]
    pub open spec fn with_rule_80_a(self, v: Option<Rule80A>) -> OrderView {
        OrderView { rule_80_a: v, ..self }
    }

    /// This record with another value of `all_or_none`.
    #[verifier::opaque]
    pub open spec fn with_all_or_none(self, v: bool) -> OrderView {
        OrderView { all_or_none: v, ..self }
    }

    /// This record with another value of `min_qty`.
    #[verifier::opaque]
    pub open spec fn with_min_qty(self, v: Option<int>) -> OrderView {
        OrderView { min_qty: v, ..self }
    }

    /// This record with another value of `percent_offset`.
    #[verifier::opaque]
    pub open spec fn with_percent_offset(self, v: Option<Seq<char>>) -> OrderView {
        OrderView { percent_offset: v, ..self }
    }

    /// This record with another value of `trail_stop_price`.
    #[verifier::opaque]
    pub open spec fn with_trail_stop_price(self, v: Option<Seq<char>>) -> OrderView {
        OrderView { trail_stop_price: v, ..self }
    }

    /// This record with another value of `trailing_percent`.
    #[verifier::opaque]
    pub open spec fn with_trailing_percent(self, v: Option<Seq<char>>) -> OrderView {
        OrderView { trailing_percent: v, ..self }
    }

    /// This record with another value of `fa_group`.
    #[verifier::opaque]
    pub open spec fn with_fa_group(self, v: Seq<char>) -> OrderView {
        OrderView { fa_group: v, ..self }
    }

    /// This record with another value of `fa_method`.
    #[verifier::opaque]
    pub open spec fn with_fa_method(self, v: Seq<char>) -> OrderView {
        OrderView { fa_method: v, ..self }
    }

    /// This record with another value of `fa_percentage`.
    #[verifier::opaque]
    pub open spec fn with_fa_percentage(self, v: Seq<char>) -> OrderView {
        OrderView { fa_percentage: v, ..self }
    }

    /// This record with another value of `open_close`.
    #[verifier::opaque]
    pub open spec fn with_open_close(self, v: Option<OrderOpenClose>) -> OrderView {
        OrderView { open_close: v, ..self }
    }

    /// This record with another value of `origin`.
    #[verifier::opaque]
    pub open spec fn with_origin(self, v: OrderOrigin) -> OrderView {
        OrderView { origin: v, ..self }
    }

    /// This record with another value of `short_sale_slot`.
    #[verifier::opaque]
    pub open spec fn with_short_sale_slot(self, v: ShortSaleSlot) -> OrderView {
        OrderView { short_sale_slot: v, ..self }
    }

    /// This record with another value of `designated_location`.
    #[verifier::opaque]
    pub open spec fn with_designated_location(self, v: Seq<char>) -> OrderView {
        OrderView { designated_location: v, ..self }
    }

    /// This record with another value of `exempt_code`.
    #[verifier::opaque]
    pub open spec fn with_exempt_code(self, v: int) -> OrderView {
        OrderView { exempt_code: v, ..self }
    }

    /// This record with another value of `discretionary_amt`.
    #[verifier::opaque]
    pub open spec fn with_discretionary_amt(self, v: Seq<char>) -> OrderView {
        OrderView { discretionary_amt: v, ..self }
    }

    /// This record with another value of `opt_out_smart_routing`.
    #[verifier::opaque]
    pub open spec fn with_opt_out_smart_routing(self, v: bool) -> OrderView {
        OrderView { opt_out_smart_routing: v, ..self }
    }

    /// This record with another value of `auction_strategy`.
    #[verifier::opaque]
    pub open spec fn with_auction_strategy(self, v: Option<AuctionStrategy>) -> OrderView {
        OrderView { auction_strategy: v, ..self }
    }

    /// This record with another value of `starting_price`.
    #[verifier::opaque]
    pub open spec fn with_starting_price(self, v: Option<Seq<char>>) -> OrderView {
        OrderView { starting_price: v, ..self }
    }

    /// This record with another value of `stock_ref_price`.
    #[verifier::opaque]
    pub open spec fn with_stock_ref_price(self, v: Option<Seq<char>>) -> OrderView {
        OrderView { stock_ref_price: v, ..self }
    }

    /// This record with another value of `delta`.
    #[verifier::opaque]
    pub open spec fn with_delta(self, v: Option<Seq<char>>) -> OrderView {
        OrderView { delta: v, ..self }
    }

    /// This record with another value of `stock_range_lower`.
    #[verifier::opaque]
    pub open spec fn with_stock_range_lower(self, v: Option<Seq<char>>) -> OrderView {
        OrderView { stock_range_lower: v, ..self }
    }

    /// This record with another value of `stock_range_upper`.
    #[verifier::opaque]
    pub open spec fn with_stock_range_upper(self, v: Option<Seq<char>>) -> OrderView {
        OrderView { stock_range_upper: v, ..self }
    }

    /// This record with another value of `volatility`.
    #[verifier::opaque]
    pub open spec fn with_volatility(self, v: Option<Seq<char>>) -> OrderView {
        OrderView { volatility: v, ..self }
    }

    /// This record with another value of `volatility_type`.
    #[verifier::opaque]
    pub open spec fn with_volatility_type(self, v: Option<VolatilityType>) -> OrderView {
        OrderView { volatility_type: v, ..self }
    }

    /// This record with another value of `continuous_update`.
    #[verifier::opaque]
    pub open spec fn with_continuous_update(self, v: bool) -> OrderView {
        OrderView { continuous_update: v, ..self }
    }

    /// This record with another value of `reference_price_type`.
    #[verifier::opaque]
    pub open spec fn with_reference_price_type(self, v: Option<ReferencePriceType>) -> OrderView {
        OrderView { reference_price_type: v, ..self }
    }

    /// This record with another value of `delta_neutral_order_type`.
    #[verifier::opaque]
    pub open spec fn with_delta_neutral_order_type(self, v: Seq<char>) -> OrderView {
        OrderView { delta_neutral_order_type: v, ..self }
    }

    /// This record with another value of `delta_neutral_aux_price`.
    #[verifier::opaque]
    pub open spec fn with_delta_neutral_aux_price(self, v: Option<Seq<char>>) -> OrderView {
        OrderView { delta_neutral_aux_price: v, ..self }
    }

    /// This record with another value of `delta_neutral_con_id`.
    #[verifier::opaque]
    pub open spec fn with_delta_neutral_con_id(self, v: int) -> OrderView {
        OrderView { delta_neutral_con_id: v, ..self }
    }

    /// This record with another value of `delta_neutral_settling_firm`.
    #[verifier::opaque]
    pub open spec fn with_delta_neutral_settling_firm(self, v: Seq<char>) -> OrderView {
        OrderView { delta_neutral_settling_firm: v, ..self }
    }

    /// This record with another value of `delta_neutral_clearing_account`.
    #[verifier::opaque]
    pub open spec fn with_delta_neutral_clearing_account(self, v: Seq<char>) -> OrderView {
        OrderView { delta_neutral_clearing_account: v, ..self }
    }

    /// This record with another value of `delta_neutral_clearing_intent`.
    #[verifier::opaque]
    pub open spec fn with_delta_neutral_clearing_intent(self, v: Seq<char>) -> OrderView {
        OrderView { delta_neutral_clearing_intent: v, ..self }
    }

    /// This record with another value of `delta_neutral_open_close`.
    #[verifier::opaque]
    pub open spec fn with_delta_neutral_open_close(self, v: Seq<char>) -> OrderView {
        OrderView { delta_neutral_open_close: v, ..self }
    }

    /// This record with another value of `delta_neutral_short_sale`.
    #[verifier::opaque]
    pub open spec fn with_delta_neutral_short_sale(self, v: bool) -> OrderView {
        OrderView { delta_neutral_short_sale: v, ..self }
    }

    /// This record with another value of `delta_neutral_short_sale_slot`.
    #[verifier::opaque]
    pub open spec fn with_delta_neutral_short_sale_slot(self, v: int) -> OrderView {
        OrderView { delta_neutral_short_sale_slot: v, ..self }
    }

    /// This record with another value of `delta_neutral_designated_location`.
    #[verifier::opaque]
    pub open spec fn with_delta_neutral_designated_location(self, v: Seq<char>) -> OrderView {
        OrderView { delta_neutral_designated_location: v, ..self }
    }

    /// This record with another value of `basis_points`.
    #[verifier::opaque]
    pub open spec fn with_basis_points(self, v: Option<Seq<char>>) -> OrderView {
        OrderView { basis_points: v, ..self }
    }

    /// This record with another value of `basis_points_type`.
    #[verifier::opaque]
    pub open spec fn with_basis_points_type(self, v: Option<int>) -> OrderView {
        OrderView { basis_points_type: v, ..self }
    }

    /// This record with another value of `scale_init_level_size`.
    #[verifier::opaque]
    pub open spec fn with_scale_init_level_size(self, v: Option<int>) -> OrderView {
        OrderView { scale_init_level_size: v, ..self }
    }

    /// This record with another value of `scale_subs_level_size`.
    #[verifier::opaque]
    pub open spec fn with_scale_subs_level_size(self, v: Option<int>) -> OrderView {
        OrderView { scale_subs_level_size: v, ..self }
    }

    /// This record with another value of `scale_price_increment`.
    #[verifier::opaque]
    pub open spec fn with_scale_price_increment(self, v: Option<Seq<char>>) -> OrderView {
        OrderView { scale_price_increment: v, ..self }
    }

    /// This record with another value of `scale_price_adjust_value`.
    #[verifier::opaque]
    pub open spec fn with_scale_price_adjust_value(self, v: Option<Seq<char>>) -> OrderView {
        OrderView { scale_price_adjust_value: v, ..self }
    }

    /// This record with another value of `scale_price_adjust_interval`.
    #[verifier::opaque]
    pub open spec fn with_scale_price_adjust_interval(self, v: Option<int>) -> OrderView {
        OrderView { scale_price_adjust_interval: v, ..self }
    }

    /// This record with another value of `scale_profit_offset`.
    #[verifier::opaque]
    pub open spec fn with_scale_profit_offset(self, v: Option<Seq<char>>) -> OrderView {
        OrderView { scale_profit_offset: v, ..self }
    }

    /// This record with another value of `scale_auto_reset`.
    #[verifier::opaque]
    pub open spec fn with_scale_auto_reset(self, v: bool) -> OrderView {
        OrderView { scale_auto_reset: v, ..self }
    }

    /// This record with another value of `scale_init_position`.
    #[verifier::opaque]
    pub open spec fn with_scale_init_position(self, v: Option<int>) -> OrderView {
        OrderView { scale_init_position: v, ..self }
    }

    /// This record with another value of `scale_init_fill_qty`.
    #[verifier::opaque]
    pub open spec fn with_scale_init_fill_qty(self, v: Option<int>) -> OrderView {
        OrderView { scale_init_fill_qty: v, ..self }
    }

    /// This record with another value of `scale_random_percent`.
    #[verifier::opaque]
    pub open spec fn with_scale_random_percent(self, v: bool) -> OrderView {
        OrderView { scale_random_percent: v, ..self }
    }

    /// This record with another value of `hedge_type`.
    #[verifier::opaque]
    pub open spec fn with_hedge_type(self, v: Seq<char>) -> OrderView {
        OrderView { hedge_type: v, ..self }
    }

    /// This record with another value of `hedge_param`.
    #[verifier::opaque]
    pub open spec fn with_hedge_param(self, v: Seq<char>) -> OrderView {
        OrderView { hedge_param: v, ..self }
    }

    /// This record with another value of `account`.
    #[verifier::opaque]
    pub open spec fn with_account(self, v: Seq<char>) -> OrderView {
        OrderView { account: v, ..self }
    }

    /// This record with another value of `settling_firm`.
    #[verifier::opaque]
    pub open spec fn with_settling_firm(self, v: Seq<char>) -> OrderView {
        OrderView { settling_firm: v, ..self }
    }

    /// This record with another value of `clearing_account`.
    #[verifier::opaque]
    pub open spec fn with_clearing_account(self, v: Seq<char>) -> OrderView {
        OrderView { clearing_account: v, ..self }
    }

    /// This record with another value of `clearing_intent`.
    #[verifier::opaque]
    pub open spec fn with_clearing_intent(self, v: Seq<char>) -> OrderView {
        OrderView { clearing_intent: v, ..self }
    }

    /// This record with another value of `algo_strategy`.
    #[verifier::opaque]
    pub open spec fn with_algo_strategy(self, v: Seq<char>) -> OrderView {
        OrderView { algo_strategy: v, ..self }
    }

    /// This record with another value of `algo_params`.
    #[verifier::opaque]
    pub open spec fn with_algo_params(self, v: Seq<TagValueView>) -> OrderView {
        OrderView { algo_params: v, ..self }
    }

    /// This record with another value of `what_if`.
    #[verifier::opaque]
    pub open spec fn with_what_if(self, v: bool) -> OrderView {
        OrderView { what_if: v, ..self }
    }

    /// This record with another value of `not_held`.
    #[verifier::opaque]
    pub open spec fn with_not_held(self, v: bool) -> OrderView {
        OrderView { not_held: v, ..self }
    }

    /// This record with another value of `order_combo_legs`.
    #[verifier::opaque]
    pub open spec fn with_order_combo_legs(self, v: Seq<OrderComboLegView>) -> OrderView {
        OrderView { order_combo_legs: v, ..self }
    }

    /// This record with another value of `smart_combo_routing_params`.
    #[verifier::opaque]
    pub open spec fn with_smart_combo_routing_params(self, v: Seq<TagValueView>) -> OrderView {
        OrderView { smart_combo_routing_params: v, ..self }
    }

    /// This record with another value of `model_code`.
    #[verifier::opaque]
    pub open spec fn with_model_code(self, v: Seq<char>) -> OrderView {
        OrderView { model_code: v, ..self }
    }

    /// This record with another value of `randomize_size`.
    #[verifier::opaque]
    pub open spec fn with_randomize_size(self, v: bool) -> OrderView {
        OrderView { randomize_size: v, ..self }
    }

    /// This record with another value of `randomize_price`.
    #[verifier::opaque]
    pub open spec fn with_randomize_price(self, v: bool) -> OrderView {
        OrderView { randomize_price: v, ..self }
    }

    /// This record with another value of `reference_contract_id`.
    #[verifier::opaque]
    pub open spec fn with_reference_contract_id(self, v: int) -> OrderView {
        OrderView { reference_contract_id: v, ..self }
    }

    /// This record with another value of `is_pegged_change_amount_decrease`.
    #[verifier::opaque]
    pub open spec fn with_is_pegged_change_amount_decrease(self, v: bool) -> OrderView {
        OrderView { is_pegged_change_amount_decrease: v, ..self }
    }

    /// This record with another value of `pegged_change_amount`.
    #[verifier::opaque]
    pub open spec fn with_pegged_change_amount(self, v: Option<Seq<char>>) -> OrderView {
        OrderView { pegged_change_amount: v, ..self }
    }

    /// This record with another value of `reference_change_amount`.
    #[verifier::opaque]
    pub open spec fn with_reference_change_amount(self, v: Option<Seq<char>>) -> OrderView {
        OrderView { reference_change_amount: v, ..self }
    }

    /// This record with another value of `reference_exchange`.
    #[verifier::opaque]
    pub open spec fn with_reference_exchange(self, v: Seq<char>) -> OrderView {
        OrderView { reference_exchange: v, ..self }
    }

    /// This record with another value of `adjusted_order_type`.
    #[verifier::opaque]
    pub open spec fn with_adjusted_order_type(self, v: Seq<char>) -> OrderView {
        OrderView { adjusted_order_type: v, ..self }
    }

    /// This record with another value of `trigger_price`.
    #[verifier::opaque]
    pub open spec fn with_trigger_price(self, v: Option<Seq<char>>) -> OrderView {
        OrderView { trigger_price: v, ..self }
    }

    /// This record with another value of `limit_price_offset`.
    #[verifier::opaque]
    pub open spec fn with_limit_price_offset(self, v: Option<Seq<char>>) -> OrderView {
        OrderView { limit_price_offset: v, ..self }
    }

    /// This record with another value of `adjusted_stop_price`.
    #[verifier::opaque]
    pub open spec fn with_adjusted_stop_price(self, v: Option<Seq<char>>) -> OrderView {
        OrderView { adjusted_stop_price: v, ..self }
    }

    /// This record with another value of `adjusted_stop_limit_price`.
    #[verifier::opaque]
    pub open spec fn with_adjusted_stop_limit_price(self, v: Option<Seq<char>>) -> OrderView {
        OrderView { adjusted_stop_limit_price: v, ..self }
    }

    /// This record with another value of `adjusted_trailing_amount`.
    #[verifier::opaque]
    pub open spec fn with_adjusted_trailing_amount(self, v: Option<Seq<char>>) -> OrderView {
        OrderView { adjusted_trailing_amount: v, ..self }
    }

    /// This record with another value of `adjustable_trailing_unit`.
    #[verifier::opaque]
    pub open spec fn with_adjustable_trailing_unit(self, v: int) -> OrderView {
        OrderView { adjustable_trailing_unit: v, ..self }
    }

    /// This record with another value of `conditions`.
    #[verifier::opaque]
    pub open spec fn with_conditions(self, v: Seq<OrderConditionView>) -> OrderView {
        OrderView { conditions: v, ..self }
    }

    /// This record with another value of `conditions_ignore_rth`.
    #[verifier::opaque]
    pub open spec fn with_conditions_ignore_rth(self, v: bool) -> OrderView {
        OrderView { conditions_ignore_rth: v, ..self }
    }

    /// This record with another value of `conditions_cancel_order`.
    #[verifier::opaque]
    pub open spec fn with_conditions_cancel_order(self, v: bool) -> OrderView {
        OrderView { conditions_cancel_order: v, ..self }
    }

    /// This record with another value of `soft_dollar_tier`.
    #[verifier::opaque]
    pub open spec fn with_soft_dollar_tier(self, v: SoftDollarTierView) -> OrderView {
        OrderView { soft_dollar_tier: v, ..self }
    }

    /// This record with another value of `cash_qty`.
    #[verifier::opaque]
    pub open spec fn with_cash_qty(self, v: Option<Seq<char>>) -> OrderView {
        OrderView { cash_qty: v, ..self }
    }

    /// This record with another value of `dont_use_auto_price_for_hedge`.
    #[verifier::opaque]
    pub open spec fn with_dont_use_auto_price_for_hedge(self, v: bool) -> OrderView {
        OrderView { dont_use_auto_price_for_hedge: v, ..self }
    }

    /// This record with another value of `is_oms_container`.
    #[verifier::opaque]
    pub open spec fn with_is_oms_container(self, v: bool) -> OrderView {
        OrderView { is_oms_container: v, ..self }
    }

    /// This record with another value of `discretionary_up_to_limit_price`.
    #[verifier::opaque]
    pub open spec fn with_discretionary_up_to_limit_price(self, v: bool) -> OrderView {
        OrderView { discretionary_up_to_limit_price: v, ..self }
    }

    /// This record with another value of `use_price_mgmt_algo`.
    #[verifier::opaque]
    pub open spec fn with_use_price_mgmt_algo(self, v: bool) -> OrderView {
        OrderView { use_price_mgmt_algo: v, ..self }
    }

    /// This record with another value of `duration`.
    #[verifier::opaque]
    pub open spec fn with_duration(self, v: Option<int>) -> OrderView {
        OrderView { duration: v, ..self }
    }

    /// This record with another value of `post_to_ats`.
    #[verifier::opaque]
    pub open spec fn with_post_to_ats(self, v: Option<int>) -> OrderView {
        OrderView { post_to_ats: v, ..self }
    }

    /// This record with another value of `auto_cancel_parent`.
    #[verifier::opaque]
    pub open spec fn with_auto_cancel_parent(self, v: bool) -> OrderView {
        OrderView { auto_cancel_parent: v, ..self }
    }

    /// This record with another value of `min_trade_qty`.
    #[verifier::opaque]
    pub open spec fn with_min_trade_qty(self, v: Option<int>) -> OrderView {
        OrderView { min_trade_qty: v, ..self }
    }

    /// This record with another value of `min_compete_size`.
    #[verifier::opaque]
    pub open spec fn with_min_compete_size(self, v: Option<int>) -> OrderView {
        OrderView { min_compete_size: v, ..self }
    }

    /// This record with another value of `compete_against_best_offset`.
    #[verifier::opaque]
    pub open spec fn with_compete_against_best_offset(self, v: Option<Seq<char>>) -> OrderView {
        OrderView { compete_against_best_offset: v, ..self }
    }

    /// This record with another value of `mid_offset_at_whole`.
    #[verifier::opaque]
    pub open spec fn with_mid_offset_at_whole(self, v: Option<Seq<char>>) -> OrderView {
        OrderView { mid_offset_at_whole: v, ..self }
    }

    /// This record with another value of `mid_offset_at_half`.
    #[verifier::opaque]
    pub open spec fn with_mid_offset_at_half(self, v: Option<Seq<char>>) -> OrderView {
        OrderView { mid_offset_at_half: v, ..self }
    }

    /// This record with another value of `customer_account`.
    #[verifier::opaque]
    pub open spec fn with_customer_account(self, v: Seq<char>) -> OrderView {
        OrderView { customer_account: v, ..self }
    }

    /// This record with another value of `professional_customer`.
    #[verifier::opaque]
    pub open spec fn with_professional_customer(self, v: bool) -> OrderView {
        OrderView { professional_customer: v, ..self }
    }

    /// This record with another value of `bond_accrued_interest`.
    #[verifier::opaque]
    pub open spec fn with_bond_accrued_interest(self, v: Seq<char>) -> OrderView {
        OrderView { bond_accrued_interest: v, ..self }
    }

    /// This record with another value of `include_overnight`.
    #[verifier::opaque]
    pub open spec fn with_include_overnight(self, v: bool) -> OrderView {
        OrderView { include_overnight: v, ..self }
    }

    /// This record with another value of `ext_operator`.
    #[verifier::opaque]
    pub open spec fn with_ext_operator(self, v: Seq<char>) -> OrderView {
        OrderView { ext_operator: v, ..self }
    }

    /// This record with another value of `manual_order_indicator`.
    #[verifier::opaque]
    pub open spec fn with_manual_order_indicator(self, v: Option<int>) -> OrderView {
        OrderView { manual_order_indicator: v, ..self }
    }

    /// This record with another value of `submitter`.
    #[verifier::opaque]
    pub open spec fn with_submitter(self, v: Seq<char>) -> OrderView {
        OrderView { submitter: v, ..self }
    }

    /// This record with another value of `imbalance_only`.
    #[verifier::opaque]
    pub open spec fn with_imbalance_only(self, v: bool) -> OrderView {
        OrderView { imbalance_only: v, ..self }
    }

    /// This record with another value of `auto_cancel_date`.
    #[verifier::opaque]
    pub open spec fn with_auto_cancel_date(self, v: Seq<char>) -> OrderView {
        OrderView { auto_cancel_date: v, ..self }
    }

    /// This record with another value of `filled_quantity`.
    #[verifier::opaque]
    pub open spec fn with_filled_quantity(self, v: Seq<char>) -> OrderView {
        OrderView { filled_quantity: v, ..self }
    }

    /// This record with another value of `ref_futures_con_id`.
    #[verifier::opaque]
    pub open spec fn with_ref_futures_con_id(self, v: Option<int>) -> OrderView {
        OrderView { ref_futures_con_id: v, ..self }
    }

    /// This record with another value of `shareholder`.
    #[verifier::opaque]
    pub open spec fn with_shareholder(self, v: Seq<char>) -> OrderView {
        OrderView { shareholder: v, ..self }
    }

    /// This record with another value of `route_marketable_to_bbo`.
    #[verifier::opaque]
    pub open spec fn with_route_marketable_to_bbo(self, v: bool) -> OrderView {
        OrderView { route_marketable_to_bbo: v, ..self }
    }

    /// This record with another value of `parent_perm_id`.
    #[verifier::opaque]
    pub open spec fn with_parent_perm_id(self, v: Option<int>) -> OrderView {
        OrderView { parent_perm_id: v, ..self }
    }

    proof fn lemma_with_order_id_is_update(self, v: int)
        ensures
            self.with_order_id(v) == (OrderView { order_id: v, ..self }),
    {
        reveal(OrderView::with_order_id);
    }

    proof fn lemma_with_solicited_is_update(self, v: bool)
        ensures
            self.with_solicited(v) == (OrderView { solicited: v, ..self }),
    {
        reveal(OrderView::with_solicited);
    }

    proof fn lemma_with_client_id_is_update(self, v: int)
        ensures
            self.with_client_id(v) == (OrderView { client_id: v, ..self }),
    {
        reveal(OrderView::with_client_id);
    }

    proof fn lemma_with_perm_id_is_update(self, v: int)
        ensures
            self.with_perm_id(v) == (OrderView { perm_id: v, ..self }),
    {
        reveal(OrderView::with_perm_id);
    }

    proof fn lemma_with_action_is_update(self, v: Action)
        ensures
            self.with_action(v) == (OrderView { action: v, ..self }),
    {
        reveal(OrderView::with_action);
    }

    proof fn lemma_with_total_quantity_is_update(self, v: Seq<char>)
        ensures
            self.with_total_quantity(v) == (OrderView { total_quantity: v, ..self }),
    {
        reveal(OrderView::with_total_quantity);
    }

    proof fn lemma_with_order_type_is_update(self, v: Seq<char>)
        ensures
            self.with_order_type(v) == (OrderView { order_type: v, ..self }),
    {
        reveal(OrderView::with_order_type);
    }

    proof fn lemma_with_limit_price_is_update(self, v: Option<Seq<char>>)
        ensures
            self.with_limit_price(v) == (OrderView { limit_price: v, ..self }),
    {
        reveal(OrderView::with_limit_price);
    }

    proof fn lemma_with_aux_price_is_update(self, v: Option<Seq<char>>)
        ensures
            self.with_aux_price(v) == (OrderView { aux_price: v, ..self }),
    {
        reveal(OrderView::with_aux_price);
    }

    proof fn lemma_with_tif_is_update(self, v: TimeInForce)
        ensures
            self.with_tif(v) == (OrderView { tif: v, ..self }),
    {
        reveal(OrderView::with_tif);
    }

    proof fn lemma_with_oca_group_is_update(self, v: Seq<char>)
        ensures
            self.with_oca_group(v) == (OrderView { oca_group: v, ..self }),
    {
        reveal(OrderView::with_oca_group);
    }

    proof fn lemma_with_oca_type_is_update(self, v: OcaType)
        ensures
            self.with_oca_type(v) == (OrderView { oca_type: v, ..self }),
    {
        reveal(OrderView::with_oca_type);
    }

    proof fn lemma_with_order_ref_is_update(self, v: Seq<char>)
        ensures
            self.with_order_ref(v) == (OrderView { order_ref: v, ..self }),
    {
        reveal(OrderView::with_order_ref);
    }

    proof fn lemma_with_parent_id_is_update(self, v: int)
        ensures
            self.with_parent_id(v) == (OrderView { parent_id: v, ..self }),
    {
        reveal(OrderView::with_parent_id);
    }

    proof fn lemma_with_block_order_is_update(self, v: bool)
        ensures
            self.with_block_order(v) == (OrderView { block_order: v, ..self }),
    {
        reveal(OrderView::with_block_order);
    }

    proof fn lemma_with_sweep_to_fill_is_update(self, v: bool)
        ensures
            self.with_sweep_to_fill(v) == (OrderView { sweep_to_fill: v, ..self }),
    {
        reveal(OrderView::with_sweep_to_fill);
    }

    proof fn lemma_with_display_size_is_update(self, v: Option<int>)
        ensures
            self.with_display_size(v) == (OrderView { display_size: v, ..self }),
    {
        reveal(OrderView::with_display_size);
    }

    proof fn lemma_with_trigger_method_is_update(self, v: TriggerMethod)
        ensures
            self.with_trigger_method(v) == (OrderView { trigger_method: v, ..self }),
    {
        reveal(OrderView::with_trigger_method);
    }

    proof fn lemma_with_outside_rth_is_update(self, v: bool)
        ensures
            self.with_outside_rth(v) == (OrderView { outside_rth: v, ..self }),
    {
        reveal(OrderView::with_outside_rth);
    }

    proof fn lemma_with_hidden_is_update(self, v: bool)
        ensures
            self.with_hidden(v) == (OrderView { hidden: v, ..self }),
    {
        reveal(OrderView::with_hidden);
    }

    proof fn lemma_with_good_after_time_is_update(self, v: Seq<char>)
        ensures
            self.with_good_after_time(v) == (OrderView { good_after_time: v, ..self }),
    {
        reveal(OrderView::with_good_after_time);
    }

    proof fn lemma_with_good_till_date_is_update(self, v: Seq<char>)
        ensures
            self.with_good_till_date(v) == (OrderView { good_till_date: v, ..self }),
    {
        reveal(OrderView::with_good_till_date);
    }

    proof fn lemma_with_rule_80_a_is_update(self, v: Option<Rule80A>)
        ensures
            self.with_rule_80_a(v) == (OrderView { rule_80_a: v, ..self }),
    {
        reveal(OrderView::with_rule_80_a);
    }

    proof fn lemma_with_all_or_none_is_update(self, v: bool)
        ensures
            self.with_all_or_none(v) == (OrderView { all_or_none: v, ..self }),
    {
        reveal(OrderView::with_all_or_none);
    }

    proof fn lemma_with_min_qty_is_update(self, v: Option<int>)
        ensures
            self.with_min_qty(v) == (OrderView { min_qty: v, ..self }),
    {
        reveal(OrderView::with_min_qty);
    }

    proof fn lemma_with_percent_offset_is_update(self, v: Option<Seq<char>>)
        ensures
            self.with_percent_offset(v) == (OrderView { percent_offset: v, ..self }),
    {
        reveal(OrderView::with_percent_offset);
    }

    proof fn lemma_with_trail_stop_price_is_update(self, v: Option<Seq<char>>)
        ensures
            self.with_trail_stop_price(v) == (OrderView { trail_stop_price: v, ..self }),
    {
        reveal(OrderView::with_trail_stop_price);
    }

    proof fn lemma_with_trailing_percent_is_update(self, v: Option<Seq<char>>)
        ensures
            self.with_trailing_percent(v) == (OrderView { trailing_percent: v, ..self }),
    {
        reveal(OrderView::with_trailing_percent);
    }

    proof fn lemma_with_fa_group_is_update(self, v: Seq<char>)
        ensures
            self.with_fa_group(v) == (OrderView { fa_group: v, ..self }),
    {
        reveal(OrderView::with_fa_group);
    }

    proof fn lemma_with_fa_method_is_update(self, v: Seq<char>)
        ensures
            self.with_fa_method(v) == (OrderView { fa_method: v, ..self }),
    {
        reveal(OrderView::with_fa_method);
    }

    proof fn lemma_with_fa_percentage_is_update(self, v: Seq<char>)
        ensures
            self.with_fa_percentage(v) == (OrderView { fa_percentage: v, ..self }),
    {
        reveal(OrderView::with_fa_percentage);
    }

    proof fn lemma_with_open_close_is_update(self, v: Option<OrderOpenClose>)
        ensures
            self.with_open_close(v) == (OrderView { open_close: v, ..self }),
    {
        reveal(OrderView::with_open_close);
    }

    proof fn lemma_with_origin_is_update(self, v: OrderOrigin)
        ensures
            self.with_origin(v) == (OrderView { origin: v, ..self }),
    {
        reveal(OrderView::with_origin);
    }

    proof fn lemma_with_short_sale_slot_is_update(self, v: ShortSaleSlot)
        ensures
            self.with_short_sale_slot(v) == (OrderView { short_sale_slot: v, ..self }),
    {
        reveal(OrderView::with_short_sale_slot);
    }

    proof fn lemma_with_designated_location_is_update(self, v: Seq<char>)
        ensures
            self.with_designated_location(v) == (OrderView { designated_location: v, ..self }),
    {
        reveal(OrderView::with_designated_location);
    }

    proof fn lemma_with_exempt_code_is_update(self, v: int)
        ensures
            self.with_exempt_code(v) == (OrderView { exempt_code: v, ..self }),
    {
        reveal(OrderView::with_exempt_code);
    }

    proof fn lemma_with_discretionary_amt_is_update(self, v: Seq<char>)
        ensures
            self.with_discretionary_amt(v) == (OrderView { discretionary_amt: v, ..self }),
    {
        reveal(OrderView::with_discretionary_amt);
    }

    proof fn lemma_with_opt_out_smart_routing_is_update(self, v: bool)
        ensures
            self.with_opt_out_smart_routing(v) == (OrderView { opt_out_smart_routing: v, ..self }),
    {
        reveal(OrderView::with_opt_out_smart_routing);
    }

    proof fn lemma_with_auction_strategy_is_update(self, v: Option<AuctionStrategy>)
        ensures
            self.with_auction_strategy(v) == (OrderView { auction_strategy: v, ..self }),
    {
        reveal(OrderView::with_auction_strategy);
    }

    proof fn lemma_with_starting_price_is_update(self, v: Option<Seq<char>>)
        ensures
            self.with_starting_price(v) == (OrderView { starting_price: v, ..self }),
    {
        reveal(OrderView::with_starting_price);
    }

    proof fn lemma_with_stock_ref_price_is_update(self, v: Option<Seq<char>>)
        ensures
            self.with_stock_ref_price(v) == (OrderView { stock_ref_price: v, ..self }),
    {
        reveal(OrderView::with_stock_ref_price);
    }

    proof fn lemma_with_delta_is_update(self, v: Option<Seq<char>>)
        ensures
            self.with_delta(v) == (OrderView { delta: v, ..self }),
    {
        reveal(OrderView::with_delta);
    }

    proof fn lemma_with_stock_range_lower_is_update(self, v: Option<Seq<char>>)
        ensures
            self.with_stock_range_lower(v) == (OrderView { stock_range_lower: v, ..self }),
    {
        reveal(OrderView::with_stock_range_lower);
    }

    proof fn lemma_with_stock_range_upper_is_update(self, v: Option<Seq<char>>)
        ensures
            self.with_stock_range_upper(v) == (OrderView { stock_range_upper: v, ..self }),
    {
        reveal(OrderView::with_stock_range_upper);
    }

    proof fn lemma_with_volatility_is_update(self, v: Option<Seq<char>>)
        ensures
            self.with_volatility(v) == (OrderView { volatility: v, ..self }),
    {
        reveal(OrderView::with_volatility);
    }

    proof fn lemma_with_volatility_type_is_update(self, v: Option<VolatilityType>)
        ensures
            self.with_volatility_type(v) == (OrderView { volatility_type: v, ..self }),
    {
        reveal(OrderView::with_volatility_type);
    }

    proof fn lemma_with_continuous_update_is_update(self, v: bool)
        ensures
            self.with_continuous_update(v) == (OrderView { continuous_update: v, ..self }),
    {
        reveal(OrderView::with_continuous_update);
    }

    proof fn lemma_with_reference_price_type_is_update(self, v: Option<ReferencePriceType>)
        ensures
            self.with_reference_price_type(v) == (OrderView { reference_price_type: v, ..self }),
    {
        reveal(OrderView::with_reference_price_type);
    }

    proof fn lemma_with_delta_neutral_order_type_is_update(self, v: Seq<char>)
        ensures
            self.with_delta_neutral_order_type(v) == (OrderView { delta_neutral_order_type: v, ..self }),
    {
        reveal(OrderView::with_delta_neutral_order_type);
    }

    proof fn lemma_with_delta_neutral_aux_price_is_update(self, v: Option<Seq<char>>)
        ensures
            self.with_delta_neutral_aux_price(v) == (OrderView { delta_neutral_aux_price: v, ..self }),
    {
        reveal(OrderView::with_delta_neutral_aux_price);
    }

    proof fn lemma_with_delta_neutral_con_id_is_update(self, v: int)
        ensures
            self.with_delta_neutral_con_id(v) == (OrderView { delta_neutral_con_id: v, ..self }),
    {
        reveal(OrderView::with_delta_neutral_con_id);
    }

    proof fn lemma_with_delta_neutral_settling_firm_is_update(self, v: Seq<char>)
        ensures
            self.with_delta_neutral_settling_firm(v) == (OrderView { delta_neutral_settling_firm: v, ..self }),
    {
        reveal(OrderView::with_delta_neutral_settling_firm);
    }

    proof fn lemma_with_delta_neutral_clearing_account_is_update(self, v: Seq<char>)
        ensures
            self.with_delta_neutral_clearing_account(v) == (OrderView { delta_neutral_clearing_account: v, ..self }),
    {
        reveal(OrderView::with_delta_neutral_clearing_account);
    }

    proof fn lemma_with_delta_neutral_clearing_intent_is_update(self, v: Seq<char>)
        ensures
            self.with_delta_neutral_clearing_intent(v) == (OrderView { delta_neutral_clearing_intent: v, ..self }),
    {
        reveal(OrderView::with_delta_neutral_clearing_intent);
    }

    proof fn lemma_with_delta_neutral_open_close_is_update(self, v: Seq<char>)
        ensures
            self.with_delta_neutral_open_close(v) == (OrderView { delta_neutral_open_close: v, ..self }),
    {
        reveal(OrderView::with_delta_neutral_open_close);
    }

    proof fn lemma_with_delta_neutral_short_sale_is_update(self, v: bool)
        ensures
            self.with_delta_neutral_short_sale(v) == (OrderView { delta_neutral_short_sale: v, ..self }),
    {
        reveal(OrderView::with_delta_neutral_short_sale);
    }

    proof fn lemma_with_delta_neutral_short_sale_slot_is_update(self, v: int)
        ensures
            self.with_delta_neutral_short_sale_slot(v) == (OrderView { delta_neutral_short_sale_slot: v, ..self }),
    {
        reveal(OrderView::with_delta_neutral_short_sale_slot);
    }

    proof fn lemma_with_delta_neutral_designated_location_is_update(self, v: Seq<char>)
        ensures
            self.with_delta_neutral_designated_location(v) == (OrderView { delta_neutral_designated_location: v, ..self }),
    {
        reveal(OrderView::with_delta_neutral_designated_location);
    }

    proof fn lemma_with_basis_points_is_update(self, v: Option<Seq<char>>)
        ensures
            self.with_basis_points(v) == (OrderView { basis_points: v, ..self }),
    {
        reveal(OrderView::with_basis_points);
    }

    proof fn lemma_with_basis_points_type_is_update(self, v: Option<int>)
        ensures
            self.with_basis_points_type(v) == (OrderView { basis_points_type: v, ..self }),
    {
        reveal(OrderView::with_basis_points_type);
    }

    proof fn lemma_with_scale_init_level_size_is_update(self, v: Option<int>)
        ensures
            self.with_scale_init_level_size(v) == (OrderView { scale_init_level_size: v, ..self }),
    {
        reveal(OrderView::with_scale_init_level_size);
    }

    proof fn lemma_with_scale_subs_level_size_is_update(self, v: Option<int>)
        ensures
            self.with_scale_subs_level_size(v) == (OrderView { scale_subs_level_size: v, ..self }),
    {
        reveal(OrderView::with_scale_subs_level_size);
    }

    proof fn lemma_with_scale_price_increment_is_update(self, v: Option<Seq<char>>)
        ensures
            self.with_scale_price_increment(v) == (OrderView { scale_price_increment: v, ..self }),
    {
        reveal(OrderView::with_scale_price_increment);
    }

    proof fn lemma_with_scale_price_adjust_value_is_update(self, v: Option<Seq<char>>)
        ensures
            self.with_scale_price_adjust_value(v) == (OrderView { scale_price_adjust_value: v, ..self }),
    {
        reveal(OrderView::with_scale_price_adjust_value);
    }

    proof fn lemma_with_scale_price_adjust_interval_is_update(self, v: Option<int>)
        ensures
            self.with_scale_price_adjust_interval(v) == (OrderView { scale_price_adjust_interval: v, ..self }),
    {
        reveal(OrderView::with_scale_price_adjust_interval);
    }

    proof fn lemma_with_scale_profit_offset_is_update(self, v: Option<Seq<char>>)
        ensures
            self.with_scale_profit_offset(v) == (OrderView { scale_profit_offset: v, ..self }),
    {
        reveal(OrderView::with_scale_profit_offset);
    }

    proof fn lemma_with_scale_auto_reset_is_update(self, v: bool)
        ensures
            self.with_scale_auto_reset(v) == (OrderView { scale_auto_reset: v, ..self }),
    {
        reveal(OrderView::with_scale_auto_reset);
    }

    proof fn lemma_with_scale_init_position_is_update(self, v: Option<int>)
        ensures
            self.with_scale_init_position(v) == (OrderView { scale_init_position: v, ..self }),
    {
        reveal(OrderView::with_scale_init_position);
    }

    proof fn lemma_with_scale_init_fill_qty_is_update(self, v: Option<int>)
        ensures
            self.with_scale_init_fill_qty(v) == (OrderView { scale_init_fill_qty: v, ..self }),
    {
        reveal(OrderView::with_scale_init_fill_qty);
    }

    proof fn lemma_with_scale_random_percent_is_update(self, v: bool)
        ensures
            self.with_scale_random_percent(v) == (OrderView { scale_random_percent: v, ..self }),
    {
        reveal(OrderView::with_scale_random_percent);
    }

    proof fn lemma_with_hedge_type_is_update(self, v: Seq<char>)
        ensures
            self.with_hedge_type(v) == (OrderView { hedge_type: v, ..self }),
    {
        reveal(OrderView::with_hedge_type);
    }

    proof fn lemma_with_hedge_param_is_update(self, v: Seq<char>)
        ensures
            self.with_hedge_param(v) == (OrderView { hedge_param: v, ..self }),
    {
        reveal(OrderView::with_hedge_param);
    }

    proof fn lemma_with_account_is_update(self, v: Seq<char>)
        ensures
            self.with_account(v) == (OrderView { account: v, ..self }),
    {
        reveal(OrderView::with_account);
    }

    proof fn lemma_with_settling_firm_is_update(self, v: Seq<char>)
        ensures
            self.with_settling_firm(v) == (OrderView { settling_firm: v, ..self }),
    {
        reveal(OrderView::with_settling_firm);
    }

    proof fn lemma_with_clearing_account_is_update(self, v: Seq<char>)
        ensures
            self.with_clearing_account(v) == (OrderView { clearing_account: v, ..self }),
    {
        reveal(OrderView::with_clearing_account);
    }

    proof fn lemma_with_clearing_intent_is_update(self, v: Seq<char>)
        ensures
            self.with_clearing_intent(v) == (OrderView { clearing_intent: v, ..self }),
    {
        reveal(OrderView::with_clearing_intent);
    }

    proof fn lemma_with_algo_strategy_is_update(self, v: Seq<char>)
        ensures
            self.with_algo_strategy(v) == (OrderView { algo_strategy: v, ..self }),
    {
        reveal(OrderView::with_algo_strategy);
    }

    proof fn lemma_with_algo_params_is_update(self, v: Seq<TagValueView>)
        ensures
            self.with_algo_params(v) == (OrderView { algo_params: v, ..self }),
    {
        reveal(OrderView::with_algo_params);
    }

    proof fn lemma_with_what_if_is_update(self, v: bool)
        ensures
            self.with_what_if(v) == (OrderView { what_if: v, ..self }),
    {
        reveal(OrderView::with_what_if);
    }

    proof fn lemma_with_not_held_is_update(self, v: bool)
        ensures
            self.with_not_held(v) == (OrderView { not_held: v, ..self }),
    {
        reveal(OrderView::with_not_held);
    }

    proof fn lemma_with_order_combo_legs_is_update(self, v: Seq<OrderComboLegView>)
        ensures
            self.with_order_combo_legs(v) == (OrderView { order_combo_legs: v, ..self }),
    {
        reveal(OrderView::with_order_combo_legs);
    }

    proof fn lemma_with_smart_combo_routing_params_is_update(self, v: Seq<TagValueView>)
        ensures
            self.with_smart_combo_routing_params(v) == (OrderView { smart_combo_routing_params: v, ..self }),
    {
        reveal(OrderView::with_smart_combo_routing_params);
    }

    proof fn lemma_with_model_code_is_update(self, v: Seq<char>)
        ensures
            self.with_model_code(v) == (OrderView { model_code: v, ..self }),
    {
        reveal(OrderView::with_model_code);
    }

    proof fn lemma_with_randomize_size_is_update(self, v: bool)
        ensures
            self.with_randomize_size(v) == (OrderView { randomize_size: v, ..self }),
    {
        reveal(OrderView::with_randomize_size);
    }

    proof fn lemma_with_randomize_price_is_update(self, v: bool)
        ensures
            self.with_randomize_price(v) == (OrderView { randomize_price: v, ..self }),
    {
        reveal(OrderView::with_randomize_price);
    }

    proof fn lemma_with_reference_contract_id_is_update(self, v: int)
        ensures
            self.with_reference_contract_id(v) == (OrderView { reference_contract_id: v, ..self }),
    {
        reveal(OrderView::with_reference_contract_id);
    }

    proof fn lemma_with_is_pegged_change_amount_decrease_is_update(self, v: bool)
        ensures
            self.with_is_pegged_change_amount_decrease(v) == (OrderView { is_pegged_change_amount_decrease: v, ..self }),
    {
        reveal(OrderView::with_is_pegged_change_amount_decrease);
    }

    proof fn lemma_with_pegged_change_amount_is_update(self, v: Option<Seq<char>>)
        ensures
            self.with_pegged_change_amount(v) == (OrderView { pegged_change_amount: v, ..self }),
    {
        reveal(OrderView::with_pegged_change_amount);
    }

    proof fn lemma_with_reference_change_amount_is_update(self, v: Option<Seq<char>>)
        ensures
            self.with_reference_change_amount(v) == (OrderView { reference_change_amount: v, ..self }),
    {
        reveal(OrderView::with_reference_change_amount);
    }

    proof fn lemma_with_reference_exchange_is_update(self, v: Seq<char>)
        ensures
            self.with_reference_exchange(v) == (OrderView { reference_exchange: v, ..self }),
    {
        reveal(OrderView::with_reference_exchange);
    }

    proof fn lemma_with_adjusted_order_type_is_update(self, v: Seq<char>)
        ensures
            self.with_adjusted_order_type(v) == (OrderView { adjusted_order_type: v, ..self }),
    {
        reveal(OrderView::with_adjusted_order_type);
    }

    proof fn lemma_with_trigger_price_is_update(self, v: Option<Seq<char>>)
        ensures
            self.with_trigger_price(v) == (OrderView { trigger_price: v, ..self }),
    {
        reveal(OrderView::with_trigger_price);
    }

    proof fn lemma_with_limit_price_offset_is_update(self, v: Option<Seq<char>>)
        ensures
            self.with_limit_price_offset(v) == (OrderView { limit_price_offset: v, ..self }),
    {
        reveal(OrderView::with_limit_price_offset);
    }

    proof fn lemma_with_adjusted_stop_price_is_update(self, v: Option<Seq<char>>)
        ensures
            self.with_adjusted_stop_price(v) == (OrderView { adjusted_stop_price: v, ..self }),
    {
        reveal(OrderView::with_adjusted_stop_price);
    }

    proof fn lemma_with_adjusted_stop_limit_price_is_update(self, v: Option<Seq<char>>)
        ensures
            self.with_adjusted_stop_limit_price(v) == (OrderView { adjusted_stop_limit_price: v, ..self }),
    {
        reveal(OrderView::with_adjusted_stop_limit_price);
    }

    proof fn lemma_with_adjusted_trailing_amount_is_update(self, v: Option<Seq<char>>)
        ensures
            self.with_adjusted_trailing_amount(v) == (OrderView { adjusted_trailing_amount: v, ..self }),
    {
        reveal(OrderView::with_adjusted_trailing_amount);
    }

    proof fn lemma_with_adjustable_trailing_unit_is_update(self, v: int)
        ensures
            self.with_adjustable_trailing_unit(v) == (OrderView { adjustable_trailing_unit: v, ..self }),
    {
        reveal(OrderView::with_adjustable_trailing_unit);
    }

    proof fn lemma_with_conditions_is_update(self, v: Seq<OrderConditionView>)
        ensures
            self.with_conditions(v) == (OrderView { conditions: v, ..self }),
    {
        reveal(OrderView::with_conditions);
    }

    proof fn lemma_with_conditions_ignore_rth_is_update(self, v: bool)
        ensures
            self.with_conditions_ignore_rth(v) == (OrderView { conditions_ignore_rth: v, ..self }),
    {
        reveal(OrderView::with_conditions_ignore_rth);
    }

    proof fn lemma_with_conditions_cancel_order_is_update(self, v: bool)
        ensures
            self.with_conditions_cancel_order(v) == (OrderView { conditions_cancel_order: v, ..self }),
    {
        reveal(OrderView::with_conditions_cancel_order);
    }

    proof fn lemma_with_soft_dollar_tier_is_update(self, v: SoftDollarTierView)
        ensures
            self.with_soft_dollar_tier(v) == (OrderView { soft_dollar_tier: v, ..self }),
    {
        reveal(OrderView::with_soft_dollar_tier);
    }

    proof fn lemma_with_cash_qty_is_update(self, v: Option<Seq<char>>)
        ensures
            self.with_cash_qty(v) == (OrderView { cash_qty: v, ..self }),
    {
        reveal(OrderView::with_cash_qty);
    }

    proof fn lemma_with_dont_use_auto_price_for_hedge_is_update(self, v: bool)
        ensures
            self.with_dont_use_auto_price_for_hedge(v) == (OrderView { dont_use_auto_price_for_hedge: v, ..self }),
    {
        reveal(OrderView::with_dont_use_auto_price_for_hedge);
    }

    proof fn lemma_with_is_oms_container_is_update(self, v: bool)
        ensures
            self.with_is_oms_container(v) == (OrderView { is_oms_container: v, ..self }),
    {
        reveal(OrderView::with_is_oms_container);
    }

    proof fn lemma_with_discretionary_up_to_limit_price_is_update(self, v: bool)
        ensures
            self.with_discretionary_up_to_limit_price(v) == (OrderView { discretionary_up_to_limit_price: v, ..self }),
    {
        reveal(OrderView::with_discretionary_up_to_limit_price);
    }

    proof fn lemma_with_use_price_mgmt_algo_is_update(self, v: bool)
        ensures
            self.with_use_price_mgmt_algo(v) == (OrderView { use_price_mgmt_algo: v, ..self }),
    {
        reveal(OrderView::with_use_price_mgmt_algo);
    }

    proof fn lemma_with_duration_is_update(self, v: Option<int>)
        ensures
            self.with_duration(v) == (OrderView { duration: v, ..self }),
    {
        reveal(OrderView::with_duration);
    }

    proof fn lemma_with_post_to_ats_is_update(self, v: Option<int>)
        ensures
            self.with_post_to_ats(v) == (OrderView { post_to_ats: v, ..self }),
    {
        reveal(OrderView::with_post_to_ats);
    }

    proof fn lemma_with_auto_cancel_parent_is_update(self, v: bool)
        ensures
            self.with_auto_cancel_parent(v) == (OrderView { auto_cancel_parent: v, ..self }),
    {
        reveal(OrderView::with_auto_cancel_parent);
    }

    proof fn lemma_with_min_trade_qty_is_update(self, v: Option<int>)
        ensures
            self.with_min_trade_qty(v) == (OrderView { min_trade_qty: v, ..self }),
    {
        reveal(OrderView::with_min_trade_qty);
    }

    proof fn lemma_with_min_compete_size_is_update(self, v: Option<int>)
        ensures
            self.with_min_compete_size(v) == (OrderView { min_compete_size: v, ..self }),
    {
        reveal(OrderView::with_min_compete_size);
    }

    proof fn lemma_with_compete_against_best_offset_is_update(self, v: Option<Seq<char>>)
        ensures
            self.with_compete_against_best_offset(v) == (OrderView { compete_against_best_offset: v, ..self }),
    {
        reveal(OrderView::with_compete_against_best_offset);
    }

    proof fn lemma_with_mid_offset_at_whole_is_update(self, v: Option<Seq<char>>)
        ensures
            self.with_mid_offset_at_whole(v) == (OrderView { mid_offset_at_whole: v, ..self }),
    {
        reveal(OrderView::with_mid_offset_at_whole);
    }

    proof fn lemma_with_mid_offset_at_half_is_update(self, v: Option<Seq<char>>)
        ensures
            self.with_mid_offset_at_half(v) == (OrderView { mid_offset_at_half: v, ..self }),
    {
        reveal(OrderView::with_mid_offset_at_half);
    }

    proof fn lemma_with_customer_account_is_update(self, v: Seq<char>)
        ensures
            self.with_customer_account(v) == (OrderView { customer_account: v, ..self }),
    {
        reveal(OrderView::with_customer_account);
    }

    proof fn lemma_with_professional_customer_is_update(self, v: bool)
        ensures
            self.with_professional_customer(v) == (OrderView { professional_customer: v, ..self }),
    {
        reveal(OrderView::with_professional_customer);
    }

    proof fn lemma_with_bond_accrued_interest_is_update(self, v: Seq<char>)
        ensures
            self.with_bond_accrued_interest(v) == (OrderView { bond_accrued_interest: v, ..self }),
    {
        reveal(OrderView::with_bond_accrued_interest);
    }

    proof fn lemma_with_include_overnight_is_update(self, v: bool)
        ensures
            self.with_include_overnight(v) == (OrderView { include_overnight: v, ..self }),
    {
        reveal(OrderView::with_include_overnight);
    }

    proof fn lemma_with_ext_operator_is_update(self, v: Seq<char>)
        ensures
            self.with_ext_operator(v) == (OrderView { ext_operator: v, ..self }),
    {
        reveal(OrderView::with_ext_operator);
    }

    proof fn lemma_with_manual_order_indicator_is_update(self, v: Option<int>)
        ensures
            self.with_manual_order_indicator(v) == (OrderView { manual_order_indicator: v, ..self }),
    {
        reveal(OrderView::with_manual_order_indicator);
    }

    proof fn lemma_with_submitter_is_update(self, v: Seq<char>)
        ensures
            self.with_submitter(v) == (OrderView { submitter: v, ..self }),
    {
        reveal(OrderView::with_submitter);
    }

    proof fn lemma_with_imbalance_only_is_update(self, v: bool)
        ensures
            self.with_imbalance_only(v) == (OrderView { imbalance_only: v, ..self }),
    {
        reveal(OrderView::with_imbalance_only);
    }

    proof fn lemma_with_auto_cancel_date_is_update(self, v: Seq<char>)
        ensures
            self.with_auto_cancel_date(v) == (OrderView { auto_cancel_date: v, ..self }),
    {
        reveal(OrderView::with_auto_cancel_date);
    }

    proof fn lemma_with_filled_quantity_is_update(self, v: Seq<char>)
        ensures
            self.with_filled_quantity(v) == (OrderView { filled_quantity: v, ..self }),
    {
        reveal(OrderView::with_filled_quantity);
    }

    proof fn lemma_with_ref_futures_con_id_is_update(self, v: Option<int>)
        ensures
            self.with_ref_futures_con_id(v) == (OrderView { ref_futures_con_id: v, ..self }),
    {
        reveal(OrderView::with_ref_futures_con_id);
    }

    proof fn lemma_with_shareholder_is_update(self, v: Seq<char>)
        ensures
            self.with_shareholder(v) == (OrderView { shareholder: v, ..self }),
    {
        reveal(OrderView::with_shareholder);
    }

    proof fn lemma_with_route_marketable_to_bbo_is_update(self, v: bool)
        ensures
            self.with_route_marketable_to_bbo(v) == (OrderView { route_marketable_to_bbo: v, ..self }),
    {
        reveal(OrderView::with_route_marketable_to_bbo);
    }

    proof fn lemma_with_parent_perm_id_is_update(self, v: Option<int>)
        ensures
            self.with_parent_perm_id(v) == (OrderView { parent_perm_id: v, ..self }),
    {
        reveal(OrderView::with_parent_perm_id);
    }
}

impl Default for Order {
    fn default() -> (r: Order)
        ensures
            r@ == OrderView::initial(),
    {
        let r = Order {
            order_id: 0,
            solicited: false,
            client_id: 0,
            perm_id: 0,
            action: Action::Buy,
            total_quantity: Decimal::zero(),
            order_type: String::new(),
            limit_price: None,
            aux_price: None,
            tif: TimeInForce::Day,
            oca_group: String::new(),
            oca_type: OcaType::Ungrouped,
            order_ref: String::new(),
            parent_id: 0,
            block_order: false,
            sweep_to_fill: false,
            display_size: None,
            trigger_method: TriggerMethod::Standard,
            outside_rth: false,
            hidden: false,
            good_after_time: String::new(),
            good_till_date: String::new(),
            rule_80_a: None,
            all_or_none: false,
            min_qty: None,
            percent_offset: None,
            trail_stop_price: None,
            trailing_percent: None,
            fa_group: String::new(),
            fa_method: String::new(),
            fa_percentage: String::new(),
            open_close: None,
            origin: OrderOrigin::Customer,
            short_sale_slot: ShortSaleSlot::Unspecified,
            designated_location: String::new(),
            exempt_code: -1,
            discretionary_amt: Decimal::zero(),
            opt_out_smart_routing: false,
            auction_strategy: None,
            starting_price: None,
            stock_ref_price: None,
            delta: None,
            stock_range_lower: None,
            stock_range_upper: None,
            volatility: None,
            volatility_type: None,
            continuous_update: false,
            reference_price_type: None,
            delta_neutral_order_type: String::new(),
            delta_neutral_aux_price: None,
            delta_neutral_con_id: 0,
            delta_neutral_settling_firm: String::new(),
            delta_neutral_clearing_account: String::new(),
            delta_neutral_clearing_intent: String::new(),
            delta_neutral_open_close: String::new(),
            delta_neutral_short_sale: false,
            delta_neutral_short_sale_slot: 0,
            delta_neutral_designated_location: String::new(),
            basis_points: None,
            basis_points_type: None,
            scale_init_level_size: None,
            scale_subs_level_size: None,
            scale_price_increment: None,
            scale_price_adjust_value: None,
            scale_price_adjust_interval: None,
            scale_profit_offset: None,
            scale_auto_reset: false,
            scale_init_position: None,
            scale_init_fill_qty: None,
            scale_random_percent: false,
            hedge_type: String::new(),
            hedge_param: String::new(),
            account: String::new(),
            settling_firm: String::new(),
            clearing_account: String::new(),
            clearing_intent: String::new(),
            algo_strategy: String::new(),
            algo_params: Vec::new(),
            what_if: false,
            not_held: false,
            order_combo_legs: Vec::new(),
            smart_combo_routing_params: Vec::new(),
            model_code: String::new(),
            randomize_size: false,
            randomize_price: false,
            reference_contract_id: 0,
            is_pegged_change_amount_decrease: false,
            pegged_change_amount: None,
            reference_change_amount: None,
            reference_exchange: String::new(),
            adjusted_order_type: String::new(),
            trigger_price: None,
            limit_price_offset: None,
            adjusted_stop_price: None,
            adjusted_stop_limit_price: None,
            adjusted_trailing_amount: None,
            adjustable_trailing_unit: 0,
            conditions: Vec::new(),
            conditions_ignore_rth: false,
            conditions_cancel_order: false,
            soft_dollar_tier: SoftDollarTier::default(),
            cash_qty: None,
            dont_use_auto_price_for_hedge: false,
            is_oms_container: false,
            discretionary_up_to_limit_price: false,
            use_price_mgmt_algo: false,
            duration: None,
            post_to_ats: None,
            auto_cancel_parent: false,
            min_trade_qty: None,
            min_compete_size: None,
            compete_against_best_offset: None,
            mid_offset_at_whole: None,
            mid_offset_at_half: None,
            customer_account: String::new(),
            professional_customer: false,
            bond_accrued_interest: String::new(),
            include_overnight: false,
            ext_operator: String::new(),
            manual_order_indicator: None,
            submitter: String::new(),
            imbalance_only: false,
            auto_cancel_date: String::new(),
            filled_quantity: Decimal::zero(),
            ref_futures_con_id: None,
            shareholder: String::new(),
            route_marketable_to_bbo: false,
            parent_perm_id: None,
        };
        assert(views_of(r.algo_params@) == Seq::<TagValueView>::empty());
        assert(views_of(r.order_combo_legs@) == Seq::<OrderComboLegView>::empty());
        assert(views_of(r.smart_combo_routing_params@) == Seq::<TagValueView>::empty());
        assert(views_of(r.conditions@) == Seq::<OrderConditionView>::empty());
        r
    }
}

impl Order {
    proof fn lemma_update_order_id(self, v: i32)
        ensures
            (Order { order_id: v, ..self })@ == (OrderView { order_id: v as int, ..self@ }),
    {
    }

    /// Setting `order_id` in the record sets it in its content.
    pub proof fn lemma_with_order_id(self, v: i32)
        ensures
            (Order { order_id: v, ..self })@ == self@.with_order_id(v as int),
    {
        self.lemma_update_order_id(v);
        self@.lemma_with_order_id_is_update(v as int);
    }

    /// This record with another value of `order_id`.
    pub fn set_order_id(self, v: i32) -> (r: Order)
        ensures
            r@ == self@.with_order_id(v as int),
    {
        proof {
            self.lemma_with_order_id(v);
        }
        Order { order_id: v, ..self }
    }

    proof fn lemma_update_solicited(self, v: bool)
        ensures
            (Order { solicited: v, ..self })@ == (OrderView { solicited: v, ..self@ }),
    {
    }

    /// Setting `solicited` in the record sets it in its content.
    pub proof fn lemma_with_solicited(self, v: bool)
        ensures
            (Order { solicited: v, ..self })@ == self@.with_solicited(v),
    {
        self.lemma_update_solicited(v);
        self@.lemma_with_solicited_is_update(v);
    }

    /// This record with another value of `solicited`.
    pub fn set_solicited(self, v: bool) -> (r: Order)
        ensures
            r@ == self@.with_solicited(v),
    {
        proof {
            self.lemma_with_solicited(v);
        }
        Order { solicited: v, ..self }
    }

    proof fn lemma_update_client_id(self, v: i32)
        ensures
            (Order { client_id: v, ..self })@ == (OrderView { client_id: v as int, ..self@ }),
    {
    }

    /// Setting `client_id` in the record sets it in its content.
    pub proof fn lemma_with_client_id(self, v: i32)
        ensures
            (Order { client_id: v, ..self })@ == self@.with_client_id(v as int),
    {
        self.lemma_update_client_id(v);
        self@.lemma_with_client_id_is_update(v as int);
    }

    /// This record with another value of `client_id`.
    pub fn set_client_id(self, v: i32) -> (r: Order)
        ensures
            r@ == self@.with_client_id(v as int),
    {
        proof {
            self.lemma_with_client_id(v);
        }
        Order { client_id: v, ..self }
    }

    proof fn lemma_update_perm_id(self, v: i32)
        ensures
            (Order { perm_id: v, ..self })@ == (OrderView { perm_id: v as int, ..self@ }),
    {
    }

    /// Setting `perm_id` in the record sets it in its content.
    pub proof fn lemma_with_perm_id(self, v: i32)
        ensures
            (Order { perm_id: v, ..self })@ == self@.with_perm_id(v as int),
    {
        self.lemma_update_perm_id(v);
        self@.lemma_with_perm_id_is_update(v as int);
    }

    /// This record with another value of `perm_id`.
    pub fn set_perm_id(self, v: i32) -> (r: Order)
        ensures
            r@ == self@.with_perm_id(v as int),
    {
        proof {
            self.lemma_with_perm_id(v);
        }
        Order { perm_id: v, ..self }
    }

    proof fn lemma_update_action(self, v: Action)
        ensures
            (Order { action: v, ..self })@ == (OrderView { action: v, ..self@ }),
    {
    }

    /// Setting `action` in the record sets it in its content.
    pub proof fn lemma_with_action(self, v: Action)
        ensures
            (Order { action: v, ..self })@ == self@.with_action(v),
    {
        self.lemma_update_action(v);
        self@.lemma_with_action_is_update(v);
    }

    /// This record with another value of `action`.
    pub fn set_action(self, v: Action) -> (r: Order)
        ensures
            r@ == self@.with_action(v),
    {
        proof {
            self.lemma_with_action(v);
        }
        Order { action: v, ..self }
    }

    proof fn lemma_update_total_quantity(self, v: Decimal)
        ensures
            (Order { total_quantity: v, ..self })@ == (OrderView { total_quantity: v@, ..self@ }),
    {
    }

    /// Setting `total_quantity` in the record sets it in its content.
    pub proof fn lemma_with_total_quantity(self, v: Decimal)
        ensures
            (Order { total_quantity: v, ..self })@ == self@.with_total_quantity(v@),
    {
        self.lemma_update_total_quantity(v);
        self@.lemma_with_total_quantity_is_update(v@);
    }

    /// This record with another value of `total_quantity`.
    pub fn set_total_quantity(self, v: Decimal) -> (r: Order)
        ensures
            r@ == self@.with_total_quantity(v@),
    {
        proof {
            self.lemma_with_total_quantity(v);
        }
        Order { total_quantity: v, ..self }
    }

    proof fn lemma_update_order_type(self, v: String)
        ensures
            (Order { order_type: v, ..self })@ == (OrderView { order_type: v@, ..self@ }),
    {
    }

    /// Setting `order_type` in the record sets it in its content.
    pub proof fn lemma_with_order_type(self, v: String)
        ensures
            (Order { order_type: v, ..self })@ == self@.with_order_type(v@),
    {
        self.lemma_update_order_type(v);
        self@.lemma_with_order_type_is_update(v@);
    }

    /// This record with another value of `order_type`.
    pub fn set_order_type(self, v: String) -> (r: Order)
        ensures
            r@ == self@.with_order_type(v@),
    {
        proof {
            self.lemma_with_order_type(v);
        }
        Order { order_type: v, ..self }
    }

    proof fn lemma_update_limit_price(self, v: Option<Decimal>)
        ensures
            (Order { limit_price: v, ..self })@ == (OrderView { limit_price: optional_view(v), ..self@ }),
    {
    }

    /// Setting `limit_price` in the record sets it in its content.
    pub proof fn lemma_with_limit_price(self, v: Option<Decimal>)
        ensures
            (Order { limit_price: v, ..self })@ == self@.with_limit_price(optional_view(v)),
    {
        self.lemma_update_limit_price(v);
        self@.lemma_with_limit_price_is_update(optional_view(v));
    }

    /// This record with another value of `limit_price`.
    pub fn set_limit_price(self, v: Option<Decimal>) -> (r: Order)
        ensures
            r@ == self@.with_limit_price(optional_view(v)),
    {
        proof {
            self.lemma_with_limit_price(v);
        }
        Order { limit_price: v, ..self }
    }

    proof fn lemma_update_aux_price(self, v: Option<Decimal>)
        ensures
            (Order { aux_price: v, ..self })@ == (OrderView { aux_price: optional_view(v), ..self@ }),
    {
    }

    /// Setting `aux_price` in the record sets it in its content.
    pub proof fn lemma_with_aux_price(self, v: Option<Decimal>)
        ensures
            (Order { aux_price: v, ..self })@ == self@.with_aux_price(optional_view(v)),
    {
        self.lemma_update_aux_price(v);
        self@.lemma_with_aux_price_is_update(optional_view(v));
    }

    /// This record with another value of `aux_price`.
    pub fn set_aux_price(self, v: Option<Decimal>) -> (r: Order)
        ensures
            r@ == self@.with_aux_price(optional_view(v)),
    {
        proof {
            self.lemma_with_aux_price(v);
        }
        Order { aux_price: v, ..self }
    }

    proof fn lemma_update_tif(self, v: TimeInForce)
        ensures
            (Order { tif: v, ..self })@ == (OrderView { tif: v, ..self@ }),
    {
    }

    /// Setting `tif` in the record sets it in its content.
    pub proof fn lemma_with_tif(self, v: TimeInForce)
        ensures
            (Order { tif: v, ..self })@ == self@.with_tif(v),
    {
        self.lemma_update_tif(v);
        self@.lemma_with_tif_is_update(v);
    }

    /// This record with another value of `tif`.
    pub fn set_tif(self, v: TimeInForce) -> (r: Order)
        ensures
            r@ == self@.with_tif(v),
    {
        proof {
            self.lemma_with_tif(v);
        }
        Order { tif: v, ..self }
    }

    proof fn lemma_update_oca_group(self, v: String)
        ensures
            (Order { oca_group: v, ..self })@ == (OrderView { oca_group: v@, ..self@ }),
    {
    }

    /// Setting `oca_group` in the record sets it in its content.
    pub proof fn lemma_with_oca_group(self, v: String)
        ensures
            (Order { oca_group: v, ..self })@ == self@.with_oca_group(v@),
    {
        self.lemma_update_oca_group(v);
        self@.lemma_with_oca_group_is_update(v@);
    }

    /// This record with another value of `oca_group`.
    pub fn set_oca_group(self, v: String) -> (r: Order)
        ensures
            r@ == self@.with_oca_group(v@),
    {
        proof {
            self.lemma_with_oca_group(v);
        }
        Order { oca_group: v, ..self }
    }

    proof fn lemma_update_oca_type(self, v: OcaType)
        ensures
            (Order { oca_type: v, ..self })@ == (OrderView { oca_type: v, ..self@ }),
    {
    }

    /// Setting `oca_type` in the record sets it in its content.
    pub proof fn lemma_with_oca_type(self, v: OcaType)
        ensures
            (Order { oca_type: v, ..self })@ == self@.with_oca_type(v),
    {
        self.lemma_update_oca_type(v);
        self@.lemma_with_oca_type_is_update(v);
    }

    /// This record with another value of `oca_type`.
    pub fn set_oca_type(self, v: OcaType) -> (r: Order)
        ensures
            r@ == self@.with_oca_type(v),
    {
        proof {
            self.lemma_with_oca_type(v);
        }
        Order { oca_type: v, ..self }
    }

    proof fn lemma_update_order_ref(self, v: String)
        ensures
            (Order { order_ref: v, ..self })@ == (OrderView { order_ref: v@, ..self@ }),
    {
    }

    /// Setting `order_ref` in the record sets it in its content.
    pub proof fn lemma_with_order_ref(self, v: String)
        ensures
            (Order { order_ref: v, ..self })@ == self@.with_order_ref(v@),
    {
        self.lemma_update_order_ref(v);
        self@.lemma_with_order_ref_is_update(v@);
    }

    /// This record with another value of `order_ref`.
    pub fn set_order_ref(self, v: String) -> (r: Order)
        ensures
            r@ == self@.with_order_ref(v@),
    {
        proof {
            self.lemma_with_order_ref(v);
        }
        Order { order_ref: v, ..self }
    }

    proof fn lemma_update_parent_id(self, v: i32)
        ensures
            (Order { parent_id: v, ..self })@ == (OrderView { parent_id: v as int, ..self@ }),
    {
    }

    /// Setting `parent_id` in the record sets it in its content.
    pub proof fn lemma_with_parent_id(self, v: i32)
        ensures
            (Order { parent_id: v, ..self })@ == self@.with_parent_id(v as int),
    {
        self.lemma_update_parent_id(v);
        self@.lemma_with_parent_id_is_update(v as int);
    }

    /// This record with another value of `parent_id`.
    pub fn set_parent_id(self, v: i32) -> (r: Order)
        ensures
            r@ == self@.with_parent_id(v as int),
    {
        proof {
            self.lemma_with_parent_id(v);
        }
        Order { parent_id: v, ..self }
    }

    proof fn lemma_update_block_order(self, v: bool)
        ensures
            (Order { block_order: v, ..self })@ == (OrderView { block_order: v, ..self@ }),
    {
    }

    /// Setting `block_order` in the record sets it in its content.
    pub proof fn lemma_with_block_order(self, v: bool)
        ensures
            (Order { block_order: v, ..self })@ == self@.with_block_order(v),
    {
        self.lemma_update_block_order(v);
        self@.lemma_with_block_order_is_update(v);
    }

    /// This record with another value of `block_order`.
    pub fn set_block_order(self, v: bool) -> (r: Order)
        ensures
            r@ == self@.with_block_order(v),
    {
        proof {
            self.lemma_with_block_order(v);
        }
        Order { block_order: v, ..self }
    }

    proof fn lemma_update_sweep_to_fill(self, v: bool)
        ensures
            (Order { sweep_to_fill: v, ..self })@ == (OrderView { sweep_to_fill: v, ..self@ }),
    {
    }

    /// Setting `sweep_to_fill` in the record sets it in its content.
    pub proof fn lemma_with_sweep_to_fill(self, v: bool)
        ensures
            (Order { sweep_to_fill: v, ..self })@ == self@.with_sweep_to_fill(v),
    {
        self.lemma_update_sweep_to_fill(v);
        self@.lemma_with_sweep_to_fill_is_update(v);
    }

    /// This record with another value of `sweep_to_fill`.
    pub fn set_sweep_to_fill(self, v: bool) -> (r: Order)
        ensures
            r@ == self@.with_sweep_to_fill(v),
    {
        proof {
            self.lemma_with_sweep_to_fill(v);
        }
        Order { sweep_to_fill: v, ..self }
    }

    proof fn lemma_update_display_size(self, v: Option<i32>)
        ensures
            (Order { display_size: v, ..self })@ == (OrderView { display_size: optional_int(v), ..self@ }),
    {
    }

    /// Setting `display_size` in the record sets it in its content.
    pub proof fn lemma_with_display_size(self, v: Option<i32>)
        ensures
            (Order { display_size: v, ..self })@ == self@.with_display_size(optional_int(v)),
    {
        self.lemma_update_display_size(v);
        self@.lemma_with_display_size_is_update(optional_int(v));
    }

    /// This record with another value of `display_size`.
    pub fn set_display_size(self, v: Option<i32>) -> (r: Order)
        ensures
            r@ == self@.with_display_size(optional_int(v)),
    {
        proof {
            self.lemma_with_display_size(v);
        }
        Order { display_size: v, ..self }
    }

    proof fn lemma_update_trigger_method(self, v: TriggerMethod)
        ensures
            (Order { trigger_method: v, ..self })@ == (OrderView { trigger_method: v, ..self@ }),
    {
    }

    /// Setting `trigger_method` in the record sets it in its content.
    pub proof fn lemma_with_trigger_method(self, v: TriggerMethod)
        ensures
            (Order { trigger_method: v, ..self })@ == self@.with_trigger_method(v),
    {
        self.lemma_update_trigger_method(v);
        self@.lemma_with_trigger_method_is_update(v);
    }

    /// This record with another value of `trigger_method`.
    pub fn set_trigger_method(self, v: TriggerMethod) -> (r: Order)
        ensures
            r@ == self@.with_trigger_method(v),
    {
        proof {
            self.lemma_with_trigger_method(v);
        }
        Order { trigger_method: v, ..self }
    }

    proof fn lemma_update_outside_rth(self, v: bool)
        ensures
            (Order { outside_rth: v, ..self })@ == (OrderView { outside_rth: v, ..self@ }),
    {
    }

    /// Setting `outside_rth` in the record sets it in its content.
    pub proof fn lemma_with_outside_rth(self, v: bool)
        ensures
            (Order { outside_rth: v, ..self })@ == self@.with_outside_rth(v),
    {
        self.lemma_update_outside_rth(v);
        self@.lemma_with_outside_rth_is_update(v);
    }

    /// This record with another value of `outside_rth`.
    pub fn set_outside_rth(self, v: bool) -> (r: Order)
        ensures
            r@ == self@.with_outside_rth(v),
    {
        proof {
            self.lemma_with_outside_rth(v);
        }
        Order { outside_rth: v, ..self }
    }

    proof fn lemma_update_hidden(self, v: bool)
        ensures
            (Order { hidden: v, ..self })@ == (OrderView { hidden: v, ..self@ }),
    {
    }

    /// Setting `hidden` in the record sets it in its content.
    pub proof fn lemma_with_hidden(self, v: bool)
        ensures
            (Order { hidden: v, ..self })@ == self@.with_hidden(v),
    {
        self.lemma_update_hidden(v);
        self@.lemma_with_hidden_is_update(v);
    }

    /// This record with another value of `hidden`.
    pub fn set_hidden(self, v: bool) -> (r: Order)
        ensures
            r@ == self@.with_hidden(v),
    {
        proof {
            self.lemma_with_hidden(v);
        }
        Order { hidden: v, ..self }
    }

    proof fn lemma_update_good_after_time(self, v: String)
        ensures
            (Order { good_after_time: v, ..self })@ == (OrderView { good_after_time: v@, ..self@ }),
    {
    }

    /// Setting `good_after_time` in the record sets it in its content.
    pub proof fn lemma_with_good_after_time(self, v: String)
        ensures
            (Order { good_after_time: v, ..self })@ == self@.with_good_after_time(v@),
    {
        self.lemma_update_good_after_time(v);
        self@.lemma_with_good_after_time_is_update(v@);
    }

    /// This record with another value of `good_after_time`.
    pub fn set_good_after_time(self, v: String) -> (r: Order)
        ensures
            r@ == self@.with_good_after_time(v@),
    {
        proof {
            self.lemma_with_good_after_time(v);
        }
        Order { good_after_time: v, ..self }
    }

    proof fn lemma_update_good_till_date(self, v: String)
        ensures
            (Order { good_till_date: v, ..self })@ == (OrderView { good_till_date: v@, ..self@ }),
    {
    }

    /// Setting `good_till_date` in the record sets it in its content.
    pub proof fn lemma_with_good_till_date(self, v: String)
        ensures
            (Order { good_till_date: v, ..self })@ == self@.with_good_till_date(v@),
    {
        self.lemma_update_good_till_date(v);
        self@.lemma_with_good_till_date_is_update(v@);
    }

    /// This record with another value of `good_till_date`.
    pub fn set_good_till_date(self, v: String) -> (r: Order)
        ensures
            r@ == self@.with_good_till_date(v@),
    {
        proof {
            self.lemma_with_good_till_date(v);
        }
        Order { good_till_date: v, ..self }
    }

    proof fn lemma_update_rule_80_a(self, v: Option<Rule80A>)
        ensures
            (Order { rule_80_a: v, ..self })@ == (OrderView { rule_80_a: v, ..self@ }),
    {
    }

    /// Setting `rule_80_a` in the record sets it in its content.
    pub proof fn lemma_with_rule_80_a(self, v: Option<Rule80A>)
        ensures
            (Order { rule_80_a: v, ..self })@ == self@.with_rule_80_a(v),
    {
        self.lemma_update_rule_80_a(v);
        self@.lemma_with_rule_80_a_is_update(v);
    }

    /// This record with another value of `rule_80_a`.
    pub fn set_rule_80_a(self, v: Option<Rule80A>) -> (r: Order)
        ensures
            r@ == self@.with_rule_80_a(v),
    {
        proof {
            self.lemma_with_rule_80_a(v);
        }
        Order { rule_80_a: v, ..self }
    }

    proof fn lemma_update_all_or_none(self, v: bool)
        ensures
            (Order { all_or_none: v, ..self })@ == (OrderView { all_or_none: v, ..self@ }),
    {
    }

    /// Setting `all_or_none` in the record sets it in its content.
    pub proof fn lemma_with_all_or_none(self, v: bool)
        ensures
            (Order { all_or_none: v, ..self })@ == self@.with_all_or_none(v),
    {
        self.lemma_update_all_or_none(v);
        self@.lemma_with_all_or_none_is_update(v);
    }

    /// This record with another value of `all_or_none`.
    pub fn set_all_or_none(self, v: bool) -> (r: Order)
        ensures
            r@ == self@.with_all_or_none(v),
    {
        proof {
            self.lemma_with_all_or_none(v);
        }
        Order { all_or_none: v, ..self }
    }

    proof fn lemma_update_min_qty(self, v: Option<i32>)
        ensures
            (Order { min_qty: v, ..self })@ == (OrderView { min_qty: optional_int(v), ..self@ }),
    {
    }

    /// Setting `min_qty` in the record sets it in its content.
    pub proof fn lemma_with_min_qty(self, v: Option<i32>)
        ensures
            (Order { min_qty: v, ..self })@ == self@.with_min_qty(optional_int(v)),
    {
        self.lemma_update_min_qty(v);
        self@.lemma_with_min_qty_is_update(optional_int(v));
    }

    /// This record with another value of `min_qty`.
    pub fn set_min_qty(self, v: Option<i32>) -> (r: Order)
        ensures
            r@ == self@.with_min_qty(optional_int(v)),
    {
        proof {
            self.lemma_with_min_qty(v);
        }
        Order { min_qty: v, ..self }
    }

    proof fn lemma_update_percent_offset(self, v: Option<Decimal>)
        ensures
            (Order { percent_offset: v, ..self })@ == (OrderView { percent_offset: optional_view(v), ..self@ }),
    {
    }

    /// Setting `percent_offset` in the record sets it in its content.
    pub proof fn lemma_with_percent_offset(self, v: Option<Decimal>)
        ensures
            (Order { percent_offset: v, ..self })@ == self@.with_percent_offset(optional_view(v)),
    {
        self.lemma_update_percent_offset(v);
        self@.lemma_with_percent_offset_is_update(optional_view(v));
    }

    /// This record with another value of `percent_offset`.
    pub fn set_percent_offset(self, v: Option<Decimal>) -> (r: Order)
        ensures
            r@ == self@.with_percent_offset(optional_view(v)),
    {
        proof {
            self.lemma_with_percent_offset(v);
        }
        Order { percent_offset: v, ..self }
    }

    proof fn lemma_update_trail_stop_price(self, v: Option<Decimal>)
        ensures
            (Order { trail_stop_price: v, ..self })@ == (OrderView { trail_stop_price: optional_view(v), ..self@ }),
    {
    }

    /// Setting `trail_stop_price` in the record sets it in its content.
    pub proof fn lemma_with_trail_stop_price(self, v: Option<Decimal>)
        ensures
            (Order { trail_stop_price: v, ..self })@ == self@.with_trail_stop_price(optional_view(v)),
    {
        self.lemma_update_trail_stop_price(v);
        self@.lemma_with_trail_stop_price_is_update(optional_view(v));
    }

    /// This record with another value of `trail_stop_price`.
    pub fn set_trail_stop_price(self, v: Option<Decimal>) -> (r: Order)
        ensures
            r@ == self@.with_trail_stop_price(optional_view(v)),
    {
        proof {
            self.lemma_with_trail_stop_price(v);
        }
        Order { trail_stop_price: v, ..self }
    }

    proof fn lemma_update_trailing_percent(self, v: Option<Decimal>)
        ensures
            (Order { trailing_percent: v, ..self })@ == (OrderView { trailing_percent: optional_view(v), ..self@ }),
    {
    }

    /// Setting `trailing_percent` in the record sets it in its content.
    pub proof fn lemma_with_trailing_percent(self, v: Option<Decimal>)
        ensures
            (Order { trailing_percent: v, ..self })@ == self@.with_trailing_percent(optional_view(v)),
    {
        self.lemma_update_trailing_percent(v);
        self@.lemma_with_trailing_percent_is_update(optional_view(v));
    }

    /// This record with another value of `trailing_percent`.
    pub fn set_trailing_percent(self, v: Option<Decimal>) -> (r: Order)
        ensures
            r@ == self@.with_trailing_percent(optional_view(v)),
    {
        proof {
            self.lemma_with_trailing_percent(v);
        }
        Order { trailing_percent: v, ..self }
    }

    proof fn lemma_update_fa_group(self, v: String)
        ensures
            (Order { fa_group: v, ..self })@ == (OrderView { fa_group: v@, ..self@ }),
    {
    }

    /// Setting `fa_group` in the record sets it in its content.
    pub proof fn lemma_with_fa_group(self, v: String)
        ensures
            (Order { fa_group: v, ..self })@ == self@.with_fa_group(v@),
    {
        self.lemma_update_fa_group(v);
        self@.lemma_with_fa_group_is_update(v@);
    }

    /// This record with another value of `fa_group`.
    pub fn set_fa_group(self, v: String) -> (r: Order)
        ensures
            r@ == self@.with_fa_group(v@),
    {
        proof {
            self.lemma_with_fa_group(v);
        }
        Order { fa_group: v, ..self }
    }

    proof fn lemma_update_fa_method(self, v: String)
        ensures
            (Order { fa_method: v, ..self })@ == (OrderView { fa_method: v@, ..self@ }),
    {
    }

    /// Setting `fa_method` in the record sets it in its content.
    pub proof fn lemma_with_fa_method(self, v: String)
        ensures
            (Order { fa_method: v, ..self })@ == self@.with_fa_method(v@),
    {
        self.lemma_update_fa_method(v);
        self@.lemma_with_fa_method_is_update(v@);
    }

    /// This record with another value of `fa_method`.
    pub fn set_fa_method(self, v: String) -> (r: Order)
        ensures
            r@ == self@.with_fa_method(v@),
    {
        proof {
            self.lemma_with_fa_method(v);
        }
        Order { fa_method: v, ..self }
    }

    proof fn lemma_update_fa_percentage(self, v: String)
        ensures
            (Order { fa_percentage: v, ..self })@ == (OrderView { fa_percentage: v@, ..self@ }),
    {
    }

    /// Setting `fa_percentage` in the record sets it in its content.
    pub proof fn lemma_with_fa_percentage(self, v: String)
        ensures
            (Order { fa_percentage: v, ..self })@ == self@.with_fa_percentage(v@),
    {
        self.lemma_update_fa_percentage(v);
        self@.lemma_with_fa_percentage_is_update(v@);
    }

    /// This record with another value of `fa_percentage`.
    pub fn set_fa_percentage(self, v: String) -> (r: Order)
        ensures
            r@ == self@.with_fa_percentage(v@),
    {
        proof {
            self.lemma_with_fa_percentage(v);
        }
        Order { fa_percentage: v, ..self }
    }

    proof fn lemma_update_open_close(self, v: Option<OrderOpenClose>)
        ensures
            (Order { open_close: v, ..self })@ == (OrderView { open_close: v, ..self@ }),
    {
    }

    /// Setting `open_close` in the record sets it in its content.
    pub proof fn lemma_with_open_close(self, v: Option<OrderOpenClose>)
        ensures
            (Order { open_close: v, ..self })@ == self@.with_open_close(v),
    {
        self.lemma_update_open_close(v);
        self@.lemma_with_open_close_is_update(v);
    }

    /// This record with another value of `open_close`.
    pub fn set_open_close(self, v: Option<OrderOpenClose>) -> (r: Order)
        ensures
            r@ == self@.with_open_close(v),
    {
        proof {
            self.lemma_with_open_close(v);
        }
        Order { open_close: v, ..self }
    }

    proof fn lemma_update_origin(self, v: OrderOrigin)
        ensures
            (Order { origin: v, ..self })@ == (OrderView { origin: v, ..self@ }),
    {
    }

    /// Setting `origin` in the record sets it in its content.
    pub proof fn lemma_with_origin(self, v: OrderOrigin)
        ensures
            (Order { origin: v, ..self })@ == self@.with_origin(v),
    {
        self.lemma_update_origin(v);
        self@.lemma_with_origin_is_update(v);
    }

    /// This record with another value of `origin`.
    pub fn set_origin(self, v: OrderOrigin) -> (r: Order)
        ensures
            r@ == self@.with_origin(v),
    {
        proof {
            self.lemma_with_origin(v);
        }
        Order { origin: v, ..self }
    }

    proof fn lemma_update_short_sale_slot(self, v: ShortSaleSlot)
        ensures
            (Order { short_sale_slot: v, ..self })@ == (OrderView { short_sale_slot: v, ..self@ }),
    {
    }

    /// Setting `short_sale_slot` in the record sets it in its content.
    pub proof fn lemma_with_short_sale_slot(self, v: ShortSaleSlot)
        ensures
            (Order { short_sale_slot: v, ..self })@ == self@.with_short_sale_slot(v),
    {
        self.lemma_update_short_sale_slot(v);
        self@.lemma_with_short_sale_slot_is_update(v);
    }

    /// This record with another value of `short_sale_slot`.
    pub fn set_short_sale_slot(self, v: ShortSaleSlot) -> (r: Order)
        ensures
            r@ == self@.with_short_sale_slot(v),
    {
        proof {
            self.lemma_with_short_sale_slot(v);
        }
        Order { short_sale_slot: v, ..self }
    }

    proof fn lemma_update_designated_location(self, v: String)
        ensures
            (Order { designated_location: v, ..self })@ == (OrderView { designated_location: v@, ..self@ }),
    {
    }

    /// Setting `designated_location` in the record sets it in its content.
    pub proof fn lemma_with_designated_location(self, v: String)
        ensures
            (Order { designated_location: v, ..self })@ == self@.with_designated_location(v@),
    {
        self.lemma_update_designated_location(v);
        self@.lemma_with_designated_location_is_update(v@);
    }

    /// This record with another value of `designated_location`.
    pub fn set_designated_location(self, v: String) -> (r: Order)
        ensures
            r@ == self@.with_designated_location(v@),
    {
        proof {
            self.lemma_with_designated_location(v);
        }
        Order { designated_location: v, ..self }
    }

    proof fn lemma_update_exempt_code(self, v: i32)
        ensures
            (Order { exempt_code: v, ..self })@ == (OrderView { exempt_code: v as int, ..self@ }),
    {
    }

    /// Setting `exempt_code` in the record sets it in its content.
    pub proof fn lemma_with_exempt_code(self, v: i32)
        ensures
            (Order { exempt_code: v, ..self })@ == self@.with_exempt_code(v as int),
    {
        self.lemma_update_exempt_code(v);
        self@.lemma_with_exempt_code_is_update(v as int);
    }

    /// This record with another value of `exempt_code`.
    pub fn set_exempt_code(self, v: i32) -> (r: Order)
        ensures
            r@ == self@.with_exempt_code(v as int),
    {
        proof {
            self.lemma_with_exempt_code(v);
        }
        Order { exempt_code: v, ..self }
    }

    proof fn lemma_update_discretionary_amt(self, v: Decimal)
        ensures
            (Order { discretionary_amt: v, ..self })@ == (OrderView { discretionary_amt: v@, ..self@ }),
    {
    }

    /// Setting `discretionary_amt` in the record sets it in its content.
    pub proof fn lemma_with_discretionary_amt(self, v: Decimal)
        ensures
            (Order { discretionary_amt: v, ..self })@ == self@.with_discretionary_amt(v@),
    {
        self.lemma_update_discretionary_amt(v);
        self@.lemma_with_discretionary_amt_is_update(v@);
    }

    /// This record with another value of `discretionary_amt`.
    pub fn set_discretionary_amt(self, v: Decimal) -> (r: Order)
        ensures
            r@ == self@.with_discretionary_amt(v@),
    {
        proof {
            self.lemma_with_discretionary_amt(v);
        }
        Order { discretionary_amt: v, ..self }
    }

    proof fn lemma_update_opt_out_smart_routing(self, v: bool)
        ensures
            (Order { opt_out_smart_routing: v, ..self })@ == (OrderView { opt_out_smart_routing: v, ..self@ }),
    {
    }

    /// Setting `opt_out_smart_routing` in the record sets it in its content.
    pub proof fn lemma_with_opt_out_smart_routing(self, v: bool)
        ensures
            (Order { opt_out_smart_routing: v, ..self })@ == self@.with_opt_out_smart_routing(v),
    {
        self.lemma_update_opt_out_smart_routing(v);
        self@.lemma_with_opt_out_smart_routing_is_update(v);
    }

    /// This record with another value of `opt_out_smart_routing`.
    pub fn set_opt_out_smart_routing(self, v: bool) -> (r: Order)
        ensures
            r@ == self@.with_opt_out_smart_routing(v),
    {
        proof {
            self.lemma_with_opt_out_smart_routing(v);
        }
        Order { opt_out_smart_routing: v, ..self }
    }

    proof fn lemma_update_auction_strategy(self, v: Option<AuctionStrategy>)
        ensures
            (Order { auction_strategy: v, ..self })@ == (OrderView { auction_strategy: v, ..self@ }),
    {
    }

    /// Setting `auction_strategy` in the record sets it in its content.
    pub proof fn lemma_with_auction_strategy(self, v: Option<AuctionStrategy>)
        ensures
            (Order { auction_strategy: v, ..self })@ == self@.with_auction_strategy(v),
    {
        self.lemma_update_auction_strategy(v);
        self@.lemma_with_auction_strategy_is_update(v);
    }

    /// This record with another value of `auction_strategy`.
    pub fn set_auction_strategy(self, v: Option<AuctionStrategy>) -> (r: Order)
        ensures
            r@ == self@.with_auction_strategy(v),
    {
        proof {
            self.lemma_with_auction_strategy(v);
        }
        Order { auction_strategy: v, ..self }
    }

    proof fn lemma_update_starting_price(self, v: Option<Decimal>)
        ensures
            (Order { starting_price: v, ..self })@ == (OrderView { starting_price: optional_view(v), ..self@ }),
    {
    }

    /// Setting `starting_price` in the record sets it in its content.
    pub proof fn lemma_with_starting_price(self, v: Option<Decimal>)
        ensures
            (Order { starting_price: v, ..self })@ == self@.with_starting_price(optional_view(v)),
    {
        self.lemma_update_starting_price(v);
        self@.lemma_with_starting_price_is_update(optional_view(v));
    }

    /// This record with another value of `starting_price`.
    pub fn set_starting_price(self, v: Option<Decimal>) -> (r: Order)
        ensures
            r@ == self@.with_starting_price(optional_view(v)),
    {
        proof {
            self.lemma_with_starting_price(v);
        }
        Order { starting_price: v, ..self }
    }

    proof fn lemma_update_stock_ref_price(self, v: Option<Decimal>)
        ensures
            (Order { stock_ref_price: v, ..self })@ == (OrderView { stock_ref_price: optional_view(v), ..self@ }),
    {
    }

    /// Setting `stock_ref_price` in the record sets it in its content.
    pub proof fn lemma_with_stock_ref_price(self, v: Option<Decimal>)
        ensures
            (Order { stock_ref_price: v, ..self })@ == self@.with_stock_ref_price(optional_view(v)),
    {
        self.lemma_update_stock_ref_price(v);
        self@.lemma_with_stock_ref_price_is_update(optional_view(v));
    }

    /// This record with another value of `stock_ref_price`.
    pub fn set_stock_ref_price(self, v: Option<Decimal>) -> (r: Order)
        ensures
            r@ == self@.with_stock_ref_price(optional_view(v)),
    {
        proof {
            self.lemma_with_stock_ref_price(v);
        }
        Order { stock_ref_price: v, ..self }
    }

    proof fn lemma_update_delta(self, v: Option<Decimal>)
        ensures
            (Order { delta: v, ..self })@ == (OrderView { delta: optional_view(v), ..self@ }),
    {
    }

    /// Setting `delta` in the record sets it in its content.
    pub proof fn lemma_with_delta(self, v: Option<Decimal>)
        ensures
            (Order { delta: v, ..self })@ == self@.with_delta(optional_view(v)),
    {
        self.lemma_update_delta(v);
        self@.lemma_with_delta_is_update(optional_view(v));
    }

    /// This record with another value of `delta`.
    pub fn set_delta(self, v: Option<Decimal>) -> (r: Order)
        ensures
            r@ == self@.with_delta(optional_view(v)),
    {
        proof {
            self.lemma_with_delta(v);
        }
        Order { delta: v, ..self }
    }

    proof fn lemma_update_stock_range_lower(self, v: Option<Decimal>)
        ensures
            (Order { stock_range_lower: v, ..self })@ == (OrderView { stock_range_lower: optional_view(v), ..self@ }),
    {
    }

    /// Setting `stock_range_lower` in the record sets it in its content.
    pub proof fn lemma_with_stock_range_lower(self, v: Option<Decimal>)
        ensures
            (Order { stock_range_lower: v, ..self })@ == self@.with_stock_range_lower(optional_view(v)),
    {
        self.lemma_update_stock_range_lower(v);
        self@.lemma_with_stock_range_lower_is_update(optional_view(v));
    }

    /// This record with another value of `stock_range_lower`.
    pub fn set_stock_range_lower(self, v: Option<Decimal>) -> (r: Order)
        ensures
            r@ == self@.with_stock_range_lower(optional_view(v)),
    {
        proof {
            self.lemma_with_stock_range_lower(v);
        }
        Order { stock_range_lower: v, ..self }
    }

    proof fn lemma_update_stock_range_upper(self, v: Option<Decimal>)
        ensures
            (Order { stock_range_upper: v, ..self })@ == (OrderView { stock_range_upper: optional_view(v), ..self@ }),
    {
    }

    /// Setting `stock_range_upper` in the record sets it in its content.
    pub proof fn lemma_with_stock_range_upper(self, v: Option<Decimal>)
        ensures
            (Order { stock_range_upper: v, ..self })@ == self@.with_stock_range_upper(optional_view(v)),
    {
        self.lemma_update_stock_range_upper(v);
        self@.lemma_with_stock_range_upper_is_update(optional_view(v));
    }

    /// This record with another value of `stock_range_upper`.
    pub fn set_stock_range_upper(self, v: Option<Decimal>) -> (r: Order)
        ensures
            r@ == self@.with_stock_range_upper(optional_view(v)),
    {
        proof {
            self.lemma_with_stock_range_upper(v);
        }
        Order { stock_range_upper: v, ..self }
    }

    proof fn lemma_update_volatility(self, v: Option<Decimal>)
        ensures
            (Order { volatility: v, ..self })@ == (OrderView { volatility: optional_view(v), ..self@ }),
    {
    }

    /// Setting `volatility` in the record sets it in its content.
    pub proof fn lemma_with_volatility(self, v: Option<Decimal>)
        ensures
            (Order { volatility: v, ..self })@ == self@.with_volatility(optional_view(v)),
    {
        self.lemma_update_volatility(v);
        self@.lemma_with_volatility_is_update(optional_view(v));
    }

    /// This record with another value of `volatility`.
    pub fn set_volatility(self, v: Option<Decimal>) -> (r: Order)
        ensures
            r@ == self@.with_volatility(optional_view(v)),
    {
        proof {
            self.lemma_with_volatility(v);
        }
        Order { volatility: v, ..self }
    }

    proof fn lemma_update_volatility_type(self, v: Option<VolatilityType>)
        ensures
            (Order { volatility_type: v, ..self })@ == (OrderView { volatility_type: v, ..self@ }),
    {
    }

    /// Setting `volatility_type` in the record sets it in its content.
    pub proof fn lemma_with_volatility_type(self, v: Option<VolatilityType>)
        ensures
            (Order { volatility_type: v, ..self })@ == self@.with_volatility_type(v),
    {
        self.lemma_update_volatility_type(v);
        self@.lemma_with_volatility_type_is_update(v);
    }

    /// This record with another value of `volatility_type`.
    pub fn set_volatility_type(self, v: Option<VolatilityType>) -> (r: Order)
        ensures
            r@ == self@.with_volatility_type(v),
    {
        proof {
            self.lemma_with_volatility_type(v);
        }
        Order { volatility_type: v, ..self }
    }

    proof fn lemma_update_continuous_update(self, v: bool)
        ensures
            (Order { continuous_update: v, ..self })@ == (OrderView { continuous_update: v, ..self@ }),
    {
    }

    /// Setting `continuous_update` in the record sets it in its content.
    pub proof fn lemma_with_continuous_update(self, v: bool)
        ensures
            (Order { continuous_update: v, ..self })@ == self@.with_continuous_update(v),
    {
        self.lemma_update_continuous_update(v);
        self@.lemma_with_continuous_update_is_update(v);
    }

    /// This record with another value of `continuous_update`.
    pub fn set_continuous_update(self, v: bool) -> (r: Order)
        ensures
            r@ == self@.with_continuous_update(v),
    {
        proof {
            self.lemma_with_continuous_update(v);
        }
        Order { continuous_update: v, ..self }
    }

    proof fn lemma_update_reference_price_type(self, v: Option<ReferencePriceType>)
        ensures
            (Order { reference_price_type: v, ..self })@ == (OrderView { reference_price_type: v, ..self@ }),
    {
    }

    /// Setting `reference_price_type` in the record sets it in its content.
    pub proof fn lemma_with_reference_price_type(self, v: Option<ReferencePriceType>)
        ensures
            (Order { reference_price_type: v, ..self })@ == self@.with_reference_price_type(v),
    {
        self.lemma_update_reference_price_type(v);
        self@.lemma_with_reference_price_type_is_update(v);
    }

    /// This record with another value of `reference_price_type`.
    pub fn set_reference_price_type(self, v: Option<ReferencePriceType>) -> (r: Order)
        ensures
            r@ == self@.with_reference_price_type(v),
    {
        proof {
            self.lemma_with_reference_price_type(v);
        }
        Order { reference_price_type: v, ..self }
    }

    proof fn lemma_update_delta_neutral_order_type(self, v: String)
        ensures
            (Order { delta_neutral_order_type: v, ..self })@ == (OrderView { delta_neutral_order_type: v@, ..self@ }),
    {
    }

    /// Setting `delta_neutral_order_type` in the record sets it in its content.
    pub proof fn lemma_with_delta_neutral_order_type(self, v: String)
        ensures
            (Order { delta_neutral_order_type: v, ..self })@ == self@.with_delta_neutral_order_type(v@),
    {
        self.lemma_update_delta_neutral_order_type(v);
        self@.lemma_with_delta_neutral_order_type_is_update(v@);
    }

    /// This record with another value of `delta_neutral_order_type`.
    pub fn set_delta_neutral_order_type(self, v: String) -> (r: Order)
        ensures
            r@ == self@.with_delta_neutral_order_type(v@),
    {
        proof {
            self.lemma_with_delta_neutral_order_type(v);
        }
        Order { delta_neutral_order_type: v, ..self }
    }

    proof fn lemma_update_delta_neutral_aux_price(self, v: Option<Decimal>)
        ensures
            (Order { delta_neutral_aux_price: v, ..self })@ == (OrderView { delta_neutral_aux_price: optional_view(v), ..self@ }),
    {
    }

    /// Setting `delta_neutral_aux_price` in the record sets it in its content.
    pub proof fn lemma_with_delta_neutral_aux_price(self, v: Option<Decimal>)
        ensures
            (Order { delta_neutral_aux_price: v, ..self })@ == self@.with_delta_neutral_aux_price(optional_view(v)),
    {
        self.lemma_update_delta_neutral_aux_price(v);
        self@.lemma_with_delta_neutral_aux_price_is_update(optional_view(v));
    }

    /// This record with another value of `delta_neutral_aux_price`.
    pub fn set_delta_neutral_aux_price(self, v: Option<Decimal>) -> (r: Order)
        ensures
            r@ == self@.with_delta_neutral_aux_price(optional_view(v)),
    {
        proof {
            self.lemma_with_delta_neutral_aux_price(v);
        }
        Order { delta_neutral_aux_price: v, ..self }
    }

    proof fn lemma_update_delta_neutral_con_id(self, v: i32)
        ensures
            (Order { delta_neutral_con_id: v, ..self })@ == (OrderView { delta_neutral_con_id: v as int, ..self@ }),
    {
    }

    /// Setting `delta_neutral_con_id` in the record sets it in its content.
    pub proof fn lemma_with_delta_neutral_con_id(self, v: i32)
        ensures
            (Order { delta_neutral_con_id: v, ..self })@ == self@.with_delta_neutral_con_id(v as int),
    {
        self.lemma_update_delta_neutral_con_id(v);
        self@.lemma_with_delta_neutral_con_id_is_update(v as int);
    }

    /// This record with another value of `delta_neutral_con_id`.
    pub fn set_delta_neutral_con_id(self, v: i32) -> (r: Order)
        ensures
            r@ == self@.with_delta_neutral_con_id(v as int),
    {
        proof {
            self.lemma_with_delta_neutral_con_id(v);
        }
        Order { delta_neutral_con_id: v, ..self }
    }

    proof fn lemma_update_delta_neutral_settling_firm(self, v: String)
        ensures
            (Order { delta_neutral_settling_firm: v, ..self })@ == (OrderView { delta_neutral_settling_firm: v@, ..self@ }),
    {
    }

    /// Setting `delta_neutral_settling_firm` in the record sets it in its content.
    pub proof fn lemma_with_delta_neutral_settling_firm(self, v: String)
        ensures
            (Order { delta_neutral_settling_firm: v, ..self })@ == self@.with_delta_neutral_settling_firm(v@),
    {
        self.lemma_update_delta_neutral_settling_firm(v);
        self@.lemma_with_delta_neutral_settling_firm_is_update(v@);
    }

    /// This record with another value of `delta_neutral_settling_firm`.
    pub fn set_delta_neutral_settling_firm(self, v: String) -> (r: Order)
        ensures
            r@ == self@.with_delta_neutral_settling_firm(v@),
    {
        proof {
            self.lemma_with_delta_neutral_settling_firm(v);
        }
        Order { delta_neutral_settling_firm: v, ..self }
    }

    proof fn lemma_update_delta_neutral_clearing_account(self, v: String)
        ensures
            (Order { delta_neutral_clearing_account: v, ..self })@ == (OrderView { delta_neutral_clearing_account: v@, ..self@ }),
    {
    }

    /// Setting `delta_neutral_clearing_account` in the record sets it in its content.
    pub proof fn lemma_with_delta_neutral_clearing_account(self, v: String)
        ensures
            (Order { delta_neutral_clearing_account: v, ..self })@ == self@.with_delta_neutral_clearing_account(v@),
    {
        self.lemma_update_delta_neutral_clearing_account(v);
        self@.lemma_with_delta_neutral_clearing_account_is_update(v@);
    }

    /// This record with another value of `delta_neutral_clearing_account`.
    pub fn set_delta_neutral_clearing_account(self, v: String) -> (r: Order)
        ensures
            r@ == self@.with_delta_neutral_clearing_account(v@),
    {
        proof {
            self.lemma_with_delta_neutral_clearing_account(v);
        }
        Order { delta_neutral_clearing_account: v, ..self }
    }

    proof fn lemma_update_delta_neutral_clearing_intent(self, v: String)
        ensures
            (Order { delta_neutral_clearing_intent: v, ..self })@ == (OrderView { delta_neutral_clearing_intent: v@, ..self@ }),
    {
    }

    /// Setting `delta_neutral_clearing_intent` in the record sets it in its content.
    pub proof fn lemma_with_delta_neutral_clearing_intent(self, v: String)
        ensures
            (Order { delta_neutral_clearing_intent: v, ..self })@ == self@.with_delta_neutral_clearing_intent(v@),
    {
        self.lemma_update_delta_neutral_clearing_intent(v);
        self@.lemma_with_delta_neutral_clearing_intent_is_update(v@);
    }

    /// This record with another value of `delta_neutral_clearing_intent`.
    pub fn set_delta_neutral_clearing_intent(self, v: String) -> (r: Order)
        ensures
            r@ == self@.with_delta_neutral_clearing_intent(v@),
    {
        proof {
            self.lemma_with_delta_neutral_clearing_intent(v);
        }
        Order { delta_neutral_clearing_intent: v, ..self }
    }

    proof fn lemma_update_delta_neutral_open_close(self, v: String)
        ensures
            (Order { delta_neutral_open_close: v, ..self })@ == (OrderView { delta_neutral_open_close: v@, ..self@ }),
    {
    }

    /// Setting `delta_neutral_open_close` in the record sets it in its content.
    pub proof fn lemma_with_delta_neutral_open_close(self, v: String)
        ensures
            (Order { delta_neutral_open_close: v, ..self })@ == self@.with_delta_neutral_open_close(v@),
    {
        self.lemma_update_delta_neutral_open_close(v);
        self@.lemma_with_delta_neutral_open_close_is_update(v@);
    }

    /// This record with another value of `delta_neutral_open_close`.
    pub fn set_delta_neutral_open_close(self, v: String) -> (r: Order)
        ensures
            r@ == self@.with_delta_neutral_open_close(v@),
    {
        proof {
            self.lemma_with_delta_neutral_open_close(v);
        }
        Order { delta_neutral_open_close: v, ..self }
    }

    proof fn lemma_update_delta_neutral_short_sale(self, v: bool)
        ensures
            (Order { delta_neutral_short_sale: v, ..self })@ == (OrderView { delta_neutral_short_sale: v, ..self@ }),
    {
    }

    /// Setting `delta_neutral_short_sale` in the record sets it in its content.
    pub proof fn lemma_with_delta_neutral_short_sale(self, v: bool)
        ensures
            (Order { delta_neutral_short_sale: v, ..self })@ == self@.with_delta_neutral_short_sale(v),
    {
        self.lemma_update_delta_neutral_short_sale(v);
        self@.lemma_with_delta_neutral_short_sale_is_update(v);
    }

    /// This record with another value of `delta_neutral_short_sale`.
    pub fn set_delta_neutral_short_sale(self, v: bool) -> (r: Order)
        ensures
            r@ == self@.with_delta_neutral_short_sale(v),
    {
        proof {
            self.lemma_with_delta_neutral_short_sale(v);
        }
        Order { delta_neutral_short_sale: v, ..self }
    }

    proof fn lemma_update_delta_neutral_short_sale_slot(self, v: i32)
        ensures
            (Order { delta_neutral_short_sale_slot: v, ..self })@ == (OrderView { delta_neutral_short_sale_slot: v as int, ..self@ }),
    {
    }

    /// Setting `delta_neutral_short_sale_slot` in the record sets it in its content.
    pub proof fn lemma_with_delta_neutral_short_sale_slot(self, v: i32)
        ensures
            (Order { delta_neutral_short_sale_slot: v, ..self })@ == self@.with_delta_neutral_short_sale_slot(v as int),
    {
        self.lemma_update_delta_neutral_short_sale_slot(v);
        self@.lemma_with_delta_neutral_short_sale_slot_is_update(v as int);
    }

    /// This record with another value of `delta_neutral_short_sale_slot`.
    pub fn set_delta_neutral_short_sale_slot(self, v: i32) -> (r: Order)
        ensures
            r@ == self@.with_delta_neutral_short_sale_slot(v as int),
    {
        proof {
            self.lemma_with_delta_neutral_short_sale_slot(v);
        }
        Order { delta_neutral_short_sale_slot: v, ..self }
    }

    proof fn lemma_update_delta_neutral_designated_location(self, v: String)
        ensures
            (Order { delta_neutral_designated_location: v, ..self })@ == (OrderView { delta_neutral_designated_location: v@, ..self@ }),
    {
    }

    /// Setting `delta_neutral_designated_location` in the record sets it in its content.
    pub proof fn lemma_with_delta_neutral_designated_location(self, v: String)
        ensures
            (Order { delta_neutral_designated_location: v, ..self })@ == self@.with_delta_neutral_designated_location(v@),
    {
        self.lemma_update_delta_neutral_designated_location(v);
        self@.lemma_with_delta_neutral_designated_location_is_update(v@);
    }

    /// This record with another value of `delta_neutral_designated_location`.
    pub fn set_delta_neutral_designated_location(self, v: String) -> (r: Order)
        ensures
            r@ == self@.with_delta_neutral_designated_location(v@),
    {
        proof {
            self.lemma_with_delta_neutral_designated_location(v);
        }
        Order { delta_neutral_designated_location: v, ..self }
    }

    proof fn lemma_update_basis_points(self, v: Option<Decimal>)
        ensures
            (Order { basis_points: v, ..self })@ == (OrderView { basis_points: optional_view(v), ..self@ }),
    {
    }

    /// Setting `basis_points` in the record sets it in its content.
    pub proof fn lemma_with_basis_points(self, v: Option<Decimal>)
        ensures
            (Order { basis_points: v, ..self })@ == self@.with_basis_points(optional_view(v)),
    {
        self.lemma_update_basis_points(v);
        self@.lemma_with_basis_points_is_update(optional_view(v));
    }

    /// This record with another value of `basis_points`.
    pub fn set_basis_points(self, v: Option<Decimal>) -> (r: Order)
        ensures
            r@ == self@.with_basis_points(optional_view(v)),
    {
        proof {
            self.lemma_with_basis_points(v);
        }
        Order { basis_points: v, ..self }
    }

    proof fn lemma_update_basis_points_type(self, v: Option<i32>)
        ensures
            (Order { basis_points_type: v, ..self })@ == (OrderView { basis_points_type: optional_int(v), ..self@ }),
    {
    }

    /// Setting `basis_points_type` in the record sets it in its content.
    pub proof fn lemma_with_basis_points_type(self, v: Option<i32>)
        ensures
            (Order { basis_points_type: v, ..self })@ == self@.with_basis_points_type(optional_int(v)),
    {
        self.lemma_update_basis_points_type(v);
        self@.lemma_with_basis_points_type_is_update(optional_int(v));
    }

    /// This record with another value of `basis_points_type`.
    pub fn set_basis_points_type(self, v: Option<i32>) -> (r: Order)
        ensures
            r@ == self@.with_basis_points_type(optional_int(v)),
    {
        proof {
            self.lemma_with_basis_points_type(v);
        }
        Order { basis_points_type: v, ..self }
    }

    proof fn lemma_update_scale_init_level_size(self, v: Option<i32>)
        ensures
            (Order { scale_init_level_size: v, ..self })@ == (OrderView { scale_init_level_size: optional_int(v), ..self@ }),
    {
    }

    /// Setting `scale_init_level_size` in the record sets it in its content.
    pub proof fn lemma_with_scale_init_level_size(self, v: Option<i32>)
        ensures
            (Order { scale_init_level_size: v, ..self })@ == self@.with_scale_init_level_size(optional_int(v)),
    {
        self.lemma_update_scale_init_level_size(v);
        self@.lemma_with_scale_init_level_size_is_update(optional_int(v));
    }

    /// This record with another value of `scale_init_level_size`.
    pub fn set_scale_init_level_size(self, v: Option<i32>) -> (r: Order)
        ensures
            r@ == self@.with_scale_init_level_size(optional_int(v)),
    {
        proof {
            self.lemma_with_scale_init_level_size(v);
        }
        Order { scale_init_level_size: v, ..self }
    }

    proof fn lemma_update_scale_subs_level_size(self, v: Option<i32>)
        ensures
            (Order { scale_subs_level_size: v, ..self })@ == (OrderView { scale_subs_level_size: optional_int(v), ..self@ }),
    {
    }

    /// Setting `scale_subs_level_size` in the record sets it in its content.
    pub proof fn lemma_with_scale_subs_level_size(self, v: Option<i32>)
        ensures
            (Order { scale_subs_level_size: v, ..self })@ == self@.with_scale_subs_level_size(optional_int(v)),
    {
        self.lemma_update_scale_subs_level_size(v);
        self@.lemma_with_scale_subs_level_size_is_update(optional_int(v));
    }

    /// This record with another value of `scale_subs_level_size`.
    pub fn set_scale_subs_level_size(self, v: Option<i32>) -> (r: Order)
        ensures
            r@ == self@.with_scale_subs_level_size(optional_int(v)),
    {
        proof {
            self.lemma_with_scale_subs_level_size(v);
        }
        Order { scale_subs_level_size: v, ..self }
    }

    proof fn lemma_update_scale_price_increment(self, v: Option<Decimal>)
        ensures
            (Order { scale_price_increment: v, ..self })@ == (OrderView { scale_price_increment: optional_view(v), ..self@ }),
    {
    }

    /// Setting `scale_price_increment` in the record sets it in its content.
    pub proof fn lemma_with_scale_price_increment(self, v: Option<Decimal>)
        ensures
            (Order { scale_price_increment: v, ..self })@ == self@.with_scale_price_increment(optional_view(v)),
    {
        self.lemma_update_scale_price_increment(v);
        self@.lemma_with_scale_price_increment_is_update(optional_view(v));
    }

    /// This record with another value of `scale_price_increment`.
    pub fn set_scale_price_increment(self, v: Option<Decimal>) -> (r: Order)
        ensures
            r@ == self@.with_scale_price_increment(optional_view(v)),
    {
        proof {
            self.lemma_with_scale_price_increment(v);
        }
        Order { scale_price_increment: v, ..self }
    }

    proof fn lemma_update_scale_price_adjust_value(self, v: Option<Decimal>)
        ensures
            (Order { scale_price_adjust_value: v, ..self })@ == (OrderView { scale_price_adjust_value: optional_view(v), ..self@ }),
    {
    }

    /// Setting `scale_price_adjust_value` in the record sets it in its content.
    pub proof fn lemma_with_scale_price_adjust_value(self, v: Option<Decimal>)
        ensures
            (Order { scale_price_adjust_value: v, ..self })@ == self@.with_scale_price_adjust_value(optional_view(v)),
    {
        self.lemma_update_scale_price_adjust_value(v);
        self@.lemma_with_scale_price_adjust_value_is_update(optional_view(v));
    }

    /// This record with another value of `scale_price_adjust_value`.
    pub fn set_scale_price_adjust_value(self, v: Option<Decimal>) -> (r: Order)
        ensures
            r@ == self@.with_scale_price_adjust_value(optional_view(v)),
    {
        proof {
            self.lemma_with_scale_price_adjust_value(v);
        }
        Order { scale_price_adjust_value: v, ..self }
    }

    proof fn lemma_update_scale_price_adjust_interval(self, v: Option<i32>)
        ensures
            (Order { scale_price_adjust_interval: v, ..self })@ == (OrderView { scale_price_adjust_interval: optional_int(v), ..self@ }),
    {
    }

    /// Setting `scale_price_adjust_interval` in the record sets it in its content.
    pub proof fn lemma_with_scale_price_adjust_interval(self, v: Option<i32>)
        ensures
            (Order { scale_price_adjust_interval: v, ..self })@ == self@.with_scale_price_adjust_interval(optional_int(v)),
    {
        self.lemma_update_scale_price_adjust_interval(v);
        self@.lemma_with_scale_price_adjust_interval_is_update(optional_int(v));
    }

    /// This record with another value of `scale_price_adjust_interval`.
    pub fn set_scale_price_adjust_interval(self, v: Option<i32>) -> (r: Order)
        ensures
            r@ == self@.with_scale_price_adjust_interval(optional_int(v)),
    {
        proof {
            self.lemma_with_scale_price_adjust_interval(v);
        }
        Order { scale_price_adjust_interval: v, ..self }
    }

    proof fn lemma_update_scale_profit_offset(self, v: Option<Decimal>)
        ensures
            (Order { scale_profit_offset: v, ..self })@ == (OrderView { scale_profit_offset: optional_view(v), ..self@ }),
    {
    }

    /// Setting `scale_profit_offset` in the record sets it in its content.
    pub proof fn lemma_with_scale_profit_offset(self, v: Option<Decimal>)
        ensures
            (Order { scale_profit_offset: v, ..self })@ == self@.with_scale_profit_offset(optional_view(v)),
    {
        self.lemma_update_scale_profit_offset(v);
        self@.lemma_with_scale_profit_offset_is_update(optional_view(v));
    }

    /// This record with another value of `scale_profit_offset`.
    pub fn set_scale_profit_offset(self, v: Option<Decimal>) -> (r: Order)
        ensures
            r@ == self@.with_scale_profit_offset(optional_view(v)),
    {
        proof {
            self.lemma_with_scale_profit_offset(v);
        }
        Order { scale_profit_offset: v, ..self }
    }

    proof fn lemma_update_scale_auto_reset(self, v: bool)
        ensures
            (Order { scale_auto_reset: v, ..self })@ == (OrderView { scale_auto_reset: v, ..self@ }),
    {
    }

    /// Setting `scale_auto_reset` in the record sets it in its content.
    pub proof fn lemma_with_scale_auto_reset(self, v: bool)
        ensures
            (Order { scale_auto_reset: v, ..self })@ == self@.with_scale_auto_reset(v),
    {
        self.lemma_update_scale_auto_reset(v);
        self@.lemma_with_scale_auto_reset_is_update(v);
    }

    /// This record with another value of `scale_auto_reset`.
    pub fn set_scale_auto_reset(self, v: bool) -> (r: Order)
        ensures
            r@ == self@.with_scale_auto_reset(v),
    {
        proof {
            self.lemma_with_scale_auto_reset(v);
        }
        Order { scale_auto_reset: v, ..self }
    }

    proof fn lemma_update_scale_init_position(self, v: Option<i32>)
        ensures
            (Order { scale_init_position: v, ..self })@ == (OrderView { scale_init_position: optional_int(v), ..self@ }),
    {
    }

    /// Setting `scale_init_position` in the record sets it in its content.
    pub proof fn lemma_with_scale_init_position(self, v: Option<i32>)
        ensures
            (Order { scale_init_position: v, ..self })@ == self@.with_scale_init_position(optional_int(v)),
    {
        self.lemma_update_scale_init_position(v);
        self@.lemma_with_scale_init_position_is_update(optional_int(v));
    }

    /// This record with another value of `scale_init_position`.
    pub fn set_scale_init_position(self, v: Option<i32>) -> (r: Order)
        ensures
            r@ == self@.with_scale_init_position(optional_int(v)),
    {
        proof {
            self.lemma_with_scale_init_position(v);
        }
        Order { scale_init_position: v, ..self }
    }

    proof fn lemma_update_scale_init_fill_qty(self, v: Option<i32>)
        ensures
            (Order { scale_init_fill_qty: v, ..self })@ == (OrderView { scale_init_fill_qty: optional_int(v), ..self@ }),
    {
    }

    /// Setting `scale_init_fill_qty` in the record sets it in its content.
    pub proof fn lemma_with_scale_init_fill_qty(self, v: Option<i32>)
        ensures
            (Order { scale_init_fill_qty: v, ..self })@ == self@.with_scale_init_fill_qty(optional_int(v)),
    {
        self.lemma_update_scale_init_fill_qty(v);
        self@.lemma_with_scale_init_fill_qty_is_update(optional_int(v));
    }

    /// This record with another value of `scale_init_fill_qty`.
    pub fn set_scale_init_fill_qty(self, v: Option<i32>) -> (r: Order)
        ensures
            r@ == self@.with_scale_init_fill_qty(optional_int(v)),
    {
        proof {
            self.lemma_with_scale_init_fill_qty(v);
        }
        Order { scale_init_fill_qty: v, ..self }
    }

    proof fn lemma_update_scale_random_percent(self, v: bool)
        ensures
            (Order { scale_random_percent: v, ..self })@ == (OrderView { scale_random_percent: v, ..self@ }),
    {
    }

    /// Setting `scale_random_percent` in the record sets it in its content.
    pub proof fn lemma_with_scale_random_percent(self, v: bool)
        ensures
            (Order { scale_random_percent: v, ..self })@ == self@.with_scale_random_percent(v),
    {
        self.lemma_update_scale_random_percent(v);
        self@.lemma_with_scale_random_percent_is_update(v);
    }

    /// This record with another value of `scale_random_percent`.
    pub fn set_scale_random_percent(self, v: bool) -> (r: Order)
        ensures
            r@ == self@.with_scale_random_percent(v),
    {
        proof {
            self.lemma_with_scale_random_percent(v);
        }
        Order { scale_random_percent: v, ..self }
    }

    proof fn lemma_update_hedge_type(self, v: String)
        ensures
            (Order { hedge_type: v, ..self })@ == (OrderView { hedge_type: v@, ..self@ }),
    {
    }

    /// Setting `hedge_type` in the record sets it in its content.
    pub proof fn lemma_with_hedge_type(self, v: String)
        ensures
            (Order { hedge_type: v, ..self })@ == self@.with_hedge_type(v@),
    {
        self.lemma_update_hedge_type(v);
        self@.lemma_with_hedge_type_is_update(v@);
    }

    /// This record with another value of `hedge_type`.
    pub fn set_hedge_type(self, v: String) -> (r: Order)
        ensures
            r@ == self@.with_hedge_type(v@),
    {
        proof {
            self.lemma_with_hedge_type(v);
        }
        Order { hedge_type: v, ..self }
    }

    proof fn lemma_update_hedge_param(self, v: String)
        ensures
            (Order { hedge_param: v, ..self })@ == (OrderView { hedge_param: v@, ..self@ }),
    {
    }

    /// Setting `hedge_param` in the record sets it in its content.
    pub proof fn lemma_with_hedge_param(self, v: String)
        ensures
            (Order { hedge_param: v, ..self })@ == self@.with_hedge_param(v@),
    {
        self.lemma_update_hedge_param(v);
        self@.lemma_with_hedge_param_is_update(v@);
    }

    /// This record with another value of `hedge_param`.
    pub fn set_hedge_param(self, v: String) -> (r: Order)
        ensures
            r@ == self@.with_hedge_param(v@),
    {
        proof {
            self.lemma_with_hedge_param(v);
        }
        Order { hedge_param: v, ..self }
    }

    proof fn lemma_update_account(self, v: String)
        ensures
            (Order { account: v, ..self })@ == (OrderView { account: v@, ..self@ }),
    {
    }

    /// Setting `account` in the record sets it in its content.
    pub proof fn lemma_with_account(self, v: String)
        ensures
            (Order { account: v, ..self })@ == self@.with_account(v@),
    {
        self.lemma_update_account(v);
        self@.lemma_with_account_is_update(v@);
    }

    /// This record with another value of `account`.
    pub fn set_account(self, v: String) -> (r: Order)
        ensures
            r@ == self@.with_account(v@),
    {
        proof {
            self.lemma_with_account(v);
        }
        Order { account: v, ..self }
    }

    proof fn lemma_update_settling_firm(self, v: String)
        ensures
            (Order { settling_firm: v, ..self })@ == (OrderView { settling_firm: v@, ..self@ }),
    {
    }

    /// Setting `settling_firm` in the record sets it in its content.
    pub proof fn lemma_with_settling_firm(self, v: String)
        ensures
            (Order { settling_firm: v, ..self })@ == self@.with_settling_firm(v@),
    {
        self.lemma_update_settling_firm(v);
        self@.lemma_with_settling_firm_is_update(v@);
    }

    /// This record with another value of `settling_firm`.
    pub fn set_settling_firm(self, v: String) -> (r: Order)
        ensures
            r@ == self@.with_settling_firm(v@),
    {
        proof {
            self.lemma_with_settling_firm(v);
        }
        Order { settling_firm: v, ..self }
    }

    proof fn lemma_update_clearing_account(self, v: String)
        ensures
            (Order { clearing_account: v, ..self })@ == (OrderView { clearing_account: v@, ..self@ }),
    {
    }

    /// Setting `clearing_account` in the record sets it in its content.
    pub proof fn lemma_with_clearing_account(self, v: String)
        ensures
            (Order { clearing_account: v, ..self })@ == self@.with_clearing_account(v@),
    {
        self.lemma_update_clearing_account(v);
        self@.lemma_with_clearing_account_is_update(v@);
    }

    /// This record with another value of `clearing_account`.
    pub fn set_clearing_account(self, v: String) -> (r: Order)
        ensures
            r@ == self@.with_clearing_account(v@),
    {
        proof {
            self.lemma_with_clearing_account(v);
        }
        Order { clearing_account: v, ..self }
    }

    proof fn lemma_update_clearing_intent(self, v: String)
        ensures
            (Order { clearing_intent: v, ..self })@ == (OrderView { clearing_intent: v@, ..self@ }),
    {
    }

    /// Setting `clearing_intent` in the record sets it in its content.
    pub proof fn lemma_with_clearing_intent(self, v: String)
        ensures
            (Order { clearing_intent: v, ..self })@ == self@.with_clearing_intent(v@),
    {
        self.lemma_update_clearing_intent(v);
        self@.lemma_with_clearing_intent_is_update(v@);
    }

    /// This record with another value of `clearing_intent`.
    pub fn set_clearing_intent(self, v: String) -> (r: Order)
        ensures
            r@ == self@.with_clearing_intent(v@),
    {
        proof {
            self.lemma_with_clearing_intent(v);
        }
        Order { clearing_intent: v, ..self }
    }

    proof fn lemma_update_algo_strategy(self, v: String)
        ensures
            (Order { algo_strategy: v, ..self })@ == (OrderView { algo_strategy: v@, ..self@ }),
    {
    }

    /// Setting `algo_strategy` in the record sets it in its content.
    pub proof fn lemma_with_algo_strategy(self, v: String)
        ensures
            (Order { algo_strategy: v, ..self })@ == self@.with_algo_strategy(v@),
    {
        self.lemma_update_algo_strategy(v);
        self@.lemma_with_algo_strategy_is_update(v@);
    }

    /// This record with another value of `algo_strategy`.
    pub fn set_algo_strategy(self, v: String) -> (r: Order)
        ensures
            r@ == self@.with_algo_strategy(v@),
    {
        proof {
            self.lemma_with_algo_strategy(v);
        }
        Order { algo_strategy: v, ..self }
    }

    proof fn lemma_update_algo_params(self, v: Vec<TagValue>)
        ensures
            (Order { algo_params: v, ..self })@ == (OrderView { algo_params: views_of(v@), ..self@ }),
    {
    }

    /// Setting `algo_params` in the record sets it in its content.
    pub proof fn lemma_with_algo_params(self, v: Vec<TagValue>)
        ensures
            (Order { algo_params: v, ..self })@ == self@.with_algo_params(views_of(v@)),
    {
        self.lemma_update_algo_params(v);
        self@.lemma_with_algo_params_is_update(views_of(v@));
    }

    /// This record with another value of `algo_params`.
    pub fn set_algo_params(self, v: Vec<TagValue>) -> (r: Order)
        ensures
            r@ == self@.with_algo_params(views_of(v@)),
    {
        proof {
            self.lemma_with_algo_params(v);
        }
        Order { algo_params: v, ..self }
    }

    /// This record with one more entry of `algo_params`.
    pub fn push_algo_params(self, entry: TagValue) -> (r: Order)
        ensures
            r@ == self@.with_algo_params(self@.algo_params.push(entry@)),
    {
        let ghost before = self;
        let ghost pushed = entry;
        let mut algo_params = self.algo_params;
        algo_params.push(entry);
        proof {
            before.lemma_push_algo_params(algo_params, pushed);
        }
        Order { algo_params, ..self }
    }

    /// Pushing an entry to `algo_params` pushes its content.
    pub proof fn lemma_push_algo_params(self, pushed: Vec<TagValue>, entry: TagValue)
        requires
            pushed@ == self.algo_params@.push(entry),
        ensures
            (Order { algo_params: pushed, ..self })@ == self@.with_algo_params(self@.algo_params.push(entry@)),
    {
        self.lemma_with_algo_params(pushed);
        lemma_views_push(self.algo_params@, entry);
    }

    proof fn lemma_update_what_if(self, v: bool)
        ensures
            (Order { what_if: v, ..self })@ == (OrderView { what_if: v, ..self@ }),
    {
    }

    /// Setting `what_if` in the record sets it in its content.
    pub proof fn lemma_with_what_if(self, v: bool)
        ensures
            (Order { what_if: v, ..self })@ == self@.with_what_if(v),
    {
        self.lemma_update_what_if(v);
        self@.lemma_with_what_if_is_update(v);
    }

    /// This record with another value of `what_if`.
    pub fn set_what_if(self, v: bool) -> (r: Order)
        ensures
            r@ == self@.with_what_if(v),
    {
        proof {
            self.lemma_with_what_if(v);
        }
        Order { what_if: v, ..self }
    }

    proof fn lemma_update_not_held(self, v: bool)
        ensures
            (Order { not_held: v, ..self })@ == (OrderView { not_held: v, ..self@ }),
    {
    }

    /// Setting `not_held` in the record sets it in its content.
    pub proof fn lemma_with_not_held(self, v: bool)
        ensures
            (Order { not_held: v, ..self })@ == self@.with_not_held(v),
    {
        self.lemma_update_not_held(v);
        self@.lemma_with_not_held_is_update(v);
    }

    /// This record with another value of `not_held`.
    pub fn set_not_held(self, v: bool) -> (r: Order)
        ensures
            r@ == self@.with_not_held(v),
    {
        proof {
            self.lemma_with_not_held(v);
        }
        Order { not_held: v, ..self }
    }

    proof fn lemma_update_order_combo_legs(self, v: Vec<OrderComboLeg>)
        ensures
            (Order { order_combo_legs: v, ..self })@ == (OrderView { order_combo_legs: views_of(v@), ..self@ }),
    {
    }

    /// Setting `order_combo_legs` in the record sets it in its content.
    pub proof fn lemma_with_order_combo_legs(self, v: Vec<OrderComboLeg>)
        ensures
            (Order { order_combo_legs: v, ..self })@ == self@.with_order_combo_legs(views_of(v@)),
    {
        self.lemma_update_order_combo_legs(v);
        self@.lemma_with_order_combo_legs_is_update(views_of(v@));
    }

    /// This record with another value of `order_combo_legs`.
    pub fn set_order_combo_legs(self, v: Vec<OrderComboLeg>) -> (r: Order)
        ensures
            r@ == self@.with_order_combo_legs(views_of(v@)),
    {
        proof {
            self.lemma_with_order_combo_legs(v);
        }
        Order { order_combo_legs: v, ..self }
    }

    /// This record with one more entry of `order_combo_legs`.
    pub fn push_order_combo_legs(self, entry: OrderComboLeg) -> (r: Order)
        ensures
            r@ == self@.with_order_combo_legs(self@.order_combo_legs.push(entry@)),
    {
        let ghost before = self;
        let ghost pushed = entry;
        let mut order_combo_legs = self.order_combo_legs;
        order_combo_legs.push(entry);
        proof {
            before.lemma_push_order_combo_legs(order_combo_legs, pushed);
        }
        Order { order_combo_legs, ..self }
    }

    /// Pushing an entry to `order_combo_legs` pushes its content.
    pub proof fn lemma_push_order_combo_legs(self, pushed: Vec<OrderComboLeg>, entry: OrderComboLeg)
        requires
            pushed@ == self.order_combo_legs@.push(entry),
        ensures
            (Order { order_combo_legs: pushed, ..self })@ == self@.with_order_combo_legs(self@.order_combo_legs.push(entry@)),
    {
        self.lemma_with_order_combo_legs(pushed);
        lemma_views_push(self.order_combo_legs@, entry);
    }

    proof fn lemma_update_smart_combo_routing_params(self, v: Vec<TagValue>)
        ensures
            (Order { smart_combo_routing_params: v, ..self })@ == (OrderView { smart_combo_routing_params: views_of(v@), ..self@ }),
    {
    }

    /// Setting `smart_combo_routing_params` in the record sets it in its content.
    pub proof fn lemma_with_smart_combo_routing_params(self, v: Vec<TagValue>)
        ensures
            (Order { smart_combo_routing_params: v, ..self })@ == self@.with_smart_combo_routing_params(views_of(v@)),
    {
        self.lemma_update_smart_combo_routing_params(v);
        self@.lemma_with_smart_combo_routing_params_is_update(views_of(v@));
    }

    /// This record with another value of `smart_combo_routing_params`.
    pub fn set_smart_combo_routing_params(self, v: Vec<TagValue>) -> (r: Order)
        ensures
            r@ == self@.with_smart_combo_routing_params(views_of(v@)),
    {
        proof {
            self.lemma_with_smart_combo_routing_params(v);
        }
        Order { smart_combo_routing_params: v, ..self }
    }

    /// This record with one more entry of `smart_combo_routing_params`.
    pub fn push_smart_combo_routing_params(self, entry: TagValue) -> (r: Order)
        ensures
            r@ == self@.with_smart_combo_routing_params(self@.smart_combo_routing_params.push(entry@)),
    {
        let ghost before = self;
        let ghost pushed = entry;
        let mut smart_combo_routing_params = self.smart_combo_routing_params;
        smart_combo_routing_params.push(entry);
        proof {
            before.lemma_push_smart_combo_routing_params(smart_combo_routing_params, pushed);
        }
        Order { smart_combo_routing_params, ..self }
    }

    /// Pushing an entry to `smart_combo_routing_params` pushes its content.
    pub proof fn lemma_push_smart_combo_routing_params(self, pushed: Vec<TagValue>, entry: TagValue)
        requires
            pushed@ == self.smart_combo_routing_params@.push(entry),
        ensures
            (Order { smart_combo_routing_params: pushed, ..self })@ == self@.with_smart_combo_routing_params(self@.smart_combo_routing_params.push(entry@)),
    {
        self.lemma_with_smart_combo_routing_params(pushed);
        lemma_views_push(self.smart_combo_routing_params@, entry);
    }

    proof fn lemma_update_model_code(self, v: String)
        ensures
            (Order { model_code: v, ..self })@ == (OrderView { model_code: v@, ..self@ }),
    {
    }

    /// Setting `model_code` in the record sets it in its content.
    pub proof fn lemma_with_model_code(self, v: String)
        ensures
            (Order { model_code: v, ..self })@ == self@.with_model_code(v@),
    {
        self.lemma_update_model_code(v);
        self@.lemma_with_model_code_is_update(v@);
    }

    /// This record with another value of `model_code`.
    pub fn set_model_code(self, v: String) -> (r: Order)
        ensures
            r@ == self@.with_model_code(v@),
    {
        proof {
            self.lemma_with_model_code(v);
        }
        Order { model_code: v, ..self }
    }

    proof fn lemma_update_randomize_size(self, v: bool)
        ensures
            (Order { randomize_size: v, ..self })@ == (OrderView { randomize_size: v, ..self@ }),
    {
    }

    /// Setting `randomize_size` in the record sets it in its content.
    pub proof fn lemma_with_randomize_size(self, v: bool)
        ensures
            (Order { randomize_size: v, ..self })@ == self@.with_randomize_size(v),
    {
        self.lemma_update_randomize_size(v);
        self@.lemma_with_randomize_size_is_update(v);
    }

    /// This record with another value of `randomize_size`.
    pub fn set_randomize_size(self, v: bool) -> (r: Order)
        ensures
            r@ == self@.with_randomize_size(v),
    {
        proof {
            self.lemma_with_randomize_size(v);
        }
        Order { randomize_size: v, ..self }
    }

    proof fn lemma_update_randomize_price(self, v: bool)
        ensures
            (Order { randomize_price: v, ..self })@ == (OrderView { randomize_price: v, ..self@ }),
    {
    }

    /// Setting `randomize_price` in the record sets it in its content.
    pub proof fn lemma_with_randomize_price(self, v: bool)
        ensures
            (Order { randomize_price: v, ..self })@ == self@.with_randomize_price(v),
    {
        self.lemma_update_randomize_price(v);
        self@.lemma_with_randomize_price_is_update(v);
    }

    /// This record with another value of `randomize_price`.
    pub fn set_randomize_price(self, v: bool) -> (r: Order)
        ensures
            r@ == self@.with_randomize_price(v),
    {
        proof {
            self.lemma_with_randomize_price(v);
        }
        Order { randomize_price: v, ..self }
    }

    proof fn lemma_update_reference_contract_id(self, v: i32)
        ensures
            (Order { reference_contract_id: v, ..self })@ == (OrderView { reference_contract_id: v as int, ..self@ }),
    {
    }

    /// Setting `reference_contract_id` in the record sets it in its content.
    pub proof fn lemma_with_reference_contract_id(self, v: i32)
        ensures
            (Order { reference_contract_id: v, ..self })@ == self@.with_reference_contract_id(v as int),
    {
        self.lemma_update_reference_contract_id(v);
        self@.lemma_with_reference_contract_id_is_update(v as int);
    }

    /// This record with another value of `reference_contract_id`.
    pub fn set_reference_contract_id(self, v: i32) -> (r: Order)
        ensures
            r@ == self@.with_reference_contract_id(v as int),
    {
        proof {
            self.lemma_with_reference_contract_id(v);
        }
        Order { reference_contract_id: v, ..self }
    }

    proof fn lemma_update_is_pegged_change_amount_decrease(self, v: bool)
        ensures
            (Order { is_pegged_change_amount_decrease: v, ..self })@ == (OrderView { is_pegged_change_amount_decrease: v, ..self@ }),
    {
    }

    /// Setting `is_pegged_change_amount_decrease` in the record sets it in its content.
    pub proof fn lemma_with_is_pegged_change_amount_decrease(self, v: bool)
        ensures
            (Order { is_pegged_change_amount_decrease: v, ..self })@ == self@.with_is_pegged_change_amount_decrease(v),
    {
        self.lemma_update_is_pegged_change_amount_decrease(v);
        self@.lemma_with_is_pegged_change_amount_decrease_is_update(v);
    }

    /// This record with another value of `is_pegged_change_amount_decrease`.
    pub fn set_is_pegged_change_amount_decrease(self, v: bool) -> (r: Order)
        ensures
            r@ == self@.with_is_pegged_change_amount_decrease(v),
    {
        proof {
            self.lemma_with_is_pegged_change_amount_decrease(v);
        }
        Order { is_pegged_change_amount_decrease: v, ..self }
    }

    proof fn lemma_update_pegged_change_amount(self, v: Option<Decimal>)
        ensures
            (Order { pegged_change_amount: v, ..self })@ == (OrderView { pegged_change_amount: optional_view(v), ..self@ }),
    {
    }

    /// Setting `pegged_change_amount` in the record sets it in its content.
    pub proof fn lemma_with_pegged_change_amount(self, v: Option<Decimal>)
        ensures
            (Order { pegged_change_amount: v, ..self })@ == self@.with_pegged_change_amount(optional_view(v)),
    {
        self.lemma_update_pegged_change_amount(v);
        self@.lemma_with_pegged_change_amount_is_update(optional_view(v));
    }

    /// This record with another value of `pegged_change_amount`.
    pub fn set_pegged_change_amount(self, v: Option<Decimal>) -> (r: Order)
        ensures
            r@ == self@.with_pegged_change_amount(optional_view(v)),
    {
        proof {
            self.lemma_with_pegged_change_amount(v);
        }
        Order { pegged_change_amount: v, ..self }
    }

    proof fn lemma_update_reference_change_amount(self, v: Option<Decimal>)
        ensures
            (Order { reference_change_amount: v, ..self })@ == (OrderView { reference_change_amount: optional_view(v), ..self@ }),
    {
    }

    /// Setting `reference_change_amount` in the record sets it in its content.
    pub proof fn lemma_with_reference_change_amount(self, v: Option<Decimal>)
        ensures
            (Order { reference_change_amount: v, ..self })@ == self@.with_reference_change_amount(optional_view(v)),
    {
        self.lemma_update_reference_change_amount(v);
        self@.lemma_with_reference_change_amount_is_update(optional_view(v));
    }

    /// This record with another value of `reference_change_amount`.
    pub fn set_reference_change_amount(self, v: Option<Decimal>) -> (r: Order)
        ensures
            r@ == self@.with_reference_change_amount(optional_view(v)),
    {
        proof {
            self.lemma_with_reference_change_amount(v);
        }
        Order { reference_change_amount: v, ..self }
    }

    proof fn lemma_update_reference_exchange(self, v: String)
        ensures
            (Order { reference_exchange: v, ..self })@ == (OrderView { reference_exchange: v@, ..self@ }),
    {
    }

    /// Setting `reference_exchange` in the record sets it in its content.
    pub proof fn lemma_with_reference_exchange(self, v: String)
        ensures
            (Order { reference_exchange: v, ..self })@ == self@.with_reference_exchange(v@),
    {
        self.lemma_update_reference_exchange(v);
        self@.lemma_with_reference_exchange_is_update(v@);
    }

    /// This record with another value of `reference_exchange`.
    pub fn set_reference_exchange(self, v: String) -> (r: Order)
        ensures
            r@ == self@.with_reference_exchange(v@),
    {
        proof {
            self.lemma_with_reference_exchange(v);
        }
        Order { reference_exchange: v, ..self }
    }

    proof fn lemma_update_adjusted_order_type(self, v: String)
        ensures
            (Order { adjusted_order_type: v, ..self })@ == (OrderView { adjusted_order_type: v@, ..self@ }),
    {
    }

    /// Setting `adjusted_order_type` in the record sets it in its content.
    pub proof fn lemma_with_adjusted_order_type(self, v: String)
        ensures
            (Order { adjusted_order_type: v, ..self })@ == self@.with_adjusted_order_type(v@),
    {
        self.lemma_update_adjusted_order_type(v);
        self@.lemma_with_adjusted_order_type_is_update(v@);
    }

    /// This record with another value of `adjusted_order_type`.
    pub fn set_adjusted_order_type(self, v: String) -> (r: Order)
        ensures
            r@ == self@.with_adjusted_order_type(v@),
    {
        proof {
            self.lemma_with_adjusted_order_type(v);
        }
        Order { adjusted_order_type: v, ..self }
    }

    proof fn lemma_update_trigger_price(self, v: Option<Decimal>)
        ensures
            (Order { trigger_price: v, ..self })@ == (OrderView { trigger_price: optional_view(v), ..self@ }),
    {
    }

    /// Setting `trigger_price` in the record sets it in its content.
    pub proof fn lemma_with_trigger_price(self, v: Option<Decimal>)
        ensures
            (Order { trigger_price: v, ..self })@ == self@.with_trigger_price(optional_view(v)),
    {
        self.lemma_update_trigger_price(v);
        self@.lemma_with_trigger_price_is_update(optional_view(v));
    }

    /// This record with another value of `trigger_price`.
    pub fn set_trigger_price(self, v: Option<Decimal>) -> (r: Order)
        ensures
            r@ == self@.with_trigger_price(optional_view(v)),
    {
        proof {
            self.lemma_with_trigger_price(v);
        }
        Order { trigger_price: v, ..self }
    }

    proof fn lemma_update_limit_price_offset(self, v: Option<Decimal>)
        ensures
            (Order { limit_price_offset: v, ..self })@ == (OrderView { limit_price_offset: optional_view(v), ..self@ }),
    {
    }

    /// Setting `limit_price_offset` in the record sets it in its content.
    pub proof fn lemma_with_limit_price_offset(self, v: Option<Decimal>)
        ensures
            (Order { limit_price_offset: v, ..self })@ == self@.with_limit_price_offset(optional_view(v)),
    {
        self.lemma_update_limit_price_offset(v);
        self@.lemma_with_limit_price_offset_is_update(optional_view(v));
    }

    /// This record with another value of `limit_price_offset`.
    pub fn set_limit_price_offset(self, v: Option<Decimal>) -> (r: Order)
        ensures
            r@ == self@.with_limit_price_offset(optional_view(v)),
    {
        proof {
            self.lemma_with_limit_price_offset(v);
        }
        Order { limit_price_offset: v, ..self }
    }

    proof fn lemma_update_adjusted_stop_price(self, v: Option<Decimal>)
        ensures
            (Order { adjusted_stop_price: v, ..self })@ == (OrderView { adjusted_stop_price: optional_view(v), ..self@ }),
    {
    }

    /// Setting `adjusted_stop_price` in the record sets it in its content.
    pub proof fn lemma_with_adjusted_stop_price(self, v: Option<Decimal>)
        ensures
            (Order { adjusted_stop_price: v, ..self })@ == self@.with_adjusted_stop_price(optional_view(v)),
    {
        self.lemma_update_adjusted_stop_price(v);
        self@.lemma_with_adjusted_stop_price_is_update(optional_view(v));
    }

    /// This record with another value of `adjusted_stop_price`.
    pub fn set_adjusted_stop_price(self, v: Option<Decimal>) -> (r: Order)
        ensures
            r@ == self@.with_adjusted_stop_price(optional_view(v)),
    {
        proof {
            self.lemma_with_adjusted_stop_price(v);
        }
        Order { adjusted_stop_price: v, ..self }
    }

    proof fn lemma_update_adjusted_stop_limit_price(self, v: Option<Decimal>)
        ensures
            (Order { adjusted_stop_limit_price: v, ..self })@ == (OrderView { adjusted_stop_limit_price: optional_view(v), ..self@ }),
    {
    }

    /// Setting `adjusted_stop_limit_price` in the record sets it in its content.
    pub proof fn lemma_with_adjusted_stop_limit_price(self, v: Option<Decimal>)
        ensures
            (Order { adjusted_stop_limit_price: v, ..self })@ == self@.with_adjusted_stop_limit_price(optional_view(v)),
    {
        self.lemma_update_adjusted_stop_limit_price(v);
        self@.lemma_with_adjusted_stop_limit_price_is_update(optional_view(v));
    }

    /// This record with another value of `adjusted_stop_limit_price`.
    pub fn set_adjusted_stop_limit_price(self, v: Option<Decimal>) -> (r: Order)
        ensures
            r@ == self@.with_adjusted_stop_limit_price(optional_view(v)),
    {
        proof {
            self.lemma_with_adjusted_stop_limit_price(v);
        }
        Order { adjusted_stop_limit_price: v, ..self }
    }

    proof fn lemma_update_adjusted_trailing_amount(self, v: Option<Decimal>)
        ensures
            (Order { adjusted_trailing_amount: v, ..self })@ == (OrderView { adjusted_trailing_amount: optional_view(v), ..self@ }),
    {
    }

    /// Setting `adjusted_trailing_amount` in the record sets it in its content.
    pub proof fn lemma_with_adjusted_trailing_amount(self, v: Option<Decimal>)
        ensures
            (Order { adjusted_trailing_amount: v, ..self })@ == self@.with_adjusted_trailing_amount(optional_view(v)),
    {
        self.lemma_update_adjusted_trailing_amount(v);
        self@.lemma_with_adjusted_trailing_amount_is_update(optional_view(v));
    }

    /// This record with another value of `adjusted_trailing_amount`.
    pub fn set_adjusted_trailing_amount(self, v: Option<Decimal>) -> (r: Order)
        ensures
            r@ == self@.with_adjusted_trailing_amount(optional_view(v)),
    {
        proof {
            self.lemma_with_adjusted_trailing_amount(v);
        }
        Order { adjusted_trailing_amount: v, ..self }
    }

    proof fn lemma_update_adjustable_trailing_unit(self, v: i32)
        ensures
            (Order { adjustable_trailing_unit: v, ..self })@ == (OrderView { adjustable_trailing_unit: v as int, ..self@ }),
    {
    }

    /// Setting `adjustable_trailing_unit` in the record sets it in its content.
    pub proof fn lemma_with_adjustable_trailing_unit(self, v: i32)
        ensures
            (Order { adjustable_trailing_unit: v, ..self })@ == self@.with_adjustable_trailing_unit(v as int),
    {
        self.lemma_update_adjustable_trailing_unit(v);
        self@.lemma_with_adjustable_trailing_unit_is_update(v as int);
    }

    /// This record with another value of `adjustable_trailing_unit`.
    pub fn set_adjustable_trailing_unit(self, v: i32) -> (r: Order)
        ensures
            r@ == self@.with_adjustable_trailing_unit(v as int),
    {
        proof {
            self.lemma_with_adjustable_trailing_unit(v);
        }
        Order { adjustable_trailing_unit: v, ..self }
    }

    proof fn lemma_update_conditions(self, v: Vec<OrderCondition>)
        ensures
            (Order { conditions: v, ..self })@ == (OrderView { conditions: views_of(v@), ..self@ }),
    {
    }

    /// Setting `conditions` in the record sets it in its content.
    pub proof fn lemma_with_conditions(self, v: Vec<OrderCondition>)
        ensures
            (Order { conditions: v, ..self })@ == self@.with_conditions(views_of(v@)),
    {
        self.lemma_update_conditions(v);
        self@.lemma_with_conditions_is_update(views_of(v@));
    }

    /// This record with another value of `conditions`.
    pub fn set_conditions(self, v: Vec<OrderCondition>) -> (r: Order)
        ensures
            r@ == self@.with_conditions(views_of(v@)),
    {
        proof {
            self.lemma_with_conditions(v);
        }
        Order { conditions: v, ..self }
    }

    /// This record with one more entry of `conditions`.
    pub fn push_conditions(self, entry: OrderCondition) -> (r: Order)
        ensures
            r@ == self@.with_conditions(self@.conditions.push(entry@)),
    {
        let ghost before = self;
        let ghost pushed = entry;
        let mut conditions = self.conditions;
        conditions.push(entry);
        proof {
            before.lemma_push_conditions(conditions, pushed);
        }
        Order { conditions, ..self }
    }

    /// Pushing an entry to `conditions` pushes its content.
    pub proof fn lemma_push_conditions(self, pushed: Vec<OrderCondition>, entry: OrderCondition)
        requires
            pushed@ == self.conditions@.push(entry),
        ensures
            (Order { conditions: pushed, ..self })@ == self@.with_conditions(self@.conditions.push(entry@)),
    {
        self.lemma_with_conditions(pushed);
        lemma_views_push(self.conditions@, entry);
    }

    proof fn lemma_update_conditions_ignore_rth(self, v: bool)
        ensures
            (Order { conditions_ignore_rth: v, ..self })@ == (OrderView { conditions_ignore_rth: v, ..self@ }),
    {
    }

    /// Setting `conditions_ignore_rth` in the record sets it in its content.
    pub proof fn lemma_with_conditions_ignore_rth(self, v: bool)
        ensures
            (Order { conditions_ignore_rth: v, ..self })@ == self@.with_conditions_ignore_rth(v),
    {
        self.lemma_update_conditions_ignore_rth(v);
        self@.lemma_with_conditions_ignore_rth_is_update(v);
    }

    /// This record with another value of `conditions_ignore_rth`.
    pub fn set_conditions_ignore_rth(self, v: bool) -> (r: Order)
        ensures
            r@ == self@.with_conditions_ignore_rth(v),
    {
        proof {
            self.lemma_with_conditions_ignore_rth(v);
        }
        Order { conditions_ignore_rth: v, ..self }
    }

    proof fn lemma_update_conditions_cancel_order(self, v: bool)
        ensures
            (Order { conditions_cancel_order: v, ..self })@ == (OrderView { conditions_cancel_order: v, ..self@ }),
    {
    }

    /// Setting `conditions_cancel_order` in the record sets it in its content.
    pub proof fn lemma_with_conditions_cancel_order(self, v: bool)
        ensures
            (Order { conditions_cancel_order: v, ..self })@ == self@.with_conditions_cancel_order(v),
    {
        self.lemma_update_conditions_cancel_order(v);
        self@.lemma_with_conditions_cancel_order_is_update(v);
    }

    /// This record with another value of `conditions_cancel_order`.
    pub fn set_conditions_cancel_order(self, v: bool) -> (r: Order)
        ensures
            r@ == self@.with_conditions_cancel_order(v),
    {
        proof {
            self.lemma_with_conditions_cancel_order(v);
        }
        Order { conditions_cancel_order: v, ..self }
    }

    proof fn lemma_update_soft_dollar_tier(self, v: SoftDollarTier)
        ensures
            (Order { soft_dollar_tier: v, ..self })@ == (OrderView { soft_dollar_tier: v@, ..self@ }),
    {
    }

    /// Setting `soft_dollar_tier` in the record sets it in its content.
    pub proof fn lemma_with_soft_dollar_tier(self, v: SoftDollarTier)
        ensures
            (Order { soft_dollar_tier: v, ..self })@ == self@.with_soft_dollar_tier(v@),
    {
        self.lemma_update_soft_dollar_tier(v);
        self@.lemma_with_soft_dollar_tier_is_update(v@);
    }

    /// This record with another value of `soft_dollar_tier`.
    pub fn set_soft_dollar_tier(self, v: SoftDollarTier) -> (r: Order)
        ensures
            r@ == self@.with_soft_dollar_tier(v@),
    {
        proof {
            self.lemma_with_soft_dollar_tier(v);
        }
        Order { soft_dollar_tier: v, ..self }
    }

    proof fn lemma_update_cash_qty(self, v: Option<Decimal>)
        ensures
            (Order { cash_qty: v, ..self })@ == (OrderView { cash_qty: optional_view(v), ..self@ }),
    {
    }

    /// Setting `cash_qty` in the record sets it in its content.
    pub proof fn lemma_with_cash_qty(self, v: Option<Decimal>)
        ensures
            (Order { cash_qty: v, ..self })@ == self@.with_cash_qty(optional_view(v)),
    {
        self.lemma_update_cash_qty(v);
        self@.lemma_with_cash_qty_is_update(optional_view(v));
    }

    /// This record with another value of `cash_qty`.
    pub fn set_cash_qty(self, v: Option<Decimal>) -> (r: Order)
        ensures
            r@ == self@.with_cash_qty(optional_view(v)),
    {
        proof {
            self.lemma_with_cash_qty(v);
        }
        Order { cash_qty: v, ..self }
    }

    proof fn lemma_update_dont_use_auto_price_for_hedge(self, v: bool)
        ensures
            (Order { dont_use_auto_price_for_hedge: v, ..self })@ == (OrderView { dont_use_auto_price_for_hedge: v, ..self@ }),
    {
    }

    /// Setting `dont_use_auto_price_for_hedge` in the record sets it in its content.
    pub proof fn lemma_with_dont_use_auto_price_for_hedge(self, v: bool)
        ensures
            (Order { dont_use_auto_price_for_hedge: v, ..self })@ == self@.with_dont_use_auto_price_for_hedge(v),
    {
        self.lemma_update_dont_use_auto_price_for_hedge(v);
        self@.lemma_with_dont_use_auto_price_for_hedge_is_update(v);
    }

    /// This record with another value of `dont_use_auto_price_for_hedge`.
    pub fn set_dont_use_auto_price_for_hedge(self, v: bool) -> (r: Order)
        ensures
            r@ == self@.with_dont_use_auto_price_for_hedge(v),
    {
        proof {
            self.lemma_with_dont_use_auto_price_for_hedge(v);
        }
        Order { dont_use_auto_price_for_hedge: v, ..self }
    }

    proof fn lemma_update_is_oms_container(self, v: bool)
        ensures
            (Order { is_oms_container: v, ..self })@ == (OrderView { is_oms_container: v, ..self@ }),
    {
    }

    /// Setting `is_oms_container` in the record sets it in its content.
    pub proof fn lemma_with_is_oms_container(self, v: bool)
        ensures
            (Order { is_oms_container: v, ..self })@ == self@.with_is_oms_container(v),
    {
        self.lemma_update_is_oms_container(v);
        self@.lemma_with_is_oms_container_is_update(v);
    }

    /// This record with another value of `is_oms_container`.
    pub fn set_is_oms_container(self, v: bool) -> (r: Order)
        ensures
            r@ == self@.with_is_oms_container(v),
    {
        proof {
            self.lemma_with_is_oms_container(v);
        }
        Order { is_oms_container: v, ..self }
    }

    proof fn lemma_update_discretionary_up_to_limit_price(self, v: bool)
        ensures
            (Order { discretionary_up_to_limit_price: v, ..self })@ == (OrderView { discretionary_up_to_limit_price: v, ..self@ }),
    {
    }

    /// Setting `discretionary_up_to_limit_price` in the record sets it in its content.
    pub proof fn lemma_with_discretionary_up_to_limit_price(self, v: bool)
        ensures
            (Order { discretionary_up_to_limit_price: v, ..self })@ == self@.with_discretionary_up_to_limit_price(v),
    {
        self.lemma_update_discretionary_up_to_limit_price(v);
        self@.lemma_with_discretionary_up_to_limit_price_is_update(v);
    }

    /// This record with another value of `discretionary_up_to_limit_price`.
    pub fn set_discretionary_up_to_limit_price(self, v: bool) -> (r: Order)
        ensures
            r@ == self@.with_discretionary_up_to_limit_price(v),
    {
        proof {
            self.lemma_with_discretionary_up_to_limit_price(v);
        }
        Order { discretionary_up_to_limit_price: v, ..self }
    }

    proof fn lemma_update_use_price_mgmt_algo(self, v: bool)
        ensures
            (Order { use_price_mgmt_algo: v, ..self })@ == (OrderView { use_price_mgmt_algo: v, ..self@ }),
    {
    }

    /// Setting `use_price_mgmt_algo` in the record sets it in its content.
    pub proof fn lemma_with_use_price_mgmt_algo(self, v: bool)
        ensures
            (Order { use_price_mgmt_algo: v, ..self })@ == self@.with_use_price_mgmt_algo(v),
    {
        self.lemma_update_use_price_mgmt_algo(v);
        self@.lemma_with_use_price_mgmt_algo_is_update(v);
    }

    /// This record with another value of `use_price_mgmt_algo`.
    pub fn set_use_price_mgmt_algo(self, v: bool) -> (r: Order)
        ensures
            r@ == self@.with_use_price_mgmt_algo(v),
    {
        proof {
            self.lemma_with_use_price_mgmt_algo(v);
        }
        Order { use_price_mgmt_algo: v, ..self }
    }

    proof fn lemma_update_duration(self, v: Option<i32>)
        ensures
            (Order { duration: v, ..self })@ == (OrderView { duration: optional_int(v), ..self@ }),
    {
    }

    /// Setting `duration` in the record sets it in its content.
    pub proof fn lemma_with_duration(self, v: Option<i32>)
        ensures
            (Order { duration: v, ..self })@ == self@.with_duration(optional_int(v)),
    {
        self.lemma_update_duration(v);
        self@.lemma_with_duration_is_update(optional_int(v));
    }

    /// This record with another value of `duration`.
    pub fn set_duration(self, v: Option<i32>) -> (r: Order)
        ensures
            r@ == self@.with_duration(optional_int(v)),
    {
        proof {
            self.lemma_with_duration(v);
        }
        Order { duration: v, ..self }
    }

    proof fn lemma_update_post_to_ats(self, v: Option<i32>)
        ensures
            (Order { post_to_ats: v, ..self })@ == (OrderView { post_to_ats: optional_int(v), ..self@ }),
    {
    }

    /// Setting `post_to_ats` in the record sets it in its content.
    pub proof fn lemma_with_post_to_ats(self, v: Option<i32>)
        ensures
            (Order { post_to_ats: v, ..self })@ == self@.with_post_to_ats(optional_int(v)),
    {
        self.lemma_update_post_to_ats(v);
        self@.lemma_with_post_to_ats_is_update(optional_int(v));
    }

    /// This record with another value of `post_to_ats`.
    pub fn set_post_to_ats(self, v: Option<i32>) -> (r: Order)
        ensures
            r@ == self@.with_post_to_ats(optional_int(v)),
    {
        proof {
            self.lemma_with_post_to_ats(v);
        }
        Order { post_to_ats: v, ..self }
    }

    proof fn lemma_update_auto_cancel_parent(self, v: bool)
        ensures
            (Order { auto_cancel_parent: v, ..self })@ == (OrderView { auto_cancel_parent: v, ..self@ }),
    {
    }

    /// Setting `auto_cancel_parent` in the record sets it in its content.
    pub proof fn lemma_with_auto_cancel_parent(self, v: bool)
        ensures
            (Order { auto_cancel_parent: v, ..self })@ == self@.with_auto_cancel_parent(v),
    {
        self.lemma_update_auto_cancel_parent(v);
        self@.lemma_with_auto_cancel_parent_is_update(v);
    }

    /// This record with another value of `auto_cancel_parent`.
    pub fn set_auto_cancel_parent(self, v: bool) -> (r: Order)
        ensures
            r@ == self@.with_auto_cancel_parent(v),
    {
        proof {
            self.lemma_with_auto_cancel_parent(v);
        }
        Order { auto_cancel_parent: v, ..self }
    }

    proof fn lemma_update_min_trade_qty(self, v: Option<i32>)
        ensures
            (Order { min_trade_qty: v, ..self })@ == (OrderView { min_trade_qty: optional_int(v), ..self@ }),
    {
    }

    /// Setting `min_trade_qty` in the record sets it in its content.
    pub proof fn lemma_with_min_trade_qty(self, v: Option<i32>)
        ensures
            (Order { min_trade_qty: v, ..self })@ == self@.with_min_trade_qty(optional_int(v)),
    {
        self.lemma_update_min_trade_qty(v);
        self@.lemma_with_min_trade_qty_is_update(optional_int(v));
    }

    /// This record with another value of `min_trade_qty`.
    pub fn set_min_trade_qty(self, v: Option<i32>) -> (r: Order)
        ensures
            r@ == self@.with_min_trade_qty(optional_int(v)),
    {
        proof {
            self.lemma_with_min_trade_qty(v);
        }
        Order { min_trade_qty: v, ..self }
    }

    proof fn lemma_update_min_compete_size(self, v: Option<i32>)
        ensures
            (Order { min_compete_size: v, ..self })@ == (OrderView { min_compete_size: optional_int(v), ..self@ }),
    {
    }

    /// Setting `min_compete_size` in the record sets it in its content.
    pub proof fn lemma_with_min_compete_size(self, v: Option<i32>)
        ensures
            (Order { min_compete_size: v, ..self })@ == self@.with_min_compete_size(optional_int(v)),
    {
        self.lemma_update_min_compete_size(v);
        self@.lemma_with_min_compete_size_is_update(optional_int(v));
    }

    /// This record with another value of `min_compete_size`.
    pub fn set_min_compete_size(self, v: Option<i32>) -> (r: Order)
        ensures
            r@ == self@.with_min_compete_size(optional_int(v)),
    {
        proof {
            self.lemma_with_min_compete_size(v);
        }
        Order { min_compete_size: v, ..self }
    }

    proof fn lemma_update_compete_against_best_offset(self, v: Option<Decimal>)
        ensures
            (Order { compete_against_best_offset: v, ..self })@ == (OrderView { compete_against_best_offset: optional_view(v), ..self@ }),
    {
    }

    /// Setting `compete_against_best_offset` in the record sets it in its content.
    pub proof fn lemma_with_compete_against_best_offset(self, v: Option<Decimal>)
        ensures
            (Order { compete_against_best_offset: v, ..self })@ == self@.with_compete_against_best_offset(optional_view(v)),
    {
        self.lemma_update_compete_against_best_offset(v);
        self@.lemma_with_compete_against_best_offset_is_update(optional_view(v));
    }

    /// This record with another value of `compete_against_best_offset`.
    pub fn set_compete_against_best_offset(self, v: Option<Decimal>) -> (r: Order)
        ensures
            r@ == self@.with_compete_against_best_offset(optional_view(v)),
    {
        proof {
            self.lemma_with_compete_against_best_offset(v);
        }
        Order { compete_against_best_offset: v, ..self }
    }

    proof fn lemma_update_mid_offset_at_whole(self, v: Option<Decimal>)
        ensures
            (Order { mid_offset_at_whole: v, ..self })@ == (OrderView { mid_offset_at_whole: optional_view(v), ..self@ }),
    {
    }

    /// Setting `mid_offset_at_whole` in the record sets it in its content.
    pub proof fn lemma_with_mid_offset_at_whole(self, v: Option<Decimal>)
        ensures
            (Order { mid_offset_at_whole: v, ..self })@ == self@.with_mid_offset_at_whole(optional_view(v)),
    {
        self.lemma_update_mid_offset_at_whole(v);
        self@.lemma_with_mid_offset_at_whole_is_update(optional_view(v));
    }

    /// This record with another value of `mid_offset_at_whole`.
    pub fn set_mid_offset_at_whole(self, v: Option<Decimal>) -> (r: Order)
        ensures
            r@ == self@.with_mid_offset_at_whole(optional_view(v)),
    {
        proof {
            self.lemma_with_mid_offset_at_whole(v);
        }
        Order { mid_offset_at_whole: v, ..self }
    }

    proof fn lemma_update_mid_offset_at_half(self, v: Option<Decimal>)
        ensures
            (Order { mid_offset_at_half: v, ..self })@ == (OrderView { mid_offset_at_half: optional_view(v), ..self@ }),
    {
    }

    /// Setting `mid_offset_at_half` in the record sets it in its content.
    pub proof fn lemma_with_mid_offset_at_half(self, v: Option<Decimal>)
        ensures
            (Order { mid_offset_at_half: v, ..self })@ == self@.with_mid_offset_at_half(optional_view(v)),
    {
        self.lemma_update_mid_offset_at_half(v);
        self@.lemma_with_mid_offset_at_half_is_update(optional_view(v));
    }

    /// This record with another value of `mid_offset_at_half`.
    pub fn set_mid_offset_at_half(self, v: Option<Decimal>) -> (r: Order)
        ensures
            r@ == self@.with_mid_offset_at_half(optional_view(v)),
    {
        proof {
            self.lemma_with_mid_offset_at_half(v);
        }
        Order { mid_offset_at_half: v, ..self }
    }

    proof fn lemma_update_customer_account(self, v: String)
        ensures
            (Order { customer_account: v, ..self })@ == (OrderView { customer_account: v@, ..self@ }),
    {
    }

    /// Setting `customer_account` in the record sets it in its content.
    pub proof fn lemma_with_customer_account(self, v: String)
        ensures
            (Order { customer_account: v, ..self })@ == self@.with_customer_account(v@),
    {
        self.lemma_update_customer_account(v);
        self@.lemma_with_customer_account_is_update(v@);
    }

    /// This record with another value of `customer_account`.
    pub fn set_customer_account(self, v: String) -> (r: Order)
        ensures
            r@ == self@.with_customer_account(v@),
    {
        proof {
            self.lemma_with_customer_account(v);
        }
        Order { customer_account: v, ..self }
    }

    proof fn lemma_update_professional_customer(self, v: bool)
        ensures
            (Order { professional_customer: v, ..self })@ == (OrderView { professional_customer: v, ..self@ }),
    {
    }

    /// Setting `professional_customer` in the record sets it in its content.
    pub proof fn lemma_with_professional_customer(self, v: bool)
        ensures
            (Order { professional_customer: v, ..self })@ == self@.with_professional_customer(v),
    {
        self.lemma_update_professional_customer(v);
        self@.lemma_with_professional_customer_is_update(v);
    }

    /// This record with another value of `professional_customer`.
    pub fn set_professional_customer(self, v: bool) -> (r: Order)
        ensures
            r@ == self@.with_professional_customer(v),
    {
        proof {
            self.lemma_with_professional_customer(v);
        }
        Order { professional_customer: v, ..self }
    }

    proof fn lemma_update_bond_accrued_interest(self, v: String)
        ensures
            (Order { bond_accrued_interest: v, ..self })@ == (OrderView { bond_accrued_interest: v@, ..self@ }),
    {
    }

    /// Setting `bond_accrued_interest` in the record sets it in its content.
    pub proof fn lemma_with_bond_accrued_interest(self, v: String)
        ensures
            (Order { bond_accrued_interest: v, ..self })@ == self@.with_bond_accrued_interest(v@),
    {
        self.lemma_update_bond_accrued_interest(v);
        self@.lemma_with_bond_accrued_interest_is_update(v@);
    }

    /// This record with another value of `bond_accrued_interest`.
    pub fn set_bond_accrued_interest(self, v: String) -> (r: Order)
        ensures
            r@ == self@.with_bond_accrued_interest(v@),
    {
        proof {
            self.lemma_with_bond_accrued_interest(v);
        }
        Order { bond_accrued_interest: v, ..self }
    }

    proof fn lemma_update_include_overnight(self, v: bool)
        ensures
            (Order { include_overnight: v, ..self })@ == (OrderView { include_overnight: v, ..self@ }),
    {
    }

    /// Setting `include_overnight` in the record sets it in its content.
    pub proof fn lemma_with_include_overnight(self, v: bool)
        ensures
            (Order { include_overnight: v, ..self })@ == self@.with_include_overnight(v),
    {
        self.lemma_update_include_overnight(v);
        self@.lemma_with_include_overnight_is_update(v);
    }

    /// This record with another value of `include_overnight`.
    pub fn set_include_overnight(self, v: bool) -> (r: Order)
        ensures
            r@ == self@.with_include_overnight(v),
    {
        proof {
            self.lemma_with_include_overnight(v);
        }
        Order { include_overnight: v, ..self }
    }

    proof fn lemma_update_ext_operator(self, v: String)
        ensures
            (Order { ext_operator: v, ..self })@ == (OrderView { ext_operator: v@, ..self@ }),
    {
    }

    /// Setting `ext_operator` in the record sets it in its content.
    pub proof fn lemma_with_ext_operator(self, v: String)
        ensures
            (Order { ext_operator: v, ..self })@ == self@.with_ext_operator(v@),
    {
        self.lemma_update_ext_operator(v);
        self@.lemma_with_ext_operator_is_update(v@);
    }

    /// This record with another value of `ext_operator`.
    pub fn set_ext_operator(self, v: String) -> (r: Order)
        ensures
            r@ == self@.with_ext_operator(v@),
    {
        proof {
            self.lemma_with_ext_operator(v);
        }
        Order { ext_operator: v, ..self }
    }

    proof fn lemma_update_manual_order_indicator(self, v: Option<i32>)
        ensures
            (Order { manual_order_indicator: v, ..self })@ == (OrderView { manual_order_indicator: optional_int(v), ..self@ }),
    {
    }

    /// Setting `manual_order_indicator` in the record sets it in its content.
    pub proof fn lemma_with_manual_order_indicator(self, v: Option<i32>)
        ensures
            (Order { manual_order_indicator: v, ..self })@ == self@.with_manual_order_indicator(optional_int(v)),
    {
        self.lemma_update_manual_order_indicator(v);
        self@.lemma_with_manual_order_indicator_is_update(optional_int(v));
    }

    /// This record with another value of `manual_order_indicator`.
    pub fn set_manual_order_indicator(self, v: Option<i32>) -> (r: Order)
        ensures
            r@ == self@.with_manual_order_indicator(optional_int(v)),
    {
        proof {
            self.lemma_with_manual_order_indicator(v);
        }
        Order { manual_order_indicator: v, ..self }
    }

    proof fn lemma_update_submitter(self, v: String)
        ensures
            (Order { submitter: v, ..self })@ == (OrderView { submitter: v@, ..self@ }),
    {
    }

    /// Setting `submitter` in the record sets it in its content.
    pub proof fn lemma_with_submitter(self, v: String)
        ensures
            (Order { submitter: v, ..self })@ == self@.with_submitter(v@),
    {
        self.lemma_update_submitter(v);
        self@.lemma_with_submitter_is_update(v@);
    }

    /// This record with another value of `submitter`.
    pub fn set_submitter(self, v: String) -> (r: Order)
        ensures
            r@ == self@.with_submitter(v@),
    {
        proof {
            self.lemma_with_submitter(v);
        }
        Order { submitter: v, ..self }
    }

    proof fn lemma_update_imbalance_only(self, v: bool)
        ensures
            (Order { imbalance_only: v, ..self })@ == (OrderView { imbalance_only: v, ..self@ }),
    {
    }

    /// Setting `imbalance_only` in the record sets it in its content.
    pub proof fn lemma_with_imbalance_only(self, v: bool)
        ensures
            (Order { imbalance_only: v, ..self })@ == self@.with_imbalance_only(v),
    {
        self.lemma_update_imbalance_only(v);
        self@.lemma_with_imbalance_only_is_update(v);
    }

    /// This record with another value of `imbalance_only`.
    pub fn set_imbalance_only(self, v: bool) -> (r: Order)
        ensures
            r@ == self@.with_imbalance_only(v),
    {
        proof {
            self.lemma_with_imbalance_only(v);
        }
        Order { imbalance_only: v, ..self }
    }

    proof fn lemma_update_auto_cancel_date(self, v: String)
        ensures
            (Order { auto_cancel_date: v, ..self })@ == (OrderView { auto_cancel_date: v@, ..self@ }),
    {
    }

    /// Setting `auto_cancel_date` in the record sets it in its content.
    pub proof fn lemma_with_auto_cancel_date(self, v: String)
        ensures
            (Order { auto_cancel_date: v, ..self })@ == self@.with_auto_cancel_date(v@),
    {
        self.lemma_update_auto_cancel_date(v);
        self@.lemma_with_auto_cancel_date_is_update(v@);
    }

    /// This record with another value of `auto_cancel_date`.
    pub fn set_auto_cancel_date(self, v: String) -> (r: Order)
        ensures
            r@ == self@.with_auto_cancel_date(v@),
    {
        proof {
            self.lemma_with_auto_cancel_date(v);
        }
        Order { auto_cancel_date: v, ..self }
    }

    proof fn lemma_update_filled_quantity(self, v: Decimal)
        ensures
            (Order { filled_quantity: v, ..self })@ == (OrderView { filled_quantity: v@, ..self@ }),
    {
    }

    /// Setting `filled_quantity` in the record sets it in its content.
    pub proof fn lemma_with_filled_quantity(self, v: Decimal)
        ensures
            (Order { filled_quantity: v, ..self })@ == self@.with_filled_quantity(v@),
    {
        self.lemma_update_filled_quantity(v);
        self@.lemma_with_filled_quantity_is_update(v@);
    }

    /// This record with another value of `filled_quantity`.
    pub fn set_filled_quantity(self, v: Decimal) -> (r: Order)
        ensures
            r@ == self@.with_filled_quantity(v@),
    {
        proof {
            self.lemma_with_filled_quantity(v);
        }
        Order { filled_quantity: v, ..self }
    }

    proof fn lemma_update_ref_futures_con_id(self, v: Option<i32>)
        ensures
            (Order { ref_futures_con_id: v, ..self })@ == (OrderView { ref_futures_con_id: optional_int(v), ..self@ }),
    {
    }

    /// Setting `ref_futures_con_id` in the record sets it in its content.
    pub proof fn lemma_with_ref_futures_con_id(self, v: Option<i32>)
        ensures
            (Order { ref_futures_con_id: v, ..self })@ == self@.with_ref_futures_con_id(optional_int(v)),
    {
        self.lemma_update_ref_futures_con_id(v);
        self@.lemma_with_ref_futures_con_id_is_update(optional_int(v));
    }

    /// This record with another value of `ref_futures_con_id`.
    pub fn set_ref_futures_con_id(self, v: Option<i32>) -> (r: Order)
        ensures
            r@ == self@.with_ref_futures_con_id(optional_int(v)),
    {
        proof {
            self.lemma_with_ref_futures_con_id(v);
        }
        Order { ref_futures_con_id: v, ..self }
    }

    proof fn lemma_update_shareholder(self, v: String)
        ensures
            (Order { shareholder: v, ..self })@ == (OrderView { shareholder: v@, ..self@ }),
    {
    }

    /// Setting `shareholder` in the record sets it in its content.
    pub proof fn lemma_with_shareholder(self, v: String)
        ensures
            (Order { shareholder: v, ..self })@ == self@.with_shareholder(v@),
    {
        self.lemma_update_shareholder(v);
        self@.lemma_with_shareholder_is_update(v@);
    }

    /// This record with another value of `shareholder`.
    pub fn set_shareholder(self, v: String) -> (r: Order)
        ensures
            r@ == self@.with_shareholder(v@),
    {
        proof {
            self.lemma_with_shareholder(v);
        }
        Order { shareholder: v, ..self }
    }

    proof fn lemma_update_route_marketable_to_bbo(self, v: bool)
        ensures
            (Order { route_marketable_to_bbo: v, ..self })@ == (OrderView { route_marketable_to_bbo: v, ..self@ }),
    {
    }

    /// Setting `route_marketable_to_bbo` in the record sets it in its content.
    pub proof fn lemma_with_route_marketable_to_bbo(self, v: bool)
        ensures
            (Order { route_marketable_to_bbo: v, ..self })@ == self@.with_route_marketable_to_bbo(v),
    {
        self.lemma_update_route_marketable_to_bbo(v);
        self@.lemma_with_route_marketable_to_bbo_is_update(v);
    }

    /// This record with another value of `route_marketable_to_bbo`.
    pub fn set_route_marketable_to_bbo(self, v: bool) -> (r: Order)
        ensures
            r@ == self@.with_route_marketable_to_bbo(v),
    {
        proof {
            self.lemma_with_route_marketable_to_bbo(v);
        }
        Order { route_marketable_to_bbo: v, ..self }
    }

    proof fn lemma_update_parent_perm_id(self, v: Option<i64>)
        ensures
            (Order { parent_perm_id: v, ..self })@ == (OrderView { parent_perm_id: optional_long(v), ..self@ }),
    {
    }

    /// Setting `parent_perm_id` in the record sets it in its content.
    pub proof fn lemma_with_parent_perm_id(self, v: Option<i64>)
        ensures
            (Order { parent_perm_id: v, ..self })@ == self@.with_parent_perm_id(optional_long(v)),
    {
        self.lemma_update_parent_perm_id(v);
        self@.lemma_with_parent_perm_id_is_update(optional_long(v));
    }

    /// This record with another value of `parent_perm_id`.
    pub fn set_parent_perm_id(self, v: Option<i64>) -> (r: Order)
        ensures
            r@ == self@.with_parent_perm_id(optional_long(v)),
    {
        proof {
            self.lemma_with_parent_perm_id(v);
        }
        Order { parent_perm_id: v, ..self }
    }
}

/// The state of an order: its status, margins and commission.
#[derive(Clone, Debug, PartialEq)]
pub struct OrderState {
    /// Status of the order.
    pub status: String,
    /// Initial margin before the order.
    pub initial_margin_before: Option<Decimal>,
    /// Maintenance margin before the order.
    pub maintenance_margin_before: Option<Decimal>,
    /// Equity with loan before the order.
    pub equity_with_loan_before: Option<Decimal>,
    /// Change of the initial margin.
    pub initial_margin_change: Option<Decimal>,
    /// Change of the maintenance margin.
    pub maintenance_margin_change: Option<Decimal>,
    /// Change of the equity with loan.
    pub equity_with_loan_change: Option<Decimal>,
    /// Initial margin after the order.
    pub initial_margin_after: Option<Decimal>,
    /// Maintenance margin after the order.
    pub maintenance_margin_after: Option<Decimal>,
    /// Equity with loan after the order.
    pub equity_with_loan_after: Option<Decimal>,
    /// Commission of the order.
    pub commission: Option<Decimal>,
    /// Least commission that may be charged.
    pub minimum_commission: Option<Decimal>,
    /// Most commission that may be charged.
    pub maximum_commission: Option<Decimal>,
    /// Currency of the commission.
    pub commission_currency: String,
    /// Currency of the margins.
    pub margin_currency: String,
    /// Initial margin before the order, outside regular hours.
    pub initial_margin_before_outside_rth: Option<Decimal>,
    /// Maintenance margin before the order, outside regular hours.
    pub maintenance_margin_before_outside_rth: Option<Decimal>,
    /// Equity with loan before the order, outside regular hours.
    pub equity_with_loan_before_outside_rth: Option<Decimal>,
    /// Change of the initial margin, outside regular hours.
    pub initial_margin_change_outside_rth: Option<Decimal>,
    /// Change of the maintenance margin, outside regular hours.
    pub maintenance_margin_change_outside_rth: Option<Decimal>,
    /// Change of the equity with loan, outside regular hours.
    pub equity_with_loan_change_outside_rth: Option<Decimal>,
    /// Initial margin after the order, outside regular hours.
    pub initial_margin_after_outside_rth: Option<Decimal>,
    /// Maintenance margin after the order, outside regular hours.
    pub maintenance_margin_after_outside_rth: Option<Decimal>,
    /// Equity with loan after the order, outside regular hours.
    pub equity_with_loan_after_outside_rth: Option<Decimal>,
    /// Size that the preview suggests.
    pub suggested_size: Option<Decimal>,
    /// Why the preview was rejected.
    pub reject_reason: String,
    /// Allocations of the order to accounts.
    pub order_allocations: Vec<OrderAllocation>,
    /// Warning that came with the order.
    pub warning_text: String,
    /// When the order was completed.
    pub completed_time: String,
    /// How the order was completed.
    pub completed_status: String,
}

/// The mathematical content of [`OrderState`].
pub struct OrderStateView {
    pub status: Seq<char>,
    pub initial_margin_before: Option<Seq<char>>,
    pub maintenance_margin_before: Option<Seq<char>>,
    pub equity_with_loan_before: Option<Seq<char>>,
    pub initial_margin_change: Option<Seq<char>>,
    pub maintenance_margin_change: Option<Seq<char>>,
    pub equity_with_loan_change: Option<Seq<char>>,
    pub initial_margin_after: Option<Seq<char>>,
    pub maintenance_margin_after: Option<Seq<char>>,
    pub equity_with_loan_after: Option<Seq<char>>,
    pub commission: Option<Seq<char>>,
    pub minimum_commission: Option<Seq<char>>,
    pub maximum_commission: Option<Seq<char>>,
    pub commission_currency: Seq<char>,
    pub margin_currency: Seq<char>,
    pub initial_margin_before_outside_rth: Option<Seq<char>>,
    pub maintenance_margin_before_outside_rth: Option<Seq<char>>,
    pub equity_with_loan_before_outside_rth: Option<Seq<char>>,
    pub initial_margin_change_outside_rth: Option<Seq<char>>,
    pub maintenance_margin_change_outside_rth: Option<Seq<char>>,
    pub equity_with_loan_change_outside_rth: Option<Seq<char>>,
    pub initial_margin_after_outside_rth: Option<Seq<char>>,
    pub maintenance_margin_after_outside_rth: Option<Seq<char>>,
    pub equity_with_loan_after_outside_rth: Option<Seq<char>>,
    pub suggested_size: Option<Seq<char>>,
    pub reject_reason: Seq<char>,
    pub order_allocations: Seq<OrderAllocationView>,
    pub warning_text: Seq<char>,
    pub completed_time: Seq<char>,
    pub completed_status: Seq<char>,
}

impl View for OrderState {
    type V = OrderStateView;

    closed spec fn view(&self) -> OrderStateView {
        OrderStateView {
            status: self.status@,
            initial_margin_before: optional_view(self.initial_margin_before),
            maintenance_margin_before: optional_view(self.maintenance_margin_before),
            equity_with_loan_before: optional_view(self.equity_with_loan_before),
            initial_margin_change: optional_view(self.initial_margin_change),
            maintenance_margin_change: optional_view(self.maintenance_margin_change),
            equity_with_loan_change: optional_view(self.equity_with_loan_change),
            initial_margin_after: optional_view(self.initial_margin_after),
            maintenance_margin_after: optional_view(self.maintenance_margin_after),
            equity_with_loan_after: optional_view(self.equity_with_loan_after),
            commission: optional_view(self.commission),
            minimum_commission: optional_view(self.minimum_commission),
            maximum_commission: optional_view(self.maximum_commission),
            commission_currency: self.commission_currency@,
            margin_currency: self.margin_currency@,
            initial_margin_before_outside_rth: optional_view(self.initial_margin_before_outside_rth),
            maintenance_margin_before_outside_rth: optional_view(self.maintenance_margin_before_outside_rth),
            equity_with_loan_before_outside_rth: optional_view(self.equity_with_loan_before_outside_rth),
            initial_margin_change_outside_rth: optional_view(self.initial_margin_change_outside_rth),
            maintenance_margin_change_outside_rth: optional_view(self.maintenance_margin_change_outside_rth),
            equity_with_loan_change_outside_rth: optional_view(self.equity_with_loan_change_outside_rth),
            initial_margin_after_outside_rth: optional_view(self.initial_margin_after_outside_rth),
            maintenance_margin_after_outside_rth: optional_view(self.maintenance_margin_after_outside_rth),
            equity_with_loan_after_outside_rth: optional_view(self.equity_with_loan_after_outside_rth),
            suggested_size: optional_view(self.suggested_size),
            reject_reason: self.reject_reason@,
            order_allocations: views_of(self.order_allocations@),
            warning_text: self.warning_text@,
            completed_time: self.completed_time@,
            completed_status: self.completed_status@,
        }
    }
}

impl OrderStateView {
    /// The record before anything was read into it.
    pub open spec fn initial() -> OrderStateView {
        OrderStateView {
            status: Seq::<char>::empty(),
            initial_margin_before: None,
            maintenance_margin_before: None,
            equity_with_loan_before: None,
            initial_margin_change: None,
            maintenance_margin_change: None,
            equity_with_loan_change: None,
            initial_margin_after: None,
            maintenance_margin_after: None,
            equity_with_loan_after: None,
            commission: None,
            minimum_commission: None,
            maximum_commission: None,
            commission_currency: Seq::<char>::empty(),
            margin_currency: Seq::<char>::empty(),
            initial_margin_before_outside_rth: None,
            maintenance_margin_before_outside_rth: None,
            equity_with_loan_before_outside_rth: None,
            initial_margin_change_outside_rth: None,
            maintenance_margin_change_outside_rth: None,
            equity_with_loan_change_outside_rth: None,
            initial_margin_after_outside_rth: None,
            maintenance_margin_after_outside_rth: None,
            equity_with_loan_after_outside_rth: None,
            suggested_size: None,
            reject_reason: Seq::<char>::empty(),
            order_allocations: Seq::<OrderAllocationView>::empty(),
            warning_text: Seq::<char>::empty(),
            completed_time: Seq::<char>::empty(),
            completed_status: Seq::<char>::empty(),
        }
    }

    /// This record with another value of `status`.
    #[verifier::opaque]
    pub open spec fn with_status(self, v: Seq<char>) -> OrderStateView {
        OrderStateView { status: v, ..self }
    }

    /// This record with another value of `initial_margin_before`.
    #[verifier::opaque]
    pub open spec fn with_initial_margin_before(self, v: Option<Seq<char>>) -> OrderStateView {
        OrderStateView { initial_margin_before: v, ..self }
    }

    /// This record with another value of `maintenance_margin_before`.
    #[verifier::opaque]
    pub open spec fn with_maintenance_margin_before(self, v: Option<Seq<char>>) -> OrderStateView {
        OrderStateView { maintenance_margin_before: v, ..self }
    }

    /// This record with another value of `equity_with_loan_before`.
    #[verifier::opaque]
    pub open spec fn with_equity_with_loan_before(self, v: Option<Seq<char>>) -> OrderStateView {
        OrderStateView { equity_with_loan_before: v, ..self }
    }

    /// This record with another value of `initial_margin_change`.
    #[verifier::opaque]
    pub open spec fn with_initial_margin_change(self, v: Option<Seq<char>>) -> OrderStateView {
        OrderStateView { initial_margin_change: v, ..self }
    }

    /// This record with another value of `maintenance_margin_change`.
    #[verifier::opaque]
    pub open spec fn with_maintenance_margin_change(self, v: Option<Seq<char>>) -> OrderStateView {
        OrderStateView { maintenance_margin_change: v, ..self }
    }

    /// This record with another value of `equity_with_loan_change`.
    #[verifier::opaque]
    pub open spec fn with_equity_with_loan_change(self, v: Option<Seq<char>>) -> OrderStateView {
        OrderStateView { equity_with_loan_change: v, ..self }
    }

    /// This record with another value of `initial_margin_after`.
    #[verifier::opaque]
    pub open spec fn with_initial_margin_after(self, v: Option<Seq<char>>) -> OrderStateView {
        OrderStateView { initial_margin_after: v, ..self }
    }

    /// This record with another value of `maintenance_margin_after`.
    #[verifier::opaque]
    pub open spec fn with_maintenance_margin_after(self, v: Option<Seq<char>>) -> OrderStateView {
        OrderStateView { maintenance_margin_after: v, ..self }
    }

    /// This record with another value of `equity_with_loan_after`.
    #[verifier::opaque]
    pub open spec fn with_equity_with_loan_after(self, v: Option<Seq<char>>) -> OrderStateView {
        OrderStateView { equity_with_loan_after: v, ..self }
    }

    /// This record with another value of `commission`.
    #[verifier::opaque]
    pub open spec fn with_commission(self, v: Option<Seq<char>>) -> OrderStateView {
        OrderStateView { commission: v, ..self }
    }

    /// This record with another value of `minimum_commission`.
    #[verifier::opaque]
    pub open spec fn with_minimum_commission(self, v: Option<Seq<char>>) -> OrderStateView {
        OrderStateView { minimum_commission: v, ..self }
    }

    /// This record with another value of `maximum_commission`.
    #[verifier::opaque]
    pub open spec fn with_maximum_commission(self, v: Option<Seq<char>>) -> OrderStateView {
        OrderStateView { maximum_commission: v, ..self }
    }

    /// This record with another value of `commission_currency`.
    #[verifier::opaque]
    pub open spec fn with_commission_currency(self, v: Seq<char>) -> OrderStateView {
        OrderStateView { commission_currency: v, ..self }
    }

    /// This record with another value of `margin_currency`.
    #[verifier::opaque]
    pub open spec fn with_margin_currency(self, v: Seq<char>) -> OrderStateView {
        OrderStateView { margin_currency: v, ..self }
    }

    /// This record with another value of `initial_margin_before_outside_rth`.
    #[verifier::opaque]
    pub open spec fn with_initial_margin_before_outside_rth(self, v: Option<Seq<char>>) -> OrderStateView {
        OrderStateView { initial_margin_before_outside_rth: v, ..self }
    }

    /// This record with another value of `maintenance_margin_before_outside_rth`.
    #[verifier::opaque]
    pub open spec fn with_maintenance_margin_before_outside_rth(self, v: Option<Seq<char>>) -> OrderStateView {
        OrderStateView { maintenance_margin_before_outside_rth: v, ..self }
    }

    /// This record with another value of `equity_with_loan_before_outside_rth`.
    #[verifier::opaque]
    pub open spec fn with_equity_with_loan_before_outside_rth(self, v: Option<Seq<char>>) -> OrderStateView {
        OrderStateView { equity_with_loan_before_outside_rth: v, ..self }
    }

    /// This record with another value of `initial_margin_change_outside_rth`.
    #[verifier::opaque]
    pub open spec fn with_initial_margin_change_outside_rth(self, v: Option<Seq<char>>) -> OrderStateView {
        OrderStateView { initial_margin_change_outside_rth: v, ..self }
    }

    /// This record with another value of `maintenance_margin_change_outside_rth`.
    #[verifier::opaque]
    pub open spec fn with_maintenance_margin_change_outside_rth(self, v: Option<Seq<char>>) -> OrderStateView {
        OrderStateView { maintenance_margin_change_outside_rth: v, ..self }
    }

    /// This record with another value of `equity_with_loan_change_outside_rth`.
    #[verifier::opaque]
    pub open spec fn with_equity_with_loan_change_outside_rth(self, v: Option<Seq<char>>) -> OrderStateView {
        OrderStateView { equity_with_loan_change_outside_rth: v, ..self }
    }

    /// This record with another value of `initial_margin_after_outside_rth`.
    #[verifier::opaque]
    pub open spec fn with_initial_margin_after_outside_rth(self, v: Option<Seq<char>>) -> OrderStateView {
        OrderStateView { initial_margin_after_outside_rth: v, ..self }
    }

    /// This record with another value of `maintenance_margin_after_outside_rth`.
    #[verifier::opaque]
    pub open spec fn with_maintenance_margin_after_outside_rth(self, v: Option<Seq<char>>) -> OrderStateView {
        OrderStateView { maintenance_margin_after_outside_rth: v, ..self }
    }

    /// This record with another value of `equity_with_loan_after_outside_rth`.
    #[verifier::opaque]
    pub open spec fn with_equity_with_loan_after_outside_rth(self, v: Option<Seq<char>>) -> OrderStateView {
        OrderStateView { equity_with_loan_after_outside_rth: v, ..self }
    }

    /// This record with another value of `suggested_size`.
    #[verifier::opaque]
    pub open spec fn with_suggested_size(self, v: Option<Seq<char>>) -> OrderStateView {
        OrderStateView { suggested_size: v, ..self }
    }

    /// This record with another value of `reject_reason`.
    #[verifier::opaque]
    pub open spec fn with_reject_reason(self, v: Seq<char>) -> OrderStateView {
        OrderStateView { reject_reason: v, ..self }
    }

    /// This record with another value of `order_allocations`.
    #[verifier::opaque]
    pub open spec fn with_order_allocations(self, v: Seq<OrderAllocationView>) -> OrderStateView {
        OrderStateView { order_allocations: v, ..self }
    }

    /// This record with another value of `warning_text`.
    #[verifier::opaque]
    pub open spec fn with_warning_text(self, v: Seq<char>) -> OrderStateView {
        OrderStateView { warning_text: v, ..self }
    }

    /// This record with another value of `completed_time`.
    #[verifier::opaque]
    pub open spec fn with_completed_time(self, v: Seq<char>) -> OrderStateView {
        OrderStateView { completed_time: v, ..self }
    }

    /// This record with another value of `completed_status`.
    #[verifier::opaque]
    pub open spec fn with_completed_status(self, v: Seq<char>) -> OrderStateView {
        OrderStateView { completed_status: v, ..self }
    }

    proof fn lemma_with_status_is_update(self, v: Seq<char>)
        ensures
            self.with_status(v) == (OrderStateView { status: v, ..self }),
    {
        reveal(OrderStateView::with_status);
    }

    proof fn lemma_with_initial_margin_before_is_update(self, v: Option<Seq<char>>)
        ensures
            self.with_initial_margin_before(v) == (OrderStateView { initial_margin_before: v, ..self }),
    {
        reveal(OrderStateView::with_initial_margin_before);
    }

    proof fn lemma_with_maintenance_margin_before_is_update(self, v: Option<Seq<char>>)
        ensures
            self.with_maintenance_margin_before(v) == (OrderStateView { maintenance_margin_before: v, ..self }),
    {
        reveal(OrderStateView::with_maintenance_margin_before);
    }

    proof fn lemma_with_equity_with_loan_before_is_update(self, v: Option<Seq<char>>)
        ensures
            self.with_equity_with_loan_before(v) == (OrderStateView { equity_with_loan_before: v, ..self }),
    {
        reveal(OrderStateView::with_equity_with_loan_before);
    }

    proof fn lemma_with_initial_margin_change_is_update(self, v: Option<Seq<char>>)
        ensures
            self.with_initial_margin_change(v) == (OrderStateView { initial_margin_change: v, ..self }),
    {
        reveal(OrderStateView::with_initial_margin_change);
    }

    proof fn lemma_with_maintenance_margin_change_is_update(self, v: Option<Seq<char>>)
        ensures
            self.with_maintenance_margin_change(v) == (OrderStateView { maintenance_margin_change: v, ..self }),
    {
        reveal(OrderStateView::with_maintenance_margin_change);
    }

    proof fn lemma_with_equity_with_loan_change_is_update(self, v: Option<Seq<char>>)
        ensures
            self.with_equity_with_loan_change(v) == (OrderStateView { equity_with_loan_change: v, ..self }),
    {
        reveal(OrderStateView::with_equity_with_loan_change);
    }

    proof fn lemma_with_initial_margin_after_is_update(self, v: Option<Seq<char>>)
        ensures
            self.with_initial_margin_after(v) == (OrderStateView { initial_margin_after: v, ..self }),
    {
        reveal(OrderStateView::with_initial_margin_after);
    }

    proof fn lemma_with_maintenance_margin_after_is_update(self, v: Option<Seq<char>>)
        ensures
            self.with_maintenance_margin_after(v) == (OrderStateView { maintenance_margin_after: v, ..self }),
    {
        reveal(OrderStateView::with_maintenance_margin_after);
    }

    proof fn lemma_with_equity_with_loan_after_is_update(self, v: Option<Seq<char>>)
        ensures
            self.with_equity_with_loan_after(v) == (OrderStateView { equity_with_loan_after: v, ..self }),
    {
        reveal(OrderStateView::with_equity_with_loan_after);
    }

    proof fn lemma_with_commission_is_update(self, v: Option<Seq<char>>)
        ensures
            self.with_commission(v) == (OrderStateView { commission: v, ..self }),
    {
        reveal(OrderStateView::with_commission);
    }

    proof fn lemma_with_minimum_commission_is_update(self, v: Option<Seq<char>>)
        ensures
            self.with_minimum_commission(v) == (OrderStateView { minimum_commission: v, ..self }),
    {
        reveal(OrderStateView::with_minimum_commission);
    }

    proof fn lemma_with_maximum_commission_is_update(self, v: Option<Seq<char>>)
        ensures
            self.with_maximum_commission(v) == (OrderStateView { maximum_commission: v, ..self }),
    {
        reveal(OrderStateView::with_maximum_commission);
    }

    proof fn lemma_with_commission_currency_is_update(self, v: Seq<char>)
        ensures
            self.with_commission_currency(v) == (OrderStateView { commission_currency: v, ..self }),
    {
        reveal(OrderStateView::with_commission_currency);
    }

    proof fn lemma_with_margin_currency_is_update(self, v: Seq<char>)
        ensures
            self.with_margin_currency(v) == (OrderStateView { margin_currency: v, ..self }),
    {
        reveal(OrderStateView::with_margin_currency);
    }

    proof fn lemma_with_initial_margin_before_outside_rth_is_update(self, v: Option<Seq<char>>)
        ensures
            self.with_initial_margin_before_outside_rth(v) == (OrderStateView { initial_margin_before_outside_rth: v, ..self }),
    {
        reveal(OrderStateView::with_initial_margin_before_outside_rth);
    }

    proof fn lemma_with_maintenance_margin_before_outside_rth_is_update(self, v: Option<Seq<char>>)
        ensures
            self.with_maintenance_margin_before_outside_rth(v) == (OrderStateView { maintenance_margin_before_outside_rth: v, ..self }),
    {
        reveal(OrderStateView::with_maintenance_margin_before_outside_rth);
    }

    proof fn lemma_with_equity_with_loan_before_outside_rth_is_update(self, v: Option<Seq<char>>)
        ensures
            self.with_equity_with_loan_before_outside_rth(v) == (OrderStateView { equity_with_loan_before_outside_rth: v, ..self }),
    {
        reveal(OrderStateView::with_equity_with_loan_before_outside_rth);
    }

    proof fn lemma_with_initial_margin_change_outside_rth_is_update(self, v: Option<Seq<char>>)
        ensures
            self.with_initial_margin_change_outside_rth(v) == (OrderStateView { initial_margin_change_outside_rth: v, ..self }),
    {
        reveal(OrderStateView::with_initial_margin_change_outside_rth);
    }

    proof fn lemma_with_maintenance_margin_change_outside_rth_is_update(self, v: Option<Seq<char>>)
        ensures
            self.with_maintenance_margin_change_outside_rth(v) == (OrderStateView { maintenance_margin_change_outside_rth: v, ..self }),
    {
        reveal(OrderStateView::with_maintenance_margin_change_outside_rth);
    }

    proof fn lemma_with_equity_with_loan_change_outside_rth_is_update(self, v: Option<Seq<char>>)
        ensures
            self.with_equity_with_loan_change_outside_rth(v) == (OrderStateView { equity_with_loan_change_outside_rth: v, ..self }),
    {
        reveal(OrderStateView::with_equity_with_loan_change_outside_rth);
    }

    proof fn lemma_with_initial_margin_after_outside_rth_is_update(self, v: Option<Seq<char>>)
        ensures
            self.with_initial_margin_after_outside_rth(v) == (OrderStateView { initial_margin_after_outside_rth: v, ..self }),
    {
        reveal(OrderStateView::with_initial_margin_after_outside_rth);
    }

    proof fn lemma_with_maintenance_margin_after_outside_rth_is_update(self, v: Option<Seq<char>>)
        ensures
            self.with_maintenance_margin_after_outside_rth(v) == (OrderStateView { maintenance_margin_after_outside_rth: v, ..self }),
    {
        reveal(OrderStateView::with_maintenance_margin_after_outside_rth);
    }

    proof fn lemma_with_equity_with_loan_after_outside_rth_is_update(self, v: Option<Seq<char>>)
        ensures
            self.with_equity_with_loan_after_outside_rth(v) == (OrderStateView { equity_with_loan_after_outside_rth: v, ..self }),
    {
        reveal(OrderStateView::with_equity_with_loan_after_outside_rth);
    }

    proof fn lemma_with_suggested_size_is_update(self, v: Option<Seq<char>>)
        ensures
            self.with_suggested_size(v) == (OrderStateView { suggested_size: v, ..self }),
    {
        reveal(OrderStateView::with_suggested_size);
    }

    proof fn lemma_with_reject_reason_is_update(self, v: Seq<char>)
        ensures
            self.with_reject_reason(v) == (OrderStateView { reject_reason: v, ..self }),
    {
        reveal(OrderStateView::with_reject_reason);
    }

    proof fn lemma_with_order_allocations_is_update(self, v: Seq<OrderAllocationView>)
        ensures
            self.with_order_allocations(v) == (OrderStateView { order_allocations: v, ..self }),
    {
        reveal(OrderStateView::with_order_allocations);
    }

    proof fn lemma_with_warning_text_is_update(self, v: Seq<char>)
        ensures
            self.with_warning_text(v) == (OrderStateView { warning_text: v, ..self }),
    {
        reveal(OrderStateView::with_warning_text);
    }

    proof fn lemma_with_completed_time_is_update(self, v: Seq<char>)
        ensures
            self.with_completed_time(v) == (OrderStateView { completed_time: v, ..self }),
    {
        reveal(OrderStateView::with_completed_time);
    }

    proof fn lemma_with_completed_status_is_update(self, v: Seq<char>)
        ensures
            self.with_completed_status(v) == (OrderStateView { completed_status: v, ..self }),
    {
        reveal(OrderStateView::with_completed_status);
    }
}

impl Default for OrderState {
    fn default() -> (r: OrderState)
        ensures
            r@ == OrderStateView::initial(),
    {
        let r = OrderState {
            status: String::new(),
            initial_margin_before: None,
            maintenance_margin_before: None,
            equity_with_loan_before: None,
            initial_margin_change: None,
            maintenance_margin_change: None,
            equity_with_loan_change: None,
            initial_margin_after: None,
            maintenance_margin_after: None,
            equity_with_loan_after: None,
            commission: None,
            minimum_commission: None,
            maximum_commission: None,
            commission_currency: String::new(),
            margin_currency: String::new(),
            initial_margin_before_outside_rth: None,
            maintenance_margin_before_outside_rth: None,
            equity_with_loan_before_outside_rth: None,
            initial_margin_change_outside_rth: None,
            maintenance_margin_change_outside_rth: None,
            equity_with_loan_change_outside_rth: None,
            initial_margin_after_outside_rth: None,
            maintenance_margin_after_outside_rth: None,
            equity_with_loan_after_outside_rth: None,
            suggested_size: None,
            reject_reason: String::new(),
            order_allocations: Vec::new(),
            warning_text: String::new(),
            completed_time: String::new(),
            completed_status: String::new(),
        };
        assert(views_of(r.order_allocations@) == Seq::<OrderAllocationView>::empty());
        r
    }
}

impl OrderState {
    proof fn lemma_update_status(self, v: String)
        ensures
            (OrderState { status: v, ..self })@ == (OrderStateView { status: v@, ..self@ }),
    {
    }

    /// Setting `status` in the record sets it in its content.
    pub proof fn lemma_with_status(self, v: String)
        ensures
            (OrderState { status: v, ..self })@ == self@.with_status(v@),
    {
        self.lemma_update_status(v);
        self@.lemma_with_status_is_update(v@);
    }

    /// This record with another value of `status`.
    pub fn set_status(self, v: String) -> (r: OrderState)
        ensures
            r@ == self@.with_status(v@),
    {
        proof {
            self.lemma_with_status(v);
        }
        OrderState { status: v, ..self }
    }

    proof fn lemma_update_initial_margin_before(self, v: Option<Decimal>)
        ensures
            (OrderState { initial_margin_before: v, ..self })@ == (OrderStateView { initial_margin_before: optional_view(v), ..self@ }),
    {
    }

    /// Setting `initial_margin_before` in the record sets it in its content.
    pub proof fn lemma_with_initial_margin_before(self, v: Option<Decimal>)
        ensures
            (OrderState { initial_margin_before: v, ..self })@ == self@.with_initial_margin_before(optional_view(v)),
    {
        self.lemma_update_initial_margin_before(v);
        self@.lemma_with_initial_margin_before_is_update(optional_view(v));
    }

    /// This record with another value of `initial_margin_before`.
    pub fn set_initial_margin_before(self, v: Option<Decimal>) -> (r: OrderState)
        ensures
            r@ == self@.with_initial_margin_before(optional_view(v)),
    {
        proof {
            self.lemma_with_initial_margin_before(v);
        }
        OrderState { initial_margin_before: v, ..self }
    }

    proof fn lemma_update_maintenance_margin_before(self, v: Option<Decimal>)
        ensures
            (OrderState { maintenance_margin_before: v, ..self })@ == (OrderStateView { maintenance_margin_before: optional_view(v), ..self@ }),
    {
    }

    /// Setting `maintenance_margin_before` in the record sets it in its content.
    pub proof fn lemma_with_maintenance_margin_before(self, v: Option<Decimal>)
        ensures
            (OrderState { maintenance_margin_before: v, ..self })@ == self@.with_maintenance_margin_before(optional_view(v)),
    {
        self.lemma_update_maintenance_margin_before(v);
        self@.lemma_with_maintenance_margin_before_is_update(optional_view(v));
    }

    /// This record with another value of `maintenance_margin_before`.
    pub fn set_maintenance_margin_before(self, v: Option<Decimal>) -> (r: OrderState)
        ensures
            r@ == self@.with_maintenance_margin_before(optional_view(v)),
    {
        proof {
            self.lemma_with_maintenance_margin_before(v);
        }
        OrderState { maintenance_margin_before: v, ..self }
    }

    proof fn lemma_update_equity_with_loan_before(self, v: Option<Decimal>)
        ensures
            (OrderState { equity_with_loan_before: v, ..self })@ == (OrderStateView { equity_with_loan_before: optional_view(v), ..self@ }),
    {
    }

    /// Setting `equity_with_loan_before` in the record sets it in its content.
    pub proof fn lemma_with_equity_with_loan_before(self, v: Option<Decimal>)
        ensures
            (OrderState { equity_with_loan_before: v, ..self })@ == self@.with_equity_with_loan_before(optional_view(v)),
    {
        self.lemma_update_equity_with_loan_before(v);
        self@.lemma_with_equity_with_loan_before_is_update(optional_view(v));
    }

    /// This record with another value of `equity_with_loan_before`.
    pub fn set_equity_with_loan_before(self, v: Option<Decimal>) -> (r: OrderState)
        ensures
            r@ == self@.with_equity_with_loan_before(optional_view(v)),
    {
        proof {
            self.lemma_with_equity_with_loan_before(v);
        }
        OrderState { equity_with_loan_before: v, ..self }
    }

    proof fn lemma_update_initial_margin_change(self, v: Option<Decimal>)
        ensures
            (OrderState { initial_margin_change: v, ..self })@ == (OrderStateView { initial_margin_change: optional_view(v), ..self@ }),
    {
    }

    /// Setting `initial_margin_change` in the record sets it in its content.
    pub proof fn lemma_with_initial_margin_change(self, v: Option<Decimal>)
        ensures
            (OrderState { initial_margin_change: v, ..self })@ == self@.with_initial_margin_change(optional_view(v)),
    {
        self.lemma_update_initial_margin_change(v);
        self@.lemma_with_initial_margin_change_is_update(optional_view(v));
    }

    /// This record with another value of `initial_margin_change`.
    pub fn set_initial_margin_change(self, v: Option<Decimal>) -> (r: OrderState)
        ensures
            r@ == self@.with_initial_margin_change(optional_view(v)),
    {
        proof {
            self.lemma_with_initial_margin_change(v);
        }
        OrderState { initial_margin_change: v, ..self }
    }

    proof fn lemma_update_maintenance_margin_change(self, v: Option<Decimal>)
        ensures
            (OrderState { maintenance_margin_change: v, ..self })@ == (OrderStateView { maintenance_margin_change: optional_view(v), ..self@ }),
    {
    }

    /// Setting `maintenance_margin_change` in the record sets it in its content.
    pub proof fn lemma_with_maintenance_margin_change(self, v: Option<Decimal>)
        ensures
            (OrderState { maintenance_margin_change: v, ..self })@ == self@.with_maintenance_margin_change(optional_view(v)),
    {
        self.lemma_update_maintenance_margin_change(v);
        self@.lemma_with_maintenance_margin_change_is_update(optional_view(v));
    }

    /// This record with another value of `maintenance_margin_change`.
    pub fn set_maintenance_margin_change(self, v: Option<Decimal>) -> (r: OrderState)
        ensures
            r@ == self@.with_maintenance_margin_change(optional_view(v)),
    {
        proof {
            self.lemma_with_maintenance_margin_change(v);
        }
        OrderState { maintenance_margin_change: v, ..self }
    }

    proof fn lemma_update_equity_with_loan_change(self, v: Option<Decimal>)
        ensures
            (OrderState { equity_with_loan_change: v, ..self })@ == (OrderStateView { equity_with_loan_change: optional_view(v), ..self@ }),
    {
    }

    /// Setting `equity_with_loan_change` in the record sets it in its content.
    pub proof fn lemma_with_equity_with_loan_change(self, v: Option<Decimal>)
        ensures
            (OrderState { equity_with_loan_change: v, ..self })@ == self@.with_equity_with_loan_change(optional_view(v)),
    {
        self.lemma_update_equity_with_loan_change(v);
        self@.lemma_with_equity_with_loan_change_is_update(optional_view(v));
    }

    /// This record with another value of `equity_with_loan_change`.
    pub fn set_equity_with_loan_change(self, v: Option<Decimal>) -> (r: OrderState)
        ensures
            r@ == self@.with_equity_with_loan_change(optional_view(v)),
    {
        proof {
            self.lemma_with_equity_with_loan_change(v);
        }
        OrderState { equity_with_loan_change: v, ..self }
    }

    proof fn lemma_update_initial_margin_after(self, v: Option<Decimal>)
        ensures
            (OrderState { initial_margin_after: v, ..self })@ == (OrderStateView { initial_margin_after: optional_view(v), ..self@ }),
    {
    }

    /// Setting `initial_margin_after` in the record sets it in its content.
    pub proof fn lemma_with_initial_margin_after(self, v: Option<Decimal>)
        ensures
            (OrderState { initial_margin_after: v, ..self })@ == self@.with_initial_margin_after(optional_view(v)),
    {
        self.lemma_update_initial_margin_after(v);
        self@.lemma_with_initial_margin_after_is_update(optional_view(v));
    }

    /// This record with another value of `initial_margin_after`.
    pub fn set_initial_margin_after(self, v: Option<Decimal>) -> (r: OrderState)
        ensures
            r@ == self@.with_initial_margin_after(optional_view(v)),
    {
        proof {
            self.lemma_with_initial_margin_after(v);
        }
        OrderState { initial_margin_after: v, ..self }
    }

    proof fn lemma_update_maintenance_margin_after(self, v: Option<Decimal>)
        ensures
            (OrderState { maintenance_margin_after: v, ..self })@ == (OrderStateView { maintenance_margin_after: optional_view(v), ..self@ }),
    {
    }

    /// Setting `maintenance_margin_after` in the record sets it in its content.
    pub proof fn lemma_with_maintenance_margin_after(self, v: Option<Decimal>)
        ensures
            (OrderState { maintenance_margin_after: v, ..self })@ == self@.with_maintenance_margin_after(optional_view(v)),
    {
        self.lemma_update_maintenance_margin_after(v);
        self@.lemma_with_maintenance_margin_after_is_update(optional_view(v));
    }

    /// This record with another value of `maintenance_margin_after`.
    pub fn set_maintenance_margin_after(self, v: Option<Decimal>) -> (r: OrderState)
        ensures
            r@ == self@.with_maintenance_margin_after(optional_view(v)),
    {
        proof {
            self.lemma_with_maintenance_margin_after(v);
        }
        OrderState { maintenance_margin_after: v, ..self }
    }

    proof fn lemma_update_equity_with_loan_after(self, v: Option<Decimal>)
        ensures
            (OrderState { equity_with_loan_after: v, ..self })@ == (OrderStateView { equity_with_loan_after: optional_view(v), ..self@ }),
    {
    }

    /// Setting `equity_with_loan_after` in the record sets it in its content.
    pub proof fn lemma_with_equity_with_loan_after(self, v: Option<Decimal>)
        ensures
            (OrderState { equity_with_loan_after: v, ..self })@ == self@.with_equity_with_loan_after(optional_view(v)),
    {
        self.lemma_update_equity_with_loan_after(v);
        self@.lemma_with_equity_with_loan_after_is_update(optional_view(v));
    }

    /// This record with another value of `equity_with_loan_after`.
    pub fn set_equity_with_loan_after(self, v: Option<Decimal>) -> (r: OrderState)
        ensures
            r@ == self@.with_equity_with_loan_after(optional_view(v)),
    {
        proof {
            self.lemma_with_equity_with_loan_after(v);
        }
        OrderState { equity_with_loan_after: v, ..self }
    }

    proof fn lemma_update_commission(self, v: Option<Decimal>)
        ensures
            (OrderState { commission: v, ..self })@ == (OrderStateView { commission: optional_view(v), ..self@ }),
    {
    }

    /// Setting `commission` in the record sets it in its content.
    pub proof fn lemma_with_commission(self, v: Option<Decimal>)
        ensures
            (OrderState { commission: v, ..self })@ == self@.with_commission(optional_view(v)),
    {
        self.lemma_update_commission(v);
        self@.lemma_with_commission_is_update(optional_view(v));
    }

    /// This record with another value of `commission`.
    pub fn set_commission(self, v: Option<Decimal>) -> (r: OrderState)
        ensures
            r@ == self@.with_commission(optional_view(v)),
    {
        proof {
            self.lemma_with_commission(v);
        }
        OrderState { commission: v, ..self }
    }

    proof fn lemma_update_minimum_commission(self, v: Option<Decimal>)
        ensures
            (OrderState { minimum_commission: v, ..self })@ == (OrderStateView { minimum_commission: optional_view(v), ..self@ }),
    {
    }

    /// Setting `minimum_commission` in the record sets it in its content.
    pub proof fn lemma_with_minimum_commission(self, v: Option<Decimal>)
        ensures
            (OrderState { minimum_commission: v, ..self })@ == self@.with_minimum_commission(optional_view(v)),
    {
        self.lemma_update_minimum_commission(v);
        self@.lemma_with_minimum_commission_is_update(optional_view(v));
    }

    /// This record with another value of `minimum_commission`.
    pub fn set_minimum_commission(self, v: Option<Decimal>) -> (r: OrderState)
        ensures
            r@ == self@.with_minimum_commission(optional_view(v)),
    {
        proof {
            self.lemma_with_minimum_commission(v);
        }
        OrderState { minimum_commission: v, ..self }
    }

    proof fn lemma_update_maximum_commission(self, v: Option<Decimal>)
        ensures
            (OrderState { maximum_commission: v, ..self })@ == (OrderStateView { maximum_commission: optional_view(v), ..self@ }),
    {
    }

    /// Setting `maximum_commission` in the record sets it in its content.
    pub proof fn lemma_with_maximum_commission(self, v: Option<Decimal>)
        ensures
            (OrderState { maximum_commission: v, ..self })@ == self@.with_maximum_commission(optional_view(v)),
    {
        self.lemma_update_maximum_commission(v);
        self@.lemma_with_maximum_commission_is_update(optional_view(v));
    }

    /// This record with another value of `maximum_commission`.
    pub fn set_maximum_commission(self, v: Option<Decimal>) -> (r: OrderState)
        ensures
            r@ == self@.with_maximum_commission(optional_view(v)),
    {
        proof {
            self.lemma_with_maximum_commission(v);
        }
        OrderState { maximum_commission: v, ..self }
    }

    proof fn lemma_update_commission_currency(self, v: String)
        ensures
            (OrderState { commission_currency: v, ..self })@ == (OrderStateView { commission_currency: v@, ..self@ }),
    {
    }

    /// Setting `commission_currency` in the record sets it in its content.
    pub proof fn lemma_with_commission_currency(self, v: String)
        ensures
            (OrderState { commission_currency: v, ..self })@ == self@.with_commission_currency(v@),
    {
        self.lemma_update_commission_currency(v);
        self@.lemma_with_commission_currency_is_update(v@);
    }

    /// This record with another value of `commission_currency`.
    pub fn set_commission_currency(self, v: String) -> (r: OrderState)
        ensures
            r@ == self@.with_commission_currency(v@),
    {
        proof {
            self.lemma_with_commission_currency(v);
        }
        OrderState { commission_currency: v, ..self }
    }

    proof fn lemma_update_margin_currency(self, v: String)
        ensures
            (OrderState { margin_currency: v, ..self })@ == (OrderStateView { margin_currency: v@, ..self@ }),
    {
    }

    /// Setting `margin_currency` in the record sets it in its content.
    pub proof fn lemma_with_margin_currency(self, v: String)
        ensures
            (OrderState { margin_currency: v, ..self })@ == self@.with_margin_currency(v@),
    {
        self.lemma_update_margin_currency(v);
        self@.lemma_with_margin_currency_is_update(v@);
    }

    /// This record with another value of `margin_currency`.
    pub fn set_margin_currency(self, v: String) -> (r: OrderState)
        ensures
            r@ == self@.with_margin_currency(v@),
    {
        proof {
            self.lemma_with_margin_currency(v);
        }
        OrderState { margin_currency: v, ..self }
    }

    proof fn lemma_update_initial_margin_before_outside_rth(self, v: Option<Decimal>)
        ensures
            (OrderState { initial_margin_before_outside_rth: v, ..self })@ == (OrderStateView { initial_margin_before_outside_rth: optional_view(v), ..self@ }),
    {
    }

    /// Setting `initial_margin_before_outside_rth` in the record sets it in its content.
    pub proof fn lemma_with_initial_margin_before_outside_rth(self, v: Option<Decimal>)
        ensures
            (OrderState { initial_margin_before_outside_rth: v, ..self })@ == self@.with_initial_margin_before_outside_rth(optional_view(v)),
    {
        self.lemma_update_initial_margin_before_outside_rth(v);
        self@.lemma_with_initial_margin_before_outside_rth_is_update(optional_view(v));
    }

    /// This record with another value of `initial_margin_before_outside_rth`.
    pub fn set_initial_margin_before_outside_rth(self, v: Option<Decimal>) -> (r: OrderState)
        ensures
            r@ == self@.with_initial_margin_before_outside_rth(optional_view(v)),
    {
        proof {
            self.lemma_with_initial_margin_before_outside_rth(v);
        }
        OrderState { initial_margin_before_outside_rth: v, ..self }
    }

    proof fn lemma_update_maintenance_margin_before_outside_rth(self, v: Option<Decimal>)
        ensures
            (OrderState { maintenance_margin_before_outside_rth: v, ..self })@ == (OrderStateView { maintenance_margin_before_outside_rth: optional_view(v), ..self@ }),
    {
    }

    /// Setting `maintenance_margin_before_outside_rth` in the record sets it in its content.
    pub proof fn lemma_with_maintenance_margin_before_outside_rth(self, v: Option<Decimal>)
        ensures
            (OrderState { maintenance_margin_before_outside_rth: v, ..self })@ == self@.with_maintenance_margin_before_outside_rth(optional_view(v)),
    {
        self.lemma_update_maintenance_margin_before_outside_rth(v);
        self@.lemma_with_maintenance_margin_before_outside_rth_is_update(optional_view(v));
    }

    /// This record with another value of `maintenance_margin_before_outside_rth`.
    pub fn set_maintenance_margin_before_outside_rth(self, v: Option<Decimal>) -> (r: OrderState)
        ensures
            r@ == self@.with_maintenance_margin_before_outside_rth(optional_view(v)),
    {
        proof {
            self.lemma_with_maintenance_margin_before_outside_rth(v);
        }
        OrderState { maintenance_margin_before_outside_rth: v, ..self }
    }

    proof fn lemma_update_equity_with_loan_before_outside_rth(self, v: Option<Decimal>)
        ensures
            (OrderState { equity_with_loan_before_outside_rth: v, ..self })@ == (OrderStateView { equity_with_loan_before_outside_rth: optional_view(v), ..self@ }),
    {
    }

    /// Setting `equity_with_loan_before_outside_rth` in the record sets it in its content.
    pub proof fn lemma_with_equity_with_loan_before_outside_rth(self, v: Option<Decimal>)
        ensures
            (OrderState { equity_with_loan_before_outside_rth: v, ..self })@ == self@.with_equity_with_loan_before_outside_rth(optional_view(v)),
    {
        self.lemma_update_equity_with_loan_before_outside_rth(v);
        self@.lemma_with_equity_with_loan_before_outside_rth_is_update(optional_view(v));
    }

    /// This record with another value of `equity_with_loan_before_outside_rth`.
    pub fn set_equity_with_loan_before_outside_rth(self, v: Option<Decimal>) -> (r: OrderState)
        ensures
            r@ == self@.with_equity_with_loan_before_outside_rth(optional_view(v)),
    {
        proof {
            self.lemma_with_equity_with_loan_before_outside_rth(v);
        }
        OrderState { equity_with_loan_before_outside_rth: v, ..self }
    }

    proof fn lemma_update_initial_margin_change_outside_rth(self, v: Option<Decimal>)
        ensures
            (OrderState { initial_margin_change_outside_rth: v, ..self })@ == (OrderStateView { initial_margin_change_outside_rth: optional_view(v), ..self@ }),
    {
    }

    /// Setting `initial_margin_change_outside_rth` in the record sets it in its content.
    pub proof fn lemma_with_initial_margin_change_outside_rth(self, v: Option<Decimal>)
        ensures
            (OrderState { initial_margin_change_outside_rth: v, ..self })@ == self@.with_initial_margin_change_outside_rth(optional_view(v)),
    {
        self.lemma_update_initial_margin_change_outside_rth(v);
        self@.lemma_with_initial_margin_change_outside_rth_is_update(optional_view(v));
    }

    /// This record with another value of `initial_margin_change_outside_rth`.
    pub fn set_initial_margin_change_outside_rth(self, v: Option<Decimal>) -> (r: OrderState)
        ensures
            r@ == self@.with_initial_margin_change_outside_rth(optional_view(v)),
    {
        proof {
            self.lemma_with_initial_margin_change_outside_rth(v);
        }
        OrderState { initial_margin_change_outside_rth: v, ..self }
    }

    proof fn lemma_update_maintenance_margin_change_outside_rth(self, v: Option<Decimal>)
        ensures
            (OrderState { maintenance_margin_change_outside_rth: v, ..self })@ == (OrderStateView { maintenance_margin_change_outside_rth: optional_view(v), ..self@ }),
    {
    }

    /// Setting `maintenance_margin_change_outside_rth` in the record sets it in its content.
    pub proof fn lemma_with_maintenance_margin_change_outside_rth(self, v: Option<Decimal>)
        ensures
            (OrderState { maintenance_margin_change_outside_rth: v, ..self })@ == self@.with_maintenance_margin_change_outside_rth(optional_view(v)),
    {
        self.lemma_update_maintenance_margin_change_outside_rth(v);
        self@.lemma_with_maintenance_margin_change_outside_rth_is_update(optional_view(v));
    }

    /// This record with another value of `maintenance_margin_change_outside_rth`.
    pub fn set_maintenance_margin_change_outside_rth(self, v: Option<Decimal>) -> (r: OrderState)
        ensures
            r@ == self@.with_maintenance_margin_change_outside_rth(optional_view(v)),
    {
        proof {
            self.lemma_with_maintenance_margin_change_outside_rth(v);
        }
        OrderState { maintenance_margin_change_outside_rth: v, ..self }
    }

    proof fn lemma_update_equity_with_loan_change_outside_rth(self, v: Option<Decimal>)
        ensures
            (OrderState { equity_with_loan_change_outside_rth: v, ..self })@ == (OrderStateView { equity_with_loan_change_outside_rth: optional_view(v), ..self@ }),
    {
    }

    /// Setting `equity_with_loan_change_outside_rth` in the record sets it in its content.
    pub proof fn lemma_with_equity_with_loan_change_outside_rth(self, v: Option<Decimal>)
        ensures
            (OrderState { equity_with_loan_change_outside_rth: v, ..self })@ == self@.with_equity_with_loan_change_outside_rth(optional_view(v)),
    {
        self.lemma_update_equity_with_loan_change_outside_rth(v);
        self@.lemma_with_equity_with_loan_change_outside_rth_is_update(optional_view(v));
    }

    /// This record with another value of `equity_with_loan_change_outside_rth`.
    pub fn set_equity_with_loan_change_outside_rth(self, v: Option<Decimal>) -> (r: OrderState)
        ensures
            r@ == self@.with_equity_with_loan_change_outside_rth(optional_view(v)),
    {
        proof {
            self.lemma_with_equity_with_loan_change_outside_rth(v);
        }
        OrderState { equity_with_loan_change_outside_rth: v, ..self }
    }

    proof fn lemma_update_initial_margin_after_outside_rth(self, v: Option<Decimal>)
        ensures
            (OrderState { initial_margin_after_outside_rth: v, ..self })@ == (OrderStateView { initial_margin_after_outside_rth: optional_view(v), ..self@ }),
    {
    }

    /// Setting `initial_margin_after_outside_rth` in the record sets it in its content.
    pub proof fn lemma_with_initial_margin_after_outside_rth(self, v: Option<Decimal>)
        ensures
            (OrderState { initial_margin_after_outside_rth: v, ..self })@ == self@.with_initial_margin_after_outside_rth(optional_view(v)),
    {
        self.lemma_update_initial_margin_after_outside_rth(v);
        self@.lemma_with_initial_margin_after_outside_rth_is_update(optional_view(v));
    }

    /// This record with another value of `initial_margin_after_outside_rth`.
    pub fn set_initial_margin_after_outside_rth(self, v: Option<Decimal>) -> (r: OrderState)
        ensures
            r@ == self@.with_initial_margin_after_outside_rth(optional_view(v)),
    {
        proof {
            self.lemma_with_initial_margin_after_outside_rth(v);
        }
        OrderState { initial_margin_after_outside_rth: v, ..self }
    }

    proof fn lemma_update_maintenance_margin_after_outside_rth(self, v: Option<Decimal>)
        ensures
            (OrderState { maintenance_margin_after_outside_rth: v, ..self })@ == (OrderStateView { maintenance_margin_after_outside_rth: optional_view(v), ..self@ }),
    {
    }

    /// Setting `maintenance_margin_after_outside_rth` in the record sets it in its content.
    pub proof fn lemma_with_maintenance_margin_after_outside_rth(self, v: Option<Decimal>)
        ensures
            (OrderState { maintenance_margin_after_outside_rth: v, ..self })@ == self@.with_maintenance_margin_after_outside_rth(optional_view(v)),
    {
        self.lemma_update_maintenance_margin_after_outside_rth(v);
        self@.lemma_with_maintenance_margin_after_outside_rth_is_update(optional_view(v));
    }

    /// This record with another value of `maintenance_margin_after_outside_rth`.
    pub fn set_maintenance_margin_after_outside_rth(self, v: Option<Decimal>) -> (r: OrderState)
        ensures
            r@ == self@.with_maintenance_margin_after_outside_rth(optional_view(v)),
    {
        proof {
            self.lemma_with_maintenance_margin_after_outside_rth(v);
        }
        OrderState { maintenance_margin_after_outside_rth: v, ..self }
    }

    proof fn lemma_update_equity_with_loan_after_outside_rth(self, v: Option<Decimal>)
        ensures
            (OrderState { equity_with_loan_after_outside_rth: v, ..self })@ == (OrderStateView { equity_with_loan_after_outside_rth: optional_view(v), ..self@ }),
    {
    }

    /// Setting `equity_with_loan_after_outside_rth` in the record sets it in its content.
    pub proof fn lemma_with_equity_with_loan_after_outside_rth(self, v: Option<Decimal>)
        ensures
            (OrderState { equity_with_loan_after_outside_rth: v, ..self })@ == self@.with_equity_with_loan_after_outside_rth(optional_view(v)),
    {
        self.lemma_update_equity_with_loan_after_outside_rth(v);
        self@.lemma_with_equity_with_loan_after_outside_rth_is_update(optional_view(v));
    }

    /// This record with another value of `equity_with_loan_after_outside_rth`.
    pub fn set_equity_with_loan_after_outside_rth(self, v: Option<Decimal>) -> (r: OrderState)
        ensures
            r@ == self@.with_equity_with_loan_after_outside_rth(optional_view(v)),
    {
        proof {
            self.lemma_with_equity_with_loan_after_outside_rth(v);
        }
        OrderState { equity_with_loan_after_outside_rth: v, ..self }
    }

    proof fn lemma_update_suggested_size(self, v: Option<Decimal>)
        ensures
            (OrderState { suggested_size: v, ..self })@ == (OrderStateView { suggested_size: optional_view(v), ..self@ }),
    {
    }

    /// Setting `suggested_size` in the record sets it in its content.
    pub proof fn lemma_with_suggested_size(self, v: Option<Decimal>)
        ensures
            (OrderState { suggested_size: v, ..self })@ == self@.with_suggested_size(optional_view(v)),
    {
        self.lemma_update_suggested_size(v);
        self@.lemma_with_suggested_size_is_update(optional_view(v));
    }

    /// This record with another value of `suggested_size`.
    pub fn set_suggested_size(self, v: Option<Decimal>) -> (r: OrderState)
        ensures
            r@ == self@.with_suggested_size(optional_view(v)),
    {
        proof {
            self.lemma_with_suggested_size(v);
        }
        OrderState { suggested_size: v, ..self }
    }

    proof fn lemma_update_reject_reason(self, v: String)
        ensures
            (OrderState { reject_reason: v, ..self })@ == (OrderStateView { reject_reason: v@, ..self@ }),
    {
    }

    /// Setting `reject_reason` in the record sets it in its content.
    pub proof fn lemma_with_reject_reason(self, v: String)
        ensures
            (OrderState { reject_reason: v, ..self })@ == self@.with_reject_reason(v@),
    {
        self.lemma_update_reject_reason(v);
        self@.lemma_with_reject_reason_is_update(v@);
    }

    /// This record with another value of `reject_reason`.
    pub fn set_reject_reason(self, v: String) -> (r: OrderState)
        ensures
            r@ == self@.with_reject_reason(v@),
    {
        proof {
            self.lemma_with_reject_reason(v);
        }
        OrderState { reject_reason: v, ..self }
    }

    proof fn lemma_update_order_allocations(self, v: Vec<OrderAllocation>)
        ensures
            (OrderState { order_allocations: v, ..self })@ == (OrderStateView { order_allocations: views_of(v@), ..self@ }),
    {
    }

    /// Setting `order_allocations` in the record sets it in its content.
    pub proof fn lemma_with_order_allocations(self, v: Vec<OrderAllocation>)
        ensures
            (OrderState { order_allocations: v, ..self })@ == self@.with_order_allocations(views_of(v@)),
    {
        self.lemma_update_order_allocations(v);
        self@.lemma_with_order_allocations_is_update(views_of(v@));
    }

    /// This record with another value of `order_allocations`.
    pub fn set_order_allocations(self, v: Vec<OrderAllocation>) -> (r: OrderState)
        ensures
            r@ == self@.with_order_allocations(views_of(v@)),
    {
        proof {
            self.lemma_with_order_allocations(v);
        }
        OrderState { order_allocations: v, ..self }
    }

    /// This record with one more entry of `order_allocations`.
    pub fn push_order_allocations(self, entry: OrderAllocation) -> (r: OrderState)
        ensures
            r@ == self@.with_order_allocations(self@.order_allocations.push(entry@)),
    {
        let ghost before = self;
        let ghost pushed = entry;
        let mut order_allocations = self.order_allocations;
        order_allocations.push(entry);
        proof {
            before.lemma_push_order_allocations(order_allocations, pushed);
        }
        OrderState { order_allocations, ..self }
    }

    /// Pushing an entry to `order_allocations` pushes its content.
    pub proof fn lemma_push_order_allocations(self, pushed: Vec<OrderAllocation>, entry: OrderAllocation)
        requires
            pushed@ == self.order_allocations@.push(entry),
        ensures
            (OrderState { order_allocations: pushed, ..self })@ == self@.with_order_allocations(self@.order_allocations.push(entry@)),
    {
        self.lemma_with_order_allocations(pushed);
        lemma_views_push(self.order_allocations@, entry);
    }

    proof fn lemma_update_warning_text(self, v: String)
        ensures
            (OrderState { warning_text: v, ..self })@ == (OrderStateView { warning_text: v@, ..self@ }),
    {
    }

    /// Setting `warning_text` in the record sets it in its content.
    pub proof fn lemma_with_warning_text(self, v: String)
        ensures
            (OrderState { warning_text: v, ..self })@ == self@.with_warning_text(v@),
    {
        self.lemma_update_warning_text(v);
        self@.lemma_with_warning_text_is_update(v@);
    }

    /// This record with another value of `warning_text`.
    pub fn set_warning_text(self, v: String) -> (r: OrderState)
        ensures
            r@ == self@.with_warning_text(v@),
    {
        proof {
            self.lemma_with_warning_text(v);
        }
        OrderState { warning_text: v, ..self }
    }

    proof fn lemma_update_completed_time(self, v: String)
        ensures
            (OrderState { completed_time: v, ..self })@ == (OrderStateView { completed_time: v@, ..self@ }),
    {
    }

    /// Setting `completed_time` in the record sets it in its content.
    pub proof fn lemma_with_completed_time(self, v: String)
        ensures
            (OrderState { completed_time: v, ..self })@ == self@.with_completed_time(v@),
    {
        self.lemma_update_completed_time(v);
        self@.lemma_with_completed_time_is_update(v@);
    }

    /// This record with another value of `completed_time`.
    pub fn set_completed_time(self, v: String) -> (r: OrderState)
        ensures
            r@ == self@.with_completed_time(v@),
    {
        proof {
            self.lemma_with_completed_time(v);
        }
        OrderState { completed_time: v, ..self }
    }

    proof fn lemma_update_completed_status(self, v: String)
        ensures
            (OrderState { completed_status: v, ..self })@ == (OrderStateView { completed_status: v@, ..self@ }),
    {
    }

    /// Setting `completed_status` in the record sets it in its content.
    pub proof fn lemma_with_completed_status(self, v: String)
        ensures
            (OrderState { completed_status: v, ..self })@ == self@.with_completed_status(v@),
    {
        self.lemma_update_completed_status(v);
        self@.lemma_with_completed_status_is_update(v@);
    }

    /// This record with another value of `completed_status`.
    pub fn set_completed_status(self, v: String) -> (r: OrderState)
        ensures
            r@ == self@.with_completed_status(v@),
    {
        proof {
            self.lemma_with_completed_status(v);
        }
        OrderState { completed_status: v, ..self }
    }
}

/// An order as the server reports it: with its contract and its state.
#[derive(Clone, Debug, PartialEq)]
pub struct OrderData {
    /// Identifier of the order.
    pub order_id: i32,
    /// Contract of the order.
    pub contract: Contract,
    /// The order.
    pub order: Order,
    /// State of the order.
    pub order_state: OrderState,
}

/// The mathematical content of [`OrderData`].
pub struct OrderDataView {
    pub order_id: int,
    pub contract: ContractView,
    pub order: OrderView,
    pub order_state: OrderStateView,
}

impl View for OrderData {
    type V = OrderDataView;

    open spec fn view(&self) -> OrderDataView {
        OrderDataView {
            order_id: self.order_id as int,
            contract: self.contract@,
            order: self.order@,
            order_state: self.order_state@,
        }
    }
}

impl OrderDataView {
    /// The record before anything was read into it.
    pub open spec fn initial() -> OrderDataView {
        OrderDataView {
            order_id: 0,
            contract: ContractView::initial(),
            order: OrderView::initial(),
            order_state: OrderStateView::initial(),
        }
    }
}

impl Default for OrderData {
    fn default() -> (r: OrderData)
        ensures
            r@ == OrderDataView::initial(),
    {
        let r = OrderData {
            order_id: 0,
            contract: Contract::default(),
            order: Order::default(),
            order_state: OrderState::default(),
        };
        r
    }
}

/// A change in the status of an order.
#[derive(Clone, Debug, PartialEq)]
pub struct OrderStatus {
    /// Identifier of the order.
    pub order_id: i32,
    /// Status of the order.
    pub status: String,
    /// Quantity that has been filled.
    pub filled: Decimal,
    /// Quantity that is still open.
    pub remaining: Decimal,
    /// Average price of the fills.
    pub average_fill_price: Decimal,
    /// Identifier of the order at the host.
    pub perm_id: i32,
    /// Identifier of the parent order.
    pub parent_id: i32,
    /// Price of the last fill.
    pub last_fill_price: Decimal,
    /// Client that placed the order.
    pub client_id: i32,
    /// Why the order is held.
    pub why_held: String,
    /// Price at which a capped order is capped.
    pub market_cap_price: Decimal,
}

/// The mathematical content of [`OrderStatus`].
pub struct OrderStatusView {
    pub order_id: int,
    pub status: Seq<char>,
    pub filled: Seq<char>,
    pub remaining: Seq<char>,
    pub average_fill_price: Seq<char>,
    pub perm_id: int,
    pub parent_id: int,
    pub last_fill_price: Seq<char>,
    pub client_id: int,
    pub why_held: Seq<char>,
    pub market_cap_price: Seq<char>,
}

impl View for OrderStatus {
    type V = OrderStatusView;

    open spec fn view(&self) -> OrderStatusView {
        OrderStatusView {
            order_id: self.order_id as int,
            status: self.status@,
            filled: self.filled@,
            remaining: self.remaining@,
            average_fill_price: self.average_fill_price@,
            perm_id: self.perm_id as int,
            parent_id: self.parent_id as int,
            last_fill_price: self.last_fill_price@,
            client_id: self.client_id as int,
            why_held: self.why_held@,
            market_cap_price: self.market_cap_price@,
        }
    }
}

impl OrderStatusView {
    /// The record before anything was read into it.
    pub open spec fn initial() -> OrderStatusView {
        OrderStatusView {
            order_id: 0,
            status: Seq::<char>::empty(),
            filled: zero_text(),
            remaining: zero_text(),
            average_fill_price: zero_text(),
            perm_id: 0,
            parent_id: 0,
            last_fill_price: zero_text(),
            client_id: 0,
            why_held: Seq::<char>::empty(),
            market_cap_price: zero_text(),
        }
    }
}

impl Default for OrderStatus {
    fn default() -> (r: OrderStatus)
        ensures
            r@ == OrderStatusView::initial(),
    {
        let r = OrderStatus {
            order_id: 0,
            status: String::new(),
            filled: Decimal::zero(),
            remaining: Decimal::zero(),
            average_fill_price: Decimal::zero(),
            perm_id: 0,
            parent_id: 0,
            last_fill_price: Decimal::zero(),
            client_id: 0,
            why_held: String::new(),
            market_cap_price: Decimal::zero(),
        };
        r
    }
}

/// One fill of an order.
#[derive(Clone, Debug, PartialEq)]
pub struct Execution {
    /// Identifier of the order.
    pub order_id: i32,
    /// Client that placed the order.
    pub client_id: i32,
    /// Identifier of the execution.
    pub execution_id: String,
    /// Time of the execution.
    pub time: String,
    /// Account of the execution.
    pub account_number: String,
    /// Exchange of the execution.
    pub exchange: String,
    /// `BOT` or `SLD`.
    pub side: String,
    /// Number of shares filled.
    pub shares: Decimal,
    /// Price of the execution.
    pub price: Decimal,
    /// Identifier of the order at the host.
    pub perm_id: i32,
    /// Whether the execution is a liquidation.
    pub liquidation: i32,
    /// Quantity filled so far.
    pub cumulative_quantity: Decimal,
    /// Average price so far.
    pub average_price: Decimal,
    /// Reference that the customer gave the order.
    pub order_reference: String,
    /// Economic value rule.
    pub ev_rule: String,
    /// Economic value multiplier.
    pub ev_multiplier: Option<Decimal>,
    /// Model code.
    pub model_code: String,
    /// Liquidity of the last fill.
    pub last_liquidity: Liquidity,
    /// Whether the price may still be revised.
    pub pending_price_revision: bool,
    /// Who submitted the order.
    pub submitter: String,
}

/// The mathematical content of [`Execution`].
pub struct ExecutionView {
    pub order_id: int,
    pub client_id: int,
    pub execution_id: Seq<char>,
    pub time: Seq<char>,
    pub account_number: Seq<char>,
    pub exchange: Seq<char>,
    pub side: Seq<char>,
    pub shares: Seq<char>,
    pub price: Seq<char>,
    pub perm_id: int,
    pub liquidation: int,
    pub cumulative_quantity: Seq<char>,
    pub average_price: Seq<char>,
    pub order_reference: Seq<char>,
    pub ev_rule: Seq<char>,
    pub ev_multiplier: Option<Seq<char>>,
    pub model_code: Seq<char>,
    pub last_liquidity: Liquidity,
    pub pending_price_revision: bool,
    pub submitter: Seq<char>,
}

impl View for Execution {
    type V = ExecutionView;

    closed spec fn view(&self) -> ExecutionView {
        ExecutionView {
            order_id: self.order_id as int,
            client_id: self.client_id as int,
            execution_id: self.execution_id@,
            time: self.time@,
            account_number: self.account_number@,
            exchange: self.exchange@,
            side: self.side@,
            shares: self.shares@,
            price: self.price@,
            perm_id: self.perm_id as int,
            liquidation: self.liquidation as int,
            cumulative_quantity: self.cumulative_quantity@,
            average_price: self.average_price@,
            order_reference: self.order_reference@,
            ev_rule: self.ev_rule@,
            ev_multiplier: optional_view(self.ev_multiplier),
            model_code: self.model_code@,
            last_liquidity: self.last_liquidity,
            pending_price_revision: self.pending_price_revision,
            submitter: self.submitter@,
        }
    }
}

impl ExecutionView {
    /// The record before anything was read into it.
    pub open spec fn initial() -> ExecutionView {
        ExecutionView {
            order_id: 0,
            client_id: 0,
            execution_id: Seq::<char>::empty(),
            time: Seq::<char>::empty(),
            account_number: Seq::<char>::empty(),
            exchange: Seq::<char>::empty(),
            side: Seq::<char>::empty(),
            shares: zero_text(),
            price: zero_text(),
            perm_id: 0,
            liquidation: 0,
            cumulative_quantity: zero_text(),
            average_price: zero_text(),
            order_reference: Seq::<char>::empty(),
            ev_rule: Seq::<char>::empty(),
            ev_multiplier: None,
            model_code: Seq::<char>::empty(),
            last_liquidity: Liquidity::Unknown,
            pending_price_revision: false,
            submitter: Seq::<char>::empty(),
        }
    }

    /// This record with another value of `order_id`.
    #[verifier::opaque]
    pub open spec fn with_order_id(self, v: int) -> ExecutionView {
        ExecutionView { order_id: v, ..self }
    }

    /// This record with another value of `client_id`.
    #[verifier::opaque]
    pub open spec fn with_client_id(self, v: int) -> ExecutionView {
        ExecutionView { client_id: v, ..self }
    }

    /// This record with another value of `execution_id`.
    #[verifier::opaque]
    pub open spec fn with_execution_id(self, v: Seq<char>) -> ExecutionView {
        ExecutionView { execution_id: v, ..self }
    }

    /// This record with another value of `time`.
    #[verifier::opaque]
    pub open spec fn with_time(self, v: Seq<char>) -> ExecutionView {
        ExecutionView { time: v, ..self }
    }

    /// This record with another value of `account_number`.
    #[verifier::opaque]
    pub open spec fn with_account_number(self, v: Seq<char>) -> ExecutionView {
        ExecutionView { account_number: v, ..self }
    }

    /// This record with another value of `exchange`.
    #[verifier::opaque]
    pub open spec fn with_exchange(self, v: Seq<char>) -> ExecutionView {
        ExecutionView { exchange: v, ..self }
    }

    /// This record with another value of `side`.
    #[verifier::opaque]
    pub open spec fn with_side(self, v: Seq<char>) -> ExecutionView {
        ExecutionView { side: v, ..self }
    }

    /// This record with another value of `shares`.
    #[verifier::opaque]
    pub open spec fn with_shares(self, v: Seq<char>) -> ExecutionView {
        ExecutionView { shares: v, ..self }
    }

    /// This record with another value of `price`.
    #[verifier::opaque]
    pub open spec fn with_price(self, v: Seq<char>) -> ExecutionView {
        ExecutionView { price: v, ..self }
    }

    /// This record with another value of `perm_id`.
    #[verifier::opaque]
    pub open spec fn with_perm_id(self, v: int) -> ExecutionView {
        ExecutionView { perm_id: v, ..self }
    }

    /// This record with another value of `liquidation`.
    #[verifier::opaque]
    pub open spec fn with_liquidation(self, v: int) -> ExecutionView {
        ExecutionView { liquidation: v, ..self }
    }

    /// This record with another value of `cumulative_quantity`.
    #[verifier::opaque]
    pub open spec fn with_cumulative_quantity(self, v: Seq<char>) -> ExecutionView {
        ExecutionView { cumulative_quantity: v, ..self }
    }

    /// This record with another value of `average_price`.
    #[verifier::opaque]
    pub open spec fn with_average_price(self, v: Seq<char>) -> ExecutionView {
        ExecutionView { average_price: v, ..self }
    }

    /// This record with another value of `order_reference`.
    #[verifier::opaque]
    pub open spec fn with_order_reference(self, v: Seq<char>) -> ExecutionView {
        ExecutionView { order_reference: v, ..self }
    }

    /// This record with another value of `ev_rule`.
    #[verifier::opaque]
    pub open spec fn with_ev_rule(self, v: Seq<char>) -> ExecutionView {
        ExecutionView { ev_rule: v, ..self }
    }

    /// This record with another value of `ev_multiplier`.
    #[verifier::opaque]
    pub open spec fn with_ev_multiplier(self, v: Option<Seq<char>>) -> ExecutionView {
        ExecutionView { ev_multiplier: v, ..self }
    }

    /// This record with another value of `model_code`.
    #[verifier::opaque]
    pub open spec fn with_model_code(self, v: Seq<char>) -> ExecutionView {
        ExecutionView { model_code: v, ..self }
    }

    /// This record with another value of `last_liquidity`.
    #[verifier::opaque]
    pub open spec fn with_last_liquidity(self, v: Liquidity) -> ExecutionView {
        ExecutionView { last_liquidity: v, ..self }
    }

    /// This record with another value of `pending_price_revision`.
    #[verifier::opaque]
    pub open spec fn with_pending_price_revision(self, v: bool) -> ExecutionView {
        ExecutionView { pending_price_revision: v, ..self }
    }

    /// This record with another value of `submitter`.
    #[verifier::opaque]
    pub open spec fn with_submitter(self, v: Seq<char>) -> ExecutionView {
        ExecutionView { submitter: v, ..self }
    }

    proof fn lemma_with_order_id_is_update(self, v: int)
        ensures
            self.with_order_id(v) == (ExecutionView { order_id: v, ..self }),
    {
        reveal(ExecutionView::with_order_id);
    }

    proof fn lemma_with_client_id_is_update(self, v: int)
        ensures
            self.with_client_id(v) == (ExecutionView { client_id: v, ..self }),
    {
        reveal(ExecutionView::with_client_id);
    }

    proof fn lemma_with_execution_id_is_update(self, v: Seq<char>)
        ensures
            self.with_execution_id(v) == (ExecutionView { execution_id: v, ..self }),
    {
        reveal(ExecutionView::with_execution_id);
    }

    proof fn lemma_with_time_is_update(self, v: Seq<char>)
        ensures
            self.with_time(v) == (ExecutionView { time: v, ..self }),
    {
        reveal(ExecutionView::with_time);
    }

    proof fn lemma_with_account_number_is_update(self, v: Seq<char>)
        ensures
            self.with_account_number(v) == (ExecutionView { account_number: v, ..self }),
    {
        reveal(ExecutionView::with_account_number);
    }

    proof fn lemma_with_exchange_is_update(self, v: Seq<char>)
        ensures
            self.with_exchange(v) == (ExecutionView { exchange: v, ..self }),
    {
        reveal(ExecutionView::with_exchange);
    }

    proof fn lemma_with_side_is_update(self, v: Seq<char>)
        ensures
            self.with_side(v) == (ExecutionView { side: v, ..self }),
    {
        reveal(ExecutionView::with_side);
    }

    proof fn lemma_with_shares_is_update(self, v: Seq<char>)
        ensures
            self.with_shares(v) == (ExecutionView { shares: v, ..self }),
    {
        reveal(ExecutionView::with_shares);
    }

    proof fn lemma_with_price_is_update(self, v: Seq<char>)
        ensures
            self.with_price(v) == (ExecutionView { price: v, ..self }),
    {
        reveal(ExecutionView::with_price);
    }

    proof fn lemma_with_perm_id_is_update(self, v: int)
        ensures
            self.with_perm_id(v) == (ExecutionView { perm_id: v, ..self }),
    {
        reveal(ExecutionView::with_perm_id);
    }

    proof fn lemma_with_liquidation_is_update(self, v: int)
        ensures
            self.with_liquidation(v) == (ExecutionView { liquidation: v, ..self }),
    {
        reveal(ExecutionView::with_liquidation);
    }

    proof fn lemma_with_cumulative_quantity_is_update(self, v: Seq<char>)
        ensures
            self.with_cumulative_quantity(v) == (ExecutionView { cumulative_quantity: v, ..self }),
    {
        reveal(ExecutionView::with_cumulative_quantity);
    }

    proof fn lemma_with_average_price_is_update(self, v: Seq<char>)
        ensures
            self.with_average_price(v) == (ExecutionView { average_price: v, ..self }),
    {
        reveal(ExecutionView::with_average_price);
    }

    proof fn lemma_with_order_reference_is_update(self, v: Seq<char>)
        ensures
            self.with_order_reference(v) == (ExecutionView { order_reference: v, ..self }),
    {
        reveal(ExecutionView::with_order_reference);
    }

    proof fn lemma_with_ev_rule_is_update(self, v: Seq<char>)
        ensures
            self.with_ev_rule(v) == (ExecutionView { ev_rule: v, ..self }),
    {
        reveal(ExecutionView::with_ev_rule);
    }

    proof fn lemma_with_ev_multiplier_is_update(self, v: Option<Seq<char>>)
        ensures
            self.with_ev_multiplier(v) == (ExecutionView { ev_multiplier: v, ..self }),
    {
        reveal(ExecutionView::with_ev_multiplier);
    }

    proof fn lemma_with_model_code_is_update(self, v: Seq<char>)
        ensures
            self.with_model_code(v) == (ExecutionView { model_code: v, ..self }),
    {
        reveal(ExecutionView::with_model_code);
    }

    proof fn lemma_with_last_liquidity_is_update(self, v: Liquidity)
        ensures
            self.with_last_liquidity(v) == (ExecutionView { last_liquidity: v, ..self }),
    {
        reveal(ExecutionView::with_last_liquidity);
    }

    proof fn lemma_with_pending_price_revision_is_update(self, v: bool)
        ensures
            self.with_pending_price_revision(v) == (ExecutionView { pending_price_revision: v, ..self }),
    {
        reveal(ExecutionView::with_pending_price_revision);
    }

    proof fn lemma_with_submitter_is_update(self, v: Seq<char>)
        ensures
            self.with_submitter(v) == (ExecutionView { submitter: v, ..self }),
    {
        reveal(ExecutionView::with_submitter);
    }
}

impl Default for Execution {
    fn default() -> (r: Execution)
        ensures
            r@ == ExecutionView::initial(),
    {
        let r = Execution {
            order_id: 0,
            client_id: 0,
            execution_id: String::new(),
            time: String::new(),
            account_number: String::new(),
            exchange: String::new(),
            side: String::new(),
            shares: Decimal::zero(),
            price: Decimal::zero(),
            perm_id: 0,
            liquidation: 0,
            cumulative_quantity: Decimal::zero(),
            average_price: Decimal::zero(),
            order_reference: String::new(),
            ev_rule: String::new(),
            ev_multiplier: None,
            model_code: String::new(),
            last_liquidity: Liquidity::Unknown,
            pending_price_revision: false,
            submitter: String::new(),
        };
        r
    }
}

impl Execution {
    proof fn lemma_update_order_id(self, v: i32)
        ensures
            (Execution { order_id: v, ..self })@ == (ExecutionView { order_id: v as int, ..self@ }),
    {
    }

    /// Setting `order_id` in the record sets it in its content.
    pub proof fn lemma_with_order_id(self, v: i32)
        ensures
            (Execution { order_id: v, ..self })@ == self@.with_order_id(v as int),
    {
        self.lemma_update_order_id(v);
        self@.lemma_with_order_id_is_update(v as int);
    }

    /// This record with another value of `order_id`.
    pub fn set_order_id(self, v: i32) -> (r: Execution)
        ensures
            r@ == self@.with_order_id(v as int),
    {
        proof {
            self.lemma_with_order_id(v);
        }
        Execution { order_id: v, ..self }
    }

    proof fn lemma_update_client_id(self, v: i32)
        ensures
            (Execution { client_id: v, ..self })@ == (ExecutionView { client_id: v as int, ..self@ }),
    {
    }

    /// Setting `client_id` in the record sets it in its content.
    pub proof fn lemma_with_client_id(self, v: i32)
        ensures
            (Execution { client_id: v, ..self })@ == self@.with_client_id(v as int),
    {
        self.lemma_update_client_id(v);
        self@.lemma_with_client_id_is_update(v as int);
    }

    /// This record with another value of `client_id`.
    pub fn set_client_id(self, v: i32) -> (r: Execution)
        ensures
            r@ == self@.with_client_id(v as int),
    {
        proof {
            self.lemma_with_client_id(v);
        }
        Execution { client_id: v, ..self }
    }

    proof fn lemma_update_execution_id(self, v: String)
        ensures
            (Execution { execution_id: v, ..self })@ == (ExecutionView { execution_id: v@, ..self@ }),
    {
    }

    /// Setting `execution_id` in the record sets it in its content.
    pub proof fn lemma_with_execution_id(self, v: String)
        ensures
            (Execution { execution_id: v, ..self })@ == self@.with_execution_id(v@),
    {
        self.lemma_update_execution_id(v);
        self@.lemma_with_execution_id_is_update(v@);
    }

    /// This record with another value of `execution_id`.
    pub fn set_execution_id(self, v: String) -> (r: Execution)
        ensures
            r@ == self@.with_execution_id(v@),
    {
        proof {
            self.lemma_with_execution_id(v);
        }
        Execution { execution_id: v, ..self }
    }

    proof fn lemma_update_time(self, v: String)
        ensures
            (Execution { time: v, ..self })@ == (ExecutionView { time: v@, ..self@ }),
    {
    }

    /// Setting `time` in the record sets it in its content.
    pub proof fn lemma_with_time(self, v: String)
        ensures
            (Execution { time: v, ..self })@ == self@.with_time(v@),
    {
        self.lemma_update_time(v);
        self@.lemma_with_time_is_update(v@);
    }

    /// This record with another value of `time`.
    pub fn set_time(self, v: String) -> (r: Execution)
        ensures
            r@ == self@.with_time(v@),
    {
        proof {
            self.lemma_with_time(v);
        }
        Execution { time: v, ..self }
    }

    proof fn lemma_update_account_number(self, v: String)
        ensures
            (Execution { account_number: v, ..self })@ == (ExecutionView { account_number: v@, ..self@ }),
    {
    }

    /// Setting `account_number` in the record sets it in its content.
    pub proof fn lemma_with_account_number(self, v: String)
        ensures
            (Execution { account_number: v, ..self })@ == self@.with_account_number(v@),
    {
        self.lemma_update_account_number(v);
        self@.lemma_with_account_number_is_update(v@);
    }

    /// This record with another value of `account_number`.
    pub fn set_account_number(self, v: String) -> (r: Execution)
        ensures
            r@ == self@.with_account_number(v@),
    {
        proof {
            self.lemma_with_account_number(v);
        }
        Execution { account_number: v, ..self }
    }

    proof fn lemma_update_exchange(self, v: String)
        ensures
            (Execution { exchange: v, ..self })@ == (ExecutionView { exchange: v@, ..self@ }),
    {
    }

    /// Setting `exchange` in the record sets it in its content.
    pub proof fn lemma_with_exchange(self, v: String)
        ensures
            (Execution { exchange: v, ..self })@ == self@.with_exchange(v@),
    {
        self.lemma_update_exchange(v);
        self@.lemma_with_exchange_is_update(v@);
    }

    /// This record with another value of `exchange`.
    pub fn set_exchange(self, v: String) -> (r: Execution)
        ensures
            r@ == self@.with_exchange(v@),
    {
        proof {
            self.lemma_with_exchange(v);
        }
        Execution { exchange: v, ..self }
    }

    proof fn lemma_update_side(self, v: String)
        ensures
            (Execution { side: v, ..self })@ == (ExecutionView { side: v@, ..self@ }),
    {
    }

    /// Setting `side` in the record sets it in its content.
    pub proof fn lemma_with_side(self, v: String)
        ensures
            (Execution { side: v, ..self })@ == self@.with_side(v@),
    {
        self.lemma_update_side(v);
        self@.lemma_with_side_is_update(v@);
    }

    /// This record with another value of `side`.
    pub fn set_side(self, v: String) -> (r: Execution)
        ensures
            r@ == self@.with_side(v@),
    {
        proof {
            self.lemma_with_side(v);
        }
        Execution { side: v, ..self }
    }

    proof fn lemma_update_shares(self, v: Decimal)
        ensures
            (Execution { shares: v, ..self })@ == (ExecutionView { shares: v@, ..self@ }),
    {
    }

    /// Setting `shares` in the record sets it in its content.
    pub proof fn lemma_with_shares(self, v: Decimal)
        ensures
            (Execution { shares: v, ..self })@ == self@.with_shares(v@),
    {
        self.lemma_update_shares(v);
        self@.lemma_with_shares_is_update(v@);
    }

    /// This record with another value of `shares`.
    pub fn set_shares(self, v: Decimal) -> (r: Execution)
        ensures
            r@ == self@.with_shares(v@),
    {
        proof {
            self.lemma_with_shares(v);
        }
        Execution { shares: v, ..self }
    }

    proof fn lemma_update_price(self, v: Decimal)
        ensures
            (Execution { price: v, ..self })@ == (ExecutionView { price: v@, ..self@ }),
    {
    }

    /// Setting `price` in the record sets it in its content.
    pub proof fn lemma_with_price(self, v: Decimal)
        ensures
            (Execution { price: v, ..self })@ == self@.with_price(v@),
    {
        self.lemma_update_price(v);
        self@.lemma_with_price_is_update(v@);
    }

    /// This record with another value of `price`.
    pub fn set_price(self, v: Decimal) -> (r: Execution)
        ensures
            r@ == self@.with_price(v@),
    {
        proof {
            self.lemma_with_price(v);
        }
        Execution { price: v, ..self }
    }

    proof fn lemma_update_perm_id(self, v: i32)
        ensures
            (Execution { perm_id: v, ..self })@ == (ExecutionView { perm_id: v as int, ..self@ }),
    {
    }

    /// Setting `perm_id` in the record sets it in its content.
    pub proof fn lemma_with_perm_id(self, v: i32)
        ensures
            (Execution { perm_id: v, ..self })@ == self@.with_perm_id(v as int),
    {
        self.lemma_update_perm_id(v);
        self@.lemma_with_perm_id_is_update(v as int);
    }

    /// This record with another value of `perm_id`.
    pub fn set_perm_id(self, v: i32) -> (r: Execution)
        ensures
            r@ == self@.with_perm_id(v as int),
    {
        proof {
            self.lemma_with_perm_id(v);
        }
        Execution { perm_id: v, ..self }
    }

    proof fn lemma_update_liquidation(self, v: i32)
        ensures
            (Execution { liquidation: v, ..self })@ == (ExecutionView { liquidation: v as int, ..self@ }),
    {
    }

    /// Setting `liquidation` in the record sets it in its content.
    pub proof fn lemma_with_liquidation(self, v: i32)
        ensures
            (Execution { liquidation: v, ..self })@ == self@.with_liquidation(v as int),
    {
        self.lemma_update_liquidation(v);
        self@.lemma_with_liquidation_is_update(v as int);
    }

    /// This record with another value of `liquidation`.
    pub fn set_liquidation(self, v: i32) -> (r: Execution)
        ensures
            r@ == self@.with_liquidation(v as int),
    {
        proof {
            self.lemma_with_liquidation(v);
        }
        Execution { liquidation: v, ..self }
    }

    proof fn lemma_update_cumulative_quantity(self, v: Decimal)
        ensures
            (Execution { cumulative_quantity: v, ..self })@ == (ExecutionView { cumulative_quantity: v@, ..self@ }),
    {
    }

    /// Setting `cumulative_quantity` in the record sets it in its content.
    pub proof fn lemma_with_cumulative_quantity(self, v: Decimal)
        ensures
            (Execution { cumulative_quantity: v, ..self })@ == self@.with_cumulative_quantity(v@),
    {
        self.lemma_update_cumulative_quantity(v);
        self@.lemma_with_cumulative_quantity_is_update(v@);
    }

    /// This record with another value of `cumulative_quantity`.
    pub fn set_cumulative_quantity(self, v: Decimal) -> (r: Execution)
        ensures
            r@ == self@.with_cumulative_quantity(v@),
    {
        proof {
            self.lemma_with_cumulative_quantity(v);
        }
        Execution { cumulative_quantity: v, ..self }
    }

    proof fn lemma_update_average_price(self, v: Decimal)
        ensures
            (Execution { average_price: v, ..self })@ == (ExecutionView { average_price: v@, ..self@ }),
    {
    }

    /// Setting `average_price` in the record sets it in its content.
    pub proof fn lemma_with_average_price(self, v: Decimal)
        ensures
            (Execution { average_price: v, ..self })@ == self@.with_average_price(v@),
    {
        self.lemma_update_average_price(v);
        self@.lemma_with_average_price_is_update(v@);
    }

    /// This record with another value of `average_price`.
    pub fn set_average_price(self, v: Decimal) -> (r: Execution)
        ensures
            r@ == self@.with_average_price(v@),
    {
        proof {
            self.lemma_with_average_price(v);
        }
        Execution { average_price: v, ..self }
    }

    proof fn lemma_update_order_reference(self, v: String)
        ensures
            (Execution { order_reference: v, ..self })@ == (ExecutionView { order_reference: v@, ..self@ }),
    {
    }

    /// Setting `order_reference` in the record sets it in its content.
    pub proof fn lemma_with_order_reference(self, v: String)
        ensures
            (Execution { order_reference: v, ..self })@ == self@.with_order_reference(v@),
    {
        self.lemma_update_order_reference(v);
        self@.lemma_with_order_reference_is_update(v@);
    }

    /// This record with another value of `order_reference`.
    pub fn set_order_reference(self, v: String) -> (r: Execution)
        ensures
            r@ == self@.with_order_reference(v@),
    {
        proof {
            self.lemma_with_order_reference(v);
        }
        Execution { order_reference: v, ..self }
    }

    proof fn lemma_update_ev_rule(self, v: String)
        ensures
            (Execution { ev_rule: v, ..self })@ == (ExecutionView { ev_rule: v@, ..self@ }),
    {
    }

    /// Setting `ev_rule` in the record sets it in its content.
    pub proof fn lemma_with_ev_rule(self, v: String)
        ensures
            (Execution { ev_rule: v, ..self })@ == self@.with_ev_rule(v@),
    {
        self.lemma_update_ev_rule(v);
        self@.lemma_with_ev_rule_is_update(v@);
    }

    /// This record with another value of `ev_rule`.
    pub fn set_ev_rule(self, v: String) -> (r: Execution)
        ensures
            r@ == self@.with_ev_rule(v@),
    {
        proof {
            self.lemma_with_ev_rule(v);
        }
        Execution { ev_rule: v, ..self }
    }

    proof fn lemma_update_ev_multiplier(self, v: Option<Decimal>)
        ensures
            (Execution { ev_multiplier: v, ..self })@ == (ExecutionView { ev_multiplier: optional_view(v), ..self@ }),
    {
    }

    /// Setting `ev_multiplier` in the record sets it in its content.
    pub proof fn lemma_with_ev_multiplier(self, v: Option<Decimal>)
        ensures
            (Execution { ev_multiplier: v, ..self })@ == self@.with_ev_multiplier(optional_view(v)),
    {
        self.lemma_update_ev_multiplier(v);
        self@.lemma_with_ev_multiplier_is_update(optional_view(v));
    }

    /// This record with another value of `ev_multiplier`.
    pub fn set_ev_multiplier(self, v: Option<Decimal>) -> (r: Execution)
        ensures
            r@ == self@.with_ev_multiplier(optional_view(v)),
    {
        proof {
            self.lemma_with_ev_multiplier(v);
        }
        Execution { ev_multiplier: v, ..self }
    }

    proof fn lemma_update_model_code(self, v: String)
        ensures
            (Execution { model_code: v, ..self })@ == (ExecutionView { model_code: v@, ..self@ }),
    {
    }

    /// Setting `model_code` in the record sets it in its content.
    pub proof fn lemma_with_model_code(self, v: String)
        ensures
            (Execution { model_code: v, ..self })@ == self@.with_model_code(v@),
    {
        self.lemma_update_model_code(v);
        self@.lemma_with_model_code_is_update(v@);
    }

    /// This record with another value of `model_code`.
    pub fn set_model_code(self, v: String) -> (r: Execution)
        ensures
            r@ == self@.with_model_code(v@),
    {
        proof {
            self.lemma_with_model_code(v);
        }
        Execution { model_code: v, ..self }
    }

    proof fn lemma_update_last_liquidity(self, v: Liquidity)
        ensures
            (Execution { last_liquidity: v, ..self })@ == (ExecutionView { last_liquidity: v, ..self@ }),
    {
    }

    /// Setting `last_liquidity` in the record sets it in its content.
    pub proof fn lemma_with_last_liquidity(self, v: Liquidity)
        ensures
            (Execution { last_liquidity: v, ..self })@ == self@.with_last_liquidity(v),
    {
        self.lemma_update_last_liquidity(v);
        self@.lemma_with_last_liquidity_is_update(v);
    }

    /// This record with another value of `last_liquidity`.
    pub fn set_last_liquidity(self, v: Liquidity) -> (r: Execution)
        ensures
            r@ == self@.with_last_liquidity(v),
    {
        proof {
            self.lemma_with_last_liquidity(v);
        }
        Execution { last_liquidity: v, ..self }
    }

    proof fn lemma_update_pending_price_revision(self, v: bool)
        ensures
            (Execution { pending_price_revision: v, ..self })@ == (ExecutionView { pending_price_revision: v, ..self@ }),
    {
    }

    /// Setting `pending_price_revision` in the record sets it in its content.
    pub proof fn lemma_with_pending_price_revision(self, v: bool)
        ensures
            (Execution { pending_price_revision: v, ..self })@ == self@.with_pending_price_revision(v),
    {
        self.lemma_update_pending_price_revision(v);
        self@.lemma_with_pending_price_revision_is_update(v);
    }

    /// This record with another value of `pending_price_revision`.
    pub fn set_pending_price_revision(self, v: bool) -> (r: Execution)
        ensures
            r@ == self@.with_pending_price_revision(v),
    {
        proof {
            self.lemma_with_pending_price_revision(v);
        }
        Execution { pending_price_revision: v, ..self }
    }

    proof fn lemma_update_submitter(self, v: String)
        ensures
            (Execution { submitter: v, ..self })@ == (ExecutionView { submitter: v@, ..self@ }),
    {
    }

    /// Setting `submitter` in the record sets it in its content.
    pub proof fn lemma_with_submitter(self, v: String)
        ensures
            (Execution { submitter: v, ..self })@ == self@.with_submitter(v@),
    {
        self.lemma_update_submitter(v);
        self@.lemma_with_submitter_is_update(v@);
    }

    /// This record with another value of `submitter`.
    pub fn set_submitter(self, v: String) -> (r: Execution)
        ensures
            r@ == self@.with_submitter(v@),
    {
        proof {
            self.lemma_with_submitter(v);
        }
        Execution { submitter: v, ..self }
    }
}

/// A fill together with the contract that was traded.
#[derive(Clone, Debug, PartialEq)]
pub struct ExecutionData {
    /// Identifier of the request that asked for the execution.
    pub request_id: i32,
    /// Contract that was traded.
    pub contract: Contract,
    /// The execution.
    pub execution: Execution,
}

/// The mathematical content of [`ExecutionData`].
pub struct ExecutionDataView {
    pub request_id: int,
    pub contract: ContractView,
    pub execution: ExecutionView,
}

impl View for ExecutionData {
    type V = ExecutionDataView;

    open spec fn view(&self) -> ExecutionDataView {
        ExecutionDataView {
            request_id: self.request_id as int,
            contract: self.contract@,
            execution: self.execution@,
        }
    }
}

impl ExecutionDataView {
    /// The record before anything was read into it.
    pub open spec fn initial() -> ExecutionDataView {
        ExecutionDataView {
            request_id: 0,
            contract: ContractView::initial(),
            execution: ExecutionView::initial(),
        }
    }
}

impl Default for ExecutionData {
    fn default() -> (r: ExecutionData)
        ensures
            r@ == ExecutionDataView::initial(),
    {
        let r = ExecutionData {
            request_id: 0,
            contract: Contract::default(),
            execution: Execution::default(),
        };
        r
    }
}

/// The commission of an execution.
#[derive(Clone, Debug, PartialEq)]
pub struct CommissionReport {
    /// Identifier of the execution.
    pub execution_id: String,
    /// Commission paid.
    pub commission: Decimal,
    /// Currency of the commission.
    pub currency: String,
    /// Realised profit and loss.
    pub realized_pnl: Option<Decimal>,
    /// Yield of a bond.
    pub yields: Option<Decimal>,
    /// Redemption date of the yield, as `yyyymmdd`.
    pub yield_redemption_date: String,
}

/// The mathematical content of [`CommissionReport`].
pub struct CommissionReportView {
    pub execution_id: Seq<char>,
    pub commission: Seq<char>,
    pub currency: Seq<char>,
    pub realized_pnl: Option<Seq<char>>,
    pub yields: Option<Seq<char>>,
    pub yield_redemption_date: Seq<char>,
}

impl View for CommissionReport {
    type V = CommissionReportView;

    open spec fn view(&self) -> CommissionReportView {
        CommissionReportView {
            execution_id: self.execution_id@,
            commission: self.commission@,
            currency: self.currency@,
            realized_pnl: optional_view(self.realized_pnl),
            yields: optional_view(self.yields),
            yield_redemption_date: self.yield_redemption_date@,
        }
    }
}

impl CommissionReportView {
    /// The record before anything was read into it.
    pub open spec fn initial() -> CommissionReportView {
        CommissionReportView {
            execution_id: Seq::<char>::empty(),
            commission: zero_text(),
            currency: Seq::<char>::empty(),
            realized_pnl: None,
            yields: None,
            yield_redemption_date: Seq::<char>::empty(),
        }
    }
}

impl Default for CommissionReport {
    fn default() -> (r: CommissionReport)
        ensures
            r@ == CommissionReportView::initial(),
    {
        let r = CommissionReport {
            execution_id: String::new(),
            commission: Decimal::zero(),
            currency: String::new(),
            realized_pnl: None,
            yields: None,
            yield_redemption_date: String::new(),
        };
        r
    }
}

impl OrderView {
    /// Whether the order names a type of delta-neutral hedge order.
    pub open spec fn is_delta_neutral(self) -> bool {
        self.delta_neutral_order_type.len() > 0
    }

    /// Whether the order has a scale price increment above zero.
    pub open spec fn has_scale_increment(self) -> bool {
        match self.scale_price_increment {
            Some(increment) => decimal_is_positive(increment),
            None => false,
        }
    }
}

impl Order {
    /// Whether the order names a type of delta-neutral hedge order.
    pub fn is_delta_neutral(&self) -> (r: bool)
        ensures
            r == (self@.delta_neutral_order_type.len() > 0),
    {
        !self.delta_neutral_order_type.as_str().is_empty()
    }

    /// Whether the order has a scale price increment above zero.
    pub fn has_scale_increment(&self) -> (r: bool)
        ensures
            r == self@.has_scale_increment(),
    {
        match &self.scale_price_increment {
            Some(increment) => increment.is_positive(),
            None => false,
        }
    }

    /// Whether the order names a kind of hedge.
    pub fn has_hedge(&self) -> (r: bool)
        ensures
            r == (self@.hedge_type.len() > 0),
    {
        !self.hedge_type.as_str().is_empty()
    }

    /// Whether the order names an algorithm.
    pub fn has_algo(&self) -> (r: bool)
        ensures
            r == (self@.algo_strategy.len() > 0),
    {
        !self.algo_strategy.as_str().is_empty()
    }

    /// Whether the order is pegged to a benchmark.
    pub fn is_pegged_to_benchmark(&self) -> (r: bool)
        ensures
            r == (self@.order_type == "PEG BENCH"@),
    {
        same_text(self.order_type.as_str(), "PEG BENCH")
    }
}

} // verus!

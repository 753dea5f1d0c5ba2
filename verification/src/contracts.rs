//! Contracts: what is traded, and the parts that a contract is made of.

use vstd::prelude::*;
use vstd::string::*;
use crate::numeric::zero_text;
use crate::numeric::Decimal;
use crate::text::same_text;
use crate::views::lemma_views_push;
use crate::views::optional_view;
use crate::views::views_of;

verus! {

/// The symbol of an asset, as the wire carries it.
#[derive(Clone, Debug, PartialEq)]
pub struct Symbol(pub String);

impl View for Symbol {
    type V = Seq<char>;

    open spec fn view(&self) -> Seq<char> {
        self.0@
    }
}

impl Default for Symbol {
    fn default() -> (r: Symbol)
        ensures
            r@ == Seq::<char>::empty(),
    {
        Symbol(String::new())
    }
}

impl Symbol {
    /// Wraps the text as it came from the wire.
    pub fn from(value: String) -> (r: Symbol)
        ensures
            r@ == value@,
    {
        Symbol(value)
    }

    /// The text as it goes to the wire.
    pub fn to_string(&self) -> (r: String)
        ensures
            r@ == self@,
    {
        self.0.clone()
    }

    /// The text as it goes to the wire.
    pub fn as_str(&self) -> (r: &str)
        ensures
            r@ == self@,
    {
        self.0.as_str()
    }
}

/// The name of an exchange, as the wire carries it.
#[derive(Clone, Debug, PartialEq)]
pub struct Exchange(pub String);

impl View for Exchange {
    type V = Seq<char>;

    open spec fn view(&self) -> Seq<char> {
        self.0@
    }
}

impl Default for Exchange {
    fn default() -> (r: Exchange)
        ensures
            r@ == Seq::<char>::empty(),
    {
        Exchange(String::new())
    }
}

impl Exchange {
    /// Wraps the text as it came from the wire.
    pub fn from(value: String) -> (r: Exchange)
        ensures
            r@ == value@,
    {
        Exchange(value)
    }

    /// The text as it goes to the wire.
    pub fn to_string(&self) -> (r: String)
        ensures
            r@ == self@,
    {
        self.0.clone()
    }

    /// The text as it goes to the wire.
    pub fn as_str(&self) -> (r: &str)
        ensures
            r@ == self@,
    {
        self.0.as_str()
    }
}

/// The code of a currency, as the wire carries it.
#[derive(Clone, Debug, PartialEq)]
pub struct Currency(pub String);

impl View for Currency {
    type V = Seq<char>;

    open spec fn view(&self) -> Seq<char> {
        self.0@
    }
}

impl Default for Currency {
    fn default() -> (r: Currency)
        ensures
            r@ == Seq::<char>::empty(),
    {
        Currency(String::new())
    }
}

impl Currency {
    /// Wraps the text as it came from the wire.
    pub fn from(value: String) -> (r: Currency)
        ensures
            r@ == value@,
    {
        Currency(value)
    }

    /// The text as it goes to the wire.
    pub fn to_string(&self) -> (r: String)
        ensures
            r@ == self@,
    {
        self.0.clone()
    }

    /// The text as it goes to the wire.
    pub fn as_str(&self) -> (r: &str)
        ensures
            r@ == self@,
    {
        self.0.as_str()
    }
}

/// The kind of security that a contract trades.
#[derive(Clone, Debug, PartialEq)]
pub enum SecurityType {
    /// Stock or exchange-traded fund.
    Stock,
    /// Option.
    EquityOption,
    /// Future.
    Future,
    /// Index.
    Index,
    /// Option on a future.
    FuturesOption,
    /// Currency pair.
    ForexPair,
    /// Combination of several legs.
    Spread,
    /// Warrant.
    Warrant,
    /// Bond.
    Bond,
    /// Commodity.
    Commodity,
    /// News.
    News,
    /// Mutual fund.
    MutualFund,
    /// Crypto currency.
    Crypto,
    /// Contract for difference.
    CFD,
    /// A kind that this library does not know, by its wire name.
    Other(String),
}

/// The mathematical content of [`SecurityType`].
pub enum SecurityTypeView {
    Stock,
    EquityOption,
    Future,
    Index,
    FuturesOption,
    ForexPair,
    Spread,
    Warrant,
    Bond,
    Commodity,
    News,
    MutualFund,
    Crypto,
    CFD,
    Other(Seq<char>),
}

impl View for SecurityType {
    type V = SecurityTypeView;

    open spec fn view(&self) -> SecurityTypeView {
        match *self {
            SecurityType::Stock => SecurityTypeView::Stock,
            SecurityType::EquityOption => SecurityTypeView::EquityOption,
            SecurityType::Future => SecurityTypeView::Future,
            SecurityType::Index => SecurityTypeView::Index,
            SecurityType::FuturesOption => SecurityTypeView::FuturesOption,
            SecurityType::ForexPair => SecurityTypeView::ForexPair,
            SecurityType::Spread => SecurityTypeView::Spread,
            SecurityType::Warrant => SecurityTypeView::Warrant,
            SecurityType::Bond => SecurityTypeView::Bond,
            SecurityType::Commodity => SecurityTypeView::Commodity,
            SecurityType::News => SecurityTypeView::News,
            SecurityType::MutualFund => SecurityTypeView::MutualFund,
            SecurityType::Crypto => SecurityTypeView::Crypto,
            SecurityType::CFD => SecurityTypeView::CFD,
            SecurityType::Other(name) => SecurityTypeView::Other(name@),
        }
    }
}

impl SecurityTypeView {
    /// The kind of a contract into which nothing was read yet.
    pub open spec fn initial() -> SecurityTypeView {
        SecurityTypeView::Stock
    }

    /// The kind that a wire name stands for.
    pub open spec fn of_text(name: Seq<char>) -> SecurityTypeView {
        if name == "STK"@ {
            SecurityTypeView::Stock
        } else if name == "OPT"@ {
            SecurityTypeView::EquityOption
        } else if name == "FUT"@ {
            SecurityTypeView::Future
        } else if name == "IND"@ {
            SecurityTypeView::Index
        } else if name == "FOP"@ {
            SecurityTypeView::FuturesOption
        } else if name == "CASH"@ {
            SecurityTypeView::ForexPair
        } else if name == "BAG"@ {
            SecurityTypeView::Spread
        } else if name == "WAR"@ {
            SecurityTypeView::Warrant
        } else if name == "BOND"@ {
            SecurityTypeView::Bond
        } else if name == "CMDTY"@ {
            SecurityTypeView::Commodity
        } else if name == "NEWS"@ {
            SecurityTypeView::News
        } else if name == "FUND"@ {
            SecurityTypeView::MutualFund
        } else if name == "CRYPTO"@ {
            SecurityTypeView::Crypto
        } else if name == "CFD"@ {
            SecurityTypeView::CFD
        } else {
            SecurityTypeView::Other(name)
        }
    }

    /// The wire name of a kind.
    pub open spec fn text(self) -> Seq<char> {
        match self {
            SecurityTypeView::Stock => "STK"@,
            SecurityTypeView::EquityOption => "OPT"@,
            SecurityTypeView::Future => "FUT"@,
            SecurityTypeView::Index => "IND"@,
            SecurityTypeView::FuturesOption => "FOP"@,
            SecurityTypeView::ForexPair => "CASH"@,
            SecurityTypeView::Spread => "BAG"@,
            SecurityTypeView::Warrant => "WAR"@,
            SecurityTypeView::Bond => "BOND"@,
            SecurityTypeView::Commodity => "CMDTY"@,
            SecurityTypeView::News => "NEWS"@,
            SecurityTypeView::MutualFund => "FUND"@,
            SecurityTypeView::Crypto => "CRYPTO"@,
            SecurityTypeView::CFD => "CFD"@,
            SecurityTypeView::Other(name) => name,
        }
    }
}

impl Default for SecurityType {
    fn default() -> (r: SecurityType)
        ensures
            r@ == SecurityTypeView::initial(),
    {
        SecurityType::Stock
    }
}

impl SecurityType {
    /// Reads a wire name; a name that is not known is kept as it is.
    pub fn from(name: &str) -> (r: SecurityType)
        ensures
            r@ == SecurityTypeView::of_text(name@),
    {
        if same_text(name, "STK") {
            SecurityType::Stock
        } else if same_text(name, "OPT") {
            SecurityType::EquityOption
        } else if same_text(name, "FUT") {
            SecurityType::Future
        } else if same_text(name, "IND") {
            SecurityType::Index
        } else if same_text(name, "FOP") {
            SecurityType::FuturesOption
        } else if same_text(name, "CASH") {
            SecurityType::ForexPair
        } else if same_text(name, "BAG") {
            SecurityType::Spread
        } else if same_text(name, "WAR") {
            SecurityType::Warrant
        } else if same_text(name, "BOND") {
            SecurityType::Bond
        } else if same_text(name, "CMDTY") {
            SecurityType::Commodity
        } else if same_text(name, "NEWS") {
            SecurityType::News
        } else if same_text(name, "FUND") {
            SecurityType::MutualFund
        } else if same_text(name, "CRYPTO") {
            SecurityType::Crypto
        } else if same_text(name, "CFD") {
            SecurityType::CFD
        } else {
            SecurityType::Other(name.to_owned())
        }
    }

    /// The wire name of this kind.
    pub fn to_string(&self) -> (r: String)
        ensures
            r@ == self@.text(),
    {
        match self {
            SecurityType::Stock => "STK".to_owned(),
            SecurityType::EquityOption => "OPT".to_owned(),
            SecurityType::Future => "FUT".to_owned(),
            SecurityType::Index => "IND".to_owned(),
            SecurityType::FuturesOption => "FOP".to_owned(),
            SecurityType::ForexPair => "CASH".to_owned(),
            SecurityType::Spread => "BAG".to_owned(),
            SecurityType::Warrant => "WAR".to_owned(),
            SecurityType::Bond => "BOND".to_owned(),
            SecurityType::Commodity => "CMDTY".to_owned(),
            SecurityType::News => "NEWS".to_owned(),
            SecurityType::MutualFund => "FUND".to_owned(),
            SecurityType::Crypto => "CRYPTO".to_owned(),
            SecurityType::CFD => "CFD".to_owned(),
            SecurityType::Other(name) => name.clone(),
        }
    }
}

/// Whether a leg of a combination opens or closes a position.
#[derive(Clone, Copy, Debug, PartialEq, Eq)]
pub enum ComboLegOpenClose {
    /// As the parent security.
    Same,
    /// The leg opens a position.
    Open,
    /// The leg closes a position.
    Close,
    /// Not known.
    Unknown,
}

impl ComboLegOpenClose {
    /// The value that a wire code stands for.
    pub open spec fn of_code(code: int) -> ComboLegOpenClose {
        if code == 1 {
            ComboLegOpenClose::Open
        } else if code == 2 {
            ComboLegOpenClose::Close
        } else if code == 3 {
            ComboLegOpenClose::Unknown
        } else {
            ComboLegOpenClose::Same
        }
    }

    /// The wire code of a value.
    pub open spec fn code_of(self) -> int {
        match self {
            ComboLegOpenClose::Same => 0,
            ComboLegOpenClose::Open => 1,
            ComboLegOpenClose::Close => 2,
            ComboLegOpenClose::Unknown => 3,
        }
    }

    /// Reads a wire code; an unknown code reads as `Same`.
    pub fn from(code: i32) -> (r: ComboLegOpenClose)
        ensures
            r == ComboLegOpenClose::of_code(code as int),
    {
        if code == 1 {
            ComboLegOpenClose::Open
        } else if code == 2 {
            ComboLegOpenClose::Close
        } else if code == 3 {
            ComboLegOpenClose::Unknown
        } else {
            ComboLegOpenClose::Same
        }
    }

    /// The wire code of this value.
    pub fn code(&self) -> (r: i32)
        ensures
            r == self.code_of(),
    {
        match self {
            ComboLegOpenClose::Same => 0,
            ComboLegOpenClose::Open => 1,
            ComboLegOpenClose::Close => 2,
            ComboLegOpenClose::Unknown => 3,
        }
    }

    /// A value read back from its own wire code is the value.
    pub proof fn lemma_code_round_trip(self)
        ensures
            ComboLegOpenClose::of_code(self.code_of()) == self,
    {
    }
}

/// One leg of a combination contract.
#[derive(Clone, Debug, PartialEq)]
pub struct ComboLeg {
    /// Identifier of the leg's contract.
    pub contract_id: i32,
    /// Relative number of contracts of this leg.
    pub ratio: i32,
    /// Side of the leg: `BUY`, `SELL` or `SSHORT`.
    pub action: String,
    /// Exchange to which the leg is routed.
    pub exchange: String,
    /// Whether the leg opens or closes a position.
    pub open_close: ComboLegOpenClose,
    /// For a short sale: where the shares are held.
    pub short_sale_slot: i32,
    /// For a short sale at a third party: where the shares are held.
    pub designated_location: String,
    /// Short-sale exemption code.
    pub exempt_code: i32,
}

/// The mathematical content of [`ComboLeg`].
pub struct ComboLegView {
    pub contract_id: int,
    pub ratio: int,
    pub action: Seq<char>,
    pub exchange: Seq<char>,
    pub open_close: ComboLegOpenClose,
    pub short_sale_slot: int,
    pub designated_location: Seq<char>,
    pub exempt_code: int,
}

impl View for ComboLeg {
    type V = ComboLegView;

    open spec fn view(&self) -> ComboLegView {
        ComboLegView {
            contract_id: self.contract_id as int,
            ratio: self.ratio as int,
            action: self.action@,
            exchange: self.exchange@,
            open_close: self.open_close,
            short_sale_slot: self.short_sale_slot as int,
            designated_location: self.designated_location@,
            exempt_code: self.exempt_code as int,
        }
    }
}

impl ComboLegView {
    /// The record before anything was read into it.
    pub open spec fn initial() -> ComboLegView {
        ComboLegView {
            contract_id: 0,
            ratio: 0,
            action: Seq::<char>::empty(),
            exchange: Seq::<char>::empty(),
            open_close: ComboLegOpenClose::Same,
            short_sale_slot: 0,
            designated_location: Seq::<char>::empty(),
            exempt_code: -1,
        }
    }
}

impl Default for ComboLeg {
    fn default() -> (r: ComboLeg)
        ensures
            r@ == ComboLegView::initial(),
    {
        let r = ComboLeg {
            contract_id: 0,
            ratio: 0,
            action: String::new(),
            exchange: String::new(),
            open_close: ComboLegOpenClose::Same,
            short_sale_slot: 0,
            designated_location: String::new(),
            exempt_code: -1,
        };
        r
    }
}

/// The underlying of a delta-neutral combination.
#[derive(Clone, Debug, PartialEq)]
pub struct DeltaNeutralContract {
    /// Identifier of the underlying contract.
    pub contract_id: i32,
    /// Delta of the underlying.
    pub delta: Decimal,
    /// Price of the underlying.
    pub price: Decimal,
}

/// The mathematical content of [`DeltaNeutralContract`].
pub struct DeltaNeutralContractView {
    pub contract_id: int,
    pub delta: Seq<char>,
    pub price: Seq<char>,
}

impl View for DeltaNeutralContract {
    type V = DeltaNeutralContractView;

    open spec fn view(&self) -> DeltaNeutralContractView {
        DeltaNeutralContractView {
            contract_id: self.contract_id as int,
            delta: self.delta@,
            price: self.price@,
        }
    }
}

impl DeltaNeutralContractView {
    /// The record before anything was read into it.
    pub open spec fn initial() -> DeltaNeutralContractView {
        DeltaNeutralContractView {
            contract_id: 0,
            delta: zero_text(),
            price: zero_text(),
        }
    }
}

impl Default for DeltaNeutralContract {
    fn default() -> (r: DeltaNeutralContract)
        ensures
            r@ == DeltaNeutralContractView::initial(),
    {
        let r = DeltaNeutralContract {
            contract_id: 0,
            delta: Decimal::zero(),
            price: Decimal::zero(),
        };
        r
    }
}

/// A named parameter.
#[derive(Clone, Debug, PartialEq)]
pub struct TagValue {
    /// Name of the parameter.
    pub tag: String,
    /// Value of the parameter.
    pub value: String,
}

/// The mathematical content of [`TagValue`].
pub struct TagValueView {
    pub tag: Seq<char>,
    pub value: Seq<char>,
}

impl View for TagValue {
    type V = TagValueView;

    open spec fn view(&self) -> TagValueView {
        TagValueView {
            tag: self.tag@,
            value: self.value@,
        }
    }
}

impl TagValueView {
    /// The record before anything was read into it.
    pub open spec fn initial() -> TagValueView {
        TagValueView {
            tag: Seq::<char>::empty(),
            value: Seq::<char>::empty(),
        }
    }
}

impl Default for TagValue {
    fn default() -> (r: TagValue)
        ensures
            r@ == TagValueView::initial(),
    {
        let r = TagValue {
            tag: String::new(),
            value: String::new(),
        };
        r
    }
}

/// What is traded: a security at an exchange.
#[derive(Clone, Debug, PartialEq)]
pub struct Contract {
    /// Identifier that the broker gives the contract.
    pub contract_id: i32,
    /// Symbol of the underlying asset.
    pub symbol: Symbol,
    /// Kind of security.
    pub security_type: SecurityType,
    /// Last trading day or contract month.
    pub last_trade_date_or_contract_month: String,
    /// Strike price of an option.
    pub strike: Decimal,
    /// Put or call.
    pub right: String,
    /// Multiplier of a future or an option.
    pub multiplier: String,
    /// Destination exchange.
    pub exchange: Exchange,
    /// Currency of the underlying.
    pub currency: Currency,
    /// Symbol of the contract at its exchange.
    pub local_symbol: String,
    /// Trading class of the contract.
    pub trading_class: String,
    /// Description of the legs of a combination.
    pub combo_legs_description: String,
    /// Legs of a combination.
    pub combo_legs: Vec<ComboLeg>,
    /// Underlying of a delta-neutral combination.
    pub delta_neutral_contract: Option<DeltaNeutralContract>,
}

/// The mathematical content of [`Contract`].
pub struct ContractView {
    pub contract_id: int,
    pub symbol: Seq<char>,
    pub security_type: SecurityTypeView,
    pub last_trade_date_or_contract_month: Seq<char>,
    pub strike: Seq<char>,
    pub right: Seq<char>,
    pub multiplier: Seq<char>,
    pub exchange: Seq<char>,
    pub currency: Seq<char>,
    pub local_symbol: Seq<char>,
    pub trading_class: Seq<char>,
    pub combo_legs_description: Seq<char>,
    pub combo_legs: Seq<ComboLegView>,
    pub delta_neutral_contract: Option<DeltaNeutralContractView>,
}

impl View for Contract {
    type V = ContractView;

    closed spec fn view(&self) -> ContractView {
        ContractView {
            contract_id: self.contract_id as int,
            symbol: self.symbol@,
            security_type: self.security_type@,
            last_trade_date_or_contract_month: self.last_trade_date_or_contract_month@,
            strike: self.strike@,
            right: self.right@,
            multiplier: self.multiplier@,
            exchange: self.exchange@,
            currency: self.currency@,
            local_symbol: self.local_symbol@,
            trading_class: self.trading_class@,
            combo_legs_description: self.combo_legs_description@,
            combo_legs: views_of(self.combo_legs@),
            delta_neutral_contract: optional_view(self.delta_neutral_contract),
        }
    }
}

impl ContractView {
    /// The record before anything was read into it.
    pub open spec fn initial() -> ContractView {
        ContractView {
            contract_id: 0,
            symbol: Seq::<char>::empty(),
            security_type: SecurityTypeView::initial(),
            last_trade_date_or_contract_month: Seq::<char>::empty(),
            strike: zero_text(),
            right: Seq::<char>::empty(),
            multiplier: Seq::<char>::empty(),
            exchange: Seq::<char>::empty(),
            currency: Seq::<char>::empty(),
            local_symbol: Seq::<char>::empty(),
            trading_class: Seq::<char>::empty(),
            combo_legs_description: Seq::<char>::empty(),
            combo_legs: Seq::<ComboLegView>::empty(),
            delta_neutral_contract: None,
        }
    }

    /// This record with another value of `contract_id`.
    #[verifier::opaque]
    pub open spec fn with_contract_id(self, v: int) -> ContractView {
        ContractView { contract_id: v, ..self }
    }

    /// This record with another value of `symbol`.
    #[verifier::opaque]
    pub open spec fn with_symbol(self, v: Seq<char>) -> ContractView {
        ContractView { symbol: v, ..self }
    }

    /// This record with another value of `security_type`.
    #[verifier::opaque]
    pub open spec fn with_security_type(self, v: SecurityTypeView) -> ContractView {
        ContractView { security_type: v, ..self }
    }

    /// This record with another value of `last_trade_date_or_contract_month`.
    #[verifier::opaque]
    pub open spec fn with_last_trade_date_or_contract_month(self, v: Seq<char>) -> ContractView {
        ContractView { last_trade_date_or_contract_month: v, ..self }
    }

    /// This record with another value of `strike`.
    #[verifier::opaque]
    pub open spec fn with_strike(self, v: Seq<char>) -> ContractView {
        ContractView { strike: v, ..self }
    }

    /// This record with another value of `right`.
    #[verifier::opaque]
    pub open spec fn with_right(self, v: Seq<char>) -> ContractView {
        ContractView { right: v, ..self }
    }

    /// This record with another value of `multiplier`.
    #[verifier::opaque]
    pub open spec fn with_multiplier(self, v: Seq<char>) -> ContractView {
        ContractView { multiplier: v, ..self }
    }

    /// This record with another value of `exchange`.
    #[verifier::opaque]
    pub open spec fn with_exchange(self, v: Seq<char>) -> ContractView {
        ContractView { exchange: v, ..self }
    }

    /// This record with another value of `currency`.
    #[verifier::opaque]
    pub open spec fn with_currency(self, v: Seq<char>) -> ContractView {
        ContractView { currency: v, ..self }
    }

    /// This record with another value of `local_symbol`.
    #[verifier::opaque]
    pub open spec fn with_local_symbol(self, v: Seq<char>) -> ContractView {
        ContractView { local_symbol: v, ..self }
    }

    /// This record with another value of `trading_class`.
    #[verifier::opaque]
    pub open spec fn with_trading_class(self, v: Seq<char>) -> ContractView {
        ContractView { trading_class: v, ..self }
    }

    /// This record with another value of `combo_legs_description`.
    #[verifier::opaque]
    pub open spec fn with_combo_legs_description(self, v: Seq<char>) -> ContractView {
        ContractView { combo_legs_description: v, ..self }
    }

    /// This record with another value of `combo_legs`.
    #[verifier::opaque]
    pub open spec fn with_combo_legs(self, v: Seq<ComboLegView>) -> ContractView {
        ContractView { combo_legs: v, ..self }
    }

    /// This record with another value of `delta_neutral_contract`.
    #[verifier::opaque]
    pub open spec fn with_delta_neutral_contract(self, v: Option<DeltaNeutralContractView>) -> ContractView {
        ContractView { delta_neutral_contract: v, ..self }
    }

    proof fn lemma_with_contract_id_is_update(self, v: int)
        ensures
            self.with_contract_id(v) == (ContractView { contract_id: v, ..self }),
    {
        reveal(ContractView::with_contract_id);
    }

    proof fn lemma_with_symbol_is_update(self, v: Seq<char>)
        ensures
            self.with_symbol(v) == (ContractView { symbol: v, ..self }),
    {
        reveal(ContractView::with_symbol);
    }

    proof fn lemma_with_security_type_is_update(self, v: SecurityTypeView)
        ensures
            self.with_security_type(v) == (ContractView { security_type: v, ..self }),
    {
        reveal(ContractView::with_security_type);
    }

    proof fn lemma_with_last_trade_date_or_contract_month_is_update(self, v: Seq<char>)
        ensures
            self.with_last_trade_date_or_contract_month(v) == (ContractView { last_trade_date_or_contract_month: v, ..self }),
    {
        reveal(ContractView::with_last_trade_date_or_contract_month);
    }

    proof fn lemma_with_strike_is_update(self, v: Seq<char>)
        ensures
            self.with_strike(v) == (ContractView { strike: v, ..self }),
    {
        reveal(ContractView::with_strike);
    }

    proof fn lemma_with_right_is_update(self, v: Seq<char>)
        ensures
            self.with_right(v) == (ContractView { right: v, ..self }),
    {
        reveal(ContractView::with_right);
    }

    proof fn lemma_with_multiplier_is_update(self, v: Seq<char>)
        ensures
            self.with_multiplier(v) == (ContractView { multiplier: v, ..self }),
    {
        reveal(ContractView::with_multiplier);
    }

    proof fn lemma_with_exchange_is_update(self, v: Seq<char>)
        ensures
            self.with_exchange(v) == (ContractView { exchange: v, ..self }),
    {
        reveal(ContractView::with_exchange);
    }

    proof fn lemma_with_currency_is_update(self, v: Seq<char>)
        ensures
            self.with_currency(v) == (ContractView { currency: v, ..self }),
    {
        reveal(ContractView::with_currency);
    }

    proof fn lemma_with_local_symbol_is_update(self, v: Seq<char>)
        ensures
            self.with_local_symbol(v) == (ContractView { local_symbol: v, ..self }),
    {
        reveal(ContractView::with_local_symbol);
    }

    proof fn lemma_with_trading_class_is_update(self, v: Seq<char>)
        ensures
            self.with_trading_class(v) == (ContractView { trading_class: v, ..self }),
    {
        reveal(ContractView::with_trading_class);
    }

    proof fn lemma_with_combo_legs_description_is_update(self, v: Seq<char>)
        ensures
            self.with_combo_legs_description(v) == (ContractView { combo_legs_description: v, ..self }),
    {
        reveal(ContractView::with_combo_legs_description);
    }

    proof fn lemma_with_combo_legs_is_update(self, v: Seq<ComboLegView>)
        ensures
            self.with_combo_legs(v) == (ContractView { combo_legs: v, ..self }),
    {
        reveal(ContractView::with_combo_legs);
    }

    proof fn lemma_with_delta_neutral_contract_is_update(self, v: Option<DeltaNeutralContractView>)
        ensures
            self.with_delta_neutral_contract(v) == (ContractView { delta_neutral_contract: v, ..self }),
    {
        reveal(ContractView::with_delta_neutral_contract);
    }
}

impl Default for Contract {
    fn default() -> (r: Contract)
        ensures
            r@ == ContractView::initial(),
    {
        let r = Contract {
            contract_id: 0,
            symbol: Symbol::default(),
            security_type: SecurityType::default(),
            last_trade_date_or_contract_month: String::new(),
            strike: Decimal::zero(),
            right: String::new(),
            multiplier: String::new(),
            exchange: Exchange::default(),
            currency: Currency::default(),
            local_symbol: String::new(),
            trading_class: String::new(),
            combo_legs_description: String::new(),
            combo_legs: Vec::new(),
            delta_neutral_contract: None,
        };
        assert(views_of(r.combo_legs@) == Seq::<ComboLegView>::empty());
        r
    }
}

impl Contract {
    proof fn lemma_update_contract_id(self, v: i32)
        ensures
            (Contract { contract_id: v, ..self })@ == (ContractView { contract_id: v as int, ..self@ }),
    {
    }

    /// Setting `contract_id` in the record sets it in its content.
    pub proof fn lemma_with_contract_id(self, v: i32)
        ensures
            (Contract { contract_id: v, ..self })@ == self@.with_contract_id(v as int),
    {
        self.lemma_update_contract_id(v);
        self@.lemma_with_contract_id_is_update(v as int);
    }

    /// This record with another value of `contract_id`.
    pub fn set_contract_id(self, v: i32) -> (r: Contract)
        ensures
            r@ == self@.with_contract_id(v as int),
    {
        proof {
            self.lemma_with_contract_id(v);
        }
        Contract { contract_id: v, ..self }
    }

    proof fn lemma_update_symbol(self, v: Symbol)
        ensures
            (Contract { symbol: v, ..self })@ == (ContractView { symbol: v@, ..self@ }),
    {
    }

    /// Setting `symbol` in the record sets it in its content.
    pub proof fn lemma_with_symbol(self, v: Symbol)
        ensures
            (Contract { symbol: v, ..self })@ == self@.with_symbol(v@),
    {
        self.lemma_update_symbol(v);
        self@.lemma_with_symbol_is_update(v@);
    }

    /// This record with another value of `symbol`.
    pub fn set_symbol(self, v: Symbol) -> (r: Contract)
        ensures
            r@ == self@.with_symbol(v@),
    {
        proof {
            self.lemma_with_symbol(v);
        }
        Contract { symbol: v, ..self }
    }

    proof fn lemma_update_security_type(self, v: SecurityType)
        ensures
            (Contract { security_type: v, ..self })@ == (ContractView { security_type: v@, ..self@ }),
    {
    }

    /// Setting `security_type` in the record sets it in its content.
    pub proof fn lemma_with_security_type(self, v: SecurityType)
        ensures
            (Contract { security_type: v, ..self })@ == self@.with_security_type(v@),
    {
        self.lemma_update_security_type(v);
        self@.lemma_with_security_type_is_update(v@);
    }

    /// This record with another value of `security_type`.
    pub fn set_security_type(self, v: SecurityType) -> (r: Contract)
        ensures
            r@ == self@.with_security_type(v@),
    {
        proof {
            self.lemma_with_security_type(v);
        }
        Contract { security_type: v, ..self }
    }

    proof fn lemma_update_last_trade_date_or_contract_month(self, v: String)
        ensures
            (Contract { last_trade_date_or_contract_month: v, ..self })@ == (ContractView { last_trade_date_or_contract_month: v@, ..self@ }),
    {
    }

    /// Setting `last_trade_date_or_contract_month` in the record sets it in its content.
    pub proof fn lemma_with_last_trade_date_or_contract_month(self, v: String)
        ensures
            (Contract { last_trade_date_or_contract_month: v, ..self })@ == self@.with_last_trade_date_or_contract_month(v@),
    {
        self.lemma_update_last_trade_date_or_contract_month(v);
        self@.lemma_with_last_trade_date_or_contract_month_is_update(v@);
    }

    /// This record with another value of `last_trade_date_or_contract_month`.
    pub fn set_last_trade_date_or_contract_month(self, v: String) -> (r: Contract)
        ensures
            r@ == self@.with_last_trade_date_or_contract_month(v@),
    {
        proof {
            self.lemma_with_last_trade_date_or_contract_month(v);
        }
        Contract { last_trade_date_or_contract_month: v, ..self }
    }

    proof fn lemma_update_strike(self, v: Decimal)
        ensures
            (Contract { strike: v, ..self })@ == (ContractView { strike: v@, ..self@ }),
    {
    }

    /// Setting `strike` in the record sets it in its content.
    pub proof fn lemma_with_strike(self, v: Decimal)
        ensures
            (Contract { strike: v, ..self })@ == self@.with_strike(v@),
    {
        self.lemma_update_strike(v);
        self@.lemma_with_strike_is_update(v@);
    }

    /// This record with another value of `strike`.
    pub fn set_strike(self, v: Decimal) -> (r: Contract)
        ensures
            r@ == self@.with_strike(v@),
    {
        proof {
            self.lemma_with_strike(v);
        }
        Contract { strike: v, ..self }
    }

    proof fn lemma_update_right(self, v: String)
        ensures
            (Contract { right: v, ..self })@ == (ContractView { right: v@, ..self@ }),
    {
    }

    /// Setting `right` in the record sets it in its content.
    pub proof fn lemma_with_right(self, v: String)
        ensures
            (Contract { right: v, ..self })@ == self@.with_right(v@),
    {
        self.lemma_update_right(v);
        self@.lemma_with_right_is_update(v@);
    }

    /// This record with another value of `right`.
    pub fn set_right(self, v: String) -> (r: Contract)
        ensures
            r@ == self@.with_right(v@),
    {
        proof {
            self.lemma_with_right(v);
        }
        Contract { right: v, ..self }
    }

    proof fn lemma_update_multiplier(self, v: String)
        ensures
            (Contract { multiplier: v, ..self })@ == (ContractView { multiplier: v@, ..self@ }),
    {
    }

    /// Setting `multiplier` in the record sets it in its content.
    pub proof fn lemma_with_multiplier(self, v: String)
        ensures
            (Contract { multiplier: v, ..self })@ == self@.with_multiplier(v@),
    {
        self.lemma_update_multiplier(v);
        self@.lemma_with_multiplier_is_update(v@);
    }

    /// This record with another value of `multiplier`.
    pub fn set_multiplier(self, v: String) -> (r: Contract)
        ensures
            r@ == self@.with_multiplier(v@),
    {
        proof {
            self.lemma_with_multiplier(v);
        }
        Contract { multiplier: v, ..self }
    }

    proof fn lemma_update_exchange(self, v: Exchange)
        ensures
            (Contract { exchange: v, ..self })@ == (ContractView { exchange: v@, ..self@ }),
    {
    }

    /// Setting `exchange` in the record sets it in its content.
    pub proof fn lemma_with_exchange(self, v: Exchange)
        ensures
            (Contract { exchange: v, ..self })@ == self@.with_exchange(v@),
    {
        self.lemma_update_exchange(v);
        self@.lemma_with_exchange_is_update(v@);
    }

    /// This record with another value of `exchange`.
    pub fn set_exchange(self, v: Exchange) -> (r: Contract)
        ensures
            r@ == self@.with_exchange(v@),
    {
        proof {
            self.lemma_with_exchange(v);
        }
        Contract { exchange: v, ..self }
    }

    proof fn lemma_update_currency(self, v: Currency)
        ensures
            (Contract { currency: v, ..self })@ == (ContractView { currency: v@, ..self@ }),
    {
    }

    /// Setting `currency` in the record sets it in its content.
    pub proof fn lemma_with_currency(self, v: Currency)
        ensures
            (Contract { currency: v, ..self })@ == self@.with_currency(v@),
    {
        self.lemma_update_currency(v);
        self@.lemma_with_currency_is_update(v@);
    }

    /// This record with another value of `currency`.
    pub fn set_currency(self, v: Currency) -> (r: Contract)
        ensures
            r@ == self@.with_currency(v@),
    {
        proof {
            self.lemma_with_currency(v);
        }
        Contract { currency: v, ..self }
    }

    proof fn lemma_update_local_symbol(self, v: String)
        ensures
            (Contract { local_symbol: v, ..self })@ == (ContractView { local_symbol: v@, ..self@ }),
    {
    }

    /// Setting `local_symbol` in the record sets it in its content.
    pub proof fn lemma_with_local_symbol(self, v: String)
        ensures
            (Contract { local_symbol: v, ..self })@ == self@.with_local_symbol(v@),
    {
        self.lemma_update_local_symbol(v);
        self@.lemma_with_local_symbol_is_update(v@);
    }

    /// This record with another value of `local_symbol`.
    pub fn set_local_symbol(self, v: String) -> (r: Contract)
        ensures
            r@ == self@.with_local_symbol(v@),
    {
        proof {
            self.lemma_with_local_symbol(v);
        }
        Contract { local_symbol: v, ..self }
    }

    proof fn lemma_update_trading_class(self, v: String)
        ensures
            (Contract { trading_class: v, ..self })@ == (ContractView { trading_class: v@, ..self@ }),
    {
    }

    /// Setting `trading_class` in the record sets it in its content.
    pub proof fn lemma_with_trading_class(self, v: String)
        ensures
            (Contract { trading_class: v, ..self })@ == self@.with_trading_class(v@),
    {
        self.lemma_update_trading_class(v);
        self@.lemma_with_trading_class_is_update(v@);
    }

    /// This record with another value of `trading_class`.
    pub fn set_trading_class(self, v: String) -> (r: Contract)
        ensures
            r@ == self@.with_trading_class(v@),
    {
        proof {
            self.lemma_with_trading_class(v);
        }
        Contract { trading_class: v, ..self }
    }

    proof fn lemma_update_combo_legs_description(self, v: String)
        ensures
            (Contract { combo_legs_description: v, ..self })@ == (ContractView { combo_legs_description: v@, ..self@ }),
    {
    }

    /// Setting `combo_legs_description` in the record sets it in its content.
    pub proof fn lemma_with_combo_legs_description(self, v: String)
        ensures
            (Contract { combo_legs_description: v, ..self })@ == self@.with_combo_legs_description(v@),
    {
        self.lemma_update_combo_legs_description(v);
        self@.lemma_with_combo_legs_description_is_update(v@);
    }

    /// This record with another value of `combo_legs_description`.
    pub fn set_combo_legs_description(self, v: String) -> (r: Contract)
        ensures
            r@ == self@.with_combo_legs_description(v@),
    {
        proof {
            self.lemma_with_combo_legs_description(v);
        }
        Contract { combo_legs_description: v, ..self }
    }

    proof fn lemma_update_combo_legs(self, v: Vec<ComboLeg>)
        ensures
            (Contract { combo_legs: v, ..self })@ == (ContractView { combo_legs: views_of(v@), ..self@ }),
    {
    }

    /// Setting `combo_legs` in the record sets it in its content.
    pub proof fn lemma_with_combo_legs(self, v: Vec<ComboLeg>)
        ensures
            (Contract { combo_legs: v, ..self })@ == self@.with_combo_legs(views_of(v@)),
    {
        self.lemma_update_combo_legs(v);
        self@.lemma_with_combo_legs_is_update(views_of(v@));
    }

    /// This record with another value of `combo_legs`.
    pub fn set_combo_legs(self, v: Vec<ComboLeg>) -> (r: Contract)
        ensures
            r@ == self@.with_combo_legs(views_of(v@)),
    {
        proof {
            self.lemma_with_combo_legs(v);
        }
        Contract { combo_legs: v, ..self }
    }

    /// This record with one more entry of `combo_legs`.
    pub fn push_combo_legs(self, entry: ComboLeg) -> (r: Contract)
        ensures
            r@ == self@.with_combo_legs(self@.combo_legs.push(entry@)),
    {
        let ghost before = self;
        let ghost pushed = entry;
        let mut combo_legs = self.combo_legs;
        combo_legs.push(entry);
        proof {
            before.lemma_push_combo_legs(combo_legs, pushed);
        }
        Contract { combo_legs, ..self }
    }

    /// Pushing an entry to `combo_legs` pushes its content.
    pub proof fn lemma_push_combo_legs(self, pushed: Vec<ComboLeg>, entry: ComboLeg)
        requires
            pushed@ == self.combo_legs@.push(entry),
        ensures
            (Contract { combo_legs: pushed, ..self })@ == self@.with_combo_legs(self@.combo_legs.push(entry@)),
    {
        self.lemma_with_combo_legs(pushed);
        lemma_views_push(self.combo_legs@, entry);
    }

    proof fn lemma_update_delta_neutral_contract(self, v: Option<DeltaNeutralContract>)
        ensures
            (Contract { delta_neutral_contract: v, ..self })@ == (ContractView { delta_neutral_contract: optional_view(v), ..self@ }),
    {
    }

    /// Setting `delta_neutral_contract` in the record sets it in its content.
    pub proof fn lemma_with_delta_neutral_contract(self, v: Option<DeltaNeutralContract>)
        ensures
            (Contract { delta_neutral_contract: v, ..self })@ == self@.with_delta_neutral_contract(optional_view(v)),
    {
        self.lemma_update_delta_neutral_contract(v);
        self@.lemma_with_delta_neutral_contract_is_update(optional_view(v));
    }

    /// This record with another value of `delta_neutral_contract`.
    pub fn set_delta_neutral_contract(self, v: Option<DeltaNeutralContract>) -> (r: Contract)
        ensures
            r@ == self@.with_delta_neutral_contract(optional_view(v)),
    {
        proof {
            self.lemma_with_delta_neutral_contract(v);
        }
        Contract { delta_neutral_contract: v, ..self }
    }
}

} // verus!

use tws_core::contracts::ComboLegOpenClose;
use tws_core::contracts::SecurityType;
use tws_core::contracts::Symbol;
use tws_core::errors::Error;
use tws_core::messages::RequestMessage;
use tws_core::messages::ResponseMessage;
use tws_core::numeric::Decimal;
use tws_core::orders::conditions::MarginCondition;
use tws_core::orders::conditions::OrderCondition;
use tws_core::orders::conditions::PriceCondition;
use tws_core::orders::conditions::TriggerMethod;
use tws_core::orders::decoders::decode_commission_report;
use tws_core::orders::decoders::decode_completed_order;
use tws_core::orders::decoders::decode_condition;
use tws_core::orders::decoders::decode_open_order;
use tws_core::orders::decoders::decode_order_status;
use tws_core::orders::decoders::OrderDecoder;
use tws_core::orders::encoders::encode_condition;
use tws_core::orders::Action;
use tws_core::orders::AuctionStrategy;
use tws_core::orders::Liquidity;
use tws_core::orders::OcaType;
use tws_core::orders::Order;
use tws_core::orders::OrderOpenClose;
use tws_core::orders::OrderOrigin;
use tws_core::orders::Rule80A;
use tws_core::orders::TimeInForce;

fn message(fields: &[&str]) -> ResponseMessage {
    let mut text = fields.join("\0");
    text.push('\0');
    ResponseMessage::from(&text)
}

#[test]
fn order_status_carries_the_capped_price_since_version_131() {
    let fields = ["3", "42", "Filled", "100", "0", "150.5", "123456", "0", "150.5", "7", "", "151"];
    let status = decode_order_status(131, &mut message(&fields)).unwrap();
    assert_eq!(status.order_id, 42);
    assert_eq!(status.status, "Filled");
    assert_eq!(status.filled.as_str(), "100");
    assert_eq!(status.remaining.as_str(), "0");
    assert_eq!(status.average_fill_price.as_str(), "150.5");
    assert_eq!(status.perm_id, 123456);
    assert_eq!(status.parent_id, 0);
    assert_eq!(status.last_fill_price.as_str(), "150.5");
    assert_eq!(status.client_id, 7);
    assert_eq!(status.why_held, "");
    assert_eq!(status.market_cap_price.as_str(), "151");
}

#[test]
fn order_status_below_version_131_has_a_version_field_and_no_capped_price() {
    let fields = ["3", "6", "42", "Filled", "100", "0", "150.5", "123456", "0", "150.5", "7", "locate", "151"];
    let mut frame = message(&fields);
    let status = decode_order_status(130, &mut frame).unwrap();
    assert_eq!(status.order_id, 42);
    assert_eq!(status.why_held, "locate");
    assert_eq!(status.market_cap_price.as_str(), "0");
    assert_eq!(frame.position(), 12);
}

#[test]
fn commission_report_has_six_fields_at_every_version() {
    let fields = ["59", "1", "0001f4e8.67890abc.01.01", "1.25", "USD", "1.7976931348623157E308", "", "20260115"];
    for version in [100, 173, 200] {
        let report = decode_commission_report(version, &mut message(&fields)).unwrap();
        assert_eq!(report.execution_id, "0001f4e8.67890abc.01.01");
        assert_eq!(report.commission.as_str(), "1.25");
        assert_eq!(report.currency, "USD");
        assert_eq!(report.realized_pnl, None);
        assert_eq!(report.yields, None);
        assert_eq!(report.yield_redemption_date, "20260115");
    }
}

#[test]
fn a_message_that_ends_too_early_is_a_parse_error() {
    let fields = ["59", "1", "id", "1.25"];
    let mut frame = message(&fields);
    let end = decode_commission_report(200, &mut frame);
    assert_eq!(end, Err(Error::Parse(5, "".to_string(), "end of message".to_string())));
    let result = decode_open_order(200, message(&["5", "42", "265598"]));
    assert_eq!(result.err(), Some(Error::Parse(4, "".to_string(), "end of message".to_string())));
    let result = decode_completed_order(200, message(&["101", "x"]));
    assert_eq!(result.err(), Some(Error::Parse(2, "x".to_string(), "invalid digit found in string".to_string())));
}

#[test]
fn an_unknown_action_stops_the_decoder() {
    let mut fields = vec!["5", "42", "265598", "AAPL", "STK", "", "0", "?", "", "SMART", "USD", "AAPL", "NMS"];
    fields.push("HOLD");
    let result = decode_open_order(200, message(&fields));
    assert_eq!(result.err(), Some(Error::Parse(14, "HOLD".to_string(), "unknown action".to_string())));
}

#[test]
fn condition_type_99_is_a_parse_error() {
    let mut frame = ResponseMessage::from("99\x001\x00");
    assert_eq!(decode_condition(&mut frame),
        Err(Error::Parse(0, "99".to_string(), "Unknown condition type".to_string())));
}

#[test]
fn every_kind_of_condition_is_decoded_by_its_code() {
    let conditions = [
        OrderCondition::Price(PriceCondition {
            contract_id: 12345,
            exchange: "NASDAQ".to_string(),
            price: Decimal::parse("150.25").unwrap(),
            trigger_method: TriggerMethod::Midpoint,
            is_more: true,
            is_conjunction: false,
        }),
        OrderCondition::Margin(MarginCondition { percent: 30, is_more: false, is_conjunction: true }),
    ];
    for original in conditions.iter() {
        let mut request = RequestMessage::new();
        request.push_str("before");
        encode_condition(&mut request, original);
        request.push_str("after");
        let mut response = ResponseMessage::from(&request.encode());
        assert_eq!(response.next_string(), Ok("before".to_string()));
        assert_eq!(decode_condition(&mut response).as_ref(), Ok(original));
        assert_eq!(response.next_string(), Ok("after".to_string()));
    }
}

#[test]
fn the_condition_encoder_writes_kind_and_conjunction_first() {
    let mut request = RequestMessage::new();
    let condition = OrderCondition::Price(PriceCondition {
        contract_id: 12345,
        exchange: "NASDAQ".to_string(),
        price: Decimal::parse("150").unwrap(),
        trigger_method: TriggerMethod::DoubleBidAsk,
        is_more: true,
        is_conjunction: false,
    });
    encode_condition(&mut request, &condition);
    assert_eq!(request.encode_simple(), "1|0|12345|NASDAQ|1|150|1|");
    assert_eq!(condition.condition_type(), 1);
    assert!(!condition.is_conjunction());
}

#[test]
fn wire_names_and_codes_are_read_and_written() {
    assert_eq!(Action::from("BUY"), Some(Action::Buy));
    assert_eq!(Action::from("SSHORT"), Some(Action::SellShort));
    assert_eq!(Action::from("buy"), None);
    assert_eq!(Action::SellLong.to_string(), "SLONG");
    assert_eq!(TimeInForce::from("GTC"), TimeInForce::GoodTilCanceled);
    assert_eq!(TimeInForce::from("whatever"), TimeInForce::Day);
    assert_eq!(TimeInForce::FillOrKill.to_string(), "FOK");
    assert_eq!(Rule80A::from("J"), Some(Rule80A::IndividualPTIA));
    assert_eq!(Rule80A::from(""), None);
    assert_eq!(OrderOpenClose::from("C"), Some(OrderOpenClose::Close));
    assert_eq!(OrderOrigin::from(1), OrderOrigin::Firm);
    assert_eq!(OrderOrigin::from(7), OrderOrigin::Customer);
    assert_eq!(OcaType::from(3), OcaType::ReduceWithoutBlock);
    assert_eq!(OcaType::ReduceWithBlock.code(), 2);
    assert_eq!(AuctionStrategy::from(0), None);
    assert_eq!(AuctionStrategy::from(2), Some(AuctionStrategy::Improvement));
    assert_eq!(Liquidity::from(2), Liquidity::RemovedLiquidity);
    assert_eq!(TriggerMethod::from(7), TriggerMethod::LastOrBidAsk);
    assert_eq!(TriggerMethod::from(5), TriggerMethod::Standard);
    assert_eq!(TriggerMethod::Midpoint.code(), 8);
    assert_eq!(ComboLegOpenClose::from(2), ComboLegOpenClose::Close);
    assert_eq!(SecurityType::from("BAG"), SecurityType::Spread);
    assert_eq!(SecurityType::from("SLB"), SecurityType::Other("SLB".to_string()));
    assert_eq!(SecurityType::Other("SLB".to_string()).to_string(), "SLB");
    assert_eq!(SecurityType::ForexPair.to_string(), "CASH");
    assert_eq!(Symbol::from("AAPL".to_string()).as_str(), "AAPL");
}

#[test]
fn an_order_starts_empty_and_is_built_field_by_field() {
    let order = Order::default();
    assert_eq!(order.order_id, 0);
    assert_eq!(order.exempt_code, -1);
    assert_eq!(order.action, Action::Buy);
    assert_eq!(order.total_quantity.as_str(), "0");
    assert!(!order.is_delta_neutral());
    assert!(!order.has_scale_increment());
    let order = order
        .set_order_type("PEG BENCH".to_string())
        .set_hidden(true)
        .set_limit_price(Decimal::parse("1.5"))
        .set_scale_price_increment(Decimal::parse("0.01"))
        .set_delta_neutral_order_type("MKT".to_string())
        .set_hedge_type("D".to_string())
        .set_algo_strategy("Vwap".to_string());
    assert!(order.hidden);
    assert_eq!(order.limit_price.as_ref().unwrap().as_str(), "1.5");
    assert!(order.is_pegged_to_benchmark());
    assert!(order.has_scale_increment());
    assert!(order.is_delta_neutral());
    assert!(order.has_hedge());
    assert!(order.has_algo());
    assert_eq!(order.order_id, 0);
}

#[test]
fn the_order_identifier_is_the_one_on_the_wire() {
    let decoder = OrderDecoder::new(200, message(&["5", "42", "265598"]));
    let data = decoder.read_order_id().unwrap().into_order_data();
    assert_eq!(data.order_id, 42);
    assert_eq!(data.order.order_id, 42);
    let decoder = OrderDecoder::new(144, message(&["5", "34", "42", "265598"]));
    let data = decoder.read_order_id().unwrap().into_order_data();
    assert_eq!(data.order_id, 42);
    let untouched = OrderDecoder::new(200, message(&["101", "265598"])).into_order_data();
    assert_eq!(untouched.order_id, -1);
    assert_eq!(untouched.order.order_id, 0);
}

#[test]
fn conditions_are_not_on_the_wire_before_version_102() {
    let decoder = OrderDecoder::new(101, message(&["5", "34", "7"]));
    let decoder = decoder.read_conditions().unwrap();
    let data = decoder.read_order_id().unwrap().into_order_data();
    assert_eq!(data.order_id, 7);
    assert!(data.order.conditions.is_empty());
    let spent = OrderDecoder::new(101, message(&["5"]));
    assert!(spent.read_conditions().is_ok());
    let spent = OrderDecoder::new(102, message(&["5"]));
    assert!(spent.read_conditions().is_err());
    let decoder = OrderDecoder::new(102, message(&["5", "34", "1", "4", "1", "0", "30", "1", "0", "9"]));
    let decoder = decoder.read_conditions().unwrap();
    let data = decoder.read_order_id().unwrap().into_order_data();
    assert_eq!(data.order.conditions.len(), 1);
    assert!(data.order.conditions_ignore_rth);
    assert!(!data.order.conditions_cancel_order);
    assert_eq!(data.order_id, 9);
}

#[test]
fn a_leg_count_below_one_reads_no_leg_and_one_too_large_stops_at_the_end() {
    let decoder = OrderDecoder::new(200, message(&["5", "legs", "0", "-3", "11"]));
    let decoder = decoder.read_combo_legs().unwrap();
    let data = decoder.read_order_id().unwrap().into_order_data();
    assert_eq!(data.contract.combo_legs_description, "legs");
    assert!(data.contract.combo_legs.is_empty());
    assert!(data.order.order_combo_legs.is_empty());
    assert_eq!(data.order_id, 11);
    let decoder = OrderDecoder::new(200, message(&["5", "", "2147483647", "1", "1", "BUY", "SMART", "0", "0", "", "-1"]));
    let stopped = decoder.read_combo_legs();
    assert_eq!(stopped.err(), Some(Error::Parse(12, "".to_string(), "end of message".to_string())));
    let decoder = OrderDecoder::new(200, message(&["5", "", "1", "1", "1", "BUY", "SMART", "0", "0", "", "-1", "2", "1.5", ""]));
    let data = decoder.read_combo_legs().unwrap().into_order_data();
    assert_eq!(data.contract.combo_legs.len(), 1);
    assert_eq!(data.contract.combo_legs[0].action, "BUY");
    assert_eq!(data.order.order_combo_legs.len(), 2);
    assert_eq!(data.order.order_combo_legs[0].price, Decimal::parse("1.5"));
    assert_eq!(data.order.order_combo_legs[1].price, None);
}

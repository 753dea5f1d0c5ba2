//! Encoders of the parts of an order that the client sends: its conditions.

use vstd::prelude::*;
use vstd::string::*;
use crate::messages::bool_text;
use crate::messages::lemma_bool_field_round_trip;
use crate::messages::lemma_double_field_round_trip;
use crate::messages::lemma_int_field_round_trip;
use crate::messages::unset_double;
use crate::messages::MessageView;
use crate::messages::RequestMessage;
use crate::numeric::integer_text;
use crate::numeric::is_decimal;
use crate::orders::conditions::ExecutionConditionView;
use crate::orders::conditions::MarginConditionView;
use crate::orders::conditions::OrderCondition;
use crate::orders::conditions::OrderConditionView;
use crate::orders::conditions::PercentChangeConditionView;
use crate::orders::conditions::PriceConditionView;
use crate::orders::conditions::TimeConditionView;
use crate::orders::conditions::TriggerMethod;
use crate::orders::conditions::VolumeConditionView;
use crate::orders::decoders::condition;
use crate::orders::decoders::execution_condition;
use crate::orders::decoders::margin_condition;
use crate::orders::decoders::percent_change_condition;
use crate::orders::decoders::price_condition;
use crate::orders::decoders::time_condition;
use crate::orders::decoders::volume_condition;
use crate::reading::Reading;

verus! {

/// The fields that follow the kind and the conjunction flag of a condition.
pub open spec fn condition_body(c: OrderConditionView) -> Seq<Seq<char>> {
    match c {
        OrderConditionView::Price(p) => seq![
            integer_text(p.contract_id),
            p.exchange,
            bool_text(p.is_more),
            p.price,
            integer_text(p.trigger_method.code_of()),
        ],
        OrderConditionView::Time(t) => seq![bool_text(t.is_more), t.time],
        OrderConditionView::Margin(m) => seq![bool_text(m.is_more), integer_text(m.percent)],
        OrderConditionView::Execution(e) => seq![e.symbol, e.security_type, e.exchange],
        OrderConditionView::Volume(v) => seq![
            integer_text(v.contract_id),
            v.exchange,
            bool_text(v.is_more),
            integer_text(v.volume),
        ],
        OrderConditionView::PercentChange(p) => seq![
            integer_text(p.contract_id),
            p.exchange,
            bool_text(p.is_more),
            p.percent,
        ],
    }
}

/// The fields of a condition on the wire: the code of its kind, the
/// conjunction flag, then the fields of its kind.
pub open spec fn condition_fields(c: OrderConditionView) -> Seq<Seq<char>> {
    seq![integer_text(c.kind()), bool_text(c.conjunction())] + condition_body(c)
}

/// Appends the fields of a condition to a message.
pub fn encode_condition(message: &mut RequestMessage, condition: &OrderCondition)
    ensures
        final(message)@ == old(message)@ + condition_fields(condition@),
{
    message.push_int(condition.condition_type());
    message.push_bool(condition.is_conjunction());
    match condition {
        OrderCondition::Price(c) => {
            message.push_int(c.contract_id);
            message.push_str(c.exchange.as_str());
            message.push_bool(c.is_more);
            message.push_decimal(&c.price);
            message.push_int(c.trigger_method.code());
        },
        OrderCondition::Time(c) => {
            message.push_bool(c.is_more);
            message.push_str(c.time.as_str());
        },
        OrderCondition::Margin(c) => {
            message.push_bool(c.is_more);
            message.push_int(c.percent);
        },
        OrderCondition::Execution(c) => {
            message.push_str(c.symbol.as_str());
            message.push_str(c.security_type.as_str());
            message.push_str(c.exchange.as_str());
        },
        OrderCondition::Volume(c) => {
            message.push_int(c.contract_id);
            message.push_str(c.exchange.as_str());
            message.push_bool(c.is_more);
            message.push_int(c.volume);
        },
        OrderCondition::PercentChange(c) => {
            message.push_int(c.contract_id);
            message.push_str(c.exchange.as_str());
            message.push_bool(c.is_more);
            message.push_decimal(&c.percent);
        },
    }
    assert(message@ =~= old(message)@ + condition_fields(condition@));
}

/// An integer that an integer field can carry.
pub open spec fn fits_int(v: int) -> bool {
    i32::MIN <= v <= i32::MAX
}

/// A decimal that a decimal field carries as itself: a decimal number other
/// than the one that stands for "unset".
pub open spec fn fits_double(text: Seq<char>) -> bool {
    is_decimal(text) && text != unset_double()
}

/// A condition that the wire carries as itself: its integers fit their
/// fields and its decimals are decimals other than the reserved one.
pub open spec fn fits_wire(c: OrderConditionView) -> bool {
    match c {
        OrderConditionView::Price(p) => fits_int(p.contract_id) && fits_double(p.price),
        OrderConditionView::Time(t) => true,
        OrderConditionView::Margin(m) => fits_int(m.percent),
        OrderConditionView::Execution(e) => true,
        OrderConditionView::Volume(v) => fits_int(v.contract_id) && fits_int(v.volume),
        OrderConditionView::PercentChange(p) => fits_int(p.contract_id) && fits_double(p.percent),
    }
}

/// A message that holds `fields` from the reader on.
pub open spec fn holds(m: MessageView, fields: Seq<Seq<char>>) -> bool {
    &&& m.position + fields.len() <= m.fields.len()
    &&& forall|k: int| 0 <= k < fields.len() ==> #[trigger] m.fields[m.position + k] == fields[k]
}

/// The reader moved over `n` fields.
pub open spec fn advanced(m: MessageView, n: nat) -> MessageView {
    MessageView { position: m.position + n, ..m }
}

proof fn lemma_price_round_trip(p: PriceConditionView, m: MessageView)
    requires
        fits_wire(OrderConditionView::Price(p)),
        holds(m, condition_body(OrderConditionView::Price(p))),
    ensures
        price_condition(m, p.is_conjunction) == (Reading {
            message: advanced(m, 5),
            value: p,
            failure: None,
        }),
{
    let body = condition_body(OrderConditionView::Price(p));
    assert(m.fields[m.position + 0int] == body[0]);
    assert(m.fields[m.position + 1int] == body[1]);
    assert(m.fields[m.position + 2int] == body[2]);
    assert(m.fields[m.position + 3int] == body[3]);
    assert(m.fields[m.position + 4int] == body[4]);
    lemma_int_field_round_trip(p.contract_id);
    lemma_bool_field_round_trip(p.is_more);
    lemma_double_field_round_trip(p.price);
    lemma_int_field_round_trip(p.trigger_method.code_of());
    p.trigger_method.lemma_code_round_trip();
    let m1 = m.skip();
    let m2 = m1.skip();
    let m3 = m2.skip();
    let m4 = m3.skip();
    assert(m4.skip() == advanced(m, 5));
}

proof fn lemma_time_round_trip(t: TimeConditionView, m: MessageView)
    requires
        holds(m, condition_body(OrderConditionView::Time(t))),
    ensures
        time_condition(m, t.is_conjunction) == (Reading {
            message: advanced(m, 2),
            value: t,
            failure: None,
        }),
{
    let body = condition_body(OrderConditionView::Time(t));
    assert(m.fields[m.position + 0int] == body[0]);
    assert(m.fields[m.position + 1int] == body[1]);
    lemma_bool_field_round_trip(t.is_more);
    assert(m.skip().skip() == advanced(m, 2));
}

proof fn lemma_margin_round_trip(c: MarginConditionView, m: MessageView)
    requires
        fits_wire(OrderConditionView::Margin(c)),
        holds(m, condition_body(OrderConditionView::Margin(c))),
    ensures
        margin_condition(m, c.is_conjunction) == (Reading {
            message: advanced(m, 2),
            value: c,
            failure: None,
        }),
{
    let body = condition_body(OrderConditionView::Margin(c));
    assert(m.fields[m.position + 0int] == body[0]);
    assert(m.fields[m.position + 1int] == body[1]);
    lemma_bool_field_round_trip(c.is_more);
    lemma_int_field_round_trip(c.percent);
    assert(m.skip().skip() == advanced(m, 2));
}

proof fn lemma_execution_round_trip(c: ExecutionConditionView, m: MessageView)
    requires
        holds(m, condition_body(OrderConditionView::Execution(c))),
    ensures
        execution_condition(m, c.is_conjunction) == (Reading {
            message: advanced(m, 3),
            value: c,
            failure: None,
        }),
{
    let body = condition_body(OrderConditionView::Execution(c));
    assert(m.fields[m.position + 0int] == body[0]);
    assert(m.fields[m.position + 1int] == body[1]);
    assert(m.fields[m.position + 2int] == body[2]);
    assert(m.skip().skip().skip() == advanced(m, 3));
}

proof fn lemma_volume_round_trip(c: VolumeConditionView, m: MessageView)
    requires
        fits_wire(OrderConditionView::Volume(c)),
        holds(m, condition_body(OrderConditionView::Volume(c))),
    ensures
        volume_condition(m, c.is_conjunction) == (Reading {
            message: advanced(m, 4),
            value: c,
            failure: None,
        }),
{
    let body = condition_body(OrderConditionView::Volume(c));
    assert(m.fields[m.position + 0int] == body[0]);
    assert(m.fields[m.position + 1int] == body[1]);
    assert(m.fields[m.position + 2int] == body[2]);
    assert(m.fields[m.position + 3int] == body[3]);
    lemma_int_field_round_trip(c.contract_id);
    lemma_bool_field_round_trip(c.is_more);
    lemma_int_field_round_trip(c.volume);
    assert(m.skip().skip().skip().skip() == advanced(m, 4));
}

proof fn lemma_percent_change_round_trip(c: PercentChangeConditionView, m: MessageView)
    requires
        fits_wire(OrderConditionView::PercentChange(c)),
        holds(m, condition_body(OrderConditionView::PercentChange(c))),
    ensures
        percent_change_condition(m, c.is_conjunction) == (Reading {
            message: advanced(m, 4),
            value: c,
            failure: None,
        }),
{
    let body = condition_body(OrderConditionView::PercentChange(c));
    assert(m.fields[m.position + 0int] == body[0]);
    assert(m.fields[m.position + 1int] == body[1]);
    assert(m.fields[m.position + 2int] == body[2]);
    assert(m.fields[m.position + 3int] == body[3]);
    lemma_int_field_round_trip(c.contract_id);
    lemma_bool_field_round_trip(c.is_more);
    lemma_double_field_round_trip(c.percent);
    assert(m.skip().skip().skip().skip() == advanced(m, 4));
}

/// Decoding what the encoder wrote gives the condition back, at every
/// version: wherever a message holds the fields of a condition that fits
/// the wire, the decoder reads exactly those fields and yields that
/// condition.
pub proof fn lemma_condition_round_trip(c: OrderConditionView, m: MessageView)
    requires
        fits_wire(c),
        holds(m, condition_fields(c)),
    ensures
        condition(m) == (Reading {
            message: advanced(m, condition_fields(c).len()),
            value: c,
            failure: None,
        }),
{
    let fields = condition_fields(c);
    let body = condition_body(c);
    assert(m.fields[m.position + 0int] == fields[0]);
    assert(m.fields[m.position + 1int] == fields[1]);
    lemma_int_field_round_trip(c.kind());
    lemma_bool_field_round_trip(c.conjunction());
    let rest = m.skip().skip();
    assert(rest == advanced(m, 2));
    assert(holds(rest, body)) by {
        assert forall|k: int| 0 <= k < body.len() implies #[trigger] rest.fields[rest.position
            + k] == body[k] by {
            assert(m.fields[m.position + (k + 2)] == fields[k + 2]);
        }
    }
    match c {
        OrderConditionView::Price(p) => {
            lemma_price_round_trip(p, rest);
            assert(advanced(rest, 5) == advanced(m, fields.len()));
        },
        OrderConditionView::Time(t) => {
            lemma_time_round_trip(t, rest);
            assert(advanced(rest, 2) == advanced(m, fields.len()));
        },
        OrderConditionView::Margin(x) => {
            lemma_margin_round_trip(x, rest);
            assert(advanced(rest, 2) == advanced(m, fields.len()));
        },
        OrderConditionView::Execution(e) => {
            lemma_execution_round_trip(e, rest);
            assert(advanced(rest, 3) == advanced(m, fields.len()));
        },
        OrderConditionView::Volume(v) => {
            lemma_volume_round_trip(v, rest);
            assert(advanced(rest, 4) == advanced(m, fields.len()));
        },
        OrderConditionView::PercentChange(p) => {
            lemma_percent_change_round_trip(p, rest);
            assert(advanced(rest, 4) == advanced(m, fields.len()));
        },
    }
}

} // verus!

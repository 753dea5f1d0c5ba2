//! The message buffer: a frame's ordered fields with a typed reader over
//! them, and the writer that builds an outgoing frame field by field.

use vstd::prelude::*;
use vstd::string::*;
use crate::errors::Error;
use crate::errors::ErrorView;
use crate::numeric::bounded_integer;
use crate::numeric::format_integer;
use crate::numeric::integer_text;
use crate::numeric::is_decimal;
use crate::numeric::parse_integer;
use crate::numeric::zero_text;
use crate::numeric::Decimal;
use crate::numeric::NumberError;
use crate::text::chars_of;
use crate::text::same_text;

verus! {

/// The character that ends every field on the wire.
pub const FIELD_END: char = '\0';

/// The character that ends every field in the display form.
pub const DISPLAY_END: char = '|';

/// The integer that stands for "unset".
pub const UNSET_INTEGER: i32 = 2147483647;

/// The long integer that stands for "unset".
pub const UNSET_LONG: i64 = 9223372036854775807;

/// The text of the decimal that stands for "unset".
pub open spec fn unset_double() -> Seq<char> {
    "1.7976931348623157E308"@
}

/// Reason of a field that is not a sign followed by digits.
pub open spec fn reason_invalid_integer() -> Seq<char> {
    "invalid digit found in string"@
}

/// Reason of an integer field outside the range of its type.
pub open spec fn reason_out_of_range() -> Seq<char> {
    "number does not fit in target type"@
}

/// Reason of a field that is not a decimal number.
pub open spec fn reason_invalid_decimal() -> Seq<char> {
    "invalid decimal number"@
}

/// Reason of a read past the last field.
pub open spec fn reason_end_of_message() -> Seq<char> {
    "end of message"@
}

/// The reason that is given for an integer field that cannot be read.
pub open spec fn integer_reason(e: NumberError) -> Seq<char> {
    match e {
        NumberError::Invalid => reason_invalid_integer(),
        NumberError::OutOfRange => reason_out_of_range(),
    }
}

/// The texts between the separators of `s`: one more than there are
/// separators, so a text that ends in a separator ends in an empty field.
pub open spec fn split(s: Seq<char>, sep: char) -> Seq<Seq<char>>
    decreases s.len(),
{
    if s.len() == 0 {
        seq![Seq::<char>::empty()]
    } else {
        let head = split(s.drop_last(), sep);
        if s.last() == sep {
            head.push(Seq::<char>::empty())
        } else {
            head.drop_last().push(head.last().push(s.last()))
        }
    }
}

/// The fields one after the other, each followed by the separator.
pub open spec fn join(fields: Seq<Seq<char>>, sep: char) -> Seq<char>
    decreases fields.len(),
{
    if fields.len() == 0 {
        Seq::<char>::empty()
    } else {
        join(fields.drop_last(), sep) + fields.last().push(sep)
    }
}

/// No field holds the separator.
pub open spec fn free_of(fields: Seq<Seq<char>>, sep: char) -> bool {
    forall|i: int, j: int|
        0 <= i < fields.len() && 0 <= j < fields[i].len() ==> #[trigger] fields[i][j] != sep
}

/// A text has at least one field.
pub proof fn lemma_split_nonempty(s: Seq<char>, sep: char)
    ensures
        split(s, sep).len() >= 1,
    decreases s.len(),
{
    if s.len() > 0 {
        lemma_split_nonempty(s.drop_last(), sep);
    }
}

/// Appending text without a separator extends the last field.
pub proof fn lemma_split_append(s: Seq<char>, t: Seq<char>, sep: char)
    requires
        forall|j: int| 0 <= j < t.len() ==> t[j] != sep,
    ensures
        split(s, sep).len() >= 1,
        split(s + t, sep) == split(s, sep).drop_last().push(split(s, sep).last() + t),
    decreases t.len(),
{
    lemma_split_nonempty(s, sep);
    let head = split(s, sep);
    if t.len() == 0 {
        assert(s + t == s);
        assert(head.last() + t == head.last());
        assert(head.drop_last().push(head.last()) == head);
    } else {
        let t0 = t.drop_last();
        lemma_split_append(s, t0, sep);
        assert((s + t).drop_last() == s + t0);
        assert((s + t).last() == t.last());
        let mid = split(s + t0, sep);
        assert(mid == head.drop_last().push(head.last() + t0));
        assert(mid.drop_last() == head.drop_last());
        assert(mid.last().push(t.last()) == head.last() + t);
    }
}

/// Splitting what `join` wrote gives the fields back, and one empty field
/// for the last separator.
pub proof fn lemma_split_join(fields: Seq<Seq<char>>, sep: char)
    requires
        free_of(fields, sep),
    ensures
        split(join(fields, sep), sep) == fields.push(Seq::<char>::empty()),
    decreases fields.len(),
{
    if fields.len() == 0 {
        assert(fields.push(Seq::<char>::empty()) == seq![Seq::<char>::empty()]);
    } else {
        let init = fields.drop_last();
        let last = fields.last();
        assert(free_of(init, sep)) by {
            assert forall|i: int, j: int|
                0 <= i < init.len() && 0 <= j < init[i].len() implies #[trigger] init[i][j]
                != sep by {
                assert(init[i][j] == fields[i][j]);
            }
        }
        lemma_split_join(init, sep);
        let a = join(init, sep);
        assert forall|j: int| 0 <= j < last.len() implies last[j] != sep by {
            assert(fields[fields.len() - 1][j] != sep);
        }
        lemma_split_append(a, last, sep);
        let whole = join(fields, sep);
        assert(whole == (a + last).push(sep));
        assert(whole.drop_last() == a + last);
        assert(whole.last() == sep);
        let head = split(a + last, sep);
        assert(split(a, sep) == init.push(Seq::<char>::empty()));
        assert(split(a, sep).drop_last() == init);
        assert(split(a, sep).last() + last == last);
        assert(head == init.push(last));
        assert(init.push(last) == fields);
    }
}

/// The texts of a vector of strings.
pub open spec fn texts(v: Seq<String>) -> Seq<Seq<char>> {
    Seq::new(v.len(), |k: int| v[k]@)
}

/// What a field means when it is read as an integer: empty stands for zero.
pub open spec fn int_field(text: Seq<char>) -> Result<int, NumberError> {
    if text.len() == 0 {
        Ok(0)
    } else {
        bounded_integer(text, i32::MIN as int, i32::MAX as int)
    }
}

/// What a field means when it is read as an optional integer: empty and the
/// reserved value stand for "unset".
pub open spec fn optional_int_field(text: Seq<char>) -> Result<Option<int>, NumberError> {
    if text.len() == 0 {
        Ok(None)
    } else {
        match bounded_integer(text, i32::MIN as int, i32::MAX as int) {
            Ok(v) => if v == UNSET_INTEGER {
                Ok(None)
            } else {
                Ok(Some(v))
            },
            Err(e) => Err(e),
        }
    }
}

/// What a field means when it is read as a long integer.
pub open spec fn long_field(text: Seq<char>) -> Result<int, NumberError> {
    if text.len() == 0 {
        Ok(0)
    } else {
        bounded_integer(text, i64::MIN as int, i64::MAX as int)
    }
}

/// What a field means when it is read as an optional long integer.
pub open spec fn optional_long_field(text: Seq<char>) -> Result<Option<int>, NumberError> {
    if text.len() == 0 {
        Ok(None)
    } else {
        match bounded_integer(text, i64::MIN as int, i64::MAX as int) {
            Ok(v) => if v == UNSET_LONG {
                Ok(None)
            } else {
                Ok(Some(v))
            },
            Err(e) => Err(e),
        }
    }
}

/// What a field means when it is read as a decimal: empty and the reserved
/// text stand for zero. `None` where the field is no decimal.
pub open spec fn double_field(text: Seq<char>) -> Option<Seq<char>> {
    if text.len() == 0 || text == unset_double() {
        Some(zero_text())
    } else if is_decimal(text) {
        Some(text)
    } else {
        None
    }
}

/// What a field means when it is read as an optional decimal: empty and the
/// reserved text stand for "unset". The outer `None` where the field is no
/// decimal.
pub open spec fn optional_double_field(text: Seq<char>) -> Option<Option<Seq<char>>> {
    if text.len() == 0 || text == unset_double() {
        Some(None)
    } else if is_decimal(text) {
        Some(Some(text))
    } else {
        None
    }
}

/// What a field means when it is read as a flag.
pub open spec fn bool_field(text: Seq<char>) -> bool {
    text == seq!['1']
}

/// The text of a flag on the wire.
pub open spec fn bool_text(value: bool) -> Seq<char> {
    if value {
        seq!['1']
    } else {
        seq!['0']
    }
}

/// A frame's fields and the position of the reader among them.
pub struct MessageView {
    pub fields: Seq<Seq<char>>,
    pub position: nat,
}

impl MessageView {
    /// No field is left to read.
    pub open spec fn at_end(self) -> bool {
        self.position >= self.fields.len()
    }

    /// The field under the reader.
    pub open spec fn current(self) -> Seq<char>
        recommends
            !self.at_end(),
    {
        self.fields[self.position as int]
    }

    /// The reader moved over one field; at the end it stays.
    pub open spec fn skip(self) -> MessageView {
        if self.at_end() {
            self
        } else {
            MessageView { position: self.position + 1, ..self }
        }
    }

    /// The error of a read past the last field.
    pub open spec fn missing(self) -> ErrorView {
        ErrorView::Parse(self.fields.len(), Seq::<char>::empty(), reason_end_of_message())
    }

    /// The error of a malformed field under the reader: fields count from one.
    pub open spec fn malformed(self, reason: Seq<char>) -> ErrorView {
        ErrorView::Parse(self.position + 1, self.current(), reason)
    }

    /// The field under the reader as an integer, or the error of reading it.
    pub open spec fn read_int(self) -> Result<int, ErrorView> {
        if self.at_end() {
            Err(self.missing())
        } else {
            match int_field(self.current()) {
                Ok(v) => Ok(v),
                Err(e) => Err(self.malformed(integer_reason(e))),
            }
        }
    }

    /// The field under the reader as an integer that may be unset, or the
    /// error of reading it.
    pub open spec fn read_optional_int(self) -> Result<Option<int>, ErrorView> {
        if self.at_end() {
            Err(self.missing())
        } else {
            match optional_int_field(self.current()) {
                Ok(v) => Ok(v),
                Err(e) => Err(self.malformed(integer_reason(e))),
            }
        }
    }

    /// The field under the reader as a long integer, or the error of reading
    /// it.
    pub open spec fn read_long(self) -> Result<int, ErrorView> {
        if self.at_end() {
            Err(self.missing())
        } else {
            match long_field(self.current()) {
                Ok(v) => Ok(v),
                Err(e) => Err(self.malformed(integer_reason(e))),
            }
        }
    }

    /// The field under the reader as a long integer that may be unset, or the
    /// error of reading it.
    pub open spec fn read_optional_long(self) -> Result<Option<int>, ErrorView> {
        if self.at_end() {
            Err(self.missing())
        } else {
            match optional_long_field(self.current()) {
                Ok(v) => Ok(v),
                Err(e) => Err(self.malformed(integer_reason(e))),
            }
        }
    }

    /// The field under the reader as a decimal, or the error of reading it.
    pub open spec fn read_double(self) -> Result<Seq<char>, ErrorView> {
        if self.at_end() {
            Err(self.missing())
        } else {
            match double_field(self.current()) {
                Some(v) => Ok(v),
                None => Err(self.malformed(reason_invalid_decimal())),
            }
        }
    }

    /// The field under the reader as a decimal that may be unset, or the
    /// error of reading it.
    pub open spec fn read_optional_double(self) -> Result<Option<Seq<char>>, ErrorView> {
        if self.at_end() {
            Err(self.missing())
        } else {
            match optional_double_field(self.current()) {
                Some(v) => Ok(v),
                None => Err(self.malformed(reason_invalid_decimal())),
            }
        }
    }

    /// The field under the reader as a flag; only the end of the message is
    /// an error.
    pub open spec fn read_bool(self) -> Result<bool, ErrorView> {
        if self.at_end() {
            Err(self.missing())
        } else {
            Ok(bool_field(self.current()))
        }
    }

    /// The field under the reader as text; only the end of the message is an
    /// error.
    pub open spec fn read_string(self) -> Result<Seq<char>, ErrorView> {
        if self.at_end() {
            Err(self.missing())
        } else {
            Ok(self.current())
        }
    }
}

/// An incoming message: the fields of one frame and a reader over them.
#[derive(Clone, Debug, PartialEq)]
pub struct ResponseMessage {
    i: usize,
    fields: Vec<String>,
}

impl View for ResponseMessage {
    type V = MessageView;

    closed spec fn view(&self) -> MessageView {
        MessageView { fields: texts(self.fields@), position: self.i as nat }
    }
}

fn split_text(text: &str, sep: char) -> (fields: Vec<String>)
    ensures
        texts(fields@) == split(text@, sep),
{
    let mut fields: Vec<String> = Vec::new();
    let mut current = String::new();
    for c in it: text.chars()
        invariant
            it.seq() == text@,
            texts(fields@).push(current@) == split(text@.take(it.index() as int), sep),
    {
        let ghost before = text@.take(it.index() as int);
        let ghost after = text@.take(it.index() + 1);
        proof {
            assert(after.drop_last() == before);
            assert(after.last() == c);
            assert(texts(fields@).push(current@).drop_last() == texts(fields@));
        }
        if c == sep {
            let ghost old_fields = fields@;
            fields.push(current);
            current = String::new();
            proof {
                assert(texts(fields@) == texts(old_fields).push(fields@.last()@));
            }
        } else {
            current.push(c);
        }
    }
    let ghost old_fields = fields@;
    fields.push(current);
    proof {
        assert(text@.take(text@.len() as int) == text@);
        assert(texts(fields@) == texts(old_fields).push(fields@.last()@));
    }
    fields
}

impl ResponseMessage {
    /// The message whose fields are the texts between the NULs of `text`.
    pub fn from(text: &str) -> (m: ResponseMessage)
        ensures
            m@ == (MessageView { fields: split(text@, FIELD_END), position: 0 }),
    {
        ResponseMessage { i: 0, fields: split_text(text, FIELD_END) }
    }

    /// The message whose fields are the texts between the bars of `text`.
    pub fn from_simple(text: &str) -> (m: ResponseMessage)
        ensures
            m@ == (MessageView { fields: split(text@, DISPLAY_END), position: 0 }),
    {
        ResponseMessage { i: 0, fields: split_text(text, DISPLAY_END) }
    }

    /// The message that holds exactly these fields.
    pub fn from_fields(fields: Vec<String>) -> (m: ResponseMessage)
        ensures
            m@ == (MessageView { fields: texts(fields@), position: 0 }),
    {
        ResponseMessage { i: 0, fields }
    }

    /// A copy with the same fields and the reader at the same place.
    pub fn duplicate(&self) -> (m: ResponseMessage)
        ensures
            m@ == self@,
    {
        let mut fields: Vec<String> = Vec::new();
        let mut k: usize = 0;
        while k < self.fields.len()
            invariant
                k <= self.fields.len(),
                fields.len() == k,
                forall|j: int| 0 <= j < k ==> fields@[j]@ == self.fields@[j]@,
            decreases self.fields.len() - k,
        {
            fields.push(self.fields[k].clone());
            k += 1;
        }
        assert(texts(fields@) =~= texts(self.fields@));
        ResponseMessage { i: self.i, fields }
    }

    /// The number of fields.
    pub fn len(&self) -> (n: usize)
        ensures
            n == self@.fields.len(),
    {
        self.fields.len()
    }

    /// Whether the message has no field at all.
    pub fn is_empty(&self) -> (r: bool)
        ensures
            r == (self@.fields.len() == 0),
    {
        self.fields.len() == 0
    }

    /// The number of fields that the reader has passed.
    pub fn position(&self) -> (n: usize)
        ensures
            n == self@.position,
    {
        self.i
    }

    fn missing_error(&self) -> (e: Error)
        ensures
            e@ == self@.missing(),
    {
        Error::Parse(self.fields.len(), String::new(), "end of message".to_owned())
    }

    fn malformed_error(&self, index: usize, reason: &str) -> (e: Error)
        requires
            index < self.fields.len(),
        ensures
            e@ == ErrorView::Parse((index + 1) as nat, self@.fields[index as int], reason@),
    {
        Error::Parse(index + 1, self.fields[index].clone(), reason.to_owned())
    }

    /// Moves the reader over one field; at the end it stays.
    pub fn skip(&mut self)
        ensures
            final(self)@ == old(self)@.skip(),
    {
        if self.i < self.fields.len() {
            self.i += 1;
        }
    }

    /// Reads the next field as an integer.
    pub fn next_int(&mut self) -> (r: Result<i32, Error>)
        ensures
            final(self)@ == old(self)@.skip(),
            match r {
                Ok(v) => old(self)@.read_int() == Ok::<int, ErrorView>(v as int),
                Err(e) => old(self)@.read_int() == Err::<int, ErrorView>(e@),
            },
    {
        if self.i >= self.fields.len() {
            return Err(self.missing_error());
        }
        let index = self.i;
        self.i += 1;
        if self.fields[index].as_str().is_empty() {
            return Ok(0);
        }
        let chars = chars_of(self.fields[index].as_str());
        match parse_integer(&chars, -2147483648, 2147483647) {
            Ok(v) => Ok(v as i32),
            Err(NumberError::Invalid) => Err(
                self.malformed_error(index, "invalid digit found in string"),
            ),
            Err(NumberError::OutOfRange) => Err(
                self.malformed_error(index, "number does not fit in target type"),
            ),
        }
    }

    /// Reads the next field as an integer that may be unset.
    pub fn next_optional_int(&mut self) -> (r: Result<Option<i32>, Error>)
        ensures
            final(self)@ == old(self)@.skip(),
            match r {
                Ok(Some(v)) => old(self)@.read_optional_int() == Ok::<Option<int>, ErrorView>(
                    Some(v as int),
                ),
                Ok(None) => old(self)@.read_optional_int() == Ok::<Option<int>, ErrorView>(None),
                Err(e) => old(self)@.read_optional_int() == Err::<Option<int>, ErrorView>(e@),
            },
    {
        if self.i >= self.fields.len() {
            return Err(self.missing_error());
        }
        let index = self.i;
        self.i += 1;
        if self.fields[index].as_str().is_empty() {
            return Ok(None);
        }
        let chars = chars_of(self.fields[index].as_str());
        match parse_integer(&chars, -2147483648, 2147483647) {
            Ok(v) => if v == 2147483647 {
                Ok(None)
            } else {
                Ok(Some(v as i32))
            },
            Err(NumberError::Invalid) => Err(
                self.malformed_error(index, "invalid digit found in string"),
            ),
            Err(NumberError::OutOfRange) => Err(
                self.malformed_error(index, "number does not fit in target type"),
            ),
        }
    }

    /// Reads the next field as a long integer.
    pub fn next_long(&mut self) -> (r: Result<i64, Error>)
        ensures
            final(self)@ == old(self)@.skip(),
            match r {
                Ok(v) => old(self)@.read_long() == Ok::<int, ErrorView>(v as int),
                Err(e) => old(self)@.read_long() == Err::<int, ErrorView>(e@),
            },
    {
        if self.i >= self.fields.len() {
            return Err(self.missing_error());
        }
        let index = self.i;
        self.i += 1;
        if self.fields[index].as_str().is_empty() {
            return Ok(0);
        }
        let chars = chars_of(self.fields[index].as_str());
        match parse_integer(&chars, -9223372036854775808, 9223372036854775807) {
            Ok(v) => Ok(v),
            Err(NumberError::Invalid) => Err(
                self.malformed_error(index, "invalid digit found in string"),
            ),
            Err(NumberError::OutOfRange) => Err(
                self.malformed_error(index, "number does not fit in target type"),
            ),
        }
    }

    /// Reads the next field as a long integer that may be unset.
    pub fn next_optional_long(&mut self) -> (r: Result<Option<i64>, Error>)
        ensures
            final(self)@ == old(self)@.skip(),
            match r {
                Ok(Some(v)) => old(self)@.read_optional_long() == Ok::<Option<int>, ErrorView>(
                    Some(v as int),
                ),
                Ok(None) => old(self)@.read_optional_long() == Ok::<Option<int>, ErrorView>(None),
                Err(e) => old(self)@.read_optional_long() == Err::<Option<int>, ErrorView>(e@),
            },
    {
        if self.i >= self.fields.len() {
            return Err(self.missing_error());
        }
        let index = self.i;
        self.i += 1;
        if self.fields[index].as_str().is_empty() {
            return Ok(None);
        }
        let chars = chars_of(self.fields[index].as_str());
        match parse_integer(&chars, -9223372036854775808, 9223372036854775807) {
            Ok(v) => if v == 9223372036854775807 {
                Ok(None)
            } else {
                Ok(Some(v))
            },
            Err(NumberError::Invalid) => Err(
                self.malformed_error(index, "invalid digit found in string"),
            ),
            Err(NumberError::OutOfRange) => Err(
                self.malformed_error(index, "number does not fit in target type"),
            ),
        }
    }

    /// Reads the next field as a decimal; an unset field reads as zero.
    pub fn next_double(&mut self) -> (r: Result<Decimal, Error>)
        ensures
            final(self)@ == old(self)@.skip(),
            match r {
                Ok(v) => old(self)@.read_double() == Ok::<Seq<char>, ErrorView>(v@),
                Err(e) => old(self)@.read_double() == Err::<Seq<char>, ErrorView>(e@),
            },
    {
        match self.next_optional_double() {
            Ok(Some(v)) => Ok(v),
            Ok(None) => Ok(Decimal::zero()),
            Err(e) => Err(e),
        }
    }

    /// Reads the next field as a decimal that may be unset.
    pub fn next_optional_double(&mut self) -> (r: Result<Option<Decimal>, Error>)
        ensures
            final(self)@ == old(self)@.skip(),
            match r {
                Ok(Some(v)) => old(self)@.read_optional_double() == Ok::<Option<Seq<char>>, ErrorView>(
                    Some(v@),
                ),
                Ok(None) => old(self)@.read_optional_double() == Ok::<Option<Seq<char>>, ErrorView>(
                    None,
                ),
                Err(e) => old(self)@.read_optional_double() == Err::<Option<Seq<char>>, ErrorView>(e@),
            },
    {
        if self.i >= self.fields.len() {
            return Err(self.missing_error());
        }
        let index = self.i;
        self.i += 1;
        let field = self.fields[index].as_str();
        if field.is_empty() || same_text(field, "1.7976931348623157E308") {
            return Ok(None);
        }
        match Decimal::parse(field) {
            Some(v) => Ok(Some(v)),
            None => Err(self.malformed_error(index, "invalid decimal number")),
        }
    }

    /// Reads the next field as a flag: `1` is true, all else false.
    pub fn next_bool(&mut self) -> (r: Result<bool, Error>)
        ensures
            final(self)@ == old(self)@.skip(),
            match r {
                Ok(v) => old(self)@.read_bool() == Ok::<bool, ErrorView>(v),
                Err(e) => old(self)@.read_bool() == Err::<bool, ErrorView>(e@),
            },
    {
        if self.i >= self.fields.len() {
            return Err(self.missing_error());
        }
        let index = self.i;
        self.i += 1;
        proof {
            reveal_strlit("1");
            assert("1"@ == seq!['1']);
        }
        Ok(same_text(self.fields[index].as_str(), "1"))
    }

    /// Reads the next field as text; an empty field is valid.
    pub fn next_string(&mut self) -> (r: Result<String, Error>)
        ensures
            final(self)@ == old(self)@.skip(),
            match r {
                Ok(v) => old(self)@.read_string() == Ok::<Seq<char>, ErrorView>(v@),
                Err(e) => old(self)@.read_string() == Err::<Seq<char>, ErrorView>(e@),
            },
    {
        if self.i >= self.fields.len() {
            return Err(self.missing_error());
        }
        let index = self.i;
        self.i += 1;
        Ok(self.fields[index].clone())
    }
}

fn join_fields(fields: &Vec<String>, sep: char) -> (out: String)
    ensures
        out@ == join(texts(fields@), sep),
{
    let mut out = String::new();
    let mut k: usize = 0;
    while k < fields.len()
        invariant
            k <= fields.len(),
            out@ == join(texts(fields@).take(k as int), sep),
        decreases fields.len() - k,
    {
        let ghost before = texts(fields@).take(k as int);
        let ghost after = texts(fields@).take(k + 1);
        proof {
            assert(after.drop_last() == before);
            assert(after.last() == fields@[k as int]@);
        }
        out.append(fields[k].as_str());
        out.push(sep);
        proof {
            assert(out@ == join(before, sep) + fields@[k as int]@.push(sep));
        }
        k += 1;
    }
    proof {
        assert(texts(fields@).take(fields.len() as int) == texts(fields@));
    }
    out
}

impl ResponseMessage {
    /// The wire form of the payload: every field followed by NUL.
    pub fn encode(&self) -> (out: String)
        ensures
            out@ == join(self@.fields, FIELD_END),
    {
        join_fields(&self.fields, FIELD_END)
    }

    /// The display form: every field followed by a bar.
    pub fn encode_simple(&self) -> (out: String)
        ensures
            out@ == join(self@.fields, DISPLAY_END),
    {
        join_fields(&self.fields, DISPLAY_END)
    }

    /// The field at `index` read as an integer, without moving the reader.
    pub fn peek_int(&self, index: usize) -> (r: Result<i32, Error>)
        ensures
            match r {
                Ok(v) => (MessageView { position: index as nat, ..self@ }).read_int() == Ok::<
                    int,
                    ErrorView,
                >(v as int),
                Err(e) => (MessageView { position: index as nat, ..self@ }).read_int() == Err::<
                    int,
                    ErrorView,
                >(e@),
            },
    {
        if index >= self.fields.len() {
            return Err(self.missing_error());
        }
        if self.fields[index].as_str().is_empty() {
            return Ok(0);
        }
        let chars = chars_of(self.fields[index].as_str());
        match parse_integer(&chars, -2147483648, 2147483647) {
            Ok(v) => Ok(v as i32),
            Err(NumberError::Invalid) => Err(
                self.malformed_error(index, "invalid digit found in string"),
            ),
            Err(NumberError::OutOfRange) => Err(
                self.malformed_error(index, "number does not fit in target type"),
            ),
        }
    }

    /// The field at `index` as text, without moving the reader.
    pub fn peek_string(&self, index: usize) -> (r: Option<String>)
        ensures
            r is Some <==> index < self@.fields.len(),
            r is Some ==> r->0@ == self@.fields[index as int],
    {
        if index < self.fields.len() {
            Some(self.fields[index].clone())
        } else {
            None
        }
    }
}

/// An outgoing message: the fields of one frame, in the order they were pushed.
#[derive(Clone, Debug, PartialEq)]
pub struct RequestMessage {
    fields: Vec<String>,
}

impl View for RequestMessage {
    type V = Seq<Seq<char>>;

    closed spec fn view(&self) -> Seq<Seq<char>> {
        texts(self.fields@)
    }
}

impl Default for RequestMessage {
    fn default() -> (m: RequestMessage)
        ensures
            m@ == Seq::<Seq<char>>::empty(),
    {
        RequestMessage::new()
    }
}

impl RequestMessage {
    /// A copy with the same fields.
    pub fn duplicate(&self) -> (m: RequestMessage)
        ensures
            m@ == self@,
    {
        let mut fields: Vec<String> = Vec::new();
        let mut k: usize = 0;
        while k < self.fields.len()
            invariant
                k <= self.fields.len(),
                fields.len() == k,
                forall|j: int| 0 <= j < k ==> fields@[j]@ == self.fields@[j]@,
            decreases self.fields.len() - k,
        {
            fields.push(self.fields[k].clone());
            k += 1;
        }
        assert(texts(fields@) =~= texts(self.fields@));
        RequestMessage { fields }
    }

    /// A message without fields.
    pub fn new() -> (m: RequestMessage)
        ensures
            m@ == Seq::<Seq<char>>::empty(),
    {
        let m = RequestMessage { fields: Vec::new() };
        assert(m@ == Seq::<Seq<char>>::empty());
        m
    }

    /// The number of fields.
    pub fn len(&self) -> (n: usize)
        ensures
            n == self@.len(),
    {
        self.fields.len()
    }

    /// Whether no field was pushed yet.
    pub fn is_empty(&self) -> (r: bool)
        ensures
            r == (self@.len() == 0),
    {
        self.fields.len() == 0
    }

    /// Appends a text field.
    pub fn push_string(&mut self, value: String)
        ensures
            final(self)@ == old(self)@.push(value@),
    {
        self.fields.push(value);
        assert(self@ == old(self)@.push(value@));
    }

    /// Appends a text field.
    pub fn push_str(&mut self, value: &str)
        ensures
            final(self)@ == old(self)@.push(value@),
    {
        self.push_string(value.to_owned());
    }

    /// Appends an integer in its canonical text.
    pub fn push_int(&mut self, value: i32)
        ensures
            final(self)@ == old(self)@.push(integer_text(value as int)),
    {
        self.push_string(format_integer(value as i64));
    }

    /// Appends a long integer in its canonical text.
    pub fn push_long(&mut self, value: i64)
        ensures
            final(self)@ == old(self)@.push(integer_text(value as int)),
    {
        self.push_string(format_integer(value));
    }

    /// Appends a flag: `1` for true, `0` for false.
    pub fn push_bool(&mut self, value: bool)
        ensures
            final(self)@ == old(self)@.push(bool_text(value)),
    {
        let mut text = String::new();
        if value {
            text.push('1');
        } else {
            text.push('0');
        }
        assert(text@ == bool_text(value));
        self.push_string(text);
    }

    /// Appends a decimal as the text that writes it.
    pub fn push_decimal(&mut self, value: &Decimal)
        ensures
            final(self)@ == old(self)@.push(value@),
    {
        self.push_str(value.as_str());
    }

    /// Appends an integer that may be unset; unset is the empty field.
    pub fn push_optional_int(&mut self, value: Option<i32>)
        ensures
            final(self)@ == old(self)@.push(
                match value {
                    Some(v) => integer_text(v as int),
                    None => Seq::<char>::empty(),
                },
            ),
    {
        match value {
            Some(v) => self.push_int(v),
            None => self.push_string(String::new()),
        }
    }

    /// Appends a long integer that may be unset; unset is the empty field.
    pub fn push_optional_long(&mut self, value: Option<i64>)
        ensures
            final(self)@ == old(self)@.push(
                match value {
                    Some(v) => integer_text(v as int),
                    None => Seq::<char>::empty(),
                },
            ),
    {
        match value {
            Some(v) => self.push_long(v),
            None => self.push_string(String::new()),
        }
    }

    /// Appends a decimal that may be unset; unset is the empty field.
    pub fn push_optional_decimal(&mut self, value: &Option<Decimal>)
        ensures
            final(self)@ == old(self)@.push(
                match *value {
                    Some(v) => v@,
                    None => Seq::<char>::empty(),
                },
            ),
    {
        match value {
            Some(v) => self.push_decimal(v),
            None => self.push_string(String::new()),
        }
    }

    /// The wire form of the payload: every field followed by NUL.
    pub fn encode(&self) -> (out: String)
        ensures
            out@ == join(self@, FIELD_END),
    {
        join_fields(&self.fields, FIELD_END)
    }

    /// The display form: every field followed by a bar.
    pub fn encode_simple(&self) -> (out: String)
        ensures
            out@ == join(self@, DISPLAY_END),
    {
        join_fields(&self.fields, DISPLAY_END)
    }
}

/// An integer field that was written in canonical text reads back as itself.
pub proof fn lemma_int_field_round_trip(v: int)
    requires
        i32::MIN <= v <= i32::MAX,
    ensures
        int_field(integer_text(v)) == Ok::<int, NumberError>(v),
        v != UNSET_INTEGER ==> optional_int_field(integer_text(v)) == Ok::<
            Option<int>,
            NumberError,
        >(Some(v)),
{
    crate::numeric::lemma_integer_round_trip(v);
}

/// A long integer field that was written in canonical text reads back as itself.
pub proof fn lemma_long_field_round_trip(v: int)
    requires
        i64::MIN <= v <= i64::MAX,
    ensures
        long_field(integer_text(v)) == Ok::<int, NumberError>(v),
        v != UNSET_LONG ==> optional_long_field(integer_text(v)) == Ok::<
            Option<int>,
            NumberError,
        >(Some(v)),
{
    crate::numeric::lemma_integer_round_trip(v);
}

/// A flag reads back as it was written.
pub proof fn lemma_bool_field_round_trip(value: bool)
    ensures
        bool_field(bool_text(value)) == value,
{
    if !value {
        assert(seq!['0'][0] != seq!['1'][0]);
    }
}

/// A decimal other than the reserved one reads back as it was written.
pub proof fn lemma_double_field_round_trip(text: Seq<char>)
    requires
        is_decimal(text),
        text != unset_double(),
    ensures
        double_field(text) == Some(text),
        optional_double_field(text) == Some(Some(text)),
{
    if text.len() == 0 {
        assert(crate::numeric::digits_end(text, 0) == 0);
    }
}

} // verus!

//! Decimal text: the grammar of the integers and decimal numbers that the
//! protocol carries as ASCII fields, with parsers and a formatter.

use vstd::prelude::*;
use vstd::string::*;
use crate::text::chars_of;
use crate::text::same_text;

verus! {

/// A decimal digit.
pub open spec fn is_digit(c: char) -> bool {
    '0' <= c && c <= '9'
}

/// The number that a digit stands for.
pub open spec fn digit_value(c: char) -> nat {
    ((c as int) - ('0' as int)) as nat
}

/// The digit that stands for a number below ten.
pub open spec fn digit_char(d: nat) -> char {
    if d == 0 {
        '0'
    } else if d == 1 {
        '1'
    } else if d == 2 {
        '2'
    } else if d == 3 {
        '3'
    } else if d == 4 {
        '4'
    } else if d == 5 {
        '5'
    } else if d == 6 {
        '6'
    } else if d == 7 {
        '7'
    } else if d == 8 {
        '8'
    } else {
        '9'
    }
}

/// Every character is a decimal digit.
pub open spec fn all_digits(s: Seq<char>) -> bool {
    forall|i: int| 0 <= i < s.len() ==> is_digit(#[trigger] s[i])
}

/// The number that a run of decimal digits writes, most significant first.
pub open spec fn digits_value(s: Seq<char>) -> nat
    decreases s.len(),
{
    if s.len() == 0 {
        0
    } else {
        digits_value(s.drop_last()) * 10 + digit_value(s.last())
    }
}

/// The integer that a text writes: an optional sign, then one or more digits.
pub open spec fn integer_of(s: Seq<char>) -> Option<int> {
    if s.len() == 0 {
        None
    } else if s[0] == '-' {
        if s.len() > 1 && all_digits(s.skip(1)) {
            Some(-(digits_value(s.skip(1)) as int))
        } else {
            None
        }
    } else if s[0] == '+' {
        if s.len() > 1 && all_digits(s.skip(1)) {
            Some(digits_value(s.skip(1)) as int)
        } else {
            None
        }
    } else if all_digits(s) {
        Some(digits_value(s) as int)
    } else {
        None
    }
}

/// Why a text is not an integer of the wanted range.
#[derive(Clone, Copy, Debug, PartialEq, Eq)]
pub enum NumberError {
    /// The text is not a sign followed by digits.
    Invalid,
    /// The text writes an integer outside the wanted range.
    OutOfRange,
}

/// The integer that a text writes, if it lies in `lo..=hi`.
pub open spec fn bounded_integer(s: Seq<char>, lo: int, hi: int) -> Result<int, NumberError> {
    match integer_of(s) {
        None => Err(NumberError::Invalid),
        Some(v) => if lo <= v <= hi {
            Ok(v)
        } else {
            Err(NumberError::OutOfRange)
        },
    }
}

/// The canonical digits of a natural number: no leading zero but for zero itself.
pub open spec fn digits_text(n: nat) -> Seq<char>
    decreases n,
{
    if n < 10 {
        seq![digit_char(n)]
    } else {
        digits_text(n / 10).push(digit_char(n % 10))
    }
}

/// The canonical text of an integer.
pub open spec fn integer_text(v: int) -> Seq<char> {
    if v < 0 {
        seq!['-'] + digits_text((-v) as nat)
    } else {
        digits_text(v as nat)
    }
}

/// A digit stands for the number it was made of.
pub proof fn lemma_digit_char(d: nat)
    requires
        d < 10,
    ensures
        is_digit(digit_char(d)),
        digit_value(digit_char(d)) == d,
{
}

/// One more digit at the end multiplies by ten and adds the digit.
pub proof fn lemma_digits_value_push(s: Seq<char>, c: char)
    ensures
        digits_value(s.push(c)) == digits_value(s) * 10 + digit_value(c),
{
    assert(s.push(c).drop_last() == s);
}

/// The canonical digits of `n` are digits, and write `n`.
pub proof fn lemma_digits_text(n: nat)
    ensures
        digits_text(n).len() >= 1,
        all_digits(digits_text(n)),
        digits_value(digits_text(n)) == n,
    decreases n,
{
    if n < 10 {
        lemma_digit_char(n);
        let t = digits_text(n);
        assert(t.drop_last() == Seq::<char>::empty());
        assert(digits_value(t.drop_last()) == 0);
    } else {
        lemma_digits_text(n / 10);
        lemma_digit_char(n % 10);
        lemma_digits_value_push(digits_text(n / 10), digit_char(n % 10));
    }
}

/// Ten to the power of `k`.
pub open spec fn power_of_ten(k: nat) -> nat
    decreases k,
{
    if k == 0 {
        1
    } else {
        10 * power_of_ten((k - 1) as nat)
    }
}

/// A number below ten to the power of `k` has at most `k` digits.
pub proof fn lemma_digits_text_len(n: nat, k: nat)
    requires
        k >= 1,
        n < power_of_ten(k),
    ensures
        digits_text(n).len() <= k,
    decreases n,
{
    if n >= 10 {
        assert(power_of_ten(1) == 10) by {
            assert(power_of_ten(0) == 1);
        }
        assert(k >= 2);
        assert(power_of_ten(k) == 10 * power_of_ten((k - 1) as nat));
        lemma_digits_text_len(n / 10, (k - 1) as nat);
    }
}

/// The text of an integer of thirty-two bits has at most eleven characters,
/// all of them in the ASCII range.
pub proof fn lemma_integer_text_is_short(v: int)
    requires
        i32::MIN <= v <= i32::MAX,
    ensures
        1 <= integer_text(v).len() <= 11,
        forall|i: int|
            0 <= i < integer_text(v).len() ==> '\0' <= #[trigger] integer_text(v)[i] <= '\u{7f}',
{
    assert(power_of_ten(10) == 10000000000) by {
        reveal_with_fuel(power_of_ten, 11);
    }
    let n = if v < 0 {
        (-v) as nat
    } else {
        v as nat
    };
    lemma_digits_text_len(n, 10);
    lemma_digits_text(n);
    let t = integer_text(v);
    assert forall|i: int| 0 <= i < t.len() implies '\0' <= #[trigger] t[i] <= '\u{7f}' by {
        if v < 0 {
            if i > 0 {
                assert(t[i] == digits_text(n)[i - 1]);
                assert(is_digit(digits_text(n)[i - 1]));
            }
        } else {
            assert(is_digit(digits_text(n)[i]));
        }
    }
}

/// Reading the canonical text of an integer gives the integer back.
pub proof fn lemma_integer_round_trip(v: int)
    ensures
        integer_of(integer_text(v)) == Some(v),
        integer_text(v).len() >= 1,
{
    if v < 0 {
        let n = (-v) as nat;
        lemma_digits_text(n);
        let s = integer_text(v);
        assert(s.skip(1) == digits_text(n));
        assert(s[0] == '-');
    } else {
        lemma_digits_text(v as nat);
        let s = integer_text(v);
        assert(is_digit(s[0]));
    }
}

fn digit_of(c: char) -> (d: Option<u8>)
    ensures
        (d is Some) == is_digit(c),
        d is Some ==> d->0 as nat == digit_value(c) && d->0 < 10,
{
    if c >= '0' && c <= '9' {
        let code: u32 = c as u32;
        let zero: u32 = '0' as u32;
        Some((code - zero) as u8)
    } else {
        None
    }
}

fn char_of_digit(d: u8) -> (c: char)
    requires
        d < 10,
    ensures
        c == digit_char(d as nat),
{
    if d == 0 {
        '0'
    } else if d == 1 {
        '1'
    } else if d == 2 {
        '2'
    } else if d == 3 {
        '3'
    } else if d == 4 {
        '4'
    } else if d == 5 {
        '5'
    } else if d == 6 {
        '6'
    } else if d == 7 {
        '7'
    } else if d == 8 {
        '8'
    } else {
        '9'
    }
}

/// Reads an integer of the range `lo..=hi` from its text.
pub fn parse_integer(chars: &Vec<char>, lo: i64, hi: i64) -> (r: Result<i64, NumberError>)
    ensures
        match r {
            Ok(v) => bounded_integer(chars@, lo as int, hi as int) == Ok::<int, NumberError>(
                v as int,
            ),
            Err(e) => bounded_integer(chars@, lo as int, hi as int) == Err::<int, NumberError>(e),
        },
{
    let n = chars.len();
    if n == 0 {
        return Err(NumberError::Invalid);
    }
    let negative = chars[0] == '-';
    let start: usize = if chars[0] == '-' || chars[0] == '+' {
        1
    } else {
        0
    };
    if start == n {
        return Err(NumberError::Invalid);
    }
    let ghost run = chars@.skip(start as int);
    let mut magnitude: u128 = 0;
    let mut huge = false;
    let mut i: usize = start;
    while i < n
        invariant
            start <= i <= n,
            n == chars.len(),
            n > 0,
            start == (if chars@[0] == '-' || chars@[0] == '+' {
                1int
            } else {
                0int
            }),
            run == chars@.skip(start as int),
            all_digits(run.take(i - start)),
            !huge ==> magnitude == digits_value(run.take(i - start)),
            !huge ==> magnitude <= 100_000_000_000_000_000_009,
            huge ==> digits_value(run.take(i - start)) > 10_000_000_000_000_000_000,
        decreases n - i,
    {
        let ghost before = run.take(i - start);
        let ghost after = run.take(i - start + 1);
        proof {
            assert(after == before.push(chars@[i as int]));
            lemma_digits_value_push(before, chars@[i as int]);
        }
        match digit_of(chars[i]) {
            None => {
                proof {
                    assert(run[i - start] == chars@[i as int]);
                    assert(!all_digits(run));
                    if start == 0 {
                        assert(run == chars@);
                    }
                }
                return Err(NumberError::Invalid);
            },
            Some(d) => {
                if !huge {
                    if magnitude > 10_000_000_000_000_000_000 {
                        huge = true;
                    } else {
                        magnitude = magnitude * 10 + d as u128;
                    }
                }
                proof {
                    assert forall|k: int| 0 <= k < after.len() implies is_digit(
                        #[trigger] after[k],
                    ) by {
                        if k < before.len() {
                            assert(after[k] == before[k]);
                        }
                    }
                }
            },
        }
        i += 1;
    }
    proof {
        assert(run.take(n - start) == run);
        if start == 0 {
            assert(run == chars@);
        }
    }
    if huge {
        return Err(NumberError::OutOfRange);
    }
    let signed: i128 = if negative {
        -(magnitude as i128)
    } else {
        magnitude as i128
    };
    if signed < lo as i128 || signed > hi as i128 {
        Err(NumberError::OutOfRange)
    } else {
        Ok(signed as i64)
    }
}

fn push_digits(out: &mut String, n: u64)
    ensures
        final(out)@ == old(out)@ + digits_text(n as nat),
    decreases n,
{
    if n < 10 {
        out.push(char_of_digit(n as u8));
        assert(old(out)@.push(digit_char(n as nat)) == old(out)@ + digits_text(n as nat));
    } else {
        push_digits(out, n / 10);
        out.push(char_of_digit((n % 10) as u8));
        assert((old(out)@ + digits_text((n / 10) as nat)).push(digit_char((n % 10) as nat))
            == old(out)@ + digits_text(n as nat));
    }
}

/// Writes an integer as its canonical text.
pub fn format_integer(v: i64) -> (out: String)
    ensures
        out@ == integer_text(v as int),
{
    let mut out = String::new();
    if v < 0 {
        out.push('-');
        let magnitude: u64 = (-(v as i128)) as u64;
        push_digits(&mut out, magnitude);
        assert(out@ == seq!['-'] + digits_text((-(v as int)) as nat));
    } else {
        push_digits(&mut out, v as u64);
        assert(Seq::<char>::empty() + digits_text(v as nat) == digits_text(v as nat));
    }
    out
}

/// One if a sign stands at `at`, else zero.
pub open spec fn sign_len(s: Seq<char>, at: int) -> int {
    if 0 <= at < s.len() && (s[at] == '+' || s[at] == '-') {
        1
    } else {
        0
    }
}

/// The index just after the run of digits that starts at `from`.
pub open spec fn digits_end(s: Seq<char>, from: int) -> int
    decreases s.len() - from,
{
    if 0 <= from < s.len() && is_digit(s[from]) {
        digits_end(s, from + 1)
    } else {
        from
    }
}

/// Where the mantissa of a decimal text ends: after the sign, the integer
/// digits and, behind a point, the fraction digits.
pub open spec fn mantissa_end(s: Seq<char>) -> int {
    let b = digits_end(s, sign_len(s, 0));
    if b < s.len() && s[b] == '.' {
        digits_end(s, b + 1)
    } else {
        b
    }
}

/// How many digits the mantissa of a decimal text holds.
pub open spec fn mantissa_digits(s: Seq<char>) -> int {
    let a = sign_len(s, 0);
    let b = digits_end(s, a);
    if b < s.len() && s[b] == '.' {
        (b - a) + (digits_end(s, b + 1) - (b + 1))
    } else {
        b - a
    }
}

/// The grammar of a decimal number: an optional sign; digits with an optional
/// point among them, at least one digit in all; then optionally `e` or `E`,
/// an optional sign and one or more digits.
pub open spec fn is_decimal(s: Seq<char>) -> bool {
    let c = mantissa_end(s);
    &&& mantissa_digits(s) > 0
    &&& (c == s.len() || {
        let d = c + 1 + sign_len(s, c + 1);
        &&& (s[c] == 'e' || s[c] == 'E')
        &&& digits_end(s, d) > d
        &&& digits_end(s, d) == s.len()
    })
}

/// A decimal text that writes a number above zero: no minus sign, and a digit
/// other than `0` in the mantissa.
pub open spec fn decimal_is_positive(s: Seq<char>) -> bool {
    &&& is_decimal(s)
    &&& s[0] != '-'
    &&& exists|i: int| 0 <= i < mantissa_end(s) && '1' <= #[trigger] s[i] && s[i] <= '9'
}

/// The text of the decimal zero.
pub open spec fn zero_text() -> Seq<char> {
    seq!['0']
}

/// A run of digits ends within the text, holds digits only, and stops at
/// what is no digit.
pub proof fn lemma_digits_end_bounds(s: Seq<char>, from: int)
    requires
        0 <= from <= s.len(),
    ensures
        from <= digits_end(s, from) <= s.len(),
        forall|i: int| from <= i < digits_end(s, from) ==> is_digit(#[trigger] s[i]),
        digits_end(s, from) < s.len() ==> !is_digit(s[digits_end(s, from)]),
    decreases s.len() - from,
{
    if from < s.len() && is_digit(s[from]) {
        lemma_digits_end_bounds(s, from + 1);
    }
}

/// The text of zero is a decimal, and not above zero.
pub proof fn lemma_zero_is_decimal()
    ensures
        is_decimal(zero_text()),
        !decimal_is_positive(zero_text()),
{
    let s = zero_text();
    assert(sign_len(s, 0) == 0);
    assert(digits_end(s, 1) == 1);
    assert(digits_end(s, 0) == 1);
    assert(mantissa_end(s) == 1);
}

fn sign_at(chars: &Vec<char>, at: usize) -> (n: usize)
    ensures
        n == sign_len(chars@, at as int),
{
    if at < chars.len() && (chars[at] == '+' || chars[at] == '-') {
        1
    } else {
        0
    }
}

fn scan_digits(chars: &Vec<char>, from: usize) -> (end: usize)
    requires
        from <= chars.len(),
    ensures
        end == digits_end(chars@, from as int),
        from <= end <= chars.len(),
{
    let mut i: usize = from;
    while i < chars.len() && chars[i] >= '0' && chars[i] <= '9'
        invariant
            from <= i <= chars.len(),
            digits_end(chars@, from as int) == digits_end(chars@, i as int),
        decreases chars.len() - i,
    {
        i += 1;
    }
    i
}

/// Whether the characters form a decimal number.
pub fn check_decimal(chars: &Vec<char>) -> (ok: bool)
    ensures
        ok == is_decimal(chars@),
{
    let n = chars.len();
    let a = sign_at(chars, 0);
    let b = scan_digits(chars, a);
    let dot = b < n && chars[b] == '.';
    let c = if dot {
        scan_digits(chars, b + 1)
    } else {
        b
    };
    let digits = if dot {
        (b - a) + (c - (b + 1))
    } else {
        b - a
    };
    if digits == 0 {
        return false;
    }
    if c == n {
        return true;
    }
    if !(chars[c] == 'e' || chars[c] == 'E') {
        return false;
    }
    let d = c + 1 + sign_at(chars, c + 1);
    if d > n {
        return false;
    }
    let e = scan_digits(chars, d);
    e > d && e == n
}

fn check_positive(chars: &Vec<char>) -> (yes: bool)
    requires
        is_decimal(chars@),
    ensures
        yes == decimal_is_positive(chars@),
{
    let n = chars.len();
    proof {
        lemma_digits_end_bounds(chars@, sign_len(chars@, 0));
    }
    if chars[0] == '-' {
        return false;
    }
    let a = sign_at(chars, 0);
    let b = scan_digits(chars, a);
    let c = if b < n && chars[b] == '.' {
        proof {
            lemma_digits_end_bounds(chars@, b + 1);
        }
        scan_digits(chars, b + 1)
    } else {
        b
    };
    let mut i: usize = 0;
    while i < c
        invariant
            i <= c <= n,
            n == chars.len(),
            c == mantissa_end(chars@),
            is_decimal(chars@),
            chars@[0] != '-',
            forall|k: int| 0 <= k < i ==> !('1' <= #[trigger] chars@[k] && chars@[k] <= '9'),
        decreases c - i,
    {
        if chars[i] >= '1' && chars[i] <= '9' {
            return true;
        }
        i += 1;
    }
    false
}

/// A decimal number, held as the text that writes it.
#[derive(Debug, PartialEq)]
pub struct Decimal {
    text: String,
}

impl Clone for Decimal {
    fn clone(&self) -> (d: Decimal)
        ensures
            d@ == self@,
    {
        proof {
            use_type_invariant(self);
        }
        Decimal { text: self.text.clone() }
    }
}

impl View for Decimal {
    type V = Seq<char>;

    closed spec fn view(&self) -> Seq<char> {
        self.text@
    }
}

impl Decimal {
    #[verifier::type_invariant]
    spec fn well_formed(&self) -> bool {
        is_decimal(self.text@)
    }

    /// The decimal that `text` writes, if it writes one.
    pub fn parse(text: &str) -> (r: Option<Decimal>)
        ensures
            r is Some <==> is_decimal(text@),
            r is Some ==> r->0@ == text@,
    {
        let chars = chars_of(text);
        if check_decimal(&chars) {
            Some(Decimal { text: text.to_owned() })
        } else {
            None
        }
    }

    /// The decimal zero.
    pub fn zero() -> (d: Decimal)
        ensures
            d@ == zero_text(),
    {
        let mut text = String::new();
        text.push('0');
        proof {
            lemma_zero_is_decimal();
            assert(text@ == zero_text());
        }
        Decimal { text }
    }

    /// The text that writes this decimal.
    pub fn as_str(&self) -> (s: &str)
        ensures
            s@ == self@,
            is_decimal(s@),
    {
        proof {
            use_type_invariant(self);
        }
        self.text.as_str()
    }

    /// Whether this decimal is above zero.
    pub fn is_positive(&self) -> (yes: bool)
        ensures
            yes == decimal_is_positive(self@),
    {
        proof {
            use_type_invariant(self);
        }
        let chars = chars_of(self.text.as_str());
        check_positive(&chars)
    }

    /// Whether two decimals are written alike.
    pub fn same(&self, other: &Decimal) -> (r: bool)
        ensures
            r == (self@ == other@),
    {
        same_text(self.text.as_str(), other.text.as_str())
    }
}

/// The text of an optional decimal.
pub open spec fn optional_text(d: Option<Decimal>) -> Option<Seq<char>> {
    match d {
        Some(d) => Some(d@),
        None => None,
    }
}

} // verus!

//! Decimal text of unsigned integers: the parser that configuration values and
//! request parameters go through, and the formatter used to write numbers into
//! URLs and queries.

use vstd::prelude::*;

verus! {

/// Why a text is not an unsigned integer (the unsigned cases of std's `IntErrorKind`).
#[derive(Clone, Copy, Debug, PartialEq, Eq, Structural)]
pub enum IntParseError {
    /// The text is empty.
    Empty,
    /// The text holds a character that is not a decimal digit (a lone sign included).
    InvalidDigit,
    /// The number does not fit in the target type.
    PosOverflow,
}

impl IntParseError {
    pub open spec fn spec_message(self) -> Seq<char> {
        match self {
            IntParseError::Empty => "cannot parse integer from empty string"@,
            IntParseError::InvalidDigit => "invalid digit found in string"@,
            IntParseError::PosOverflow => "number too large to fit in target type"@,
        }
    }

    /// The description std gives of the same failure.
    pub fn message(&self) -> (text: &'static str)
        ensures
            text@ == self.spec_message(),
    {
        match self {
            IntParseError::Empty => "cannot parse integer from empty string",
            IntParseError::InvalidDigit => "invalid digit found in string",
            IntParseError::PosOverflow => "number too large to fit in target type",
        }
    }
}

pub open spec fn is_decimal_digit(c: char) -> bool {
    '0' <= c && c <= '9'
}

pub open spec fn digit_value(c: char) -> nat {
    (c as int - '0' as int) as nat
}

pub open spec fn digit_char(d: nat) -> char {
    ((d + '0' as int) as u32) as char
}

/// Reads `digits` left to right as std does: the first character that is not a digit
/// is an `InvalidDigit`; the first prefix whose value exceeds `max` is a `PosOverflow`.
pub open spec fn scan_digits(digits: Seq<char>, max: nat) -> Result<nat, IntParseError>
    decreases digits.len(),
{
    if digits.len() == 0 {
        Ok(0)
    } else {
        match scan_digits(digits.drop_last(), max) {
            Err(e) => Err(e),
            Ok(v) => if !is_decimal_digit(digits.last()) {
                Err(IntParseError::InvalidDigit)
            } else if v * 10 + digit_value(digits.last()) > max {
                Err(IntParseError::PosOverflow)
            } else {
                Ok(v * 10 + digit_value(digits.last()))
            },
        }
    }
}

/// The outcome of std's `from_str` for an unsigned type whose largest value is `max`:
/// an optional leading `+`, then one or more decimal digits.
pub open spec fn spec_parse_unsigned(s: Seq<char>, max: nat) -> Result<nat, IntParseError> {
    if s.len() == 0 {
        Err(IntParseError::Empty)
    } else if s.len() == 1 && (s[0] == '+' || s[0] == '-') {
        Err(IntParseError::InvalidDigit)
    } else if s[0] == '+' {
        scan_digits(s.drop_first(), max)
    } else {
        scan_digits(s, max)
    }
}

/// The value of a sequence of decimal digits, most significant first.
pub open spec fn decimal_value(digits: Seq<char>) -> nat
    decreases digits.len(),
{
    if digits.len() == 0 {
        0
    } else {
        decimal_value(digits.drop_last()) * 10 + digit_value(digits.last())
    }
}

/// The shortest decimal text of `n`.
pub open spec fn decimal_text(n: nat) -> Seq<char>
    decreases n,
{
    if n < 10 {
        seq![digit_char(n)]
    } else {
        decimal_text(n / 10).push(digit_char(n % 10))
    }
}

proof fn lemma_scan_prefix_step(digits: Seq<char>, i: int, max: nat, v: nat)
    requires
        0 <= i < digits.len(),
        scan_digits(digits.subrange(0, i), max) == Ok::<nat, IntParseError>(v),
    ensures
        scan_digits(digits.subrange(0, i + 1), max) == (if !is_decimal_digit(digits[i]) {
            Err(IntParseError::InvalidDigit)
        } else if v * 10 + digit_value(digits[i]) > max {
            Err(IntParseError::PosOverflow)
        } else {
            Ok::<nat, IntParseError>(v * 10 + digit_value(digits[i]))
        }),
{
    let p = digits.subrange(0, i + 1);
    assert(p.drop_last() =~= digits.subrange(0, i));
    assert(p.last() == digits[i]);
}

proof fn lemma_scan_err_propagates(digits: Seq<char>, k: int, max: nat)
    requires
        0 <= k <= digits.len(),
        scan_digits(digits.subrange(0, k), max) is Err,
    ensures
        scan_digits(digits, max) == scan_digits(digits.subrange(0, k), max),
    decreases digits.len() - k,
{
    if k == digits.len() {
        assert(digits.subrange(0, k) =~= digits);
    } else {
        let shorter = digits.drop_last();
        assert(shorter.subrange(0, k) =~= digits.subrange(0, k));
        lemma_scan_err_propagates(shorter, k, max);
    }
}

/// Reads the decimal digits of `s` from character `start` on, as std does.
fn scan_from(s: &str, start: usize, max: u64) -> (r: Result<u64, IntParseError>)
    requires
        start <= s@.len(),
    ensures
        match r {
            Ok(v) => scan_digits(s@.subrange(start as int, s@.len() as int), max as nat)
                == Ok::<nat, IntParseError>(v as nat),
            Err(e) => scan_digits(s@.subrange(start as int, s@.len() as int), max as nat)
                == Err::<nat, IntParseError>(e),
        },
{
    let n = s.unicode_len();
    let ghost d = s@.subrange(start as int, s@.len() as int);
    let mut value: u64 = 0;
    let mut i: usize = start;
    assert(d.subrange(0, 0) =~= Seq::<char>::empty());
    while i < n
        invariant
            n == s@.len(),
            start <= i <= n,
            d == s@.subrange(start as int, s@.len() as int),
            value <= max,
            scan_digits(d.subrange(0, i - start), max as nat) == Ok::<nat, IntParseError>(value as nat),
        decreases n - i,
    {
        let c = s.get_char(i);
        proof {
            assert(d[i - start] == c);
            lemma_scan_prefix_step(d, i - start, max as nat, value as nat);
        }
        if !('0' <= c && c <= '9') {
            proof {
                lemma_scan_err_propagates(d, i - start + 1, max as nat);
            }
            return Err(IntParseError::InvalidDigit);
        }
        let dv: u64 = (c as u32 - '0' as u32) as u64;
        assert(dv as nat == digit_value(c));
        if dv > max || value > (max - dv) / 10 {
            assert(value * 10 + dv > max) by (nonlinear_arith)
                requires dv > max || value > (max - dv) / 10;
            proof {
                lemma_scan_err_propagates(d, i - start + 1, max as nat);
            }
            return Err(IntParseError::PosOverflow);
        }
        assert(value * 10 + dv <= max) by (nonlinear_arith)
            requires value <= (max - dv) / 10, dv <= max;
        value = value * 10 + dv;
        i = i + 1;
    }
    assert(d.subrange(0, i - start) =~= d);
    Ok(value)
}

/// Parses `s` as std's `from_str` parses an unsigned integer whose largest value is `max`.
pub fn parse_unsigned(s: &str, max: u64) -> (r: Result<u64, IntParseError>)
    ensures
        match r {
            Ok(v) => spec_parse_unsigned(s@, max as nat) == Ok::<nat, IntParseError>(v as nat),
            Err(e) => spec_parse_unsigned(s@, max as nat) == Err::<nat, IntParseError>(e),
        },
{
    let n = s.unicode_len();
    if n == 0 {
        return Err(IntParseError::Empty);
    }
    let first = s.get_char(0);
    if n == 1 && (first == '+' || first == '-') {
        return Err(IntParseError::InvalidDigit);
    }
    if first == '+' {
        assert(s@.subrange(1, s@.len() as int) =~= s@.drop_first());
        scan_from(s, 1, max)
    } else {
        assert(s@.subrange(0, s@.len() as int) =~= s@);
        scan_from(s, 0, max)
    }
}

/// Parses a `u16` as `str::parse::<u16>` does.
pub fn parse_u16(s: &str) -> (r: Result<u16, IntParseError>)
    ensures
        match r {
            Ok(v) => spec_parse_unsigned(s@, u16::MAX as nat) == Ok::<nat, IntParseError>(v as nat),
            Err(e) => spec_parse_unsigned(s@, u16::MAX as nat) == Err::<nat, IntParseError>(e),
        },
{
    match parse_unsigned(s, u16::MAX as u64) {
        Ok(v) => Ok(v as u16),
        Err(e) => Err(e),
    }
}

/// Parses a `usize` as `str::parse::<usize>` does.
pub fn parse_usize(s: &str) -> (r: Result<usize, IntParseError>)
    ensures
        match r {
            Ok(v) => spec_parse_unsigned(s@, usize::MAX as nat) == Ok::<nat, IntParseError>(v as nat),
            Err(e) => spec_parse_unsigned(s@, usize::MAX as nat) == Err::<nat, IntParseError>(e),
        },
{
    match parse_unsigned(s, usize::MAX as u64) {
        Ok(v) => Ok(v as usize),
        Err(e) => Err(e),
    }
}

fn digit_str(d: u64) -> (s: &'static str)
    requires
        d < 10,
    ensures
        s@ == seq![digit_char(d as nat)],
{
    proof {
        reveal_strlit("0");
        reveal_strlit("1");
        reveal_strlit("2");
        reveal_strlit("3");
        reveal_strlit("4");
        reveal_strlit("5");
        reveal_strlit("6");
        reveal_strlit("7");
        reveal_strlit("8");
        reveal_strlit("9");
    }
    if d == 0 {
        "0"
    } else if d == 1 {
        "1"
    } else if d == 2 {
        "2"
    } else if d == 3 {
        "3"
    } else if d == 4 {
        "4"
    } else if d == 5 {
        "5"
    } else if d == 6 {
        "6"
    } else if d == 7 {
        "7"
    } else if d == 8 {
        "8"
    } else {
        "9"
    }
}

/// Appends the decimal text of `n` to `out`.
pub fn push_decimal(out: &mut String, n: u64)
    ensures
        final(out)@ == old(out)@ + decimal_text(n as nat),
    decreases n,
{
    if n < 10 {
        out.append(digit_str(n));
    } else {
        push_decimal(out, n / 10);
        out.append(digit_str(n % 10));
    }
}

proof fn lemma_digit_char(d: nat)
    requires
        d < 10,
    ensures
        is_decimal_digit(digit_char(d)),
        digit_value(digit_char(d)) == d,
{
}

proof fn lemma_decimal_text_scans(n: nat, max: nat)
    requires
        n <= max,
    ensures
        scan_digits(decimal_text(n), max) == Ok::<nat, IntParseError>(n),
        decimal_text(n).len() >= 1,
        is_decimal_digit(decimal_text(n)[0]),
    decreases n,
{
    if n < 10 {
        lemma_digit_char(n);
        let t = decimal_text(n);
        assert(t.drop_last() =~= Seq::<char>::empty());
        assert(t.last() == digit_char(n));
        assert(scan_digits(t.drop_last(), max) == Ok::<nat, IntParseError>(0));
    } else {
        lemma_decimal_text_scans(n / 10, max);
        lemma_digit_char(n % 10);
        let t = decimal_text(n);
        assert(t.drop_last() =~= decimal_text(n / 10));
        assert(t.last() == digit_char(n % 10));
        assert(t[0] == decimal_text(n / 10)[0]);
        assert((n / 10) * 10 + n % 10 == n) by (nonlinear_arith);
        assert(n / 10 <= max);
    }
}

/// A number written in decimal by `push_decimal` reads back as itself through
/// `parse_unsigned`, for every bound that the number respects.
pub proof fn lemma_decimal_round_trip(n: nat, max: nat)
    requires
        n <= max,
    ensures
        spec_parse_unsigned(decimal_text(n), max) == Ok::<nat, IntParseError>(n),
{
    lemma_decimal_text_scans(n, max);
}

/// The digits that an unsigned parse reads: the text without a leading `+`.
pub open spec fn unsigned_digits(s: Seq<char>) -> Seq<char> {
    if s.len() > 0 && s[0] == '+' {
        s.drop_first()
    } else {
        s
    }
}

pub open spec fn all_decimal_digits(d: Seq<char>) -> bool {
    forall|i: int| 0 <= i < d.len() ==> is_decimal_digit(#[trigger] d[i])
}

proof fn lemma_scan_ok_exactly(d: Seq<char>, max: nat)
    ensures
        scan_digits(d, max) is Ok <==> (all_decimal_digits(d) && decimal_value(d) <= max),
        scan_digits(d, max) is Ok ==> scan_digits(d, max) == Ok::<nat, IntParseError>(decimal_value(d)),
    decreases d.len(),
{
    if d.len() > 0 {
        let rest = d.drop_last();
        lemma_scan_ok_exactly(rest, max);
        if all_decimal_digits(d) {
            assert forall|i: int| 0 <= i < rest.len() implies is_decimal_digit(#[trigger] rest[i]) by {
                assert(rest[i] == d[i]);
            }
        }
        if all_decimal_digits(rest) && is_decimal_digit(d.last()) {
            assert forall|i: int| 0 <= i < d.len() implies is_decimal_digit(#[trigger] d[i]) by {
                if i < rest.len() {
                    assert(rest[i] == d[i]);
                }
            }
        }
        assert(decimal_value(d) >= decimal_value(rest));
    } else {
        assert(all_decimal_digits(d));
    }
}

/// An unsigned parse succeeds exactly when the text, without a leading `+`, is a
/// non-empty run of decimal digits whose value does not exceed the bound; the result is
/// that value.
pub proof fn lemma_parse_accepts_exactly(s: Seq<char>, max: nat)
    ensures
        spec_parse_unsigned(s, max) is Ok <==> (unsigned_digits(s).len() > 0 && all_decimal_digits(
            unsigned_digits(s),
        ) && decimal_value(unsigned_digits(s)) <= max),
        spec_parse_unsigned(s, max) is Ok ==> spec_parse_unsigned(s, max) == Ok::<nat, IntParseError>(
            decimal_value(unsigned_digits(s)),
        ),
{
    lemma_scan_ok_exactly(unsigned_digits(s), max);
    if s.len() == 1 && s[0] == '-' {
        assert(!is_decimal_digit(unsigned_digits(s)[0]));
    }
}

} // verus!

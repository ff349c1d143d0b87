//! Reading text as a decimal integer.
//!
//! A number is an optional sign followed by one or more of the digits `0`
//! to `9`, and nothing else: no blanks, no separators. A minus sign is a
//! sign only where the target type has negative values.

use crate::cause::ParseCause;
use crate::outcome::FallibleResult;
use vstd::prelude::*;
use vstd::std_specs::iter::IteratorSpec;

verus! {

/// `c` is one of the ten decimal digits.
pub open spec fn is_digit(c: char) -> bool {
    '0' <= c && c <= '9'
}

/// The number that a decimal digit stands for.
pub open spec fn digit_value(c: char) -> nat
    recommends
        is_digit(c),
{
    (c as int - '0' as int) as nat
}

/// Every character of `s` is a decimal digit.
pub open spec fn all_digits(s: Seq<char>) -> bool {
    forall|i: int| 0 <= i < s.len() ==> is_digit(#[trigger] s[i])
}

/// The number that a string of digits denotes, most significant digit
/// first. The empty string denotes zero.
pub open spec fn magnitude(digits: Seq<char>) -> nat
    decreases digits.len(),
{
    if digits.len() == 0 {
        0
    } else {
        10 * magnitude(digits.drop_last()) + digit_value(digits.last())
    }
}

/// How many digits stand at the front of `s` before the first character
/// that is none, or before its end.
pub open spec fn leading_digits(s: Seq<char>) -> nat
    decreases s.len(),
{
    if s.len() == 0 || !is_digit(s[0]) {
        0
    } else {
        1 + leading_digits(s.drop_first())
    }
}

/// `text` opens with a sign. A minus counts only where `signed` says so.
pub open spec fn has_sign(text: Seq<char>, signed: bool) -> bool {
    text.len() > 0 && (text[0] == '+' || (signed && text[0] == '-'))
}

/// `text` opens with a minus sign that counts.
pub open spec fn is_negative(text: Seq<char>, signed: bool) -> bool {
    signed && text.len() > 0 && text[0] == '-'
}

/// `text` without its sign, where it has one.
pub open spec fn unsigned_part(text: Seq<char>, signed: bool) -> Seq<char> {
    if has_sign(text, signed) {
        text.drop_first()
    } else {
        text
    }
}

/// What `text` reads as, for a target type whose values run from `min` to
/// `max`. `signed` tells whether a leading minus is taken as a sign.
///
/// The digits that follow the sign are read as far as they go. If the
/// number they denote is already out of range, that is the failure;
/// otherwise whatever stops them short of the end, or their absence, is an
/// invalid digit.
pub open spec fn decimal_reading(text: Seq<char>, signed: bool, min: int, max: int)
    -> FallibleResult<int, ParseCause> {
    if text.len() == 0 {
        FallibleResult::Failure(ParseCause::Empty)
    } else {
        let body = unsigned_part(text, signed);
        let digits = body.take(leading_digits(body) as int);
        let value = if is_negative(text, signed) {
            -(magnitude(digits) as int)
        } else {
            magnitude(digits) as int
        };
        if value > max {
            FallibleResult::Failure(ParseCause::PosOverflow)
        } else if value < min {
            FallibleResult::Failure(ParseCause::NegOverflow)
        } else if body.len() == 0 || digits.len() < body.len() {
            FallibleResult::Failure(ParseCause::InvalidDigit)
        } else {
            FallibleResult::Success(value)
        }
    }
}

/// `text` is written as a number: an optional sign, then digits to the
/// end, at least one.
pub open spec fn is_numeral(text: Seq<char>, signed: bool) -> bool {
    unsigned_part(text, signed).len() > 0 && all_digits(unsigned_part(text, signed))
}

/// The number that a numeral denotes.
pub open spec fn numeral_value(text: Seq<char>, signed: bool) -> int
    recommends
        is_numeral(text, signed),
{
    if is_negative(text, signed) {
        -(magnitude(unsigned_part(text, signed)) as int)
    } else {
        magnitude(unsigned_part(text, signed)) as int
    }
}

/// The count of leading digits never exceeds the length, everything before
/// it is a digit, and the character at it, if there is one, is none.
pub proof fn lemma_leading_digits(s: Seq<char>)
    ensures
        leading_digits(s) <= s.len(),
        all_digits(s.take(leading_digits(s) as int)),
        leading_digits(s) < s.len() ==> !is_digit(s[leading_digits(s) as int]),
    decreases s.len(),
{
    if s.len() == 0 || !is_digit(s[0]) {
    } else {
        let rest = s.drop_first();
        lemma_leading_digits(rest);
        let n = leading_digits(s) as int;
        assert forall|i: int| 0 <= i < s.take(n).len() implies is_digit(#[trigger] s.take(n)[i]) by {
            if i > 0 {
                assert(s.take(n)[i] == rest.take(n - 1)[i - 1]);
            }
        }
        if n < s.len() {
            assert(s[n] == rest[n - 1]);
        }
    }
}

/// A prefix of digits that is followed by a non-digit, or by the end, is
/// the whole run of leading digits.
pub proof fn lemma_leading_digits_at(s: Seq<char>, n: int)
    requires
        0 <= n <= s.len(),
        all_digits(s.take(n)),
        n < s.len() ==> !is_digit(s[n]),
    ensures
        leading_digits(s) == n,
    decreases s.len(),
{
    if n == 0 {
    } else {
        assert(s.take(n)[0] == s[0]);
        let rest = s.drop_first();
        assert forall|i: int| 0 <= i < rest.take(n - 1).len() implies is_digit(
            #[trigger] rest.take(n - 1)[i],
        ) by {
            assert(rest.take(n - 1)[i] == s.take(n)[i + 1]);
        }
        if n < s.len() {
            assert(rest[n - 1] == s[n]);
        }
        lemma_leading_digits_at(rest, n - 1);
    }
}

/// Reading more digits never makes the number smaller.
pub proof fn lemma_magnitude_grows(digits: Seq<char>, n: int)
    requires
        0 <= n <= digits.len(),
    ensures
        magnitude(digits.take(n)) <= magnitude(digits),
    decreases digits.len(),
{
    if n == digits.len() {
        assert(digits.take(n) == digits);
    } else {
        let shorter = digits.drop_last();
        assert(shorter.take(n) == digits.take(n));
        lemma_magnitude_grows(shorter, n);
    }
}

/// Where the first `n` characters are digits, the run of leading digits is
/// at least that long.
pub proof fn lemma_leading_digits_cover(s: Seq<char>, n: int)
    requires
        0 <= n <= s.len(),
        all_digits(s.take(n)),
    ensures
        leading_digits(s) >= n,
{
    lemma_leading_digits(s);
    let run = leading_digits(s) as int;
    if run < n {
        assert(s.take(n)[run] == s[run]);
    }
}

/// One more digit at the end of a run of digits keeps it a run of digits,
/// shifts its number by a place and adds the digit.
pub proof fn lemma_digits_extend(s: Seq<char>, n: int)
    requires
        0 <= n < s.len(),
        all_digits(s.take(n)),
        is_digit(s[n]),
    ensures
        all_digits(s.take(n + 1)),
        magnitude(s.take(n + 1)) == 10 * magnitude(s.take(n)) + digit_value(s[n]),
{
    assert(s.take(n + 1).drop_last() == s.take(n));
    assert forall|i: int| 0 <= i < s.take(n + 1).len() implies is_digit(
        #[trigger] s.take(n + 1)[i],
    ) by {
        if i < n {
            assert(s.take(n + 1)[i] == s.take(n)[i]);
        }
    }
}

/// Where some digits at the front already denote more than `limit`, so
/// does the whole run of leading digits.
pub proof fn lemma_leading_digits_exceed(s: Seq<char>, n: int, limit: int)
    requires
        0 <= n <= s.len(),
        all_digits(s.take(n)),
        magnitude(s.take(n)) > limit,
    ensures
        magnitude(s.take(leading_digits(s) as int)) > limit,
{
    lemma_leading_digits(s);
    lemma_leading_digits_cover(s, n);
    let run = s.take(leading_digits(s) as int);
    lemma_magnitude_grows(run, n);
    assert(run.take(n) == s.take(n));
}

/// A reading succeeds on the numerals whose number lies in range, and on
/// nothing else; what it gives is that number. A numeral out of range
/// fails with the overflow on its side, and only empty text fails as
/// empty.
pub proof fn lemma_reading_of_numeral(text: Seq<char>, signed: bool, min: int, max: int)
    requires
        min <= max,
    ensures
        decimal_reading(text, signed, min, max) is Success <==> is_numeral(text, signed) && min
            <= numeral_value(text, signed) <= max,
        decimal_reading(text, signed, min, max) matches FallibleResult::Success(v) ==> v
            == numeral_value(text, signed),
        is_numeral(text, signed) && numeral_value(text, signed) > max ==> decimal_reading(
            text,
            signed,
            min,
            max,
        ) == FallibleResult::<int, ParseCause>::Failure(ParseCause::PosOverflow),
        is_numeral(text, signed) && numeral_value(text, signed) < min ==> decimal_reading(
            text,
            signed,
            min,
            max,
        ) == FallibleResult::<int, ParseCause>::Failure(ParseCause::NegOverflow),
        decimal_reading(text, signed, min, max) == FallibleResult::<int, ParseCause>::Failure(
            ParseCause::Empty,
        ) <==> text.len() == 0,
{
    if text.len() > 0 {
        let body = unsigned_part(text, signed);
        lemma_leading_digits(body);
        let run = leading_digits(body) as int;
        if all_digits(body) {
            assert(body.take(body.len() as int) == body);
            lemma_leading_digits_at(body, body.len() as int);
        }
        if run == body.len() {
            assert(body.take(run) == body);
        }
    }
}

/// Reads `text` as a decimal integer between `min` and `max`.
#[verifier::loop_isolation(false)]
fn read_decimal(text: &str, signed: bool, min: i64, max: i64) -> (out: FallibleResult<
    i64,
    ParseCause,
>)
    requires
        -0x1_0000_0000 <= min <= 0 <= max <= 0x1_0000_0000,
    ensures
        match decimal_reading(text@, signed, min as int, max as int) {
            FallibleResult::Success(v) => out == FallibleResult::<i64, ParseCause>::Success(
                v as i64,
            ),
            FallibleResult::Failure(e) => out == FallibleResult::<i64, ParseCause>::Failure(e),
        },
{
    let mut peek = text.chars();
    let first = match peek.next() {
        None => {
            return FallibleResult::Failure(ParseCause::Empty);
        },
        Some(c) => c,
    };
    let negative = signed && first == '-';
    let has_sign = first == '+' || negative;
    let limit: i64 = if negative {
        -min
    } else {
        max
    };
    let mut chars = text.chars();
    if has_sign {
        let _ = chars.next();
    }
    let ghost body = unsigned_part(text@, signed);
    let ghost mut seen: int = 0;
    let mut acc: i64 = 0;
    let mut any = false;
    let mut done = false;
    while !done
        invariant
            0 <= seen <= body.len(),
            chars.remaining() == body.skip(seen),
            all_digits(body.take(seen)),
            acc == magnitude(body.take(seen)),
            0 <= acc <= limit,
            any == (seen > 0),
            done ==> seen == body.len(),
        decreases body.len() - seen + (if done { 0int } else { 1int }),
    {
        match chars.next() {
            None => {
                done = true;
            },
            Some(c) => {
                assert(c == body[seen]);
                if !(c >= '0' && c <= '9') {
                    proof {
                        lemma_leading_digits_at(body, seen);
                    }
                    return FallibleResult::Failure(ParseCause::InvalidDigit);
                }
                let digit: i64 = (c as u32 - '0' as u32) as i64;
                let next = acc * 10 + digit;
                proof {
                    lemma_digits_extend(body, seen);
                }
                if next > limit {
                    proof {
                        lemma_leading_digits_exceed(body, seen + 1, limit as int);
                    }
                    if negative {
                        return FallibleResult::Failure(ParseCause::NegOverflow);
                    } else {
                        return FallibleResult::Failure(ParseCause::PosOverflow);
                    }
                }
                acc = next;
                any = true;
                proof {
                    assert(body.skip(seen).drop_first() == body.skip(seen + 1));
                    seen = seen + 1;
                }
            },
        }
    }
    proof {
        lemma_leading_digits_at(body, body.len() as int);
        assert(body.take(body.len() as int) == body);
    }
    if !any {
        return FallibleResult::Failure(ParseCause::InvalidDigit);
    }
    if negative {
        FallibleResult::Success(-acc)
    } else {
        FallibleResult::Success(acc)
    }
}

/// What `text` reads as when a signed 32-bit integer is wanted.
pub open spec fn reading_i32(text: Seq<char>) -> FallibleResult<i32, ParseCause> {
    match decimal_reading(text, true, i32::MIN as int, i32::MAX as int) {
        FallibleResult::Success(v) => FallibleResult::Success(v as i32),
        FallibleResult::Failure(e) => FallibleResult::Failure(e),
    }
}

/// What `text` reads as when an unsigned 32-bit integer is wanted.
pub open spec fn reading_u32(text: Seq<char>) -> FallibleResult<u32, ParseCause> {
    match decimal_reading(text, false, 0, u32::MAX as int) {
        FallibleResult::Success(v) => FallibleResult::Success(v as u32),
        FallibleResult::Failure(e) => FallibleResult::Failure(e),
    }
}

/// Reads `text` as a signed 32-bit integer.
pub fn parse_i32(text: &str) -> (out: FallibleResult<i32, ParseCause>)
    ensures
        out == reading_i32(text@),
{
    match read_decimal(text, true, -0x8000_0000, 0x7fff_ffff) {
        FallibleResult::Success(v) => FallibleResult::Success(v as i32),
        FallibleResult::Failure(e) => FallibleResult::Failure(e),
    }
}

/// Reads `text` as an unsigned 32-bit integer. A minus sign is no sign
/// here but an invalid digit.
pub fn parse_u32(text: &str) -> (out: FallibleResult<u32, ParseCause>)
    ensures
        out == reading_u32(text@),
{
    match read_decimal(text, false, 0, 0xffff_ffff) {
        FallibleResult::Success(v) => FallibleResult::Success(v as u32),
        FallibleResult::Failure(e) => FallibleResult::Failure(e),
    }
}

} // verus!

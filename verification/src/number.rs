//! Numbers read from text, with every failure on the way reported in the
//! library's own taxonomy.

use crate::cause::{IoCause, ParseCause};
use crate::decimal::{parse_i32, parse_u32, reading_i32, reading_u32};
use crate::erased::{lemma_erased_io, lemma_erased_parse, ErasedFailure};
use crate::error_kind::ErrorKind;
use crate::outcome::FallibleResult;
use crate::text::{trim, trimmed};
use vstd::prelude::*;
use vstd::std_specs::convert::FromSpec;

verus! {

/// The message of the rule that turns even numbers away.
pub const EVEN_NUMBER: &'static str = "数字不能是偶数";

/// An odd number passes; an even one violates the rule.
pub open spec fn odd_or_violation(n: i32) -> FallibleResult<i32, ErrorKind> {
    if n % 2 == 0 {
        FallibleResult::Failure(ErrorKind::RuleViolation(EVEN_NUMBER))
    } else {
        FallibleResult::Success(n)
    }
}

/// What `text` reads as when it must be a signed 32-bit number: a parse
/// failure is lifted into the taxonomy.
pub open spec fn number_reading(text: Seq<char>) -> FallibleResult<i32, ErrorKind> {
    match reading_i32(text) {
        FallibleResult::Success(n) => FallibleResult::Success(n),
        FallibleResult::Failure(e) => FallibleResult::Failure(ErrorKind::ParseFailure(e)),
    }
}

/// What `text` reads as when it must be an odd signed 32-bit number.
pub open spec fn odd_reading(text: Seq<char>) -> FallibleResult<i32, ErrorKind> {
    match number_reading(text) {
        FallibleResult::Success(n) => odd_or_violation(n),
        FallibleResult::Failure(e) => FallibleResult::Failure(e),
    }
}

/// Applies the rule that a number must be odd.
pub fn require_odd(n: i32) -> (out: FallibleResult<i32, ErrorKind>)
    ensures
        out == odd_or_violation(n),
{
    if n % 2 == 0 {
        FallibleResult::Failure(ErrorKind::RuleViolation(EVEN_NUMBER))
    } else {
        FallibleResult::Success(n)
    }
}

/// Reads a signed 32-bit number, reporting a parse failure as an
/// `ErrorKind`.
pub fn parse_number(text: &str) -> (out: FallibleResult<i32, ErrorKind>)
    ensures
        out == number_reading(text@),
{
    parse_i32(text).convert_error()
}

/// Reads a number and checks that it is odd. The parse failure is
/// propagated by the shorthand; the rule is applied only to a number that
/// was read.
pub fn parse_odd(text: &str) -> (out: FallibleResult<i32, ErrorKind>)
    ensures
        out == odd_reading(text@),
{
    let rule = |n: i32| -> (checked: FallibleResult<i32, ErrorKind>)
        ensures
            checked == odd_or_violation(n),
        {
            require_odd(n)
        };
    parse_i32(text).propagate(rule)
}

/// What the content of a file reads as when it is to hold one unsigned
/// 32-bit number, with white space allowed around it.
pub open spec fn content_reading(content: Seq<char>) -> FallibleResult<u32, ParseCause> {
    reading_u32(trimmed(content))
}

/// The number that a file holds, by kind of failure: a failed read is an
/// I/O failure, content that is no number a parse failure.
pub open spec fn number_of_read(read: FallibleResult<String, IoCause>) -> FallibleResult<
    u32,
    ErrorKind,
> {
    match read {
        FallibleResult::Failure(cause) => FallibleResult::Failure(ErrorKind::IoFailure(cause)),
        FallibleResult::Success(content) => match content_reading(content@) {
            FallibleResult::Success(n) => FallibleResult::Success(n),
            FallibleResult::Failure(e) => FallibleResult::Failure(ErrorKind::ParseFailure(e)),
        },
    }
}

/// Reads the one number in `content`, ignoring the white space around it.
pub fn number_from_text(content: &str) -> (out: FallibleResult<u32, ParseCause>)
    ensures
        out == content_reading(content@),
{
    parse_u32(trim(content))
}

/// Turns the outcome of reading a file into the number the file holds.
/// `read` is what the read gave: the file's content, or the record of why
/// it could not be had. Either failure is propagated by the shorthand.
pub fn number_from_read(read: FallibleResult<String, IoCause>) -> (out: FallibleResult<
    u32,
    ErrorKind,
>)
    ensures
        out == number_of_read(read),
{
    let parse = |content: String| -> (parsed: FallibleResult<u32, ErrorKind>)
        ensures
            parsed == content_reading(content@).converted::<ErrorKind>(),
        {
            number_from_text(content.as_str()).convert_error()
        };
    read.propagate(parse)
}

/// As `number_from_read`, for a caller that only reports the failure: each
/// lower-level error is erased directly, so the failure carries that
/// error's own description and no cause.
pub fn number_from_read_erased(read: FallibleResult<String, IoCause>) -> (out: FallibleResult<
    u32,
    ErasedFailure,
>)
    ensures
        match read {
            FallibleResult::Failure(cause) => out matches FallibleResult::Failure(erased)
                && erased.description() == cause.text() && erased.source() is None,
            FallibleResult::Success(content) => match content_reading(content@) {
                FallibleResult::Success(n) => out == FallibleResult::<u32, ErasedFailure>::Success(
                    n,
                ),
                FallibleResult::Failure(e) => out matches FallibleResult::Failure(erased)
                    && erased.description() == e.text() && erased.source() is None,
            },
        },
{
    let parse = |content: String| -> (parsed: FallibleResult<u32, ErasedFailure>)
        ensures
            parsed == content_reading(content@).converted::<ErasedFailure>(),
        {
            number_from_text(content.as_str()).convert_error()
        };
    let ghost given = read;
    let out = read.propagate(parse);
    proof {
        match given {
            FallibleResult::Failure(cause) => lemma_erased_io(cause),
            FallibleResult::Success(content) => match content_reading(content@) {
                FallibleResult::Success(_) => {},
                FallibleResult::Failure(e) => lemma_erased_parse(e),
            },
        }
    }
    out
}

} // verus!

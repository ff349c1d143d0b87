use fallible::cause::ParseCause;
use fallible::decimal::parse_i32;
use fallible::outcome::FallibleResult;

fn reciprocal(x: f64) -> FallibleResult<f64, &'static str> {
    if x == 0.0 {
        FallibleResult::Failure("除数不能为 0")
    } else {
        FallibleResult::Success(1.0 / x)
    }
}

fn parse_float(text: &str) -> FallibleResult<f64, std::num::ParseFloatError> {
    match text.parse::<f64>() {
        Ok(x) => FallibleResult::Success(x),
        Err(e) => FallibleResult::Failure(e),
    }
}

#[test]
fn doubling_a_parsed_number() {
    assert_eq!(parse_i32("10").map(|v| v * 2), FallibleResult::Success(20));
}

#[test]
fn explaining_a_parse_failure() {
    let explained = parse_i32("abc").map_error(|e| format!("解析失败: {}", e.describe()));
    match explained {
        FallibleResult::Failure(message) => {
            assert!(message.contains(&ParseCause::InvalidDigit.describe()));
            assert_eq!(message, "解析失败: invalid digit found in string");
        }
        FallibleResult::Success(_) => panic!("\"abc\" was read as a number"),
    }
}

#[test]
fn chaining_a_parse_into_a_reciprocal() {
    let chained = parse_float("5").map_error(|_| "不是数字").and_then(reciprocal);
    assert_eq!(chained, FallibleResult::Success(0.2));
}

#[test]
fn chaining_a_parsed_zero_into_a_reciprocal() {
    let chained = parse_float("0").map_error(|_| "不是数字").and_then(reciprocal);
    assert_eq!(chained, FallibleResult::Failure("除数不能为 0"));
}

#[test]
fn chaining_a_failed_parse_skips_the_reciprocal() {
    let chained = parse_float("five").map_error(|_| "不是数字").and_then(reciprocal);
    assert_eq!(chained, FallibleResult::Failure("不是数字"));
}

use fallible::cause::ParseCause;
use fallible::error_kind::ErrorKind;
use fallible::outcome::FallibleResult;

fn ok(v: i32) -> FallibleResult<i32, &'static str> {
    FallibleResult::Success(v)
}

fn err(e: &'static str) -> FallibleResult<i32, &'static str> {
    FallibleResult::Failure(e)
}

#[test]
fn success_is_success_and_not_failure() {
    let r = ok(42);
    assert!(r.is_success());
    assert!(!r.is_failure());
}

#[test]
fn failure_is_failure_and_not_success() {
    let r = err("boom");
    assert!(r.is_failure());
    assert!(!r.is_success());
}

#[test]
fn exactly_one_predicate_holds() {
    for r in vec![ok(0), ok(-7), err(""), err("boom")] {
        assert_ne!(r.is_success(), r.is_failure());
    }
}

#[test]
fn unwrap_or_gives_default_on_failure() {
    assert_eq!(err("boom").unwrap_or(-1), -1);
}

#[test]
fn unwrap_or_gives_value_on_success() {
    assert_eq!(ok(42).unwrap_or(-1), 42);
}

#[test]
fn map_transforms_success() {
    assert_eq!(ok(10).map(|v| v * 2), ok(20));
}

#[test]
fn map_changes_the_success_type() {
    let r: FallibleResult<String, &'static str> = ok(7).map(|v| format!("<{}>", v));
    assert_eq!(r, FallibleResult::Success(String::from("<7>")));
}

#[test]
fn map_leaves_failure_untouched() {
    let r: FallibleResult<i32, &'static str> = err("boom").map(|v| v * 2);
    assert_eq!(r, err("boom"));
}

#[test]
fn map_does_not_call_its_function_on_failure() {
    let r: FallibleResult<i32, &'static str> = err("boom").map(|_| panic!("called"));
    assert_eq!(r, err("boom"));
}

#[test]
fn map_error_transforms_failure() {
    let r: FallibleResult<i32, usize> = err("boom").map_error(|e| e.len());
    assert_eq!(r, FallibleResult::Failure(4));
}

#[test]
fn map_error_leaves_success_untouched() {
    let r: FallibleResult<i32, usize> = ok(42).map_error(|e| e.len());
    assert_eq!(r, FallibleResult::Success(42));
}

#[test]
fn map_error_does_not_call_its_function_on_success() {
    let r: FallibleResult<i32, usize> = ok(42).map_error(|_| panic!("called"));
    assert_eq!(r, FallibleResult::Success(42));
}

#[test]
fn and_then_runs_the_step_on_success() {
    assert_eq!(ok(4).and_then(|v| ok(v + 1)), ok(5));
    assert_eq!(ok(4).and_then(|_| err("late")), err("late"));
}

#[test]
fn and_then_short_circuits_on_failure() {
    let mut calls = 0;
    let r = err("boom").and_then(|v| {
        calls += 1;
        ok(v + 1)
    });
    assert_eq!(r, err("boom"));
    assert_eq!(calls, 0);
}

fn step_one(start: i32) -> FallibleResult<i32, &'static str> {
    ok(start + 1)
}

fn step_two(v: i32) -> FallibleResult<i32, &'static str> {
    if v > 10 {
        err("too large")
    } else {
        ok(v * 2)
    }
}

fn step_three(v: i32) -> FallibleResult<String, &'static str> {
    if v == 0 {
        FallibleResult::Failure("zero")
    } else {
        FallibleResult::Success(format!("{}", v))
    }
}

#[test]
fn and_then_grouping_does_not_matter_when_the_middle_step_fails() {
    let left = step_one(10).and_then(step_two).and_then(step_three);
    let right = step_one(10).and_then(|v| step_two(v).and_then(step_three));
    assert_eq!(left, FallibleResult::Failure("too large"));
    assert_eq!(right, FallibleResult::Failure("too large"));
}

#[test]
fn and_then_grouping_does_not_matter_on_any_path() {
    for start in vec![-1, 0, 3, 10, 11] {
        let left = step_one(start).and_then(step_two).and_then(step_three);
        let right = step_one(start).and_then(|v| step_two(v).and_then(step_three));
        assert_eq!(left, right);
    }
    assert_eq!(
        step_one(3).and_then(step_two).and_then(step_three),
        FallibleResult::Success(String::from("8"))
    );
    assert_eq!(
        step_one(-1).and_then(step_two).and_then(step_three),
        FallibleResult::Failure("zero")
    );
}

#[test]
fn convert_error_applies_the_registered_conversion() {
    let r: FallibleResult<i32, ParseCause> = FallibleResult::Failure(ParseCause::Empty);
    let c: FallibleResult<i32, ErrorKind> = r.convert_error();
    assert_eq!(c, FallibleResult::Failure(ErrorKind::ParseFailure(ParseCause::Empty)));
}

#[test]
fn convert_error_leaves_success_untouched() {
    let r: FallibleResult<i32, ParseCause> = FallibleResult::Success(3);
    let c: FallibleResult<i32, ErrorKind> = r.convert_error();
    assert_eq!(c, FallibleResult::Success(3));
}

#[test]
fn propagate_continues_on_success() {
    let r: FallibleResult<i32, ParseCause> = FallibleResult::Success(3);
    let out: FallibleResult<i32, ErrorKind> = r.propagate(|v| FallibleResult::Success(v + 1));
    assert_eq!(out, FallibleResult::Success(4));
}

#[test]
fn propagate_leaves_at_once_on_failure() {
    let r: FallibleResult<i32, ParseCause> = FallibleResult::Failure(ParseCause::InvalidDigit);
    let mut calls = 0;
    let out: FallibleResult<i32, ErrorKind> = r.propagate(|v| {
        calls += 1;
        FallibleResult::Success(v + 1)
    });
    assert_eq!(out, FallibleResult::Failure(ErrorKind::ParseFailure(ParseCause::InvalidDigit)));
    assert_eq!(calls, 0);
}

#[test]
fn propagate_equals_convert_then_chain() {
    let rest = |v: i32| -> FallibleResult<i32, ErrorKind> {
        if v < 0 {
            FallibleResult::Failure(ErrorKind::RuleViolation("negative"))
        } else {
            FallibleResult::Success(v)
        }
    };
    let cases: Vec<FallibleResult<i32, ParseCause>> = vec![
        FallibleResult::Success(1),
        FallibleResult::Success(-1),
        FallibleResult::Failure(ParseCause::PosOverflow),
    ];
    for r in cases {
        let sugar: FallibleResult<i32, ErrorKind> = r.clone().propagate(rest);
        let plain: FallibleResult<i32, ErrorKind> = r.convert_error().and_then(rest);
        assert_eq!(sugar, plain);
    }
}

#[test]
fn from_result_takes_ok_for_success_and_err_for_failure() {
    let good: Result<i32, &'static str> = Ok(42);
    let bad: Result<i32, &'static str> = Err("boom");
    assert_eq!(FallibleResult::from_result(good), ok(42));
    assert_eq!(FallibleResult::from_result(bad), err("boom"));
}

#[test]
fn into_result_gives_ok_for_success_and_err_for_failure() {
    assert_eq!(ok(42).into_result(), Ok(42));
    assert_eq!(err("boom").into_result(), Err("boom"));
}

#[test]
fn result_round_trip_changes_nothing() {
    for r in vec![ok(1), ok(-1), err("boom")] {
        assert_eq!(FallibleResult::from_result(r.clone().into_result()), r);
    }
}

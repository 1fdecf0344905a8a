use garde::error::{Error, ErrorKind, Path, RangeBound, Report};
use garde::rules::range::decimal::{DecimalValue, MAX_MANTISSA};
use garde::rules::range::{self, Bounds, OutOfBounds};
use garde::rules::Interval;

#[derive(Debug)]
struct Test {
    field: u64,
}

fn validate(t: &Test) -> Result<(), Report> {
    let mut report = Report::new();
    if let Err(e) = range::apply(&t.field, (Some(10u64), Some(100u64))) {
        report.append(Path::new("field"), e);
    }
    if report.is_empty() {
        Ok(())
    } else {
        Err(report)
    }
}

#[test]
fn test_existing_range_snapshot() {
    let cases = [Test { field: 5 }, Test { field: 150 }];

    let mut snapshot = String::new();
    for case in cases {
        if let Err(report) = validate(&case) {
            snapshot.push_str(&format!("{case:#?}\n"));
            snapshot.push_str(&format!("{}\n\n", report.to_string()));
        }
    }

    assert_eq!(
        snapshot,
        "Test {\n    field: 5,\n}\nfield: lower than 10\n\n\nTest {\n    field: 150,\n}\nfield: greater than 100\n\n\n"
    );
}

fn kind_of(r: Result<(), Error>) -> ErrorKind {
    r.unwrap_err().kind
}

#[test]
fn apply_reports_inclusive_bounds_and_actual_value() {
    assert_eq!(
        kind_of(range::apply(&5u64, (Some(10u64), Some(100u64)))),
        ErrorKind::RangeTooLow { min: RangeBound::Inclusive("10".to_string()), actual: "5".to_string() }
    );
    assert_eq!(
        kind_of(range::apply(&-150i32, (Some(-128i32), Some(-100i32)))),
        ErrorKind::RangeTooLow { min: RangeBound::Inclusive("-128".to_string()), actual: "-150".to_string() }
    );
}

#[test]
fn apply_missing_end_is_the_type_limit() {
    assert!(range::apply(&i64::MIN, (None, None)).is_ok());
    assert!(range::apply(&u8::MAX, (None, Some(255u8))).is_ok());
    assert_eq!(
        kind_of(range::apply(&200u8, (None, Some(100u8)))),
        ErrorKind::RangeTooHigh { max: RangeBound::Inclusive("100".to_string()), actual: "200".to_string() }
    );
    assert_eq!(
        kind_of(range::apply(&-1i8, (Some(0i8), None))),
        ErrorKind::RangeTooLow { min: RangeBound::Inclusive("0".to_string()), actual: "-1".to_string() }
    );
}

#[test]
fn apply_bounds_honors_exclusive_ends() {
    let iv = Interval::half_open(0u32, 10);
    assert!(range::apply_bounds(&0u32, (iv,)).is_ok());
    assert!(range::apply_bounds(&9u32, (iv,)).is_ok());
    assert_eq!(
        kind_of(range::apply_bounds(&10u32, (iv,))),
        ErrorKind::RangeTooHigh { max: RangeBound::Exclusive("10".to_string()), actual: "10".to_string() }
    );
    let from = Interval::new(garde::rules::Bound::Excluded(-5i16), garde::rules::Bound::Unbounded);
    assert_eq!(
        kind_of(range::apply_bounds(&-5i16, (from,))),
        ErrorKind::RangeTooLow { min: RangeBound::Exclusive("-5".to_string()), actual: "-5".to_string() }
    );
    assert!(range::apply_bounds(&-4i16, (from,)).is_ok());
}

#[test]
fn apply_bounds_unbounded_end_is_reported_as_the_type_limit() {
    let iv = Interval::below(0i8);
    assert_eq!(
        kind_of(range::apply_bounds(&0i8, (iv,))),
        ErrorKind::RangeTooHigh { max: RangeBound::Exclusive("0".to_string()), actual: "0".to_string() }
    );
    let iv = Interval::from(3u16);
    assert_eq!(
        kind_of(range::apply_bounds(&2u16, (iv,))),
        ErrorKind::RangeTooLow { min: RangeBound::Inclusive("3".to_string()), actual: "2".to_string() }
    );
    assert!(range::apply_bounds(&u16::MAX, (iv,)).is_ok());
}

#[test]
fn extreme_values_are_written_in_full() {
    assert_eq!(
        kind_of(range::apply(&i128::MIN, (Some(0i128), None))),
        ErrorKind::RangeTooLow {
            min: RangeBound::Inclusive("0".to_string()),
            actual: "-170141183460469231731687303715884105728".to_string()
        }
    );
    assert_eq!(
        kind_of(range::apply(&u128::MAX, (None, Some(1u128)))),
        ErrorKind::RangeTooHigh {
            max: RangeBound::Inclusive("1".to_string()),
            actual: "340282366920938463463374607431768211455".to_string()
        }
    );
}

#[test]
fn validate_bounds_directly() {
    assert_eq!(7usize.validate_bounds(1, 5), Err(OutOfBounds::Upper));
    assert_eq!(0usize.validate_bounds(1, 5), Err(OutOfBounds::Lower));
    assert_eq!(3usize.validate_bounds(1, 5), Ok(()));
    assert_eq!(Option::<usize>::None.validate_bounds(1, 5), Ok(()));
}

#[test]
fn absent_value_passes() {
    let none: Option<i32> = None;
    assert!(range::apply(&none, (Some(1), Some(2))).is_ok());
    assert!(range::apply_bounds(&none, (Interval::inclusive(1, 2),)).is_ok());
    assert!(range::apply(&Some(3i32), (Some(1), Some(2))).is_err());
}

fn dec(m: i128, s: u32) -> DecimalValue {
    DecimalValue::new(m, s).unwrap()
}

#[test]
fn decimals_compare_by_value_across_scales() {
    // 1.50 lies between 1.5 and 1.5
    assert!(range::apply(&dec(150, 2), (Some(dec(15, 1)), Some(dec(15, 1)))).is_ok());
    // -0.005 is below -0.004
    assert!(range::apply(&dec(-5, 3), (Some(dec(-4, 3)), None)).is_err());
    assert!(range::apply(&dec(-3, 3), (Some(dec(-4, 3)), None)).is_ok());
}

#[test]
fn decimal_errors_write_the_numbers() {
    assert_eq!(
        kind_of(range::apply(&dec(150, 2), (Some(dec(2, 0)), None))),
        ErrorKind::RangeTooLow { min: RangeBound::Inclusive("2".to_string()), actual: "1.50".to_string() }
    );
    assert_eq!(
        kind_of(range::apply_bounds(&dec(-25, 1), (Interval::below(dec(-25, 1)),))),
        ErrorKind::RangeTooHigh { max: RangeBound::Exclusive("-2.5".to_string()), actual: "-2.5".to_string() }
    );
    assert_eq!(
        kind_of(range::apply(&dec(5, 3), (None, Some(dec(1, 3))))),
        ErrorKind::RangeTooHigh { max: RangeBound::Inclusive("0.001".to_string()), actual: "0.005".to_string() }
    );
}

#[test]
fn decimal_limits() {
    assert!(DecimalValue::new(MAX_MANTISSA + 1, 0).is_none());
    assert!(DecimalValue::new(0, 29).is_none());
    let big = dec(MAX_MANTISSA, 0);
    assert!(range::apply(&big, (None, None)).is_ok());
    assert!(range::apply(&dec(-MAX_MANTISSA, 28), (None, None)).is_ok());
    assert_eq!(big.mantissa(), MAX_MANTISSA);
    assert_eq!(dec(7, 3).scale(), 3);
}

#[test]
fn min_max_is_the_inclusive_interval() {
    for x in [-3i32, 0, 5, 10, 11, 12] {
        let a = range::apply(&x, (Some(0), Some(10)));
        let b = range::apply_bounds(&x, (Interval::inclusive(0, 10),));
        assert_eq!(a, b, "{x}");
    }
}

#[test]
fn decimal_text_forms() {
    let cases = [(0i128, 0u32, "0"), (0, 2, "0.00"), (7, 0, "7"), (-5, 3, "-0.005"), (150, 2, "1.50"), (-12345, 2, "-123.45")];
    for (m, s, text) in cases {
        let e = range::apply(&dec(m, s), (Some(dec(MAX_MANTISSA, 0)), None)).unwrap_err();
        assert_eq!(
            e.kind,
            ErrorKind::RangeTooLow {
                min: RangeBound::Inclusive("79228162514264337593543950335".to_string()),
                actual: text.to_string()
            }
        );
    }
}

#[test]
fn exclusive_ends_taken_as_inclusive() {
    let iv = Interval::half_open(0u32, 10);
    assert_eq!(range::validate_range_bounds_as_inclusive(&10u32, &iv), Ok(()));
    assert_eq!(range::validate_range_bounds_as_inclusive(&11u32, &iv), Err(OutOfBounds::Upper));
    assert_eq!(10u32.validate_range_bounds(&iv), Err(OutOfBounds::Upper));
    let from = Interval::new(garde::rules::Bound::Excluded(5i8), garde::rules::Bound::Unbounded);
    assert_eq!(range::validate_range_bounds_as_inclusive(&5i8, &from), Ok(()));
    assert_eq!(range::validate_range_bounds_as_inclusive(&4i8, &from), Err(OutOfBounds::Lower));
}

#[test]
fn outcome_of_a_check_becomes_the_error() {
    let iv = Interval::half_open(3u8, 9);
    assert_eq!(range::range_bounds_outcome(&1u8, &iv, Ok(())), Ok(()));
    let low = range::range_bounds_outcome(&1u8, &iv, Err(OutOfBounds::Lower)).unwrap_err();
    assert_eq!(
        low.kind,
        ErrorKind::RangeTooLow { min: RangeBound::Inclusive("3".to_string()), actual: "1".to_string() }
    );
    let high = range::range_bounds_outcome(&9u8, &iv, Err(OutOfBounds::Upper)).unwrap_err();
    assert_eq!(
        high.kind,
        ErrorKind::RangeTooHigh { max: RangeBound::Exclusive("9".to_string()), actual: "9".to_string() }
    );
    let open = Interval::new(garde::rules::Bound::Unbounded, garde::rules::Bound::Unbounded);
    let low = range::range_bounds_outcome(&7u8, &open, Err(OutOfBounds::Lower)).unwrap_err();
    assert_eq!(
        low.kind,
        ErrorKind::RangeTooLow { min: RangeBound::Inclusive("0".to_string()), actual: "7".to_string() }
    );
}

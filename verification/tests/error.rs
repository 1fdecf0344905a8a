use garde::error::fluent_support::formatted_or_default;
use garde::error::{
    EmailErrorReason, Error, ErrorKind, IpKind, Kind, LengthBound, ParamValue, Params, Path, RangeBound, Report,
};

/// The errors of `report` whose path has exactly the given components.
fn select<'a>(report: &'a Report, components: &[&str]) -> Vec<&'a Error> {
    let mut out = Vec::new();
    for (path, error) in report.iter() {
        let names: Vec<String> = path.__iter().into_vec().into_iter().rev().map(|(_, c)| c).collect();
        if names.len() == components.len() && names.iter().zip(components.iter()).all(|(a, b)| a == b) {
            out.push(error);
        }
    }
    out
}

#[test]
fn path_join() {
    let path = Path::new("a").join("b").join("c");
    assert_eq!(path.to_string(), "a.b.c");
}

#[test]
fn error_kind_code() {
    let err = Error::from_kind(ErrorKind::LengthTooShort { min: LengthBound::Inclusive(5), actual: 3 });
    assert_eq!(err.code(), "length.too_short");

    let err = Error::custom("my.custom.code");
    assert_eq!(err.code(), "my.custom.code");
}

#[test]
fn error_with_custom_code() {
    let err = Error::from_kind(ErrorKind::LengthTooShort { min: LengthBound::Inclusive(5), actual: 3 });
    let err = err.with_custom_code("password.too_short");

    assert_eq!(err.code(), "password.too_short");

    if let ErrorKind::Custom { params, .. } = &err.kind {
        assert_eq!(params.get("min"), Some(&ParamValue::Unsigned(5)));
        assert_eq!(params.get("actual"), Some(&ParamValue::Unsigned(3)));
    } else {
        panic!("Expected Custom variant");
    }
}

#[test]
fn report_select() {
    let mut report = Report::new();
    report.append(Path::new("a").join("b"), Error::from_kind(ErrorKind::Required));
    report.append(Path::new("a").join("b").join("c"), Error::from_kind(ErrorKind::NotAscii));
    report.append(Path::new("a").join("b").join("c"), Error::from_kind(ErrorKind::NotAlphanumeric));
    report.append(Path::new("array").join("0").join("c"), Error::from_kind(ErrorKind::NotAlphanumeric));

    let errors = select(&report, &["a", "b", "c"]);
    assert_eq!(errors.len(), 2);

    let errors = select(&report, &["array", "0", "c"]);
    assert_eq!(errors.len(), 1);
}

#[test]
fn path_text_forms() {
    assert_eq!(Path::new("a").join(0usize).join("b").to_string(), "a[0].b");
    assert_eq!(Path::new(3usize).join(4usize).to_string(), "[3][4]");
    assert_eq!(Path::empty().to_string(), "");
    assert!(Path::empty().is_empty());
    assert_eq!(Path::new("x").join("y").len(), 2);
    let components = Path::new("a").join(1usize).__iter();
    assert_eq!(components.len(), 2);
    let leaf_first: Vec<(Kind, String)> = components.into_vec();
    assert_eq!(leaf_first, vec![(Kind::Index, "1".to_string()), (Kind::Key, "a".to_string())]);
}

#[test]
fn codes_and_fluent_codes() {
    let kinds = [
        (ErrorKind::LengthTooShort { min: LengthBound::Inclusive(1), actual: 0 }, "length.too_short", "length-too_short"),
        (ErrorKind::LengthTooLong { max: LengthBound::Exclusive(1), actual: 2 }, "length.too_long", "length-too_long"),
        (
            ErrorKind::RangeTooLow { min: RangeBound::Inclusive("1".to_string()), actual: "0".to_string() },
            "range.too_low",
            "range-too_low",
        ),
        (ErrorKind::InvalidIp { expected: IpKind::V4 }, "ip.invalid_v4", "ip-invalid_v4"),
        (ErrorKind::InvalidIp { expected: IpKind::Any }, "ip.invalid", "ip-invalid"),
        (ErrorKind::Required, "required", "required"),
        (ErrorKind::MissingSubstring { expected: "x".to_string() }, "contains.missing", "contains-missing"),
    ];
    for (kind, code, fluent) in kinds {
        assert_eq!(kind.code(), code);
        assert_eq!(kind.fluent_code(), fluent);
    }
    let custom = ErrorKind::Custom { code: "a.b.c".to_string(), params: Params::new() };
    assert_eq!(custom.fluent_code(), "a-b-c");
}

#[test]
fn default_messages() {
    assert_eq!(
        ErrorKind::LengthTooShort { min: LengthBound::Inclusive(5), actual: 3 }.default_message(),
        "length is lower than 5"
    );
    assert_eq!(
        ErrorKind::LengthTooLong { max: LengthBound::Inclusive(120), actual: 300 }.default_message(),
        "length is greater than 120"
    );
    assert_eq!(
        ErrorKind::RangeTooHigh { max: RangeBound::Exclusive("-7".to_string()), actual: "3".to_string() }
            .default_message(),
        "greater than -7"
    );
    assert_eq!(ErrorKind::InvalidIp { expected: IpKind::V6 }.default_message(), "not a valid IPv6 address");
    assert_eq!(
        ErrorKind::InvalidEmail { reason: EmailErrorReason::MissingAt }.default_message(),
        format!("not a valid email: {}", EmailErrorReason::MissingAt.to_string())
    );
    assert_eq!(ErrorKind::Required.default_message(), "not set");
    assert_eq!(
        ErrorKind::MissingSubstring { expected: "foo".to_string() }.default_message(),
        "does not contain \"foo\""
    );
    assert_eq!(
        ErrorKind::Custom { code: "x.y".to_string(), params: Params::new() }.default_message(),
        "validation failed: x.y"
    );
}

#[test]
fn message_override_wins() {
    let err = Error::with_message(ErrorKind::Required, "please fill in");
    assert_eq!(err.display_message(), "please fill in");
    assert_eq!(err.to_string(), "please fill in");
    let err = Error::from_kind(ErrorKind::Required);
    assert_eq!(err.display_message(), "not set");
}

#[test]
fn custom_code_keeps_message_and_last_code_wins() {
    let err = Error::with_message(ErrorKind::Required, "m").with_custom_code("one").with_custom_code("two");
    assert_eq!(err.code(), "two");
    assert_eq!(err.display_message(), "m");
}

#[test]
fn params_of_kinds() {
    let params = ErrorKind::RangeTooLow { min: RangeBound::Inclusive("10".to_string()), actual: "5".to_string() }
        .into_params();
    assert_eq!(params.get("min"), Some(&ParamValue::String("10".to_string())));
    assert_eq!(params.get("actual"), Some(&ParamValue::String("5".to_string())));
    assert_eq!(params.get("max"), None);
    assert!(ErrorKind::Required.into_params().is_empty());
    let params = ErrorKind::InvalidIp { expected: IpKind::Any }.into_params();
    assert_eq!(params.get("expected"), Some(&ParamValue::String("IP".to_string())));
}

#[test]
fn params_insert_then_get() {
    let mut params = Params::new();
    assert!(params.is_empty());
    params.insert("a".to_string(), ParamValue::Integer(-1));
    assert!(!params.is_empty());
    params.insert("b".to_string(), ParamValue::Bool(true));
    params.insert("a".to_string(), ParamValue::Unsigned(2));
    assert_eq!(params.get("a"), Some(&ParamValue::Unsigned(2)));
    assert_eq!(params.get("b"), Some(&ParamValue::Bool(true)));
    assert_eq!(params.get("c"), None);
    assert_eq!(params.iter().len(), 2);
}

#[test]
fn report_text() {
    let mut report = Report::new();
    assert!(report.is_empty());
    assert_eq!(report.to_string(), "");
    report.append(Path::empty(), Error::from_kind(ErrorKind::Required));
    report.append(Path::new("a").join(0usize), Error::from_kind(ErrorKind::NotAscii));
    assert!(!report.is_empty());
    assert_eq!(report.to_string(), "not set\na[0]: not ascii\n");
    assert_eq!(report.iter().len(), 2);
    assert_eq!(report.into_inner().len(), 2);
}

#[test]
fn bounds_text() {
    assert_eq!(LengthBound::Inclusive(4).value(), 4);
    assert!(!LengthBound::Exclusive(4).is_inclusive());
    assert_eq!(RangeBound::Exclusive("9".to_string()).value_str(), "9");
    assert!(RangeBound::Inclusive("9".to_string()).is_inclusive());
    assert_eq!(IpKind::V4.to_string(), "IPv4");
}

#[test]
fn bundle_text_or_default_message() {
    let kind = ErrorKind::LengthTooShort { min: LengthBound::Inclusive(5), actual: 3 };
    assert_eq!(formatted_or_default(None, &kind), "length is lower than 5");
    assert_eq!(formatted_or_default(Some("too short".to_string()), &kind), "too short");
}

#[test]
fn params_iter_lists_each_key_once_with_its_value() {
    let mut params = Params::default();
    params.insert("k".to_string(), ParamValue::Bool(false));
    params.insert("k".to_string(), ParamValue::Bool(true));
    params.insert("m".to_string(), ParamValue::String("x".to_string()));
    let copy = params.clone();
    let entries = copy.iter();
    assert_eq!(entries.len(), 2);
    for (k, v) in entries {
        assert_eq!(params.get(k), Some(v));
    }
}

#[test]
fn params_equality_ignores_insertion_order() {
    let mut a = Params::new();
    a.insert("x".to_string(), ParamValue::Integer(1));
    a.insert("y".to_string(), ParamValue::Bool(true));
    let mut b = Params::new();
    b.insert("y".to_string(), ParamValue::Bool(true));
    b.insert("x".to_string(), ParamValue::Integer(1));
    assert!(a == b);
    b.insert("x".to_string(), ParamValue::Integer(2));
    assert!(a != b);
    b.insert("x".to_string(), ParamValue::Integer(1));
    b.insert("z".to_string(), ParamValue::Unsigned(0));
    assert!(a != b);
    let ka = ErrorKind::Custom { code: "c".to_string(), params: a.clone() };
    let mut c = Params::new();
    c.insert("y".to_string(), ParamValue::Bool(true));
    c.insert("x".to_string(), ParamValue::Integer(1));
    assert_eq!(ka, ErrorKind::Custom { code: "c".to_string(), params: c });
}

#[test]
fn float_parameters_compare_as_floats() {
    let nan = ParamValue::Float(f64::NAN.to_bits());
    assert!(nan != nan.clone());
    assert!(ParamValue::Float(0.0f64.to_bits()) == ParamValue::Float((-0.0f64).to_bits()));
    assert!(ParamValue::Float(1.5f64.to_bits()) == ParamValue::Float(1.5f64.to_bits()));
    assert!(ParamValue::Float(1.5f64.to_bits()) != ParamValue::Float(2.5f64.to_bits()));
    assert!(ParamValue::Float(1.0f64.to_bits()) != ParamValue::Unsigned(1));
}

#[test]
fn path_components_read_back() {
    let p = Path::new("a").join(0usize).join("c");
    let cs = p.components();
    assert_eq!(cs.len(), 3);
    assert_eq!(cs[0].1, "a".to_string());
    assert_eq!(cs[1].1, "0".to_string());
    assert_eq!(cs[2].1, "c".to_string());
    let back = Path::from_components(cs);
    assert_eq!(back, p);
    assert_eq!(back.to_string(), "a[0].c".to_string());
}

use garde::error::{Error, Path, Report};
use garde::rules::{length, Interval};

/// A replacement for the simple length rule, as a user would write one: same check,
/// its own error.
fn adapted_length(v: &str, range: &Interval<usize>) -> Result<(), Error> {
    if length::apply(v.len(), range).is_err() {
        Err(Error::custom("my custom error message"))
    } else {
        Ok(())
    }
}

struct Test<'a> {
    v: &'a str,
}

fn validate(t: &Test) -> Result<(), Report> {
    let mut report = Report::new();
    if let Err(e) = adapted_length(t.v, &Interval::from(1usize)) {
        report.append(Path::new("v"), e);
    }
    if report.is_empty() {
        Ok(())
    } else {
        Err(report)
    }
}

#[test]
fn alphanumeric_valid() {
    assert!(validate(&Test { v: "test" }).is_ok());
}

#[test]
fn alphanumeric_invalid() {
    let report = validate(&Test { v: "" }).unwrap_err();
    let errors = report.into_inner();
    assert_eq!(errors.len(), 1);
    assert_eq!(errors[0].1.code(), "my custom error message");
}

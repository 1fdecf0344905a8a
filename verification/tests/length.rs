use garde::error::{Error, Path, Report};
use garde::rules::length::{bytes, chars, graphemes, simple, utf16};
use garde::rules::Interval;

fn check_ok<T>(items: &[T], validate: fn(&T) -> Result<(), Report>) {
    for item in items {
        if let Err(report) = validate(item) {
            panic!("expected success, got {}", report.to_string());
        }
    }
}

fn check_fail<T>(items: &[T], validate: fn(&T) -> Result<(), Report>) {
    for item in items {
        assert!(validate(item).is_err(), "expected a validation failure");
    }
}

fn collect(report: &mut Report, path: &str, r: Result<(), Error>) {
    if let Err(e) = r {
        report.append(Path::new(path), e);
    }
}

fn finish(report: Report) -> Result<(), Report> {
    if report.is_empty() { Ok(()) } else { Err(report) }
}

struct Test<'a> {
    field: &'a str,
    inner: &'a [&'a str],
}

fn validate_test(t: &Test) -> Result<(), Report> {
    let mut report = Report::new();
    let range = Interval::inclusive(10usize, 100);
    collect(&mut report, "field", simple::apply(&t.field, &range));
    for (i, item) in t.inner.iter().enumerate() {
        if let Err(e) = simple::apply(item, &range) {
            report.append(Path::new("inner").join(i), e);
        }
    }
    finish(report)
}

#[test]
fn length_valid() {
    check_ok(&[
        Test {
            field: "aaaaaaaaaa",
            inner: &["aaaaaaaaaa"],
        },
        Test {
            field: "aaaaaaaaaaaaaaaaaaaaaaaaaaaaaaaaaaaaaaaaaaaaaaaaaaaaaaaaaaaaaaaaaaaaaaaaaaaaaaaaaaaaaaaaaaaaaaaaaaaa",
            inner: &["aaaaaaaaaaaaaaaaaaaaaaaaaaaaaaaaaaaaaaaaaaaaaaaaaaaaaaaaaaaaaaaaaaaaaaaaaaaaaaaaaaaaaaaaaaaaaaaaaaaa"],
        },
    ], validate_test)
}

#[test]
fn length_invalid() {
    check_fail(&[
        Test {
            field: "aaaaaaaaa",
            inner: &["aaaaaaaaa"],
        },
        Test {
            field: "aaaaaaaaaaaaaaaaaaaaaaaaaaaaaaaaaaaaaaaaaaaaaaaaaaaaaaaaaaaaaaaaaaaaaaaaaaaaaaaaaaaaaaaaaaaaaaaaaaaaa",
            inner: &["aaaaaaaaaaaaaaaaaaaaaaaaaaaaaaaaaaaaaaaaaaaaaaaaaaaaaaaaaaaaaaaaaaaaaaaaaaaaaaaaaaaaaaaaaaaaaaaaaaaaa"],
        },
    ], validate_test)
}

struct Exact<'a> {
    field: &'a str,
    inner: &'a [&'a str],
}

fn validate_exact(t: &Exact) -> Result<(), Report> {
    let mut report = Report::new();
    let range = Interval::inclusive(2usize, 2);
    collect(&mut report, "field", simple::apply(&t.field, &range));
    for (i, item) in t.inner.iter().enumerate() {
        if let Err(e) = simple::apply(item, &range) {
            report.append(Path::new("inner").join(i), e);
        }
    }
    finish(report)
}

#[test]
fn exact_length_valid() {
    check_ok(&[Exact { field: "aa", inner: &["aa"] }], validate_exact)
}

#[test]
fn exact_length_invalid() {
    check_fail(
        &[
            Exact { field: "", inner: &[""] },
            Exact { field: "a", inner: &["a"] },
            Exact { field: "aaa", inner: &["aaa"] },
        ],
        validate_exact,
    )
}

struct MinMaxEqual<'a> {
    min_max: &'a str,
    equal: &'a str,
}

fn validate_min_max_equal(t: &MinMaxEqual) -> Result<(), Report> {
    let mut report = Report::new();
    let range = Interval::inclusive(2usize, 2);
    collect(&mut report, "min_max", simple::apply(&t.min_max, &range));
    collect(&mut report, "equal", simple::apply(&t.equal, &range));
    finish(report)
}

#[test]
fn min_max_equal_length_valid() {
    check_ok(&[MinMaxEqual { min_max: "bb", equal: "bb" }], validate_min_max_equal)
}

#[test]
fn min_max_equal_length_invalid() {
    check_fail(
        &[
            MinMaxEqual { min_max: "", equal: "" },
            MinMaxEqual { min_max: "b", equal: "b" },
            MinMaxEqual { min_max: "bbb", equal: "bbb" },
        ],
        validate_min_max_equal,
    )
}

struct SpecialLengthTest<'a> {
    simple: &'a str,
    bytes: &'a str,
    chars: &'a str,
    graphemes: &'a str,
    utf16: &'a str,
    multi: &'a str,
}

fn validate_special(t: &SpecialLengthTest) -> Result<(), Report> {
    let mut report = Report::new();
    let up_to_one = Interval::up_to(1usize);
    collect(&mut report, "simple", simple::apply(&t.simple, &up_to_one));
    collect(&mut report, "bytes", bytes::apply_bounds(&t.bytes, &up_to_one));
    collect(&mut report, "chars", chars::apply(&t.chars, &up_to_one));
    collect(&mut report, "graphemes", graphemes::apply(&t.graphemes, &up_to_one));
    collect(&mut report, "utf16", utf16::apply(&t.utf16, &up_to_one));
    collect(&mut report, "multi", bytes::apply_bounds(&t.multi, &Interval::up_to(4usize)));
    collect(&mut report, "multi", graphemes::apply(&t.multi, &up_to_one));
    finish(report)
}

#[test]
fn char_length_valid() {
    check_ok(
        &[SpecialLengthTest {
            simple: "a",
            bytes: "a",
            chars: "á",
            graphemes: "á",
            utf16: "á",
            multi: "😂",
        }],
        validate_special,
    )
}

#[test]
fn char_length_invalid() {
    check_fail(
        &[SpecialLengthTest {
            simple: "ab",
            bytes: "ab",
            chars: "y̆",
            graphemes: "áá",
            utf16: "😂",
            multi: "áá",
        }],
        validate_special,
    )
}

use garde::error::{Error, Path, Report};
use garde::rules::length::{bytes, chars, graphemes, simple, utf16};
use garde::rules::Interval;

fn check_ok<T>(items: &[T], validate: fn(&T) -> Result<(), Report>) {
    for item in items {
        if let Err(report) = validate(item) {
            panic!("expected success, got {}", report.to_string());
        }
    }
}

fn check_fail<T>(items: &[T], validate: fn(&T) -> Result<(), Report>) {
    for item in items {
        assert!(validate(item).is_err(), "expected a validation failure");
    }
}

fn collect(report: &mut Report, path: &str, r: Result<(), Error>) {
    if let Err(e) = r {
        report.append(Path::new(path), e);
    }
}

fn finish(report: Report) -> Result<(), Report> {
    if report.is_empty() {
        Ok(())
    } else {
        Err(report)
    }
}

struct LengthBoundsTest {
    inclusive_range: String,
    exclusive_range: String,
    start_only: Vec<i32>,
    end_only: String,
    bytes_range: String,
    chars_range: String,
}

fn validate_bounds(t: &LengthBoundsTest) -> Result<(), Report> {
    let mut report = Report::new();
    collect(&mut report, "inclusive_range", simple::apply(&t.inclusive_range, &Interval::inclusive(5usize, 10)));
    collect(&mut report, "exclusive_range", simple::apply(&t.exclusive_range, &Interval::half_open(1usize, 100)));
    collect(&mut report, "start_only", simple::apply(&t.start_only, &Interval::from(10usize)));
    collect(&mut report, "end_only", simple::apply(&t.end_only, &Interval::up_to(50usize)));
    collect(&mut report, "bytes_range", bytes::apply_bounds(&t.bytes_range, &Interval::inclusive(1usize, 10)));
    collect(&mut report, "chars_range", chars::apply(&t.chars_range, &Interval::inclusive(1usize, 5)));
    finish(report)
}

#[test]
fn length_bounds_valid() {
    check_ok(
        &[
            LengthBoundsTest {
                inclusive_range: "hello".to_string(),
                exclusive_range: "test".to_string(),
                start_only: vec![1, 2, 3, 4, 5, 6, 7, 8, 9, 10, 11],
                end_only: "short".to_string(),
                bytes_range: "hello".to_string(),
                chars_range: "world".to_string(),
            },
            LengthBoundsTest {
                inclusive_range: "hello!".to_string(),
                exclusive_range: "a".to_string(),
                start_only: vec![1; 20],
                end_only: "".to_string(),
                bytes_range: "a".to_string(),
                chars_range: "a".to_string(),
            },
        ],
        validate_bounds,
    )
}

#[test]
fn length_bounds_invalid() {
    check_fail(
        &[
            LengthBoundsTest {
                inclusive_range: "hi".to_string(),
                exclusive_range: "test".to_string(),
                start_only: vec![1, 2, 3],
                end_only: "short".to_string(),
                bytes_range: "hello".to_string(),
                chars_range: "world".to_string(),
            },
            LengthBoundsTest {
                inclusive_range: "hello world!".to_string(),
                exclusive_range: "test".to_string(),
                start_only: vec![1; 20],
                end_only: "short".to_string(),
                bytes_range: "hello".to_string(),
                chars_range: "world".to_string(),
            },
            LengthBoundsTest {
                inclusive_range: "hello".to_string(),
                exclusive_range: "test".to_string(),
                start_only: vec![1; 20],
                end_only: "this is a very long string that exceeds fifty characters total".to_string(),
                bytes_range: "hello".to_string(),
                chars_range: "world".to_string(),
            },
            LengthBoundsTest {
                inclusive_range: "hello".to_string(),
                exclusive_range: "test".to_string(),
                start_only: vec![1; 20],
                end_only: "short".to_string(),
                bytes_range: "".to_string(),
                chars_range: "world".to_string(),
            },
            LengthBoundsTest {
                inclusive_range: "hello".to_string(),
                exclusive_range: "test".to_string(),
                start_only: vec![1; 20],
                end_only: "short".to_string(),
                bytes_range: "hello".to_string(),
                chars_range: "too many chars".to_string(),
            },
        ],
        validate_bounds,
    )
}

struct UnicodeRangeTest {
    graphemes: String,
    utf16: String,
}

fn validate_unicode(t: &UnicodeRangeTest) -> Result<(), Report> {
    let mut report = Report::new();
    collect(&mut report, "graphemes", graphemes::apply(&t.graphemes, &Interval::inclusive(1usize, 2)));
    collect(&mut report, "utf16", utf16::apply(&t.utf16, &Interval::inclusive(1usize, 4)));
    finish(report)
}

#[test]
fn unicode_length_bounds_valid() {
    check_ok(
        &[
            UnicodeRangeTest { graphemes: "😂".to_string(), utf16: "test".to_string() },
            UnicodeRangeTest { graphemes: "😂😂".to_string(), utf16: "a".to_string() },
        ],
        validate_unicode,
    )
}

#[test]
fn unicode_length_bounds_invalid() {
    check_fail(
        &[
            UnicodeRangeTest { graphemes: "".to_string(), utf16: "test".to_string() },
            UnicodeRangeTest { graphemes: "😂😂😂".to_string(), utf16: "test".to_string() },
            UnicodeRangeTest { graphemes: "😂".to_string(), utf16: "tests".to_string() },
        ],
        validate_unicode,
    )
}

#[test]
fn exclusive_end_rejects_its_own_length() {
    let range = Interval::half_open(1usize, 5);
    assert!(simple::apply(&"abcd", &range).is_ok());
    assert!(simple::apply(&"abcde", &range).is_err());
    assert!(simple::apply(&"", &range).is_err());
}

#[test]
fn bytes_and_chars_differ_on_multibyte_text() {
    let range = Interval::up_to(2usize);
    // "éé" is two chars but four bytes.
    assert!(chars::apply(&"éé", &range).is_ok());
    assert!(bytes::apply_bounds(&"éé", &range).is_err());
}

#[test]
fn utf16_counts_surrogate_pairs() {
    assert_eq!(utf16::utf16_code_units("a😂"), 3);
    assert_eq!(utf16::utf16_code_units(""), 0);
    assert_eq!(utf16::utf16_code_units("é"), 1);
}

#[test]
fn graphemes_count_combined_characters_once() {
    let one = Interval::inclusive(1usize, 1);
    // "y" followed by a combining breve is one grapheme of two chars.
    assert!(graphemes::apply(&"y\u{306}", &one).is_ok());
    assert!(chars::apply(&"y\u{306}", &one).is_err());
}

#[test]
fn absent_values_pass() {
    let range = Interval::inclusive(3usize, 4);
    let none: Option<String> = None;
    assert!(simple::apply(&none, &range).is_ok());
    assert!(chars::apply(&none, &range).is_ok());
    assert!(graphemes::apply(&none, &range).is_ok());
    assert!(simple::apply(&Some("ab".to_string()), &range).is_err());
}

#[test]
fn shared_and_boxed_text_and_collections() {
    let range = Interval::inclusive(2usize, 3);
    let boxed: Box<str> = "héllo".into();
    assert!(chars::apply(&boxed, &Interval::inclusive(5usize, 5)).is_ok());
    assert!(bytes::apply_bounds(&boxed, &Interval::inclusive(6usize, 6)).is_ok());
    let shared: std::rc::Rc<[u8]> = vec![1u8, 2].into();
    assert!(bytes::apply_bounds(&shared, &range).is_ok());
    let mut map = std::collections::HashMap::new();
    map.insert(1, 2);
    assert!(simple::apply(&&map, &range).is_err());
    map.insert(3, 4);
    assert!(simple::apply(&&map, &range).is_ok());
    let arc: std::sync::Arc<str> = "ab".into();
    assert!(graphemes::apply(&arc, &range).is_ok());
}

use garde::attr_syntax::{parse_field_attr_list, Attribute, Delimiter, RawRuleKind, TokenTree};
use garde::error::{Error, IpKind, Path, Report};
use garde::rules::length::simple;
use garde::rules::{contains, ip, phone_number, Interval};

fn collect(report: &mut Report, path: &str, r: Result<(), Error>) {
    if let Err(e) = r {
        report.append(Path::new(path), e);
    }
}

fn code_of<'a>(report: &'a Report, field: &str) -> &'a str {
    for (path, error) in report.iter() {
        if path.to_string() == field {
            return error.code();
        }
    }
    panic!("no error for field {}", field)
}

fn convert(ts: proc_macro2::TokenStream) -> Vec<TokenTree> {
    let mut out = Vec::new();
    for t in ts {
        out.push(match t {
            proc_macro2::TokenTree::Ident(i) => TokenTree::Ident(i.to_string()),
            proc_macro2::TokenTree::Punct(p) => TokenTree::Punct(p.as_char(), p.spacing() == proc_macro2::Spacing::Joint),
            proc_macro2::TokenTree::Literal(l) => TokenTree::Literal(l.to_string()),
            proc_macro2::TokenTree::Group(g) => {
                let d = match g.delimiter() {
                    proc_macro2::Delimiter::Parenthesis => Delimiter::Parenthesis,
                    proc_macro2::Delimiter::Brace => Delimiter::Brace,
                    proc_macro2::Delimiter::Bracket => Delimiter::Bracket,
                    proc_macro2::Delimiter::None => Delimiter::Invisible,
                };
                TokenTree::Group(d, convert(g.stream()))
            }
        });
    }
    out
}

/// The custom code that a field's `garde` attributes give, if any.
fn custom_code(attrs: &[&str]) -> Option<String> {
    let attrs: Vec<Attribute> = attrs
        .iter()
        .map(|a| Attribute { path: "garde".to_string(), args: Some(convert(a.parse().unwrap())) })
        .collect();
    for rule in parse_field_attr_list(&attrs).unwrap() {
        if let RawRuleKind::Code(c) = rule.kind {
            return Some(c);
        }
    }
    None
}

#[test]
fn test_custom_error_codes() {
    let username = "ab".to_string();
    let standard_length = "ab".to_string();

    // #[garde(length(3..=10))] #[garde(code("CUSTOM_LENGTH_ERROR"))]
    let code = custom_code(&["length(3..=10)", "code(\"CUSTOM_LENGTH_ERROR\")"]).unwrap();
    assert_eq!(custom_code(&["length(3..=10)"]), None);

    let mut report = Report::new();
    collect(&mut report, "username", simple::apply_with_code(&username, &Interval::inclusive(3usize, 10), &code));
    collect(&mut report, "standard_length", simple::apply(&standard_length, &Interval::inclusive(3usize, 10)));

    let errors: Vec<_> = report.iter().iter().collect();
    assert_eq!(errors.len(), 2);
    assert_eq!(code_of(&report, "username"), "CUSTOM_LENGTH_ERROR");
    assert_eq!(code_of(&report, "standard_length"), "length.too_short");
}

#[test]
fn test_comprehensive_custom_error_codes() {
    let phone = "invalid-phone".to_string();
    let ip_field = "invalid-ip".to_string();
    let contains_field = "no-match".to_string();
    let length_field = "ab".to_string();

    let mut report = Report::new();
    collect(&mut report, "phone", phone_number::apply_with_code(&phone, (), "CUSTOM_PHONE"));
    collect(
        &mut report,
        "ip",
        ip::apply(&ip_field, (IpKind::Any,)).map_err(|e| e.with_custom_code("CUSTOM_IP")),
    );
    collect(&mut report, "contains_field", contains::apply_with_code(&contains_field, ("test",), "CUSTOM_CONTAINS"));
    collect(&mut report, "length_field", simple::apply_with_code(&length_field, &Interval::inclusive(5usize, 10), "CUSTOM_LENGTH"));

    let errors: Vec<_> = report.iter().iter().collect();
    assert_eq!(errors.len(), 4);
    for (path, error) in &errors {
        let code = error.code();
        match path.to_string().as_str() {
            "phone" => assert_eq!(code, "CUSTOM_PHONE"),
            "ip" => assert_eq!(code, "CUSTOM_IP"),
            "contains_field" => assert_eq!(code, "CUSTOM_CONTAINS"),
            "length_field" => assert_eq!(code, "CUSTOM_LENGTH"),
            _ => panic!("Unexpected field: {}", path.to_string()),
        }
    }
}

#[test]
fn test_standard_error_codes() {
    let length_field = "ab".to_string();

    let mut report = Report::new();
    collect(&mut report, "length_field", simple::apply(&length_field, &Interval::inclusive(3usize, 10)));

    for (path, error) in report.iter() {
        match path.to_string().as_str() {
            "length_field" => assert_eq!(error.code(), "length.too_short"),
            _ => panic!("Unexpected field: {}", path.to_string()),
        }
    }
    assert!(!report.is_empty());
}

use garde::attr_syntax::{parse_field_attr_list, Attribute, Delimiter, RawRuleKind, TokenTree};
use garde::error::{Error, Path, Report};
use garde::rules::length::simple;
use garde::rules::{range, Interval};

struct TestStruct {
    field: String,
    normal_field: i32,
}

fn collect(report: &mut Report, path: &str, r: Result<(), Error>) {
    if let Err(e) = r {
        report.append(Path::new(path), e);
    }
}

fn convert(ts: proc_macro2::TokenStream) -> Vec<TokenTree> {
    let mut out = Vec::new();
    for t in ts {
        out.push(match t {
            proc_macro2::TokenTree::Ident(i) => TokenTree::Ident(i.to_string()),
            proc_macro2::TokenTree::Punct(p) => TokenTree::Punct(p.as_char(), p.spacing() == proc_macro2::Spacing::Joint),
            proc_macro2::TokenTree::Literal(l) => TokenTree::Literal(l.to_string()),
            proc_macro2::TokenTree::Group(g) => {
                let d = match g.delimiter() {
                    proc_macro2::Delimiter::Parenthesis => Delimiter::Parenthesis,
                    proc_macro2::Delimiter::Brace => Delimiter::Brace,
                    proc_macro2::Delimiter::Bracket => Delimiter::Bracket,
                    proc_macro2::Delimiter::None => Delimiter::Invisible,
                };
                TokenTree::Group(d, convert(g.stream()))
            }
        });
    }
    out
}

/// The name under which a field is reported: its `rename(...)`, or its own name.
fn reported_name(field: &str, garde_args: &str) -> String {
    let attrs = vec![Attribute {
        path: "garde".to_string(),
        args: Some(convert(garde_args.parse::<proc_macro2::TokenStream>().unwrap())),
    }];
    for rule in parse_field_attr_list(&attrs).unwrap() {
        if let RawRuleKind::Rename(name) = rule.kind {
            return name;
        }
    }
    field.to_string()
}

/// The field `field` carries `#[garde(rename("custom_name"), length(5..))]`,
/// `normal_field` carries `#[garde(range(10..))]`.
fn validate(t: &TestStruct) -> Result<(), Report> {
    let mut report = Report::new();
    let field_name = reported_name("field", "rename(\"custom_name\"), length(5..)");
    let normal_name = reported_name("normal_field", "range(10..)");
    collect(&mut report, &field_name, simple::apply(&t.field, &Interval::from(5usize)));
    collect(&mut report, &normal_name, range::apply_bounds(&t.normal_field, (Interval::from(10i32),)));
    if report.is_empty() {
        Ok(())
    } else {
        Err(report)
    }
}

#[test]
fn rename_field_in_error_path() {
    let invalid = TestStruct { field: "abc".to_string(), normal_field: 5 };

    let result = validate(&invalid);
    assert!(result.is_err());

    let error = result.unwrap_err();
    let error_string = format!("{:?}", error);

    assert!(
        error_string.contains("custom_name"),
        "Error should contain renamed field 'custom_name', got: {}",
        error_string
    );
    assert!(
        error_string.contains("normal_field"),
        "Error should contain original field 'normal_field', got: {}",
        error_string
    );
}

#[test]
fn rename_field_valid() {
    let valid = TestStruct { field: "valid_string".to_string(), normal_field: 15 };
    assert!(validate(&valid).is_ok());
}

#[test]
fn renamed_field_text_report() {
    let invalid = TestStruct { field: "abc".to_string(), normal_field: 5 };
    let report = validate(&invalid).unwrap_err();
    assert_eq!(
        report.to_string(),
        "custom_name: length is lower than 5\nnormal_field: lower than 10\n"
    );
}

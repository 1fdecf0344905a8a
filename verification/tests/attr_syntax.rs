use garde::attr_syntax::{
    parse, parse_field_attr_list, parse_input_attr, parse_rule, Attribute, DataInput, DeriveInput, Delimiter,
    FieldsInput, InputAttr, InputKind, LengthMode, ParseError, RawRule, RawRuleKind, TokenRange, TokenTree, Variant,
};

fn convert(ts: proc_macro2::TokenStream) -> Vec<TokenTree> {
    let mut out = Vec::new();
    for t in ts {
        out.push(match t {
            proc_macro2::TokenTree::Ident(i) => TokenTree::Ident(i.to_string()),
            proc_macro2::TokenTree::Punct(p) => TokenTree::Punct(p.as_char(), p.spacing() == proc_macro2::Spacing::Joint),
            proc_macro2::TokenTree::Literal(l) => TokenTree::Literal(l.to_string()),
            proc_macro2::TokenTree::Group(g) => {
                let d = match g.delimiter() {
                    proc_macro2::Delimiter::Parenthesis => Delimiter::Parenthesis,
                    proc_macro2::Delimiter::Brace => Delimiter::Brace,
                    proc_macro2::Delimiter::Bracket => Delimiter::Bracket,
                    proc_macro2::Delimiter::None => Delimiter::Invisible,
                };
                TokenTree::Group(d, convert(g.stream()))
            }
        });
    }
    out
}

fn toks(s: &str) -> Vec<TokenTree> {
    convert(s.parse::<proc_macro2::TokenStream>().unwrap())
}

fn rule(s: &str) -> Result<RawRule, ParseError> {
    parse_rule(&toks(s))
}

fn garde(args: &str) -> Attribute {
    Attribute { path: "garde".to_string(), args: Some(toks(args)) }
}

fn range(start: usize, end: usize) -> TokenRange {
    TokenRange { start, end }
}

#[test]
fn simple_rules_with_and_without_code() {
    let r = rule("required").unwrap();
    assert!(matches!(r.kind, RawRuleKind::Required) && r.code.is_none());
    let r = rule("email(code = \"CUSTOM_EMAIL\")").unwrap();
    assert!(matches!(r.kind, RawRuleKind::Email));
    assert_eq!(r.code.as_deref(), Some("CUSTOM_EMAIL"));
    assert!(matches!(rule("ip()").unwrap().kind, RawRuleKind::Ip));
    assert_eq!(rule("ascii(foo = \"x\")").unwrap_err(), ParseError::ExpectedCode);
    assert_eq!(rule("ascii(code = 5)").unwrap_err(), ParseError::Syntax);
    assert_eq!(rule("ascii[code = \"x\"]").unwrap_err(), ParseError::Syntax);
}

#[test]
fn length_rules_and_modes() {
    let r = rule("length(5..=10)").unwrap();
    assert!(matches!(r.kind, RawRuleKind::Length(LengthMode::Simple, rg) if rg == range(0, 5)));
    let r = rule("length(bytes, 1..=10)").unwrap();
    assert!(matches!(r.kind, RawRuleKind::Length(LengthMode::Bytes, rg) if rg == range(2, 7)));
    let r = rule("length(graphemes, 1..=2, code = \"LEN\")").unwrap();
    assert!(matches!(r.kind, RawRuleKind::Length(LengthMode::Graphemes, _)));
    assert_eq!(r.code.as_deref(), Some("LEN"));
    let r = rule("length(utf16, ..=4,)").unwrap();
    assert!(matches!(r.kind, RawRuleKind::Length(LengthMode::Utf16, _)) && r.code.is_none());
    assert_eq!(rule("length(bytes)").unwrap_err(), ParseError::LengthModeWithoutRange);
    assert_eq!(rule("length()").unwrap_err(), ParseError::Syntax);
    assert_eq!(rule("length").unwrap_err(), ParseError::Syntax);
    assert_eq!(ParseError::LengthModeWithoutRange.message(), "length mode must be followed by a range expression (e.g., `bytes, 1..=10`)");
}

#[test]
fn value_rules() {
    assert!(matches!(rule("range(10..)").unwrap().kind, RawRuleKind::Range(_)));
    let r = rule("contains(\"test\", code = \"CUSTOM_CONTAINS\")").unwrap();
    assert!(matches!(r.kind, RawRuleKind::Contains(rg) if rg == range(0, 1)));
    assert_eq!(r.code.as_deref(), Some("CUSTOM_CONTAINS"));
    assert!(matches!(rule("matches(foo)").unwrap().kind, RawRuleKind::Matches(_)));
    assert!(matches!(rule("prefix(\"pre_\")").unwrap().kind, RawRuleKind::Prefix(_)));
    assert!(matches!(rule("suffix(\"_suf\")").unwrap().kind, RawRuleKind::Suffix(_)));
    let r = rule("custom(|value: &str, ctx: &()| check(value, ctx))").unwrap();
    assert!(matches!(r.kind, RawRuleKind::Custom(_)));
    match rule("pattern(r\"^[a-z]+$\")").unwrap().kind {
        RawRuleKind::PatternLit(s) => assert_eq!(s, "^[a-z]+$"),
        other => panic!("{other:?}"),
    }
    assert!(matches!(rule("pattern(MY_RE)").unwrap().kind, RawRuleKind::PatternExpr(_)));
    assert_eq!(rule("pattern(5)").unwrap_err(), ParseError::Syntax);
    assert_eq!(rule("range(min = 1, max = 2)").unwrap_err(), ParseError::Syntax);
}

#[test]
fn rules_without_code() {
    assert!(matches!(rule("skip").unwrap().kind, RawRuleKind::Skip));
    assert_eq!(rule("skip(x)").unwrap_err(), ParseError::Syntax);
    match rule("rename(\"custom_name\")").unwrap().kind {
        RawRuleKind::Rename(s) => assert_eq!(s, "custom_name"),
        other => panic!("{other:?}"),
    }
    match rule("code(\"CUSTOM\")").unwrap().kind {
        RawRuleKind::Code(s) => assert_eq!(s, "CUSTOM"),
        other => panic!("{other:?}"),
    }
    assert!(matches!(rule("dive").unwrap().kind, RawRuleKind::Dive(None)));
    assert!(matches!(rule("dive()").unwrap().kind, RawRuleKind::Dive(None)));
    assert!(matches!(rule("dive(&self.ctx)").unwrap().kind, RawRuleKind::Dive(Some(_))));
    assert!(matches!(rule("adapt(my_mod::adapter)").unwrap().kind, RawRuleKind::Adapt(_)));
    match rule("inner(length(1..), ascii)").unwrap().kind {
        RawRuleKind::Inner(rules) => assert_eq!(rules.len(), 2),
        other => panic!("{other:?}"),
    }
    assert_eq!(rule("inner(nope)").unwrap_err(), ParseError::UnrecognizedRule);
    assert_eq!(rule("frobnicate").unwrap_err(), ParseError::UnrecognizedRule);
    assert_eq!(rule("rename(custom)").unwrap_err(), ParseError::Syntax);
}

#[test]
fn if_rules() {
    match rule("if(cond = self.a > 1, required, length(1..))").unwrap().kind {
        RawRuleKind::If(cond, rules) => {
            assert_eq!(cond, range(2, 7));
            assert_eq!(rules.len(), 2);
        }
        other => panic!("{other:?}"),
    }
    match rule("if(cond = |a, b| a < b, ascii)").unwrap().kind {
        RawRuleKind::If(cond, rules) => {
            assert_eq!(cond, range(2, 10));
            assert_eq!(rules.len(), 1);
        }
        other => panic!("{other:?}"),
    }
    assert_eq!(rule("if(when = x, required)").unwrap_err(), ParseError::ExpectedCond);
    assert_eq!(rule("if(cond = x,)").unwrap_err(), ParseError::IfWithoutRules);
    assert_eq!(rule("if(cond = x)").unwrap_err(), ParseError::Syntax);
}

#[test]
fn field_attributes_in_order_with_every_error() {
    let attrs = vec![
        garde("length(3..=10)"),
        Attribute { path: "serde".to_string(), args: Some(toks("rename = \"x\"")) },
        garde("code(\"CUSTOM_LENGTH_ERROR\"), ascii,"),
    ];
    let rules = parse_field_attr_list(&attrs).unwrap();
    assert_eq!(rules.len(), 3);
    assert!(matches!(rules[0].kind, RawRuleKind::Length(..)));
    assert!(matches!(&rules[1].kind, RawRuleKind::Code(c) if c == "CUSTOM_LENGTH_ERROR"));
    assert!(matches!(rules[2].kind, RawRuleKind::Ascii));

    let attrs = vec![garde("nope, required, length(bytes)"), Attribute { path: "garde".to_string(), args: None }];
    assert_eq!(
        parse_field_attr_list(&attrs).unwrap_err(),
        vec![ParseError::UnrecognizedRule, ParseError::LengthModeWithoutRange, ParseError::Syntax]
    );
    assert!(parse_field_attr_list(&[]).unwrap().is_empty());
}

#[test]
fn type_attributes() {
    assert!(matches!(parse_input_attr(&toks("transparent")), Ok(InputAttr::Transparent)));
    assert!(matches!(parse_input_attr(&toks("allow_unvalidated")), Ok(InputAttr::AllowUnvalidated)));
    assert!(matches!(parse_input_attr(&toks("context(MyCtx)")), Ok(InputAttr::Context(r, None)) if r == range(0, 1)));
    match parse_input_attr(&toks("context(Vec<u8> as c)")) {
        Ok(InputAttr::Context(r, Some(name))) => {
            assert_eq!(r, range(0, 4));
            assert_eq!(name, "c");
        }
        other => panic!("{other:?}"),
    }
    assert_eq!(parse_input_attr(&toks("bogus")).unwrap_err(), ParseError::UnrecognizedAttribute);
    assert_eq!(parse_input_attr(&toks("transparent, transparent")).unwrap_err(), ParseError::Syntax);
}

#[test]
fn whole_types() {
    let input = DeriveInput {
        attrs: vec![garde("transparent")],
        data: DataInput::Struct(FieldsInput::Named(vec![
            ("field".to_string(), vec![garde("rename(\"custom_name\"), length(5..)")]),
            ("normal_field".to_string(), vec![garde("range(10..)")]),
        ])),
    };
    let parsed = parse(&input).unwrap();
    assert_eq!(parsed.attrs.len(), 1);
    match parsed.kind {
        InputKind::Struct(Variant::Struct(fields)) => {
            assert_eq!(fields.len(), 2);
            assert_eq!(fields[0].0, "field");
            assert_eq!(fields[0].1.len(), 2);
            assert_eq!(fields[1].0, "normal_field");
        }
        other => panic!("{other:?}"),
    }

    let unit = DeriveInput { attrs: vec![], data: DataInput::Struct(FieldsInput::Unit) };
    assert_eq!(parse(&unit).unwrap_err(), vec![ParseError::UnitStruct]);
    let union = DeriveInput { attrs: vec![garde("bogus")], data: DataInput::Union };
    assert_eq!(parse(&union).unwrap_err(), vec![ParseError::UnrecognizedAttribute, ParseError::Union]);

    let e = DeriveInput {
        attrs: vec![],
        data: DataInput::Enum(vec![
            ("A".to_string(), FieldsInput::Unit),
            ("B".to_string(), FieldsInput::Unnamed(vec![vec![garde("ascii")]])),
        ]),
    };
    match parse(&e).unwrap().kind {
        InputKind::Enum(vs) => {
            assert_eq!(vs.len(), 2);
            assert!(vs[0].1.is_none());
            assert!(matches!(&vs[1].1, Some(Variant::Tuple(f)) if f.len() == 1));
        }
        other => panic!("{other:?}"),
    }
    let bad = DeriveInput {
        attrs: vec![],
        data: DataInput::Struct(FieldsInput::Unnamed(vec![vec![garde("length(bytes)")], vec![garde("nope")]])),
    };
    assert_eq!(parse(&bad).unwrap_err(), vec![ParseError::LengthModeWithoutRange, ParseError::UnrecognizedRule]);
}

use garde::error::{ErrorKind, IpKind, ParamValue};
use garde::rules::ip::{self, addr, AddrParseError, Ip};
use garde::rules::phone_number::PhoneNumber;
use garde::rules::{contains, phone_number, required};

#[test]
fn contains_reports_the_missing_substring() {
    assert!(contains::apply(&"hello world", ("lo w",)).is_ok());
    assert!(contains::apply(&"hello", ("",)).is_ok());
    assert!(contains::apply(&"hello", ("hello",)).is_ok());
    let e = contains::apply(&"hello", ("xyz",)).unwrap_err();
    assert_eq!(e.kind, ErrorKind::MissingSubstring { expected: "xyz".to_string() });
    assert_eq!(e.display_message(), "does not contain \"xyz\"");
    assert!(contains::apply(&Option::<String>::None, ("xyz",)).is_ok());
    assert!(contains::apply(&"ab", ("abc",)).is_err());
}

#[test]
fn contains_with_code_keeps_message_and_params() {
    let e = contains::apply_with_code(&"hello", ("xyz",), "CUSTOM_CONTAINS").unwrap_err();
    assert_eq!(e.code(), "CUSTOM_CONTAINS");
    assert_eq!(e.display_message(), "does not contain \"xyz\"");
    match &e.kind {
        ErrorKind::Custom { params, .. } => {
            assert_eq!(params.get("expected"), Some(&ParamValue::String("xyz".to_string())))
        }
        _ => panic!("expected a custom kind"),
    }
    assert!(contains::apply_with_code(&"xyz", ("xyz",), "C").is_ok());
}

#[test]
fn required_rule() {
    assert!(required::apply(&Some(1u8), ()).is_ok());
    let e = required::apply(&Option::<u8>::None, ()).unwrap_err();
    assert_eq!(e.kind, ErrorKind::Required);
    assert_eq!(e.code(), "required");
}

#[test]
fn matches_rule() {
    assert!(garde::rules::matches::apply(&5u32, ("other", &5u32)).is_ok());
    let e = garde::rules::matches::apply(&5u32, ("password", &6u32)).unwrap_err();
    assert_eq!(e.kind, ErrorKind::FieldMismatch { other_field: "password".to_string() });
    assert_eq!(e.display_message(), "does not match password field");
}

#[test]
fn ipv4_forms() {
    for ok in ["0.0.0.0", "127.0.0.1", "255.255.255.255", "1.22.3.4"] {
        assert!(ip::apply(&ok, (IpKind::V4,)).is_ok(), "{ok}");
        assert!(ip::apply(&ok, (IpKind::Any,)).is_ok(), "{ok}");
        assert!(ip::apply(&ok, (IpKind::V6,)).is_err(), "{ok}");
    }
    for bad in ["", "1.2.3", "1.2.3.4.5", "256.1.1.1", "01.1.1.1", "1..2.3", "1.2.3.4 ", "a.b.c.d", "1.2.3.-4"] {
        assert!(ip::apply(&bad, (IpKind::V4,)).is_err(), "{bad}");
    }
}

#[test]
fn ipv6_forms() {
    for ok in [
        "::",
        "::1",
        "1::",
        "1:2:3:4:5:6:7:8",
        "fe80::1:2",
        "FFFF::",
        "::ffff:192.168.0.1",
        "1:2:3:4:5:6:1.2.3.4",
        "1::2:3:4:5:6:7",
        "1:2:3:4:5:6:7::",
        "::2:3:4:5:6:7:8",
        "0000:0000::0001",
    ] {
        assert!(ip::apply(&ok, (IpKind::V6,)).is_ok(), "{ok}");
        assert!(ip::apply(&ok, (IpKind::Any,)).is_ok(), "{ok}");
        assert!(ip::apply(&ok, (IpKind::V4,)).is_err(), "{ok}");
    }
    for bad in [
        "",
        ":",
        ":::",
        "1:2:3:4:5:6:7",
        "1:2:3:4:5:6:7:8:9",
        "1::2::3",
        "12345::",
        "g::",
        ":1:2:3:4:5:6:7:8",
        "1:2:3:4:5:6:7:8:",
        "1:2:3:4:5:6:7:1.2.3.4",
        "1.2.3.4::",
        "::1.2.3.4:5",
        "1:2:3:4:5:6:7::8",
        "1::2:3:4:5:6:7:8",
    ] {
        assert!(ip::apply(&bad, (IpKind::V6,)).is_err(), "{bad}");
    }
}

#[test]
fn ip_error_names_the_expected_kind() {
    let e = ip::apply(&"nope", (IpKind::V6,)).unwrap_err();
    assert_eq!(e.kind, ErrorKind::InvalidIp { expected: IpKind::V6 });
    assert_eq!(e.code(), "ip.invalid_v6");
    assert_eq!(e.display_message(), "not a valid IPv6 address");
    assert_eq!("nope".validate_ip(IpKind::V4), Err(AddrParseError { kind: IpKind::V4 }));
    assert_eq!(AddrParseError { kind: IpKind::Any }.to_string(), "invalid IP address syntax");
    assert!(ip::apply(&Option::<String>::None, (IpKind::V4,)).is_ok());
}

#[test]
fn address_checkers_on_char_vectors() {
    let samples = [
        ("1.2.3.4", true, false),
        ("::", false, true),
        ("::1", false, true),
        ("1:2::", false, true),
        ("a:b:c:d:e:f:0:1", false, true),
        ("::ffff:1.2.3.4", false, true),
        ("1.2.3.256", false, false),
        ("x", false, false),
        ("1:2", false, false),
        ("::1.2.3", false, false),
        ("0:0:0:0:0:0:0:0:0", false, false),
        ("fffff::", false, false),
    ];
    for (s, v4, v6) in samples {
        let chars: Vec<char> = s.chars().collect();
        assert_eq!(addr::is_ipv4_exec(&chars), v4, "{s}");
        assert_eq!(addr::is_ipv6_exec(&chars), v6, "{s}");
        assert_eq!(addr::is_ip_exec(&chars), v4 || v6, "{s}");
    }
}

#[test]
fn phone_numbers() {
    assert!(phone_number::apply(&"+14152370800", ()).is_ok());
    assert!(phone_number::apply(&Option::<String>::None, ()).is_ok());
    let e = phone_number::apply(&"not a number", ()).unwrap_err();
    assert!(matches!(e.kind, ErrorKind::InvalidPhoneNumber { .. }));
    assert_eq!(e.code(), "phone_number.invalid");
    let e = phone_number::apply_with_code(&"not a number", (), "CUSTOM_PHONE").unwrap_err();
    assert_eq!(e.code(), "CUSTOM_PHONE");
}

#[test]
fn phone_outcome_maps_each_result() {
    assert!(phone_number::phone_outcome(Ok(true)).is_ok());
    let e = phone_number::phone_outcome(Ok(false)).unwrap_err();
    assert_eq!(e.kind, ErrorKind::InvalidPhoneNumber { reason: String::new() });
    assert_eq!(e.display_message(), "not a valid phone number");
    let e = phone_number::phone_outcome(Err("too short".to_string())).unwrap_err();
    assert_eq!(e.kind, ErrorKind::InvalidPhoneNumber { reason: "too short".to_string() });
    assert_eq!(e.display_message(), "not a valid phone number: too short");
}

#[test]
fn phone_check_results() {
    assert_eq!("+14152370800".validate_phone_number(), Ok(true));
    assert_eq!("+11234567890".validate_phone_number(), Ok(false));
    assert_eq!("abc".validate_phone_number(), Err("not a number".to_string()));
    assert_eq!("+999 123".validate_phone_number(), Err("invalid country code".to_string()));
    assert_eq!(Option::<&str>::None.validate_phone_number(), Ok(true));
    let e = phone_number::apply(&"+11234567890", ()).unwrap_err();
    assert_eq!(e.display_message(), "not a valid phone number");
    let e = phone_number::apply(&"abc", ()).unwrap_err();
    assert_eq!(e.kind, ErrorKind::InvalidPhoneNumber { reason: "not a number".to_string() });
    assert_eq!(e.display_message(), "not a valid phone number: not a number");
}

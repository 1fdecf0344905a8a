use garde::error::fluent_support::{fluent_arg, FluentArg};
use garde::error::ParamValue;

#[test]
fn parameters_become_fluent_arguments() {
    assert_eq!(fluent_arg(&ParamValue::Bool(true)), FluentArg::Text("true".to_string()));
    assert_eq!(fluent_arg(&ParamValue::Bool(false)), FluentArg::Text("false".to_string()));
    assert_eq!(fluent_arg(&ParamValue::Unsigned(5)), FluentArg::Number(5));
    assert_eq!(fluent_arg(&ParamValue::Unsigned(u64::MAX)), FluentArg::Number(-1));
    assert_eq!(fluent_arg(&ParamValue::Integer(-3)), FluentArg::Number(-3));
    assert_eq!(fluent_arg(&ParamValue::String("abc".to_string())), FluentArg::Text("abc".to_string()));
    let bits = 1.5f64.to_bits();
    assert_eq!(fluent_arg(&ParamValue::Float(bits)), FluentArg::Float(bits));
}

use serdev::{Error, Reexport, Validate};

#[test]
fn parse_bare_assignment_form() {
    let v = Validate::parse("validate = \"Self::validate\"").unwrap();
    assert_eq!(v, Validate::Eq("Self::validate".to_string()));
}

#[test]
fn parse_structured_form_by_only() {
    let v = Validate::parse("validate(by = \"Self::validate\")").unwrap();
    assert_eq!(v, Validate::Paren { by: "Self::validate".to_string(), error: None });
}

#[test]
fn parse_structured_form_with_error() {
    let v = Validate::parse("validate(by = \"Self::validate\", error = \"&'static str\")").unwrap();
    assert_eq!(
        v,
        Validate::Paren {
            by: "Self::validate".to_string(),
            error: Some("&'static str".to_string())
        }
    );
}

#[test]
fn parse_structured_form_keys_in_either_order() {
    let v = Validate::parse("validate(error = \"E\", by = \"f\")").unwrap();
    assert_eq!(v, Validate::Paren { by: "f".to_string(), error: Some("E".to_string()) });
}

#[test]
fn parse_tolerates_whitespace() {
    let v = Validate::parse("  validate   =   \"p\"  ").unwrap();
    assert_eq!(v, Validate::Eq("p".to_string()));
}

#[test]
fn parse_tolerates_stray_commas() {
    let v = Validate::parse("validate(, by = \"f\" ,, )").unwrap();
    assert_eq!(v, Validate::Paren { by: "f".to_string(), error: None });
}

#[test]
fn structured_form_without_by_is_rejected() {
    let e = Validate::parse("validate(error = \"E\")").unwrap_err();
    assert_eq!(e, Error::MissingValidatorPath);
}

#[test]
fn unknown_sub_key_is_rejected() {
    let e = Validate::parse("validate(by = \"f\", wrap = \"x\")").unwrap_err();
    assert!(matches!(e, Error::UnknownOption { .. }));
}

#[test]
fn bare_key_without_value_is_rejected() {
    let e = Validate::parse("validate").unwrap_err();
    assert!(matches!(e, Error::SyntaxError { .. }));
}

#[test]
fn validate_prefixed_other_key_is_rejected() {
    let e = Validate::parse("validated = \"x\"").unwrap_err();
    assert!(matches!(e, Error::SyntaxError { .. }));
}

#[test]
fn unterminated_literal_is_rejected() {
    let e = Validate::parse("validate = \"oops").unwrap_err();
    assert!(matches!(e, Error::SyntaxError { .. }));
}

#[test]
fn escape_in_literal_is_rejected() {
    let e = Validate::parse("validate = \"a\\\\b\"").unwrap_err();
    assert!(matches!(e, Error::SyntaxError { .. }));
}

#[test]
fn trailing_text_is_rejected() {
    let e = Validate::parse("validate = \"p\" junk").unwrap_err();
    assert!(matches!(e, Error::SyntaxError { .. }));
}

#[test]
fn validator_path_is_checked() {
    let v = Validate::parse("validate = \"Self::validate\"").unwrap();
    assert_eq!(v.function().unwrap(), "Self::validate".to_string());
    let bad = Validate::parse("validate = \"not a path!!\"").unwrap();
    assert_eq!(bad.function().unwrap_err(), Error::InvalidPath);
}

#[test]
fn explicit_error_type_is_checked() {
    let v = Validate::parse("validate(by = \"f\", error = \"&'static str\")").unwrap();
    assert_eq!(v.error().unwrap(), Some("&'static str".to_string()));
    let none = Validate::parse("validate(by = \"f\")").unwrap();
    assert_eq!(none.error().unwrap(), None);
    let bad = Validate::parse("validate(by = \"f\", error = \"not a type!!(\")").unwrap();
    assert_eq!(bad.error().unwrap_err(), Error::InvalidErrorType);
}

#[test]
fn parse_namespace_override() {
    let r = Reexport::parse("crate = \"my::lib\"").unwrap();
    assert_eq!(r.path_str(), "my::lib".to_string());
    assert_eq!(r.path().unwrap(), "my::lib".to_string());
}

#[test]
fn namespace_override_path_is_checked() {
    let r = Reexport::parse("crate = \"???\"").unwrap();
    assert_eq!(r.path().unwrap_err(), Error::InvalidPath);
}

#[test]
fn namespace_override_grammar_is_strict() {
    assert!(matches!(
        Reexport::parse("crates = \"my::lib\"").unwrap_err(),
        Error::SyntaxError { .. }
    ));
    assert!(matches!(Reexport::parse("crate = my::lib").unwrap_err(), Error::SyntaxError { .. }));
}

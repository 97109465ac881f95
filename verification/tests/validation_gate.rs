use serdev::{
    decode_from_raw, decode_from_raw_default, default_error, encode_gate, try_from_shadow,
    try_from_shadow_default, DecodeError, EUser, GUser, VUser, Validator,
};

fn vuser_from_json(text: &str) -> Result<VUser, String> {
    // the codec framework's raw decode, standing outside the library
    let v: serde_json::Value = serde_json::from_str(text).map_err(|e| e.to_string())?;
    let name = v
        .get("name")
        .and_then(|n| n.as_str())
        .ok_or_else(|| "missing `name`".to_string())?
        .to_string();
    let age = v
        .get("age")
        .and_then(|a| a.as_u64())
        .ok_or_else(|| "missing `age`".to_string())? as usize;
    Ok(VUser { name, age })
}

#[test]
fn decoding_a_valid_user_yields_the_value() {
    let raw = vuser_from_json(r#"{"age":4,"name":"ohkami"}"#);
    let got = decode_from_raw_default(raw).unwrap();
    assert_eq!(got, VUser { name: "ohkami".to_string(), age: 4 });
}

#[test]
fn decoding_an_empty_name_fails_with_the_exact_text() {
    let raw = vuser_from_json(r#"{"age":4,"name":""}"#);
    match decode_from_raw_default(raw) {
        Err(DecodeError::Invalid(msg)) => assert_eq!(msg, "`name` must not be empty"),
        other => panic!("expected a validation failure, got {:?}", other),
    }
}

#[test]
fn raw_decode_failures_pass_through_unchanged() {
    let raw: Result<VUser, String> = vuser_from_json(r#"{"age":4}"#);
    match decode_from_raw(raw) {
        Err(DecodeError::Codec(msg)) => assert_eq!(msg, "missing `name`".to_string()),
        other => panic!("expected the codec error through unchanged, got {:?}", other),
    }
}

#[test]
fn the_gate_returns_the_decoded_value_unchanged() {
    let raw: Result<VUser, String> = Ok(VUser { name: "ohkami".to_string(), age: 4 });
    let got = decode_from_raw(raw).unwrap();
    assert_eq!(got, VUser { name: "ohkami".to_string(), age: 4 });
}

#[test]
fn explicit_error_type_is_the_failure_value_itself() {
    let r = try_from_shadow(EUser { name: String::new(), age: 4 });
    assert_eq!(r.unwrap_err(), "`name` must not be empty");
}

#[test]
fn default_error_keeps_the_displayed_text() {
    let r = try_from_shadow_default(VUser { name: String::new(), age: 4 });
    assert_eq!(r.unwrap_err(), "`name` must not be empty".to_string());
    assert_eq!(default_error("boom"), "boom".to_string());
}

#[test]
fn conversion_is_a_pure_relabeling() {
    let v = try_from_shadow(EUser { name: "serdev".to_string(), age: 0 }).unwrap();
    assert_eq!(v, EUser { name: "serdev".to_string(), age: 0 });
}

#[test]
fn generic_instantiation_behaves_like_the_monomorphic_version() {
    let generic_ok = GUser::<String, u8> {
        name: "ohkami".to_string(),
        age: 4,
        nickname: Some("wolf".to_string()),
    };
    let generic_bad = GUser::<String, u8> { name: String::new(), age: 4, nickname: None };
    let mono_ok = VUser { name: "ohkami".to_string(), age: 4 };
    let mono_bad = VUser { name: String::new(), age: 4 };
    assert_eq!(generic_ok.validate().is_ok(), mono_ok.validate().is_ok());
    assert_eq!(generic_bad.validate().is_err(), mono_bad.validate().is_err());
    match try_from_shadow_default(generic_bad) {
        Err(msg) => assert_eq!(msg, "`name` must not be empty".to_string()),
        Ok(_) => panic!("an empty name must not validate"),
    }
}

#[test]
fn encode_gate_blocks_invalid_values_before_output() {
    let good = VUser { name: "serdev".to_string(), age: 0 };
    let bad = VUser { name: String::new(), age: 0 };
    assert!(encode_gate(&good).is_ok());
    assert_eq!(encode_gate(&bad).unwrap_err(), "`name` must not be empty");
}

#[test]
fn no_validation_round_trip_matches_the_framework() {
    // without a validation directive the framework decodes what it encoded
    let before = VUser { name: "serdev".to_string(), age: 0 };
    let mut obj = serde_json::Map::new();
    obj.insert("name".to_string(), serde_json::Value::String(before.name.clone()));
    obj.insert("age".to_string(), serde_json::Value::Number(serde_json::Number::from(before.age as u64)));
    let encoded = serde_json::Value::Object(obj).to_string();
    let after = vuser_from_json(&encoded).unwrap();
    assert_eq!(after, before);
}

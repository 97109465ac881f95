use serdev::{
    Attr, ConversionExpr, Decl, EnumDecl, Error, ErrorTy, Fields, FieldsPat, GenericParam,
    NamedField, RawItem, StructDecl, Target, UnnamedField, Variant,
};

fn attr(name: &str, directives: &[&str]) -> Attr {
    Attr {
        name: name.to_string(),
        directives: directives.iter().map(|d| d.to_string()).collect(),
    }
}

fn named(ident: &str, ty: &str) -> NamedField {
    NamedField { ident: ident.to_string(), ty: ty.to_string(), attrs: vec![] }
}

fn user_struct(attrs: Vec<Attr>) -> StructDecl {
    StructDecl {
        attrs,
        ident: "User".to_string(),
        generics: vec![],
        fields: Fields::Named(vec![named("name", "String"), named("age", "usize")]),
    }
}

#[test]
fn unsupported_declaration_kind_is_rejected() {
    assert_eq!(serdev::Deserialize(RawItem::Other).unwrap_err(), Error::UnsupportedDeclarationKind);
    assert_eq!(serdev::Serialize(RawItem::Other).unwrap_err(), Error::UnsupportedDeclarationKind);
}

#[test]
fn no_validation_generates_plain_decode() {
    let decl = user_struct(vec![attr("serde", &["rename_all = \"PascalCase\"", "deny_unknown_fields"])]);
    let plan = serdev::Deserialize(RawItem::Struct(decl)).unwrap();
    assert_eq!(plan.serdev_path, "::serdev".to_string());
    assert_eq!(plan.serde_path, "::serdev::__private__::serde".to_string());
    let expected = user_struct(vec![attr(
        "serde",
        &["rename_all = \"PascalCase\"", "deny_unknown_fields"],
    )]);
    assert_eq!(
        plan.decls,
        vec![Decl::Decode { target: Target::Struct(expected), via_shadow: None }]
    );
}

#[test]
fn no_validation_generates_plain_encode() {
    let decl = user_struct(vec![attr("serde", &["rename_all = \"PascalCase\""])]);
    let plan = serdev::Serialize(RawItem::Struct(decl)).unwrap();
    let expected = user_struct(vec![attr("serde", &["rename_all = \"PascalCase\""])]);
    assert_eq!(plan.decls, vec![Decl::Encode { target: Target::Struct(expected), gate: None }]);
}

#[test]
fn validation_generates_shadow_conversion_and_decode() {
    let decl = user_struct(vec![attr(
        "serde",
        &["rename_all = \"PascalCase\"", "validate = \"Self::validate\"", "deny_unknown_fields"],
    )]);
    let plan = serdev::Deserialize(RawItem::Struct(decl)).unwrap();
    assert_eq!(plan.decls.len(), 3);

    // the shadow precedes the conversion, which precedes the final decode
    match &plan.decls[0] {
        Decl::Shadow(Target::Struct(shadow)) => {
            assert_eq!(shadow.ident, "serdev_proxy_User".to_string());
            // the validation directive is never copied onto the shadow; the
            // codec directives stay, in order
            assert_eq!(
                shadow.attrs,
                vec![attr("serde", &["rename_all = \"PascalCase\"", "deny_unknown_fields"])]
            );
            assert_eq!(
                shadow.fields,
                Fields::Named(vec![named("name", "String"), named("age", "usize")])
            );
        }
        other => panic!("expected a shadow declaration first, got {:?}", other),
    }
    match &plan.decls[1] {
        Decl::Convert(c) => {
            assert_eq!(c.shadow_ident, "serdev_proxy_User".to_string());
            assert_eq!(c.target_ident, "User".to_string());
            assert_eq!(c.gate.validator, "Self::validate".to_string());
            assert_eq!(c.gate.error, ErrorTy::Default);
            assert_eq!(
                c.expr,
                ConversionExpr::Struct {
                    shadow_ident: "serdev_proxy_User".to_string(),
                    target_ident: "User".to_string(),
                    pat: FieldsPat::Named {
                        idents: vec!["name".to_string(), "age".to_string()]
                    },
                }
            );
        }
        other => panic!("expected the conversion second, got {:?}", other),
    }
    match &plan.decls[2] {
        Decl::Decode { target: Target::Struct(t), via_shadow } => {
            assert_eq!(*via_shadow, Some("serdev_proxy_User".to_string()));
            assert_eq!(
                t.attrs,
                vec![attr("serde", &["rename_all = \"PascalCase\"", "deny_unknown_fields"])]
            );
        }
        other => panic!("expected the final decode last, got {:?}", other),
    }
}

#[test]
fn directive_passthrough_matches_unvalidated_declaration() {
    // the same codec directives, with and without a validation directive
    let with = user_struct(vec![attr(
        "serde",
        &["rename_all = \"PascalCase\"", "validate = \"Self::validate\""],
    )]);
    let without = user_struct(vec![attr("serde", &["rename_all = \"PascalCase\""])]);
    let validated = serdev::Deserialize(RawItem::Struct(with)).unwrap();
    let plain = serdev::Deserialize(RawItem::Struct(without)).unwrap();

    let shadow_attrs = match &validated.decls[0] {
        Decl::Shadow(Target::Struct(s)) => s.attrs.clone(),
        other => panic!("expected a shadow, got {:?}", other),
    };
    let plain_attrs = match &plain.decls[0] {
        Decl::Decode { target: Target::Struct(t), .. } => t.attrs.clone(),
        other => panic!("expected a decode, got {:?}", other),
    };
    // the raw decoder is configured identically in both worlds
    assert_eq!(shadow_attrs, plain_attrs);
}

#[test]
fn explicit_error_type_reaches_the_gate() {
    let decl = user_struct(vec![attr(
        "serde",
        &["validate(by = \"Self::validate\", error = \"&'static str\")"],
    )]);
    let plan = serdev::Deserialize(RawItem::Struct(decl)).unwrap();
    match &plan.decls[1] {
        Decl::Convert(c) => {
            assert_eq!(c.gate.error, ErrorTy::Explicit("&'static str".to_string()));
        }
        other => panic!("expected the conversion second, got {:?}", other),
    }
}

#[test]
fn serialize_with_validation_gates_the_encode() {
    let decl = user_struct(vec![attr("serde", &["validate = \"Self::validate\""])]);
    let plan = serdev::Serialize(RawItem::Struct(decl)).unwrap();
    assert_eq!(plan.decls.len(), 1);
    match &plan.decls[0] {
        Decl::Encode { gate: Some(g), .. } => {
            assert_eq!(g.validator, "Self::validate".to_string());
            assert_eq!(g.error, ErrorTy::Default);
        }
        other => panic!("expected a gated encode, got {:?}", other),
    }
}

#[test]
fn duplicate_validation_directive_is_rejected() {
    let decl = user_struct(vec![
        attr("serde", &["validate = \"a\""]),
        attr("serde", &["validate = \"b\""]),
    ]);
    assert_eq!(serdev::Deserialize(RawItem::Struct(decl)).unwrap_err(), Error::DuplicateValidate);
}

#[test]
fn duplicate_namespace_directive_is_rejected() {
    let decl = user_struct(vec![attr("serdev", &["crate = \"a\"", "crate = \"b\""])]);
    assert_eq!(serdev::Deserialize(RawItem::Struct(decl)).unwrap_err(), Error::DuplicateCrate);
}

#[test]
fn malformed_validation_directive_is_rejected() {
    let decl = user_struct(vec![attr("serde", &["validate(error = \"E\")"])]);
    assert_eq!(serdev::Deserialize(RawItem::Struct(decl)).unwrap_err(), Error::MissingValidatorPath);
}

#[test]
fn invalid_validator_path_is_rejected() {
    let decl = user_struct(vec![attr("serde", &["validate = \"not a path!!\""])]);
    assert_eq!(serdev::Deserialize(RawItem::Struct(decl)).unwrap_err(), Error::InvalidPath);
}

#[test]
fn namespace_override_qualifies_every_reference() {
    let decl = user_struct(vec![
        attr("serdev", &["crate = \"my::lib\""]),
        attr("serde", &["validate = \"Self::validate\""]),
    ]);
    let plan = serdev::Deserialize(RawItem::Struct(decl)).unwrap();
    assert_eq!(plan.serdev_path, "my::lib".to_string());
    assert_eq!(plan.serde_path, "my::lib::__private__::serde".to_string());
    // the namespace directive is consumed; the serdev attribute stays, empty
    match &plan.decls[2] {
        Decl::Decode { target: Target::Struct(t), .. } => {
            assert_eq!(t.attrs[0], attr("serdev", &[]));
        }
        other => panic!("expected the final decode last, got {:?}", other),
    }
}

#[test]
fn enum_conversion_matches_every_variant() {
    let decl = EnumDecl {
        attrs: vec![attr("serde", &["validate = \"check\""])],
        ident: "Shape".to_string(),
        generics: vec![],
        variants: vec![
            Variant { ident: "Empty".to_string(), fields: Fields::Unit, attrs: vec![] },
            Variant {
                ident: "Pair".to_string(),
                fields: Fields::Unnamed(vec![
                    UnnamedField { ty: "u8".to_string(), attrs: vec![] },
                    UnnamedField { ty: "u8".to_string(), attrs: vec![] },
                ]),
                attrs: vec![],
            },
            Variant {
                ident: "Node".to_string(),
                fields: Fields::Named(vec![named("left", "u8")]),
                attrs: vec![],
            },
        ],
    };
    let plan = serdev::Deserialize(RawItem::Enum(decl)).unwrap();
    match &plan.decls[1] {
        Decl::Convert(c) => match &c.expr {
            ConversionExpr::Enum { shadow_ident, target_ident, arms } => {
                assert_eq!(*shadow_ident, "serdev_proxy_Shape".to_string());
                assert_eq!(*target_ident, "Shape".to_string());
                assert_eq!(arms.len(), 3);
                assert_eq!(arms[0].variant, "Empty".to_string());
                assert_eq!(arms[0].pat, FieldsPat::Unit);
                assert_eq!(arms[1].variant, "Pair".to_string());
                assert_eq!(arms[1].pat, FieldsPat::Unnamed { count: 2 });
                assert_eq!(arms[2].variant, "Node".to_string());
                assert_eq!(arms[2].pat, FieldsPat::Named { idents: vec!["left".to_string()] });
            }
            other => panic!("expected an arm-per-variant conversion, got {:?}", other),
        },
        other => panic!("expected the conversion second, got {:?}", other),
    }
}

#[test]
fn generic_declaration_keeps_its_parameters() {
    let generics = vec![
        GenericParam::Lifetime("'n".to_string()),
        GenericParam::Type {
            ident: "Name".to_string(),
            bounds: vec!["From<String>".to_string(), "ToString".to_string()],
        },
        GenericParam::Type { ident: "Age".to_string(), bounds: vec!["From<u8>".to_string()] },
    ];
    let decl = StructDecl {
        attrs: vec![attr("serde", &["validate = \"Self::validate\""])],
        ident: "GUser".to_string(),
        generics: generics.clone(),
        fields: Fields::Named(vec![
            named("name", "Name"),
            named("age", "Age"),
            named("nickname", "Option<&'n str>"),
        ]),
    };
    let plan = serdev::Deserialize(RawItem::Struct(decl)).unwrap();
    match (&plan.decls[0], &plan.decls[1]) {
        (Decl::Shadow(Target::Struct(shadow)), Decl::Convert(c)) => {
            assert_eq!(shadow.generics, generics);
            assert_eq!(c.generics, generics);
            assert_eq!(shadow.fields, Fields::Named(vec![
                named("name", "Name"),
                named("age", "Age"),
                named("nickname", "Option<&'n str>"),
            ]));
        }
        other => panic!("expected shadow then conversion, got {:?}", other),
    }
}

#[test]
fn field_attributes_thin_to_codec_directives_on_the_shadow() {
    let decl = StructDecl {
        attrs: vec![attr("serde", &["validate = \"f\""])],
        ident: "Rec".to_string(),
        generics: vec![],
        fields: Fields::Named(vec![NamedField {
            ident: "id".to_string(),
            ty: "u64".to_string(),
            attrs: vec![attr("serde", &["rename = \"Id\""]), attr("doc", &["hidden"])],
        }]),
    };
    let plan = serdev::Deserialize(RawItem::Struct(decl)).unwrap();
    match &plan.decls[0] {
        Decl::Shadow(Target::Struct(shadow)) => {
            assert_eq!(
                shadow.fields,
                Fields::Named(vec![NamedField {
                    ident: "id".to_string(),
                    ty: "u64".to_string(),
                    attrs: vec![attr("serde", &["rename = \"Id\""])],
                }])
            );
        }
        other => panic!("expected a shadow declaration first, got {:?}", other),
    }
}

#[test]
fn validation_directive_found_in_a_later_attribute() {
    let decl = user_struct(vec![
        attr("serde", &["rename_all = \"PascalCase\""]),
        attr("serde", &["validate = \"Self::validate\"", "default"]),
    ]);
    let plan = serdev::Deserialize(RawItem::Struct(decl)).unwrap();
    match &plan.decls[0] {
        Decl::Shadow(Target::Struct(shadow)) => {
            // both attributes survive; only the validation directive is gone
            assert_eq!(
                shadow.attrs,
                vec![
                    attr("serde", &["rename_all = \"PascalCase\""]),
                    attr("serde", &["default"]),
                ]
            );
        }
        other => panic!("expected a shadow declaration first, got {:?}", other),
    }
}

#[test]
fn validate_prefixed_directive_is_claimed_and_must_parse() {
    // matching is by key prefix: a directive that begins with `validate` is
    // taken for the engine, and must then follow the grammar
    let decl = user_struct(vec![attr("serde", &["validated = \"x\""])]);
    let e = serdev::Deserialize(RawItem::Struct(decl)).unwrap_err();
    assert!(matches!(e, Error::SyntaxError { .. }));
}

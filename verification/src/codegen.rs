//! Conversion synthesis and assembly.
//!
//! For each direction the engine turns one annotated declaration into an
//! ordered plan of generated declarations. On the decode side with a
//! validation directive the plan holds, in order: the shadow declaration
//! that raw-decodes, the fallible relabeling conversion that interposes the
//! validator, and the declaration's own decode entry point routed through
//! the shadow. Without a validation directive the single entry point is
//! generated directly against the declaration, its codec directives
//! forwarded unchanged. The encode side gates on the validator first, or
//! passes through likewise.

use vstd::prelude::*;

verus! {

use vstd::string::StringExecFns;
use crate::Error;
use crate::directive::{
    lemma_attr_bounds, lemma_strip_id, lemma_strip_other, lemma_strip_removes_all, strip_attrs,
    reserved_text, total_count, AttrV,
};
use crate::paths::{path_ok, type_ok};
use crate::reexport::{spec_parse_reexport, Reexport};
use crate::target::{
    copy_generics, lemma_serde_only_strip, proxy_view, serde_only, sig, transmute_view,
    ConversionExpr, ConversionExprV, GenericParam, GenericParamV, RawItem, Target, TargetV,
};
use crate::validate::{spec_parse_validate, Validate, ValidateV};

/// The resolved error type of a conversion: the declaration's explicit
/// choice, or the default displayable-error container.
#[derive(Debug, Clone, PartialEq)]
pub enum ErrorTy {
    Explicit(String),
    Default,
}

/// The validation hook of a generated implementation: the validator path and
/// the resolved error type its failure maps into.
#[derive(Debug, Clone, PartialEq)]
pub struct Gate {
    pub validator: String,
    pub error: ErrorTy,
}

/// The fallible shadow-to-target conversion: a pure structural relabeling
/// followed by exactly one invocation of the validator.
#[derive(Debug, Clone, PartialEq)]
pub struct Conversion {
    pub shadow_ident: String,
    pub target_ident: String,
    pub generics: Vec<GenericParam>,
    pub expr: ConversionExpr,
    pub gate: Gate,
}

/// One generated declaration.
#[derive(Debug, Clone, PartialEq)]
pub enum Decl {
    /// The shadow declaration, raw-decoding with the codec directives alone.
    Shadow(Target),
    /// The fallible conversion from shadow to target.
    Convert(Conversion),
    /// The target's decode entry point, routed through the shadow when a
    /// conversion is interposed.
    Decode { target: Target, via_shadow: Option<String> },
    /// The target's encode entry point, gated on the validator when one is
    /// attached.
    Encode { target: Target, gate: Option<Gate> },
}

/// The ordered outcome of one generation run, with the library paths every
/// generated reference is qualified by.
#[derive(Debug, Clone, PartialEq)]
pub struct Plan {
    pub serdev_path: String,
    pub serde_path: String,
    pub decls: Vec<Decl>,
}

/// The mathematical shape of a resolved error type.
#[verifier::ext_equal]
pub enum ErrorTyV {
    Explicit(Seq<char>),
    Default,
}

/// The mathematical shape of a validation hook.
#[verifier::ext_equal]
pub struct GateV {
    pub validator: Seq<char>,
    pub error: ErrorTyV,
}

/// The mathematical shape of a conversion.
#[verifier::ext_equal]
pub struct ConversionV {
    pub shadow_ident: Seq<char>,
    pub target_ident: Seq<char>,
    pub generics: Seq<GenericParamV>,
    pub expr: ConversionExprV,
    pub gate: GateV,
}

/// The mathematical shape of one generated declaration.
#[verifier::ext_equal]
pub enum DeclV {
    Shadow(TargetV),
    Convert(ConversionV),
    Decode { target: TargetV, via_shadow: Option<Seq<char>> },
    Encode { target: TargetV, gate: Option<GateV> },
}

/// The mathematical shape of a plan.
#[verifier::ext_equal]
pub struct PlanV {
    pub serdev_path: Seq<char>,
    pub serde_path: Seq<char>,
    pub decls: Seq<DeclV>,
}

impl DeepView for ErrorTy {
    type V = ErrorTyV;

    open spec fn deep_view(&self) -> ErrorTyV {
        match self {
            ErrorTy::Explicit(t) => ErrorTyV::Explicit(t@),
            ErrorTy::Default => ErrorTyV::Default,
        }
    }
}

impl DeepView for Gate {
    type V = GateV;

    open spec fn deep_view(&self) -> GateV {
        GateV { validator: self.validator@, error: self.error.deep_view() }
    }
}

impl DeepView for Conversion {
    type V = ConversionV;

    open spec fn deep_view(&self) -> ConversionV {
        ConversionV {
            shadow_ident: self.shadow_ident@,
            target_ident: self.target_ident@,
            generics: self.generics.deep_view(),
            expr: self.expr.deep_view(),
            gate: self.gate.deep_view(),
        }
    }
}

impl DeepView for Decl {
    type V = DeclV;

    open spec fn deep_view(&self) -> DeclV {
        match self {
            Decl::Shadow(t) => DeclV::Shadow(t.deep_view()),
            Decl::Convert(c) => DeclV::Convert(c.deep_view()),
            Decl::Decode { target, via_shadow } => DeclV::Decode {
                target: target.deep_view(),
                via_shadow: via_shadow.deep_view(),
            },
            Decl::Encode { target, gate } => DeclV::Encode {
                target: target.deep_view(),
                gate: gate.deep_view(),
            },
        }
    }
}

impl DeepView for Plan {
    type V = PlanV;

    open spec fn deep_view(&self) -> PlanV {
        PlanV {
            serdev_path: self.serdev_path@,
            serde_path: self.serde_path@,
            decls: self.decls.deep_view(),
        }
    }
}

/// What extracting the namespace-override directive yields: the residual
/// attributes and the overriding path, if any.
pub open spec fn spec_reexport_take(attrs: Seq<AttrV>) -> Result<
    (Seq<AttrV>, Option<Seq<char>>),
    Error,
> {
    let n = total_count(attrs, "serdev"@, "crate"@);
    if n >= 2 {
        Err(Error::DuplicateCrate)
    } else if n == 0 {
        Ok((strip_attrs(attrs, "serdev"@, "crate"@), None))
    } else {
        match spec_parse_reexport(reserved_text(attrs, "serdev"@, "crate"@)) {
            Ok(p) => Ok((strip_attrs(attrs, "serdev"@, "crate"@), Some(p))),
            Err(e) => Err(e),
        }
    }
}

/// What extracting the validation directive yields: the residual attributes
/// and the parsed spec, if any.
pub open spec fn spec_validate_take(attrs: Seq<AttrV>) -> Result<
    (Seq<AttrV>, Option<ValidateV>),
    Error,
> {
    let n = total_count(attrs, "serde"@, "validate"@);
    if n >= 2 {
        Err(Error::DuplicateValidate)
    } else if n == 0 {
        Ok((strip_attrs(attrs, "serde"@, "validate"@), None))
    } else {
        match spec_parse_validate(reserved_text(attrs, "serde"@, "validate"@)) {
            Ok(v) => Ok((strip_attrs(attrs, "serde"@, "validate"@), Some(v))),
            Err(e) => Err(e),
        }
    }
}

/// The two library paths every generated reference is qualified by: the
/// engine's own root, and the codec framework below it.
pub open spec fn spec_paths(reexport: Option<Seq<char>>) -> Result<(Seq<char>, Seq<char>), Error> {
    match reexport {
        None => Ok(("::serdev"@, "::serdev"@ + "::__private__::serde"@)),
        Some(p) => if path_ok(p) {
            Ok((p, p + "::__private__::serde"@))
        } else {
            Err(Error::InvalidPath)
        },
    }
}

/// Resolve a parsed validation spec into the hook of the generated
/// implementations: the validator path must be a well-formed path, and the
/// explicit error type, where declared, a well-formed type; without one the
/// default displayable-error container is used.
pub open spec fn spec_gate(v: ValidateV) -> Result<GateV, Error> {
    if !path_ok(v.validator()) {
        Err(Error::InvalidPath)
    } else {
        match v.error_type() {
            None => Ok(GateV { validator: v.validator(), error: ErrorTyV::Default }),
            Some(ty) => if type_ok(ty) {
                Ok(GateV { validator: v.validator(), error: ErrorTyV::Explicit(ty) })
            } else {
                Err(Error::InvalidErrorType)
            },
        }
    }
}

/// The shadow's reserved identifier, derived deterministically from the
/// target's.
pub open spec fn proxy_name(ident: Seq<char>) -> Seq<char> {
    "serdev_proxy_"@ + ident
}

/// What decode-side generation yields for declaration `t`.
pub open spec fn spec_deserialize(t: TargetV) -> Result<PlanV, Error> {
    match spec_reexport_take(t.attrs()) {
        Err(e) => Err(e),
        Ok((a1, re)) => match spec_paths(re) {
            Err(e) => Err(e),
            Ok(paths) => {
                let t1 = t.with_attrs(a1);
                match spec_validate_take(t1.attrs()) {
                    Err(e) => Err(e),
                    Ok((a2, val)) => {
                        let t2 = t1.with_attrs(a2);
                        match val {
                            None => Ok(
                                PlanV {
                                    serdev_path: paths.0,
                                    serde_path: paths.1,
                                    decls: seq![
                                        DeclV::Decode { target: t2, via_shadow: None },
                                    ],
                                },
                            ),
                            Some(v) => match spec_gate(v) {
                                Err(e) => Err(e),
                                Ok(gate) => {
                                    let shadow = proxy_view(t2, proxy_name(t2.ident()));
                                    let conv = ConversionV {
                                        shadow_ident: proxy_name(t2.ident()),
                                        target_ident: t2.ident(),
                                        generics: t2.generics(),
                                        expr: transmute_view(shadow, t2.ident()),
                                        gate,
                                    };
                                    Ok(
                                        PlanV {
                                            serdev_path: paths.0,
                                            serde_path: paths.1,
                                            decls: seq![
                                                DeclV::Shadow(shadow),
                                                DeclV::Convert(conv),
                                                DeclV::Decode {
                                                    target: t2,
                                                    via_shadow: Some(proxy_name(t2.ident())),
                                                },
                                            ],
                                        },
                                    )
                                },
                            },
                        }
                    },
                }
            },
        },
    }
}

/// What encode-side generation yields for declaration `t`.
pub open spec fn spec_serialize(t: TargetV) -> Result<PlanV, Error> {
    match spec_validate_take(t.attrs()) {
        Err(e) => Err(e),
        Ok((a1, val)) => {
            let t1 = t.with_attrs(a1);
            match spec_reexport_take(t1.attrs()) {
                Err(e) => Err(e),
                Ok((a2, re)) => match spec_paths(re) {
                    Err(e) => Err(e),
                    Ok(paths) => {
                        let t2 = t1.with_attrs(a2);
                        match val {
                            None => Ok(
                                PlanV {
                                    serdev_path: paths.0,
                                    serde_path: paths.1,
                                    decls: seq![DeclV::Encode { target: t2, gate: None }],
                                },
                            ),
                            Some(v) => match spec_gate(v) {
                                Err(e) => Err(e),
                                Ok(gate) => Ok(
                                    PlanV {
                                        serdev_path: paths.0,
                                        serde_path: paths.1,
                                        decls: seq![
                                            DeclV::Encode { target: t2, gate: Some(gate) },
                                        ],
                                    },
                                ),
                            },
                        }
                    },
                },
            }
        },
    }
}

/// Resolve the two library paths from an extracted namespace override.
fn resolve_paths(re: &Option<Reexport>) -> (r: Result<(String, String), Error>)
    ensures
        r matches Ok(p) ==> spec_paths(
            match re {
                Some(x) => Some(x@),
                None => None,
            },
        ) == Ok::<(Seq<char>, Seq<char>), Error>((p.0@, p.1@)),
        r matches Err(e) ==> spec_paths(
            match re {
                Some(x) => Some(x@),
                None => None,
            },
        ) == Err::<(Seq<char>, Seq<char>), Error>(e),
{
    match re {
        None => {
            let serdev = String::from_str("::serdev");
            let serde = String::from_str("::serdev").concat("::__private__::serde");
            Ok((serdev, serde))
        },
        Some(x) => {
            let p = match x.path() {
                Ok(p) => p,
                Err(e) => {
                    return Err(e);
                },
            };
            let serde = x.path_str().concat("::__private__::serde");
            Ok((p, serde))
        },
    }
}

/// Resolve the validation hook from a parsed validation spec.
fn resolve_gate(v: &Validate) -> (r: Result<Gate, Error>)
    ensures
        r matches Ok(g) ==> spec_gate(v@) == Ok::<GateV, Error>(g.deep_view()),
        r matches Err(e) ==> spec_gate(v@) == Err::<GateV, Error>(e),
{
    let validator = match v.function() {
        Ok(p) => p,
        Err(e) => {
            return Err(e);
        },
    };
    let error = match v.error() {
        Ok(None) => ErrorTy::Default,
        Ok(Some(ty)) => ErrorTy::Explicit(ty),
        Err(e) => {
            return Err(e);
        },
    };
    Ok(Gate { validator, error })
}

/// Generate the decode direction for one raw declaration: the ordered plan
/// of declarations whose runtime contract returns a fully validated value or
/// a codec-level error, and never a value that failed validation.
#[allow(non_snake_case)]
pub fn Deserialize(input: RawItem) -> (r: Result<Plan, Error>)
    ensures
        input is Other ==> r == Err::<Plan, Error>(Error::UnsupportedDeclarationKind),
        match input {
            RawItem::Struct(s) => spec_result_matches(r, TargetV::Struct(s.deep_view())),
            RawItem::Enum(e) => spec_result_matches(r, TargetV::Enum(e.deep_view())),
            RawItem::Other => true,
        },
{
    let target = match Target::parse(input) {
        Ok(t) => t,
        Err(e) => {
            return Err(e);
        },
    };
    let ghost t0 = target.deep_view();
    proof {
        lemma_attr_bounds(target.deep_view().attrs(), "serdev"@, "crate"@);
    }
    let (a1, re) = match Reexport::take(target.attrs()) {
        Ok(ok) => ok,
        Err(e) => {
            return Err(e);
        },
    };
    let paths = match resolve_paths(&re) {
        Ok(p) => p,
        Err(e) => {
            return Err(e);
        },
    };
    let target = target.with_attrs(a1);
    proof {
        lemma_attr_bounds(target.deep_view().attrs(), "serde"@, "validate"@);
    }
    let (a2, val) = match Validate::take(target.attrs()) {
        Ok(ok) => ok,
        Err(e) => {
            return Err(e);
        },
    };
    let target = target.with_attrs(a2);
    match val {
        None => {
            let mut decls: Vec<Decl> = Vec::new();
            decls.push(Decl::Decode { target, via_shadow: None });
            let plan = Plan { serdev_path: paths.0, serde_path: paths.1, decls };
            proof {
                assert(spec_deserialize(t0) matches Ok(p) && p =~= plan.deep_view());
            }
            Ok(plan)
        },
        Some(v) => {
            let gate = match resolve_gate(&v) {
                Ok(g) => g,
                Err(e) => {
                    return Err(e);
                },
            };
            let name = String::from_str("serdev_proxy_").concat(target.ident().as_str());
            let proxy = target.create_proxy(name);
            let expr = proxy.transmute_expr(target.ident());
            let conv = Conversion {
                shadow_ident: proxy.ident().clone(),
                target_ident: target.ident().clone(),
                generics: copy_generics(target.generics()),
                expr,
                gate,
            };
            let shadow_name = proxy.ident().clone();
            let mut decls: Vec<Decl> = Vec::new();
            decls.push(Decl::Shadow(proxy));
            decls.push(Decl::Convert(conv));
            decls.push(Decl::Decode { target, via_shadow: Some(shadow_name) });
            let plan = Plan { serdev_path: paths.0, serde_path: paths.1, decls };
            proof {
                assert(spec_deserialize(t0) matches Ok(p) && p =~= plan.deep_view());
            }
            Ok(plan)
        },
    }
}

/// Does the outcome `r` stand to declaration `t` exactly as the decode-side
/// specification says?
pub open spec fn spec_result_matches(r: Result<Plan, Error>, t: TargetV) -> bool {
    match r {
        Ok(p) => spec_deserialize(t) == Ok::<PlanV, Error>(p.deep_view()),
        Err(e) => spec_deserialize(t) == Err::<PlanV, Error>(e),
    }
}

/// Does the outcome `r` stand to declaration `t` exactly as the encode-side
/// specification says?
pub open spec fn spec_ser_result_matches(r: Result<Plan, Error>, t: TargetV) -> bool {
    match r {
        Ok(p) => spec_serialize(t) == Ok::<PlanV, Error>(p.deep_view()),
        Err(e) => spec_serialize(t) == Err::<PlanV, Error>(e),
    }
}

/// Generate the encode direction for one raw declaration: a single encode
/// entry point, gated on the validator when a validation directive is
/// attached, producing no output for a value that fails validation.
#[allow(non_snake_case)]
pub fn Serialize(input: RawItem) -> (r: Result<Plan, Error>)
    ensures
        input is Other ==> r == Err::<Plan, Error>(Error::UnsupportedDeclarationKind),
        match input {
            RawItem::Struct(s) => spec_ser_result_matches(r, TargetV::Struct(s.deep_view())),
            RawItem::Enum(e) => spec_ser_result_matches(r, TargetV::Enum(e.deep_view())),
            RawItem::Other => true,
        },
{
    let target = match Target::parse(input) {
        Ok(t) => t,
        Err(e) => {
            return Err(e);
        },
    };
    let ghost t0 = target.deep_view();
    proof {
        lemma_attr_bounds(target.deep_view().attrs(), "serde"@, "validate"@);
    }
    let (a1, val) = match Validate::take(target.attrs()) {
        Ok(ok) => ok,
        Err(e) => {
            return Err(e);
        },
    };
    let target = target.with_attrs(a1);
    proof {
        lemma_attr_bounds(target.deep_view().attrs(), "serdev"@, "crate"@);
    }
    let (a2, re) = match Reexport::take(target.attrs()) {
        Ok(ok) => ok,
        Err(e) => {
            return Err(e);
        },
    };
    let paths = match resolve_paths(&re) {
        Ok(p) => p,
        Err(e) => {
            return Err(e);
        },
    };
    let target = target.with_attrs(a2);
    match val {
        None => {
            let mut decls: Vec<Decl> = Vec::new();
            decls.push(Decl::Encode { target, gate: None });
            let plan = Plan { serdev_path: paths.0, serde_path: paths.1, decls };
            proof {
                assert(spec_serialize(t0) matches Ok(p) && p =~= plan.deep_view());
            }
            Ok(plan)
        },
        Some(v) => {
            let gate = match resolve_gate(&v) {
                Ok(g) => g,
                Err(e) => {
                    return Err(e);
                },
            };
            let mut decls: Vec<Decl> = Vec::new();
            decls.push(Decl::Encode { target, gate: Some(gate) });
            let plan = Plan { serdev_path: paths.0, serde_path: paths.1, decls };
            proof {
                assert(spec_serialize(t0) matches Ok(p) && p =~= plan.deep_view());
            }
            Ok(plan)
        },
    }
}

/// No-validation equivalence: a declaration without a validation directive
/// generates, in each direction, exactly one entry point on the declaration
/// itself — no shadow, no conversion, no gate — with its codec-configuration
/// directives forwarded unchanged. Decoding what was encoded therefore
/// round-trips exactly as the unmodified codec framework has it, for all
/// valid field values.
pub proof fn lemma_no_validation_passthrough(t: TargetV)
    requires
        total_count(t.attrs(), "serde"@, "validate"@) == 0,
        spec_deserialize(t) is Ok,
    ensures
        ({
            let p = spec_deserialize(t)->Ok_0;
            let residual = t.with_attrs(strip_attrs(t.attrs(), "serdev"@, "crate"@));
            &&& p.decls == seq![DeclV::Decode { target: residual, via_shadow: None }]
            &&& serde_only(residual.attrs()) == serde_only(t.attrs())
            &&& sig(residual) == sig(t)
        }),
        spec_serialize(t) is Ok,
        ({
            let p = spec_serialize(t)->Ok_0;
            let residual = t.with_attrs(strip_attrs(t.attrs(), "serdev"@, "crate"@));
            &&& p.decls == seq![DeclV::Encode { target: residual, gate: None }]
            &&& p.serde_path == (spec_deserialize(t)->Ok_0).serde_path
        }),
{
    proof_strlit_distinct();
    let aseq = t.attrs();
    lemma_attr_bounds(aseq, "serdev"@, "crate"@);
    let a1 = strip_attrs(aseq, "serdev"@, "crate"@);
    lemma_strip_other(aseq, "serdev"@, "crate"@, "serde"@, "validate"@);
    lemma_strip_id(a1, "serde"@, "validate"@);
    let residual = t.with_attrs(a1);
    assert(t.with_attrs(a1).with_attrs(a1) =~= residual);
    assert((spec_deserialize(t)->Ok_0).decls =~= seq![
        DeclV::Decode { target: residual, via_shadow: None },
    ]);
    lemma_serde_only_strip(aseq, "serdev"@, "crate"@);
    assert(residual.attrs() == a1);
    assert(sig(residual) =~= sig(t));
    // encode direction: the validation extraction is the identity here
    lemma_strip_id(aseq, "serde"@, "validate"@);
    assert(t.with_attrs(strip_attrs(aseq, "serde"@, "validate"@)) =~= t);
    lemma_attr_bounds(aseq, "serde"@, "validate"@);
    assert((spec_serialize(t)->Ok_0).decls =~= seq![
        DeclV::Encode { target: residual, gate: None },
    ]);
}

/// The two reserved attribute names are distinct.
proof fn proof_strlit_distinct()
    ensures
        "serde"@ != "serdev"@,
        "serde"@.len() == 5,
        "serdev"@.len() == 6,
{
    broadcast use vstd::string::group_string_axioms;

    reveal_strlit("serde");
    reveal_strlit("serdev");
    assert("serde"@.len() == 5);
    assert("serdev"@.len() == 6);
    assert("serde"@ != "serdev"@);
}

/// Directive passthrough invariance: the codec-configuration directives
/// reach the raw decoder identically whether or not a validation directive
/// is present. With one, the shadow that raw-decodes carries exactly the
/// codec attributes of the residual declaration; and that residual equals
/// what the same declaration without its validation directive hands the
/// framework directly — so renaming, default and unknown-field directives
/// give the same wire representation in both worlds.
pub proof fn lemma_directive_passthrough(t: TargetV)
    requires
        spec_deserialize(t) is Ok,
        (spec_deserialize(t)->Ok_0).decls.len() == 3,
    ensures
        ({
            let p = spec_deserialize(t)->Ok_0;
            let unvalidated = t.with_attrs(strip_attrs(t.attrs(), "serde"@, "validate"@));
            &&& p.decls[0] matches DeclV::Shadow(sh)
            &&& p.decls[2] matches DeclV::Decode { target: t2, via_shadow: vs }
            &&& spec_deserialize(unvalidated) is Ok
            &&& (spec_deserialize(unvalidated)->Ok_0).decls == seq![
                DeclV::Decode { target: t2, via_shadow: None },
            ]
            &&& (spec_deserialize(unvalidated)->Ok_0).serde_path == p.serde_path
            &&& sh.attrs() == serde_only(t2.attrs())
            &&& sig(sh) == sig(t2)
        }),
{
    proof_strlit_distinct();
    let aseq = t.attrs();
    let astrip = strip_attrs(aseq, "serde"@, "validate"@);
    let unvalidated = t.with_attrs(astrip);
    assert(unvalidated.attrs() == astrip);
    // the namespace directive stands untouched by the validation strip
    lemma_strip_other(aseq, "serde"@, "validate"@, "serdev"@, "crate"@);
    lemma_attr_bounds(aseq, "serdev"@, "crate"@);
    // the unvalidated declaration carries no validation directive
    lemma_strip_removes_all(aseq, "serde"@, "validate"@);
    let a1u = strip_attrs(astrip, "serdev"@, "crate"@);
    lemma_strip_other(astrip, "serdev"@, "crate"@, "serde"@, "validate"@);
    lemma_strip_id(a1u, "serde"@, "validate"@);
    // both orders of extraction leave the same residual attributes
    let a2 = strip_attrs(strip_attrs(aseq, "serdev"@, "crate"@), "serde"@, "validate"@);
    assert(a1u == a2);
    assert(t.with_attrs(strip_attrs(aseq, "serdev"@, "crate"@)).with_attrs(a2) =~= t.with_attrs(
        a2,
    ));
    assert(unvalidated.with_attrs(a1u).with_attrs(a1u) =~= t.with_attrs(a1u));
    let p = spec_deserialize(t)->Ok_0;
    let t2 = t.with_attrs(a2);
    assert(p.decls[0] == DeclV::Shadow(proxy_view(t2, proxy_name(t2.ident()))));
    assert(proxy_view(t2, proxy_name(t2.ident())).attrs() == serde_only(t2.attrs()));
    crate::target::lemma_proxy_sig(t2, proxy_name(t2.ident()));
    assert((spec_deserialize(unvalidated)->Ok_0).decls =~= seq![
        DeclV::Decode { target: t2, via_shadow: None },
    ]);
}

/// Generic instantiation: the shadow and the conversion are parametrized
/// exactly as the declaration — same generic parameters, bounds included —
/// and the conversion relabels exactly the shadow's structure. At run time
/// the run-time checks are generic over the validated type, so every concrete
/// instantiation passes and fails exactly as a hand-written monomorphic
/// version would.
pub proof fn lemma_generic_instantiation(t: TargetV)
    requires
        spec_deserialize(t) is Ok,
        (spec_deserialize(t)->Ok_0).decls.len() == 3,
    ensures
        ({
            let p = spec_deserialize(t)->Ok_0;
            &&& p.decls[0] matches DeclV::Shadow(sh)
            &&& p.decls[1] matches DeclV::Convert(c)
            &&& sh.generics() == t.generics()
            &&& c.generics == t.generics()
            &&& c.expr == transmute_view(sh, t.ident())
            &&& sig(sh) == sig(t)
        }),
{
    let p = spec_deserialize(t)->Ok_0;
    let aseq = t.attrs();
    let a2 = strip_attrs(strip_attrs(aseq, "serdev"@, "crate"@), "serde"@, "validate"@);
    let t2 = t.with_attrs(strip_attrs(aseq, "serdev"@, "crate"@)).with_attrs(a2);
    assert(p.decls[0] == DeclV::Shadow(proxy_view(t2, proxy_name(t2.ident()))));
    crate::target::lemma_proxy_sig(t2, proxy_name(t2.ident()));
    assert(sig(t2) =~= sig(t));
}

} // verus!

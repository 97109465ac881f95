//! The declaration model.
//!
//! A raw annotated declaration becomes a uniform in-memory representation
//! covering product types (field lists) and sum types (variant lists):
//! identifier, generic parameter list, ordered fields or variants, and the
//! attribute lists at each level. The model also derives the structural
//! signature — the ordered field and variant names and shapes — that proves
//! the shadow declaration structurally identical to its target, and builds
//! the two synthesized artifacts that depend on structure alone: the shadow
//! declaration and the field-by-field relabeling of the conversion.

use vstd::prelude::*;

verus! {

use crate::Error;
use crate::directive::{copy_attr, copy_attrs, copy_strings, Attr, AttrV};
use crate::text::str_eq;

/// A named field of a product type or of a record-shaped variant.
#[derive(Debug, Clone, PartialEq)]
pub struct NamedField {
    pub ident: String,
    pub ty: String,
    pub attrs: Vec<Attr>,
}

/// A positional field of a tuple-shaped declaration.
#[derive(Debug, Clone, PartialEq)]
pub struct UnnamedField {
    pub ty: String,
    pub attrs: Vec<Attr>,
}

/// The field list of a declaration or of one variant.
#[derive(Debug, Clone, PartialEq)]
pub enum Fields {
    Unit,
    Unnamed(Vec<UnnamedField>),
    Named(Vec<NamedField>),
}

/// One variant of a sum type.
#[derive(Debug, Clone, PartialEq)]
pub struct Variant {
    pub ident: String,
    pub fields: Fields,
    pub attrs: Vec<Attr>,
}

/// One generic parameter, with any bounds written on it.
#[derive(Debug, Clone, PartialEq)]
pub enum GenericParam {
    Lifetime(String),
    Type { ident: String, bounds: Vec<String> },
    Const { ident: String, ty: String },
}

/// A product-type declaration.
#[derive(Debug, Clone, PartialEq)]
pub struct StructDecl {
    pub attrs: Vec<Attr>,
    pub ident: String,
    pub generics: Vec<GenericParam>,
    pub fields: Fields,
}

/// A sum-type declaration.
#[derive(Debug, Clone, PartialEq)]
pub struct EnumDecl {
    pub attrs: Vec<Attr>,
    pub ident: String,
    pub generics: Vec<GenericParam>,
    pub variants: Vec<Variant>,
}

/// The annotated declaration being processed.
#[derive(Debug, Clone, PartialEq)]
pub enum Target {
    Enum(EnumDecl),
    Struct(StructDecl),
}

/// A raw declaration as the host hands it over: a product type, a sum type,
/// or some other declaration kind the engine does not accept.
#[derive(Debug, Clone, PartialEq)]
pub enum RawItem {
    Struct(StructDecl),
    Enum(EnumDecl),
    Other,
}

/// The mathematical shape of a named field.
#[verifier::ext_equal]
pub struct NamedFieldV {
    pub ident: Seq<char>,
    pub ty: Seq<char>,
    pub attrs: Seq<AttrV>,
}

/// The mathematical shape of a positional field.
#[verifier::ext_equal]
pub struct UnnamedFieldV {
    pub ty: Seq<char>,
    pub attrs: Seq<AttrV>,
}

/// The mathematical shape of a field list.
#[verifier::ext_equal]
pub enum FieldsV {
    Unit,
    Unnamed(Seq<UnnamedFieldV>),
    Named(Seq<NamedFieldV>),
}

/// The mathematical shape of a variant.
#[verifier::ext_equal]
pub struct VariantV {
    pub ident: Seq<char>,
    pub fields: FieldsV,
    pub attrs: Seq<AttrV>,
}

/// The mathematical shape of a generic parameter.
#[verifier::ext_equal]
pub enum GenericParamV {
    Lifetime(Seq<char>),
    Type { ident: Seq<char>, bounds: Seq<Seq<char>> },
    Const { ident: Seq<char>, ty: Seq<char> },
}

/// The mathematical shape of a product-type declaration.
#[verifier::ext_equal]
pub struct StructDeclV {
    pub attrs: Seq<AttrV>,
    pub ident: Seq<char>,
    pub generics: Seq<GenericParamV>,
    pub fields: FieldsV,
}

/// The mathematical shape of a sum-type declaration.
#[verifier::ext_equal]
pub struct EnumDeclV {
    pub attrs: Seq<AttrV>,
    pub ident: Seq<char>,
    pub generics: Seq<GenericParamV>,
    pub variants: Seq<VariantV>,
}

/// The mathematical shape of a declaration.
#[verifier::ext_equal]
pub enum TargetV {
    Enum(EnumDeclV),
    Struct(StructDeclV),
}

impl DeepView for NamedField {
    type V = NamedFieldV;

    open spec fn deep_view(&self) -> NamedFieldV {
        NamedFieldV { ident: self.ident@, ty: self.ty@, attrs: self.attrs.deep_view() }
    }
}

impl DeepView for UnnamedField {
    type V = UnnamedFieldV;

    open spec fn deep_view(&self) -> UnnamedFieldV {
        UnnamedFieldV { ty: self.ty@, attrs: self.attrs.deep_view() }
    }
}

impl DeepView for Fields {
    type V = FieldsV;

    open spec fn deep_view(&self) -> FieldsV {
        match self {
            Fields::Unit => FieldsV::Unit,
            Fields::Unnamed(fs) => FieldsV::Unnamed(fs.deep_view()),
            Fields::Named(fs) => FieldsV::Named(fs.deep_view()),
        }
    }
}

impl DeepView for Variant {
    type V = VariantV;

    open spec fn deep_view(&self) -> VariantV {
        VariantV {
            ident: self.ident@,
            fields: self.fields.deep_view(),
            attrs: self.attrs.deep_view(),
        }
    }
}

impl DeepView for GenericParam {
    type V = GenericParamV;

    open spec fn deep_view(&self) -> GenericParamV {
        match self {
            GenericParam::Lifetime(name) => GenericParamV::Lifetime(name@),
            GenericParam::Type { ident, bounds } => GenericParamV::Type {
                ident: ident@,
                bounds: bounds.deep_view(),
            },
            GenericParam::Const { ident, ty } => GenericParamV::Const { ident: ident@, ty: ty@ },
        }
    }
}

impl DeepView for StructDecl {
    type V = StructDeclV;

    open spec fn deep_view(&self) -> StructDeclV {
        StructDeclV {
            attrs: self.attrs.deep_view(),
            ident: self.ident@,
            generics: self.generics.deep_view(),
            fields: self.fields.deep_view(),
        }
    }
}

impl DeepView for EnumDecl {
    type V = EnumDeclV;

    open spec fn deep_view(&self) -> EnumDeclV {
        EnumDeclV {
            attrs: self.attrs.deep_view(),
            ident: self.ident@,
            generics: self.generics.deep_view(),
            variants: self.variants.deep_view(),
        }
    }
}

impl DeepView for Target {
    type V = TargetV;

    open spec fn deep_view(&self) -> TargetV {
        match self {
            Target::Enum(e) => TargetV::Enum(e.deep_view()),
            Target::Struct(s) => TargetV::Struct(s.deep_view()),
        }
    }
}

impl TargetV {
    /// The declaration's identifier.
    pub open spec fn ident(self) -> Seq<char> {
        match self {
            TargetV::Enum(e) => e.ident,
            TargetV::Struct(s) => s.ident,
        }
    }

    /// The declaration's attribute list.
    pub open spec fn attrs(self) -> Seq<AttrV> {
        match self {
            TargetV::Enum(e) => e.attrs,
            TargetV::Struct(s) => s.attrs,
        }
    }

    /// The declaration's generic parameters.
    pub open spec fn generics(self) -> Seq<GenericParamV> {
        match self {
            TargetV::Enum(e) => e.generics,
            TargetV::Struct(s) => s.generics,
        }
    }

    /// The same declaration with its attribute list replaced.
    pub open spec fn with_attrs(self, attrs: Seq<AttrV>) -> TargetV {
        match self {
            TargetV::Enum(e) => TargetV::Enum(
                EnumDeclV { attrs, ident: e.ident, generics: e.generics, variants: e.variants },
            ),
            TargetV::Struct(s) => TargetV::Struct(
                StructDeclV { attrs, ident: s.ident, generics: s.generics, fields: s.fields },
            ),
        }
    }
}

/// The shape of a field list: positional types, or named fields with their
/// types, attributes set aside.
#[verifier::ext_equal]
pub enum FieldsSig {
    Unit,
    Unnamed(Seq<Seq<char>>),
    Named(Seq<(Seq<char>, Seq<char>)>),
}

/// The structural signature of a declaration: generic parameters and the
/// ordered field or variant names and shapes — everything the relabeling
/// conversion depends on, and nothing a directive can change.
#[verifier::ext_equal]
pub enum TargetSig {
    Struct(Seq<GenericParamV>, FieldsSig),
    Enum(Seq<GenericParamV>, Seq<(Seq<char>, FieldsSig)>),
}

/// The shape of a field list.
pub open spec fn fields_sig(f: FieldsV) -> FieldsSig {
    match f {
        FieldsV::Unit => FieldsSig::Unit,
        FieldsV::Unnamed(fs) => FieldsSig::Unnamed(
            fs.map_values(|x: UnnamedFieldV| x.ty),
        ),
        FieldsV::Named(fs) => FieldsSig::Named(
            fs.map_values(|x: NamedFieldV| (x.ident, x.ty)),
        ),
    }
}

/// The structural signature of a declaration.
pub open spec fn sig(t: TargetV) -> TargetSig {
    match t {
        TargetV::Struct(s) => TargetSig::Struct(s.generics, fields_sig(s.fields)),
        TargetV::Enum(e) => TargetSig::Enum(
            e.generics,
            e.variants.map_values(|v: VariantV| (v.ident, fields_sig(v.fields))),
        ),
    }
}

/// The attributes that the codec framework reads: those named `serde`, in
/// order.
pub open spec fn serde_only(attrs: Seq<AttrV>) -> Seq<AttrV>
    decreases attrs.len(),
{
    if attrs.len() == 0 {
        attrs
    } else if attrs.last().name == "serde"@ {
        serde_only(attrs.drop_last()).push(attrs.last())
    } else {
        serde_only(attrs.drop_last())
    }
}

proof fn lemma_serde_only_push(attrs: Seq<AttrV>, a: AttrV)
    ensures
        serde_only(attrs.push(a)) == if a.name == "serde"@ {
            serde_only(attrs).push(a)
        } else {
            serde_only(attrs)
        },
{
    assert(attrs.push(a).drop_last() =~= attrs);
    assert(attrs.push(a).last() == a);
}

/// Extraction under a reserved key of another attribute name leaves the
/// codec attributes untouched.
pub proof fn lemma_serde_only_strip(attrs: Seq<AttrV>, n: Seq<char>, k: Seq<char>)
    requires
        n != "serde"@,
    ensures
        serde_only(crate::directive::strip_attrs(attrs, n, k)) == serde_only(attrs),
    decreases attrs.len(),
{
    let stripped = crate::directive::strip_attrs(attrs, n, k);
    if attrs.len() == 0 {
        assert(stripped =~= attrs);
    } else {
        lemma_serde_only_strip(attrs.drop_last(), n, k);
        assert(stripped.drop_last() =~= crate::directive::strip_attrs(attrs.drop_last(), n, k));
        assert(stripped.last() == crate::directive::strip_attr(attrs.last(), n, k));
        if attrs.last().name == "serde"@ {
            assert(stripped.last() =~= attrs.last());
        }
    }
}

/// A named field as it stands on the shadow: codec attributes only.
pub open spec fn proxy_named_field(f: NamedFieldV) -> NamedFieldV {
    NamedFieldV { ident: f.ident, ty: f.ty, attrs: serde_only(f.attrs) }
}

/// A positional field as it stands on the shadow: codec attributes only.
pub open spec fn proxy_unnamed_field(f: UnnamedFieldV) -> UnnamedFieldV {
    UnnamedFieldV { ty: f.ty, attrs: serde_only(f.attrs) }
}

/// A field list as it stands on the shadow.
pub open spec fn proxy_fields(f: FieldsV) -> FieldsV {
    match f {
        FieldsV::Unit => FieldsV::Unit,
        FieldsV::Unnamed(fs) => FieldsV::Unnamed(
            fs.map_values(|x: UnnamedFieldV| proxy_unnamed_field(x)),
        ),
        FieldsV::Named(fs) => FieldsV::Named(
            fs.map_values(|x: NamedFieldV| proxy_named_field(x)),
        ),
    }
}

/// A variant as it stands on the shadow: codec attributes only on the
/// variant itself, its fields as they are.
pub open spec fn proxy_variant(v: VariantV) -> VariantV {
    VariantV { ident: v.ident, fields: v.fields, attrs: serde_only(v.attrs) }
}

/// The shadow declaration derived from `t` under the identifier `name`: the
/// same generics and field or variant structure, only the codec attributes,
/// and field attributes likewise thinned to what the codec reads.
pub open spec fn proxy_view(t: TargetV, name: Seq<char>) -> TargetV {
    match t {
        TargetV::Struct(s) => TargetV::Struct(
            StructDeclV {
                attrs: serde_only(s.attrs),
                ident: name,
                generics: s.generics,
                fields: proxy_fields(s.fields),
            },
        ),
        TargetV::Enum(e) => TargetV::Enum(
            EnumDeclV {
                attrs: serde_only(e.attrs),
                ident: name,
                generics: e.generics,
                variants: e.variants.map_values(|v: VariantV| proxy_variant(v)),
            },
        ),
    }
}

/// The correctness invariant of shadow synthesis: a shadow carries its
/// target's structural signature exactly, whatever identifier it is given.
pub proof fn lemma_proxy_sig(t: TargetV, name: Seq<char>)
    ensures
        sig(proxy_view(t, name)) == sig(t),
{
    match t {
        TargetV::Struct(s) => {
            match s.fields {
                FieldsV::Unit => {},
                FieldsV::Unnamed(fs) => {
                    assert(fs.map_values(|x: UnnamedFieldV| proxy_unnamed_field(x)).map_values(
                        |x: UnnamedFieldV| x.ty,
                    ) =~= fs.map_values(|x: UnnamedFieldV| x.ty));
                },
                FieldsV::Named(fs) => {
                    assert(fs.map_values(|x: NamedFieldV| proxy_named_field(x)).map_values(
                        |x: NamedFieldV| (x.ident, x.ty),
                    ) =~= fs.map_values(|x: NamedFieldV| (x.ident, x.ty)));
                },
            }
            assert(sig(proxy_view(t, name)) =~= sig(t));
        },
        TargetV::Enum(e) => {
            assert(e.variants.map_values(|v: VariantV| proxy_variant(v)).map_values(
                |v: VariantV| (v.ident, fields_sig(v.fields)),
            ) =~= e.variants.map_values(|v: VariantV| (v.ident, fields_sig(v.fields))));
            assert(sig(proxy_view(t, name)) =~= sig(t));
        },
    }
}

/// The binder pattern of one constructor in the relabeling conversion.
#[derive(Debug, Clone, PartialEq)]
pub enum FieldsPat {
    Unit,
    Unnamed { count: usize },
    Named { idents: Vec<String> },
}

/// One arm of the relabeling conversion on a sum type.
#[derive(Debug, Clone, PartialEq)]
pub struct Arm {
    pub variant: String,
    pub pat: FieldsPat,
}

/// The pure structural relabeling from the shadow to the target: every field
/// moved, unchanged, into the correspondingly named place.
#[derive(Debug, Clone, PartialEq)]
pub enum ConversionExpr {
    Struct { shadow_ident: String, target_ident: String, pat: FieldsPat },
    Enum { shadow_ident: String, target_ident: String, arms: Vec<Arm> },
}

/// The mathematical shape of a binder pattern.
#[verifier::ext_equal]
pub enum FieldsPatV {
    Unit,
    Unnamed(int),
    Named(Seq<Seq<char>>),
}

/// The mathematical shape of one conversion arm.
#[verifier::ext_equal]
pub struct ArmV {
    pub variant: Seq<char>,
    pub pat: FieldsPatV,
}

/// The mathematical shape of the relabeling conversion.
#[verifier::ext_equal]
pub enum ConversionExprV {
    Struct { shadow_ident: Seq<char>, target_ident: Seq<char>, pat: FieldsPatV },
    Enum { shadow_ident: Seq<char>, target_ident: Seq<char>, arms: Seq<ArmV> },
}

impl DeepView for FieldsPat {
    type V = FieldsPatV;

    open spec fn deep_view(&self) -> FieldsPatV {
        match self {
            FieldsPat::Unit => FieldsPatV::Unit,
            FieldsPat::Unnamed { count } => FieldsPatV::Unnamed(*count as int),
            FieldsPat::Named { idents } => FieldsPatV::Named(idents.deep_view()),
        }
    }
}

impl DeepView for Arm {
    type V = ArmV;

    open spec fn deep_view(&self) -> ArmV {
        ArmV { variant: self.variant@, pat: self.pat.deep_view() }
    }
}

impl DeepView for ConversionExpr {
    type V = ConversionExprV;

    open spec fn deep_view(&self) -> ConversionExprV {
        match self {
            ConversionExpr::Struct { shadow_ident, target_ident, pat } => ConversionExprV::Struct {
                shadow_ident: shadow_ident@,
                target_ident: target_ident@,
                pat: pat.deep_view(),
            },
            ConversionExpr::Enum { shadow_ident, target_ident, arms } => ConversionExprV::Enum {
                shadow_ident: shadow_ident@,
                target_ident: target_ident@,
                arms: arms.deep_view(),
            },
        }
    }
}

/// The binder pattern a field list gives rise to: one binder for each field,
/// named fields by their names, positional fields by their count.
pub open spec fn pat_of(f: FieldsV) -> FieldsPatV {
    match f {
        FieldsV::Unit => FieldsPatV::Unit,
        FieldsV::Unnamed(fs) => FieldsPatV::Unnamed(fs.len() as int),
        FieldsV::Named(fs) => FieldsPatV::Named(fs.map_values(|x: NamedFieldV| x.ident)),
    }
}

/// The relabeling conversion that moves a value of the declaration shaped
/// like `t` — the shadow — into the declaration named `target_ident`.
pub open spec fn transmute_view(t: TargetV, target_ident: Seq<char>) -> ConversionExprV {
    match t {
        TargetV::Struct(s) => ConversionExprV::Struct {
            shadow_ident: s.ident,
            target_ident,
            pat: pat_of(s.fields),
        },
        TargetV::Enum(e) => ConversionExprV::Enum {
            shadow_ident: e.ident,
            target_ident,
            arms: e.variants.map_values(|v: VariantV| ArmV { variant: v.ident, pat: pat_of(v.fields) }),
        },
    }
}

/// A fresh copy of a generic parameter list.
pub fn copy_generics(gs: &Vec<GenericParam>) -> (r: Vec<GenericParam>)
    ensures
        r.deep_view() == gs.deep_view(),
{
    let mut out: Vec<GenericParam> = Vec::new();
    let mut k: usize = 0;
    while k < gs.len()
        invariant
            k <= gs@.len(),
            out@.len() == k,
            forall|m: int| 0 <= m < k ==> #[trigger] out@[m].deep_view() == gs@[m].deep_view(),
        decreases gs@.len() - k,
    {
        let g = match &gs[k] {
            GenericParam::Lifetime(name) => GenericParam::Lifetime(name.clone()),
            GenericParam::Type { ident, bounds } => GenericParam::Type {
                ident: ident.clone(),
                bounds: copy_strings(bounds),
            },
            GenericParam::Const { ident, ty } => GenericParam::Const {
                ident: ident.clone(),
                ty: ty.clone(),
            },
        };
        proof {
            assert(gs@[k as int].deep_view() == gs.deep_view()[k as int]);
        }
        out.push(g);
        proof {
            assert(out@[k as int].deep_view() =~= gs@[k as int].deep_view());
        }
        k += 1;
    }
    assert(out.deep_view() =~= gs.deep_view());
    out
}

/// The attributes named `serde`, freshly copied, in order.
fn serde_only_exec(attrs: &Vec<Attr>) -> (r: Vec<Attr>)
    ensures
        r.deep_view() == serde_only(attrs.deep_view()),
{
    let ghost aseq = attrs.deep_view();
    let mut out: Vec<Attr> = Vec::new();
    let mut k: usize = 0;
    while k < attrs.len()
        invariant
            aseq == attrs.deep_view(),
            aseq.len() == attrs@.len(),
            k <= aseq.len(),
            out.deep_view() == serde_only(aseq.take(k as int)),
        decreases aseq.len() - k,
    {
        proof {
            lemma_serde_only_push(aseq.take(k as int), aseq[k as int]);
            assert(aseq.take(k as int).push(aseq[k as int]) =~= aseq.take(k + 1));
        }
        let a = &attrs[k];
        if str_eq(a.name.as_str(), "serde") {
            let ghost pre = out.deep_view();
            out.push(copy_attr(a));
            proof {
                assert(out.deep_view() =~= pre.push(aseq[k as int]));
            }
        }
        k += 1;
    }
    assert(aseq.take(aseq.len() as int) =~= aseq);
    out
}

/// A fresh copy of a field list, with each field's attributes thinned to the
/// codec attributes — the shape fields take on the shadow.
fn proxy_fields_exec(fields: &Fields) -> (r: Fields)
    ensures
        r.deep_view() == proxy_fields(fields.deep_view()),
{
    match fields {
        Fields::Unit => Fields::Unit,
        Fields::Unnamed(fs) => {
            let mut out: Vec<UnnamedField> = Vec::new();
            let mut k: usize = 0;
            while k < fs.len()
                invariant
                    k <= fs@.len(),
                    out@.len() == k,
                    forall|m: int|
                        0 <= m < k ==> #[trigger] out@[m].deep_view() == proxy_unnamed_field(
                            fs@[m].deep_view(),
                        ),
                decreases fs@.len() - k,
            {
                let f = &fs[k];
                out.push(UnnamedField { ty: f.ty.clone(), attrs: serde_only_exec(&f.attrs) });
                proof {
                    assert(fs@[k as int].deep_view() == fs.deep_view()[k as int]);
                    assert(out@[k as int].deep_view() =~= proxy_unnamed_field(
                        fs@[k as int].deep_view(),
                    ));
                }
                k += 1;
            }
            proof {
                assert(out.deep_view() =~= fs.deep_view().map_values(
                    |x: UnnamedFieldV| proxy_unnamed_field(x),
                ));
            }
            Fields::Unnamed(out)
        },
        Fields::Named(fs) => {
            let mut out: Vec<NamedField> = Vec::new();
            let mut k: usize = 0;
            while k < fs.len()
                invariant
                    k <= fs@.len(),
                    out@.len() == k,
                    forall|m: int|
                        0 <= m < k ==> #[trigger] out@[m].deep_view() == proxy_named_field(
                            fs@[m].deep_view(),
                        ),
                decreases fs@.len() - k,
            {
                let f = &fs[k];
                out.push(
                    NamedField {
                        ident: f.ident.clone(),
                        ty: f.ty.clone(),
                        attrs: serde_only_exec(&f.attrs),
                    },
                );
                proof {
                    assert(fs@[k as int].deep_view() == fs.deep_view()[k as int]);
                    assert(out@[k as int].deep_view() =~= proxy_named_field(
                        fs@[k as int].deep_view(),
                    ));
                }
                k += 1;
            }
            proof {
                assert(out.deep_view() =~= fs.deep_view().map_values(
                    |x: NamedFieldV| proxy_named_field(x),
                ));
            }
            Fields::Named(out)
        },
    }
}

/// A fresh copy of a field list, unchanged.
fn copy_fields(fields: &Fields) -> (r: Fields)
    ensures
        r.deep_view() == fields.deep_view(),
{
    match fields {
        Fields::Unit => Fields::Unit,
        Fields::Unnamed(fs) => {
            let mut out: Vec<UnnamedField> = Vec::new();
            let mut k: usize = 0;
            while k < fs.len()
                invariant
                    k <= fs@.len(),
                    out@.len() == k,
                    forall|m: int|
                        0 <= m < k ==> #[trigger] out@[m].deep_view() == fs@[m].deep_view(),
                decreases fs@.len() - k,
            {
                let f = &fs[k];
                out.push(UnnamedField { ty: f.ty.clone(), attrs: copy_attrs(&f.attrs) });
                proof {
                    assert(out@[k as int].deep_view() =~= fs@[k as int].deep_view());
                }
                k += 1;
            }
            assert(out.deep_view() =~= fs.deep_view());
            Fields::Unnamed(out)
        },
        Fields::Named(fs) => {
            let mut out: Vec<NamedField> = Vec::new();
            let mut k: usize = 0;
            while k < fs.len()
                invariant
                    k <= fs@.len(),
                    out@.len() == k,
                    forall|m: int|
                        0 <= m < k ==> #[trigger] out@[m].deep_view() == fs@[m].deep_view(),
                decreases fs@.len() - k,
            {
                let f = &fs[k];
                out.push(
                    NamedField {
                        ident: f.ident.clone(),
                        ty: f.ty.clone(),
                        attrs: copy_attrs(&f.attrs),
                    },
                );
                proof {
                    assert(out@[k as int].deep_view() =~= fs@[k as int].deep_view());
                }
                k += 1;
            }
            assert(out.deep_view() =~= fs.deep_view());
            Fields::Named(out)
        },
    }
}

impl Target {
    /// Accept a raw declaration: only product types and sum types pass.
    pub fn parse(input: RawItem) -> (r: Result<Target, Error>)
        ensures
            match input {
                RawItem::Struct(s) => r == Ok::<Target, Error>(Target::Struct(s)),
                RawItem::Enum(e) => r == Ok::<Target, Error>(Target::Enum(e)),
                RawItem::Other => r == Err::<Target, Error>(Error::UnsupportedDeclarationKind),
            },
    {
        match input {
            RawItem::Struct(s) => Ok(Target::Struct(s)),
            RawItem::Enum(e) => Ok(Target::Enum(e)),
            RawItem::Other => Err(Error::UnsupportedDeclarationKind),
        }
    }

    /// The declaration's generic parameters.
    pub fn generics(&self) -> (r: &Vec<GenericParam>)
        ensures
            r.deep_view() == self.deep_view().generics(),
    {
        match self {
            Target::Enum(e) => &e.generics,
            Target::Struct(s) => &s.generics,
        }
    }

    /// The declaration's attributes.
    pub fn attrs(&self) -> (r: &Vec<Attr>)
        ensures
            r.deep_view() == self.deep_view().attrs(),
    {
        match self {
            Target::Enum(e) => &e.attrs,
            Target::Struct(s) => &s.attrs,
        }
    }

    /// The declaration's identifier.
    pub fn ident(&self) -> (r: &String)
        ensures
            r@ == self.deep_view().ident(),
    {
        match self {
            Target::Enum(e) => &e.ident,
            Target::Struct(s) => &s.ident,
        }
    }

    /// The same declaration with its attribute list replaced — how extraction
    /// hands back a declaration shorn of a reserved directive.
    pub fn with_attrs(self, attrs: Vec<Attr>) -> (r: Target)
        ensures
            r.deep_view() == self.deep_view().with_attrs(attrs.deep_view()),
    {
        let r = match self {
            Target::Enum(e) => Target::Enum(
                EnumDecl {
                    attrs,
                    ident: e.ident,
                    generics: e.generics,
                    variants: e.variants,
                },
            ),
            Target::Struct(s) => Target::Struct(
                StructDecl { attrs, ident: s.ident, generics: s.generics, fields: s.fields },
            ),
        };
        proof {
            assert(r.deep_view() =~= self.deep_view().with_attrs(attrs.deep_view()));
        }
        r
    }

    /// Synthesize the shadow declaration: structurally identical to `self`,
    /// renamed to `name`, carrying only the codec attributes at every level
    /// the codec framework reads.
    pub fn create_proxy(&self, name: String) -> (r: Target)
        ensures
            r.deep_view() == proxy_view(self.deep_view(), name@),
            sig(r.deep_view()) == sig(self.deep_view()),
    {
        let r = match self {
            Target::Struct(s) => Target::Struct(
                StructDecl {
                    attrs: serde_only_exec(&s.attrs),
                    ident: name,
                    generics: copy_generics(&s.generics),
                    fields: proxy_fields_exec(&s.fields),
                },
            ),
            Target::Enum(e) => {
                let mut out: Vec<Variant> = Vec::new();
                let mut k: usize = 0;
                while k < e.variants.len()
                    invariant
                        k <= e.variants@.len(),
                        out@.len() == k,
                        forall|m: int|
                            0 <= m < k ==> #[trigger] out@[m].deep_view() == proxy_variant(
                                e.variants@[m].deep_view(),
                            ),
                    decreases e.variants@.len() - k,
                {
                    let v = &e.variants[k];
                    out.push(
                        Variant {
                            ident: v.ident.clone(),
                            fields: copy_fields(&v.fields),
                            attrs: serde_only_exec(&v.attrs),
                        },
                    );
                    proof {
                        assert(e.variants@[k as int].deep_view() == e.variants.deep_view()[k as int]);
                        assert(out@[k as int].deep_view() =~= proxy_variant(
                            e.variants@[k as int].deep_view(),
                        ));
                    }
                    k += 1;
                }
                proof {
                    assert(out.deep_view() =~= e.variants.deep_view().map_values(
                        |v: VariantV| proxy_variant(v),
                    ));
                }
                Target::Enum(
                    EnumDecl {
                        attrs: serde_only_exec(&e.attrs),
                        ident: name,
                        generics: copy_generics(&e.generics),
                        variants: out,
                    },
                )
            },
        };
        proof {
            assert(r.deep_view() =~= proxy_view(self.deep_view(), name@));
            lemma_proxy_sig(self.deep_view(), name@);
        }
        r
    }

    /// Build the relabeling conversion that moves a value of this declaration
    /// — the shadow — field by field into the declaration named
    /// `target_ident`.
    pub fn transmute_expr(&self, target_ident: &String) -> (r: ConversionExpr)
        ensures
            r.deep_view() == transmute_view(self.deep_view(), target_ident@),
    {
        let r = match self {
            Target::Struct(s) => ConversionExpr::Struct {
                shadow_ident: s.ident.clone(),
                target_ident: target_ident.clone(),
                pat: fields_pat(&s.fields),
            },
            Target::Enum(e) => {
                let mut arms: Vec<Arm> = Vec::new();
                let mut k: usize = 0;
                while k < e.variants.len()
                    invariant
                        k <= e.variants@.len(),
                        arms@.len() == k,
                        forall|m: int|
                            0 <= m < k ==> #[trigger] arms@[m].deep_view() == (ArmV {
                                variant: e.variants@[m].deep_view().ident,
                                pat: pat_of(e.variants@[m].deep_view().fields),
                            }),
                    decreases e.variants@.len() - k,
                {
                    let v = &e.variants[k];
                    arms.push(Arm { variant: v.ident.clone(), pat: fields_pat(&v.fields) });
                    proof {
                        assert(arms@[k as int].deep_view() =~= (ArmV {
                            variant: e.variants@[k as int].deep_view().ident,
                            pat: pat_of(e.variants@[k as int].deep_view().fields),
                        }));
                    }
                    k += 1;
                }
                proof {
                    assert forall|m: int| 0 <= m < e.variants@.len() implies arms.deep_view()[m]
                        == e.variants.deep_view().map_values(
                        |v: VariantV| ArmV { variant: v.ident, pat: pat_of(v.fields) },
                    )[m] by {
                        assert(e.variants.deep_view()[m] == e.variants@[m].deep_view());
                    }
                    assert(arms.deep_view() =~= e.variants.deep_view().map_values(
                        |v: VariantV| ArmV { variant: v.ident, pat: pat_of(v.fields) },
                    ));
                }
                ConversionExpr::Enum {
                    shadow_ident: e.ident.clone(),
                    target_ident: target_ident.clone(),
                    arms,
                }
            },
        };
        proof {
            assert(r.deep_view() =~= transmute_view(self.deep_view(), target_ident@));
        }
        r
    }
}

/// The binder pattern of one field list.
fn fields_pat(fields: &Fields) -> (r: FieldsPat)
    ensures
        r.deep_view() == pat_of(fields.deep_view()),
{
    match fields {
        Fields::Unit => FieldsPat::Unit,
        Fields::Unnamed(fs) => FieldsPat::Unnamed { count: fs.len() },
        Fields::Named(fs) => {
            let mut idents: Vec<String> = Vec::new();
            let mut k: usize = 0;
            while k < fs.len()
                invariant
                    k <= fs@.len(),
                    idents@.len() == k,
                    forall|m: int| 0 <= m < k ==> #[trigger] idents@[m]@ == fs@[m].deep_view().ident,
                decreases fs@.len() - k,
            {
                idents.push(fs[k].ident.clone());
                k += 1;
            }
            proof {
                assert forall|m: int| 0 <= m < fs@.len() implies idents.deep_view()[m]
                    == fs.deep_view().map_values(|x: NamedFieldV| x.ident)[m] by {
                    assert(fs.deep_view()[m] == fs@[m].deep_view());
                    assert(idents.deep_view()[m] == idents@[m]@);
                }
                assert(idents.deep_view() =~= fs.deep_view().map_values(
                    |x: NamedFieldV| x.ident,
                ));
            }
            FieldsPat::Named { idents }
        },
    }
}

} // verus!

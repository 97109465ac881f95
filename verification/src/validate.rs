//! The validation directive and its grammar.
//!
//! Two surface encodings normalize to one spec:
//!
//! ```text
//! validate = "<path>"
//! validate(by = "<path>")
//! validate(by = "<path>", error = "<type>")
//! ```
//!
//! `by` is mandatory in the structured form; `error` is optional in both.
//! String literals here carry no escape sequences. A sub-key other than `by`
//! or `error` is an unknown option; a repeated sub-key overwrites the earlier
//! one.

use vstd::prelude::*;

verus! {

use vstd::string::StrSliceExecFns;
use crate::Error;
use crate::paths::{check_path, check_type, path_ok, type_ok};
use crate::directive::{Attr, reserved_text, strip_attrs, take_directive, total_count};
use crate::text::{
    ident_end, ident_end_exec, lemma_ident_end_range, lemma_lit_end_range, lemma_skip_ws_range,
    lit_end, lit_end_exec, skip_ws, skip_ws_exec, str_eq,
};

/// A parsed validation directive: the validator reference path, and, in the
/// structured form, an optional explicit error type.
#[derive(Debug, Clone, PartialEq)]
pub enum Validate {
    Eq(String),
    Paren { by: String, error: Option<String> },
}

/// The mathematical shape of a parsed validation directive.
pub enum ValidateV {
    Eq(Seq<char>),
    Paren { by: Seq<char>, error: Option<Seq<char>> },
}

impl ValidateV {
    /// The validator reference path, whichever surface form carried it.
    pub open spec fn validator(self) -> Seq<char> {
        match self {
            ValidateV::Eq(by) => by,
            ValidateV::Paren { by, .. } => by,
        }
    }

    /// The explicit error type, where the structured form declared one.
    pub open spec fn error_type(self) -> Option<Seq<char>> {
        match self {
            ValidateV::Eq(_) => None,
            ValidateV::Paren { error, .. } => error,
        }
    }
}

impl View for Validate {
    type V = ValidateV;

    open spec fn view(&self) -> ValidateV {
        match self {
            Validate::Eq(by) => ValidateV::Eq(by@),
            Validate::Paren { by, error } => ValidateV::Paren {
                by: by@,
                error: match error {
                    Some(e) => Some(e@),
                    None => None,
                },
            },
        }
    }
}

/// What parsing the bare assignment form yields, from the position after the
/// `=` sign.
pub open spec fn spec_parse_eq_form(s: Seq<char>, i: int) -> Result<ValidateV, Error> {
    let j = skip_ws(s, i);
    if !(j < s.len() && s[j] == '"') {
        Err(Error::SyntaxError { at: j as usize })
    } else {
        let e = lit_end(s, j + 1);
        if !(e < s.len() && s[e] == '"') {
            Err(Error::SyntaxError { at: e as usize })
        } else {
            let k = skip_ws(s, e + 1);
            if k != s.len() {
                Err(Error::SyntaxError { at: k as usize })
            } else {
                Ok(ValidateV::Eq(s.subrange(j + 1, e)))
            }
        }
    }
}

/// What parsing the structured form's sub-key list yields, from position `i`
/// inside the parentheses, with the sub-keys gathered so far.
pub open spec fn spec_parse_items(
    s: Seq<char>,
    i: int,
    by: Option<Seq<char>>,
    error: Option<Seq<char>>,
) -> Result<ValidateV, Error>
    decreases s.len() - i,
    via spec_parse_items_decreases
{
    let j = skip_ws(s, i);
    if j >= s.len() {
        Err(Error::SyntaxError { at: j as usize })
    } else if s[j] == ')' {
        let k = skip_ws(s, j + 1);
        if k != s.len() {
            Err(Error::SyntaxError { at: k as usize })
        } else {
            match by {
                None => Err(Error::MissingValidatorPath),
                Some(b) => Ok(ValidateV::Paren { by: b, error }),
            }
        }
    } else if s[j] == ',' {
        spec_parse_items(s, j + 1, by, error)
    } else {
        let e = ident_end(s, j);
        if e == j {
            Err(Error::SyntaxError { at: j as usize })
        } else if s.subrange(j, e) == "by"@ || s.subrange(j, e) == "error"@ {
            let q = skip_ws(s, e);
            if !(q < s.len() && s[q] == '=') {
                Err(Error::SyntaxError { at: q as usize })
            } else {
                let v = skip_ws(s, q + 1);
                if !(v < s.len() && s[v] == '"') {
                    Err(Error::SyntaxError { at: v as usize })
                } else {
                    let z = lit_end(s, v + 1);
                    if !(z < s.len() && s[z] == '"') {
                        Err(Error::SyntaxError { at: z as usize })
                    } else if s.subrange(j, e) == "by"@ {
                        spec_parse_items(s, z + 1, Some(s.subrange(v + 1, z)), error)
                    } else {
                        spec_parse_items(s, z + 1, by, Some(s.subrange(v + 1, z)))
                    }
                }
            }
        } else {
            Err(Error::UnknownOption { at: j as usize })
        }
    }
}

#[via_fn]
proof fn spec_parse_items_decreases(
    s: Seq<char>,
    i: int,
    by: Option<Seq<char>>,
    error: Option<Seq<char>>,
) {
    if 0 <= i <= s.len() {
        lemma_skip_ws_range(s, i);
        let j = skip_ws(s, i);
        if j < s.len() {
            lemma_ident_end_range(s, j);
            let e = ident_end(s, j);
            lemma_skip_ws_range(s, e);
            let q = skip_ws(s, e);
            if q + 1 <= s.len() {
                lemma_skip_ws_range(s, q + 1);
                let v = skip_ws(s, q + 1);
                if v + 1 <= s.len() {
                    lemma_lit_end_range(s, v + 1);
                }
            }
        }
    }
}

/// What parsing a whole validation directive yields.
pub open spec fn spec_parse_validate(s: Seq<char>) -> Result<ValidateV, Error> {
    let i0 = skip_ws(s, 0);
    let i1 = ident_end(s, i0);
    if i1 == i0 || s.subrange(i0, i1) != "validate"@ {
        Err(Error::SyntaxError { at: i0 as usize })
    } else {
        let i2 = skip_ws(s, i1);
        if i2 < s.len() && s[i2] == '=' {
            spec_parse_eq_form(s, i2 + 1)
        } else if i2 < s.len() && s[i2] == '(' {
            spec_parse_items(s, i2 + 1, None, None)
        } else {
            Err(Error::SyntaxError { at: i2 as usize })
        }
    }
}

impl Validate {
    /// Parse the text of a validation directive.
    pub fn parse(s: &str) -> (r: Result<Validate, Error>)
        ensures
            r matches Ok(v) ==> spec_parse_validate(s@) == Ok::<ValidateV, Error>(v@),
            r matches Err(e) ==> spec_parse_validate(s@) == Err::<ValidateV, Error>(e),
    {
        let n = s.unicode_len();
        let i0 = skip_ws_exec(s, 0);
        let i1 = ident_end_exec(s, i0);
        if i1 == i0 || !str_eq(s.substring_char(i0, i1), "validate") {
            return Err(Error::SyntaxError { at: i0 });
        }
        let i2 = skip_ws_exec(s, i1);
        if i2 < n && s.get_char(i2) == '=' {
            // bare assignment form
            let j = skip_ws_exec(s, i2 + 1);
            if !(j < n && s.get_char(j) == '"') {
                return Err(Error::SyntaxError { at: j });
            }
            let e = lit_end_exec(s, j + 1);
            if !(e < n && s.get_char(e) == '"') {
                return Err(Error::SyntaxError { at: e });
            }
            let k = skip_ws_exec(s, e + 1);
            if k != n {
                return Err(Error::SyntaxError { at: k });
            }
            Ok(Validate::Eq(s.substring_char(j + 1, e).to_owned()))
        } else if i2 < n && s.get_char(i2) == '(' {
            // structured form
            let mut by: Option<String> = None;
            let mut error: Option<String> = None;
            let mut i = i2 + 1;
            loop
                invariant
                    n == s@.len(),
                    i <= n,
                    spec_parse_validate(s@) == spec_parse_items(
                        s@,
                        i as int,
                        match by {
                            Some(ref b) => Some(b@),
                            None => None,
                        },
                        match error {
                            Some(ref e) => Some(e@),
                            None => None,
                        },
                    ),
                decreases n - i,
            {
                let ghost byv: Option<Seq<char>> = match by {
                    Some(ref b) => Some(b@),
                    None => None,
                };
                let ghost errv: Option<Seq<char>> = match error {
                    Some(ref e) => Some(e@),
                    None => None,
                };
                let j = skip_ws_exec(s, i);
                if j >= n {
                    return Err(Error::SyntaxError { at: j });
                }
                let c = s.get_char(j);
                if c == ')' {
                    let k = skip_ws_exec(s, j + 1);
                    if k != n {
                        return Err(Error::SyntaxError { at: k });
                    }
                    return match by {
                        None => Err(Error::MissingValidatorPath),
                        Some(b) => Ok(Validate::Paren { by: b, error }),
                    };
                } else if c == ',' {
                    i = j + 1;
                } else {
                    let e = ident_end_exec(s, j);
                    if e == j {
                        return Err(Error::SyntaxError { at: j });
                    }
                    let kw_is_by = str_eq(s.substring_char(j, e), "by");
                    let kw_is_error = str_eq(s.substring_char(j, e), "error");
                    if !(kw_is_by || kw_is_error) {
                        return Err(Error::UnknownOption { at: j });
                    }
                    let q = skip_ws_exec(s, e);
                    if !(q < n && s.get_char(q) == '=') {
                        return Err(Error::SyntaxError { at: q });
                    }
                    let v = skip_ws_exec(s, q + 1);
                    if !(v < n && s.get_char(v) == '"') {
                        return Err(Error::SyntaxError { at: v });
                    }
                    let z = lit_end_exec(s, v + 1);
                    if !(z < n && s.get_char(z) == '"') {
                        return Err(Error::SyntaxError { at: z });
                    }
                    let lit = s.substring_char(v + 1, z).to_owned();
                    if kw_is_by {
                        by = Some(lit);
                    } else {
                        error = Some(lit);
                    }
                    i = z + 1;
                }
            }
        } else {
            Err(Error::SyntaxError { at: i2 })
        }
    }

    /// Extract and parse the validation directive of a declaration's
    /// attribute list: the first `validate`-prefixed directive of a `serde`
    /// attribute. The residual attributes keep every codec-configuration
    /// directive, in order. A second occurrence is an error, as is a
    /// directive that breaks the grammar.
    pub fn take(attrs: &Vec<Attr>) -> (r: Result<(Vec<Attr>, Option<Validate>), Error>)
        ensures
            total_count(attrs.deep_view(), "serde"@, "validate"@) >= 2 ==> r == Err::<
                (Vec<Attr>, Option<Validate>),
                Error,
            >(Error::DuplicateValidate),
            total_count(attrs.deep_view(), "serde"@, "validate"@) == 0 ==> (r matches Ok(ok)
                && ok.1 is None && ok.0.deep_view() == strip_attrs(
                attrs.deep_view(),
                "serde"@,
                "validate"@,
            )),
            total_count(attrs.deep_view(), "serde"@, "validate"@) == 1 ==> match spec_parse_validate(
                reserved_text(attrs.deep_view(), "serde"@, "validate"@),
            ) {
                Ok(v) => r matches Ok(ok) && (ok.1 matches Some(got) && got@ == v)
                    && ok.0.deep_view() == strip_attrs(attrs.deep_view(), "serde"@, "validate"@),
                Err(e) => r == Err::<(Vec<Attr>, Option<Validate>), Error>(e),
            },
    {
        let (rest, text) = match take_directive(
            attrs,
            "serde",
            "validate",
            Error::DuplicateValidate,
        ) {
            Ok(ok) => ok,
            Err(e) => {
                return Err(e);
            },
        };
        match text {
            None => Ok((rest, None)),
            Some(t) => match Validate::parse(t.as_str()) {
                Ok(v) => Ok((rest, Some(v))),
                Err(e) => Err(e),
            },
        }
    }

    /// The validator reference path, checked to be a well-formed path.
    pub fn function(&self) -> (r: Result<String, Error>)
        ensures
            r matches Ok(p) ==> path_ok(self@.validator()) && p@ == self@.validator(),
            r matches Err(e) ==> !path_ok(self@.validator()) && e == Error::InvalidPath,
    {
        let by = match self {
            Validate::Eq(by) => by,
            Validate::Paren { by, .. } => by,
        };
        if check_path(by.as_str()) {
            Ok(by.clone())
        } else {
            Err(Error::InvalidPath)
        }
    }

    /// The explicit error type, if one is declared, checked to be a
    /// well-formed type.
    pub fn error(&self) -> (r: Result<Option<String>, Error>)
        ensures
            self@.error_type() is None ==> (r matches Ok(o) && o is None),
            self@.error_type() matches Some(t) ==> match r {
                Ok(o) => type_ok(t) && (o matches Some(p) && p@ == t),
                Err(e) => !type_ok(t) && e == Error::InvalidErrorType,
            },
    {
        match self {
            Validate::Eq(_) => Ok(None),
            Validate::Paren { error: None, .. } => Ok(None),
            Validate::Paren { error: Some(t), .. } => {
                if check_type(t.as_str()) {
                    Ok(Some(t.clone()))
                } else {
                    Err(Error::InvalidErrorType)
                }
            },
        }
    }
}

} // verus!

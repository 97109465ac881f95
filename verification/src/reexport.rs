//! The namespace-override directive and its grammar.
//!
//! ```text
//! crate = "<path>"
//! ```
//!
//! The directive stands inside a `serdev` attribute and overrides the default
//! path under which every generated reference reaches the codec framework —
//! for re-export and vendoring scenarios where the consuming code does not
//! depend on the framework under its usual name.

use vstd::prelude::*;

verus! {

use vstd::string::StrSliceExecFns;
use crate::Error;
use crate::directive::{Attr, reserved_text, strip_attrs, take_directive, total_count};
use crate::paths::{check_path, path_ok};
use crate::text::{ident_end, ident_end_exec, lit_end, lit_end_exec, skip_ws, skip_ws_exec, str_eq};

/// A parsed namespace override: the alternate library path, as quoted.
#[derive(Debug, Clone, PartialEq)]
pub struct Reexport {
    path: String,
}

impl View for Reexport {
    type V = Seq<char>;

    closed spec fn view(&self) -> Seq<char> {
        self.path@
    }
}

/// What parsing a namespace-override directive yields: the quoted path text.
pub open spec fn spec_parse_reexport(s: Seq<char>) -> Result<Seq<char>, Error> {
    let i0 = skip_ws(s, 0);
    let i1 = ident_end(s, i0);
    if i1 == i0 || s.subrange(i0, i1) != "crate"@ {
        Err(Error::SyntaxError { at: i0 as usize })
    } else {
        let i2 = skip_ws(s, i1);
        if !(i2 < s.len() && s[i2] == '=') {
            Err(Error::SyntaxError { at: i2 as usize })
        } else {
            let j = skip_ws(s, i2 + 1);
            if !(j < s.len() && s[j] == '"') {
                Err(Error::SyntaxError { at: j as usize })
            } else {
                let e = lit_end(s, j + 1);
                if !(e < s.len() && s[e] == '"') {
                    Err(Error::SyntaxError { at: e as usize })
                } else {
                    let k = skip_ws(s, e + 1);
                    if k != s.len() {
                        Err(Error::SyntaxError { at: k as usize })
                    } else {
                        Ok(s.subrange(j + 1, e))
                    }
                }
            }
        }
    }
}

impl Reexport {
    /// Parse the text of a namespace-override directive.
    pub fn parse(s: &str) -> (r: Result<Reexport, Error>)
        ensures
            r matches Ok(v) ==> spec_parse_reexport(s@) == Ok::<Seq<char>, Error>(v@),
            r matches Err(e) ==> spec_parse_reexport(s@) == Err::<Seq<char>, Error>(e),
    {
        let n = s.unicode_len();
        let i0 = skip_ws_exec(s, 0);
        let i1 = ident_end_exec(s, i0);
        if i1 == i0 || !str_eq(s.substring_char(i0, i1), "crate") {
            return Err(Error::SyntaxError { at: i0 });
        }
        let i2 = skip_ws_exec(s, i1);
        if !(i2 < n && s.get_char(i2) == '=') {
            return Err(Error::SyntaxError { at: i2 });
        }
        let j = skip_ws_exec(s, i2 + 1);
        if !(j < n && s.get_char(j) == '"') {
            return Err(Error::SyntaxError { at: j });
        }
        let e = lit_end_exec(s, j + 1);
        if !(e < n && s.get_char(e) == '"') {
            return Err(Error::SyntaxError { at: e });
        }
        let k = skip_ws_exec(s, e + 1);
        if k != n {
            return Err(Error::SyntaxError { at: k });
        }
        Ok(Reexport { path: s.substring_char(j + 1, e).to_owned() })
    }

    /// Extract and parse the namespace-override directive of a declaration's
    /// attribute list: the first `crate`-prefixed directive of a `serdev`
    /// attribute. A second occurrence is an error, as is a directive that
    /// breaks the grammar.
    pub fn take(attrs: &Vec<Attr>) -> (r: Result<(Vec<Attr>, Option<Reexport>), Error>)
        ensures
            total_count(attrs.deep_view(), "serdev"@, "crate"@) >= 2 ==> r == Err::<
                (Vec<Attr>, Option<Reexport>),
                Error,
            >(Error::DuplicateCrate),
            total_count(attrs.deep_view(), "serdev"@, "crate"@) == 0 ==> (r matches Ok(ok)
                && ok.1 is None && ok.0.deep_view() == strip_attrs(
                attrs.deep_view(),
                "serdev"@,
                "crate"@,
            )),
            total_count(attrs.deep_view(), "serdev"@, "crate"@) == 1 ==> match spec_parse_reexport(
                reserved_text(attrs.deep_view(), "serdev"@, "crate"@),
            ) {
                Ok(p) => r matches Ok(ok) && (ok.1 matches Some(got) && got@ == p)
                    && ok.0.deep_view() == strip_attrs(attrs.deep_view(), "serdev"@, "crate"@),
                Err(e) => r == Err::<(Vec<Attr>, Option<Reexport>), Error>(e),
            },
    {
        let (rest, text) = match take_directive(attrs, "serdev", "crate", Error::DuplicateCrate) {
            Ok(ok) => ok,
            Err(e) => {
                return Err(e);
            },
        };
        match text {
            None => Ok((rest, None)),
            Some(t) => match Reexport::parse(t.as_str()) {
                Ok(v) => Ok((rest, Some(v))),
                Err(e) => Err(e),
            },
        }
    }

    /// The overriding library path, checked to be a well-formed path.
    pub fn path(&self) -> (r: Result<String, Error>)
        ensures
            r matches Ok(p) ==> path_ok(self@) && p@ == self@,
            r matches Err(e) ==> !path_ok(self@) && e == Error::InvalidPath,
    {
        if check_path(self.path.as_str()) {
            Ok(self.path.clone())
        } else {
            Err(Error::InvalidPath)
        }
    }

    /// The overriding library path, as quoted.
    pub fn path_str(&self) -> (r: String)
        ensures
            r@ == self@,
    {
        self.path.clone()
    }
}

} // verus!

//! Well-formedness of the paths and types that directives quote.
//!
//! A validator reference, a namespace override and an explicit error type
//! arrive as string literals; whether such text is a well-formed path or type
//! is decided by the host language's own syntax, through the `syn` parser.
//! Only the yes-or-no outcome enters the engine's logic.

use vstd::prelude::*;

verus! {

/// Whether `s` is a well-formed path, as the host language's syntax has it.
pub uninterp spec fn path_ok(s: Seq<char>) -> bool;

/// Whether `s` is a well-formed type, as the host language's syntax has it.
pub uninterp spec fn type_ok(s: Seq<char>) -> bool;

/// Relies on `syn::parse_str::<syn::Path>`: whether the text parses as a
/// path. The outcome depends on the text alone.
#[verifier::external_body]
pub(crate) fn check_path(s: &str) -> (r: bool)
    ensures
        r == path_ok(s@),
{
    syn::parse_str::<syn::Path>(s).is_ok()
}

/// Relies on `syn::parse_str::<syn::Type>`: whether the text parses as a
/// type. The outcome depends on the text alone.
#[verifier::external_body]
pub(crate) fn check_type(s: &str) -> (r: bool)
    ensures
        r == type_ok(s@),
{
    syn::parse_str::<syn::Type>(s).is_ok()
}

} // verus!

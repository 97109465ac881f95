//! Compile-time schema augmentation for a structured-data codec framework:
//! given a data-type declaration annotated with codec directives and an
//! optional validation hook, plan the generated declarations that decode and
//! encode values through the framework while guaranteeing that the validator
//! runs on every successfully decoded value, and that no value failing
//! validation is ever returned to the caller as a success.
//!
//! The crate root holds the runtime side of that contract: the validator
//! capability, the default displayable-error container, and the checks
//! that the planned conversions perform at run time.

mod codegen;
mod directive;
mod sample;
mod paths;
mod reexport;
mod target;
mod text;
mod validate;

pub use codegen::{Conversion, Decl, Deserialize, ErrorTy, Gate, Plan, Serialize};
pub use directive::Attr;
pub use reexport::Reexport;
pub use sample::{EUser, GUser, Text, VUser};
pub use target::{
    Arm, ConversionExpr, EnumDecl, Fields, FieldsPat, GenericParam, NamedField, RawItem,
    StructDecl, Target, UnnamedField, Variant,
};
pub use validate::Validate;

use vstd::prelude::*;

verus! {

use vstd::string::StringExecFns;

/// A generation-time failure: the annotated declaration or one of its
/// directives is not acceptable. Each variant records, where it helps, the
/// character offset inside the offending directive text.
#[derive(Debug, Clone, Copy, PartialEq, Eq)]
pub enum Error {
    /// The declaration is neither a product type nor a sum type.
    UnsupportedDeclarationKind,
    /// A directive does not follow its grammar; the offset points at the
    /// first unexpected character.
    SyntaxError { at: usize },
    /// The structured validation directive names no validator path.
    MissingValidatorPath,
    /// The structured validation directive uses a sub-key other than `by` or
    /// `error`.
    UnknownOption { at: usize },
    /// A declaration carries more than one validation directive.
    DuplicateValidate,
    /// A declaration carries more than one namespace-override directive.
    DuplicateCrate,
    /// A validator or namespace path is not a well-formed path.
    InvalidPath,
    /// An explicit error type is not a well-formed type.
    InvalidErrorType,
}

/// A display-able failure value: anything that can report its message as text.
///
/// The default error container is built from such a value, whose promise
/// is that a wrapped error keeps the original text.
pub trait ErrorMessage {
    /// The message as a mathematical sequence of characters.
    spec fn message_spec(&self) -> Seq<char>;

    /// Render the message.
    fn message(&self) -> (r: String)
        ensures
            r@ == self.message_spec(),
    ;
}

impl<'a> ErrorMessage for &'a str {
    open spec fn message_spec(&self) -> Seq<char> {
        (*self)@
    }

    fn message(&self) -> (r: String) {
        String::from_str(*self)
    }
}

impl ErrorMessage for String {
    open spec fn message_spec(&self) -> Seq<char> {
        self@
    }

    fn message(&self) -> (r: String) {
        self.clone()
    }
}

/// The default displayable-error container, used when a declaration names no
/// explicit error type.
pub type DefaultError = String;

/// Wrap a display-able failure value into the default error container.
/// The displayed text is kept exactly.
pub fn default_error<E: ErrorMessage>(e: E) -> (r: DefaultError)
    ensures
        r@ == e.message_spec(),
{
    e.message()
}

/// The validator capability a declaration's validation directive points at:
/// a single-argument predicate over the constructed value, returning success
/// or a failure value.
///
/// `valid` says which values pass and `failure` which value a failing run
/// reports; `validate` is the one invocation the generated conversion makes.
pub trait Validator: Sized {
    /// The validator's failure type: the declaration's explicit error type,
    /// or any display-able value on the default path.
    type Error;

    /// Which values the validator accepts.
    spec fn valid(&self) -> bool;

    /// The failure value reported for a rejected value.
    spec fn failure(&self) -> Self::Error;

    /// Run the validator.
    fn validate(&self) -> (r: Result<(), Self::Error>)
        ensures
            r is Ok <==> self.valid(),
            r matches Err(e) ==> e == self.failure(),
    ;
}

/// The codec-level error of a generated decode entry point: either the
/// underlying raw-decode failure, passed through unchanged, or the
/// validator's failure, carried in the resolved error type.
#[derive(Debug, PartialEq)]
pub enum DecodeError<R, E> {
    Codec(R),
    Invalid(E),
}

/// The fallible conversion from the shadow value to the target value, with
/// an explicit error type: a pure relabeling — the value moves unchanged —
/// followed by exactly one invocation of the validator. The failure value is
/// returned as-is, wrapped no further, and no value that failed validation
/// is ever returned as a success.
pub fn try_from_shadow<T: Validator>(value: T) -> (r: Result<T, T::Error>)
    ensures
        value.valid() ==> (r matches Ok(v) && v == value),
        !value.valid() ==> (r matches Err(e) && e == value.failure()),
{
    match value.validate() {
        Ok(_) => Ok(value),
        Err(e) => Err(e),
    }
}

/// The fallible conversion on the default error path: as `try_from_shadow`,
/// but the failure value is wrapped into the default error container, whose
/// displayed text equals the failure's own.
pub fn try_from_shadow_default<T>(value: T) -> (r: Result<T, DefaultError>) where
    T: Validator,
    T::Error: ErrorMessage,

    ensures
        value.valid() ==> (r matches Ok(v) && v == value),
        !value.valid() ==> (r matches Err(e) && e@ == value.failure().message_spec()),
{
    match value.validate() {
        Ok(_) => Ok(value),
        Err(e) => Err(default_error(e)),
    }
}

/// The generated decode entry point, given what the codec framework's raw
/// decode produced: a decoded value is returned iff the raw decode succeeded
/// and the validator accepts it; a raw-decode failure passes through
/// unchanged; a rejected value becomes a codec-level error carrying the
/// validator's failure.
pub fn decode_from_raw<T: Validator, R>(raw: Result<T, R>) -> (r: Result<
    T,
    DecodeError<R, T::Error>,
>)
    ensures
        r is Ok <==> (raw matches Ok(v) && v.valid()),
        raw matches Ok(v) ==> ((v.valid() ==> (r matches Ok(out) && out == v)) && (!v.valid()
            ==> (r matches Err(de) && de == DecodeError::<R, T::Error>::Invalid(v.failure())))),
        raw matches Err(e) ==> (r matches Err(de) && de == DecodeError::<R, T::Error>::Codec(e)),
{
    match raw {
        Err(e) => Err(DecodeError::Codec(e)),
        Ok(v) => match v.validate() {
            Ok(_) => Ok(v),
            Err(e) => Err(DecodeError::Invalid(e)),
        },
    }
}

/// The generated decode entry point on the default error path: a rejected
/// value becomes a codec-level error whose displayed text equals the
/// validator's failure text.
pub fn decode_from_raw_default<T, R>(raw: Result<T, R>) -> (r: Result<
    T,
    DecodeError<R, DefaultError>,
>) where T: Validator, T::Error: ErrorMessage
    ensures
        r is Ok <==> (raw matches Ok(v) && v.valid()),
        raw matches Ok(v) ==> ((v.valid() ==> (r matches Ok(out) && out == v)) && (!v.valid()
            ==> (r matches Err(de) && de matches DecodeError::Invalid(msg) && msg@
            == v.failure().message_spec()))),
        raw matches Err(e) ==> (r matches Err(de) && de == DecodeError::<R, DefaultError>::Codec(
            e,
        )),
{
    match raw {
        Err(e) => Err(DecodeError::Codec(e)),
        Ok(v) => match v.validate() {
            Ok(_) => Ok(v),
            Err(e) => Err(DecodeError::Invalid(default_error(e))),
        },
    }
}

/// The validating encode's gate: the validator runs on the value first, and
/// only a value it accepts may be handed on to the codec framework's encode
/// — on failure the caller aborts with the failure value before any output
/// is produced.
pub fn encode_gate<T: Validator>(value: &T) -> (r: Result<(), T::Error>)
    ensures
        r is Ok <==> value.valid(),
        r matches Err(e) ==> e == value.failure(),
{
    value.validate()
}

} // verus!

//! Example validated types: the shapes a consuming declaration takes, with
//! their validators, exercising the validation gate on the explicit-error
//! path, the default-error path, and under generic parameters.

use vstd::prelude::*;

verus! {

use crate::Validator;

/// A value whose text the validator can inspect — the capability a generic
/// field type must offer for a validator that reads it.
pub trait Text {
    /// The text as a mathematical sequence of characters.
    spec fn text_spec(&self) -> Seq<char>;

    /// Render the text.
    fn text(&self) -> (r: String)
        ensures
            r@ == self.text_spec(),
    ;
}

impl Text for String {
    open spec fn text_spec(&self) -> Seq<char> {
        self@
    }

    fn text(&self) -> (r: String) {
        self.clone()
    }
}

/// A user record validated on the default error path: its name must not be
/// empty.
#[derive(Debug, Clone, PartialEq)]
pub struct VUser {
    pub name: String,
    pub age: usize,
}

impl Validator for VUser {
    type Error = &'static str;

    open spec fn valid(&self) -> bool {
        self.name@.len() != 0
    }

    open spec fn failure(&self) -> &'static str {
        "`name` must not be empty"
    }

    fn validate(&self) -> (r: Result<(), &'static str>) {
        if self.name.as_str().is_empty() {
            Err("`name` must not be empty")
        } else {
            Ok(())
        }
    }
}

/// A user record with an explicit error type: the validator's failure value
/// is used as the conversion's error as-is.
#[derive(Debug, Clone, PartialEq)]
pub struct EUser {
    pub name: String,
    pub age: usize,
}

impl Validator for EUser {
    type Error = &'static str;

    open spec fn valid(&self) -> bool {
        self.name@.len() != 0
    }

    open spec fn failure(&self) -> &'static str {
        "`name` must not be empty"
    }

    fn validate(&self) -> (r: Result<(), &'static str>) {
        if self.name.as_str().is_empty() {
            Err("`name` must not be empty")
        } else {
            Ok(())
        }
    }
}

/// A user record with generic field types: the same validator, written once,
/// applies at every instantiation.
#[derive(Debug, Clone, PartialEq)]
pub struct GUser<Name, Age> {
    pub name: Name,
    pub age: Age,
    pub nickname: Option<String>,
}

impl<Name: Text, Age> Validator for GUser<Name, Age> {
    type Error = &'static str;

    open spec fn valid(&self) -> bool {
        self.name.text_spec().len() != 0
    }

    open spec fn failure(&self) -> &'static str {
        "`name` must not be empty"
    }

    fn validate(&self) -> (r: Result<(), &'static str>) {
        let n = self.name.text();
        if n.as_str().is_empty() {
            Err("`name` must not be empty")
        } else {
            Ok(())
        }
    }
}

} // verus!

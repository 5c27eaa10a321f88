//! Typed, inspectable failures: building a request and decoding a
//! response each fail with a value that names what went wrong.

use vstd::prelude::*;

verus! {

/// A required field was never supplied before the builder was finalized.
#[derive(Debug)]
pub enum BuildError {
    UninitializedField(String),
}

/// Spec-level shape of a `BuildError`.
pub enum BuildErrorV {
    UninitializedField(Seq<char>),
}

impl View for BuildError {
    type V = BuildErrorV;

    open spec fn view(&self) -> BuildErrorV {
        match self {
            BuildError::UninitializedField(f) => BuildErrorV::UninitializedField(f@),
        }
    }
}

impl BuildError {
    /// The name of the field that was missing.
    pub fn field_name(&self) -> (r: &str)
        ensures
            BuildErrorV::UninitializedField(r@) == self@,
    {
        match self {
            BuildError::UninitializedField(f) => f.as_str(),
        }
    }
}

/// Why a response body was rejected. An unrecognized token of a closed
/// enum family is reported apart from any other malformed shape, and
/// names both the field and the token.
#[derive(Debug)]
pub enum DecodeError {
    /// A required member is absent from the body.
    MissingField(String),
    /// A member is present but carries the wrong JSON shape.
    Malformed(String),
    /// A closed enum family met a token outside its defined set.
    UnknownToken { field: String, token: String },
}

/// Spec-level shape of a `DecodeError`.
#[verifier::ext_equal]
pub enum DecodeErrorV {
    MissingField(Seq<char>),
    Malformed(Seq<char>),
    UnknownToken { field: Seq<char>, token: Seq<char> },
}

impl View for DecodeError {
    type V = DecodeErrorV;

    open spec fn view(&self) -> DecodeErrorV {
        match self {
            DecodeError::MissingField(f) => DecodeErrorV::MissingField(f@),
            DecodeError::Malformed(f) => DecodeErrorV::Malformed(f@),
            DecodeError::UnknownToken { field, token } => DecodeErrorV::UnknownToken {
                field: field@,
                token: token@,
            },
        }
    }
}

} // verus!

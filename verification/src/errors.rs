//! The failure taxonomy of the interpreter.

use vstd::prelude::*;
use crate::source_range::SourceRange;

verus! {

/// The payload every error carries: a message and the source ranges of the
/// syntax that triggered it.
#[derive(Debug, Clone, PartialEq, Eq)]
pub struct KclErrorDetails {
    /// The error message.
    pub message: String,
    /// The source ranges of the offending syntax.
    pub source_ranges: Vec<SourceRange>,
}

/// An interpreter error, classified by kind.
#[derive(Debug, Clone, PartialEq, Eq)]
pub enum KclError {
    /// Call arity, undefined callee names, malformed returns, pipeline
    /// substitution in an illegal position, calling a non-callable.
    Semantic(KclErrorDetails),
    /// Deserialization failure, a missing segment name, an empty sketch
    /// group where one is required.
    Type(KclErrorDetails),
    /// Re-binding an existing name.
    ValueAlreadyDefined(KclErrorDetails),
    /// Reading an unbound name.
    UndefinedValue(KclErrorDetails),
    /// A failure reported by the engine transport.
    Engine(KclErrorDetails),
}

impl KclError {
    /// The payload of the error, whatever its kind.
    pub open spec fn spec_details(&self) -> KclErrorDetails {
        match self {
            KclError::Semantic(d) => *d,
            KclError::Type(d) => *d,
            KclError::ValueAlreadyDefined(d) => *d,
            KclError::UndefinedValue(d) => *d,
            KclError::Engine(d) => *d,
        }
    }

    /// The payload of the error, whatever its kind.
    pub fn details(&self) -> (r: &KclErrorDetails)
        ensures
            *r == self.spec_details(),
    {
        match self {
            KclError::Semantic(d) => d,
            KclError::Type(d) => d,
            KclError::ValueAlreadyDefined(d) => d,
            KclError::UndefinedValue(d) => d,
            KclError::Engine(d) => d,
        }
    }

    /// The message of the error.
    pub fn message(&self) -> (r: &String)
        ensures
            *r == self.spec_details().message,
    {
        &self.details().message
    }
}

} // verus!

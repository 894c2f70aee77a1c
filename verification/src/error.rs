//! Error values surfaced by configuration resolution.
//!
//! Every failure carries enough context (configuration label, field
//! path, span when available) to render a diagnostic that points at
//! the offending source location.

use vstd::prelude::*;
use crate::span::Span;

verus! {

/// A deserialization failure reported against the original text: the
/// labelled content it came from, the dotted field path the decoder
/// reached, the decoder's message, and an optional zero-length span
/// pinpointing the offending offset.
#[derive(Clone, Debug, PartialEq, Eq)]
pub struct ParserError {
    /// Label naming where the content came from (a path, a URL, or a
    /// source kind such as `code`).
    pub name: String,
    /// The raw text that was being parsed.
    pub content: String,
    /// Dotted path of the field on which deserialization failed;
    /// empty when the failure is not tied to a field.
    pub path: String,
    /// The decoder's own message.
    pub error: String,
    /// Byte location of the failure inside `content`, when the
    /// decoder reported one.
    pub span: Option<Span>,
}

/// A failure inside a user-supplied handler (a default provider, a
/// merge function, or an environment-variable parser).
#[derive(Clone, Debug, PartialEq, Eq)]
pub struct HandlerError(pub String);

/// One step of a field path: a named field or an index into a list.
#[derive(Clone, Debug, PartialEq, Eq)]
pub enum PathSegment {
    Key(String),
    Index(usize),
}

/// A single path-qualified validation failure.
#[derive(Clone, Debug, PartialEq, Eq)]
pub struct ValidateError {
    /// Path from the schema root to the failing leaf.
    pub path: Vec<PathSegment>,
    /// What was wrong with the value at that path.
    pub message: String,
}

/// The collected validation failures of one configuration: every
/// failing leaf is reported, not only the first.
#[derive(Clone, Debug, PartialEq, Eq)]
pub struct ValidatorError {
    pub errors: Vec<ValidateError>,
    /// Path of the configuration node that was validated.
    pub path: Vec<PathSegment>,
}

/// Any failure of a configuration resolution.
#[derive(Clone, Debug, PartialEq, Eq)]
pub enum ConfigError {
    /// A code source could not be constructed from the given value.
    InvalidCode,
    /// A file source could not be constructed from the given value.
    InvalidFile,
    /// A URL source could not be constructed from the given value.
    InvalidUrl,
    /// A URL source did not use the secure transport scheme.
    HttpsOnly,
    /// A relative file path was extended from a parent source that is
    /// not itself a file.
    ExtendsFromParentFileOnly,
    /// A file source points at a file that does not exist.
    MissingFile(String),
    /// A user-supplied default provider failed with the given message.
    InvalidDefault(String),
    /// A user-supplied handler failed.
    Handler(HandlerError),
    /// Parsing a source's content failed; the label names the owning
    /// configuration.
    Parser { config: String, error: ParserError },
    /// Validation of the finalized configuration failed.
    Validator { config: String, error: ValidatorError },
}

} // verus!

//! The shared parsing boundary: raw deserializer failures, their
//! conversion into located [`ParserError`] diagnostics, and format
//! selection.
//!
//! All formats parse into one generic value shape and report failures
//! through one error model: a dotted field path, the decoder's
//! message, and — when the decoder reports a location — a zero-length
//! span at the failing offset of the original text.

use serde::de::IntoDeserializer;
use vstd::prelude::*;
use crate::error::ParserError;
use crate::source::label_spec;
use crate::source::Source;
use crate::span::create_span;
use crate::span::location_offset;
use crate::span::Span;
use crate::strutil::ends_with_spec;
use crate::strutil::str_ends_with;
use vstd::string::StringSliceAdditionalSpecFns;

verus! {

/// The generic JSON value tree of the serde_json crate; every format
/// decodes into it.
#[verifier::external_type_specification]
#[verifier::external_body]
pub struct ExJsonValue(serde_json::Value);

/// The YAML value tree of the serde_yaml crate, used for the first
/// parsing pass before merge keys are resolved.
#[verifier::external_type_specification]
#[verifier::external_body]
pub struct ExYamlValue(serde_yaml::Value);

/// Where a decoder reported its failure, as the decoder gave it.
#[derive(Clone, Copy, Debug, PartialEq, Eq, Structural)]
pub enum RawLocation {
    /// The decoder reported no location.
    Unlocated,
    /// A one-based line and column in the source text.
    LineColumn(usize, usize),
    /// A byte offset into the source text.
    ByteOffset(usize),
}

/// A decoder failure before it is tied to a source: the dotted field
/// path the decoder reached, its message, and where it stopped.
#[derive(Debug, PartialEq, Eq)]
pub struct RawParseError {
    pub path: String,
    pub message: String,
    pub location: RawLocation,
}

/// Whether a text parses as JSON; a function of the text alone.
pub uninterp spec fn json_parse_ok(text: Seq<char>) -> bool;

/// Whether a text parses as TOML; a function of the text alone.
pub uninterp spec fn toml_parse_ok(text: Seq<char>) -> bool;

/// Whether a text parses as YAML into a generic value tree; a
/// function of the text alone.
pub uninterp spec fn yaml_parse_ok(text: Seq<char>) -> bool;

/// Relies on serde_json::Deserializer::from_str and
/// serde_path_to_error::deserialize: parsing succeeds on exactly the
/// texts that parse as JSON, and a failure carries the dotted field
/// path the decoder reached, its message, and its one-based
/// line/column location.
#[verifier::external_body]
pub(crate) fn json_from_str(content: &str) -> (r: Result<serde_json::Value, RawParseError>)
    ensures
        (r is Ok) == json_parse_ok(content@),
{
    let de = &mut serde_json::Deserializer::from_str(content);
    serde_path_to_error::deserialize(de).map_err(|error| RawParseError {
        path: error.path().to_string(),
        message: error.inner().to_string(),
        location: RawLocation::LineColumn(error.inner().line(), error.inner().column()),
    })
}

/// Relies on toml::Deserializer::new and
/// serde_path_to_error::deserialize: parsing succeeds on exactly the
/// texts that parse as TOML, and a failure carries the dotted field
/// path, the decoder's message, and the start of the reported byte
/// span when the decoder reports one.
#[verifier::external_body]
pub(crate) fn toml_from_str(content: &str) -> (r: Result<serde_json::Value, RawParseError>)
    ensures
        (r is Ok) == toml_parse_ok(content@),
{
    let de = toml::Deserializer::new(content);
    serde_path_to_error::deserialize(de).map_err(|error| RawParseError {
        path: error.path().to_string(),
        message: error.inner().message().to_owned(),
        location: match error.inner().span() {
            Some(span) => RawLocation::ByteOffset(span.start),
            None => RawLocation::Unlocated,
        },
    })
}

/// Relies on serde_yaml::Deserializer::from_str and
/// serde_path_to_error::deserialize: the first YAML pass succeeds on
/// exactly the texts that parse as YAML, and a failure carries the
/// dotted field path, the message, and a one-based line/column
/// location when the decoder reports one.
#[verifier::external_body]
pub(crate) fn yaml_value_from_str(content: &str) -> (r: Result<serde_yaml::Value, RawParseError>)
    ensures
        (r is Ok) == yaml_parse_ok(content@),
{
    let de = serde_yaml::Deserializer::from_str(content);
    serde_path_to_error::deserialize(de).map_err(|error| RawParseError {
        path: error.path().to_string(),
        message: error.inner().to_string(),
        location: match error.inner().location() {
            Some(loc) => RawLocation::LineColumn(loc.line(), loc.column()),
            None => RawLocation::Unlocated,
        },
    })
}

/// Relies on serde_yaml::Value::apply_merge: resolves alias, anchor
/// and merge-key directives inside the value tree in place; a failure
/// carries an empty field path and the merge failure's location when
/// one is reported.
#[verifier::external_body]
pub(crate) fn yaml_apply_merge(value: &mut serde_yaml::Value) -> (r: Result<(), RawParseError>)
    ensures
        r matches Err(e) ==> e.path@.len() == 0,
{
    value.apply_merge().map_err(|error| RawParseError {
        path: String::new(),
        message: error.to_string(),
        location: match error.location() {
            Some(loc) => RawLocation::LineColumn(loc.line(), loc.column()),
            None => RawLocation::Unlocated,
        },
    })
}

/// Relies on serde_yaml::Value::into_deserializer and
/// serde_path_to_error::deserialize: the second YAML pass decodes the
/// resolved value tree into the generic value shape; a failure
/// carries the dotted field path, the message, and a location when
/// the decoder reports one.
#[verifier::external_body]
pub(crate) fn yaml_to_value(value: serde_yaml::Value) -> (r: Result<
    serde_json::Value,
    RawParseError,
>) {
    let de = value.into_deserializer();
    serde_path_to_error::deserialize(de).map_err(|error| RawParseError {
        path: error.path().to_string(),
        message: error.inner().to_string(),
        location: match error.inner().location() {
            Some(loc) => RawLocation::LineColumn(loc.line(), loc.column()),
            None => RawLocation::Unlocated,
        },
    })
}

/// Whether a parser error correctly renders a raw decoder failure in
/// `content` coming from `source`: the label and text are carried
/// over, the path and message are the decoder's, and the span — when
/// the decoder gave a location — is a zero-length span at that
/// location's byte offset.
pub open spec fn renders_raw(
    e: ParserError,
    content: Seq<char>,
    content_bytes: Seq<u8>,
    source: crate::source::SourceView,
    raw: RawParseError,
) -> bool {
    &&& e.name@ == label_spec(source)
    &&& e.content@ == content
    &&& e.path@ == raw.path@
    &&& e.error@ == raw.message@
    &&& (match raw.location {
        RawLocation::Unlocated => e.span is None,
        RawLocation::LineColumn(line, column) => e.span matches Some(sp) && sp.length == 0
            && sp.offset == location_offset(content_bytes, line as nat, column as nat),
        RawLocation::ByteOffset(offset) => e.span matches Some(sp) && sp.length == 0 && sp.offset
            == offset,
    })
}

/// Ties a raw decoder failure to the source it came from, deriving a
/// zero-length span from the reported location.
pub(crate) fn make_parser_error(content: &str, source: &Source, raw: RawParseError) -> (e:
    ParserError)
    ensures
        renders_raw(e, content@, content.spec_bytes(), source@, raw),
{
    let span: Option<Span> = match raw.location {
        RawLocation::Unlocated => None,
        RawLocation::LineColumn(line, column) => Some(create_span(content, line, column)),
        RawLocation::ByteOffset(offset) => Some(Span { offset, length: 0 }),
    };
    ParserError {
        name: source.label(),
        content: content.to_owned(),
        path: raw.path,
        error: raw.message,
        span,
    }
}

/// The configuration file formats accepted; no other format is
/// supported.
#[derive(Clone, Copy, Debug, PartialEq, Eq, Structural)]
pub enum SourceFormat {
    Json,
    Toml,
    Yaml,
}

/// The format a file path selects, by its extension.
pub open spec fn format_of_spec(path: Seq<char>) -> Option<SourceFormat> {
    if ends_with_spec(path, ".json"@) {
        Option::Some(SourceFormat::Json)
    } else if ends_with_spec(path, ".toml"@) {
        Option::Some(SourceFormat::Toml)
    } else if ends_with_spec(path, ".yaml"@) || ends_with_spec(path, ".yml"@) {
        Option::Some(SourceFormat::Yaml)
    } else {
        Option::None
    }
}

/// Selects the format of a file by its extension.
pub fn detect_format(path: &str) -> (r: Option<SourceFormat>)
    ensures
        r == format_of_spec(path@),
{
    if str_ends_with(path, ".json") {
        Some(SourceFormat::Json)
    } else if str_ends_with(path, ".toml") {
        Some(SourceFormat::Toml)
    } else if str_ends_with(path, ".yaml") || str_ends_with(path, ".yml") {
        Some(SourceFormat::Yaml)
    } else {
        None
    }
}

} // verus!

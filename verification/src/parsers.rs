//! One parser per accepted format, unified behind one error model:
//! each parses raw text into the generic value shape, and on failure
//! reports a [`crate::error::ParserError`] qualified with the dotted
//! field path and a zero-length span when the decoder gave a
//! location.

use vstd::prelude::*;
use crate::error::ConfigError;
use crate::error::ParserError;
use crate::parser::json_from_str;
use crate::parser::json_parse_ok;
use crate::parser::make_parser_error;
use crate::parser::toml_from_str;
use crate::parser::toml_parse_ok;
use crate::parser::yaml_apply_merge;
use crate::parser::yaml_parse_ok;
use crate::parser::yaml_to_value;
use crate::parser::yaml_value_from_str;
use crate::parser::SourceFormat;
use crate::source::label_spec;
use crate::source::Source;

verus! {

/// Whether a parser error is a well-formed diagnostic for `content`
/// coming from `source`: label and text carried over, and any span a
/// zero-length point location.
pub open spec fn well_formed_failure(
    e: ParserError,
    content: Seq<char>,
    source: crate::source::SourceView,
) -> bool {
    &&& e.name@ == label_spec(source)
    &&& e.content@ == content
    &&& (e.span matches Some(sp) ==> sp.length == 0)
}

/// The JSON parser: a single deserialization pass.
pub struct JsonParser;

impl JsonParser {
    /// Parses JSON text into the generic value shape; it succeeds on
    /// exactly the texts that parse as JSON.
    pub fn parse(&self, content: &str, source: &Source) -> (r: Result<
        serde_json::Value,
        ParserError,
    >)
        ensures
            (r is Ok) == json_parse_ok(content@),
            r matches Err(e) ==> well_formed_failure(e, content@, source@),
    {
        match json_from_str(content) {
            Ok(value) => Ok(value),
            Err(raw) => Err(make_parser_error(content, source, raw)),
        }
    }
}

/// The TOML parser: a single deserialization pass; the decoder may
/// report no span, in which case the diagnostic simply has none.
pub struct TomlParser;

impl TomlParser {
    /// Parses TOML text into the generic value shape; it succeeds on
    /// exactly the texts that parse as TOML.
    pub fn parse(&self, content: &str, source: &Source) -> (r: Result<
        serde_json::Value,
        ParserError,
    >)
        ensures
            (r is Ok) == toml_parse_ok(content@),
            r matches Err(e) ==> well_formed_failure(e, content@, source@),
    {
        match toml_from_str(content) {
            Ok(value) => Ok(value),
            Err(raw) => Err(make_parser_error(content, source, raw)),
        }
    }
}

/// The YAML parser: two passes.  The first deserializes the text
/// into a raw value tree; aliases, anchors and merge keys are then
/// resolved eagerly; the second pass decodes the resolved tree into
/// the generic value shape.
pub struct YamlParser;

impl YamlParser {
    /// Parses YAML text into the generic value shape.  A text that
    /// does not parse as YAML always fails; a first-pass success can
    /// still fail in merge resolution (that failure carries an empty
    /// field path) or in the second decoding pass.
    pub fn parse(&self, content: &str, source: &Source) -> (r: Result<
        serde_json::Value,
        ParserError,
    >)
        ensures
            r is Ok ==> yaml_parse_ok(content@),
            !yaml_parse_ok(content@) ==> r is Err,
            r matches Err(e) ==> well_formed_failure(e, content@, source@),
    {
        // First pass, convert the text into a raw value tree
        let mut value = match yaml_value_from_str(content) {
            Ok(value) => value,
            Err(raw) => {
                return Err(make_parser_error(content, source, raw));
            },
        };
        // Resolve anchors, aliases and merge keys eagerly
        match yaml_apply_merge(&mut value) {
            Ok(()) => {},
            Err(raw) => {
                let e = make_parser_error(content, source, raw);
                proof {
                    assert(e.path@.len() == 0);
                }
                return Err(e);
            },
        }
        // Second pass, decode the resolved tree
        match yaml_to_value(value) {
            Ok(value) => Ok(value),
            Err(raw) => Err(make_parser_error(content, source, raw)),
        }
    }
}

/// Parses a source's already-loaded content in the given format,
/// wrapping any failure with the owning configuration's label.
pub fn parse_content(
    format: SourceFormat,
    content: &str,
    source: &Source,
    label: &str,
) -> (r: Result<serde_json::Value, ConfigError>)
    ensures
        format == SourceFormat::Json ==> ((r is Ok) == json_parse_ok(content@)),
        format == SourceFormat::Toml ==> ((r is Ok) == toml_parse_ok(content@)),
        format == SourceFormat::Yaml ==> (r is Ok ==> yaml_parse_ok(content@)),
        format == SourceFormat::Yaml ==> (!yaml_parse_ok(content@) ==> r is Err),
        r matches Err(e) ==> e matches ConfigError::Parser { config, error } && config@ == label@
            && well_formed_failure(error, content@, source@),
{
    let result = match format {
        SourceFormat::Json => JsonParser.parse(content, source),
        SourceFormat::Toml => TomlParser.parse(content, source),
        SourceFormat::Yaml => YamlParser.parse(content, source),
    };
    match result {
        Ok(value) => Ok(value),
        Err(error) => Err(ConfigError::Parser { config: label.to_owned(), error }),
    }
}

} // verus!

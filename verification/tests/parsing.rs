use schematic::create_span;
use schematic::error::ConfigError;
use schematic::parser::{detect_format, SourceFormat};
use schematic::parsers::{parse_content, JsonParser, TomlParser, YamlParser};
use schematic::source::Source;

fn code_source() -> Source {
    Source::Code { code: String::new() }
}

#[test]
fn span_locates_line_and_column() {
    let text = "ab\ncd\nef";
    let span = create_span(text, 2, 2);
    assert_eq!(span.offset, 4);
    assert_eq!(span.length, 0);

    let start = create_span(text, 1, 1);
    assert_eq!(start.offset, 0);

    let clamped_column = create_span(text, 1, 99);
    assert_eq!(clamped_column.offset, 3);

    let clamped_line = create_span(text, 99, 1);
    assert_eq!(clamped_line.offset, 8);
}

#[test]
fn json_round_trips_through_reserialization() {
    let text = "{\"host\":\"localhost\",\"port\":8080,\"tags\":[\"a\",\"b\"]}";
    let value = JsonParser.parse(text, &code_source()).unwrap();
    let serialized = serde_json::to_string(&value).unwrap();
    let reparsed: serde_json::Value = serde_json::from_str(&serialized).unwrap();
    assert_eq!(value, reparsed);
}

#[test]
fn toml_round_trips_through_reserialization() {
    let text = "host = \"localhost\"\nport = 8080\n";
    let value = TomlParser.parse(text, &code_source()).unwrap();
    let expected: serde_json::Value =
        serde_json::from_str("{\"host\":\"localhost\",\"port\":8080}").unwrap();
    assert_eq!(value, expected);

    let serialized = serde_json::to_string(&value).unwrap();
    let reparsed: serde_json::Value = serde_json::from_str(&serialized).unwrap();
    assert_eq!(value, reparsed);
}

#[test]
fn yaml_round_trips_through_reserialization() {
    let text = "host: localhost\nport: 8080\ntags:\n  - a\n  - b\n";
    let value = YamlParser.parse(text, &code_source()).unwrap();
    let expected: serde_json::Value =
        serde_json::from_str("{\"host\":\"localhost\",\"port\":8080,\"tags\":[\"a\",\"b\"]}")
            .unwrap();
    assert_eq!(value, expected);
}

#[test]
fn yaml_merge_keys_flatten_into_the_derived_object() {
    let text = "base: &b {x: 1}\nderived:\n  <<: *b\n  y: 2";
    let value = YamlParser.parse(text, &code_source()).unwrap();
    let derived = value.get("derived").unwrap();
    assert_eq!(derived.get("x").unwrap().as_i64(), Some(1));
    assert_eq!(derived.get("y").unwrap().as_i64(), Some(2));
}

#[test]
fn json_failure_reports_zero_length_span() {
    let text = "{\n  \"a\": nope\n}";
    let err = JsonParser.parse(text, &code_source()).unwrap_err();
    assert_eq!(err.name, "code");
    assert_eq!(err.content, text);
    let span = err.span.expect("json failures carry a location");
    assert_eq!(span.length, 0);
    assert!((span.offset as usize) <= text.len());
    assert!(!err.error.is_empty());
}

#[test]
fn json_failure_carries_the_source_label() {
    let source = Source::File { path: String::from("app.json") };
    let bad = "{\"server\": {\"port\": }}";
    let err = JsonParser.parse(bad, &source).unwrap_err();
    assert_eq!(err.name, "app.json");
    assert_eq!(err.content, bad);
    assert!(err.span.is_some());
}

#[test]
fn toml_failure_degrades_gracefully_without_span() {
    let text = "host = \n";
    let err = TomlParser.parse(text, &code_source()).unwrap_err();
    assert!(!err.error.is_empty());
    if let Some(span) = err.span {
        assert_eq!(span.length, 0);
        assert!((span.offset as usize) <= text.len());
    }
}

#[test]
fn yaml_failure_reports_location() {
    let text = "key: [unclosed";
    let err = YamlParser.parse(text, &code_source()).unwrap_err();
    assert!(!err.error.is_empty());
    if let Some(span) = err.span {
        assert_eq!(span.length, 0);
    }
}

#[test]
fn format_detection_by_extension() {
    assert_eq!(detect_format("app.json"), Some(SourceFormat::Json));
    assert_eq!(detect_format("app.toml"), Some(SourceFormat::Toml));
    assert_eq!(detect_format("app.yaml"), Some(SourceFormat::Yaml));
    assert_eq!(detect_format("app.yml"), Some(SourceFormat::Yaml));
    assert_eq!(detect_format("app.ini"), None);
}

#[test]
fn parse_content_wraps_failures_with_the_config_label() {
    let text = "{broken";
    let err = parse_content(SourceFormat::Json, text, &code_source(), "AppConfig").unwrap_err();
    match err {
        ConfigError::Parser { config, error } => {
            assert_eq!(config, "AppConfig");
            assert_eq!(error.content, text);
        },
        other => panic!("expected a parser error, got {:?}", other),
    }
}

#[test]
fn span_on_empty_text_is_at_the_start() {
    let span = create_span("", 3, 5);
    assert_eq!(span.offset, 0);
    assert_eq!(span.length, 0);
}

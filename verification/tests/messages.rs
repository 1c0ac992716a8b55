use archiver_config::{parse_config, ConfigError, Key, ParseError};

#[test]
fn missing_field_is_said_with_its_key() {
    let error = ParseError::MissingField { key: Key::PollInterval, channel: None };
    assert_eq!(error.message(), "missing field `poll_interval`");
}

#[test]
fn channel_position_is_said_in_decimal() {
    let error = ParseError::MissingField { key: Key::Outpath, channel: Some(0) };
    assert_eq!(error.message(), "missing field `outpath` in channel 0");
    let error = ParseError::WrongKind { key: Key::Filters, channel: Some(7) };
    assert_eq!(error.message(), "invalid type for `filters` in channel 7");
    let error = ParseError::WrongKind { key: Key::Channel, channel: Some(1203) };
    assert_eq!(error.message(), "invalid type for `channel` in channel 1203");
    let error = ParseError::MissingField { key: Key::Id, channel: Some(usize::MAX) };
    assert_eq!(error.message(), format!("missing field `id` in channel {}", usize::MAX));
}

#[test]
fn offending_texts_are_said() {
    let error = ParseError::InvalidDuration { key: Key::DelayStart, text: "soon".to_string() };
    assert_eq!(error.message(), "invalid duration for `delay_start`: soon");
    let error = ParseError::InvalidPattern { channel: 10, pattern: "foo(bar".to_string() };
    assert_eq!(error.message(), "invalid pattern in channel 10: foo(bar");
}

#[test]
fn other_failures_are_said() {
    assert_eq!(ParseError::TooDeep.message(), "the text nests too deep");
    assert_eq!(ParseError::NotATable.message(), "the document is no table");
    let error = ParseError::Syntax { message: "expected a value".to_string() };
    assert_eq!(error.message(), "not TOML: expected a value");
}

#[test]
fn syntax_failure_carries_the_words_of_the_parser() {
    let expected = "a = ".parse::<toml::Value>().unwrap_err().to_string();
    match parse_config("a = ") {
        Err(ParseError::Syntax { message }) => assert_eq!(message, expected),
        other => panic!("unexpected result: {:?}", other.err()),
    }
}

#[test]
fn failures_of_the_manager_are_said() {
    let error = ConfigError::ReadFailure("No such file".to_string());
    assert_eq!(error.message(), "failed to read the settings file: No such file");
    let error = ConfigError::WriteFailure("disk full".to_string());
    assert_eq!(error.message(), "failed to write the settings file: disk full");
    let error = ConfigError::ParseFailure(ParseError::MissingField {
        key: Key::Quality,
        channel: None,
    });
    assert_eq!(error.message(), "failed to parse the settings: missing field `quality`");
}

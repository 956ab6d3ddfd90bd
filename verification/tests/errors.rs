use zugzug::error::{decimal_text, parse_error_message};
use zugzug::subscription::Completion;
use zugzug::{ClientError, Transaction};

fn decode_failure(text: &str) -> serde_json::Error {
    serde_json::from_str::<serde_json::Value>(text).expect_err("text is no JSON")
}

fn parse_error(text: &str) -> ClientError {
    let completion: Completion<serde_json::Value> = Completion {
        transaction: Transaction::Subscribe,
        status: 0,
        result: Some(serde_json::from_str::<serde_json::Value>(text)),
    };
    match completion.into_item() {
        Some(Err(e)) => e,
        _ => panic!("an error item was due"),
    }
}

#[test]
fn decimal_text_writes_digits() {
    assert_eq!(decimal_text(0), "0");
    assert_eq!(decimal_text(7), "7");
    assert_eq!(decimal_text(10), "10");
    assert_eq!(decimal_text(409), "409");
    assert_eq!(decimal_text(1234567890), "1234567890");
    assert_eq!(decimal_text(u32::MAX), "4294967295");
}

#[test]
fn fixed_messages() {
    assert_eq!(ClientError::NullPointerError.message(), "PubNub client null pointer error");
    assert_eq!(ClientError::PollError.message(), "PubNub client poll error");
}

#[test]
fn status_message_carries_code() {
    assert_eq!(ClientError::PubNub { code: 7 }.message(), "PubNub client error with code 7");
    assert_eq!(ClientError::PubNub { code: 31 }.message(), "PubNub client error with code 31");
    assert_eq!(
        ClientError::PubNub { code: u32::MAX }.message(),
        "PubNub client error with code 4294967295"
    );
}

#[test]
fn parse_message_delegates_to_decoder() {
    let expected = decode_failure("{").to_string();
    assert_eq!(expected, "EOF while parsing an object at line 1 column 1");
    let error = parse_error("{");
    assert_eq!(
        error.message(),
        "PubNub client parse error: EOF while parsing an object at line 1 column 1"
    );
}

#[test]
fn json_error_message_is_decoders_own() {
    let error = parse_error("[1,]");
    match error.source() {
        Some(cause) => {
            assert_eq!(cause.message(), decode_failure("[1,]").to_string());
            assert_eq!(cause.message(), "trailing comma at line 1 column 4");
            assert_eq!(cause.inner().line(), 1);
            assert_eq!(cause.inner().column(), 4);
        },
        None => panic!("a parse error has a cause"),
    }
}

#[test]
fn only_parse_errors_have_a_source() {
    assert!(ClientError::NullPointerError.source().is_none());
    assert!(ClientError::PollError.source().is_none());
    assert!(ClientError::PubNub { code: 3 }.source().is_none());
    assert!(parse_error("nope").source().is_some());
}

#[test]
fn decode_failures_of_a_text_are_not_io() {
    for text in ["{", "[1,]", "nope", "", "\"abc"] {
        match parse_error(text).source() {
            Some(cause) => assert!(!cause.is_io()),
            None => panic!("a parse error has a cause"),
        }
    }
}

#[test]
fn failed_read_is_told_apart_and_keeps_the_heading() {
    let failed = std::io::Error::new(std::io::ErrorKind::Other, "disk on fire");
    let cause = zugzug::JsonError::new(serde_json::Error::io(failed));
    assert!(cause.is_io());
    assert_eq!(cause.message(), "disk on fire");
    let error = ClientError::ParseError(cause);
    assert!(error.message().starts_with("PubNub client parse error: "));
    assert_eq!(error.message(), "PubNub client parse error: disk on fire");
}

#[test]
fn data_error_message_names_the_mismatch() {
    let failure = serde_json::from_str::<u32>("\"abc\"").expect_err("a string is no number");
    let cause = zugzug::JsonError::new(failure);
    assert!(!cause.is_io());
    assert_eq!(
        cause.message(),
        "invalid type: string \"abc\", expected u32 at line 1 column 5"
    );
}

#[test]
fn parse_error_message_is_heading_then_detail() {
    assert_eq!(parse_error_message("x"), "PubNub client parse error: x");
    assert_eq!(parse_error_message(""), "PubNub client parse error: ");
    assert_eq!(
        parse_error_message("trailing comma at line 1 column 4"),
        "PubNub client parse error: trailing comma at line 1 column 4"
    );
}

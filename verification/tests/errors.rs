use flipt_client::error::{prefixed, EngineError, EngineErrorKind, FliptError};

fn engine_error(kind: EngineErrorKind) -> EngineError {
    EngineError {
        kind,
        message: "the detail".to_string(),
        rendered: "rendered: the detail".to_string(),
    }
}

#[test]
fn an_internal_failure_keeps_its_message() {
    assert_eq!(
        FliptError::from(engine_error(EngineErrorKind::Internal)),
        FliptError::Internal { message: "the detail".to_string() }
    );
}

#[test]
fn malformed_input_is_an_invalid_request_with_the_diagnostic() {
    assert_eq!(
        FliptError::from(engine_error(EngineErrorKind::InvalidJson)),
        FliptError::InvalidRequest { message: "the detail".to_string() }
    );
}

#[test]
fn a_server_failure_is_a_connection_error_without_the_detail() {
    assert_eq!(
        FliptError::from(engine_error(EngineErrorKind::Server)),
        FliptError::ConnectionError { message: "Server connection error".to_string() }
    );
}

#[test]
fn an_unknown_failure_gets_the_fixed_message() {
    assert_eq!(
        FliptError::from(engine_error(EngineErrorKind::Unknown)),
        FliptError::Internal { message: "Unknown error".to_string() }
    );
}

#[test]
fn conversion_by_into_is_the_same_mapping() {
    let error: FliptError = engine_error(EngineErrorKind::Server).into();
    assert_eq!(error, FliptError::ConnectionError { message: "Server connection error".to_string() });
}

#[test]
fn wrapping_puts_the_prefix_before_the_rendering() {
    assert_eq!(
        engine_error(EngineErrorKind::Server).wrap("Flag evaluation failed: "),
        FliptError::Internal { message: "Flag evaluation failed: rendered: the detail".to_string() }
    );
    assert_eq!(
        engine_error(EngineErrorKind::Unknown).wrap(""),
        FliptError::Internal { message: "rendered: the detail".to_string() }
    );
}

#[test]
fn errors_are_displayed_under_their_heading() {
    let message = "m".to_string();
    assert_eq!(FliptError::Internal { message: message.clone() }.to_string(), "Internal error: m");
    assert_eq!(FliptError::UnknownFlag { message: message.clone() }.to_string(), "Unknown flag: m");
    assert_eq!(
        FliptError::InvalidRequest { message: message.clone() }.to_string(),
        "Invalid request: m"
    );
    assert_eq!(
        FliptError::ConnectionError { message }.to_string(),
        "Connection error: m"
    );
}

#[test]
fn an_empty_message_leaves_the_heading() {
    assert_eq!(FliptError::Internal { message: String::new() }.to_string(), "Internal error: ");
}

#[test]
fn prefixed_joins_two_texts() {
    assert_eq!(prefixed("ab", "cd"), "abcd");
    assert_eq!(prefixed("", ""), "");
    assert_eq!(prefixed("é: ", "ü"), "é: ü");
}

use flipt_client::client::FliptClient;
use flipt_client::config::ClientOptions;
use flipt_client::engine::{
    DurationMillis, EngineBooleanResponse, EngineFlag, EngineVariantResponse, EvaluationReason,
    FlagType,
};
use flipt_client::error::{EngineError, EngineErrorKind, FliptError};
use flipt_client::response::{
    format_flag_type, format_reason, BooleanEvaluationResponse, Flag, VariantEvaluationResponse,
};

fn client() -> FliptClient {
    FliptClient::new(ClientOptions {
        environment: None,
        namespace: None,
        url: None,
        update_interval: None,
        reference: None,
        client_token: None,
        fetch_mode: None,
    })
    .expect("the defaults can be written")
}

fn instant(seconds: i64, nanoseconds: u32) -> chrono::NaiveDateTime {
    chrono::DateTime::from_timestamp(seconds, nanoseconds).expect("in range").naive_utc()
}

fn millis(value: f64) -> DurationMillis {
    DurationMillis { bits: value.to_bits() }
}

fn engine_variant() -> EngineVariantResponse {
    EngineVariantResponse {
        is_match: true,
        segment_keys: vec!["beta".to_string(), "staff".to_string(), "alpha".to_string()],
        reason: EvaluationReason::Match,
        flag_key: "checkout-layout".to_string(),
        variant_key: "two-column".to_string(),
        variant_attachment: Some("{\"columns\":2}".to_string()),
        request_duration_millis: millis(1.25),
        timestamp: instant(1_704_164_645, 0),
    }
}

fn engine_boolean() -> EngineBooleanResponse {
    EngineBooleanResponse {
        enabled: true,
        flag_key: "new-ui".to_string(),
        reason: EvaluationReason::Match,
        request_duration_millis: millis(0.5),
        timestamp: instant(1_704_164_645, 0),
    }
}

fn engine_failure() -> EngineError {
    EngineError {
        kind: EngineErrorKind::Internal,
        message: "snapshot missing".to_string(),
        rendered: "internal error: snapshot missing".to_string(),
    }
}

#[test]
fn every_reason_has_its_name() {
    assert_eq!(format_reason(&EvaluationReason::FlagDisabled), "FLAG_DISABLED_EVALUATION_REASON");
    assert_eq!(format_reason(&EvaluationReason::Match), "MATCH_EVALUATION_REASON");
    assert_eq!(format_reason(&EvaluationReason::Default), "DEFAULT_EVALUATION_REASON");
    assert_eq!(format_reason(&EvaluationReason::Unknown), "UNKNOWN_EVALUATION_REASON");
}

#[test]
fn every_flag_type_has_its_name() {
    assert_eq!(format_flag_type(&FlagType::Variant), "VARIANT_FLAG_TYPE");
    assert_eq!(format_flag_type(&FlagType::Boolean), "BOOLEAN_FLAG_TYPE");
}

#[test]
fn variant_answer_is_normalised_field_by_field() {
    let outcome = VariantEvaluationResponse::from_engine(engine_variant());
    assert_eq!(
        outcome,
        VariantEvaluationResponse {
            flag_match: true,
            segment_keys: vec!["beta".to_string(), "staff".to_string(), "alpha".to_string()],
            reason: "MATCH_EVALUATION_REASON".to_string(),
            flag_key: "checkout-layout".to_string(),
            variant_key: "two-column".to_string(),
            variant_attachment: "{\"columns\":2}".to_string(),
            request_duration_millis: millis(1.25),
            timestamp: "2024-01-02T03:04:05+00:00".to_string(),
        }
    );
    assert_eq!(f64::from_bits(outcome.request_duration_millis.bits), 1.25);
}

#[test]
fn a_missing_attachment_becomes_the_empty_text() {
    let mut answer = engine_variant();
    answer.variant_attachment = None;
    answer.is_match = false;
    answer.reason = EvaluationReason::Default;
    let outcome = VariantEvaluationResponse::from_engine(answer);
    assert_eq!(outcome.variant_attachment, "");
    assert!(!outcome.flag_match);
    assert_eq!(outcome.reason, "DEFAULT_EVALUATION_REASON");
}

#[test]
fn assemble_takes_the_timestamp_text_as_given() {
    let outcome = VariantEvaluationResponse::assemble(engine_variant(), "then".to_string());
    assert_eq!(outcome.timestamp, "then");
    assert_eq!(outcome.flag_key, "checkout-layout");
    let outcome = BooleanEvaluationResponse::assemble(engine_boolean(), "now".to_string());
    assert_eq!(outcome.timestamp, "now");
    assert_eq!(outcome.flag_key, "new-ui");
}

#[test]
fn timestamps_are_written_as_rfc_3339() {
    let mut answer = engine_boolean();
    answer.timestamp = instant(0, 0);
    assert_eq!(
        BooleanEvaluationResponse::from_engine(answer).timestamp,
        "1970-01-01T00:00:00+00:00"
    );
    let mut answer = engine_boolean();
    answer.timestamp = instant(1_704_164_645, 123_000_000);
    assert_eq!(
        BooleanEvaluationResponse::from_engine(answer).timestamp,
        "2024-01-02T03:04:05.123+00:00"
    );
    let mut answer = engine_boolean();
    answer.timestamp = instant(-1, 999_999_999);
    assert_eq!(
        BooleanEvaluationResponse::from_engine(answer).timestamp,
        "1969-12-31T23:59:59.999999999+00:00"
    );
}

#[test]
fn boolean_flag_new_ui_for_user_42() {
    let facade = client();
    let request = flipt_client::request::EvaluationRequest {
        flag_key: "new-ui".to_string(),
        entity_id: "user-42".to_string(),
        context: std::collections::HashMap::new(),
    };
    let call = facade.evaluate_boolean(request).expect("the request is complete");
    let forwarded = match call {
        flipt_client::client::EngineCall::Boolean(forwarded) => forwarded,
        other => panic!("a boolean call was expected, not {:?}", other),
    };
    let answer = EngineBooleanResponse {
        enabled: true,
        flag_key: forwarded.flag_key,
        reason: EvaluationReason::Match,
        request_duration_millis: millis(0.5),
        timestamp: instant(1_704_164_645, 0),
    };
    let outcome = facade.boolean_response(Ok(answer)).expect("the engine answered");
    assert_eq!(
        outcome,
        BooleanEvaluationResponse {
            enabled: true,
            flag_key: "new-ui".to_string(),
            reason: "MATCH_EVALUATION_REASON".to_string(),
            request_duration_millis: millis(0.5),
            timestamp: "2024-01-02T03:04:05+00:00".to_string(),
        }
    );
}

#[test]
fn a_disabled_boolean_flag_is_reported_as_such() {
    let mut answer = engine_boolean();
    answer.enabled = false;
    answer.reason = EvaluationReason::FlagDisabled;
    let outcome = client().boolean_response(Ok(answer)).expect("the engine answered");
    assert!(!outcome.enabled);
    assert_eq!(outcome.reason, "FLAG_DISABLED_EVALUATION_REASON");
}

#[test]
fn variant_response_normalises_the_answer() {
    let outcome = client().variant_response(Ok(engine_variant())).expect("the engine answered");
    assert_eq!(outcome, VariantEvaluationResponse::from_engine(engine_variant()));
    assert_eq!(outcome.timestamp, "2024-01-02T03:04:05+00:00");
}

#[test]
fn a_failed_variant_evaluation_is_an_internal_error() {
    assert_eq!(
        client().variant_response(Err(engine_failure())),
        Err(FliptError::Internal {
            message: "Flag evaluation failed: internal error: snapshot missing".to_string()
        })
    );
}

#[test]
fn a_failed_boolean_evaluation_is_an_internal_error() {
    assert_eq!(
        client().boolean_response(Err(engine_failure())),
        Err(FliptError::Internal {
            message: "Boolean evaluation failed: internal error: snapshot missing".to_string()
        })
    );
}

#[test]
fn listed_flags_keep_their_order_and_fields() {
    let listed = vec![
        EngineFlag {
            key: "zeta".to_string(),
            enabled: true,
            kind: FlagType::Variant,
            description: Some("last letter".to_string()),
        },
        EngineFlag {
            key: "alpha".to_string(),
            enabled: false,
            kind: FlagType::Boolean,
            description: None,
        },
        EngineFlag {
            key: "mid".to_string(),
            enabled: true,
            kind: FlagType::Boolean,
            description: Some(String::new()),
        },
    ];
    let flags = client().flags_response(Ok(listed)).expect("the engine answered");
    assert_eq!(
        flags,
        vec![
            Flag {
                key: "zeta".to_string(),
                enabled: true,
                flag_type: "VARIANT_FLAG_TYPE".to_string(),
                description: Some("last letter".to_string()),
            },
            Flag {
                key: "alpha".to_string(),
                enabled: false,
                flag_type: "BOOLEAN_FLAG_TYPE".to_string(),
                description: None,
            },
            Flag {
                key: "mid".to_string(),
                enabled: true,
                flag_type: "BOOLEAN_FLAG_TYPE".to_string(),
                description: Some(String::new()),
            },
        ]
    );
}

#[test]
fn an_empty_listing_gives_no_flags() {
    assert_eq!(client().flags_response(Ok(Vec::new())), Ok(Vec::new()));
}

#[test]
fn a_failed_listing_is_mapped_by_the_kind_of_the_failure() {
    let failure = |kind: EngineErrorKind| EngineError {
        kind,
        message: "snapshot missing".to_string(),
        rendered: "rendered: snapshot missing".to_string(),
    };
    assert_eq!(
        client().flags_response(Err(failure(EngineErrorKind::Internal))),
        Err(FliptError::Internal { message: "snapshot missing".to_string() })
    );
    assert_eq!(
        client().flags_response(Err(failure(EngineErrorKind::InvalidJson))),
        Err(FliptError::InvalidRequest { message: "snapshot missing".to_string() })
    );
    assert_eq!(
        client().flags_response(Err(failure(EngineErrorKind::Server))),
        Err(FliptError::ConnectionError { message: "Server connection error".to_string() })
    );
    assert_eq!(
        client().flags_response(Err(failure(EngineErrorKind::Unknown))),
        Err(FliptError::Internal { message: "Unknown error".to_string() })
    );
}

#[test]
fn a_single_flag_is_normalised() {
    let flag = Flag::from_engine(EngineFlag {
        key: "k".to_string(),
        enabled: true,
        kind: FlagType::Variant,
        description: None,
    });
    assert_eq!(flag.flag_type, "VARIANT_FLAG_TYPE");
    assert_eq!(flag.key, "k");
    assert!(flag.enabled);
    assert_eq!(flag.description, None);
}

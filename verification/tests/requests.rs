use flipt_client::client::{EngineCall, FliptClient};
use flipt_client::config::ClientOptions;
use flipt_client::error::FliptError;
use flipt_client::request::EvaluationRequest;
use std::collections::HashMap;

fn client() -> FliptClient {
    FliptClient::new(ClientOptions {
        environment: None,
        namespace: None,
        url: None,
        update_interval: None,
        reference: None,
        client_token: None,
        fetch_mode: None,
    })
    .expect("the defaults can be written")
}

fn request(flag_key: &str, entity_id: &str) -> EvaluationRequest {
    let mut context = HashMap::new();
    context.insert("plan".to_string(), "pro".to_string());
    EvaluationRequest { flag_key: flag_key.to_string(), entity_id: entity_id.to_string(), context }
}

fn flag_key_missing() -> FliptError {
    FliptError::InvalidRequest { message: "Flag key cannot be empty".to_string() }
}

fn entity_id_missing() -> FliptError {
    FliptError::InvalidRequest { message: "Entity ID cannot be empty".to_string() }
}

#[test]
fn a_complete_request_is_valid() {
    assert_eq!(request("new-ui", "user-42").validate(), Ok(()));
}

#[test]
fn an_empty_flag_key_is_invalid() {
    assert_eq!(request("", "user-42").validate(), Err(flag_key_missing()));
}

#[test]
fn an_empty_entity_id_is_invalid() {
    assert_eq!(request("new-ui", "").validate(), Err(entity_id_missing()));
}

#[test]
fn an_empty_flag_key_is_reported_first() {
    assert_eq!(request("", "").validate(), Err(flag_key_missing()));
}

#[test]
fn a_blank_field_is_not_empty() {
    assert_eq!(request(" ", " ").validate(), Ok(()));
}

#[test]
fn variant_evaluation_forwards_a_complete_request_unchanged() {
    let call = client().evaluate_variant(request("new-ui", "user-42"));
    assert_eq!(call, Ok(EngineCall::Variant(request("new-ui", "user-42"))));
}

#[test]
fn boolean_evaluation_forwards_a_complete_request_unchanged() {
    let call = client().evaluate_boolean(request("new-ui", "user-42"));
    assert_eq!(call, Ok(EngineCall::Boolean(request("new-ui", "user-42"))));
}

#[test]
fn variant_evaluation_asks_nothing_for_an_incomplete_request() {
    assert_eq!(client().evaluate_variant(request("", "user-42")), Err(flag_key_missing()));
    assert_eq!(client().evaluate_variant(request("new-ui", "")), Err(entity_id_missing()));
    assert_eq!(client().evaluate_variant(request("", "")), Err(flag_key_missing()));
}

#[test]
fn boolean_evaluation_asks_nothing_for_an_incomplete_request() {
    assert_eq!(client().evaluate_boolean(request("", "user-42")), Err(flag_key_missing()));
    assert_eq!(client().evaluate_boolean(request("new-ui", "")), Err(entity_id_missing()));
    assert_eq!(client().evaluate_boolean(request("", "")), Err(flag_key_missing()));
}

#[test]
fn engine_calls_are_counted_only_for_complete_requests() {
    let facade = client();
    let mut calls = 0;
    for (flag_key, entity_id) in [("", "u"), ("f", ""), ("", ""), ("f", "u")] {
        if facade.evaluate_variant(request(flag_key, entity_id)).is_ok() {
            calls += 1;
        }
        if facade.evaluate_boolean(request(flag_key, entity_id)).is_ok() {
            calls += 1;
        }
    }
    assert_eq!(calls, 2);
}

#[test]
fn batch_evaluation_forwards_every_request_unchecked_and_in_order() {
    let requests = vec![request("a", "1"), request("", ""), request("c", "3")];
    let call = client().evaluate_batch(requests);
    assert_eq!(
        call,
        EngineCall::Batch(vec![request("a", "1"), request("", ""), request("c", "3")])
    );
}

#[test]
fn an_empty_batch_is_forwarded() {
    assert_eq!(client().evaluate_batch(Vec::new()), EngineCall::Batch(Vec::new()));
}

#[test]
fn listing_asks_for_the_flags() {
    assert_eq!(client().list_flags(), EngineCall::ListFlags);
}

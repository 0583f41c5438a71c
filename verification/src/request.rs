//! Evaluation requests and the check that they pass before the engine is
//! asked.
use crate::error::{FliptError, FliptErrorView};
use std::collections::HashMap;
use vstd::prelude::*;

verus! {

/// A request to evaluate one flag for one entity.
#[derive(Clone, Debug, PartialEq)]
pub struct EvaluationRequest {
    pub flag_key: String,
    pub entity_id: String,
    pub context: HashMap<String, String>,
}

/// The mathematical value of an [`EvaluationRequest`]. The context is
/// handed on as it is.
pub struct EvaluationRequestView {
    pub flag_key: Seq<char>,
    pub entity_id: Seq<char>,
    pub context: HashMap<String, String>,
}

impl View for EvaluationRequest {
    type V = EvaluationRequestView;

    open spec fn view(&self) -> EvaluationRequestView {
        EvaluationRequestView {
            flag_key: self.flag_key@,
            entity_id: self.entity_id@,
            context: self.context,
        }
    }
}

impl EvaluationRequestView {
    /// Whether the request may be forwarded: neither the flag key nor the
    /// entity id is empty.
    pub open spec fn complete(self) -> bool {
        self.flag_key.len() > 0 && self.entity_id.len() > 0
    }

    /// The error with which an incomplete request is turned away. An empty
    /// flag key is reported before an empty entity id.
    pub open spec fn rejection(self) -> FliptErrorView {
        if self.flag_key.len() == 0 {
            FliptErrorView::InvalidRequest { message: "Flag key cannot be empty"@ }
        } else {
            FliptErrorView::InvalidRequest { message: "Entity ID cannot be empty"@ }
        }
    }
}

impl EvaluationRequest {
    /// Checks the request: `Ok` exactly when it is complete, and else the
    /// error that says which field is empty.
    pub fn validate(&self) -> (result: Result<(), FliptError>)
        ensures
            result is Ok <==> self@.complete(),
            result matches Err(error) ==> error@ == self@.rejection() && error@ is InvalidRequest,
    {
        if self.flag_key.as_str().is_empty() {
            return Err(
                FliptError::InvalidRequest { message: "Flag key cannot be empty".to_string() },
            );
        }
        if self.entity_id.as_str().is_empty() {
            return Err(
                FliptError::InvalidRequest { message: "Entity ID cannot be empty".to_string() },
            );
        }
        Ok(())
    }
}

/// A request with an empty flag key or an empty entity id is not complete,
/// and the error that turns it away is an invalid-request error.
pub proof fn lemma_incomplete_request_is_rejected(request: EvaluationRequestView)
    requires
        request.flag_key.len() == 0 || request.entity_id.len() == 0,
    ensures
        !request.complete(),
        request.rejection() is InvalidRequest,
{
}

} // verus!

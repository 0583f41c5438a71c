//! Batch outcomes: each entry of the engine's answer becomes one tagged
//! outcome, in the same place.
use crate::engine::{
    DurationMillis, EngineBatchResponse, EngineBatchView, EngineBooleanResponse,
    EngineBooleanView, EngineErrorResponse, EngineErrorResponseView, EngineResponse,
    EngineResponseView, EngineVariantResponse, EngineVariantView, ResponseType,
};
use crate::request::EvaluationRequest;
use crate::response::{
    normalized_boolean, normalized_variant, BooleanEvaluationResponse, BooleanEvaluationView,
    ErrorEvaluationResponse, ErrorEvaluationView, VariantEvaluationResponse,
    VariantEvaluationView,
};
use crate::time::rfc3339_text;
use vstd::prelude::*;

verus! {

/// One entry of the engine's batch answer, read by its declared kind: the
/// payload of that kind, or `Malformed` where the engine left it out.
#[derive(Debug, PartialEq)]
pub enum SubResult {
    Variant(EngineVariantResponse),
    Boolean(EngineBooleanResponse),
    Error(EngineErrorResponse),
    Malformed,
}

/// The mathematical value of a [`SubResult`].
pub enum SubResultView {
    Variant(EngineVariantView),
    Boolean(EngineBooleanView),
    Error(EngineErrorResponseView),
    Malformed,
}

impl View for SubResult {
    type V = SubResultView;

    open spec fn view(&self) -> SubResultView {
        match *self {
            SubResult::Variant(payload) => SubResultView::Variant(payload@),
            SubResult::Boolean(payload) => SubResultView::Boolean(payload@),
            SubResult::Error(payload) => SubResultView::Error(payload@),
            SubResult::Malformed => SubResultView::Malformed,
        }
    }
}

impl EngineResponseView {
    /// The entry read by its declared kind. Payloads of other kinds are
    /// not looked at.
    pub open spec fn classified(self) -> SubResultView {
        match self.kind {
            ResponseType::Variant => match self.variant_evaluation_response {
                Some(payload) => SubResultView::Variant(payload),
                None => SubResultView::Malformed,
            },
            ResponseType::Boolean => match self.boolean_evaluation_response {
                Some(payload) => SubResultView::Boolean(payload),
                None => SubResultView::Malformed,
            },
            ResponseType::Error => match self.error_evaluation_response {
                Some(payload) => SubResultView::Error(payload),
                None => SubResultView::Malformed,
            },
        }
    }
}

impl EngineResponse {
    /// Reads the entry by its declared kind.
    pub fn classify(self) -> (out: SubResult)
        ensures
            out@ == self@.classified(),
    {
        match self.kind {
            ResponseType::Variant => match self.variant_evaluation_response {
                Some(payload) => SubResult::Variant(payload),
                None => SubResult::Malformed,
            },
            ResponseType::Boolean => match self.boolean_evaluation_response {
                Some(payload) => SubResult::Boolean(payload),
                None => SubResult::Malformed,
            },
            ResponseType::Error => match self.error_evaluation_response {
                Some(payload) => SubResult::Error(payload),
                None => SubResult::Malformed,
            },
        }
    }
}

/// One entry of a batch outcome: a tag, and the payload that the tag
/// names.
#[derive(Debug, PartialEq)]
pub struct EvaluationResponse {
    pub response_type: String,
    pub boolean_evaluation_response: Option<BooleanEvaluationResponse>,
    pub variant_evaluation_response: Option<VariantEvaluationResponse>,
    pub error_evaluation_response: Option<ErrorEvaluationResponse>,
}

/// The mathematical value of an [`EvaluationResponse`].
pub struct EvaluationResponseView {
    pub response_type: Seq<char>,
    pub boolean_evaluation_response: Option<BooleanEvaluationView>,
    pub variant_evaluation_response: Option<VariantEvaluationView>,
    pub error_evaluation_response: Option<ErrorEvaluationView>,
}

impl View for EvaluationResponse {
    type V = EvaluationResponseView;

    open spec fn view(&self) -> EvaluationResponseView {
        EvaluationResponseView {
            response_type: self.response_type@,
            boolean_evaluation_response: match self.boolean_evaluation_response {
                Some(payload) => Some(payload@),
                None => None,
            },
            variant_evaluation_response: match self.variant_evaluation_response {
                Some(payload) => Some(payload@),
                None => None,
            },
            error_evaluation_response: match self.error_evaluation_response {
                Some(payload) => Some(payload@),
                None => None,
            },
        }
    }
}

impl EvaluationResponseView {
    /// A variant outcome under its tag.
    pub open spec fn variant(payload: VariantEvaluationView) -> EvaluationResponseView {
        EvaluationResponseView {
            response_type: "VARIANT_EVALUATION_RESPONSE_TYPE"@,
            boolean_evaluation_response: None,
            variant_evaluation_response: Some(payload),
            error_evaluation_response: None,
        }
    }

    /// A boolean outcome under its tag.
    pub open spec fn boolean(payload: BooleanEvaluationView) -> EvaluationResponseView {
        EvaluationResponseView {
            response_type: "BOOLEAN_EVALUATION_RESPONSE_TYPE"@,
            boolean_evaluation_response: Some(payload),
            variant_evaluation_response: None,
            error_evaluation_response: None,
        }
    }

    /// An error outcome under its tag.
    pub open spec fn error(payload: ErrorEvaluationView) -> EvaluationResponseView {
        EvaluationResponseView {
            response_type: "ERROR_EVALUATION_RESPONSE_TYPE"@,
            boolean_evaluation_response: None,
            variant_evaluation_response: None,
            error_evaluation_response: Some(payload),
        }
    }

    /// Whether the entry is one of the three tagged shapes: it holds one
    /// payload, and its tag names that payload.
    pub open spec fn well_formed(self) -> bool {
        ||| self.variant_evaluation_response matches Some(payload) && self
            == EvaluationResponseView::variant(payload)
        ||| self.boolean_evaluation_response matches Some(payload) && self
            == EvaluationResponseView::boolean(payload)
        ||| self.error_evaluation_response matches Some(payload) && self
            == EvaluationResponseView::error(payload)
    }
}

impl SubResultView {
    /// The outcome for this entry, given the text of its timestamp: a
    /// payload is normalised under the tag of its kind, an error that the
    /// engine reported keeps its flag and namespace, and a malformed entry
    /// becomes the unknown error. An error entry has no timestamp.
    pub open spec fn outcome_at(self, timestamp: Seq<char>) -> EvaluationResponseView {
        match self {
            SubResultView::Variant(payload) => EvaluationResponseView::variant(
                normalized_variant(payload, timestamp),
            ),
            SubResultView::Boolean(payload) => EvaluationResponseView::boolean(
                normalized_boolean(payload, timestamp),
            ),
            SubResultView::Error(payload) => EvaluationResponseView::error(
                ErrorEvaluationView::reported(payload),
            ),
            SubResultView::Malformed => EvaluationResponseView::error(
                ErrorEvaluationView::unknown(),
            ),
        }
    }

    /// The RFC 3339 text of the entry's timestamp; the empty text where the
    /// entry has none.
    pub open spec fn timestamp_text(self) -> Seq<char> {
        match self {
            SubResultView::Variant(payload) => rfc3339_text(payload.timestamp),
            SubResultView::Boolean(payload) => rfc3339_text(payload.timestamp),
            _ => Seq::empty(),
        }
    }

    /// The outcome for this entry.
    pub open spec fn outcome(self) -> EvaluationResponseView {
        self.outcome_at(self.timestamp_text())
    }
}

/// The outcome for one entry of the engine's batch answer.
pub open spec fn dispatched(entry: EngineResponseView) -> EvaluationResponseView {
    entry.classified().outcome()
}

impl EvaluationResponse {
    /// A variant outcome under its tag.
    pub fn variant(payload: VariantEvaluationResponse) -> (out: Self)
        ensures
            out@ == EvaluationResponseView::variant(payload@),
            out@.well_formed(),
    {
        EvaluationResponse {
            response_type: "VARIANT_EVALUATION_RESPONSE_TYPE".to_string(),
            boolean_evaluation_response: None,
            variant_evaluation_response: Some(payload),
            error_evaluation_response: None,
        }
    }

    /// A boolean outcome under its tag.
    pub fn boolean(payload: BooleanEvaluationResponse) -> (out: Self)
        ensures
            out@ == EvaluationResponseView::boolean(payload@),
            out@.well_formed(),
    {
        EvaluationResponse {
            response_type: "BOOLEAN_EVALUATION_RESPONSE_TYPE".to_string(),
            boolean_evaluation_response: Some(payload),
            variant_evaluation_response: None,
            error_evaluation_response: None,
        }
    }

    /// An error outcome under its tag.
    pub fn error(payload: ErrorEvaluationResponse) -> (out: Self)
        ensures
            out@ == EvaluationResponseView::error(payload@),
            out@.well_formed(),
    {
        EvaluationResponse {
            response_type: "ERROR_EVALUATION_RESPONSE_TYPE".to_string(),
            boolean_evaluation_response: None,
            variant_evaluation_response: None,
            error_evaluation_response: Some(payload),
        }
    }

    /// The outcome for a classified entry.
    pub fn from_sub_result(entry: SubResult) -> (out: Self)
        ensures
            out@ == entry@.outcome(),
            out@.well_formed(),
    {
        match entry {
            SubResult::Variant(payload) => Self::variant(
                VariantEvaluationResponse::from_engine(payload),
            ),
            SubResult::Boolean(payload) => Self::boolean(
                BooleanEvaluationResponse::from_engine(payload),
            ),
            SubResult::Error(payload) => Self::error(ErrorEvaluationResponse::reported(payload)),
            SubResult::Malformed => Self::error(ErrorEvaluationResponse::unknown()),
        }
    }

    /// The outcome for one entry of the engine's batch answer.
    pub fn from_engine(entry: EngineResponse) -> (out: Self)
        ensures
            out@ == dispatched(entry@),
            out@.well_formed(),
    {
        Self::from_sub_result(entry.classify())
    }
}

/// The outcome of a batch evaluation.
#[derive(Debug, PartialEq)]
pub struct BatchEvaluationResponse {
    pub responses: Vec<EvaluationResponse>,
    pub request_duration_millis: DurationMillis,
}

/// The mathematical value of a [`BatchEvaluationResponse`].
pub struct BatchEvaluationView {
    pub responses: Seq<EvaluationResponseView>,
    pub request_duration_millis: DurationMillis,
}

impl View for BatchEvaluationResponse {
    type V = BatchEvaluationView;

    open spec fn view(&self) -> BatchEvaluationView {
        BatchEvaluationView {
            responses: Seq::new(self.responses@.len(), |i: int| self.responses@[i]@),
            request_duration_millis: self.request_duration_millis,
        }
    }
}

/// The batch outcome that stands for the engine's batch answer: entry by
/// entry the outcome of that entry, and the duration as the engine gave it.
pub open spec fn normalized_batch(batch: EngineBatchView) -> BatchEvaluationView {
    BatchEvaluationView {
        responses: Seq::new(batch.responses.len(), |i: int| dispatched(batch.responses[i])),
        request_duration_millis: batch.request_duration_millis,
    }
}

impl BatchEvaluationResponse {
    /// Normalises the engine's batch answer.
    pub fn from_engine(batch: EngineBatchResponse) -> (out: Self)
        ensures
            out@ == normalized_batch(batch@),
            out.responses@.len() == batch.responses@.len(),
            forall|i: int|
                0 <= i < batch.responses@.len() ==> (#[trigger] out.responses@[i])@ == dispatched(
                    batch.responses@[i]@,
                ),
            out.request_duration_millis == batch.request_duration_millis,
    {
        let ghost entries = batch.responses@;
        let request_duration_millis = batch.request_duration_millis;
        let mut responses: Vec<EvaluationResponse> = Vec::new();
        for entry in iter: batch.responses.into_iter()
            invariant
                iter.seq() == entries,
                responses@.len() == iter.index(),
                forall|j: int|
                    0 <= j < responses@.len() ==> (#[trigger] responses@[j])@ == dispatched(
                        entries[j]@,
                    ),
        {
            responses.push(EvaluationResponse::from_engine(entry));
        }
        let out = BatchEvaluationResponse { responses, request_duration_millis };
        assert(out@.responses =~= normalized_batch(batch@).responses);
        out
    }
}

/// Every outcome is one of the three tagged shapes.
pub proof fn lemma_outcome_is_well_formed(entry: EngineResponseView)
    ensures
        dispatched(entry).well_formed(),
{
}

/// An entry whose declared kind comes without its payload gives the
/// unknown error: flag key `unknown`, namespace `default`, and the unknown
/// reason, under the error tag.
pub proof fn lemma_missing_payload_degrades(entry: EngineResponseView)
    requires
        !entry.well_formed(),
    ensures
        dispatched(entry) == EvaluationResponseView::error(ErrorEvaluationView::unknown()),
        dispatched(entry).error_evaluation_response == Some(
            ErrorEvaluationView {
                flag_key: "unknown"@,
                namespace_key: "default"@,
                reason: "UNKNOWN_EVALUATION_REASON"@,
            },
        ),
{
}

/// An error that the engine reported keeps its flag and namespace, and its
/// reason is the fixed error reason, which is not the unknown reason.
pub proof fn lemma_reported_error_is_kept(entry: EngineResponseView)
    requires
        entry.kind == ResponseType::Error,
        entry.error_evaluation_response is Some,
    ensures
        dispatched(entry) == EvaluationResponseView::error(
            ErrorEvaluationView {
                flag_key: entry.error_evaluation_response->0.flag_key,
                namespace_key: entry.error_evaluation_response->0.namespace_key,
                reason: "ERROR_EVALUATION_REASON"@,
            },
        ),
        dispatched(entry) != EvaluationResponseView::error(ErrorEvaluationView::unknown()),
{
    reveal_strlit("ERROR_EVALUATION_REASON");
    reveal_strlit("UNKNOWN_EVALUATION_REASON");
    assert("ERROR_EVALUATION_REASON"@.len() != "UNKNOWN_EVALUATION_REASON"@.len());
}

/// A batch of requests that the engine answers entry for entry gives as
/// many outcomes as there were requests, however many of the entries are
/// errors. The outcome at each place is that of the entry at that place, so
/// the order of the requests is kept, and each outcome is one of the three
/// tagged shapes.
pub proof fn lemma_batch_keeps_every_entry(
    requests: Seq<EvaluationRequest>,
    answer: EngineBatchView,
)
    requires
        answer.responses.len() == requests.len(),
    ensures
        normalized_batch(answer).responses.len() == requests.len(),
        forall|i: int|
            0 <= i < requests.len() ==> #[trigger] normalized_batch(answer).responses[i]
                == dispatched(answer.responses[i]),
        forall|i: int|
            0 <= i < requests.len() ==> (#[trigger] normalized_batch(
                answer,
            ).responses[i]).well_formed(),
        normalized_batch(answer).request_duration_millis == answer.request_duration_millis,
{
    assert forall|i: int| 0 <= i < requests.len() implies (#[trigger] normalized_batch(
        answer,
    ).responses[i]).well_formed() by {
        lemma_outcome_is_well_formed(answer.responses[i]);
    }
}

} // verus!

//! What the evaluation engine takes and answers, as plain values.
//!
//! The host converts between these types and the engine's own. Only the
//! timestamps stay as the engine made them.
use vstd::prelude::*;

verus! {

/// A duration in milliseconds as the engine measured it, held as the bit
/// pattern of the 64-bit IEEE 754 number. It is never computed with, only
/// handed on.
#[derive(Clone, Copy, Debug, PartialEq, Eq, Structural)]
pub struct DurationMillis {
    pub bits: u64,
}

/// Why an evaluation gave the result it did.
#[derive(Clone, Copy, Debug, PartialEq, Eq, Structural)]
pub enum EvaluationReason {
    FlagDisabled,
    Match,
    Default,
    Unknown,
}

/// The type of a flag.
#[derive(Clone, Copy, Debug, PartialEq, Eq, Structural)]
pub enum FlagType {
    Variant,
    Boolean,
}

/// The kind that the engine declares for one entry of a batch answer.
#[derive(Clone, Copy, Debug, PartialEq, Eq, Structural)]
pub enum ResponseType {
    Variant,
    Boolean,
    Error,
}

/// The engine's answer to a variant evaluation.
#[derive(Debug, PartialEq)]
pub struct EngineVariantResponse {
    pub is_match: bool,
    pub segment_keys: Vec<String>,
    pub reason: EvaluationReason,
    pub flag_key: String,
    pub variant_key: String,
    pub variant_attachment: Option<String>,
    pub request_duration_millis: DurationMillis,
    pub timestamp: chrono::NaiveDateTime,
}

/// The mathematical value of an [`EngineVariantResponse`].
pub struct EngineVariantView {
    pub is_match: bool,
    pub segment_keys: Seq<Seq<char>>,
    pub reason: EvaluationReason,
    pub flag_key: Seq<char>,
    pub variant_key: Seq<char>,
    pub variant_attachment: Option<Seq<char>>,
    pub request_duration_millis: DurationMillis,
    pub timestamp: chrono::NaiveDateTime,
}

impl View for EngineVariantResponse {
    type V = EngineVariantView;

    open spec fn view(&self) -> EngineVariantView {
        EngineVariantView {
            is_match: self.is_match,
            segment_keys: self.segment_keys.deep_view(),
            reason: self.reason,
            flag_key: self.flag_key@,
            variant_key: self.variant_key@,
            variant_attachment: self.variant_attachment.deep_view(),
            request_duration_millis: self.request_duration_millis,
            timestamp: self.timestamp,
        }
    }
}

/// The engine's answer to a boolean evaluation.
#[derive(Debug, PartialEq)]
pub struct EngineBooleanResponse {
    pub enabled: bool,
    pub flag_key: String,
    pub reason: EvaluationReason,
    pub request_duration_millis: DurationMillis,
    pub timestamp: chrono::NaiveDateTime,
}

/// The mathematical value of an [`EngineBooleanResponse`].
pub struct EngineBooleanView {
    pub enabled: bool,
    pub flag_key: Seq<char>,
    pub reason: EvaluationReason,
    pub request_duration_millis: DurationMillis,
    pub timestamp: chrono::NaiveDateTime,
}

impl View for EngineBooleanResponse {
    type V = EngineBooleanView;

    open spec fn view(&self) -> EngineBooleanView {
        EngineBooleanView {
            enabled: self.enabled,
            flag_key: self.flag_key@,
            reason: self.reason,
            request_duration_millis: self.request_duration_millis,
            timestamp: self.timestamp,
        }
    }
}

/// An evaluation that the engine reports as failed, inside a batch answer.
#[derive(Debug, PartialEq)]
pub struct EngineErrorResponse {
    pub flag_key: String,
    pub namespace_key: String,
}

/// The mathematical value of an [`EngineErrorResponse`].
pub struct EngineErrorResponseView {
    pub flag_key: Seq<char>,
    pub namespace_key: Seq<char>,
}

impl View for EngineErrorResponse {
    type V = EngineErrorResponseView;

    open spec fn view(&self) -> EngineErrorResponseView {
        EngineErrorResponseView { flag_key: self.flag_key@, namespace_key: self.namespace_key@ }
    }
}

/// One entry of a batch answer: a declared kind and one optional payload
/// for each kind. The engine may declare a kind and leave its payload out.
#[derive(Debug, PartialEq)]
pub struct EngineResponse {
    pub kind: ResponseType,
    pub boolean_evaluation_response: Option<EngineBooleanResponse>,
    pub variant_evaluation_response: Option<EngineVariantResponse>,
    pub error_evaluation_response: Option<EngineErrorResponse>,
}

/// The mathematical value of an [`EngineResponse`].
pub struct EngineResponseView {
    pub kind: ResponseType,
    pub boolean_evaluation_response: Option<EngineBooleanView>,
    pub variant_evaluation_response: Option<EngineVariantView>,
    pub error_evaluation_response: Option<EngineErrorResponseView>,
}

impl View for EngineResponse {
    type V = EngineResponseView;

    open spec fn view(&self) -> EngineResponseView {
        EngineResponseView {
            kind: self.kind,
            boolean_evaluation_response: match self.boolean_evaluation_response {
                Some(payload) => Some(payload@),
                None => None,
            },
            variant_evaluation_response: match self.variant_evaluation_response {
                Some(payload) => Some(payload@),
                None => None,
            },
            error_evaluation_response: match self.error_evaluation_response {
                Some(payload) => Some(payload@),
                None => None,
            },
        }
    }
}

impl EngineResponseView {
    /// Whether the payload that the declared kind calls for is there.
    pub open spec fn well_formed(self) -> bool {
        match self.kind {
            ResponseType::Variant => self.variant_evaluation_response is Some,
            ResponseType::Boolean => self.boolean_evaluation_response is Some,
            ResponseType::Error => self.error_evaluation_response is Some,
        }
    }
}

/// The engine's answer to a batch evaluation.
#[derive(Debug, PartialEq)]
pub struct EngineBatchResponse {
    pub responses: Vec<EngineResponse>,
    pub request_duration_millis: DurationMillis,
}

/// The mathematical value of an [`EngineBatchResponse`].
pub struct EngineBatchView {
    pub responses: Seq<EngineResponseView>,
    pub request_duration_millis: DurationMillis,
}

impl View for EngineBatchResponse {
    type V = EngineBatchView;

    open spec fn view(&self) -> EngineBatchView {
        EngineBatchView {
            responses: Seq::new(self.responses@.len(), |i: int| self.responses@[i]@),
            request_duration_millis: self.request_duration_millis,
        }
    }
}

/// A flag as the engine lists it.
#[derive(Debug, PartialEq)]
pub struct EngineFlag {
    pub key: String,
    pub enabled: bool,
    pub kind: FlagType,
    pub description: Option<String>,
}

/// The mathematical value of an [`EngineFlag`].
pub struct EngineFlagView {
    pub key: Seq<char>,
    pub enabled: bool,
    pub kind: FlagType,
    pub description: Option<Seq<char>>,
}

impl View for EngineFlag {
    type V = EngineFlagView;

    open spec fn view(&self) -> EngineFlagView {
        EngineFlagView {
            key: self.key@,
            enabled: self.enabled,
            kind: self.kind,
            description: self.description.deep_view(),
        }
    }
}

/// The mathematical values of the flags of a listing, in their order.
pub open spec fn engine_flag_views(flags: Seq<EngineFlag>) -> Seq<EngineFlagView> {
    Seq::new(flags.len(), |i: int| flags[i]@)
}

} // verus!

//! The shapes in which results reach callers, and the rules that bring the
//! engine's answers into them.
use crate::engine::{
    DurationMillis, EngineBooleanResponse, EngineBooleanView, EngineErrorResponse,
    EngineErrorResponseView, EngineFlag, EngineFlagView, EngineVariantResponse,
    EngineVariantView, EvaluationReason, FlagType,
};
use crate::time::{rfc3339_text, to_rfc3339};
use vstd::prelude::*;

verus! {

/// The canonical name of an evaluation reason.
pub open spec fn reason_text(reason: EvaluationReason) -> Seq<char> {
    match reason {
        EvaluationReason::FlagDisabled => "FLAG_DISABLED_EVALUATION_REASON"@,
        EvaluationReason::Match => "MATCH_EVALUATION_REASON"@,
        EvaluationReason::Default => "DEFAULT_EVALUATION_REASON"@,
        EvaluationReason::Unknown => "UNKNOWN_EVALUATION_REASON"@,
    }
}

/// The canonical name of a flag type.
pub open spec fn flag_type_text(flag_type: FlagType) -> Seq<char> {
    match flag_type {
        FlagType::Variant => "VARIANT_FLAG_TYPE"@,
        FlagType::Boolean => "BOOLEAN_FLAG_TYPE"@,
    }
}

/// An attachment as callers see it: the empty text where there is none.
pub open spec fn attachment_text(attachment: Option<Seq<char>>) -> Seq<char> {
    match attachment {
        Some(text) => text,
        None => Seq::empty(),
    }
}

/// Names an evaluation reason.
pub fn format_reason(reason: &EvaluationReason) -> (text: String)
    ensures
        text@ == reason_text(*reason),
{
    match reason {
        EvaluationReason::FlagDisabled => "FLAG_DISABLED_EVALUATION_REASON".to_string(),
        EvaluationReason::Match => "MATCH_EVALUATION_REASON".to_string(),
        EvaluationReason::Default => "DEFAULT_EVALUATION_REASON".to_string(),
        EvaluationReason::Unknown => "UNKNOWN_EVALUATION_REASON".to_string(),
    }
}

/// Names a flag type.
pub fn format_flag_type(flag_type: &FlagType) -> (text: String)
    ensures
        text@ == flag_type_text(*flag_type),
{
    match flag_type {
        FlagType::Variant => "VARIANT_FLAG_TYPE".to_string(),
        FlagType::Boolean => "BOOLEAN_FLAG_TYPE".to_string(),
    }
}

/// The outcome of a variant evaluation.
#[derive(Clone, Debug, PartialEq)]
pub struct VariantEvaluationResponse {
    pub flag_match: bool,
    pub segment_keys: Vec<String>,
    pub reason: String,
    pub flag_key: String,
    pub variant_key: String,
    pub variant_attachment: String,
    pub request_duration_millis: DurationMillis,
    pub timestamp: String,
}

/// The mathematical value of a [`VariantEvaluationResponse`].
pub struct VariantEvaluationView {
    pub flag_match: bool,
    pub segment_keys: Seq<Seq<char>>,
    pub reason: Seq<char>,
    pub flag_key: Seq<char>,
    pub variant_key: Seq<char>,
    pub variant_attachment: Seq<char>,
    pub request_duration_millis: DurationMillis,
    pub timestamp: Seq<char>,
}

impl View for VariantEvaluationResponse {
    type V = VariantEvaluationView;

    open spec fn view(&self) -> VariantEvaluationView {
        VariantEvaluationView {
            flag_match: self.flag_match,
            segment_keys: self.segment_keys.deep_view(),
            reason: self.reason@,
            flag_key: self.flag_key@,
            variant_key: self.variant_key@,
            variant_attachment: self.variant_attachment@,
            request_duration_millis: self.request_duration_millis,
            timestamp: self.timestamp@,
        }
    }
}

/// The outcome that stands for the engine's answer to a variant evaluation,
/// given the text of its timestamp: every field is kept, the reason is
/// named, and a missing attachment becomes the empty text.
pub open spec fn normalized_variant(
    response: EngineVariantView,
    timestamp: Seq<char>,
) -> VariantEvaluationView {
    VariantEvaluationView {
        flag_match: response.is_match,
        segment_keys: response.segment_keys,
        reason: reason_text(response.reason),
        flag_key: response.flag_key,
        variant_key: response.variant_key,
        variant_attachment: attachment_text(response.variant_attachment),
        request_duration_millis: response.request_duration_millis,
        timestamp,
    }
}

impl VariantEvaluationResponse {
    /// Builds the outcome from the engine's answer and the text of its
    /// timestamp.
    pub fn assemble(response: EngineVariantResponse, timestamp: String) -> (out: Self)
        ensures
            out@ == normalized_variant(response@, timestamp@),
    {
        let variant_attachment = match response.variant_attachment {
            Some(attachment) => attachment,
            None => String::new(),
        };
        VariantEvaluationResponse {
            flag_match: response.is_match,
            segment_keys: response.segment_keys,
            reason: format_reason(&response.reason),
            flag_key: response.flag_key,
            variant_key: response.variant_key,
            variant_attachment,
            request_duration_millis: response.request_duration_millis,
            timestamp,
        }
    }

    /// Normalises the engine's answer; the timestamp is rendered as RFC 3339
    /// text.
    pub fn from_engine(response: EngineVariantResponse) -> (out: Self)
        ensures
            out@ == normalized_variant(response@, rfc3339_text(response.timestamp)),
    {
        let timestamp = to_rfc3339(&response.timestamp);
        Self::assemble(response, timestamp)
    }
}

/// The outcome of a boolean evaluation.
#[derive(Clone, Debug, PartialEq)]
pub struct BooleanEvaluationResponse {
    pub enabled: bool,
    pub flag_key: String,
    pub reason: String,
    pub request_duration_millis: DurationMillis,
    pub timestamp: String,
}

/// The mathematical value of a [`BooleanEvaluationResponse`].
pub struct BooleanEvaluationView {
    pub enabled: bool,
    pub flag_key: Seq<char>,
    pub reason: Seq<char>,
    pub request_duration_millis: DurationMillis,
    pub timestamp: Seq<char>,
}

impl View for BooleanEvaluationResponse {
    type V = BooleanEvaluationView;

    open spec fn view(&self) -> BooleanEvaluationView {
        BooleanEvaluationView {
            enabled: self.enabled,
            flag_key: self.flag_key@,
            reason: self.reason@,
            request_duration_millis: self.request_duration_millis,
            timestamp: self.timestamp@,
        }
    }
}

/// The outcome that stands for the engine's answer to a boolean
/// evaluation, given the text of its timestamp.
pub open spec fn normalized_boolean(
    response: EngineBooleanView,
    timestamp: Seq<char>,
) -> BooleanEvaluationView {
    BooleanEvaluationView {
        enabled: response.enabled,
        flag_key: response.flag_key,
        reason: reason_text(response.reason),
        request_duration_millis: response.request_duration_millis,
        timestamp,
    }
}

impl BooleanEvaluationResponse {
    /// Builds the outcome from the engine's answer and the text of its
    /// timestamp.
    pub fn assemble(response: EngineBooleanResponse, timestamp: String) -> (out: Self)
        ensures
            out@ == normalized_boolean(response@, timestamp@),
    {
        BooleanEvaluationResponse {
            enabled: response.enabled,
            flag_key: response.flag_key,
            reason: format_reason(&response.reason),
            request_duration_millis: response.request_duration_millis,
            timestamp,
        }
    }

    /// Normalises the engine's answer; the timestamp is rendered as RFC 3339
    /// text.
    pub fn from_engine(response: EngineBooleanResponse) -> (out: Self)
        ensures
            out@ == normalized_boolean(response@, rfc3339_text(response.timestamp)),
    {
        let timestamp = to_rfc3339(&response.timestamp);
        Self::assemble(response, timestamp)
    }
}

/// An evaluation that gave no result, as one entry of a batch outcome.
#[derive(Debug, PartialEq)]
pub struct ErrorEvaluationResponse {
    pub flag_key: String,
    pub namespace_key: String,
    pub reason: String,
}

/// The mathematical value of an [`ErrorEvaluationResponse`].
pub struct ErrorEvaluationView {
    pub flag_key: Seq<char>,
    pub namespace_key: Seq<char>,
    pub reason: Seq<char>,
}

impl View for ErrorEvaluationResponse {
    type V = ErrorEvaluationView;

    open spec fn view(&self) -> ErrorEvaluationView {
        ErrorEvaluationView {
            flag_key: self.flag_key@,
            namespace_key: self.namespace_key@,
            reason: self.reason@,
        }
    }
}

impl ErrorEvaluationView {
    /// The outcome for an error that the engine reported: its flag and
    /// namespace, under the fixed error reason.
    pub open spec fn reported(error: EngineErrorResponseView) -> ErrorEvaluationView {
        ErrorEvaluationView {
            flag_key: error.flag_key,
            namespace_key: error.namespace_key,
            reason: "ERROR_EVALUATION_REASON"@,
        }
    }

    /// The outcome for an entry whose payload is missing.
    pub open spec fn unknown() -> ErrorEvaluationView {
        ErrorEvaluationView {
            flag_key: "unknown"@,
            namespace_key: "default"@,
            reason: "UNKNOWN_EVALUATION_REASON"@,
        }
    }
}

impl ErrorEvaluationResponse {
    /// The outcome for an error that the engine reported.
    pub fn reported(error: EngineErrorResponse) -> (out: Self)
        ensures
            out@ == ErrorEvaluationView::reported(error@),
    {
        ErrorEvaluationResponse {
            flag_key: error.flag_key,
            namespace_key: error.namespace_key,
            reason: "ERROR_EVALUATION_REASON".to_string(),
        }
    }

    /// The outcome for an entry whose payload is missing.
    pub fn unknown() -> (out: Self)
        ensures
            out@ == ErrorEvaluationView::unknown(),
    {
        ErrorEvaluationResponse {
            flag_key: "unknown".to_string(),
            namespace_key: "default".to_string(),
            reason: "UNKNOWN_EVALUATION_REASON".to_string(),
        }
    }
}

/// A flag as callers see it.
#[derive(Debug, PartialEq)]
pub struct Flag {
    pub key: String,
    pub enabled: bool,
    pub flag_type: String,
    pub description: Option<String>,
}

/// The mathematical value of a [`Flag`].
pub struct FlagView {
    pub key: Seq<char>,
    pub enabled: bool,
    pub flag_type: Seq<char>,
    pub description: Option<Seq<char>>,
}

impl View for Flag {
    type V = FlagView;

    open spec fn view(&self) -> FlagView {
        FlagView {
            key: self.key@,
            enabled: self.enabled,
            flag_type: self.flag_type@,
            description: self.description.deep_view(),
        }
    }
}

/// The flag that stands for one that the engine lists: every field is
/// kept, and the type is named.
pub open spec fn normalized_flag(flag: EngineFlagView) -> FlagView {
    FlagView {
        key: flag.key,
        enabled: flag.enabled,
        flag_type: flag_type_text(flag.kind),
        description: flag.description,
    }
}

impl Flag {
    /// Normalises a flag that the engine lists.
    pub fn from_engine(flag: EngineFlag) -> (out: Self)
        ensures
            out@ == normalized_flag(flag@),
    {
        Flag {
            key: flag.key,
            enabled: flag.enabled,
            flag_type: format_flag_type(&flag.kind),
            description: flag.description,
        }
    }
}

/// The mathematical values of flags, in their order.
pub open spec fn flag_views(flags: Seq<Flag>) -> Seq<FlagView> {
    Seq::new(flags.len(), |i: int| flags[i]@)
}

/// The flags that stand for the flags of a listing: one for one, in the
/// same order.
pub open spec fn normalized_flags(flags: Seq<EngineFlagView>) -> Seq<FlagView> {
    Seq::new(flags.len(), |i: int| normalized_flag(flags[i]))
}

/// A listed flag of type variant is named `VARIANT_FLAG_TYPE` and one of
/// type boolean `BOOLEAN_FLAG_TYPE`. No flag is named otherwise, and the two
/// names differ, so the name tells the type.
pub proof fn lemma_flag_type_is_one_of_two(flag: EngineFlagView)
    ensures
        flag.kind == FlagType::Variant ==> normalized_flag(flag).flag_type
            == "VARIANT_FLAG_TYPE"@,
        flag.kind == FlagType::Boolean ==> normalized_flag(flag).flag_type
            == "BOOLEAN_FLAG_TYPE"@,
        normalized_flag(flag).flag_type == "VARIANT_FLAG_TYPE"@ || normalized_flag(
            flag,
        ).flag_type == "BOOLEAN_FLAG_TYPE"@,
        "VARIANT_FLAG_TYPE"@ != "BOOLEAN_FLAG_TYPE"@,
{
    reveal_strlit("VARIANT_FLAG_TYPE");
    reveal_strlit("BOOLEAN_FLAG_TYPE");
    assert("VARIANT_FLAG_TYPE"@[0] != "BOOLEAN_FLAG_TYPE"@[0]);
}

/// In a listing every flag is kept in its place, and each type is named in
/// one of the two ways.
pub proof fn lemma_listing_keeps_every_flag(flags: Seq<EngineFlagView>)
    ensures
        normalized_flags(flags).len() == flags.len(),
        forall|i: int|
            0 <= i < flags.len() ==> #[trigger] normalized_flags(flags)[i] == normalized_flag(
                flags[i],
            ),
        forall|i: int|
            0 <= i < flags.len() ==> (#[trigger] normalized_flags(flags)[i]).flag_type
                == "VARIANT_FLAG_TYPE"@ || normalized_flags(flags)[i].flag_type
                == "BOOLEAN_FLAG_TYPE"@,
{
}

} // verus!

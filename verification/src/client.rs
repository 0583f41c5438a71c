//! The facade: what it asks of the engine, and what it makes of the
//! answers.
//!
//! The facade itself never touches the engine. Each operation is in two
//! parts. The first takes the caller's input and either names the call that
//! the host shall make or fails without any call. The second takes what the
//! engine answered and gives the caller's result.
use crate::batch::{normalized_batch, BatchEvaluationResponse};
use crate::config::ClientOptions;
use crate::engine::{
    engine_flag_views, EngineBatchResponse, EngineBooleanResponse, EngineFlag,
    EngineVariantResponse,
};
use crate::error::{prefixed, EngineError, FliptError, FliptErrorView};
use crate::json::json_text;
use crate::request::EvaluationRequest;
use crate::response::{
    flag_views, normalized_boolean, normalized_flag, normalized_flags, normalized_variant,
    BooleanEvaluationResponse, Flag, VariantEvaluationResponse,
};
use crate::time::rfc3339_text;
use vstd::prelude::*;

verus! {

/// A call that the host shall make on the engine.
#[derive(Debug, PartialEq)]
pub enum EngineCall {
    Variant(EvaluationRequest),
    Boolean(EvaluationRequest),
    Batch(Vec<EvaluationRequest>),
    ListFlags,
}

/// How the attempt to start the engine ended.
#[derive(Debug, PartialEq)]
pub enum EngineStart {
    /// The engine gave a handle.
    Started,
    /// The payload could not be put into the text encoding of the
    /// transport; the diagnostic says why.
    PayloadRejected(String),
    /// The engine gave no handle.
    NoHandle,
}

/// The error for a payload that the transport encoding cannot hold.
pub open spec fn payload_rejection(detail: Seq<char>) -> FliptErrorView {
    FliptErrorView::InvalidRequest { message: "Failed to create C string from config: "@ + detail }
}

/// The error for an engine that gave no handle.
pub open spec fn missing_handle() -> FliptErrorView {
    FliptErrorView::Internal {
        message: "Failed to initialize Flipt engine: null pointer returned"@,
    }
}

/// The facade over one engine.
#[derive(Debug)]
pub struct FliptClient {
    payload: String,
}

impl FliptClient {
    /// The configuration payload that the engine is started with.
    pub closed spec fn payload(&self) -> Seq<char> {
        self.payload@
    }

    /// Resolves the options and writes the configuration payload for the
    /// engine. This succeeds whatever the options are: none of them is
    /// required, and an empty optional text is left out.
    pub fn new(opts: ClientOptions) -> (result: Result<FliptClient, FliptError>)
        ensures
            result matches Ok(client) && client.payload() == json_text(
                opts@.resolved().document(),
            ),
    {
        let config = opts.resolve();
        match config.encode() {
            Ok(payload) => Ok(FliptClient { payload }),
            Err(error) => Err(error),
        }
    }

    /// The configuration payload that the engine is started with.
    pub fn configuration_payload(&self) -> (payload: &String)
        ensures
            payload@ == self.payload(),
    {
        &self.payload
    }

    /// Says whether the facade may be used, given how the start of the
    /// engine ended: only a started engine is accepted.
    pub fn engine_started(&self, start: EngineStart) -> (result: Result<(), FliptError>)
        ensures
            match start {
                EngineStart::Started => result is Ok,
                EngineStart::PayloadRejected(detail) => result matches Err(error) && error@
                    == payload_rejection(detail@),
                EngineStart::NoHandle => result matches Err(error) && error@ == missing_handle(),
            },
    {
        match start {
            EngineStart::Started => Ok(()),
            EngineStart::PayloadRejected(detail) => Err(
                FliptError::InvalidRequest {
                    message: prefixed("Failed to create C string from config: ", detail.as_str()),
                },
            ),
            EngineStart::NoHandle => Err(
                FliptError::Internal {
                    message: "Failed to initialize Flipt engine: null pointer returned".to_string(),
                },
            ),
        }
    }

    /// Begins a variant evaluation. A complete request is forwarded as it
    /// is; an incomplete one fails here, and the engine is not asked.
    pub fn evaluate_variant(&self, request: EvaluationRequest) -> (result: Result<
        EngineCall,
        FliptError,
    >)
        ensures
            result is Ok <==> request@.complete(),
            result matches Ok(call) ==> call == EngineCall::Variant(request),
            result matches Err(error) ==> error@ == request@.rejection() && error@
                is InvalidRequest,
    {
        match request.validate() {
            Ok(()) => Ok(EngineCall::Variant(request)),
            Err(error) => Err(error),
        }
    }

    /// Ends a variant evaluation: the engine's answer is normalised, and
    /// its error wrapped into an internal error.
    pub fn variant_response(
        &self,
        reply: Result<EngineVariantResponse, EngineError>,
    ) -> (result: Result<VariantEvaluationResponse, FliptError>)
        ensures
            match reply {
                Ok(response) => result matches Ok(outcome) && outcome@ == normalized_variant(
                    response@,
                    rfc3339_text(response.timestamp),
                ),
                Err(failure) => result matches Err(error) && error@ == failure@.wrapped(
                    "Flag evaluation failed: "@,
                ),
            },
    {
        match reply {
            Ok(response) => Ok(VariantEvaluationResponse::from_engine(response)),
            Err(failure) => Err(failure.wrap("Flag evaluation failed: ")),
        }
    }

    /// Begins a boolean evaluation. A complete request is forwarded as it
    /// is; an incomplete one fails here, and the engine is not asked.
    pub fn evaluate_boolean(&self, request: EvaluationRequest) -> (result: Result<
        EngineCall,
        FliptError,
    >)
        ensures
            result is Ok <==> request@.complete(),
            result matches Ok(call) ==> call == EngineCall::Boolean(request),
            result matches Err(error) ==> error@ == request@.rejection() && error@
                is InvalidRequest,
    {
        match request.validate() {
            Ok(()) => Ok(EngineCall::Boolean(request)),
            Err(error) => Err(error),
        }
    }

    /// Ends a boolean evaluation: the engine's answer is normalised, and
    /// its error wrapped into an internal error.
    pub fn boolean_response(
        &self,
        reply: Result<EngineBooleanResponse, EngineError>,
    ) -> (result: Result<BooleanEvaluationResponse, FliptError>)
        ensures
            match reply {
                Ok(response) => result matches Ok(outcome) && outcome@ == normalized_boolean(
                    response@,
                    rfc3339_text(response.timestamp),
                ),
                Err(failure) => result matches Err(error) && error@ == failure@.wrapped(
                    "Boolean evaluation failed: "@,
                ),
            },
    {
        match reply {
            Ok(response) => Ok(BooleanEvaluationResponse::from_engine(response)),
            Err(failure) => Err(failure.wrap("Boolean evaluation failed: ")),
        }
    }

    /// Begins a batch evaluation: all requests are forwarded in one call,
    /// in their order, and none is checked here.
    pub fn evaluate_batch(&self, requests: Vec<EvaluationRequest>) -> (call: EngineCall)
        ensures
            call == EngineCall::Batch(requests),
    {
        EngineCall::Batch(requests)
    }

    /// Ends a batch evaluation: each entry of the engine's answer becomes
    /// one outcome in the same place, and the engine's error is wrapped into
    /// an internal error. No entry makes the batch fail.
    pub fn batch_response(&self, reply: Result<EngineBatchResponse, EngineError>) -> (result:
        Result<BatchEvaluationResponse, FliptError>)
        ensures
            match reply {
                Ok(batch) => result matches Ok(outcome) && outcome@ == normalized_batch(batch@)
                    && outcome.responses@.len() == batch.responses@.len(),
                Err(failure) => result matches Err(error) && error@ == failure@.wrapped(
                    "Batch evaluation failed: "@,
                ),
            },
    {
        match reply {
            Ok(batch) => Ok(BatchEvaluationResponse::from_engine(batch)),
            Err(failure) => Err(failure.wrap("Batch evaluation failed: ")),
        }
    }

    /// Begins the listing of flags.
    pub fn list_flags(&self) -> (call: EngineCall)
        ensures
            call == EngineCall::ListFlags,
    {
        EngineCall::ListFlags
    }

    /// Ends the listing of flags: the flags are normalised one for one, in
    /// the engine's order, and the engine's error is mapped into the
    /// client-facing taxonomy.
    pub fn flags_response(&self, reply: Result<Vec<EngineFlag>, EngineError>) -> (result: Result<
        Vec<Flag>,
        FliptError,
    >)
        ensures
            match reply {
                Ok(listed) => result matches Ok(flags) && flags@.len() == listed@.len()
                    && flag_views(flags@) == normalized_flags(engine_flag_views(listed@)),
                Err(failure) => result matches Err(error) && error@ == failure@.client_error(),
            },
    {
        match reply {
            Ok(listed) => {
                let ghost entries = listed@;
                let mut flags: Vec<Flag> = Vec::new();
                for flag in iter: listed.into_iter()
                    invariant
                        iter.seq() == entries,
                        flags@.len() == iter.index(),
                        forall|j: int|
                            0 <= j < flags@.len() ==> (#[trigger] flags@[j])@ == normalized_flag(
                                entries[j]@,
                            ),
                {
                    flags.push(Flag::from_engine(flag));
                }
                assert(flag_views(flags@) =~= normalized_flags(engine_flag_views(entries)));
                Ok(flags)
            },
            Err(failure) => Err(FliptError::from(failure)),
        }
    }

    /// Asks for fresh flag state. The engine refreshes itself, so nothing
    /// is asked of it and the call succeeds.
    pub fn refresh(&self) -> (result: Result<(), FliptError>)
        ensures
            result is Ok,
    {
        Ok(())
    }

    /// Ends the use of the facade. The engine is released when the host
    /// drops it; nothing is asked of it here.
    pub fn close(&self) {
    }
}

} // verus!

//! The crossing to an outside handler: what it is handed, and what is made
//! of what it gives back.

use vstd::prelude::*;
use vstd::string::StringExecFns;
use crate::codec::{items_to_json, object_to_json, to_json};
use crate::context::{InvocationContext, InvocationView};
use crate::engine::{compact_json, text_result};
use crate::error::{HelperError, HelperErrorView};
use crate::options::outcome_view;
use crate::value::JsonView;

verus! {

/// The three JSON texts that an outside handler is called with, beside the
/// block render handle.
#[derive(Clone, Debug, PartialEq, Eq)]
pub struct HandlerCall {
    pub params_json: String,
    pub hash_json: String,
    pub context_json: String,
}

/// The mathematical form of a `HandlerCall`.
pub struct HandlerCallView {
    pub params_json: Seq<char>,
    pub hash_json: Seq<char>,
    pub context_json: Seq<char>,
}

impl View for HandlerCall {
    type V = HandlerCallView;

    open spec fn view(&self) -> HandlerCallView {
        HandlerCallView {
            params_json: self.params_json@,
            hash_json: self.hash_json@,
            context_json: self.context_json@,
        }
    }
}

/// How the one call of an outside handler ended.
#[derive(Clone, Debug, PartialEq, Eq)]
pub enum HandlerOutcome {
    /// It returned this text.
    Returned(String),
    /// It returned something that is not text; the message says what.
    NotText(String),
    /// It failed with this message.
    Raised(String),
}

/// The mathematical form of a `HandlerOutcome`.
pub enum HandlerOutcomeView {
    Returned(Seq<char>),
    NotText(Seq<char>),
    Raised(Seq<char>),
}

impl View for HandlerOutcome {
    type V = HandlerOutcomeView;

    open spec fn view(&self) -> HandlerOutcomeView {
        match self {
            HandlerOutcome::Returned(text) => HandlerOutcomeView::Returned(text@),
            HandlerOutcome::NotText(message) => HandlerOutcomeView::NotText(message@),
            HandlerOutcome::Raised(message) => HandlerOutcomeView::Raised(message@),
        }
    }
}

/// JSON text, or an `EncodingError` whose message says which part of the
/// call could not be serialised.
pub open spec fn part_json(rendered: Result<Seq<char>, Seq<char>>, prefix: Seq<char>) -> Result<
    Seq<char>,
    HelperErrorView,
> {
    match rendered {
        Ok(text) => Ok(text),
        Err(message) => Err(HelperErrorView::EncodingError { message: prefix + message }),
    }
}

/// What an outside handler is called with for this invocation: the JSON
/// texts of the parameters (an array), of the named options (an object) and
/// of the data, or the first failure to serialise one of them.
pub open spec fn handler_call(invocation: InvocationView) -> Result<
    HandlerCallView,
    HelperErrorView,
> {
    match part_json(
        compact_json(JsonView::Array(invocation.params)),
        "Failed to serialize params: "@,
    ) {
        Err(e) => Err(e),
        Ok(params_json) => match part_json(
            compact_json(JsonView::Object(invocation.hash)),
            "Failed to serialize hash: "@,
        ) {
            Err(e) => Err(e),
            Ok(hash_json) => match part_json(
                compact_json(invocation.data_context),
                "Failed to serialize context: "@,
            ) {
                Err(e) => Err(e),
                Ok(context_json) => Ok(HandlerCallView { params_json, hash_json, context_json }),
            },
        },
    }
}

/// What is made of the handler's outcome: its text as it is, or the
/// failure that says how it went wrong.
pub open spec fn handler_result(outcome: HandlerOutcomeView) -> Result<
    Seq<char>,
    HelperErrorView,
> {
    match outcome {
        HandlerOutcomeView::Returned(text) => Ok(text),
        HandlerOutcomeView::NotText(message) => Err(
            HelperErrorView::InvalidHandlerResult {
                message: "Failed to extract result: "@ + message,
            },
        ),
        HandlerOutcomeView::Raised(message) => Err(
            HelperErrorView::HandlerExecutionError {
                message: "Helper execution failed: "@ + message,
            },
        ),
    }
}

/// What one call of an outside handler puts out when it runs alone, where
/// `answer` is how the handler ends for what it is called with: the failure
/// to prepare the call, or what is made of the handler's outcome.
pub open spec fn handled_text(
    invocation: InvocationView,
    answer: spec_fn(HandlerCallView) -> HandlerOutcomeView,
) -> Result<Seq<char>, HelperErrorView> {
    match handler_call(invocation) {
        Err(e) => Err(e),
        Ok(call) => handler_result(answer(call)),
    }
}

/// The views of a prepared call or a failure.
pub open spec fn call_view(r: Result<HandlerCall, HelperError>) -> Result<
    HandlerCallView,
    HelperErrorView,
> {
    match r {
        Ok(call) => Ok(call@),
        Err(e) => Err(e@),
    }
}

/// `prefix` followed by `detail`.
fn prefixed(prefix: &str, detail: &str) -> (r: String)
    ensures
        r@ == prefix@ + detail@,
{
    prefix.to_owned().concat(detail)
}

/// One part of a call as JSON text, or the `EncodingError` that names it.
pub fn part_to_json(rendered: Result<String, String>, prefix: &str) -> (r: Result<
    String,
    HelperError,
>)
    ensures
        outcome_view(r) == part_json(text_result(rendered), prefix@),
{
    match rendered {
        Ok(text) => Ok(text),
        Err(message) => Err(
            HelperError::EncodingError { message: prefixed(prefix, message.as_str()) },
        ),
    }
}

/// Serialises what the handler is to be called with.
pub fn prepare_call(invocation: &InvocationContext) -> (r: Result<HandlerCall, HelperError>)
    ensures
        call_view(r) == handler_call(invocation@),
{
    let params_json = match part_to_json(
        items_to_json(invocation.params()),
        "Failed to serialize params: ",
    ) {
        Ok(text) => text,
        Err(e) => {
            return Err(e);
        },
    };
    let hash_json = match part_to_json(
        object_to_json(invocation.hash()),
        "Failed to serialize hash: ",
    ) {
        Ok(text) => text,
        Err(e) => {
            return Err(e);
        },
    };
    let context_json = match part_to_json(
        to_json(invocation.data_context()),
        "Failed to serialize context: ",
    ) {
        Ok(text) => text,
        Err(e) => {
            return Err(e);
        },
    };
    Ok(HandlerCall { params_json, hash_json, context_json })
}

/// Makes the helper's result of how the handler's one call ended.
pub fn conclude(outcome: HandlerOutcome) -> (r: Result<String, HelperError>)
    ensures
        outcome_view(r) == handler_result(outcome@),
{
    match outcome {
        HandlerOutcome::Returned(text) => Ok(text),
        HandlerOutcome::NotText(message) => Err(
            HelperError::InvalidHandlerResult {
                message: prefixed("Failed to extract result: ", message.as_str()),
            },
        ),
        HandlerOutcome::Raised(message) => Err(
            HelperError::HandlerExecutionError {
                message: prefixed("Helper execution failed: ", message.as_str()),
            },
        ),
    }
}

/// Two calls of one handler, whose outcome depends on nothing but what it
/// is called with, do not touch each other: whichever is prepared or
/// concluded first, each puts out what it puts out when it runs alone, and
/// that is a function of its own invocation.
pub proof fn lemma_handler_calls_are_independent(
    answer: spec_fn(HandlerCallView) -> HandlerOutcomeView,
    first: InvocationView,
    second: InvocationView,
    first_call: Result<HandlerCallView, HelperErrorView>,
    second_call: Result<HandlerCallView, HelperErrorView>,
    first_text: Result<Seq<char>, HelperErrorView>,
    second_text: Result<Seq<char>, HelperErrorView>,
)
    requires
        first_call == handler_call(first),
        second_call == handler_call(second),
        first_text == (match first_call {
            Ok(call) => handler_result(answer(call)),
            Err(e) => Err(e),
        }),
        second_text == (match second_call {
            Ok(call) => handler_result(answer(call)),
            Err(e) => Err(e),
        }),
    ensures
        first_text == handled_text(first, answer),
        second_text == handled_text(second, answer),
{
}

} // verus!

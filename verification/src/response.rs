//! The JSON envelope handed back to the shell: `{"result": ...}` around the
//! serialized payload of a success, `{"error": ...}` around the message of a
//! failure. String literals are written by `serde_json`; the framing is done
//! here.

use crate::error::{BridgeError, BridgeErrorView};
use crate::outcome::{CallOutcome, CallOutcomeView};
use vstd::prelude::*;

verus! {

/// What `serde_json::to_string` returns for a text: on success the JSON
/// string literal that stands for it, on failure the message of the error.
pub uninterp spec fn json_serialized(text: Seq<char>) -> Result<Seq<char>, Seq<char>>;

/// What a `serde_json::Value::String` holding a text displays as: the JSON
/// string literal that stands for it.
pub uninterp spec fn json_displayed(text: Seq<char>) -> Seq<char>;

/// Calls `serde_json::to_string` on `text` and, where it fails, takes the
/// message that the `serde_json::Error` displays. Not proved: that the
/// result, success or failure and the text of either, depends on the text
/// alone. What the text is stays unstated.
#[verifier::external_body]
fn serialize_text(text: &str) -> (res: Result<String, String>)
    ensures
        match res {
            Ok(json) => json_serialized(text@) == Ok::<Seq<char>, Seq<char>>(json@),
            Err(message) => json_serialized(text@) == Err::<Seq<char>, Seq<char>>(message@),
        },
{
    match serde_json::to_string(text) {
        Ok(json) => Ok(json),
        Err(error) => Err(error.to_string()),
    }
}

/// Puts `text` in a `serde_json::Value::String` and takes what that value
/// displays, through `ToString`. Not proved: that the result depends on the
/// text alone. What the result is stays unstated.
#[verifier::external_body]
fn display_text(text: &str) -> (json: String)
    ensures
        json@ == json_displayed(text@),
{
    serde_json::Value::String(text.to_owned()).to_string()
}

/// The JSON object with the one member `"result"`, whose value is the JSON
/// text `inner`.
pub open spec fn result_object(inner: Seq<char>) -> Seq<char> {
    "{\"result\":"@ + inner + "}"@
}

/// The JSON object with the one member `"error"`, whose value is the JSON
/// text `inner`.
pub open spec fn error_object(inner: Seq<char>) -> Seq<char> {
    "{\"error\":"@ + inner + "}"@
}

/// The serialized form of an outcome: for a success the payload object, a
/// `"result"` member holding the text's literal, or the message of the
/// serialization failure; for a failure its message.
pub open spec fn serialized_outcome(outcome: CallOutcomeView) -> Result<Seq<char>, Seq<char>> {
    match outcome {
        CallOutcomeView::Success(payload) => match json_serialized(payload) {
            Ok(literal) => Ok(result_object(literal)),
            Err(message) => Err(message),
        },
        CallOutcomeView::Failure(message) => Err(message),
    }
}

/// The envelope for a serialized outcome: the payload inside a `"result"`
/// member, or the message's literal inside an `"error"` member.
pub open spec fn envelope(serialized: Result<Seq<char>, Seq<char>>) -> Seq<char> {
    match serialized {
        Ok(payload) => result_object(payload),
        Err(message) => error_object(json_displayed(message)),
    }
}

/// What the receiving side makes of the result channel: the outcome that was
/// sent, or a failure where the channel closed with nothing sent.
pub open spec fn received_outcome(received: Result<CallOutcomeView, Seq<char>>) -> CallOutcomeView {
    match received {
        Ok(outcome) => outcome,
        Err(detail) => CallOutcomeView::Failure(BridgeErrorView::Receive(detail).message()),
    }
}

/// Wraps the JSON text `inner` in an object with the one member `"result"`.
pub fn wrap_result(inner: &str) -> (json: String)
    ensures
        json@ == result_object(inner@),
{
    let mut json = String::from_str("{\"result\":");
    json.append(inner);
    json.append("}");
    json
}

/// Wraps the JSON text `inner` in an object with the one member `"error"`.
pub fn wrap_error(inner: &str) -> (json: String)
    ensures
        json@ == error_object(inner@),
{
    let mut json = String::from_str("{\"error\":");
    json.append(inner);
    json.append("}");
    json
}

/// Turns what came off the result channel into an outcome. A channel that
/// closed with nothing sent gives a failure that holds the diagnostic.
pub fn receive(received: Result<CallOutcome, String>) -> (outcome: CallOutcome)
    ensures
        outcome@ == received_outcome(
            match received {
                Ok(sent) => Ok(sent@),
                Err(detail) => Err(detail@),
            },
        ),
{
    match received {
        Ok(sent) => sent,
        Err(detail) => CallOutcome::from_error(&BridgeError::Receive(detail)),
    }
}

/// Serializes an outcome: the payload object of a success, or the message to
/// report. A payload that cannot be serialized becomes a message.
pub fn serialize_outcome(outcome: &CallOutcome) -> (res: Result<String, String>)
    ensures
        match res {
            Ok(json) => serialized_outcome(outcome@) == Ok::<Seq<char>, Seq<char>>(json@),
            Err(message) => serialized_outcome(outcome@) == Err::<Seq<char>, Seq<char>>(message@),
        },
{
    match outcome {
        CallOutcome::Success(payload) => match serialize_text(payload.as_str()) {
            Ok(literal) => Ok(wrap_result(literal.as_str())),
            Err(message) => Err(message),
        },
        CallOutcome::Failure(message) => Err(message.clone()),
    }
}

/// Formats a serialized outcome as the envelope for the shell. Formatting
/// has no failure of its own: every input gives an envelope.
pub fn format_response(serialized: &Result<String, String>) -> (json: String)
    ensures
        json@ == envelope(
            match serialized {
                Ok(payload) => Ok(payload@),
                Err(message) => Err(message@),
            },
        ),
{
    match serialized {
        Ok(payload) => wrap_result(payload.as_str()),
        Err(message) => wrap_error(display_text(message.as_str()).as_str()),
    }
}

/// The envelope for what came off the result channel.
pub fn respond(received: Result<CallOutcome, String>) -> (json: String)
    ensures
        json@ == envelope(
            serialized_outcome(
                received_outcome(
                    match received {
                        Ok(sent) => Ok(sent@),
                        Err(detail) => Err(detail@),
                    },
                ),
            ),
        ),
{
    let outcome = receive(received);
    let serialized = serialize_outcome(&outcome);
    format_response(&serialized)
}

} // verus!

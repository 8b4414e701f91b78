//! What holds of a whole invocation, from the host's reports to the envelope
//! that the shell receives.

use crate::error::BridgeErrorView;
use crate::invocation::{symbol_name, ActionView, EventView, InvocationView, Stage};
use crate::marshal::decoded_text;
use crate::outcome::CallOutcomeView;
use crate::response::{
    envelope, error_object, json_displayed, json_serialized, received_outcome, result_object,
    serialized_outcome,
};
use vstd::prelude::*;
use vstd::utf8::{decode_utf8, encode_utf8, valid_utf8};

verus! {

/// The envelope that the shell receives for an outcome that came through the
/// result channel.
pub open spec fn response(outcome: CallOutcomeView) -> Seq<char> {
    envelope(serialized_outcome(outcome))
}

/// No envelope is both a result and an error: the two shapes differ in the
/// first letter of their member's name.
pub proof fn lemma_result_is_not_error(payload: Seq<char>, message: Seq<char>)
    ensures
        result_object(payload) != error_object(message),
{
    reveal_strlit("{\"result\":");
    reveal_strlit("{\"error\":");
    assert(result_object(payload)[2] == 'r');
    assert(error_object(message)[2] == 'e');
}

/// A run in which all outside work succeeds: the library at the given path
/// is loaded, the export is bound, the function is called on the
/// null-terminated argument, and the bytes it returned are handed over as a
/// success whose payload is their text, exactly the text they encode where
/// they are valid UTF-8. Where that payload serializes, the shell receives a
/// result envelope around the payload object that holds the text's literal.
pub proof fn lemma_successful_run_gives_result(invocation: InvocationView, bytes: Seq<u8>)
    requires
        invocation.stage == Stage::Created,
        !encode_utf8(invocation.argument).contains(0u8),
    ensures
        invocation.answers(
            seq![
                EventView::Start,
                EventView::LibraryLoaded,
                EventView::SymbolBound,
                EventView::Returned(Some(bytes)),
            ],
        ) == seq![
            ActionView::LoadLibrary(invocation.library_path),
            ActionView::BindSymbol(symbol_name()),
            ActionView::Invoke(encode_utf8(invocation.argument).push(0u8)),
            ActionView::Send(CallOutcomeView::Success(decoded_text(bytes))),
        ],
        valid_utf8(bytes) ==> decoded_text(bytes) == decode_utf8(bytes),
        json_serialized(decoded_text(bytes)) matches Ok(literal) ==> response(
            CallOutcomeView::Success(decoded_text(bytes)),
        ) == result_object(result_object(literal)),
{
    let events = seq![
        EventView::Start,
        EventView::LibraryLoaded,
        EventView::SymbolBound,
        EventView::Returned(Some(bytes)),
    ];
    reveal_with_fuel(InvocationView::answers, 5);
    assert(events.drop_first().drop_first().drop_first().drop_first().len() == 0);
    assert(invocation.answers(events) =~= seq![
        ActionView::LoadLibrary(invocation.library_path),
        ActionView::BindSymbol(symbol_name()),
        ActionView::Invoke(encode_utf8(invocation.argument).push(0u8)),
        ActionView::Send(CallOutcomeView::Success(decoded_text(bytes))),
    ]);
}

/// Every failure reaches the shell as an error envelope around the literal
/// of its message, and never as a result envelope.
pub proof fn lemma_failure_gives_error(message: Seq<char>, payload: Seq<char>)
    ensures
        response(CallOutcomeView::Failure(message)) == error_object(json_displayed(message)),
        response(CallOutcomeView::Failure(message)) != result_object(payload),
{
    lemma_result_is_not_error(payload, json_displayed(message));
}

/// A library that cannot be loaded gives the error envelope for the load
/// failure, with the platform's message after the fixed text.
pub proof fn lemma_load_failure_gives_error(invocation: InvocationView, detail: Seq<char>)
    requires
        invocation.stage == Stage::Loading,
    ensures
        invocation.react(EventView::LoadFailed(detail)) == (
            Stage::Finished,
            ActionView::Send(CallOutcomeView::Failure("Failed to load DLL: "@ + detail)),
        ),
        response(CallOutcomeView::Failure("Failed to load DLL: "@ + detail)) == error_object(
            json_displayed("Failed to load DLL: "@ + detail),
        ),
{
}

/// A library without the expected export gives the error envelope for the
/// missing symbol, with the platform's message after the fixed text.
pub proof fn lemma_missing_symbol_gives_error(invocation: InvocationView, detail: Seq<char>)
    requires
        invocation.stage == Stage::Binding,
    ensures
        invocation.react(EventView::BindFailed(detail)) == (
            Stage::Finished,
            ActionView::Send(
                CallOutcomeView::Failure("Failed to load ReadExcelFile function: "@ + detail),
            ),
        ),
        response(CallOutcomeView::Failure("Failed to load ReadExcelFile function: "@ + detail))
            == error_object(
            json_displayed("Failed to load ReadExcelFile function: "@ + detail),
        ),
{
}

/// A null pointer from the foreign function gives the error envelope for the
/// null result.
pub proof fn lemma_null_result_gives_error(invocation: InvocationView)
    requires
        invocation.stage == Stage::Calling,
    ensures
        invocation.react(EventView::Returned(None)) == (
            Stage::Finished,
            ActionView::Send(CallOutcomeView::Failure("ReadExcelFile returned null pointer"@)),
        ),
        response(CallOutcomeView::Failure("ReadExcelFile returned null pointer"@))
            == error_object(json_displayed("ReadExcelFile returned null pointer"@)),
{
}

/// An abnormal termination before the outcome was sent gives the error
/// envelope for it, with the diagnostic after the fixed text; after that the
/// invocation is finished.
pub proof fn lemma_abnormal_end_gives_error(invocation: InvocationView, diagnostic: Seq<char>)
    requires
        invocation.stage != Stage::Finished,
    ensures
        invocation.react(EventView::Panicked(diagnostic)) == (
            Stage::Finished,
            ActionView::Send(CallOutcomeView::Failure("Thread panicked: "@ + diagnostic)),
        ),
        response(CallOutcomeView::Failure("Thread panicked: "@ + diagnostic)) == error_object(
            json_displayed("Thread panicked: "@ + diagnostic),
        ),
{
}

/// A result channel that closed with nothing sent gives the error envelope
/// for the failed receive.
pub proof fn lemma_nothing_received_gives_error(diagnostic: Seq<char>)
    ensures
        received_outcome(Err(diagnostic)) == CallOutcomeView::Failure(
            BridgeErrorView::Receive(diagnostic).message(),
        ),
        response(received_outcome(Err(diagnostic))) == error_object(
            json_displayed("Failed to receive result: "@ + diagnostic),
        ),
{
}

/// Two invocations made with the same texts and given the same reports hand
/// over the same outcomes, and equal outcomes reach the shell as the same
/// envelope: nothing of one invocation is left for the next.
pub proof fn lemma_repeated_invocation_agrees(
    first: InvocationView,
    second: InvocationView,
    events: Seq<EventView>,
)
    requires
        first.stage == Stage::Created,
        second.stage == Stage::Created,
        first.library_path == second.library_path,
        first.argument == second.argument,
    ensures
        first.answers(events) == second.answers(events),
        first.after_all(events) == second.after_all(events),
        forall|i: int|
            0 <= i < first.answers(events).len() ==> (#[trigger] first.answers(events)[i]
                matches ActionView::Send(one) ==> second.answers(events)[i] matches ActionView::Send(
                other,
            ) && response(one) == response(other)),
{
}

} // verus!

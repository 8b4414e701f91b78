//! One foreign call as a sequence of decisions. The host does the outside
//! work (loading the library, binding the symbol, making the call) inside an
//! isolated context and reports each result as an [`Event`]; the
//! [`Invocation`] answers with the next [`Action`] and, at the end, with the
//! one outcome to deliver.

use crate::error::{BridgeError, BridgeErrorView};
use crate::marshal::{decode_result, decoded_text, ForeignString};
use crate::outcome::{CallOutcome, CallOutcomeView};
use vstd::prelude::*;
use vstd::utf8::encode_utf8;

verus! {

/// How far an invocation has come.
#[derive(Clone, Copy, Debug, PartialEq, Eq, Structural)]
pub enum Stage {
    /// Nothing was asked of the host yet.
    Created,
    /// The host was asked to load the library.
    Loading,
    /// The library is loaded; the host was asked to bind the symbol.
    Binding,
    /// The symbol is bound; the host was asked to make the call.
    Calling,
    /// The outcome was handed over. Nothing follows.
    Finished,
}

/// What the host reports to the invocation.
#[derive(Debug, PartialEq, Eq)]
pub enum Event {
    /// The isolated context is running.
    Start,
    /// The library is loaded.
    LibraryLoaded,
    /// The library could not be loaded; holds the platform's message.
    LoadFailed(String),
    /// The symbol is bound.
    SymbolBound,
    /// The symbol could not be bound; holds the platform's message.
    BindFailed(String),
    /// The foreign function returned: `None` for a null pointer, else the
    /// bytes before the terminator.
    Returned(Option<Vec<u8>>),
    /// The isolated context terminated abnormally; holds the diagnostic.
    Panicked(String),
}

/// The mathematical value of an [`Event`].
pub enum EventView {
    Start,
    LibraryLoaded,
    LoadFailed(Seq<char>),
    SymbolBound,
    BindFailed(Seq<char>),
    Returned(Option<Seq<u8>>),
    Panicked(Seq<char>),
}

impl View for Event {
    type V = EventView;

    open spec fn view(&self) -> EventView {
        match self {
            Event::Start => EventView::Start,
            Event::LibraryLoaded => EventView::LibraryLoaded,
            Event::LoadFailed(detail) => EventView::LoadFailed(detail@),
            Event::SymbolBound => EventView::SymbolBound,
            Event::BindFailed(detail) => EventView::BindFailed(detail@),
            Event::Returned(returned) => EventView::Returned(
                match returned {
                    Some(bytes) => Some(bytes@),
                    None => None,
                },
            ),
            Event::Panicked(detail) => EventView::Panicked(detail@),
        }
    }
}

/// What the invocation asks of the host.
#[derive(Debug, PartialEq, Eq)]
pub enum Action {
    /// Load the dynamic library at this path.
    LoadLibrary(String),
    /// Bind the export of this name in the loaded library.
    BindSymbol(String),
    /// Call the bound function on this argument.
    Invoke(ForeignString),
    /// Hand this outcome over on the result channel and end the context.
    Send(CallOutcome),
    /// Do nothing: the event asked for no work.
    Idle,
}

/// The mathematical value of an [`Action`].
pub enum ActionView {
    LoadLibrary(Seq<char>),
    BindSymbol(Seq<char>),
    Invoke(Seq<u8>),
    Send(CallOutcomeView),
    Idle,
}

impl View for Action {
    type V = ActionView;

    open spec fn view(&self) -> ActionView {
        match self {
            Action::LoadLibrary(path) => ActionView::LoadLibrary(path@),
            Action::BindSymbol(name) => ActionView::BindSymbol(name@),
            Action::Invoke(argument) => ActionView::Invoke(argument@),
            Action::Send(outcome) => ActionView::Send(outcome@),
            Action::Idle => ActionView::Idle,
        }
    }
}

/// The export that the primary call goes to.
pub open spec fn symbol_name() -> Seq<char> {
    "ReadExcelFile"@
}

/// The mathematical value of an [`Invocation`]: its stage and the two texts
/// it was made with.
pub struct InvocationView {
    pub stage: Stage,
    pub library_path: Seq<char>,
    pub argument: Seq<char>,
}

impl InvocationView {
    /// The transition that ends the invocation with the failure `error`.
    pub open spec fn fail(error: BridgeErrorView) -> (Stage, ActionView) {
        (Stage::Finished, ActionView::Send(CallOutcomeView::Failure(error.message())))
    }

    /// The stage after `event` and the action that answers it.
    ///
    /// Each stage expects the result of the work it asked for. A failure of
    /// that work, and an abnormal termination at any stage but the last, ends
    /// the invocation with a failure outcome. An event that the stage does
    /// not expect changes nothing and asks for nothing.
    pub open spec fn react(self, event: EventView) -> (Stage, ActionView) {
        match (self.stage, event) {
            (Stage::Finished, _) => (Stage::Finished, ActionView::Idle),
            (_, EventView::Panicked(detail)) => Self::fail(BridgeErrorView::Panic(detail)),
            (Stage::Created, EventView::Start) => (
                Stage::Loading,
                ActionView::LoadLibrary(self.library_path),
            ),
            (Stage::Loading, EventView::LibraryLoaded) => (
                Stage::Binding,
                ActionView::BindSymbol(symbol_name()),
            ),
            (Stage::Loading, EventView::LoadFailed(detail)) => Self::fail(
                BridgeErrorView::Load(detail),
            ),
            (Stage::Binding, EventView::SymbolBound) => {
                if encode_utf8(self.argument).contains(0u8) {
                    Self::fail(BridgeErrorView::Encoding)
                } else {
                    (Stage::Calling, ActionView::Invoke(encode_utf8(self.argument).push(0u8)))
                }
            },
            (Stage::Binding, EventView::BindFailed(detail)) => Self::fail(
                BridgeErrorView::Symbol(detail),
            ),
            (Stage::Calling, EventView::Returned(None)) => Self::fail(BridgeErrorView::NullResult),
            (Stage::Calling, EventView::Returned(Some(bytes))) => (
                Stage::Finished,
                ActionView::Send(CallOutcomeView::Success(decoded_text(bytes))),
            ),
            _ => (self.stage, ActionView::Idle),
        }
    }

    /// The invocation after `event`.
    pub open spec fn after(self, event: EventView) -> InvocationView {
        InvocationView { stage: self.react(event).0, ..self }
    }

    /// The invocation after `events`, taken in order.
    pub open spec fn after_all(self, events: Seq<EventView>) -> InvocationView
        decreases events.len(),
    {
        if events.len() == 0 {
            self
        } else {
            self.after(events.first()).after_all(events.drop_first())
        }
    }

    /// The actions that answer `events`, taken in order.
    pub open spec fn answers(self, events: Seq<EventView>) -> Seq<ActionView>
        decreases events.len(),
    {
        if events.len() == 0 {
            Seq::empty()
        } else {
            seq![self.react(events.first()).1] + self.after(events.first()).answers(
                events.drop_first(),
            )
        }
    }
}

/// How many of `actions` hand an outcome over.
pub open spec fn outcomes_sent(actions: Seq<ActionView>) -> nat
    decreases actions.len(),
{
    if actions.len() == 0 {
        0
    } else if actions.first() is Send {
        1 + outcomes_sent(actions.drop_first())
    } else {
        outcomes_sent(actions.drop_first())
    }
}

/// The state of one foreign call.
#[derive(Debug)]
pub struct Invocation {
    stage: Stage,
    library_path: String,
    argument: String,
}

impl View for Invocation {
    type V = InvocationView;

    closed spec fn view(&self) -> InvocationView {
        InvocationView {
            stage: self.stage,
            library_path: self.library_path@,
            argument: self.argument@,
        }
    }
}

impl Invocation {
    /// A fresh invocation that will load the library at `library_path` and
    /// pass `argument` to the foreign function.
    pub fn new(library_path: String, argument: String) -> (invocation: Invocation)
        ensures
            invocation@ == (InvocationView {
                stage: Stage::Created,
                library_path: library_path@,
                argument: argument@,
            }),
    {
        Invocation { stage: Stage::Created, library_path, argument }
    }

    /// How far the invocation has come.
    pub fn stage(&self) -> (stage: Stage)
        ensures
            stage == self@.stage,
    {
        self.stage
    }

    /// Takes in what the host reports and answers with what to do next.
    pub fn step(&mut self, event: Event) -> (action: Action)
        ensures
            final(self)@ == old(self)@.after(event@),
            action@ == old(self)@.react(event@).1,
    {
        match (self.stage, event) {
            (Stage::Finished, _) => Action::Idle,
            (_, Event::Panicked(detail)) => self.finish(
                CallOutcome::from_error(&BridgeError::Panic(detail)),
            ),
            (Stage::Created, Event::Start) => {
                self.stage = Stage::Loading;
                Action::LoadLibrary(self.library_path.clone())
            },
            (Stage::Loading, Event::LibraryLoaded) => {
                self.stage = Stage::Binding;
                Action::BindSymbol(String::from_str("ReadExcelFile"))
            },
            (Stage::Loading, Event::LoadFailed(detail)) => self.finish(
                CallOutcome::from_error(&BridgeError::Load(detail)),
            ),
            (Stage::Binding, Event::SymbolBound) => {
                match ForeignString::encode(self.argument.as_str()) {
                    Ok(argument) => {
                        self.stage = Stage::Calling;
                        Action::Invoke(argument)
                    },
                    Err(error) => self.finish(CallOutcome::from_error(&error)),
                }
            },
            (Stage::Binding, Event::BindFailed(detail)) => self.finish(
                CallOutcome::from_error(&BridgeError::Symbol(detail)),
            ),
            (Stage::Calling, Event::Returned(returned)) => {
                match decode_result(&returned) {
                    Ok(text) => self.finish(CallOutcome::Success(text)),
                    Err(error) => self.finish(CallOutcome::from_error(&error)),
                }
            },
            _ => Action::Idle,
        }
    }

    /// Ends the invocation with `outcome`.
    fn finish(&mut self, outcome: CallOutcome) -> (action: Action)
        ensures
            final(self)@ == (InvocationView { stage: Stage::Finished, ..old(self)@ }),
            action@ == ActionView::Send(outcome@),
    {
        self.stage = Stage::Finished;
        Action::Send(outcome)
    }
}

/// Counting the outcomes of a sequence of actions goes action by action.
proof fn lemma_outcomes_sent_cons(action: ActionView, rest: Seq<ActionView>)
    ensures
        outcomes_sent(seq![action] + rest) == (if action is Send {
            1nat
        } else {
            0nat
        }) + outcomes_sent(rest),
{
    assert((seq![action] + rest).drop_first() == rest);
}

/// A finished invocation stays finished and asks for nothing more, whatever
/// is reported to it.
pub proof fn lemma_finished_is_final(invocation: InvocationView, events: Seq<EventView>)
    requires
        invocation.stage == Stage::Finished,
    ensures
        invocation.after_all(events) == invocation,
        invocation.answers(events).len() == events.len(),
        forall|i: int|
            0 <= i < events.len() ==> #[trigger] invocation.answers(events)[i] == ActionView::Idle,
        outcomes_sent(invocation.answers(events)) == 0,
    decreases events.len(),
{
    if events.len() > 0 {
        let next = invocation.after(events.first());
        assert(next == invocation);
        lemma_finished_is_final(next, events.drop_first());
        lemma_outcomes_sent_cons(
            invocation.react(events.first()).1,
            next.answers(events.drop_first()),
        );
    }
}

/// An invocation hands over at most one outcome, whatever is reported to it
/// and in whatever order.
pub proof fn lemma_at_most_one_outcome(invocation: InvocationView, events: Seq<EventView>)
    ensures
        outcomes_sent(invocation.answers(events)) <= 1,
    decreases events.len(),
{
    if events.len() > 0 {
        let action = invocation.react(events.first()).1;
        let next = invocation.after(events.first());
        lemma_outcomes_sent_cons(action, next.answers(events.drop_first()));
        if action is Send {
            lemma_finished_is_final(next, events.drop_first());
        } else {
            lemma_at_most_one_outcome(next, events.drop_first());
        }
    }
}

/// An unfinished invocation whose isolated context is then reported to have
/// terminated abnormally has handed over exactly one outcome, whatever was
/// reported in between: the one it had sent by then, or else the failure
/// that holds the diagnostic.
pub proof fn lemma_abnormal_end_leaves_one_outcome(
    invocation: InvocationView,
    events: Seq<EventView>,
    diagnostic: Seq<char>,
)
    requires
        invocation.stage != Stage::Finished,
    ensures
        outcomes_sent(invocation.answers(events.push(EventView::Panicked(diagnostic)))) == 1,
        invocation.after_all(events.push(EventView::Panicked(diagnostic))).stage
            == Stage::Finished,
    decreases events.len(),
{
    let all = events.push(EventView::Panicked(diagnostic));
    let action = invocation.react(all.first()).1;
    let next = invocation.after(all.first());
    lemma_outcomes_sent_cons(action, next.answers(all.drop_first()));
    if events.len() == 0 {
        assert(all.drop_first() == Seq::<EventView>::empty());
        assert(next.answers(all.drop_first()) == Seq::<ActionView>::empty());
        assert(next.after_all(all.drop_first()) == next);
    } else {
        assert(all.drop_first() == events.drop_first().push(EventView::Panicked(diagnostic)));
        assert(all.first() == events.first());
        if action is Send {
            lemma_finished_is_final(next, all.drop_first());
        } else {
            lemma_abnormal_end_leaves_one_outcome(next, events.drop_first(), diagnostic);
        }
    }
}

/// Once the library failed to load, the invocation is over: its outcome is
/// the load failure with the platform's message, and no later report makes it
/// bind a symbol, encode an argument or make a call.
pub proof fn lemma_load_failure_ends_invocation(
    invocation: InvocationView,
    detail: Seq<char>,
    later: Seq<EventView>,
)
    requires
        invocation.stage == Stage::Loading,
    ensures
        invocation.react(EventView::LoadFailed(detail)).1 == ActionView::Send(
            CallOutcomeView::Failure("Failed to load DLL: "@ + detail),
        ),
        forall|i: int|
            0 <= i < later.len() ==> #[trigger] invocation.after(
                EventView::LoadFailed(detail),
            ).answers(later)[i] == ActionView::Idle,
{
    lemma_finished_is_final(invocation.after(EventView::LoadFailed(detail)), later);
}

} // verus!

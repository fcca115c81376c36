//! How one connection is served, from the client's input to the tool's
//! result, as a machine that is told what happened and answers what to do
//! next.
//!
//! The task that owns the socket and the bridge runs the loop: it starts
//! with [`SessionAction::ReadInput`], performs each action and hands its
//! outcome to [`Session::step`]. Waiting is all on its side; every decision
//! is made here.

use crate::connection::websocket::common::Message;
use crate::error::{AbortReason, ConnectionError, ToolError};
use crate::value::dict::ValueDict;
use vstd::prelude::*;

verus! {

/// Where a session stands.
#[derive(Debug, Clone, Copy, PartialEq, Eq, Structural)]
pub enum Phase {
    AwaitingInput,
    Running,
    Draining,
    Completed,
    Failed,
}

/// What a session waits for.
#[derive(Debug, Clone, Copy, PartialEq, Eq, Structural)]
pub enum SessionState {
    /// The client's input is being read.
    AwaitingInput,
    /// The tool is being started on its own thread.
    Launching,
    /// The tool runs: its next message and the client's abort are awaited
    /// at once.
    Racing,
    /// A message of the tool is being sent to the client.
    Forwarding,
    /// The abort is being posted to the tool.
    Aborting,
    /// The end of the tool is awaited.
    Draining,
    /// The result is being sent to the client.
    Reporting,
    /// The result was sent.
    Completed,
    /// The session ended without a result being sent.
    Failed,
}

/// What happened: the outcome of the action that was asked for last.
#[derive(Debug)]
pub enum SessionEvent {
    /// Reading the input gave this.
    Input(Result<Option<ValueDict>, ConnectionError>),
    /// The tool was started.
    Launched,
    /// The race was won by the bridge: the next message of the tool, or
    /// `None` where the tool has dropped its half.
    Outbound(Option<String>),
    /// The race was won by the socket: reading an abort gave this.
    AbortRead(Result<Option<()>, ConnectionError>),
    /// Sending ended like this.
    Sent(Result<(), ConnectionError>),
    /// The abort was posted.
    AbortPosted,
    /// The tool ended: with what it returned, or with why its thread could
    /// not be joined.
    Joined(Result<Result<ValueDict, ToolError>, tokio::task::JoinError>),
}

/// What to do next.
#[derive(Debug)]
pub enum SessionAction {
    /// Read the input from the client.
    ReadInput,
    /// Make a bridge and start the tool on this input.
    Launch(ValueDict),
    /// Await the next message of the tool and an abort of the client at
    /// once, and report whichever comes first.
    Race,
    /// Send this message of the tool to the client.
    Forward(String),
    /// Post the abort to the tool.
    PostAbort(AbortReason),
    /// Await the end of the tool.
    Join,
    /// Send the result to the client.
    SendResult(Result<ValueDict, ToolError>),
    /// Release the connection; the session ended like this.
    Finish(Result<(), ConnectionError>),
    /// Nothing: the session has ended, or the event was not the outcome of
    /// what was asked for.
    Stop,
}

impl SessionState {
    pub open spec fn spec_phase(self) -> Phase {
        match self {
            SessionState::AwaitingInput => Phase::AwaitingInput,
            SessionState::Launching => Phase::Running,
            SessionState::Racing => Phase::Running,
            SessionState::Forwarding => Phase::Running,
            SessionState::Aborting => Phase::Running,
            SessionState::Draining => Phase::Draining,
            SessionState::Reporting => Phase::Completed,
            SessionState::Completed => Phase::Completed,
            SessionState::Failed => Phase::Failed,
        }
    }

    #[verifier::when_used_as_spec(spec_phase)]
    pub fn phase(self) -> (res: Phase)
        ensures
            res == self.spec_phase(),
    {
        match self {
            SessionState::AwaitingInput => Phase::AwaitingInput,
            SessionState::Launching => Phase::Running,
            SessionState::Racing => Phase::Running,
            SessionState::Forwarding => Phase::Running,
            SessionState::Aborting => Phase::Running,
            SessionState::Draining => Phase::Draining,
            SessionState::Reporting => Phase::Completed,
            SessionState::Completed => Phase::Completed,
            SessionState::Failed => Phase::Failed,
        }
    }

    /// Whether nothing follows.
    pub open spec fn spec_is_terminal(self) -> bool {
        self == SessionState::Completed || self == SessionState::Failed
    }

    #[verifier::when_used_as_spec(spec_is_terminal)]
    pub fn is_terminal(self) -> (res: bool)
        ensures
            res == self.spec_is_terminal(),
    {
        match self {
            SessionState::Completed => true,
            SessionState::Failed => true,
            _ => false,
        }
    }
}

/// The next state and the next action, by the state and what happened.
///
/// An abort is posted where the client asks for it and where the client is
/// gone: a connection that the client has left counts as a request to stop.
/// Any other failure of the connection ends the session at once. An event that is not the
/// outcome of the action in flight ends it too, with nothing left to do.
pub open spec fn transition(state: SessionState, event: SessionEvent) -> (
    SessionState,
    SessionAction,
) {
    match (state, event) {
        (SessionState::AwaitingInput, SessionEvent::Input(Ok(Some(input)))) => (
            SessionState::Launching,
            SessionAction::Launch(input),
        ),
        (SessionState::AwaitingInput, SessionEvent::Input(Ok(None))) => (
            SessionState::Failed,
            SessionAction::Finish(Err(ConnectionError::ConnectionClosed)),
        ),
        (SessionState::AwaitingInput, SessionEvent::Input(Err(err))) => (
            SessionState::Failed,
            SessionAction::Finish(Err(err)),
        ),
        (SessionState::Launching, SessionEvent::Launched) => (
            SessionState::Racing,
            SessionAction::Race,
        ),
        (SessionState::Racing, SessionEvent::Outbound(Some(text))) => (
            SessionState::Forwarding,
            SessionAction::Forward(text),
        ),
        (SessionState::Racing, SessionEvent::Outbound(None)) => (
            SessionState::Draining,
            SessionAction::Join,
        ),
        (SessionState::Racing, SessionEvent::AbortRead(Ok(Some(_)))) => (
            SessionState::Aborting,
            SessionAction::PostAbort(AbortReason::RequestedByClient),
        ),
        (SessionState::Racing, SessionEvent::AbortRead(Ok(None))) => (
            SessionState::Racing,
            SessionAction::Race,
        ),
        (SessionState::Racing, SessionEvent::AbortRead(Err(err))) => if err.is_disconnect() {
            (SessionState::Aborting, SessionAction::PostAbort(AbortReason::RequestedByClient))
        } else {
            (SessionState::Failed, SessionAction::Finish(Err(err)))
        },
        (SessionState::Forwarding, SessionEvent::Sent(Ok(_))) => (
            SessionState::Racing,
            SessionAction::Race,
        ),
        (SessionState::Forwarding, SessionEvent::Sent(Err(err))) => (
            SessionState::Failed,
            SessionAction::Finish(Err(err)),
        ),
        (SessionState::Aborting, SessionEvent::AbortPosted) => (
            SessionState::Draining,
            SessionAction::Join,
        ),
        (SessionState::Draining, SessionEvent::Joined(Ok(result))) => (
            SessionState::Reporting,
            SessionAction::SendResult(result),
        ),
        (SessionState::Draining, SessionEvent::Joined(Err(crash))) => (
            SessionState::Failed,
            SessionAction::Finish(Err(ConnectionError::ToolPanic(crash))),
        ),
        (SessionState::Reporting, SessionEvent::Sent(Ok(_))) => (
            SessionState::Completed,
            SessionAction::Finish(Ok(())),
        ),
        (SessionState::Reporting, SessionEvent::Sent(Err(err))) => (
            SessionState::Failed,
            SessionAction::Finish(Err(err)),
        ),
        (SessionState::Completed, _) => (SessionState::Completed, SessionAction::Stop),
        _ => (SessionState::Failed, SessionAction::Stop),
    }
}

/// One connection being served.
#[derive(Debug)]
pub struct Session {
    state: SessionState,
}

impl Session {
    pub closed spec fn spec_state(&self) -> SessionState {
        self.state
    }

    /// A session at its start, and the first thing to do: read the input.
    pub fn new() -> (res: (Session, SessionAction))
        ensures
            res.0.spec_state() == SessionState::AwaitingInput,
            res.1 == SessionAction::ReadInput,
    {
        (Session { state: SessionState::AwaitingInput }, SessionAction::ReadInput)
    }

    #[verifier::when_used_as_spec(spec_state)]
    pub fn state(&self) -> (res: SessionState)
        ensures
            res == self.spec_state(),
    {
        self.state
    }

    /// Takes what happened and answers what to do next.
    pub fn step(&mut self, event: SessionEvent) -> (action: SessionAction)
        ensures
            (final(self).spec_state(), action) == transition(old(self).spec_state(), event),
    {
        let (next, action) = match (self.state, event) {
            (SessionState::AwaitingInput, SessionEvent::Input(Ok(Some(input)))) => (
                SessionState::Launching,
                SessionAction::Launch(input),
            ),
            (SessionState::AwaitingInput, SessionEvent::Input(Ok(None))) => (
                SessionState::Failed,
                SessionAction::Finish(Err(ConnectionError::ConnectionClosed)),
            ),
            (SessionState::AwaitingInput, SessionEvent::Input(Err(err))) => (
                SessionState::Failed,
                SessionAction::Finish(Err(err)),
            ),
            (SessionState::Launching, SessionEvent::Launched) => (
                SessionState::Racing,
                SessionAction::Race,
            ),
            (SessionState::Racing, SessionEvent::Outbound(Some(text))) => (
                SessionState::Forwarding,
                SessionAction::Forward(text),
            ),
            (SessionState::Racing, SessionEvent::Outbound(None)) => (
                SessionState::Draining,
                SessionAction::Join,
            ),
            (SessionState::Racing, SessionEvent::AbortRead(Ok(Some(_)))) => (
                SessionState::Aborting,
                SessionAction::PostAbort(AbortReason::RequestedByClient),
            ),
            (SessionState::Racing, SessionEvent::AbortRead(Ok(None))) => (
                SessionState::Racing,
                SessionAction::Race,
            ),
            (SessionState::Racing, SessionEvent::AbortRead(Err(err))) => if err.is_disconnect() {
                (SessionState::Aborting, SessionAction::PostAbort(AbortReason::RequestedByClient))
            } else {
                (SessionState::Failed, SessionAction::Finish(Err(err)))
            },
            (SessionState::Forwarding, SessionEvent::Sent(Ok(_))) => (
                SessionState::Racing,
                SessionAction::Race,
            ),
            (SessionState::Forwarding, SessionEvent::Sent(Err(err))) => (
                SessionState::Failed,
                SessionAction::Finish(Err(err)),
            ),
            (SessionState::Aborting, SessionEvent::AbortPosted) => (
                SessionState::Draining,
                SessionAction::Join,
            ),
            (SessionState::Draining, SessionEvent::Joined(Ok(result))) => (
                SessionState::Reporting,
                SessionAction::SendResult(result),
            ),
            (SessionState::Draining, SessionEvent::Joined(Err(crash))) => (
                SessionState::Failed,
                SessionAction::Finish(Err(ConnectionError::ToolPanic(crash))),
            ),
            (SessionState::Reporting, SessionEvent::Sent(Ok(_))) => (
                SessionState::Completed,
                SessionAction::Finish(Ok(())),
            ),
            (SessionState::Reporting, SessionEvent::Sent(Err(err))) => (
                SessionState::Failed,
                SessionAction::Finish(Err(err)),
            ),
            (SessionState::Completed, _) => (SessionState::Completed, SessionAction::Stop),
            _ => (SessionState::Failed, SessionAction::Stop),
        };
        self.state = next;
        action
    }
}

/// The state that a run of events leaves a session in.
pub open spec fn end_state(state: SessionState, events: Seq<SessionEvent>) -> SessionState
    decreases events.len(),
{
    if events.len() == 0 {
        state
    } else {
        end_state(transition(state, events[0]).0, events.drop_first())
    }
}

/// The message that an action puts on the connection, if it puts one.
pub open spec fn sent(action: SessionAction) -> Seq<Message> {
    match action {
        SessionAction::Forward(text) => seq![Message::Message(text)],
        SessionAction::SendResult(result) => seq![Message::Result(result)],
        _ => Seq::empty(),
    }
}

/// The reason that an action posts to the tool, if it posts one.
pub open spec fn posted(action: SessionAction) -> Seq<AbortReason> {
    match action {
        SessionAction::PostAbort(reason) => seq![reason],
        _ => Seq::empty(),
    }
}

/// The messages that a session puts on the connection over a run of events,
/// in order.
pub open spec fn wire(state: SessionState, events: Seq<SessionEvent>) -> Seq<Message>
    decreases events.len(),
{
    if events.len() == 0 {
        Seq::empty()
    } else {
        let (next, action) = transition(state, events[0]);
        sent(action) + wire(next, events.drop_first())
    }
}

/// The reasons that a session posts to the tool over a run of events, in
/// order.
pub open spec fn aborts(state: SessionState, events: Seq<SessionEvent>) -> Seq<AbortReason>
    decreases events.len(),
{
    if events.len() == 0 {
        Seq::empty()
    } else {
        let (next, action) = transition(state, events[0]);
        posted(action) + aborts(next, events.drop_first())
    }
}

/// The messages of the tool among some events, in order.
pub open spec fn outbound(events: Seq<SessionEvent>) -> Seq<String>
    decreases events.len(),
{
    if events.len() == 0 {
        Seq::empty()
    } else {
        let first = match events[0] {
            SessionEvent::Outbound(Some(text)) => seq![text],
            _ => Seq::empty(),
        };
        first + outbound(events.drop_first())
    }
}

/// What the tool returned among some events, in order.
pub open spec fn returned(events: Seq<SessionEvent>) -> Seq<Result<ValueDict, ToolError>>
    decreases events.len(),
{
    if events.len() == 0 {
        Seq::empty()
    } else {
        let first = match events[0] {
            SessionEvent::Joined(Ok(result)) => seq![result],
            _ => Seq::empty(),
        };
        first + returned(events.drop_first())
    }
}

pub open spec fn as_messages(texts: Seq<String>) -> Seq<Message> {
    Seq::new(texts.len(), |i: int| Message::Message(texts[i]))
}

pub open spec fn as_results(results: Seq<Result<ValueDict, ToolError>>) -> Seq<Message> {
    Seq::new(results.len(), |i: int| Message::Result(results[i]))
}

/// A session that has ended stays as it ended and does nothing more.
pub proof fn lemma_ended_stays(state: SessionState, events: Seq<SessionEvent>)
    requires
        state.is_terminal(),
    ensures
        end_state(state, events) == state,
        wire(state, events) == Seq::<Message>::empty(),
        aborts(state, events) == Seq::<AbortReason>::empty(),
    decreases events.len(),
{
    if events.len() > 0 {
        lemma_ended_stays(state, events.drop_first());
    }
}

/// The abort is posted at most once, whatever happens and in whatever
/// order: once the client has asked, or is gone, nothing that follows is
/// posted again.
pub proof fn lemma_abort_once(state: SessionState, events: Seq<SessionEvent>)
    ensures
        aborts(state, events).len() <= 1,
        state.phase() != Phase::AwaitingInput && state.phase() != Phase::Running || state
            == SessionState::Aborting ==> aborts(state, events).len() == 0,
    decreases events.len(),
{
    if events.len() > 0 {
        let (next, action) = transition(state, events[0]);
        lemma_abort_once(next, events.drop_first());
    }
}

/// What a session puts on the connection is always some of the tool's
/// messages from the first on, in the order in which the tool sent them,
/// and then at most one result, the first that the tool returned. Gives how
/// many messages and how many results.
pub proof fn lemma_wire_in_order(state: SessionState, events: Seq<SessionEvent>) -> (counts: (
    int,
    int,
))
    ensures
        0 <= counts.0 <= outbound(events).len(),
        0 <= counts.1 <= returned(events).len(),
        counts.1 <= 1,
        wire(state, events) == as_messages(outbound(events).subrange(0, counts.0)) + as_results(
            returned(events).subrange(0, counts.1),
        ),
        state.phase() == Phase::Completed || state.phase() == Phase::Failed ==> counts == (
            0int,
            0int,
        ),
        state.phase() == Phase::Draining || state == SessionState::Aborting ==> counts.0 == 0,
    decreases events.len(),
{
    if events.len() == 0 {
        assert(wire(state, events) =~= as_messages(outbound(events).subrange(0, 0)) + as_results(
            returned(events).subrange(0, 0),
        ));
        (0, 0)
    } else {
        let (next, action) = transition(state, events[0]);
        let rest = events.drop_first();
        let (texts, results) = lemma_wire_in_order(next, rest);
        match action {
            SessionAction::Forward(text) => {
                assert(outbound(events) =~= seq![text] + outbound(rest));
                assert(returned(events) =~= returned(rest));
                assert(outbound(events).subrange(0, texts + 1) =~= seq![text] + outbound(rest).subrange(0, texts));
                assert(wire(state, events) =~= as_messages(
                    outbound(events).subrange(0, texts + 1),
                ) + as_results(returned(events).subrange(0, results)));
                (texts + 1, results)
            },
            SessionAction::SendResult(result) => {
                assert(returned(events) =~= seq![result] + returned(rest));
                assert(outbound(events) =~= outbound(rest));
                assert(texts == 0 && results == 0);
                assert(returned(events).subrange(0, 1) =~= seq![result]);
                assert(wire(state, events) =~= as_messages(outbound(events).subrange(0, 0))
                    + as_results(returned(events).subrange(0, 1)));
                (0, 1)
            },
            _ => {
                if next.is_terminal() {
                    lemma_ended_stays(next, rest);
                    assert(wire(state, events) =~= as_messages(outbound(events).subrange(0, 0))
                        + as_results(returned(events).subrange(0, 0)));
                    (0, 0)
                } else {
                    assert(outbound(events) =~= outbound(rest));
                    assert(returned(events) =~= returned(rest));
                    (texts, results)
                }
            },
        }
    }
}

/// A session that ends as completed has put on the connection every
/// message that the tool sent, in the tool's order, and after them the one
/// result that the tool returned, and nothing else.
pub proof fn lemma_completed_in_order(state: SessionState, events: Seq<SessionEvent>)
    requires
        events.len() > 0,
        end_state(state, events) == SessionState::Completed,
        end_state(state, events.drop_last()) != SessionState::Completed,
    ensures
        state == SessionState::Reporting ==> outbound(events).len() == 0 && returned(events).len() == 0,
        state != SessionState::Reporting ==> returned(events).len() == 1,
        wire(state, events) == as_messages(outbound(events)) + as_results(returned(events)),
    decreases events.len(),
{
    let (next, action) = transition(state, events[0]);
    let rest = events.drop_first();
    assert(events.drop_last().len() == 0 ==> end_state(state, events.drop_last()) == state);
    if state.is_terminal() {
        lemma_ended_stays(state, events);
        lemma_ended_stays(state, events.drop_last());
    } else if rest.len() == 0 {
        assert(end_state(next, rest) == next);
        assert(wire(next, rest) =~= Seq::<Message>::empty());
        assert(outbound(rest) =~= Seq::<String>::empty());
        assert(returned(rest) =~= Seq::<Result<ValueDict, ToolError>>::empty());
        assert(wire(state, events) =~= as_messages(outbound(events)) + as_results(
            returned(events),
        ));
    } else {
        assert(events.drop_last().drop_first() =~= rest.drop_last());
        if next.is_terminal() {
            lemma_ended_stays(next, rest);
            lemma_ended_stays(next, rest.drop_last());
        } else {
            lemma_completed_in_order(next, rest);
            match events[0] {
                SessionEvent::Outbound(Some(text)) => {
                    assert(outbound(events) =~= seq![text] + outbound(rest));
                },
                _ => {
                    assert(outbound(events) =~= outbound(rest));
                },
            }
            match events[0] {
                SessionEvent::Joined(Ok(result)) => {
                    assert(returned(events) =~= seq![result] + returned(rest));
                },
                _ => {
                    assert(returned(events) =~= returned(rest));
                },
            }
            assert(wire(state, events) =~= as_messages(outbound(events)) + as_results(
                returned(events),
            ));
        }
    }
}

} // verus!

//! How a tool is called from the client's side, as a machine that is told
//! what happened and answers what to do next.
//!
//! The caller owns the socket and the callback and runs the loop: it starts
//! with [`call`], performs each action and hands its outcome to
//! [`Call::step`] until the action is [`CallAction::Return`].

use crate::error::{ConnectionError, ToolCallError, ToolError};
use crate::value::dict::ValueDict;
use vstd::prelude::*;

verus! {

/// What a call waits for.
#[derive(Debug)]
pub enum CallState {
    /// The connection is being opened; the input waits to be sent.
    Connecting(ValueDict),
    /// The input is being sent.
    SendingInput,
    /// The next message of the tool is being read.
    ReadingMessage,
    /// The callback looks at a message.
    Asking,
    /// The abort is being sent, since the callback asked for it.
    SendingAbort,
    /// The connection is being closed after the abort.
    ClosingAborted,
    /// The result is being read.
    ReadingResult,
    /// The connection is being closed; the result waits to be returned.
    ClosingDone(Result<ValueDict, ToolError>),
    /// The call has returned.
    Done,
}

/// What happened: the outcome of the action that was asked for last.
#[derive(Debug)]
pub enum CallEvent {
    /// Opening the connection ended like this.
    Connected(Result<(), ConnectionError>),
    /// Sending ended like this.
    Sent(Result<(), ConnectionError>),
    /// Reading a message gave this.
    Message(Result<Option<String>, ConnectionError>),
    /// The callback answered: `true` to go on, `false` to abort.
    Verdict(bool),
    /// Reading the result gave this.
    Outcome(Result<Option<Result<ValueDict, ToolError>>, ConnectionError>),
    /// Closing the connection ended like this.
    Closed(Result<(), ConnectionError>),
}

/// What to do next.
#[derive(Debug)]
pub enum CallAction {
    /// Open a connection to this address.
    Connect(String),
    /// Send the input to the server.
    SendValues(ValueDict),
    /// Read the next message of the tool.
    ReadMessage,
    /// Hand this message to the callback.
    Ask(String),
    /// Send the abort to the server.
    SendAbort,
    /// Read the result.
    ReadResult,
    /// Close the connection.
    Close,
    /// Return this to the caller.
    Return(Result<ValueDict, ToolCallError>),
    /// Nothing: the call has returned before.
    Stop,
}

/// How a failure of the connection is reported to the caller. A server that
/// has left before the result arrived is no failure of the transport: the
/// server did not do its part.
pub open spec fn reported(err: ConnectionError) -> ToolCallError {
    if err.is_disconnect() {
        ToolCallError::ProtocolError
    } else {
        ToolCallError::ConnectionError(err)
    }
}

/// What the caller gets for what the tool returned.
pub open spec fn surfaced(result: Result<ValueDict, ToolError>) -> Result<
    ValueDict,
    ToolCallError,
> {
    match result {
        Ok(values) => Ok(values),
        Err(err) => Err(ToolCallError::ToolReturnedError(err)),
    }
}

/// The next state and the next action, by the state and what happened.
///
/// An event that is not the outcome of the action in flight ends the call
/// with a protocol error.
pub open spec fn transition(state: CallState, event: CallEvent) -> (CallState, CallAction) {
    match (state, event) {
        (CallState::Connecting(input), CallEvent::Connected(Ok(_))) => (
            CallState::SendingInput,
            CallAction::SendValues(input),
        ),
        (CallState::Connecting(_), CallEvent::Connected(Err(err))) => (
            CallState::Done,
            CallAction::Return(Err(ToolCallError::ConnectionError(err))),
        ),
        (CallState::SendingInput, CallEvent::Sent(Ok(_))) => (
            CallState::ReadingMessage,
            CallAction::ReadMessage,
        ),
        (CallState::SendingInput, CallEvent::Sent(Err(err))) => (
            CallState::Done,
            CallAction::Return(Err(ToolCallError::ConnectionError(err))),
        ),
        (CallState::ReadingMessage, CallEvent::Message(Ok(Some(text)))) => (
            CallState::Asking,
            CallAction::Ask(text),
        ),
        (CallState::ReadingMessage, CallEvent::Message(Ok(None))) => (
            CallState::ReadingResult,
            CallAction::ReadResult,
        ),
        (CallState::ReadingMessage, CallEvent::Message(Err(err))) => (
            CallState::Done,
            CallAction::Return(Err(reported(err))),
        ),
        (CallState::Asking, CallEvent::Verdict(go_on)) => if go_on {
            (CallState::ReadingMessage, CallAction::ReadMessage)
        } else {
            (CallState::SendingAbort, CallAction::SendAbort)
        },
        (CallState::SendingAbort, CallEvent::Sent(Ok(_))) => (
            CallState::ClosingAborted,
            CallAction::Close,
        ),
        (CallState::SendingAbort, CallEvent::Sent(Err(err))) => (
            CallState::Done,
            CallAction::Return(Err(ToolCallError::ConnectionError(err))),
        ),
        (CallState::ClosingAborted, CallEvent::Closed(Ok(_))) => (
            CallState::Done,
            CallAction::Return(Err(ToolCallError::OnMessageAbort)),
        ),
        (CallState::ClosingAborted, CallEvent::Closed(Err(err))) => (
            CallState::Done,
            CallAction::Return(Err(ToolCallError::ConnectionError(err))),
        ),
        (CallState::ReadingResult, CallEvent::Outcome(Ok(Some(result)))) => (
            CallState::ClosingDone(result),
            CallAction::Close,
        ),
        (CallState::ReadingResult, CallEvent::Outcome(Ok(None))) => (
            CallState::Done,
            CallAction::Return(Err(ToolCallError::ProtocolError)),
        ),
        (CallState::ReadingResult, CallEvent::Outcome(Err(err))) => (
            CallState::Done,
            CallAction::Return(Err(reported(err))),
        ),
        (CallState::ClosingDone(result), CallEvent::Closed(Ok(_))) => (
            CallState::Done,
            CallAction::Return(surfaced(result)),
        ),
        (CallState::ClosingDone(_), CallEvent::Closed(Err(err))) => (
            CallState::Done,
            CallAction::Return(Err(ToolCallError::ConnectionError(err))),
        ),
        (CallState::Done, _) => (CallState::Done, CallAction::Stop),
        _ => (CallState::Done, CallAction::Return(Err(ToolCallError::ProtocolError))),
    }
}

/// One call of a tool.
#[derive(Debug)]
pub struct Call {
    state: CallState,
}

/// Execute a tool hosted at url `addr` with inputs `input`.
///
/// This is meant to act as close as possible to a simple local function
/// call. Gives the call at its start and the first thing to do: open the
/// connection.
///
/// - `addr`: url of the server, e.g.: `"wss://tool-xxx-flyio.fly.dev/tool"`
/// - `input`: [`ValueDict`] of parameters that are passed to the tool
///
/// Every message that the server sends is handed out as
/// [`CallAction::Ask`]; the answer says whether the tool should continue
/// running or abort.
pub fn call(addr: &str, input: ValueDict) -> (res: (Call, CallAction))
    ensures
        res.0.spec_state() == CallState::Connecting(input),
        res.1 matches CallAction::Connect(to) && to@ == addr@,
{
    (Call { state: CallState::Connecting(input) }, CallAction::Connect(addr.to_owned()))
}

impl Call {
    pub closed spec fn spec_state(&self) -> CallState {
        self.state
    }

    /// Whether the call has returned.
    pub fn is_done(&self) -> (res: bool)
        ensures
            res == (self.spec_state() is Done),
    {
        match &self.state {
            CallState::Done => true,
            _ => false,
        }
    }

    /// Takes what happened and answers what to do next.
    pub fn step(&mut self, event: CallEvent) -> (action: CallAction)
        ensures
            (final(self).spec_state(), action) == transition(old(self).spec_state(), event),
    {
        let mut state = CallState::Done;
        core::mem::swap(&mut self.state, &mut state);
        let (next, action) = match (state, event) {
            (CallState::Connecting(input), CallEvent::Connected(Ok(_))) => (
                CallState::SendingInput,
                CallAction::SendValues(input),
            ),
            (CallState::Connecting(_), CallEvent::Connected(Err(err))) => (
                CallState::Done,
                CallAction::Return(Err(ToolCallError::ConnectionError(err))),
            ),
            (CallState::SendingInput, CallEvent::Sent(Ok(_))) => (
                CallState::ReadingMessage,
                CallAction::ReadMessage,
            ),
            (CallState::SendingInput, CallEvent::Sent(Err(err))) => (
                CallState::Done,
                CallAction::Return(Err(ToolCallError::ConnectionError(err))),
            ),
            (CallState::ReadingMessage, CallEvent::Message(Ok(Some(text)))) => (
                CallState::Asking,
                CallAction::Ask(text),
            ),
            (CallState::ReadingMessage, CallEvent::Message(Ok(None))) => (
                CallState::ReadingResult,
                CallAction::ReadResult,
            ),
            (CallState::ReadingMessage, CallEvent::Message(Err(err))) => (
                CallState::Done,
                CallAction::Return(Err(report(err))),
            ),
            (CallState::Asking, CallEvent::Verdict(go_on)) => if go_on {
                (CallState::ReadingMessage, CallAction::ReadMessage)
            } else {
                // abort was requested by client callback
                (CallState::SendingAbort, CallAction::SendAbort)
            },
            (CallState::SendingAbort, CallEvent::Sent(Ok(_))) => (
                CallState::ClosingAborted,
                CallAction::Close,
            ),
            (CallState::SendingAbort, CallEvent::Sent(Err(err))) => (
                CallState::Done,
                CallAction::Return(Err(ToolCallError::ConnectionError(err))),
            ),
            (CallState::ClosingAborted, CallEvent::Closed(Ok(_))) => (
                CallState::Done,
                CallAction::Return(Err(ToolCallError::OnMessageAbort)),
            ),
            (CallState::ClosingAborted, CallEvent::Closed(Err(err))) => (
                CallState::Done,
                CallAction::Return(Err(ToolCallError::ConnectionError(err))),
            ),
            (CallState::ReadingResult, CallEvent::Outcome(Ok(Some(result)))) => (
                CallState::ClosingDone(result),
                CallAction::Close,
            ),
            (CallState::ReadingResult, CallEvent::Outcome(Ok(None))) => (
                CallState::Done,
                CallAction::Return(Err(ToolCallError::ProtocolError)),
            ),
            (CallState::ReadingResult, CallEvent::Outcome(Err(err))) => (
                CallState::Done,
                CallAction::Return(Err(report(err))),
            ),
            (CallState::ClosingDone(result), CallEvent::Closed(Ok(_))) => (
                CallState::Done,
                CallAction::Return(surface(result)),
            ),
            (CallState::ClosingDone(_), CallEvent::Closed(Err(err))) => (
                CallState::Done,
                CallAction::Return(Err(ToolCallError::ConnectionError(err))),
            ),
            (CallState::Done, _) => (CallState::Done, CallAction::Stop),
            _ => (CallState::Done, CallAction::Return(Err(ToolCallError::ProtocolError))),
        };
        self.state = next;
        action
    }
}

/// Reports a failure of the connection to the caller.
pub fn report(err: ConnectionError) -> (res: ToolCallError)
    ensures
        res == reported(err),
{
    if err.is_disconnect() {
        ToolCallError::ProtocolError
    } else {
        ToolCallError::ConnectionError(err)
    }
}

/// Hands what the tool returned to the caller.
pub fn surface(result: Result<ValueDict, ToolError>) -> (res: Result<ValueDict, ToolCallError>)
    ensures
        res == surfaced(result),
{
    match result {
        Ok(values) => Ok(values),
        Err(err) => Err(ToolCallError::ToolReturnedError(err)),
    }
}

/// What an action returns to the caller, if it returns.
pub open spec fn handed_back(action: CallAction) -> Seq<Result<ValueDict, ToolCallError>> {
    match action {
        CallAction::Return(result) => seq![result],
        _ => Seq::empty(),
    }
}

/// What a call returns over a run of events, in order.
pub open spec fn returned(state: CallState, events: Seq<CallEvent>) -> Seq<
    Result<ValueDict, ToolCallError>,
>
    decreases events.len(),
{
    if events.len() == 0 {
        Seq::empty()
    } else {
        let (next, action) = transition(state, events[0]);
        handed_back(action) + returned(next, events.drop_first())
    }
}

/// How often a call sends the abort over a run of events.
pub open spec fn abort_count(state: CallState, events: Seq<CallEvent>) -> nat
    decreases events.len(),
{
    if events.len() == 0 {
        0
    } else {
        let (next, action) = transition(state, events[0]);
        (if action is SendAbort {
            1nat
        } else {
            0nat
        }) + abort_count(next, events.drop_first())
    }
}

/// The state that a run of events leaves a call in.
pub open spec fn end_state(state: CallState, events: Seq<CallEvent>) -> CallState
    decreases events.len(),
{
    if events.len() == 0 {
        state
    } else {
        end_state(transition(state, events[0]).0, events.drop_first())
    }
}

/// A call returns at most once, whatever happens and in whatever order;
/// once it is done it has returned, and it returns nothing more.
pub proof fn lemma_returns_once(state: CallState, events: Seq<CallEvent>)
    ensures
        returned(state, events).len() <= 1,
        state is Done ==> returned(state, events).len() == 0,
        end_state(state, events) is Done && !(state is Done) ==> returned(state, events).len()
            == 1,
    decreases events.len(),
{
    if events.len() > 0 {
        lemma_returns_once(transition(state, events[0]).0, events.drop_first());
    }
}

/// A call sends the abort at most once, and after it has sent it the call
/// never returns a value of the tool: it fails.
pub proof fn lemma_abort_ends_call(state: CallState, events: Seq<CallEvent>)
    ensures
        abort_count(state, events) <= 1,
        state is SendingAbort || state is ClosingAborted || state is Done ==> abort_count(state, events) == 0,
        (abort_count(state, events) == 1 || state is SendingAbort || state is ClosingAborted)
            ==> forall|i: int|
            0 <= i < returned(state, events).len() ==> returned(state, events)[i] is Err,
    decreases events.len(),
{
    if events.len() > 0 {
        let (next, action) = transition(state, events[0]);
        let rest = events.drop_first();
        lemma_abort_ends_call(next, rest);
        lemma_returns_once(next, rest);
        lemma_returns_once(state, events);
        if abort_count(state, events) == 1 || state is SendingAbort || state is ClosingAborted {
            assert forall|i: int| 0 <= i < returned(state, events).len() implies returned(state, events)[i] is Err by {
                if handed_back(action).len() == 0 {
                    assert(returned(state, events) =~= returned(next, rest));
                }
            }
        }
    }
}

} // verus!

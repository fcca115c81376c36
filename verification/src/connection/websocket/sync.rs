//! The client's end of a connection: what it keeps between two reads, and
//! what a read hands out. The socket itself stays with the caller, who reads
//! a frame from it whenever [`WsChannelSync::wants_frame`] says so.

use super::common::{Message, MessageBuffer, MessageKind};
use crate::error::{ConnectionError, ToolError};
use crate::value::dict::ValueDict;
use vstd::prelude::*;

verus! {

#[derive(Debug)]
pub struct WsChannelSync {
    /// If we tried to read a message of one type but received another, the
    /// message is buffered here.
    buffer: MessageBuffer,
}

impl WsChannelSync {
    /// The message that is buffered, if any.
    pub closed spec fn buffered(&self) -> Option<Message> {
        self.buffer.slot()
    }

    /// The end of a connection that was just opened: nothing is buffered.
    pub fn new() -> (res: Self)
        ensures
            res.buffered() is None,
    {
        WsChannelSync { buffer: MessageBuffer::new() }
    }

    /// Only try to read if we need to and are able to.
    pub fn wants_frame(&self, can_read: bool) -> (res: bool)
        ensures
            res == (self.buffered() is None && can_read),
    {
        self.buffer.wants_frame(can_read)
    }

    /// Fills the message buffer with what was read from the socket. A full
    /// buffer stays as it is and the message comes back.
    pub fn store(&mut self, message: Message) -> (refused: Option<Message>)
        ensures
            old(self).buffered() is None ==> final(self).buffered() == Some(message) && refused
                is None,
            old(self).buffered() is Some ==> final(self).buffered() == old(self).buffered()
                && refused == Some(message),
    {
        self.buffer.store(message)
    }

    /// The next line of progress, if that is what comes next.
    pub fn read_message(&mut self) -> (res: Result<Option<String>, ConnectionError>)
        ensures
            match old(self).buffered() {
                Some(Message::Message(text)) => res == Ok::<Option<String>, ConnectionError>(
                    Some(text),
                ) && final(self).buffered() is None,
                Some(_) => res == Ok::<Option<String>, ConnectionError>(None) && final(self).buffered() == old(self).buffered(),
                None => res == Err::<Option<String>, ConnectionError>(
                    ConnectionError::ConnectionClosed,
                ) && final(self).buffered() is None,
            },
    {
        match self.buffer.read_expecting(MessageKind::Message) {
            Ok(Some(Message::Message(text))) => Ok(Some(text)),
            Ok(_) => Ok(None),
            Err(err) => Err(err),
        }
    }

    /// The result of the tool, if that is what comes next.
    pub fn read_result(&mut self) -> (res: Result<
        Option<Result<ValueDict, ToolError>>,
        ConnectionError,
    >)
        ensures
            match old(self).buffered() {
                Some(Message::Result(result)) => res == Ok::<
                    Option<Result<ValueDict, ToolError>>,
                    ConnectionError,
                >(Some(result)) && final(self).buffered() is None,
                Some(_) => res == Ok::<Option<Result<ValueDict, ToolError>>, ConnectionError>(
                    None,
                ) && final(self).buffered() == old(self).buffered(),
                None => res == Err::<Option<Result<ValueDict, ToolError>>, ConnectionError>(
                    ConnectionError::ConnectionClosed,
                ) && final(self).buffered() is None,
            },
    {
        match self.buffer.read_expecting(MessageKind::Result) {
            Ok(Some(Message::Result(result))) => Ok(Some(result)),
            Ok(_) => Ok(None),
            Err(err) => Err(err),
        }
    }
}

} // verus!

//! The server's end of a connection: what it keeps between two reads, and
//! what a read hands out. The socket itself stays with the caller, who
//! awaits a frame from it whenever [`WsChannelServer::wants_frame`] says so.

use super::common::{Message, MessageBuffer, MessageKind};
use crate::error::ConnectionError;
use crate::value::dict::ValueDict;
use vstd::prelude::*;

verus! {

// NOTE: implementation is analogous to sync, look there for more comments
#[derive(Debug)]
pub struct WsChannelServer {
    buffer: MessageBuffer,
}

impl WsChannelServer {
    /// The message that is buffered, if any.
    pub closed spec fn buffered(&self) -> Option<Message> {
        self.buffer.slot()
    }

    pub fn new() -> (res: Self)
        ensures
            res.buffered() is None,
    {
        WsChannelServer { buffer: MessageBuffer::new() }
    }

    /// A closed stream hands out no frame any more, so a read is wanted
    /// whenever nothing is buffered and the stream has not ended.
    pub fn wants_frame(&self, can_read: bool) -> (res: bool)
        ensures
            res == (self.buffered() is None && can_read),
    {
        self.buffer.wants_frame(can_read)
    }

    pub fn store(&mut self, message: Message) -> (refused: Option<Message>)
        ensures
            old(self).buffered() is None ==> final(self).buffered() == Some(message) && refused
                is None,
            old(self).buffered() is Some ==> final(self).buffered() == old(self).buffered()
                && refused == Some(message),
    {
        self.buffer.store(message)
    }

    /// Whether the client asks to stop the tool, if that is what comes next.
    pub fn read_abort(&mut self) -> (res: Result<Option<()>, ConnectionError>)
        ensures
            match old(self).buffered() {
                Some(Message::Abort) => res == Ok::<Option<()>, ConnectionError>(Some(()))
                    && final(self).buffered() is None,
                Some(_) => res == Ok::<Option<()>, ConnectionError>(None) && final(self).buffered() == old(self).buffered(),
                None => res == Err::<Option<()>, ConnectionError>(
                    ConnectionError::ConnectionClosed,
                ) && final(self).buffered() is None,
            },
    {
        match self.buffer.read_expecting(MessageKind::Abort) {
            Ok(Some(_)) => Ok(Some(())),
            Ok(None) => Ok(None),
            Err(err) => Err(err),
        }
    }

    /// The input of the tool, if that is what comes next.
    pub fn read_values(&mut self) -> (res: Result<Option<ValueDict>, ConnectionError>)
        ensures
            match old(self).buffered() {
                Some(Message::Values(values)) => res == Ok::<Option<ValueDict>, ConnectionError>(
                    Some(values),
                ) && final(self).buffered() is None,
                Some(_) => res == Ok::<Option<ValueDict>, ConnectionError>(None) && final(self).buffered() == old(self).buffered(),
                None => res == Err::<Option<ValueDict>, ConnectionError>(
                    ConnectionError::ConnectionClosed,
                ) && final(self).buffered() is None,
            },
    {
        match self.buffer.read_expecting(MessageKind::Values) {
            Ok(Some(Message::Values(values))) => Ok(Some(values)),
            Ok(_) => Ok(None),
            Err(err) => Err(err),
        }
    }
}

} // verus!

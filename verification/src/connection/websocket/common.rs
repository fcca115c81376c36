//! Common structures shared by client and server.
//! This is the heart of the communication - both sides have to agree on this!

use crate::error::{ConnectionError, ParseError, ToolError};
use crate::value::dict::ValueDict;
use vstd::prelude::*;

verus! {

/// Kind of a frame; besides the check of incoming frames used for error
/// messages on a mismatch.
#[derive(Debug, Clone, Copy, PartialEq, Eq, Structural)]
pub enum WsMessageType {
    Text,
    Binary,
    Ping,
    Pong,
    Close,
}

/// One frame as a socket hands it over, whatever library the socket is of.
#[derive(Debug, Clone, PartialEq, Eq)]
pub enum WsFrame {
    Text(String),
    Binary(Vec<u8>),
    Ping(Vec<u8>),
    Pong(Vec<u8>),
    Close,
}

impl WsFrame {
    pub open spec fn kind(self) -> WsMessageType {
        match self {
            WsFrame::Text(_) => WsMessageType::Text,
            WsFrame::Binary(_) => WsMessageType::Binary,
            WsFrame::Ping(_) => WsMessageType::Ping,
            WsFrame::Pong(_) => WsMessageType::Pong,
            WsFrame::Close => WsMessageType::Close,
        }
    }
}

impl From<WsFrame> for WsMessageType {
    fn from(value: WsFrame) -> (res: Self)
        ensures
            res == value.kind(),
    {
        match value {
            WsFrame::Text(_) => WsMessageType::Text,
            WsFrame::Binary(_) => WsMessageType::Binary,
            WsFrame::Ping(_) => WsMessageType::Ping,
            WsFrame::Pong(_) => WsMessageType::Pong,
            WsFrame::Close => WsMessageType::Close,
        }
    }
}

impl vstd::std_specs::convert::FromSpecImpl<WsFrame> for WsMessageType {
    open spec fn obeys_from_spec() -> bool {
        true
    }

    open spec fn from_spec(value: WsFrame) -> Self {
        value.kind()
    }
}

/// The Zstandard frame that `ruzstd` writes for some bytes at its fastest
/// level.
pub uninterp spec fn zstd_frame(raw: Seq<u8>) -> Seq<u8>;

/// The bytes that `ruzstd` reads out of a Zstandard frame, where it reads it
/// to the end without an error.
pub uninterp spec fn zstd_content(frame: Seq<u8>) -> Option<Seq<u8>>;

/// Calls `ruzstd::encoding::compress_to_vec` at `CompressionLevel::Fastest`.
/// The result depends on the bytes alone: the encoder starts from a fresh
/// state on each call and reads nothing else.
#[verifier::external_body]
fn zstd_compress(raw: &[u8]) -> (out: Vec<u8>)
    ensures
        out@ == zstd_frame(raw@),
{
    ruzstd::encoding::compress_to_vec(raw, ruzstd::encoding::CompressionLevel::Fastest)
}

/// Reads a frame to its end through `ruzstd::decoding::StreamingDecoder`.
/// A header that the decoder refuses comes back as an I/O error, like a
/// failure while reading. Which of the two outcomes it is, and the bytes,
/// depend on the frame alone.
#[verifier::external_body]
fn zstd_decompress(frame: &[u8]) -> (res: Result<Vec<u8>, std::io::Error>)
    ensures
        match res {
            Ok(out) => zstd_content(frame@) == Some(out@),
            Err(_) => zstd_content(frame@) is None,
        },
{
    let mut decoder = ruzstd::decoding::StreamingDecoder::new(frame).map_err(
        std::io::Error::other,
    )?;
    let mut out = Vec::new();
    std::io::Read::read_to_end(&mut decoder, &mut out)?;
    Ok(out)
}

/// What unpacking a frame gives: the content of a binary frame, where there
/// is any to read.
pub open spec fn unpacked(frame: WsFrame) -> Option<Seq<u8>> {
    match frame {
        WsFrame::Binary(raw) => zstd_content(raw@),
        _ => None,
    }
}

/// Compresses the bytes of a written message.
pub fn serialize(raw: &[u8]) -> (out: Vec<u8>)
    ensures
        out@ == zstd_frame(raw@),
{
    zstd_compress(raw)
}

/// Decompresses what a binary frame holds, into the bytes of a written
/// message.
pub fn deserialize(raw: &[u8]) -> (res: Result<Vec<u8>, ParseError>)
    ensures
        match res {
            Ok(out) => zstd_content(raw@) == Some(out@),
            Err(err) => zstd_content(raw@) is None && err is DecompressionError,
        },
{
    match zstd_decompress(raw) {
        Ok(out) => Ok(out),
        Err(err) => Err(ParseError::DecompressionError(err)),
    }
}

/// The frame that carries the bytes of a written message.
pub fn pack(raw: &[u8]) -> (frame: WsFrame)
    ensures
        frame matches WsFrame::Binary(out) && out@ == zstd_frame(raw@),
{
    WsFrame::Binary(serialize(raw))
}

/// The bytes of the written message that a frame carries.
///
/// Only a binary frame carries one. A frame of any other kind is refused
/// with the kind that was found, whatever it holds.
pub fn unpack(frame: WsFrame) -> (res: Result<Vec<u8>, ParseError>)
    ensures
        !(frame is Binary) ==> res matches Err(ParseError::WrongMessageType { .. }),
        match res {
            Ok(out) => unpacked(frame) == Some(out@),
            Err(ParseError::WrongMessageType { expected, found }) => {
                &&& !(frame is Binary)
                &&& expected == WsMessageType::Binary
                &&& found == frame.kind()
            },
            Err(ParseError::DecompressionError(_)) => frame is Binary && unpacked(frame) is None,
            Err(_) => false,
        },
{
    match frame {
        WsFrame::Binary(raw) => deserialize(raw.as_slice()),
        other => Err(
            ParseError::WrongMessageType {
                expected: WsMessageType::Binary,
                found: WsMessageType::from(other),
            },
        ),
    }
}

/// What a read of the socket brought: the bytes of a written message, or
/// nothing where the stream has ended.
///
/// A failure of the socket is handed on as it is. A frame that carries no
/// written message is a parse error.
pub fn intake(next: Option<Result<WsFrame, ConnectionError>>) -> (res: Result<
    Option<Vec<u8>>,
    ConnectionError,
>)
    ensures
        match next {
            None => res == Ok::<Option<Vec<u8>>, ConnectionError>(None),
            Some(Err(err)) => res == Err::<Option<Vec<u8>>, ConnectionError>(err),
            Some(Ok(frame)) => match res {
                Ok(Some(out)) => unpacked(frame) == Some(out@),
                Ok(None) => false,
                Err(ConnectionError::ParseError(ParseError::WrongMessageType { expected, found })) => {
                    &&& !(frame is Binary)
                    &&& expected == WsMessageType::Binary
                    &&& found == frame.kind()
                },
                Err(ConnectionError::ParseError(ParseError::DecompressionError(_))) => frame
                    is Binary && unpacked(frame) is None,
                Err(_) => false,
            },
        },
{
    match next {
        None => Ok(None),
        Some(Err(err)) => Err(err),
        Some(Ok(frame)) => match unpack(frame) {
            Ok(out) => Ok(Some(out)),
            Err(err) => Err(ConnectionError::ParseError(err)),
        },
    }
}

/// What the two ends of a connection say to each other.
#[derive(Debug)]
pub enum Message {
    /// The input of the tool, from the client.
    Values(ValueDict),
    /// The output of the tool or why there is none, from the server; nothing
    /// follows it.
    Result(Result<ValueDict, ToolError>),
    /// A line of progress, from the server.
    Message(String),
    /// The request to stop the tool, from the client.
    Abort,
}

/// Which of the messages one is.
#[derive(Debug, Clone, Copy, PartialEq, Eq, Structural)]
pub enum MessageKind {
    Values,
    Result,
    Message,
    Abort,
}

impl Message {
    pub open spec fn spec_kind(&self) -> MessageKind {
        match self {
            Message::Values(_) => MessageKind::Values,
            Message::Result(_) => MessageKind::Result,
            Message::Message(_) => MessageKind::Message,
            Message::Abort => MessageKind::Abort,
        }
    }

    #[verifier::when_used_as_spec(spec_kind)]
    pub fn kind(&self) -> (res: MessageKind)
        ensures
            res == self.spec_kind(),
    {
        match self {
            Message::Values(_) => MessageKind::Values,
            Message::Result(_) => MessageKind::Result,
            Message::Message(_) => MessageKind::Message,
            Message::Abort => MessageKind::Abort,
        }
    }

    /// The name of the variant, for error messages.
    pub fn typename(&self) -> (res: &'static str)
        ensures
            res@ == match self {
                Message::Values(_) => "WsMessage::Values"@,
                Message::Result(_) => "WsMessage::Result"@,
                Message::Message(_) => "WsMessage::Message"@,
                Message::Abort => "WsMessage::Abort"@,
            },
    {
        match self {
            Message::Values(_) => "WsMessage::Values",
            Message::Result(_) => "WsMessage::Result",
            Message::Message(_) => "WsMessage::Message",
            Message::Abort => "WsMessage::Abort",
        }
    }
}

/// The one place where a channel end keeps a message that arrived while
/// a message of another kind was asked for.
///
/// One socket then serves readers that each ask for their own kind: a
/// message that the one does not take stays for the other. Nothing is read
/// from the socket while the place is taken, so no message is dropped and
/// none overtakes another.
#[derive(Debug)]
pub struct MessageBuffer {
    slot: Option<Message>,
}

/// What asking a buffer for a kind of message gives, and what it leaves in
/// the buffer.
pub open spec fn read_outcome(slot: Option<Message>, kind: MessageKind) -> (
    Result<Option<Message>, ConnectionError>,
    Option<Message>,
) {
    match slot {
        Some(message) => if message.kind() == kind {
            (Ok(Some(message)), None)
        } else {
            (Ok(None), Some(message))
        },
        None => (Err(ConnectionError::ConnectionClosed), None),
    }
}

impl MessageBuffer {
    /// The message that is kept, if any.
    pub closed spec fn slot(&self) -> Option<Message> {
        self.slot
    }

    pub fn new() -> (res: Self)
        ensures
            res.slot() is None,
    {
        MessageBuffer { slot: None }
    }

    /// Whether the next frame is to be read from the socket now: only where
    /// no message is kept and the socket can still be read.
    pub fn wants_frame(&self, can_read: bool) -> (res: bool)
        ensures
            res == (self.slot() is None && can_read),
    {
        self.slot.is_none() && can_read
    }

    /// Keeps a message that was read from the socket. Where one is kept
    /// already, nothing changes and the new one is handed back.
    pub fn store(&mut self, message: Message) -> (refused: Option<Message>)
        ensures
            old(self).slot() is None ==> final(self).slot() == Some(message) && refused is None,
            old(self).slot() is Some ==> final(self).slot() == old(self).slot() && refused
                == Some(message),
    {
        if self.slot.is_none() {
            self.slot = Some(message);
            None
        } else {
            Some(message)
        }
    }

    /// Hands out the kept message where it is of the kind asked for.
    ///
    /// A kept message of another kind stays and `Ok(None)` says that none of
    /// this kind is there yet. With nothing kept the connection is closed:
    /// the caller reads the socket before asking, as long as it can be read.
    pub fn read_expecting(&mut self, kind: MessageKind) -> (res: Result<
        Option<Message>,
        ConnectionError,
    >)
        ensures
            (res, final(self).slot()) == read_outcome(old(self).slot(), kind),
    {
        match self.slot.take() {
            Some(message) => {
                if message.kind() == kind {
                    Ok(Some(message))
                } else {
                    self.slot = Some(message);
                    Ok(None)
                }
            },
            None => Err(ConnectionError::ConnectionClosed),
        }
    }
}

/// The messages that a buffer holds, in order: one or none.
pub open spec fn held(slot: Option<Message>) -> Seq<Message> {
    match slot {
        Some(message) => seq![message],
        None => Seq::empty(),
    }
}

/// The messages that a read hands out: one or none.
pub open spec fn delivered(res: Result<Option<Message>, ConnectionError>) -> Seq<Message> {
    match res {
        Ok(Some(message)) => seq![message],
        _ => Seq::empty(),
    }
}

/// One read by a consumer of a socket that will still hand out `pending`:
/// a frame is taken from the socket where the buffer wants one, then the
/// buffer is asked for the kind. Gives what the read returns, what stays in
/// the buffer and what the socket still holds.
pub open spec fn serve(slot: Option<Message>, pending: Seq<Message>, kind: MessageKind) -> (
    Result<Option<Message>, ConnectionError>,
    Option<Message>,
    Seq<Message>,
) {
    if slot is None && pending.len() > 0 {
        let (res, left) = read_outcome(Some(pending[0]), kind);
        (res, left, pending.drop_first())
    } else {
        let (res, left) = read_outcome(slot, kind);
        (res, left, pending)
    }
}

/// The messages handed out by a run of reads, one for each kind asked for in
/// turn, then what the buffer keeps and what the socket still holds.
pub open spec fn serve_all(slot: Option<Message>, pending: Seq<Message>, kinds: Seq<MessageKind>)
    -> (Seq<Message>, Option<Message>, Seq<Message>)
    decreases kinds.len(),
{
    if kinds.len() == 0 {
        (Seq::empty(), slot, pending)
    } else {
        let (res, slot1, pending1) = serve(slot, pending, kinds[0]);
        let (rest, slot2, pending2) = serve_all(slot1, pending1, kinds.drop_first());
        (delivered(res) + rest, slot2, pending2)
    }
}

/// A read neither loses a message nor lets one overtake another: what it
/// hands out, then what it keeps, then what the socket still holds, are the
/// messages that were there before, in their order.
pub proof fn lemma_serve_keeps_order(
    slot: Option<Message>,
    pending: Seq<Message>,
    kind: MessageKind,
)
    ensures
        ({
            let (res, left, rest) = serve(slot, pending, kind);
            delivered(res) + held(left) + rest == held(slot) + pending
        }),
        serve(slot, pending, kind).0 matches Ok(Some(message)) ==> message.kind() == kind,
{
    let (res, left, rest) = serve(slot, pending, kind);
    if slot is None && pending.len() > 0 {
        assert(seq![pending[0]] + pending.drop_first() =~= pending);
    }
    assert(delivered(res) + held(left) + rest =~= held(slot) + pending);
}

/// Whatever kinds are asked for and in whatever order, the messages come out
/// in the order in which the socket handed them over, and none is lost.
pub proof fn lemma_reads_keep_order(
    slot: Option<Message>,
    pending: Seq<Message>,
    kinds: Seq<MessageKind>,
)
    ensures
        ({
            let (out, left, rest) = serve_all(slot, pending, kinds);
            out + held(left) + rest == held(slot) + pending
        }),
    decreases kinds.len(),
{
    let (out, left, rest) = serve_all(slot, pending, kinds);
    if kinds.len() == 0 {
        assert(out + held(left) + rest =~= held(slot) + pending);
    } else {
        let (res, slot1, pending1) = serve(slot, pending, kinds[0]);
        let (more, slot2, pending2) = serve_all(slot1, pending1, kinds.drop_first());
        lemma_serve_keeps_order(slot, pending, kinds[0]);
        lemma_reads_keep_order(slot1, pending1, kinds.drop_first());
        assert(out + held(left) + rest =~= delivered(res) + (more + held(slot2) + pending2));
        assert(delivered(res) + (held(slot1) + pending1) =~= delivered(res) + held(slot1)
            + pending1);
    }
}

} // verus!

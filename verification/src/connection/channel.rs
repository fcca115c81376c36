//! The bridge between the thread that runs a tool and the task that serves
//! its connection: a queue of messages one way, a single abort the other.

use crate::error::AbortReason;
use vstd::prelude::*;

verus! {

/// The sending half of `tokio`'s bounded queue.
#[verifier::external_type_specification]
#[verifier::external_body]
#[verifier::reject_recursive_types(T)]
pub struct ExQueueSender<T>(tokio::sync::mpsc::Sender<T>);

/// The receiving half of `tokio`'s bounded queue.
#[verifier::external_type_specification]
#[verifier::external_body]
#[verifier::reject_recursive_types(T)]
pub struct ExQueueReceiver<T>(tokio::sync::mpsc::Receiver<T>);

/// The sending half of `tokio`'s one-shot slot.
#[verifier::external_type_specification]
#[verifier::external_body]
#[verifier::reject_recursive_types(T)]
pub struct ExSlotSender<T>(tokio::sync::oneshot::Sender<T>);

/// The receiving half of `tokio`'s one-shot slot.
#[verifier::external_type_specification]
#[verifier::external_body]
#[verifier::reject_recursive_types(T)]
pub struct ExSlotReceiver<T>(tokio::sync::oneshot::Receiver<T>);

/// What awaiting `tokio`'s one-shot slot fails with; named by the slot's
/// type, never handled here.
#[verifier::external_type_specification]
#[verifier::external_body]
pub struct ExSlotClosed(tokio::sync::oneshot::error::RecvError);

/// How many messages may wait in the queue before a send blocks.
pub const QUEUE_CAPACITY: usize = 1024;

/// What a look into the abort slot finds.
#[derive(Debug, Clone, PartialEq, Eq)]
pub enum AbortPoll {
    /// An abort was posted, with its reason.
    Posted(AbortReason),
    /// Nothing was posted so far.
    Empty,
    /// Nothing will be posted any more: the other half is gone, or what was
    /// posted has been taken out before.
    Closed,
}

/// Held by the tool: sends messages and learns of an abort.
pub struct BridgeSender {
    msg_tx: tokio::sync::mpsc::Sender<String>,
    abort_rx: tokio::sync::oneshot::Receiver<AbortReason>,
    /// The reason that the tool was told once, to be told again.
    stopped: Option<AbortReason>,
}

/// Held by the task that serves the connection: takes the messages out and
/// posts the abort.
pub struct BridgeReceiver {
    pub msg_rx: tokio::sync::mpsc::Receiver<String>,
    abort_tx: tokio::sync::oneshot::Sender<AbortReason>,
}

/// The most messages that a queue of `tokio` holds before a send waits:
/// what `Sender::max_capacity` returns. It is the capacity that the queue
/// was made with and stays the same for as long as the queue lives.
pub uninterp spec fn queue_bound(queue: tokio::sync::mpsc::Sender<String>) -> usize;

/// Calls `tokio::sync::mpsc::channel`, which makes a queue with room for
/// `capacity` messages: that is the bound which its sending half reports
/// from then on. It panics on a capacity of zero and on one above the
/// permits of `tokio`'s semaphore, which are `usize::MAX >> 3`.
#[verifier::external_body]
fn message_queue(capacity: usize) -> (res: (
    tokio::sync::mpsc::Sender<String>,
    tokio::sync::mpsc::Receiver<String>,
))
    requires
        0 < capacity <= usize::MAX / 8,
    ensures
        queue_bound(res.0) == capacity,
{
    tokio::sync::mpsc::channel(capacity)
}

/// Calls `Sender::max_capacity` of `tokio`'s queue, which reads the bound
/// that the queue was made with.
#[verifier::external_body]
fn max_capacity(queue: &tokio::sync::mpsc::Sender<String>) -> (res: usize)
    ensures
        res == queue_bound(*queue),
{
    queue.max_capacity()
}

/// Calls `tokio::sync::oneshot::channel`.
#[verifier::external_body]
fn abort_slot() -> (res: (
    tokio::sync::oneshot::Sender<AbortReason>,
    tokio::sync::oneshot::Receiver<AbortReason>,
))
{
    tokio::sync::oneshot::channel()
}

/// Calls `Sender::blocking_send` of `tokio`'s queue: waits for room, then
/// puts the message in. It fails where the receiving half is gone, and the
/// error is handed on as its text. Whether it fails depends on the other
/// thread, so nothing is said of the result. It is for threads outside the
/// runtime: `tokio` panics where it is called from a task.
#[verifier::external_body]
fn enqueue(queue: &tokio::sync::mpsc::Sender<String>, msg: String) -> (res: Result<(), String>) {
    match queue.blocking_send(msg) {
        Ok(()) => Ok(()),
        Err(err) => Err(err.to_string()),
    }
}

/// Calls `Receiver::try_recv` of `tokio`'s one-shot slot, which never waits.
/// What it finds depends on the other thread, so nothing is said of the
/// result.
#[verifier::external_body]
fn poll_abort(slot: &mut tokio::sync::oneshot::Receiver<AbortReason>) -> (res: AbortPoll) {
    match slot.try_recv() {
        Ok(reason) => AbortPoll::Posted(reason),
        Err(tokio::sync::oneshot::error::TryRecvError::Empty) => AbortPoll::Empty,
        Err(tokio::sync::oneshot::error::TryRecvError::Closed) => AbortPoll::Closed,
    }
}

/// Calls `Sender::send` of `tokio`'s one-shot slot, which never waits. It
/// hands the reason back where the receiving half is gone.
#[verifier::external_body]
fn post_abort(slot: tokio::sync::oneshot::Sender<AbortReason>, reason: AbortReason) -> (res:
    Result<(), AbortReason>) {
    slot.send(reason)
}

/// A copy of a reason.
pub fn copy_reason(reason: &AbortReason) -> (res: AbortReason)
    ensures
        res == *reason,
{
    match reason {
        AbortReason::RequestedByClient => AbortReason::RequestedByClient,
        AbortReason::ChannelError(text) => AbortReason::ChannelError(text.clone()),
        AbortReason::ConnectionClosed => AbortReason::ConnectionClosed,
    }
}

/// What a tool is told on a send, and the reason that it has been told from
/// then on.
///
/// A reason that was told before is told again, whatever happened since. A
/// reason that is found posted is told next, also where the queue is gone:
/// posting uses the receiving half up. Else a queue that is gone is a
/// channel error, and a slot that is gone is a closed connection. Only where
/// the message went into the queue and nothing was posted, the tool goes on.
pub open spec fn verdict(
    stopped: Option<AbortReason>,
    enqueued: Result<(), String>,
    polled: AbortPoll,
) -> (Result<(), AbortReason>, Option<AbortReason>) {
    match (stopped, polled, enqueued) {
        (Some(reason), _, _) => (Err(reason), Some(reason)),
        (None, AbortPoll::Posted(reason), _) => (Err(reason), Some(reason)),
        (None, _, Err(text)) => (
            Err(AbortReason::ChannelError(text)),
            Some(AbortReason::ChannelError(text)),
        ),
        (None, AbortPoll::Closed, Ok(_)) => (
            Err(AbortReason::ConnectionClosed),
            Some(AbortReason::ConnectionClosed),
        ),
        (None, AbortPoll::Empty, Ok(_)) => (Ok(()), None),
    }
}

/// Decides what the tool is told on a send: by the reason it was told
/// before, by whether the message went into the queue and by what the abort
/// slot held.
pub fn decide(stopped: Option<AbortReason>, enqueued: Result<(), String>, polled: AbortPoll) -> (res:
    (Result<(), AbortReason>, Option<AbortReason>))
    ensures
        res == verdict(stopped, enqueued, polled),
{
    match (stopped, polled, enqueued) {
        (Some(reason), _, _) => (Err(copy_reason(&reason)), Some(reason)),
        (None, AbortPoll::Posted(reason), _) => (Err(copy_reason(&reason)), Some(reason)),
        (None, _, Err(text)) => (
            Err(AbortReason::ChannelError(text.clone())),
            Some(AbortReason::ChannelError(text)),
        ),
        (None, AbortPoll::Closed, Ok(_)) => (
            Err(AbortReason::ConnectionClosed),
            Some(AbortReason::ConnectionClosed),
        ),
        (None, AbortPoll::Empty, Ok(_)) => (Ok(()), None),
    }
}

/// A tool that was told a reason is told the same reason on every send that
/// follows, and never to go on.
pub proof fn lemma_reason_stays(
    reason: AbortReason,
    enqueued: Result<(), String>,
    polled: AbortPoll,
)
    ensures
        verdict(Some(reason), enqueued, polled) == (
            Err::<(), AbortReason>(reason),
            Some(reason),
        ),
{
}

/// A tool is told to stop exactly where a reason is kept for the sends that
/// follow: the reason it was just told.
pub proof fn lemma_told_is_kept(
    stopped: Option<AbortReason>,
    enqueued: Result<(), String>,
    polled: AbortPoll,
)
    ensures
        verdict(stopped, enqueued, polled).0 matches Err(reason) ==> verdict(
            stopped,
            enqueued,
            polled,
        ).1 == Some(reason),
        verdict(stopped, enqueued, polled).0 is Ok ==> verdict(stopped, enqueued, polled).1
            is None && stopped is None && enqueued is Ok && polled is Empty,
{
}

/// Makes the two halves of a bridge: a queue that holds up to
/// [`QUEUE_CAPACITY`] messages before a send waits, and an abort slot in
/// which nothing was posted yet, so the tool has been told no reason.
pub fn connect() -> (res: (BridgeSender, BridgeReceiver))
    ensures
        res.0.stopped() is None,
        res.0.capacity() == QUEUE_CAPACITY,
{
    // Channel for sending messages to the client
    let (msg_tx, msg_rx) = message_queue(QUEUE_CAPACITY);
    // Channel for sending an abort message to the tool
    let (abort_tx, abort_rx) = abort_slot();

    (BridgeSender { msg_tx, abort_rx, stopped: None }, BridgeReceiver { msg_rx, abort_tx })
}

impl BridgeSender {
    /// The reason that this half has told the tool, if it has told one.
    pub closed spec fn stopped(&self) -> Option<AbortReason> {
        self.stopped
    }

    pub closed spec fn spec_capacity(&self) -> usize {
        queue_bound(self.msg_tx)
    }

    /// How many messages the queue holds before a send waits.
    #[verifier::when_used_as_spec(spec_capacity)]
    pub fn capacity(&self) -> (res: usize)
        ensures
            res == self.spec_capacity(),
    {
        max_capacity(&self.msg_tx)
    }

    /// If this function returns Ok(()), the message was sent successfully.
    /// If it returns an error, the tool should abort - the client might have
    /// crashed, requested an abort or the connection was closed.
    ///
    /// What is returned is decided by [`verdict`] from what the queue and
    /// the abort slot gave. The reason of the first error is told on every
    /// call that follows.
    ///
    /// # Blocking
    /// This function blocks on sending the message until the queue has
    /// room. It is for the thread that runs the tool.
    ///
    /// # Panics
    /// It panics where it is called in an `async` context, that is from a
    /// thread that drives the runtime: `tokio` refuses to block there.
    pub fn send(&mut self, msg: String) -> (res: Result<(), AbortReason>)
        ensures
            exists|enqueued: Result<(), String>, polled: AbortPoll|
                (res, final(self).stopped()) == verdict(old(self).stopped(), enqueued, polled),
            old(self).stopped() matches Some(reason) ==> res == Err::<(), AbortReason>(reason)
                && final(self).stopped() == old(self).stopped(),
            res matches Err(reason) ==> final(self).stopped() == Some(reason),
            res is Ok ==> final(self).stopped() is None,
            final(self).capacity() == old(self).capacity(),
    {
        let enqueued = enqueue(&self.msg_tx, msg);
        let polled = poll_abort(&mut self.abort_rx);
        let mut stopped = None;
        core::mem::swap(&mut self.stopped, &mut stopped);
        let (res, kept) = decide(stopped, enqueued, polled);
        self.stopped = kept;
        proof {
            assert((res, self.stopped()) == verdict(old(self).stopped(), enqueued, polled));
        }
        res
    }
}

impl BridgeReceiver {
    /// Next time the tool calls [`BridgeSender::send`] it will receive the
    /// abort reason. This half is used up, so a second abort cannot be
    /// posted. Where the tool has dropped its half already, nothing is left
    /// to tell and the reason is dropped.
    pub fn abort(self, reason: AbortReason) {
        // Ignore error: if we can't send, the tool probably has quit already
        let _ = post_abort(self.abort_tx, reason);
    }
}

} // verus!

//! The hand-off queue: a crossbeam channel of capacity one, with both of its
//! ends held here.
//!
//! The emulator puts a notice on it each time it attaches a new display, and
//! the presentation side polls it once per frame. A producer that finds the
//! queue full gets its item back and must wait until the consumer has drained
//! it: swaps are never dropped or overwritten, and arrive in order.
use crossbeam::channel::{Receiver, Sender};
use vstd::prelude::*;

verus! {

/// A first-in first-out queue of display notices, of capacity one. Both ends
/// of the channel stay inside, so nothing else can send or receive on it and
/// it can never be disconnected; what it holds is [`handoff_pending`].
#[verifier::external_body]
#[derive(Debug)]
pub struct HandoffQueue {
    tx: Sender<u64>,
    rx: Receiver<u64>,
}

/// The notices waiting in a hand-off queue, oldest first.
pub uninterp spec fn handoff_pending(q: HandoffQueue) -> Seq<u64>;

impl View for HandoffQueue {
    type V = Seq<u64>;

    open spec fn view(&self) -> Seq<u64> {
        handoff_pending(*self)
    }
}

/// Relies on `crossbeam::channel::bounded(1)`: a new channel holds nothing.
#[verifier::external_body]
fn new_channel() -> (r: HandoffQueue)
    ensures
        handoff_pending(r) == Seq::<u64>::empty(),
{
    let (tx, rx) = crossbeam::channel::bounded(1);
    HandoffQueue { tx, rx }
}

/// Relies on `Sender::is_full`: a channel of capacity one is full once it
/// holds a message.
#[verifier::external_body]
fn channel_is_full(q: &HandoffQueue) -> (r: bool)
    ensures
        r == (handoff_pending(*q).len() != 0),
{
    q.tx.is_full()
}

/// Relies on `Sender::try_send`: on a channel of capacity one that is empty
/// the message is queued; on a full one it comes back in `TrySendError::Full`
/// and nothing changes. The receiver is held alongside, so the channel is
/// never disconnected.
#[verifier::external_body]
fn channel_try_send(q: &mut HandoffQueue, item: u64) -> (r: Result<(), u64>)
    ensures
        handoff_pending(*old(q)).len() == 0 ==> (r is Ok),
        handoff_pending(*old(q)).len() == 0 ==> handoff_pending(*final(q)) == Seq::<u64>::empty().push(item),
        handoff_pending(*old(q)).len() != 0 ==> (r is Err) && r->Err_0 == item,
        handoff_pending(*old(q)).len() != 0 ==> handoff_pending(*final(q)) == handoff_pending(
            *old(q),
        ),
{
    q.tx.try_send(item).map_err(|e| e.into_inner())
}

/// Relies on `Receiver::try_recv`: the oldest message if there is one,
/// without waiting, and `TryRecvError::Empty` otherwise.
#[verifier::external_body]
fn channel_try_recv(q: &mut HandoffQueue) -> (r: Option<u64>)
    ensures
        handoff_pending(*old(q)).len() == 0 ==> r == None::<u64>,
        handoff_pending(*old(q)).len() == 0 ==> handoff_pending(*final(q)) == handoff_pending(
            *old(q),
        ),
        handoff_pending(*old(q)).len() != 0 ==> r == Some(handoff_pending(*old(q))[0]),
        handoff_pending(*old(q)).len() != 0 ==> handoff_pending(*final(q)) == handoff_pending(
            *old(q),
        ).drop_first(),
{
    q.rx.try_recv().ok()
}

impl HandoffQueue {
    /// An empty queue.
    pub fn new() -> (r: HandoffQueue)
        ensures
            r@ == Seq::<u64>::empty(),
    {
        new_channel()
    }

    /// True when a notice waits to be taken.
    pub fn is_full(&self) -> (r: bool)
        ensures
            r == (self@.len() != 0),
    {
        channel_is_full(self)
    }

    /// Offer `item`. On an empty queue it is accepted; on a full one it is
    /// handed back untouched and the queue is unchanged.
    pub fn try_send(&mut self, item: u64) -> (r: Result<(), u64>)
        ensures
            old(self)@.len() == 0 ==> (r is Ok) && final(self)@ == seq![item],
            old(self)@.len() != 0 ==> r == Err::<(), u64>(item) && final(self)@ == old(self)@,
    {
        channel_try_send(self, item)
    }

    /// Take the oldest notice, if any, without waiting. An empty queue is the
    /// normal case and not an error.
    pub fn try_recv(&mut self) -> (r: Option<u64>)
        ensures
            old(self)@.len() == 0 ==> r == None::<u64> && final(self)@ == old(self)@,
            old(self)@.len() != 0 ==> r == Some(old(self)@[0]) && final(self)@ == old(
                self,
            )@.drop_first(),
    {
        channel_try_recv(self)
    }
}

} // verus!

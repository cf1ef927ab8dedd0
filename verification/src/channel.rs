//! The result channel: an unbounded FIFO queue carrying verification records
//! from the producer (the tree walker) to the consumer (the driver loop).
//!
//! The queue is flume's; both ends are held in one value so that its contents
//! can be spoken of soundly. `channel_queue` names the records sent and not
//! yet received, oldest first; `channel_send_open` says whether the sending
//! end is still in place, which is what the consumer's three-state poll turns
//! on once the queue is empty.

use vstd::prelude::*;
use crate::outcome::VerifyErr;

verus! {

/// An unbounded FIFO queue of verification records, both ends in one hand.
/// Backed by a flume channel.
#[verifier::external_body]
pub struct ResultChannel {
    tx: Option<flume::Sender<VerifyErr>>,
    rx: flume::Receiver<VerifyErr>,
}

/// The records sent and not yet received, oldest first.
pub uninterp spec fn channel_queue(c: ResultChannel) -> Seq<VerifyErr>;

/// Whether the sending end is still in place.
pub uninterp spec fn channel_send_open(c: ResultChannel) -> bool;

/// What one poll of the channel found: a record, nothing yet while the
/// sending end is open, or the end of the stream.
pub enum RecvPoll {
    Item(VerifyErr),
    Pending,
    Closed,
}

impl ResultChannel {
    /// Relies on flume::unbounded: a fresh channel is empty, and sending on
    /// it never blocks.
    #[verifier::external_body]
    pub fn new() -> (c: ResultChannel)
        ensures
            channel_queue(c) == Seq::<VerifyErr>::empty(),
            channel_send_open(c),
    {
        let (tx, rx) = flume::unbounded();
        ResultChannel { tx: Some(tx), rx }
    }

    /// Relies on flume::Sender::send: appends the record to the queue; the
    /// send cannot be refused, since the receiving end is held right here.
    #[verifier::external_body]
    pub fn send(&mut self, e: VerifyErr)
        requires
            channel_send_open(*old(self)),
        ensures
            channel_send_open(*final (self)),
            channel_queue(*final (self)) == channel_queue(*old(self)).push(e),
    {
        if let Some(tx) = self.tx.as_ref() {
            let _ = tx.send(e);
        }
    }

    /// Relies on dropping a flume::Sender: the queue's contents stay, and
    /// once the last sender is gone the receiver can see the end of the
    /// stream.
    #[verifier::external_body]
    pub fn close_sender(&mut self)
        ensures
            !channel_send_open(*final (self)),
            channel_queue(*final (self)) == channel_queue(*old(self)),
    {
        self.tx = None;
    }

    /// Relies on flume::Receiver::try_recv: pops the oldest record if one is
    /// queued; on an empty queue it reports `Empty` while a sender exists and
    /// `Disconnected` once none does.
    #[verifier::external_body]
    pub fn try_recv(&mut self) -> (r: RecvPoll)
        ensures
            channel_send_open(*final (self)) == channel_send_open(*old(self)),
            channel_queue(*old(self)).len() > 0 ==> (r == RecvPoll::Item(
                channel_queue(*old(self))[0],
            ) && channel_queue(*final (self)) == channel_queue(*old(self)).drop_first()),
            channel_queue(*old(self)).len() == 0 ==> (channel_queue(*final (self))
                == channel_queue(*old(self)) && r == (if channel_send_open(*old(self)) {
                RecvPoll::Pending
            } else {
                RecvPoll::Closed
            })),
    {
        match self.rx.try_recv() {
            Ok(e) => RecvPoll::Item(e),
            Err(flume::TryRecvError::Empty) => RecvPoll::Pending,
            Err(flume::TryRecvError::Disconnected) => RecvPoll::Closed,
        }
    }
}

} // verus!

//! A sender that may drop the oldest queued message to make room for a new
//! one, over crossbeam's bounded channels.
use crossbeam_channel::{Receiver, Sender};
use std::time::{Duration, Instant};
use vstd::prelude::*;

verus! {

#[verifier::external_type_specification]
#[verifier::external_body]
#[verifier::reject_recursive_types(T)]
pub struct ExSender<T>(Sender<T>);

#[verifier::external_type_specification]
#[verifier::external_body]
#[verifier::reject_recursive_types(T)]
pub struct ExReceiver<T>(Receiver<T>);

#[verifier::external_type_specification]
#[verifier::external_body]
pub struct ExInstant(Instant);

/// Why a message could not be put into a channel at once; the message comes back.
pub enum TrySendError<T> {
    /// The channel holds as many messages as it can.
    Full(T),
    /// Every receiver is gone.
    Disconnected(T),
}

/// The message could not be sent because every receiver is gone; the message comes back.
pub struct SendError<T>(pub T);

/// Why a message could not be sent in time; the message comes back.
pub enum SendTimeoutError<T> {
    /// The channel stayed full until the time ran out.
    Timeout(T),
    /// Every receiver is gone.
    Disconnected(T),
}

/// Why no message could be taken from a channel at once.
pub enum TryRecvError {
    /// No message is waiting.
    Empty,
    /// No message is waiting and every sender is gone.
    Disconnected,
}

/// Whether a failed attempt gave the message back unchanged.
pub open spec fn try_send_gave_back<T>(res: Result<(), TrySendError<T>>, msg: T) -> bool {
    match res {
        Ok(_) => true,
        Err(TrySendError::Full(m)) => m == msg,
        Err(TrySendError::Disconnected(m)) => m == msg,
    }
}

/// Whether a failed timed send gave the message back unchanged.
pub open spec fn send_timeout_gave_back<T>(res: Result<(), SendTimeoutError<T>>, msg: T) -> bool {
    match res {
        Ok(_) => true,
        Err(SendTimeoutError::Timeout(m)) => m == msg,
        Err(SendTimeoutError::Disconnected(m)) => m == msg,
    }
}

/// Calls `crossbeam_channel::bounded`, which panics only when `cap` is too
/// large to lay out the channel's indices; the bound below rules that out.
/// What the channel holds changes with other threads, so nothing is claimed
/// of the two ends.
#[verifier::external_body]
pub(crate) fn channel_bounded<T>(cap: usize) -> (Sender<T>, Receiver<T>)
    requires
        cap <= usize::MAX / 4,
{
    crossbeam_channel::bounded(cap)
}

/// Calls `Receiver::clone`: another receiving end of the same channel.
/// Nothing is claimed of it.
#[verifier::external_body]
fn receiver_clone<T>(receiver: &Receiver<T>) -> Receiver<T> {
    receiver.clone()
}

/// Calls `Sender::try_send`. Whether the message is taken depends on the
/// other threads; crossbeam documents that a refused message comes back in
/// the error, which is what is claimed.
#[verifier::external_body]
pub(crate) fn sender_try_send<T>(sender: &Sender<T>, msg: T) -> (res: Result<(), TrySendError<T>>)
    ensures
        try_send_gave_back(res, msg),
{
    match sender.try_send(msg) {
        Ok(()) => Ok(()),
        Err(crossbeam_channel::TrySendError::Full(m)) => Err(TrySendError::Full(m)),
        Err(crossbeam_channel::TrySendError::Disconnected(m)) => Err(TrySendError::Disconnected(m)),
    }
}

/// Calls `Sender::send`, which waits while the channel is full. A refused
/// message comes back in the error.
#[verifier::external_body]
pub(crate) fn sender_send<T>(sender: &Sender<T>, msg: T) -> (res: Result<(), SendError<T>>)
    ensures
        res matches Err(SendError(m)) ==> m == msg,
{
    match sender.send(msg) {
        Ok(()) => Ok(()),
        Err(crossbeam_channel::SendError(m)) => Err(SendError(m)),
    }
}

/// Calls `Sender::send_timeout`. A refused message comes back in the error.
#[verifier::external_body]
fn sender_send_timeout<T>(sender: &Sender<T>, msg: T, timeout: Duration) -> (res: Result<(), SendTimeoutError<T>>)
    ensures
        send_timeout_gave_back(res, msg),
{
    match sender.send_timeout(msg, timeout) {
        Ok(()) => Ok(()),
        Err(crossbeam_channel::SendTimeoutError::Timeout(m)) => Err(SendTimeoutError::Timeout(m)),
        Err(crossbeam_channel::SendTimeoutError::Disconnected(m)) => Err(SendTimeoutError::Disconnected(m)),
    }
}

/// Calls `Sender::send_deadline`. A refused message comes back in the error.
#[verifier::external_body]
fn sender_send_deadline<T>(sender: &Sender<T>, msg: T, deadline: Instant) -> (res: Result<(), SendTimeoutError<T>>)
    ensures
        send_timeout_gave_back(res, msg),
{
    match sender.send_deadline(msg, deadline) {
        Ok(()) => Ok(()),
        Err(crossbeam_channel::SendTimeoutError::Timeout(m)) => Err(SendTimeoutError::Timeout(m)),
        Err(crossbeam_channel::SendTimeoutError::Disconnected(m)) => Err(SendTimeoutError::Disconnected(m)),
    }
}

/// Calls `Sender::is_empty`; the answer depends on the other threads.
#[verifier::external_body]
fn sender_is_empty<T>(sender: &Sender<T>) -> bool {
    sender.is_empty()
}

/// Calls `Sender::is_full`; the answer depends on the other threads.
#[verifier::external_body]
fn sender_is_full<T>(sender: &Sender<T>) -> bool {
    sender.is_full()
}

/// Calls `Sender::len`; the answer depends on the other threads.
#[verifier::external_body]
fn sender_len<T>(sender: &Sender<T>) -> usize {
    sender.len()
}

/// Calls `Sender::capacity`. Nothing is claimed: the channel it was made
/// with is not named here.
#[verifier::external_body]
fn sender_capacity<T>(sender: &Sender<T>) -> Option<usize> {
    sender.capacity()
}

/// Calls `Sender::same_channel`. Nothing is claimed: the identity of a
/// channel is not named here.
#[verifier::external_body]
fn sender_same_channel<T>(sender: &Sender<T>, other: &Sender<T>) -> bool {
    sender.same_channel(other)
}

/// Calls `Receiver::try_recv`. Whether a message is waiting depends on the
/// other threads, so nothing is claimed of the result.
#[verifier::external_body]
pub(crate) fn receiver_try_recv<T>(receiver: &Receiver<T>) -> Result<T, TryRecvError> {
    match receiver.try_recv() {
        Ok(m) => Ok(m),
        Err(crossbeam_channel::TryRecvError::Empty) => Err(TryRecvError::Empty),
        Err(crossbeam_channel::TryRecvError::Disconnected) => Err(TryRecvError::Disconnected),
    }
}

/// Calls `Receiver::recv`, which waits for a message; `None` stands for its
/// error, which comes when the channel is empty and every sender is gone.
/// Nothing is claimed of the message.
#[verifier::external_body]
pub(crate) fn receiver_recv<T>(receiver: &Receiver<T>) -> Option<T> {
    match receiver.recv() {
        Ok(message) => Some(message),
        Err(_) => None,
    }
}

/// Calls `Receiver::is_empty`; the answer depends on the other threads.
#[verifier::external_body]
pub(crate) fn receiver_is_empty<T>(receiver: &Receiver<T>) -> bool {
    receiver.is_empty()
}

/// What `loosely_send` does after its first attempt to send.
pub enum LooseStep<T> {
    /// The send is over, with this result.
    Done(Result<(), TrySendError<T>>),
    /// The channel was full: drop the oldest queued message and try once more
    /// with this message.
    Retry(T),
}

/// Decides, from the result of the first attempt, whether `loosely_send` is
/// done or must make room and try again.
pub fn loose_step<T>(first: Result<(), TrySendError<T>>) -> (step: LooseStep<T>)
    ensures
        match first {
            Ok(()) => step matches LooseStep::Done(Ok(())),
            Err(TrySendError::Full(m)) => step == LooseStep::Retry(m),
            Err(TrySendError::Disconnected(m)) => step == LooseStep::Done(Err(TrySendError::Disconnected(m))),
        },
{
    match first {
        Ok(_) => LooseStep::Done(Ok(())),
        Err(TrySendError::Full(data)) => LooseStep::Retry(data),
        Err(TrySendError::Disconnected(data)) => LooseStep::Done(Err(TrySendError::Disconnected(data))),
    }
}

/// The messages a send put into the channel: the message when it was taken,
/// none when it was refused.
pub open spec fn sent_by<T>(taken: bool, msg: T) -> Seq<T> {
    if taken {
        seq![msg]
    } else {
        Seq::empty()
    }
}

/// One thing a loose sender did to its channel.
pub enum ChannelOp<T> {
    /// It offered a message; whether the channel took it.
    Offered(T, bool),
    /// It took the oldest queued message out, if there was one, to make room.
    MadeRoom,
}

/// What one offer of `msg` did to the channel.
pub open spec fn offered<T>(msg: T, taken: bool) -> Seq<ChannelOp<T>> {
    seq![ChannelOp::Offered(msg, taken)]
}

/// What a loose send of `msg` did to the channel: an offer, or, when the
/// channel refused it as full (`retried`), a refused offer, one message
/// taken out to make room, and a second offer.
pub open spec fn loose_ops<T>(msg: T, retried: bool, taken: bool) -> Seq<ChannelOp<T>> {
    if retried {
        seq![ChannelOp::Offered(msg, false), ChannelOp::MadeRoom, ChannelOp::Offered(msg, taken)]
    } else {
        offered(msg, taken)
    }
}

/// The sending end of a bounded channel that can also take a message out of
/// it, so that a new message never waits behind stale ones. It keeps a record
/// of every message it put into the channel, in order.
#[verifier::reject_recursive_types(T)]
pub struct LooseSender<T> {
    sender: Sender<T>,
    dropper: Receiver<T>,
    sent: Ghost<Seq<T>>,
    ops: Ghost<Seq<ChannelOp<T>>>,
}

impl<T> LooseSender<T> {
    /// Every message this sender put into the channel, oldest first; a
    /// message dropped later to make room stays on the record.
    pub closed spec fn sent(&self) -> Seq<T> {
        self.sent@
    }

    /// Everything this sender did to its channel, oldest first.
    pub closed spec fn ops(&self) -> Seq<ChannelOp<T>> {
        self.ops@
    }

    /// Sends without waiting; a refused message comes back, a taken one goes
    /// on the record.
    pub fn try_send(&mut self, msg: T) -> (res: Result<(), TrySendError<T>>)
        ensures
            try_send_gave_back(res, msg),
            final(self).sent() == old(self).sent() + sent_by(res is Ok, msg),
            final(self).ops() == old(self).ops() + offered(msg, res is Ok),
    {
        let ghost m = msg;
        let res = sender_try_send(&self.sender, msg);
        proof {
            self.sent@ = self.sent@ + sent_by(res is Ok, m);
            self.ops@ = self.ops@ + offered(m, res is Ok);
        }
        res
    }

    /// Sends, waiting while the channel is full; a refused message comes back,
    /// a taken one goes on the record.
    pub fn send(&mut self, msg: T) -> (res: Result<(), SendError<T>>)
        ensures
            res matches Err(SendError(m)) ==> m == msg,
            final(self).sent() == old(self).sent() + sent_by(res is Ok, msg),
            final(self).ops() == old(self).ops() + offered(msg, res is Ok),
    {
        let ghost m = msg;
        let res = sender_send(&self.sender, msg);
        proof {
            self.sent@ = self.sent@ + sent_by(res is Ok, m);
            self.ops@ = self.ops@ + offered(m, res is Ok);
        }
        res
    }

    /// Sends, waiting at most `timeout`; a refused message comes back, a taken
    /// one goes on the record.
    pub fn send_timeout(&mut self, msg: T, timeout: Duration) -> (res: Result<(), SendTimeoutError<T>>)
        ensures
            send_timeout_gave_back(res, msg),
            final(self).sent() == old(self).sent() + sent_by(res is Ok, msg),
            final(self).ops() == old(self).ops() + offered(msg, res is Ok),
    {
        let ghost m = msg;
        let res = sender_send_timeout(&self.sender, msg, timeout);
        proof {
            self.sent@ = self.sent@ + sent_by(res is Ok, m);
            self.ops@ = self.ops@ + offered(m, res is Ok);
        }
        res
    }

    /// Sends, waiting at most until `deadline`; a refused message comes back,
    /// a taken one goes on the record.
    pub fn send_deadline(&mut self, msg: T, deadline: Instant) -> (res: Result<(), SendTimeoutError<T>>)
        ensures
            send_timeout_gave_back(res, msg),
            final(self).sent() == old(self).sent() + sent_by(res is Ok, msg),
            final(self).ops() == old(self).ops() + offered(msg, res is Ok),
    {
        let ghost m = msg;
        let res = sender_send_deadline(&self.sender, msg, deadline);
        proof {
            self.sent@ = self.sent@ + sent_by(res is Ok, m);
            self.ops@ = self.ops@ + offered(m, res is Ok);
        }
        res
    }

    /// Whether no message is queued.
    pub fn is_empty(&self) -> bool {
        sender_is_empty(&self.sender)
    }

    /// Whether the channel holds as many messages as it can.
    pub fn is_full(&self) -> bool {
        sender_is_full(&self.sender)
    }

    /// How many messages are queued.
    pub fn len(&self) -> usize {
        sender_len(&self.sender)
    }

    /// The channel's capacity, for a bounded channel.
    pub fn capacity(&self) -> Option<usize> {
        sender_capacity(&self.sender)
    }

    /// Whether `other` sends into the same channel.
    pub fn same_channel(&self, other: &Sender<T>) -> bool {
        sender_same_channel(&self.sender, other)
    }

    /// Sends without waiting; when the channel is full, drops the oldest
    /// queued message and tries once more. A refused message comes back, a
    /// taken one goes on the record.
    pub fn loosely_send(&mut self, msg: T) -> (res: Result<(), TrySendError<T>>)
        ensures
            try_send_gave_back(res, msg),
            final(self).sent() == old(self).sent() + sent_by(res is Ok, msg),
            exists|retried: bool|
                {
                    &&& final(self).ops() == old(self).ops() + #[trigger] loose_ops(msg, retried, res is Ok)
                    &&& !retried ==> !(res matches Err(TrySendError::Full(_)))
                },
    {
        let ghost m = msg;
        let first = sender_try_send(&self.sender, msg);
        let ghost retried = first matches Err(TrySendError::Full(_));
        let res = match loose_step(first) {
            LooseStep::Done(res) => res,
            LooseStep::Retry(data) => {
                let _ = receiver_try_recv(&self.dropper);
                sender_try_send(&self.sender, data)
            },
        };
        proof {
            self.sent@ = self.sent@ + sent_by(res is Ok, m);
            self.ops@ = self.ops@ + loose_ops(m, retried, res is Ok);
        }
        res
    }
}

/// A bounded channel of capacity `cap` whose sending end may drop the oldest
/// queued message to make room; nothing has been sent yet.
pub fn loose<T>(cap: usize) -> (ends: (LooseSender<T>, Receiver<T>))
    requires
        cap <= usize::MAX / 4,
    ensures
        ends.0.sent() == Seq::<T>::empty(),
        ends.0.ops() == Seq::<ChannelOp<T>>::empty(),
{
    let (sender, receiver) = channel_bounded(cap);
    let sender = LooseSender {
        sender,
        dropper: receiver_clone(&receiver),
        sent: Ghost(Seq::empty()),
        ops: Ghost(Seq::empty()),
    };
    (sender, receiver)
}

} // verus!

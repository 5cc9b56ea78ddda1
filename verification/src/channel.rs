//! The drop-aware channel: a bounded queue between two ends, each of which can learn
//! without blocking that the other is gone.
//!
//! Neither end ever blocks. An end that wants to wait for room, or for a value, tries
//! again: `Full` and `Empty` say that it is worth waiting, `Disconnected` that it is
//! not.

use vstd::prelude::*;
use vstd::rwlock::RwLock;
use vstd::rwlock::RwLockPredicate;
use std::sync::atomic::AtomicBool;
use std::sync::atomic::Ordering;
use std::sync::Arc;
use crate::client::IncomingDataPacket;
use crate::fifo::after_pop;
use crate::fifo::Fifo;
use crate::history::after_send;
use crate::history::recv_answer;
use crate::history::send_taken;

verus! {

/// Why a value was not sent.
#[derive(PartialEq, Eq, Debug)]
pub enum TrySendError<T> {
    /// The queue has no room; the value comes back.
    Full(T),
    /// The receiver is gone; the value comes back.
    Disconnected(T),
}

/// Why no value was received.
#[derive(Clone, Copy, PartialEq, Eq, Debug, Structural)]
pub enum TryRecvError {
    /// Nothing waits, but the sender is still there.
    Empty,
    /// Nothing waits and the sender is gone: nothing will come.
    Disconnected,
}

/// What a send does to a queue, given whether the receiver is gone.
///
/// With the receiver gone the value comes back as `Disconnected` and the queue is left
/// alone. Otherwise the value is appended if there is room, and comes back as `Full` if
/// there is none.
pub fn send_on<T>(queue: &mut Fifo<T>, receiver_gone: bool, value: T) -> (r: Result<
    (),
    TrySendError<T>,
>)
    requires
        old(queue).wf(),
    ensures
        final(queue).wf(),
        final(queue).capacity() == old(queue).capacity(),
        final(queue)@ == after_send(old(queue)@, old(queue).capacity(), receiver_gone, value),
        r is Ok <==> send_taken(old(queue)@, old(queue).capacity(), receiver_gone),
        r is Err ==> r == Err::<(), TrySendError<T>>(
            if receiver_gone {
                TrySendError::Disconnected(value)
            } else {
                TrySendError::Full(value)
            },
        ),
{
    if receiver_gone {
        return Err(TrySendError::Disconnected(value));
    }
    match queue.push(value) {
        Ok(()) => Ok(()),
        Err(back) => Err(TrySendError::Full(back)),
    }
}

/// What a receive does to a queue, given whether the sender was gone before the queue
/// was looked at.
///
/// The oldest waiting value is taken if there is one. If there is none, the answer tells
/// a sender that is gone (`Disconnected`) from one that has nothing to send yet
/// (`Empty`).
pub fn recv_on<T>(queue: &mut Fifo<T>, sender_gone: bool) -> (r: Result<T, TryRecvError>)
    requires
        old(queue).wf(),
    ensures
        final(queue).wf(),
        final(queue).capacity() == old(queue).capacity(),
        final(queue)@ == after_pop(old(queue)@),
        r == recv_answer(old(queue)@, sender_gone),
{
    match queue.pop() {
        Some(value) => Ok(value),
        None => if sender_gone {
            Err(TryRecvError::Disconnected)
        } else {
            Err(TryRecvError::Empty)
        },
    }
}

/// What a sender concludes from a reading of the receiver's flag: the receiver is alive
/// exactly if the flag has not been raised.
pub fn peer_alive(receiver_gone: bool) -> (alive: bool)
    ensures
        alive == !receiver_gone,
{
    !receiver_gone
}

/// What the lock around a channel's queue keeps true of it.
pub struct QueueInv {
    /// The capacity that the channel was made with.
    pub capacity: usize,
}

impl<T> RwLockPredicate<Fifo<T>> for QueueInv {
    open spec fn inv(self, queue: Fifo<T>) -> bool {
        queue.wf() && queue.capacity() == self.capacity
    }
}

/// The sending end of a channel.
pub struct Sender<T> {
    queue: Arc<RwLock<Fifo<T>, QueueInv>>,
    receiver_gone: Arc<AtomicBool>,
    sender_gone: Arc<AtomicBool>,
}

/// The receiving end of a channel. Dropping it tells the sender that nobody listens.
pub struct Receiver<T> {
    queue: Arc<RwLock<Fifo<T>, QueueInv>>,
    receiver_gone: Arc<AtomicBool>,
    sender_gone: Arc<AtomicBool>,
}

/// Makes a channel that holds at most `capacity` values.
pub fn channel<T>(capacity: usize) -> (ends: (Sender<T>, Receiver<T>))
    requires
        capacity >= 1,
    ensures
        ends.0.capacity() == capacity,
        ends.1.capacity() == capacity,
        ends.0.paired_with(&ends.1),
{
    let queue = Arc::new(RwLock::new(Fifo::new(capacity), Ghost(QueueInv { capacity })));
    let receiver_gone = Arc::new(AtomicBool::new(false));
    let sender_gone = Arc::new(AtomicBool::new(false));
    let tx = Sender {
        queue: queue.clone(),
        receiver_gone: receiver_gone.clone(),
        sender_gone: sender_gone.clone(),
    };
    let rx = Receiver { queue, receiver_gone, sender_gone };
    (tx, rx)
}

impl<T> Sender<T> {
    /// The capacity that the channel was made with.
    pub closed spec fn capacity(&self) -> usize {
        self.queue.pred().capacity
    }

    /// Whether `receiver` is the other end of this sender's channel: the two share one
    /// queue and one pair of flags.
    pub closed spec fn paired_with(&self, receiver: &Receiver<T>) -> bool {
        &&& self.queue == receiver.queue
        &&& self.receiver_gone == receiver.receiver_gone
        &&& self.sender_gone == receiver.sender_gone
    }

    /// Whether the receiver still exists. Never blocks. `false` is final: a receiver
    /// that is gone does not come back.
    pub fn has_receiver(&self) -> bool {
        peer_alive(self.receiver_gone.load(Ordering::Relaxed))
    }

    /// Offers `value` to the channel without blocking. The value comes back if the
    /// receiver is gone or the queue is full.
    pub fn try_send(&self, value: T) -> (r: Result<(), TrySendError<T>>)
        ensures
            r matches Err(TrySendError::Full(back)) ==> back == value,
            r matches Err(TrySendError::Disconnected(back)) ==> back == value,
    {
        let gone = self.receiver_gone.load(Ordering::Relaxed);
        let (mut queue, handle) = self.queue.acquire_write();
        let r = send_on(&mut queue, gone, value);
        handle.release_write(queue);
        r
    }
}

impl<T> Receiver<T> {
    /// The capacity that the channel was made with.
    pub closed spec fn capacity(&self) -> usize {
        self.queue.pred().capacity
    }

    /// Takes the next value without blocking, or says why there is none.
    pub fn try_recv(&self) -> (r: Result<T, TryRecvError>) {
        // The flag is read before the queue: a sender that was gone then had already
        // sent all it ever will.
        let gone = self.sender_gone.load(Ordering::Relaxed);
        let (mut queue, handle) = self.queue.acquire_write();
        let r = recv_on(&mut queue, gone);
        handle.release_write(queue);
        r
    }
}

/// `AtomicBool::store` of `true`, relaxed. The contract claims only what a destructor
/// needs of it: that the store neither unwinds nor opens an invariant.
#[verifier::external_body]
fn raise(flag: &AtomicBool)
    opens_invariants none
    no_unwind
{
    flag.store(true, Ordering::Relaxed);
}

impl<T> Drop for Receiver<T> {
    fn drop(&mut self)
        opens_invariants none
        no_unwind
    {
        raise(&self.receiver_gone);
    }
}

impl<T> Drop for Sender<T> {
    fn drop(&mut self)
        opens_invariants none
        no_unwind
    {
        raise(&self.sender_gone);
    }
}

/// The sending end of a client's channel: the network loop puts the packets it receives
/// here.
pub struct ClientSender {
    inner: Sender<IncomingDataPacket>,
}

/// The receiving end of a client's channel: the consumer takes its packets from here.
/// Dropping it ends the connection.
pub struct ClientReceiver {
    inner: Receiver<IncomingDataPacket>,
}

/// Makes a client's channel with room for `buffer` packets.
pub fn client_channel(buffer: usize) -> (ends: (ClientSender, ClientReceiver))
    requires
        buffer >= 1,
    ensures
        ends.0.capacity() == buffer,
        ends.1.capacity() == buffer,
        ends.0.paired_with(&ends.1),
{
    let (tx, rx) = channel(buffer);
    (ClientSender { inner: tx }, ClientReceiver { inner: rx })
}

impl ClientSender {
    /// The capacity that the channel was made with.
    pub closed spec fn capacity(&self) -> usize {
        self.inner.capacity()
    }

    /// Whether `receiver` is the other end of this sender's channel.
    pub closed spec fn paired_with(&self, receiver: &ClientReceiver) -> bool {
        self.inner.paired_with(&receiver.inner)
    }

    /// Whether the consumer still exists. Never blocks.
    pub fn has_receiver(&self) -> bool {
        self.inner.has_receiver()
    }

    /// Offers `packet` to the consumer without blocking.
    pub fn try_send(&self, packet: IncomingDataPacket) -> (r: Result<
        (),
        TrySendError<IncomingDataPacket>,
    >)
        ensures
            r matches Err(TrySendError::Full(back)) ==> back == packet,
            r matches Err(TrySendError::Disconnected(back)) ==> back == packet,
    {
        self.inner.try_send(packet)
    }
}

impl ClientReceiver {
    /// The capacity that the channel was made with.
    pub closed spec fn capacity(&self) -> usize {
        self.inner.capacity()
    }

    /// Takes the next packet without blocking, or says why there is none.
    pub fn try_recv(&self) -> (r: Result<IncomingDataPacket, TryRecvError>) {
        self.inner.try_recv()
    }
}

} // verus!

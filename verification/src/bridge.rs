//! The live bridge: the producer and consumer ends of a real unbounded
//! multi-producer channel, and the consumer's reaction to one bounded-wait
//! receive.
//!
//! The channel itself is shared between threads, so what a send or a receive
//! returns depends on the other side; the contracts here state only what
//! holds of every outcome, and `log_after_poll` carries the verified part of
//! the consumer for each possible outcome.

use vstd::prelude::*;
use crate::logline;

verus! {

#[verifier::external_type_specification]
#[verifier::external_body]
#[verifier::reject_recursive_types(T)]
pub struct ExSender<T>(crossbeam_channel::Sender<T>);

#[verifier::external_type_specification]
#[verifier::external_body]
#[verifier::reject_recursive_types(T)]
pub struct ExReceiver<T>(crossbeam_channel::Receiver<T>);

/// What one bounded-wait receive produced: an item, nothing within the wait,
/// or an empty queue whose senders are all gone.
#[derive(Clone, Copy, Debug, PartialEq, Eq, Structural)]
pub enum PollOutcome {
    Delivered(u32),
    TimedOut,
    Closed,
}

/// Relies on crossbeam_channel::unbounded: an unbounded FIFO channel whose
/// two ends are connected to each other.
#[verifier::external_body]
fn unbounded_channel() -> (crossbeam_channel::Sender<u32>, crossbeam_channel::Receiver<u32>) {
    crossbeam_channel::unbounded()
}

/// Relies on crossbeam_channel::Sender::clone: another sender for the same
/// channel.
#[verifier::external_body]
fn clone_sender(s: &crossbeam_channel::Sender<u32>) -> crossbeam_channel::Sender<u32> {
    s.clone()
}

/// Relies on crossbeam_channel::Sender::send: fails only when the receiver
/// has been dropped, and then the error hands the undelivered value back.
#[verifier::external_body]
fn send_value(s: &crossbeam_channel::Sender<u32>, v: u32) -> (r: Result<(), u32>)
    ensures
        r is Err ==> r->Err_0 == v,
{
    match s.send(v) {
        Ok(()) => Ok(()),
        Err(crossbeam_channel::SendError(undelivered)) => Err(undelivered),
    }
}

/// Relies on crossbeam_channel::Receiver::recv_timeout: blocks until an item
/// arrives or the wait elapses; reports a disconnected channel (empty, all
/// senders gone) separately from a timeout.
#[verifier::external_body]
fn recv_value_timeout(r: &crossbeam_channel::Receiver<u32>, wait_ms: u64) -> PollOutcome {
    match r.recv_timeout(std::time::Duration::from_millis(wait_ms)) {
        Ok(v) => PollOutcome::Delivered(v),
        Err(crossbeam_channel::RecvTimeoutError::Timeout) => PollOutcome::TimedOut,
        Err(crossbeam_channel::RecvTimeoutError::Disconnected) => PollOutcome::Closed,
    }
}

/// The producer's end: a sender into the work queue and this producer's own
/// counter, which only `emit_next` touches.
pub struct ProducerHandle {
    pub sender: crossbeam_channel::Sender<u32>,
    pub count: u32,
}

/// The consumer's end: the single receiver draining the work queue.
pub struct ConsumerHandle {
    pub receiver: crossbeam_channel::Receiver<u32>,
}

/// Open the bridge: a fresh queue with one producer end (counter at zero)
/// and the consumer end.
pub fn open_bridge() -> (handles: (ProducerHandle, ConsumerHandle))
    ensures
        handles.0.count == 0,
{
    let (sender, receiver) = unbounded_channel();
    (ProducerHandle { sender, count: 0 }, ConsumerHandle { receiver })
}

impl ProducerHandle {
    /// A further producer over the same queue, with its own counter starting
    /// at zero — one per activation.
    pub fn another_producer(&self) -> (p: ProducerHandle)
        ensures
            p.count == 0,
    {
        ProducerHandle { sender: clone_sender(&self.sender), count: 0 }
    }

    /// One producer step: increment this producer's counter and send the new
    /// value. The counter advances whatever the channel does; the sent value
    /// is returned, and if the receiver is gone it comes back as the error.
    pub fn emit_next(&mut self) -> (r: Result<u32, u32>)
        requires
            old(self).count < u32::MAX,
        ensures
            final(self).count == old(self).count + 1,
            r is Ok ==> r->Ok_0 == old(self).count + 1,
            r is Err ==> r->Err_0 == old(self).count + 1,
    {
        self.count = self.count + 1;
        match send_value(&self.sender, self.count) {
            Ok(()) => Ok(self.count),
            Err(v) => Err(v),
        }
    }
}

impl ConsumerHandle {
    /// One bounded-wait receive: wait up to `wait_ms` milliseconds for an
    /// item. What comes back depends on the producer threads, so every
    /// outcome of `PollOutcome` is possible; `log_after_poll` says what the
    /// consumer then does with each.
    pub fn poll(&self, wait_ms: u64) -> PollOutcome {
        recv_value_timeout(&self.receiver, wait_ms)
    }
}

/// The consumer's reaction to one bounded-wait receive: a delivered value is
/// appended to the log as its count line; a timeout or a closed queue drops
/// the wake silently and leaves the log unchanged.
pub fn log_after_poll(logs: String, out: PollOutcome) -> (r: String)
    ensures
        out matches PollOutcome::Delivered(v) ==> r@ == logs@ + logline::count_line(v as nat),
        !(out is Delivered) ==> r@ == logs@,
{
    match out {
        PollOutcome::Delivered(v) => logline::append_count_line(logs, v),
        PollOutcome::TimedOut => logs,
        PollOutcome::Closed => logs,
    }
}

} // verus!

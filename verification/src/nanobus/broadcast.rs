//! Fan-out of messages inside one process.

use vstd::prelude::*;

verus! {

/// What receiving from a broadcast channel gave.
pub enum RecvResult<T> {
    /// A message.
    Message(T),
    /// Some messages were missed.
    Lagged(u64),
    /// The channel is closed.
    Closed,
}

/// What a subscriber's receive does next.
pub enum RecvStep<T> {
    /// Return this message.
    Deliver(T),
    /// Receive again.
    Retry,
    /// Return nothing: no message will come.
    Stop,
}

/// A subscriber that missed messages does not mind: it receives again.
pub fn recv_step<T>(r: RecvResult<T>) -> (s: RecvStep<T>)
    ensures
        match r {
            RecvResult::Message(v) => s == RecvStep::Deliver(v),
            RecvResult::Lagged(_) => s is Retry,
            RecvResult::Closed => s is Stop,
        },
{
    match r {
        RecvResult::Message(v) => RecvStep::Deliver(v),
        RecvResult::Lagged(_) => RecvStep::Retry,
        RecvResult::Closed => RecvStep::Stop,
    }
}

} // verus!

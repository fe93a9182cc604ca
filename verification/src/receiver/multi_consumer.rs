use vstd::prelude::*;
use crate::receiver::error::TryRecvError;

verus! {

/// The receive capability for multi-consumer channels: the handle can be
/// duplicated, and every clone addresses the same channel — independent
/// consumers race to receive, and each message is delivered exactly once.
/// The suspending receive is an async operation that the verifier does not
/// model; the verified surface is the non-suspending poll.
pub trait AsyncReceiver<T>: Clone {
    /// Returns a value if one is immediately available, and otherwise says
    /// why not: `Empty` while senders are alive, the permanent family once
    /// they are all gone. It never suspends.
    fn try_recv(&mut self) -> Result<T, TryRecvError>;
}

} // verus!

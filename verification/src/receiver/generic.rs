use vstd::prelude::*;
use crate::receiver::error::TryRecvError;

verus! {

/// The general-purpose receive capability, used where the receiver's
/// lifetime is tied to scope rather than an explicit shutdown signal. The
/// suspending receive is an async operation that the verifier does not
/// model; the verified surface is the non-suspending poll.
pub trait AsyncReceiver<T> {
    /// Returns a value if one is immediately available, and otherwise says
    /// why not: `Empty` while senders are alive, the permanent family once
    /// they are all gone. It never suspends.
    fn try_recv(&mut self) -> Result<T, TryRecvError>;
}

} // verus!

use vstd::prelude::*;
use crate::receiver::error::TryRecvError;

verus! {

/// The receive capability for single-consumer channels. The suspending
/// receive is an async operation that the verifier does not model; the
/// verified surface is the non-suspending poll.
pub trait AsyncReceiver<T> {
    /// Returns a value if one is immediately available, and otherwise says
    /// why not: `Empty` while senders are alive, the permanent family once
    /// they are all gone. It never suspends.
    fn try_recv(&mut self) -> Result<T, TryRecvError>;
}

/// The receive capability for shared consumers: operations take a
/// non-exclusive reference, so concurrent receivers can poll without the
/// interface imposing mutual exclusion, and the handle can be duplicated —
/// every clone addresses the same channel and observes the same single
/// termination event.
pub trait CloneableAsyncReceiver<T>: Clone {
    /// Returns a value if one is immediately available, and otherwise says
    /// why not: `Empty` while senders are alive, the permanent family once
    /// they are all gone. It never suspends.
    fn try_recv(&self) -> Result<T, TryRecvError>;
}

} // verus!

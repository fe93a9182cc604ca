use vstd::prelude::*;
use crate::sender::error::{SendError, SendErrorWithoutFull};

verus! {

/// The sending half of a bounded multi-producer channel. Only the
/// non-suspending attempt is part of the verified surface; the suspending
/// send, which waits for capacity and therefore never reports `Full`, is an
/// async operation that the verifier does not model.
pub trait BoundedSender<T>: Clone {
    /// Attempts to deliver `t` without suspending, reporting `Full` when the
    /// channel is at capacity. A failed send hands `t` back inside the
    /// error, so no payload is ever lost.
    fn try_send(&self, t: T) -> (r: Result<(), SendError<T>>)
        ensures
            r matches Err(e) ==> e.payload() == t,
    ;
}

/// The sending half of an unbounded multi-producer channel. Capacity can
/// never be exceeded, so the error type has no reachable `Full` variant: a
/// backend that reports fullness anyway surfaces the defensive
/// `UnreachableFull`.
pub trait UnboundedSender<T>: Clone {
    /// Delivers `t` without suspending. A failed send hands `t` back inside
    /// the error, so no payload is ever lost.
    fn send(&self, t: T) -> (r: Result<(), SendErrorWithoutFull<T>>)
        ensures
            r matches Err(e) ==> e.payload() == t,
    ;
}

} // verus!

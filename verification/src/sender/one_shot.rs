use vstd::prelude::*;
use crate::sender::error::SendErrorWithoutFull;

verus! {

/// The sending half of a one-shot channel. Sending consumes the handle —
/// the channel transports exactly one value — and fails with the permanent
/// family when the paired receiver is already gone.
pub trait Sender<T> {
    /// Delivers the single value, consuming the handle. A failed send hands
    /// `t` back inside the error, so no payload is ever lost.
    fn send(self, t: T) -> (r: Result<(), SendErrorWithoutFull<T>>)
        ensures
            r matches Err(e) ==> e.payload() == t,
    ;
}

/// The same capability for a handle owned through a box, so that a caller
/// holding the sender only through an abstract interface can still consume
/// it.
pub trait BoxSender<T> {
    /// Delivers the single value, consuming the boxed handle. A failed send
    /// hands `t` back inside the error, so no payload is ever lost.
    fn send(self: Box<Self>, t: T) -> (r: Result<(), SendErrorWithoutFull<T>>)
        ensures
            r matches Err(e) ==> e.payload() == t,
    ;
}

} // verus!

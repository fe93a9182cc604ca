use vstd::prelude::*;
use crate::sender::error::SendError;

verus! {

/// The generic send capability: one non-suspending attempt at immediate
/// delivery. A failed attempt reports `Full` when a bounded channel's
/// capacity is exceeded, or the permanent family when no receiver remains.
pub trait Sender<T> {
    /// Attempts to deliver `t` without suspending. A failed send hands `t`
    /// back inside the error, so no payload is ever lost.
    fn send(&self, t: T) -> (r: Result<(), SendError<T>>)
        ensures
            r matches Err(e) ==> e.payload() == t,
    ;
}

/// The generic send capability for handles that can be duplicated: a clone
/// is another handle to the same channel, not a copy of its contents, and
/// all clones observe the same single termination event.
pub trait CloneableSender<T>: Clone {
    /// Attempts to deliver `t` without suspending. A failed send hands `t`
    /// back inside the error, so no payload is ever lost.
    fn send(&self, t: T) -> (r: Result<(), SendError<T>>)
        ensures
            r matches Err(e) ==> e.payload() == t,
    ;
}

} // verus!

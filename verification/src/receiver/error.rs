use vstd::prelude::*;
use vstd::std_specs::cmp::PartialEqSpec;

verus! {

/// Why a non-suspending receive produced no value.
///
/// `Closed` and `Disconnected` both mean the same permanent condition — every
/// paired sender is gone and no further value can ever arrive. Backends differ
/// only in which word they use for it, so the two variants compare as equal:
/// callers branch once on "channel is permanently done" without caring which
/// backend-specific term applies. `Empty` is transient and never equals either.
#[derive(Debug, Eq)]
pub enum TryRecvError {
    /// No value is available right now, but at least one sender is still alive.
    Empty,
    /// All paired senders are gone; no value will ever arrive.
    Closed,
    /// All paired senders are gone; no value will ever arrive.
    Disconnected,
}

impl TryRecvError {
    /// The permanent family of receive failures: once reported, no later
    /// receive on the same channel can produce a value.
    pub open spec fn is_permanent(self) -> bool {
        self is Closed || self is Disconnected
    }

    /// True exactly for the transient `Empty` condition, which may resolve
    /// once a sender delivers a value.
    pub fn is_empty(&self) -> (r: bool)
        ensures
            r == (*self is Empty),
    {
        matches!(self, TryRecvError::Empty)
    }

    /// True exactly for the permanent family (`Closed` or `Disconnected`).
    pub fn is_closed_or_disconnected(&self) -> (r: bool)
        ensures
            r == self.is_permanent(),
    {
        matches!(self, TryRecvError::Closed | TryRecvError::Disconnected)
    }
}

impl core::cmp::PartialEq for TryRecvError {
    fn eq(&self, other: &Self) -> bool {
        matches!(
            (self, other),
            (TryRecvError::Empty, TryRecvError::Empty)
                | (TryRecvError::Closed, TryRecvError::Closed)
                | (TryRecvError::Closed, TryRecvError::Disconnected)
                | (TryRecvError::Disconnected, TryRecvError::Disconnected)
                | (TryRecvError::Disconnected, TryRecvError::Closed)
        )
    }
}

impl vstd::std_specs::cmp::PartialEqSpecImpl for TryRecvError {
    open spec fn obeys_eq_spec() -> bool {
        true
    }

    open spec fn eq_spec(&self, other: &Self) -> bool {
        (*self is Empty && *other is Empty) || (self.is_permanent() && other.is_permanent())
    }
}

/// The single failure mode of a one-shot receive: the paired sender was
/// dropped before it sent its value.
#[derive(Debug, PartialEq, Eq, Structural)]
pub enum OneshotRecvError {
    Dropped,
}

/// Coarsened equality on `TryRecvError` is an equivalence: it is reflexive
/// and symmetric, `Closed` and `Disconnected` are interchangeable, and the
/// transient `Empty` never equals a permanent variant.
pub proof fn lemma_try_recv_error_equality(a: TryRecvError, b: TryRecvError)
    ensures
        a.eq_spec(&a),
        a.eq_spec(&b) == b.eq_spec(&a),
        TryRecvError::Closed.eq_spec(&TryRecvError::Disconnected),
        TryRecvError::Disconnected.eq_spec(&TryRecvError::Closed),
        !TryRecvError::Empty.eq_spec(&TryRecvError::Closed),
        !TryRecvError::Empty.eq_spec(&TryRecvError::Disconnected),
        a.eq_spec(&b) <==> ((a is Empty && b is Empty) || (a.is_permanent() && b.is_permanent())),
{
}

} // verus!

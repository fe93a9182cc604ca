use vstd::prelude::*;
use vstd::std_specs::cmp::PartialEqSpec;

verus! {

/// Why a send attempt failed. The error owns the value that could not be
/// sent, so a caller can retry, inspect, or drop the payload; no payload is
/// ever lost on failure.
///
/// `Closed` and `Disconnected` describe the same permanent condition — no
/// receiver remains — in two backend vocabularies, so they compare as equal
/// (given equal payloads). `Full` is transient and never equals either.
#[derive(Debug, Eq)]
pub enum SendError<T> {
    /// The channel's capacity was exceeded; only bounded backends report it.
    Full(T),
    /// No receiver remains; the value can never be delivered.
    Closed(T),
    /// No receiver remains; the value can never be delivered.
    Disconnected(T),
}

impl<T> SendError<T> {
    /// The payload that could not be sent.
    pub open spec fn payload(self) -> T {
        match self {
            SendError::Full(v) => v,
            SendError::Closed(v) => v,
            SendError::Disconnected(v) => v,
        }
    }

    /// The permanent family of send failures: once reported, no later send
    /// on the same channel can succeed.
    pub open spec fn is_permanent(self) -> bool {
        self is Closed || self is Disconnected
    }

    /// Whether two errors describe the same kind of failure, under the
    /// coarsening that identifies `Closed` with `Disconnected`.
    pub open spec fn same_family(self, other: Self) -> bool {
        (self is Full && other is Full) || (self.is_permanent() && other.is_permanent())
    }

    /// True exactly for the transient `Full` condition, which may resolve
    /// once the receiver drains a value.
    pub fn is_full(&self) -> (r: bool)
        ensures
            r == (*self is Full),
    {
        matches!(self, SendError::Full(_))
    }

    /// True exactly for the permanent family (`Closed` or `Disconnected`).
    pub fn is_closed_or_disconnected(&self) -> (r: bool)
        ensures
            r == self.is_permanent(),
    {
        matches!(self, SendError::Closed(_) | SendError::Disconnected(_))
    }

    /// The undelivered payload, by reference.
    pub fn inner(&self) -> (r: &T)
        ensures
            *r == self.payload(),
    {
        match self {
            SendError::Full(v) => v,
            SendError::Closed(v) => v,
            SendError::Disconnected(v) => v,
        }
    }

    /// The undelivered payload, by ownership.
    pub fn into_inner(self) -> (r: T)
        ensures
            r == self.payload(),
    {
        match self {
            SendError::Full(v) => v,
            SendError::Closed(v) => v,
            SendError::Disconnected(v) => v,
        }
    }
}

impl<T: PartialEq> core::cmp::PartialEq for SendError<T> {
    fn eq(&self, other: &Self) -> bool {
        match (self, other) {
            (SendError::Full(v1), SendError::Full(v2)) => v1 == v2,
            (SendError::Closed(v1), SendError::Closed(v2)) => v1 == v2,
            (SendError::Closed(v1), SendError::Disconnected(v2)) => v1 == v2,
            (SendError::Disconnected(v1), SendError::Disconnected(v2)) => v1 == v2,
            (SendError::Disconnected(v1), SendError::Closed(v2)) => v1 == v2,
            _ => false,
        }
    }
}

impl<T: PartialEq> vstd::std_specs::cmp::PartialEqSpecImpl for SendError<T> {
    open spec fn obeys_eq_spec() -> bool {
        <T as PartialEqSpec>::obeys_eq_spec()
    }

    open spec fn eq_spec(&self, other: &Self) -> bool {
        self.same_family(*other) && self.payload().eq_spec(&other.payload())
    }
}

/// Why a send attempt failed, for topologies whose capacity can never be
/// exceeded (unbounded producers, or a suspending send that waited for
/// space). The error owns the value that could not be sent.
///
/// `UnreachableFull` is a defensive variant: a backend that honours its
/// unbounded contract must never produce it, and its occurrence signals a
/// broken capacity assumption in the backend, not a normal outcome.
#[derive(Debug, Eq)]
pub enum SendErrorWithoutFull<T> {
    /// No receiver remains; the value can never be delivered.
    Closed(T),
    /// No receiver remains; the value can never be delivered.
    Disconnected(T),
    /// The backend reported "full" although its topology rules that out.
    UnreachableFull(T),
}

impl<T> SendErrorWithoutFull<T> {
    /// The payload that could not be sent.
    pub open spec fn payload(self) -> T {
        match self {
            SendErrorWithoutFull::Closed(v) => v,
            SendErrorWithoutFull::Disconnected(v) => v,
            SendErrorWithoutFull::UnreachableFull(v) => v,
        }
    }

    /// The permanent family of send failures.
    pub open spec fn is_permanent(self) -> bool {
        self is Closed || self is Disconnected
    }

    /// Whether two errors describe the same kind of failure, under the
    /// coarsening that identifies `Closed` with `Disconnected`.
    pub open spec fn same_family(self, other: Self) -> bool {
        (self is UnreachableFull && other is UnreachableFull)
            || (self.is_permanent() && other.is_permanent())
    }

    /// True exactly for the permanent family (`Closed` or `Disconnected`).
    pub fn is_closed_or_disconnected(&self) -> (r: bool)
        ensures
            r == self.is_permanent(),
    {
        matches!(
            self,
            SendErrorWithoutFull::Closed(_) | SendErrorWithoutFull::Disconnected(_)
        )
    }

    /// True exactly for the defensive `UnreachableFull` variant.
    pub fn is_unreachable_full(&self) -> (r: bool)
        ensures
            r == (*self is UnreachableFull),
    {
        matches!(self, SendErrorWithoutFull::UnreachableFull(_))
    }

    /// The undelivered payload, by reference.
    pub fn inner(&self) -> (r: &T)
        ensures
            *r == self.payload(),
    {
        match self {
            SendErrorWithoutFull::Closed(v) => v,
            SendErrorWithoutFull::Disconnected(v) => v,
            SendErrorWithoutFull::UnreachableFull(v) => v,
        }
    }

    /// The undelivered payload, by ownership.
    pub fn into_inner(self) -> (r: T)
        ensures
            r == self.payload(),
    {
        match self {
            SendErrorWithoutFull::Closed(v) => v,
            SendErrorWithoutFull::Disconnected(v) => v,
            SendErrorWithoutFull::UnreachableFull(v) => v,
        }
    }
}

impl<T: PartialEq> core::cmp::PartialEq for SendErrorWithoutFull<T> {
    fn eq(&self, other: &Self) -> bool {
        match (self, other) {
            (SendErrorWithoutFull::Closed(v1), SendErrorWithoutFull::Closed(v2)) => v1 == v2,
            (SendErrorWithoutFull::Closed(v1), SendErrorWithoutFull::Disconnected(v2)) => v1 == v2,
            (SendErrorWithoutFull::Disconnected(v1), SendErrorWithoutFull::Disconnected(v2)) => {
                v1 == v2
            }
            (SendErrorWithoutFull::Disconnected(v1), SendErrorWithoutFull::Closed(v2)) => v1 == v2,
            (SendErrorWithoutFull::UnreachableFull(v1), SendErrorWithoutFull::UnreachableFull(v2)) => {
                v1 == v2
            }
            _ => false,
        }
    }
}

impl<T: PartialEq> vstd::std_specs::cmp::PartialEqSpecImpl for SendErrorWithoutFull<T> {
    open spec fn obeys_eq_spec() -> bool {
        <T as PartialEqSpec>::obeys_eq_spec()
    }

    open spec fn eq_spec(&self, other: &Self) -> bool {
        self.same_family(*other) && self.payload().eq_spec(&other.payload())
    }
}

/// Coarsened equality on `SendError` compares the kind of failure — with
/// `Closed` and `Disconnected` interchangeable and `Full` never equal to
/// either — and then the payloads.
pub proof fn lemma_send_error_equality<T: PartialEq>(a: SendError<T>, b: SendError<T>)
    ensures
        a.eq_spec(&b) <==> (a.same_family(b) && a.payload().eq_spec(&b.payload())),
        a.same_family(b) == b.same_family(a),
        a.payload().eq_spec(&a.payload()) ==> a.eq_spec(&a),
        a.payload().eq_spec(&b.payload()) == b.payload().eq_spec(&a.payload()) ==> a.eq_spec(&b)
            == b.eq_spec(&a),
        SendError::Closed(a.payload()).same_family(SendError::Disconnected(b.payload())),
        !SendError::Full(a.payload()).same_family(SendError::Closed(b.payload())),
        !SendError::Full(a.payload()).same_family(SendError::Disconnected(b.payload())),
{
}

/// Coarsened equality on `SendErrorWithoutFull`, analogously: `Closed` and
/// `Disconnected` are interchangeable and `UnreachableFull` never equals
/// either.
pub proof fn lemma_send_error_without_full_equality<T: PartialEq>(
    a: SendErrorWithoutFull<T>,
    b: SendErrorWithoutFull<T>,
)
    ensures
        a.eq_spec(&b) <==> (a.same_family(b) && a.payload().eq_spec(&b.payload())),
        a.same_family(b) == b.same_family(a),
        a.payload().eq_spec(&a.payload()) ==> a.eq_spec(&a),
        a.payload().eq_spec(&b.payload()) == b.payload().eq_spec(&a.payload()) ==> a.eq_spec(&b)
            == b.eq_spec(&a),
        SendErrorWithoutFull::Closed(a.payload()).same_family(
            SendErrorWithoutFull::Disconnected(b.payload()),
        ),
        !SendErrorWithoutFull::UnreachableFull(a.payload()).same_family(
            SendErrorWithoutFull::Closed(b.payload()),
        ),
        !SendErrorWithoutFull::UnreachableFull(a.payload()).same_family(
            SendErrorWithoutFull::Disconnected(b.payload()),
        ),
{
}

} // verus!

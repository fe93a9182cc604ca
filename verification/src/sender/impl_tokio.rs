use vstd::prelude::*;
use tokio::sync::mpsc::Sender as TokioMpscSender;
use tokio::sync::mpsc::UnboundedSender as TokioMpscUnboundedSender;
use tokio::sync::mpsc::error::SendError as TokioMpscSendError;
use tokio::sync::mpsc::error::TrySendError as TokioMpscTrySendError;
use tokio::sync::oneshot::Sender as TokioOneshotSender;
use crate::sender::error::{SendError, SendErrorWithoutFull};
use crate::sender::generic::{CloneableSender, Sender};
use crate::sender::multi_producer::{BoundedSender, UnboundedSender};
use crate::sender::one_shot::Sender as OneshotSenderTrait;

verus! {

/// The sending half of tokio's bounded multi-producer channel; opaque to
/// the verifier.
#[verifier::external_type_specification]
#[verifier::external_body]
#[verifier::reject_recursive_types(T)]
pub struct ExTokioMpscTx<T>(TokioMpscSender<T>);

/// The sending half of tokio's unbounded multi-producer channel; opaque to
/// the verifier.
#[verifier::external_type_specification]
#[verifier::external_body]
#[verifier::reject_recursive_types(T)]
pub struct ExTokioMpscUnboundedTx<T>(TokioMpscUnboundedSender<T>);

/// The sending half of tokio's one-shot channel; opaque to the verifier.
#[verifier::external_type_specification]
#[verifier::external_body]
#[verifier::reject_recursive_types(T)]
pub struct ExTokioOneshotTx<T>(TokioOneshotSender<T>);

/// The error of tokio's unbounded `send`, declared transparently: its one
/// public field is the unsent value.
#[verifier::external_type_specification]
#[verifier::reject_recursive_types(T)]
pub struct ExTokioMpscSendError<T>(TokioMpscSendError<T>);

/// The error of tokio's `try_send`, declared transparently so that verified
/// code can match on its two variants.
#[verifier::external_type_specification]
#[verifier::reject_recursive_types(T)]
pub struct ExTokioMpscTrySendError<T>(TokioMpscTrySendError<T>);

/// Relies on tokio's `try_send` on the bounded sender: a failed attempt
/// returns the message inside the error — `Full` while the channel is at
/// capacity, `Closed` once the receiving half is closed or dropped.
#[verifier::external_body]
fn mpsc_try_send_raw<T>(tx: &TokioMpscSender<T>, msg: T) -> (r: Result<
    (),
    TokioMpscTrySendError<T>,
>)
    ensures
        match r {
            Ok(u) => true,
            Err(TokioMpscTrySendError::Full(v)) => v == msg,
            Err(TokioMpscTrySendError::Closed(v)) => v == msg,
        },
{
    tx.try_send(msg)
}

/// Relies on tokio's `send` on the unbounded sender: it never blocks, and a
/// failed send — the receiving half was closed or dropped — returns the
/// message inside the error.
#[verifier::external_body]
fn mpsc_unbounded_send_raw<T>(tx: &TokioMpscUnboundedSender<T>, msg: T) -> (r: Result<
    (),
    TokioMpscSendError<T>,
>)
    ensures
        r matches Err(e) ==> e.0 == msg,
{
    tx.send(msg)
}

/// Relies on tokio's one-shot `send`: it consumes the sender, and a failed
/// send — the receiver was already dropped — returns the value itself as
/// the error.
#[verifier::external_body]
fn oneshot_send_raw<T>(tx: TokioOneshotSender<T>, t: T) -> (r: Result<(), T>)
    ensures
        r matches Err(v) ==> v == t,
{
    tx.send(t)
}

impl<T> From<TokioMpscTrySendError<T>> for SendError<T> {
    fn from(err: TokioMpscTrySendError<T>) -> Self {
        match err {
            TokioMpscTrySendError::Full(v) => SendError::Full(v),
            TokioMpscTrySendError::Closed(v) => SendError::Closed(v),
        }
    }
}

impl<T> vstd::std_specs::convert::FromSpecImpl<TokioMpscTrySendError<T>> for SendError<T> {
    open spec fn obeys_from_spec() -> bool {
        true
    }

    open spec fn from_spec(err: TokioMpscTrySendError<T>) -> Self {
        match err {
            TokioMpscTrySendError::Full(v) => SendError::Full(v),
            TokioMpscTrySendError::Closed(v) => SendError::Closed(v),
        }
    }
}

/// How a raw tokio bounded send outcome is normalized: success passes
/// through, `Full` stays `Full`, `Closed` stays `Closed` — the payload
/// unchanged, and never `Disconnected`.
pub fn normalize_try_send<T>(raw: Result<(), TokioMpscTrySendError<T>>) -> (out: Result<
    (),
    SendError<T>,
>)
    ensures
        match raw {
            Ok(u) => out == Ok::<(), SendError<T>>(()),
            Err(TokioMpscTrySendError::Full(v)) => out == Err::<(), SendError<T>>(
                SendError::Full(v),
            ),
            Err(TokioMpscTrySendError::Closed(v)) => out == Err::<(), SendError<T>>(
                SendError::Closed(v),
            ),
        },
{
    match raw {
        Ok(u) => Ok(u),
        Err(e) => Err(SendError::from(e)),
    }
}

/// How a raw tokio unbounded send outcome is normalized for the unbounded
/// capability: success passes through, and every failure is `Closed`,
/// wrapping the unsent value unchanged — this backend is never full, so
/// `UnreachableFull` can never surface.
pub fn normalize_unbounded_send<T>(raw: Result<(), TokioMpscSendError<T>>) -> (out: Result<
    (),
    SendErrorWithoutFull<T>,
>)
    ensures
        match raw {
            Ok(u) => out == Ok::<(), SendErrorWithoutFull<T>>(()),
            Err(e) => out == Err::<(), SendErrorWithoutFull<T>>(SendErrorWithoutFull::Closed(e.0)),
        },
{
    match raw {
        Ok(u) => Ok(u),
        Err(e) => Err(SendErrorWithoutFull::Closed(e.0)),
    }
}

/// How a raw tokio unbounded send outcome is normalized for the generic
/// capability: success passes through, and every failure is `Closed`,
/// wrapping the unsent value unchanged — never `Full`, never
/// `Disconnected`.
pub fn normalize_generic_unbounded_send<T>(raw: Result<(), TokioMpscSendError<T>>) -> (out: Result<
    (),
    SendError<T>,
>)
    ensures
        match raw {
            Ok(u) => out == Ok::<(), SendError<T>>(()),
            Err(e) => out == Err::<(), SendError<T>>(SendError::Closed(e.0)),
        },
{
    match raw {
        Ok(u) => Ok(u),
        Err(e) => Err(SendError::Closed(e.0)),
    }
}

/// How a raw tokio one-shot send outcome is normalized: success passes
/// through, and a failure — the raw error is the unsent value itself — is
/// `Closed`, wrapping that value unchanged.
pub fn normalize_oneshot_send<T>(raw: Result<(), T>) -> (out: Result<(), SendErrorWithoutFull<T>>)
    ensures
        match raw {
            Ok(u) => out == Ok::<(), SendErrorWithoutFull<T>>(()),
            Err(v) => out == Err::<(), SendErrorWithoutFull<T>>(SendErrorWithoutFull::Closed(v)),
        },
{
    match raw {
        Ok(u) => Ok(u),
        Err(v) => Err(SendErrorWithoutFull::Closed(v)),
    }
}

impl<T> BoundedSender<T> for TokioMpscSender<T> {
    fn try_send(&self, t: T) -> Result<(), SendError<T>> {
        normalize_try_send(mpsc_try_send_raw(self, t))
    }
}

impl<T> UnboundedSender<T> for TokioMpscUnboundedSender<T> {
    fn send(&self, t: T) -> Result<(), SendErrorWithoutFull<T>> {
        normalize_unbounded_send(mpsc_unbounded_send_raw(self, t))
    }
}

impl<T> OneshotSenderTrait<T> for TokioOneshotSender<T> {
    fn send(self, t: T) -> Result<(), SendErrorWithoutFull<T>> {
        normalize_oneshot_send(oneshot_send_raw(self, t))
    }
}

impl<T> Sender<T> for TokioMpscSender<T> {
    fn send(&self, t: T) -> Result<(), SendError<T>> {
        normalize_try_send(mpsc_try_send_raw(self, t))
    }
}

impl<T> CloneableSender<T> for TokioMpscSender<T> {
    fn send(&self, t: T) -> Result<(), SendError<T>> {
        normalize_try_send(mpsc_try_send_raw(self, t))
    }
}

impl<T> Sender<T> for TokioMpscUnboundedSender<T> {
    fn send(&self, t: T) -> Result<(), SendError<T>> {
        normalize_generic_unbounded_send(mpsc_unbounded_send_raw(self, t))
    }
}

impl<T> CloneableSender<T> for TokioMpscUnboundedSender<T> {
    fn send(&self, t: T) -> Result<(), SendError<T>> {
        normalize_generic_unbounded_send(mpsc_unbounded_send_raw(self, t))
    }
}

} // verus!

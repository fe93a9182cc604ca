use vstd::prelude::*;
use std::sync::mpsc::Sender as StdMpscSender;
use std::sync::mpsc::SyncSender as StdMpscSyncSender;
use std::sync::mpsc::SendError as StdMpscSendError;
use std::sync::mpsc::TrySendError as StdMpscTrySendError;
use crate::sender::error::{SendError, SendErrorWithoutFull};
use crate::sender::generic::{CloneableSender, Sender};
use crate::sender::multi_producer::UnboundedSender;

verus! {

/// The sending half of `std::sync::mpsc`'s unbounded (asynchronous) channel;
/// opaque to the verifier.
#[verifier::external_type_specification]
#[verifier::external_body]
#[verifier::reject_recursive_types(T)]
pub struct ExStdMpscTx<T>(StdMpscSender<T>);

/// The sending half of `std::sync::mpsc`'s bounded (synchronous) channel;
/// opaque to the verifier.
#[verifier::external_type_specification]
#[verifier::external_body]
#[verifier::reject_recursive_types(T)]
pub struct ExStdMpscSyncTx<T>(StdMpscSyncSender<T>);

/// The error of `std::sync::mpsc`'s `send`, declared transparently: its one
/// public field is the unsent value.
#[verifier::external_type_specification]
#[verifier::reject_recursive_types(T)]
pub struct ExStdMpscSendError<T>(StdMpscSendError<T>);

/// The error of `std::sync::mpsc`'s `try_send`, declared transparently so
/// that verified code can match on its two variants.
#[verifier::external_type_specification]
#[verifier::reject_recursive_types(T)]
pub struct ExStdMpscTrySendError<T>(StdMpscTrySendError<T>);

/// Relies on `std::sync::mpsc`'s `send` on the unbounded sender: it never
/// blocks, and a failed send — the receiver was deallocated — returns the
/// value inside the error.
#[verifier::external_body]
fn send_raw<T>(tx: &StdMpscSender<T>, t: T) -> (r: Result<(), StdMpscSendError<T>>)
    ensures
        r matches Err(e) ==> e.0 == t,
{
    tx.send(t)
}

/// Relies on `std::sync::mpsc`'s `try_send` on the synchronous sender: a
/// failed attempt returns the value inside the error — `Full` while the
/// buffer is full, `Disconnected` once the receiver is gone.
#[verifier::external_body]
fn sync_try_send_raw<T>(tx: &StdMpscSyncSender<T>, t: T) -> (r: Result<
    (),
    StdMpscTrySendError<T>,
>)
    ensures
        match r {
            Ok(u) => true,
            Err(StdMpscTrySendError::Full(v)) => v == t,
            Err(StdMpscTrySendError::Disconnected(v)) => v == t,
        },
{
    tx.try_send(t)
}

impl<T> From<StdMpscTrySendError<T>> for SendError<T> {
    fn from(err: StdMpscTrySendError<T>) -> Self {
        match err {
            StdMpscTrySendError::Full(v) => SendError::Full(v),
            StdMpscTrySendError::Disconnected(v) => SendError::Disconnected(v),
        }
    }
}

impl<T> vstd::std_specs::convert::FromSpecImpl<StdMpscTrySendError<T>> for SendError<T> {
    open spec fn obeys_from_spec() -> bool {
        true
    }

    open spec fn from_spec(err: StdMpscTrySendError<T>) -> Self {
        match err {
            StdMpscTrySendError::Full(v) => SendError::Full(v),
            StdMpscTrySendError::Disconnected(v) => SendError::Disconnected(v),
        }
    }
}

/// How a raw std unbounded send outcome is normalized for the unbounded
/// capability: success passes through, and every failure is
/// `Disconnected`, wrapping the unsent value unchanged — this backend is
/// never full and never speaks of `Closed`.
pub fn normalize_unbounded_send<T>(raw: Result<(), StdMpscSendError<T>>) -> (out: Result<
    (),
    SendErrorWithoutFull<T>,
>)
    ensures
        match raw {
            Ok(u) => out == Ok::<(), SendErrorWithoutFull<T>>(()),
            Err(e) => out == Err::<(), SendErrorWithoutFull<T>>(
                SendErrorWithoutFull::Disconnected(e.0),
            ),
        },
{
    match raw {
        Ok(u) => Ok(u),
        Err(e) => Err(SendErrorWithoutFull::Disconnected(e.0)),
    }
}

/// How a raw std unbounded send outcome is normalized for the generic
/// capability: success passes through, and every failure is
/// `Disconnected`, wrapping the unsent value unchanged — never `Full`,
/// never `Closed`.
pub fn normalize_send<T>(raw: Result<(), StdMpscSendError<T>>) -> (out: Result<(), SendError<T>>)
    ensures
        match raw {
            Ok(u) => out == Ok::<(), SendError<T>>(()),
            Err(e) => out == Err::<(), SendError<T>>(SendError::Disconnected(e.0)),
        },
{
    match raw {
        Ok(u) => Ok(u),
        Err(e) => Err(SendError::Disconnected(e.0)),
    }
}

/// How a raw std synchronous send outcome is normalized: success passes
/// through, `Full` stays `Full`, `Disconnected` stays `Disconnected` — the
/// payload unchanged, and never `Closed`.
pub fn normalize_try_send<T>(raw: Result<(), StdMpscTrySendError<T>>) -> (out: Result<
    (),
    SendError<T>,
>)
    ensures
        match raw {
            Ok(u) => out == Ok::<(), SendError<T>>(()),
            Err(StdMpscTrySendError::Full(v)) => out == Err::<(), SendError<T>>(
                SendError::Full(v),
            ),
            Err(StdMpscTrySendError::Disconnected(v)) => out == Err::<(), SendError<T>>(
                SendError::Disconnected(v),
            ),
        },
{
    match raw {
        Ok(u) => Ok(u),
        Err(e) => Err(SendError::from(e)),
    }
}

impl<T> UnboundedSender<T> for StdMpscSender<T> {
    fn send(&self, t: T) -> Result<(), SendErrorWithoutFull<T>> {
        normalize_unbounded_send(send_raw(self, t))
    }
}

impl<T> Sender<T> for StdMpscSender<T> {
    fn send(&self, t: T) -> Result<(), SendError<T>> {
        normalize_send(send_raw(self, t))
    }
}

impl<T> Sender<T> for StdMpscSyncSender<T> {
    fn send(&self, t: T) -> Result<(), SendError<T>> {
        normalize_try_send(sync_try_send_raw(self, t))
    }
}

impl<T> CloneableSender<T> for StdMpscSender<T> {
    fn send(&self, t: T) -> Result<(), SendError<T>> {
        normalize_send(send_raw(self, t))
    }
}

impl<T> CloneableSender<T> for StdMpscSyncSender<T> {
    fn send(&self, t: T) -> Result<(), SendError<T>> {
        normalize_try_send(sync_try_send_raw(self, t))
    }
}

} // verus!

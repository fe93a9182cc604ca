use vstd::prelude::*;
use async_channel::Sender as AsyncChannelSender;
use crate::sender::error::{SendError, SendErrorWithoutFull};
use crate::sender::generic::{CloneableSender, Sender};
use crate::sender::multi_producer::{BoundedSender, UnboundedSender};

verus! {

/// The multi-producer sending half supplied by `async_channel`, bounded or
/// unbounded; opaque to the verifier.
#[verifier::external_type_specification]
#[verifier::external_body]
#[verifier::reject_recursive_types(T)]
pub struct ExAsyncChannelTx<T>(AsyncChannelSender<T>);

/// The error of `async_channel`'s `try_send`, declared transparently so that
/// verified code can match on its two variants.
#[verifier::external_type_specification]
#[verifier::reject_recursive_types(T)]
pub struct ExAsyncChannelTrySendError<T>(async_channel::TrySendError<T>);

/// Relies on `async_channel`'s `try_send`: a failed attempt returns the
/// message inside the error — `Full` while the channel is full, `Closed`
/// once no receiver remains.
#[verifier::external_body]
fn try_send_raw<T>(tx: &AsyncChannelSender<T>, msg: T) -> (r: Result<
    (),
    async_channel::TrySendError<T>,
>)
    ensures
        match r {
            Ok(u) => true,
            Err(async_channel::TrySendError::Full(v)) => v == msg,
            Err(async_channel::TrySendError::Closed(v)) => v == msg,
        },
{
    tx.try_send(msg)
}

impl<T> From<async_channel::TrySendError<T>> for SendError<T> {
    fn from(err: async_channel::TrySendError<T>) -> Self {
        match err {
            async_channel::TrySendError::Full(v) => SendError::Full(v),
            async_channel::TrySendError::Closed(v) => SendError::Closed(v),
        }
    }
}

impl<T> vstd::std_specs::convert::FromSpecImpl<async_channel::TrySendError<T>> for SendError<T> {
    open spec fn obeys_from_spec() -> bool {
        true
    }

    open spec fn from_spec(err: async_channel::TrySendError<T>) -> Self {
        match err {
            async_channel::TrySendError::Full(v) => SendError::Full(v),
            async_channel::TrySendError::Closed(v) => SendError::Closed(v),
        }
    }
}

/// How a raw `async_channel` send outcome is normalized for the generic and
/// bounded capabilities: success passes through, `Full` stays `Full`,
/// `Closed` stays `Closed` — the payload unchanged, and never
/// `Disconnected`.
pub fn normalize_try_send<T>(raw: Result<(), async_channel::TrySendError<T>>) -> (out: Result<
    (),
    SendError<T>,
>)
    ensures
        match raw {
            Ok(u) => out == Ok::<(), SendError<T>>(()),
            Err(async_channel::TrySendError::Full(v)) => out == Err::<(), SendError<T>>(
                SendError::Full(v),
            ),
            Err(async_channel::TrySendError::Closed(v)) => out == Err::<(), SendError<T>>(
                SendError::Closed(v),
            ),
        },
{
    match raw {
        Ok(u) => Ok(u),
        Err(e) => Err(SendError::from(e)),
    }
}

/// How a raw `async_channel` send outcome is normalized for the unbounded
/// capability: success passes through, `Closed` stays `Closed`, and a raw
/// `Full` — which a conforming unbounded backend can never report —
/// surfaces as the defensive `UnreachableFull`, the payload unchanged.
pub fn normalize_unbounded_send<T>(raw: Result<(), async_channel::TrySendError<T>>) -> (out:
    Result<(), SendErrorWithoutFull<T>>)
    ensures
        match raw {
            Ok(u) => out == Ok::<(), SendErrorWithoutFull<T>>(()),
            Err(async_channel::TrySendError::Full(v)) => out == Err::<(), SendErrorWithoutFull<T>>(
                SendErrorWithoutFull::UnreachableFull(v),
            ),
            Err(async_channel::TrySendError::Closed(v)) => out == Err::<
                (),
                SendErrorWithoutFull<T>,
            >(SendErrorWithoutFull::Closed(v)),
        },
{
    match raw {
        Ok(u) => Ok(u),
        Err(e) => match e {
            async_channel::TrySendError::Full(v) => Err(SendErrorWithoutFull::UnreachableFull(v)),
            async_channel::TrySendError::Closed(v) => Err(SendErrorWithoutFull::Closed(v)),
        },
    }
}

impl<T> Sender<T> for AsyncChannelSender<T> {
    fn send(&self, t: T) -> Result<(), SendError<T>> {
        normalize_try_send(try_send_raw(self, t))
    }
}

impl<T> CloneableSender<T> for AsyncChannelSender<T> {
    fn send(&self, t: T) -> Result<(), SendError<T>> {
        normalize_try_send(try_send_raw(self, t))
    }
}

impl<T> BoundedSender<T> for AsyncChannelSender<T> {
    fn try_send(&self, t: T) -> Result<(), SendError<T>> {
        normalize_try_send(try_send_raw(self, t))
    }
}

impl<T> UnboundedSender<T> for AsyncChannelSender<T> {
    fn send(&self, t: T) -> Result<(), SendErrorWithoutFull<T>> {
        normalize_unbounded_send(try_send_raw(self, t))
    }
}

} // verus!

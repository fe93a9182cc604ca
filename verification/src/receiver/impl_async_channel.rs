use vstd::prelude::*;
use async_channel::Receiver as AsyncChannelReceiver;
use async_channel::TryRecvError as TryRecvErrorInner;
use crate::receiver::error::TryRecvError;
use crate::receiver::generic::AsyncReceiver as GenericAsyncReceiver;
use crate::receiver::multi_consumer::AsyncReceiver as MultiConsumerAsyncReceiver;

verus! {

/// The multi-consumer receiving half supplied by `async_channel`; opaque to
/// the verifier.
#[verifier::external_type_specification]
#[verifier::external_body]
#[verifier::reject_recursive_types(T)]
pub struct ExAsyncChannelRx<T>(AsyncChannelReceiver<T>);

/// The error of `async_channel`'s `try_recv`, declared transparently so
/// that verified code can match on its two variants.
#[verifier::external_type_specification]
pub struct ExAsyncChannelTryRecvError(TryRecvErrorInner);

/// Relies on `async_channel`'s `try_recv`: it never blocks, returning a
/// queued message if one is available, `Empty` while the channel is empty
/// with senders alive, `Closed` once it is empty and closed. Which outcome
/// comes back depends on the channel's current state, so nothing more is
/// assumed of it.
#[verifier::external_body]
fn try_recv_raw<T>(rx: &AsyncChannelReceiver<T>) -> Result<T, TryRecvErrorInner> {
    rx.try_recv()
}

impl From<TryRecvErrorInner> for TryRecvError {
    fn from(err: TryRecvErrorInner) -> Self {
        match err {
            TryRecvErrorInner::Empty => TryRecvError::Empty,
            TryRecvErrorInner::Closed => TryRecvError::Closed,
        }
    }
}

impl vstd::std_specs::convert::FromSpecImpl<TryRecvErrorInner> for TryRecvError {
    open spec fn obeys_from_spec() -> bool {
        true
    }

    open spec fn from_spec(err: TryRecvErrorInner) -> Self {
        match err {
            TryRecvErrorInner::Empty => TryRecvError::Empty,
            TryRecvErrorInner::Closed => TryRecvError::Closed,
        }
    }
}

/// How a raw `async_channel` probe outcome is normalized: a received value
/// passes through unchanged, `Empty` stays `Empty`, `Closed` stays `Closed`
/// — this backend never speaks of `Disconnected`.
pub fn normalize_try_recv<T>(raw: Result<T, TryRecvErrorInner>) -> (out: Result<T, TryRecvError>)
    ensures
        match raw {
            Ok(v) => out == Ok::<T, TryRecvError>(v),
            Err(TryRecvErrorInner::Empty) => out == Err::<T, TryRecvError>(TryRecvError::Empty),
            Err(TryRecvErrorInner::Closed) => out == Err::<T, TryRecvError>(TryRecvError::Closed),
        },
{
    match raw {
        Ok(v) => Ok(v),
        Err(e) => Err(TryRecvError::from(e)),
    }
}

impl<T> MultiConsumerAsyncReceiver<T> for AsyncChannelReceiver<T> {
    fn try_recv(&mut self) -> Result<T, TryRecvError> {
        normalize_try_recv(try_recv_raw(self))
    }
}

impl<T> GenericAsyncReceiver<T> for AsyncChannelReceiver<T> {
    fn try_recv(&mut self) -> Result<T, TryRecvError> {
        normalize_try_recv(try_recv_raw(self))
    }
}

} // verus!

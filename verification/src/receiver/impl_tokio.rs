use vstd::prelude::*;
use tokio::sync::mpsc::Receiver as TokioMpscReceiver;
use tokio::sync::mpsc::UnboundedReceiver as TokioMpscUnboundedReceiver;
use tokio::sync::mpsc::error::TryRecvError as MpscTryRecvErrorInner;
use tokio::sync::oneshot::Receiver as TokioOneshotReceiver;
use tokio::sync::oneshot::error::RecvError as OneshotRecvErrorInner;
use tokio::sync::oneshot::error::TryRecvError as OneshotTryRecvError;
use crate::receiver::error::{OneshotRecvError, TryRecvError};
use crate::receiver::generic::AsyncReceiver as GenericAsyncReceiver;
use crate::receiver::one_shot::AsyncReceiver as OneshotAsyncReceiver;
use crate::receiver::single_consumer::AsyncReceiver as SingleConsumerAsyncReceiver;

verus! {

/// The receiving half of tokio's bounded multi-producer channel; opaque to
/// the verifier.
#[verifier::external_type_specification]
#[verifier::external_body]
#[verifier::reject_recursive_types(T)]
pub struct ExTokioMpscRx<T>(TokioMpscReceiver<T>);

/// The receiving half of tokio's unbounded multi-producer channel; opaque
/// to the verifier.
#[verifier::external_type_specification]
#[verifier::external_body]
#[verifier::reject_recursive_types(T)]
pub struct ExTokioMpscUnboundedRx<T>(TokioMpscUnboundedReceiver<T>);

/// The receiving half of tokio's one-shot channel; opaque to the verifier.
#[verifier::external_type_specification]
#[verifier::external_body]
#[verifier::reject_recursive_types(T)]
pub struct ExTokioOneshotRx<T>(TokioOneshotReceiver<T>);

/// The error of tokio's mpsc `try_recv`, declared transparently so that
/// verified code can match on its two variants.
#[verifier::external_type_specification]
pub struct ExTokioMpscTryRecvError(MpscTryRecvErrorInner);

/// The error of tokio's one-shot `try_recv`, declared transparently so that
/// verified code can match on its two variants.
#[verifier::external_type_specification]
pub struct ExTokioOneshotTryRecvError(OneshotTryRecvError);

/// The error the awaited tokio one-shot receive resolves to when the sender
/// was dropped without sending; opaque to the verifier.
#[verifier::external_type_specification]
#[verifier::external_body]
pub struct ExTokioOneshotRecvErrorInner(OneshotRecvErrorInner);

/// Relies on tokio's mpsc `try_recv` on the bounded receiver: it never
/// blocks, returning a queued message if one is available, `Empty` while
/// senders are alive, `Disconnected` once the sending half is gone and
/// drained. Which outcome comes back depends on the channel's current
/// state, so nothing more is assumed of it.
#[verifier::external_body]
fn mpsc_try_recv_raw<T>(rx: &mut TokioMpscReceiver<T>) -> Result<T, MpscTryRecvErrorInner> {
    rx.try_recv()
}

/// Relies on tokio's mpsc `try_recv` on the unbounded receiver, exactly as
/// on the bounded one.
#[verifier::external_body]
fn mpsc_unbounded_try_recv_raw<T>(rx: &mut TokioMpscUnboundedReceiver<T>) -> Result<
    T,
    MpscTryRecvErrorInner,
> {
    rx.try_recv()
}

/// Relies on tokio's one-shot `try_recv`: it never blocks, returning the
/// value if the sender has sent it, `Empty` while the sender has not yet
/// sent, `Closed` once the sender was dropped without sending (or the value
/// was already taken). Which outcome comes back depends on the channel's
/// current state, so nothing more is assumed of it.
#[verifier::external_body]
fn oneshot_try_recv_raw<T>(rx: &mut TokioOneshotReceiver<T>) -> Result<T, OneshotTryRecvError> {
    rx.try_recv()
}

impl From<MpscTryRecvErrorInner> for TryRecvError {
    fn from(err: MpscTryRecvErrorInner) -> Self {
        match err {
            MpscTryRecvErrorInner::Empty => TryRecvError::Empty,
            MpscTryRecvErrorInner::Disconnected => TryRecvError::Disconnected,
        }
    }
}

impl vstd::std_specs::convert::FromSpecImpl<MpscTryRecvErrorInner> for TryRecvError {
    open spec fn obeys_from_spec() -> bool {
        true
    }

    open spec fn from_spec(err: MpscTryRecvErrorInner) -> Self {
        match err {
            MpscTryRecvErrorInner::Empty => TryRecvError::Empty,
            MpscTryRecvErrorInner::Disconnected => TryRecvError::Disconnected,
        }
    }
}

impl From<OneshotTryRecvError> for TryRecvError {
    fn from(err: OneshotTryRecvError) -> Self {
        match err {
            OneshotTryRecvError::Empty => TryRecvError::Empty,
            OneshotTryRecvError::Closed => TryRecvError::Closed,
        }
    }
}

impl vstd::std_specs::convert::FromSpecImpl<OneshotTryRecvError> for TryRecvError {
    open spec fn obeys_from_spec() -> bool {
        true
    }

    open spec fn from_spec(err: OneshotTryRecvError) -> Self {
        match err {
            OneshotTryRecvError::Empty => TryRecvError::Empty,
            OneshotTryRecvError::Closed => TryRecvError::Closed,
        }
    }
}

/// How a raw tokio mpsc probe outcome is normalized: a received value
/// passes through unchanged, `Empty` stays `Empty`, and `Disconnected`
/// stays `Disconnected` — this backend never speaks of `Closed`.
pub fn normalize_mpsc_try_recv<T>(raw: Result<T, MpscTryRecvErrorInner>) -> (out: Result<
    T,
    TryRecvError,
>)
    ensures
        match raw {
            Ok(v) => out == Ok::<T, TryRecvError>(v),
            Err(MpscTryRecvErrorInner::Empty) => out == Err::<T, TryRecvError>(
                TryRecvError::Empty,
            ),
            Err(MpscTryRecvErrorInner::Disconnected) => out == Err::<T, TryRecvError>(
                TryRecvError::Disconnected,
            ),
        },
{
    match raw {
        Ok(v) => Ok(v),
        Err(e) => Err(TryRecvError::from(e)),
    }
}

/// How a raw tokio one-shot probe outcome is normalized: the transmitted
/// value passes through unchanged, `Empty` stays `Empty`, `Closed` stays
/// `Closed`.
pub fn normalize_oneshot_probe<T>(raw: Result<T, OneshotTryRecvError>) -> (out: Result<
    T,
    TryRecvError,
>)
    ensures
        match raw {
            Ok(v) => out == Ok::<T, TryRecvError>(v),
            Err(OneshotTryRecvError::Empty) => out == Err::<T, TryRecvError>(TryRecvError::Empty),
            Err(OneshotTryRecvError::Closed) => out == Err::<T, TryRecvError>(
                TryRecvError::Closed,
            ),
        },
{
    match raw {
        Ok(v) => Ok(v),
        Err(e) => Err(TryRecvError::from(e)),
    }
}

/// Wraps tokio's one-shot receiving half so that the library's one-shot
/// receive capability can be implemented for it.
#[verifier::reject_recursive_types(T)]
pub struct TokioOneshotReceiverWrapper<T>(pub TokioOneshotReceiver<T>);

impl<T> OneshotAsyncReceiver<T> for TokioOneshotReceiverWrapper<T> {
    fn try_recv(&mut self) -> Result<T, TryRecvError> {
        normalize_oneshot_probe(oneshot_try_recv_raw(&mut self.0))
    }
}

/// What an awaited one-shot receive resolves to, as a function of the raw
/// outcome: the transmitted value as-is, or `Dropped` when the sender went
/// away without sending.
pub fn normalize_oneshot_recv<T>(r: Result<T, OneshotRecvErrorInner>) -> (out: Result<
    T,
    OneshotRecvError,
>)
    ensures
        match r {
            Ok(v) => out == Ok::<T, OneshotRecvError>(v),
            Err(e) => out == Err::<T, OneshotRecvError>(OneshotRecvError::Dropped),
        },
{
    match r {
        Ok(v) => Ok(v),
        Err(_) => Err(OneshotRecvError::Dropped),
    }
}

impl<T> SingleConsumerAsyncReceiver<T> for TokioMpscReceiver<T> {
    fn try_recv(&mut self) -> Result<T, TryRecvError> {
        normalize_mpsc_try_recv(mpsc_try_recv_raw(self))
    }
}

impl<T> SingleConsumerAsyncReceiver<T> for TokioMpscUnboundedReceiver<T> {
    fn try_recv(&mut self) -> Result<T, TryRecvError> {
        normalize_mpsc_try_recv(mpsc_unbounded_try_recv_raw(self))
    }
}

impl<T> GenericAsyncReceiver<T> for TokioMpscReceiver<T> {
    fn try_recv(&mut self) -> Result<T, TryRecvError> {
        normalize_mpsc_try_recv(mpsc_try_recv_raw(self))
    }
}

impl<T> GenericAsyncReceiver<T> for TokioMpscUnboundedReceiver<T> {
    fn try_recv(&mut self) -> Result<T, TryRecvError> {
        normalize_mpsc_try_recv(mpsc_unbounded_try_recv_raw(self))
    }
}

} // verus!

use channel_traits::receiver::error::TryRecvError;
use channel_traits::receiver::generic::AsyncReceiver as GenericAsyncReceiver;
use channel_traits::receiver::multi_consumer::AsyncReceiver as MultiConsumerAsyncReceiver;
use channel_traits::sender::error::{SendError, SendErrorWithoutFull};
use channel_traits::sender::generic::{CloneableSender, Sender};
use channel_traits::sender::multi_producer::{BoundedSender, UnboundedSender};
use channel_traits::receiver::impl_async_channel::normalize_try_recv;
use channel_traits::sender::impl_async_channel::{normalize_try_send, normalize_unbounded_send};

#[test]
fn bounded_capacity_frees_after_receive() {
    let (tx, rx) = async_channel::bounded(1);
    let mut receiver = rx.clone();
    assert_eq!(BoundedSender::try_send(&tx, 1), Ok(()));
    assert_eq!(BoundedSender::try_send(&tx, 2), Err(SendError::Full(2)));
    assert_eq!(MultiConsumerAsyncReceiver::try_recv(&mut receiver), Ok(1));
    assert_eq!(BoundedSender::try_send(&tx, 3), Ok(()));
}

#[test]
fn single_producer_order_is_kept() {
    let (tx, rx) = async_channel::unbounded();
    let mut receiver = rx;
    assert_eq!(UnboundedSender::send(&tx, 1), Ok(()));
    assert_eq!(UnboundedSender::send(&tx, 2), Ok(()));
    assert_eq!(GenericAsyncReceiver::try_recv(&mut receiver), Ok(1));
    assert_eq!(GenericAsyncReceiver::try_recv(&mut receiver), Ok(2));
    assert_eq!(
        GenericAsyncReceiver::try_recv(&mut receiver),
        Err(TryRecvError::Empty)
    );
}

#[test]
fn receive_after_senders_gone_is_permanently_closed() {
    let (tx, rx) = async_channel::unbounded::<usize>();
    let mut receiver = rx.clone();
    assert_eq!(
        MultiConsumerAsyncReceiver::try_recv(&mut receiver),
        Err(TryRecvError::Empty)
    );
    drop(tx);
    assert_eq!(
        MultiConsumerAsyncReceiver::try_recv(&mut receiver),
        Err(TryRecvError::Closed)
    );
    // The permanent outcome is stable: a second poll reports it again.
    assert_eq!(
        MultiConsumerAsyncReceiver::try_recv(&mut receiver),
        Err(TryRecvError::Closed)
    );
    // A blocking receive on the closed channel resolves immediately
    // instead of waiting.
    assert!(receiver.recv_blocking().is_err());
}

#[test]
fn send_after_receivers_gone_returns_value() {
    let (tx, rx) = async_channel::bounded(1);
    drop(rx);
    assert_eq!(Sender::send(&tx, 7), Err(SendError::Closed(7)));
    assert_eq!(CloneableSender::send(&tx, 8), Err(SendError::Closed(8)));
    assert_eq!(BoundedSender::try_send(&tx, 9), Err(SendError::Closed(9)));
    assert_eq!(
        UnboundedSender::send(&tx, 10),
        Err(SendErrorWithoutFull::Closed(10))
    );
}

#[test]
fn generic_send_reports_full_on_bounded_channel() {
    let (tx, rx) = async_channel::bounded(1);
    assert_eq!(Sender::send(&tx, 1), Ok(()));
    assert_eq!(Sender::send(&tx, 2), Err(SendError::Full(2)));
    assert_eq!(rx.recv_blocking(), Ok(1));
    assert_eq!(Sender::send(&tx, 3), Ok(()));
}

#[test]
fn empty_channel_with_live_sender_reports_empty() {
    let (tx, rx) = async_channel::unbounded::<usize>();
    let mut receiver = rx;
    assert_eq!(
        GenericAsyncReceiver::try_recv(&mut receiver),
        Err(TryRecvError::Empty)
    );
    // The sender is still alive, so the outcome stays transient.
    assert_eq!(
        GenericAsyncReceiver::try_recv(&mut receiver),
        Err(TryRecvError::Empty)
    );
    assert_eq!(UnboundedSender::send(&tx, 4), Ok(()));
    assert_eq!(GenericAsyncReceiver::try_recv(&mut receiver), Ok(4));
}

#[test]
fn unbounded_send_on_full_bounded_backend_is_unreachable_full() {
    // Misusing the unbounded-sender capability over a bounded backend
    // violates its capacity assumption; the defensive variant surfaces it.
    let (tx, _rx) = async_channel::bounded(1);
    assert_eq!(UnboundedSender::send(&tx, 1), Ok(()));
    assert_eq!(
        UnboundedSender::send(&tx, 2),
        Err(SendErrorWithoutFull::UnreachableFull(2))
    );
}

#[test]
fn cloned_senders_feed_one_channel() {
    let (tx, rx) = async_channel::unbounded();
    let sender = tx.clone();
    assert_eq!(CloneableSender::send(&tx, 1), Ok(()));
    assert_eq!(CloneableSender::send(&sender, 2), Ok(()));
    let mut receiver = rx;
    assert_eq!(GenericAsyncReceiver::try_recv(&mut receiver), Ok(1));
    assert_eq!(GenericAsyncReceiver::try_recv(&mut receiver), Ok(2));
}

#[test]
fn normalization_maps_async_channel_vocabulary() {
    assert_eq!(normalize_try_recv::<usize>(Ok(5)), Ok(5));
    assert_eq!(
        normalize_try_recv::<usize>(Err(async_channel::TryRecvError::Empty)),
        Err(TryRecvError::Empty)
    );
    assert_eq!(
        normalize_try_recv::<usize>(Err(async_channel::TryRecvError::Closed)),
        Err(TryRecvError::Closed)
    );
    assert_eq!(normalize_try_send::<usize>(Ok(())), Ok(()));
    assert_eq!(
        normalize_try_send(Err(async_channel::TrySendError::Full(1))),
        Err(SendError::Full(1))
    );
    assert_eq!(
        normalize_try_send(Err(async_channel::TrySendError::Closed(2))),
        Err(SendError::Closed(2))
    );
    assert_eq!(normalize_unbounded_send::<usize>(Ok(())), Ok(()));
    assert_eq!(
        normalize_unbounded_send(Err(async_channel::TrySendError::Full(3))),
        Err(SendErrorWithoutFull::UnreachableFull(3))
    );
    assert_eq!(
        normalize_unbounded_send(Err(async_channel::TrySendError::Closed(4))),
        Err(SendErrorWithoutFull::Closed(4))
    );
}

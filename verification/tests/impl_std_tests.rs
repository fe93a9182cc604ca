use channel_traits::sender::error::{SendError, SendErrorWithoutFull};
use channel_traits::sender::generic::{CloneableSender, Sender};
use channel_traits::sender::multi_producer::UnboundedSender;
use channel_traits::sender::impl_std::{normalize_send, normalize_try_send, normalize_unbounded_send};

#[test]
fn impl_std_test_with_channel() {
    {
        let (tx, rx) = std::sync::mpsc::channel();
        let sender = tx.clone();
        assert_eq!(UnboundedSender::send(&sender, 1), Ok(()));
        assert_eq!(UnboundedSender::send(&sender, 2), Ok(()));
        assert_eq!(rx.recv(), Ok(1));
        assert_eq!(rx.recv(), Ok(2));
        drop(rx);
        assert_eq!(
            UnboundedSender::send(&sender, 3),
            Err(SendErrorWithoutFull::Disconnected(3))
        );
    }
}

#[test]
fn impl_std_generic_test_with_channel() {
    {
        let (tx, rx) = std::sync::mpsc::channel();
        let sender = tx;
        assert_eq!(Sender::send(&sender, 1), Ok(()));
        assert_eq!(Sender::send(&sender, 2), Ok(()));
        assert_eq!(rx.recv(), Ok(1));
        assert_eq!(rx.recv(), Ok(2));
        drop(rx);
        assert_eq!(Sender::send(&sender, 3), Err(SendError::Disconnected(3)));
    }
    {
        let (tx, rx) = std::sync::mpsc::channel();
        let sender = tx.clone();
        assert_eq!(CloneableSender::send(&sender, 1), Ok(()));
        assert_eq!(CloneableSender::send(&sender, 2), Ok(()));
        assert_eq!(rx.recv(), Ok(1));
        assert_eq!(rx.recv(), Ok(2));
        drop(rx);
        assert_eq!(
            CloneableSender::send(&sender, 3),
            Err(SendError::Disconnected(3))
        );
    }
}

#[test]
fn test_with_sync_channel() {
    {
        let (tx, rx) = std::sync::mpsc::sync_channel(1);
        let sender = tx;
        assert_eq!(Sender::send(&sender, 1), Ok(()));
        assert_eq!(Sender::send(&sender, 2), Err(SendError::Full(2)));
        assert_eq!(rx.recv(), Ok(1));
        drop(rx);
        assert_eq!(Sender::send(&sender, 3), Err(SendError::Disconnected(3)));
    }
    {
        let (tx, rx) = std::sync::mpsc::sync_channel(1);
        let sender = tx.clone();
        assert_eq!(CloneableSender::send(&sender, 1), Ok(()));
        assert_eq!(CloneableSender::send(&sender, 2), Err(SendError::Full(2)));
        assert_eq!(rx.recv(), Ok(1));
        drop(rx);
        assert_eq!(
            CloneableSender::send(&sender, 3),
            Err(SendError::Disconnected(3))
        );
    }
}

#[test]
fn suspension_window_on_empty_channel() {
    let (tx, rx) = std::sync::mpsc::sync_channel::<usize>(1);
    let sender = tx;
    let blocked = rx.recv_timeout(std::time::Duration::from_millis(200));
    assert!(blocked.is_err());
    assert_eq!(Sender::send(&sender, 5), Ok(()));
    assert_eq!(rx.recv(), Ok(5));
}

#[test]
fn normalization_maps_std_vocabulary() {
    assert_eq!(normalize_send::<usize>(Ok(())), Ok(()));
    assert_eq!(
        normalize_send(Err(std::sync::mpsc::SendError(3))),
        Err(SendError::Disconnected(3))
    );
    assert_eq!(normalize_unbounded_send::<usize>(Ok(())), Ok(()));
    assert_eq!(
        normalize_unbounded_send(Err(std::sync::mpsc::SendError(4))),
        Err(SendErrorWithoutFull::Disconnected(4))
    );
    assert_eq!(normalize_try_send::<usize>(Ok(())), Ok(()));
    assert_eq!(
        normalize_try_send(Err(std::sync::mpsc::TrySendError::Full(5))),
        Err(SendError::Full(5))
    );
    assert_eq!(
        normalize_try_send(Err(std::sync::mpsc::TrySendError::Disconnected(6))),
        Err(SendError::Disconnected(6))
    );
}

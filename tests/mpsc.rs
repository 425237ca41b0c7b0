use tokasm::mpsc::{channel, RecvPoll, SendError, TryRecvError};

#[test]
fn three_items_from_two_senders_then_end_of_stream() {
    let mut q = channel::<&str>(2);
    q.clone_sender();
    assert_eq!(q.send("x"), Ok(()));
    assert_eq!(q.send("y"), Ok(()));
    assert_eq!(q.blocking_send("z"), Ok(()));
    q.drop_sender();
    assert!(!q.is_closed());
    q.drop_sender();
    assert!(q.is_closed());
    assert_eq!(q.recv(1), RecvPoll::Ready(Some("x")));
    assert_eq!(q.recv(1), RecvPoll::Ready(Some("y")));
    assert_eq!(q.recv(1), RecvPoll::Ready(Some("z")));
    assert_eq!(q.recv(1), RecvPoll::Ready(None));
}

#[test]
fn try_recv_on_empty_open_queue_is_empty() {
    let mut q = channel::<u8>(1);
    assert_eq!(q.try_recv(), Err(TryRecvError::Empty));
    assert_eq!(q.send(3), Ok(()));
    assert_eq!(q.try_recv(), Ok(3));
    q.drop_sender();
    assert_eq!(q.try_recv(), Err(TryRecvError::Disconnected));
}

#[test]
fn waiting_receiver_is_woken_by_send_and_by_close() {
    let mut q = channel::<u8>(0);
    assert_eq!(q.recv(9), RecvPoll::Pending);
    assert_eq!(q.send(1), Ok(()));
    assert_eq!(q.take_woken(), vec![9]);
    assert_eq!(q.recv(9), RecvPoll::Ready(Some(1)));
    assert_eq!(q.recv(9), RecvPoll::Pending);
    q.drop_sender();
    assert_eq!(q.take_woken(), vec![9]);
    assert_eq!(q.recv(9), RecvPoll::Ready(None));
}

#[test]
fn send_after_receiver_dropped_is_refused() {
    let mut q = channel::<u8>(4);
    assert_eq!(q.send(1), Ok(()));
    q.drop_receiver();
    assert_eq!(q.send(2), Err(SendError(2)));
    assert_eq!(q.len(), 1);
    assert_eq!(q.try_recv(), Ok(1));
    assert_eq!(q.try_recv(), Err(TryRecvError::Disconnected));
}

#[test]
fn error_messages() {
    assert_eq!(TryRecvError::Empty.message(), "receiving on an empty channel");
    assert_eq!(TryRecvError::Disconnected.message(), "receiving on a closed channel");
    assert_eq!(SendError(1u8).message(), "channel closed");
}

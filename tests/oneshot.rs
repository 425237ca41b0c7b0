use tokasm::oneshot::{channel, RecvError};

#[test]
fn value_is_received_once() {
    let mut c = channel::<u32>();
    assert_eq!(c.send(42), Ok(()));
    assert_eq!(c.receive(1), Some(Ok(42)));
    assert_eq!(c.receive(1), Some(Err(RecvError)));
}

#[test]
fn waiting_receiver_is_woken_by_send() {
    let mut c = channel::<&str>();
    assert_eq!(c.receive(4), None);
    assert!(c.take_woken().is_empty());
    assert_eq!(c.send("hi"), Ok(()));
    assert_eq!(c.take_woken(), vec![4]);
    assert_eq!(c.receive(4), Some(Ok("hi")));
}

#[test]
fn sender_dropped_without_send_hangs_up() {
    let mut c = channel::<u32>();
    assert_eq!(c.receive(1), None);
    c.drop_sender();
    assert_eq!(c.take_woken(), vec![1]);
    assert_eq!(c.receive(1), Some(Err(RecvError)));
    assert_eq!(c.receive(1), Some(Err(RecvError)));
}

#[test]
fn send_after_receiver_dropped_returns_the_value() {
    let mut c = channel::<String>();
    c.drop_receiver();
    assert_eq!(c.send(String::from("v")), Err(String::from("v")));
}

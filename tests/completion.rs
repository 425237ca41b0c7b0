use tokasm::completion::Completion;

#[test]
fn completion_fires_once_and_wakes_its_waiter() {
    let mut c = Completion::new();
    assert!(!c.await_once(5));
    c.fire();
    assert!(c.is_fired());
    c.fire();
    assert_eq!(c.take_woken(), vec![5]);
    assert!(c.await_once(6));
    assert!(c.take_woken().is_empty());
}

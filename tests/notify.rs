use tokasm::notify::Notify;

#[test]
fn notify_one_without_waiters_banks_a_permit() {
    let mut n = Notify::new();
    n.notify_one();
    assert!(n.has_permit());
    assert!(n.notified(1));
    assert!(!n.has_permit());
    assert!(!n.notified(1));
    assert_eq!(n.waiting(), 1);
    assert!(n.take_woken().is_empty());
}

#[test]
fn notify_one_wakes_waiters_in_fifo_order() {
    let mut n = Notify::new();
    assert!(!n.notified(7));
    assert!(!n.notified(3));
    assert!(!n.notified(9));
    n.notify_one();
    assert_eq!(n.take_woken(), vec![7]);
    n.notify_one();
    n.notify_one();
    assert_eq!(n.take_woken(), vec![3, 9]);
    assert!(!n.has_permit());
    n.notify_one();
    assert!(n.has_permit());
    assert!(n.take_woken().is_empty());
}

#[test]
fn each_notify_one_wakes_a_single_waiter() {
    let mut n = Notify::new();
    for w in 0..5u64 {
        assert!(!n.notified(w));
    }
    for w in 0..5u64 {
        n.notify_one();
        assert_eq!(n.take_woken(), vec![w]);
        assert_eq!(n.waiting(), (4 - w) as usize);
    }
}

#[test]
fn notify_waiters_wakes_all_and_stores_no_permit() {
    let mut n = Notify::default();
    n.notify_waiters();
    assert!(!n.has_permit());
    assert!(!n.notified(1));
    assert!(!n.notified(2));
    n.notify_waiters();
    assert_eq!(n.take_woken(), vec![1, 2]);
    assert_eq!(n.waiting(), 0);
    assert!(!n.has_permit());
    assert!(!n.notified(3));
}

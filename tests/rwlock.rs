use tokasm::rwlock::RwLock;

#[test]
fn readers_share_the_lock() {
    let mut l = RwLock::new(5u32);
    assert!(l.read(1));
    assert!(l.read(2));
    assert_eq!(*l.value(), 5);
    l.release_read();
    l.release_read();
    assert!(l.write(3));
    assert!(l.take_woken().is_empty());
}

#[test]
fn writer_excludes_readers_and_writers() {
    let mut l = RwLock::new(0u32);
    assert!(l.write(1));
    *l.value_mut() = 10;
    assert!(!l.write(2));
    assert!(!l.read(3));
    l.release_write();
    assert_eq!(l.take_woken(), vec![2]);
    *l.value_mut() += 1;
    l.release_write();
    assert_eq!(l.take_woken(), vec![3]);
    assert_eq!(*l.value(), 11);
    l.release_read();
    assert!(l.take_woken().is_empty());
}

#[test]
fn queued_writer_holds_back_new_readers() {
    let mut l = RwLock::new(());
    assert!(l.read(1));
    assert!(!l.write(2));
    l.release_read();
    assert_eq!(l.take_woken(), vec![2]);
    assert!(!l.read(3));
    l.release_write();
    assert_eq!(l.take_woken(), vec![3]);
}

#[test]
fn queued_reader_counts_against_a_waiting_writer() {
    let mut l = RwLock::new(());
    assert!(l.read(1));
    assert!(!l.write(2));
    assert!(!l.read(3));
    l.release_read();
    assert!(l.take_woken().is_empty());
}

#[test]
fn waiting_reader_goes_before_a_later_writer() {
    let mut l = RwLock::new(0u8);
    assert!(l.write(1));
    assert!(!l.read(2));
    l.release_write();
    assert_eq!(l.take_woken(), vec![2]);
    assert!(!l.write(3));
    l.release_read();
    assert_eq!(l.take_woken(), vec![3]);
    l.release_write();
    assert!(l.take_woken().is_empty());
}

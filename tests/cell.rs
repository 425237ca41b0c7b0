use tokasm::cell::InteriorMutability;

#[test]
fn cell_reads_writes_and_replaces() {
    let mut c = InteriorMutability::new(1u32);
    assert_eq!(*c.as_ref(), 1);
    *c.as_mut() = 2;
    assert_eq!(c.replace(3), 2);
    assert_eq!(*c.as_ref(), 3);
}

use smart_pointers::refcell::{Ref, RefCell, RefMut};

#[test]
fn test_refcell() {
    let mut cell: RefCell<i32> = RefCell::new(42);
    let value: Option<Ref> = cell.borrow();
    assert!(value.is_some());
    let value: Ref = value.unwrap();
    assert_eq!(*cell.read(&value), 42);

    // should fail to borrow mutably because there is already a shared reference borrowed
    let value1: Option<RefMut> = cell.borrow_mut();
    assert!(value1.is_none());

    // release the shared reference
    cell.release(value);

    let value: Option<RefMut> = cell.borrow_mut();
    assert!(value.is_some());
    let value: RefMut = value.unwrap();
    assert_eq!(*cell.read_mut(&value), 42);
}

// A freshly constructed cell permits a shared borrow.
#[test]
fn fresh_cell_permits_shared_borrow() {
    let mut cell = RefCell::new(5);
    assert!(cell.borrow().is_some());
}

// A freshly constructed cell permits an exclusive borrow.
#[test]
fn fresh_cell_permits_exclusive_borrow() {
    let mut cell = RefCell::new(5);
    assert!(cell.borrow_mut().is_some());
}

// Shared borrows are reentrant: with several live, one more is granted and
// an exclusive borrow is refused.
#[test]
fn shared_borrows_are_reentrant() {
    let mut cell = RefCell::new(7);
    let g1 = cell.borrow().unwrap();
    let g2 = cell.borrow().unwrap();
    let g3 = cell.borrow().unwrap();
    assert!(cell.borrow_mut().is_none());
    let g4 = cell.borrow();
    assert!(g4.is_some());
    cell.release(g1);
    cell.release(g2);
    cell.release(g3);
    cell.release(g4.unwrap());
}

// While the exclusive borrow is live, both kinds of borrow are refused.
#[test]
fn exclusive_borrow_excludes_all_others() {
    let mut cell = RefCell::new(9);
    let guard = cell.borrow_mut().unwrap();
    assert!(cell.borrow().is_none());
    assert!(cell.borrow_mut().is_none());
    cell.release_mut(guard);
}

// Releasing the only shared guard permits an exclusive borrow; releasing
// the exclusive guard permits both kinds again.
#[test]
fn release_restores_capacity() {
    let mut cell = RefCell::new(3);
    let shared = cell.borrow().unwrap();
    assert!(cell.borrow_mut().is_none());
    cell.release(shared);
    let exclusive = cell.borrow_mut().unwrap();
    assert!(cell.borrow().is_none());
    cell.release_mut(exclusive);
    assert!(cell.borrow().is_some());
}

// With several shared guards live, releasing one at a time keeps the
// exclusive borrow refused and further shared borrows granted, until the
// last release.
#[test]
fn releasing_one_of_many_keeps_exclusive_out() {
    let mut cell = RefCell::new(11);
    let g1 = cell.borrow().unwrap();
    let g2 = cell.borrow().unwrap();
    let g3 = cell.borrow().unwrap();

    cell.release(g1);
    assert!(cell.borrow_mut().is_none());
    let again = cell.borrow().unwrap();
    cell.release(again);

    cell.release(g2);
    assert!(cell.borrow_mut().is_none());

    cell.release(g3);
    assert!(cell.borrow_mut().is_some());
}

// A shared borrow is granted on a fresh cell, an exclusive borrow is
// refused while it is live, and after its release an exclusive borrow is
// granted and reads the original value.
#[test]
fn shared_then_exclusive_reads_value() {
    let mut c = RefCell::new(42);
    let g1 = c.borrow();
    assert!(g1.is_some());
    let g2 = c.borrow_mut();
    assert!(g2.is_none());
    c.release(g1.unwrap());
    let g3 = c.borrow_mut();
    assert!(g3.is_some());
    assert_eq!(*c.read_mut(&g3.unwrap()), 42);
}

// Two live shared guards read the same underlying value; a write through a
// later exclusive guard is visible to a subsequent shared borrow.
#[test]
fn concurrent_readers_and_later_write() {
    let mut cell = RefCell::new(10);
    let r1 = cell.borrow().unwrap();
    let r2 = cell.borrow().unwrap();
    assert_eq!(*cell.read(&r1), 10);
    assert_eq!(*cell.read(&r2), 10);
    cell.release(r1);
    cell.release(r2);

    let w = cell.borrow_mut().unwrap();
    cell.write(&w, 20);
    cell.release_mut(w);

    let r3 = cell.borrow().unwrap();
    assert_eq!(*cell.read(&r3), 20);
    cell.release(r3);
}

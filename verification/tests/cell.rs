use smart_pointers::cell::MyCell;

#[test]
fn test_my_cell() {
    let mut cell = MyCell::new(42);
    assert_eq!(cell.get(), 42);
    cell.set(43);
    assert_eq!(cell.get(), 43);
}

// Mutation through the raw cell is observed without needing any guard.
#[test]
fn raw_cell_mutation_is_observed() {
    let mut cell = MyCell::new(1);
    cell.set(2);
    assert_eq!(cell.get(), 2);
}

#[test]
fn raw_cell_read_does_not_copy_out() {
    let cell = MyCell::new(String::from("interior"));
    assert_eq!(cell.read(), "interior");
}

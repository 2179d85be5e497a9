use qurl_core::ReadonlyState;
use qurl_core::State;

#[test]
fn cell_reads_and_writes() {
    let mut cell = State::new(41i64);
    *cell.write() += 1;
    assert_eq!(*cell.read(), 42);
}

#[test]
fn readonly_half_reads_the_same_value() {
    let cell = State::new(String::from("shared"));
    let ro = ReadonlyState::new(cell);
    assert_eq!(ro.read(), "shared");
}

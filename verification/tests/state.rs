use eir::state::TimestampedValue;

fn wait_millis(millis: u64) {
    let started = std::time::Instant::now();
    while started.elapsed() < std::time::Duration::from_millis(millis) {}
}

#[test]
fn value_comes_back_with_its_instant() {
    let cell = TimestampedValue::new_at(3.3f32, 42);
    assert_eq!(cell.get(), (3.3f32, 42));
}

#[test]
fn set_replaces_value_and_instant_together() {
    let mut cell = TimestampedValue::new_at(1u16, 10);
    cell.set_at(2, 20);
    assert_eq!(cell.get(), (2, 20));
    cell.set_at(3, 30);
    cell.set_at(4, 40);
    assert_eq!(cell.get(), (4, 40));
    assert_eq!(cell.get(), (4, 40));
}

#[test]
fn instant_of_a_write_is_not_after_the_read() {
    let mut cell = TimestampedValue::new_at(0u32, 0);
    let writes = [(11u32, 100u64), (12, 250), (13, 251), (14, 900)];
    for (value, at) in writes {
        cell.set_at(value, at);
        let read_at = at + 1;
        let (seen, stamped) = cell.get();
        assert_eq!(seen, value);
        assert_eq!(stamped, at);
        assert!(stamped <= read_at);
    }
}

#[test]
fn new_keeps_the_value_and_reads_the_clock() {
    let first = TimestampedValue::new(0.0f32);
    wait_millis(5);
    let second = TimestampedValue::new(1.5f32);
    assert_eq!(first.get().0, 0.0);
    assert_eq!(second.get().0, 1.5);
    assert!(second.get().1 > first.get().1);
}

#[test]
fn set_keeps_the_value_and_reads_the_clock() {
    let mut cell = TimestampedValue::new(7u8);
    let (_, created) = cell.get();
    wait_millis(5);
    cell.set(8);
    let (value, written) = cell.get();
    assert_eq!(value, 8);
    assert!(written > created);
    wait_millis(5);
    let later = TimestampedValue::new(0u8).get().1;
    assert!(written <= later);
}

use tauri_runtime_verso::ids::IdGenerator;

#[test]
fn counter_starts_at_zero_and_counts_up() {
    let mut ids = IdGenerator::new();
    assert_eq!(ids.peek(), 0);
    assert_eq!(ids.next(), 0);
    assert_eq!(ids.next(), 1);
    assert_eq!(ids.next(), 2);
    assert_eq!(ids.peek(), 3);
}

#[test]
fn identifiers_are_distinct_and_increasing() {
    let mut ids = IdGenerator::new();
    let mut seen = Vec::new();
    for _ in 0..1000 {
        seen.push(ids.next());
    }
    for pair in seen.windows(2) {
        assert!(pair[0] < pair[1]);
    }
}

use pong::signal::RandomSignal;

#[test]
fn signal_round_trip() {
    // Bounds [0, 100): ten thousand samples, all inside the range.
    let mut s = RandomSignal::new(0, 100);
    for _ in 0..10_000 {
        let v = s.next();
        assert!(v < 100);
    }
}

#[test]
fn signal_narrow_range() {
    // A one-value range can only ever yield that value.
    let mut s = RandomSignal::new(7, 8);
    for _ in 0..50 {
        assert_eq!(s.next(), 7);
    }
}

#[test]
fn signal_respects_lower_bound() {
    let mut s = RandomSignal::new(40, 50);
    for _ in 0..1_000 {
        let v = s.next();
        assert!(v >= 40 && v < 50);
    }
}

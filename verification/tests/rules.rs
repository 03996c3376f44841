use pong::sched::{poll_timeout_ms, tick_due};
use pong::{straddle, x_randomize};

#[test]
fn x_randomize_mapping() {
    assert_eq!(x_randomize(0), 0);
    assert_eq!(x_randomize(32), 0);
    assert_eq!(x_randomize(33), -1);
    assert_eq!(x_randomize(65), -1);
    assert_eq!(x_randomize(66), 1);
    assert_eq!(x_randomize(99), 1);
}

#[test]
fn x_randomize_range() {
    for v in 0u64..100 {
        let r = x_randomize(v);
        assert!(r == 0 || r == -1 || r == 1);
    }
}

#[test]
fn straddle_containment() {
    // Ball interval fully contained in the paddle interval: the ball's
    // left edge 48 lies strictly inside [45, 55].
    assert!(straddle(48, 52, 45, 55));
}

#[test]
fn straddle_partial_overlap() {
    assert!(straddle(40, 50, 45, 55));
    assert!(straddle(50, 60, 45, 55));
}

#[test]
fn straddle_touching_is_no_overlap() {
    assert!(!straddle(45, 55, 45, 55));
    assert!(!straddle(35, 45, 45, 55));
    assert!(!straddle(55, 65, 45, 55));
}

#[test]
fn poll_timeout_floors_at_zero() {
    assert_eq!(poll_timeout_ms(25, 0), 25);
    assert_eq!(poll_timeout_ms(25, 10), 15);
    assert_eq!(poll_timeout_ms(25, 25), 0);
    assert_eq!(poll_timeout_ms(25, 100), 0);
}

#[test]
fn tick_due_exactly_at_interval() {
    assert!(!tick_due(25, 0));
    assert!(!tick_due(25, 24));
    assert!(tick_due(25, 25));
    assert!(tick_due(25, 26));
}

#[test]
fn straddle_disjoint() {
    assert!(!straddle(0, 10, 45, 55));
    assert!(!straddle(60, 70, 45, 55));
}

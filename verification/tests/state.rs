use pong::state::{push_sample, App, Config, Policy};

fn simple() -> Config {
    Config { policy: Policy::Simple, ramp_interval: 512 }
}

#[test]
fn new_initial_state() {
    let app = App::new(simple());
    assert_eq!(app.arena.left, 100);
    assert_eq!(app.arena.top, 100);
    assert_eq!(app.arena.right, 1600);
    assert_eq!(app.arena.bottom, 1100);
    assert_eq!(app.ball.x, 0);
    assert_eq!(app.ball.y, 0);
    assert!(!app.ball.hot);
    assert_eq!(app.board_x, 100);
    assert_eq!(app.vx, 10);
    assert_eq!(app.vy, 10);
    assert_eq!(app.rx, 0);
    assert!(app.dir_x);
    assert!(app.dir_y);
    assert_eq!(app.score, 0);
    assert_eq!(app.tick_count, 0);
    assert_eq!(app.bump, 0);
    assert!(!app.win);
    assert_eq!(app.win_time_ms, 0);
    assert_eq!(app.stream.len(), 200);
    assert!(app.stream.iter().all(|&v| v < 100));
}

#[test]
fn move_left_clamps_at_left_wall() {
    let mut app = App::new(simple());
    assert_eq!(app.board_x, 100);
    app.move_left();
    // Already at the left bound: no movement.
    assert_eq!(app.board_x, 100);
    app.move_right();
    assert_eq!(app.board_x, 150);
    app.move_left();
    assert_eq!(app.board_x, 100);
}

#[test]
fn move_right_clamps_short_of_right_wall() {
    let mut app = App::new(simple());
    for _ in 0..100 {
        app.move_right();
        assert!(app.board_x + 100 <= app.arena.right);
    }
    // One paddle width short of the right bound is the last stop.
    assert_eq!(app.board_x, 1500);
    app.move_right();
    assert_eq!(app.board_x, 1500);
}

#[test]
fn win_latch_and_time_captured_once() {
    let mut app = App::new(simple());
    for _ in 0..12 {
        app.on_tick();
    }
    assert!(!app.check_win());
    assert!(!app.win);

    app.score = 10;
    let victory = app.check_win();
    assert!(victory);
    assert!(app.win);
    assert_eq!(app.win_time_ms, 12 * 25);

    // The latch holds and the captured time never moves.
    app.on_tick();
    assert!(app.win);
    let again = app.check_win();
    assert!(!again);
    assert!(app.win);
    assert_eq!(app.win_time_ms, 12 * 25);
}

#[test]
fn reset_is_deliberately_partial() {
    let mut app = App::new(simple());
    app.place_ball(500, 700);
    for _ in 0..600 {
        app.on_tick();
    }
    app.move_right();
    app.score = 10;
    app.check_win();
    assert!(app.win);

    let ball = app.ball;
    let board_x = app.board_x;
    let cpu_x = app.cpu_x;
    let stream = app.stream.clone();

    app.reset();
    assert_eq!(app.vx, 10);
    assert_eq!(app.vy, 10);
    assert_eq!(app.rx, 0);
    assert_eq!(app.score, 0);
    assert_eq!(app.tick_count, 0);
    assert_eq!(app.bump, 0);
    assert!(!app.win);
    assert_eq!(app.win_time_ms, 0);
    // Ball, paddles and telemetry keep their positions and contents.
    assert_eq!(app.ball, ball);
    assert_eq!(app.board_x, board_x);
    assert_eq!(app.cpu_x, cpu_x);
    assert_eq!(app.stream, stream);
}

#[test]
fn push_sample_is_fixed_capacity_fifo() {
    let mut v: Vec<u64> = (0u64..200).collect();
    push_sample(&mut v, 7);
    assert_eq!(v.len(), 200);
    assert_eq!(v[0], 7);
    assert_eq!(v[1], 0);
    assert_eq!(v[199], 198);

    push_sample(&mut v, 9);
    assert_eq!(v.len(), 200);
    assert_eq!(v[0], 9);
    assert_eq!(v[1], 7);
    assert_eq!(v[2], 0);
    assert_eq!(v[199], 197);
}

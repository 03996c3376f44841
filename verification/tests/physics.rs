use pong::state::{App, Config, Policy};

fn simple(ramp: u64) -> Config {
    Config { policy: Policy::Simple, ramp_interval: ramp }
}

fn scored() -> Config {
    Config { policy: Policy::Scored, ramp_interval: 512 }
}

#[test]
fn ramp_after_1024_ticks() {
    // Start at vx = 1.0, vy = 1.0 (tenths: 10); after exactly 1024 ticks
    // with the 1024-tick ramp the speeds are 1.2 and 1.1.
    let mut app = App::new(simple(1024));
    for _ in 0..1024 {
        app.on_tick();
    }
    assert_eq!(app.vx, 12);
    assert_eq!(app.vy, 11);
    assert_eq!(app.tick_count, 1024);
}

#[test]
fn ramp_after_512_ticks() {
    let mut app = App::new(simple(512));
    for _ in 0..512 {
        app.on_tick();
    }
    assert_eq!(app.vx, 12);
    assert_eq!(app.vy, 11);
    for _ in 0..512 {
        app.on_tick();
    }
    assert_eq!(app.vx, 14);
    assert_eq!(app.vy, 12);
}

#[test]
fn speeds_never_decrease() {
    let mut app = App::new(scored());
    app.place_ball(800, 600);
    let mut vx = app.vx;
    let mut vy = app.vy;
    for _ in 0..2000 {
        app.on_tick();
        assert!(app.vx >= vx);
        assert!(app.vy >= vy);
        vx = app.vx;
        vy = app.vy;
    }
}

#[test]
fn bump_progress_peaks_before_ramp() {
    let mut app = App::new(simple(512));
    for _ in 0..512 {
        app.on_tick();
    }
    // The last tick before the ramp computes 511 * 100 / 512.
    assert_eq!(app.bump, 99);
    app.on_tick();
    // Right after the ramp the progress restarts.
    assert_eq!(app.bump, 0);
}

#[test]
fn scored_bottom_crossing_scores_and_flips() {
    // Ball slightly above the arena's bottom bound, travelling down:
    // the crossing flips dir_y, scores one point and re-rolls the jitter.
    let mut app = App::new(scored());
    app.place_ball(500, 1060);
    assert!(app.dir_y);
    app.on_tick();
    assert!(!app.dir_y);
    assert_eq!(app.score, 1);
    assert!(app.rx == -1 || app.rx == 0 || app.rx == 1);
}

#[test]
fn scored_top_crossing_floors_at_zero() {
    let mut app = App::new(scored());
    for _ in 0..5 {
        app.on_tick();
    }
    app.ball.x = 500;
    app.ball.y = 90;
    app.dir_y = false;
    assert_eq!(app.score, 0);
    app.on_tick();
    // A decrement from zero stays at zero.
    assert_eq!(app.score, 0);
    assert!(app.dir_y);
}

#[test]
fn scored_top_crossing_decrements() {
    let mut app = App::new(scored());
    for _ in 0..5 {
        app.on_tick();
    }
    app.score = 3;
    app.ball.x = 500;
    app.ball.y = 90;
    app.on_tick();
    assert_eq!(app.score, 2);
}

#[test]
fn simple_player_return_scores_and_cues() {
    let mut app = App::new(simple(512));
    app.ball.x = 100;
    app.ball.y = 110;
    app.dir_y = false;
    let cue = app.on_tick();
    assert!(cue);
    assert_eq!(app.score, 1);
    assert!(app.dir_y);
    assert!(app.ball.hot);
}

#[test]
fn simple_no_overlap_clears_hot_flag() {
    let mut app = App::new(simple(512));
    app.ball.hot = true;
    app.place_ball(800, 600);
    app.on_tick();
    assert!(!app.ball.hot);
}

#[test]
fn cpu_paddle_steps_toward_ball_or_holds() {
    // The coin gate passes roughly four times in nine: over many fresh
    // sessions the paddle must both hold and step, and a step is exactly
    // the base step toward the ball when no jitter was rolled.
    let mut held = false;
    let mut stepped = false;
    for _ in 0..300 {
        let mut app = App::new(scored());
        app.place_ball(1500, 600);
        app.on_tick();
        assert!(app.cpu_x == 850 || app.cpu_x == 890);
        if app.cpu_x == 850 {
            held = true;
        } else {
            stepped = true;
        }
    }
    assert!(held && stepped);
}

#[test]
fn cpu_paddle_stays_inside_arena() {
    let mut app = App::new(scored());
    app.place_ball(800, 600);
    for _ in 0..3000 {
        app.on_tick();
        assert!(app.cpu_x >= app.arena.left && app.cpu_x <= app.arena.right);
    }
}

#[test]
fn cpu_paddle_bounces_ball_upward() {
    // The ball sits past the computer paddle's contact line, horizontally
    // over it. The bottom crossing scores and turns the ball downward
    // again; the paddle then forces it back up and fires the cue.
    let mut app = App::new(scored());
    app.ball.x = 850;
    app.ball.y = 1075;
    app.dir_y = false;
    let cue = app.on_tick();
    assert!(cue);
    assert_eq!(app.score, 1);
    assert!(!app.dir_y);
    assert_eq!(app.ball.y, 1065);
}

#[test]
fn telemetry_rolls_every_sixteenth_tick_after_win() {
    let mut app = App::new(simple(512));
    app.win = true;
    let before: Vec<u64> = app.stream.clone();
    for _ in 0..14 {
        app.on_tick();
        assert_eq!(app.stream, before);
    }
    app.on_tick();
    assert_eq!(app.stream.len(), 200);
    assert!(app.stream[0] < 100);
    assert_eq!(&app.stream[1..], &before[..199]);

    let mid: Vec<u64> = app.stream.clone();
    for _ in 0..15 {
        app.on_tick();
        assert_eq!(app.stream, mid);
    }
    app.on_tick();
    assert_eq!(&app.stream[1..], &mid[..199]);
}

#[test]
fn telemetry_holds_still_before_win() {
    let mut app = App::new(simple(512));
    let before: Vec<u64> = app.stream.clone();
    for _ in 0..64 {
        app.on_tick();
    }
    assert_eq!(app.stream, before);
}

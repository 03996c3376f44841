//! Simulation state: arena, ball, paddles, velocity and direction state,
//! score, tick counters, telemetry buffer and the win latch.
//!
//! All coordinates and speeds are fixed-point integers in tenths of a
//! display unit, so one display unit is 10 and one tenth of a unit is 1.

use vstd::prelude::*;

verus! {

use crate::signal::RandomSignal;

/// Side of the square ball, 5.0 display units.
pub const BALL_SIZE: i64 = 50;

/// Half the ball's width, used by the straddle test.
pub const BALL_HALF: i64 = 25;

/// Height of a paddle, 3.0 display units.
pub const BOARD_H: i64 = 30;

/// Half a paddle's width; a paddle is 10.0 display units wide.
pub const BOARD_HALF: i64 = 50;

/// One input step moves the player paddle 5.0 display units.
pub const BOARD_STEP: i64 = 50;

/// Base step of the computer paddle, 4.0 display units.
pub const CPU_STEP: i64 = 40;

/// Below this height the ball is marked as near the player paddle.
pub const HOT_LINE: i64 = 300;

/// Score at which the session is won.
pub const WIN_SCORE: u64 = 10;

/// Fixed length of the telemetry window.
pub const STREAM_LEN: usize = 200;

/// The fixed tick interval in milliseconds. The control loop schedules
/// one advance per interval, and the captured win time is the tick count
/// times this same duration, so the two cannot diverge.
pub const TICK_MS: u64 = 25;

/// Hard ceiling on the tick counter, a machine limit only: at it every
/// derived quantity still fits comfortably in its machine integer.
pub const TICK_LIMIT: u64 = 0x1_0000_0000;

/// Slack allowed around the arena for ball positions, a machine limit only.
pub const POS_SLACK: i64 = 0x100_0000_0000;

/// Upper bound on how far the ball can travel in one tick; the position
/// bound of a well-formed state widens by this much per tick.
pub const POS_STEP: i64 = 20_000_100;

/// Upper bound on both speeds for any tick count up to `TICK_LIMIT`.
pub const SPEED_LIMIT: i64 = 20_000_000;

/// The two vertical-wall policies. `Simple` is a plain wall bounce with no
/// computer opponent; the score moves only at the player paddle. `Scored`
/// is the two-paddle variant: a computer paddle guards the far wall, and
/// crossing either vertical bound moves the score and re-rolls the jitter.
#[derive(Clone, Copy, Debug, PartialEq, Eq, Structural)]
pub enum Policy {
    Simple,
    Scored,
}

/// Session capabilities: the vertical-wall policy and the speed-ramp
/// interval in ticks.
#[derive(Clone, Copy, Debug, PartialEq, Eq, Structural)]
pub struct Config {
    pub policy: Policy,
    pub ramp_interval: u64,
}

impl Config {
    /// The ramp interval is one of the two supported cadences, both powers
    /// of two so the ramp gate is a mask test.
    pub open spec fn wf(&self) -> bool {
        self.ramp_interval == 512 || self.ramp_interval == 1024
    }
}

/// Axis-aligned arena, immutable for the session. The ball's legal region
/// is defined by these bounds; its bounding box may exit the top or bottom
/// edge, which triggers bouncing or scoring.
#[derive(Clone, Copy, Debug, PartialEq, Eq, Structural)]
pub struct Arena {
    pub left: i64,
    pub top: i64,
    pub right: i64,
    pub bottom: i64,
}

impl Arena {
    pub open spec fn wf(&self) -> bool {
        &&& 0 <= self.left
        &&& self.left + 300 <= self.right
        &&& 0 <= self.top
        &&& self.top + 300 <= self.bottom
        &&& self.right <= 100_000
        &&& self.bottom <= 100_000
    }

    pub open spec fn height(&self) -> int {
        self.bottom - self.top
    }
}

/// The ball: a square anchored at (x, y). `hot` is the near-paddle flag,
/// cosmetic for the renderer but semantically tracked.
#[derive(Clone, Copy, Debug, PartialEq, Eq, Structural)]
pub struct Ball {
    pub x: i64,
    pub y: i64,
    pub hot: bool,
}

/// The full simulation state. The player paddle sits at the arena's top
/// bound and moves only on input; the computer paddle, used by the
/// `Scored` policy, guards the bottom bound and moves during ticks.
pub struct App {
    pub config: Config,
    pub arena: Arena,
    pub ball: Ball,
    /// Player paddle anchor; its rectangle spans `board_x` plus or minus
    /// half a paddle width at the arena's top bound.
    pub board_x: i64,
    /// Computer paddle anchor at the arena's bottom bound.
    pub cpu_x: i64,
    /// Horizontal speed, tenths per tick; never decreases within a session.
    pub vx: i64,
    /// Vertical speed, tenths per tick; never decreases within a session.
    pub vy: i64,
    /// Transient horizontal jitter, re-rolled on each vertical bounce in
    /// the `Scored` policy; added to `vx` when the ball moves.
    pub rx: i64,
    /// Horizontal travel direction: true means increasing x.
    pub dir_x: bool,
    /// Vertical travel direction: true means increasing y, toward the
    /// computer paddle's wall.
    pub dir_y: bool,
    pub score: u64,
    /// Incremented exactly once per tick.
    pub tick_count: u64,
    /// Progress toward the next speed ramp, as a percentage.
    pub bump: u64,
    /// Ticks since the last speed ramp.
    pub bump_tick: u64,
    /// Uniform source over [0, 100): jitter rolls and telemetry samples.
    pub signal: RandomSignal,
    /// Uniform source over [0, 9): the computer paddle's per-tick gate.
    pub gate: RandomSignal,
    /// Telemetry window, newest sample first.
    pub stream: Vec<u64>,
    /// Win latch: set once, cleared only by an explicit reset.
    pub win: bool,
    /// Elapsed simulated time when the win latched, in milliseconds.
    pub win_time_ms: u64,
}

impl App {
    /// How far from the origin the ball may legally sit: the bound widens
    /// by `POS_STEP` per tick, which dominates any one tick's travel.
    pub open spec fn pos_bound(&self) -> int {
        POS_SLACK + POS_STEP * (self.tick_count as int)
    }

    /// Well-formedness: every constructor establishes this and every
    /// method preserves it. The speeds are tied exactly to the tick
    /// counter through the ramp rule, and `bump_tick` is the tick counter
    /// reduced modulo the ramp interval.
    pub open spec fn wf(&self) -> bool {
        &&& self.config.wf()
        &&& self.arena.wf()
        &&& self.signal.wf()
        &&& self.signal.lower() == 0
        &&& self.signal.upper() == 100
        &&& self.gate.wf()
        &&& self.gate.lower() == 0
        &&& self.gate.upper() == 9
        &&& self.tick_count <= TICK_LIMIT
        &&& self.vx == 10 + 2 * ((self.tick_count as int) / (self.config.ramp_interval as int))
        &&& self.vy == 10 + (self.tick_count as int) / (self.config.ramp_interval as int)
        &&& 10 <= self.vx <= SPEED_LIMIT
        &&& 10 <= self.vy <= SPEED_LIMIT
        &&& -1 <= self.rx <= 1
        &&& self.bump_tick == (self.tick_count as int) % (self.config.ramp_interval as int)
        &&& self.bump <= 100
        &&& self.score <= self.tick_count
        &&& -self.pos_bound() <= self.ball.x as int <= self.pos_bound()
        &&& -self.pos_bound() <= self.ball.y as int <= self.pos_bound()
        &&& self.arena.left - BOARD_STEP <= self.board_x <= self.arena.right + BOARD_STEP
        &&& self.arena.left <= self.cpu_x <= self.arena.right
        &&& self.stream@.len() == STREAM_LEN
        &&& forall|i: int| 0 <= i < self.stream@.len() ==> self.stream@[i] < 100
    }

    /// Build a fresh session: the standard arena and paddle geometry, unit
    /// speeds, zero score and tick count, and a telemetry window filled
    /// with 200 samples drawn up front.
    pub fn new(config: Config) -> (app: App)
        requires
            config.wf(),
        ensures
            app.wf(),
            app.config == config,
            app.arena == (Arena { left: 100, top: 100, right: 1600, bottom: 1100 }),
            app.ball == (Ball { x: 0, y: 0, hot: false }),
            app.board_x == 100,
            app.cpu_x == 850,
            app.vx == 10,
            app.vy == 10,
            app.rx == 0,
            app.dir_x,
            app.dir_y,
            app.score == 0,
            app.tick_count == 0,
            app.bump == 0,
            app.bump_tick == 0,
            !app.win,
            app.win_time_ms == 0,
            app.stream@.len() == STREAM_LEN,
    {
        let mut signal = RandomSignal::new(0, 100);
        let gate = RandomSignal::new(0, 9);
        let mut stream: Vec<u64> = Vec::new();
        let mut i: usize = 0;
        while i < STREAM_LEN
            invariant
                i <= STREAM_LEN,
                stream@.len() == i,
                forall|k: int| 0 <= k < stream@.len() ==> stream@[k] < 100,
                signal.wf(),
                signal.lower() == 0,
                signal.upper() == 100,
            decreases STREAM_LEN - i,
        {
            let v = signal.next();
            stream.push(v);
            i = i + 1;
        }
        App {
            config,
            arena: Arena { left: 100, top: 100, right: 1600, bottom: 1100 },
            ball: Ball { x: 0, y: 0, hot: false },
            board_x: 100,
            cpu_x: 850,
            vx: 10,
            vy: 10,
            rx: 0,
            dir_x: true,
            dir_y: true,
            score: 0,
            tick_count: 0,
            bump: 0,
            bump_tick: 0,
            signal,
            gate,
            stream,
            win: false,
            win_time_ms: 0,
        }
    }

    /// Put the ball somewhere inside the arena; everything else is kept.
    pub fn place_ball(&mut self, x: i64, y: i64)
        requires
            old(self).wf(),
            old(self).arena.left <= x <= old(self).arena.right,
            old(self).arena.top <= y <= old(self).arena.bottom,
        ensures
            final(self).wf(),
            final(self).ball.x == x,
            final(self).ball.y == y,
            final(self).ball.hot == old(self).ball.hot,
            *final(self) == (App { ball: final(self).ball, ..*old(self) }),
    {
        self.ball.x = x;
        self.ball.y = y;
    }

    /// Move the player paddle one step toward the left wall, stopping at
    /// the arena's left bound.
    pub fn move_left(&mut self)
        requires
            old(self).wf(),
        ensures
            final(self).wf(),
            final(self).board_x == if old(self).board_x > old(self).arena.left {
                old(self).board_x - BOARD_STEP
            } else {
                old(self).board_x as int
            },
            *final(self) == (App { board_x: final(self).board_x, ..*old(self) }),
    {
        if self.board_x > self.arena.left {
            self.board_x = self.board_x - BOARD_STEP;
        }
    }

    /// Move the player paddle one step toward the right wall, stopping
    /// short of the arena's right bound.
    pub fn move_right(&mut self)
        requires
            old(self).wf(),
        ensures
            final(self).wf(),
            final(self).board_x == if old(self).board_x + 2 * BOARD_HALF < old(self).arena.right {
                old(self).board_x + BOARD_STEP
            } else {
                old(self).board_x as int
            },
            *final(self) == (App { board_x: final(self).board_x, ..*old(self) }),
    {
        if self.board_x + 2 * BOARD_HALF < self.arena.right {
            self.board_x = self.board_x + BOARD_STEP;
        }
    }

    /// Latch the win once the score reaches the threshold. The win time is
    /// captured exactly once, on the transition into the win state, and
    /// the latch never clears here: once true it stays true. Returns
    /// whether this call made the transition, so the caller can fire the
    /// victory cue.
    pub fn check_win(&mut self) -> (victory: bool)
        requires
            old(self).wf(),
        ensures
            final(self).wf(),
            final(self).win == (old(self).win || old(self).score >= WIN_SCORE),
            old(self).win ==> final(self).win,
            victory == (!old(self).win && old(self).score >= WIN_SCORE),
            victory ==> final(self).win_time_ms == old(self).tick_count * TICK_MS,
            !victory ==> final(self).win_time_ms == old(self).win_time_ms,
            *final(self) == (App {
                win: final(self).win,
                win_time_ms: final(self).win_time_ms,
                ..*old(self)
            }),
    {
        let mut victory = false;
        if self.score >= WIN_SCORE {
            if !self.win {
                self.win_time_ms = self.tick_count * TICK_MS;
                victory = true;
            }
            self.win = true;
        }
        victory
    }

    /// Restart the session counters: speeds, jitter, score, tick and bump
    /// counters, and the win latch with its captured time all return to
    /// their initial values. Deliberately partial: the ball, the paddles
    /// and the telemetry window keep their positions and contents.
    pub fn reset(&mut self)
        requires
            old(self).wf(),
            -POS_SLACK <= old(self).ball.x <= POS_SLACK,
            -POS_SLACK <= old(self).ball.y <= POS_SLACK,
        ensures
            final(self).wf(),
            final(self).vx == 10,
            final(self).vy == 10,
            final(self).rx == 0,
            final(self).score == 0,
            final(self).tick_count == 0,
            final(self).bump == 0,
            final(self).bump_tick == 0,
            !final(self).win,
            final(self).win_time_ms == 0,
            final(self).ball == old(self).ball,
            final(self).board_x == old(self).board_x,
            final(self).cpu_x == old(self).cpu_x,
            final(self).stream@ == old(self).stream@,
            final(self).config == old(self).config,
            final(self).arena == old(self).arena,
    {
        self.vx = 10;
        self.vy = 10;
        self.rx = 0;
        self.score = 0;
        self.tick_count = 0;
        self.bump = 0;
        self.bump_tick = 0;
        self.win = false;
        self.win_time_ms = 0;
    }
}

/// Push one sample to the front of the telemetry window and evict the
/// oldest from the back: strict FIFO at fixed capacity. Pushing a sample
/// and evicting the oldest preserves the window's length.
pub fn push_sample(stream: &mut Vec<u64>, v: u64)
    requires
        old(stream)@.len() >= 1,
    ensures
        final(stream)@.len() == old(stream)@.len(),
        final(stream)@[0] == v,
        final(stream)@.subrange(1, final(stream)@.len() as int) == old(stream)@.subrange(
            0,
            old(stream)@.len() - 1,
        ),
{
    let _ = stream.pop();
    stream.insert(0, v);
    proof {
        let pre = old(stream)@;
        let popped = pre.subrange(0, pre.len() - 1);
        assert(stream@ == popped.insert(0, v));
        assert(stream@.subrange(1, stream@.len() as int) =~= popped);
    }
}

} // verus!

//! The physics and collision engine: one simulation tick.
//!
//! The tick is specified by pure functions of the pre-state. The only
//! nondeterminism comes from the random draws: the re-rolled jitter is
//! pinned down only to its three possible values, the fresh telemetry
//! sample only to its range, and the computer paddle's coin gate leaves
//! open whether it stepped, which `tick_post` carries as the `moved`
//! parameter.

use vstd::prelude::*;

verus! {

use crate::straddle_spec;
use crate::state::App;
use crate::state::Policy;
use crate::state::BALL_SIZE;
use crate::state::BALL_HALF;
use crate::state::BOARD_H;
use crate::state::BOARD_HALF;
use crate::state::CPU_STEP;
use crate::state::HOT_LINE;
use crate::state::TICK_LIMIT;
use crate::state::SPEED_LIMIT;
use crate::state::STREAM_LEN;
use vstd::arithmetic::div_mod::lemma_fundamental_div_mod;
use vstd::arithmetic::div_mod::lemma_fundamental_div_mod_converse_div;
use vstd::arithmetic::div_mod::lemma_fundamental_div_mod_converse_mod;
use vstd::arithmetic::div_mod::lemma_mod_bound;
use vstd::arithmetic::div_mod::lemma_div_is_ordered;

/// The ball's left edge crosses the arena's left bound, or its right edge,
/// taken as x plus the full width, crosses the right bound. The asymmetry
/// with the half-width bounding interval of the straddle test is
/// deliberate: it keeps the two collision rules independently tunable.
pub open spec fn wall_x_hit(s: App) -> bool {
    s.ball.x < s.arena.left || s.ball.x + BALL_SIZE > s.arena.right
}

/// The ball's top edge crosses the arena's top bound.
pub open spec fn wall_top_hit(s: App) -> bool {
    s.ball.y < s.arena.top
}

/// The ball's bottom edge crosses the arena's bottom bound.
pub open spec fn wall_bottom_hit(s: App) -> bool {
    s.ball.y + BALL_SIZE > s.arena.bottom
}

pub open spec fn wall_y_hit(s: App) -> bool {
    wall_top_hit(s) || wall_bottom_hit(s)
}

/// Vertical travel direction after the wall step: crossing either
/// vertical bound toggles it.
pub open spec fn diry_after_walls(s: App) -> bool {
    s.dir_y != wall_y_hit(s)
}

/// Under the `Scored` policy every vertical-bound crossing re-rolls the
/// transient jitter from a fresh draw.
pub open spec fn rx_rerolls(s: App) -> bool {
    s.config.policy == Policy::Scored && wall_y_hit(s)
}

pub open spec fn ball_lo(s: App) -> int {
    s.ball.x - BALL_HALF
}

pub open spec fn ball_hi(s: App) -> int {
    s.ball.x + BALL_HALF
}

/// Horizontal overlap between ball and player paddle, by the straddle test.
pub open spec fn player_overlap(s: App) -> bool {
    straddle_spec(ball_lo(s), ball_hi(s), s.board_x - BOARD_HALF, s.board_x + BOARD_HALF)
}

/// The returning hit at the player side: overlap while the ball's y has
/// reached the paddle's contact line at the arena's top bound.
pub open spec fn player_contact(s: App) -> bool {
    player_overlap(s) && s.ball.y < s.arena.top + BOARD_H
}

/// The score after the tick; it depends on the pre-state alone. Under the
/// `Scored` policy the top crossing decrements with a floor at zero and
/// the bottom crossing increments; under `Simple` the returning hit at the
/// player paddle increments, and the walls leave the score alone.
pub open spec fn score_after(s: App) -> int {
    if s.config.policy == Policy::Scored {
        if wall_top_hit(s) {
            if s.score > 0 {
                s.score - 1
            } else {
                0
            }
        } else if wall_bottom_hit(s) {
            s.score + 1
        } else {
            s.score as int
        }
    } else {
        s.score + (if player_contact(s) && !diry_after_walls(s) {
            1int
        } else {
            0int
        })
    }
}

/// The computer paddle considers stepping only while the ball travels
/// toward it (downward) beyond half the arena's height, measured as a
/// coordinate compared against the height fraction.
pub open spec fn cpu_window(s: App) -> bool {
    &&& s.config.policy == Policy::Scored
    &&& diry_after_walls(s)
    &&& s.ball.y > s.arena.height() / 2
}

/// The computer paddle's position once its reactive step is resolved:
/// either one step of `CPU_STEP` plus the current jitter in the ball's
/// direction, clamped to the arena, or its place unchanged.
pub open spec fn cpu_x_after(s: App, rx1: int, moved: bool) -> int {
    if moved {
        let step = CPU_STEP + rx1;
        let tgt = if s.ball.x > s.cpu_x {
            s.cpu_x + step
        } else {
            s.cpu_x - step
        };
        if tgt < s.arena.left {
            s.arena.left as int
        } else if tgt > s.arena.right {
            s.arena.right as int
        } else {
            tgt
        }
    } else {
        s.cpu_x as int
    }
}

/// Bounce at the computer paddle: the ball's y has reached its contact
/// line, the straddle test reports overlap against the paddle at `cpu1`,
/// and the ball still travels downward outside the win state.
pub open spec fn cpu_bounce(s: App, cpu1: int) -> bool {
    &&& s.config.policy == Policy::Scored
    &&& diry_after_walls(s)
    &&& !s.win
    &&& s.ball.y > s.arena.bottom - BOARD_H
    &&& straddle_spec(ball_lo(s), ball_hi(s), cpu1 - BOARD_HALF, cpu1 + BOARD_HALF)
}

/// Vertical direction at integration time: the returning hit at the
/// player paddle forces upward travel... downward being true; a bounce at
/// the computer paddle forces it false; otherwise the wall step decides.
pub open spec fn diry_after(s: App, cpu1: int) -> bool {
    if player_contact(s) {
        true
    } else if cpu_bounce(s, cpu1) {
        false
    } else {
        diry_after_walls(s)
    }
}

/// The bounce cue fires on a returning hit at the player paddle outside
/// the win state, and on a bounce at the computer paddle.
pub open spec fn cue_fired(s: App, cpu1: int) -> bool {
    (player_contact(s) && !s.win) || cpu_bounce(s, cpu1)
}

/// The near-paddle flag after the tick: set while overlapping low over
/// the player paddle, kept while overlapping higher, cleared otherwise.
pub open spec fn hot_after(s: App) -> bool {
    if player_overlap(s) {
        if s.ball.y < HOT_LINE {
            true
        } else {
            s.ball.hot
        }
    } else {
        false
    }
}

/// The speed ramp fires when the incremented tick counter is a multiple
/// of the ramp interval.
pub open spec fn ramp_fires(s: App) -> bool {
    (s.tick_count + 1) % (s.config.ramp_interval as int) == 0
}

/// Post-win telemetry cadence: one sample every sixteenth tick.
pub open spec fn samples_telemetry(s: App) -> bool {
    s.win && (s.tick_count + 1) % 16 == 15
}

/// The full tick relation between pre-state and post-state, with `moved`
/// resolving the computer paddle's coin gate. Everything else is a
/// function of the pre-state, the re-rolled jitter `post.rx` and the
/// fresh telemetry sample, which is pinned only to its range.
pub open spec fn tick_post(pre: App, post: App, cue: bool, moved: bool) -> bool {
    let cpu1 = cpu_x_after(pre, post.rx as int, moved);
    &&& post.config == pre.config
    &&& post.arena == pre.arena
    &&& post.board_x == pre.board_x
    &&& post.win == pre.win
    &&& post.win_time_ms == pre.win_time_ms
    &&& post.score == score_after(pre)
    &&& post.dir_x == (pre.dir_x != wall_x_hit(pre))
    &&& (moved ==> cpu_window(pre))
    &&& post.cpu_x == cpu1
    &&& post.dir_y == diry_after(pre, cpu1)
    &&& (if rx_rerolls(pre) {
        -1 <= post.rx <= 1
    } else {
        post.rx == pre.rx
    })
    &&& post.ball.hot == hot_after(pre)
    &&& post.ball.x == pre.ball.x + (if post.dir_x {
        pre.vx + post.rx
    } else {
        -(pre.vx + post.rx)
    })
    &&& post.ball.y == pre.ball.y + (if post.dir_y {
        pre.vy as int
    } else {
        -(pre.vy as int)
    })
    &&& post.tick_count == pre.tick_count + 1
    &&& post.bump == pre.bump_tick * 100 / (pre.config.ramp_interval as int)
    &&& post.vx == pre.vx + (if ramp_fires(pre) {
        2int
    } else {
        0int
    })
    &&& post.vy == pre.vy + (if ramp_fires(pre) {
        1int
    } else {
        0int
    })
    &&& cue == cue_fired(pre, cpu1)
    &&& (if samples_telemetry(pre) {
        &&& post.stream@.len() == pre.stream@.len()
        &&& post.stream@[0] < 100
        &&& post.stream@.subrange(1, post.stream@.len() as int) == pre.stream@.subrange(
            0,
            pre.stream@.len() - 1,
        )
    } else {
        post.stream@ == pre.stream@
    })
    &&& post.signal.lower() == pre.signal.lower()
    &&& post.signal.upper() == pre.signal.upper()
    &&& post.gate.lower() == pre.gate.lower()
    &&& post.gate.upper() == pre.gate.upper()
}

/// What the collision stage leaves behind: walls, scoring, jitter
/// re-roll, the computer paddle's step and both paddle bounces have
/// happened; positions, counters and speeds are untouched.
pub open spec fn collide_post(pre: App, post: App, cue: bool, moved: bool) -> bool {
    let cpu1 = cpu_x_after(pre, post.rx as int, moved);
    &&& post.config == pre.config
    &&& post.arena == pre.arena
    &&& post.board_x == pre.board_x
    &&& post.win == pre.win
    &&& post.win_time_ms == pre.win_time_ms
    &&& post.tick_count == pre.tick_count
    &&& post.bump == pre.bump
    &&& post.bump_tick == pre.bump_tick
    &&& post.vx == pre.vx
    &&& post.vy == pre.vy
    &&& post.stream@ == pre.stream@
    &&& post.signal.lower() == pre.signal.lower()
    &&& post.signal.upper() == pre.signal.upper()
    &&& post.signal.wf() == pre.signal.wf()
    &&& post.gate.lower() == pre.gate.lower()
    &&& post.gate.upper() == pre.gate.upper()
    &&& post.gate.wf() == pre.gate.wf()
    &&& post.ball.x == pre.ball.x
    &&& post.ball.y == pre.ball.y
    &&& post.ball.hot == hot_after(pre)
    &&& post.dir_x == (pre.dir_x != wall_x_hit(pre))
    &&& post.score == score_after(pre)
    &&& (moved ==> cpu_window(pre))
    &&& post.cpu_x == cpu1
    &&& pre.arena.left <= post.cpu_x <= pre.arena.right || post.cpu_x == pre.cpu_x
    &&& post.dir_y == diry_after(pre, cpu1)
    &&& (if rx_rerolls(pre) {
        -1 <= post.rx <= 1
    } else {
        post.rx == pre.rx
    })
    &&& cue == cue_fired(pre, cpu1)
}

impl App {
    /// Collision stage: wall bounces with their scoring and jitter
    /// re-roll, the computer paddle's gated step, and both paddle
    /// contacts. Returns the bounce cue and, as ghost information, whether
    /// the computer paddle stepped.
    #[verifier::rlimit(100)]
    fn collide(&mut self) -> (r: (bool, Ghost<bool>))
        requires
            old(self).wf(),
            old(self).tick_count < TICK_LIMIT,
        ensures
            collide_post(*old(self), *final(self), r.0, r.1@),
    {
        let ghost mut moved: bool = false;

        let ball_lo: i64 = self.ball.x - BALL_HALF;
        let ball_hi: i64 = self.ball.x + BALL_HALF;
        let board_lo: i64 = self.board_x - BOARD_HALF;
        let board_hi: i64 = self.board_x + BOARD_HALF;

        // Horizontal wall bounce; note the full width on the right edge.
        if self.ball.x < self.arena.left || self.ball.x + BALL_SIZE > self.arena.right {
            self.dir_x = !self.dir_x;
        }

        // Vertical wall events, per policy.
        match self.config.policy {
            Policy::Simple => {
                if self.ball.y < self.arena.top || self.ball.y + BALL_SIZE > self.arena.bottom {
                    self.dir_y = !self.dir_y;
                }
            },
            Policy::Scored => {
                if self.ball.y < self.arena.top {
                    self.dir_y = !self.dir_y;
                    let v = self.signal.next();
                    self.rx = crate::x_randomize(v);
                    if self.score > 0 {
                        self.score = self.score - 1;
                    }
                } else if self.ball.y + BALL_SIZE > self.arena.bottom {
                    self.dir_y = !self.dir_y;
                    let v = self.signal.next();
                    self.rx = crate::x_randomize(v);
                    self.score = self.score + 1;
                }
            },
        }

        let mut cue = false;

        // The computer paddle, under the `Scored` policy alone: a gated
        // reactive step, then the bounce at its contact line.
        match self.config.policy {
            Policy::Scored => {
                let height: i64 = self.arena.bottom - self.arena.top;
                if self.dir_y && self.ball.y > height / 2 {
                    let g = self.gate.next();
                    if g > 4 {
                        let step: i64 = CPU_STEP + self.rx;
                        let tgt: i64 = if self.ball.x > self.cpu_x {
                            self.cpu_x + step
                        } else {
                            self.cpu_x - step
                        };
                        self.cpu_x = if tgt < self.arena.left {
                            self.arena.left
                        } else if tgt > self.arena.right {
                            self.arena.right
                        } else {
                            tgt
                        };
                        proof {
                            moved = true;
                        }
                    }
                }
                if self.ball.y > self.arena.bottom - BOARD_H && self.dir_y && !self.win {
                    let cpu_lo: i64 = self.cpu_x - BOARD_HALF;
                    let cpu_hi: i64 = self.cpu_x + BOARD_HALF;
                    if crate::straddle(ball_lo, ball_hi, cpu_lo, cpu_hi) {
                        cue = true;
                        self.dir_y = false;
                    }
                }
            },
            Policy::Simple => {},
        }

        // Player paddle: the near-paddle flag and the returning hit.
        if crate::straddle(ball_lo, ball_hi, board_lo, board_hi) {
            if self.ball.y < HOT_LINE {
                self.ball.hot = true;
            }
            if self.ball.y < self.arena.top + BOARD_H {
                match self.config.policy {
                    Policy::Simple => {
                        if !self.dir_y {
                            self.score = self.score + 1;
                        }
                    },
                    Policy::Scored => {},
                }
                self.dir_y = true;
                if !self.win {
                    cue = true;
                }
            }
        } else {
            self.ball.hot = false;
        }

        (cue, Ghost(moved))
    }

    /// Integration and ramp stage: explicit Euler integration of the
    /// ball's position, then the bump percentage, the tick counters, and
    /// the speed ramp at the interval boundary.
    fn integrate_and_ramp(&mut self)
        requires
            old(self).config.wf(),
            old(self).tick_count < TICK_LIMIT,
            old(self).vx == 10 + 2 * ((old(self).tick_count as int) / (
            old(self).config.ramp_interval as int)),
            old(self).vy == 10 + (old(self).tick_count as int) / (
            old(self).config.ramp_interval as int),
            10 <= old(self).vx <= SPEED_LIMIT,
            10 <= old(self).vy <= SPEED_LIMIT,
            -1 <= old(self).rx <= 1,
            old(self).bump_tick == (old(self).tick_count as int) % (
            old(self).config.ramp_interval as int),
            -old(self).pos_bound() <= old(self).ball.x as int <= old(self).pos_bound(),
            -old(self).pos_bound() <= old(self).ball.y as int <= old(self).pos_bound(),
        ensures
            final(self).config == old(self).config,
            final(self).arena == old(self).arena,
            final(self).board_x == old(self).board_x,
            final(self).cpu_x == old(self).cpu_x,
            final(self).dir_x == old(self).dir_x,
            final(self).dir_y == old(self).dir_y,
            final(self).rx == old(self).rx,
            final(self).score == old(self).score,
            final(self).win == old(self).win,
            final(self).win_time_ms == old(self).win_time_ms,
            final(self).stream@ == old(self).stream@,
            final(self).signal == old(self).signal,
            final(self).gate == old(self).gate,
            final(self).ball.hot == old(self).ball.hot,
            final(self).ball.x == old(self).ball.x + (if old(self).dir_x {
                old(self).vx + old(self).rx
            } else {
                -(old(self).vx + old(self).rx)
            }),
            final(self).ball.y == old(self).ball.y + (if old(self).dir_y {
                old(self).vy as int
            } else {
                -(old(self).vy as int)
            }),
            final(self).tick_count == old(self).tick_count + 1,
            final(self).bump == old(self).bump_tick * 100 / (old(self).config.ramp_interval as int),
            final(self).bump <= 100,
            final(self).vx == old(self).vx + (if ramp_fires(*old(self)) {
                2int
            } else {
                0int
            }),
            final(self).vy == old(self).vy + (if ramp_fires(*old(self)) {
                1int
            } else {
                0int
            }),
            final(self).vx == 10 + 2 * ((final(self).tick_count as int) / (
            final(self).config.ramp_interval as int)),
            final(self).vy == 10 + (final(self).tick_count as int) / (
            final(self).config.ramp_interval as int),
            10 <= final(self).vx <= SPEED_LIMIT,
            10 <= final(self).vy <= SPEED_LIMIT,
            final(self).bump_tick == (final(self).tick_count as int) % (
            final(self).config.ramp_interval as int),
            -final(self).pos_bound() <= final(self).ball.x as int <= final(self).pos_bound(),
            -final(self).pos_bound() <= final(self).ball.y as int <= final(self).pos_bound(),
    {
        // Explicit Euler integration, one fixed step per tick.
        let m: i64 = self.vx + self.rx;
        if self.dir_x {
            self.ball.x = self.ball.x + m;
        } else {
            self.ball.x = self.ball.x - m;
        }
        if self.dir_y {
            self.ball.y = self.ball.y + self.vy;
        } else {
            self.ball.y = self.ball.y - self.vy;
        }

        // Bump progress, then the tick counters and the speed ramp.
        self.bump = self.bump_tick * 100 / self.config.ramp_interval;
        self.tick_count = self.tick_count + 1;
        self.bump_tick = self.bump_tick + 1;
        proof {
            let r = old(self).config.ramp_interval as int;
            lemma_mask_mod(self.tick_count, old(self).config.ramp_interval);
            lemma_div_mod_succ(old(self).tick_count as int, r);
            lemma_mod_bound(old(self).tick_count as int, r);
            if r == 512 {
                lemma_div_is_ordered(old(self).tick_count as int + 1, TICK_LIMIT as int, 512);
                lemma_div_is_ordered(old(self).bump_tick * 100, 51100, 512);
            } else {
                lemma_div_is_ordered(old(self).tick_count as int + 1, TICK_LIMIT as int, 1024);
                lemma_div_is_ordered(old(self).bump_tick * 100, 102300, 1024);
            }
        }
        if self.tick_count & (self.config.ramp_interval - 1) == 0 {
            self.vx = self.vx + 2;
            self.vy = self.vy + 1;
            self.bump_tick = 0;
        }
    }

    /// Telemetry stage: once the win has latched, every sixteenth tick
    /// draws one fresh sample and rolls the fixed-length window.
    fn sample_stage(&mut self)
        requires
            old(self).signal.wf(),
            old(self).signal.lower() == 0,
            old(self).signal.upper() == 100,
            old(self).stream@.len() == STREAM_LEN,
            forall|i: int| 0 <= i < old(self).stream@.len() ==> old(self).stream@[i] < 100,
        ensures
            final(self).signal.wf(),
            final(self).signal.lower() == old(self).signal.lower(),
            final(self).signal.upper() == old(self).signal.upper(),
            *final(self) == (App {
                signal: final(self).signal,
                stream: final(self).stream,
                ..*old(self)
            }),
            final(self).stream@.len() == STREAM_LEN,
            forall|i: int| 0 <= i < final(self).stream@.len() ==> final(self).stream@[i] < 100,
            if old(self).win && (old(self).tick_count as int) % 16 == 15 {
                final(self).stream@[0] < 100 && final(self).stream@.subrange(
                    1,
                    final(self).stream@.len() as int,
                ) == old(self).stream@.subrange(0, old(self).stream@.len() - 1)
            } else {
                final(self).stream@ == old(self).stream@
            },
    {
        proof {
            lemma_sample_mask(self.tick_count);
        }
        if self.win {
            if self.tick_count & 0xF == 0xF {
                let value = self.signal.next();
                crate::state::push_sample(&mut self.stream, value);
                proof {
                    assert forall|i: int| 0 <= i < self.stream@.len() implies self.stream@[i]
                        < 100 by {
                        if i >= 1 {
                            assert(self.stream@.subrange(1, self.stream@.len() as int)[i - 1]
                                == self.stream@[i]);
                            assert(old(self).stream@.subrange(0, old(self).stream@.len() - 1)[i - 1]
                                == old(self).stream@[i - 1]);
                        }
                    }
                }
            }
        }
    }

    /// Advance the simulation by one tick: wall bounces, scoring, jitter
    /// re-roll, the computer paddle's reactive step, paddle collisions,
    /// position integration, the speed ramp and post-win telemetry
    /// sampling, in that order. Returns whether the bounce cue fired, for
    /// the caller to play. The tick counter's ceiling is a machine limit
    /// only; at one tick per 25 milliseconds it lies years away.
    #[verifier::rlimit(50)]
    pub fn on_tick(&mut self) -> (cue: bool)
        requires
            old(self).wf(),
            old(self).tick_count < TICK_LIMIT,
        ensures
            final(self).wf(),
            tick_post(*old(self), *final(self), cue, false) || tick_post(
                *old(self),
                *final(self),
                cue,
                true,
            ),
            old(self).vx <= final(self).vx,
            old(self).vy <= final(self).vy,
            final(self).win == old(self).win,
            final(self).tick_count == old(self).tick_count + 1,
    {
        let ghost pre = *old(self);
        let r = self.collide();
        let cue = r.0;
        let ghost moved = r.1@;
        self.integrate_and_ramp();
        self.sample_stage();
        proof {
            assert(samples_telemetry(pre) == (pre.win && (pre.tick_count as int + 1) % 16 == 15));
            if moved {
                assert(tick_post(pre, *self, cue, true));
            } else {
                assert(tick_post(pre, *self, cue, false));
            }
        }
        cue
    }
}

/// For every tick, both speeds are non-decreasing: the ramp only ever
/// raises them, so vx and vy are monotonic in the tick count.
pub proof fn lemma_speeds_monotonic(pre: App, post: App, cue: bool, moved: bool)
    requires
        tick_post(pre, post, cue, moved),
    ensures
        pre.vx <= post.vx,
        pre.vy <= post.vy,
{
}

/// The score never goes negative: under every policy and every pre-state,
/// a decrement is floored at zero.
pub proof fn lemma_score_never_negative(s: App)
    ensures
        score_after(s) >= 0,
{
}

/// The win latch is monotonic across ticks: a tick never clears it.
pub proof fn lemma_win_latch(pre: App, post: App, cue: bool, moved: bool)
    requires
        tick_post(pre, post, cue, moved),
        pre.win,
    ensures
        post.win,
{
}

/// The telemetry window's length is invariant at `STREAM_LEN` in every
/// well-formed state, so for the entire post-win lifetime pushing a
/// sample and evicting the oldest preserves it.
pub proof fn lemma_stream_len_invariant(s: App)
    requires
        s.wf(),
    ensures
        s.stream@.len() == STREAM_LEN,
{
}

/// A mask test against a power-of-two interval is the modulus test.
proof fn lemma_mask_mod(x: u64, r: u64)
    requires
        r == 512 || r == 1024,
    ensures
        (x & (r - 1) as u64 == 0) == ((x as int) % (r as int) == 0),
{
    if r == 512 {
        assert((x & 511 == 0) == (x % 512 == 0)) by (bit_vector);
    } else {
        assert((x & 1023 == 0) == (x % 1024 == 0)) by (bit_vector);
    }
}

/// The telemetry gate's mask test is a modulus test.
proof fn lemma_sample_mask(x: u64)
    ensures
        (x & 0xF == 0xF) == ((x as int) % 16 == 15),
{
    assert((x & 0xF == 0xF) == (x % 16 == 15)) by (bit_vector);
}

/// How quotient and remainder move when the dividend steps by one.
proof fn lemma_div_mod_succ(t: int, r: int)
    requires
        r >= 1,
        t >= 0,
    ensures
        (t + 1) % r == 0 ==> (t + 1) / r == t / r + 1 && t % r == r - 1,
        (t + 1) % r != 0 ==> (t + 1) / r == t / r && (t + 1) % r == t % r + 1,
{
    lemma_fundamental_div_mod(t, r);
    lemma_mod_bound(t, r);
    let q = t / r;
    let m = t % r;
    if m == r - 1 {
        assert((q + 1) * r + 0 == t + 1) by (nonlinear_arith)
            requires
                t == r * q + m,
                m == r - 1,
        ;
        lemma_fundamental_div_mod_converse_div(t + 1, r, q + 1, 0);
        lemma_fundamental_div_mod_converse_mod(t + 1, r, q + 1, 0);
    } else {
        assert(q * r + (m + 1) == t + 1) by (nonlinear_arith)
            requires
                t == r * q + m,
        ;
        lemma_fundamental_div_mod_converse_div(t + 1, r, q, m + 1);
        lemma_fundamental_div_mod_converse_mod(t + 1, r, q, m + 1);
    }
}

} // verus!

//! The simulation state and its per-frame step: paddle movement, ball
//! integration, scoring, wall bounces and paddle bounces, in that order.

use vstd::prelude::*;
use crate::geometry::{abs_i64, abs_val, boxes_overlap, clamp, half_of, spec_clamp};
use crate::rng::{randomise_vector, sign_flip_of};
use crate::vec2::{Vec2, Vec2Model};
use crate::{
    BALL_HALF, BALL_SIZE, BALL_SPEED, DIM_MAX, PADDING, PADDLE_HALF_H, PADDLE_HALF_W,
    PADDLE_HEIGHT, PLAYER_SPEED, POS_LIMIT, VEL_LIMIT,
};

verus! {

/// Everything the simulation consumes in one frame: the elapsed time, the
/// current playfield dimensions (in sub-units) and the four key signals.
#[derive(Clone, Copy, Debug)]
pub struct FrameInput {
    pub dt_ms: u32,
    pub screen_width: i64,
    pub screen_height: i64,
    pub player_1_up: bool,
    pub player_1_down: bool,
    pub player_2_up: bool,
    pub player_2_down: bool,
}

/// Mathematical view of a `FrameInput`.
pub ghost struct InputModel {
    pub dt: int,
    pub w: int,
    pub h: int,
    pub p1_up: bool,
    pub p1_down: bool,
    pub p2_up: bool,
    pub p2_down: bool,
}

impl View for FrameInput {
    type V = InputModel;

    open spec fn view(&self) -> InputModel {
        InputModel {
            dt: self.dt_ms as int,
            w: self.screen_width as int,
            h: self.screen_height as int,
            p1_up: self.player_1_up,
            p1_down: self.player_1_down,
            p2_up: self.player_2_up,
            p2_down: self.player_2_down,
        }
    }
}

impl FrameInput {
    /// A frame input the simulation accepts: a positive playfield that is
    /// tall enough to hold a paddle and the ball, and small enough that the
    /// fixed-point arithmetic cannot overflow.
    pub open spec fn wf(self) -> bool {
        &&& 0 < self.screen_width <= DIM_MAX
        &&& PADDLE_HEIGHT <= self.screen_height <= DIM_MAX
        &&& BALL_SIZE <= self.screen_height
    }
}

/// The whole mutable state of a game: both paddles, both scores, and the
/// ball with its velocity.
#[derive(Clone, Copy, Debug)]
pub struct MainState {
    pub player_1_position: Vec2,
    pub player_2_position: Vec2,
    pub player_1_score: i32,
    pub player_2_score: i32,
    pub ball_position: Vec2,
    pub ball_velocity: Vec2,
}

/// Mathematical view of a `MainState`.
pub ghost struct StateModel {
    pub p1: Vec2Model,
    pub p2: Vec2Model,
    pub score_1: int,
    pub score_2: int,
    pub ball: Vec2Model,
    pub vel: Vec2Model,
}

impl View for MainState {
    type V = StateModel;

    open spec fn view(&self) -> StateModel {
        StateModel {
            p1: self.player_1_position@,
            p2: self.player_2_position@,
            score_1: self.player_1_score as int,
            score_2: self.player_2_score as int,
            ball: self.ball_position@,
            vel: self.ball_velocity@,
        }
    }
}

impl MainState {
    /// A state the simulation accepts: coordinates and velocities within the
    /// fixed-point range, scores never negative.
    pub open spec fn wf(self) -> bool {
        &&& -POS_LIMIT <= self.player_1_position.x <= POS_LIMIT
        &&& -POS_LIMIT <= self.player_1_position.y <= POS_LIMIT
        &&& -POS_LIMIT <= self.player_2_position.x <= POS_LIMIT
        &&& -POS_LIMIT <= self.player_2_position.y <= POS_LIMIT
        &&& -POS_LIMIT <= self.ball_position.x <= POS_LIMIT
        &&& -POS_LIMIT <= self.ball_position.y <= POS_LIMIT
        &&& -VEL_LIMIT <= self.ball_velocity.x <= VEL_LIMIT
        &&& -VEL_LIMIT <= self.ball_velocity.y <= VEL_LIMIT
        &&& 0 <= self.player_1_score
        &&& 0 <= self.player_2_score
    }
}

/// One application of the paddle controller: move by
/// `dir * PLAYER_SPEED * dt` when the key is held, then clamp the center to
/// the playfield.
pub open spec fn paddle_step(y: int, held: bool, dir: int, dt: int, h: int) -> int {
    spec_clamp(
        y + if held {
            dir * PLAYER_SPEED * dt
        } else {
            0
        },
        PADDLE_HALF_H as int,
        h - PADDLE_HALF_H,
    )
}

/// A paddle's full frame: the "up" key is applied first, then the "down"
/// key, each with its own clamp.
pub open spec fn paddle_frame(y: int, up: bool, down: bool, dt: int, h: int) -> int {
    paddle_step(paddle_step(y, up, -1, dt, h), down, 1, dt, h)
}

/// Both paddles moved; nothing else changes.
pub open spec fn step_paddles(pre: StateModel, inp: InputModel) -> StateModel {
    StateModel {
        p1: Vec2Model {
            x: pre.p1.x,
            y: paddle_frame(pre.p1.y, inp.p1_up, inp.p1_down, inp.dt, inp.h),
        },
        p2: Vec2Model {
            x: pre.p2.x,
            y: paddle_frame(pre.p2.y, inp.p2_up, inp.p2_down, inp.dt, inp.h),
        },
        ..pre
    }
}

/// Euler integration of the ball: position advances by velocity times the
/// frame delta.
pub open spec fn step_integrate(s: StateModel, inp: InputModel) -> StateModel {
    StateModel {
        ball: Vec2Model { x: s.ball.x + s.vel.x * inp.dt, y: s.ball.y + s.vel.y * inp.dt },
        ..s
    }
}

/// The ball has crossed the left edge of the playfield.
pub open spec fn crossed_left(s: StateModel) -> bool {
    s.ball.x < 0
}

/// The ball has crossed the right edge of the playfield.
pub open spec fn crossed_right(s: StateModel, inp: InputModel) -> bool {
    s.ball.x > inp.w
}

/// The center of the playfield, where the ball is put back after a score.
pub open spec fn playfield_center(inp: InputModel) -> Vec2Model {
    Vec2Model { x: inp.w / 2, y: inp.h / 2 }
}

/// Scoring: a ball past the left edge gives player 2 a point, one past the
/// right edge gives player 1 a point; either way the ball returns to the
/// center with the fresh velocity `(rx, ry)`. Otherwise nothing changes.
pub open spec fn step_score(s: StateModel, inp: InputModel, rx: int, ry: int) -> StateModel {
    if crossed_left(s) {
        StateModel {
            ball: playfield_center(inp),
            vel: Vec2Model { x: rx, y: ry },
            score_2: s.score_2 + 1,
            ..s
        }
    } else if crossed_right(s, inp) {
        StateModel {
            ball: playfield_center(inp),
            vel: Vec2Model { x: rx, y: ry },
            score_1: s.score_1 + 1,
            ..s
        }
    } else {
        s
    }
}

/// Wall bounce: a ball over the top edge is clamped to it and its vertical
/// velocity forced downward; one over the bottom edge is clamped and its
/// vertical velocity forced upward.
pub open spec fn step_wall(s: StateModel, inp: InputModel) -> StateModel {
    if s.ball.y < BALL_HALF {
        StateModel {
            ball: Vec2Model { x: s.ball.x, y: BALL_HALF as int },
            vel: Vec2Model { x: s.vel.x, y: abs_val(s.vel.y) },
            ..s
        }
    } else if s.ball.y > inp.h - BALL_HALF {
        StateModel {
            ball: Vec2Model { x: s.ball.x, y: inp.h - BALL_HALF },
            vel: Vec2Model { x: s.vel.x, y: -abs_val(s.vel.y) },
            ..s
        }
    } else {
        s
    }
}

/// The ball's box overlaps the paddle's box.
pub open spec fn touching(ball: Vec2Model, paddle: Vec2Model) -> bool {
    boxes_overlap(
        ball.x,
        ball.y,
        BALL_HALF as int,
        BALL_HALF as int,
        paddle.x,
        paddle.y,
        PADDLE_HALF_W as int,
        PADDLE_HALF_H as int,
    )
}

/// Paddle bounce: a ball touching player 1's paddle leaves rightward, else
/// one touching player 2's paddle leaves leftward; the vertical velocity is
/// never altered and the ball is not moved out of the paddle.
pub open spec fn step_collide(s: StateModel) -> StateModel {
    if touching(s.ball, s.p1) {
        StateModel { vel: Vec2Model { x: abs_val(s.vel.x), y: s.vel.y }, ..s }
    } else if touching(s.ball, s.p2) {
        StateModel { vel: Vec2Model { x: -abs_val(s.vel.x), y: s.vel.y }, ..s }
    } else {
        s
    }
}

/// The state after paddle movement and ball integration, before any
/// collision or scoring resolution.
pub open spec fn integrated(pre: StateModel, inp: InputModel) -> StateModel {
    step_integrate(step_paddles(pre, inp), inp)
}

/// One whole frame, given the two velocity components `(rx, ry)` that a
/// scoring reset would draw: paddles, then integration, then scoring, then
/// wall bounce, then paddle bounce.
pub open spec fn spec_step(pre: StateModel, inp: InputModel, rx: int, ry: int) -> StateModel {
    step_collide(step_wall(step_score(step_integrate(step_paddles(pre, inp), inp), inp, rx, ry), inp))
}

/// One frame of a run: its input together with the velocity components a
/// scoring reset would draw.
pub ghost struct FrameChoice {
    pub inp: InputModel,
    pub rx: int,
    pub ry: int,
}

/// The state a whole sequence of frames leaves behind, first frame first.
pub open spec fn run_frames(pre: StateModel, frames: Seq<FrameChoice>) -> StateModel
    decreases frames.len(),
{
    if frames.len() == 0 {
        pre
    } else {
        run_frames(
            spec_step(pre, frames[0].inp, frames[0].rx, frames[0].ry),
            frames.drop_first(),
        )
    }
}

/// Updates one paddle position for one key: moves the center by
/// `y_direction * PLAYER_SPEED * dt_ms` sub-units when the key is held, then
/// clamps it so the paddle stays on the playfield.
pub fn move_paddle(
    position: &mut Vec2,
    key_held: bool,
    y_direction: i64,
    dt_ms: u32,
    screen_height: i64,
)
    requires
        y_direction == 1 || y_direction == -1,
        -POS_LIMIT <= old(position).y <= POS_LIMIT,
        PADDLE_HEIGHT <= screen_height <= DIM_MAX,
    ensures
        final(position)@.x == old(position)@.x,
        final(position)@.y == paddle_step(
            old(position)@.y,
            key_held,
            y_direction as int,
            dt_ms as int,
            screen_height as int,
        ),
        PADDLE_HALF_H <= final(position).y <= screen_height - PADDLE_HALF_H,
{
    let dt: i64 = dt_ms as i64;
    if key_held {
        proof {
            assert(-(500 * 0x1_0000_0000int) <= y_direction * PLAYER_SPEED * dt <= 500
                * 0x1_0000_0000int) by (nonlinear_arith)
                requires
                    y_direction == 1 || y_direction == -1,
                    0 <= dt < 0x1_0000_0000int,
            ;
        }
        position.y = position.y + y_direction * PLAYER_SPEED * dt;
    }
    clamp(&mut position.y, PADDLE_HALF_H, screen_height - PADDLE_HALF_H);
}

impl MainState {
    /// Builds the initial state for a playfield of the given dimensions:
    /// paddles centered vertically and inset from their edges, scores at
    /// zero, and the ball at the center with a randomised velocity whose
    /// components have magnitude `BALL_SPEED`.
    pub fn new(screen_width: i64, screen_height: i64) -> (s: MainState)
        requires
            0 < screen_width <= DIM_MAX,
            PADDLE_HEIGHT <= screen_height <= DIM_MAX,
        ensures
            s.wf(),
            s@.p1 == (Vec2Model {
                x: PADDLE_HALF_W + PADDING,
                y: (screen_height as int) / 2,
            }),
            s@.p2 == (Vec2Model {
                x: screen_width - PADDLE_HALF_W - PADDING,
                y: (screen_height as int) / 2,
            }),
            s@.score_1 == 0,
            s@.score_2 == 0,
            s@.ball == (Vec2Model {
                x: (screen_width as int) / 2,
                y: (screen_height as int) / 2,
            }),
            sign_flip_of(s@.vel.x, BALL_SPEED as int),
            sign_flip_of(s@.vel.y, BALL_SPEED as int),
    {
        let half_w: i64 = half_of(screen_width);
        let half_h: i64 = half_of(screen_height);
        let mut ball_velocity: Vec2 = Vec2::new(0, 0);
        randomise_vector(&mut ball_velocity, BALL_SPEED, BALL_SPEED);
        MainState {
            player_1_position: Vec2::new(PADDLE_HALF_W + PADDING, half_h),
            player_2_position: Vec2::new(screen_width - PADDLE_HALF_W - PADDING, half_h),
            player_1_score: 0,
            player_2_score: 0,
            ball_position: Vec2::new(half_w, half_h),
            ball_velocity,
        }
    }

    /// Advances the simulation by one frame: moves each paddle for each of
    /// its two keys, integrates the ball, then resolves scoring, wall
    /// bounces and paddle bounces in that order. The whole effect equals
    /// `spec_step` for some pair of freshly drawn velocity components; the
    /// pair matters only when a score resets the ball.
    #[verifier::rlimit(100)]
    pub fn update(&mut self, input: &FrameInput)
        requires
            old(self).wf(),
            input.wf(),
            old(self).player_1_score < i32::MAX,
            old(self).player_2_score < i32::MAX,
        ensures
            final(self).wf(),
            exists|rx: int, ry: int|
                sign_flip_of(rx, BALL_SPEED as int) && sign_flip_of(ry, BALL_SPEED as int)
                    && final(self)@ == #[trigger] spec_step(old(self)@, input@, rx, ry),
            PADDLE_HALF_H <= final(self).player_1_position.y <= input.screen_height
                - PADDLE_HALF_H,
            PADDLE_HALF_H <= final(self).player_2_position.y <= input.screen_height
                - PADDLE_HALF_H,
            BALL_HALF <= final(self).ball_position.y <= input.screen_height - BALL_HALF,
            crossed_left(integrated(old(self)@, input@)) ==> final(self)@.score_2 == old(
                self,
            )@.score_2 + 1 && final(self)@.score_1 == old(self)@.score_1,
            crossed_right(integrated(old(self)@, input@), input@) ==> final(self)@.score_1 == old(
                self,
            )@.score_1 + 1 && final(self)@.score_2 == old(self)@.score_2,
            !crossed_left(integrated(old(self)@, input@)) && !crossed_right(
                integrated(old(self)@, input@),
                input@,
            ) ==> final(self)@.score_1 == old(self)@.score_1 && final(self)@.score_2 == old(
                self,
            )@.score_2,
            !(crossed_left(integrated(old(self)@, input@)) && crossed_right(
                integrated(old(self)@, input@),
                input@,
            )),
            old(self)@.score_1 <= final(self)@.score_1,
            old(self)@.score_2 <= final(self)@.score_2,
    {
        let h: i64 = input.screen_height;
        let w: i64 = input.screen_width;
        let dt: i64 = input.dt_ms as i64;
        let ghost pre: StateModel = self@;
        let ghost inp: InputModel = input@;

        move_paddle(&mut self.player_1_position, input.player_1_up, -1, input.dt_ms, h);
        move_paddle(&mut self.player_1_position, input.player_1_down, 1, input.dt_ms, h);
        move_paddle(&mut self.player_2_position, input.player_2_up, -1, input.dt_ms, h);
        move_paddle(&mut self.player_2_position, input.player_2_down, 1, input.dt_ms, h);

        proof {
            assert(self@ == step_paddles(pre, inp));
            assert(-(1_000_000 * 0x1_0000_0000int) <= self.ball_velocity.x * dt <= 1_000_000
                * 0x1_0000_0000int) by (nonlinear_arith)
                requires
                    -1_000_000 <= self.ball_velocity.x <= 1_000_000,
                    0 <= dt < 0x1_0000_0000int,
            ;
            assert(-(1_000_000 * 0x1_0000_0000int) <= self.ball_velocity.y * dt <= 1_000_000
                * 0x1_0000_0000int) by (nonlinear_arith)
                requires
                    -1_000_000 <= self.ball_velocity.y <= 1_000_000,
                    0 <= dt < 0x1_0000_0000int,
            ;
        }
        self.ball_position.x = self.ball_position.x + self.ball_velocity.x * dt;
        self.ball_position.y = self.ball_position.y + self.ball_velocity.y * dt;

        let ghost s_int: StateModel = integrated(pre, inp);
        proof {
            assert(self@ == s_int);
        }
        let ghost scored: bool = crossed_left(s_int) || crossed_right(s_int, inp);

        if self.ball_position.x < 0 {
            self.ball_position.x = half_of(w);
            self.ball_position.y = half_of(h);
            randomise_vector(&mut self.ball_velocity, BALL_SPEED, BALL_SPEED);
            self.player_2_score = self.player_2_score + 1;
        } else if self.ball_position.x > w {
            self.ball_position.x = half_of(w);
            self.ball_position.y = half_of(h);
            randomise_vector(&mut self.ball_velocity, BALL_SPEED, BALL_SPEED);
            self.player_1_score = self.player_1_score + 1;
        }

        let ghost rvx: int = if scored {
            self.ball_velocity@.x
        } else {
            BALL_SPEED as int
        };
        let ghost rvy: int = if scored {
            self.ball_velocity@.y
        } else {
            BALL_SPEED as int
        };
        let ghost s_sc: StateModel = step_score(s_int, inp, rvx, rvy);
        proof {
            assert(self@ == s_sc);
            assert(sign_flip_of(rvx, BALL_SPEED as int));
            assert(sign_flip_of(rvy, BALL_SPEED as int));
            assert(-VEL_LIMIT <= self.ball_velocity.x <= VEL_LIMIT);
            assert(-VEL_LIMIT <= self.ball_velocity.y <= VEL_LIMIT);
            assert(0 <= self.ball_position.x <= w);
        }

        if self.ball_position.y < BALL_HALF {
            self.ball_position.y = BALL_HALF;
            self.ball_velocity.y = abs_i64(self.ball_velocity.y);
        } else if self.ball_position.y > h - BALL_HALF {
            self.ball_position.y = h - BALL_HALF;
            let flipped: i64 = abs_i64(self.ball_velocity.y);
            self.ball_velocity.y = -flipped;
        }

        let ghost s_w: StateModel = step_wall(s_sc, inp);
        proof {
            assert(self@ == s_w);
        }

        let touching_player_1: bool = self.ball_position.x - BALL_HALF < self.player_1_position.x
            + PADDLE_HALF_W && self.ball_position.x + BALL_HALF > self.player_1_position.x
            - PADDLE_HALF_W && self.ball_position.y - BALL_HALF < self.player_1_position.y
            + PADDLE_HALF_H && self.ball_position.y + BALL_HALF > self.player_1_position.y
            - PADDLE_HALF_H;

        let touching_player_2: bool = self.ball_position.x - BALL_HALF < self.player_2_position.x
            + PADDLE_HALF_W && self.ball_position.x + BALL_HALF > self.player_2_position.x
            - PADDLE_HALF_W && self.ball_position.y - BALL_HALF < self.player_2_position.y
            + PADDLE_HALF_H && self.ball_position.y + BALL_HALF > self.player_2_position.y
            - PADDLE_HALF_H;

        proof {
            assert(touching_player_1 == touching(s_w.ball, s_w.p1));
            assert(touching_player_2 == touching(s_w.ball, s_w.p2));
        }

        if touching_player_1 {
            self.ball_velocity.x = abs_i64(self.ball_velocity.x);
        } else if touching_player_2 {
            let flipped: i64 = abs_i64(self.ball_velocity.x);
            self.ball_velocity.x = -flipped;
        }

        proof {
            assert(self@ == spec_step(pre, inp, rvx, rvy));
        }
    }
}

} // verus!

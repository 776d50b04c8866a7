//! The general laws of the simulation, each proved once and for all over
//! the frame-step specification.

use vstd::prelude::*;
use crate::geometry::spec_clamp;
use crate::state::{
    crossed_left, crossed_right, integrated, run_frames, spec_step, step_score, step_wall,
    touching, FrameChoice, InputModel, StateModel,
};
use crate::{BALL_HALF, BALL_SIZE, PADDLE_HALF_H, PADDLE_HEIGHT};

verus! {

/// Clamp idempotence: for bounds with `low <= high`, clamping twice gives
/// the same value as clamping once.
pub proof fn lemma_clamp_idempotent(v: int, low: int, high: int)
    requires
        low <= high,
    ensures
        spec_clamp(spec_clamp(v, low, high), low, high) == spec_clamp(v, low, high),
{
}

/// Paddle bound invariant, one frame: after any frame on a playfield at
/// least as tall as a paddle, each paddle center lies within
/// `[PADDLE_HALF_H, h - PADDLE_HALF_H]`, whatever it was before.
pub proof fn lemma_paddle_bounds(pre: StateModel, inp: InputModel, rx: int, ry: int)
    requires
        PADDLE_HEIGHT <= inp.h,
    ensures
        PADDLE_HALF_H <= spec_step(pre, inp, rx, ry).p1.y <= inp.h - PADDLE_HALF_H,
        PADDLE_HALF_H <= spec_step(pre, inp, rx, ry).p2.y <= inp.h - PADDLE_HALF_H,
{
}

/// Paddle bound invariant, any sequence of frames: after any non-empty
/// sequence of frames whose playfields are all at least as tall as a
/// paddle, each paddle center lies within the bounds set by the last
/// frame's playfield height.
pub proof fn lemma_paddle_bounds_run(pre: StateModel, frames: Seq<FrameChoice>)
    requires
        frames.len() > 0,
        forall|i: int| 0 <= i < frames.len() ==> PADDLE_HEIGHT <= (#[trigger] frames[i]).inp.h,
    ensures
        PADDLE_HALF_H <= run_frames(pre, frames).p1.y <= frames.last().inp.h
            - PADDLE_HALF_H,
        PADDLE_HALF_H <= run_frames(pre, frames).p2.y <= frames.last().inp.h
            - PADDLE_HALF_H,
    decreases frames.len(),
{
    let first = frames[0];
    let stepped = spec_step(pre, first.inp, first.rx, first.ry);
    if frames.len() == 1 {
        lemma_paddle_bounds(pre, first.inp, first.rx, first.ry);
        assert(frames.drop_first().len() == 0);
        assert(run_frames(stepped, frames.drop_first()) == stepped);
        assert(run_frames(pre, frames) == stepped);
    } else {
        let rest = frames.drop_first();
        assert(forall|i: int|
            0 <= i < rest.len() ==> PADDLE_HEIGHT <= (#[trigger] rest[i]).inp.h) by {
            assert(forall|i: int| 0 <= i < rest.len() ==> rest[i] == frames[i + 1]);
        }
        lemma_paddle_bounds_run(stepped, rest);
        assert(rest.last() == frames.last());
    }
}

/// Scoring conservation: a ball past the left edge gives player 2 exactly
/// one point and player 1 none; one past the right edge gives player 1
/// exactly one point and player 2 none; otherwise neither score moves; and
/// the two events can never fire in the same frame.
pub proof fn lemma_scoring_conservation(pre: StateModel, inp: InputModel, rx: int, ry: int)
    requires
        0 <= inp.w,
    ensures
        crossed_left(integrated(pre, inp)) ==> spec_step(pre, inp, rx, ry).score_2 == pre.score_2
            + 1 && spec_step(pre, inp, rx, ry).score_1 == pre.score_1,
        crossed_right(integrated(pre, inp), inp) ==> spec_step(pre, inp, rx, ry).score_1
            == pre.score_1 + 1 && spec_step(pre, inp, rx, ry).score_2 == pre.score_2,
        !crossed_left(integrated(pre, inp)) && !crossed_right(integrated(pre, inp), inp)
            ==> spec_step(pre, inp, rx, ry).score_1 == pre.score_1 && spec_step(
            pre,
            inp,
            rx,
            ry,
        ).score_2 == pre.score_2,
        !(crossed_left(integrated(pre, inp)) && crossed_right(integrated(pre, inp), inp)),
{
}

/// Wall bounce sign correction, stated for frames without a scoring reset
/// (a score re-randomises the velocity, so nothing holds of its sign): a
/// ball whose top edge went past the top of the playfield leaves the frame
/// with downward (non-negative) vertical velocity, and one whose bottom
/// edge went past the bottom leaves with upward (non-positive) vertical
/// velocity.
pub proof fn lemma_wall_bounce(pre: StateModel, inp: InputModel, rx: int, ry: int)
    requires
        BALL_SIZE <= inp.h,
        !crossed_left(integrated(pre, inp)),
        !crossed_right(integrated(pre, inp), inp),
    ensures
        integrated(pre, inp).ball.y < BALL_HALF ==> spec_step(pre, inp, rx, ry).vel.y >= 0,
        integrated(pre, inp).ball.y > inp.h - BALL_HALF ==> spec_step(pre, inp, rx, ry).vel.y
            <= 0,
{
}

/// The state a frame has reached when paddle bounces are resolved: paddles
/// moved, ball integrated, scoring and wall bounces applied.
pub open spec fn before_collide(pre: StateModel, inp: InputModel, rx: int, ry: int) -> StateModel {
    step_wall(step_score(integrated(pre, inp), inp, rx, ry), inp)
}

/// Paddle bounce sign correction: a ball whose box overlaps player 1's
/// paddle when bounces are resolved leaves the frame moving rightward
/// (non-negative horizontal velocity); one overlapping player 2's paddle
/// and not player 1's leaves moving leftward (non-positive horizontal
/// velocity).
pub proof fn lemma_paddle_bounce(pre: StateModel, inp: InputModel, rx: int, ry: int)
    ensures
        touching(before_collide(pre, inp, rx, ry).ball, before_collide(pre, inp, rx, ry).p1)
            ==> spec_step(pre, inp, rx, ry).vel.x >= 0,
        !touching(before_collide(pre, inp, rx, ry).ball, before_collide(pre, inp, rx, ry).p1)
            && touching(
            before_collide(pre, inp, rx, ry).ball,
            before_collide(pre, inp, rx, ry).p2,
        ) ==> spec_step(pre, inp, rx, ry).vel.x <= 0,
{
}

/// Ball vertical bound invariant: after any frame on a playfield at least
/// as tall as the ball, the ball center lies within
/// `[BALL_HALF, h - BALL_HALF]`.
pub proof fn lemma_ball_y_bounds(pre: StateModel, inp: InputModel, rx: int, ry: int)
    requires
        BALL_SIZE <= inp.h,
    ensures
        BALL_HALF <= spec_step(pre, inp, rx, ry).ball.y <= inp.h - BALL_HALF,
{
}

} // verus!

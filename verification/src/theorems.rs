//! What holds of every tick, and of every run of ticks.

use vstd::prelude::*;
use crate::character::CharacterModel;
use crate::collision_resolver::overlaps_any;
use crate::config::ConfigModel;
use crate::geometry::BoxModel;
use crate::input::InputState;
use crate::jump_controller::{after_jump, jump_clock, jump_starts};
use crate::physics_integrator::{after_integration, horizontal_step, jump_contribution};
use crate::simulation::{run, tick, total_time, Frame};
use crate::timestep::effective_dt;

verus! {

/// The position that integration reaches on a tick, where collisions are
/// tested.
pub open spec fn tested_bounds(c: CharacterModel, input: InputState, dt: int, cfg: ConfigModel)
    -> BoxModel {
    after_integration(after_jump(c, input, dt, cfg), input, dt, cfg).bounds()
}

/// Free fall is exact: on a tick with a valid timestep, on which the character
/// neither ascends nor starts a jump and reaches no collider, its height drops
/// by `gravity * dt * time_scale` and by nothing else.
pub proof fn lemma_free_fall_is_exact(
    c: CharacterModel,
    colliders: Seq<BoxModel>,
    input: InputState,
    dt: int,
    cfg: ConfigModel,
)
    requires
        dt >= 0,
        !c.is_jumping,
        !jump_starts(c, input),
        !overlaps_any(tested_bounds(c, input, dt, cfg), colliders),
    ensures
        tick(c, colliders, input, dt, cfg).y == c.y - cfg.gravity * dt * cfg.time_scale,
{
    assert(0 * effective_dt(dt) * cfg.time_scale == 0) by (nonlinear_arith);
}

/// A jump request in mid-air starts nothing: a character that is not grounded
/// and not ascending is not ascending after the tick, whatever the input, and
/// its jump clock has not moved.
pub proof fn lemma_no_jump_in_mid_air(
    c: CharacterModel,
    colliders: Seq<BoxModel>,
    input: InputState,
    dt: int,
    cfg: ConfigModel,
)
    requires
        !c.grounded,
        !c.is_jumping,
    ensures
        !tick(c, colliders, input, dt, cfg).is_jumping,
        tick(c, colliders, input, dt, cfg).jump_elapsed == c.jump_elapsed,
{
}

/// A jump request is ignored in mid-air and during an ascent: the tick ends as
/// it would have ended without the request.
pub proof fn lemma_jump_request_ignored(
    c: CharacterModel,
    colliders: Seq<BoxModel>,
    input: InputState,
    dt: int,
    cfg: ConfigModel,
)
    requires
        !c.grounded || c.is_jumping,
    ensures
        tick(c, colliders, input, dt, cfg) == tick(
            c,
            colliders,
            InputState { jump_just_pressed: false, ..input },
            dt,
            cfg,
        ),
{
}

/// The jump clock never runs backwards during an ascent, it restarts from zero
/// exactly when a jump starts, and it rests otherwise: after the tick it shows
/// this tick's time on top of zero where a jump starts, on top of its old
/// reading where the character was ascending, and its old reading where
/// neither holds.
pub proof fn lemma_jump_clock(
    c: CharacterModel,
    colliders: Seq<BoxModel>,
    input: InputState,
    dt: int,
    cfg: ConfigModel,
)
    ensures
        c.is_jumping ==> tick(c, colliders, input, dt, cfg).jump_elapsed == c.jump_elapsed
            + effective_dt(dt),
        c.is_jumping ==> tick(c, colliders, input, dt, cfg).jump_elapsed >= c.jump_elapsed,
        jump_starts(c, input) ==> tick(c, colliders, input, dt, cfg).jump_elapsed
            == effective_dt(dt),
        !c.is_jumping && !jump_starts(c, input) ==> tick(
            c,
            colliders,
            input,
            dt,
            cfg,
        ).jump_elapsed == c.jump_elapsed,
{
}

/// An ascent ends on time: an ascending character, or one that starts a jump,
/// still ascends after the tick exactly when its clock, with this tick's time
/// added, is still below the jump window.
pub proof fn lemma_ascent_ends_at_window(
    c: CharacterModel,
    colliders: Seq<BoxModel>,
    input: InputState,
    dt: int,
    cfg: ConfigModel,
)
    requires
        c.is_jumping || jump_starts(c, input),
    ensures
        tick(c, colliders, input, dt, cfg).is_jumping <==> jump_clock(c, input) + effective_dt(dt)
            < cfg.jump_window,
{
}

/// The grounded flag is recomputed on every tick: it says whether the position
/// that integration reached overlaps a collider, and nothing of what the flag
/// was before survives.
pub proof fn lemma_grounded_is_recomputed(
    c: CharacterModel,
    colliders: Seq<BoxModel>,
    input: InputState,
    dt: int,
    cfg: ConfigModel,
)
    ensures
        tick(c, colliders, input, dt, cfg).grounded == overlaps_any(
            tested_bounds(c, input, dt, cfg),
            colliders,
        ),
        colliders.len() == 0 ==> !tick(c, colliders, input, dt, cfg).grounded,
{
}

/// A tick with an invalid timestep moves nothing, and it runs as a tick of no
/// time does but for the walking, which it leaves out.
pub proof fn lemma_invalid_timestep_moves_nothing(
    c: CharacterModel,
    colliders: Seq<BoxModel>,
    input: InputState,
    dt: int,
    cfg: ConfigModel,
)
    requires
        dt < 0,
    ensures
        tick(c, colliders, input, dt, cfg).x == c.x,
        tick(c, colliders, input, dt, cfg).y == c.y,
        tick(c, colliders, input, dt, cfg) == tick(
            c,
            colliders,
            InputState { left: false, right: false, ..input },
            0,
            cfg,
        ),
{
    let held = after_jump(c, input, dt, cfg);
    assert(cfg.gravity * 0 * cfg.time_scale == 0) by (nonlinear_arith);
    assert(held.velocity * 0 * cfg.time_scale == 0) by (nonlinear_arith);
}

/// A tick changes the height by the jump contribution alone where the
/// character ends it grounded, and by the jump contribution less gravity's
/// step where it does not; sideways it moves by the horizontal step; its size
/// stays.
pub proof fn lemma_displacement(
    c: CharacterModel,
    colliders: Seq<BoxModel>,
    input: InputState,
    dt: int,
    cfg: ConfigModel,
)
    ensures
        tick(c, colliders, input, dt, cfg).x == c.x + horizontal_step(input, dt, cfg),
        tick(c, colliders, input, dt, cfg).grounded ==> tick(c, colliders, input, dt, cfg).y
            == c.y + jump_contribution(after_jump(c, input, dt, cfg), cfg, dt),
        !tick(c, colliders, input, dt, cfg).grounded ==> tick(c, colliders, input, dt, cfg).y
            == c.y + jump_contribution(after_jump(c, input, dt, cfg), cfg, dt) - cfg.gravity
            * effective_dt(dt) * cfg.time_scale,
        tick(c, colliders, input, dt, cfg).width == c.width,
        tick(c, colliders, input, dt, cfg).height == c.height,
{
}

/// The character rests during a tick: it does not walk, its jump state
/// machine contributes nothing to its height, and the position that
/// integration reaches overlaps a collider.
pub open spec fn rests(c: CharacterModel, colliders: Seq<BoxModel>, frame: Frame, cfg: ConfigModel)
    -> bool {
    &&& horizontal_step(frame.input, frame.dt, cfg) == 0
    &&& jump_contribution(after_jump(c, frame.input, frame.dt, cfg), cfg, frame.dt) == 0
    &&& overlaps_any(tested_bounds(c, frame.input, frame.dt, cfg), colliders)
}

/// Grounding is idempotent: a character that rests during a tick ends it
/// grounded and exactly where it began.
pub proof fn lemma_resting_tick_keeps_position(
    c: CharacterModel,
    colliders: Seq<BoxModel>,
    frame: Frame,
    cfg: ConfigModel,
)
    requires
        rests(c, colliders, frame, cfg),
    ensures
        tick(c, colliders, frame.input, frame.dt, cfg).grounded,
        tick(c, colliders, frame.input, frame.dt, cfg).x == c.x,
        tick(c, colliders, frame.input, frame.dt, cfg).y == c.y,
{
}

/// A character that rests during every tick of a run neither sinks nor
/// jitters: after the run, however long, it is where it began, and it is
/// grounded once one tick has passed.
pub proof fn lemma_resting_character_stays_put(
    c: CharacterModel,
    colliders: Seq<BoxModel>,
    frames: Seq<Frame>,
    cfg: ConfigModel,
)
    requires
        forall|i: int|
            0 <= i < frames.len() ==> rests(
                run(c, colliders, frames.take(i), cfg),
                colliders,
                #[trigger] frames[i],
                cfg,
            ),
    ensures
        run(c, colliders, frames, cfg).x == c.x,
        run(c, colliders, frames, cfg).y == c.y,
        frames.len() > 0 ==> run(c, colliders, frames, cfg).grounded,
    decreases frames.len(),
{
    if frames.len() > 0 {
        let earlier = frames.drop_last();
        let last = frames.len() - 1;
        assert forall|i: int| 0 <= i < earlier.len() implies rests(
            run(c, colliders, earlier.take(i), cfg),
            colliders,
            #[trigger] earlier[i],
            cfg,
        ) by {
            assert(earlier.take(i) == frames.take(i));
            assert(earlier[i] == frames[i]);
        }
        lemma_resting_character_stays_put(c, colliders, earlier, cfg);
        assert(frames.take(last) == earlier);
        assert(frames[last] == frames.last());
        lemma_resting_tick_keeps_position(
            run(c, colliders, earlier, cfg),
            colliders,
            frames.last(),
            cfg,
        );
    }
}

/// A jump lasts as long as its window, and no longer. Take a character that
/// ascends, or that starts a jump on the first tick of a run, and let the run
/// be such that before its last tick the jump clock was still below the jump
/// window. Then after the run the clock shows all the time of the run on top
/// of its first reading, and the character still ascends exactly when that is
/// below the window: the ascent ends on the first tick that brings the clock
/// to the window or beyond, and on none before.
pub proof fn lemma_jump_lasts_its_window(
    c: CharacterModel,
    colliders: Seq<BoxModel>,
    frames: Seq<Frame>,
    cfg: ConfigModel,
)
    requires
        frames.len() > 0,
        c.is_jumping || jump_starts(c, frames[0].input),
        jump_clock(c, frames[0].input) + total_time(frames.drop_last()) < cfg.jump_window,
    ensures
        run(c, colliders, frames, cfg).jump_elapsed == jump_clock(c, frames[0].input)
            + total_time(frames),
        run(c, colliders, frames, cfg).is_jumping <==> jump_clock(c, frames[0].input)
            + total_time(frames) < cfg.jump_window,
    decreases frames.len(),
{
    let earlier = frames.drop_last();
    if earlier.len() == 0 {
        assert(frames.last() == frames[0]);
    } else {
        assert(earlier[0] == frames[0]);
        lemma_jump_lasts_its_window(c, colliders, earlier, cfg);
    }
}

} // verus!

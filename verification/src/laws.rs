//! Laws of the simulation, stated over the spec functions that the public
//! contracts use and proved once for all inputs.

use vstd::prelude::*;

use crate::color::{ColorUpdate, Rgba};
use crate::sim::{
    background_after_tick, color_after_tick, queue_after_tick, spawn_on_tick,
    vel_after_move_down, vel_after_move_left, vel_after_move_right, vel_after_move_up,
    vel_after_stop_horizontal, vel_after_stop_vertical, SPAWN_PERIOD,
};

verus! {

/// Pressing a direction key twice leaves the same velocity as pressing it
/// once: each press sets its axis to a constant and keeps the other.
pub proof fn lemma_directional_idempotence(v: (i8, i8))
    ensures
        vel_after_move_right(vel_after_move_right(v)) == vel_after_move_right(v),
        vel_after_move_left(vel_after_move_left(v)) == vel_after_move_left(v),
        vel_after_move_up(vel_after_move_up(v)) == vel_after_move_up(v),
        vel_after_move_down(vel_after_move_down(v)) == vel_after_move_down(v),
{
}

/// Releasing an axis zeroes it no matter which of its two keys was pressed,
/// and leaves the other axis alone.
pub proof fn lemma_release_independence(v: (i8, i8))
    ensures
        vel_after_stop_vertical(vel_after_move_up(v)) == vel_after_stop_vertical(
            vel_after_move_down(v),
        ),
        vel_after_stop_vertical(vel_after_move_up(v)).1 == 0,
        vel_after_stop_vertical(vel_after_move_up(v)).0 == v.0,
        vel_after_stop_horizontal(vel_after_move_left(v)) == vel_after_stop_horizontal(
            vel_after_move_right(v),
        ),
        vel_after_stop_horizontal(vel_after_move_left(v)).0 == 0,
        vel_after_stop_horizontal(vel_after_move_left(v)).1 == v.1,
{
}

/// How many of the first `n` ticks after a fresh start spawn a recompute task.
/// `App::integrate` returns a seed on exactly the ticks that `spawn_on_tick`
/// marks and counts ticks one by one, so from frame count zero this counts its
/// `Some` returns.
pub open spec fn spawn_count(n: nat) -> int
    decreases n,
{
    if n == 0 {
        0
    } else {
        spawn_count((n - 1) as nat) + if spawn_on_tick(n as int) {
            1int
        } else {
            0int
        }
    }
}

proof fn lemma_no_spawn_up_to(n: nat)
    requires
        n < SPAWN_PERIOD,
    ensures
        spawn_count(n) == 0,
    decreases n,
{
    if n > 0 {
        lemma_no_spawn_up_to((n - 1) as nat);
        assert(!spawn_on_tick(n as int));
    }
}

/// After one whole spawn period of ticks from a fresh start, exactly one
/// recompute task has been spawned; one tick earlier, none yet.
pub proof fn lemma_trigger_periodicity()
    ensures
        spawn_count((SPAWN_PERIOD - 1) as nat) == 0,
        spawn_count(SPAWN_PERIOD as nat) == 1,
{
    lemma_no_spawn_up_to((SPAWN_PERIOD - 1) as nat);
    assert(spawn_on_tick(SPAWN_PERIOD as int));
}

/// A tick that finds the queue empty leaves both colors and the queue exactly
/// as they were: the poll never waits for a result.
pub proof fn lemma_non_blocking_poll(c: Rgba, b: Rgba, q: Seq<ColorUpdate>)
    requires
        q.len() == 0,
    ensures
        color_after_tick(c, q) == c,
        background_after_tick(b, q) == b,
        queue_after_tick(q) == q,
{
}

/// With two results queued, one tick consumes exactly the older one; the
/// newer stays queued, and the next tick applies it.
pub proof fn lemma_at_most_one_apply_per_tick(c: Rgba, b: Rgba, q: Seq<ColorUpdate>)
    requires
        q.len() == 2,
    ensures
        color_after_tick(c, q) == q[0].color,
        background_after_tick(b, q) == q[0].background,
        queue_after_tick(q).len() == 1,
        queue_after_tick(q)[0] == q[1],
        color_after_tick(q[0].color, queue_after_tick(q)) == q[1].color,
        background_after_tick(q[0].background, queue_after_tick(q)) == q[1].background,
{
}

} // verus!

//! The per-frame simulation state and its update step.
//!
//! One `App` value is owned by the loop driver. Input handlers set or clear a
//! velocity axis; each update tick integrates rotation and position, decides
//! whether to hand out a recompute seed, and applies at most one pending
//! recompute result — never waiting. Results reach the state through
//! [`App::deliver_update`], the consumer end of the task channel: they queue
//! in arrival order and the oldest is applied first.

use vstd::prelude::*;

use crate::color::{ColorUpdate, Rgba};

verus! {

/// Number of update ticks between two recompute spawns.
pub const SPAWN_PERIOD: u64 = 300;

/// Microradians of rotation per microsecond of elapsed time: 2 radians per second.
pub const ROTATION_RATE: u64 = 2;

/// Side of the rendered square, in pixels.
pub const SQUARE_SIDE: u64 = 50;

/// The simulation state: what one frame draws and how the next tick moves it.
///
/// Angles are whole microradians and time is whole microseconds, so one tick
/// turns the square by exactly `ROTATION_RATE` microradians per microsecond
/// elapsed. Positions are whole pixels: a tick displaces the square by the raw
/// velocity, a unit step per axis, deliberately not scaled by elapsed time.
pub struct App {
    /// Fill color of the square.
    pub color: Rgba,
    /// Clear color of the frame.
    pub background: Rgba,
    /// Accumulated rotation, in microradians.
    pub rotation: u64,
    /// Center of the square, in pixels.
    pub position: (i64, i64),
    /// Displacement applied each tick; each axis is -1, 0 or 1.
    pub velocity: (i8, i8),
    /// Update ticks integrated so far; monotonic, never reset.
    pub frame_count: u64,
    /// Recompute results delivered and not yet applied, oldest first.
    pub pending: Vec<ColorUpdate>,
}

/// The velocity after an upward press: the vertical axis steps toward the top.
pub open spec fn vel_after_move_up(v: (i8, i8)) -> (i8, i8) {
    (v.0, (-1) as i8)
}

/// The velocity after a downward press: the vertical axis steps toward the bottom.
pub open spec fn vel_after_move_down(v: (i8, i8)) -> (i8, i8) {
    (v.0, 1 as i8)
}

/// The velocity after a leftward press: the horizontal axis steps toward the left.
pub open spec fn vel_after_move_left(v: (i8, i8)) -> (i8, i8) {
    ((-1) as i8, v.1)
}

/// The velocity after a rightward press: the horizontal axis steps toward the right.
pub open spec fn vel_after_move_right(v: (i8, i8)) -> (i8, i8) {
    (1 as i8, v.1)
}

/// The velocity after a vertical release: the vertical axis is cleared.
pub open spec fn vel_after_stop_vertical(v: (i8, i8)) -> (i8, i8) {
    (v.0, 0 as i8)
}

/// The velocity after a horizontal release: the horizontal axis is cleared.
pub open spec fn vel_after_stop_horizontal(v: (i8, i8)) -> (i8, i8) {
    (0 as i8, v.1)
}

/// Everything but the velocity agrees between two states.
pub open spec fn only_velocity_changed(pre: App, post: App) -> bool {
    &&& post.color == pre.color
    &&& post.background == pre.background
    &&& post.rotation == pre.rotation
    &&& post.position == pre.position
    &&& post.frame_count == pre.frame_count
    &&& post.pending@ == pre.pending@
}

/// Whether the tick that brings the frame count to `frames` spawns a recompute task.
pub open spec fn spawn_on_tick(frames: int) -> bool {
    frames % (SPAWN_PERIOD as int) == 0
}

/// The queue after one tick: the oldest pending result is consumed, if any.
pub open spec fn queue_after_tick(q: Seq<ColorUpdate>) -> Seq<ColorUpdate> {
    if q.len() > 0 {
        q.drop_first()
    } else {
        q
    }
}

/// The fill color after one tick: the oldest pending result wins, else unchanged.
pub open spec fn color_after_tick(c: Rgba, q: Seq<ColorUpdate>) -> Rgba {
    if q.len() > 0 {
        q[0].color
    } else {
        c
    }
}

/// The clear color after one tick: the oldest pending result wins, else unchanged.
pub open spec fn background_after_tick(b: Rgba, q: Seq<ColorUpdate>) -> Rgba {
    if q.len() > 0 {
        q[0].background
    } else {
        b
    }
}

impl App {
    /// Velocity axes are unit steps and every color held or queued is well formed.
    pub open spec fn wf(self) -> bool {
        &&& -1 <= self.velocity.0 <= 1
        &&& -1 <= self.velocity.1 <= 1
        &&& self.color.wf()
        &&& self.background.wf()
        &&& forall|i: int| 0 <= i < self.pending@.len() ==> (#[trigger] self.pending@[i]).wf()
    }

    /// A fresh state: a black square on a white background, centered at the
    /// given point, at rest, no ticks integrated, nothing pending.
    pub fn new(x: i64, y: i64) -> (app: App)
        ensures
            app.color == (Rgba { r: 0, g: 0, b: 0, a: 1 }),
            app.background == (Rgba { r: 1, g: 1, b: 1, a: 1 }),
            app.rotation == 0,
            app.position == (x, y),
            app.velocity == ((0 as i8), (0 as i8)),
            app.frame_count == 0,
            app.pending@ == Seq::<ColorUpdate>::empty(),
            app.wf(),
    {
        let app = App {
            color: Rgba { r: 0, g: 0, b: 0, a: 1 },
            background: Rgba { r: 1, g: 1, b: 1, a: 1 },
            rotation: 0,
            position: (x, y),
            velocity: (0, 0),
            frame_count: 0,
            pending: Vec::new(),
        };
        proof {
            assert(app.pending@ =~= Seq::<ColorUpdate>::empty());
        }
        app
    }

    /// Press of the up key: set the vertical axis to a unit step upward.
    /// Last writer wins; pressing again changes nothing further.
    pub fn move_up(&mut self)
        ensures
            final(self).velocity == vel_after_move_up(old(self).velocity),
            only_velocity_changed(*old(self), *final(self)),
            old(self).wf() ==> final(self).wf(),
    {
        self.velocity.1 = -1;
    }

    /// Press of the down key: set the vertical axis to a unit step downward.
    pub fn move_down(&mut self)
        ensures
            final(self).velocity == vel_after_move_down(old(self).velocity),
            only_velocity_changed(*old(self), *final(self)),
            old(self).wf() ==> final(self).wf(),
    {
        self.velocity.1 = 1;
    }

    /// Press of the left key: set the horizontal axis to a unit step leftward.
    pub fn move_left(&mut self)
        ensures
            final(self).velocity == vel_after_move_left(old(self).velocity),
            only_velocity_changed(*old(self), *final(self)),
            old(self).wf() ==> final(self).wf(),
    {
        self.velocity.0 = -1;
    }

    /// Press of the right key: set the horizontal axis to a unit step rightward.
    pub fn move_right(&mut self)
        ensures
            final(self).velocity == vel_after_move_right(old(self).velocity),
            only_velocity_changed(*old(self), *final(self)),
            old(self).wf() ==> final(self).wf(),
    {
        self.velocity.0 = 1;
    }

    /// Release of either vertical key: clear the vertical axis, whichever
    /// press set it.
    pub fn stop_vertical(&mut self)
        ensures
            final(self).velocity == vel_after_stop_vertical(old(self).velocity),
            only_velocity_changed(*old(self), *final(self)),
            old(self).wf() ==> final(self).wf(),
    {
        self.velocity.1 = 0;
    }

    /// Release of either horizontal key: clear the horizontal axis, whichever
    /// press set it.
    pub fn stop_horizontal(&mut self)
        ensures
            final(self).velocity == vel_after_stop_horizontal(old(self).velocity),
            only_velocity_changed(*old(self), *final(self)),
            old(self).wf() ==> final(self).wf(),
    {
        self.velocity.0 = 0;
    }

    /// One update tick, `dt` microseconds after the last.
    ///
    /// Advances rotation by `ROTATION_RATE * dt`, displaces the position by
    /// the raw velocity — a fixed per-tick step, deliberately independent of
    /// `dt` — and counts the tick. On every `SPAWN_PERIOD`-th tick it returns
    /// the fill color of that moment as the seed for a new recompute task;
    /// otherwise it returns nothing. Then it polls the queue without waiting:
    /// the oldest pending result, if there is one, overwrites both colors and
    /// leaves the rest queued; an empty queue changes nothing.
    pub fn integrate(&mut self, dt: u64) -> (seed: Option<Rgba>)
        requires
            old(self).wf(),
            old(self).frame_count < u64::MAX,
            old(self).rotation + ROTATION_RATE * dt <= u64::MAX,
            i64::MIN <= old(self).position.0 + old(self).velocity.0 <= i64::MAX,
            i64::MIN <= old(self).position.1 + old(self).velocity.1 <= i64::MAX,
        ensures
            final(self).frame_count == old(self).frame_count + 1,
            final(self).rotation == old(self).rotation + ROTATION_RATE * dt,
            final(self).position.0 == old(self).position.0 + old(self).velocity.0,
            final(self).position.1 == old(self).position.1 + old(self).velocity.1,
            final(self).velocity == old(self).velocity,
            seed == (if spawn_on_tick(old(self).frame_count + 1) {
                Some(old(self).color)
            } else {
                None::<Rgba>
            }),
            final(self).color == color_after_tick(old(self).color, old(self).pending@),
            final(self).background == background_after_tick(
                old(self).background,
                old(self).pending@,
            ),
            final(self).pending@ == queue_after_tick(old(self).pending@),
            final(self).wf(),
    {
        self.frame_count = self.frame_count + 1;
        self.rotation = self.rotation + ROTATION_RATE * dt;
        self.position.0 = self.position.0 + (self.velocity.0 as i64);
        self.position.1 = self.position.1 + (self.velocity.1 as i64);
        let seed: Option<Rgba> = if self.frame_count % SPAWN_PERIOD == 0 {
            Some(self.color)
        } else {
            None
        };
        if self.pending.len() > 0 {
            let ghost q0 = self.pending@;
            let u = self.pending.remove(0);
            proof {
                assert(self.pending@ =~= q0.drop_first());
            }
            self.color = u.color;
            self.background = u.background;
        }
        seed
    }

    /// A recompute result arrives: it queues behind any earlier ones and waits
    /// for a tick to apply it. This is the consumer end of the task channel;
    /// results from a task arrive in send order, but tasks in flight together
    /// may finish in any order, and whichever is dequeued first wins first.
    pub fn deliver_update(&mut self, u: ColorUpdate)
        requires
            u.wf(),
        ensures
            final(self).pending@ == old(self).pending@.push(u),
            final(self).color == old(self).color,
            final(self).background == old(self).background,
            final(self).rotation == old(self).rotation,
            final(self).position == old(self).position,
            final(self).velocity == old(self).velocity,
            final(self).frame_count == old(self).frame_count,
            old(self).wf() ==> final(self).wf(),
    {
        self.pending.push(u);
    }

    /// What one frame draws, read without mutation: the clear color, the fill
    /// color, the rotation in microradians, and the square's center — a
    /// `SQUARE_SIDE`-sided square centered there, turned by the rotation.
    pub fn render_snapshot(&self) -> (snap: (Rgba, Rgba, u64, (i64, i64)))
        ensures
            snap.0 == self.background,
            snap.1 == self.color,
            snap.2 == self.rotation,
            snap.3 == self.position,
    {
        (self.background, self.color, self.rotation, self.position)
    }
}

} // verus!

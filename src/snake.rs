//! The player's body: a head, a direction of travel and the trail of cells the
//! head has left, most recent first.

use std::collections::VecDeque;
use vstd::prelude::*;

use crate::vec2::{clamp_int, fits, fx_mul, rot, scale_wide, Vec2};

verus! {

/// The largest displacement of the head, per axis, when the body grows.
pub const GROW_STEP: i64 = 10_000;

/// Where the head goes when the body grows: one step along `forward`, each
/// coordinate of the step limited to `GROW_STEP`.
pub open spec fn grown_head(head: Vec2, forward: Vec2) -> (int, int) {
    (
        head.x + clamp_int(forward.x as int, -GROW_STEP as int, GROW_STEP as int),
        head.y + clamp_int(forward.y as int, -GROW_STEP as int, GROW_STEP as int),
    )
}

/// Where the head goes in `dt` seconds (in fixed point) along `forward`.
pub open spec fn moved_head(head: Vec2, forward: Vec2, dt: int) -> (int, int) {
    (head.x + fx_mul(forward.x as int, dt), head.y + fx_mul(forward.y as int, dt))
}

/// The trail after the head left `head`: that cell first, the oldest cell gone.
pub open spec fn shifted_trail(head: Vec2, trail: Seq<Vec2>) -> Seq<Vec2> {
    (seq![head] + trail).drop_last()
}

pub struct Snake {
    /// The length the body was created with; not kept in step with the trail.
    pub len: u32,
    pub head: Vec2,
    /// Cells the head has left, most recent first.
    pub body: VecDeque<Vec2>,
    /// Displacement per second, in fixed point.
    pub forward: Vec2,
}

impl Snake {
    /// Whether the body can grow without leaving the range of `i64`.
    pub open spec fn can_grow(&self) -> bool {
        fits(grown_head(self.head, self.forward).0) && fits(grown_head(self.head, self.forward).1)
    }

    /// Whether the body can move for `dt` without leaving the range of `i64`.
    pub open spec fn can_move(&self, dt: int) -> bool {
        &&& fits(moved_head(self.head, self.forward, dt).0)
        &&& fits(moved_head(self.head, self.forward, dt).1)
    }

    /// Whether the direction can be turned without leaving the range of `i64`.
    pub open spec fn can_turn(&self) -> bool {
        self.forward.x > i64::MIN && self.forward.y > i64::MIN
    }

    /// Whether the body can grow without leaving the range of `i64`.
    pub fn grows_in_range(&self) -> (r: bool)
        ensures
            r == self.can_grow(),
    {
        let step = self.forward.clamp(
            Vec2::new(-GROW_STEP, -GROW_STEP),
            Vec2::new(GROW_STEP, GROW_STEP),
        );
        let nx: i128 = self.head.x as i128 + step.x as i128;
        let ny: i128 = self.head.y as i128 + step.y as i128;
        i64::MIN as i128 <= nx && nx <= i64::MAX as i128 && i64::MIN as i128 <= ny && ny
            <= i64::MAX as i128
    }

    /// A body of one cell near the top left corner, heading right.
    pub fn new() -> (r: Snake)
        ensures
            r.len == 1,
            r.head == (Vec2 { x: 30_000, y: 30_000 }),
            r.forward == (Vec2 { x: 110_000, y: 0 }),
            r.body@ == Seq::<Vec2>::empty(),
    {
        let len: u32 = 1;
        let head = Vec2::new(30_000, 30_000);
        let forward = Vec2::new(110_000, 0);
        let body = VecDeque::new();
        Snake { len, head, forward, body }
    }

    /// Grows the trail by the current head cell and moves the head one
    /// bounded step along `forward`.
    pub fn extend(&mut self)
        requires
            old(self).can_grow(),
        ensures
            final(self).head.pair() == grown_head(old(self).head, old(self).forward),
            final(self).body@ == seq![old(self).head] + old(self).body@,
            final(self).forward == old(self).forward,
            final(self).len == old(self).len,
            final(self).body@.len() == old(self).body@.len() + 1,
            -GROW_STEP <= final(self).head.x - old(self).head.x <= GROW_STEP,
            -GROW_STEP <= final(self).head.y - old(self).head.y <= GROW_STEP,
    {
        let step = self.forward.clamp(
            Vec2::new(-GROW_STEP, -GROW_STEP),
            Vec2::new(GROW_STEP, GROW_STEP),
        );
        let newhead = self.head.add(step);
        self.body.push_front(self.head);
        self.head = newhead;
    }

    /// Drops the oldest cell of the trail, if there is one.
    pub fn shrink(&mut self)
        ensures
            final(self).body@ == if old(self).body@.len() > 0 {
                old(self).body@.drop_last()
            } else {
                old(self).body@
            },
            old(self).body@.len() == 0 ==> final(self).body@.len() == 0,
            final(self).head == old(self).head,
            final(self).forward == old(self).forward,
            final(self).len == old(self).len,
    {
        self.body.pop_back();
    }

    /// Moves the whole body for `dt` seconds (in fixed point): the head by
    /// `forward * dt`, the trail one cell after it.
    pub fn move_forward(&mut self, dt: i64)
        requires
            old(self).can_move(dt as int),
        ensures
            final(self).head.pair() == moved_head(old(self).head, old(self).forward, dt as int),
            final(self).body@ == shifted_trail(old(self).head, old(self).body@),
            final(self).body@.len() == old(self).body@.len(),
            final(self).forward == old(self).forward,
            final(self).len == old(self).len,
    {
        self.body.push_front(self.head);
        let nx: i128 = self.head.x as i128 + scale_wide(self.forward.x, dt);
        let ny: i128 = self.head.y as i128 + scale_wide(self.forward.y, dt);
        self.head = Vec2::new(nx as i64, ny as i64);
        self.body.pop_back();
    }

    /// Turns the direction of travel by `quarter_turns` right angles.
    pub fn rotate(&mut self, quarter_turns: i64)
        requires
            old(self).can_turn(),
        ensures
            final(self).forward.pair() == rot(old(self).forward.pair(), quarter_turns as int),
            final(self).head == old(self).head,
            final(self).body@ == old(self).body@,
            final(self).len == old(self).len,
    {
        self.forward.rotate(quarter_turns);
    }

    /// Moves the head back by one `forward`.
    pub fn move_back(&mut self)
        requires
            fits(old(self).head.x - old(self).forward.x),
            fits(old(self).head.y - old(self).forward.y),
        ensures
            final(self).head.x == old(self).head.x - old(self).forward.x,
            final(self).head.y == old(self).head.y - old(self).forward.y,
            final(self).body@ == old(self).body@,
            final(self).forward == old(self).forward,
            final(self).len == old(self).len,
    {
        let forward = self.forward;
        self.head.sub_assign(forward);
    }
}

} // verus!

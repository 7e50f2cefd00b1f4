//! The snake: an ordered body of grid cells with a facing direction.
use vstd::prelude::*;

use crate::grid::Direction;
use crate::grid::HEIGHT;
use crate::grid::WIDTH;
use crate::grid::step_underflows;
use crate::grid::stepped_head;

verus! {

/// The body the game starts with: head at (5, 5), tail trailing downward.
pub open spec fn initial_body() -> Seq<(usize, usize)> {
    seq![(5usize, 5usize), (5usize, 4usize), (5usize, 3usize)]
}

/// An ordered body of grid cells, head at index 0 and tail at the last
/// index, together with the direction the snake faces.
pub struct Snake {
    pub body: Vec<(usize, usize)>,
    pub direction: Direction,
}

impl Snake {
    /// A snake is well formed when its body has at least one cell.
    pub open spec fn wf(self) -> bool {
        self.body@.len() >= 1
    }

    /// The front cell of the body.
    pub open spec fn head_spec(self) -> (usize, usize)
        recommends
            self.wf(),
    {
        self.body@[0]
    }

    /// True when the head lies on or past a wall.
    pub open spec fn hits_wall(self) -> bool {
        self.head_spec().0 >= WIDTH || self.head_spec().1 >= HEIGHT
    }

    /// True when the head coincides with some other body cell.
    pub open spec fn hits_self(self) -> bool {
        exists|i: int| 1 <= i < self.body@.len() && self.body@[i] == self.head_spec()
    }

    /// The single terminal condition: a wall hit or a self hit.
    pub open spec fn collides(self) -> bool {
        self.hits_wall() || self.hits_self()
    }

    pub fn new() -> (s: Snake)
        ensures
            s.body@ == initial_body(),
            s.direction == Direction::Right,
            s.wf(),
    {
        let body: Vec<(usize, usize)> = vec![(5, 5), (5, 4), (5, 3)];
        proof {
            assert(body@ =~= initial_body());
        }
        Snake { body, direction: Direction::Right }
    }

    pub fn head(&self) -> (h: (usize, usize))
        requires
            self.wf(),
        ensures
            h == self.head_spec(),
    {
        self.body[0]
    }

    /// Advances the body one cell in the facing direction: the new head is
    /// one unit away from the old one, the tail cell is dropped, and the
    /// length is unchanged. A step that would underflow below coordinate
    /// zero is refused: the snake is left as it was and `false` comes back,
    /// which callers treat as a wall collision.
    pub fn move_forward(&mut self) -> (moved: bool)
        requires
            old(self).wf(),
            old(self).direction == Direction::Right ==> old(self).head_spec().0 < usize::MAX,
            old(self).direction == Direction::Down ==> old(self).head_spec().1 < usize::MAX,
        ensures
            moved == !step_underflows(old(self).head_spec(), old(self).direction),
            final(self).direction == old(self).direction,
            !moved ==> final(self).body@ == old(self).body@,
            moved ==> final(self).body@ == seq![
                stepped_head(old(self).head_spec(), old(self).direction),
            ] + old(self).body@.drop_last(),
            moved ==> final(self).head_spec() == stepped_head(
                old(self).head_spec(),
                old(self).direction,
            ),
            final(self).body@.len() == old(self).body@.len(),
            final(self).wf(),
    {
        let h = self.body[0];
        let new_head: (usize, usize) = match self.direction {
            Direction::Up => {
                if h.1 == 0 {
                    return false;
                }
                (h.0, h.1 - 1)
            },
            Direction::Down => (h.0, h.1 + 1),
            Direction::Left => {
                if h.0 == 0 {
                    return false;
                }
                (h.0 - 1, h.1)
            },
            Direction::Right => (h.0 + 1, h.1),
        };
        self.body.insert(0, new_head);
        self.body.pop();
        proof {
            assert(self.body@ =~= seq![new_head] + old(self).body@.drop_last());
        }
        true
    }

    /// Lengthens the body by exactly one cell, appending a duplicate of the
    /// tail, so growth appears at the tail on the tick after food is eaten.
    pub fn grow(&mut self)
        requires
            old(self).wf(),
        ensures
            final(self).body@ == old(self).body@.push(old(self).body@.last()),
            final(self).body@.len() == old(self).body@.len() + 1,
            final(self).direction == old(self).direction,
            final(self).wf(),
    {
        let t = self.body[self.body.len() - 1];
        self.body.push(t);
    }

    /// True exactly when the head's x coordinate is at least `WIDTH`, or its
    /// y coordinate is at least `HEIGHT`, or the head equals some other body
    /// cell; false otherwise.
    pub fn collision(&self) -> (c: bool)
        requires
            self.wf(),
        ensures
            c == self.collides(),
    {
        let h = self.body[0];
        if h.0 >= WIDTH || h.1 >= HEIGHT {
            return true;
        }
        let mut i: usize = 1;
        while i < self.body.len()
            invariant
                self.wf(),
                1 <= i <= self.body@.len(),
                h == self.head_spec(),
                h.0 < WIDTH,
                h.1 < HEIGHT,
                forall|j: int| 1 <= j < i ==> self.body@[j] != self.head_spec(),
            decreases self.body@.len() - i,
        {
            let seg = self.body[i];
            if seg.0 == h.0 && seg.1 == h.1 {
                proof {
                    assert(self.body@[i as int] == self.head_spec());
                }
                return true;
            }
            i += 1;
        }
        false
    }

    /// Turns the snake toward `d` unless `d` is the reverse of the current
    /// direction, in which case the direction is kept; the body never
    /// changes. Every 90-degree turn and same-direction repeat is accepted.
    pub fn turn(&mut self, d: Direction)
        ensures
            final(self).body@ == old(self).body@,
            final(self).direction == (if d == old(self).direction.spec_opposite() {
                old(self).direction
            } else {
                d
            }),
    {
        if !(d == self.direction.opposite()) {
            self.direction = d;
        }
    }
}

} // verus!

use std::collections::VecDeque;

use vstd::prelude::*;

use crate::direction::{opposite, turned, Direction};
use crate::piece::{at_edge, lemma_inside_can_step, stepped, SnakePiece};

verus! {

/// The cell `(y, x)` is one of the segments in `parts`.
pub open spec fn occupies(parts: Seq<SnakePiece>, y: int, x: int) -> bool {
    exists|k: int| 0 <= k < parts.len() && #[trigger] parts[k].0 == y && parts[k].1 == x
}

/// The snake as a mathematical value.
pub ghost struct SnakeModel {
    pub parts: Seq<SnakePiece>,
    pub dir: Direction,
    pub just_eaten: bool,
    pub score: int,
    pub speed: int,
}

impl SnakeModel {
    /// A body of at least one segment, and a tick interval that is not negative.
    pub open spec fn wf(self) -> bool {
        self.parts.len() >= 1 && self.speed >= 0
    }

    pub open spec fn head(self) -> SnakePiece {
        self.parts[0]
    }

    /// The cell the head would move to.
    pub open spec fn next_head(self) -> SnakePiece {
        stepped(self.head(), self.dir)
    }

    /// A move succeeds: the head is not at the edge in the direction of
    /// travel, and the cell ahead holds no segment.
    pub open spec fn moves(self, rows: int, cols: int) -> bool {
        &&& !at_edge(self.head(), self.dir, rows, cols)
        &&& !occupies(self.parts, self.next_head().0 as int, self.next_head().1 as int)
    }

    /// The snake after a successful move: the new head in front; the tail
    /// kept if it had just eaten (with the score up by one and the interval
    /// cut by a tenth), dropped otherwise.
    pub open spec fn after_move(self) -> SnakeModel {
        if self.just_eaten {
            SnakeModel {
                parts: seq![self.next_head()] + self.parts,
                dir: self.dir,
                just_eaten: false,
                score: self.score + 1,
                speed: self.speed - self.speed / 10,
            }
        } else {
            SnakeModel {
                parts: seq![self.next_head()] + self.parts.drop_last(),
                dir: self.dir,
                just_eaten: false,
                score: self.score,
                speed: self.speed,
            }
        }
    }
}

/// The player's snake: body segments from head (front) to tail (back), the
/// heading, whether food was eaten on the last tick, the score, and the tick
/// interval (smaller is faster).
pub struct Snake {
    pub parts: VecDeque<SnakePiece>,
    pub dir: Direction,
    pub just_eaten: bool,
    pub score: i32,
    pub speed: i32,
}

impl View for Snake {
    type V = SnakeModel;

    open spec fn view(&self) -> SnakeModel {
        SnakeModel {
            parts: self.parts@,
            dir: self.dir,
            just_eaten: self.just_eaten,
            score: self.score as int,
            speed: self.speed as int,
        }
    }
}

impl Snake {
    /// Turns the snake to `new_dir`, unless that is the reverse of its heading.
    pub fn set_direction(&mut self, new_dir: Direction)
        ensures
            final(self)@ == (SnakeModel { dir: turned(old(self).dir, new_dir), ..old(self)@ }),
            new_dir != opposite(old(self).dir) ==> final(self).dir == new_dir,
            new_dir == opposite(old(self).dir) ==> final(self).dir == old(self).dir,
    {
        let last_dir = self.dir;
        self.dir = match new_dir {
            Direction::Left if last_dir != Direction::Right => Direction::Left,
            Direction::Down if last_dir != Direction::Up => Direction::Down,
            Direction::Up if last_dir != Direction::Down => Direction::Up,
            Direction::Right if last_dir != Direction::Left => Direction::Right,
            _ => last_dir,
        };
    }

    /// True iff `(y, x)` is one of the snake's segments.
    pub fn is_collide(&self, y: i32, x: i32) -> (r: bool)
        ensures
            r == occupies(self.parts@, y as int, x as int),
    {
        let n = self.parts.len();
        let mut i: usize = 0;
        while i < n
            invariant
                n == self.parts@.len(),
                i <= n,
                forall|k: int|
                    0 <= k < i ==> !(#[trigger] self.parts@[k].0 == y && self.parts@[k].1 == x),
            decreases n - i,
        {
            let p = self.parts[i];
            if p.0 == y && p.1 == x {
                return true;
            }
            i = i + 1;
        }
        false
    }

    /// Moves the snake one cell along its heading in a grid of `rows × cols`.
    /// Returns false, and changes nothing, when the head is at the edge in the
    /// direction of travel or the cell ahead holds a segment.
    pub fn update(&mut self, rows: i32, cols: i32) -> (ok: bool)
        requires
            old(self)@.wf(),
            old(self).just_eaten ==> old(self).score < i32::MAX,
        ensures
            final(self)@.wf(),
            ok == old(self)@.moves(rows as int, cols as int),
            ok ==> final(self)@ == old(self)@.after_move(),
            !ok ==> final(self)@ == old(self)@,
            at_edge(old(self)@.head(), old(self).dir, rows as int, cols as int) ==> !ok
                && final(self)@.parts == old(self)@.parts,
            occupies(
                old(self)@.parts,
                old(self)@.next_head().0 as int,
                old(self)@.next_head().1 as int,
            ) ==> !ok,
            ok && old(self).just_eaten ==> {
                &&& final(self)@.parts.len() == old(self)@.parts.len() + 1
                &&& final(self).score == old(self).score + 1
                &&& final(self).speed == old(self).speed - old(self).speed / 10
            },
            ok && !old(self).just_eaten ==> final(self)@.parts.len() == old(self)@.parts.len(),
    {
        let mut new_head = self.parts[0];
        if new_head.is_collide_edge(&self.dir, rows, cols) {
            return false;
        }
        proof {
            lemma_inside_can_step(new_head, self.dir, rows as int, cols as int);
        }
        new_head.update(&self.dir);
        if self.is_collide(new_head.0, new_head.1) {
            return false;
        }
        self.parts.push_front(new_head);
        if self.just_eaten {
            self.score = self.score + 1;
            self.speed = self.speed - self.speed / 10;
            self.just_eaten = false;
        } else {
            let ghost grown = self.parts@;
            let _ = self.parts.pop_back();
            assert(self.parts@ =~= seq![new_head] + old(self)@.parts.drop_last()) by {
                assert(grown =~= seq![new_head] + old(self)@.parts);
            }
        }
        true
    }
}

} // verus!

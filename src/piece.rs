use vstd::prelude::*;

use crate::direction::Direction;

verus! {

/// One cell of the snake's body: `(row, column)`.
#[derive(Clone, Copy, Debug, PartialEq, Eq, Structural)]
pub struct SnakePiece(pub i32, pub i32);

/// Where a segment stands in the body, which decides the glyph it is drawn with.
#[derive(Clone, Copy, Debug, PartialEq, Eq, Structural)]
pub enum PartPosition {
    First,
    Middle,
    Last,
    Only,
}

/// The cell `(y, x)` lies in the grid `[0, rows) × [0, cols)`.
pub open spec fn in_grid(rows: int, cols: int, y: int, x: int) -> bool {
    0 <= y < rows && 0 <= x < cols
}

/// A piece at `p` moving along `d` stands on the grid's last row or column
/// in that direction, so one more step would leave the grid.
pub open spec fn at_edge(p: SnakePiece, d: Direction, rows: int, cols: int) -> bool {
    match d {
        Direction::Down => p.0 >= rows - 1,
        Direction::Right => p.1 >= cols - 1,
        Direction::Up => p.0 <= 0,
        Direction::Left => p.1 <= 0,
    }
}

/// One step along `d` does not leave the range of `i32`.
pub open spec fn can_step(p: SnakePiece, d: Direction) -> bool {
    match d {
        Direction::Down => p.0 < i32::MAX,
        Direction::Right => p.1 < i32::MAX,
        Direction::Up => p.0 > i32::MIN,
        Direction::Left => p.1 > i32::MIN,
    }
}

/// The cell one step from `p` along `d`.
pub open spec fn stepped(p: SnakePiece, d: Direction) -> SnakePiece {
    match d {
        Direction::Down => SnakePiece((p.0 + 1) as i32, p.1),
        Direction::Right => SnakePiece(p.0, (p.1 + 1) as i32),
        Direction::Up => SnakePiece((p.0 - 1) as i32, p.1),
        Direction::Left => SnakePiece(p.0, (p.1 - 1) as i32),
    }
}

/// The glyph of a segment at a given place in the body.
pub open spec fn glyph(pos: PartPosition) -> char {
    match pos {
        PartPosition::First => '@',
        PartPosition::Middle => 'O',
        PartPosition::Last => 'o',
        PartPosition::Only => '@',
    }
}

/// A piece that is not at the grid's edge in the direction of travel can step.
pub proof fn lemma_inside_can_step(p: SnakePiece, d: Direction, rows: int, cols: int)
    requires
        rows <= i32::MAX,
        cols <= i32::MAX,
        !at_edge(p, d, rows, cols),
    ensures
        can_step(p, d),
        in_grid(rows, cols, p.0 as int, p.1 as int) ==> in_grid(
            rows,
            cols,
            stepped(p, d).0 as int,
            stepped(p, d).1 as int,
        ),
{
}

impl SnakePiece {
    /// The glyph this segment is drawn with at place `pos` of the body.
    pub fn get_visible_part(&self, pos: PartPosition) -> (r: char)
        ensures
            r == glyph(pos),
    {
        match pos {
            PartPosition::First => '@',
            PartPosition::Middle => 'O',
            PartPosition::Last => 'o',
            PartPosition::Only => '@',
        }
    }

    /// True iff this piece, moving along `dir`, stands on the last row or
    /// column of the grid in that direction.
    pub fn is_collide_edge(&self, dir: &Direction, rows: i32, cols: i32) -> (r: bool)
        ensures
            r == at_edge(*self, *dir, rows as int, cols as int),
    {
        match dir {
            Direction::Down => self.0 as i64 >= rows as i64 - 1,
            Direction::Right => self.1 as i64 >= cols as i64 - 1,
            Direction::Up => self.0 <= 0,
            Direction::Left => self.1 <= 0,
        }
    }

    /// Moves this piece one cell along `dir`.
    pub fn update(&mut self, dir: &Direction)
        requires
            can_step(*old(self), *dir),
        ensures
            *final(self) == stepped(*old(self), *dir),
    {
        match dir {
            Direction::Down => self.0 = self.0 + 1,
            Direction::Right => self.1 = self.1 + 1,
            Direction::Up => self.0 = self.0 - 1,
            Direction::Left => self.1 = self.1 - 1,
        }
    }
}

} // verus!

use vstd::prelude::*;

use crate::piece::{in_grid, SnakePiece};
use crate::snake::{occupies, Snake};

verus! {

/// How many random cells are drawn before respawning falls back to a scan
/// of the grid for the first free cell.
pub const RESPAWN_TRIES: u32 = 64;

/// Some cell of the grid `[0, rows) × [0, cols)` holds no segment of `parts`.
pub open spec fn has_free_cell(rows: int, cols: int, parts: Seq<SnakePiece>) -> bool {
    exists|y: int, x: int| #[trigger] in_grid(rows, cols, y, x) && !occupies(parts, y, x)
}

/// Relies on `rand::thread_rng` and `rand::Rng::gen_range`: a value drawn
/// from `0..n`, which is not empty.
#[verifier::external_body]
fn random_below(n: i32) -> (r: i32)
    requires
        0 < n,
    ensures
        0 <= r < n,
{
    rand::Rng::gen_range(&mut rand::thread_rng(), 0..n)
}

/// Scans the grid row by row for a cell that holds no segment of `snake`.
/// Returns `None` exactly when every cell is taken.
pub fn first_free_cell(rows: i32, cols: i32, snake: &Snake) -> (r: Option<SnakePiece>)
    ensures
        match r {
            Some(c) => in_grid(rows as int, cols as int, c.0 as int, c.1 as int) && !occupies(
                snake.parts@,
                c.0 as int,
                c.1 as int,
            ),
            None => !has_free_cell(rows as int, cols as int, snake.parts@),
        },
{
    let mut y: i32 = 0;
    while y < rows
        invariant
            0 <= y,
            y < rows ==> 0 <= y < rows,
            forall|a: int, b: int|
                0 <= a < y && 0 <= b < cols ==> #[trigger] occupies(snake.parts@, a, b),
        decreases rows - y,
    {
        let mut x: i32 = 0;
        while x < cols
            invariant
                0 <= x,
                0 <= y < rows,
                forall|a: int, b: int|
                    0 <= a < y && 0 <= b < cols ==> #[trigger] occupies(snake.parts@, a, b),
                forall|b: int| 0 <= b < x ==> #[trigger] occupies(snake.parts@, y as int, b),
            decreases cols - x,
        {
            if !snake.is_collide(y, x) {
                return Some(SnakePiece(y, x));
            }
            x = x + 1;
        }
        y = y + 1;
    }
    assert forall|a: int, b: int| #[trigger] in_grid(rows as int, cols as int, a, b) implies occupies(
        snake.parts@,
        a,
        b,
    ) by {}
    None
}

/// The food: a cell and the glyph it is drawn with.
#[derive(Clone, Copy, Debug, PartialEq, Eq, Structural)]
pub struct Food {
    pub y: i32,
    pub x: i32,
    pub ch: char,
}

impl Food {
    /// True iff the food lies on `(y, x)`.
    pub fn is_collide(&self, y: i32, x: i32) -> (r: bool)
        ensures
            r == (self.y == y && self.x == x),
    {
        self.y == y && self.x == x
    }

    /// Moves the food to `(y, x)` if that cell is in the grid and free of the
    /// snake; otherwise leaves it where it is. Returns whether it moved.
    pub fn place(&mut self, rows: i32, cols: i32, snake: &Snake, y: i32, x: i32) -> (placed: bool)
        ensures
            placed == (in_grid(rows as int, cols as int, y as int, x as int) && !occupies(
                snake.parts@,
                y as int,
                x as int,
            )),
            placed ==> *final(self) == (Food { y, x, ch: old(self).ch }),
            !placed ==> *final(self) == *old(self),
    {
        if 0 <= y && y < rows && 0 <= x && x < cols && !snake.is_collide(y, x) {
            self.y = y;
            self.x = x;
            true
        } else {
            false
        }
    }

    /// Reports whether the snake's head is on the food. If it is, the food
    /// respawns on a cell of the grid that holds no segment, when there is one.
    pub fn update(&mut self, rows: i32, cols: i32, snake: &Snake) -> (eaten: bool)
        requires
            0 < rows,
            0 < cols,
            snake@.wf(),
        ensures
            eaten == (old(self).y == snake@.head().0 && old(self).x == snake@.head().1),
            final(self).ch == old(self).ch,
            !eaten ==> *final(self) == *old(self),
            eaten && has_free_cell(rows as int, cols as int, snake.parts@) ==> in_grid(
                rows as int,
                cols as int,
                final(self).y as int,
                final(self).x as int,
            ) && !occupies(snake.parts@, final(self).y as int, final(self).x as int),
            eaten && !has_free_cell(rows as int, cols as int, snake.parts@) ==> *final(self)
                == *old(self),
    {
        let head = snake.parts[0];
        let eaten = self.is_collide(head.0, head.1);
        if eaten {
            let mut tries: u32 = 0;
            while tries < RESPAWN_TRIES
                invariant
                    0 < rows,
                    0 < cols,
                    *self == *old(self),
                    old(self).y == snake@.head().0 && old(self).x == snake@.head().1,
                decreases RESPAWN_TRIES - tries,
            {
                let new_y = random_below(rows);
                let new_x = random_below(cols);
                if self.place(rows, cols, snake, new_y, new_x) {
                    return true;
                }
                tries = tries + 1;
            }
            if let Some(c) = first_free_cell(rows, cols, snake) {
                self.y = c.0;
                self.x = c.1;
            }
        }
        eaten
    }
}

} // verus!

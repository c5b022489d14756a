use std::collections::VecDeque;

use vstd::prelude::*;

use crate::direction::{key_direction, turned, Direction};
use crate::food::{has_free_cell, Food};
use crate::piece::{in_grid, SnakePiece};
use crate::snake::{occupies, Snake, SnakeModel};

verus! {

/// The tick interval a new game starts with.
pub const START_SPEED: i32 = 500;

/// A game: the grid's size, the snake and the food.
pub struct Game {
    pub rows: i32,
    pub cols: i32,
    pub snake: Snake,
    pub food: Food,
}

/// Whether the food at `food` is eaten by a snake whose head is at `head`.
pub open spec fn eats(food: Food, head: SnakePiece) -> bool {
    food.y == head.0 && food.x == head.1
}

impl Game {
    /// A grid with at least one cell, and a well-formed snake.
    pub open spec fn wf(&self) -> bool {
        0 < self.rows && 0 < self.cols && self.snake@.wf()
    }

    /// A new game on a `rows × cols` grid: a snake of two segments in the
    /// middle heading right, and food five cells down and to the right of it.
    pub fn new(rows: i32, cols: i32) -> (g: Game)
        requires
            0 < rows,
            0 < cols,
        ensures
            g.wf(),
            g.rows == rows,
            g.cols == cols,
            g.snake@ == (SnakeModel {
                parts: seq![
                    SnakePiece((rows / 2) as i32, (cols / 2) as i32),
                    SnakePiece((rows / 2) as i32, (cols / 2 - 1) as i32),
                ],
                dir: Direction::Right,
                just_eaten: false,
                score: 0,
                speed: START_SPEED as int,
            }),
            g.food == (Food { y: (rows / 2 + 5) as i32, x: (cols / 2 + 5) as i32, ch: '.' }),
    {
        let mut parts: VecDeque<SnakePiece> = VecDeque::new();
        parts.push_back(SnakePiece(rows / 2, cols / 2));
        parts.push_back(SnakePiece(rows / 2, cols / 2 - 1));
        proof {
            assert(parts@ =~= seq![
                SnakePiece((rows / 2) as i32, (cols / 2) as i32),
                SnakePiece((rows / 2) as i32, (cols / 2 - 1) as i32),
            ]);
        }
        Game {
            rows,
            cols,
            snake: Snake {
                parts,
                dir: Direction::Right,
                just_eaten: false,
                score: 0,
                speed: START_SPEED,
            },
            food: Food { y: rows / 2 + 5, x: cols / 2 + 5, ch: '.' },
        }
    }

    /// Steers the snake by a key; a key that stands for no heading changes nothing.
    pub fn input(&mut self, key: char)
        ensures
            final(self).rows == old(self).rows,
            final(self).cols == old(self).cols,
            final(self).food == old(self).food,
            match key_direction(key) {
                Some(d) => final(self).snake@ == (SnakeModel {
                    dir: turned(old(self).snake.dir, d),
                    ..old(self).snake@
                }),
                None => final(self).snake@ == old(self).snake@,
            },
    {
        match Direction::input(key) {
            Some(dir) => self.snake.set_direction(dir),
            None => {},
        }
    }

    /// Plays one tick. Returns false, the game being over, when the snake
    /// hits the edge or itself; then nothing changes. Otherwise the snake
    /// moves, and the food is checked against its new head: if eaten, the
    /// food respawns on a free cell, and the snake grows on the next tick.
    pub fn update(&mut self) -> (ok: bool)
        requires
            old(self).wf(),
            old(self).snake.just_eaten ==> old(self).snake.score < i32::MAX,
        ensures
            final(self).wf(),
            final(self).rows == old(self).rows,
            final(self).cols == old(self).cols,
            final(self).food.ch == old(self).food.ch,
            ok == old(self).snake@.moves(old(self).rows as int, old(self).cols as int),
            !ok ==> final(self).snake@ == old(self).snake@ && final(self).food == old(self).food,
            ok ==> final(self).snake@ == (SnakeModel {
                just_eaten: eats(old(self).food, old(self).snake@.after_move().head()),
                ..old(self).snake@.after_move()
            }),
            ok && !final(self).snake.just_eaten ==> final(self).food == old(self).food,
            ok && final(self).snake.just_eaten && has_free_cell(
                final(self).rows as int,
                final(self).cols as int,
                final(self).snake.parts@,
            ) ==> in_grid(
                final(self).rows as int,
                final(self).cols as int,
                final(self).food.y as int,
                final(self).food.x as int,
            ) && !occupies(
                final(self).snake.parts@,
                final(self).food.y as int,
                final(self).food.x as int,
            ),
            ok && final(self).snake.just_eaten && !has_free_cell(
                final(self).rows as int,
                final(self).cols as int,
                final(self).snake.parts@,
            ) ==> final(self).food == old(self).food,
    {
        if !self.snake.update(self.rows, self.cols) {
            return false;
        }
        self.snake.just_eaten = self.food.update(self.rows, self.cols, &self.snake);
        true
    }
}

} // verus!

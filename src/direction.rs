use vstd::prelude::*;

verus! {

/// A heading on the grid. Rows grow downwards, columns grow to the right.
#[derive(Clone, Copy, Debug, PartialEq, Eq, Structural)]
pub enum Direction {
    Down,
    Right,
    Up,
    Left,
}

/// The heading that points the other way.
pub open spec fn opposite(d: Direction) -> Direction {
    match d {
        Direction::Down => Direction::Up,
        Direction::Right => Direction::Left,
        Direction::Up => Direction::Down,
        Direction::Left => Direction::Right,
    }
}

/// The heading a key stands for: `wasd` and `hjkl`; any other key stands for none.
pub open spec fn key_direction(key: char) -> Option<Direction> {
    if key == 'w' || key == 'k' {
        Some(Direction::Up)
    } else if key == 'a' || key == 'h' {
        Some(Direction::Left)
    } else if key == 's' || key == 'j' {
        Some(Direction::Down)
    } else if key == 'd' || key == 'l' {
        Some(Direction::Right)
    } else {
        None
    }
}

/// The heading after asking to turn from `current` to `wanted`: a reversal is ignored.
pub open spec fn turned(current: Direction, wanted: Direction) -> Direction {
    if wanted == opposite(current) {
        current
    } else {
        wanted
    }
}

impl Direction {
    /// Maps a key to the heading it asks for, or `None` for a key that steers nothing.
    pub fn input(key: char) -> (r: Option<Direction>)
        ensures
            r == key_direction(key),
    {
        match key {
            'w' => Some(Direction::Up),
            'a' => Some(Direction::Left),
            's' => Some(Direction::Down),
            'd' => Some(Direction::Right),
            'h' => Some(Direction::Left),
            'j' => Some(Direction::Down),
            'k' => Some(Direction::Up),
            'l' => Some(Direction::Right),
            _ => None,
        }
    }
}

} // verus!

use std::collections::VecDeque;

use snake::food::first_free_cell;
use snake::game::START_SPEED;
use snake::{Direction, Food, Game, PartPosition, Snake, SnakePiece};

fn snake_of(cells: &[(i32, i32)], dir: Direction) -> Snake {
    let mut parts = VecDeque::new();
    for &(y, x) in cells {
        parts.push_back(SnakePiece(y, x));
    }
    Snake { parts, dir, just_eaten: false, score: 0, speed: START_SPEED }
}

fn cells_of(s: &Snake) -> Vec<(i32, i32)> {
    s.parts.iter().map(|p| (p.0, p.1)).collect()
}

fn opposite(d: Direction) -> Direction {
    match d {
        Direction::Down => Direction::Up,
        Direction::Up => Direction::Down,
        Direction::Left => Direction::Right,
        Direction::Right => Direction::Left,
    }
}

const ALL: [Direction; 4] = [Direction::Down, Direction::Right, Direction::Up, Direction::Left];

#[test]
fn set_direction_rejects_only_reversal() {
    for &h in ALL.iter() {
        for &d in ALL.iter() {
            let mut s = snake_of(&[(5, 5), (5, 4)], h);
            s.set_direction(d);
            if d == opposite(h) {
                assert_eq!(s.dir, h);
            } else {
                assert_eq!(s.dir, d);
            }
            assert_eq!(cells_of(&s), vec![(5, 5), (5, 4)]);
        }
    }
}

#[test]
fn keys_map_to_directions() {
    assert_eq!(Direction::input('w'), Some(Direction::Up));
    assert_eq!(Direction::input('k'), Some(Direction::Up));
    assert_eq!(Direction::input('a'), Some(Direction::Left));
    assert_eq!(Direction::input('h'), Some(Direction::Left));
    assert_eq!(Direction::input('s'), Some(Direction::Down));
    assert_eq!(Direction::input('j'), Some(Direction::Down));
    assert_eq!(Direction::input('d'), Some(Direction::Right));
    assert_eq!(Direction::input('l'), Some(Direction::Right));
    assert_eq!(Direction::input('x'), None);
    assert_eq!(Direction::input('W'), None);
}

#[test]
fn unrecognized_input_keeps_heading() {
    let mut g = Game::new(10, 10);
    g.input('q');
    assert_eq!(g.snake.dir, Direction::Right);
    assert!(g.update());
}

#[test]
fn game_input_turns_but_not_back() {
    let mut g = Game::new(10, 10);
    g.input('a');
    assert_eq!(g.snake.dir, Direction::Right);
    g.input('w');
    assert_eq!(g.snake.dir, Direction::Up);
    g.input('j');
    assert_eq!(g.snake.dir, Direction::Up);
    g.input('h');
    assert_eq!(g.snake.dir, Direction::Left);
}

#[test]
fn new_game_layout() {
    let g = Game::new(24, 80);
    assert_eq!((g.rows, g.cols), (24, 80));
    assert_eq!(cells_of(&g.snake), vec![(12, 40), (12, 39)]);
    assert_eq!(g.snake.dir, Direction::Right);
    assert!(!g.snake.just_eaten);
    assert_eq!(g.snake.score, 0);
    assert_eq!(g.snake.speed, 500);
    assert_eq!(g.food, Food { y: 17, x: 45, ch: '.' });
}

#[test]
fn head_at_top_edge_moving_up_is_game_over() {
    let mut s = snake_of(&[(0, 5), (1, 5)], Direction::Up);
    assert!(!s.update(10, 10));
    assert_eq!(cells_of(&s), vec![(0, 5), (1, 5)]);
}

#[test]
fn game_over_at_top_edge() {
    let mut g = Game::new(10, 10);
    g.snake = snake_of(&[(0, 5), (1, 5)], Direction::Up);
    assert!(!g.update());
    assert_eq!(cells_of(&g.snake), vec![(0, 5), (1, 5)]);
}

#[test]
fn edges_block_at_last_cell() {
    let mut s = snake_of(&[(5, 9), (5, 8)], Direction::Right);
    assert!(!s.update(10, 10));
    let mut s = snake_of(&[(9, 5), (8, 5)], Direction::Down);
    assert!(!s.update(10, 10));
    let mut s = snake_of(&[(5, 0), (5, 1)], Direction::Left);
    assert!(!s.update(10, 10));
    let mut s = snake_of(&[(5, 8), (5, 7)], Direction::Right);
    assert!(s.update(10, 10));
    assert_eq!(cells_of(&s), vec![(5, 9), (5, 8)]);
}

#[test]
fn running_into_own_body_is_game_over() {
    let mut s = snake_of(&[(5, 5), (5, 6), (6, 6), (6, 5), (6, 4)], Direction::Down);
    assert!(!s.update(10, 10));
    assert_eq!(cells_of(&s), vec![(5, 5), (5, 6), (6, 6), (6, 5), (6, 4)]);
}

#[test]
fn moving_into_the_tail_cell_is_game_over() {
    let mut s = snake_of(&[(5, 5), (5, 6), (6, 6), (6, 5)], Direction::Down);
    assert!(!s.update(10, 10));
}

#[test]
fn move_without_eating_keeps_length() {
    let mut s = snake_of(&[(5, 5), (5, 4), (5, 3)], Direction::Down);
    assert!(s.update(10, 10));
    assert_eq!(cells_of(&s), vec![(6, 5), (5, 5), (5, 4)]);
    assert_eq!(s.score, 0);
    assert_eq!(s.speed, 500);
}

#[test]
fn move_after_eating_grows() {
    let mut s = snake_of(&[(5, 5), (5, 4)], Direction::Up);
    s.just_eaten = true;
    s.score = 3;
    s.speed = 95;
    assert!(s.update(10, 10));
    assert_eq!(cells_of(&s), vec![(4, 5), (5, 5), (5, 4)]);
    assert_eq!(s.score, 4);
    assert_eq!(s.speed, 86);
    assert!(!s.just_eaten);
}

#[test]
fn speed_step_shrinks_to_nothing() {
    let mut s = snake_of(&[(5, 5)], Direction::Left);
    s.just_eaten = true;
    s.speed = 9;
    assert!(s.update(10, 10));
    assert_eq!(s.speed, 9);
    assert_eq!(s.score, 1);
    assert_eq!(cells_of(&s), vec![(5, 4), (5, 5)]);
}

#[test]
fn eat_then_grow_next_tick() {
    let mut g = Game::new(10, 10);
    g.snake = snake_of(&[(5, 5), (5, 4)], Direction::Right);
    g.food = Food { y: 5, x: 6, ch: '.' };
    assert!(g.update());
    assert_eq!(cells_of(&g.snake), vec![(5, 6), (5, 5)]);
    assert!(g.snake.just_eaten);
    assert_eq!(g.snake.score, 0);
    assert!(!g.snake.is_collide(g.food.y, g.food.x));
    assert!(0 <= g.food.y && g.food.y < 10 && 0 <= g.food.x && g.food.x < 10);
    assert!(g.update());
    assert_eq!(g.snake.parts.len(), 3);
    assert_eq!(g.snake.score, 1);
    assert_eq!(g.snake.speed, 450);
}

#[test]
fn food_not_eaten_stays() {
    let s = snake_of(&[(5, 5), (5, 4)], Direction::Right);
    let mut f = Food { y: 1, x: 1, ch: '.' };
    assert!(!f.update(10, 10, &s));
    assert_eq!(f, Food { y: 1, x: 1, ch: '.' });
}

#[test]
fn food_respawns_on_the_only_free_cell() {
    let mut cells = Vec::new();
    for y in 0..3 {
        for x in 0..3 {
            if (y, x) != (2, 1) {
                cells.push((y, x));
            }
        }
    }
    let s = snake_of(&cells, Direction::Right);
    let mut f = Food { y: 0, x: 0, ch: '*' };
    assert!(f.update(3, 3, &s));
    assert_eq!(f, Food { y: 2, x: 1, ch: '*' });
}

#[test]
fn food_stays_when_grid_is_full() {
    let s = snake_of(&[(0, 0), (0, 1)], Direction::Right);
    let mut f = Food { y: 0, x: 0, ch: '.' };
    assert!(f.update(1, 2, &s));
    assert_eq!(f, Food { y: 0, x: 0, ch: '.' });
}

#[test]
fn food_respawns_at_varied_cells() {
    let s = snake_of(&[(0, 0), (0, 1)], Direction::Right);
    let mut seen = Vec::new();
    for _ in 0..20 {
        let mut f = Food { y: 0, x: 0, ch: '.' };
        assert!(f.update(50, 50, &s));
        assert!(0 <= f.y && f.y < 50 && 0 <= f.x && f.x < 50);
        assert!(!s.is_collide(f.y, f.x));
        if !seen.contains(&(f.y, f.x)) {
            seen.push((f.y, f.x));
        }
    }
    assert!(seen.len() > 1);
}

#[test]
fn first_free_cell_scans_row_by_row() {
    let s = snake_of(&[(0, 0), (0, 1), (0, 2), (1, 0)], Direction::Right);
    assert_eq!(first_free_cell(3, 3, &s), Some(SnakePiece(1, 1)));
    assert_eq!(first_free_cell(1, 3, &s), None);
}

#[test]
fn food_place_checks_cell() {
    let s = snake_of(&[(2, 2), (2, 1)], Direction::Right);
    let mut f = Food { y: 0, x: 0, ch: '.' };
    assert!(!f.place(5, 5, &s, 2, 1));
    assert!(!f.place(5, 5, &s, 5, 1));
    assert!(!f.place(5, 5, &s, 1, -1));
    assert_eq!(f, Food { y: 0, x: 0, ch: '.' });
    assert!(f.place(5, 5, &s, 4, 3));
    assert_eq!(f, Food { y: 4, x: 3, ch: '.' });
}

#[test]
fn collisions_with_cells() {
    let s = snake_of(&[(2, 2), (2, 1)], Direction::Right);
    assert!(s.is_collide(2, 1));
    assert!(!s.is_collide(1, 2));
    let f = Food { y: 3, x: 4, ch: '.' };
    assert!(f.is_collide(3, 4));
    assert!(!f.is_collide(4, 3));
}

#[test]
fn piece_edges_and_steps() {
    let p = SnakePiece(0, 9);
    assert!(p.is_collide_edge(&Direction::Up, 10, 10));
    assert!(p.is_collide_edge(&Direction::Right, 10, 10));
    assert!(!p.is_collide_edge(&Direction::Down, 10, 10));
    assert!(!p.is_collide_edge(&Direction::Left, 10, 10));
    let mut q = SnakePiece(3, 3);
    q.update(&Direction::Down);
    assert_eq!(q, SnakePiece(4, 3));
    q.update(&Direction::Left);
    assert_eq!(q, SnakePiece(4, 2));
    q.update(&Direction::Up);
    q.update(&Direction::Right);
    assert_eq!(q, SnakePiece(3, 3));
}

#[test]
fn glyphs_by_place() {
    let p = SnakePiece(0, 0);
    assert_eq!(p.get_visible_part(PartPosition::First), '@');
    assert_eq!(p.get_visible_part(PartPosition::Middle), 'O');
    assert_eq!(p.get_visible_part(PartPosition::Last), 'o');
    assert_eq!(p.get_visible_part(PartPosition::Only), '@');
}

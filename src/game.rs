//! The screens of the continuous game and the decisions taken each frame.
//! A transition replaces the whole state, so no field outlives its screen.
use vstd::prelude::*;
use crate::direction::Direction;
use crate::snake::{
    Point, Snake, took_input, moved, grown, near_apple, out_of_window, gen_apple,
    SNAKE_WIDTH, WINDOW_SIZE,
};

verus! {

pub enum GameState {
    Main { snake: Snake, apple: Point, score: usize },
    GameOver { score: usize },
}

/// The score after one more apple (it stays at its maximum once there).
pub open spec fn next_score(score: usize) -> usize {
    if score < usize::MAX {
        (score + 1) as usize
    } else {
        score
    }
}

impl GameState {
    pub open spec fn wf(&self) -> bool {
        match self {
            GameState::Main { snake, .. } => snake.wf() && !out_of_window(snake.head),
            GameState::GameOver { .. } => true,
        }
    }

    /// A fresh game: a new snake, the given apple, no score.
    pub fn new(apple: Point) -> (r: GameState)
        ensures
            r.wf(),
            match r {
                GameState::Main { snake, apple: a, score } => {
                    &&& snake.head == (Point { x: 15, y: 15 })
                    &&& snake.turns@.len() == 0
                    &&& snake.direction == Direction::Right
                    &&& snake.len == 0
                    &&& snake.target_len == 65
                    &&& snake.tail_len == 65
                    &&& a == apple
                    &&& score == 0
                },
                GameState::GameOver { .. } => false,
            },
    {
        GameState::Main { snake: Snake::new(), apple, score: 0 }
    }

    /// One frame. While playing, the snake takes the requested direction and
    /// moves; if it is then dead the game is over with the score so far,
    /// otherwise an apple in reach is replaced by `next_apple`, scores one and
    /// grows the snake. On the game-over screen, `restart` starts a new game
    /// with `next_apple`.
    pub fn frame(self, requested: Option<Direction>, frame_ms: u64, restart: bool, next_apple: Point) -> (r: GameState)
        requires
            self.wf(),
        ensures
            r.wf(),
            match self {
                GameState::Main { snake, apple, score } => exists|s1: Snake, s2: Snake|
                    #![trigger took_input(snake, requested, s1), moved(s1, frame_ms, s2)]
                    took_input(snake, requested, s1) && moved(s1, frame_ms, s2) && if s2.is_dead() {
                        r == (GameState::GameOver { score })
                    } else if near_apple(s2.head, apple) {
                        match r {
                            GameState::Main { snake: s3, apple: a, score: sc } => grown(s2, s3) && a
                                == next_apple && sc == next_score(score),
                            GameState::GameOver { .. } => false,
                        }
                    } else {
                        r == (GameState::Main { snake: s2, apple, score })
                    },
                GameState::GameOver { score } => if restart {
                    match r {
                        GameState::Main { snake, apple: a, score: sc } => snake.head == (Point {
                            x: 15,
                            y: 15,
                        }) && snake.turns@.len() == 0 && snake.direction == Direction::Right
                            && snake.len == 0 && snake.target_len == 65 && snake.tail_len == 65
                            && a == next_apple && sc == 0,
                        GameState::GameOver { .. } => false,
                    }
                } else {
                    r == (GameState::GameOver { score })
                },
            },
    {
        match self {
            GameState::Main { snake, apple, score } => {
                let mut snake = snake;
                snake.handle_input(requested);
                let ghost s1 = snake;
                snake.update(frame_ms);
                let ghost s2 = snake;
                if snake.dead() {
                    return GameState::GameOver { score };
                }
                if snake.hits_apple(apple) {
                    let score = if score < usize::MAX {
                        score + 1
                    } else {
                        score
                    };
                    snake.grow();
                    return GameState::Main { snake, apple: next_apple, score };
                }
                GameState::Main { snake, apple, score }
            },
            GameState::GameOver { score } => {
                if restart {
                    GameState::new(next_apple)
                } else {
                    GameState::GameOver { score }
                }
            },
        }
    }
}

impl Default for GameState {
    /// A fresh game with a randomly placed apple.
    fn default() -> (r: GameState)
        ensures
            r.wf(),
            match r {
                GameState::Main { snake, apple, score } => {
                    &&& snake.head == (Point { x: 15, y: 15 })
                    &&& snake.turns@.len() == 0
                    &&& snake.direction == Direction::Right
                    &&& snake.len == 0
                    &&& snake.target_len == 65
                    &&& snake.tail_len == 65
                    &&& SNAKE_WIDTH <= apple.x < WINDOW_SIZE - SNAKE_WIDTH
                    &&& SNAKE_WIDTH <= apple.y < WINDOW_SIZE - SNAKE_WIDTH
                    &&& score == 0
                },
                GameState::GameOver { .. } => false,
            },
    {
        GameState::new(gen_apple())
    }
}

} // verus!

use snake::direction::{pick_direction, Direction};
use snake::game::GameState;
use snake::snake::{
    gen_apple, get_segment_color, head_overlaps_with_segment, Point, SegmentColor, Snake, Turn,
    SNAKE_WIDTH, WINDOW_SIZE,
};

fn p(x: i64, y: i64) -> Point {
    Point { x, y }
}

fn drawn_length(s: &Snake) -> i64 {
    s.segments()
        .iter()
        .map(|seg| (seg.start.x - seg.end.x).abs().max((seg.start.y - seg.end.y).abs()))
        .sum()
}

#[test]
fn new_snake_heads_right() {
    let s = Snake::default();
    assert_eq!(s.head, p(15, 15));
    assert_eq!(s.direction, Direction::Right);
    assert!(s.turns.is_empty());
    assert_eq!((s.len, s.target_len, s.tail_len), (0, 65, 65));
}

#[test]
fn reversal_and_repeat_are_refused() {
    let mut s = Snake::new();
    s.handle_input(Some(Direction::Left));
    assert_eq!(s.direction, Direction::Right);
    s.handle_input(Some(Direction::Right));
    assert_eq!(s.direction, Direction::Right);
    s.handle_input(None);
    assert!(s.turns.is_empty());
}

#[test]
fn a_turn_records_a_corner_at_the_head() {
    let mut s = Snake::new();
    s.update(16);
    s.handle_input(Some(Direction::Down));
    assert_eq!(s.direction, Direction::Down);
    assert_eq!(s.turns, vec![Turn { pos: p(20, 15), dir: Direction::Left }]);
}

#[test]
fn direction_never_reverses_over_a_sequence() {
    let mut s = Snake::new();
    let requests = [
        Direction::Left,
        Direction::Up,
        Direction::Down,
        Direction::Right,
        Direction::Left,
        Direction::Down,
        Direction::Up,
        Direction::Left,
    ];
    for d in requests.iter() {
        let before = s.direction;
        s.handle_input(Some(*d));
        assert_ne!(s.direction, before.opposite());
        s.update(16);
    }
}

#[test]
fn key_priority_is_right_left_up_down() {
    assert_eq!(pick_direction(true, true, true, true), Some(Direction::Right));
    assert_eq!(pick_direction(false, true, true, true), Some(Direction::Left));
    assert_eq!(pick_direction(false, false, true, true), Some(Direction::Up));
    assert_eq!(pick_direction(false, false, false, true), Some(Direction::Down));
    assert_eq!(pick_direction(false, false, false, false), None);
}

#[test]
fn only_perpendicular_changes_are_allowed() {
    assert!(Direction::Right.can_change_to(Direction::Up));
    assert!(Direction::Up.can_change_to(Direction::Left));
    assert!(!Direction::Right.can_change_to(Direction::Left));
    assert!(!Direction::Down.can_change_to(Direction::Down));
}

#[test]
fn update_moves_head_and_smooths_length() {
    let mut s = Snake::new();
    s.update(16);
    assert_eq!(s.head, p(20, 15));
    // 65 * (5 * 16 / 1000) = 5.2, rounded away from zero.
    assert_eq!(s.len, 6);
    assert_eq!(s.tail_len, 6);
    let mut s = Snake::new();
    s.update(1000);
    assert_eq!(s.len, 65);
}

#[test]
fn length_approaches_target_without_overshoot() {
    let mut s = Snake::new();
    let mut prev = s.len;
    for _ in 0..100 {
        s.update(16);
        assert!(s.len >= prev);
        assert!(s.len <= s.target_len);
        prev = s.len;
    }
    assert_eq!(s.len, 65);
    s.grow();
    assert_eq!(s.target_len, 115);
    s.update(16);
    assert_eq!(s.len, 69);
}

#[test]
fn drawn_path_length_equals_len() {
    let mut s = Snake::new();
    let plan = [
        (10, Some(Direction::Down)),
        (8, Some(Direction::Right)),
        (3, Some(Direction::Up)),
        (20, None),
    ];
    for (frames, d) in plan.iter() {
        s.handle_input(*d);
        for _ in 0..*frames {
            s.update(16);
            assert_eq!(drawn_length(&s), s.len);
        }
    }
    // The corners fell off as the tail passed them.
    assert!(s.turns.len() < 3);
}

#[test]
fn tail_is_trimmed_at_the_first_corner_that_does_not_fit() {
    let mut s = Snake::new();
    s.turns = vec![
        Turn { pos: p(10, 15), dir: Direction::Down },
        Turn { pos: p(10, 100), dir: Direction::Left },
        Turn { pos: p(0, 100), dir: Direction::Up },
    ];
    s.len = 60;
    s.target_len = 60;
    s.update(16);
    // Head at (20, 15): 10 to the first corner, then 85 would be needed.
    assert_eq!(s.turns, vec![Turn { pos: p(10, 15), dir: Direction::Down }]);
    assert_eq!(s.tail_len, 50);
}

#[test]
fn leaving_the_window_is_death() {
    let mut s = Snake::new();
    while s.head.x < WINDOW_SIZE {
        assert!(!s.dead());
        s.update(16);
    }
    assert_eq!(s.head.x, WINDOW_SIZE);
    assert!(!s.dead());
    s.update(16);
    assert!(s.head.x > WINDOW_SIZE);
    assert!(s.dead());
}

#[test]
fn running_into_the_body_is_death() {
    let mut s = Snake::new();
    s.head = p(100, 100);
    s.direction = Direction::Up;
    s.turns = vec![
        Turn { pos: p(100, 130), dir: Direction::Left },
        Turn { pos: p(150, 130), dir: Direction::Up },
        Turn { pos: p(150, 100), dir: Direction::Left },
        Turn { pos: p(50, 100), dir: Direction::Up },
    ];
    s.tail_len = 0;
    assert!(s.dead());
    s.head = p(100, 60);
    assert!(!s.dead());
}

#[test]
fn the_neck_is_never_a_collision() {
    let mut s = Snake::new();
    s.head = p(100, 100);
    s.direction = Direction::Up;
    s.turns = vec![
        Turn { pos: p(50, 100), dir: Direction::Left },
        Turn { pos: p(150, 100), dir: Direction::Up },
        Turn { pos: p(150, 300), dir: Direction::Left },
    ];
    s.tail_len = 10;
    assert!(!s.dead());
}

#[test]
fn tail_segment_counts_for_collision() {
    let mut s = Snake::new();
    s.head = p(100, 100);
    s.direction = Direction::Up;
    s.turns = vec![Turn { pos: p(100, 200), dir: Direction::Right }, Turn {
        pos: p(50, 200),
        dir: Direction::Up,
    }];
    s.tail_len = 150;
    // The tail runs from (50, 200) up to (50, 50), 50 pixels left of the head.
    assert!(!s.dead());
    s.head = p(60, 100);
    assert!(s.dead());
}

#[test]
fn overlap_needs_strictly_inside_and_within_width() {
    assert!(head_overlaps_with_segment(p(100, 100), p(50, 100), p(150, 100)));
    assert!(head_overlaps_with_segment(p(100, 115), p(150, 100), p(50, 100)));
    assert!(!head_overlaps_with_segment(p(100, 116), p(50, 100), p(150, 100)));
    assert!(!head_overlaps_with_segment(p(150, 100), p(50, 100), p(150, 100)));
    assert!(head_overlaps_with_segment(p(85, 60), p(100, 0), p(100, 120)));
    assert!(!head_overlaps_with_segment(p(84, 60), p(100, 0), p(100, 120)));
}

#[test]
fn apple_reach_is_one_and_a_half_widths() {
    let s = Snake::new();
    assert!(s.hits_apple(p(37, 15)));
    assert!(!s.hits_apple(p(38, 15)));
    assert!(s.hits_apple(p(30, 30)));
    assert!(!s.hits_apple(p(31, 31)));
    assert!(!s.hits_apple(p(i64::MAX, i64::MIN)));
}

#[test]
fn segment_colours_alternate() {
    assert_eq!(get_segment_color(0), SegmentColor::Even);
    assert_eq!(get_segment_color(1), SegmentColor::Odd);
    assert_eq!(get_segment_color(6), SegmentColor::Even);
}

#[test]
fn segments_run_from_head_to_tail_end() {
    let mut s = Snake::new();
    s.head = p(100, 100);
    s.direction = Direction::Up;
    s.turns = vec![Turn { pos: p(100, 130), dir: Direction::Left }];
    s.tail_len = 20;
    let segs = s.segments();
    assert_eq!(segs.len(), 2);
    assert_eq!((segs[0].start, segs[0].end, segs[0].color), (p(100, 100), p(100, 130), SegmentColor::Even));
    assert_eq!((segs[1].start, segs[1].end, segs[1].color), (p(100, 130), p(80, 130), SegmentColor::Odd));
}

#[test]
fn apples_are_placed_inside_the_margin() {
    let mut varied = false;
    for _ in 0..200 {
        let a = gen_apple();
        assert!(a.x >= SNAKE_WIDTH && a.x < WINDOW_SIZE - SNAKE_WIDTH);
        assert!(a.y >= SNAKE_WIDTH && a.y < WINDOW_SIZE - SNAKE_WIDTH);
        if a.x != SNAKE_WIDTH || a.y != SNAKE_WIDTH {
            varied = true;
        }
    }
    assert!(varied);
}

#[test]
fn eating_in_game_scores_and_grows() {
    let state = GameState::new(p(30, 15));
    let state = state.frame(None, 16, false, p(400, 400));
    match state {
        GameState::Main { snake, apple, score } => {
            assert_eq!(score, 1);
            assert_eq!(apple, p(400, 400));
            assert_eq!(snake.target_len, 115);
        },
        GameState::GameOver { .. } => panic!("the snake should be alive"),
    }
}

#[test]
fn game_over_and_restart() {
    let mut state = GameState::new(p(400, 400));
    let mut frames = 0;
    while let GameState::Main { .. } = state {
        state = state.frame(None, 16, false, p(400, 400));
        frames += 1;
    }
    assert_eq!(frames, 158);
    match state {
        GameState::GameOver { score } => assert_eq!(score, 0),
        GameState::Main { .. } => unreachable!(),
    }
    let state = state.frame(None, 16, false, p(1, 1));
    assert!(matches!(state, GameState::GameOver { score: 0 }));
    let state = state.frame(None, 16, true, p(200, 300));
    match state {
        GameState::Main { snake, apple, score } => {
            assert_eq!(score, 0);
            assert_eq!(apple, p(200, 300));
            assert_eq!(snake.head, p(15, 15));
        },
        GameState::GameOver { .. } => panic!("restart should start a game"),
    }
}

use snake::{Command, Direction, Food, GameMode, Point, Snake, State, StepOutcome};

fn in_spawn_area(p: Point) -> bool {
    1 <= p.x && p.x < 79 && 1 <= p.y && p.y < 49
}

fn body(cells: &[(i32, i32)]) -> Vec<Point> {
    cells.iter().map(|&(x, y)| Point::new(x, y)).collect()
}

#[test]
fn eating_grows_scores_and_places_a_new_target() {
    let snake = Snake::from_segments(body(&[(40, 25)]), Direction::Right).unwrap();
    let mut state = State::playing(snake, Food::new(41, 25), 0).unwrap();
    assert!(state.has_room());

    let quit = state.tick(None, 76, 76);

    assert!(!quit);
    assert_eq!(state.mode(), GameMode::Playing);
    assert_eq!(state.snake().head(), Point::new(41, 25));
    assert_eq!(state.snake().len(), 2);
    assert_eq!(state.snake().segments(), &body(&[(41, 25), (40, 25)]));
    assert_eq!(state.score(), 1);
    let target = state.food().point();
    assert!(in_spawn_area(target));
    assert!(!state.snake().occupies(target));
    assert_ne!(target, Point::new(41, 25));
}

#[test]
fn eating_at_the_body_level() {
    let mut snake = Snake::from_segments(body(&[(40, 25)]), Direction::Right).unwrap();
    let outcome = snake.advance(Point::new(41, 25));
    assert_eq!(outcome, StepOutcome::Ate);
    assert_eq!(snake.segments(), &body(&[(41, 25), (40, 25)]));
}

#[test]
fn leaving_the_grid_ends_the_game_and_moves_nothing() {
    let snake = Snake::from_segments(body(&[(79, 25)]), Direction::Right).unwrap();
    assert_eq!(snake.auto_move(), Point::new(80, 25));
    let mut state = State::playing(snake, Food::with_default(), 0).unwrap();

    let quit = state.tick(None, 76, 76);

    assert!(!quit);
    assert_eq!(state.mode(), GameMode::End);
    assert_eq!(state.snake().segments(), &body(&[(79, 25)]));
    assert_eq!(state.score(), 0);
    assert_eq!(state.food().point(), Point::new(20, 12));
}

#[test]
fn leaving_the_grid_on_each_side() {
    for (cell, heading) in [
        ((1, 25), Direction::Left),
        ((79, 25), Direction::Right),
        ((40, 1), Direction::Up),
        ((40, 49), Direction::Down),
    ] {
        let mut snake = Snake::from_segments(body(&[cell]), heading).unwrap();
        assert_eq!(snake.advance(Point::new(20, 12)), StepOutcome::Collided);
        assert_eq!(snake.segments(), &body(&[cell]));
    }
}

#[test]
fn a_plain_step_drops_the_tail() {
    let cells = body(&[(10, 10), (10, 11), (10, 12)]);
    let mut snake = Snake::from_segments(cells, Direction::Up).unwrap();
    assert_eq!(snake.auto_move(), Point::new(10, 9));
    assert!(!snake.colides_with_body(Point::new(10, 9)));

    let outcome = snake.advance(Point::new(20, 12));

    assert_eq!(outcome, StepOutcome::Moved);
    assert_eq!(snake.segments(), &body(&[(10, 9), (10, 10), (10, 11)]));
    assert_eq!(snake.len(), 3);
}

#[test]
fn a_plain_step_through_the_game() {
    let cells = body(&[(10, 10), (10, 11), (10, 12)]);
    let snake = Snake::from_segments(cells, Direction::Up).unwrap();
    let mut state = State::playing(snake, Food::with_default(), 0).unwrap();
    assert_eq!(state.score(), 2);

    state.tick(None, 76, 76);

    assert_eq!(state.mode(), GameMode::Playing);
    assert_eq!(state.snake().segments(), &body(&[(10, 9), (10, 10), (10, 11)]));
    assert_eq!(state.score(), 2);
    assert_eq!(state.food().point(), Point::new(20, 12));
}

#[test]
fn a_reversal_in_the_frame_of_a_step_is_dropped() {
    let snake = Snake::from_segments(body(&[(40, 25), (39, 25)]), Direction::Right).unwrap();
    let mut state = State::playing(snake, Food::with_default(), 0).unwrap();

    state.tick(Some(Command::MoveLeft), 76, 76);

    assert_eq!(state.snake().direction(), Direction::Right);
    assert_eq!(state.mode(), GameMode::Playing);
    assert_eq!(state.snake().segments(), &body(&[(41, 25), (40, 25)]));
}

#[test]
fn running_into_the_body_ends_the_game_and_moves_nothing() {
    let cells = body(&[(5, 5), (4, 5), (4, 6), (5, 6), (6, 6)]);
    let snake = Snake::from_segments(cells.clone(), Direction::Down).unwrap();
    let mut state = State::playing(snake, Food::with_default(), 0).unwrap();

    let quit = state.tick(None, 76, 76);

    assert!(!quit);
    assert_eq!(state.mode(), GameMode::End);
    assert_eq!(state.snake().segments(), &cells);
    assert_eq!(state.score(), 4);
    assert_eq!(state.food().point(), Point::new(20, 12));

    // Nothing moves after the end either.
    state.tick(None, 76, 152);
    assert_eq!(state.mode(), GameMode::End);
    assert_eq!(state.snake().segments(), &cells);
}

#[test]
fn a_turn_in_the_frame_of_the_collision_is_still_taken() {
    let snake = Snake::from_segments(body(&[(79, 25)]), Direction::Up).unwrap();
    let mut state = State::playing(snake, Food::with_default(), 0).unwrap();

    state.tick(Some(Command::MoveRight), 76, 76);

    assert_eq!(state.mode(), GameMode::End);
    assert_eq!(state.snake().direction(), Direction::Right);
    assert_eq!(state.snake().segments(), &body(&[(79, 25)]));
}

use snake::{
    ButtonState, Direction, DrawCommand, Event, Game, Grid, Key, MotionError, Position, Snake,
    Square,
};
use std::collections::VecDeque;

fn standard() -> Grid {
    Grid::from_screen(1000, 800, 20)
}

fn press(key: Key) -> Event {
    Event::Button { state: ButtonState::Press, key }
}

fn cells(game: &Game) -> Vec<(u32, u32)> {
    game.snake.body.iter().map(|p| (p.x, p.y)).collect()
}

#[test]
fn new_game() {
    let game = Game::new(standard());
    assert_eq!(game.grid, standard());
    assert_eq!(game.snake, Snake::initial());
    assert_eq!(cells(&game), vec![(0, 0), (1, 0), (3, 0), (4, 0), (5, 0), (6, 0), (7, 0)]);
}

#[test]
fn render_clears_then_fills_head_to_tail() {
    let game = Game::new(standard());
    let frame = game.render();
    assert_eq!(frame.len(), 8);
    assert_eq!(frame[0], DrawCommand::Clear);
    let xs = [0u64, 20, 60, 80, 100, 120, 140];
    for (i, x) in xs.iter().enumerate() {
        assert_eq!(frame[i + 1], DrawCommand::Fill(Square { x: *x, y: 0, size: 20 }));
    }
}

#[test]
fn render_event_returns_the_frame_and_changes_nothing() {
    let mut game = Game::new(standard());
    let before = game.clone();
    let drawn = game.handle(Event::Render);
    assert_eq!(drawn, Ok(before.render()));
    assert_eq!(game, before);
}

#[test]
fn render_of_a_game_without_body_only_clears() {
    let mut game = Game {
        snake: Snake { body: VecDeque::new(), direction: Direction::Left },
        grid: standard(),
    };
    assert_eq!(game.handle(Event::Render), Ok(vec![DrawCommand::Clear]));
}

#[test]
fn update_event_moves_the_snake() {
    let mut game = Game::new(standard());
    assert_eq!(game.handle(Event::Update), Ok(vec![]));
    assert_eq!(cells(&game), vec![(1, 0), (0, 0), (1, 0), (3, 0), (4, 0), (5, 0), (6, 0)]);
    assert_eq!(game.snake.direction, Direction::Right);
}

#[test]
fn update_event_on_empty_body_fails_and_changes_nothing() {
    let mut game = Game {
        snake: Snake { body: VecDeque::new(), direction: Direction::Left },
        grid: standard(),
    };
    let before = game.clone();
    assert_eq!(game.handle(Event::Update), Err(MotionError::EmptyBody));
    assert_eq!(game, before);
}

#[test]
fn press_turns_release_does_not() {
    let mut game = Game::new(standard());
    assert_eq!(
        game.handle(Event::Button { state: ButtonState::Release, key: Key::W }),
        Ok(vec![])
    );
    assert_eq!(game.snake.direction, Direction::Right);
    assert_eq!(game.handle(press(Key::W)), Ok(vec![]));
    assert_eq!(game.snake.direction, Direction::Up);
    assert_eq!(game.snake.body, Snake::initial().body);
}

#[test]
fn press_of_the_opposite_key_is_ignored() {
    let mut game = Game::new(standard());
    game.handle(press(Key::A)).unwrap();
    assert_eq!(game.snake.direction, Direction::Right);
    game.handle(press(Key::Other)).unwrap();
    assert_eq!(game.snake.direction, Direction::Right);
}

#[test]
fn turn_applies_to_the_next_update() {
    let mut game = Game::new(standard());
    game.handle(press(Key::S)).unwrap();
    game.handle(Event::Update).unwrap();
    assert_eq!(cells(&game), vec![(0, 1), (0, 0), (1, 0), (3, 0), (4, 0), (5, 0), (6, 0)]);
    game.handle(press(Key::A)).unwrap();
    game.handle(Event::Update).unwrap();
    assert_eq!(cells(&game), vec![(49, 1), (0, 1), (0, 0), (1, 0), (3, 0), (4, 0), (5, 0)]);
}

#[test]
fn game_update_and_pressed() {
    let mut game = Game::new(standard());
    game.pressed(Key::W);
    assert_eq!(game.snake.direction, Direction::Up);
    game.update();
    assert_eq!(game.snake.body[0], Position { x: 0, y: 39 });
    assert_eq!(game.snake.body.len(), 7);
    assert_eq!(game.grid, standard());
}

#[test]
fn long_run_keeps_length_and_stays_on_grid() {
    let mut game = Game::new(Grid::from_screen(200, 100, 20));
    let keys = [Key::S, Key::A, Key::W, Key::D, Key::Other, Key::S, Key::D];
    for round in 0..200usize {
        game.handle(press(keys[round % keys.len()])).unwrap();
        game.handle(Event::Update).unwrap();
        assert_eq!(game.snake.body.len(), 7);
        assert!(game.snake.body.iter().all(|p| p.x <= 9 && p.y <= 4));
    }
}

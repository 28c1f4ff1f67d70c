use bevy::input::keyboard::KeyCode;
use bevy::input::ButtonInput;
use snake::grid::Position;
use snake::heading::Direction;
use snake::input::PressedArrows;
use snake::registry::{Entity, EntityId, EntityKind, Size, SnakeHead};
use snake::game::Game;

fn cell(x: i32, y: i32) -> Position {
    Position { x, y }
}

fn press(code: KeyCode) -> ButtonInput<KeyCode> {
    let mut keyboard: ButtonInput<KeyCode> = ButtonInput::default();
    keyboard.press(code);
    keyboard
}

fn chain_cells(game: &Game) -> Vec<Position> {
    game.segments().0.iter().map(|id| game.position(*id)).collect()
}

#[test]
fn start_configuration() {
    let game = Game::spawn_snake();
    assert_eq!(game.segments().0, vec![EntityId(0), EntityId(1)]);
    assert_eq!(game.registry().len(), 2);
    assert_eq!(game.head(), EntityId(0));
    assert_eq!(game.heading(), Direction::Up);
    assert_eq!(
        game.registry().entity(EntityId(0)),
        Entity {
            kind: EntityKind::Head(SnakeHead { direction: Direction::Up }),
            position: cell(3, 3),
            size: Size { width: 80, height: 80 },
        }
    );
    assert_eq!(
        game.registry().entity(EntityId(1)),
        Entity { kind: EntityKind::Segment, position: cell(3, 2), size: Size { width: 65, height: 65 } }
    );
}

#[test]
fn left_before_first_tick() {
    let mut game = Game::spawn_snake();
    game.snake_movement_input(&press(KeyCode::ArrowLeft));
    assert!(game.can_step());
    game.snake_movement();
    assert_eq!(game.position(game.head()), cell(2, 3));
    assert_eq!(game.heading(), Direction::Left);
    assert_eq!(game.position(game.segments().0[1]), cell(3, 3));
}

#[test]
fn down_before_any_movement_is_rejected() {
    let mut game = Game::spawn_snake();
    game.snake_movement_input(&press(KeyCode::ArrowDown));
    assert_eq!(game.heading(), Direction::Up);
    game.snake_movement();
    assert_eq!(chain_cells(&game), vec![cell(3, 4), cell(3, 3)]);
}

#[test]
fn tick_without_input_moves_up() {
    let mut game = Game::spawn_snake();
    game.snake_movement_input(&ButtonInput::default());
    game.snake_movement();
    assert_eq!(game.heading(), Direction::Up);
    assert_eq!(chain_cells(&game), vec![cell(3, 4), cell(3, 3)]);
}

#[test]
fn each_heading_moves_one_cell() {
    let mut game = Game::spawn_snake();
    game.steer(PressedArrows { left: false, down: false, up: false, right: true });
    game.snake_movement();
    assert_eq!(chain_cells(&game), vec![cell(4, 3), cell(3, 3)]);
    game.steer(PressedArrows { left: false, down: true, up: false, right: false });
    game.snake_movement();
    assert_eq!(chain_cells(&game), vec![cell(4, 2), cell(4, 3)]);
    game.steer(PressedArrows { left: true, down: false, up: false, right: false });
    game.snake_movement();
    assert_eq!(chain_cells(&game), vec![cell(3, 2), cell(4, 2)]);
    game.steer(PressedArrows { left: false, down: false, up: true, right: false });
    game.snake_movement();
    assert_eq!(chain_cells(&game), vec![cell(3, 3), cell(3, 2)]);
}

#[test]
fn segments_follow_the_cell_ahead() {
    let mut game = Game::spawn_snake();
    let samples = [
        PressedArrows { left: true, down: false, up: false, right: false },
        PressedArrows { left: false, down: false, up: false, right: false },
        PressedArrows { left: false, down: true, up: false, right: false },
        PressedArrows { left: false, down: false, up: false, right: true },
        PressedArrows { left: false, down: false, up: true, right: false },
    ];
    for sample in samples {
        game.steer(sample);
        let before = chain_cells(&game);
        let heading = game.heading();
        game.snake_movement();
        let after = chain_cells(&game);
        assert_eq!(after.len(), before.len());
        assert_eq!(after[0], before[0].advance(heading));
        for i in 1..after.len() {
            assert_eq!(after[i], before[i - 1]);
        }
        assert_eq!(game.heading(), heading);
    }
}

#[test]
fn latest_valid_heading_is_used_at_the_tick() {
    let mut game = Game::spawn_snake();
    game.snake_movement_input(&press(KeyCode::ArrowLeft));
    game.snake_movement_input(&press(KeyCode::ArrowRight));
    // Right would reverse the Left committed a frame earlier.
    assert_eq!(game.heading(), Direction::Left);
    game.snake_movement_input(&press(KeyCode::ArrowDown));
    assert_eq!(game.heading(), Direction::Down);
    game.snake_movement();
    assert_eq!(chain_cells(&game), vec![cell(3, 2), cell(3, 3)]);
}

#[test]
fn nothing_clamps_the_snake_to_the_arena() {
    let mut game = Game::spawn_snake();
    game.steer(PressedArrows { left: true, down: false, up: false, right: false });
    for _ in 0..5 {
        game.snake_movement();
    }
    assert_eq!(chain_cells(&game), vec![cell(-2, 3), cell(-1, 3)]);
}

#[test]
fn tick_leaves_food_alone() {
    let mut game = Game::spawn_snake();
    let food = game.spawn_food(cell(3, 4));
    assert_eq!(food, EntityId(2));
    let placed = game.registry().entity(food);
    assert_eq!(
        placed,
        Entity { kind: EntityKind::Food, position: cell(3, 4), size: Size { width: 80, height: 80 } }
    );
    game.snake_movement();
    // The head now stands on the food's cell; nothing is consumed.
    assert_eq!(game.position(game.head()), cell(3, 4));
    assert_eq!(game.registry().entity(food), placed);
    assert_eq!(game.registry().len(), 3);
    assert_eq!(game.segments().0, vec![EntityId(0), EntityId(1)]);
}

#[test]
fn steering_changes_only_the_head() {
    let mut game = Game::spawn_snake();
    let tail = game.registry().entity(EntityId(1));
    game.steer(PressedArrows { left: false, down: false, up: false, right: true });
    assert_eq!(
        game.registry().entity(EntityId(0)),
        Entity {
            kind: EntityKind::Head(SnakeHead { direction: Direction::Right }),
            position: cell(3, 3),
            size: Size { width: 80, height: 80 },
        }
    );
    assert_eq!(game.registry().entity(EntityId(1)), tail);
}

#[test]
fn advance_at_the_coordinate_limits() {
    let corner = cell(i32::MAX, i32::MIN);
    assert!(!corner.can_advance(Direction::Right));
    assert!(!corner.can_advance(Direction::Down));
    assert!(corner.can_advance(Direction::Left));
    assert!(corner.can_advance(Direction::Up));
    assert_eq!(corner.advance(Direction::Left), cell(i32::MAX - 1, i32::MIN));
    assert_eq!(corner.advance(Direction::Up), cell(i32::MAX, i32::MIN + 1));
}

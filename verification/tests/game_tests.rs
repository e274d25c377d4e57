use snake3::entities::{Entity, EntityKind};
use snake3::game::{GameError, GameState, SnakeGame};
use snake3::snake_obj::{SnakeBodyPoint, SnakeDirection};

#[test]
fn snake_game_game_board() {
    let columns = 2;
    let rows = 2;
    let game_board = SnakeGame::game_board(&columns, &rows);
    assert_eq!(game_board.len(), 4);
    assert_eq!(game_board, vec![(0, 0), (0, 1), (1, 0), (1, 1)]);
}

#[test]
fn snake_game_new() {
    let new_game = SnakeGame::new(42, 24, None, None).unwrap();
    assert_eq!(new_game.score, 0);
    assert_eq!(new_game.columns, 42);
    assert_eq!(new_game.rows, 24);
    assert_eq!(new_game.state, GameState::New);
}

#[test]
fn snake_game_new_custom_direction_and_starting_positions() {
    let new_game = SnakeGame::new(42, 24, Some(SnakeDirection::Left), Some((10, 20))).unwrap();
    assert_eq!(new_game.snake.get_direction(), SnakeDirection::Left);
    assert_eq!(new_game.snake.body[0].x, 10);
    assert_eq!(new_game.snake.body[0].y, 20)
}

#[test]
fn snake_game_new_custom_position_out_of_range() {
    let new_game = SnakeGame::new(42, 24, Some(SnakeDirection::Left), Some((10, 25)));
    assert_eq!(new_game.err(), Some(GameError::StartOutOfBounds));
}

#[test]
fn snake_game_new_negative_position_out_of_range() {
    let new_game = SnakeGame::new(42, 24, None, Some((-1, 5)));
    assert_eq!(new_game.err(), Some(GameError::StartOutOfBounds));
}

#[test]
fn snake_game_dimensions() {
    let new_game = SnakeGame::new(42, 24, None, None).unwrap();
    assert_eq!(new_game.dimensions(), (42, 24))
}

#[test]
fn snake_game_get_state() {
    let new_game = SnakeGame::new(42, 24, None, None).unwrap();
    assert_eq!(new_game.get_state(), GameState::New)
}

#[test]
fn snake_game_set_state_valid_path() {
    let mut new_game = SnakeGame::new(42, 24, None, None).unwrap();

    new_game.set_state(GameState::Playing).unwrap();
    assert_eq!(new_game.state, GameState::Playing);

    new_game.set_state(GameState::Paused).unwrap();
    assert_eq!(new_game.state, GameState::Paused);

    new_game.set_state(GameState::Playing).unwrap();
    assert_eq!(new_game.state, GameState::Playing);

    new_game.set_state(GameState::Paused).unwrap();
    assert_eq!(new_game.state, GameState::Paused);

    new_game.set_state(GameState::Playing).unwrap();
    assert_eq!(new_game.state, GameState::Playing);

    new_game.set_state(GameState::Ended).unwrap();
    assert_eq!(new_game.state, GameState::Ended)
}

#[test]
fn snake_game_set_state_new() {
    let mut new_game = SnakeGame::new(42, 24, None, None).unwrap();
    let result = new_game.set_state(GameState::New);
    assert_eq!(result, Err(GameError::TransitionToNew));
    assert_eq!(new_game.state, GameState::New);
}

#[test]
fn snake_game_set_state_ended() {
    let mut new_game = SnakeGame::new(42, 24, None, None).unwrap();
    new_game.set_state(GameState::Ended).unwrap();
    let result = new_game.set_state(GameState::Playing);
    assert_eq!(result, Err(GameError::TransitionFromEnded));
    assert_eq!(new_game.state, GameState::Ended);
}

#[test]
fn snake_game_set_state_same() {
    let mut new_game = SnakeGame::new(42, 24, None, None).unwrap();
    new_game.set_state(GameState::Playing).unwrap();
    let result = new_game.set_state(GameState::Playing);
    assert_eq!(result, Err(GameError::TransitionToSameState));
    assert_eq!(new_game.state, GameState::Playing);
}

#[test]
fn snake_game_check_collisions_false() {
    let new_game = SnakeGame::new(42, 24, None, None).unwrap();
    assert_eq!(false, new_game.check_collisions())
}

#[test]
fn snake_game_check_collisions_wall() {
    let mut new_game =
        SnakeGame::new(42, 24, Some(SnakeDirection::Left), Some((0, 0))).unwrap();
    new_game.snake.body[0].y = -1;
    assert_eq!(true, new_game.check_collisions());
    new_game.snake.body[0].y = 0;
    new_game.snake.body[0].x = new_game.columns + 1;
    assert_eq!(true, new_game.check_collisions());
    new_game.snake.body[0].y = new_game.rows + 1;
    new_game.snake.body[0].x = 0;
    assert_eq!(true, new_game.check_collisions());
    new_game.snake.body[0].y = 0;
    new_game.snake.body[0].x = -1;
    assert_eq!(true, new_game.check_collisions())
}

#[test]
fn snake_game_check_collisions_boundary_is_in_bounds() {
    // The bound itself still counts as in bounds: only a coordinate
    // strictly greater than columns / rows (or negative) collides.
    let mut game = SnakeGame::new(42, 24, None, None).unwrap();
    game.snake.body[0].x = 42;
    game.snake.body[0].y = 24;
    assert_eq!(false, game.check_collisions());
}

#[test]
fn snake_game_check_collisions_self() {
    let mut new_game =
        SnakeGame::new(42, 24, Some(SnakeDirection::Left), Some((10, 10))).unwrap();
    new_game.snake.body.push(SnakeBodyPoint { x: 9, y: 10 });
    new_game.snake.body.push(SnakeBodyPoint { x: 9, y: 11 });
    new_game.snake.advance();
    assert_eq!(true, new_game.check_collisions())
}

#[test]
fn snake_game_generate_entity() {
    let mut new_game = SnakeGame::new(42, 24, None, None).unwrap();
    assert_eq!(new_game.entities.len(), 0);
    new_game.generate_entity(EntityKind::Apple);
    assert_eq!(new_game.entities.len(), 1);
}

#[test]
fn snake_game_generate_entity_lands_on_empty_spot() {
    let mut game = SnakeGame::new(2, 2, None, None).unwrap();
    assert!(game.generate_entity(EntityKind::Apple));
    let e = game.entities[0];
    assert_eq!(e.kind, EntityKind::Apple);
    // The snake head holds (1, 1); the entity must sit on another cell.
    let empty = [(0, 0), (0, 1), (1, 0)];
    assert!(empty.contains(&(e.x, e.y)));
}

#[test]
fn snake_game_generate_entity_no_space() {
    let mut game = SnakeGame::new(1, 1, None, None).unwrap();
    assert_eq!(game.empty_spots().len(), 0);
    let result = game.generate_entity(EntityKind::Apple);
    assert!(!result);
    assert_eq!(game.entities.len(), 0);
}

#[test]
fn snake_game_check_entity_collision() {
    let mut new_game = SnakeGame::new(42, 24, None, None).unwrap();
    new_game.generate_entity(EntityKind::Apple);
    assert_eq!(new_game.entities.len(), 1);
    let current_entity = &new_game.entities[0];
    new_game.snake.body[0].x = current_entity.x;
    new_game.snake.body[0].y = current_entity.y;
    new_game.check_entity_collision();
    assert_eq!(new_game.entities.len(), 0);
}

#[test]
fn snake_game_check_entity_collision_no_match() {
    let mut game = SnakeGame::new(42, 24, None, None).unwrap();
    game.entities.push(Entity::new(EntityKind::Apple, 1, 1));
    // The head holds (21, 12) and no entity sits there.
    assert!(game.check_entity_collision().is_none());
    assert_eq!(game.entities.len(), 1);
}

#[test]
fn snake_game_check_entity_collision_first_match_wins() {
    let mut game = SnakeGame::new(42, 24, None, None).unwrap();
    let head = (game.snake.body[0].x, game.snake.body[0].y);
    game.entities.push(Entity::new(EntityKind::Custom(7), head.0, head.1));
    game.entities.push(Entity::new(EntityKind::Apple, head.0, head.1));
    game.entities.push(Entity::new(EntityKind::Apple, 0, 0));

    let removed = game.check_entity_collision().unwrap();
    // The first entity in collection order is removed and returned; the
    // later one on the same cell and the unrelated one stay, in order.
    assert_eq!(removed.kind, EntityKind::Custom(7));
    assert_eq!(game.entities.len(), 2);
    assert_eq!(game.entities[0].kind, EntityKind::Apple);
    assert_eq!((game.entities[0].x, game.entities[0].y), head);
    assert_eq!((game.entities[1].x, game.entities[1].y), (0, 0));
}

#[test]
fn snake_game_empty_spots() {
    let new_game = SnakeGame::new(2, 2, None, None).unwrap();
    assert_eq!(new_game.empty_spots(), vec![(0, 0), (0, 1), (1, 0)])
}

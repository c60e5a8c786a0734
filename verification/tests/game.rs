use snake::{
    Ate, Direction, Food, GameState, GridPosition, KeyCode, Segment, MILLIS_PER_UPDATE,
    UPDATES_PER_SECOND,
};

fn pos(x: i16, y: i16) -> GridPosition {
    GridPosition::new(x, y)
}

fn cells(state: &GameState) -> Vec<(i16, i16)> {
    state.snake.body.iter().map(|seg| (seg.pos.x, seg.pos.y)).collect()
}

fn on_field(p: GridPosition) -> bool {
    0 <= p.x && p.x < 30 && 0 <= p.y && p.y < 20
}

/// A session whose snake has eaten three times on its way right and is six
/// cells long, with the head at (10, 10) and the clock at 375.
fn long_snake() -> GameState {
    let mut state = GameState::with_food(pos(8, 10));
    state.update_with_food(125, pos(9, 10));
    state.update_with_food(250, pos(10, 10));
    state.update_with_food(375, pos(0, 0));
    assert_eq!(state.snake.head.pos, pos(10, 10));
    assert_eq!(cells(&state), vec![(9, 10), (8, 10), (7, 10), (6, 10)]);
    state
}

/// The long snake after it has turned down, left and up into its own body.
fn finished_game() -> GameState {
    let mut state = long_snake();
    state.key_down_event_with_food(KeyCode::Down, pos(1, 1));
    state.update_with_food(500, pos(1, 1));
    state.key_down_event_with_food(KeyCode::Left, pos(1, 1));
    state.update_with_food(625, pos(1, 1));
    state.key_down_event_with_food(KeyCode::Up, pos(1, 1));
    state.update_with_food(750, pos(1, 1));
    assert!(state.gameover);
    state
}

#[test]
fn tick_interval_is_an_eighth_of_a_second() {
    assert_eq!(UPDATES_PER_SECOND, 8);
    assert_eq!(MILLIS_PER_UPDATE, 125);
}

#[test]
fn new_session_starts_at_the_canonical_cell() {
    let state = GameState::new();
    assert_eq!(state.snake.head.pos, pos(7, 10));
    assert_eq!(cells(&state), vec![(6, 10)]);
    assert_eq!(state.snake.dir, Direction::Right);
    assert_eq!(state.snake.last_update_dir, Direction::Right);
    assert_eq!(state.snake.next_dir, None);
    assert_eq!(state.snake.ate, None);
    assert!(!state.gameover);
    assert_eq!(state.last_update, 0);
    assert!(on_field(state.food.pos));
}

#[test]
fn new_sessions_place_food_on_varying_cells() {
    let mut columns = [false; 30];
    let mut rows = [false; 20];
    for _ in 0..3000 {
        let state = GameState::new();
        assert!(on_field(state.food.pos));
        columns[state.food.pos.x as usize] = true;
        rows[state.food.pos.y as usize] = true;
    }
    assert!(columns.iter().all(|c| *c));
    assert!(rows.iter().all(|r| *r));
}

#[test]
fn session_with_given_food() {
    let state = GameState::with_food(pos(3, 4));
    assert_eq!(state.food.pos, pos(3, 4));
    assert_eq!(state.snake.head.pos, pos(7, 10));
    assert_eq!(cells(&state), vec![(6, 10)]);
    assert!(!state.gameover);
    assert_eq!(state.last_update, 0);
}

#[test]
fn update_before_the_interval_is_a_no_op() {
    let mut state = GameState::with_food(pos(20, 5));
    state.update(0);
    state.update(1);
    state.update(124);
    assert_eq!(state.snake.head.pos, pos(7, 10));
    assert_eq!(cells(&state), vec![(6, 10)]);
    assert_eq!(state.last_update, 0);
    assert_eq!(state.food.pos, pos(20, 5));
}

#[test]
fn update_at_the_interval_ticks_once() {
    let mut state = GameState::with_food(pos(20, 5));
    state.update(125);
    assert_eq!(state.snake.head.pos, pos(8, 10));
    assert_eq!(cells(&state), vec![(7, 10)]);
    assert_eq!(state.last_update, 125);
    assert_eq!(state.food.pos, pos(20, 5));
    assert!(!state.gameover);

    // The same reading, and any reading less than an interval later, is no tick.
    state.update(125);
    state.update(249);
    assert_eq!(state.snake.head.pos, pos(8, 10));
    assert_eq!(state.last_update, 125);

    state.update(250);
    assert_eq!(state.snake.head.pos, pos(9, 10));
    assert_eq!(state.last_update, 250);
}

#[test]
fn late_update_ticks_only_once() {
    let mut state = GameState::with_food(pos(20, 5));
    state.update(1000);
    assert_eq!(state.snake.head.pos, pos(8, 10));
    assert_eq!(state.last_update, 1000);
    state.update(1100);
    assert_eq!(state.snake.head.pos, pos(8, 10));
    assert_eq!(state.last_update, 1000);
}

#[test]
fn clock_reading_before_the_latest_tick_is_a_no_op() {
    let mut state = GameState::with_food(pos(20, 5));
    state.update(1000);
    state.update(3);
    assert_eq!(state.snake.head.pos, pos(8, 10));
    assert_eq!(state.last_update, 1000);
}

#[test]
fn update_at_the_largest_clock_reading() {
    let mut state = GameState::with_food(pos(20, 5));
    state.update(u64::MAX);
    assert_eq!(state.snake.head.pos, pos(8, 10));
    assert_eq!(state.last_update, u64::MAX);
    state.update(u64::MAX);
    assert_eq!(state.snake.head.pos, pos(8, 10));
}

#[test]
fn eating_relocates_food_to_the_given_cell() {
    let mut state = GameState::with_food(pos(8, 10));
    state.update_with_food(125, pos(3, 4));
    assert_eq!(state.snake.ate, Some(Ate::Food));
    assert_eq!(state.food.pos, pos(3, 4));
    assert_eq!(state.snake.head.pos, pos(8, 10));
    assert_eq!(cells(&state), vec![(7, 10), (6, 10)]);
    assert!(!state.gameover);
}

#[test]
fn given_cell_is_unused_when_nothing_is_eaten() {
    let mut state = GameState::with_food(pos(20, 5));
    state.update_with_food(125, pos(3, 4));
    assert_eq!(state.snake.ate, None);
    assert_eq!(state.food.pos, pos(20, 5));
}

#[test]
fn eating_relocates_food_to_a_random_cell_of_the_field() {
    let mut columns = [false; 30];
    for _ in 0..2000 {
        let mut state = GameState::with_food(pos(8, 10));
        state.update(125);
        assert_eq!(state.snake.ate, Some(Ate::Food));
        assert!(on_field(state.food.pos));
        columns[state.food.pos.x as usize] = true;
    }
    assert!(columns.iter().all(|c| *c));
}

#[test]
fn food_may_reappear_inside_the_snake() {
    let mut state = GameState::with_food(pos(8, 10));
    state.update_with_food(125, pos(7, 10));
    assert_eq!(state.food.pos, pos(7, 10));
    assert_eq!(cells(&state), vec![(7, 10), (6, 10)]);
    assert!(!state.gameover);
}

#[test]
fn reverse_of_the_heading_is_ignored() {
    let mut state = GameState::with_food(pos(20, 5));
    state.key_down_event(KeyCode::Left);
    assert_eq!(state.snake.dir, Direction::Right);
    assert_eq!(state.snake.next_dir, None);
    state.update(125);
    assert_eq!(state.snake.head.pos, pos(8, 10));
    assert!(!state.gameover);
}

#[test]
fn reverse_of_every_heading_is_ignored() {
    let turns = [
        (KeyCode::Up, Direction::Up, KeyCode::Down),
        (KeyCode::Left, Direction::Left, KeyCode::Right),
        (KeyCode::Down, Direction::Down, KeyCode::Up),
        (KeyCode::Right, Direction::Right, KeyCode::Left),
    ];
    let mut state = GameState::with_food(pos(20, 5));
    let mut now: u64 = 0;
    for (turn, heading, reverse) in turns.iter() {
        state.key_down_event(*turn);
        now += 125;
        state.update(now);
        assert_eq!(state.snake.dir, *heading);
        assert_eq!(state.snake.last_update_dir, *heading);
        state.key_down_event(*reverse);
        assert_eq!(state.snake.dir, *heading);
        assert_eq!(state.snake.next_dir, None);
    }
}

#[test]
fn turn_is_taken_at_once_when_none_is_pending() {
    let mut state = GameState::with_food(pos(20, 5));
    state.key_down_event(KeyCode::Up);
    assert_eq!(state.snake.dir, Direction::Up);
    assert_eq!(state.snake.next_dir, None);
    assert_eq!(state.snake.last_update_dir, Direction::Right);
    state.update(125);
    assert_eq!(state.snake.head.pos, pos(7, 9));
}

#[test]
fn second_turn_is_buffered() {
    let mut state = GameState::with_food(pos(20, 5));
    state.key_down_event(KeyCode::Up);
    state.key_down_event(KeyCode::Left);
    assert_eq!(state.snake.dir, Direction::Up);
    assert_eq!(state.snake.next_dir, Some(Direction::Left));
    state.update(125);
    assert_eq!(state.snake.head.pos, pos(7, 9));
    assert_eq!(state.snake.next_dir, Some(Direction::Left));
    state.update(250);
    assert_eq!(state.snake.head.pos, pos(6, 9));
    assert_eq!(state.snake.dir, Direction::Left);
    assert_eq!(state.snake.next_dir, None);
    assert!(!state.gameover);
}

#[test]
fn third_turn_overwrites_the_buffer() {
    let mut state = GameState::with_food(pos(20, 5));
    state.key_down_event(KeyCode::Up);
    state.key_down_event(KeyCode::Left);
    state.key_down_event(KeyCode::Right);
    assert_eq!(state.snake.dir, Direction::Up);
    assert_eq!(state.snake.next_dir, Some(Direction::Right));
}

#[test]
fn reverse_of_the_pending_turn_is_not_buffered() {
    let mut state = GameState::with_food(pos(20, 5));
    state.key_down_event(KeyCode::Up);
    state.key_down_event(KeyCode::Down);
    assert_eq!(state.snake.next_dir, None);
    // It replaces the pending turn instead, being no reverse of the travelled direction.
    assert_eq!(state.snake.dir, Direction::Down);
}

#[test]
fn pending_turn_can_be_taken_back() {
    let mut state = GameState::with_food(pos(20, 5));
    state.key_down_event(KeyCode::Up);
    state.key_down_event(KeyCode::Right);
    assert_eq!(state.snake.dir, Direction::Up);
    assert_eq!(state.snake.next_dir, Some(Direction::Right));
}

#[test]
fn other_keys_change_nothing_while_the_game_is_on() {
    let mut state = GameState::with_food(pos(20, 5));
    state.key_down_event(KeyCode::Up);
    state.key_down_event(KeyCode::Other);
    assert_eq!(state.snake.dir, Direction::Up);
    assert_eq!(state.snake.next_dir, None);
    assert_eq!(state.snake.head.pos, pos(7, 10));
    assert_eq!(state.food.pos, pos(20, 5));
    assert!(!state.gameover);
}

#[test]
fn running_into_itself_ends_the_game() {
    let mut state = long_snake();
    state.key_down_event(KeyCode::Down);
    state.update(500);
    assert_eq!(state.snake.head.pos, pos(10, 11));
    state.key_down_event(KeyCode::Left);
    state.update(625);
    assert_eq!(state.snake.head.pos, pos(9, 11));
    assert!(!state.gameover);
    state.key_down_event(KeyCode::Up);
    state.update(750);
    assert_eq!(state.snake.head.pos, pos(9, 10));
    assert_eq!(state.snake.ate, Some(Ate::Itself));
    assert!(state.gameover);
    assert_eq!(cells(&state), vec![(9, 11), (10, 11), (10, 10), (9, 10), (8, 10)]);
    assert_eq!(state.last_update, 750);
}

#[test]
fn collision_beats_food_on_the_same_cell() {
    let mut state = long_snake();
    state.key_down_event(KeyCode::Down);
    state.update(500);
    state.key_down_event(KeyCode::Left);
    state.update(625);
    state.key_down_event(KeyCode::Up);
    state.food = Food::new(pos(9, 10));
    state.update_with_food(750, pos(1, 1));
    assert_eq!(state.snake.ate, Some(Ate::Itself));
    assert!(state.gameover);
    assert_eq!(state.food.pos, pos(9, 10));
}

#[test]
fn updates_after_game_over_change_neither_snake_nor_food() {
    let mut state = finished_game();
    let head = state.snake.head.pos;
    let body = cells(&state);
    let food = state.food.pos;
    let dir = state.snake.dir;
    for round in 1..=20u64 {
        state.update(750 + round * 125);
        assert!(state.gameover);
        assert_eq!(state.snake.head.pos, head);
        assert_eq!(cells(&state), body);
        assert_eq!(state.food.pos, food);
        assert_eq!(state.snake.dir, dir);
        assert_eq!(state.snake.ate, Some(Ate::Itself));
        assert_eq!(state.last_update, 750 + round * 125);
    }
    state.update_with_food(10_000, pos(2, 2));
    assert_eq!(state.food.pos, food);
    assert_eq!(cells(&state), body);
}

#[test]
fn arrow_key_after_game_over_restarts() {
    let mut state = finished_game();
    state.key_down_event(KeyCode::Up);
    assert!(!state.gameover);
    assert_eq!(state.snake.head.pos, pos(7, 10));
    assert_eq!(cells(&state), vec![(6, 10)]);
    assert_eq!(state.snake.dir, Direction::Right);
    assert_eq!(state.snake.last_update_dir, Direction::Right);
    assert_eq!(state.snake.next_dir, None);
    assert_eq!(state.snake.ate, None);
    assert!(on_field(state.food.pos));
    assert_eq!(state.last_update, 750);
}

#[test]
fn any_key_after_game_over_restarts() {
    let mut state = finished_game();
    state.key_down_event_with_food(KeyCode::Other, pos(12, 13));
    assert!(!state.gameover);
    assert_eq!(state.snake.head.pos, pos(7, 10));
    assert_eq!(cells(&state), vec![(6, 10)]);
    assert_eq!(state.snake.dir, Direction::Right);
    assert_eq!(state.food.pos, pos(12, 13));
}

#[test]
fn restart_places_food_on_varying_cells() {
    let mut rows = [false; 20];
    for _ in 0..2000 {
        let mut state = GameState::with_food(pos(0, 0));
        state.gameover = true;
        state.key_down_event(KeyCode::Left);
        assert!(!state.gameover);
        assert!(on_field(state.food.pos));
        rows[state.food.pos.y as usize] = true;
    }
    assert!(rows.iter().all(|r| *r));
}

#[test]
fn game_goes_on_after_a_restart() {
    let mut state = finished_game();
    state.key_down_event_with_food(KeyCode::Down, pos(8, 10));
    // The key that restarted the game did not steer the new snake.
    assert_eq!(state.snake.dir, Direction::Right);
    state.update_with_food(875, pos(0, 0));
    assert_eq!(state.snake.head.pos, pos(8, 10));
    assert_eq!(state.snake.ate, Some(Ate::Food));
    assert_eq!(cells(&state), vec![(7, 10), (6, 10)]);
    assert_eq!(state.food.pos, pos(0, 0));
}

#[test]
fn snake_crosses_the_edge_of_the_field() {
    let mut state = GameState::with_food(pos(20, 5));
    state.key_down_event(KeyCode::Up);
    let mut now: u64 = 0;
    for _ in 0..11 {
        now += 125;
        state.update(now);
    }
    assert_eq!(state.snake.head.pos, pos(7, 19));
    assert_eq!(cells(&state), vec![(7, 0)]);
    assert_eq!(state.snake.body.len(), 1);
    assert_eq!(state.snake.body[0], Segment::new(pos(7, 0)));
}

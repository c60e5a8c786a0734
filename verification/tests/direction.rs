use snake::{Direction, KeyCode};

const ALL: [Direction; 4] = [Direction::Up, Direction::Down, Direction::Left, Direction::Right];

#[test]
fn inverse_pairs_opposite_directions() {
    assert_eq!(Direction::Up.inverse(), Direction::Down);
    assert_eq!(Direction::Down.inverse(), Direction::Up);
    assert_eq!(Direction::Left.inverse(), Direction::Right);
    assert_eq!(Direction::Right.inverse(), Direction::Left);
}

#[test]
fn inverse_twice_is_identity() {
    for d in ALL.iter() {
        assert_eq!(d.inverse().inverse(), *d);
    }
}

#[test]
fn inverse_is_never_the_direction_itself() {
    for d in ALL.iter() {
        assert_ne!(d.inverse(), *d);
    }
}

#[test]
fn arrow_keys_map_to_their_directions() {
    assert_eq!(Direction::from_keycode(KeyCode::Up), Some(Direction::Up));
    assert_eq!(Direction::from_keycode(KeyCode::Down), Some(Direction::Down));
    assert_eq!(Direction::from_keycode(KeyCode::Left), Some(Direction::Left));
    assert_eq!(Direction::from_keycode(KeyCode::Right), Some(Direction::Right));
}

#[test]
fn other_keys_map_to_no_direction() {
    assert_eq!(Direction::from_keycode(KeyCode::Other), None);
}

use snake_game::grid::{Direction, Position};
use snake_game::input::{steer, Key};

const ALL: [Direction; 4] = [Direction::Up, Direction::Down, Direction::Left, Direction::Right];

fn arrow(d: Direction) -> Key {
    match d {
        Direction::Up => Key::Up,
        Direction::Down => Key::Down,
        Direction::Left => Key::Left,
        Direction::Right => Key::Right,
    }
}

fn opposite(d: Direction) -> Direction {
    match d {
        Direction::Up => Direction::Down,
        Direction::Down => Direction::Up,
        Direction::Left => Direction::Right,
        Direction::Right => Direction::Left,
    }
}

#[test]
fn reversal_is_rejected() {
    assert_eq!(steer(Direction::Up, Some(Key::Down)), Direction::Up);
    assert_eq!(steer(Direction::Down, Some(Key::Up)), Direction::Down);
    assert_eq!(steer(Direction::Left, Some(Key::Right)), Direction::Left);
    assert_eq!(steer(Direction::Right, Some(Key::Left)), Direction::Right);
}

#[test]
fn same_direction_is_kept() {
    for d in ALL {
        assert_eq!(steer(d, Some(arrow(d))), d);
    }
}

#[test]
fn perpendicular_turn_is_taken() {
    for d in ALL {
        for wanted in ALL {
            if wanted != d && wanted != opposite(d) {
                assert_eq!(steer(d, Some(arrow(wanted))), wanted);
            }
        }
    }
    assert_eq!(steer(Direction::Right, Some(Key::Up)), Direction::Up);
    assert_eq!(steer(Direction::Right, Some(Key::Down)), Direction::Down);
    assert_eq!(steer(Direction::Up, Some(Key::Left)), Direction::Left);
    assert_eq!(steer(Direction::Down, Some(Key::Right)), Direction::Right);
}

#[test]
fn other_key_and_no_key_change_nothing() {
    for d in ALL {
        assert_eq!(steer(d, Some(Key::Other)), d);
        assert_eq!(steer(d, None), d);
    }
}

#[test]
fn step_moves_one_cell() {
    let p = Position { x: 7, y: 4 };
    assert_eq!(p.step(Direction::Up), Position { x: 7, y: 3 });
    assert_eq!(p.step(Direction::Down), Position { x: 7, y: 5 });
    assert_eq!(p.step(Direction::Left), Position { x: 6, y: 4 });
    assert_eq!(p.step(Direction::Right), Position { x: 8, y: 4 });
}

#[test]
fn step_saturates_at_zero() {
    let p = Position { x: 0, y: 0 };
    assert_eq!(p.step(Direction::Up), Position { x: 0, y: 0 });
    assert_eq!(p.step(Direction::Left), Position { x: 0, y: 0 });
}

#[test]
fn step_saturates_at_the_largest_coordinate() {
    let p = Position { x: u16::MAX, y: u16::MAX };
    assert_eq!(p.step(Direction::Down), Position { x: u16::MAX, y: u16::MAX });
    assert_eq!(p.step(Direction::Right), Position { x: u16::MAX, y: u16::MAX });
}

#[test]
fn positions_compare_by_coordinates() {
    assert_eq!(Position { x: 1, y: 2 }, Position { x: 1, y: 2 });
    assert_ne!(Position { x: 1, y: 2 }, Position { x: 2, y: 1 });
}

use gamename_engine::movement::{resolve, Direction, MoveStates, Speed, Velocity};

fn states(up: bool, down: bool, left: bool, right: bool) -> MoveStates {
    MoveStates { up, down, right, left }
}

fn axis(negative: bool, positive: bool, max: i64, previous: i64) -> i64 {
    match (negative, positive) {
        (true, true) => 0,
        (true, false) => -max,
        (false, true) => max,
        (false, false) => previous,
    }
}

#[test]
fn all_sixteen_combinations_from_rest() {
    let max = Speed { x: 500, y: 300 };
    let rest = Velocity { x: 0, y: 0 };
    for bits in 0u8..16 {
        let (up, down, left, right) = (bits & 1 != 0, bits & 2 != 0, bits & 4 != 0, bits & 8 != 0);
        let v = resolve(&states(up, down, left, right), max, rest);
        let expected = Velocity { x: axis(left, right, 500, 0), y: axis(up, down, 300, 0) };
        assert_eq!(v, expected, "flags up={up} down={down} left={left} right={right}");
    }
}

#[test]
fn all_sixteen_combinations_while_moving() {
    let max = Speed { x: 500, y: 300 };
    let prev = Velocity { x: -500, y: 300 };
    for bits in 0u8..16 {
        let (up, down, left, right) = (bits & 1 != 0, bits & 2 != 0, bits & 4 != 0, bits & 8 != 0);
        let v = resolve(&states(up, down, left, right), max, prev);
        let expected = if bits == 0 {
            Velocity { x: 0, y: 0 }
        } else {
            Velocity { x: axis(left, right, 500, -500), y: axis(up, down, 300, 300) }
        };
        assert_eq!(v, expected, "flags up={up} down={down} left={left} right={right}");
    }
}

#[test]
fn exact_table_values() {
    let max = Speed { x: 500, y: 500 };
    let rest = Velocity { x: 0, y: 0 };
    assert_eq!(resolve(&states(true, false, false, false), max, rest), Velocity { x: 0, y: -500 });
    assert_eq!(resolve(&states(false, true, false, false), max, rest), Velocity { x: 0, y: 500 });
    assert_eq!(resolve(&states(false, false, true, false), max, rest), Velocity { x: -500, y: 0 });
    assert_eq!(resolve(&states(false, false, false, true), max, rest), Velocity { x: 500, y: 0 });
    assert_eq!(resolve(&states(true, false, false, true), max, rest), Velocity { x: 500, y: -500 });
}

#[test]
fn opposite_controls_cancel() {
    let max = Speed { x: 500, y: 500 };
    let prev = Velocity { x: 500, y: -500 };
    let v = resolve(&states(true, true, false, true), max, prev);
    assert_eq!(v.y, 0);
    assert_eq!(v.x, 500);
    let v = resolve(&states(true, false, true, true), max, prev);
    assert_eq!(v.x, 0);
    assert_eq!(v.y, -500);
}

#[test]
fn idle_forces_zero() {
    let max = Speed { x: 500, y: 500 };
    let v = resolve(&MoveStates::new(), max, Velocity { x: -500, y: 500 });
    assert_eq!(v, Velocity { x: 0, y: 0 });
}

#[test]
fn released_axis_keeps_previous_component() {
    let max = Speed { x: 500, y: 500 };
    let v = resolve(&states(true, false, false, false), max, Velocity { x: 500, y: 0 });
    assert_eq!(v, Velocity { x: 500, y: -500 });
}

#[test]
fn press_and_release_toggle_one_flag() {
    let mut s = MoveStates::new();
    assert!(s.is_idle());
    s.press(Direction::Left);
    assert_eq!(s, states(false, false, true, false));
    s.press(Direction::Left);
    assert_eq!(s, states(false, false, true, false));
    s.press(Direction::Up);
    assert_eq!(s, states(true, false, true, false));
    s.release(Direction::Left);
    assert_eq!(s, states(true, false, false, false));
    s.release(Direction::Down);
    assert_eq!(s, states(true, false, false, false));
    s.release(Direction::Up);
    assert!(s.is_idle());
}

#[test]
fn press_order_does_not_matter() {
    let mut a = MoveStates::new();
    a.press(Direction::Up);
    a.press(Direction::Down);
    let mut b = MoveStates::new();
    b.press(Direction::Down);
    b.press(Direction::Up);
    assert_eq!(a, b);
}

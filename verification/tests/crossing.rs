use input_capture::{InputCaptureState, Zone};

type State = InputCaptureState<(i64, i64), u32, u32>;

/// A state with outputs that begin at each of the given columns.
fn state_with_columns(columns: &[i32]) -> State {
    let mut state = State::new();
    let zone = |x: &i32| Zone { width: 1000, height: 400, x: *x, y: 0 };
    state.update_zones(columns.iter().map(zone).collect());
    state
}

/// Where a horizontal movement meets a vertical segment.
fn meet(from: &(i64, i64), to: &(i64, i64), a: (i32, i32), b: (i32, i32)) -> Option<(i64, i64)> {
    let x = a.0 as i64;
    let y = from.1;
    let (low, high) = ((a.1 as i64).min(b.1 as i64), (a.1 as i64).max(b.1 as i64));
    let (left, right) = (from.0.min(to.0), from.0.max(to.0));
    if a.0 == b.0 && from.1 == to.1 && left <= x && x <= right && low <= y && y <= high {
        Some((x, y))
    } else {
        None
    }
}

#[test]
fn only_enabled_sessions_are_crossed() {
    let mut state = state_with_columns(&[10]);
    let (id, _) = state.create_session_as("a", 0);
    state.set_barriers(&id, 2, vec![(5, (10, 0, 10, 100))]).unwrap();
    assert_eq!(state.check_barrier_crossing((0, 50), (20, 50), meet), None);
    state.enable(&id).unwrap();
    assert_eq!(
        state.check_barrier_crossing((0, 50), (20, 50), meet),
        Some((5, id.clone(), (10, 50)))
    );
    assert_eq!(state.check_barrier_crossing((0, 50), (9, 50), meet), None);
    assert_eq!(state.check_barrier_crossing((0, 101), (20, 101), meet), None);
    state.disable(&id).unwrap();
    assert_eq!(state.check_barrier_crossing((0, 50), (20, 50), meet), None);
}

#[test]
fn the_first_barrier_of_a_session_is_taken() {
    let mut state = state_with_columns(&[10, 15]);
    let (id, _) = state.create_session_as("a", 0);
    let requests = vec![
        (1, (10, 200, 10, 300)),
        (2, (15, 0, 15, 100)),
        (3, (10, 0, 10, 100)),
    ];
    state.set_barriers(&id, 2, requests).unwrap();
    state.enable(&id).unwrap();
    assert_eq!(
        state.check_barrier_crossing((0, 50), (20, 50), meet),
        Some((2, id, (15, 50)))
    );
}

#[test]
fn every_enabled_session_is_searched() {
    let mut state = state_with_columns(&[10, 11, 12]);
    let (first, _) = state.create_session_as("a", 0);
    let (second, _) = state.create_session_as("b", 0);
    let (third, _) = state.create_session_as("c", 0);
    state.set_barriers(&first, 2, vec![(1, (10, 0, 10, 100))]).unwrap();
    state.set_barriers(&second, 2, vec![(2, (11, 0, 11, 100))]).unwrap();
    state.set_barriers(&third, 2, vec![(3, (12, 0, 12, 100))]).unwrap();
    state.enable(&third).unwrap();
    assert_eq!(
        state.check_barrier_crossing((0, 50), (20, 50), meet),
        Some((3, third.clone(), (12, 50)))
    );
    state.close(&third);
    state.enable(&second).unwrap();
    assert_eq!(
        state.check_barrier_crossing((0, 50), (20, 50), meet),
        Some((2, second, (11, 50)))
    );
}

#[test]
fn the_ends_of_the_barrier_are_handed_on_in_order() {
    let mut state = state_with_columns(&[1]);
    let (id, _) = state.create_session_as("a", 0);
    state.set_barriers(&id, 2, vec![(1, (1, 2, 1, 4))]).unwrap();
    state.enable(&id).unwrap();
    let found = state.check_barrier_crossing((7, 8), (9, 10), |from, to, a, b| {
        assert_eq!((*from, *to, a, b), ((7, 8), (9, 10), (1, 2), (1, 4)));
        Some((0, 0))
    });
    assert_eq!(found, Some((1, id, (0, 0))));
}

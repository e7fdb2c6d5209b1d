use input_capture::{
    connect_to_eis, CaptureError, CaptureSessionState, InputCaptureEvent, InputCaptureState, Zone,
};

type State = InputCaptureState<(f64, f64), u32, &'static str>;

fn state_with(unique: &str) -> (State, String) {
    let mut state = State::new();
    let (id, _) = state.create_session_as(unique, 3);
    (state, id)
}

/// One output of the usual size.
fn screen() -> Vec<Zone> {
    vec![Zone { width: 1920, height: 1080, x: 0, y: 0 }]
}

fn session_state(state: &State, id: &str) -> Option<CaptureSessionState> {
    state.sessions.get(&id.to_string()).map(|session| session.state)
}

#[test]
fn default_and_new_differ_in_the_zone_set() {
    let state: State = Default::default();
    assert_eq!(state.zone_set, 0);
    assert_eq!(state.sessions.len(), 0);
    assert!(state.active_session.is_none());
    assert!(state.zones.is_empty());
    assert_eq!(state.next_activation_id, 0);
    assert!(state.signal_tx.is_none());
    let state = State::new();
    assert_eq!(state.zone_set, 1);
    assert_eq!(state.sessions.len(), 0);
}

#[test]
fn a_session_is_created_with_the_current_zone_set() {
    let mut state = State::new();
    state.update_zones(vec![Zone { width: 1920, height: 1080, x: 0, y: 0 }]);
    let (id, event) = state.create_session_as("1f", 7);
    assert_eq!(id, "input_capture_1f");
    match event {
        InputCaptureEvent::SessionCreated { session_id, capabilities } => {
            assert_eq!(session_id, id);
            assert_eq!(capabilities, 7);
        }
        other => panic!("{:?}", other),
    }
    let session = state.sessions.get(&id).unwrap();
    assert_eq!(session.state, CaptureSessionState::Created);
    assert_eq!(session.capabilities, 7);
    assert!(session.barriers.is_empty());
    assert_eq!(session.zone_set, 2);
    assert_eq!(session.activation_id, 0);
    assert!(session.eis_fd.is_none());
    assert!(session.eis_connection.is_none());
}

#[test]
fn a_session_from_the_clock_has_a_hexadecimal_identifier() {
    let mut state = State::new();
    let (id, event) = state.create_session(1);
    let unique = id.strip_prefix("input_capture_").unwrap();
    // No test runs in the first second after the epoch.
    assert!(u128::from_str_radix(unique, 16).unwrap() > 1_000_000_000);
    assert!(state.sessions.get(&id).is_some());
    match event {
        InputCaptureEvent::SessionCreated { session_id, capabilities } => {
            assert_eq!(session_id, id);
            assert_eq!(capabilities, 1);
        }
        other => panic!("{:?}", other),
    }
}

#[test]
fn zones_are_reported_to_anyone() {
    let mut state = State::new();
    assert_eq!(state.get_zones("nobody"), (1, vec![]));
    state.update_zones(vec![
        Zone { width: 1920, height: 1080, x: 0, y: 0 },
        Zone { width: 800, height: 600, x: 1920, y: -20 },
    ]);
    assert_eq!(
        state.get_zones("nobody"),
        (2, vec![(1920, 1080, 0, 0), (800, 600, 1920, -20)])
    );
}

#[test]
fn barriers_are_parted_into_set_and_failed() {
    let (mut state, id) = state_with("a");
    state.update_zones(screen());
    let requests = vec![
        (1, (0, 0, 0, 1079)),
        (2, (0, 0, 10, 10)),
        (3, (5, 5, 5, 5)),
        (4, (0, 0, 1919, 0)),
        (2, (1920, 9, 1920, 0)),
        (5, (3, 9, 3, 0)),
    ];
    let (failed, event) = state.set_barriers(&id, 2, requests).unwrap();
    assert_eq!(failed, vec![2, 3, 5]);
    match event {
        InputCaptureEvent::BarriersSet { session_id, barriers, zone_set } => {
            assert_eq!(session_id, id);
            assert_eq!(zone_set, 2);
            let ids: Vec<u32> = barriers.iter().map(|b| b.id).collect();
            assert_eq!(ids, vec![1, 4, 2]);
        }
        other => panic!("{:?}", other),
    }
    let session = state.sessions.get(&id).unwrap();
    assert_eq!(session.barriers.len(), 3);
    let last = &session.barriers[2];
    assert_eq!((last.id, last.x1, last.y1, last.x2, last.y2), (2, 1920, 9, 1920, 0));
    // A second request replaces what the first one set.
    let (failed, _) = state.set_barriers(&id, 2, vec![]).unwrap();
    assert!(failed.is_empty());
    assert!(state.sessions.get(&id).unwrap().barriers.is_empty());
}

#[test]
fn barriers_for_other_zones_are_refused_first_of_all() {
    let (mut state, id) = state_with("a");
    let error = state.set_barriers("nobody", 2, vec![]).unwrap_err();
    assert!(matches!(error, CaptureError::ZoneSetMismatch));
    assert_eq!(error.message(), "Zone set mismatch");
    let error = state.set_barriers("nobody", 1, vec![]).unwrap_err();
    assert!(matches!(error, CaptureError::SessionNotFound));
    state.update_zones(screen());
    assert!(state.set_barriers(&id, 1, vec![(1, (0, 0, 0, 9))]).is_err());
    assert!(state.sessions.get(&id).unwrap().barriers.is_empty());
    let (failed, _) = state.set_barriers(&id, 2, vec![(1, (0, 0, 0, 9))]).unwrap();
    assert!(failed.is_empty());
    assert_eq!(state.sessions.get(&id).unwrap().zone_set, 2);
}

#[test]
fn a_session_is_enabled_once() {
    let (mut state, id) = state_with("a");
    match state.enable(&id).unwrap() {
        InputCaptureEvent::Enabled { session_id } => assert_eq!(session_id, id),
        other => panic!("{:?}", other),
    }
    assert_eq!(session_state(&state, &id), Some(CaptureSessionState::Enabled));
    let error = state.enable(&id).unwrap_err();
    assert_eq!(error.message(), "Invalid state for Enable: Enabled");
    state.sessions.get_mut(&id).unwrap().state = CaptureSessionState::Activated;
    let error = state.enable(&id).unwrap_err();
    assert_eq!(error.message(), "Invalid state for Enable: Activated");
    assert_eq!(session_state(&state, &id), Some(CaptureSessionState::Activated));
}

#[test]
fn states_are_named_as_they_are_shown() {
    for state in [
        CaptureSessionState::Created,
        CaptureSessionState::Disabled,
        CaptureSessionState::Enabled,
        CaptureSessionState::Activated,
    ] {
        assert_eq!(state.name(), format!("{:?}", state));
    }
    assert_eq!(CaptureSessionState::Created.name(), "Created");
    assert_eq!(CaptureSessionState::Disabled.name(), "Disabled");
}

#[test]
fn requests_keep_to_their_own_session() {
    let (mut state, first) = state_with("a");
    state.update_zones(screen());
    let (second, _) = state.create_session_as("b", 4);
    state.set_barriers(&first, 2, vec![(1, (0, 0, 0, 9))]).unwrap();
    state.enable(&first).unwrap();
    state.set_barriers(&second, 2, vec![(2, (0, 0, 9, 0)), (3, (0, 0, 8, 0))]).unwrap();
    state.disable(&second).unwrap();
    let session = state.sessions.get(&first).unwrap();
    assert_eq!(session.state, CaptureSessionState::Enabled);
    assert_eq!(session.barriers.len(), 1);
    assert_eq!(session.barriers[0].id, 1);
    // Disabling keeps the barriers.
    assert_eq!(state.sessions.get(&second).unwrap().barriers.len(), 2);
    assert_eq!(state.zone_set, 2);
}

#[test]
fn a_disabled_session_can_be_enabled_again() {
    let (mut state, id) = state_with("a");
    state.enable(&id).unwrap();
    for _ in 0..2 {
        match state.disable(&id).unwrap() {
            InputCaptureEvent::Disabled { session_id } => assert_eq!(session_id, id),
            other => panic!("{:?}", other),
        }
        assert_eq!(session_state(&state, &id), Some(CaptureSessionState::Disabled));
    }
    assert!(state.enable(&id).is_ok());
}

#[test]
fn disabling_leaves_the_active_session() {
    let (mut state, id) = state_with("a");
    state.active_session = Some(id.clone());
    state.disable(&id).unwrap();
    assert_eq!(state.active_session, Some(id));
}

#[test]
fn release_ends_the_activation_of_its_own_session() {
    let (mut state, first) = state_with("a");
    let (second, _) = state.create_session_as("b", 3);
    state.active_session = Some(first.clone());
    state.sessions.get_mut(&first).unwrap().state = CaptureSessionState::Activated;
    state.release(&second, 4, (1.0, 2.0)).unwrap();
    assert_eq!(state.active_session, Some(first.clone()));
    assert_eq!(session_state(&state, &first), Some(CaptureSessionState::Activated));
    match state.release(&first, 5, (3.5, -1.0)).unwrap() {
        InputCaptureEvent::Released { session_id, activation_id, cursor_position } => {
            assert_eq!(session_id, first);
            assert_eq!(activation_id, 5);
            assert_eq!(cursor_position, Some((3.5, -1.0)));
        }
        other => panic!("{:?}", other),
    }
    assert_eq!(state.active_session, None);
    assert_eq!(session_state(&state, &first), Some(CaptureSessionState::Disabled));
}

#[test]
fn a_closed_session_is_not_found() {
    let (mut state, first) = state_with("a");
    let (second, _) = state.create_session_as("b", 4);
    state.active_session = Some(first.clone());
    match state.close(&first) {
        InputCaptureEvent::SessionClosed { session_id } => assert_eq!(session_id, first),
        other => panic!("{:?}", other),
    }
    assert_eq!(state.active_session, None);
    assert_eq!(state.sessions.len(), 1);
    assert_eq!(state.sessions.get(&second).unwrap().capabilities, 4);
    assert_eq!(state.enable(&first).unwrap_err().message(), "Session not found");
    assert!(matches!(state.disable(&first), Err(CaptureError::SessionNotFound)));
    assert!(matches!(state.release(&first, 0, (0.0, 0.0)), Err(CaptureError::SessionNotFound)));
    // Closing again is answered in the same way.
    assert!(matches!(state.close(&first), InputCaptureEvent::SessionClosed { .. }));
    assert_eq!(state.sessions.len(), 1);
}

#[test]
fn closing_a_created_session_restores_the_table() {
    let (mut state, first) = state_with("a");
    let (second, _) = state.create_session_as("b", 4);
    state.close(&second);
    assert_eq!(state.sessions.len(), 1);
    assert_eq!(state.sessions.entry(0).0, &first);
}

#[test]
fn creating_under_a_known_identifier_replaces_the_session() {
    let (mut state, id) = state_with("a");
    state.enable(&id).unwrap();
    let (again, _) = state.create_session_as("a", 9);
    assert_eq!(again, id);
    assert_eq!(state.sessions.len(), 1);
    assert_eq!(session_state(&state, &id), Some(CaptureSessionState::Created));
    assert_eq!(state.sessions.get(&id).unwrap().capabilities, 9);
}

#[test]
fn a_pair_of_sockets_is_shared_out() {
    let reply = connect_to_eis::<(f64, f64), u32>("s", Ok((10, 20)));
    let (client, event) = reply.unwrap();
    assert_eq!(client, 10);
    match event {
        InputCaptureEvent::ConnectEIS { session_id, server_fd } => {
            assert_eq!(session_id, "s");
            assert_eq!(server_fd, 20);
        }
        other => panic!("{:?}", other),
    }
    let reply = connect_to_eis::<(f64, f64), u32>("s", Err("too many files".to_string()));
    assert_eq!(reply.unwrap_err().message(), "socketpair failed: too many files");
}

#[test]
fn outdated_barriers_stay_refused() {
    let (mut state, id) = state_with("a");
    state.update_zones(vec![]);
    state.enable(&id).unwrap();
    let (second, _) = state.create_session_as("b", 4);
    state.update_zones(vec![Zone { width: 10, height: 10, x: 0, y: 0 }]);
    state.close(&second);
    assert_eq!(state.zone_set, 3);
    for outdated in [1, 2] {
        let error = state.set_barriers(&id, outdated, vec![]).unwrap_err();
        assert!(matches!(error, CaptureError::ZoneSetMismatch));
    }
    assert!(state.set_barriers(&id, 3, vec![]).is_ok());
}

#[test]
fn a_session_stays_enabled_through_other_requests() {
    let (mut state, id) = state_with("a");
    state.update_zones(screen());
    state.enable(&id).unwrap();
    let (second, _) = state.create_session_as("b", 4);
    state.set_barriers(&id, 2, vec![(1, (0, 0, 0, 9))]).unwrap();
    state.release(&second, 0, (0.0, 0.0)).unwrap();
    state.close(&second);
    state.update_zones(vec![]);
    assert_eq!(
        state.enable(&id).unwrap_err().message(),
        "Invalid state for Enable: Enabled"
    );
    state.disable(&id).unwrap();
    assert_eq!(state.sessions.get(&id).unwrap().barriers.len(), 1);
    assert!(state.enable(&id).is_ok());
}

#[test]
fn closing_a_session_whose_identifier_is_held_to_be_active_ends_that() {
    let mut state = State::new();
    state.active_session = Some("input_capture_a".to_string());
    let (id, _) = state.create_session_as("a", 0);
    state.close(&id);
    assert_eq!(state.active_session, None);
}

#[test]
fn without_zones_every_barrier_fails() {
    let (mut state, id) = state_with("a");
    let (failed, _) = state.set_barriers(&id, 1, vec![(7, (0, 0, 0, 9))]).unwrap();
    assert_eq!(failed, vec![7]);
    assert!(state.sessions.get(&id).unwrap().barriers.is_empty());
}

#[test]
fn barriers_are_placed_on_the_edges_of_outputs() {
    let (mut state, id) = state_with("a");
    state.update_zones(vec![
        Zone { width: 100, height: 50, x: 0, y: 0 },
        Zone { width: 20, height: 30, x: -20, y: 10 },
    ]);
    let placed = vec![
        (1, (0, 0, 0, 50)),
        (2, (100, 50, 100, 0)),
        (3, (0, 0, 100, 0)),
        (4, (40, 50, 10, 50)),
        (5, (-20, 10, -20, 40)),
        (6, (-20, 40, 0, 40)),
    ];
    let (failed, _) = state.set_barriers(&id, 2, placed).unwrap();
    assert!(failed.is_empty());
    assert_eq!(state.sessions.get(&id).unwrap().barriers.len(), 6);
    let missed = vec![
        (1, (0, 0, 0, 51)),
        (2, (0, -1, 0, 50)),
        (3, (99, 0, 99, 50)),
        (4, (101, 0, 101, 50)),
        (5, (0, 49, 100, 49)),
        (6, (-20, 9, -20, 40)),
        // Reaches beyond the edge that it lies along.
        (7, (-20, 50, 100, 50)),
    ];
    let (failed, _) = state.set_barriers(&id, 2, missed).unwrap();
    assert_eq!(failed, vec![1, 2, 3, 4, 5, 6, 7]);
    assert!(state.sessions.get(&id).unwrap().barriers.is_empty());
}

#[test]
fn the_far_edge_of_a_huge_output_is_out_of_reach() {
    let (mut state, id) = state_with("a");
    state.update_zones(vec![Zone { width: u32::MAX, height: u32::MAX, x: i32::MAX, y: i32::MIN }]);
    let requests = vec![
        (1, (i32::MAX, i32::MIN, i32::MAX, i32::MAX)),
        (2, (i32::MIN, i32::MIN, i32::MIN, i32::MAX)),
        (3, (0, i32::MIN, i32::MAX, i32::MIN)),
    ];
    let (failed, _) = state.set_barriers(&id, 2, requests).unwrap();
    assert_eq!(failed, vec![2, 3]);
}

use input_capture::{InputCaptureState, PumpStep, SignalDelivery, SignalEvent};
use std::sync::mpsc;

type State = InputCaptureState<(f64, f64), u32, u32>;

fn zones_changed(zone_set: u32) -> SignalEvent<(f64, f64)> {
    SignalEvent::ZonesChanged { zone_set }
}

#[test]
fn a_signal_reaches_the_channel() {
    let (tx, rx) = mpsc::channel();
    let mut state = State::new();
    state.signal_tx = Some(tx);
    let event = SignalEvent::Activated {
        session_id: "s".to_string(),
        barrier_id: 1,
        activation_id: 2,
        cursor_position: (3.0, 4.5),
    };
    assert!(matches!(state.emit_signal(event), SignalDelivery::Queued(_)));
    match rx.recv().unwrap() {
        SignalEvent::Activated { session_id, barrier_id, activation_id, cursor_position } => {
            assert_eq!(session_id, "s");
            assert_eq!((barrier_id, activation_id), (1, 2));
            assert_eq!(cursor_position, (3.0, 4.5));
        }
        other => panic!("{:?}", other),
    }
}

#[test]
fn a_signal_that_nobody_receives_comes_back() {
    let (tx, rx) = mpsc::channel();
    let mut state = State::new();
    state.signal_tx = Some(tx);
    drop(rx);
    match state.emit_signal(zones_changed(8)) {
        SignalDelivery::Disconnected(refusal) => match refusal.into_event() {
            SignalEvent::ZonesChanged { zone_set } => assert_eq!(zone_set, 8),
            other => panic!("{:?}", other),
        },
        _ => panic!("the event did not come back"),
    }
}

#[test]
fn without_a_channel_a_signal_comes_back() {
    let state = State::new();
    match state.emit_signal(zones_changed(9)) {
        SignalDelivery::NoChannel(SignalEvent::ZonesChanged { zone_set }) => {
            assert_eq!(zone_set, 9)
        }
        _ => panic!("the event did not come back"),
    }
}

/// Runs the service over the events in a channel, of which those with an odd number find their
/// interface, and returns the numbers that were emitted.
fn pump(numbers: Vec<u32>) -> Vec<u32> {
    let mut waiting = numbers.into_iter();
    let mut emitted = vec![];
    let mut step: PumpStep<(f64, f64)> = PumpStep::Receive;
    loop {
        step = match step {
            PumpStep::Receive => PumpStep::received(waiting.next().map(zones_changed)),
            PumpStep::Resolve(SignalEvent::ZonesChanged { zone_set }) => {
                PumpStep::resolved(zones_changed(zone_set), zone_set % 2 == 1)
            }
            PumpStep::Emit(SignalEvent::ZonesChanged { zone_set }) => {
                emitted.push(zone_set);
                PumpStep::emitted(zone_set != 5)
            }
            PumpStep::Stop => return emitted,
            other => panic!("{:?}", other),
        }
    }
}

#[test]
fn signals_are_emitted_in_order_until_the_channel_closes() {
    assert_eq!(pump(vec![]), Vec::<u32>::new());
    assert_eq!(pump(vec![7, 4, 5, 5, 2, 1]), vec![7, 5, 5, 1]);
}

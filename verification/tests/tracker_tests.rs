use hms2mqtt::inverter::Inverter;
use hms2mqtt::inverter::Mode;
use hms2mqtt::inverter::NetworkState;

#[test]
fn tracker_emits_a_transition_only_on_change() {
    // the outcome sequence Ok, Ok, Err, Err, Ok emits exactly three
    // transitions: Unknown to Online, Online to Offline, Offline to Online
    let mut inv = Inverter::new(Mode::Exclusive);
    assert_eq!(inv.state(), NetworkState::Unknown);
    let outcomes = [true, true, false, false, true];
    let mut transitions: Vec<NetworkState> = Vec::new();
    for ok in outcomes {
        if let Some(t) = inv.update(ok) {
            transitions.push(t);
        }
    }
    assert_eq!(
        transitions,
        vec![NetworkState::Online, NetworkState::Offline, NetworkState::Online]
    );
}

#[test]
fn tracker_never_returns_to_unknown() {
    let mut inv = Inverter::new(Mode::Cooperative);
    inv.update(true);
    assert_eq!(inv.state(), NetworkState::Online);
    inv.update(false);
    assert_eq!(inv.state(), NetworkState::Offline);
    inv.update(true);
    assert_eq!(inv.state(), NetworkState::Online);
}

#[test]
fn sequence_counter_wraps_silently() {
    let mut inv = Inverter::new(Mode::Exclusive);
    assert_eq!(inv.next_sequence(), 1);
    assert_eq!(inv.next_sequence(), 2);
    for _ in 2..65535u32 {
        inv.next_sequence();
    }
    assert_eq!(inv.next_sequence(), 0);
    assert_eq!(inv.next_sequence(), 1);
}

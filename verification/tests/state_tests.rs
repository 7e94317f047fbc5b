use goobie_mysql::state::{AtomicState, State};

#[test]
fn state_codes_are_fixed() {
    assert_eq!(State::Connected.code(), 0);
    assert_eq!(State::Connecting.code(), 1);
    assert_eq!(State::NotConnected.code(), 2);
    assert_eq!(State::Disconnected.code(), 3);
}

#[test]
fn state_try_from_round_trips() {
    assert_eq!(State::try_from(0).unwrap(), State::Connected);
    assert_eq!(State::try_from(1).unwrap(), State::Connecting);
    assert_eq!(State::try_from(2).unwrap(), State::NotConnected);
    assert_eq!(State::try_from(3).unwrap(), State::Disconnected);
}

#[test]
fn state_try_from_rejects_bad_codes() {
    let err = State::try_from(4).unwrap_err();
    assert_eq!(err, "Invalid state value: 4");
    let err = State::try_from(12345).unwrap_err();
    assert_eq!(err, "Invalid state value: 12345");
}

#[test]
fn state_names() {
    assert_eq!(State::Connected.name(), "Connected");
    assert_eq!(State::Connecting.name(), "Connecting");
    assert_eq!(State::NotConnected.name(), "Not Connected");
    assert_eq!(State::Disconnected.name(), "Disconnected");
}

#[test]
fn state_host_names() {
    assert_eq!(State::Connected.host_name(), "CONNECTED");
    assert_eq!(State::Connecting.host_name(), "CONNECTING");
    assert_eq!(State::NotConnected.host_name(), "NOT_CONNECTED");
    assert_eq!(State::Disconnected.host_name(), "DISCONNECTED");
}

#[test]
fn all_states_in_code_order() {
    let all = State::all();
    assert_eq!(all.len(), 4);
    for (i, s) in all.iter().enumerate() {
        assert_eq!(s.code(), i);
    }
}

#[test]
fn atomic_state_store_load() {
    let mut a = AtomicState::new(State::NotConnected);
    assert_eq!(a.load(), State::NotConnected);
    a.store(State::Connecting);
    assert_eq!(a.load(), State::Connecting);
    a.store(State::Connected);
    assert_eq!(a.load(), State::Connected);
}

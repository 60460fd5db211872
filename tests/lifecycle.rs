use candybar::{BridgeState, ConnectError, RabbitState};

type State = RabbitState<u32, u32, u32>;

#[test]
fn new_controller_is_idle() {
    let s: State = RabbitState::new();
    assert_eq!(s.phase(), BridgeState::Idle);
}

#[test]
fn second_connect_is_refused() {
    let mut s: State = RabbitState::new();
    assert!(s.begin_connect().is_ok());
    assert_eq!(s.phase(), BridgeState::Connecting);
    assert!(matches!(s.begin_connect(), Err(ConnectError::AlreadyConnected)));
    assert_eq!(s.phase(), BridgeState::Connecting);
    s.complete_connect(1, 2, 3);
    assert_eq!(s.phase(), BridgeState::Connected);
    assert!(matches!(s.begin_connect(), Err(ConnectError::AlreadyConnected)));
    assert_eq!(s.phase(), BridgeState::Connected);
}

#[test]
fn disconnect_when_idle_is_a_no_op() {
    let mut s: State = RabbitState::new();
    assert!(s.begin_disconnect().is_none());
    assert_eq!(s.phase(), BridgeState::Idle);
}

#[test]
fn disconnect_hands_back_the_session_resources() {
    let mut s: State = RabbitState::new();
    s.begin_connect().unwrap();
    s.complete_connect(7, 8, 9);
    assert_eq!(s.begin_disconnect(), Some((7, 8, 9)));
    assert_eq!(s.phase(), BridgeState::Disconnecting);
    assert!(s.begin_disconnect().is_none());
    s.finish_disconnect();
    assert_eq!(s.phase(), BridgeState::Idle);
    assert!(s.begin_connect().is_ok());
}

#[test]
fn failed_connect_returns_to_idle() {
    let mut s: State = RabbitState::new();
    s.begin_connect().unwrap();
    s.abandon_connect();
    assert_eq!(s.phase(), BridgeState::Idle);
    assert!(s.begin_connect().is_ok());
}

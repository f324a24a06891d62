use scene_bridge::connection::{Action, Connection, ConnectionState, Event};
use scene_bridge::frame::Frame;
use scene_bridge::listener::{
    Listener, ListenerAction, ListenerEvent, ListenerState, CONFIRMATION_PREFIX,
    DEFAULT_BIND_ADDRESS,
};

#[test]
fn default_address_is_every_interface_on_port_8080() {
    assert_eq!(DEFAULT_BIND_ADDRESS, "0.0.0.0:8080");
    assert_eq!(CONFIRMATION_PREFIX, "Server started on ");
    let listener = Listener::with_default_address();
    assert_eq!(listener.address(), "0.0.0.0:8080");
    assert_eq!(listener.state(), ListenerState::Idle);
}

#[test]
fn new_listener_is_idle() {
    let listener = Listener::new("127.0.0.1:9001".to_string());
    assert_eq!(listener.address(), "127.0.0.1:9001");
    assert_eq!(listener.state(), ListenerState::Idle);
}

#[test]
fn start_is_confirmed_with_the_address() {
    let mut listener = Listener::with_default_address();
    assert_eq!(
        listener.step(ListenerEvent::Bound),
        ListenerAction::Confirm("Server started on 0.0.0.0:8080".to_string())
    );
    assert_eq!(listener.state(), ListenerState::Accepting);
    assert_eq!(listener.address(), "0.0.0.0:8080");

    let mut other = Listener::new("[::1]:4000".to_string());
    assert_eq!(
        other.step(ListenerEvent::Bound),
        ListenerAction::Confirm("Server started on [::1]:4000".to_string())
    );
}

#[test]
fn address_in_use_is_an_error_and_nothing_is_accepted() {
    let mut listener = Listener::with_default_address();
    assert_eq!(
        listener.step(ListenerEvent::BindFailed("Address already in use (os error 98)".to_string())),
        ListenerAction::Refuse("Address already in use (os error 98)".to_string())
    );
    assert_eq!(listener.state(), ListenerState::Idle);
    assert_eq!(listener.step(ListenerEvent::Accepted), ListenerAction::Nothing);
    assert_eq!(listener.step(ListenerEvent::AcceptFailed), ListenerAction::Nothing);
    assert_eq!(listener.state(), ListenerState::Idle);
}

#[test]
fn start_may_succeed_after_one_that_failed() {
    let mut listener = Listener::new("127.0.0.1:9001".to_string());
    assert_eq!(
        listener.step(ListenerEvent::BindFailed("permission denied".to_string())),
        ListenerAction::Refuse("permission denied".to_string())
    );
    assert_eq!(
        listener.step(ListenerEvent::Bound),
        ListenerAction::Confirm("Server started on 127.0.0.1:9001".to_string())
    );
    assert_eq!(listener.state(), ListenerState::Accepting);
}

#[test]
fn every_accepted_connection_gets_a_handler() {
    let mut listener = Listener::with_default_address();
    listener.step(ListenerEvent::Bound);
    for _ in 0..5 {
        assert_eq!(listener.step(ListenerEvent::Accepted), ListenerAction::Spawn);
        assert_eq!(listener.state(), ListenerState::Accepting);
    }
}

#[test]
fn failed_accept_is_passed_over() {
    let mut listener = Listener::with_default_address();
    listener.step(ListenerEvent::Bound);
    assert_eq!(listener.step(ListenerEvent::AcceptFailed), ListenerAction::Nothing);
    assert_eq!(listener.state(), ListenerState::Accepting);
    assert_eq!(listener.step(ListenerEvent::Accepted), ListenerAction::Spawn);
    assert_eq!(listener.step(ListenerEvent::AcceptFailed), ListenerAction::Nothing);
    assert_eq!(listener.step(ListenerEvent::Accepted), ListenerAction::Spawn);
    assert_eq!(listener.state(), ListenerState::Accepting);
}

#[test]
fn binding_reports_mean_nothing_to_a_listener_that_accepts() {
    let mut listener = Listener::with_default_address();
    listener.step(ListenerEvent::Bound);
    assert_eq!(listener.step(ListenerEvent::Bound), ListenerAction::Nothing);
    assert_eq!(
        listener.step(ListenerEvent::BindFailed("Address already in use".to_string())),
        ListenerAction::Nothing
    );
    assert_eq!(listener.state(), ListenerState::Accepting);
    assert_eq!(listener.address(), "0.0.0.0:8080");
}

#[test]
fn abrupt_disconnect_ends_one_handler_and_the_listener_accepts_on() {
    let mut listener = Listener::with_default_address();
    listener.step(ListenerEvent::Bound);

    assert_eq!(listener.step(ListenerEvent::Accepted), ListenerAction::Spawn);
    let mut lost = Connection::new();
    assert_eq!(lost.handle(Event::Upgraded), Action::Continue);
    assert_eq!(lost.handle(Event::ReadFailed), Action::Stop);
    assert_eq!(lost.state(), ConnectionState::Closed);

    assert_eq!(listener.state(), ListenerState::Accepting);
    assert_eq!(listener.step(ListenerEvent::Accepted), ListenerAction::Spawn);
    let mut next = Connection::new();
    assert_eq!(next.state(), ConnectionState::Handshaking);
    assert_eq!(next.handle(Event::Upgraded), Action::Continue);
    match next.handle(Event::Received(Frame::Text(r#"{"action":"cut"}"#.to_string()))) {
        Action::Publish(command) => assert_eq!(command.action(), "cut"),
        other => panic!("expected a command, got {:?}", other),
    }
}

//! The callback listener's start/stop state machine.

use sf_auth_core::listener::{CallbackListener, ListenerState};

#[test]
fn stop_twice_sends_exactly_one_signal() {
    let mut listener = CallbackListener::init("18585".to_string());
    assert!(!listener.stop(), "stopping a down listener sends nothing");

    let was_down = listener.mark_bound();
    assert!(was_down);
    assert_eq!(listener.state, ListenerState::Up);

    assert!(listener.stop(), "the first stop sends the signal");
    assert_eq!(listener.state, ListenerState::Down);
    assert!(!listener.stop(), "the second stop is a no-op");
    assert_eq!(listener.state, ListenerState::Down);
}

#[test]
fn mark_bound_reports_a_listener_already_up() {
    let mut listener = CallbackListener::init("18585".to_string());
    assert!(listener.mark_bound());
    assert!(!listener.mark_bound(), "already running");
    assert!(listener.is_up());
    listener.stop();
    assert!(!listener.is_up());
}

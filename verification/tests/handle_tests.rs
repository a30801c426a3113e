use chat_session::connect::ConnectAttempt;
use chat_session::connect::Connection;
use chat_session::handle::ConnectionSlot;
use chat_session::handle::OutboundMessage;
use chat_session::handle::SendError;

fn live_connection() -> Connection {
    let mut a = ConnectAttempt::begin("203.0.113.5".to_string(), 9000);
    assert!(a.parse_outcome(None).is_none());
    assert!(a.open_outcome(None).is_none());
    assert!(a.configure_outcome(None).is_none());
    a.into_connection()
}

#[test]
fn send_while_not_connected_fails_and_leaves_slot_alone() {
    let mut slot = ConnectionSlot::empty();
    assert!(!slot.is_connected());
    let first = slot.send_input("hello".to_string());
    assert!(matches!(first, Err(SendError::NotConnected)));
    assert!(!slot.is_connected());
    // The same call again: the same error kind, the slot still untouched.
    let second = slot.send_input("hello".to_string());
    assert!(matches!(second, Err(SendError::NotConnected)));
    assert!(!slot.is_connected());
}

#[test]
fn send_while_connected_builds_the_default_formatted_message() {
    let mut slot = ConnectionSlot::empty();
    slot.store(live_connection());
    assert!(slot.is_connected());
    let r = slot.send_input("hello".to_string());
    match r {
        Ok(m) => {
            assert_eq!(m.text, "hello");
            assert!(m.colors.username_color.is_none());
            assert!(m.colors.message_color.is_none());
        },
        Err(_) => panic!("send_input failed with a stored connection"),
    }
    assert!(slot.is_connected());
}

#[test]
fn outbound_message_forwards_text_verbatim() {
    let m = OutboundMessage::new("  spaced  ".to_string());
    assert_eq!(m.text, "  spaced  ");
    assert!(m.colors.username_color.is_none());
    assert!(m.colors.message_color.is_none());
}

#[test]
fn store_replaces_the_previous_connection() {
    let mut slot = ConnectionSlot::empty();
    slot.store(live_connection());
    let mut b = ConnectAttempt::begin("198.51.100.7:70".to_string(), 9000);
    assert!(b.parse_outcome(None).is_none());
    assert!(b.open_outcome(None).is_none());
    assert!(b.configure_outcome(None).is_none());
    slot.store(b.into_connection());
    assert!(slot.is_connected());
    assert_eq!(slot.conn.as_ref().unwrap().peer, "198.51.100.7:70");
}

#[test]
fn disconnect_empties_the_slot_and_later_sends_fail() {
    let mut slot = ConnectionSlot::empty();
    slot.store(live_connection());
    assert!(slot.disconnect().is_ok());
    assert!(!slot.is_connected());
    let r = slot.send_input("hello".to_string());
    assert!(matches!(r, Err(SendError::NotConnected)));
}

#[test]
fn disconnect_without_connection_reports_not_connected() {
    let mut slot = ConnectionSlot::empty();
    let r = slot.disconnect();
    assert!(matches!(r, Err(SendError::NotConnected)));
    assert!(!slot.is_connected());
}

#[test]
fn send_error_messages() {
    assert_eq!(SendError::NotConnected.message(), "Not connected");
    assert_eq!(SendError::LockPoisoned.message(), "Failed to lock stream");
    assert_eq!(SendError::SendFailed("broken pipe".to_string()).message(), "broken pipe");
}

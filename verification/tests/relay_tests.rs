use chat_session::notify::NotificationKind;
use chat_session::notify::UiNotification;
use chat_session::relay::ProtocolEvent;
use chat_session::relay::SessionModeFlags;
use chat_session::relay::handle_client_events;
use chat_session::relay::relay_event;

fn auth_flags() -> SessionModeFlags {
    SessionModeFlags { chat_enabled: false, awaiting_password: false }
}

fn password_flags() -> SessionModeFlags {
    SessionModeFlags { chat_enabled: false, awaiting_password: true }
}

fn chat_flags() -> SessionModeFlags {
    SessionModeFlags { chat_enabled: true, awaiting_password: false }
}

fn assert_username_prompt(n: &UiNotification) {
    assert_eq!(n.kind, NotificationKind::UiControl);
    assert_eq!(n.content, "Enter username:");
    assert_eq!(n.username, None);
    assert_eq!(n.extra.as_deref(), Some("text"));
    assert_eq!(n.state, Some(true));
}

#[test]
fn connected_emits_the_ordered_triple() {
    let (notes, done) = relay_event(ProtocolEvent::Connected("lobby".to_string()), auth_flags());
    assert_eq!(notes.len(), 3);
    assert_eq!(notes[0].kind, NotificationKind::Status);
    assert_eq!(notes[0].content, "");
    assert_eq!(notes[0].extra.as_deref(), Some("lobby"));
    assert_eq!(notes[0].username, None);
    assert_eq!(notes[0].state, None);
    assert_eq!(notes[1].kind, NotificationKind::Info);
    assert_eq!(notes[1].content, "Successfully connected to lobby.\n");
    assert_eq!(notes[1].extra, None);
    assert_username_prompt(&notes[2]);
    assert!(!done);
}

#[test]
fn info_while_awaiting_password_prompts_for_password() {
    let (notes, done) = relay_event(ProtocolEvent::Info("bad login".to_string()), password_flags());
    assert_eq!(notes.len(), 1);
    assert_eq!(notes[0].kind, NotificationKind::UiControl);
    assert_eq!(notes[0].content, "Enter password:");
    assert_eq!(notes[0].extra.as_deref(), Some("password"));
    assert_eq!(notes[0].state, Some(true));
    assert_eq!(notes[0].username, None);
    assert!(!done);
}

#[test]
fn info_while_authenticating_prompts_for_username() {
    let (notes, done) = relay_event(ProtocolEvent::Info("bad login".to_string()), auth_flags());
    assert_eq!(notes.len(), 1);
    assert_username_prompt(&notes[0]);
    assert!(!done);
}

#[test]
fn info_in_chat_mode_enables_input_then_logs() {
    let (notes, done) = relay_event(ProtocolEvent::Info("User joined".to_string()), chat_flags());
    assert_eq!(notes.len(), 2);
    assert_eq!(notes[0].kind, NotificationKind::UiControl);
    assert_eq!(notes[0].content, "chat_input");
    assert_eq!(notes[0].extra, None);
    assert_eq!(notes[0].state, Some(true));
    assert_eq!(notes[1].kind, NotificationKind::Info);
    assert_eq!(notes[1].content, "User joined");
    assert!(!done);
}

#[test]
fn message_in_chat_mode_is_relayed() {
    let event = ProtocolEvent::Message {
        text: Some("hi".to_string()),
        username: Some("bob".to_string()),
    };
    let (notes, done) = relay_event(event, chat_flags());
    assert_eq!(notes.len(), 1);
    assert_eq!(notes[0].kind, NotificationKind::Message);
    assert_eq!(notes[0].content, "hi");
    assert_eq!(notes[0].username.as_deref(), Some("bob"));
    assert_eq!(notes[0].extra, None);
    assert_eq!(notes[0].state, None);
    assert!(!done);
}

#[test]
fn message_without_text_shows_empty_content() {
    let event = ProtocolEvent::Message { text: None, username: Some("bob".to_string()) };
    let (notes, _) = relay_event(event, chat_flags());
    assert_eq!(notes.len(), 1);
    assert_eq!(notes[0].content, "");
    assert_eq!(notes[0].username.as_deref(), Some("bob"));
}

#[test]
fn message_outside_chat_mode_is_dropped() {
    let event = ProtocolEvent::Message {
        text: Some("hi".to_string()),
        username: Some("bob".to_string()),
    };
    let (notes, done) = relay_event(event, password_flags());
    assert!(notes.is_empty());
    assert!(!done);
}

#[test]
fn quit_announces_disconnect_and_stops() {
    let (notes, done) = relay_event(ProtocolEvent::Quit, auth_flags());
    assert_eq!(notes.len(), 1);
    assert_eq!(notes[0].kind, NotificationKind::Error);
    assert_eq!(notes[0].content, "Disconnected.");
    assert_eq!(notes[0].username, None);
    assert_eq!(notes[0].extra, None);
    assert_eq!(notes[0].state, None);
    assert!(done);
}

#[test]
fn unknown_events_are_ignored() {
    let (notes, done) = relay_event(ProtocolEvent::Other, chat_flags());
    assert!(notes.is_empty());
    assert!(!done);
}

#[test]
fn batch_keeps_arrival_order_and_stops_at_quit() {
    let events = vec![
        ProtocolEvent::Connected("lobby".to_string()),
        ProtocolEvent::Info("Login successful".to_string()),
        ProtocolEvent::Message { text: Some("hi".to_string()), username: Some("bob".to_string()) },
        ProtocolEvent::Quit,
        ProtocolEvent::Info("never seen".to_string()),
    ];
    let flags = vec![auth_flags(), chat_flags(), chat_flags(), chat_flags(), chat_flags()];
    let notes = handle_client_events(events, flags);

    let kinds: Vec<NotificationKind> = notes.iter().map(|n| n.kind).collect();
    assert_eq!(
        kinds,
        vec![
            NotificationKind::Status,
            NotificationKind::Info,
            NotificationKind::UiControl,
            NotificationKind::UiControl,
            NotificationKind::Info,
            NotificationKind::Message,
            NotificationKind::Error,
        ],
    );
    assert_eq!(notes[0].extra.as_deref(), Some("lobby"));
    assert_eq!(notes[1].content, "Successfully connected to lobby.\n");
    assert_eq!(notes[2].content, "Enter username:");
    assert_eq!(notes[3].content, "chat_input");
    assert_eq!(notes[4].content, "Login successful");
    assert_eq!(notes[5].content, "hi");
    assert_eq!(notes[6].content, "Disconnected.");
    // "never seen" was queued behind Quit: nothing of it appears.
    assert!(notes.iter().all(|n| n.content != "never seen"));
}

#[test]
fn channel_close_without_quit_is_silent() {
    let events = vec![
        ProtocolEvent::Connected("lobby".to_string()),
        ProtocolEvent::Info("Login successful".to_string()),
    ];
    let flags = vec![auth_flags(), chat_flags()];
    let notes = handle_client_events(events, flags);
    // The Connected triple, then the chat enable and the log line; the end of
    // the sequence adds nothing, in particular no Error-kind notification.
    assert_eq!(notes.len(), 5);
    assert!(notes.iter().all(|n| n.kind != NotificationKind::Error));
}

#[test]
fn empty_sequence_relays_nothing() {
    let notes = handle_client_events(Vec::new(), Vec::new());
    assert!(notes.is_empty());
}

#[test]
fn flags_are_read_per_event() {
    let events = vec![
        ProtocolEvent::Info("first".to_string()),
        ProtocolEvent::Info("second".to_string()),
    ];
    // The flags change between the two events; each event sees its snapshot.
    let flags = vec![password_flags(), chat_flags()];
    let notes = handle_client_events(events, flags);
    assert_eq!(notes.len(), 3);
    assert_eq!(notes[0].content, "Enter password:");
    assert_eq!(notes[1].content, "chat_input");
    assert_eq!(notes[2].content, "second");
}

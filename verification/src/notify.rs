//! UI notifications: the sole artifact the session core hands to the
//! presentation layer. Each notification carries an unambiguous discriminant,
//! so the presentation layer can dispatch on the kind alone.

use vstd::prelude::*;

verus! {

/// Discriminant of a UI notification. The presentation layer dispatches
/// solely on this value.
#[derive(Clone, Copy, Debug, PartialEq, Eq, Structural)]
pub enum NotificationKind {
    /// Header/status update; the server name travels in `extra`.
    Status,
    /// A line for the log pane.
    Info,
    /// Shows or enables an input element; `extra` names the input mode.
    UiControl,
    /// A chat message; `username` names the author.
    Message,
    /// A fatal session condition, e.g. a disconnect.
    Error,
}

/// Mathematical model of a [`UiNotification`]: the same fields with every
/// string replaced by its character sequence.
#[verifier::ext_equal]
pub struct NoteView {
    pub kind: NotificationKind,
    pub content: Seq<char>,
    pub username: Option<Seq<char>>,
    pub extra: Option<Seq<char>>,
    pub state: Option<bool>,
}

/// One ordered unit of output toward the presentation layer.
#[derive(Debug)]
pub struct UiNotification {
    pub kind: NotificationKind,
    /// Free-text content.
    pub content: String,
    /// Author of a chat message; `None` for every other kind.
    pub username: Option<String>,
    /// Header text or input-mode hint ("text" | "password" | "chat_input").
    pub extra: Option<String>,
    /// Show/enable flag for UI controls.
    pub state: Option<bool>,
}

impl View for UiNotification {
    type V = NoteView;

    open spec fn view(&self) -> NoteView {
        NoteView {
            kind: self.kind,
            content: self.content@,
            username: match self.username {
                Some(u) => Some(u@),
                None => None,
            },
            extra: match self.extra {
                Some(e) => Some(e@),
                None => None,
            },
            state: self.state,
        }
    }
}

/// View of a whole batch of notifications, oldest first.
pub open spec fn notes_view(s: Seq<UiNotification>) -> Seq<NoteView> {
    s.map_values(|n: UiNotification| n@)
}

/// Header update carrying the server's name.
pub open spec fn status_note(server_name: Seq<char>) -> NoteView {
    NoteView {
        kind: NotificationKind::Status,
        content: Seq::empty(),
        username: None,
        extra: Some(server_name),
        state: None,
    }
}

/// Log line confirming the connection.
pub open spec fn connected_info_note(server_name: Seq<char>) -> NoteView {
    NoteView {
        kind: NotificationKind::Info,
        content: "Successfully connected to "@ + server_name + ".\n"@,
        username: None,
        extra: None,
        state: None,
    }
}

/// Prompt for a username in text mode.
pub open spec fn username_prompt_note() -> NoteView {
    NoteView {
        kind: NotificationKind::UiControl,
        content: "Enter username:"@,
        username: None,
        extra: Some("text"@),
        state: Some(true),
    }
}

/// Prompt for a password in masked mode.
pub open spec fn password_prompt_note() -> NoteView {
    NoteView {
        kind: NotificationKind::UiControl,
        content: "Enter password:"@,
        username: None,
        extra: Some("password"@),
        state: Some(true),
    }
}

/// Enables the chat input bar.
pub open spec fn chat_input_note() -> NoteView {
    NoteView {
        kind: NotificationKind::UiControl,
        content: "chat_input"@,
        username: None,
        extra: None,
        state: Some(true),
    }
}

/// Verbatim log line.
pub open spec fn info_note(text: Seq<char>) -> NoteView {
    NoteView {
        kind: NotificationKind::Info,
        content: text,
        username: None,
        extra: None,
        state: None,
    }
}

/// A chat message; an absent text shows as the empty string.
pub open spec fn message_note(text: Option<Seq<char>>, username: Option<Seq<char>>) -> NoteView {
    NoteView {
        kind: NotificationKind::Message,
        content: match text {
            Some(t) => t,
            None => Seq::empty(),
        },
        username: username,
        extra: None,
        state: None,
    }
}

/// The disconnect announcement: the relay's only Error-kind notification.
pub open spec fn disconnect_note() -> NoteView {
    NoteView {
        kind: NotificationKind::Error,
        content: "Disconnected."@,
        username: None,
        extra: None,
        state: None,
    }
}

impl UiNotification {
    /// Builds the header update for a freshly connected server.
    pub fn status(server_name: String) -> (n: Self)
        ensures
            n@ == status_note(server_name@),
    {
        let n = UiNotification {
            kind: NotificationKind::Status,
            content: String::new(),
            username: None,
            extra: Some(server_name),
            state: None,
        };
        n
    }

    /// Builds the log line confirming the connection to `server_name`.
    pub fn connected_info(server_name: String) -> (n: Self)
        ensures
            n@ == connected_info_note(server_name@),
    {
        let mut content = String::new();
        content.append("Successfully connected to ");
        content.append(server_name.as_str());
        content.append(".\n");
        let n = UiNotification {
            kind: NotificationKind::Info,
            content,
            username: None,
            extra: None,
            state: None,
        };
        assert(n@.content =~= connected_info_note(server_name@).content);
        assert(n@ =~= connected_info_note(server_name@));
        n
    }

    /// Builds the username prompt.
    pub fn username_prompt() -> (n: Self)
        ensures
            n@ == username_prompt_note(),
    {
        let n = UiNotification {
            kind: NotificationKind::UiControl,
            content: String::from_str("Enter username:"),
            username: None,
            extra: Some(String::from_str("text")),
            state: Some(true),
        };
        n
    }

    /// Builds the password prompt.
    pub fn password_prompt() -> (n: Self)
        ensures
            n@ == password_prompt_note(),
    {
        let n = UiNotification {
            kind: NotificationKind::UiControl,
            content: String::from_str("Enter password:"),
            username: None,
            extra: Some(String::from_str("password")),
            state: Some(true),
        };
        n
    }

    /// Builds the control that enables the chat input bar.
    pub fn chat_input() -> (n: Self)
        ensures
            n@ == chat_input_note(),
    {
        let n = UiNotification {
            kind: NotificationKind::UiControl,
            content: String::from_str("chat_input"),
            username: None,
            extra: None,
            state: Some(true),
        };
        n
    }

    /// Builds a verbatim log line.
    pub fn info(text: String) -> (n: Self)
        ensures
            n@ == info_note(text@),
    {
        let n = UiNotification {
            kind: NotificationKind::Info,
            content: text,
            username: None,
            extra: None,
            state: None,
        };
        n
    }

    /// Builds a chat message notification.
    pub fn message(text: Option<String>, username: Option<String>) -> (n: Self)
        ensures
            n@ == message_note(
                match text {
                    Some(t) => Some(t@),
                    None => None,
                },
                match username {
                    Some(u) => Some(u@),
                    None => None,
                },
            ),
    {
        let content = match text {
            Some(t) => t,
            None => String::new(),
        };
        let n = UiNotification {
            kind: NotificationKind::Message,
            content,
            username,
            extra: None,
            state: None,
        };
        n
    }

    /// Builds the disconnect announcement.
    pub fn disconnect() -> (n: Self)
        ensures
            n@ == disconnect_note(),
    {
        let n = UiNotification {
            kind: NotificationKind::Error,
            content: String::from_str("Disconnected."),
            username: None,
            extra: None,
            state: None,
        };
        n
    }
}

} // verus!

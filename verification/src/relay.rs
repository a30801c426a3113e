//! The event relay: a state machine that turns each protocol event, read
//! together with the session-mode flags current at that moment, into an
//! ordered batch of UI notifications, and that stops at the first `Quit`.

use vstd::prelude::*;

use crate::notify::NoteView;
use crate::notify::NotificationKind;
use crate::notify::UiNotification;
use crate::notify::chat_input_note;
use crate::notify::connected_info_note;
use crate::notify::disconnect_note;
use crate::notify::info_note;
use crate::notify::message_note;
use crate::notify::notes_view;
use crate::notify::password_prompt_note;
use crate::notify::status_note;
use crate::notify::username_prompt_note;

verus! {

/// A decoded event from the protocol layer, as plain values.
#[derive(Debug)]
pub enum ProtocolEvent {
    /// The server accepted the connection and named itself.
    Connected(String),
    /// A free-text line from the server.
    Info(String),
    /// A chat message; the protocol layer may omit either field.
    Message { text: Option<String>, username: Option<String> },
    /// The server ended the session.
    Quit,
    /// Any variant the relay does not react to.
    Other,
}

/// Mathematical model of a [`ProtocolEvent`].
pub enum EventView {
    Connected(Seq<char>),
    Info(Seq<char>),
    Message { text: Option<Seq<char>>, username: Option<Seq<char>> },
    Quit,
    Other,
}

impl View for ProtocolEvent {
    type V = EventView;

    open spec fn view(&self) -> EventView {
        match self {
            ProtocolEvent::Connected(name) => EventView::Connected(name@),
            ProtocolEvent::Info(text) => EventView::Info(text@),
            ProtocolEvent::Message { text, username } => EventView::Message {
                text: match text {
                    Some(t) => Some(t@),
                    None => None,
                },
                username: match username {
                    Some(u) => Some(u@),
                    None => None,
                },
            },
            ProtocolEvent::Quit => EventView::Quit,
            ProtocolEvent::Other => EventView::Other,
        }
    }
}

/// View of a sequence of events, oldest first.
pub open spec fn events_view(s: Seq<ProtocolEvent>) -> Seq<EventView> {
    s.map_values(|e: ProtocolEvent| e@)
}

/// Snapshot of the externally owned session-mode flags, read once per event.
/// The relay only reads these; the authentication logic outside owns them and
/// may change them between events.
#[derive(Clone, Copy, Debug, PartialEq, Eq, Structural)]
pub struct SessionModeFlags {
    /// Authentication is done; chat input and chat messages are live.
    pub chat_enabled: bool,
    /// Authentication is mid-way: the server asked for a password.
    pub awaiting_password: bool,
}

/// The exact ordered batch of notifications one event produces under the
/// given flag snapshot.
pub open spec fn notes_for_event(e: EventView, flags: SessionModeFlags) -> Seq<NoteView> {
    match e {
        EventView::Connected(name) => seq![
            status_note(name),
            connected_info_note(name),
            username_prompt_note(),
        ],
        EventView::Info(text) => if flags.chat_enabled {
            seq![chat_input_note(), info_note(text)]
        } else if flags.awaiting_password {
            seq![password_prompt_note()]
        } else {
            seq![username_prompt_note()]
        },
        EventView::Message { text, username } => if flags.chat_enabled {
            seq![message_note(text, username)]
        } else {
            Seq::empty()
        },
        EventView::Quit => seq![disconnect_note()],
        EventView::Other => Seq::empty(),
    }
}

/// Whether the event ends the relay loop: `Quit` is the only one.
pub open spec fn ends_relay(e: EventView) -> bool {
    e is Quit
}

/// Everything the relay emits for a finite observed event sequence, with the
/// flag snapshot that was current at each event: the per-event batches in
/// arrival order, cut off after the first `Quit`.
pub open spec fn relay_output(events: Seq<EventView>, flags: Seq<SessionModeFlags>) -> Seq<NoteView>
    decreases events.len(),
{
    if events.len() == 0 {
        Seq::empty()
    } else {
        let head = notes_for_event(events[0], flags[0]);
        if ends_relay(events[0]) {
            head
        } else {
            head + relay_output(events.drop_first(), flags.drop_first())
        }
    }
}

/// Every notification an event other than `Quit` produces has a kind other
/// than `Error`: only `Quit` announces a disconnect.
proof fn lemma_no_error_note_without_quit(e: EventView, flags: SessionModeFlags)
    requires
        !ends_relay(e),
    ensures
        forall|j: int|
            0 <= j < notes_for_event(e, flags).len() ==> (#[trigger] notes_for_event(e, flags)[j]).kind
                != NotificationKind::Error,
{
    let notes = notes_for_event(e, flags);
    assert forall|j: int| 0 <= j < notes.len() implies (#[trigger] notes[j]).kind
        != NotificationKind::Error by {
        match e {
            EventView::Connected(name) => {
                assert(notes[0] == status_note(name));
                assert(notes[1] == connected_info_note(name));
                assert(notes[2] == username_prompt_note());
            },
            EventView::Info(text) => {
                if flags.chat_enabled {
                    assert(notes[0] == chat_input_note());
                    assert(notes[1] == info_note(text));
                }
            },
            EventView::Message { .. } => {},
            EventView::Quit => {},
            EventView::Other => {},
        }
    }
}

/// Law: a channel that closes without a `Quit` closes silently. If no event
/// of the observed sequence is `Quit`, the relay's whole output holds no
/// Error-kind notification — no synthetic disconnect marks the end.
pub proof fn lemma_silent_close_without_quit(events: Seq<EventView>, flags: Seq<SessionModeFlags>)
    requires
        flags.len() == events.len(),
        forall|i: int| 0 <= i < events.len() ==> !ends_relay(#[trigger] events[i]),
    ensures
        forall|j: int|
            0 <= j < relay_output(events, flags).len() ==> (#[trigger] relay_output(events, flags)[j]).kind
                != NotificationKind::Error,
    decreases events.len(),
{
    if events.len() > 0 {
        let head = notes_for_event(events[0], flags[0]);
        let rest = relay_output(events.drop_first(), flags.drop_first());
        lemma_no_error_note_without_quit(events[0], flags[0]);
        assert(forall|i: int|
            0 <= i < events.drop_first().len() ==> !ends_relay(#[trigger] events.drop_first()[i]));
        lemma_silent_close_without_quit(events.drop_first(), flags.drop_first());
        assert(relay_output(events, flags) == head + rest);
        assert forall|j: int| 0 <= j < relay_output(events, flags).len() implies (
        #[trigger] relay_output(events, flags)[j]).kind != NotificationKind::Error by {
            if j < head.len() {
                assert(relay_output(events, flags)[j] == head[j]);
            } else {
                assert(relay_output(events, flags)[j] == rest[j - head.len()]);
            }
        }
    }
}

/// Law: the first `Quit` seals the output. The relay's output over the whole
/// observed sequence equals its output over the prefix ending at the first
/// `Quit`: events queued behind it never contribute a notification.
pub proof fn lemma_quit_seals_output(
    events: Seq<EventView>,
    flags: Seq<SessionModeFlags>,
    i: int,
)
    requires
        flags.len() == events.len(),
        0 <= i < events.len(),
        ends_relay(events[i]),
        forall|j: int| 0 <= j < i ==> !ends_relay(#[trigger] events[j]),
    ensures
        relay_output(events, flags) == relay_output(events.take(i + 1), flags.take(i + 1)),
    decreases i,
{
    let pre = events.take(i + 1);
    let pre_flags = flags.take(i + 1);
    if i == 0 {
        assert(pre[0] == events[0]);
        assert(pre_flags[0] == flags[0]);
    } else {
        lemma_quit_seals_output(events.drop_first(), flags.drop_first(), i - 1);
        assert(pre.drop_first() =~= events.drop_first().take(i));
        assert(pre_flags.drop_first() =~= flags.drop_first().take(i));
        assert(pre[0] == events[0]);
        assert(pre_flags[0] == flags[0]);
        assert(relay_output(events, flags) == notes_for_event(events[0], flags[0]) + relay_output(
            events.drop_first(),
            flags.drop_first(),
        ));
        assert(relay_output(pre, pre_flags) == notes_for_event(events[0], flags[0]) + relay_output(
            events.drop_first().take(i),
            flags.drop_first().take(i),
        ));
    }
}

/// Relays one event: returns the ordered notifications it produces under the
/// given flag snapshot, and whether the relay loop must now stop.
pub fn relay_event(event: ProtocolEvent, flags: SessionModeFlags) -> (r: (Vec<UiNotification>, bool))
    ensures
        notes_view(r.0@) == notes_for_event(event@, flags),
        r.1 == ends_relay(event@),
{
    let ghost e = event@;
    let mut out: Vec<UiNotification> = Vec::new();
    let mut done = false;
    match event {
        ProtocolEvent::Connected(name) => {
            let header = name.clone();
            out.push(UiNotification::status(header));
            out.push(UiNotification::connected_info(name));
            out.push(UiNotification::username_prompt());
        },
        ProtocolEvent::Info(text) => {
            if flags.chat_enabled {
                out.push(UiNotification::chat_input());
                out.push(UiNotification::info(text));
            } else if flags.awaiting_password {
                out.push(UiNotification::password_prompt());
            } else {
                out.push(UiNotification::username_prompt());
            }
        },
        ProtocolEvent::Message { text, username } => {
            if flags.chat_enabled {
                out.push(UiNotification::message(text, username));
            }
        },
        ProtocolEvent::Quit => {
            out.push(UiNotification::disconnect());
            done = true;
        },
        ProtocolEvent::Other => {},
    }
    assert(notes_view(out@) =~= notes_for_event(e, flags));
    (out, done)
}

/// `notes_view` distributes over concatenation.
proof fn lemma_notes_view_concat(a: Seq<UiNotification>, b: Seq<UiNotification>)
    ensures
        notes_view(a + b) == notes_view(a) + notes_view(b),
{
    assert(notes_view(a + b) =~= notes_view(a) + notes_view(b));
}

/// Relays a whole observed event sequence, `flags[i]` being the snapshot of
/// the session-mode flags current when `events[i]` was handled. Emits every
/// batch in arrival order and stops at the first `Quit`; events behind it are
/// never processed. Reaching the end of the sequence (the channel closing
/// without a `Quit`) just stops the loop: no notification marks it.
pub fn handle_client_events(events: Vec<ProtocolEvent>, flags: Vec<SessionModeFlags>) -> (out: Vec<
    UiNotification,
>)
    requires
        flags@.len() == events@.len(),
    ensures
        notes_view(out@) == relay_output(events_view(events@), flags@),
{
    let ghost all_events = events_view(events@);
    let ghost all_flags = flags@;
    let mut events = events;
    let mut flags = flags;
    let mut out: Vec<UiNotification> = Vec::new();
    loop
        invariant_except_break
            flags@.len() == events@.len(),
            relay_output(all_events, all_flags) == notes_view(out@) + relay_output(
                events_view(events@),
                flags@,
            ),
        ensures
            notes_view(out@) == relay_output(all_events, all_flags),
        decreases events@.len(),
    {
        if events.is_empty() {
            proof {
                assert(events_view(events@) =~= Seq::<EventView>::empty());
                assert(relay_output(all_events, all_flags) =~= notes_view(out@));
            }
            break ;
        }
        let ghost pre_events = events_view(events@);
        let ghost pre_flags = flags@;
        let ghost pre_out = out@;
        let event = events.remove(0);
        let flag = flags.remove(0);
        proof {
            assert(events_view(events@) =~= pre_events.drop_first());
            assert(flags@ =~= pre_flags.drop_first());
            assert(pre_events[0] == event@);
            assert(pre_flags[0] == flag);
        }
        let (mut notes, done) = relay_event(event, flag);
        let ghost batch = notes@;
        out.append(&mut notes);
        proof {
            lemma_notes_view_concat(pre_out, batch);
            assert(notes_view(out@) == notes_view(pre_out) + notes_for_event(
                pre_events[0],
                pre_flags[0],
            ));
        }
        if done {
            proof {
                assert(relay_output(pre_events, pre_flags) == notes_for_event(
                    pre_events[0],
                    pre_flags[0],
                ));
                assert(notes_view(out@) == relay_output(all_events, all_flags));
            }
            break ;
        }
        proof {
            assert(relay_output(pre_events, pre_flags) == notes_for_event(
                pre_events[0],
                pre_flags[0],
            ) + relay_output(events_view(events@), flags@));
        }
    }
    out
}

} // verus!

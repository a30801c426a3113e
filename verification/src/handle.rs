//! The shared connection handle and the outbound sender. The handle is a
//! single slot holding at most one live connection; the outbound sender
//! consults it and, when a connection is present, builds the outbound message
//! the protocol layer is to encrypt and write. The lock that makes the slot
//! exclusive between threads lives outside; the slot here is the state the
//! lock guards and the decisions taken under it.

use vstd::prelude::*;

use crate::connect::Connection;

verus! {

/// Optional color attributes of an outbound message. The session core never
/// sets them; the server applies its defaults where they are `None`.
#[derive(Debug)]
pub struct MessageColors {
    pub username_color: Option<String>,
    pub message_color: Option<String>,
}

/// One outbound chat message: the user's text with default (unset) colors.
/// The core forwards the text as it received it; trimming is the caller's
/// concern.
#[derive(Debug)]
pub struct OutboundMessage {
    pub text: String,
    pub colors: MessageColors,
}

impl OutboundMessage {
    /// Builds the message for `text` with default formatting.
    pub fn new(text: String) -> (m: Self)
        ensures
            m.text == text,
            m.colors.username_color is None,
            m.colors.message_color is None,
    {
        OutboundMessage {
            text,
            colors: MessageColors { username_color: None, message_color: None },
        }
    }
}

/// Why an outbound send failed.
#[derive(Debug)]
pub enum SendError {
    /// No connection is stored: nothing to write to.
    NotConnected,
    /// A prior panicking holder corrupted the lock around the slot; the
    /// session must be rebuilt.
    LockPoisoned,
    /// The external encode/write failed, with its cause's text. The
    /// connection is not torn down on this account.
    SendFailed(String),
}

/// The caller-facing error line for each failure.
pub open spec fn send_error_text(e: SendError) -> Seq<char> {
    match e {
        SendError::NotConnected => "Not connected"@,
        SendError::LockPoisoned => "Failed to lock stream"@,
        SendError::SendFailed(detail) => detail@,
    }
}

impl SendError {
    /// Renders the error for the caller, who sees plain strings.
    pub fn message(self) -> (r: String)
        ensures
            r@ == send_error_text(self),
    {
        match self {
            SendError::NotConnected => String::from_str("Not connected"),
            SendError::LockPoisoned => String::from_str("Failed to lock stream"),
            SendError::SendFailed(detail) => detail,
        }
    }
}

/// The single mutually-exclusive slot holding the active connection, or none.
/// At most one connection is live per session.
#[derive(Debug)]
pub struct ConnectionSlot {
    /// The stored connection, if any.
    pub conn: Option<Connection>,
}

impl ConnectionSlot {
    /// A fresh session starts with no connection.
    pub fn empty() -> (s: Self)
        ensures
            s.conn is None,
    {
        ConnectionSlot { conn: None }
    }

    /// Whether a connection is stored.
    pub fn is_connected(&self) -> (r: bool)
        ensures
            r == (self.conn is Some),
    {
        match &self.conn {
            Some(_) => true,
            None => false,
        }
    }

    /// Stores a fresh connection, replacing any previous one. Tearing the
    /// previous session down first is the caller's responsibility: a listener
    /// of the old session holds its own clone of the old transport and is not
    /// stopped by the replacement.
    pub fn store(&mut self, conn: Connection)
        ensures
            final(self).conn == Some(conn),
    {
        self.conn = Some(conn);
    }

    /// Tears the stored connection down. Subsequent sends fail with
    /// `NotConnected`. Reports `NotConnected` itself when there was nothing
    /// to tear down.
    pub fn disconnect(&mut self) -> (r: Result<(), SendError>)
        ensures
            final(self).conn is None,
            r is Ok <==> old(self).conn is Some,
            old(self).conn is None ==> r == Err::<(), SendError>(SendError::NotConnected),
    {
        match self.conn {
            Some(_) => {
                self.conn = None;
                Ok(())
            },
            None => Err(SendError::NotConnected),
        }
    }

    /// The outbound sender's decision under the slot's lock: with no stored
    /// connection it fails with `NotConnected` and leaves the slot exactly as
    /// it was; with one it yields the message to encrypt and write — `text`
    /// with default formatting. The write itself happens outside on the
    /// stored transport; its failure wraps into `SendFailed` there and does
    /// not tear the connection down.
    pub fn send_input(&mut self, text: String) -> (r: Result<OutboundMessage, SendError>)
        ensures
            *final(self) == *old(self),
            old(self).conn is Some ==> (match r {
                Ok(m) => m.text == text && m.colors.username_color is None
                    && m.colors.message_color is None,
                Err(_) => false,
            }),
            old(self).conn is None ==> r == Err::<OutboundMessage, SendError>(
                SendError::NotConnected,
            ),
    {
        match &self.conn {
            Some(_) => Ok(OutboundMessage::new(text)),
            None => Err(SendError::NotConnected),
        }
    }
}

} // verus!

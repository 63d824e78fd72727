//! Why a forwarding session fails.

use crate::text::decimal;
use crate::text::decimal_string;
use crate::text::occurs_in;
use crate::wire::header_error_text;
use crate::wire::HeaderError;
use vstd::prelude::*;
use vstd::string::StringExecFns;

verus! {

/// A failure that ends one session. None of them ends the server.
#[derive(Clone, Debug, PartialEq, Eq)]
pub enum SessionError {
    /// The port header could not be read: the stream failed or ended early.
    HandshakeIo { message: String },
    /// The requested port is not on the allow-list.
    PolicyRejected { port: u16 },
    /// The local service on the requested port could not be reached.
    LocalConnectFailure { message: String },
    /// A relay direction failed after the session was authorized.
    RelayIo { message: String },
}

/// A session failure as a mathematical value.
pub enum SessionErrorView {
    HandshakeIo { message: Seq<char> },
    PolicyRejected { port: u16 },
    LocalConnectFailure { message: Seq<char> },
    RelayIo { message: Seq<char> },
}

impl View for SessionError {
    type V = SessionErrorView;

    open spec fn view(&self) -> SessionErrorView {
        match self {
            SessionError::HandshakeIo { message } => SessionErrorView::HandshakeIo {
                message: message@,
            },
            SessionError::PolicyRejected { port } => SessionErrorView::PolicyRejected {
                port: *port,
            },
            SessionError::LocalConnectFailure { message } => SessionErrorView::LocalConnectFailure {
                message: message@,
            },
            SessionError::RelayIo { message } => SessionErrorView::RelayIo { message: message@ },
        }
    }
}

/// The reason given to a peer that asked for a port off the allow-list.
pub open spec fn locked_port_text(port: u16) -> Seq<char> {
    "locked port: "@ + decimal(port as nat)
}

impl SessionErrorView {
    /// The failure in words: what the peer is told and what is logged.
    pub open spec fn message(self) -> Seq<char> {
        match self {
            SessionErrorView::HandshakeIo { message } => message,
            SessionErrorView::PolicyRejected { port } => locked_port_text(port),
            SessionErrorView::LocalConnectFailure { message } => message,
            SessionErrorView::RelayIo { message } => message,
        }
    }

    /// The failure of a header that did not decode.
    pub open spec fn malformed_header(error: HeaderError) -> SessionErrorView {
        SessionErrorView::HandshakeIo { message: header_error_text(error) }
    }
}

impl SessionError {
    /// The failure of a header that did not decode.
    pub fn malformed_header(error: HeaderError) -> (failure: SessionError)
        ensures
            failure@ == SessionErrorView::malformed_header(error),
    {
        SessionError::HandshakeIo { message: error.message() }
    }

    /// The failure in words: what the peer is told and what is logged.
    pub fn message(&self) -> (text: String)
        ensures
            text@ == self@.message(),
    {
        match self {
            SessionError::HandshakeIo { message } => message.clone(),
            SessionError::PolicyRejected { port } => {
                let mut text = String::from_str("locked port: ");
                text.append(decimal_string(*port as u64).as_str());
                text
            },
            SessionError::LocalConnectFailure { message } => message.clone(),
            SessionError::RelayIo { message } => message.clone(),
        }
    }
}

/// The reason for a locked port names that port: its numeral stands in
/// the text, at the end.
pub proof fn lemma_locked_port_text_names_port(port: u16)
    ensures
        occurs_in(decimal(port as nat), locked_port_text(port)),
        locked_port_text(port).subrange(
            locked_port_text(port).len() - decimal(port as nat).len(),
            locked_port_text(port).len() as int,
        ) == decimal(port as nat),
{
    let start = "locked port: "@.len() as int;
    let numeral = decimal(port as nat);
    assert(locked_port_text(port).subrange(start, start + numeral.len()) =~= numeral);
}

} // verus!

//! How a connection is closed, and what the closing tells the peer.

use crate::error::SessionError;
use crate::error::SessionErrorView;
use crate::text::utf8_bytes;
use vstd::prelude::*;
use vstd::utf8::encode_utf8;

verus! {

/// The close code of a graceful, expected end. It carries no reason.
pub const CLOSE_GRACEFUL: u32 = 0;

/// The close code of a request that was turned down: the port is locked,
/// or nothing answers on it. The code is reserved for these two, and the
/// reason sent with it is the message that the peer shows to its user,
/// word for word.
pub const CLOSE_REJECTED: u32 = 1;

/// The close code of a session that broke in its own input or output:
/// the port header could not be read, or the relay failed midway. The
/// reason is sent along, but the peer treats such a close as abnormal and
/// reports the transport's account of it.
pub const CLOSE_FAILED: u32 = 2;

/// The code and reason that close a connection: the only account of a
/// session's end that reaches the peer.
#[derive(Clone, Debug, PartialEq, Eq)]
pub struct CloseOutcome {
    pub code: u32,
    pub reason: Vec<u8>,
}

/// A close outcome as a mathematical value.
pub struct CloseOutcomeView {
    pub code: u32,
    pub reason: Seq<u8>,
}

impl View for CloseOutcome {
    type V = CloseOutcomeView;

    open spec fn view(&self) -> CloseOutcomeView {
        CloseOutcomeView { code: self.code, reason: self.reason@ }
    }
}

impl CloseOutcomeView {
    /// The outcome of a session that ended as expected.
    pub open spec fn graceful() -> CloseOutcomeView {
        CloseOutcomeView { code: CLOSE_GRACEFUL, reason: Seq::empty() }
    }

    /// The code that tells the peer of `error`. It is never the graceful
    /// one.
    pub open spec fn failure_code(error: SessionErrorView) -> u32 {
        match error {
            SessionErrorView::PolicyRejected { .. } => CLOSE_REJECTED,
            SessionErrorView::LocalConnectFailure { .. } => CLOSE_REJECTED,
            SessionErrorView::HandshakeIo { .. } => CLOSE_FAILED,
            SessionErrorView::RelayIo { .. } => CLOSE_FAILED,
        }
    }

    /// The outcome of a session that `error` ended: the code of the
    /// failure, and the failure's message in UTF-8 as the reason.
    pub open spec fn failure(error: SessionErrorView) -> CloseOutcomeView {
        CloseOutcomeView { code: Self::failure_code(error), reason: encode_utf8(error.message()) }
    }
}

impl CloseOutcome {
    /// The outcome of a session that ended as expected.
    pub fn graceful() -> (outcome: CloseOutcome)
        ensures
            outcome@ == CloseOutcomeView::graceful(),
    {
        CloseOutcome { code: CLOSE_GRACEFUL, reason: Vec::new() }
    }

    /// The outcome of a session that `error` ended.
    pub fn failure(error: &SessionError) -> (outcome: CloseOutcome)
        ensures
            outcome@ == CloseOutcomeView::failure(error@),
    {
        let code = match error {
            SessionError::PolicyRejected { .. } => CLOSE_REJECTED,
            SessionError::LocalConnectFailure { .. } => CLOSE_REJECTED,
            SessionError::HandshakeIo { .. } => CLOSE_FAILED,
            SessionError::RelayIo { .. } => CLOSE_FAILED,
        };
        let message = error.message();
        CloseOutcome { code, reason: utf8_bytes(message.as_str()) }
    }

    /// Whether this is the graceful close.
    pub fn is_graceful(&self) -> (graceful: bool)
        ensures
            graceful == (self.code == CLOSE_GRACEFUL),
    {
        self.code == CLOSE_GRACEFUL
    }
}

/// How a connection ended, as the transport reports it to the side that
/// waited for the end.
#[derive(Clone, Debug, PartialEq, Eq)]
pub enum CloseCause {
    /// The peer's application closed the connection with a code and a reason.
    ApplicationClosed { code: u64, reason: Vec<u8> },
    /// This side closed the connection itself.
    LocallyClosed,
    /// The transport ended the connection: a timeout, a reset, a protocol
    /// violation, a failure to establish it.
    Transport,
}

/// A close cause as a mathematical value.
pub enum CloseCauseView {
    ApplicationClosed { code: u64, reason: Seq<u8> },
    LocallyClosed,
    Transport,
}

impl View for CloseCause {
    type V = CloseCauseView;

    open spec fn view(&self) -> CloseCauseView {
        match self {
            CloseCause::ApplicationClosed { code, reason } => CloseCauseView::ApplicationClosed {
                code: *code,
                reason: reason@,
            },
            CloseCause::LocallyClosed => CloseCauseView::LocallyClosed,
            CloseCause::Transport => CloseCauseView::Transport,
        }
    }
}

impl CloseCauseView {
    /// The cause that the peer observes when a connection is closed with
    /// `outcome`.
    pub open spec fn observed(outcome: CloseOutcomeView) -> CloseCauseView {
        CloseCauseView::ApplicationClosed { code: outcome.code as u64, reason: outcome.reason }
    }
}

} // verus!

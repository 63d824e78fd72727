//! The verdict on a relay: two directions, one result.

use crate::error::SessionError;
use crate::error::SessionErrorView;
use vstd::prelude::*;

verus! {

/// How the two directions of a relay ended. Each field holds the error
/// message of its direction, or nothing where that direction ran to the end
/// of its stream.
#[derive(Clone, Debug, PartialEq, Eq)]
pub struct RelayReport {
    /// From the local socket to the transport stream.
    pub outbound: Option<String>,
    /// From the transport stream to the local socket.
    pub inbound: Option<String>,
}

/// A relay report as a mathematical value.
pub struct RelayReportView {
    pub outbound: Option<Seq<char>>,
    pub inbound: Option<Seq<char>>,
}

/// The text of an optional message.
pub open spec fn message_view(message: Option<String>) -> Option<Seq<char>> {
    match message {
        Some(text) => Some(text@),
        None => None,
    }
}

impl View for RelayReport {
    type V = RelayReportView;

    open spec fn view(&self) -> RelayReportView {
        RelayReportView {
            outbound: message_view(self.outbound),
            inbound: message_view(self.inbound),
        }
    }
}

impl RelayReportView {
    /// The failure of the relay as a whole: that of the outbound direction
    /// where it failed, else that of the inbound direction, else none.
    pub open spec fn failure(self) -> Option<SessionErrorView> {
        match self.outbound {
            Some(message) => Some(SessionErrorView::RelayIo { message }),
            None => match self.inbound {
                Some(message) => Some(SessionErrorView::RelayIo { message }),
                None => None,
            },
        }
    }
}

impl RelayReport {
    /// The result of the relay as a whole. It succeeds only if both
    /// directions ended cleanly; the error of either one fails it, the
    /// outbound error first where both failed.
    pub fn verdict(self) -> (result: Result<(), SessionError>)
        ensures
            result is Ok <==> self@.outbound is None && self@.inbound is None,
            result matches Err(error) ==> self@.failure() == Some(error@),
            result is Ok ==> self@.failure() is None,
    {
        match self.outbound {
            Some(message) => Err(SessionError::RelayIo { message }),
            None => match self.inbound {
                Some(message) => Err(SessionError::RelayIo { message }),
                None => Ok(()),
            },
        }
    }
}

} // verus!

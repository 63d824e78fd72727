//! The server side of a forwarding session: from the port request to the
//! close of the connection.
//!
//! A session is a state machine. The code that owns the connection performs
//! what an action asks for and reports what came of it as the next event.

use crate::allow::AllowedPorts;
use crate::close::CLOSE_REJECTED;
use crate::close::CloseOutcome;
use crate::close::CloseOutcomeView;
use crate::error::lemma_locked_port_text_names_port;
use crate::error::locked_port_text;
use crate::error::SessionError;
use crate::error::SessionErrorView;
use crate::relay::RelayReport;
use crate::relay::RelayReportView;
use crate::text::decimal;
use crate::text::decimal_string;
use crate::text::lemma_reason_text_of_encoding;
use crate::text::occurs_in;
use crate::text::reason_text;
use crate::wire::decode_port;
use crate::wire::header_error_text;
use crate::wire::lemma_header_round_trip;
use crate::wire::parse_header;
use crate::wire::port_header;
use crate::wire::HeaderError;
use vstd::prelude::*;
use vstd::string::StringExecFns;

verus! {

/// Where a session stands between two events.
///
/// Authorizing is no phase of its own: the port is checked against the
/// allow-list within the step that takes the request, so a session is
/// never found waiting with an unchecked port.
#[derive(Clone, Copy, Debug, PartialEq, Eq, Structural)]
pub enum ServerPhase {
    /// The stream pair is open and the port header has not been read.
    AwaitingRequest,
    /// The port is authorized and the local connection is being opened.
    Connecting { port: u16 },
    /// Bytes flow between the local socket and the transport stream.
    Relaying { port: u16 },
    /// The session failed, at whatever stage, and the connection was
    /// closed with the failure.
    Rejected,
    /// The relay ended cleanly and the connection was closed gracefully.
    Closed,
}

impl ServerPhase {
    /// Whether the session is over.
    pub open spec fn is_terminal(self) -> bool {
        self is Rejected || self is Closed
    }
}

/// What happened on the connection since the last action.
#[derive(Clone, Debug, PartialEq, Eq)]
pub enum ServerEvent {
    /// The read of the port header ended without an error. `bytes` holds
    /// what arrived: the whole header, or less if the stream ended first.
    HeaderRead { bytes: Vec<u8> },
    /// The read of the port header failed.
    HeaderFailed { message: String },
    /// The local connection is open.
    Connected,
    /// The local connection could not be opened.
    ConnectFailed { message: String },
    /// Both relay directions have ended.
    RelayFinished { report: RelayReport },
}

/// An event as a mathematical value.
pub enum ServerEventView {
    HeaderRead { bytes: Seq<u8> },
    HeaderFailed { message: Seq<char> },
    Connected,
    ConnectFailed { message: Seq<char> },
    RelayFinished { report: RelayReportView },
}

impl View for ServerEvent {
    type V = ServerEventView;

    open spec fn view(&self) -> ServerEventView {
        match self {
            ServerEvent::HeaderRead { bytes } => ServerEventView::HeaderRead { bytes: bytes@ },
            ServerEvent::HeaderFailed { message } => ServerEventView::HeaderFailed {
                message: message@,
            },
            ServerEvent::Connected => ServerEventView::Connected,
            ServerEvent::ConnectFailed { message } => ServerEventView::ConnectFailed {
                message: message@,
            },
            ServerEvent::RelayFinished { report } => ServerEventView::RelayFinished {
                report: report@,
            },
        }
    }
}

/// What the owner of the connection has to do next.
#[derive(Clone, Debug, PartialEq, Eq)]
pub enum ServerAction {
    /// Open a TCP connection to `port` on the loopback address.
    Connect { port: u16 },
    /// Relay between the local socket and the transport stream until both
    /// directions have ended.
    Relay { port: u16 },
    /// Close the connection with `outcome` and release it. Where `failure`
    /// is given, wait until the peer has seen the close, then log it.
    Close { outcome: CloseOutcome, failure: Option<SessionError> },
    /// Nothing: the session did not wait for this event.
    Nothing,
}

/// An action as a mathematical value.
pub enum ServerActionView {
    Connect { port: u16 },
    Relay { port: u16 },
    Close { outcome: CloseOutcomeView, failure: Option<SessionErrorView> },
    Nothing,
}

impl View for ServerAction {
    type V = ServerActionView;

    open spec fn view(&self) -> ServerActionView {
        match self {
            ServerAction::Connect { port } => ServerActionView::Connect { port: *port },
            ServerAction::Relay { port } => ServerActionView::Relay { port: *port },
            ServerAction::Close { outcome, failure } => ServerActionView::Close {
                outcome: outcome@,
                failure: match failure {
                    Some(error) => Some(error@),
                    None => None,
                },
            },
            ServerAction::Nothing => ServerActionView::Nothing,
        }
    }
}

/// The end of a session that `error` fails: the connection is closed with
/// the failure's code and message, and the failure is kept for the log.
pub open spec fn rejected(error: SessionErrorView) -> (ServerPhase, ServerActionView) {
    (
        ServerPhase::Rejected,
        ServerActionView::Close { outcome: CloseOutcomeView::failure(error), failure: Some(error) },
    )
}

/// The authorization of a requested port: a permitted port is connected
/// to, any other ends the session.
pub open spec fn authorized(allowed: Set<u16>, port: u16) -> (ServerPhase, ServerActionView) {
    if allowed.contains(port) {
        (ServerPhase::Connecting { port }, ServerActionView::Connect { port })
    } else {
        rejected(SessionErrorView::PolicyRejected { port })
    }
}

/// One transition of a session: the phase after `event`, and the action
/// that it asks for. An event that the phase does not wait for changes
/// nothing.
pub open spec fn server_step(phase: ServerPhase, allowed: Set<u16>, event: ServerEventView) -> (
    ServerPhase,
    ServerActionView,
) {
    match (phase, event) {
        (ServerPhase::AwaitingRequest, ServerEventView::HeaderRead { bytes }) => match parse_header(
            bytes,
        ) {
            Ok(port) => authorized(allowed, port),
            Err(error) => rejected(SessionErrorView::malformed_header(error)),
        },
        (ServerPhase::AwaitingRequest, ServerEventView::HeaderFailed { message }) => rejected(
            SessionErrorView::HandshakeIo { message },
        ),
        (ServerPhase::Connecting { port }, ServerEventView::Connected) => (
            ServerPhase::Relaying { port },
            ServerActionView::Relay { port },
        ),
        (ServerPhase::Connecting { port }, ServerEventView::ConnectFailed { message }) => rejected(
            SessionErrorView::LocalConnectFailure { message },
        ),
        (ServerPhase::Relaying { port }, ServerEventView::RelayFinished { report }) => match report.failure() {
            Some(error) => rejected(error),
            None => (
                ServerPhase::Closed,
                ServerActionView::Close { outcome: CloseOutcomeView::graceful(), failure: None },
            ),
        },
        _ => (phase, ServerActionView::Nothing),
    }
}

/// One accepted connection on its way from the port request to the close.
#[derive(Debug)]
pub struct ServerSession {
    phase: ServerPhase,
}

impl View for ServerSession {
    type V = ServerPhase;

    closed spec fn view(&self) -> ServerPhase {
        self.phase
    }
}

impl ServerSession {
    /// A session on a freshly accepted stream pair. Its owner reads the
    /// port header first.
    pub fn new() -> (session: ServerSession)
        ensures
            session@ == ServerPhase::AwaitingRequest,
    {
        ServerSession { phase: ServerPhase::AwaitingRequest }
    }

    /// Where the session stands.
    pub fn phase(&self) -> (phase: ServerPhase)
        ensures
            phase == self@,
    {
        self.phase
    }

    /// Whether the session is over.
    pub fn is_finished(&self) -> (finished: bool)
        ensures
            finished == self@.is_terminal(),
    {
        match self.phase {
            ServerPhase::Rejected => true,
            ServerPhase::Closed => true,
            _ => false,
        }
    }

    /// The port that the session forwards to, once it is authorized.
    pub fn target_port(&self) -> (port: Option<u16>)
        ensures
            port == match self@ {
                ServerPhase::Connecting { port } => Some(port),
                ServerPhase::Relaying { port } => Some(port),
                _ => None,
            },
    {
        match self.phase {
            ServerPhase::Connecting { port } => Some(port),
            ServerPhase::Relaying { port } => Some(port),
            _ => None,
        }
    }

    fn reject(&mut self, error: SessionError) -> (action: ServerAction)
        ensures
            (final(self)@, action@) == rejected(error@),
    {
        self.phase = ServerPhase::Rejected;
        let outcome = CloseOutcome::failure(&error);
        ServerAction::Close { outcome, failure: Some(error) }
    }

    fn authorize(&mut self, allowed: &AllowedPorts, port: u16) -> (action: ServerAction)
        ensures
            (final(self)@, action@) == authorized(allowed@, port),
    {
        if allowed.authorize(port) {
            self.phase = ServerPhase::Connecting { port };
            ServerAction::Connect { port }
        } else {
            self.reject(SessionError::PolicyRejected { port })
        }
    }

    /// Takes the session one step on: records what `event` reports and
    /// returns what to do next.
    pub fn step(&mut self, allowed: &AllowedPorts, event: ServerEvent) -> (action: ServerAction)
        ensures
            (final(self)@, action@) == server_step(old(self)@, allowed@, event@),
    {
        match (self.phase, event) {
            (ServerPhase::AwaitingRequest, ServerEvent::HeaderRead { bytes }) => {
                match decode_port(bytes.as_slice()) {
                    Ok(port) => self.authorize(allowed, port),
                    Err(error) => self.reject(SessionError::malformed_header(error)),
                }
            },
            (ServerPhase::AwaitingRequest, ServerEvent::HeaderFailed { message }) => {
                self.reject(SessionError::HandshakeIo { message })
            },
            (ServerPhase::Connecting { port }, ServerEvent::Connected) => {
                self.phase = ServerPhase::Relaying { port };
                ServerAction::Relay { port }
            },
            (ServerPhase::Connecting { port }, ServerEvent::ConnectFailed { message }) => {
                self.reject(SessionError::LocalConnectFailure { message })
            },
            (ServerPhase::Relaying { port }, ServerEvent::RelayFinished { report }) => {
                match report.verdict() {
                    Err(error) => self.reject(error),
                    Ok(()) => {
                        self.phase = ServerPhase::Closed;
                        ServerAction::Close { outcome: CloseOutcome::graceful(), failure: None }
                    },
                }
            },
            _ => ServerAction::Nothing,
        }
    }
}

/// The address of the local service on `port`.
pub open spec fn loopback_target(port: u16) -> Seq<char> {
    "127.0.0.1:"@ + decimal(port as nat)
}

/// The address that a session connects to for `port`: always the loopback
/// interface.
pub fn loopback_address(port: u16) -> (address: String)
    ensures
        address@ == loopback_target(port),
{
    let mut address = String::from_str("127.0.0.1:");
    address.append(decimal_string(port as u64).as_str());
    address
}

/// The phase of a session that started fresh and has seen `events`.
pub open spec fn server_run(allowed: Set<u16>, events: Seq<ServerEventView>) -> ServerPhase
    decreases events.len(),
{
    if events.len() == 0 {
        ServerPhase::AwaitingRequest
    } else {
        server_step(server_run(allowed, events.drop_last()), allowed, events.last()).0
    }
}

/// The action with which such a session answers the last of `events`.
pub open spec fn server_reaction(allowed: Set<u16>, events: Seq<ServerEventView>) -> ServerActionView
    recommends
        events.len() > 0,
{
    server_step(server_run(allowed, events.drop_last()), allowed, events.last()).1
}

/// How often such a session has asked for the connection to be closed.
pub open spec fn closes_issued(allowed: Set<u16>, events: Seq<ServerEventView>) -> nat
    decreases events.len(),
{
    if events.len() == 0 {
        0
    } else {
        closes_issued(allowed, events.drop_last()) + if server_reaction(allowed, events) is Close {
            1nat
        } else {
            0nat
        }
    }
}

/// How often such a session has asked for a local connection.
pub open spec fn connects_issued(allowed: Set<u16>, events: Seq<ServerEventView>) -> nat
    decreases events.len(),
{
    if events.len() == 0 {
        0
    } else {
        connects_issued(allowed, events.drop_last()) + if server_reaction(allowed, events)
            is Connect {
            1nat
        } else {
            0nat
        }
    }
}

/// A request for a port that is not on the allow-list ends the session at
/// once: the connection is closed with the code of a rejection, and the
/// reason, read as text, is the locked-port message, in which the port's
/// numeral stands.
pub proof fn lemma_unlisted_port_is_rejected(allowed: Set<u16>, port: u16)
    requires
        !allowed.contains(port),
    ensures
        server_step(
            ServerPhase::AwaitingRequest,
            allowed,
            ServerEventView::HeaderRead { bytes: port_header(port) },
        ) == rejected(SessionErrorView::PolicyRejected { port }),
        rejected(SessionErrorView::PolicyRejected { port }).1 matches ServerActionView::Close {
            outcome,
            ..
        } && outcome.code == CLOSE_REJECTED && reason_text(outcome.reason) == locked_port_text(port),
        occurs_in(decimal(port as nat), locked_port_text(port)),
{
    lemma_header_round_trip(port);
    lemma_reason_text_of_encoding(locked_port_text(port));
    lemma_locked_port_text_names_port(port);
}

/// A header that the stream cut short, after no byte or after one, ends
/// the session with a handshake failure: the session does not wait on.
pub proof fn lemma_truncated_header_is_rejected(allowed: Set<u16>, bytes: Seq<u8>)
    requires
        bytes.len() < 2,
    ensures
        server_step(ServerPhase::AwaitingRequest, allowed, ServerEventView::HeaderRead { bytes })
            == rejected(
            SessionErrorView::HandshakeIo {
                message: header_error_text(
                    HeaderError::Truncated { received: bytes.len() as usize },
                ),
            },
        ),
{
}

/// A finished session answers every event with nothing and stays as it is.
pub proof fn lemma_finished_session_is_final(
    phase: ServerPhase,
    allowed: Set<u16>,
    event: ServerEventView,
)
    requires
        phase.is_terminal(),
    ensures
        server_step(phase, allowed, event) == (phase, ServerActionView::Nothing),
{
}

/// Whatever events arrive, a session connects and relays only to a port
/// on the allow-list, and it relays only to the port it connected to.
pub proof fn lemma_forwarding_is_authorized(allowed: Set<u16>, events: Seq<ServerEventView>)
    ensures
        server_run(allowed, events) matches ServerPhase::Connecting { port } ==> allowed.contains(
            port,
        ),
        server_run(allowed, events) matches ServerPhase::Relaying { port } ==> allowed.contains(
            port,
        ),
        events.len() > 0 ==> (server_reaction(allowed, events) matches ServerActionView::Connect {
            port,
        } ==> allowed.contains(port) && server_run(allowed, events.drop_last())
            == ServerPhase::AwaitingRequest),
        events.len() > 0 ==> (server_reaction(allowed, events) matches ServerActionView::Relay {
            port,
        } ==> allowed.contains(port) && server_run(allowed, events.drop_last())
            == ServerPhase::Connecting { port }),
    decreases events.len(),
{
    if events.len() > 0 {
        lemma_forwarding_is_authorized(allowed, events.drop_last());
    }
}

/// A session opens at most one local connection: none while it awaits the
/// request, and none where the request was turned down.
pub proof fn lemma_connects_at_most_once(allowed: Set<u16>, events: Seq<ServerEventView>)
    ensures
        connects_issued(allowed, events) <= 1,
        server_run(allowed, events) is AwaitingRequest ==> connects_issued(allowed, events) == 0,
        server_run(allowed, events) is Connecting || server_run(allowed, events) is Relaying
            || server_run(allowed, events) is Closed ==> connects_issued(allowed, events) == 1,
    decreases events.len(),
{
    if events.len() > 0 {
        lemma_connects_at_most_once(allowed, events.drop_last());
    }
}

/// The connection of a relaying session is closed only when both relay
/// directions have ended: no relay outlives the close.
pub proof fn lemma_relay_ends_before_close(allowed: Set<u16>, events: Seq<ServerEventView>)
    requires
        events.len() > 0,
        server_run(allowed, events.drop_last()) is Relaying,
        server_reaction(allowed, events) is Close,
    ensures
        events.last() is RelayFinished,
{
}

/// A session asks for the connection to be closed exactly once: when it
/// finishes, and never before or after.
pub proof fn lemma_closed_exactly_once(allowed: Set<u16>, events: Seq<ServerEventView>)
    ensures
        closes_issued(allowed, events) == if server_run(allowed, events).is_terminal() {
            1nat
        } else {
            0nat
        },
    decreases events.len(),
{
    if events.len() > 0 {
        lemma_closed_exactly_once(allowed, events.drop_last());
    }
}

/// Once the port check has been made it is not made again: a session that
/// has left the request phase does not come back to it.
pub proof fn lemma_request_phase_is_left_for_good(
    allowed: Set<u16>,
    events: Seq<ServerEventView>,
    earlier: int,
)
    requires
        0 <= earlier <= events.len(),
        server_run(allowed, events.take(earlier)) != ServerPhase::AwaitingRequest,
    ensures
        server_run(allowed, events) != ServerPhase::AwaitingRequest,
    decreases events.len(),
{
    if earlier == events.len() {
        assert(events.take(earlier) =~= events);
    } else {
        assert(events.drop_last().take(earlier) =~= events.take(earlier));
        lemma_request_phase_is_left_for_good(allowed, events.drop_last(), earlier);
    }
}

/// A session whose first event is a request for a port off the allow-list
/// is rejected, stays rejected, and never asks for a local connection or a
/// relay, whatever follows.
pub proof fn lemma_rejected_request_never_connects(
    allowed: Set<u16>,
    port: u16,
    events: Seq<ServerEventView>,
)
    requires
        events.len() > 0,
        events[0] == (ServerEventView::HeaderRead { bytes: port_header(port) }),
        !allowed.contains(port),
    ensures
        server_run(allowed, events) == ServerPhase::Rejected,
        !(server_reaction(allowed, events) is Connect),
        !(server_reaction(allowed, events) is Relay),
        closes_issued(allowed, events) == 1,
    decreases events.len(),
{
    lemma_header_round_trip(port);
    if events.len() == 1 {
        assert(closes_issued(allowed, events.drop_last()) == 0);
    } else {
        lemma_rejected_request_never_connects(allowed, port, events.drop_last());
    }
}

} // verus!

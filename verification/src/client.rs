//! The client side of a forwarding session: the port request, the relay
//! of the local input and output, and the one outcome that ends it.
//!
//! Three things can end a client: its output fails, its input fails, or
//! the connection is closed. Whichever is reported first decides; what is
//! reported after it changes nothing.

use crate::close::CloseCause;
use crate::close::CloseCauseView;
use crate::close::CloseOutcome;
use crate::close::CloseOutcomeView;
use crate::close::CLOSE_GRACEFUL;
use crate::close::CLOSE_REJECTED;
use crate::error::SessionErrorView;
use crate::text::decode_lossy;
use crate::text::lemma_reason_text_of_encoding;
use crate::text::reason_text;
use crate::wire::encode_port;
use crate::wire::port_header;
use vstd::prelude::*;

verus! {

/// How a client run ended.
#[derive(Clone, Debug, PartialEq, Eq)]
pub enum ClientOutcome {
    /// The peer closed the connection gracefully.
    Clean,
    /// The peer turned the request down. `reason` is the peer's message,
    /// word for word.
    Rejected { reason: String },
    /// The connection ended in any other way. `description` is the
    /// transport's account of it.
    Abnormal { description: String },
    /// The local input or output failed before the connection was closed.
    LocalIo { message: String },
    /// The port header could not be written.
    HandshakeIo { message: String },
}

/// A client outcome as a mathematical value.
pub enum ClientOutcomeView {
    Clean,
    Rejected { reason: Seq<char> },
    Abnormal { description: Seq<char> },
    LocalIo { message: Seq<char> },
    HandshakeIo { message: Seq<char> },
}

impl View for ClientOutcome {
    type V = ClientOutcomeView;

    open spec fn view(&self) -> ClientOutcomeView {
        match self {
            ClientOutcome::Clean => ClientOutcomeView::Clean,
            ClientOutcome::Rejected { reason } => ClientOutcomeView::Rejected { reason: reason@ },
            ClientOutcome::Abnormal { description } => ClientOutcomeView::Abnormal {
                description: description@,
            },
            ClientOutcome::LocalIo { message } => ClientOutcomeView::LocalIo { message: message@ },
            ClientOutcome::HandshakeIo { message } => ClientOutcomeView::HandshakeIo {
                message: message@,
            },
        }
    }
}

impl ClientOutcomeView {
    /// The one message that the user is shown; none after a clean close.
    pub open spec fn message(self) -> Option<Seq<char>> {
        match self {
            ClientOutcomeView::Clean => None,
            ClientOutcomeView::Rejected { reason } => Some(reason),
            ClientOutcomeView::Abnormal { description } => Some(description),
            ClientOutcomeView::LocalIo { message } => Some(message),
            ClientOutcomeView::HandshakeIo { message } => Some(message),
        }
    }

    /// The status that the process exits with.
    pub open spec fn exit_code(self) -> u8 {
        if self is Clean {
            0
        } else {
            1
        }
    }

    /// The outcome of a closed connection. `code` is the peer's close code
    /// where the peer's application closed the connection; `reason` is the
    /// peer's reason as text; `description` is the transport's account.
    pub open spec fn classify(
        code: Option<u64>,
        reason: Seq<char>,
        description: Seq<char>,
    ) -> ClientOutcomeView {
        match code {
            Some(code) => if code == CLOSE_GRACEFUL as u64 {
                ClientOutcomeView::Clean
            } else if code == CLOSE_REJECTED as u64 {
                ClientOutcomeView::Rejected { reason }
            } else {
                ClientOutcomeView::Abnormal { description }
            },
            None => ClientOutcomeView::Abnormal { description },
        }
    }

    /// The outcome of a connection that ended by `cause`.
    pub open spec fn of_close(cause: CloseCauseView, description: Seq<char>) -> ClientOutcomeView {
        match cause {
            CloseCauseView::ApplicationClosed { code, reason } => Self::classify(
                Some(code),
                reason_text(reason),
                description,
            ),
            _ => Self::classify(None, Seq::empty(), description),
        }
    }
}

impl ClientOutcome {
    /// The one message that the user is shown; none after a clean close.
    pub fn message(&self) -> (text: Option<String>)
        ensures
            text is Some <==> self@.message() is Some,
            text matches Some(t) ==> self@.message() == Some(t@),
    {
        match self {
            ClientOutcome::Clean => None,
            ClientOutcome::Rejected { reason } => Some(reason.clone()),
            ClientOutcome::Abnormal { description } => Some(description.clone()),
            ClientOutcome::LocalIo { message } => Some(message.clone()),
            ClientOutcome::HandshakeIo { message } => Some(message.clone()),
        }
    }

    /// The status that the process exits with: zero after a clean close,
    /// one after anything else.
    pub fn exit_code(&self) -> (code: u8)
        ensures
            code == self@.exit_code(),
    {
        match self {
            ClientOutcome::Clean => 0,
            _ => 1,
        }
    }

    /// The close that the client itself has to send: after a local
    /// failure it gives the connection up gracefully, since nothing went
    /// wrong in the protocol; in every other case it sends none.
    pub fn closing(&self) -> (outcome: Option<CloseOutcome>)
        ensures
            self@ is LocalIo ==> (outcome matches Some(o) && o@ == CloseOutcomeView::graceful()),
            !(self@ is LocalIo) ==> outcome is None,
    {
        match self {
            ClientOutcome::LocalIo { .. } => Some(CloseOutcome::graceful()),
            _ => None,
        }
    }

    /// The outcome of a closed connection, from the peer's close code, if
    /// its application sent one, the peer's reason as text, and the
    /// transport's account of the end.
    pub fn classify(code: Option<u64>, reason: String, description: String) -> (outcome:
        ClientOutcome)
        ensures
            outcome@ == ClientOutcomeView::classify(code, reason@, description@),
    {
        match code {
            Some(code) => if code == CLOSE_GRACEFUL as u64 {
                ClientOutcome::Clean
            } else if code == CLOSE_REJECTED as u64 {
                ClientOutcome::Rejected { reason }
            } else {
                ClientOutcome::Abnormal { description }
            },
            None => ClientOutcome::Abnormal { description },
        }
    }

    /// The outcome of a connection that ended by `cause`.
    pub fn of_close(cause: CloseCause, description: String) -> (outcome: ClientOutcome)
        ensures
            outcome@ == ClientOutcomeView::of_close(cause@, description@),
    {
        match cause {
            CloseCause::ApplicationClosed { code, reason } => {
                let text = decode_lossy(reason.as_slice());
                ClientOutcome::classify(Some(code), text, description)
            },
            _ => ClientOutcome::classify(None, String::new(), description),
        }
    }
}

/// Where a client run stands.
#[derive(Clone, Copy, Debug, PartialEq, Eq, Structural)]
pub enum ClientPhase {
    /// The stream is open and the port header is being written.
    Handshaking,
    /// Input, output and the watch for the close run side by side.
    Relaying,
    /// The outcome is chosen.
    Finished,
}

/// What one of the client's workers reports.
#[derive(Clone, Debug, PartialEq, Eq)]
pub enum ClientEvent {
    /// The port header is written.
    HeaderSent,
    /// The port header could not be written.
    HeaderFailed { message: String },
    /// Copying from the stream to the local output failed.
    OutputFailed { message: String },
    /// Copying from the local input to the stream failed.
    InputFailed { message: String },
    /// The connection is closed. `description` is the transport's account
    /// of `cause`.
    ConnectionClosed { cause: CloseCause, description: String },
}

/// A client event as a mathematical value.
pub enum ClientEventView {
    HeaderSent,
    HeaderFailed { message: Seq<char> },
    OutputFailed { message: Seq<char> },
    InputFailed { message: Seq<char> },
    ConnectionClosed { cause: CloseCauseView, description: Seq<char> },
}

impl View for ClientEvent {
    type V = ClientEventView;

    open spec fn view(&self) -> ClientEventView {
        match self {
            ClientEvent::HeaderSent => ClientEventView::HeaderSent,
            ClientEvent::HeaderFailed { message } => ClientEventView::HeaderFailed {
                message: message@,
            },
            ClientEvent::OutputFailed { message } => ClientEventView::OutputFailed {
                message: message@,
            },
            ClientEvent::InputFailed { message } => ClientEventView::InputFailed {
                message: message@,
            },
            ClientEvent::ConnectionClosed { cause, description } => ClientEventView::ConnectionClosed {
                cause: cause@,
                description: description@,
            },
        }
    }
}

/// What the client has to do next.
#[derive(Clone, Debug, PartialEq, Eq)]
pub enum ClientAction {
    /// Start the three workers: output, input, and the watch for the close.
    Relay,
    /// Stop all workers without waiting for them, send the close that
    /// `outcome` calls for, and end with `outcome`.
    Finish { outcome: ClientOutcome },
    /// Nothing: the run did not wait for this event.
    Nothing,
}

/// A client action as a mathematical value.
pub enum ClientActionView {
    Relay,
    Finish { outcome: ClientOutcomeView },
    Nothing,
}

impl View for ClientAction {
    type V = ClientActionView;

    open spec fn view(&self) -> ClientActionView {
        match self {
            ClientAction::Relay => ClientActionView::Relay,
            ClientAction::Finish { outcome } => ClientActionView::Finish { outcome: outcome@ },
            ClientAction::Nothing => ClientActionView::Nothing,
        }
    }
}

/// The end of a run with `outcome`.
pub open spec fn finished(outcome: ClientOutcomeView) -> (ClientPhase, ClientActionView) {
    (ClientPhase::Finished, ClientActionView::Finish { outcome })
}

/// One transition of a client run: the phase after `event`, and the action
/// that it asks for. An event that the phase does not wait for changes
/// nothing; after the first event that ends the run, none does.
pub open spec fn client_step(phase: ClientPhase, event: ClientEventView) -> (
    ClientPhase,
    ClientActionView,
) {
    match (phase, event) {
        (ClientPhase::Handshaking, ClientEventView::HeaderSent) => (
            ClientPhase::Relaying,
            ClientActionView::Relay,
        ),
        (ClientPhase::Handshaking, ClientEventView::HeaderFailed { message }) => finished(
            ClientOutcomeView::HandshakeIo { message },
        ),
        (ClientPhase::Handshaking, ClientEventView::ConnectionClosed { cause, description }) => finished(
            ClientOutcomeView::of_close(cause, description),
        ),
        (ClientPhase::Relaying, ClientEventView::ConnectionClosed { cause, description }) => finished(
            ClientOutcomeView::of_close(cause, description),
        ),
        (ClientPhase::Relaying, ClientEventView::OutputFailed { message }) => finished(
            ClientOutcomeView::LocalIo { message },
        ),
        (ClientPhase::Relaying, ClientEventView::InputFailed { message }) => finished(
            ClientOutcomeView::LocalIo { message },
        ),
        _ => (phase, ClientActionView::Nothing),
    }
}

/// One client run against a peer, for one port.
#[derive(Debug)]
pub struct ClientDriver {
    phase: ClientPhase,
    port: u16,
}

/// A client run as a mathematical value.
pub struct ClientDriverView {
    /// Where the run stands.
    pub phase: ClientPhase,
    /// The port that the run asks for.
    pub port: u16,
}

impl View for ClientDriver {
    type V = ClientDriverView;

    closed spec fn view(&self) -> ClientDriverView {
        ClientDriverView { phase: self.phase, port: self.port }
    }
}

impl ClientDriver {
    /// A run that asks the peer for `port`. Its owner opens the stream and
    /// writes the header first.
    pub fn new(port: u16) -> (driver: ClientDriver)
        ensures
            driver@.phase == ClientPhase::Handshaking,
            driver@.port == port,
    {
        ClientDriver { phase: ClientPhase::Handshaking, port }
    }

    /// Where the run stands.
    pub fn phase(&self) -> (phase: ClientPhase)
        ensures
            phase == self@.phase,
    {
        self.phase
    }

    /// The port that the run asks for.
    pub fn port(&self) -> (port: u16)
        ensures
            port == self@.port,
    {
        self.port
    }

    /// The first bytes to write on the stream: the header for the port.
    pub fn header(&self) -> (bytes: [u8; 2])
        ensures
            bytes@ == port_header(self@.port),
    {
        encode_port(self.port)
    }

    /// Takes the run one step on: records what `event` reports and returns
    /// what to do next.
    pub fn step(&mut self, event: ClientEvent) -> (action: ClientAction)
        ensures
            (final(self)@.phase, action@) == client_step(old(self)@.phase, event@),
            final(self)@.port == old(self)@.port,
    {
        match (self.phase, event) {
            (ClientPhase::Handshaking, ClientEvent::HeaderSent) => {
                self.phase = ClientPhase::Relaying;
                ClientAction::Relay
            },
            (ClientPhase::Handshaking, ClientEvent::HeaderFailed { message }) => {
                self.phase = ClientPhase::Finished;
                ClientAction::Finish { outcome: ClientOutcome::HandshakeIo { message } }
            },
            (ClientPhase::Handshaking, ClientEvent::ConnectionClosed { cause, description }) => {
                self.phase = ClientPhase::Finished;
                ClientAction::Finish { outcome: ClientOutcome::of_close(cause, description) }
            },
            (ClientPhase::Relaying, ClientEvent::ConnectionClosed { cause, description }) => {
                self.phase = ClientPhase::Finished;
                ClientAction::Finish { outcome: ClientOutcome::of_close(cause, description) }
            },
            (ClientPhase::Relaying, ClientEvent::OutputFailed { message }) => {
                self.phase = ClientPhase::Finished;
                ClientAction::Finish { outcome: ClientOutcome::LocalIo { message } }
            },
            (ClientPhase::Relaying, ClientEvent::InputFailed { message }) => {
                self.phase = ClientPhase::Finished;
                ClientAction::Finish { outcome: ClientOutcome::LocalIo { message } }
            },
            _ => ClientAction::Nothing,
        }
    }
}

/// The phase of a run that started fresh and has seen `events`.
pub open spec fn client_run(events: Seq<ClientEventView>) -> ClientPhase
    decreases events.len(),
{
    if events.len() == 0 {
        ClientPhase::Handshaking
    } else {
        client_step(client_run(events.drop_last()), events.last()).0
    }
}

/// The action with which such a run answers the last of `events`.
pub open spec fn client_reaction(events: Seq<ClientEventView>) -> ClientActionView
    recommends
        events.len() > 0,
{
    client_step(client_run(events.drop_last()), events.last()).1
}

/// How many outcomes such a run has reported.
pub open spec fn outcomes_reported(events: Seq<ClientEventView>) -> nat
    decreases events.len(),
{
    if events.len() == 0 {
        0
    } else {
        outcomes_reported(events.drop_last()) + if client_reaction(events) is Finish {
            1nat
        } else {
            0nat
        }
    }
}

/// Where the server turned a request down, for a locked port or for a
/// local service that cannot be reached, the client shows its user the
/// server's message, word for word, and exits with a status other than
/// zero.
pub proof fn lemma_rejection_is_surfaced_verbatim(error: SessionErrorView, description: Seq<char>)
    requires
        error is PolicyRejected || error is LocalConnectFailure,
    ensures
        ClientOutcomeView::of_close(
            CloseCauseView::observed(CloseOutcomeView::failure(error)),
            description,
        ) == (ClientOutcomeView::Rejected { reason: error.message() }),
        (ClientOutcomeView::Rejected { reason: error.message() }).message() == Some(error.message()),
        (ClientOutcomeView::Rejected { reason: error.message() }).exit_code() != 0,
{
    lemma_reason_text_of_encoding(error.message());
}

/// Where a session broke in the server's own input or output, the client
/// reports the transport's account of the close. Whatever the failure,
/// the client shows a message and exits with a status other than zero.
pub proof fn lemma_failure_is_never_clean(error: SessionErrorView, description: Seq<char>)
    ensures
        ClientOutcomeView::of_close(
            CloseCauseView::observed(CloseOutcomeView::failure(error)),
            description,
        ).exit_code() != 0,
        ClientOutcomeView::of_close(
            CloseCauseView::observed(CloseOutcomeView::failure(error)),
            description,
        ).message() is Some,
        error is HandshakeIo || error is RelayIo ==> ClientOutcomeView::of_close(
            CloseCauseView::observed(CloseOutcomeView::failure(error)),
            description,
        ) == (ClientOutcomeView::Abnormal { description }),
{
}

/// A graceful close by the server is a clean end for the client: no
/// message, exit status zero.
pub proof fn lemma_graceful_close_is_clean(description: Seq<char>)
    ensures
        ClientOutcomeView::of_close(
            CloseCauseView::observed(CloseOutcomeView::graceful()),
            description,
        ) == ClientOutcomeView::Clean,
        ClientOutcomeView::Clean.message() is None,
        ClientOutcomeView::Clean.exit_code() == 0,
{
}

/// A finished run answers every event with nothing and stays finished.
pub proof fn lemma_finished_run_is_final(event: ClientEventView)
    ensures
        client_step(ClientPhase::Finished, event) == (
            ClientPhase::Finished,
            ClientActionView::Nothing,
        ),
{
}

/// A run reports exactly one outcome: when it finishes, and none before
/// or after, however many of its workers report.
pub proof fn lemma_one_outcome(events: Seq<ClientEventView>)
    ensures
        outcomes_reported(events) == if client_run(events) is Finished {
            1nat
        } else {
            0nat
        },
    decreases events.len(),
{
    if events.len() > 0 {
        lemma_one_outcome(events.drop_last());
    }
}

/// The exit status is zero for the clean close and for nothing else.
pub proof fn lemma_exit_code_zero_iff_clean(outcome: ClientOutcomeView)
    ensures
        outcome.exit_code() == 0 <==> outcome is Clean,
        outcome.message() is None <==> outcome is Clean,
{
}

} // verus!

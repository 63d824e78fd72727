//! Both peers together: what the server does with a request, and what the
//! client that made it shows its user.
//!
//! Between the two stands the transport, of which one thing is taken for
//! granted: the code and the reason with which one side closes the
//! connection are the code and the reason that the other side observes.

use crate::client::client_step;
use crate::client::finished;
use crate::client::lemma_rejection_is_surfaced_verbatim;
use crate::client::ClientActionView;
use crate::client::ClientEventView;
use crate::client::ClientOutcomeView;
use crate::client::ClientPhase;
use crate::close::CloseCauseView;
use crate::error::locked_port_text;
use crate::error::SessionErrorView;
use crate::relay::RelayReportView;
use crate::server::lemma_unlisted_port_is_rejected;
use crate::server::server_step;
use crate::server::ServerActionView;
use crate::server::ServerEventView;
use crate::server::ServerPhase;
use crate::text::decimal;
use crate::text::occurs_in;
use crate::wire::lemma_header_round_trip;
use crate::wire::port_header;
use vstd::prelude::*;

verus! {

/// What a relaying client makes of the close that a server action asks
/// for. An action that closes nothing leaves the client as it is.
pub open spec fn client_sees(action: ServerActionView, description: Seq<char>) -> (
    ClientPhase,
    ClientActionView,
) {
    match action {
        ServerActionView::Close { outcome, .. } => client_step(
            ClientPhase::Relaying,
            ClientEventView::ConnectionClosed {
                cause: CloseCauseView::observed(outcome),
                description,
            },
        ),
        _ => (ClientPhase::Relaying, ClientActionView::Nothing),
    }
}

/// A client that asks for a port off the server's allow-list ends with
/// the server's locked-port message, which names the port, and with an
/// exit status other than zero.
pub proof fn lemma_locked_port_reaches_the_user(
    allowed: Set<u16>,
    port: u16,
    description: Seq<char>,
)
    requires
        !allowed.contains(port),
    ensures
        client_sees(
            server_step(
                ServerPhase::AwaitingRequest,
                allowed,
                ServerEventView::HeaderRead { bytes: port_header(port) },
            ).1,
            description,
        ) == finished(ClientOutcomeView::Rejected { reason: locked_port_text(port) }),
        occurs_in(decimal(port as nat), locked_port_text(port)),
        (ClientOutcomeView::Rejected { reason: locked_port_text(port) }).exit_code() != 0,
{
    lemma_unlisted_port_is_rejected(allowed, port);
    lemma_rejection_is_surfaced_verbatim(SessionErrorView::PolicyRejected { port }, description);
}

/// Where nothing answers on the authorized port, the client ends with
/// the server's connect error, word for word.
pub proof fn lemma_connect_failure_reaches_the_user(
    allowed: Set<u16>,
    port: u16,
    message: Seq<char>,
    description: Seq<char>,
)
    ensures
        client_sees(
            server_step(
                ServerPhase::Connecting { port },
                allowed,
                ServerEventView::ConnectFailed { message },
            ).1,
            description,
        ) == finished(ClientOutcomeView::Rejected { reason: message }),
{
    lemma_rejection_is_surfaced_verbatim(
        SessionErrorView::LocalConnectFailure { message },
        description,
    );
}

/// Where both relay directions end cleanly, the server closes gracefully
/// and the client ends cleanly: no message, exit status zero.
pub proof fn lemma_clean_relay_ends_cleanly(allowed: Set<u16>, port: u16, description: Seq<char>)
    ensures
        client_sees(
            server_step(
                ServerPhase::Relaying { port },
                allowed,
                ServerEventView::RelayFinished {
                    report: RelayReportView { outbound: None, inbound: None },
                },
            ).1,
            description,
        ) == finished(ClientOutcomeView::Clean),
        ClientOutcomeView::Clean.exit_code() == 0,
        ClientOutcomeView::Clean.message() is None,
{
}

/// A session for an authorized port goes from the request to the relay:
/// the server connects to that port and to no other, and relays once the
/// connection stands.
pub proof fn lemma_listed_port_is_forwarded(allowed: Set<u16>, port: u16)
    requires
        allowed.contains(port),
    ensures
        server_step(
            ServerPhase::AwaitingRequest,
            allowed,
            ServerEventView::HeaderRead { bytes: port_header(port) },
        ) == (ServerPhase::Connecting { port }, ServerActionView::Connect { port }),
        server_step(ServerPhase::Connecting { port }, allowed, ServerEventView::Connected) == (
            ServerPhase::Relaying { port },
            ServerActionView::Relay { port },
        ),
{
    lemma_header_round_trip(port);
}

} // verus!

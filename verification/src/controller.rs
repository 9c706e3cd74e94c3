//! The controller: admitting a connection request and settling it once the
//! socket has been set up.
//!
//! A request is served in two calls with the socket work between them.
//! [`connect_udp`] admits the request and claims the link; the caller then
//! makes the socket non-blocking and fixes its remote end, without holding
//! the state's lock; [`complete_connect`] takes the report and either
//! confirms the attempt or gives the link back.

use vstd::prelude::*;
use crate::endpoint::{endpoint_text, remote_endpoint};
use crate::state::StateManager;
use crate::status::ConnectionStatus;

verus! {

/// Why a connection request did not start an attempt.
#[derive(Clone, Copy, Debug, PartialEq, Eq, Structural)]
pub enum ConnectError {
    /// An attempt is under way or has succeeded. Nothing was changed.
    AlreadyActive,
    /// The socket could not be made non-blocking.
    SocketConfigError,
    /// The socket's remote end could not be fixed at the endpoint.
    ConnectError,
}

/// What setting up the socket came to.
#[derive(Clone, Copy, Debug, PartialEq, Eq, Structural)]
pub enum SocketSetup {
    /// The socket is non-blocking and its remote end is fixed.
    Ready,
    /// The socket could not be made non-blocking.
    ConfigFailed,
    /// The socket is non-blocking, but the endpoint was refused.
    ConnectFailed,
}

/// The text of an error, to which the caller may add the socket's own words.
pub open spec fn error_text(error: ConnectError) -> Seq<char> {
    match error {
        ConnectError::AlreadyActive => "Already connecting or connected"@,
        ConnectError::SocketConfigError => "Failed to set nonblocking"@,
        ConnectError::ConnectError => "Failed to connect"@,
    }
}

impl ConnectError {
    pub fn message(&self) -> (text: &'static str)
        ensures
            text@ == error_text(*self),
    {
        match self {
            ConnectError::AlreadyActive => "Already connecting or connected",
            ConnectError::SocketConfigError => "Failed to set nonblocking",
            ConnectError::ConnectError => "Failed to connect",
        }
    }
}

impl SocketSetup {
    /// The error that a failed setup is reported as.
    pub open spec fn error(self) -> Option<ConnectError> {
        match self {
            SocketSetup::Ready => None,
            SocketSetup::ConfigFailed => Some(ConnectError::SocketConfigError),
            SocketSetup::ConnectFailed => Some(ConnectError::ConnectError),
        }
    }

    /// The status that the setup leaves: the attempt stands if the socket is
    /// ready, and the link is given back if it is not.
    pub open spec fn status(self) -> ConnectionStatus {
        match self {
            SocketSetup::Ready => ConnectionStatus::Connecting,
            _ => ConnectionStatus::Disconnected,
        }
    }
}

/// The state with another status and nothing else changed.
pub open spec fn with_status(state: StateManager, status: ConnectionStatus) -> StateManager {
    StateManager { connection: status, ..state }
}

/// What a connection request does to the state: it claims an idle link and
/// leaves a claimed one alone.
pub open spec fn requested(state: StateManager) -> StateManager {
    if state.connection.active() {
        state
    } else {
        with_status(state, ConnectionStatus::Connecting)
    }
}

/// The error that a connection request meets in the state, if any.
pub open spec fn request_error(state: StateManager) -> Option<ConnectError> {
    if state.connection.active() {
        Some(ConnectError::AlreadyActive)
    } else {
        None
    }
}

/// The state after `n` connection requests in a row.
pub open spec fn requested_times(state: StateManager, n: nat) -> StateManager
    decreases n,
{
    if n == 0 {
        state
    } else {
        requested(requested_times(state, (n - 1) as nat))
    }
}

/// Admits or rejects a connection request.
///
/// While an attempt is under way or has succeeded the request is rejected
/// with `AlreadyActive` and the state is left as it was. Otherwise the
/// status becomes `Connecting` and the answer is the endpoint
/// `address:port` at which the caller fixes the socket's remote end, after
/// it has made the socket non-blocking. The caller reports how that went
/// with [`complete_connect`]. Success here means that an attempt has
/// started, not that the peer can be reached.
pub fn connect_udp(state: &mut StateManager, address: &str, port: u32) -> (plan: Result<
    String,
    ConnectError,
>)
    ensures
        *final(state) == requested(*old(state)),
        match request_error(*old(state)) {
            Some(error) => plan == Err::<String, ConnectError>(error),
            None => plan matches Ok(endpoint) && endpoint@ == endpoint_text(
                address@,
                port as nat,
            ),
        },
{
    if state.connection.is_active() {
        return Err(ConnectError::AlreadyActive);
    }
    state.connection = ConnectionStatus::Connecting;
    Ok(remote_endpoint(address, port))
}

/// Settles an admitted request once the socket has been set up.
///
/// With the socket ready the attempt stands: the status is `Connecting`,
/// and the answer is the status to publish in a status event, after which
/// the caller starts one monitor. With the socket not ready the link is
/// given back: the status is `Disconnected`, nothing is published, and the
/// answer is the error to hand to whoever asked.
pub fn complete_connect(state: &mut StateManager, setup: SocketSetup) -> (event: Result<
    ConnectionStatus,
    ConnectError,
>)
    ensures
        *final(state) == with_status(*old(state), setup.status()),
        event == match setup.error() {
            None => Ok::<ConnectionStatus, ConnectError>(ConnectionStatus::Connecting),
            Some(error) => Err::<ConnectionStatus, ConnectError>(error),
        },
{
    match setup {
        SocketSetup::Ready => {
            state.connection = ConnectionStatus::Connecting;
            Ok(ConnectionStatus::Connecting)
        },
        SocketSetup::ConfigFailed => {
            state.connection = ConnectionStatus::Disconnected;
            Err(ConnectError::SocketConfigError)
        },
        SocketSetup::ConnectFailed => {
            state.connection = ConnectionStatus::Disconnected;
            Err(ConnectError::ConnectError)
        },
    }
}

/// However many connection requests arrive while an attempt is under way or
/// has succeeded, the state after them is the state before the first, and
/// the next request is rejected with `AlreadyActive` and changes nothing
/// either.
pub proof fn lemma_active_link_rejects_requests(state: StateManager, n: nat)
    requires
        state.connection.active(),
    ensures
        requested_times(state, n) == state,
        request_error(requested_times(state, n)) == Some(ConnectError::AlreadyActive),
        requested(requested_times(state, n)) == state,
    decreases n,
{
    if n > 0 {
        lemma_active_link_rejects_requests(state, (n - 1) as nat);
    }
}

} // verus!

//! The liveness monitor: one decision per poll of the socket.
//!
//! The caller owns the loop. It tries a non-blocking receive into its
//! buffer, reads a monotonic clock, and hands both to
//! [`LivenessMonitor::poll`]; the answer says whether to publish data, to
//! wait one interval, or to announce the loss of the link and end the loop.
//! Instants are nanoseconds on the caller's monotonic clock.

use vstd::prelude::*;
use vstd::slice::slice_subrange;
use crate::state::StateManager;
use crate::status::ConnectionStatus;

verus! {

/// The longest silence that still counts as a live link: three seconds.
pub const LIVENESS_TIMEOUT_NANOS: u64 = 3_000_000_000;

/// The pause between two polls: ten milliseconds.
pub const POLL_INTERVAL_NANOS: u64 = 10_000_000;

/// The size of the buffer that a receive fills: 64 KiB.
pub const RECEIVE_BUFFER_SIZE: usize = 65536;

/// What one non-blocking receive came back with.
#[derive(Clone, Copy, Debug, PartialEq, Eq, Structural)]
pub enum ReceiveOutcome {
    /// A packet of so many bytes stands at the front of the buffer.
    Received(usize),
    /// Nothing was waiting.
    WouldBlock,
    /// The socket reported any other error.
    Failed,
}

/// What the caller does after a poll.
#[derive(Clone, Copy, Debug, PartialEq, Eq)]
pub enum MonitorAction<'a> {
    /// Publish the bytes as a data event, wait one interval, poll again.
    Forward(&'a [u8]),
    /// Wait one interval, poll again.
    Wait,
    /// Publish the status, which is now `Disconnected`, and end the loop.
    Stop,
}

/// How long the link has been silent at `now`. A clock that ran backwards
/// counts as no silence.
pub open spec fn silence(last_packet: u64, now: u64) -> nat {
    if now > last_packet {
        (now - last_packet) as nat
    } else {
        0
    }
}

/// The silence is longer than the timeout allows.
pub open spec fn overdue(last_packet: u64, now: u64) -> bool {
    silence(last_packet, now) > LIVENESS_TIMEOUT_NANOS
}

/// The poll ends the monitor: the receive failed, or nothing was waiting
/// and the peer is overdue.
pub open spec fn poll_stops(last_packet: u64, outcome: ReceiveOutcome, now: u64) -> bool {
    match outcome {
        ReceiveOutcome::Received(_) => false,
        ReceiveOutcome::WouldBlock => overdue(last_packet, now),
        ReceiveOutcome::Failed => true,
    }
}

/// The instant of the latest packet once the poll is done.
pub open spec fn poll_last_packet(last_packet: u64, outcome: ReceiveOutcome, now: u64) -> u64 {
    match outcome {
        ReceiveOutcome::Received(_) => now,
        _ => last_packet,
    }
}

/// The status once the poll is done: lost if the poll ends the monitor, as
/// before otherwise. No poll sets `Connecting` or `Connected`.
pub open spec fn poll_status(
    status: ConnectionStatus,
    last_packet: u64,
    outcome: ReceiveOutcome,
    now: u64,
) -> ConnectionStatus {
    if poll_stops(last_packet, outcome, now) {
        ConnectionStatus::Disconnected
    } else {
        status
    }
}

impl<'a> MonitorAction<'a> {
    /// The status event that the action publishes, if any.
    pub open spec fn announces(self) -> Option<ConnectionStatus> {
        match self {
            MonitorAction::Stop => Some(ConnectionStatus::Disconnected),
            _ => None,
        }
    }

    /// The status to publish in a status event, if the action asks for one.
    pub fn status_event(&self) -> (event: Option<ConnectionStatus>)
        ensures
            event == self.announces(),
    {
        match self {
            MonitorAction::Stop => Some(ConnectionStatus::Disconnected),
            _ => None,
        }
    }

    /// Whether the loop goes on after the action.
    pub fn continues(&self) -> (r: bool)
        ensures
            r == !(*self is Stop),
    {
        match self {
            MonitorAction::Stop => false,
            _ => true,
        }
    }
}

/// The monitor of one connection attempt.
#[derive(Clone, Copy, Debug)]
pub struct LivenessMonitor {
    /// When the latest packet arrived, or when the monitor started if none
    /// has.
    pub last_packet_time: u64,
}

impl LivenessMonitor {
    /// A monitor that starts at `now`.
    pub fn start(now: u64) -> (monitor: Self)
        ensures
            monitor.last_packet_time == now,
    {
        LivenessMonitor { last_packet_time: now }
    }

    /// Whether the link has been silent for longer than the timeout at `now`.
    pub fn is_overdue(&self, now: u64) -> (r: bool)
        ensures
            r == overdue(self.last_packet_time, now),
    {
        now > self.last_packet_time && now - self.last_packet_time > LIVENESS_TIMEOUT_NANOS
    }

    /// Decides one iteration of the loop from what the receive came back
    /// with at the instant `now`.
    ///
    /// A packet resets the silence and is forwarded, whole and unparsed. If
    /// nothing was waiting, the monitor goes on unless the peer is overdue.
    /// An overdue peer and a failed receive both end the monitor: the status
    /// becomes `Disconnected` and the action is `Stop`. Nothing else in
    /// `state` changes.
    ///
    /// A receive never reports more bytes than the buffer holds.
    pub fn poll<'a>(
        &mut self,
        state: &mut StateManager,
        outcome: ReceiveOutcome,
        buffer: &'a [u8],
        now: u64,
    ) -> (action: MonitorAction<'a>)
        requires
            outcome matches ReceiveOutcome::Received(n) ==> n <= buffer@.len(),
        ensures
            final(self).last_packet_time == poll_last_packet(
                old(self).last_packet_time,
                outcome,
                now,
            ),
            final(state).connection == poll_status(
                old(state).connection,
                old(self).last_packet_time,
                outcome,
                now,
            ),
            final(state).sensor_data == old(state).sensor_data,
            final(state).settings == old(state).settings,
            action is Stop <==> poll_stops(old(self).last_packet_time, outcome, now),
            action.announces() matches Some(status) ==> status == final(state).connection,
            final(state).connection != old(state).connection ==> action.announces() == Some(
                final(state).connection,
            ),
            match outcome {
                ReceiveOutcome::Received(n) => action matches MonitorAction::Forward(payload)
                    && payload@ == buffer@.subrange(0, n as int),
                _ => action is Wait || action is Stop,
            },
    {
        match outcome {
            ReceiveOutcome::Received(n) => {
                self.last_packet_time = now;
                MonitorAction::Forward(slice_subrange(buffer, 0, n))
            },
            ReceiveOutcome::WouldBlock => {
                if self.is_overdue(now) {
                    state.connection = ConnectionStatus::Disconnected;
                    MonitorAction::Stop
                } else {
                    MonitorAction::Wait
                }
            },
            ReceiveOutcome::Failed => {
                state.connection = ConnectionStatus::Disconnected;
                MonitorAction::Stop
            },
        }
    }
}

} // verus!

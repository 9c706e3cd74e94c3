//! The link as a whole: requests, setup reports and polls in any order that
//! the controller and the monitor allow.
//!
//! The model follows one shared state through a run of steps and records
//! the status events that the controller and the monitor publish on the
//! way. Each step changes the state as the function that serves it does:
//! [`crate::controller::connect_udp`] for a request,
//! [`crate::controller::complete_connect`] for a setup report and
//! [`crate::monitor::LivenessMonitor::poll`] for a poll.

use vstd::prelude::*;
use crate::controller::{requested, with_status, SocketSetup};
use crate::monitor::{poll_last_packet, poll_status, poll_stops, ReceiveOutcome};
use crate::state::StateManager;
use crate::status::ConnectionStatus;

verus! {

/// The link at one point of a run.
pub struct Link {
    pub state: StateManager,
    /// A request has been admitted and its socket setup is not reported yet.
    pub setting_up: bool,
    /// How many monitors are polling.
    pub monitors: nat,
    /// What the monitor holds as the instant of the latest packet.
    pub last_packet: u64,
    /// The status events published so far, oldest first.
    pub events: Seq<ConnectionStatus>,
}

/// One thing that happens to the link.
pub enum Step {
    /// A connection request arrives.
    Request,
    /// The socket setup of the admitted request is reported; if the socket
    /// is ready, a monitor starts at the instant given.
    Setup(SocketSetup, u64),
    /// A monitor polls at the instant given.
    Poll(ReceiveOutcome, u64),
}

/// The status that observers were told of last; before any event they take
/// the link as disconnected.
pub open spec fn announced(events: Seq<ConnectionStatus>) -> ConnectionStatus {
    if events.len() == 0 {
        ConnectionStatus::Disconnected
    } else {
        events.last()
    }
}

impl Link {
    /// The link at application start.
    pub open spec fn fresh(self) -> bool {
        &&& self.state.connection == ConnectionStatus::Disconnected
        &&& !self.setting_up
        &&& self.monitors == 0
        &&& self.events.len() == 0
    }

    /// The step can happen: a setup is reported only for an admitted
    /// request, and only a running monitor polls.
    pub open spec fn allows(self, step: Step) -> bool {
        match step {
            Step::Request => true,
            Step::Setup(_, _) => self.setting_up,
            Step::Poll(_, _) => self.monitors > 0,
        }
    }

    /// The link after the step.
    pub open spec fn after(self, step: Step) -> Link {
        match step {
            Step::Request => Link {
                state: requested(self.state),
                setting_up: self.setting_up || !self.state.connection.active(),
                ..self
            },
            Step::Setup(setup, now) => if setup.error() is None {
                Link {
                    state: with_status(self.state, setup.status()),
                    setting_up: false,
                    monitors: self.monitors + 1,
                    last_packet: now,
                    events: self.events.push(setup.status()),
                }
            } else {
                Link {
                    state: with_status(self.state, setup.status()),
                    setting_up: false,
                    ..self
                }
            },
            Step::Poll(outcome, now) => {
                let status = poll_status(self.state.connection, self.last_packet, outcome, now);
                if poll_stops(self.last_packet, outcome, now) {
                    Link {
                        state: with_status(self.state, status),
                        monitors: (self.monitors - 1) as nat,
                        events: self.events.push(status),
                        ..self
                    }
                } else {
                    Link {
                        state: with_status(self.state, status),
                        last_packet: poll_last_packet(self.last_packet, outcome, now),
                        ..self
                    }
                }
            },
        }
    }

    /// Every step of the run can happen when its turn comes.
    pub open spec fn allows_run(self, steps: Seq<Step>) -> bool
        decreases steps.len(),
    {
        steps.len() > 0 ==> self.allows_run(steps.drop_last()) && self.after_run(
            steps.drop_last(),
        ).allows(steps.last())
    }

    /// The link after the run.
    pub open spec fn after_run(self, steps: Seq<Step>) -> Link
        decreases steps.len(),
    {
        if steps.len() == 0 {
            self
        } else {
            self.after_run(steps.drop_last()).after(steps.last())
        }
    }

    /// What holds of the link at every point of a run from the start.
    ///
    /// The link is idle, or being set up, or watched by one monitor, and the
    /// status says which: `Disconnected` if idle, `Connecting` otherwise,
    /// never `Connected`. Observers have been told of the status, except
    /// during a setup, of which they have not heard yet.
    pub open spec fn consistent(self) -> bool {
        &&& self.monitors <= 1
        &&& !(self.setting_up && self.monitors == 1)
        &&& self.state.connection == if self.setting_up || self.monitors == 1 {
            ConnectionStatus::Connecting
        } else {
            ConnectionStatus::Disconnected
        }
        &&& announced(self.events) == if self.monitors == 1 {
            ConnectionStatus::Connecting
        } else {
            ConnectionStatus::Disconnected
        }
    }
}

/// No step breaks the link: from a consistent link every step that can
/// happen leads to a consistent link. In particular no second monitor
/// starts while one is polling or a setup is pending, because the request
/// that would lead to it is rejected.
pub proof fn lemma_step_keeps_link_consistent(link: Link, step: Step)
    requires
        link.consistent(),
        link.allows(step),
    ensures
        link.after(step).consistent(),
{
}

/// A fresh link is consistent, and stays so through every run.
pub proof fn lemma_run_keeps_link_consistent(link: Link, steps: Seq<Step>)
    requires
        link.fresh(),
        link.allows_run(steps),
    ensures
        link.after_run(steps).consistent(),
    decreases steps.len(),
{
    if steps.len() > 0 {
        lemma_run_keeps_link_consistent(link, steps.drop_last());
        lemma_step_keeps_link_consistent(link.after_run(steps.drop_last()), steps.last());
    }
}

/// Status events follow the status: none missing, none twice, none wrong.
///
/// A step publishes at most one status event, and what it publishes is the
/// status that the step leaves. An event is published exactly if the step
/// changes what observers have to know: it never repeats the event before
/// it. And once the step is done, observers have been told of the status,
/// unless a setup is pending, whose outcome they will hear of or which ends
/// where it began.
pub proof fn lemma_events_follow_status(link: Link, step: Step)
    requires
        link.consistent(),
        link.allows(step),
    ensures
        link.after(step).events == link.events || link.after(step).events == link.events.push(
            link.after(step).state.connection,
        ),
        link.after(step).events != link.events <==> announced(link.after(step).events)
            != announced(link.events),
        !link.after(step).setting_up ==> announced(link.after(step).events) == link.after(
            step,
        ).state.connection,
        link.after(step).setting_up ==> announced(link.after(step).events)
            == ConnectionStatus::Disconnected,
{
    let after = link.after(step);
    lemma_step_keeps_link_consistent(link, step);
    if after.events != link.events {
        assert(after.events == link.events.push(after.state.connection));
        assert(after.events.last() == after.state.connection);
    }
}

/// A receive error drops a watched link at once. The link was `Connecting`
/// and is `Disconnected` after the poll, without having been `Connected`;
/// the monitor is gone, and observers are told once.
pub proof fn lemma_receive_error_drops_link(link: Link, now: u64)
    requires
        link.consistent(),
        link.monitors == 1,
    ensures
        link.state.connection == ConnectionStatus::Connecting,
        link.after(Step::Poll(ReceiveOutcome::Failed, now)).state.connection
            == ConnectionStatus::Disconnected,
        link.after(Step::Poll(ReceiveOutcome::Failed, now)).monitors == 0,
        link.after(Step::Poll(ReceiveOutcome::Failed, now)).events == link.events.push(
            ConnectionStatus::Disconnected,
        ),
{
}

/// A link that is watched or being set up turns every request away and is
/// left as it was, so that no second setup and no second monitor begins.
pub proof fn lemma_claimed_link_rejects_request(link: Link)
    requires
        link.consistent(),
        link.setting_up || link.monitors == 1,
    ensures
        link.after(Step::Request) == link,
{
}

} // verus!

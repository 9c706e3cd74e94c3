//! What the monitor does over a whole run of polls.
//!
//! A run is the sequence of polls that one monitor makes, each with what the
//! receive came back with and the instant at which it was made. The
//! functions here fold [`poll_last_packet`] and [`poll_stops`] over a run,
//! so what is proved of them holds of a loop that calls
//! [`crate::monitor::LivenessMonitor::poll`] once per poll.

use vstd::prelude::*;
use crate::monitor::{
    poll_last_packet,
    poll_stops,
    silence,
    ReceiveOutcome,
    LIVENESS_TIMEOUT_NANOS,
    POLL_INTERVAL_NANOS,
};

verus! {

/// One poll of a run.
pub struct Poll {
    pub outcome: ReceiveOutcome,
    pub now: u64,
}

/// The instant of the latest packet once a monitor that started at `start`
/// has made the polls; `start` itself if none of them brought a packet.
pub open spec fn latest_packet(start: u64, polls: Seq<Poll>) -> u64
    decreases polls.len(),
{
    if polls.len() == 0 {
        start
    } else {
        poll_last_packet(
            latest_packet(start, polls.drop_last()),
            polls.last().outcome,
            polls.last().now,
        )
    }
}

/// Poll `i` of the run ends the monitor, if the monitor gets that far.
pub open spec fn stops_at(start: u64, polls: Seq<Poll>, i: int) -> bool {
    poll_stops(latest_packet(start, polls.take(i)), polls[i].outcome, polls[i].now)
}

/// Poll `i` is the one at which the monitor ends: it stops there and at no
/// poll before.
pub open spec fn ends_at(start: u64, polls: Seq<Poll>, i: int) -> bool {
    &&& 0 <= i < polls.len()
    &&& stops_at(start, polls, i)
    &&& forall|j: int| 0 <= j < i ==> !stops_at(start, polls, j)
}

/// The monitor is still polling after the whole run.
pub open spec fn survives(start: u64, polls: Seq<Poll>) -> bool {
    forall|i: int| 0 <= i < polls.len() ==> !stops_at(start, polls, i)
}

/// No poll of the run brought a packet or an error.
pub open spec fn silent(polls: Seq<Poll>) -> bool {
    forall|i: int| 0 <= i < polls.len() ==> (#[trigger] polls[i]).outcome
        == ReceiveOutcome::WouldBlock
}

/// The polls follow the start and each other in time order.
pub open spec fn in_time_order(start: u64, polls: Seq<Poll>) -> bool {
    &&& forall|i: int| 0 <= i < polls.len() ==> start <= (#[trigger] polls[i]).now
    &&& forall|i: int, j: int|
        0 <= i <= j < polls.len() ==> (#[trigger] polls[i]).now <= (#[trigger] polls[j]).now
}

/// The polls are in time order, and neither the first poll after the start
/// nor any poll after the one before comes later than one poll interval.
pub open spec fn paced(start: u64, polls: Seq<Poll>) -> bool {
    &&& in_time_order(start, polls)
    &&& polls.len() > 0 ==> polls[0].now - start <= POLL_INTERVAL_NANOS
    &&& forall|i: int|
        0 < i < polls.len() ==> (#[trigger] polls[i]).now - polls[i - 1].now
            <= POLL_INTERVAL_NANOS
}

/// At every poll of the run, that poll or a later one brings a packet no
/// later than the timeout after the packet before it (or after the start).
pub open spec fn packets_keep_coming(start: u64, polls: Seq<Poll>) -> bool {
    forall|i: int|
        0 <= i < polls.len() ==> exists|j: int|
            i <= j < polls.len() && (#[trigger] polls[j]).outcome is Received && polls[j].now
                - #[trigger] latest_packet(start, polls.take(i)) <= LIVENESS_TIMEOUT_NANOS
}

proof fn lemma_silent_keeps_start(start: u64, polls: Seq<Poll>)
    requires
        silent(polls),
    ensures
        latest_packet(start, polls) == start,
    decreases polls.len(),
{
    if polls.len() > 0 {
        let front = polls.drop_last();
        assert forall|i: int| 0 <= i < front.len() implies (#[trigger] front[i]).outcome
            == ReceiveOutcome::WouldBlock by {
            assert(front[i] == polls[i]);
        }
        lemma_silent_keeps_start(start, front);
        assert(polls.last() == polls[polls.len() - 1]);
    }
}

proof fn lemma_first_stop(start: u64, polls: Seq<Poll>, k: int)
    requires
        0 <= k < polls.len(),
        stops_at(start, polls, k),
    ensures
        exists|i: int| 0 <= i <= k && ends_at(start, polls, i),
    decreases k,
{
    if exists|j: int| 0 <= j < k && stops_at(start, polls, j) {
        let j = choose|j: int| 0 <= j < k && stops_at(start, polls, j);
        lemma_first_stop(start, polls, j);
    } else {
        assert(ends_at(start, polls, k));
    }
}

/// A link on which nothing ever arrives is dropped, once, and on time.
///
/// Take a monitor that starts at `start` and polls at least once per poll
/// interval, and let every receive find nothing waiting. Then a poll ends
/// the monitor exactly if it is made more than the timeout after the start;
/// the poll at which the monitor ends falls after the timeout and no later
/// than one poll interval after it; and the monitor does end if the run
/// goes on beyond the timeout.
pub proof fn lemma_silent_link_is_dropped_on_time(start: u64, polls: Seq<Poll>)
    requires
        silent(polls),
        paced(start, polls),
    ensures
        forall|i: int|
            0 <= i < polls.len() ==> (#[trigger] stops_at(start, polls, i) <==> polls[i].now
                - start > LIVENESS_TIMEOUT_NANOS),
        forall|i: int| #[trigger]
            ends_at(start, polls, i) ==> LIVENESS_TIMEOUT_NANOS < polls[i].now - start
                <= LIVENESS_TIMEOUT_NANOS + POLL_INTERVAL_NANOS,
        polls.len() > 0 && polls.last().now - start > LIVENESS_TIMEOUT_NANOS ==> exists|i: int|
            ends_at(start, polls, i),
{
    assert forall|i: int| 0 <= i < polls.len() implies (#[trigger] stops_at(start, polls, i)
        <==> polls[i].now - start > LIVENESS_TIMEOUT_NANOS) by {
        let front = polls.take(i);
        assert forall|k: int| 0 <= k < front.len() implies (#[trigger] front[k]).outcome
            == ReceiveOutcome::WouldBlock by {
            assert(front[k] == polls[k]);
        }
        lemma_silent_keeps_start(start, front);
        assert(polls[i].outcome == ReceiveOutcome::WouldBlock);
        assert(start <= polls[i].now);
        assert(silence(start, polls[i].now) == polls[i].now - start);
    }
    assert forall|i: int| #[trigger] ends_at(start, polls, i) implies LIVENESS_TIMEOUT_NANOS
        < polls[i].now - start <= LIVENESS_TIMEOUT_NANOS + POLL_INTERVAL_NANOS by {
        assert(stops_at(start, polls, i));
        if i > 0 {
            assert(!stops_at(start, polls, i - 1));
            assert(polls[i].now - polls[i - 1].now <= POLL_INTERVAL_NANOS);
        }
    }
    if polls.len() > 0 && polls.last().now - start > LIVENESS_TIMEOUT_NANOS {
        let k = polls.len() - 1;
        assert(polls.last() == polls[k]);
        assert(stops_at(start, polls, k));
        lemma_first_stop(start, polls, k);
    }
}

/// A link on which packets keep coming in time is never dropped.
///
/// Take a run in time order in which no receive fails, and in which every
/// packet comes no later than the timeout after the packet before it, the
/// first no later than the timeout after the start. Then no poll of the run
/// ends the monitor, however long the run is.
pub proof fn lemma_lively_link_is_kept(start: u64, polls: Seq<Poll>)
    requires
        in_time_order(start, polls),
        forall|i: int| 0 <= i < polls.len() ==> (#[trigger] polls[i]).outcome
            != ReceiveOutcome::Failed,
        packets_keep_coming(start, polls),
    ensures
        survives(start, polls),
{
    assert forall|i: int| 0 <= i < polls.len() implies !stops_at(start, polls, i) by {
        let front = polls.take(i);
        let last_packet = latest_packet(start, front);
        let j = choose|j: int|
            i <= j < polls.len() && (#[trigger] polls[j]).outcome is Received && polls[j].now
                - latest_packet(start, polls.take(i)) <= LIVENESS_TIMEOUT_NANOS;
        assert(polls[i].now <= polls[j].now);
        assert(polls[i].outcome != ReceiveOutcome::Failed);
        assert(silence(last_packet, polls[i].now) <= LIVENESS_TIMEOUT_NANOS);
    }
}

} // verus!

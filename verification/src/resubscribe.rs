//! The decisions of the daemon that keeps a subscription alive: it sleeps,
//! looks whether it was told to stop, renews the subscription, and sleeps
//! again for as long as the device then granted, less a margin. The caller
//! does the sleeping and the requests and hands back what happened.

use crate::device::{next_resubscribe_delay, resubscribe_delay};
use crate::error::Error;
use crate::rpc::SubscribeResponse;
use vstd::prelude::*;

verus! {

/// What happened since the daemon's last action.
pub enum DaemonEvent {
    /// The daemon woke from its sleep; `stop` tells whether it was told to
    /// stop meanwhile (or can no longer be told anything).
    Woke { stop: bool },
    /// A renewal of the subscription came back with this outcome.
    Renewed(Result<SubscribeResponse, Error>),
}

/// What the daemon does next.
#[derive(Debug, Clone, Copy, PartialEq, Eq, Structural)]
pub enum DaemonAction {
    /// Sleep this many seconds, then report `Woke`.
    Sleep(u64),
    /// Renew the subscription, then report `Renewed`.
    Renew,
    /// End; nothing more is sent.
    Stop,
}

/// The daemon's state: the subscription ID it last obtained, how long it
/// sleeps before the next renewal, and whether it has stopped.
pub struct Resubscriber {
    pub sid: String,
    pub delay: u64,
    pub stopped: bool,
}

impl View for Resubscriber {
    type V = (Seq<char>, u64, bool);

    open spec fn view(&self) -> (Seq<char>, u64, bool) {
        (self.sid@, self.delay, self.stopped)
    }
}

/// One step of the daemon: a stopped daemon stays stopped; on waking it
/// stops when told to and renews otherwise; after a renewal it keeps the
/// new ID and sleeps ten seconds less than the time granted, and after a
/// failed renewal it keeps its ID and sleeps as long as before, then tries
/// again.
pub open spec fn daemon_step(s: (Seq<char>, u64, bool), e: DaemonEvent) -> (
    (Seq<char>, u64, bool),
    DaemonAction,
) {
    if s.2 {
        (s, DaemonAction::Stop)
    } else {
        match e {
            DaemonEvent::Woke { stop } => if stop {
                ((s.0, s.1, true), DaemonAction::Stop)
            } else {
                (s, DaemonAction::Renew)
            },
            DaemonEvent::Renewed(Ok(g)) => (
                (g.sid@, (g.timeout - 10) as u64, false),
                DaemonAction::Sleep((g.timeout - 10) as u64),
            ),
            DaemonEvent::Renewed(Err(_)) => (s, DaemonAction::Sleep(s.1)),
        }
    }
}

/// The actions the daemon takes, from state `s`, as the events come in.
pub open spec fn daemon_actions(s: (Seq<char>, u64, bool), events: Seq<DaemonEvent>) -> Seq<
    DaemonAction,
>
    decreases events.len(),
{
    if events.len() == 0 {
        Seq::empty()
    } else {
        let p = daemon_step(s, events[0]);
        seq![p.1] + daemon_actions(p.0, events.drop_first())
    }
}

impl Resubscriber {
    /// A daemon for a subscription `sid` of `seconds` seconds, with its
    /// first action: sleep ten seconds less than that.
    pub fn new(sid: String, seconds: u64) -> (r: (Resubscriber, DaemonAction))
        requires
            seconds >= 10,
        ensures
            r.0@ == (sid@, (seconds - 10) as u64, false),
            r.1 == DaemonAction::Sleep((seconds - 10) as u64),
    {
        let delay = resubscribe_delay(seconds);
        (Resubscriber { sid, delay, stopped: false }, DaemonAction::Sleep(delay))
    }

    /// Takes what happened and gives the next action.
    pub fn next(&mut self, event: DaemonEvent) -> (a: DaemonAction)
        requires
            event matches DaemonEvent::Renewed(Ok(g)) ==> g.timeout >= 10,
        ensures
            (final(self)@, a) == daemon_step(old(self)@, event),
    {
        if self.stopped {
            return DaemonAction::Stop;
        }
        match event {
            DaemonEvent::Woke { stop } => {
                if stop {
                    self.stopped = true;
                    DaemonAction::Stop
                } else {
                    DaemonAction::Renew
                }
            },
            DaemonEvent::Renewed(outcome) => {
                self.delay = next_resubscribe_delay(self.delay, &outcome);
                if let Ok(granted) = outcome {
                    self.sid = granted.sid;
                }
                DaemonAction::Sleep(self.delay)
            },
        }
    }
}

/// The daemon takes one action for each event.
pub proof fn lemma_daemon_actions_len(s: (Seq<char>, u64, bool), events: Seq<DaemonEvent>)
    ensures
        daemon_actions(s, events).len() == events.len(),
    decreases events.len(),
{
    if events.len() > 0 {
        lemma_daemon_actions_len(daemon_step(s, events[0]).0, events.drop_first());
    }
}

/// Law: a stopped daemon does nothing but stop, whatever comes in.
pub proof fn lemma_stopped_daemon_only_stops(s: (Seq<char>, u64, bool), events: Seq<DaemonEvent>)
    requires
        s.2,
    ensures
        forall|j: int| 0 <= j < events.len() ==> daemon_actions(s, events)[j] == DaemonAction::Stop,
    decreases events.len(),
{
    lemma_daemon_actions_len(s, events);
    if events.len() > 0 {
        let rest = events.drop_first();
        lemma_stopped_daemon_only_stops(s, rest);
        assert forall|j: int| 0 <= j < events.len() implies daemon_actions(s, events)[j]
            == DaemonAction::Stop by {
            if j > 0 {
                assert(daemon_actions(s, events)[j] == daemon_actions(s, rest)[j - 1]);
            }
        }
    }
}

/// Law: once the daemon wakes to find it was told to stop, it renews no
/// more: that action and every later one is `Stop`.
pub proof fn lemma_stop_ends_renewals(s: (Seq<char>, u64, bool), events: Seq<DaemonEvent>, i: int)
    requires
        0 <= i < events.len(),
        events[i] == (DaemonEvent::Woke { stop: true }),
    ensures
        forall|j: int|
            i <= j < events.len() ==> #[trigger] daemon_actions(s, events)[j] == DaemonAction::Stop,
    decreases i,
{
    let p = daemon_step(s, events[0]);
    let rest = events.drop_first();
    lemma_daemon_actions_len(s, events);
    if i == 0 {
        assert(p.0.2);
        lemma_stopped_daemon_only_stops(p.0, rest);
        assert forall|j: int| 0 <= j < events.len() implies #[trigger] daemon_actions(s, events)[j]
            == DaemonAction::Stop by {
            if j > 0 {
                assert(daemon_actions(s, events)[j] == daemon_actions(p.0, rest)[j - 1]);
            }
        }
    } else {
        assert(rest[i - 1] == events[i]);
        lemma_stop_ends_renewals(p.0, rest, i - 1);
        assert forall|j: int| i <= j < events.len() implies #[trigger] daemon_actions(s, events)[j]
            == DaemonAction::Stop by {
            assert(daemon_actions(s, events)[j] == daemon_actions(p.0, rest)[j - 1]);
        }
    }
}

/// Law: a renewal that succeeds gives the daemon the new subscription ID
/// and a sleep ten seconds shorter than the time granted; one that fails
/// leaves ID and sleep as they were, and on waking the daemon renews again.
pub proof fn lemma_renewal_outcome(
    s: (Seq<char>, u64, bool),
    outcome: Result<SubscribeResponse, Error>,
)
    requires
        !s.2,
    ensures
        match outcome {
            Ok(g) => daemon_step(s, DaemonEvent::Renewed(outcome)) == (
                (g.sid@, (g.timeout - 10) as u64, false),
                DaemonAction::Sleep((g.timeout - 10) as u64),
            ),
            Err(_) => {
                &&& daemon_step(s, DaemonEvent::Renewed(outcome)) == (s, DaemonAction::Sleep(s.1))
                &&& daemon_step(s, DaemonEvent::Woke { stop: false }) == (s, DaemonAction::Renew)
            },
        },
{
}

} // verus!

//! The discovery loop as a mathematical state machine.
//!
//! A state holds the candidate backlog, the addresses admitted so far in the
//! order of their admission, and where in a round the loop stands. An event
//! is something that happened outside; the answer to it is the next state
//! and the one action that the driver is to perform.

use vstd::prelude::*;
use crate::probe::ProbeReport;
use crate::probe::validated;
use crate::probe::PROBE_TIMEOUT_SECS;

verus! {

/// Seconds of rest between two rounds.
pub const ROUND_INTERVAL_SECS: u64 = 2;

/// Number of admitted addresses above which the end of a round is marked
/// with a notice. The notice is advice only: admission goes on.
pub const SOFT_CAP: usize = 100;

/// A change of the pool of endpoints.
pub enum ChangeView {
    /// The endpoint at this address joins the pool under this slot.
    Insert(nat, Seq<char>),
}

impl ChangeView {
    /// The slot that the change speaks of.
    pub open spec fn slot(self) -> nat {
        match self {
            ChangeView::Insert(slot, _) => slot,
        }
    }

    /// The address that the change speaks of.
    pub open spec fn addr(self) -> Seq<char> {
        match self {
            ChangeView::Insert(_, addr) => addr,
        }
    }
}

/// Something that happened outside the loop.
pub enum EventView {
    /// The loop was started, or its rest is over.
    Wake,
    /// A probe of this round has finished.
    Probed { addr: Seq<char>, report: ProbeReport },
    /// The consumer took the change that was to be published.
    Delivered,
    /// The consumer is gone.
    Disconnected,
}

/// What the driver of the loop is asked to do.
pub enum ActionView {
    /// Probe all these addresses at once, each within the timeout, and
    /// report each probe as it finishes.
    Probe { addrs: Seq<Seq<char>>, timeout_secs: u64 },
    /// Nothing to do but to await what is outstanding.
    Wait,
    /// Hand this change to the consumer and report how that went.
    Publish(ChangeView),
    /// The round is over: give the notice if asked to, rest, then wake
    /// the loop.
    Sleep { secs: u64, notice: bool },
    /// The loop has ended.
    Stop,
}

/// Where in a round the loop stands.
pub enum PhaseView {
    /// Between rounds.
    Idle,
    /// Probes are under way.
    Probing,
    /// The admission of this address is with the consumer.
    Publishing(Seq<char>),
    /// The consumer went away; the loop has ended.
    Stopped,
}

/// The state of the discovery loop.
pub struct DiscoverView {
    /// Candidates that await the next round.
    pub backlog: Seq<Seq<char>>,
    /// The admitted addresses; the one at index `k` holds slot `k`.
    pub admitted: Seq<Seq<char>>,
    pub phase: PhaseView,
    /// Probes of the round that have not reported yet.
    pub pending: nat,
}

impl DiscoverView {
    /// The state that the loop starts in.
    pub open spec fn start(backlog: Seq<Seq<char>>) -> DiscoverView {
        DiscoverView { backlog, admitted: Seq::empty(), phase: PhaseView::Idle, pending: 0 }
    }

    /// No address is admitted twice, none is on offer that is admitted
    /// already, and while probes are awaited some are under way.
    pub open spec fn wf(self) -> bool {
        &&& self.admitted.no_duplicates()
        &&& self.phase matches PhaseView::Publishing(addr) ==> !self.admitted.contains(addr)
        &&& self.phase is Probing ==> self.pending > 0
    }

    /// Whether `addr` is admitted or on offer to the consumer.
    pub open spec fn claims(self, addr: Seq<char>) -> bool {
        self.admitted.contains(addr) || self.phase == PhaseView::Publishing(addr)
    }

    /// The slot that the next new address will be offered under.
    pub open spec fn next_slot(self) -> nat {
        if self.phase is Publishing {
            self.admitted.len() + 1
        } else {
            self.admitted.len()
        }
    }

    /// The round is over.
    pub open spec fn round_end(self) -> (DiscoverView, ActionView) {
        (
            DiscoverView { phase: PhaseView::Idle, pending: 0, ..self },
            ActionView::Sleep { secs: ROUND_INTERVAL_SECS, notice: self.admitted.len() > SOFT_CAP },
        )
    }

    /// One probe has been dealt with: on to the next, or to the end of the
    /// round if it was the last.
    pub open spec fn settle(self) -> (DiscoverView, ActionView) {
        if self.pending == 0 {
            self.round_end()
        } else {
            (DiscoverView { phase: PhaseView::Probing, ..self }, ActionView::Wait)
        }
    }

    /// A probe came back without an endpoint, or with one that is not new.
    pub open spec fn dropped(self) -> (DiscoverView, ActionView) {
        DiscoverView { pending: (self.pending - 1) as nat, ..self }.settle()
    }

    /// A probe came back with an endpoint at `addr`: a new address goes to
    /// the consumer under the next free slot, a known one is passed over.
    pub open spec fn found(self, addr: Seq<char>) -> (DiscoverView, ActionView) {
        if self.admitted.contains(addr) {
            self.dropped()
        } else {
            (
                DiscoverView {
                    phase: PhaseView::Publishing(addr),
                    pending: (self.pending - 1) as nat,
                    ..self
                },
                ActionView::Publish(ChangeView::Insert(self.admitted.len(), addr)),
            )
        }
    }

    /// The loop wakes up: a backlog is handed out whole to be probed, an
    /// empty one ends the round at once.
    pub open spec fn wake(self) -> (DiscoverView, ActionView) {
        if self.backlog.len() == 0 {
            self.round_end()
        } else {
            (
                DiscoverView {
                    backlog: Seq::empty(),
                    phase: PhaseView::Probing,
                    pending: self.backlog.len(),
                    ..self
                },
                ActionView::Probe { addrs: self.backlog, timeout_secs: PROBE_TIMEOUT_SECS },
            )
        }
    }

    /// The answer of the loop to `event`. An event that the phase does not
    /// await changes nothing; once stopped, nothing changes any more.
    pub open spec fn step(self, event: EventView) -> (DiscoverView, ActionView) {
        match self.phase {
            PhaseView::Stopped => (self, ActionView::Stop),
            PhaseView::Idle => match event {
                EventView::Wake => self.wake(),
                _ => (self, ActionView::Wait),
            },
            PhaseView::Probing => match event {
                EventView::Probed { addr, report } => match validated(addr, report) {
                    Some(alive) => self.found(alive),
                    None => self.dropped(),
                },
                _ => (self, ActionView::Wait),
            },
            PhaseView::Publishing(addr) => match event {
                EventView::Delivered => DiscoverView { admitted: self.admitted.push(addr), ..self }.settle(),
                EventView::Disconnected => (DiscoverView { phase: PhaseView::Stopped, ..self }, ActionView::Stop),
                _ => (self, ActionView::Wait),
            },
        }
    }
}

/// Every answer of the loop leaves a well-formed state well-formed.
pub proof fn lemma_step_wf(state: DiscoverView, event: EventView)
    requires
        state.wf(),
    ensures
        state.step(event).0.wf(),
{
    let next = state.step(event).0;
    if let PhaseView::Publishing(addr) = state.phase {
        if event is Delivered {
            let grown = state.admitted.push(addr);
            assert(grown.no_duplicates()) by {
                assert forall|i: int, j: int| 0 <= i < grown.len() && 0 <= j < grown.len() && i != j implies grown[i]
                    != grown[j] by {
                    if i < state.admitted.len() {
                        assert(state.admitted.contains(grown[i]));
                    }
                    if j < state.admitted.len() {
                        assert(state.admitted.contains(grown[j]));
                    }
                }
            }
        }
    }
}

} // verus!

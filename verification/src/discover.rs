//! The discovery loop.
//!
//! [`RPCDiscover`] decides; it neither probes, nor sends, nor sleeps. Its
//! driver feeds it one [`Event`] at a time through [`RPCDiscover::run`] and
//! performs the [`Action`] that comes back:
//!
//! * start with [`Event::Wake`];
//! * on [`Action::Probe`], probe all the addresses at once and report each
//!   probe with [`Event::Probed`] as it finishes, first finished first;
//! * on [`Action::Publish`], send the change to the consumer, waiting while
//!   the channel is full, and report [`Event::Delivered`] or, if the
//!   consumer is gone, [`Event::Disconnected`];
//! * on [`Action::Sleep`], rest and then report [`Event::Wake`];
//! * on [`Action::Wait`], go on awaiting what is outstanding;
//! * on [`Action::Stop`], end.

use vstd::prelude::*;
use crate::model::ActionView;
use crate::model::ChangeView;
use crate::model::DiscoverView;
use crate::model::EventView;
use crate::model::PhaseView;
use crate::model::ROUND_INTERVAL_SECS;
use crate::model::SOFT_CAP;
use crate::probe::Endpoint;
use crate::probe::ProbeReport;
use crate::probe::check_rpc;
use crate::probe::PROBE_TIMEOUT_SECS;

verus! {

/// A change of the pool of endpoints, as the consumer receives it.
#[derive(Clone, Debug, PartialEq, Eq)]
pub enum Change {
    /// The endpoint joins the pool under this slot.
    Insert(usize, Endpoint),
}

impl View for Change {
    type V = ChangeView;

    open spec fn view(&self) -> ChangeView {
        match *self {
            Change::Insert(slot, endpoint) => ChangeView::Insert(slot as nat, endpoint@),
        }
    }
}

/// Something that happened outside the loop.
#[derive(Clone, Debug, PartialEq, Eq)]
pub enum Event {
    /// The loop was started, or its rest is over.
    Wake,
    /// A probe of this round has finished.
    Probed { addr: String, report: ProbeReport },
    /// The consumer took the change that was to be published.
    Delivered,
    /// The consumer is gone.
    Disconnected,
}

impl View for Event {
    type V = EventView;

    open spec fn view(&self) -> EventView {
        match *self {
            Event::Wake => EventView::Wake,
            Event::Probed { addr, report } => EventView::Probed { addr: addr@, report },
            Event::Delivered => EventView::Delivered,
            Event::Disconnected => EventView::Disconnected,
        }
    }
}

/// What the driver of the loop is asked to do.
#[derive(Clone, Debug, PartialEq, Eq)]
pub enum Action {
    /// Probe all these addresses at once, each within the timeout, and
    /// report each probe as it finishes.
    Probe { addrs: Vec<String>, timeout_secs: u64 },
    /// Nothing to do but to await what is outstanding.
    Wait,
    /// Hand this change to the consumer and report how that went.
    Publish(Change),
    /// The round is over: give the notice if asked to, rest, then wake
    /// the loop.
    Sleep { secs: u64, notice: bool },
    /// The loop has ended.
    Stop,
}

impl View for Action {
    type V = ActionView;

    open spec fn view(&self) -> ActionView {
        match *self {
            Action::Probe { addrs, timeout_secs } => ActionView::Probe { addrs: addrs.deep_view(), timeout_secs },
            Action::Wait => ActionView::Wait,
            Action::Publish(change) => ActionView::Publish(change@),
            Action::Sleep { secs, notice } => ActionView::Sleep { secs, notice },
            Action::Stop => ActionView::Stop,
        }
    }
}

/// Where in a round the loop stands.
#[derive(Debug)]
enum Phase {
    /// Between rounds.
    Idle,
    /// Probes are under way.
    Probing,
    /// The admission of this address is with the consumer.
    Publishing(String),
    /// The consumer went away; the loop has ended.
    Stopped,
}

impl View for Phase {
    type V = PhaseView;

    closed spec fn view(&self) -> PhaseView {
        match *self {
            Phase::Idle => PhaseView::Idle,
            Phase::Probing => PhaseView::Probing,
            Phase::Publishing(addr) => PhaseView::Publishing(addr@),
            Phase::Stopped => PhaseView::Stopped,
        }
    }
}

/// Whether `addr` is among `list`.
fn is_listed(list: &Vec<String>, addr: &String) -> (listed: bool)
    ensures
        listed == list.deep_view().contains(addr@),
{
    let mut i: usize = 0;
    while i < list.len()
        invariant
            i <= list.len(),
            forall|j: int| 0 <= j < i ==> list.deep_view()[j] != addr@,
        decreases list.len() - i,
    {
        if list[i] == *addr {
            assert(list.deep_view()[i as int] == addr@);
            return true;
        }
        i += 1;
    }
    false
}

/// The state of the discovery loop: the candidates that await probing, the
/// addresses admitted so far, and where in a round the loop stands.
#[derive(Debug)]
pub struct RPCDiscover {
    /// Candidates that await the next round.
    initial_list: Vec<String>,
    /// The admitted addresses in the order of their admission; none occurs
    /// twice, and the one at index `k` holds slot `k`.
    already_connected: Vec<String>,
    phase: Phase,
    /// Probes of the round that have not reported yet.
    pending: usize,
}

impl View for RPCDiscover {
    type V = DiscoverView;

    closed spec fn view(&self) -> DiscoverView {
        DiscoverView {
            backlog: self.initial_list.deep_view(),
            admitted: self.already_connected.deep_view(),
            phase: self.phase@,
            pending: self.pending as nat,
        }
    }
}

impl RPCDiscover {
    #[verifier::type_invariant]
    spec fn inv(&self) -> bool {
        self@.wf()
    }

    /// A loop that has admitted nothing yet and will probe `initial_list`
    /// in its first round.
    pub fn new(initial_list: Vec<String>) -> (discover: RPCDiscover)
        ensures
            discover@ == DiscoverView::start(initial_list.deep_view()),
            discover@.wf(),
    {
        let discover = RPCDiscover {
            initial_list,
            already_connected: Vec::new(),
            phase: Phase::Idle,
            pending: 0,
        };
        assert(discover.already_connected.deep_view() =~= Seq::<Seq<char>>::empty());
        discover
    }

    /// The candidates that await the next round.
    pub fn initial_list(&self) -> (list: &Vec<String>)
        ensures
            list.deep_view() == self@.backlog,
    {
        &self.initial_list
    }

    /// The admitted addresses, in the order of their slots.
    pub fn already_connected(&self) -> (list: &Vec<String>)
        ensures
            list.deep_view() == self@.admitted,
    {
        &self.already_connected
    }

    /// Whether the loop has ended.
    pub fn is_stopped(&self) -> (stopped: bool)
        ensures
            stopped == (self@.phase is Stopped),
    {
        match self.phase {
            Phase::Stopped => true,
            _ => false,
        }
    }

    /// Ends the round.
    fn round_end(initial_list: Vec<String>, already_connected: Vec<String>) -> (out: (RPCDiscover, Action))
        requires
            already_connected.deep_view().no_duplicates(),
        ensures
            out.0@ == (DiscoverView {
                backlog: initial_list.deep_view(),
                admitted: already_connected.deep_view(),
                phase: PhaseView::Idle,
                pending: 0,
            }),
            out.1@ == (ActionView::Sleep {
                secs: ROUND_INTERVAL_SECS,
                notice: already_connected.deep_view().len() > SOFT_CAP,
            }),
    {
        let notice = already_connected.len() > SOFT_CAP;
        (
            RPCDiscover { initial_list, already_connected, phase: Phase::Idle, pending: 0 },
            Action::Sleep { secs: ROUND_INTERVAL_SECS, notice },
        )
    }

    /// Goes on after one probe has been dealt with.
    fn settle(initial_list: Vec<String>, already_connected: Vec<String>, pending: usize) -> (out: (
        RPCDiscover,
        Action,
    ))
        requires
            already_connected.deep_view().no_duplicates(),
        ensures
            (out.0@, out.1@) == (DiscoverView {
                backlog: initial_list.deep_view(),
                admitted: already_connected.deep_view(),
                phase: PhaseView::Idle,
                pending: pending as nat,
            }).settle(),
    {
        if pending == 0 {
            Self::round_end(initial_list, already_connected)
        } else {
            (RPCDiscover { initial_list, already_connected, phase: Phase::Probing, pending }, Action::Wait)
        }
    }

    /// Takes in an endpoint that a probe of this round validated. One whose
    /// address was admitted before is passed over; a new one is offered to
    /// the consumer under the next free slot, and is admitted only when
    /// the consumer has taken it.
    fn found_rpc(self, rpc: Endpoint) -> (out: (RPCDiscover, Action))
        requires
            self@.phase is Probing,
        ensures
            (out.0@, out.1@) == self@.found(rpc@),
    {
        proof {
            use_type_invariant(&self);
        }
        let RPCDiscover { initial_list, already_connected, phase: _, pending } = self;
        if is_listed(&already_connected, &rpc.addr) {
            Self::settle(initial_list, already_connected, pending - 1)
        } else {
            let slot = already_connected.len();
            let addr = rpc.addr.clone();
            (
                RPCDiscover { initial_list, already_connected, phase: Phase::Publishing(addr), pending: pending - 1 },
                Action::Publish(Change::Insert(slot, rpc)),
            )
        }
    }

    /// Answers one event: the next state of the loop and the action that its
    /// driver is to perform.
    ///
    /// Waking hands the whole backlog out to be probed, or ends the round at
    /// once if there is none. Each probe that comes back is judged by
    /// [`check_rpc`]; what it validated and is new goes to the consumer,
    /// anything else is dropped. When the last probe of a round is dealt
    /// with, the round ends in a rest. A consumer that is gone ends the
    /// loop for good. An event that the loop does not await changes
    /// nothing and is answered with [`Action::Wait`].
    pub fn run(self, event: Event) -> (out: (RPCDiscover, Action))
        ensures
            (out.0@, out.1@) == self@.step(event@),
            self@.wf(),
            out.0@.wf(),
    {
        proof {
            use_type_invariant(&self);
            crate::model::lemma_step_wf(self@, event@);
        }
        match self.phase {
            Phase::Stopped => (self, Action::Stop),
            Phase::Idle => match event {
                Event::Wake => {
                    let RPCDiscover { initial_list, already_connected, phase: _, pending: _ } = self;
                    if initial_list.len() == 0 {
                        Self::round_end(initial_list, already_connected)
                    } else {
                        let pending = initial_list.len();
                        let next = RPCDiscover {
                            initial_list: Vec::new(),
                            already_connected,
                            phase: Phase::Probing,
                            pending,
                        };
                        assert(next.initial_list.deep_view() =~= Seq::<Seq<char>>::empty());
                        (next, Action::Probe { addrs: initial_list, timeout_secs: PROBE_TIMEOUT_SECS })
                    }
                },
                _ => (self, Action::Wait),
            },
            Phase::Probing => match event {
                Event::Probed { addr, report } => match check_rpc(addr, report) {
                    Some(rpc) => self.found_rpc(rpc),
                    None => {
                        let RPCDiscover { initial_list, already_connected, phase: _, pending } = self;
                        Self::settle(initial_list, already_connected, pending - 1)
                    },
                },
                _ => (self, Action::Wait),
            },
            Phase::Publishing(_) => match event {
                Event::Delivered => {
                    let RPCDiscover { initial_list, already_connected, phase, pending } = self;
                    let mut already_connected = already_connected;
                    if let Phase::Publishing(addr) = phase {
                        already_connected.push(addr);
                    }
                    assert(already_connected.deep_view() =~= self@.admitted.push(self@.phase->Publishing_0));
                    Self::settle(initial_list, already_connected, pending)
                },
                Event::Disconnected => {
                    let RPCDiscover { initial_list, already_connected, phase: _, pending } = self;
                    (RPCDiscover { initial_list, already_connected, phase: Phase::Stopped, pending }, Action::Stop)
                },
                _ => (self, Action::Wait),
            },
        }
    }
}

} // verus!

//! What holds of the discovery loop along every run of events.
//!
//! The loop is followed through a sequence of events by [`after`],
//! [`actions`] and [`stream`]; the laws below speak of all sequences, so
//! they hold whatever the probes and the consumer do, and in whatever order.

use vstd::prelude::*;
use crate::model::ActionView;
use crate::model::ChangeView;
use crate::model::DiscoverView;
use crate::model::EventView;
use crate::model::PhaseView;
use crate::model::lemma_step_wf;
use crate::probe::ProbeReport;

verus! {

/// The state that `events`, taken in order, lead to from `state`.
pub open spec fn after(state: DiscoverView, events: Seq<EventView>) -> DiscoverView
    decreases events.len(),
{
    if events.len() == 0 {
        state
    } else {
        after(state.step(events.first()).0, events.drop_first())
    }
}

/// The actions that the loop asks for along `events`, one for each event.
pub open spec fn actions(state: DiscoverView, events: Seq<EventView>) -> Seq<ActionView>
    decreases events.len(),
{
    if events.len() == 0 {
        Seq::empty()
    } else {
        seq![state.step(events.first()).1] + actions(state.step(events.first()).0, events.drop_first())
    }
}

/// The changes that an action puts into the stream of admissions.
pub open spec fn published(action: ActionView) -> Seq<ChangeView> {
    match action {
        ActionView::Publish(change) => seq![change],
        _ => Seq::empty(),
    }
}

/// The stream of admissions: the changes that the loop hands to the
/// consumer along `events`, in the order in which it hands them over.
pub open spec fn stream(state: DiscoverView, events: Seq<EventView>) -> Seq<ChangeView>
    decreases events.len(),
{
    if events.len() == 0 {
        Seq::empty()
    } else {
        published(state.step(events.first()).1) + stream(state.step(events.first()).0, events.drop_first())
    }
}

/// Following a run that begins with `event` is answering `event` and
/// following the rest.
pub proof fn lemma_unfold(state: DiscoverView, event: EventView, rest: Seq<EventView>)
    ensures
        after(state, seq![event] + rest) == after(state.step(event).0, rest),
        actions(state, seq![event] + rest) == seq![state.step(event).1] + actions(state.step(event).0, rest),
        stream(state, seq![event] + rest) == published(state.step(event).1) + stream(state.step(event).0, rest),
{
    let events = seq![event] + rest;
    assert(events.first() == event);
    assert(events.drop_first() =~= rest);
}

/// Every state that a run reaches is well-formed: at no time is an address
/// admitted twice, or on offer while admitted already.
pub proof fn law_reachable_states_are_well_formed(state: DiscoverView, events: Seq<EventView>)
    requires
        state.wf(),
    ensures
        after(state, events).wf(),
        after(state, events).admitted.no_duplicates(),
    decreases events.len(),
{
    if events.len() > 0 {
        lemma_step_wf(state, events.first());
        law_reachable_states_are_well_formed(state.step(events.first()).0, events.drop_first());
    }
}

/// Admission is for good: whatever happens, the addresses admitted stay
/// admitted and keep their slots; the loop only ever adds to them.
pub proof fn law_admitted_only_grows(state: DiscoverView, events: Seq<EventView>)
    ensures
        state.admitted.is_prefix_of(after(state, events).admitted),
    decreases events.len(),
{
    if events.len() > 0 {
        let next = state.step(events.first()).0;
        law_admitted_only_grows(next, events.drop_first());
        assert(state.admitted.is_prefix_of(next.admitted));
    }
}

/// A loop that has stopped stays as it is, asks for nothing but to stop,
/// and admits nothing.
pub proof fn lemma_stopped(state: DiscoverView, events: Seq<EventView>)
    requires
        state.phase is Stopped,
    ensures
        after(state, events) == state,
        actions(state, events).len() == events.len(),
        forall|i: int| 0 <= i < events.len() ==> actions(state, events)[i] is Stop,
        stream(state, events).len() == 0,
    decreases events.len(),
{
    if events.len() > 0 {
        lemma_stopped(state, events.drop_first());
    }
}

/// Along every run the slots offered count up from the next free one, and
/// each address offered is new: neither claimed at the outset nor offered
/// before.
pub proof fn lemma_stream(state: DiscoverView, events: Seq<EventView>)
    requires
        state.wf(),
    ensures
        forall|i: int|
            0 <= i < stream(state, events).len() ==> {
                &&& (#[trigger] stream(state, events)[i]).slot() == state.next_slot() + i
                &&& !state.claims(stream(state, events)[i].addr())
            },
        forall|i: int, j: int|
            0 <= i < j < stream(state, events).len() ==> (#[trigger] stream(state, events)[i]).addr() != (
            #[trigger] stream(state, events)[j]).addr(),
    decreases events.len(),
{
    if events.len() > 0 {
        let event = events.first();
        let (next, action) = state.step(event);
        let rest = events.drop_first();
        let head = published(action);
        let tail = stream(next, rest);
        let all = stream(state, events);
        assert(all == head + tail);
        lemma_step_wf(state, event);
        lemma_stream(next, rest);
        if next.phase is Stopped {
            lemma_stopped(next, rest);
        }
        if let ActionView::Publish(change) = action {
            assert(state.phase is Probing);
            assert(change.slot() == state.next_slot());
            assert(!state.claims(change.addr()));
            assert(next.claims(change.addr()));
            assert(next.next_slot() == state.next_slot() + 1);
            assert forall|addr: Seq<char>| state.claims(addr) implies next.claims(addr) by {}
            assert forall|i: int| 0 <= i < all.len() implies {
                &&& (#[trigger] all[i]).slot() == state.next_slot() + i
                &&& !state.claims(all[i].addr())
            } by {
                if i > 0 {
                    assert(all[i] == tail[i - 1]);
                }
            }
            assert forall|i: int, j: int| 0 <= i < j < all.len() implies (#[trigger] all[i]).addr() != (
            #[trigger] all[j]).addr() by {
                assert(all[j] == tail[j - 1]);
                if i > 0 {
                    assert(all[i] == tail[i - 1]);
                }
            }
        } else {
            assert(all =~= tail);
            if !(next.phase is Stopped) {
                assert(next.next_slot() == state.next_slot());
                assert forall|addr: Seq<char>| state.claims(addr) implies next.claims(addr) by {
                    if let PhaseView::Publishing(offered) = state.phase {
                        if event is Delivered {
                            assert(next.admitted == state.admitted.push(offered));
                            if state.admitted.contains(addr) {
                                let k = choose|k: int| 0 <= k < state.admitted.len() && state.admitted[k] == addr;
                                assert(next.admitted[k] == addr);
                            } else {
                                assert(next.admitted[state.admitted.len() as int] == addr);
                            }
                        }
                    }
                }
            }
        }
    }
}

/// Admission is unique: along every run of events no address is handed to
/// the consumer twice, and none that was admitted before the run.
pub proof fn law_admission_uniqueness(state: DiscoverView, events: Seq<EventView>)
    requires
        state.wf(),
    ensures
        forall|i: int, j: int|
            0 <= i < j < stream(state, events).len() ==> (#[trigger] stream(state, events)[i]).addr() != (
            #[trigger] stream(state, events)[j]).addr(),
        forall|i: int|
            0 <= i < stream(state, events).len() ==> !state.admitted.contains(
                (#[trigger] stream(state, events)[i]).addr(),
            ),
{
    lemma_stream(state, events);
}

/// Slots count up by one: along every run of events the changes handed to
/// the consumer carry the slots that follow the last one given out, each
/// exactly one above the one before.
pub proof fn law_admission_slots(state: DiscoverView, events: Seq<EventView>)
    requires
        state.wf(),
    ensures
        forall|i: int|
            0 <= i < stream(state, events).len() ==> (#[trigger] stream(state, events)[i]).slot()
                == state.next_slot() + i,
{
    lemma_stream(state, events);
}

/// A loop that starts afresh gives out the slots 0, 1, 2, .. in this
/// order, whatever its backlog and whatever happens.
pub proof fn law_slots_from_zero(backlog: Seq<Seq<char>>, events: Seq<EventView>)
    ensures
        forall|i: int|
            0 <= i < stream(DiscoverView::start(backlog), events).len() ==> (#[trigger] stream(
                DiscoverView::start(backlog),
                events,
            )[i]).slot() == i,
{
    lemma_stream(DiscoverView::start(backlog), events);
}

/// A failed probe is dropped in silence: whether no client could be built,
/// the query failed or the node did not answer in time, nothing is handed
/// to the consumer, nothing is admitted, and the loop neither stops nor
/// leaves the round while other probes are under way.
pub proof fn law_failed_probe_is_dropped(state: DiscoverView, addr: Seq<char>, report: ProbeReport)
    requires
        state.wf(),
        state.phase is Probing,
        !(report is Alive),
    ensures
        ({
            let (next, action) = state.step(EventView::Probed { addr, report });
            &&& action == if state.pending == 1 {
                state.round_end().1
            } else {
                ActionView::Wait
            }
            &&& next.admitted == state.admitted
            &&& next.backlog == state.backlog
            &&& next.pending == state.pending - 1
            &&& next.phase == if state.pending == 1 {
                PhaseView::Idle
            } else {
                PhaseView::Probing
            }
        }),
        stream(state, seq![EventView::Probed { addr, report }]).len() == 0,
{
    let event = EventView::Probed { addr, report };
    lemma_unfold(state, event, Seq::empty());
    assert(seq![event] + Seq::<EventView>::empty() =~= seq![event]);
}

/// Shutdown is graceful and final: when the consumer turns out to be gone
/// at a publish attempt, the loop stops with backlog and admitted addresses
/// as they were, and from then on it asks for no probe and no publish,
/// whatever happens and whatever the backlog holds.
pub proof fn law_shutdown_is_final(state: DiscoverView, events: Seq<EventView>)
    requires
        state.phase is Publishing,
    ensures
        ({
            let (stopped, action) = state.step(EventView::Disconnected);
            &&& action is Stop
            &&& stopped.phase is Stopped
            &&& stopped.backlog == state.backlog
            &&& stopped.admitted == state.admitted
            &&& after(stopped, events) == stopped
            &&& actions(stopped, events).len() == events.len()
            &&& forall|i: int| 0 <= i < events.len() ==> actions(stopped, events)[i] is Stop
            &&& stream(stopped, events).len() == 0
        }),
{
    lemma_stopped(state.step(EventView::Disconnected).0, events);
}

/// Finding a node again changes nothing: a probe that validates an address
/// which is admitted already hands nothing to the consumer and leaves the
/// admitted addresses as they are.
pub proof fn law_rediscovery_is_idempotent(state: DiscoverView, addr: Seq<char>)
    requires
        state.wf(),
        state.phase is Probing,
        state.admitted.contains(addr),
    ensures
        ({
            let (next, action) = state.step(EventView::Probed { addr, report: ProbeReport::Alive });
            &&& !(action is Publish)
            &&& next.admitted == state.admitted
        }),
        stream(state, seq![EventView::Probed { addr, report: ProbeReport::Alive }]).len() == 0,
{
    let event = EventView::Probed { addr, report: ProbeReport::Alive };
    lemma_unfold(state, event, Seq::empty());
    assert(seq![event] + Seq::<EventView>::empty() =~= seq![event]);
}

/// A probe that has finished.
pub struct Completion {
    pub addr: Seq<char>,
    pub report: ProbeReport,
}

impl Completion {
    /// The event that reports the probe.
    pub open spec fn event(self) -> EventView {
        EventView::Probed { addr: self.addr, report: self.report }
    }
}

/// The events of a round in which the probes finish in the order of
/// `completions` and the consumer takes every change it is offered.
pub open spec fn round_events(state: DiscoverView, completions: Seq<Completion>) -> Seq<EventView>
    decreases completions.len(),
{
    if completions.len() == 0 {
        Seq::empty()
    } else {
        let probed = completions.first().event();
        let (next, action) = state.step(probed);
        if action is Publish {
            seq![probed, EventView::Delivered] + round_events(
                next.step(EventView::Delivered).0,
                completions.drop_first(),
            )
        } else {
            seq![probed] + round_events(next, completions.drop_first())
        }
    }
}

/// The admissions that are due when probes finish in the order of
/// `completions` and `admitted` holds the addresses admitted before: one
/// for each address that answered and is new, at its first answer, under
/// the next free slot.
pub open spec fn admissions_in_order(admitted: Seq<Seq<char>>, completions: Seq<Completion>) -> Seq<ChangeView>
    decreases completions.len(),
{
    if completions.len() == 0 {
        Seq::empty()
    } else if completions.first().report is Alive && !admitted.contains(completions.first().addr) {
        seq![ChangeView::Insert(admitted.len(), completions.first().addr)] + admissions_in_order(
            admitted.push(completions.first().addr),
            completions.drop_first(),
        )
    } else {
        admissions_in_order(admitted, completions.drop_first())
    }
}

/// The addresses of `changes`, in order.
pub open spec fn addrs_of(changes: Seq<ChangeView>) -> Seq<Seq<char>> {
    Seq::new(changes.len(), |i: int| changes[i].addr())
}

/// Admission follows completion: in a round whose probes finish in the
/// order of `completions`, with a consumer that takes what it is offered,
/// the stream of admissions is exactly [`admissions_in_order`]. The order in
/// which the candidates stood in the backlog has no part in it. The round
/// ends with the admitted addresses grown by those of the stream, in the
/// order of the stream.
pub proof fn law_completion_order(state: DiscoverView, completions: Seq<Completion>)
    requires
        state.wf(),
        state.phase is Probing,
        state.pending == completions.len(),
    ensures
        stream(state, round_events(state, completions)) == admissions_in_order(state.admitted, completions),
        after(state, round_events(state, completions)) == (DiscoverView {
            backlog: state.backlog,
            admitted: state.admitted + addrs_of(admissions_in_order(state.admitted, completions)),
            phase: PhaseView::Idle,
            pending: 0,
        }),
    decreases completions.len(),
{
    let first = completions.first();
    let rest = completions.drop_first();
    let probed = first.event();
    let (next, action) = state.step(probed);
    lemma_step_wf(state, probed);
    if action is Publish {
        let (taken, silent) = next.step(EventView::Delivered);
        lemma_step_wf(next, EventView::Delivered);
        let tail = round_events(taken, rest);
        assert(seq![probed, EventView::Delivered] + tail =~= seq![probed] + (seq![EventView::Delivered] + tail));
        lemma_unfold(state, probed, seq![EventView::Delivered] + tail);
        lemma_unfold(next, EventView::Delivered, tail);
        assert(published(silent).len() == 0);
        assert(stream(state, round_events(state, completions)) =~= published(action) + stream(taken, tail));
        let grown = state.admitted.push(first.addr);
        assert(taken.admitted == grown);
        if rest.len() > 0 {
            law_completion_order(taken, rest);
        }
        let due = admissions_in_order(state.admitted, completions);
        let due_rest = admissions_in_order(grown, rest);
        assert(due == seq![ChangeView::Insert(state.admitted.len(), first.addr)] + due_rest);
        assert(state.admitted + addrs_of(due) =~= grown + addrs_of(due_rest));
    } else {
        let tail = round_events(next, rest);
        lemma_unfold(state, probed, tail);
        assert(stream(state, round_events(state, completions)) =~= stream(next, tail));
        if rest.len() > 0 {
            law_completion_order(next, rest);
        }
        assert(state.admitted + addrs_of(admissions_in_order(state.admitted, rest)) =~= state.admitted + addrs_of(
            admissions_in_order(state.admitted, completions),
        ));
    }
}

} // verus!

//! One subscriber's live stream of newly stored records.
//!
//! A subscription watches every key of the store from the moment it is opened.
//! Its owner waits on the watch and hands each change event to
//! [`Subscription::on_event`], which says what to do with it: the owner
//! performs that action and comes back with the next event. Each subscription
//! has a watch and a queue of its own, and none reads another's state.

use crate::fault::{Fault, FaultView};
use crate::key::key_text;
use crate::record::{Transaction, TransactionView};
use vstd::prelude::*;

verus! {

/// The number of records that a subscription's delivery queue holds. A
/// producer that finds the queue full waits for room: no record is dropped.
pub const QUEUE_CAPACITY: usize = 10_000_000;

/// The prefix of the keys that a subscription watches: the empty one, so that
/// no record is filtered out.
pub open spec fn watched_prefix() -> Seq<char> {
    Seq::empty()
}

/// The prefix to register a subscription's watch with.
pub fn watch_prefix() -> (prefix: String)
    ensures
        prefix@ == watched_prefix(),
{
    String::new()
}

/// The mathematical value of a [`ChangeEvent`].
pub enum ChangeEventView {
    Inserted(TransactionView),
    Removed,
    Broken(FaultView),
}

/// What a watch on the store reports.
#[derive(Debug)]
pub enum ChangeEvent {
    /// A record was written, and this is it.
    Inserted(Transaction),
    /// A key was removed.
    Removed,
    /// The watch failed, or what was written does not decode as a record.
    Broken(Fault),
}

impl View for ChangeEvent {
    type V = ChangeEventView;

    open spec fn view(&self) -> ChangeEventView {
        match self {
            ChangeEvent::Inserted(record) => ChangeEventView::Inserted(record@),
            ChangeEvent::Removed => ChangeEventView::Removed,
            ChangeEvent::Broken(fault) => ChangeEventView::Broken(fault@),
        }
    }
}

/// The mathematical value of an [`Action`].
pub enum ActionView {
    Deliver(TransactionView),
    Skip,
    Fail(FaultView),
    Discard,
}

/// What the owner of a subscription does with a change event.
#[derive(Debug)]
pub enum Action {
    /// Push this record onto the subscriber's queue, waiting while it is full.
    Deliver(Transaction),
    /// Nothing to deliver; wait for the next event.
    Skip,
    /// The subscription has ended with this fault: release the watch and close
    /// the queue.
    Fail(Fault),
    /// The subscription had ended before the event came: the event is
    /// discarded.
    Discard,
}

impl View for Action {
    type V = ActionView;

    open spec fn view(&self) -> ActionView {
        match self {
            Action::Deliver(record) => ActionView::Deliver(record@),
            Action::Skip => ActionView::Skip,
            Action::Fail(fault) => ActionView::Fail(fault@),
            Action::Discard => ActionView::Discard,
        }
    }
}

/// The two states of a subscription. An active one has its watch registered
/// and its queue open; a closed one has neither, and stays closed.
#[derive(Clone, Copy, Debug, PartialEq, Eq, Structural)]
pub enum Phase {
    Active,
    Closed,
}

/// The state after a subscription in state `phase` is handed `event`, and the
/// action to take.
pub open spec fn step(phase: Phase, event: ChangeEventView) -> (Phase, ActionView) {
    match phase {
        Phase::Closed => (Phase::Closed, ActionView::Discard),
        Phase::Active => match event {
            ChangeEventView::Inserted(record) => (Phase::Active, ActionView::Deliver(record)),
            ChangeEventView::Removed => (Phase::Active, ActionView::Skip),
            ChangeEventView::Broken(fault) => (Phase::Closed, ActionView::Fail(fault)),
        },
    }
}

/// The state of a subscription that was in state `phase` and has since been
/// handed `events`, oldest first.
pub open spec fn phase_after(phase: Phase, events: Seq<ChangeEventView>) -> Phase
    decreases events.len(),
{
    if events.len() == 0 {
        phase
    } else {
        step(phase_after(phase, events.drop_last()), events.last()).0
    }
}

/// The records that a subscription in state `phase` delivers when handed
/// `events`, oldest first.
pub open spec fn delivered(phase: Phase, events: Seq<ChangeEventView>) -> Seq<TransactionView>
    decreases events.len(),
{
    if events.len() == 0 {
        Seq::empty()
    } else {
        let earlier = delivered(phase, events.drop_last());
        match step(phase_after(phase, events.drop_last()), events.last()).1 {
            ActionView::Deliver(record) => earlier.push(record),
            _ => earlier,
        }
    }
}

/// The state of one subscription.
#[derive(Debug)]
pub struct Subscription {
    phase: Phase,
}

impl View for Subscription {
    type V = Phase;

    closed spec fn view(&self) -> Phase {
        self.phase
    }
}

impl Subscription {
    /// A subscription at its start: active, with nothing delivered. Records
    /// stored before this moment are not replayed to it.
    pub fn open() -> (subscription: Self)
        ensures
            subscription@ == Phase::Active,
    {
        Subscription { phase: Phase::Active }
    }

    pub fn phase(&self) -> (phase: Phase)
        ensures
            phase == self@,
    {
        self.phase
    }

    pub fn is_active(&self) -> (active: bool)
        ensures
            active == (self@ == Phase::Active),
    {
        match self.phase {
            Phase::Active => true,
            Phase::Closed => false,
        }
    }

    /// Takes the next event of the watch and says what to do with it.
    pub fn on_event(&mut self, event: ChangeEvent) -> (action: Action)
        ensures
            (final(self)@, action@) == step(old(self)@, event@),
    {
        match self.phase {
            Phase::Closed => Action::Discard,
            Phase::Active => match event {
                ChangeEvent::Inserted(record) => Action::Deliver(record),
                ChangeEvent::Removed => Action::Skip,
                ChangeEvent::Broken(fault) => {
                    self.phase = Phase::Closed;
                    Action::Fail(fault)
                },
            },
        }
    }

    /// Ends the subscription, as when its subscriber has gone away.
    pub fn close(&mut self)
        ensures
            final(self)@ == Phase::Closed,
    {
        self.phase = Phase::Closed;
    }
}

/// The key of every record lies under the watched prefix: a subscription is
/// told of each insertion, whatever the record's identifier.
pub proof fn lemma_every_key_is_watched(id: u128)
    ensures
        watched_prefix().is_prefix_of(key_text(id)),
{
    assert(key_text(id).subrange(0, 0) =~= watched_prefix());
}

/// A closed subscription stays closed and delivers nothing, whatever events
/// the store goes on to report.
pub proof fn lemma_closed_is_silent(events: Seq<ChangeEventView>)
    ensures
        phase_after(Phase::Closed, events) == Phase::Closed,
        delivered(Phase::Closed, events) == Seq::<TransactionView>::empty(),
    decreases events.len(),
{
    if events.len() > 0 {
        lemma_closed_is_silent(events.drop_last());
    }
}

/// An active subscription that is handed insertions only stays active and
/// delivers each inserted record exactly once, in the order of the events.
pub proof fn lemma_insertions_arrive_once_in_order(events: Seq<ChangeEventView>)
    requires
        forall|i: int| 0 <= i < events.len() ==> (#[trigger] events[i]) is Inserted,
    ensures
        phase_after(Phase::Active, events) == Phase::Active,
        delivered(Phase::Active, events).len() == events.len(),
        forall|i: int|
            0 <= i < events.len() ==> (#[trigger] events[i]) == ChangeEventView::Inserted(
                delivered(Phase::Active, events)[i],
            ),
    decreases events.len(),
{
    if events.len() > 0 {
        let earlier = events.drop_last();
        lemma_insertions_arrive_once_in_order(earlier);
        assert forall|i: int| 0 <= i < events.len() implies (#[trigger] events[i])
            == ChangeEventView::Inserted(delivered(Phase::Active, events)[i]) by {
            if i < earlier.len() {
                assert(events[i] == earlier[i]);
            }
        }
    }
}

/// Two subscriptions, one opened before the events `earlier` and still active
/// after them, the other opened after them, are both handed the events
/// `later`. The first delivers what `earlier` gave it and then exactly what
/// the second delivers; the second delivers nothing of `earlier`.
pub proof fn lemma_later_events_reach_both(
    earlier: Seq<ChangeEventView>,
    later: Seq<ChangeEventView>,
)
    requires
        phase_after(Phase::Active, earlier) == Phase::Active,
    ensures
        phase_after(Phase::Active, earlier + later) == phase_after(Phase::Active, later),
        delivered(Phase::Active, earlier + later) == delivered(Phase::Active, earlier) + delivered(
            Phase::Active,
            later,
        ),
    decreases later.len(),
{
    if later.len() == 0 {
        assert(earlier + later =~= earlier);
    } else {
        lemma_later_events_reach_both(earlier, later.drop_last());
        assert((earlier + later).drop_last() =~= earlier + later.drop_last());
        assert((earlier + later).last() == later.last());
    }
}

} // verus!

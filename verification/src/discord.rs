//! The session: the one owner of the connection to the native library.
//!
//! While the native run loop is polled it invokes the registered callbacks,
//! one after another and on the polling thread. Each invocation is turned
//! into at most one event, which is published on the channel of its kind
//! before the next invocation is looked at.

use vstd::prelude::*;
use crate::channels::{
    create_channels, linked, published, same_channels, sorted, untouched, Receivers, Senders,
};
use crate::event::{event_of, yields, Callback, Event, EventKind};

verus! {

/// The session. It keeps the sending halves of the event channels.
pub struct Discord {
    senders: Senders,
}

/// What became of one invocation of a callback.
#[derive(Clone, Copy, Debug, PartialEq, Eq, Structural)]
pub enum Outcome {
    /// It yielded an event, which was published.
    Published,
    /// What it carried was malformed; the occurrence was dropped.
    Malformed,
    /// It belongs to a slot whose occurrences are not published.
    Unpublished,
}

/// What became of an invocation of `callback` that yielded `event`.
pub open spec fn outcome_of(callback: Callback, event: Option<Event>) -> Outcome {
    match event {
        Some(_) => Outcome::Published,
        None => match callback {
            Callback::Unpublished { .. } => Outcome::Unpublished,
            _ => Outcome::Malformed,
        },
    }
}

/// What the queues `before` become when a callback has yielded `event`.
pub open spec fn delivered(before: Receivers, after: Receivers, event: Option<Event>) -> bool {
    match event {
        Some(e) => published(before, after, e),
        None => untouched(before, after),
    }
}

/// `log` holds, for each callback of `callbacks` in turn, what it yielded.
pub open spec fn reported(callbacks: Seq<Callback>, log: Seq<Option<Event>>) -> bool {
    &&& log.len() == callbacks.len()
    &&& forall|i: int| 0 <= i < callbacks.len() ==> yields(callbacks[i], #[trigger] log[i])
}

/// `outcomes` says, for each callback of `callbacks` in turn, what became of
/// it, given what `log` says it yielded.
pub open spec fn accounted(
    callbacks: Seq<Callback>,
    log: Seq<Option<Event>>,
    outcomes: Seq<Outcome>,
) -> bool {
    &&& outcomes.len() == callbacks.len()
    &&& log.len() == callbacks.len()
    &&& forall|i: int|
        0 <= i < callbacks.len() ==> #[trigger] outcomes[i] == outcome_of(callbacks[i], log[i])
}

/// The events of `kind` among those that `log` holds, in the order of `log`.
pub open spec fn deliveries(log: Seq<Option<Event>>, kind: EventKind) -> Seq<Event>
    decreases log.len(),
{
    if log.len() == 0 {
        Seq::empty()
    } else {
        let earlier = deliveries(log.drop_last(), kind);
        match log.last() {
            Some(e) => if e.spec_kind() == kind {
                earlier.push(e)
            } else {
                earlier
            },
            None => earlier,
        }
    }
}

/// Where every callback of a poll yields an event of one kind, the channel
/// of that kind receives exactly those events, as many as there were
/// callbacks and in the order in which they fired, and no other channel
/// receives anything.
pub proof fn lemma_deliveries_in_order(log: Seq<Option<Event>>, kind: EventKind)
    requires
        forall|i: int| 0 <= i < log.len() ==> log[i] is Some && log[i]->0.spec_kind() == kind,
    ensures
        deliveries(log, kind).len() == log.len(),
        forall|i: int| 0 <= i < log.len() ==> log[i] == Some(#[trigger] deliveries(log, kind)[i]),
        forall|other: EventKind| other != kind ==> deliveries(log, other) == Seq::<Event>::empty(),
    decreases log.len(),
{
    if log.len() > 0 {
        lemma_deliveries_in_order(log.drop_last(), kind);
        assert forall|other: EventKind| other != kind implies deliveries(log, other) == Seq::<
            Event,
        >::empty() by {
            assert(deliveries(log.drop_last(), other) == Seq::<Event>::empty());
        }
    }
}

/// Callbacks that yield nothing leave no trace on any channel.
pub proof fn lemma_nothing_delivered(log: Seq<Option<Event>>, kind: EventKind)
    requires
        forall|i: int| 0 <= i < log.len() ==> log[i] is None,
    ensures
        deliveries(log, kind) == Seq::<Event>::empty(),
    decreases log.len(),
{
    if log.len() > 0 {
        lemma_nothing_delivered(log.drop_last(), kind);
    }
}

impl Discord {
    /// This session writes to the channels that `receivers` reads.
    pub closed spec fn feeds(self, receivers: Receivers) -> bool {
        linked(self.senders, receivers)
    }

    /// Starts a session: creates the event channels, all empty, and keeps
    /// their sending halves.
    pub fn new() -> (session: (Discord, Receivers))
        ensures
            session.0.feeds(session.1),
            forall|kind: EventKind| #[trigger] session.1.queue(kind) == Seq::<Event>::empty(),
            sorted(session.1),
    {
        let (senders, receivers) = create_channels();
        (Discord { senders }, receivers)
    }

    /// Handles one invocation of a registered callback: publishes the event
    /// it yields, or drops the occurrence where it yields none, and says
    /// which, so that the caller can report a malformed occurrence.
    /// `receivers` are the halves that were created together with this
    /// session.
    pub fn dispatch(&self, receivers: &mut Receivers, callback: &Callback) -> (outcome: Outcome)
        requires
            self.feeds(*old(receivers)),
        ensures
            self.feeds(*final(receivers)),
            same_channels(*old(receivers), *final(receivers)),
            exists|event: Option<Event>| #[trigger]
                yields(*callback, event) && delivered(*old(receivers), *final(receivers), event)
                    && outcome == outcome_of(*callback, event),
            sorted(*old(receivers)) ==> sorted(*final(receivers)),
    {
        let event = event_of(callback);
        let ghost yielded = event;
        let outcome = match event {
            Some(e) => {
                self.senders.send(receivers, e);
                Outcome::Published
            },
            None => match callback {
                Callback::Unpublished { .. } => Outcome::Unpublished,
                _ => Outcome::Malformed,
            },
        };
        assert(yields(*callback, yielded) && delivered(*old(receivers), *receivers, yielded)
            && outcome == outcome_of(*callback, yielded));
        outcome
    }

    /// Handles the invocations of one poll, in the order in which the native
    /// library made them. Every channel ends up with what it held before,
    /// followed by the events of its kind in that same order. Returns what
    /// became of each invocation.
    pub fn run_callbacks(&self, receivers: &mut Receivers, callbacks: &Vec<Callback>) -> (outcomes:
        Vec<Outcome>)
        requires
            self.feeds(*old(receivers)),
        ensures
            self.feeds(*final(receivers)),
            same_channels(*old(receivers), *final(receivers)),
            exists|log: Seq<Option<Event>>| #[trigger]
                reported(callbacks@, log) && accounted(callbacks@, log, outcomes@) && forall|
                    kind: EventKind,
                |
                    #[trigger] final(receivers).queue(kind) == old(receivers).queue(kind)
                        + deliveries(log, kind),
            sorted(*old(receivers)) ==> sorted(*final(receivers)),
    {
        let ghost mut log: Seq<Option<Event>> = Seq::empty();
        let mut outcomes: Vec<Outcome> = Vec::new();
        let mut i: usize = 0;
        assert forall|kind: EventKind|
            #[trigger] receivers.queue(kind) == old(receivers).queue(kind) + deliveries(
                log,
                kind,
            ) by {
            assert(old(receivers).queue(kind) + Seq::<Event>::empty() =~= old(receivers).queue(kind));
        }
        while i < callbacks.len()
            invariant
                i <= callbacks@.len(),
                self.feeds(*receivers),
                same_channels(*old(receivers), *receivers),
                reported(callbacks@.subrange(0, i as int), log),
                accounted(callbacks@.subrange(0, i as int), log, outcomes@),
                sorted(*old(receivers)) ==> sorted(*receivers),
                forall|kind: EventKind|
                    #[trigger] receivers.queue(kind) == old(receivers).queue(kind) + deliveries(
                        log,
                        kind,
                    ),
            decreases callbacks@.len() - i,
        {
            let ghost before = *receivers;
            let ghost earlier = log;
            let ghost accounts = outcomes@;
            let outcome = self.dispatch(receivers, &callbacks[i]);
            outcomes.push(outcome);
            proof {
                let event = choose|event: Option<Event>| #[trigger]
                    yields(callbacks@[i as int], event) && delivered(before, *receivers, event)
                        && outcome == outcome_of(callbacks@[i as int], event);
                log = earlier.push(event);
                assert(log.drop_last() =~= earlier);
                assert(log.last() == event);
                assert forall|kind: EventKind|
                    #[trigger] receivers.queue(kind) == old(receivers).queue(kind) + deliveries(
                        log,
                        kind,
                    ) by {
                    assert(before.queue(kind) == old(receivers).queue(kind) + deliveries(
                        earlier,
                        kind,
                    ));
                    match event {
                        Some(e) => {
                            if e.spec_kind() == kind {
                                assert(receivers.queue(kind) == before.queue(kind).push(e));
                                assert((old(receivers).queue(kind) + deliveries(earlier, kind)).push(
                                    e,
                                ) =~= old(receivers).queue(kind) + deliveries(earlier, kind).push(e));
                            } else {
                                assert(receivers.queue(kind) == before.queue(kind));
                            }
                        },
                        None => {
                            assert(receivers.queue(kind) == before.queue(kind));
                        },
                    }
                }
                let done = callbacks@.subrange(0, i as int + 1);
                assert forall|j: int| 0 <= j < done.len() implies yields(
                    done[j],
                    #[trigger] log[j],
                ) by {
                    if j < i {
                        assert(done[j] == callbacks@.subrange(0, i as int)[j]);
                        assert(log[j] == earlier[j]);
                    }
                }
                assert forall|j: int| 0 <= j < done.len() implies #[trigger] outcomes@[j]
                    == outcome_of(done[j], log[j]) by {
                    if j < i {
                        assert(done[j] == callbacks@.subrange(0, i as int)[j]);
                        assert(log[j] == earlier[j]);
                        assert(outcomes@[j] == accounts[j]);
                    }
                }
            }
            i += 1;
        }
        assert(callbacks@.subrange(0, i as int) =~= callbacks@);
        outcomes
    }
}

} // verus!

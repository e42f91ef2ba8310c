//! The event queues: one unbounded first-in-first-out channel per kind of
//! event, created together, written while the native run loop is polled and
//! read later by the application.
//!
//! There is one channel for each kind of event that is published: user,
//! activity, overlay and voice.
//!
//! Both halves of a channel are handles to one shared queue. A handle does
//! not change when the queue does, so the queue is accounted to the receiving
//! half: publishing and taking borrow that half mutably, and both bundles
//! keep their halves private and are never cloned. The one call that reaches
//! a queue without its receiving half is [`Detached::send`]. It is sound
//! only after [`Senders::detach`] has consumed the receiving halves of these
//! very channels, which is what `detach` requires of its caller: a caller
//! that hands it other receivers breaks what is stated here of the queues.
//!
//! Because publishing borrows the receiving halves, they stay with the
//! thread that polls; they cannot be read on another thread meanwhile.

use vstd::prelude::*;
use crossbeam_channel::{Receiver, Sender};
use crate::event::{Event, EventKind};

verus! {

/// The sending half of a channel of `crossbeam_channel`.
#[verifier::external_type_specification]
#[verifier::external_body]
#[verifier::reject_recursive_types(T)]
pub struct ExSender<T>(Sender<T>);

/// The receiving half of a channel of `crossbeam_channel`.
#[verifier::external_type_specification]
#[verifier::external_body]
#[verifier::reject_recursive_types(T)]
pub struct ExReceiver<T>(Receiver<T>);

/// The events that wait in the channel read by `receiver`, oldest first.
pub uninterp spec fn queued(receiver: Receiver<Event>) -> Seq<Event>;

/// `sender` writes to the channel that `receiver` reads.
pub uninterp spec fn paired(sender: Sender<Event>, receiver: Receiver<Event>) -> bool;

/// `crossbeam_channel::unbounded`: a new channel of unbounded capacity. Its
/// two halves belong together and nothing waits in it.
#[verifier::external_body]
fn unbounded() -> (halves: (Sender<Event>, Receiver<Event>))
    ensures
        paired(halves.0, halves.1),
        queued(halves.1) == Seq::<Event>::empty(),
{
    crossbeam_channel::unbounded()
}

/// `Sender::send` on an unbounded channel whose receiving half is alive: it
/// never blocks and cannot fail, and the message becomes the newest of the
/// channel. The receiving half is borrowed because the queue is accounted to
/// it; the call itself goes through the sending half. The halves stay
/// paired.
#[verifier::external_body]
fn send_paired(sender: &Sender<Event>, receiver: &mut Receiver<Event>, event: Event)
    requires
        paired(*sender, *old(receiver)),
    ensures
        queued(*final(receiver)) == queued(*old(receiver)).push(event),
        forall|s: Sender<Event>| #[trigger] paired(s, *final(receiver)) == paired(s, *old(receiver)),
{
    let _ = sender.send(event);
}

/// `Sender::send` on a channel whose every receiving half is gone: it never
/// blocks and hands the message back as an error, which is dropped here.
/// Nothing is stated of it. It is for [`Detached::send`] alone: on a channel
/// that is still read it would add to a queue behind the reader's back.
#[verifier::external_body]
fn send_unread(sender: &Sender<Event>, event: Event) {
    let _ = sender.send(event);
}

/// `Receiver::try_recv`: never blocks; takes the oldest waiting message, or
/// reports that the channel is empty (also where it is disconnected, which
/// it reports only once empty). The halves stay paired.
#[verifier::external_body]
fn try_recv(receiver: &mut Receiver<Event>) -> (event: Option<Event>)
    ensures
        match event {
            Some(e) => queued(*old(receiver)).len() > 0 && e == queued(*old(receiver))[0]
                && queued(*final(receiver)) == queued(*old(receiver)).drop_first(),
            None => queued(*old(receiver)).len() == 0 && queued(*final(receiver)) == queued(
                *old(receiver),
            ),
        },
        forall|s: Sender<Event>| #[trigger] paired(s, *final(receiver)) == paired(s, *old(receiver)),
{
    receiver.try_recv().ok()
}

/// The sending halves of the event channels, kept by the session.
pub struct Senders {
    user: Sender<Event>,
    activity: Sender<Event>,
    overlay: Sender<Event>,
    voice: Sender<Event>,
}

/// The receiving halves of the event channels, read by the application.
pub struct Receivers {
    user: Receiver<Event>,
    activity: Receiver<Event>,
    overlay: Receiver<Event>,
    voice: Receiver<Event>,
}

/// Sending halves whose receiving halves have been discarded. It is made by
/// [`Senders::detach`] alone.
pub struct Detached {
    senders: Senders,
}

/// The two bundles were created together: each sending half writes to the
/// channel of its kind.
pub closed spec fn linked(senders: Senders, receivers: Receivers) -> bool {
    &&& paired(senders.user, receivers.user)
    &&& paired(senders.activity, receivers.activity)
    &&& paired(senders.overlay, receivers.overlay)
    &&& paired(senders.voice, receivers.voice)
}

/// What the queues `before` become when `event` is published: it joins the
/// queue of its kind as the newest, and the other queues stay as they were.
pub open spec fn published(before: Receivers, after: Receivers, event: Event) -> bool {
    forall|kind: EventKind|
        #[trigger] after.queue(kind) == if kind == event.spec_kind() {
            before.queue(kind).push(event)
        } else {
            before.queue(kind)
        }
}

/// Every channel holds events of its own kind only.
pub open spec fn sorted(receivers: Receivers) -> bool {
    forall|kind: EventKind, i: int|
        0 <= i < receivers.queue(kind).len() ==> (#[trigger] receivers.queue(kind)[i]).spec_kind()
            == kind
}

/// Publishing an event keeps every channel to events of its own kind.
pub proof fn lemma_published_sorted(before: Receivers, after: Receivers, event: Event)
    requires
        sorted(before),
        published(before, after, event),
    ensures
        sorted(after),
{
    assert forall|kind: EventKind, i: int| 0 <= i < after.queue(kind).len() implies (
    #[trigger] after.queue(kind)[i]).spec_kind() == kind by {
        if kind == event.spec_kind() {
            assert(after.queue(kind) == before.queue(kind).push(event));
            if i < before.queue(kind).len() {
                assert(after.queue(kind)[i] == before.queue(kind)[i]);
            }
        } else {
            assert(after.queue(kind) == before.queue(kind));
        }
    }
}

/// The queues are the same in `before` and `after`.
pub open spec fn untouched(before: Receivers, after: Receivers) -> bool {
    forall|kind: EventKind| #[trigger] after.queue(kind) == before.queue(kind)
}

/// Whatever was linked to `before` is linked to `after`, and nothing else.
pub open spec fn same_channels(before: Receivers, after: Receivers) -> bool {
    forall|senders: Senders| #[trigger] linked(senders, after) == linked(senders, before)
}

/// Creates the channels of every kind together, all empty.
pub fn create_channels() -> (halves: (Senders, Receivers))
    ensures
        linked(halves.0, halves.1),
        forall|kind: EventKind| #[trigger] halves.1.queue(kind) == Seq::<Event>::empty(),
        sorted(halves.1),
{
    let user = unbounded();
    let activity = unbounded();
    let overlay = unbounded();
    let voice = unbounded();
    (
        Senders { user: user.0, activity: activity.0, overlay: overlay.0, voice: voice.0 },
        Receivers { user: user.1, activity: activity.1, overlay: overlay.1, voice: voice.1 },
    )
}

impl Senders {
    /// Publishes `event` on the channel of its kind. Never blocks and never
    /// fails; the queue keeps the order in which events were sent.
    /// `receivers` are the halves that were created together with these.
    pub fn send(&self, receivers: &mut Receivers, event: Event)
        requires
            linked(*self, *old(receivers)),
        ensures
            linked(*self, *final(receivers)),
            same_channels(*old(receivers), *final(receivers)),
            published(*old(receivers), *final(receivers), event),
            sorted(*old(receivers)) ==> sorted(*final(receivers)),
    {
        let ghost sent = event;
        let ghost before = *receivers;
        proof {
            if sorted(before) {
                assert forall|after: Receivers| published(before, after, sent) implies sorted(
                    after,
                ) by {
                    lemma_published_sorted(before, after, sent);
                }
            }
        }
        match event.kind() {
            EventKind::User => send_paired(&self.user, &mut receivers.user, event),
            EventKind::Activity => send_paired(&self.activity, &mut receivers.activity, event),
            EventKind::Overlay => send_paired(&self.overlay, &mut receivers.overlay, event),
            EventKind::Voice => send_paired(&self.voice, &mut receivers.voice, event),
        }
    }

    /// Discards the receiving halves of these channels, which `receivers`
    /// must be. Events sent from then on reach nobody.
    pub fn detach(self, receivers: Receivers) -> (detached: Detached)
        requires
            linked(self, receivers),
        ensures
            detached.senders() == self,
    {
        let _gone = receivers;
        Detached { senders: self }
    }
}

impl Detached {
    /// The sending halves that were kept.
    pub closed spec fn senders(self) -> Senders {
        self.senders
    }

    /// Sends `event` to a channel that nobody reads: a silent no-op.
    pub fn send(&self, event: Event) {
        match event.kind() {
            EventKind::User => send_unread(&self.senders.user, event),
            EventKind::Activity => send_unread(&self.senders.activity, event),
            EventKind::Overlay => send_unread(&self.senders.overlay, event),
            EventKind::Voice => send_unread(&self.senders.voice, event),
        }
    }
}

impl Receivers {
    /// The events that wait in the channel of `kind`, oldest first.
    pub closed spec fn queue(self, kind: EventKind) -> Seq<Event> {
        match kind {
            EventKind::User => queued(self.user),
            EventKind::Activity => queued(self.activity),
            EventKind::Overlay => queued(self.overlay),
            EventKind::Voice => queued(self.voice),
        }
    }

    /// Takes the oldest event that waits in the channel of `kind`, if any.
    pub fn try_recv(&mut self, kind: EventKind) -> (event: Option<Event>)
        ensures
            same_channels(*old(self), *final(self)),
            forall|other: EventKind|
                other != kind ==> #[trigger] final(self).queue(other) == old(self).queue(other),
            match event {
                Some(e) => old(self).queue(kind).len() > 0 && e == old(self).queue(kind)[0]
                    && final(self).queue(kind) == old(self).queue(kind).drop_first(),
                None => old(self).queue(kind).len() == 0 && final(self).queue(kind) == old(
                    self,
                ).queue(kind),
            },
            sorted(*old(self)) ==> sorted(*final(self)),
    {
        let ghost before = *self;
        let event = match kind {
            EventKind::User => try_recv(&mut self.user),
            EventKind::Activity => try_recv(&mut self.activity),
            EventKind::Overlay => try_recv(&mut self.overlay),
            EventKind::Voice => try_recv(&mut self.voice),
        };
        proof {
            if sorted(before) {
                assert forall|k: EventKind, i: int| 0 <= i < self.queue(k).len() implies (
                #[trigger] self.queue(k)[i]).spec_kind() == k by {
                    if k == kind && event is Some {
                        assert(self.queue(k)[i] == before.queue(k)[i + 1]);
                    } else {
                        assert(self.queue(k)[i] == before.queue(k)[i]);
                    }
                }
            }
        }
        event
    }

    /// Takes every event that waits in the channel of `kind`, in the order
    /// in which they were sent, and leaves that channel empty.
    pub fn drain(&mut self, kind: EventKind) -> (events: Vec<Event>)
        ensures
            same_channels(*old(self), *final(self)),
            events@ == old(self).queue(kind),
            forall|other: EventKind|
                #[trigger] final(self).queue(other) == if other == kind {
                    Seq::<Event>::empty()
                } else {
                    old(self).queue(other)
                },
            sorted(*old(self)) ==> sorted(*final(self)),
    {
        let mut events: Vec<Event> = Vec::new();
        let mut more = true;
        while more
            invariant
                same_channels(*old(self), *self),
                events@ + self.queue(kind) == old(self).queue(kind),
                forall|other: EventKind|
                    other != kind ==> #[trigger] self.queue(other) == old(self).queue(other),
                !more ==> self.queue(kind).len() == 0,
                sorted(*old(self)) ==> sorted(*self),
            decreases
                self.queue(kind).len() + if more {
                    1int
                } else {
                    0int
                },
        {
            let ghost before = self.queue(kind);
            let ghost taken = events@;
            match self.try_recv(kind) {
                Some(e) => {
                    events.push(e);
                    assert(events@ + self.queue(kind) =~= taken + before);
                },
                None => {
                    more = false;
                },
            }
        }
        assert(events@ =~= old(self).queue(kind));
        assert(self.queue(kind) =~= Seq::<Event>::empty());
        events
    }

    /// Drops every event that waits in the channel of `kind`.
    fn clear(&mut self, kind: EventKind)
        ensures
            same_channels(*old(self), *final(self)),
            forall|other: EventKind|
                #[trigger] final(self).queue(other) == if other == kind {
                    Seq::<Event>::empty()
                } else {
                    old(self).queue(other)
                },
            sorted(*old(self)) ==> sorted(*final(self)),
    {
        let mut more = true;
        while more
            invariant
                same_channels(*old(self), *self),
                forall|other: EventKind|
                    other != kind ==> #[trigger] self.queue(other) == old(self).queue(other),
                !more ==> self.queue(kind).len() == 0,
                sorted(*old(self)) ==> sorted(*self),
            decreases
                self.queue(kind).len() + if more {
                    1int
                } else {
                    0int
                },
        {
            match self.try_recv(kind) {
                Some(_) => {},
                None => {
                    more = false;
                },
            }
        }
        assert(self.queue(kind) =~= Seq::<Event>::empty());
    }

    /// Discards every event that waits on any channel, without looking at
    /// it. For a caller that wants to start afresh rather than work through
    /// a backlog of stale events.
    pub fn empty_channels(&mut self)
        ensures
            same_channels(*old(self), *final(self)),
            forall|kind: EventKind| #[trigger] final(self).queue(kind) == Seq::<Event>::empty(),
            sorted(*final(self)),
    {
        self.clear(EventKind::User);
        self.clear(EventKind::Activity);
        self.clear(EventKind::Overlay);
        self.clear(EventKind::Voice);
    }
}

} // verus!

//! The way of received messages to the application: a bounded channel, and a
//! bounded overflow buffer for when the channel is full.

use std::collections::VecDeque;
use tokio::sync::mpsc::error::TrySendError;
use tokio::sync::mpsc::{Receiver, Sender};
use vstd::prelude::*;

verus! {

#[verifier::external_type_specification]
#[verifier::external_body]
#[verifier::reject_recursive_types(T)]
pub struct ExSender<T>(Sender<T>);

#[verifier::external_type_specification]
#[verifier::external_body]
#[verifier::reject_recursive_types(T)]
pub struct ExReceiver<T>(Receiver<T>);

/// What a channel answers to a value that is offered to it.
pub enum Answer<T> {
    /// The channel has taken the value
    Taken,
    /// There is no room; the value comes back
    Full(T),
    /// Nobody is listening any more; the value comes back
    Closed(T),
}

/// What a channel did with a value that was offered to it.
#[derive(Debug, Clone, Copy, PartialEq, Eq, Structural)]
pub enum Outcome {
    /// It has taken the value
    Taken,
    /// It had no room
    Full,
    /// Nobody was listening any more
    Closed,
}

impl<T> Answer<T> {
    /// What the channel did.
    pub open spec fn outcome(self) -> Outcome {
        match self {
            Answer::Taken => Outcome::Taken,
            Answer::Full(_) => Outcome::Full,
            Answer::Closed(_) => Outcome::Closed,
        }
    }
}

/// Whether a channel can have this many places.
pub open spec fn possible_capacity(places: usize) -> bool {
    0 < places <= usize::MAX / 8
}

/// One offer to a channel.
pub struct Offer<T> {
    pub value: T,
    /// What the channel did with it
    pub outcome: Outcome,
    /// How many values the channel held at that moment: taken, and not yet
    /// received
    pub held: nat,
}

/// The sending end of a channel, with a record of what it was offered.
#[verifier::reject_recursive_types(T)]
pub struct Port<T> {
    tx: Sender<T>,
    places: Ghost<usize>,
    offers: Ghost<Seq<Offer<T>>>,
    far_end: Ghost<Receiver<T>>,
}

impl<T> Port<T> {
    /// How many values the channel can hold.
    pub closed spec fn places(&self) -> usize {
        self.places@
    }

    /// The offers to the channel, in order.
    pub closed spec fn offers(&self) -> Seq<Offer<T>> {
        self.offers@
    }

    /// The receiving end of the channel.
    pub closed spec fn far_end(&self) -> Receiver<T> {
        self.far_end@
    }
}

/// No offers yet.
pub open spec fn no_offers<T>() -> Seq<Offer<T>> {
    Seq::empty()
}

/// The values that were offered, in order.
pub open spec fn offered<T>(offers: Seq<Offer<T>>) -> Seq<T> {
    Seq::new(offers.len(), |i: int| offers[i].value)
}

/// The values that were taken, in order.
pub open spec fn taken<T>(offers: Seq<Offer<T>>) -> Seq<T>
    decreases offers.len(),
{
    if offers.len() == 0 {
        Seq::empty()
    } else if offers.last().outcome == Outcome::Taken {
        taken(offers.drop_last()).push(offers.last().value)
    } else {
        taken(offers.drop_last())
    }
}

/// Whether a channel with so many places, which has taken so many values, can
/// have dealt with an offer like this: a value is taken only if there is a
/// place for it, and refused for want of room only if there is none.
pub open spec fn plausible<T>(offer: Offer<T>, places: usize, taken_before: nat) -> bool {
    &&& offer.held <= taken_before
    &&& offer.held <= places
    &&& offer.outcome == Outcome::Taken ==> offer.held < places
    &&& offer.outcome == Outcome::Full ==> offer.held == places
}

/// Whether a channel with so many places can have dealt like this with the
/// offer at `i`, after all those before it.
pub open spec fn plausible_at<T>(offers: Seq<Offer<T>>, i: int, places: usize) -> bool {
    plausible(offers[i], places, taken(offers.take(i)).len())
}

/// `tokio`'s `mpsc::channel`: a new channel with this many places, to which
/// nothing has been offered, and its receiving end. It accepts no empty channel
/// and none with more places than its semaphore can count.
#[verifier::external_body]
pub(crate) fn new_channel<T>(places: usize) -> (ends: (Port<T>, Receiver<T>))
    requires
        possible_capacity(places),
    ensures
        ends.0.places() == places,
        ends.0.offers() == no_offers::<T>(),
        ends.0.far_end() == ends.1,
{
    let (tx, rx) = tokio::sync::mpsc::channel(places);
    (
        Port {
            tx,
            places: Ghost(places),
            offers: Ghost(Seq::empty()),
            far_end: Ghost(arbitrary()),
        },
        rx,
    )
}

/// `tokio`'s `Sender::try_send`: offers a value without waiting. Whether it is
/// taken depends on the receiver; a value that is not taken comes back
/// unchanged. The offer goes on the record of the port. This is the only
/// handle to its channel, so the places that are not free hold values that were
/// taken through it and not yet received: none is free where the channel is
/// full.
#[verifier::external_body]
pub(crate) fn offer<T>(port: &mut Port<T>, value: T) -> (answer: Answer<T>)
    ensures
        answer matches Answer::Full(back) ==> back == value,
        answer matches Answer::Closed(back) ==> back == value,
        final(port).offers().len() == old(port).offers().len() + 1,
        final(port).offers().drop_last() == old(port).offers(),
        final(port).offers().last().value == value,
        final(port).offers().last().outcome == answer.outcome(),
        plausible(
            final(port).offers().last(),
            old(port).places(),
            taken(old(port).offers()).len(),
        ),
        final(port).places() == old(port).places(),
        final(port).far_end() == old(port).far_end(),
{
    match port.tx.try_send(value) {
        Ok(()) => Answer::Taken,
        Err(TrySendError::Full(back)) => Answer::Full(back),
        Err(TrySendError::Closed(back)) => Answer::Closed(back),
    }
}

/// What became of a message.
#[derive(Debug, Clone, Copy, PartialEq, Eq, Structural)]
pub enum Routed {
    /// The application's channel has it
    Delivered,
    /// It waits in the overflow buffer
    Buffered,
    /// There was no room for it anywhere
    Dropped,
    /// The application has stopped listening
    Lost,
}

/// Settles an attempt to hand on the oldest buffered message, which has been
/// taken out of the buffer for it: a message that was not taken goes back to
/// the front. Returns whether the next one may be tried.
pub fn settle_drain<T>(spillover: &mut VecDeque<T>, answer: Answer<T>) -> (go_on: bool)
    ensures
        go_on == (answer is Taken),
        final(spillover)@ == match answer {
            Answer::Taken => old(spillover)@,
            Answer::Full(back) => seq![back] + old(spillover)@,
            Answer::Closed(back) => seq![back] + old(spillover)@,
        },
{
    match answer {
        Answer::Taken => true,
        Answer::Full(back) => {
            spillover.push_front(back);
            assert(spillover@ == seq![back] + old(spillover)@);
            false
        },
        Answer::Closed(back) => {
            spillover.push_front(back);
            assert(spillover@ == seq![back] + old(spillover)@);
            false
        },
    }
}

/// Puts a message at the end of the buffer if there is room.
pub fn keep_or_drop<T>(spillover: &mut VecDeque<T>, room: usize, item: T) -> (routed: Routed)
    ensures
        old(spillover)@.len() < room ==> routed == Routed::Buffered && final(spillover)@ == old(
            spillover,
        )@.push(item),
        old(spillover)@.len() >= room ==> routed == Routed::Dropped && final(spillover)@ == old(
            spillover,
        )@,
{
    if spillover.len() < room {
        spillover.push_back(item);
        Routed::Buffered
    } else {
        Routed::Dropped
    }
}

/// Settles an attempt to hand on a new message directly: one that the full
/// channel gave back goes into the buffer if there is room.
pub fn settle_direct<T>(spillover: &mut VecDeque<T>, room: usize, answer: Answer<T>) -> (routed:
    Routed)
    ensures
        match answer {
            Answer::Taken => routed == Routed::Delivered && final(spillover)@ == old(spillover)@,
            Answer::Full(back) => if old(spillover)@.len() < room {
                routed == Routed::Buffered && final(spillover)@ == old(spillover)@.push(back)
            } else {
                routed == Routed::Dropped && final(spillover)@ == old(spillover)@
            },
            Answer::Closed(_) => routed == Routed::Lost && final(spillover)@ == old(spillover)@,
        },
{
    match answer {
        Answer::Taken => Routed::Delivered,
        Answer::Full(back) => keep_or_drop(spillover, room, back),
        Answer::Closed(_) => Routed::Lost,
    }
}

/// The sending end of the application's channel with its overflow buffer.
#[verifier::reject_recursive_types(T)]
pub struct HandlerQueue<T> {
    port: Port<T>,
    rx: Option<Receiver<T>>,
    spillover: VecDeque<T>,
    spillover_buffer_size: usize,
}

impl<T> HandlerQueue<T> {
    /// How many messages the channel can hold.
    pub closed spec fn places(&self) -> usize {
        self.port.places()
    }

    /// The offers of messages to the channel, in order.
    pub closed spec fn offers(&self) -> Seq<Offer<T>> {
        self.port.offers()
    }

    /// The receiving end of the channel.
    pub closed spec fn far_end(&self) -> Receiver<T> {
        self.port.far_end()
    }

    /// The messages that wait in the overflow buffer, in order.
    pub closed spec fn waiting(&self) -> Seq<T> {
        self.spillover@
    }

    /// How many messages the overflow buffer may hold.
    pub closed spec fn room(&self) -> usize {
        self.spillover_buffer_size
    }

    /// The receiver that has not been handed out yet.
    pub closed spec fn receiver(&self) -> Option<Receiver<T>> {
        self.rx
    }

    /// The messages that the application's channel has taken, in order.
    pub open spec fn delivered(&self) -> Seq<T> {
        taken(self.offers())
    }

    /// The overflow buffer holds no more than it may, and the receiver that is
    /// still here is the one of this channel.
    pub open spec fn wf(&self) -> bool {
        &&& self.waiting().len() <= self.room()
        &&& self.receiver() matches Some(rx) ==> rx == self.far_end()
    }

    /// The messages on their way to the application, in the order in which it
    /// sees them.
    pub open spec fn kept(&self) -> Seq<T> {
        self.delivered() + self.waiting()
    }

    /// A queue with a channel of `places` and an overflow buffer of `room`.
    pub fn new(places: usize, room: usize) -> (queue: Self)
        requires
            possible_capacity(places),
        ensures
            queue.wf(),
            queue.places() == places,
            queue.offers() == no_offers::<T>(),
            queue.waiting() == Seq::<T>::empty(),
            queue.kept() == Seq::<T>::empty(),
            queue.room() == room,
            queue.receiver() == Some(queue.far_end()),
    {
        let (port, rx) = new_channel(places);
        let queue = HandlerQueue {
            port,
            rx: Some(rx),
            spillover: VecDeque::new(),
            spillover_buffer_size: room,
        };
        assert(queue.kept() =~= Seq::<T>::empty());
        queue
    }

    /// Hands out the receiving end, once.
    pub fn take_receiver(&mut self) -> (receiver: Option<Receiver<T>>)
        requires
            old(self).wf(),
        ensures
            final(self).wf(),
            receiver == old(self).receiver(),
            receiver matches Some(rx) ==> rx == old(self).far_end(),
            receiver_taken(*old(self), *final(self)),
    {
        self.rx.take()
    }

    /// Whether the receiving end has not been handed out yet.
    pub fn has_receiver(&self) -> (r: bool)
        ensures
            r == (self.receiver() is Some),
    {
        self.rx.is_some()
    }

    /// How many messages wait in the overflow buffer.
    pub fn waiting_len(&self) -> (n: usize)
        ensures
            n == self.waiting().len(),
    {
        self.spillover.len()
    }

    /// Hands on buffered messages, oldest first, until the channel refuses
    /// one.
    fn drain(&mut self) -> (handed: Ghost<int>)
        ensures
            0 <= handed@ <= old(self).waiting().len(),
            final(self).waiting() == old(self).waiting().skip(handed@),
            final(self).places() == old(self).places(),
            final(self).far_end() == old(self).far_end(),
            final(self).room() == old(self).room(),
            final(self).receiver() == old(self).receiver(),
            drained(
                old(self).offers(),
                final(self).offers(),
                old(self).waiting(),
                handed@,
                old(self).places(),
            ),
    {
        let ghost before = self.spillover@;
        let ghost offers = self.port.offers();
        let ghost mut handed: int = 0;
        assert(before.skip(0) =~= before);
        while self.spillover.len() > 0
            invariant
                0 <= handed <= before.len(),
                self.spillover@ == before.skip(handed),
                self.port.offers().len() == offers.len() + handed,
                offers.is_prefix_of(self.port.offers()),
                forall|i: int|
                    0 <= i < handed ==> (#[trigger] self.port.offers()[offers.len() + i]).value
                        == before[i] && self.port.offers()[offers.len() + i].outcome
                        == Outcome::Taken && plausible_at(
                        self.port.offers(),
                        offers.len() + i,
                        self.port.places(),
                    ),
                self.port.places() == old(self).port.places(),
                self.port.far_end() == old(self).port.far_end(),
                self.spillover_buffer_size == old(self).spillover_buffer_size,
                self.rx == old(self).rx,
                before == old(self).spillover@,
                offers == old(self).port.offers(),
            decreases self.spillover@.len(),
        {
            match self.spillover.pop_front() {
                Some(item) => {
                    let ghost so_far = self.port.offers();
                    let answer = offer(&mut self.port, item);
                    let ghost now = self.port.offers();
                    proof {
                        assert forall|i: int| 0 <= i < handed implies (#[trigger] now[offers.len()
                            + i]).value == before[i] && now[offers.len() + i].outcome
                            == Outcome::Taken && plausible_at(
                            now,
                            offers.len() + i,
                            self.port.places(),
                        ) by {
                            assert(now.drop_last()[offers.len() + i] == so_far[offers.len() + i]);
                            assert(now.take(offers.len() + i) =~= so_far.take(offers.len() + i));
                        }
                        assert forall|i: int| 0 <= i < offers.len() implies offers[i] == now[i] by {
                            assert(now.drop_last()[i] == so_far[i]);
                        }
                        assert(item == before[handed]);
                        assert(now.last() == now[offers.len() + handed]);
                        assert(now.take(offers.len() + handed) =~= so_far);
                    }
                    assert(seq![item] + self.spillover@ =~= before.skip(handed));
                    if !settle_drain(&mut self.spillover, answer) {
                        return Ghost(handed);
                    }
                    proof {
                        handed = handed + 1;
                        assert(before.skip(handed) =~= self.spillover@);
                    }
                },
                None => {},
            }
        }
        Ghost(handed)
    }

    /// Brings a message on its way: buffered messages first, then this one,
    /// directly if nothing is left in front of it and the channel takes it,
    /// else into the buffer.
    pub fn push(&mut self, item: T) -> (routed: Routed)
        requires
            old(self).wf(),
        ensures
            final(self).wf(),
            pushed(*old(self), *final(self), item, routed),
            final(self).kept() == if is_kept(routed) {
                old(self).kept().push(item)
            } else {
                old(self).kept()
            },
    {
        let ghost before = *self;
        let Ghost(handed) = self.drain();
        let ghost after_drain = self.port.offers();
        if self.spillover.len() == 0 {
            let answer = offer(&mut self.port, item);
            let ghost outcome = answer.outcome();
            let routed = settle_direct(&mut self.spillover, self.spillover_buffer_size, answer);
            proof {
                let left = before.waiting().skip(handed);
                assert(left =~= Seq::empty());
                assert(left.push(item) =~= seq![item]);
                assert(self.offers().drop_last() =~= after_drain);
                assert(pushed_after(before, *self, item, routed, handed, outcome));
                lemma_pushed_keeps_order(before, *self, item, routed);
            }
            routed
        } else {
            let ghost outcome = self.port.offers().last().outcome;
            let routed = keep_or_drop(&mut self.spillover, self.spillover_buffer_size, item);
            proof {
                assert(pushed_after(before, *self, item, routed, handed, outcome));
                lemma_pushed_keeps_order(before, *self, item, routed);
            }
            routed
        }
    }
}

/// Whether a message that was routed like this is on its way.
pub open spec fn is_kept(routed: Routed) -> bool {
    routed == Routed::Delivered || routed == Routed::Buffered
}

/// Whether `after` is `before` with the receiver handed out and nothing else
/// changed.
pub open spec fn receiver_taken<T>(before: HandlerQueue<T>, after: HandlerQueue<T>) -> bool {
    &&& after.receiver() is None
    &&& after.places() == before.places()
    &&& after.far_end() == before.far_end()
    &&& after.offers() == before.offers()
    &&& after.waiting() == before.waiting()
    &&& after.room() == before.room()
}

/// Whether `after` is `before` with these messages offered, oldest first: so
/// many were taken, and if there were more one was refused.
pub open spec fn drained<T>(
    before: Seq<Offer<T>>,
    after: Seq<Offer<T>>,
    waiting: Seq<T>,
    handed: int,
    places: usize,
) -> bool {
    &&& before.is_prefix_of(after)
    &&& after.len() == before.len() + handed + if handed < waiting.len() {
        1int
    } else {
        0int
    }
    &&& forall|i: int|
        0 <= i < handed ==> (#[trigger] after[before.len() + i]).value == waiting[i]
            && after[before.len() + i].outcome == Outcome::Taken && plausible_at(
            after,
            before.len() + i,
            places,
        )
    &&& handed < waiting.len() ==> {
        &&& after.last().value == waiting[handed]
        &&& after.last().outcome != Outcome::Taken
        &&& plausible(after.last(), places, taken(after.drop_last()).len())
    }
}

/// Whether `after` is `before` with a message brought on its way, where so
/// many of those that waited were taken first and this is what the channel did
/// last. The message itself is offered only if no other is left in front of
/// it.
pub open spec fn pushed_after<T>(
    before: HandlerQueue<T>,
    after: HandlerQueue<T>,
    item: T,
    routed: Routed,
    handed: int,
    outcome: Outcome,
) -> bool {
    let waiting = before.waiting();
    let left = waiting.skip(handed);
    &&& 0 <= handed <= waiting.len()
    &&& after.places() == before.places()
    &&& after.far_end() == before.far_end()
    &&& after.room() == before.room()
    &&& after.receiver() == before.receiver()
    &&& after.offers().len() > 0
    &&& after.offers().last().outcome == outcome
    &&& plausible(
        after.offers().last(),
        before.places(),
        taken(after.offers().drop_last()).len(),
    )
    &&& if left.len() > 0 {
        &&& outcome != Outcome::Taken
        &&& drained(before.offers(), after.offers(), waiting, handed, before.places())
        &&& if left.len() < before.room() {
            routed == Routed::Buffered && after.waiting() == left.push(item)
        } else {
            routed == Routed::Dropped && after.waiting() == left
        }
    } else {
        &&& after.offers().last().value == item
        &&& drained(before.offers(), after.offers().drop_last(), waiting, handed, before.places())
        &&& match outcome {
            Outcome::Taken => routed == Routed::Delivered && after.waiting() == left,
            Outcome::Full => if before.room() > 0 {
                routed == Routed::Buffered && after.waiting() == seq![item]
            } else {
                routed == Routed::Dropped && after.waiting() == left
            },
            Outcome::Closed => routed == Routed::Lost && after.waiting() == left,
        }
    }
}

/// Whether `after` is `before` with a message brought on its way. What the
/// channel did with each offer decides; the record of the offers tells.
pub open spec fn pushed<T>(
    before: HandlerQueue<T>,
    after: HandlerQueue<T>,
    item: T,
    routed: Routed,
) -> bool {
    exists|handed: int, outcome: Outcome|
        #[trigger] pushed_after(before, after, item, routed, handed, outcome)
}

/// What was taken before stays taken, and the messages that were handed on
/// follow in order.
proof fn lemma_drained_takes<T>(
    before: Seq<Offer<T>>,
    after: Seq<Offer<T>>,
    waiting: Seq<T>,
    handed: int,
)
    requires
        0 <= handed <= waiting.len(),
        before.is_prefix_of(after),
        after.len() == before.len() + handed,
        forall|i: int|
            0 <= i < handed ==> (#[trigger] after[before.len() + i]).value == waiting[i]
                && after[before.len() + i].outcome == Outcome::Taken,
    ensures
        taken(after) == taken(before) + waiting.take(handed),
    decreases handed,
{
    if handed == 0 {
        assert(after =~= before);
        assert(taken(after) =~= taken(before) + waiting.take(0));
    } else {
        let shorter = after.drop_last();
        assert forall|i: int| 0 <= i < handed - 1 implies (#[trigger] shorter[before.len()
            + i]).value == waiting[i] && shorter[before.len() + i].outcome == Outcome::Taken by {
            assert(after[before.len() + i].value == waiting[i]);
        }
        lemma_drained_takes(before, shorter, waiting, handed - 1);
        assert(after.last() == after[before.len() + (handed - 1)]);
        assert(waiting.take(handed) =~= waiting.take(handed - 1).push(waiting[handed - 1]));
        assert(taken(after) =~= taken(before) + waiting.take(handed));
    }
}

/// A message that is brought on its way comes behind all others that are; one
/// that is not leaves them as they are.
pub proof fn lemma_pushed_keeps_order<T>(
    before: HandlerQueue<T>,
    after: HandlerQueue<T>,
    item: T,
    routed: Routed,
)
    requires
        before.wf(),
        pushed(before, after, item, routed),
    ensures
        after.wf(),
        after.kept() == if is_kept(routed) {
            before.kept().push(item)
        } else {
            before.kept()
        },
{
    let (handed, outcome) = choose|handed: int, outcome: Outcome|
        #[trigger] pushed_after(before, after, item, routed, handed, outcome);
    let waiting = before.waiting();
    let left = waiting.skip(handed);
    let offers = after.offers();
    let drain = if left.len() > 0 {
        offers
    } else {
        offers.drop_last()
    };
    let all_taken = if handed < waiting.len() {
        drain.drop_last()
    } else {
        drain
    };
    assert forall|i: int| 0 <= i < handed implies (#[trigger] all_taken[before.offers().len()
        + i]).value == waiting[i] && all_taken[before.offers().len() + i].outcome
        == Outcome::Taken by {
        assert(drain[before.offers().len() + i].value == waiting[i]);
    }
    lemma_drained_takes(before.offers(), all_taken, waiting, handed);
    assert(waiting.take(handed) + left =~= waiting);
    assert(is_kept(routed) ==> after.kept() =~= before.kept().push(item));
    assert(!is_kept(routed) ==> after.kept() =~= before.kept());
}

/// The messages that were not dropped or lost, in order.
pub open spec fn kept_of<T>(items: Seq<T>, routes: Seq<Routed>) -> Seq<T>
    decreases items.len(),
{
    if items.len() == 0 {
        Seq::empty()
    } else if is_kept(routes[items.len() - 1]) {
        kept_of(items.drop_last(), routes).push(items.last())
    } else {
        kept_of(items.drop_last(), routes)
    }
}

/// Whether a queue went through these states as these messages were brought on
/// their way, one after the other.
pub open spec fn pushed_in_turn<T>(
    queues: Seq<HandlerQueue<T>>,
    items: Seq<T>,
    routes: Seq<Routed>,
) -> bool {
    &&& queues.len() == items.len() + 1
    &&& routes.len() == items.len()
    &&& forall|i: int|
        0 <= i < items.len() ==> pushed(
            queues[i],
            queues[i + 1],
            #[trigger] items[i],
            routes[i],
        )
}

/// However many messages come, those that are not dropped or lost reach the
/// application in the order in which they came, each once.
pub proof fn lemma_messages_stay_in_order<T>(
    queues: Seq<HandlerQueue<T>>,
    items: Seq<T>,
    routes: Seq<Routed>,
)
    requires
        pushed_in_turn(queues, items, routes),
        queues[0].wf(),
    ensures
        queues.last().wf(),
        queues.last().kept() == queues[0].kept() + kept_of(items, routes),
    decreases items.len(),
{
    if items.len() == 0 {
        assert(queues.last().kept() =~= queues[0].kept() + kept_of(items, routes));
    } else {
        let n = items.len() - 1;
        let fewer = items.drop_last();
        assert forall|i: int| 0 <= i < fewer.len() implies pushed(
            queues.drop_last()[i],
            queues.drop_last()[i + 1],
            #[trigger] fewer[i],
            routes.drop_last()[i],
        ) by {
            assert(fewer[i] == items[i]);
        }
        lemma_messages_stay_in_order(queues.drop_last(), fewer, routes.drop_last());
        lemma_kept_of_prefix(fewer, routes.drop_last(), routes);
        assert(pushed(queues[n], queues[n + 1], items[n], routes[n]));
        lemma_pushed_keeps_order(queues[n], queues[n + 1], items[n], routes[n]);
        assert(queues.last().kept() =~= queues[0].kept() + kept_of(items, routes));
    }
}

/// What is kept depends on the routes of these messages alone.
pub proof fn lemma_kept_of_prefix<T>(items: Seq<T>, routes: Seq<Routed>, more: Seq<Routed>)
    requires
        items.len() <= routes.len(),
        routes.is_prefix_of(more),
    ensures
        kept_of(items, routes) == kept_of(items, more),
    decreases items.len(),
{
    if items.len() > 0 {
        lemma_kept_of_prefix(items.drop_last(), routes, more);
    }
}

/// While somebody listens, a message is dropped only when the channel holds as
/// many messages as it has places and the overflow buffer all that it may. One
/// is lost only when nobody is listening any more.
pub proof fn lemma_dropped_only_when_full<T>(
    before: HandlerQueue<T>,
    after: HandlerQueue<T>,
    item: T,
    routed: Routed,
)
    requires
        before.wf(),
        pushed(before, after, item, routed),
    ensures
        routed == Routed::Dropped ==> after.waiting().len() == before.room(),
        routed == Routed::Dropped && after.offers().last().outcome != Outcome::Closed ==> {
            &&& after.offers().last().outcome == Outcome::Full
            &&& after.offers().last().held == before.places()
        },
        routed == Routed::Lost ==> {
            &&& after.offers().last().value == item
            &&& after.offers().last().outcome == Outcome::Closed
        },
{
}

} // verus!

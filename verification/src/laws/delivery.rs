//! The way of a message to the application.

use crate::channel::{
    keep_or_drop, settle_direct, settle_drain, Answer, HandlerQueue, Offer, Outcome, Routed,
};
use std::collections::VecDeque;
use vstd::prelude::*;

verus! {

/// What a channel has taken are the values of the offers that it took, each
/// once and in order.
pub proof fn lemma_what_was_taken<T>(offers: Seq<Offer<T>>, next: Offer<T>)
    ensures
        crate::channel::taken(Seq::<Offer<T>>::empty()) == Seq::<T>::empty(),
        next.outcome == Outcome::Taken ==> crate::channel::taken(offers.push(next))
            == crate::channel::taken(offers).push(next.value),
        next.outcome != Outcome::Taken ==> crate::channel::taken(offers.push(next))
            == crate::channel::taken(offers),
{
    assert(offers.push(next).drop_last() =~= offers);
}

/// Every message is tried: those that wait are offered to the channel first,
/// oldest first, and all of them are taken but perhaps the last that is
/// offered. Nothing that was on its way is lost, doubled or overtaken, and the
/// new message comes behind all others.
pub proof fn lemma_every_message_is_brought_on_its_way<T>(
    queue: &mut HandlerQueue<T>,
    item: T,
    routed: Routed,
)
    requires
        old(queue).wf(),
        call_ensures(HandlerQueue::<T>::push, (queue, item), routed),
    ensures
        ({
            let before = crate::channel::taken(old(queue).offers()) + old(queue).waiting();
            let after = crate::channel::taken(final(queue).offers()) + final(queue).waiting();
            &&& routed == Routed::Delivered || routed == Routed::Buffered ==> after == before.push(
                item,
            )
            &&& routed == Routed::Dropped || routed == Routed::Lost ==> after == before
        }),
        final(queue).kept() == crate::channel::taken(final(queue).offers()) + final(
            queue
        ).waiting(),
        old(queue).offers().is_prefix_of(final(queue).offers()),
        final(queue).offers().len() > old(queue).offers().len(),
        final(queue).offers()[old(queue).offers().len() as int].value == if old(
            queue
        ).waiting().len() > 0 {
            old(queue).waiting()[0]
        } else {
            item
        },
        forall|i: int|
            old(queue).offers().len() <= i < final(queue).offers().len() - 1 ==> (#[trigger] final(
                queue
            ).offers()[i]).outcome == Outcome::Taken,
        final(queue).room() == old(queue).room(),
        final(queue).places() == old(queue).places(),
        final(queue).receiver() == old(queue).receiver(),
{
    let (handed, outcome) = choose|handed: int, outcome: Outcome|
        #[trigger] crate::channel::pushed_after(
            *old(queue),
            *final(queue),
            item,
            routed,
            handed,
            outcome,
        );
    let old_offers = old(queue).offers();
    let offers = final(queue).offers();
    let waiting = old(queue).waiting();
    let drain = if waiting.skip(handed).len() > 0 {
        offers
    } else {
        offers.drop_last()
    };
    assert forall|i: int| 0 <= i < old_offers.len() implies old_offers[i] == offers[i] by {
        assert(drain[i] == offers[i]);
    }
    assert(old_offers.is_prefix_of(offers)) by {
        assert(offers.subrange(0, old_offers.len() as int) =~= old_offers);
    }
    assert forall|i: int| old_offers.len() <= i < offers.len() - 1 implies (
    #[trigger] offers[i]).outcome == Outcome::Taken by {
        let k = i - old_offers.len();
        assert(drain[old_offers.len() + k] == offers[i]);
    }
    if waiting.len() > 0 {
        if handed > 0 {
            assert(drain[old_offers.len() + 0int].value == waiting[0]);
            assert(drain[old_offers.len() as int] == offers[old_offers.len() as int]);
        } else {
            assert(offers.last() == offers[old_offers.len() as int]);
        }
    } else {
        assert(offers.last() == offers[old_offers.len() as int]);
    }
}

/// A message is delivered where the channel takes it; otherwise it waits while
/// there is room. It is dropped only when the overflow buffer is full, and lost
/// only when nobody listens and nothing waits before it.
pub proof fn lemma_when_a_message_is_delivered<T>(
    queue: &mut HandlerQueue<T>,
    item: T,
    routed: Routed,
)
    requires
        old(queue).wf(),
        call_ensures(HandlerQueue::<T>::push, (queue, item), routed),
    ensures
        routed == Routed::Delivered <==> final(queue).offers().last().outcome == Outcome::Taken,
        routed == Routed::Delivered ==> final(queue).offers().last().value == item && final(
            queue
        ).waiting().len() == 0,
        routed == Routed::Buffered ==> final(queue).waiting().len() > 0 && final(
            queue
        ).waiting().last() == item && final(queue).waiting().len() <= old(queue).room(),
        routed == Routed::Dropped ==> final(queue).waiting().len() == old(queue).room(),
        routed == Routed::Lost <==> final(queue).offers().last().outcome == Outcome::Closed
            && final(queue).waiting().len() == 0 && routed != Routed::Dropped,
        final(queue).offers().last().outcome == Outcome::Full && final(queue).waiting().len() < old(
            queue
        ).room() ==> routed == Routed::Buffered,
{
}

/// A waiting message that the channel gives back stays the oldest, and no other
/// is tried; one that it takes makes way for the next.
pub proof fn lemma_a_waiting_message_keeps_its_turn<T>(
    waiting: &mut VecDeque<T>,
    answer: Answer<T>,
    go_on: bool,
)
    requires
        call_ensures(settle_drain::<T>, (waiting, answer), go_on),
    ensures
        answer is Taken ==> go_on && final(waiting)@ == old(waiting)@,
        (answer matches Answer::Full(back) ==> !go_on && final(waiting)@.len() == old(
            waiting
        )@.len() + 1 && final(waiting)@[0] == back && final(waiting)@.skip(1) == old(waiting)@),
        (answer matches Answer::Closed(back) ==> !go_on && final(waiting)@.len() == old(
            waiting
        )@.len() + 1 && final(waiting)@[0] == back && final(waiting)@.skip(1) == old(waiting)@),
{
    assert(!(answer is Taken) ==> final(waiting)@.skip(1) =~= old(waiting)@);
}

/// A message that the full channel gives back waits behind all others while
/// there is room, and is dropped otherwise. One that was taken is delivered,
/// and one that nobody listens for is lost; neither waits.
pub proof fn lemma_a_refused_message_waits_while_there_is_room<T>(
    waiting: &mut VecDeque<T>,
    room: usize,
    answer: Answer<T>,
    routed: Routed,
)
    requires
        call_ensures(settle_direct::<T>, (waiting, room, answer), routed),
    ensures
        routed == Routed::Delivered <==> answer is Taken,
        routed == Routed::Lost <==> answer is Closed,
        routed == Routed::Buffered <==> answer is Full && old(waiting)@.len() < room,
        routed == Routed::Dropped <==> answer is Full && old(waiting)@.len() >= room,
        routed != Routed::Buffered ==> final(waiting)@ == old(waiting)@,
        (answer matches Answer::Full(back) ==> routed == Routed::Buffered ==> final(waiting)@
            == old(waiting)@.push(back)),
{
}

/// A message is put behind all others that wait while there is room, and is
/// dropped otherwise.
pub proof fn lemma_a_message_waits_while_there_is_room<T>(
    waiting: &mut VecDeque<T>,
    room: usize,
    item: T,
    routed: Routed,
)
    requires
        call_ensures(keep_or_drop::<T>, (waiting, room, item), routed),
    ensures
        routed == Routed::Buffered <==> old(waiting)@.len() < room,
        routed == Routed::Dropped <==> old(waiting)@.len() >= room,
        routed == Routed::Buffered ==> final(waiting)@ == old(waiting)@.push(item),
        routed == Routed::Dropped ==> final(waiting)@ == old(waiting)@,
{
}

/// A new queue holds nothing and has the room that was asked for.
pub proof fn lemma_a_new_queue_is_empty<T>(places: usize, room: usize, queue: HandlerQueue<T>)
    requires
        call_ensures(HandlerQueue::<T>::new, (places, room), queue),
    ensures
        queue.offers().len() == 0,
        queue.waiting().len() == 0,
        queue.places() == places,
        queue.room() == room,
        queue.receiver() == Some(queue.far_end()),
{
}

} // verus!

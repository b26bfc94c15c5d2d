use atomic_websocket::channel::{settle_direct, settle_drain, Answer, HandlerQueue, Routed};
use std::collections::VecDeque;

#[test]
fn messages_arrive_in_order_through_the_overflow_buffer() {
    let mut queue: HandlerQueue<u32> = HandlerQueue::new(2, 2);
    let mut rx = queue.take_receiver().unwrap();
    assert!(queue.take_receiver().is_none());
    assert!(!queue.has_receiver());

    assert_eq!(queue.push(1), Routed::Delivered);
    assert_eq!(queue.push(2), Routed::Delivered);
    assert_eq!(queue.push(3), Routed::Buffered);
    assert_eq!(queue.push(4), Routed::Buffered);
    assert_eq!(queue.waiting_len(), 2);
    assert_eq!(queue.push(5), Routed::Dropped);

    assert_eq!(rx.try_recv().unwrap(), 1);
    assert_eq!(rx.try_recv().unwrap(), 2);
    assert_eq!(queue.push(6), Routed::Buffered);
    let mut seen = Vec::new();
    while let Ok(n) = rx.try_recv() {
        seen.push(n);
    }
    assert_eq!(seen, vec![3, 4]);
    assert_eq!(queue.push(7), Routed::Delivered);
    assert_eq!(rx.try_recv().unwrap(), 6);
    assert_eq!(rx.try_recv().unwrap(), 7);
    assert_eq!(queue.waiting_len(), 0);
}

#[test]
fn without_a_listener_messages_are_lost() {
    let mut queue: HandlerQueue<u32> = HandlerQueue::new(1, 1);
    drop(queue.take_receiver());
    assert_eq!(queue.push(1), Routed::Lost);
}

#[test]
fn what_waits_stays_when_the_listener_goes() {
    let mut queue: HandlerQueue<u32> = HandlerQueue::new(1, 1);
    let rx = queue.take_receiver().unwrap();
    assert_eq!(queue.push(1), Routed::Delivered);
    assert_eq!(queue.push(2), Routed::Buffered);
    drop(rx);
    assert_eq!(queue.push(3), Routed::Dropped);
    assert_eq!(queue.waiting_len(), 1);
}

#[test]
fn each_answer_of_the_channel_is_settled() {
    let mut spillover: VecDeque<u8> = VecDeque::new();
    spillover.push_back(2);
    assert!(settle_drain(&mut spillover, Answer::Taken));
    assert!(!settle_drain(&mut spillover, Answer::Full(1)));
    assert_eq!(spillover, vec![1, 2]);
    assert!(!settle_drain(&mut spillover, Answer::Closed(0)));
    assert_eq!(spillover, vec![0, 1, 2]);

    assert_eq!(
        settle_direct(&mut spillover, 4, Answer::Taken),
        Routed::Delivered
    );
    assert_eq!(
        settle_direct(&mut spillover, 4, Answer::Full(3)),
        Routed::Buffered
    );
    assert_eq!(
        settle_direct(&mut spillover, 4, Answer::Full(4)),
        Routed::Dropped
    );
    assert_eq!(
        settle_direct(&mut spillover, 4, Answer::Closed(4)),
        Routed::Lost
    );
    assert_eq!(spillover, vec![0, 1, 2, 3]);
}

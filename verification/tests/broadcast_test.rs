use atomic_websocket::client_sender::{ClientSenders, SendOutcome};
use atomic_websocket::common::make_raw_message;
use tokio::sync::mpsc::{channel, Receiver, Sender};
use tokio_tungstenite::tungstenite::Message;

/// Channels by their number, as a server holds them beside its connections.
struct Lines {
    senders: ClientSenders,
    channels: Vec<Sender<Message>>,
}

impl Lines {
    fn new() -> Self {
        Lines {
            senders: ClientSenders::new(),
            channels: Vec::new(),
        }
    }

    fn add(&mut self, peer: &str, places: usize) -> Receiver<Message> {
        let (tx, rx) = channel(places);
        self.channels.push(tx);
        if let Some(replaced) = self.senders.notice_owed(peer) {
            let _ = self.channels[replaced.sx as usize].try_send(replaced.message);
        }
        self.senders.add(peer, self.channels.len() as u64 - 1);
        rx
    }

    fn send(&mut self, peer: &str, bytes: &[u8]) -> bool {
        let outcome = match self.senders.begin_send(peer) {
            Some(sx) => match self.channels[sx as usize].try_send(make_raw_message(bytes)) {
                Ok(()) => SendOutcome::Sent,
                Err(_) => SendOutcome::Failed,
            },
            None => SendOutcome::NoClient,
        };
        self.senders.finish_send(peer, outcome, 0)
    }
}

#[test]
fn test_client_senders_add_remove() {
    let mut senders = ClientSenders::new();

    assert!(senders.is_empty());
    assert_eq!(senders.len(), 0);

    senders.add("peer1", 1);

    assert!(!senders.is_empty());
    assert_eq!(senders.len(), 1);
    assert!(senders.is_active("peer1"));

    senders.remove("peer1");
    assert!(senders.is_empty());
    assert!(!senders.is_active("peer1"));
}

#[test]
fn test_client_senders_send_message() {
    let mut lines = Lines::new();
    let mut rx = lines.add("peer1", 8);

    let result = lines.send("peer1", b"test message");
    assert!(result, "Send should succeed");

    let received = rx.try_recv();
    assert!(received.is_ok(), "Should receive message");
    assert_eq!(&received.unwrap().into_data()[..], b"test message");
}

#[test]
fn test_client_senders_send_to_nonexistent() {
    let mut lines = Lines::new();
    let result = lines.send("nonexistent", b"test");
    assert!(!result, "Send to nonexistent peer should fail");
}

#[test]
fn test_client_senders_send_all_broadcast() {
    let mut lines = Lines::new();
    let mut rx1 = lines.add("peer1", 8);
    let mut rx2 = lines.add("peer2", 8);

    for peer in lines.senders.peers() {
        lines.send(&peer, b"broadcast");
    }

    assert!(rx1.try_recv().is_ok());
    assert!(rx2.try_recv().is_ok());
    assert!(rx1.try_recv().is_err());
}

#[test]
fn test_handle_message_receiver() {
    let mut senders = ClientSenders::new();
    let mut rx = senders.get_handle_message_receiver().unwrap();

    senders.send_handle_message(vec![1, 2, 3], "test_peer");

    let (data, peer) = rx.try_recv().unwrap();
    assert_eq!(data, vec![1, 2, 3]);
    assert_eq!(peer, "test_peer");
}

#[test]
fn replacing_a_wedged_peer_does_not_block() {
    let mut lines = Lines::new();
    let _old_rx = lines.add("tablet-7", 8);
    for _ in 0..8 {
        assert!(lines.send("tablet-7", b"backlog"));
    }
    assert_eq!(lines.channels[0].capacity(), 0);

    let mut new_rx = lines.add("tablet-7", 8);
    assert!(lines.send("tablet-7", b"hello"));
    assert!(
        new_rx.try_recv().is_ok(),
        "the new connection should have received the message"
    );
}

#[test]
fn a_peer_that_times_out_is_removed() {
    let mut lines = Lines::new();
    let _rx = lines.add("wedged", 1);
    assert!(lines.send("wedged", b"fills the channel"));
    assert_eq!(lines.senders.len(), 1);

    assert!(!lines.send("wedged", b"note"));

    assert_eq!(
        lines.senders.len(),
        0,
        "a peer that could not be sent to should have been dropped"
    );
}

#[test]
fn a_closed_peer_fails_at_once() {
    let mut lines = Lines::new();
    let rx = lines.add("gone", 8);
    drop(rx);
    assert!(!lines.send("gone", b"note"));
}

#[test]
fn one_wedged_peer_does_not_hold_up_a_broadcast() {
    let mut lines = Lines::new();
    let _wedged = lines.add("wedged", 1);
    assert!(lines.send("wedged", b"fills the channel"));
    let mut healthy: Vec<Receiver<Message>> = (0..47)
        .map(|i| lines.add(&format!("peer{i}"), 8))
        .collect();

    for peer in lines.senders.peers() {
        lines.send(&peer, b"note");
    }

    for (i, rx) in healthy.iter_mut().enumerate() {
        assert!(
            rx.try_recv().is_ok(),
            "peer{i} should have got the broadcast"
        );
    }
    assert_eq!(lines.senders.len(), 47);
}

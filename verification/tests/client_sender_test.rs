use atomic_websocket::channel::Routed;
use atomic_websocket::client_sender::{
    ClientSender, ClientSenders, SendOutcome, NOTICE_TIMEOUT_MILLIS, SEND_TIMEOUT_SECONDS,
};
use atomic_websocket::common::{
    get_data_schema, make_disconnect_message, make_expired_output_message,
};
use atomic_websocket::date_time::now;
use atomic_websocket::internal_server::ServerOptions;
use atomic_websocket::schema::{Data, Disconnect};

fn create_test_client_senders() -> ClientSenders {
    ClientSenders::new()
}

#[test]
fn test_client_senders_new() {
    let senders = create_test_client_senders();
    assert!(senders.is_empty());
    assert_eq!(senders.len(), 0);
}

#[test]
fn test_client_senders_default() {
    let senders = ClientSenders::default();
    assert!(senders.is_empty());
    assert_eq!(senders.len(), 0);
}

#[test]
fn test_client_senders_add() {
    let mut senders = create_test_client_senders();

    senders.add("peer1", 1);
    assert_eq!(senders.len(), 1);
    assert!(senders.is_active("peer1"));
    assert!(!senders.is_empty());
}

#[test]
fn test_client_senders_add_multiple() {
    let mut senders = create_test_client_senders();

    senders.add("peer1", 1);
    senders.add("peer2", 2);

    assert_eq!(senders.len(), 2);
    assert!(senders.is_active("peer1"));
    assert!(senders.is_active("peer2"));
}

#[test]
fn test_client_senders_remove() {
    let mut senders = create_test_client_senders();

    senders.add("peer1", 1);
    assert_eq!(senders.len(), 1);

    senders.remove("peer1");
    assert_eq!(senders.len(), 0);
    assert!(!senders.is_active("peer1"));
}

#[test]
fn test_client_senders_peers() {
    let mut senders = create_test_client_senders();

    senders.add("peer1", 1);
    senders.add("peer2", 2);

    let peers = senders.peers();
    assert_eq!(peers.len(), 2);
    assert!(peers.contains(&"peer1".to_string()));
    assert!(peers.contains(&"peer2".to_string()));
}

#[test]
fn test_client_senders_is_active_nonexistent() {
    let senders = create_test_client_senders();
    assert!(!senders.is_active("nonexistent"));
}

#[test]
fn test_client_senders_send_success() {
    let mut senders = create_test_client_senders();
    senders.add("peer1", 41);
    assert_eq!(senders.begin_send("peer1"), Some(41));
    assert!(senders.finish_send("peer1", SendOutcome::Sent, now()));
    assert_eq!(senders.metrics().snapshot().messages_sent, 1);
    assert!(senders.is_active("peer1"));
}

#[test]
fn test_client_senders_send_nonexistent_peer() {
    let mut senders = create_test_client_senders();
    assert_eq!(senders.begin_send("nonexistent"), None);
    assert!(!senders.finish_send("nonexistent", SendOutcome::NoClient, now()));
    let counted = senders.metrics().snapshot();
    assert_eq!(counted.messages_sent, 0);
    assert_eq!(counted.send_errors, 0);
}

#[test]
fn test_client_senders_get_handle_message_receiver() {
    let mut senders = create_test_client_senders();
    let rx = senders.get_handle_message_receiver();
    assert!(rx.is_some(), "First call should return Some");

    let rx2 = senders.get_handle_message_receiver();
    assert!(rx2.is_none(), "Second call should return None");
}

#[test]
fn test_client_senders_send_handle_message() {
    let mut senders = create_test_client_senders();
    let mut rx = senders.get_handle_message_receiver().expect("receiver");

    let routed = senders.send_handle_message(vec![1, 2, 3], "peer1");
    assert_eq!(routed, Routed::Delivered);

    let received = rx.try_recv();
    assert!(received.is_ok());
    let (data, peer) = received.unwrap();
    assert_eq!(data, vec![1, 2, 3]);
    assert_eq!(peer, "peer1");
    assert_eq!(senders.metrics().snapshot().messages_received, 1);
}

#[test]
fn test_client_senders_write_time() {
    let mut senders = create_test_client_senders();

    senders.add("peer1", 1);
    senders.write_time("peer1");
    assert!(senders.is_active("peer1"));
}

#[test]
fn test_client_senders_replace_existing() {
    let mut senders = create_test_client_senders();

    assert!(senders.notice_owed("peer1").is_none());
    senders.add("peer1", 1);
    let replaced = senders.notice_owed("peer1").expect("the old connection");
    assert_eq!(senders.begin_send("peer1"), Some(1));
    senders.add("peer1", 2);

    assert_eq!(senders.len(), 1);
    assert_eq!(replaced.sx, 1);
    assert_eq!(senders.begin_send("peer1"), Some(2));
    let notice = replaced.message.into_data();
    let schema = get_data_schema(&notice).unwrap();
    assert_eq!(schema.category, 10003);
    assert_eq!(Disconnect::deserialize(schema.datas).unwrap().peer, "peer1");
}

#[test]
fn test_client_sender_write_time() {
    let mut sender = ClientSender {
        sx: 1,
        send_time: 0,
    };

    assert_eq!(sender.send_time, 0);
    sender.write_time();
    assert!(sender.send_time > 0);
}

#[test]
fn test_check_client_send_time_removes_inactive_clients() {
    let mut senders = create_test_client_senders();

    senders.add_at("peer1", 1, 0);
    assert!(senders.is_active("peer1"));

    senders.check_client_send_time();

    assert!(!senders.is_active("peer1"));
    assert_eq!(senders.len(), 0);
    assert_eq!(senders.metrics().snapshot().connections_active, 0);
}

#[test]
fn test_check_client_send_time_keeps_active_clients() {
    let mut senders = create_test_client_senders();

    senders.add("peer1", 1);
    senders.write_time("peer1");

    senders.check_client_send_time();

    assert!(senders.is_active("peer1"));
    assert_eq!(senders.len(), 1);
}

#[test]
fn test_check_client_send_time_mixed_clients() {
    let mut senders = create_test_client_senders();

    senders.add_at("inactive1", 1, 0);
    senders.add("active", 2);
    senders.add_at("inactive2", 3, 0);
    senders.write_time("active");

    assert_eq!(senders.len(), 3);

    senders.check_client_send_time();

    assert!(!senders.is_active("inactive1"));
    assert!(senders.is_active("active"));
    assert!(!senders.is_active("inactive2"));
    assert_eq!(senders.len(), 1);
    assert_eq!(senders.metrics().snapshot().connections_active, 1);
    assert_eq!(senders.metrics().snapshot().connections_total, 3);
}

#[test]
fn test_check_client_send_time_empty_clients() {
    let mut senders = create_test_client_senders();

    senders.check_client_send_time();
    assert_eq!(senders.len(), 0);
}

#[test]
fn a_client_is_dropped_one_second_after_its_time() {
    let mut senders = create_test_client_senders();
    senders.add_at("peer1", 1, 1000);
    senders.check_client_send_time_at(1030);
    assert!(senders.is_active("peer1"));
    senders.check_client_send_time_at(1031);
    assert!(!senders.is_active("peer1"));
}

#[test]
fn the_timeout_comes_from_the_options() {
    let mut senders = create_test_client_senders();
    let mut options = ServerOptions::default();
    options.client_timeout_seconds = 5;
    senders.set_options(options);
    assert_eq!(senders.options().client_timeout_seconds, 5);
    senders.add_at("peer1", 1, 1000);
    senders.check_client_send_time_at(1006);
    assert!(senders.is_empty());
}

#[test]
fn test_write_time_nonexistent_peer_no_panic() {
    let mut senders = create_test_client_senders();

    senders.write_time("nonexistent");
    assert!(senders.is_empty());
}

#[test]
fn test_write_time_updates_timestamp_correctly() {
    let mut senders = create_test_client_senders();

    senders.add("peer1", 1);
    assert!(written_within_a_second(senders, "peer1"));

    let mut senders = create_test_client_senders();
    senders.add("peer1", 1);
    senders.write_time("peer1");
    assert!(written_within_a_second(senders, "peer1"));

    let mut senders = create_test_client_senders();
    senders.add_at("peer1", 1, 0);
    senders.write_time("peer1");
    assert!(written_within_a_second(senders, "peer1"));
}

/// Whether a client was written to at most one second before or after now, as
/// the check for silent clients finds it with its limit of 30 seconds.
fn written_within_a_second(mut senders: ClientSenders, peer: &str) -> bool {
    let time = now();
    senders.check_client_send_time_at(time - 1 + 30);
    let not_before = senders.is_active(peer);
    senders.check_client_send_time_at(time + 1 + 30 + 1);
    let not_after = !senders.is_active(peer);
    not_before && not_after
}

#[test]
fn a_client_is_written_to_at_the_time_given() {
    let mut senders = create_test_client_senders();
    senders.add_at("peer1", 1, 0);
    senders.write_time_at("peer1", 500);
    senders.check_client_send_time_at(530);
    assert!(senders.is_active("peer1"));
    assert_eq!(senders.begin_send("peer1"), Some(1));
}

#[test]
fn test_trait_send_all_broadcasts_to_all_clients() {
    let mut senders = create_test_client_senders();
    senders.add("peer1", 1);
    senders.add("peer2", 2);
    senders.add("peer3", 3);

    let mut reached: Vec<u64> = senders
        .peers()
        .iter()
        .filter_map(|peer| senders.begin_send(peer))
        .collect();
    reached.sort();
    assert_eq!(reached, vec![1, 2, 3]);
}

#[test]
fn test_trait_send_all_empty_clients() {
    let senders = create_test_client_senders();
    assert!(senders.peers().is_empty());
}

#[test]
fn test_trait_send_all_in_list_filters_correctly() {
    let mut senders = create_test_client_senders();
    senders.add("peer1", 1);
    senders.add("peer2", 2);
    senders.add("peer3", 3);

    let target_list = vec!["peer1".to_string(), "peer3".to_string()];
    let mut targets = senders.peers_in(&target_list);
    targets.sort();
    assert_eq!(targets, vec!["peer1".to_string(), "peer3".to_string()]);
}

#[test]
fn test_trait_send_message_in_list_filters_by_existing_peers() {
    let mut senders = create_test_client_senders();
    senders.add("peer1", 1);
    senders.add("peer2", 2);

    let target_list = vec![
        "peer1".to_string(),
        "peer3".to_string(),
        "peer4".to_string(),
    ];
    assert_eq!(senders.peers_in(&target_list), vec!["peer1".to_string()]);
}

#[test]
fn test_trait_expire_send_sends_to_unlisted_peers() {
    let mut senders = create_test_client_senders();
    senders.add("peer1", 1);
    senders.add("peer2", 2);
    senders.add("peer3", 3);

    let valid_list = vec!["peer2".to_string()];
    let mut expired = senders.peers_except(&valid_list);
    expired.sort();
    assert_eq!(expired, vec!["peer1".to_string(), "peer3".to_string()]);
    assert_eq!(&make_expired_output_message().into_data()[..], &[18, 39, 1]);
}

#[test]
fn a_name_listed_twice_is_reached_once() {
    let mut senders = create_test_client_senders();
    senders.add("peer1", 1);
    let twice = vec!["peer1".to_string(), "peer1".to_string()];
    assert_eq!(senders.peers_in(&twice).len(), 1);
    assert!(senders.peers_except(&twice).is_empty());
}

#[test]
fn test_trait_is_active_through_rwlock() {
    let mut senders = create_test_client_senders();

    assert!(!senders.is_active("peer1"));

    senders.add("peer1", 1);

    assert!(senders.is_active("peer1"));
    assert!(!senders.is_active("peer2"));
}

#[test]
fn test_trait_send_updates_time_on_success() {
    let mut senders = create_test_client_senders();
    senders.add_at("peer1", 1, 100);
    assert!(senders.finish_send("peer1", SendOutcome::Sent, 200));
    senders.check_client_send_time_at(230);
    assert!(senders.is_active("peer1"));
}

#[test]
fn test_trait_send_removes_peer_on_failure() {
    let mut senders = create_test_client_senders();

    senders.add("peer1", 1);
    assert!(senders.is_active("peer1"));

    let result = senders.finish_send("peer1", SendOutcome::Failed, now());
    assert!(!result);
    assert_eq!(senders.metrics().snapshot().send_errors, 1);
    assert_eq!(senders.metrics().snapshot().connections_active, 0);

    assert!(!senders.is_active("peer1"));
}

#[test]
fn reconnecting_does_not_inflate_the_active_connection_count() {
    let mut senders = create_test_client_senders();
    for channel in 0..5 {
        senders.add("tablet", channel);
    }
    let counted = senders.metrics().snapshot();
    assert_eq!(counted.connections_active, 1);
    assert_eq!(counted.connections_total, 5);
    senders.remove("tablet");
    senders.remove("tablet");
    assert_eq!(senders.metrics().snapshot().connections_active, 0);
}

#[test]
fn messages_overflow_into_the_buffer_and_then_drop() {
    let mut senders = ClientSenders::new_with_buffer_size(1, 1);
    let mut rx = senders.get_handle_message_receiver().unwrap();
    assert_eq!(senders.send_handle_message(vec![1], "a"), Routed::Delivered);
    assert_eq!(senders.send_handle_message(vec![2], "b"), Routed::Buffered);
    assert_eq!(senders.send_handle_message(vec![3], "c"), Routed::Dropped);
    let counted = senders.metrics().snapshot();
    assert_eq!(counted.messages_received, 3);
    assert_eq!(counted.messages_dropped, 1);
    assert_eq!(rx.try_recv().unwrap(), (vec![1], "a".to_string()));
    assert_eq!(senders.send_handle_message(vec![4], "d"), Routed::Buffered);
    assert_eq!(rx.try_recv().unwrap(), (vec![2], "b".to_string()));
}

#[test]
fn a_record_is_handed_on_as_it_is_written() {
    let mut senders = create_test_client_senders();
    let mut rx = senders.get_handle_message_receiver().unwrap();
    let data = Data {
        category: 7,
        datas: &[1, 2],
    };
    assert_eq!(
        senders.send_handle_data(data, "p"),
        Some(Routed::Delivered)
    );
    let (bytes, peer) = rx.try_recv().unwrap();
    assert_eq!(bytes, vec![7, 0, 2, 0, 0, 0, 1, 2]);
    assert_eq!(peer, "p");
}

#[test]
fn a_slow_client_is_given_up_soon() {
    assert_eq!(SEND_TIMEOUT_SECONDS, 2);
    assert_eq!(NOTICE_TIMEOUT_MILLIS, 200);
}

#[test]
fn the_receiver_is_that_of_the_table_itself() {
    let mut first = ClientSenders::new_with_buffer_size(1, 2);
    let mut second = ClientSenders::new_with_buffer_size(1, 2);
    let mut first_rx = first.get_handle_message_receiver().unwrap();
    let mut second_rx = second.get_handle_message_receiver().unwrap();
    assert_eq!(first.send_handle_message(vec![1], "a"), Routed::Delivered);
    assert!(second_rx.try_recv().is_err());
    assert_eq!(first_rx.try_recv().unwrap().0, vec![1]);
}

#[test]
fn a_client_is_turned_away_from_its_own_channel_only() {
    let mut senders = ClientSenders::new();
    senders.add("tablet", 1);
    senders.turn_away("tablet", 2);
    assert_eq!(senders.begin_send("tablet"), Some(1));
    senders.turn_away("other", 1);
    assert_eq!(senders.len(), 1);
    senders.turn_away("tablet", 1);
    assert!(senders.is_empty());
    let counted = senders.metrics().snapshot();
    assert_eq!(counted.connections_active, 0);
    assert_eq!(counted.connections_total, 1);
}

#[test]
fn a_returning_client_takes_its_own_place() {
    let mut senders = create_test_client_senders();
    senders.add("tablet", 1);
    senders.add("other", 2);

    let told = senders.notice_owed("tablet").expect("the old connection");
    assert_eq!(told.sx, 1);
    assert_eq!(told.message, make_disconnect_message("tablet"));
    assert_eq!(told.wait_millis, 200);
    assert_eq!(senders.begin_send("tablet"), Some(1));

    senders.add("tablet", 3);
    assert_eq!(senders.begin_send("tablet"), Some(3));
    assert_eq!(senders.begin_send("other"), Some(2));
    assert_eq!(senders.metrics().snapshot().connections_active, 2);

    assert!(senders.finish_send("tablet", SendOutcome::Sent, now()));
    assert!(!senders.finish_send("other", SendOutcome::Failed, now()));
    assert_eq!(senders.begin_send("tablet"), Some(3));
    assert_eq!(senders.begin_send("other"), None);
    assert!(!senders.finish_send("tablet", SendOutcome::Failed, now()));
    assert_eq!(senders.begin_send("tablet"), None);
}

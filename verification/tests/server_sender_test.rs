use atomic_websocket::channel::Routed;
use atomic_websocket::common::get_data_schema;
use atomic_websocket::connection_store::{ConnectionStore, NativeDbConnectionStore};
use atomic_websocket::date_time::now;
use atomic_websocket::internal_client::ClientOptions;
use atomic_websocket::schema::Disconnect;
use atomic_websocket::server_sender::{Reconnect, SendStep, SenderStatus, ServerSender};
use atomic_websocket::types::InMemoryStorage;
use atomic_websocket::AtomicWebsocketType;
use tokio::sync::mpsc;

fn create_test_options() -> ClientOptions {
    ClientOptions::default()
}

fn create_sender() -> ServerSender {
    ServerSender::new("".to_string(), create_test_options())
}

#[test]
fn test_server_sender_new() {
    let sender = ServerSender::new("127.0.0.1:9000".to_string(), create_test_options());

    assert!(sender.sx.is_none());
    assert_eq!(sender.server_ip, "127.0.0.1:9000");
    assert_eq!(sender.server_received_times, 0);
    assert!(!sender.is_try_connect);
    assert!(!sender.registered);
    assert!(sender.has_status_receiver());
    assert!(sender.has_handle_message_receiver());
}

#[test]
fn test_server_sender_get_status_receiver() {
    let mut sender = create_sender();

    let _rx = sender.get_status_receiver();
    assert!(_rx.is_some());
    assert!(!sender.has_status_receiver());
    assert!(sender.get_status_receiver().is_none());
}

#[test]
fn test_server_sender_get_handle_message_receiver() {
    let mut sender = create_sender();

    let _rx = sender.get_handle_message_receiver();
    assert!(_rx.is_some());
    assert!(!sender.has_handle_message_receiver());
    assert!(sender.get_handle_message_receiver().is_none());
}

#[test]
fn test_server_sender_regist() {
    let mut sender = create_sender();

    assert!(!sender.registered);

    sender.regist();

    assert!(sender.registered);
}

#[test]
fn test_server_sender_add_updates_state() {
    let mut sender = create_sender();

    assert!(sender.sx.is_none());
    assert_eq!(sender.server_ip, "");

    let (tx, _rx) = mpsc::channel(8);
    assert!(sender.add(tx, "192.168.1.100:9000").is_none());

    assert!(sender.sx.is_some());
    assert_eq!(sender.server_ip, "192.168.1.100:9000");
}

#[test]
fn test_server_sender_remove_ip_clears_state() {
    let mut sender = ServerSender::new("192.168.1.100:9000".to_string(), create_test_options());

    let (tx, mut rx) = mpsc::channel(8);
    sender.add(tx, "192.168.1.100:9000");

    assert!(!sender.server_ip.is_empty());

    let farewell = sender.remove_ip().expect("farewell");

    assert!(sender.server_ip.is_empty());
    assert!(sender.sx.is_none());

    farewell.sx.try_send(farewell.message).unwrap();
    let notice = rx.try_recv().unwrap().into_data();
    let schema = get_data_schema(&notice).unwrap();
    assert_eq!(schema.category, 10003);
    assert_eq!(
        Disconnect::deserialize(schema.datas).unwrap().peer,
        "192.168.1.100:9000"
    );
}

#[test]
fn test_server_sender_remove_ip_empty_no_panic() {
    let mut sender = create_sender();

    assert!(sender.remove_ip().is_none());
    assert!(sender.server_ip.is_empty());
}

#[test]
fn test_server_sender_send_status() {
    let mut sender = create_sender();

    let mut rx = sender.get_status_receiver().unwrap();

    sender.send_status(SenderStatus::Connected);

    let status = rx.try_recv();
    assert!(status.is_ok());
    assert_eq!(status.unwrap(), SenderStatus::Connected);
}

#[test]
fn test_server_sender_send_handle_message() {
    let mut sender = create_sender();

    let mut rx = sender.get_handle_message_receiver().unwrap();

    let routed = sender.send_handle_message(vec![1, 2, 3, 4, 5]);
    assert_eq!(routed, Routed::Delivered);

    let data = rx.try_recv();
    assert!(data.is_ok());
    assert_eq!(data.unwrap(), vec![1, 2, 3, 4, 5]);
}

#[test]
fn test_sender_status_equality() {
    assert_eq!(SenderStatus::Start, SenderStatus::Start);
    assert_eq!(SenderStatus::Connected, SenderStatus::Connected);
    assert_eq!(SenderStatus::Disconnected, SenderStatus::Disconnected);

    assert_ne!(SenderStatus::Start, SenderStatus::Connected);
    assert_ne!(SenderStatus::Connected, SenderStatus::Disconnected);
}

#[test]
fn test_sender_status_clone() {
    let status = SenderStatus::Connected;
    let cloned = status.clone();
    assert_eq!(status, cloned);
}

#[test]
fn test_sender_status_debug() {
    let status = SenderStatus::Disconnected;
    let debug_str = format!("{:?}", status);
    assert!(debug_str.contains("Disconnected"));
}

#[test]
fn test_trait_is_valid_server_ip_empty() {
    let sender = create_sender();

    assert!(!sender.is_valid_server_ip());
}

#[test]
fn test_trait_is_valid_server_ip_with_recent_activity() {
    let mut sender = create_sender();
    sender.server_ip = "192.168.1.100:9000".to_string();

    sender.write_received_times();

    assert!(sender.is_valid_server_ip());
}

#[test]
fn test_trait_is_valid_server_ip_with_old_activity() {
    let mut sender = create_sender();
    sender.server_ip = "192.168.1.100:9000".to_string();
    sender.server_received_times = 0;

    assert!(!sender.is_valid_server_ip());
}

#[test]
fn an_address_is_good_for_twice_the_retry_time() {
    let mut sender = create_sender();
    sender.server_ip = "a".to_string();
    sender.write_received_times_at(1000);
    assert!(sender.is_valid_server_ip_at(1059));
    assert!(!sender.is_valid_server_ip_at(1060));
    sender.options.retry_seconds = 0;
    assert!(sender.is_valid_server_ip_at(1001));
    assert!(!sender.is_valid_server_ip_at(1002));
}

#[test]
fn test_trait_is_need_connect_different_ip() {
    let mut sender = create_sender();
    sender.server_ip = "192.168.1.100:9000".to_string();
    sender.is_try_connect = false;

    assert!(sender.is_need_connect("192.168.1.200:9000"));
}

#[test]
fn test_trait_is_need_connect_same_ip() {
    let mut sender = create_sender();
    sender.server_ip = "192.168.1.100:9000".to_string();
    sender.is_try_connect = false;

    assert!(!sender.is_need_connect("192.168.1.100:9000"));
}

#[test]
fn test_trait_is_need_connect_already_trying() {
    let mut sender = create_sender();
    sender.server_ip = "192.168.1.100:9000".to_string();
    sender.is_try_connect = true;

    assert!(!sender.is_need_connect("192.168.1.200:9000"));
}

#[test]
fn test_trait_write_received_times_updates_timestamp() {
    let mut sender = create_sender();
    assert_eq!(sender.server_received_times, 0);

    sender.write_received_times();

    assert!(sender.server_received_times > 0);
    let now_ts = now();
    assert!((sender.server_received_times - now_ts).abs() <= 1);
}

#[test]
fn test_now() {
    let now = now();
    println!("{:?}", now);
    assert!(now > 1_600_000_000);
}

#[test]
fn test_trait_remove_ip() {
    let mut sender = create_sender();
    sender.server_ip = "192.168.1.100:9000".to_string();

    sender.remove_ip();

    assert!(sender.server_ip.is_empty());
}

#[test]
fn test_trait_send_status_through_rwlock() {
    let mut sender = create_sender();

    let mut rx = sender.get_status_receiver().unwrap();

    sender.send_status(SenderStatus::Start);

    let status = rx.try_recv();
    assert!(status.is_ok());
    assert_eq!(status.unwrap(), SenderStatus::Start);
}

#[test]
fn a_new_connection_is_remembered_with_its_port() {
    let mut store = NativeDbConnectionStore::new(InMemoryStorage::new());
    store.set_server_connect_info("", "16250");
    let mut sender = create_sender();
    let (tx, _rx) = mpsc::channel(1);
    sender.add_to_store(&mut store, tx, "ws://10.0.0.5:16250");
    assert_eq!(
        store.get_server_connect_info(),
        Some(("ws://10.0.0.5:16250".to_string(), "16250".to_string()))
    );

    let farewell = sender.remove_ip_if_valid_server_ip(&mut store, "");
    assert!(farewell.is_some());
    assert_eq!(
        store.get_server_connect_info(),
        Some(("".to_string(), "16250".to_string()))
    );
    assert!(sender.server_ip.is_empty());
}

#[test]
fn a_failed_message_is_sent_again_and_then_given_up() {
    let mut options = create_test_options();
    options.retry_seconds = 30;
    let mut sender = ServerSender::new("ws://10.0.0.5:1".to_string(), options);
    assert!(sender.begin_send().is_none());
    let (tx, _rx) = mpsc::channel(1);
    sender.add(tx, "ws://10.0.0.5:1");
    sender.regist();
    let mut rx = sender.get_status_receiver().unwrap();

    let (_, mut retry) = sender.begin_send().unwrap();
    let mut waits = Vec::new();
    let last = loop {
        match sender.after_send(&mut retry, false) {
            SendStep::RetryAfter(wait) => waits.push(wait.as_millis()),
            step => break step,
        }
    };
    assert_eq!(waits, vec![100, 200, 400, 800, 1000]);
    assert!(matches!(
        last,
        SendStep::GiveUp(Reconnect::Internal(ip)) if ip == "ws://10.0.0.5:1"
    ));
    assert_eq!(rx.try_recv().unwrap(), SenderStatus::Disconnected);
    assert!(rx.try_recv().is_err());
}

#[test]
fn the_number_of_attempts_follows_the_retry_time() {
    for (seconds, attempts) in [(0u64, 1usize), (1, 1), (2, 1), (3, 2), (5, 4), (6, 5), (100, 5)] {
        let mut options = create_test_options();
        options.retry_seconds = seconds;
        options.atomic_websocket_type = AtomicWebsocketType::External;
        let mut sender = ServerSender::new("u".to_string(), options);
        let (tx, _rx) = mpsc::channel(1);
        sender.add(tx, "u");
        let (_, mut retry) = sender.begin_send().unwrap();
        let mut again = 0;
        loop {
            match sender.after_send(&mut retry, false) {
                SendStep::RetryAfter(_) => again += 1,
                SendStep::GiveUp(reconnect) => {
                    assert!(matches!(reconnect, Reconnect::Never));
                    break;
                }
                SendStep::Delivered => unreachable!(),
            }
        }
        assert_eq!(again, attempts);
        sender.regist();
        assert!(matches!(
            sender.after_send(&mut retry, false),
            SendStep::GiveUp(Reconnect::External)
        ));
        assert!(matches!(
            sender.after_send(&mut retry, true),
            SendStep::Delivered
        ));
    }
}

#[test]
fn a_message_goes_through_the_channel_of_the_connection() {
    let mut sender = create_sender();
    let (tx, mut rx) = mpsc::channel(1);
    sender.add(tx, "u");
    let (sx, _) = sender.begin_send().unwrap();
    sx.try_send(atomic_websocket::common::make_raw_message(&[5])).unwrap();
    assert_eq!(&rx.try_recv().unwrap().into_data()[..], &[5]);
}

#[test]
fn a_replaced_connection_is_told_so() {
    let mut sender = create_sender();
    let (tx1, _rx1) = mpsc::channel(1);
    let (tx2, _rx2) = mpsc::channel(1);
    sender.add(tx1, "ws://a:1");
    let farewell = sender.add(tx2, "ws://b:2").expect("farewell");
    let notice = farewell.message.into_data();
    let schema = get_data_schema(&notice).unwrap();
    assert_eq!(Disconnect::deserialize(schema.datas).unwrap().peer, "ws://a:1");
    assert_eq!(sender.server_ip, "ws://b:2");
}

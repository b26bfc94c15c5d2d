use atomic_websocket::channel::Routed;
use atomic_websocket::common::{
    get_data_schema, make_atomic_message, make_disconnect_message, make_ping_message,
    make_pong_message,
};
use atomic_websocket::connection_store::{ConnectionStore, NativeDbConnectionStore};
use atomic_websocket::get_internal_websocket::{
    dial_failed, open_session, Reaction, TryConnectGuard, FLUSH_TIMEOUT_SECONDS,
};
use atomic_websocket::get_websocket;
use atomic_websocket::internal_client::ClientOptions;
use atomic_websocket::schema::{Data, Disconnect, Format, Ping};
use atomic_websocket::server_sender::{SenderStatus, ServerSender};
use atomic_websocket::types::InMemoryStorage;
use atomic_websocket::Settings;
use tokio::sync::mpsc;

#[test]
fn only_one_attempt_can_be_claimed() {
    let mut sender = ServerSender::new("".to_string(), ClientOptions::default());
    let guard = TryConnectGuard::try_acquire(&mut sender).expect("free");
    assert!(sender.is_try_connect);
    assert!(TryConnectGuard::try_acquire(&mut sender).is_none());
    guard.release(&mut sender);
    assert!(!sender.is_try_connect);
    let mut guard = TryConnectGuard::try_acquire(&mut sender).expect("free again");
    guard.disarm();
    guard.release(&mut sender);
    assert!(sender.is_try_connect);
}

#[test]
fn a_session_with_pings_is_connected_by_the_first_answer() {
    let mut store = NativeDbConnectionStore::new(InMemoryStorage::new());
    store.ensure_client_id();
    let id = store.get_client_id();
    let mut options = ClientOptions::default();
    options.retry_seconds = 4;
    let mut sender = ServerSender::new("".to_string(), options.clone());
    let mut statuses = sender.get_status_receiver().unwrap();
    let mut messages = sender.get_handle_message_receiver().unwrap();
    let mut guard = TryConnectGuard::try_acquire(&mut sender).unwrap();
    let (tx, _rx) = mpsc::channel(8);

    let opened = open_session(
        Format::Bebop,
        &mut store,
        &mut sender,
        tx,
        "ws://10.0.0.5:9000",
        &options,
        100,
    );
    assert!(opened.farewell.is_none());
    let ping = opened.ping.unwrap().into_data();
    let schema = get_data_schema(&ping).unwrap();
    assert_eq!(Ping::deserialize(schema.datas).unwrap().peer, id);
    assert!(statuses.try_recv().is_err());
    assert_eq!(
        store.get_server_connect_info(),
        Some(("ws://10.0.0.5:9000".to_string(), "9000".to_string()))
    );

    let mut session = opened.session;
    assert!(matches!(
        session.on_message(&mut sender, vec![1], 101),
        Reaction::Ignored
    ));
    assert_eq!(sender.server_received_times, 101);
    assert!(statuses.try_recv().is_err());

    let pong = make_pong_message().into_data().to_vec();
    assert!(matches!(
        session.on_message(&mut sender, pong.clone(), 102),
        Reaction::PingAfter(4)
    ));
    assert_eq!(statuses.try_recv().unwrap(), SenderStatus::Connected);
    assert!(matches!(
        session.on_message(&mut sender, pong.clone(), 103),
        Reaction::Ignored
    ));
    assert!(statuses.try_recv().is_err());
    assert_eq!(
        session.ping_due().into_data(),
        make_ping_message(&id).into_data()
    );
    assert!(matches!(
        session.on_message(&mut sender, pong, 104),
        Reaction::PingAfter(4)
    ));

    let data = make_atomic_message(300, vec![7, 8]).into_data().to_vec();
    assert!(matches!(
        session.on_message(&mut sender, data, 105),
        Reaction::Forwarded(Routed::Delivered)
    ));
    let record = messages.try_recv().unwrap();
    let read = Data::deserialize(&record).unwrap();
    assert_eq!(read.category, 300);
    assert_eq!(read.datas, &[7, 8]);

    let bye = make_disconnect_message("x").into_data().to_vec();
    match session.on_message(&mut sender, bye, 106) {
        Reaction::Close(notice) => {
            let bytes = notice.into_data();
            let schema = get_data_schema(&bytes).unwrap();
            assert_eq!(Disconnect::deserialize(schema.datas).unwrap().peer, "10.0.0.5");
        }
        _ => panic!("the session should close"),
    }
    assert_eq!(sender.server_received_times, 106);

    session.close(&mut sender, &mut guard);
    assert!(!sender.is_try_connect);
    guard.release(&mut sender);
}

#[test]
fn a_session_without_pings_is_connected_at_once() {
    let mut store = NativeDbConnectionStore::new(InMemoryStorage::new());
    let mut options = ClientOptions::default();
    options.use_ping = false;
    let mut sender = ServerSender::new("".to_string(), options.clone());
    let mut statuses = sender.get_status_receiver().unwrap();
    let (tx, _rx) = mpsc::channel(8);
    let opened = open_session(
        Format::Bebop,
        &mut store,
        &mut sender,
        tx,
        "ws://10.0.0.5:9000",
        &options,
        100,
    );
    assert!(opened.ping.is_none());
    assert_eq!(statuses.try_recv().unwrap(), SenderStatus::Connected);
    assert_eq!(sender.server_received_times, 100);
}

#[test]
fn a_raw_session_hands_everything_on() {
    let mut store = NativeDbConnectionStore::raw(InMemoryStorage::new());
    let options = ClientOptions::default();
    let mut sender = ServerSender::new("".to_string(), options.clone());
    let mut statuses = sender.get_status_receiver().unwrap();
    let mut messages = sender.get_handle_message_receiver().unwrap();
    let (tx, _rx) = mpsc::channel(8);
    let opened = open_session(
        Format::Raw,
        &mut store,
        &mut sender,
        tx,
        "ws://10.0.0.5:9000",
        &options,
        100,
    );
    assert!(opened.ping.is_none());
    assert_eq!(statuses.try_recv().unwrap(), SenderStatus::Connected);
    let mut session = opened.session;
    let bye = make_disconnect_message("x").into_data().to_vec();
    assert!(matches!(
        session.on_message(&mut sender, bye.clone(), 101),
        Reaction::Forwarded(Routed::Delivered)
    ));
    assert_eq!(messages.try_recv().unwrap(), bye);
    assert!(matches!(
        session.on_message(&mut sender, vec![], 102),
        Reaction::Forwarded(Routed::Delivered)
    ));
    assert_eq!(sender.server_received_times, 102);
}

#[test]
fn a_plain_connection_pings_after_every_pong() {
    let record = |category: u16| {
        let mut bytes = Vec::new();
        Data {
            category,
            datas: &[],
        }
        .serialize(&mut bytes)
        .unwrap();
        bytes
    };
    assert_eq!(
        get_websocket::on_record(&record(10001)),
        get_websocket::PlainReaction::ForwardAndPingAfter(15)
    );
    assert_eq!(
        get_websocket::on_record(&record(10003)),
        get_websocket::PlainReaction::Close
    );
    assert_eq!(
        get_websocket::on_record(&record(5)),
        get_websocket::PlainReaction::Forward
    );
    assert_eq!(
        get_websocket::on_record(&[1, 2]),
        get_websocket::PlainReaction::Ignored
    );
    assert!(get_websocket::goes_on_after(&record(5), true));
    assert!(get_websocket::goes_on_after(&[0], true));
    assert!(!get_websocket::goes_on_after(&record(10003), true));
    assert!(!get_websocket::goes_on_after(&record(5), false));
    assert_eq!(
        get_websocket::opening_ping("me").into_data(),
        make_ping_message("me").into_data()
    );
    let settings = vec![
        Settings {
            key: "Other".to_string(),
            value: vec![1],
        },
        Settings {
            key: "ClientId".to_string(),
            value: b"me".to_vec(),
        },
    ];
    assert_eq!(get_websocket::get_id(&settings), "me");
}

#[test]
fn a_failed_dial_forgets_the_address() {
    let mut store = NativeDbConnectionStore::new(InMemoryStorage::new());
    store.ensure_client_id();
    let id = store.get_client_id();
    store.set_server_connect_info("ws://10.0.0.5:9000", "9000");
    let mut sender = ServerSender::new("ws://10.0.0.5:9000".to_string(), ClientOptions::default());
    let (tx, _rx) = mpsc::channel(8);
    sender.add(tx, "ws://10.0.0.5:9000");
    let guard = TryConnectGuard::try_acquire(&mut sender).expect("free");

    let (connected, farewell) =
        dial_failed(&mut sender, &mut store, guard, "ws://10.0.0.5:9000");
    assert!(!connected);
    assert_eq!(
        farewell.unwrap().message,
        make_disconnect_message("ws://10.0.0.5:9000")
    );
    assert_eq!(sender.server_ip, "");
    assert!(sender.sx.is_none());
    assert!(!sender.is_try_connect);
    assert_eq!(
        store.get_server_connect_info(),
        Some(("".to_string(), "9000".to_string()))
    );
    assert_eq!(store.get_client_id(), id);
    assert!(TryConnectGuard::try_acquire(&mut sender).is_some());
}

#[test]
fn a_failed_dial_without_an_address_has_nothing_to_say() {
    let mut store = NativeDbConnectionStore::new(InMemoryStorage::new());
    let mut sender = ServerSender::new("".to_string(), ClientOptions::default());
    let guard = TryConnectGuard::try_acquire(&mut sender).expect("free");
    let (connected, farewell) = dial_failed(&mut sender, &mut store, guard, "ws://a:1");
    assert!(!connected);
    assert!(farewell.is_none());
    assert!(!sender.is_try_connect);
    assert!(store.get_server_connect_info().is_none());
}

#[test]
fn a_plain_connection_is_reported_after_its_first_ping() {
    let mut store = NativeDbConnectionStore::new(InMemoryStorage::new());
    let mut sender = ServerSender::new("".to_string(), ClientOptions::default());
    let mut statuses = sender.get_status_receiver().unwrap();
    let (tx, _rx) = mpsc::channel(8);
    let opened = get_websocket::open_plain_session(
        &mut store,
        &mut sender,
        tx,
        "ws://10.0.0.5:9000",
        "me",
    );
    assert!(opened.farewell.is_none());
    assert_eq!(opened.ping, make_ping_message("me"));
    assert_eq!(sender.server_ip, "ws://10.0.0.5:9000");
    assert!(sender.sx.is_some());
    assert_eq!(
        store.get_server_connect_info(),
        Some(("ws://10.0.0.5:9000".to_string(), "9000".to_string()))
    );
    assert!(statuses.try_recv().is_err());
    get_websocket::plain_session_opened(&mut sender);
    assert_eq!(statuses.try_recv().unwrap(), SenderStatus::Connected);
}

#[test]
fn a_connection_that_is_over_may_flush_for_a_second() {
    assert_eq!(FLUSH_TIMEOUT_SECONDS, 1);
}

use atomic_websocket::channel::Routed;
use atomic_websocket::client_sender::ClientSenders;
use atomic_websocket::common::{
    make_atomic_message, make_disconnect_message, make_ping_message, make_pong_message,
};
use atomic_websocket::get_internal_websocket::{after_write, WriterStep};
use atomic_websocket::internal_server::{
    check_interval, forward, get_id_from_first_message, notice_for_first_message,
    on_client_message, prepare_server, ConnectionGate, ServerOptions, ServerReaction,
};
use atomic_websocket::schema::{Data, Format};

#[test]
fn internal_server_test_server_options_default() {
    let options = ServerOptions::default();
    assert!(options.use_ping);
    assert_eq!(options.proxy_ping, -1);
}

#[test]
fn reconnection_test_test_server_options_default() {
    let options = ServerOptions::default();
    assert!(options.use_ping);
    assert_eq!(options.proxy_ping, -1);
}

#[test]
fn test_server_options_custom() {
    let options = ServerOptions {
        use_ping: false,
        proxy_ping: 100,
        ..Default::default()
    };
    assert!(!options.use_ping);
    assert_eq!(options.proxy_ping, 100);
}

#[test]
fn test_server_options_clone() {
    let options = ServerOptions {
        use_ping: false,
        proxy_ping: 50,
        ..Default::default()
    };
    let cloned = options.clone();
    assert!(!cloned.use_ping);
    assert_eq!(cloned.proxy_ping, 50);
}

#[test]
fn test_server_options_proxy_ping_disabled() {
    let options = ServerOptions {
        use_ping: true,
        proxy_ping: -1,
        ..Default::default()
    };
    assert!(options.proxy_ping < 0);
}

#[test]
fn test_server_options_proxy_ping_enabled() {
    let options = ServerOptions {
        use_ping: false,
        proxy_ping: 200,
        ..Default::default()
    };
    assert!(options.proxy_ping > 0);
    assert_eq!(options.proxy_ping, 200);
}

#[test]
fn the_default_cap_is_far_above_a_real_store() {
    assert!(
        ServerOptions::default().max_connections >= 256,
        "a default that a real deployment can reach is a default that will be hit during service"
    );
    assert_eq!(ServerOptions::default().max_connections, 512);
}

#[test]
fn connections_past_the_cap_are_refused() {
    let options = ServerOptions {
        max_connections: 2,
        ..Default::default()
    };
    let mut gate = ConnectionGate::new(&options);
    assert!(gate.enter());
    assert!(gate.enter());
    assert!(!gate.enter());
    assert_eq!(gate.max(), 2);
}

#[test]
fn a_third_connection_is_fine_when_the_cap_is_high() {
    let options = ServerOptions {
        max_connections: 64,
        ..Default::default()
    };
    let mut gate = ConnectionGate::new(&options);
    assert!(gate.enter());
    assert!(gate.enter());
    assert!(gate.enter());
}

#[test]
fn a_closed_connection_frees_its_slot() {
    let options = ServerOptions {
        max_connections: 1,
        ..Default::default()
    };
    let mut gate = ConnectionGate::new(&options);
    assert!(gate.enter());
    assert!(!gate.enter());
    gate.leave();
    assert!(gate.enter());
}

#[test]
fn clients_are_checked_at_least_every_second() {
    let mut options = ServerOptions::default();
    assert_eq!(check_interval(&options), 15);
    options.client_check_interval_secs = 0;
    assert_eq!(check_interval(&options), 1);
}

#[test]
fn given_connections_get_the_options_of_the_server() {
    let options = ServerOptions {
        use_ping: false,
        spillover_buffer_size: 3,
        ..Default::default()
    };
    let mut senders = ClientSenders::new();
    senders.add("peer", 1);
    let prepared = prepare_server(options, Some(senders));
    assert!(prepared.is_active("peer"));
    assert!(!prepared.options().use_ping);
    let fresh = prepare_server(options, None);
    assert!(fresh.is_empty());
    assert_eq!(fresh.options().spillover_buffer_size, 3);
}

#[test]
fn a_first_ping_connects_its_client() {
    let mut senders = ClientSenders::new();
    let first = make_ping_message("tablet").into_data();
    let greeting = get_id_from_first_message(&mut senders, &first, 9, 100).unwrap();
    assert_eq!(greeting.id, "tablet");
    assert!(greeting.pong);
    assert_eq!(senders.begin_send("tablet"), Some(9));
    assert_eq!(senders.len(), 1);
}

#[test]
fn the_notice_is_owed_before_the_replacement() {
    let mut senders = ClientSenders::new();
    let first = make_ping_message("tablet").into_data();
    assert!(notice_for_first_message(&senders, &first).is_none());
    get_id_from_first_message(&mut senders, &first, 9, 100).unwrap();

    let owed = notice_for_first_message(&senders, &first).unwrap();
    assert_eq!(owed.sx, 9);
    assert_eq!(owed.message, make_disconnect_message("tablet"));
    assert_eq!(senders.begin_send("tablet"), Some(9));
    assert!(notice_for_first_message(&senders, &[1]).is_none());

    get_id_from_first_message(&mut senders, &first, 10, 101).unwrap();
    assert_eq!(senders.begin_send("tablet"), Some(10));
    assert_eq!(senders.len(), 1);
}

#[test]
fn with_pings_answered_and_proxied_the_proxy_wins() {
    let mut senders = ClientSenders::new();
    let options = ServerOptions {
        use_ping: true,
        proxy_ping: 300,
        ..Default::default()
    };
    senders.set_options(options);
    let mut rx = senders.get_handle_message_receiver().unwrap();
    let ping = make_ping_message("t").into_data();

    let greeting = get_id_from_first_message(&mut senders, &ping, 1, 0).unwrap();
    assert_eq!(greeting.id, "t");
    assert!(!greeting.pong);
    let (bytes, peer) = rx.try_recv().unwrap();
    assert_eq!(peer, "t");
    let data = Data::deserialize(&bytes).unwrap();
    assert_eq!(data.category, 300);
    assert_eq!(data.datas, &ping[2..]);

    assert!(matches!(
        on_client_message(Format::Bebop, &ping, &options),
        ServerReaction::Consult
    ));
    assert_eq!(
        forward(&mut senders, Format::Bebop, ping.to_vec(), "t"),
        Some(Routed::Delivered)
    );
    let (bytes, _) = rx.try_recv().unwrap();
    let data = Data::deserialize(&bytes).unwrap();
    assert_eq!(data.category, 300);
    assert_eq!(data.datas, &ping[2..]);
}

#[test]
fn without_pongs_and_proxy_a_ping_keeps_its_category() {
    let mut senders = ClientSenders::new();
    senders.set_options(ServerOptions {
        use_ping: false,
        proxy_ping: -1,
        ..Default::default()
    });
    let mut rx = senders.get_handle_message_receiver().unwrap();
    let ping = make_ping_message("t").into_data();
    let greeting = get_id_from_first_message(&mut senders, &ping, 1, 0).unwrap();
    assert!(!greeting.pong);
    let (bytes, _) = rx.try_recv().unwrap();
    assert_eq!(Data::deserialize(&bytes).unwrap().category, 10000);
}

#[test]
fn without_pongs_the_first_ping_is_handed_on() {
    let mut senders = ClientSenders::new();
    let mut options = ServerOptions::default();
    options.use_ping = false;
    options.proxy_ping = 300;
    senders.set_options(options);
    let mut rx = senders.get_handle_message_receiver().unwrap();
    let first = make_ping_message("t").into_data();
    let greeting = get_id_from_first_message(&mut senders, &first, 1, 0).unwrap();
    assert!(!greeting.pong);
    let (bytes, peer) = rx.try_recv().unwrap();
    assert_eq!(peer, "t");
    let data = Data::deserialize(&bytes).unwrap();
    assert_eq!(data.category, 300);
    assert_eq!(data.datas, &first[2..]);
}

#[test]
fn a_proxied_first_ping_is_handed_on() {
    let mut senders = ClientSenders::new();
    let mut options = ServerOptions::default();
    options.proxy_ping = 300;
    senders.set_options(options);
    let mut rx = senders.get_handle_message_receiver().unwrap();
    let ping = make_ping_message("t").into_data();
    let first = make_atomic_message(300, ping[2..].to_vec()).into_data();
    let greeting = get_id_from_first_message(&mut senders, &first, 1, 0).unwrap();
    assert_eq!(greeting.id, "t");
    assert!(!greeting.pong);
    assert_eq!(Data::deserialize(&rx.try_recv().unwrap().0).unwrap().category, 300);
}

#[test]
fn any_other_first_message_connects_nobody() {
    let mut senders = ClientSenders::new();
    assert!(get_id_from_first_message(&mut senders, &[1], 1, 0).is_none());
    let pong = make_pong_message().into_data();
    assert!(get_id_from_first_message(&mut senders, &pong, 1, 0).is_none());
    let broken = make_atomic_message(10000, vec![1, 2]).into_data();
    assert!(get_id_from_first_message(&mut senders, &broken, 1, 0).is_none());
    let other = make_atomic_message(65535, make_ping_message("t").into_data()[2..].to_vec());
    assert!(get_id_from_first_message(&mut senders, &other.into_data(), 1, 0).is_none());
    assert!(senders.is_empty());
}

#[test]
fn messages_of_clients_are_told_apart() {
    let answering = ServerOptions::default();
    let silent = ServerOptions {
        use_ping: false,
        ..Default::default()
    };
    let ping = make_ping_message("t").into_data();
    assert!(matches!(
        on_client_message(Format::Bebop, &ping, &answering),
        ServerReaction::Pong(peer) if peer == "t"
    ));
    assert!(matches!(
        on_client_message(Format::Bebop, &ping, &silent),
        ServerReaction::Consult
    ));
    let broken = make_atomic_message(10000, vec![1]).into_data();
    assert!(matches!(
        on_client_message(Format::Bebop, &broken, &answering),
        ServerReaction::Consult
    ));
    let bye = make_disconnect_message("t").into_data();
    assert!(matches!(
        on_client_message(Format::Bebop, &bye, &answering),
        ServerReaction::Close
    ));
    assert!(matches!(
        on_client_message(Format::Bebop, &[1], &answering),
        ServerReaction::Ignored
    ));
    assert!(matches!(
        on_client_message(Format::Raw, &bye, &answering),
        ServerReaction::Consult
    ));
}

#[test]
fn messages_are_handed_on_by_format() {
    let mut senders = ClientSenders::new();
    let mut rx = senders.get_handle_message_receiver().unwrap();
    assert_eq!(
        forward(&mut senders, Format::Raw, vec![1, 2, 3], "p"),
        Some(Routed::Delivered)
    );
    assert_eq!(rx.try_recv().unwrap().0, vec![1, 2, 3]);
    assert_eq!(
        forward(&mut senders, Format::Bebop, vec![1, 2, 3], "p"),
        Some(Routed::Delivered)
    );
    assert_eq!(rx.try_recv().unwrap().0, vec![1, 2, 1, 0, 0, 0, 3]);
    assert_eq!(forward(&mut senders, Format::Bebop, vec![1], "p"), None);
}

#[test]
fn the_writer_ends_with_the_disconnect_notice() {
    let bye = make_disconnect_message("t").into_data();
    let ping = make_ping_message("t").into_data();
    assert_eq!(after_write(Format::Bebop, &bye, true), WriterStep::Close);
    assert_eq!(after_write(Format::Bebop, &ping, true), WriterStep::Continue);
    assert_eq!(after_write(Format::Bebop, &[1], true), WriterStep::Close);
    assert_eq!(after_write(Format::Bebop, &ping, false), WriterStep::Close);
    assert_eq!(after_write(Format::Raw, &bye, true), WriterStep::Continue);
    assert_eq!(after_write(Format::Raw, &[], false), WriterStep::Close);
}

use atomic_websocket::common::{make_atomic_message, make_disconnect_message, make_ping_message};
use atomic_websocket::get_internal_websocket::{after_write, WriterStep};
use atomic_websocket::internal_server::{Greeting, ServerOptions};
use atomic_websocket::schema::Format;
use atomic_websocket::server_connection::{ConnectionAction, ConnectionEvent, ServerConnection};

const ADDRESS: &str = "10.0.0.7:5000";

fn connection(format: Format, middlewares: usize) -> ServerConnection {
    ServerConnection::new(format, ServerOptions::default(), middlewares, ADDRESS)
}

fn greeting(id: &str, pong: bool) -> ConnectionEvent {
    ConnectionEvent::First(Some(Greeting {
        id: id.to_string(),
        pong,
    }))
}

fn is_notice(format: Format, action: ConnectionAction) -> bool {
    let expected = match format {
        Format::Bebop => make_disconnect_message(ADDRESS).into_data().to_vec(),
        Format::Raw => Vec::new(),
    };
    match action {
        ConnectionAction::Notice(notice) => {
            notice.is_binary() && notice.into_data().to_vec() == expected
        }
        _ => false,
    }
}

fn accepted(format: Format, middlewares: usize) -> ServerConnection {
    let mut it = connection(format, middlewares);
    let mut action = it.next(greeting("tablet", false));
    for i in 0..middlewares {
        assert!(matches!(action, ConnectionAction::AskConnect(n) if n == i));
        action = it.next(ConnectionEvent::Answer(true));
    }
    assert!(matches!(action, ConnectionAction::Read));
    it
}

#[test]
fn a_connection_that_names_nobody_gets_the_notice() {
    let mut it = connection(Format::Bebop, 2);
    assert_eq!(it.id(), "");
    let action = it.next(ConnectionEvent::First(None));
    assert!(is_notice(Format::Bebop, action));
    assert!(!it.is_refused());
}

#[test]
fn the_first_pong_comes_before_the_questions() {
    let mut it = connection(Format::Bebop, 1);
    assert!(matches!(
        it.next(greeting("tablet", true)),
        ConnectionAction::Pong(peer) if peer == "tablet"
    ));
    assert_eq!(it.id(), "tablet");
    assert!(matches!(
        it.next(ConnectionEvent::Told),
        ConnectionAction::AskConnect(0)
    ));
    assert!(matches!(
        it.next(ConnectionEvent::Answer(true)),
        ConnectionAction::Read
    ));
}

#[test]
fn a_refused_client_gets_the_notice_and_nothing_else() {
    let mut it = connection(Format::Bebop, 3);
    assert!(matches!(
        it.next(greeting("tablet", false)),
        ConnectionAction::AskConnect(0)
    ));
    assert!(matches!(
        it.next(ConnectionEvent::Answer(true)),
        ConnectionAction::AskConnect(1)
    ));
    let action = it.next(ConnectionEvent::Answer(false));
    let ConnectionAction::Notice(notice) = action else {
        panic!("a refused client is told so");
    };
    assert!(it.is_refused());
    assert_eq!(
        after_write(Format::Bebop, &notice.into_data(), true),
        WriterStep::Close
    );
}

#[test]
fn the_end_of_the_stream_is_told_to_all_in_order() {
    for middlewares in 0..4 {
        let mut it = accepted(Format::Bebop, middlewares);
        let mut action = it.next(ConnectionEvent::Ended);
        for i in 0..middlewares {
            assert!(matches!(action, ConnectionAction::TellDisconnect(n) if n == i));
            action = it.next(ConnectionEvent::Told);
        }
        assert!(is_notice(Format::Bebop, action));
    }
}

#[test]
fn a_disconnect_notice_is_told_to_all_in_order() {
    let mut it = accepted(Format::Bebop, 2);
    let bye = make_disconnect_message("tablet").into_data().to_vec();
    assert!(matches!(
        it.next(ConnectionEvent::Message(bye)),
        ConnectionAction::TellDisconnect(0)
    ));
    assert!(matches!(
        it.next(ConnectionEvent::Told),
        ConnectionAction::TellDisconnect(1)
    ));
    let action = it.next(ConnectionEvent::Told);
    assert!(is_notice(Format::Bebop, action));
}

#[test]
fn an_answered_ping_goes_past_the_middlewares() {
    let mut it = accepted(Format::Bebop, 2);
    let ping = make_ping_message("other").into_data().to_vec();
    assert!(matches!(
        it.next(ConnectionEvent::Message(ping)),
        ConnectionAction::Pong(peer) if peer == "other"
    ));
    assert!(matches!(
        it.next(ConnectionEvent::Told),
        ConnectionAction::Read
    ));
}

#[test]
fn a_proxied_ping_goes_to_the_middlewares() {
    let options = ServerOptions {
        use_ping: true,
        proxy_ping: 300,
        ..Default::default()
    };
    let mut it = ServerConnection::new(Format::Bebop, options, 1, ADDRESS);
    it.next(greeting("tablet", false));
    it.next(ConnectionEvent::Answer(true));
    let ping = make_ping_message("tablet").into_data().to_vec();
    assert!(matches!(
        it.next(ConnectionEvent::Message(ping.clone())),
        ConnectionAction::AskMessage(0)
    ));
    assert!(matches!(
        it.next(ConnectionEvent::Answer(true)),
        ConnectionAction::Forward(data) if data == ping
    ));
}

#[test]
fn a_message_is_handed_on_when_all_agree() {
    let mut it = accepted(Format::Bebop, 2);
    let message = make_atomic_message(5, vec![1, 2, 3]).into_data().to_vec();
    assert!(matches!(
        it.next(ConnectionEvent::Message(message.clone())),
        ConnectionAction::AskMessage(0)
    ));
    assert!(matches!(
        it.next(ConnectionEvent::Answer(true)),
        ConnectionAction::AskMessage(1)
    ));
    assert!(matches!(
        it.next(ConnectionEvent::Answer(true)),
        ConnectionAction::Forward(data) if data == message
    ));
    assert!(matches!(
        it.next(ConnectionEvent::Told),
        ConnectionAction::Read
    ));
}

#[test]
fn a_message_stops_at_the_first_objection() {
    let mut it = accepted(Format::Bebop, 2);
    let message = make_atomic_message(5, vec![]).into_data().to_vec();
    it.next(ConnectionEvent::Message(message));
    assert!(matches!(
        it.next(ConnectionEvent::Answer(false)),
        ConnectionAction::Read
    ));
    assert!(matches!(
        it.next(ConnectionEvent::Message(vec![1])),
        ConnectionAction::Read
    ));
}

#[test]
fn bare_messages_are_all_handed_on() {
    let mut it = accepted(Format::Raw, 0);
    let bye = make_disconnect_message("tablet").into_data().to_vec();
    assert!(matches!(
        it.next(ConnectionEvent::Message(bye.clone())),
        ConnectionAction::Forward(data) if data == bye
    ));
    it.next(ConnectionEvent::Told);
    let action = it.next(ConnectionEvent::Ended);
    assert!(is_notice(Format::Raw, action));
}

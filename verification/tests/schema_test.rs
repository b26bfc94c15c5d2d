use atomic_websocket::error::AtomicWebsocketError;
use atomic_websocket::schema::{
    AppStartup, AppStartupOutput, Category, Data, Disconnect, Expired, Ping, ServerConnectInfo,
};
use atomic_websocket::wire::{take_bytes, take_text};

#[test]
fn get_sercer_connect_info() {
    let binary: Vec<u8> = vec![0, 0, 0, 0, 5, 0, 0, 0, 49, 54, 50, 53, 48];
    let data = ServerConnectInfo::deserialize(&binary).unwrap();

    println!("{:?}", data);
    assert_eq!(data.server_ip, "");
    assert_eq!(data.port, "16250");

    let mut written = Vec::new();
    assert_eq!(data.serialize(&mut written).unwrap(), 13);
    assert_eq!(written, binary);
}

#[test]
fn feature_test_test_category_values() {
    assert_eq!(Category::Ping.code(), 10000);
    assert_eq!(Category::Pong.code(), 10001);
    assert_eq!(Category::Expired.code(), 10002);
    assert_eq!(Category::Disconnect.code(), 10003);
}

#[test]
fn message_test_test_category_values() {
    assert_eq!(Category::Ping.code(), 10000);
    assert_eq!(Category::Pong.code(), 10001);
    assert_eq!(Category::Expired.code(), 10002);
    assert_eq!(Category::Disconnect.code(), 10003);
}

#[test]
fn a_category_is_found_by_its_number() {
    for category in [
        Category::Ping,
        Category::Pong,
        Category::Expired,
        Category::Disconnect,
    ] {
        assert_eq!(Category::from_code(category.code()), Some(category));
    }
    assert_eq!(Category::from_code(0), None);
    assert_eq!(Category::from_code(10004), None);
}

#[test]
fn a_data_record_is_read_back() {
    let payload = [9u8, 8, 7];
    let data = Data {
        category: 515,
        datas: &payload,
    };
    let mut written = vec![1u8];
    assert_eq!(data.serialize(&mut written).unwrap(), 9);
    assert_eq!(written, vec![1, 3, 2, 3, 0, 0, 0, 9, 8, 7]);
    written.push(77);
    let read = Data::deserialize(&written[1..]).unwrap();
    assert_eq!(read.category, 515);
    assert_eq!(read.datas, &payload);
    assert!(Data::deserialize(&[3]).is_err());
    assert!(Data::deserialize(&[3, 2, 5, 0, 0, 0, 1]).is_err());
}

#[test]
fn a_ping_is_read_back() {
    let ping = Ping {
        peer: "p\u{e9}er",
        activations: 70000,
    };
    let mut written = Vec::new();
    assert_eq!(ping.serialize(&mut written).unwrap(), 13);
    assert_eq!(
        written,
        vec![5, 0, 0, 0, b'p', 0xc3, 0xa9, b'e', b'r', 112, 17, 1, 0]
    );
    let read = Ping::deserialize(&written).unwrap();
    assert_eq!(read.peer, "p\u{e9}er");
    assert_eq!(read.activations, 70000);
    assert!(Ping::deserialize(&written[..12]).is_err());
}

#[test]
fn a_disconnect_notice_is_read_back() {
    let mut written = Vec::new();
    Disconnect { peer: "abc" }.serialize(&mut written).unwrap();
    assert_eq!(written, vec![3, 0, 0, 0, b'a', b'b', b'c']);
    assert_eq!(Disconnect::deserialize(&written).unwrap().peer, "abc");
}

#[test]
fn flags_are_single_bytes() {
    let mut written = Vec::new();
    Expired { is_expired: true }.serialize(&mut written).unwrap();
    Expired { is_expired: false }.serialize(&mut written).unwrap();
    AppStartupOutput { success: true }.serialize(&mut written).unwrap();
    assert_eq!(written, vec![1, 0, 1]);
    assert!(Expired::deserialize(&written).unwrap().is_expired);
    assert!(!Expired::deserialize(&written[1..]).unwrap().is_expired);
    assert!(AppStartupOutput::deserialize(&[9]).unwrap().success);
    assert!(Expired::deserialize(&[]).is_err());
    assert!(AppStartupOutput::deserialize(&[]).is_err());
}

#[test]
fn an_announcement_is_read_back() {
    let mut written = Vec::new();
    let startup = AppStartup {
        id: "id-1",
        app_type: 1,
    };
    assert_eq!(startup.serialize(&mut written).unwrap(), 12);
    let read = AppStartup::deserialize(&written).unwrap();
    assert_eq!(read.id, "id-1");
    assert_eq!(read.app_type, 1);
    assert!(AppStartup::deserialize(&written[..11]).is_err());
}

#[test]
fn a_broken_text_is_refused() {
    assert!(matches!(
        take_text(&[2, 0, 0, 0, 0xff, 0xfe]),
        Err(AtomicWebsocketError::Serialization(_))
    ));
    assert!(matches!(
        take_text(&[9, 0, 0]),
        Err(AtomicWebsocketError::Serialization(_))
    ));
    assert!(matches!(
        take_bytes(&[255, 255, 255, 255, 1]),
        Err(AtomicWebsocketError::Serialization(_))
    ));
    let (text, rest) = take_text(&[2, 0, 0, 0, b'h', b'i', 5, 6]).unwrap();
    assert_eq!(text, "hi");
    assert_eq!(rest, &[5, 6]);
    let (bytes, rest) = take_bytes(&[1, 0, 0, 0, 4, 5]).unwrap();
    assert_eq!(bytes, &[4]);
    assert_eq!(rest, &[5]);
}

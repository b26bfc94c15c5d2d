use atomic_websocket::connection_store::{
    cleared_value, client_id_from_value, info_from_value, info_to_value, keep_numeric,
    new_client_id_value, ClearOutcome, ConnectionStore, NativeDbConnectionStore, StoreChange,
    StoreSnapshot,
};
use atomic_websocket::get_internal_websocket::get_id;
use atomic_websocket::schema::Format;
use atomic_websocket::types::InMemoryStorage;

#[test]
fn test_ensure_client_id_generates_once() {
    let mut store = NativeDbConnectionStore::new(InMemoryStorage::new());
    assert_eq!(store.get_client_id(), "");

    store.ensure_client_id();
    let first_id = store.get_client_id();
    assert!(!first_id.is_empty());
    assert_eq!(first_id.len(), 21);
    assert!(first_id
        .chars()
        .all(|c| c.is_ascii_alphanumeric() || c == '_' || c == '-'));

    store.ensure_client_id();
    assert_eq!(store.get_client_id(), first_id);

    let db = store.into_db();
    assert_eq!(get_id(&db), first_id);
}

#[test]
fn two_clients_get_different_ids() {
    assert_ne!(new_client_id_value(), new_client_id_value());
}

#[test]
fn test_server_connect_info_roundtrip() {
    let mut store = NativeDbConnectionStore::new(InMemoryStorage::new());
    assert!(store.get_server_connect_info().is_none());

    store.set_server_connect_info("192.168.1.100", "9000");
    let (ip, port) = store.get_server_connect_info().unwrap();
    assert_eq!(ip, "192.168.1.100");
    assert_eq!(port, "9000");
}

#[test]
fn test_clear_server_ip_keeps_port() {
    let mut store = NativeDbConnectionStore::new(InMemoryStorage::new());
    store.set_server_connect_info("192.168.1.100", "9000");

    store.clear_server_ip("192.168.1.100");

    let (ip, port) = store.get_server_connect_info().unwrap();
    assert_eq!(ip, "");
    assert_eq!(port, "9000");
}

#[test]
fn test_clear_server_ip_removes_setting() {
    let mut store = NativeDbConnectionStore::raw(InMemoryStorage::new());
    store.set_server_connect_info("192.168.1.100", "9000");

    store.clear_server_ip("192.168.1.100");

    assert!(store.get_server_connect_info().is_none());
}

#[test]
fn test_clear_server_ip_drops_non_numeric_port() {
    let mut store = NativeDbConnectionStore::new(InMemoryStorage::new());
    store.set_server_connect_info("ws://10.0.0.5:16250", "//10.0.0.5");

    store.clear_server_ip("");

    let (ip, port) = store.get_server_connect_info().unwrap();
    assert_eq!(ip, "");
    assert_eq!(port, "");
}

#[test]
fn a_bare_setting_holds_the_address_alone() {
    let mut store = NativeDbConnectionStore::raw(InMemoryStorage::new());
    store.set_server_connect_info("192.168.1.100", "9000");
    assert_eq!(
        store.get_server_connect_info(),
        Some(("192.168.1.100".to_string(), "".to_string()))
    );
    store.ensure_client_id();
    let id = store.get_client_id();
    store.clear_server_ip("");
    assert_eq!(store.get_client_id(), id);
}

#[test]
fn an_unreadable_setting_is_no_info() {
    let mut db = InMemoryStorage::new();
    db.insert("ServerConnectInfo".to_string(), vec![1, 2, 3]);
    let mut store = NativeDbConnectionStore::new(db);
    assert!(store.get_server_connect_info().is_none());
    store.clear_server_ip("");
    assert!(store.get_server_connect_info().is_none());
    let db = store.into_db();
    assert_eq!(db.get("ServerConnectInfo"), Some(&vec![1, 2, 3]));
}

#[test]
fn a_broken_identifier_reads_as_empty() {
    assert_eq!(client_id_from_value(Some(vec![0xff, 0xff])), "");
    assert_eq!(client_id_from_value(Some(vec![b'i', b'd'])), "id");
    assert_eq!(client_id_from_value(None), "");
    let mut db = InMemoryStorage::new();
    assert_eq!(get_id(&db), "");
    db.insert("ClientId".to_string(), vec![0xff]);
    assert_eq!(get_id(&db), "");
    let mut store = NativeDbConnectionStore::new(db);
    store.ensure_client_id();
    assert_eq!(store.get_client_id(), "");
}

#[test]
fn values_go_there_and_back() {
    let value = info_to_value(Format::Bebop, "ip", "1").unwrap();
    assert_eq!(value, vec![2, 0, 0, 0, b'i', b'p', 1, 0, 0, 0, b'1']);
    assert_eq!(
        info_from_value(Format::Bebop, value.clone()),
        Some(("ip".to_string(), "1".to_string()))
    );
    assert!(matches!(
        cleared_value(Format::Bebop, Some(value)),
        ClearOutcome::Replace(new) if new == vec![0, 0, 0, 0, 1, 0, 0, 0, b'1']
    ));
    assert!(matches!(
        cleared_value(Format::Bebop, Some(vec![7])),
        ClearOutcome::Unchanged
    ));
    assert!(matches!(
        cleared_value(Format::Bebop, None),
        ClearOutcome::Unchanged
    ));
    assert!(matches!(
        cleared_value(Format::Raw, None),
        ClearOutcome::Remove
    ));
    assert_eq!(keep_numeric("080"), "080");
    assert_eq!(keep_numeric("80a"), "");
}

#[test]
fn other_settings_stay_as_they_are() {
    let mut db = InMemoryStorage::new();
    db.insert("Other".to_string(), vec![1, 2]);
    let mut store = NativeDbConnectionStore::new(db);
    store.ensure_client_id();
    store.set_server_connect_info("10.0.0.1", "80");
    store.clear_server_ip("10.0.0.1");
    let id = store.get_client_id();
    let db = store.into_db();
    assert_eq!(db.get("Other"), Some(&vec![1, 2]));
    assert_eq!(db.get("ClientId"), Some(&id.into_bytes()));

    let mut store = NativeDbConnectionStore::raw(db);
    store.clear_server_ip("");
    let db = store.into_db();
    assert_eq!(db.get("Other"), Some(&vec![1, 2]));
    assert!(db.get("ServerConnectInfo").is_none());
}

#[test]
fn a_snapshot_keeps_what_the_store_is_to_be_told() {
    let info = Some(("10.0.0.1".to_string(), "80".to_string()));
    let mut snapshot = StoreSnapshot::new("me".to_string(), info.clone());
    assert_eq!(snapshot.get_client_id(), "me");
    assert_eq!(snapshot.get_server_connect_info(), info);

    snapshot.ensure_client_id();
    snapshot.set_server_connect_info("10.0.0.2", "81");
    assert_eq!(
        snapshot.get_server_connect_info(),
        Some(("10.0.0.2".to_string(), "81".to_string()))
    );
    snapshot.clear_server_ip("10.0.0.2");
    assert_eq!(
        snapshot.get_server_connect_info(),
        Some(("".to_string(), "81".to_string()))
    );
    let changes = snapshot.into_changes();
    assert_eq!(changes.len(), 3);
    assert!(matches!(changes[0], StoreChange::Register));
    assert!(matches!(
        &changes[1],
        StoreChange::Remember(ip, port) if ip == "10.0.0.2" && port == "81"
    ));
    assert!(matches!(&changes[2], StoreChange::Forget(ip) if ip == "10.0.0.2"));
}

#[test]
fn an_empty_snapshot_has_nothing_to_tell() {
    let mut snapshot = StoreSnapshot::new(String::new(), None);
    assert!(snapshot.get_server_connect_info().is_none());
    snapshot.clear_server_ip("x");
    assert!(snapshot.get_server_connect_info().is_none());
    assert_eq!(snapshot.into_changes().len(), 1);
    assert_eq!(StoreSnapshot::new(String::new(), None).into_changes().len(), 0);
}

#[test]
fn a_snapshot_clears_as_the_store_does() {
    for port in ["9000", "//10.0.0.5", ""] {
        let mut store = NativeDbConnectionStore::new(InMemoryStorage::new());
        store.set_server_connect_info("ws://10.0.0.5:9000", port);
        let mut snapshot = StoreSnapshot::new("me".to_string(), store.get_server_connect_info());
        store.clear_server_ip("");
        snapshot.clear_server_ip("");
        assert_eq!(
            snapshot.get_server_connect_info(),
            store.get_server_connect_info()
        );
    }
}

use atomic_websocket::common::{
    get_data_schema, get_setting_by_key, make_atomic_message, make_disconnect_message,
    make_expired_output_message, make_ping_message, make_pong_message, make_raw_message,
    make_response_message, remove_setting, set_setting,
};
use atomic_websocket::error::AtomicWebsocketError;
use atomic_websocket::raw;
use atomic_websocket::schema::{Category, Ping};
use atomic_websocket::types::InMemoryStorage;
use atomic_websocket::Settings;

#[test]
fn test_make_atomic_message_basic() {
    let msg = make_atomic_message(100, vec![1, 2, 3]);
    let data = msg.into_data();
    assert_eq!(data[0], 100);
    assert_eq!(data[1], 0);
    assert_eq!(&data[2..], &[1, 2, 3]);
}

#[test]
fn test_make_atomic_message_large_category() {
    let msg = make_atomic_message(10000, vec![]);
    let data = msg.into_data();
    assert_eq!(data[0], 16);
    assert_eq!(data[1], 39);
    assert_eq!(data.len(), 2);
}

#[test]
fn test_make_atomic_message_empty_data() {
    let msg = make_atomic_message(0, vec![]);
    let data = msg.into_data();
    assert_eq!(data.len(), 2);
    assert_eq!(data[0], 0);
    assert_eq!(data[1], 0);
}

#[test]
fn test_make_raw_message() {
    let raw_data = vec![10, 20, 30, 40];
    let msg = make_raw_message(&raw_data);
    let data = msg.into_data();
    assert_eq!(data, raw_data);
}

#[test]
fn test_get_data_schema_valid() {
    let data = vec![100, 0, 1, 2, 3];
    let result = get_data_schema(&data);
    assert!(result.is_ok());
    let schema = result.unwrap();
    assert_eq!(schema.category, 100);
    assert_eq!(schema.datas, &[1, 2, 3]);
}

#[test]
fn test_get_data_schema_large_category() {
    let data = vec![16, 39, 1, 2, 3];
    let result = get_data_schema(&data);
    assert!(result.is_ok());
    let schema = result.unwrap();
    assert_eq!(schema.category, 10000);
}

#[test]
fn test_get_data_schema_too_short() {
    let data = vec![1];
    let result = get_data_schema(&data);
    assert!(result.is_err());
    assert!(matches!(
        get_data_schema(&data),
        Err(AtomicWebsocketError::Serialization(text)) if text == "Data length is too short"
    ));
}

#[test]
fn test_get_data_schema_empty() {
    let data: Vec<u8> = vec![];
    let result = get_data_schema(&data);
    assert!(result.is_err());
}

#[test]
fn test_make_ping_message() {
    let msg = make_ping_message("test-peer");
    let data = msg.into_data();
    assert!(data.len() > 2);
    assert_eq!(data[0], 16);
    assert_eq!(data[1], 39);
}

#[test]
fn test_make_pong_message() {
    let msg = make_pong_message();
    let data = msg.into_data();
    assert_eq!(data[0], 17);
    assert_eq!(data[1], 39);
}

#[test]
fn test_make_disconnect_message() {
    let msg = make_disconnect_message("peer-123");
    let data = msg.into_data();
    assert_eq!(data[0], 19);
    assert_eq!(data[1], 39);
    assert!(data.len() > 2);
}

#[test]
fn test_make_expired_output_message() {
    let msg = make_expired_output_message();
    let data = msg.into_data();
    assert_eq!(data[0], 18);
    assert_eq!(data[1], 39);
    assert_eq!(&data[..], &[18, 39, 1]);
}

#[test]
fn test_make_ping_message_no_bebop() {
    let msg = raw::make_ping_message("test-peer");
    let data = msg.into_data();
    assert!(data.is_empty());
}

#[test]
fn test_make_pong_message_no_bebop() {
    let msg = raw::make_pong_message();
    let data = msg.into_data();
    assert!(data.is_empty());
}

#[test]
fn test_make_disconnect_message_no_bebop() {
    let msg = raw::make_disconnect_message("peer-123");
    let data = msg.into_data();
    assert!(data.is_empty());
    assert!(raw::make_expired_output_message().into_data().is_empty());
}

#[test]
fn test_atomic_message_structure() {
    let msg = make_atomic_message(100, vec![1, 2, 3, 4, 5]);
    let data = msg.into_data();

    assert_eq!(data[0], 100);
    assert_eq!(data[1], 0);
    assert_eq!(&data[2..], &[1, 2, 3, 4, 5]);
}

#[test]
fn test_atomic_message_empty_payload() {
    let msg = make_atomic_message(100, vec![]);
    let data = msg.into_data();

    assert_eq!(data.len(), 2);
}

#[test]
fn test_atomic_message_large_payload() {
    let large_payload: Vec<u8> = (0..1000).map(|i| (i % 256) as u8).collect();
    let msg = make_atomic_message(42, large_payload.clone());
    let data = msg.into_data();

    assert_eq!(data.len(), 2 + large_payload.len());
    assert_eq!(&data[2..], &large_payload[..]);
}

#[test]
fn test_category_encoding_roundtrip() {
    let test_cases = vec![
        (0u16, 0u8, 0u8),
        (255, 255, 0),
        (256, 0, 1),
        (1000, 232, 3),
        (10000, 16, 39),
        (65535, 255, 255),
    ];

    for (category, expected_low, expected_high) in test_cases {
        let msg = make_atomic_message(category, vec![]);
        let data = msg.into_data();

        assert_eq!(data[0], expected_low, "Category {} low byte", category);
        assert_eq!(data[1], expected_high, "Category {} high byte", category);

        let decoded = data[0] as u16 + (data[1] as u16) * 256;
        assert_eq!(decoded, category);
        assert_eq!(get_data_schema(&data).unwrap().category, category);
    }
}

#[test]
fn test_response_message_ping() {
    let msg = make_response_message(Category::Ping, vec![1, 2, 3]);
    let data = msg.into_data();

    assert_eq!(data[0], 16);
    assert_eq!(data[1], 39);
    assert_eq!(&data[2..], &[1, 2, 3]);
}

#[test]
fn test_response_message_pong() {
    let msg = make_response_message(Category::Pong, vec![]);
    let data = msg.into_data();

    assert_eq!(data[0], 17);
    assert_eq!(data[1], 39);
}

#[test]
fn a_ping_names_its_peer() {
    let data = make_ping_message("tablet-7").into_data();
    let schema = get_data_schema(&data).unwrap();
    assert_eq!(schema.category, 10000);
    let ping = Ping::deserialize(schema.datas).unwrap();
    assert_eq!(ping.peer, "tablet-7");
    assert_eq!(ping.activations, 0);
    assert_eq!(
        &data[..],
        &[
            16, 39, 8, 0, 0, 0, b't', b'a', b'b', b'l', b'e', b't', b'-', b'7', 0, 0, 0, 0
        ]
    );
}

#[test]
fn test_get_setting_by_key_not_found() {
    let db = InMemoryStorage::new();

    let result = get_setting_by_key(&db, "nonexistent_key".to_string());
    assert!(result.is_ok());
    assert!(result.unwrap().is_none());
}

#[test]
fn test_set_setting_insert_new() {
    let mut db = InMemoryStorage::new();

    let settings = Settings {
        key: "test_key".to_string(),
        value: vec![1, 2, 3, 4, 5],
    };

    let result = set_setting(&mut db, settings);
    assert!(result.is_ok());
    assert!(result.unwrap());

    let retrieved = get_setting_by_key(&db, "test_key".to_string());
    assert!(retrieved.is_ok());
    let settings = retrieved.unwrap();
    assert!(settings.is_some());
    assert_eq!(settings.unwrap().value, vec![1, 2, 3, 4, 5]);
}

#[test]
fn test_set_setting_update_existing() {
    let mut db = InMemoryStorage::new();

    let settings1 = Settings {
        key: "update_key".to_string(),
        value: vec![1, 2, 3],
    };
    set_setting(&mut db, settings1).unwrap();

    let settings2 = Settings {
        key: "update_key".to_string(),
        value: vec![10, 20, 30, 40],
    };
    let result = set_setting(&mut db, settings2);
    assert!(result.is_ok());

    let retrieved = get_setting_by_key(&db, "update_key".to_string());
    assert!(retrieved.is_ok());
    let settings = retrieved.unwrap().unwrap();
    assert_eq!(settings.value, vec![10, 20, 30, 40]);
}

#[test]
fn test_get_setting_by_key_returns_correct_key() {
    let mut db = InMemoryStorage::new();

    let settings = Settings {
        key: "my_key".to_string(),
        value: vec![100],
    };
    set_setting(&mut db, settings).unwrap();

    let retrieved = get_setting_by_key(&db, "my_key".to_string())
        .unwrap()
        .unwrap();

    assert_eq!(retrieved.key, "my_key");
    assert_eq!(retrieved.value, vec![100]);
}

#[test]
fn test_multiple_keys_independent() {
    let mut db = InMemoryStorage::new();
    for (key, value) in [("key1", 1u8), ("key2", 2), ("key3", 3)] {
        set_setting(
            &mut db,
            Settings {
                key: key.to_string(),
                value: vec![value],
            },
        )
        .unwrap();
    }

    let v1 = get_setting_by_key(&db, "key1".to_string()).unwrap().unwrap();
    let v2 = get_setting_by_key(&db, "key2".to_string()).unwrap().unwrap();
    let v3 = get_setting_by_key(&db, "key3".to_string()).unwrap().unwrap();

    assert_eq!(v1.value, vec![1]);
    assert_eq!(v2.value, vec![2]);
    assert_eq!(v3.value, vec![3]);
}

#[test]
fn test_set_setting_empty_value() {
    let mut db = InMemoryStorage::new();

    let settings = Settings {
        key: "empty_key".to_string(),
        value: vec![],
    };

    let result = set_setting(&mut db, settings);
    assert!(result.is_ok());

    let retrieved = get_setting_by_key(&db, "empty_key".to_string())
        .unwrap()
        .unwrap();
    assert!(retrieved.value.is_empty());
}

#[test]
fn test_set_setting_large_value() {
    let mut db = InMemoryStorage::new();

    let large_value: Vec<u8> = (0..10000).map(|i| (i % 256) as u8).collect();

    let settings = Settings {
        key: "large_key".to_string(),
        value: large_value.clone(),
    };

    let result = set_setting(&mut db, settings);
    assert!(result.is_ok());

    let retrieved = get_setting_by_key(&db, "large_key".to_string())
        .unwrap()
        .unwrap();
    assert_eq!(retrieved.value.len(), 10000);
    assert_eq!(retrieved.value, large_value);
}

#[test]
fn a_removed_setting_is_gone() {
    let mut db = InMemoryStorage::new();
    set_setting(
        &mut db,
        Settings {
            key: "k".to_string(),
            value: vec![1],
        },
    )
    .unwrap();
    assert!(remove_setting(&mut db, "k".to_string()).unwrap());
    assert!(!remove_setting(&mut db, "k".to_string()).unwrap());
    assert!(get_setting_by_key(&db, "k".to_string()).unwrap().is_none());
}

#[test]
fn every_message_is_a_binary_one() {
    assert!(make_atomic_message(1, vec![2]).is_binary());
    assert!(make_raw_message(&[1]).is_binary());
    assert!(make_ping_message("p").is_binary());
    assert!(make_pong_message().is_binary());
    assert!(make_disconnect_message("p").is_binary());
    assert!(make_expired_output_message().is_binary());
    assert!(make_response_message(Category::Ping, vec![1]).is_binary());
    assert!(raw::make_disconnect_message("p").is_binary());
    assert!(!make_atomic_message(1, vec![2]).is_text());
}

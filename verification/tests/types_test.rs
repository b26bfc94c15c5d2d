use atomic_websocket::schema::SaveKey;
use atomic_websocket::types::save_key;
use atomic_websocket::types::{InMemoryStorage, SaveKeyExt};
use atomic_websocket::Settings;

#[test]
fn types_test_save_key_constants() {
    assert_eq!(save_key::SERVER_CONNECT_INFO, "ServerConnectInfo");
    assert_eq!(save_key::VALID_CLIENT, "ValidClient");
    assert_eq!(save_key::CLIENT_ID, "ClientId");
}

#[test]
fn feature_test_test_save_key_constants() {
    assert_eq!(save_key::SERVER_CONNECT_INFO, "ServerConnectInfo");
    assert_eq!(save_key::VALID_CLIENT, "ValidClient");
    assert_eq!(save_key::CLIENT_ID, "ClientId");
}

#[test]
fn test_save_key_ext() {
    assert_eq!(SaveKey::ServerConnectInfo.as_str(), "ServerConnectInfo");
    assert_eq!(SaveKey::ValidClient.as_str(), "ValidClient");
    assert_eq!(SaveKey::ClientId.as_str(), "ClientId");
}

#[test]
fn test_save_key_ext_matches_constants() {
    assert_eq!(
        SaveKey::ServerConnectInfo.as_str(),
        save_key::SERVER_CONNECT_INFO
    );
    assert_eq!(SaveKey::ValidClient.as_str(), save_key::VALID_CLIENT);
    assert_eq!(SaveKey::ClientId.as_str(), save_key::CLIENT_ID);
}

#[test]
fn test_save_key_ext_trait() {
    assert_eq!(
        SaveKey::ServerConnectInfo.as_str(),
        save_key::SERVER_CONNECT_INFO
    );
    assert_eq!(SaveKey::ValidClient.as_str(), save_key::VALID_CLIENT);
    assert_eq!(SaveKey::ClientId.as_str(), save_key::CLIENT_ID);
}

#[test]
fn test_in_memory_storage_new() {
    let storage = InMemoryStorage::new();
    assert!(storage.get("nonexistent").is_none());
}

#[test]
fn test_in_memory_storage_default() {
    let storage = InMemoryStorage::default();
    assert!(storage.get("nonexistent").is_none());
}

#[test]
fn test_in_memory_storage_insert_and_get() {
    let mut storage = InMemoryStorage::new();
    storage.insert("key1".to_string(), vec![1, 2, 3]);

    let value = storage.get("key1");
    assert!(value.is_some());
    assert_eq!(value.unwrap(), &vec![1, 2, 3]);
}

#[test]
fn test_in_memory_storage_get_nonexistent() {
    let storage = InMemoryStorage::new();
    assert!(storage.get("nonexistent").is_none());
}

#[test]
fn test_in_memory_storage_remove() {
    let mut storage = InMemoryStorage::new();
    storage.insert("key1".to_string(), vec![1, 2, 3]);

    let removed = storage.remove("key1");
    assert!(removed.is_some());
    assert_eq!(removed.unwrap(), vec![1, 2, 3]);
    assert!(storage.get("key1").is_none());
}

#[test]
fn test_in_memory_storage_remove_nonexistent() {
    let mut storage = InMemoryStorage::new();
    let removed = storage.remove("nonexistent");
    assert!(removed.is_none());
}

#[test]
fn test_in_memory_storage_overwrite() {
    let mut storage = InMemoryStorage::new();
    storage.insert("key1".to_string(), vec![1, 2, 3]);
    storage.insert("key1".to_string(), vec![4, 5, 6]);

    let value = storage.get("key1");
    assert_eq!(value.unwrap(), &vec![4, 5, 6]);
}

#[test]
fn types_test_in_memory_storage_multiple_keys() {
    let mut storage = InMemoryStorage::new();
    storage.insert("key1".to_string(), vec![1]);
    storage.insert("key2".to_string(), vec![2]);
    storage.insert("key3".to_string(), vec![3]);

    assert_eq!(storage.get("key1").unwrap(), &vec![1]);
    assert_eq!(storage.get("key2").unwrap(), &vec![2]);
    assert_eq!(storage.get("key3").unwrap(), &vec![3]);
}

#[test]
fn test_in_memory_storage_debug() {
    let storage = InMemoryStorage::new();
    let debug = format!("{:?}", storage);
    assert!(debug.contains("InMemoryStorage"));
}

#[test]
fn test_in_memory_storage_crud() {
    let mut storage = InMemoryStorage::new();

    storage.insert("key1".to_string(), vec![1, 2, 3]);
    assert_eq!(storage.get("key1"), Some(&vec![1, 2, 3]));

    storage.insert("key1".to_string(), vec![4, 5, 6]);
    assert_eq!(storage.get("key1"), Some(&vec![4, 5, 6]));

    let removed = storage.remove("key1");
    assert_eq!(removed, Some(vec![4, 5, 6]));
    assert!(storage.get("key1").is_none());
}

#[test]
fn feature_test_test_in_memory_storage_multiple_keys() {
    let mut storage = InMemoryStorage::new();

    storage.insert("a".to_string(), vec![1]);
    storage.insert("b".to_string(), vec![2]);
    storage.insert("c".to_string(), vec![3]);

    assert_eq!(storage.get("a"), Some(&vec![1]));
    assert_eq!(storage.get("b"), Some(&vec![2]));
    assert_eq!(storage.get("c"), Some(&vec![3]));
}

#[test]
fn removing_one_key_leaves_the_others() {
    let mut storage = InMemoryStorage::new();
    storage.insert("a".to_string(), vec![1]);
    storage.insert("b".to_string(), vec![2]);
    storage.insert("c".to_string(), vec![3]);
    assert_eq!(storage.remove("b"), Some(vec![2]));
    assert_eq!(storage.get("a"), Some(&vec![1]));
    assert_eq!(storage.get("b"), None);
    assert_eq!(storage.get("c"), Some(&vec![3]));
}

#[test]
fn test_settings_struct() {
    let settings = Settings {
        key: "test_key".to_string(),
        value: vec![1, 2, 3],
    };

    assert_eq!(settings.key, "test_key");
    assert_eq!(settings.value, vec![1, 2, 3]);

    let copy = settings.clone();
    assert_eq!(copy.key, "test_key");
    assert_eq!(copy.value, vec![1, 2, 3]);
}

use service_dependencies::btreemap_database_client::BTreeMapDatabaseClient;
use service_dependencies::database_client::{DatabaseClient, Key, Value};
use service_dependencies::hashmap_database_client::HashMapDatabaseClient;
use service_dependencies::test_database_client::TestDatabaseClient;

fn key(s: &str) -> Key {
    Key(s.to_owned())
}

fn value(s: &str) -> Value {
    Value(s.to_owned())
}

#[test]
fn test_store_records_one_entry_for_one_put() {
    let mut store = TestDatabaseClient::new();
    assert!(store.entries().is_empty());
    store.put(key("foo"), value("bar"));
    assert_eq!(store.entries(), &vec![("foo".to_owned(), "bar".to_owned())]);
    assert_eq!(store.get(&key("foo")), Some(&"bar".to_owned()));
}

#[test]
fn test_store_reads_the_last_write_and_keeps_all() {
    let mut store = TestDatabaseClient::new();
    store.put(key("foo"), value("bar"));
    store.put(key("other"), value("x"));
    store.put(key("foo"), value("baz"));
    assert_eq!(store.entries().len(), 3);
    assert_eq!(store.get(&key("foo")), Some(&"baz".to_owned()));
    assert_eq!(store.get(&key("other")), Some(&"x".to_owned()));
    assert_eq!(store.get(&key("missing")), None);
}

#[test]
fn btreemap_store_reads_back_what_was_put() {
    let mut store = BTreeMapDatabaseClient::new();
    assert_eq!(store.get(&key("foo")), None);
    store.put(key("foo"), value("bar"));
    assert_eq!(store.get(&key("foo")), Some(&"bar".to_owned()));
    assert_eq!(store.get(&key("fo")), None);
}

#[test]
fn btreemap_store_overwrites_equal_keys() {
    let mut store = BTreeMapDatabaseClient::new();
    store.put(key("foo"), value("bar"));
    store.put(key("a"), value("1"));
    store.put(key("foo"), value("baz"));
    assert_eq!(store.get(&key("foo")), Some(&"baz".to_owned()));
    assert_eq!(store.get(&key("a")), Some(&"1".to_owned()));
}

#[test]
fn hashmap_store_reads_back_what_was_put() {
    let mut store = HashMapDatabaseClient::new();
    store.put(key("foo"), value("bar"));
    assert_eq!(store.get(&key("foo")), Some(&"bar".to_owned()));
    assert_eq!(store.get(&key("bar")), None);
}

#[test]
fn hashmap_store_overwrites_equal_keys() {
    let mut store = HashMapDatabaseClient::new();
    store.put(key("foo"), value("bar"));
    store.put(key("foo"), value(""));
    assert_eq!(store.get(&key("foo")), Some(&"".to_owned()));
}

#[test]
fn empty_key_and_value_are_stored() {
    let mut store = HashMapDatabaseClient::new();
    store.put(key(""), value(""));
    assert_eq!(store.get(&key("")), Some(&"".to_owned()));
}

use famcache::commands::{del, get, publish, subscribe, unsubscribe};
use famcache::text::u64_to_string;

#[test]
fn test_set() {
    assert_eq!(famcache::commands::set("1", "key", "value", None), "1 SET key value\n");
    assert_eq!(famcache::commands::set("1", "key", "value", Some(10)), "1 SET key value 10\n");
}

#[test]
fn test_get() {
    assert_eq!(get("1", "key"), "1 GET key\n");
}

#[test]
fn test_del() {
    assert_eq!(del("1", "key"), "1 DELETE key\n");
}

#[test]
fn test_publish_command() {
    assert_eq!(publish("7", "news", "hello"), "7 PUBLISH news hello\n");
}

#[test]
fn test_subscribe_command() {
    assert_eq!(subscribe("7", "news"), "7 SUBSCRIBE news\n");
}

#[test]
fn test_unsubscribe_command() {
    assert_eq!(unsubscribe("7", "news"), "7 UNSUBSCRIBE news\n");
}

#[test]
fn test_ttl_rendering() {
    assert_eq!(famcache::commands::set("1", "k", "v", Some(0)), "1 SET k v 0\n");
    assert_eq!(
        famcache::commands::set("1", "k", "v", Some(18446744073709551615)),
        "1 SET k v 18446744073709551615\n"
    );
    assert_eq!(u64_to_string(0), "0");
    assert_eq!(u64_to_string(90210), "90210");
}

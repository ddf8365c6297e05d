use famcache::messaging::Messaging;
use famcache::query::CacheQuery;
use famcache::session::{finish_get, finish_unit, LineBuffer, Session};
use famcache::table::PendingTable;
use famcache::CacheError;

#[test]
fn test_sequential_correlation() {
    let mut session = Session::new();
    let (id1, cmd1, mut rx1) = session.begin_get("alpha");
    assert_eq!(cmd1, format!("{} GET alpha\n", id1));
    session.handle_chunk(&format!("{} OK one\n", id1));
    let reply1 = rx1.try_recv().unwrap();
    assert_eq!(reply1.id, id1);
    assert_eq!(finish_get(reply1), Ok(Some("one".to_string())));

    let (id2, _cmd2, mut rx2) = session.begin_get("beta");
    session.handle_chunk(&format!("{} OK two\n", id2));
    let reply2 = rx2.try_recv().unwrap();
    assert_eq!(reply2.id, id2);
    assert_eq!(finish_get(reply2), Ok(Some("two".to_string())));
}

#[test]
fn test_concurrent_replies_any_order() {
    let mut session = Session::new();
    let (id1, _c1, mut rx1) = session.begin_get("alpha");
    let (id2, _c2, mut rx2) = session.begin_get("beta");
    assert_ne!(id1, id2);
    // The server answers in the opposite order of issuance.
    session.handle_chunk(&format!("{} OK two\n{} OK one\n", id2, id1));
    assert_eq!(finish_get(rx1.try_recv().unwrap()), Ok(Some("one".to_string())));
    assert_eq!(finish_get(rx2.try_recv().unwrap()), Ok(Some("two".to_string())));
}

#[test]
fn test_unset_key_and_error_reply() {
    let mut session = Session::new();
    // A GET of an unset key: the server answers success with no value.
    let (id1, _c1, mut rx1) = session.begin_get("missing");
    session.handle_chunk(&format!("{} OK\n", id1));
    assert_eq!(finish_get(rx1.try_recv().unwrap()), Ok(None));

    // An ERROR reply surfaces as RequestFailed, never as success.
    let (id2, _c2, mut rx2) = session.begin_get("bad");
    session.handle_chunk(&format!("{} ERROR\n", id2));
    assert_eq!(finish_get(rx2.try_recv().unwrap()), Err(CacheError::RequestFailed));
}

#[test]
fn test_malformed_line_recovery() {
    let mut session = Session::new();
    let (id1, _c1, mut rx1) = session.begin_get("alpha");
    let (id2, _c2, mut rx2) = session.begin_get("beta");
    session.handle_chunk(&format!("{} OK one\ngarbage\n{} OK two\n", id1, id2));
    assert_eq!(finish_get(rx1.try_recv().unwrap()), Ok(Some("one".to_string())));
    assert_eq!(finish_get(rx2.try_recv().unwrap()), Ok(Some("two".to_string())));
}

#[test]
fn test_subscribe_delivery_and_unsubscribe_silence() {
    let mut session = Session::new();
    let (_id, cmd, mut rx) = session.subscribe("t");
    assert!(cmd.ends_with(" SUBSCRIBE t\n"));
    session.handle_chunk("MESSAGE t payload1\n");
    assert_eq!(rx.try_recv().unwrap(), "payload1");

    let (_id2, cmd2) = session.unsubscribe("t");
    assert!(cmd2.ends_with(" UNSUBSCRIBE t\n"));
    session.handle_chunk("MESSAGE t payload2\n");
    assert!(rx.try_recv().is_err());
}

#[test]
fn test_round_trip_set_get_delete() {
    let mut session = Session::new();

    let (id, _cmd, mut rx) = session.begin_set("k", "v", None);
    session.handle_chunk(&format!("{} OK\n", id));
    assert_eq!(finish_unit(rx.try_recv().unwrap()), Ok(()));

    let (id, _cmd, mut rx) = session.begin_get("k");
    session.handle_chunk(&format!("{} OK v\n", id));
    assert_eq!(finish_get(rx.try_recv().unwrap()), Ok(Some("v".to_string())));

    let (id, _cmd, mut rx) = session.begin_del("k");
    session.handle_chunk(&format!("{} OK\n", id));
    assert_eq!(finish_unit(rx.try_recv().unwrap()), Ok(()));

    let (id, _cmd, mut rx) = session.begin_get("k");
    session.handle_chunk(&format!("{} OK\n", id));
    assert_eq!(finish_get(rx.try_recv().unwrap()), Ok(None));
}

#[test]
fn test_reply_scenarios() {
    // A caller registered under "abc" receives success with value "10".
    let mut table = PendingTable::new();
    let mut rx = table.enqueue("abc");
    let reply = CacheQuery::from_str("abc OK 10").unwrap();
    assert!(table.resolve(reply));
    let got = rx.try_recv().unwrap();
    assert_eq!(got.id, "abc");
    assert_eq!(finish_get(got), Ok(Some("10".to_string())));

    // A caller registered under "abc" sees an ERROR reply as a failure.
    let mut rx = table.enqueue("abc");
    let reply = CacheQuery::from_str("abc ERROR").unwrap();
    assert!(table.resolve(reply));
    assert_eq!(finish_get(rx.try_recv().unwrap()), Err(CacheError::RequestFailed));

    // A reply carrying an unknown id is a no-op.
    let reply = CacheQuery::from_str("unknown OK").unwrap();
    assert!(!table.resolve(reply));
}

#[test]
fn test_connection_lost_broadcast() {
    let mut session = Session::new();
    let (_id1, _c1, mut rx1) = session.begin_get("alpha");
    let (_id2, _c2, mut rx2) = session.begin_set("k", "v", None);
    let (_id3, _c3, mut sub_rx) = session.subscribe("t");
    session.connection_lost();
    assert_eq!(finish_get(rx1.try_recv().unwrap()), Err(CacheError::RequestFailed));
    assert_eq!(finish_unit(rx2.try_recv().unwrap()), Err(CacheError::RequestFailed));
    assert!(sub_rx.try_recv().is_err());
}

#[test]
fn test_partial_chunks_buffering() {
    let mut session = Session::new();
    let (id, _cmd, mut rx) = session.begin_get("k");
    let line = format!("{} OK split\n", id);
    let (front, back) = line.split_at(5);
    session.handle_chunk(front);
    assert!(rx.try_recv().is_err());
    session.handle_chunk(back);
    assert_eq!(finish_get(rx.try_recv().unwrap()), Ok(Some("split".to_string())));
}

#[test]
fn test_correlation_id_shape() {
    let mut session = Session::new();
    let (id, cmd, _rx) = session.begin_get("k");
    assert_eq!(id.len(), 36);
    assert!(!id.contains(' '));
    assert!(!id.contains('\n'));
    assert_eq!(cmd, format!("{} GET k\n", id));
}

#[test]
fn test_duplicate_subscribe_replaces() {
    let mut session = Session::new();
    let (_i1, _c1, mut old_rx) = session.subscribe("t");
    let (_i2, _c2, mut new_rx) = session.subscribe("t");
    session.handle_chunk("MESSAGE t fresh\n");
    assert_eq!(new_rx.try_recv().unwrap(), "fresh");
    assert!(old_rx.try_recv().is_err());
}

#[test]
fn test_register_same_id_overwrites() {
    let mut table = PendingTable::new();
    let mut orphan_rx = table.enqueue("dup");
    let mut live_rx = table.enqueue("dup");
    assert!(orphan_rx.try_recv().is_err());
    let reply = CacheQuery::new("dup", Some("v"), false);
    assert!(table.resolve(reply));
    assert_eq!(live_rx.try_recv().unwrap().value, Some("v".to_string()));
}

#[test]
fn test_message_classification() {
    assert!(Messaging::is_messaging_event("MESSAGE t p"));
    assert!(!Messaging::is_messaging_event("abc OK 10"));
    assert!(!Messaging::is_messaging_event("MESS"));
    let (topic, payload) = Messaging::parse_body("MESSAGE t p").unwrap();
    assert_eq!(topic, "t");
    assert_eq!(payload, "p");
    assert!(Messaging::parse_body("MESSAGE t").is_none());
}

#[test]
fn test_trigger_without_subscription() {
    let messaging = Messaging::new();
    assert!(!messaging.trigger("t", "p"));
}

#[test]
fn test_line_buffer_feed() {
    let mut buffer = LineBuffer::new();
    let lines = buffer.feed("a\nb");
    assert_eq!(lines, vec!["a".to_string()]);
    let lines = buffer.feed("c\n\nd");
    assert_eq!(lines, vec!["bc".to_string(), "".to_string()]);
    let lines = buffer.feed("\n");
    assert_eq!(lines, vec!["d".to_string()]);
}

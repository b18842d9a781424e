use dash_ha::bridge::{forward_changes, route_changes, ConsumerBridge, ConsumerTable, KeyOpFieldValues, KeyOperation};
use dash_ha::message::{IncomingMessage, MessageBody, OutgoingMessage, SwbusErrorCode};
use dash_ha::oneshot_lazy::Receiver;
use dash_ha::row::FieldValues;
use dash_ha::service_path::ServicePath;
use dash_ha::table_watcher::{TableWatcher, TableWatcherMessage};

fn path(id: &str) -> ServicePath {
    ServicePath {
        region_id: "region".to_string(),
        cluster_id: "cluster".to_string(),
        node_id: "node".to_string(),
        service_type: "hamgrd".to_string(),
        service_id: id.to_string(),
        resource_type: "".to_string(),
        resource_id: "".to_string(),
    }
}

fn request(id: u64, source: &str, payload: &[u8]) -> IncomingMessage {
    IncomingMessage { id, source: path(source), body: MessageBody::Request { payload: payload.to_vec() } }
}

fn decode(payload: &Vec<u8>) -> Result<TableWatcherMessage, String> {
    let text = String::from_utf8_lossy(payload).into_owned();
    match text.split_once(' ') {
        Some(("subscribe", who)) => Ok(TableWatcherMessage::Subscribe { subscriber: path(who) }),
        Some(("unsubscribe", who)) => Ok(TableWatcherMessage::Unsubscribe { subscriber: path(who) }),
        _ => Err(format!("malformed: {}", text)),
    }
}

fn destinations(batch: &Vec<OutgoingMessage>) -> Vec<String> {
    batch.iter().map(|m| m.destination.service_id.clone()).collect()
}

fn payload_of(message: &OutgoingMessage) -> Vec<u8> {
    match &message.body {
        MessageBody::Request { payload } => payload.clone(),
        other => panic!("not a request: {:?}", other),
    }
}

#[test]
fn service_paths_compare_by_all_parts() {
    assert!(path("a") == path("a"));
    assert!(path("a") != path("b"));
    let mut other = path("a");
    other.resource_id = "x".to_string();
    assert!(path("a") != other);
    assert!(path("a").clone() == path("a"));
}

#[test]
fn receiver_keeps_the_first_value() {
    let mut rx: Receiver<u32> = Receiver::new();
    assert_eq!(rx.get(), None);
    assert_eq!(rx.receive(7), Ok(()));
    assert_eq!(rx.get(), Some(&7));
    assert_eq!(rx.receive(8), Err(8));
    assert_eq!(rx.get(), Some(&7));
}

#[test]
fn subscribing_twice_is_subscribing_once() {
    let mut watcher: TableWatcher<()> = TableWatcher::new(Receiver::Received(()));
    watcher.handle_tw_msg(TableWatcherMessage::Subscribe { subscriber: path("a") });
    watcher.handle_tw_msg(TableWatcherMessage::Subscribe { subscriber: path("a") });
    assert_eq!(watcher.subscriber_count(), 1);
    assert!(watcher.is_subscribed(&path("a")));
    let batches = watcher.handle_table_read(vec![b"c1".to_vec()]);
    assert_eq!(batches.len(), 1);
    assert_eq!(destinations(&batches[0]), vec!["a".to_string()]);
}

#[test]
fn unsubscribing_an_absent_address_changes_nothing() {
    let mut watcher: TableWatcher<()> = TableWatcher::new(Receiver::Received(()));
    watcher.handle_tw_msg(TableWatcherMessage::Subscribe { subscriber: path("a") });
    watcher.handle_tw_msg(TableWatcherMessage::Unsubscribe { subscriber: path("b") });
    assert_eq!(watcher.subscriber_count(), 1);
    assert!(watcher.is_subscribed(&path("a")));
    assert!(!watcher.is_subscribed(&path("b")));
    watcher.handle_tw_msg(TableWatcherMessage::Unsubscribe { subscriber: path("a") });
    watcher.handle_tw_msg(TableWatcherMessage::Unsubscribe { subscriber: path("a") });
    assert_eq!(watcher.subscriber_count(), 0);
}

#[test]
fn changes_wait_for_the_outbox() {
    let mut watcher: TableWatcher<u32> = TableWatcher::new(Receiver::new());
    watcher.handle_tw_msg(TableWatcherMessage::Subscribe { subscriber: path("a") });
    assert!(watcher.get_outbox().is_none());
    assert_eq!(watcher.handle_table_read(vec![b"c1".to_vec(), b"c2".to_vec()]).len(), 0);
    assert_eq!(watcher.handle_table_read(vec![]).len(), 0);
    assert_eq!(watcher.handle_table_read(vec![b"c3".to_vec()]).len(), 0);
    watcher.handle_tw_msg(TableWatcherMessage::Subscribe { subscriber: path("b") });
    let waited = watcher.bind_outbox(1).unwrap();
    assert_eq!(waited.len(), 3);
    for (batch, payload) in waited.iter().zip([b"c1", b"c2", b"c3"]) {
        assert_eq!(destinations(batch), vec!["a".to_string(), "b".to_string()]);
        assert_eq!(payload_of(&batch[0]), payload.to_vec());
        assert_eq!(payload_of(&batch[1]), payload.to_vec());
    }
    assert_eq!(watcher.bind_outbox(2).err(), Some(2));
    assert_eq!(watcher.get_outbox(), Some(&1));
    let next = watcher.handle_table_read(vec![b"c4".to_vec()]);
    assert_eq!(next.len(), 1);
    assert_eq!(payload_of(&next[0][0]), b"c4".to_vec());
}

#[test]
fn bridge_forwards_what_waited_at_init() {
    let mut bridge: ConsumerBridge<u32> = ConsumerBridge::new();
    bridge.handle_message(&request(1, "a", b"subscribe a"), decode);
    assert_eq!(bridge.handle_table_read(vec![b"c1".to_vec()]).len(), 0);
    assert_eq!(bridge.handle_table_read(vec![b"c2".to_vec()]).len(), 0);
    let waited = bridge.init(7).unwrap();
    assert_eq!(waited.len(), 2);
    assert_eq!(payload_of(&waited[0][0]), b"c1".to_vec());
    assert_eq!(payload_of(&waited[1][0]), b"c2".to_vec());
    assert_eq!(bridge.get_outbox(), Some(&7));
    assert_eq!(bridge.init(8).err(), Some(8));
    assert_eq!(bridge.handle_table_read(vec![]).len(), 0);
}

#[test]
fn every_change_goes_to_every_subscriber_in_table_order() {
    let mut watcher: TableWatcher<()> = TableWatcher::new(Receiver::Received(()));
    watcher.handle_tw_msg(TableWatcherMessage::Subscribe { subscriber: path("a") });
    watcher.handle_tw_msg(TableWatcherMessage::Subscribe { subscriber: path("b") });
    let batches = watcher.handle_table_read(vec![b"c1".to_vec(), b"c2".to_vec(), b"c3".to_vec()]);
    assert_eq!(batches.len(), 3);
    for (batch, payload) in batches.iter().zip([b"c1", b"c2", b"c3"]) {
        assert_eq!(destinations(batch), vec!["a".to_string(), "b".to_string()]);
        assert_eq!(payload_of(&batch[0]), payload.to_vec());
        assert_eq!(payload_of(&batch[1]), payload.to_vec());
    }
    assert_eq!(watcher.handle_table_read(vec![]).len(), 0);
}

#[test]
fn failed_delivery_unsubscribes() {
    let mut bridge: ConsumerBridge<()> = ConsumerBridge::new();
    assert!(bridge.init(()).is_ok());
    assert!(bridge.init(()).is_err());
    assert!(bridge.handle_message(&request(1, "a", b"subscribe a"), decode).is_some());
    assert!(bridge.handle_message(&request(2, "b", b"subscribe b"), decode).is_some());

    let first = bridge.handle_table_read(vec![b"c1".to_vec()]);
    assert_eq!(destinations(&first[0]), vec!["a".to_string(), "b".to_string()]);
    assert_eq!(payload_of(&first[0][0]), b"c1".to_vec());
    assert_eq!(payload_of(&first[0][1]), b"c1".to_vec());

    bridge.handle_message_failure(17, path("b"));
    let second = bridge.handle_table_read(vec![b"c2".to_vec()]);
    assert_eq!(destinations(&second[0]), vec!["a".to_string()]);
    assert_eq!(payload_of(&second[0][0]), b"c2".to_vec());

    bridge.handle_message_failure(18, path("b"));
    assert_eq!(destinations(&bridge.handle_table_read(vec![b"c3".to_vec()])[0]), vec!["a".to_string()]);

    assert!(bridge.handle_message(&request(3, "b", b"subscribe b"), decode).is_some());
    let third = bridge.handle_table_read(vec![b"c4".to_vec()]);
    assert_eq!(destinations(&third[0]), vec!["a".to_string(), "b".to_string()]);
}

#[test]
fn control_requests_are_answered() {
    let mut bridge: ConsumerBridge<()> = ConsumerBridge::new();
    bridge.init(()).unwrap();
    let reply = bridge.handle_message(&request(5, "a", b"subscribe a"), decode).unwrap();
    assert!(reply.destination == path("a"));
    match reply.body {
        MessageBody::Response { request_id, error_code, error_message } => {
            assert_eq!(request_id, 5);
            assert_eq!(error_code, SwbusErrorCode::NoError);
            assert_eq!(error_message, "");
        }
        other => panic!("unexpected: {:?}", other),
    }
    assert_eq!(bridge.handle_table_read(vec![b"c".to_vec()])[0].len(), 1);
}

#[test]
fn malformed_control_payload_is_rejected() {
    let mut bridge: ConsumerBridge<()> = ConsumerBridge::new();
    bridge.init(()).unwrap();
    bridge.handle_message(&request(1, "a", b"subscribe a"), decode);
    let reply = bridge.handle_message(&request(6, "c", b"gibberish"), decode).unwrap();
    assert!(reply.destination == path("c"));
    match reply.body {
        MessageBody::Response { request_id, error_code, error_message } => {
            assert_eq!(request_id, 6);
            assert_eq!(error_code, SwbusErrorCode::InvalidPayload);
            assert_eq!(error_message, "malformed: gibberish");
        }
        other => panic!("unexpected: {:?}", other),
    }
    assert_eq!(destinations(&bridge.handle_table_read(vec![b"c".to_vec()])[0]), vec!["a".to_string()]);
    let reply = bridge.handle_decoded(&request(7, "d", b""), Err("bad".to_string()));
    assert!(reply.destination == path("d"));
}

#[test]
fn responses_get_no_reply() {
    let mut bridge: ConsumerBridge<()> = ConsumerBridge::new();
    bridge.handle_message(&request(1, "a", b"subscribe a"), decode);
    let response = IncomingMessage {
        id: 9,
        source: path("a"),
        body: MessageBody::Response {
            request_id: 1,
            error_code: SwbusErrorCode::Fail,
            error_message: "no".to_string(),
        },
    };
    assert!(bridge.handle_message(&response, decode).is_none());
    assert_eq!(bridge.handle_table_read(vec![b"c".to_vec()]).len(), 0);
}

struct Queue(Vec<KeyOpFieldValues>);

impl ConsumerTable for Queue {
    fn pops(&mut self) -> Vec<KeyOpFieldValues> {
        std::mem::take(&mut self.0)
    }
}

fn change(key: &str, operation: KeyOperation) -> KeyOpFieldValues {
    KeyOpFieldValues { key: key.to_string(), operation, field_values: FieldValues::new() }
}

#[test]
fn changes_are_routed_one_by_one() {
    let dest = |c: &KeyOpFieldValues| path(&c.key);
    let encode = |c: &KeyOpFieldValues| format!("{}:{:?}", c.key, c.operation).into_bytes();
    let changes = vec![change("k1", KeyOperation::Upsert), change("k2", KeyOperation::Delete)];
    let out = route_changes(&changes, &dest, &encode);
    assert_eq!(destinations(&out), vec!["k1".to_string(), "k2".to_string()]);
    assert_eq!(payload_of(&out[0]), b"k1:Upsert".to_vec());
    assert_eq!(payload_of(&out[1]), b"k2:Delete".to_vec());

    let mut table = Queue(vec![change("k3", KeyOperation::Upsert)]);
    let out = forward_changes(&mut table, &dest, &encode);
    assert_eq!(destinations(&out), vec!["k3".to_string()]);
    assert_eq!(forward_changes(&mut table, &dest, &encode).len(), 0);
}

#[test]
fn outgoing_message_copies() {
    let message = OutgoingMessage::request(path("a"), b"p".to_vec());
    let copy = message.duplicate();
    assert!(copy.destination == path("a"));
    assert_eq!(payload_of(&copy), b"p".to_vec());
    let reply = OutgoingMessage::error_response(&request(3, "s", b""), SwbusErrorCode::InvalidSource, "x".to_string());
    match reply.duplicate().body {
        MessageBody::Response { request_id, error_code, error_message } => {
            assert_eq!((request_id, error_code, error_message.as_str()), (3, SwbusErrorCode::InvalidSource, "x"));
        }
        other => panic!("unexpected: {:?}", other),
    }
}

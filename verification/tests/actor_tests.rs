use dash_ha::actor::{request_reply, Actor, ActorDriver, Outbox, TableUpdate};
use dash_ha::key::{Key, OwnedKey};
use dash_ha::message::{IncomingMessage, MessageBody, OutgoingMessage, SwbusErrorCode};
use dash_ha::row::FieldValues;
use dash_ha::service_path::ServicePath;
use dash_ha::state::{State, StateError};

fn path(id: &str) -> ServicePath {
    ServicePath {
        region_id: "region".to_string(),
        cluster_id: "cluster".to_string(),
        node_id: "node".to_string(),
        service_type: "hamgrd".to_string(),
        service_id: id.to_string(),
        resource_type: "".to_string(),
        resource_id: "".to_string(),
    }
}

fn key(id: &str) -> OwnedKey {
    OwnedKey::new("APPL_DB".to_string(), "TABLE".to_string(), id.to_string())
}

fn row(fields: &[(&str, &str)]) -> FieldValues {
    let mut fvs = FieldValues::new();
    for (field, value) in fields {
        fvs.insert(field.to_string(), value.as_bytes().to_vec());
    }
    fvs
}

/// An actor that fails the update of a key as often as `failures` says, and
/// notes what it was called with.
struct Script {
    failures: Vec<(String, u32)>,
    updates: Vec<String>,
    rows: Vec<FieldValues>,
    requests: Vec<(String, Vec<u8>)>,
}

impl Script {
    fn new(failures: &[(&str, u32)]) -> Self {
        Script {
            failures: failures.iter().map(|(k, n)| (k.to_string(), *n)).collect(),
            updates: vec![],
            rows: vec![],
            requests: vec![],
        }
    }
}

impl Actor<FieldValues, FieldValues> for Script {
    fn handle_request(
        &mut self,
        state: &mut State<FieldValues, FieldValues>,
        outbox: &mut Outbox,
        source: ServicePath,
        payload: Vec<u8>,
    ) -> Result<(), String> {
        self.requests.push((source.service_id.clone(), payload.clone()));
        if payload == b"fail" {
            return Err("cannot".to_string());
        }
        if state.has_output(&Key::new("APPL_DB", "TABLE", "out")) {
            state.output(Key::new("APPL_DB", "TABLE", "out")).fvs_mut().insert("last".to_string(), payload.clone());
        }
        outbox.send(OutgoingMessage::request(path("peer"), payload));
        Ok(())
    }

    fn handle_table_update(
        &mut self,
        state: &mut State<FieldValues, FieldValues>,
        outbox: &mut Outbox,
        key: Key<'_>,
    ) -> Result<(), String> {
        self.updates.push(key.key().to_string());
        self.rows.push(state.input(key.as_ref()).fvs().clone());
        for (k, n) in self.failures.iter_mut() {
            if k == key.key() && *n > 0 {
                *n -= 1;
                return Err(format!("{} is not ready", k));
            }
        }
        outbox.send(OutgoingMessage::request(path("peer"), key.key().as_bytes().to_vec()));
        Ok(())
    }
}

fn driver(failures: &[(&str, u32)]) -> ActorDriver<Script, FieldValues, FieldValues> {
    let mut state: State<FieldValues, FieldValues> = State::new();
    state.add_input_table(key("k"), FieldValues::new());
    state.add_input_table(key("l"), FieldValues::new());
    state.add_output_table(key("out"), FieldValues::new());
    ActorDriver::new(Script::new(failures), state)
}

#[test]
fn outbox_queues_in_order() {
    let mut outbox = Outbox::new();
    assert_eq!(outbox.len(), 0);
    outbox.send(OutgoingMessage::request(path("a"), b"1".to_vec()));
    outbox.send(OutgoingMessage::request(path("b"), b"2".to_vec()));
    assert_eq!(outbox.len(), 2);
    let messages = outbox.take();
    assert_eq!(messages.len(), 2);
    assert!(messages[0].destination == path("a"));
    assert!(messages[1].destination == path("b"));
    assert_eq!(outbox.len(), 0);
}

#[test]
fn failed_table_update_is_retried_until_it_succeeds() {
    let mut driver = driver(&[("k", 1)]);
    let handled = driver.handle_table_update(key("k"));
    assert_eq!(handled.result, Err("k is not ready".to_string()));
    assert_eq!(handled.sent.len(), 0);
    assert!(driver.has_failed(key("k").borrow()));
    assert_eq!(driver.actor().updates, vec!["k".to_string()]);

    let round = driver.maintenence();
    assert_eq!(round.retried.len(), 1);
    assert!(round.retried[0].0 == key("k"));
    assert!(round.retried[0].1);
    assert_eq!(round.sent.len(), 1);
    assert!(!driver.has_failed(key("k").borrow()));
    assert_eq!(driver.actor().updates, vec!["k".to_string(), "k".to_string()]);

    let round = driver.maintenence();
    assert_eq!(round.retried.len(), 0);
    assert_eq!(round.sent.len(), 0);
    assert_eq!(driver.actor().updates.len(), 2);
}

#[test]
fn outcomes_are_recorded() {
    let mut driver = driver(&[]);
    driver.record_table_update(key("k"), false);
    driver.record_table_update(key("l"), false);
    driver.record_table_update(key("k"), false);
    assert!(driver.has_failed(key("k").borrow()) && driver.has_failed(key("l").borrow()));
    driver.record_table_update(key("k"), true);
    assert!(!driver.has_failed(key("k").borrow()) && driver.has_failed(key("l").borrow()));
    let reply = request_reply(path("client"), 9, &Err("why".to_string()));
    assert!(reply.destination == path("client"));
    match reply.body {
        MessageBody::Response { request_id, error_code, error_message } => {
            assert_eq!((request_id, error_code, error_message.as_str()), (9, SwbusErrorCode::Fail, "why"));
        }
        other => panic!("unexpected: {:?}", other),
    }
}

#[test]
fn update_that_keeps_failing_stays_failed() {
    let mut driver = driver(&[("k", 3), ("l", 1)]);
    assert!(driver.handle_table_update(key("k")).result.is_err());
    assert!(driver.handle_table_update(key("l")).result.is_err());
    assert!(driver.handle_table_update(key("k")).result.is_err());
    let round = driver.maintenence();
    assert_eq!(round.retried.len(), 2);
    assert!(round.retried[0].0 == key("k") && !round.retried[0].1);
    assert!(round.retried[1].0 == key("l") && round.retried[1].1);
    assert!(driver.has_failed(key("k").borrow()));
    assert!(!driver.has_failed(key("l").borrow()));
    let round = driver.maintenence();
    assert_eq!(round.retried.len(), 1);
    assert!(round.retried[0].1);
    assert!(!driver.has_failed(key("k").borrow()));
}

#[test]
fn successful_update_clears_an_earlier_failure() {
    let mut driver = driver(&[("k", 1)]);
    assert!(driver.handle_table_update(key("k")).result.is_err());
    assert!(driver.has_failed(key("k").borrow()));
    assert!(driver.handle_table_update(key("k")).result.is_ok());
    assert!(!driver.has_failed(key("k").borrow()));
    assert_eq!(driver.maintenence().retried.len(), 0);
}

#[test]
fn requests_are_answered_and_tracked() {
    let mut driver = driver(&[]);
    let handled = driver.handle_swbus_message(IncomingMessage {
        id: 40,
        source: path("client"),
        body: MessageBody::Request { payload: b"hello".to_vec() },
    });
    assert_eq!(handled.result, Ok(()));
    assert_eq!(driver.actor().requests, vec![("client".to_string(), b"hello".to_vec())]);
    assert_eq!(handled.sent.len(), 2);
    assert_eq!(handled.sent[0].0, 0);
    assert_eq!(handled.sent[1].0, 1);
    assert!(handled.sent[0].1.destination == path("peer"));
    assert!(handled.sent[1].1.destination == path("client"));
    match &handled.sent[1].1.body {
        MessageBody::Response { request_id, error_code, error_message } => {
            assert_eq!((*request_id, *error_code, error_message.as_str()), (40, SwbusErrorCode::NoError, ""));
        }
        other => panic!("unexpected: {:?}", other),
    }
    assert_eq!(driver.unacked_len(), 1);

    let round = driver.maintenence();
    assert_eq!(round.resent.len(), 1);
    assert_eq!(round.resent[0].0, 0);
    assert!(round.resent[0].1.destination == path("peer"));

    let ack = driver.handle_swbus_message(IncomingMessage {
        id: 1,
        source: path("peer"),
        body: MessageBody::Response {
            request_id: 0,
            error_code: SwbusErrorCode::NoError,
            error_message: String::new(),
        },
    });
    assert_eq!(ack.result, Ok(()));
    assert_eq!(ack.sent.len(), 0);
    assert_eq!(driver.unacked_len(), 0);
    assert_eq!(driver.maintenence().resent.len(), 0);
}

#[test]
fn failed_request_is_reported_to_its_sender() {
    let mut driver = driver(&[]);
    let handled = driver.handle_swbus_message(IncomingMessage {
        id: 41,
        source: path("client"),
        body: MessageBody::Request { payload: b"fail".to_vec() },
    });
    assert_eq!(handled.result, Err("cannot".to_string()));
    assert_eq!(handled.sent.len(), 1);
    assert!(handled.sent[0].1.destination == path("client"));
    match &handled.sent[0].1.body {
        MessageBody::Response { request_id, error_code, error_message } => {
            assert_eq!((*request_id, *error_code, error_message.as_str()), (41, SwbusErrorCode::Fail, "cannot"));
        }
        other => panic!("unexpected: {:?}", other),
    }
    assert_eq!(driver.unacked_len(), 0);
}

#[test]
fn unknown_acknowledgement_changes_nothing() {
    let mut driver = driver(&[]);
    driver.handle_table_update(key("k"));
    assert_eq!(driver.unacked_len(), 1);
    driver.handle_swbus_message(IncomingMessage {
        id: 1,
        source: path("peer"),
        body: MessageBody::Response {
            request_id: 99,
            error_code: SwbusErrorCode::NoError,
            error_message: String::new(),
        },
    });
    assert_eq!(driver.unacked_len(), 1);
}

#[test]
fn giving_up_ends_the_retries() {
    let mut driver = driver(&[("k", 5)]);
    assert!(driver.handle_table_update(key("k")).result.is_err());
    assert!(driver.handle_table_update(key("l")).result.is_ok());
    assert_eq!(driver.unacked_len(), 1);
    driver.give_up_update(key("k").borrow());
    assert!(!driver.has_failed(key("k").borrow()));
    assert_eq!(driver.maintenence().retried.len(), 0);
    driver.give_up(7);
    assert_eq!(driver.unacked_len(), 1);
    driver.give_up(0);
    assert_eq!(driver.unacked_len(), 0);
    assert_eq!(driver.maintenence().resent.len(), 0);
}

#[test]
fn update_takes_over_the_row() {
    let mut driver = driver(&[]);
    let handled = driver.handle_update(TableUpdate { key: key("k"), fvs: row(&[("a", "1")]) }).unwrap();
    assert_eq!(handled.result, Ok(()));
    assert_eq!(handled.sent.len(), 1);
    assert_eq!(driver.actor().updates, vec!["k".to_string()]);
    assert!(driver.actor().rows.len() == 1 && driver.actor().rows[0] == row(&[("a", "1")]));
    let refused = driver.handle_update(TableUpdate { key: key("nope"), fvs: row(&[("a", "1")]) });
    assert_eq!(refused.err(), Some(StateError::NotFound));
    assert_eq!(driver.unacked_len(), 1);
}

#[test]
fn dirty_outputs_are_drained_once() {
    let mut driver = driver(&[]);
    assert_eq!(driver.drain_dirty_outputs().len(), 0);
    driver.handle_swbus_message(IncomingMessage {
        id: 1,
        source: path("client"),
        body: MessageBody::Request { payload: b"v".to_vec() },
    });
    {
        let dirty = driver.drain_dirty_outputs();
        assert_eq!(dirty.len(), 1);
        assert!(dirty[0].fvs() == &row(&[("last", "v")]));
    }
    assert_eq!(driver.drain_dirty_outputs().len(), 0);
}

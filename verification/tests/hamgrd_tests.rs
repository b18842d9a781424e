use dash_ha::hamgrd::{
    election_decided, primary_election, ControlAction, ControlMessage, HamgrdActor, TableServicePaths,
    MAX_RETRY_COUNT,
};
use dash_ha::message::{IncomingMessage, MessageBody, SwbusErrorCode};
use dash_ha::service_path::ServicePath;
use dash_ha::tables::config_tables::{self, DesiredHaState};
use dash_ha::tables::external_tables::{self, HaState};
use dash_ha::tables::internal_tables;

fn path(id: &str) -> ServicePath {
    ServicePath {
        region_id: "region".to_string(),
        cluster_id: "cluster".to_string(),
        node_id: "node".to_string(),
        service_type: "swss".to_string(),
        service_id: id.to_string(),
        resource_type: "".to_string(),
        resource_id: "".to_string(),
    }
}

fn actor() -> HamgrdActor {
    HamgrdActor::new(
        TableServicePaths {
            config: config_tables::ServicePaths {
                dpu: path("dpu"),
                vdpu: path("vdpu"),
                dash_ha_global_config: path("global"),
                dash_ha_set_config_table: path("set_config"),
                dash_ha_scope_config_table: path("scope_config"),
                dash_eni_placement_table: path("placement"),
                dash_eni_table: path("eni"),
            },
            external: external_tables::ServicePaths { dash_ha_scope_state: path("scope_state") },
            internal: internal_tables::ServicePaths {
                dash_ha_set_table: path("set_table"),
                dash_ha_scope_table: path("scope_table"),
                dash_flow_sync_session_table: path("flow_table"),
                dash_eni_forward_table: path("forward"),
                dpu_state: path("dpu_state"),
                vdpu_state: path("vdpu_state"),
                dash_ha_set_state: path("set_state"),
                dash_ha_scope_state: path("internal_scope_state"),
                dash_flow_sync_session_state: path("flow_state"),
                dash_bfd_probe_state: path("bfd"),
            },
        },
        path("peer"),
    )
}

#[test]
fn standalone_wish_asks_to_retry() {
    for state in [HaState::Active, HaState::Dead, HaState::Connected, HaState::Standby] {
        assert_eq!(
            primary_election(1, state, DesiredHaState::Standalone, 2, DesiredHaState::Active, 500),
            ControlMessage::RetryLater
        );
    }
}

#[test]
fn active_manager_makes_the_peer_standby() {
    assert_eq!(
        primary_election(1, HaState::Active, DesiredHaState::Unspecified, 9, DesiredHaState::Active, 0),
        ControlMessage::BecomeStandby
    );
    assert_eq!(
        primary_election(1, HaState::Active, DesiredHaState::Dead, 1, DesiredHaState::Dead, 1000),
        ControlMessage::BecomeStandby
    );
}

#[test]
fn dead_manager_that_wants_to_be_dead_makes_the_peer_standalone() {
    assert_eq!(
        primary_election(1, HaState::Dead, DesiredHaState::Dead, 1, DesiredHaState::Active, 0),
        ControlMessage::BecomeStandalone
    );
}

#[test]
fn dead_or_connecting_manager_waits_for_retries() {
    for state in [HaState::Dead, HaState::Connecting] {
        assert_eq!(
            primary_election(1, state, DesiredHaState::Active, 1, DesiredHaState::Active, 0),
            ControlMessage::RetryLater
        );
        assert_eq!(
            primary_election(1, state, DesiredHaState::Active, 1, DesiredHaState::Active, MAX_RETRY_COUNT - 1),
            ControlMessage::RetryLater
        );
        assert_eq!(
            primary_election(1, state, DesiredHaState::Active, 1, DesiredHaState::Active, MAX_RETRY_COUNT),
            ControlMessage::BecomeStandalone
        );
    }
    assert_eq!(
        primary_election(1, HaState::Connecting, DesiredHaState::Dead, 1, DesiredHaState::Active, 3),
        ControlMessage::RetryLater
    );
}

#[test]
fn different_terms_decide() {
    assert_eq!(
        primary_election(5, HaState::Connected, DesiredHaState::Active, 4, DesiredHaState::Active, 0),
        ControlMessage::BecomeStandby
    );
    assert_eq!(
        primary_election(4, HaState::Connected, DesiredHaState::Active, 5, DesiredHaState::Active, 0),
        ControlMessage::BecomeActive
    );
    assert_eq!(
        primary_election(4, HaState::Standby, DesiredHaState::Unspecified, 5, DesiredHaState::Dead, 1000),
        ControlMessage::BecomeActive
    );
}

#[test]
fn equal_terms_go_by_the_wishes() {
    assert_eq!(
        primary_election(4, HaState::Connected, DesiredHaState::Active, 4, DesiredHaState::Unspecified, 0),
        ControlMessage::BecomeStandby
    );
    assert_eq!(
        primary_election(4, HaState::Connected, DesiredHaState::Unspecified, 4, DesiredHaState::Active, 0),
        ControlMessage::BecomeActive
    );
    assert_eq!(
        primary_election(4, HaState::Connected, DesiredHaState::Active, 4, DesiredHaState::Active, 0),
        ControlMessage::RetryLater
    );
    assert_eq!(
        primary_election(4, HaState::Connected, DesiredHaState::Unspecified, 4, DesiredHaState::Unspecified, 100),
        ControlMessage::RetryLater
    );
}

#[test]
fn election_without_an_answer_is_told_apart() {
    assert!(!election_decided(4, HaState::Connected, DesiredHaState::Active, 4, DesiredHaState::Active, 101));
    assert!(election_decided(4, HaState::Connected, DesiredHaState::Active, 4, DesiredHaState::Active, 100));
    assert!(election_decided(4, HaState::Connected, DesiredHaState::Active, 5, DesiredHaState::Active, 101));
    assert!(election_decided(4, HaState::Active, DesiredHaState::Active, 4, DesiredHaState::Active, 101));
    assert!(election_decided(4, HaState::Connected, DesiredHaState::Unspecified, 4, DesiredHaState::Active, 101));
}

#[test]
fn messages_of_unknown_senders_are_refused() {
    let actor = actor();
    for known in ["peer", "dpu", "vdpu", "global", "set_config", "scope_config", "placement", "scope_state", "set_state", "flow_state", "bfd"] {
        let message = IncomingMessage { id: 1, source: path(known), body: MessageBody::Request { payload: vec![] } };
        assert!(actor.handle_message(&message).is_none(), "{}", known);
    }
    for unknown in ["eni", "set_table", "internal_scope_state", "stranger"] {
        let message = IncomingMessage { id: 7, source: path(unknown), body: MessageBody::Request { payload: vec![] } };
        let reply = actor.handle_message(&message).unwrap();
        assert!(reply.destination == path(unknown));
        match reply.body {
            MessageBody::Response { request_id, error_code, error_message } => {
                assert_eq!(request_id, 7);
                assert_eq!(error_code, SwbusErrorCode::InvalidSource);
                assert_eq!(error_message, "Unknown sender");
            }
            other => panic!("unexpected: {:?}", other),
        }
    }
}

#[test]
fn vote_is_answered_to_the_peer() {
    let actor = actor();
    let request = ControlMessage::RequestVote { term: 5, desired_state: DesiredHaState::Active, retry_count: 0 };
    match actor.handle_control_message(request, 4, HaState::Connected, DesiredHaState::Active) {
        ControlAction::Answer { destination, response } => {
            assert!(destination == path("peer"));
            assert_eq!(response, ControlMessage::BecomeActive);
        }
        other => panic!("unexpected: {:?}", other),
    }
    assert!(matches!(
        actor.handle_control_message(ControlMessage::BecomeActive, 4, HaState::Connected, DesiredHaState::Active),
        ControlAction::BecomeActive
    ));
    assert!(matches!(
        actor.handle_control_message(ControlMessage::BecomeStandby, 4, HaState::Connected, DesiredHaState::Active),
        ControlAction::BecomeStandby
    ));
    assert!(matches!(
        actor.handle_control_message(ControlMessage::BecomeStandalone, 4, HaState::Connected, DesiredHaState::Active),
        ControlAction::BecomeStandalone
    ));
}

use dash_ha::codec::{FieldValueError, ToFromFieldValues};
use dash_ha::row::FieldValues;
use dash_ha::tables::state_tables::{DashHaScopeState, OperationType, PlaneState};
use dash_ha::tables::support::{
    from_field_value, parse_field_value, to_field_value, FromFieldValueError, ToFromFieldValue,
};
use dash_ha::tables::update_from_field_values;

fn scope_state() -> DashHaScopeState {
    DashHaScopeState {
        creation_time_in_ms: 1700000000000,
        last_heartbeat_time_in_ms: 0,
        vip_v4: "10.0.0.1".to_string(),
        vip_v6: "fe80::1".to_string(),
        local_ip: "10.0.0.2".to_string(),
        peer_ip: "10.0.0.3".to_string(),
        local_ha_state: "active".to_string(),
        local_ha_state_last_updated_time_in_ms: 3,
        local_ha_state_last_updated_reason: "planned, by hand".to_string(),
        local_target_asic_ha_state: "active".to_string(),
        local_acked_asic_ha_state: "active".to_string(),
        local_target_term: 4,
        local_acked_term: 4,
        peer_ha_state: "standby".to_string(),
        peer_term: u64::MAX,
        local_vdpu_midplane_state: PlaneState::Up,
        local_vdpu_midplane_state_last_updated_time_in_ms: 5,
        local_vdpu_control_plane_state: PlaneState::Down,
        local_vdpu_control_plane_state_last_updated_time_in_ms: 6,
        local_vdpu_data_plane_state: PlaneState::Unknown,
        local_vdpu_data_plane_state_last_updated_time_in_ms: 7,
        local_vdpu_up_bfd_sessions_v4: vec!["10.1.0.1".to_string(), "".to_string(), "10.1.0.2".to_string()],
        local_vdpu_up_bfd_sessions_v4_update_time_in_ms: 8,
        local_vdpu_up_bfd_sessions_v6: vec![],
        local_vdpu_up_bfd_sessions_v6_update_time_in_ms: 9,
        pending_operation_ids: vec!["op1".to_string()],
        pending_operation_types: vec![
            OperationType::Switchover,
            OperationType::ActivateRole,
            OperationType::FlowReconcile,
            OperationType::BrainsplitRecover,
        ],
        pending_operation_list_last_updated_time: 10,
        switchover_id: "s1".to_string(),
        switchover_state: "".to_string(),
        switchover_start_time_in_ms: "11".to_string(),
        switchover_end_time_in_ms: "12".to_string(),
        switchover_approved_time_in_ms: "13".to_string(),
        flow_sync_session_id: "ünïcode".to_string(),
        flow_sync_session_state: "done".to_string(),
        flow_sync_session_start_time_in_ms: "14".to_string(),
        flow_sync_session_target_server: "10.2.0.1".to_string(),
    }
}

#[test]
fn state_row_reads_back_as_the_state() {
    let state = scope_state();
    let fvs = state.to_field_values().unwrap();
    assert_eq!(fvs.len(), 37);
    assert_eq!(DashHaScopeState::from_field_values(&fvs).unwrap(), state);
}

#[test]
fn state_row_has_one_field_per_field() {
    let fvs = scope_state().to_field_values().unwrap();
    assert_eq!(fvs.get("creation_time_in_ms"), Some(&b"1700000000000".to_vec()));
    assert_eq!(fvs.get("last_heartbeat_time_in_ms"), Some(&b"0".to_vec()));
    assert_eq!(fvs.get("peer_term"), Some(&b"18446744073709551615".to_vec()));
    assert_eq!(fvs.get("vip_v4"), Some(&b"10.0.0.1".to_vec()));
    assert_eq!(fvs.get("local_vdpu_midplane_state"), Some(&b"up".to_vec()));
    assert_eq!(fvs.get("local_vdpu_control_plane_state"), Some(&b"down".to_vec()));
    assert_eq!(fvs.get("local_vdpu_data_plane_state"), Some(&b"unknown".to_vec()));
    assert_eq!(fvs.get("local_vdpu_up_bfd_sessions_v4"), Some(&b"10.1.0.1,,10.1.0.2".to_vec()));
    assert_eq!(fvs.get("local_vdpu_up_bfd_sessions_v6"), Some(&b"".to_vec()));
    assert_eq!(fvs.get("pending_operation_ids"), Some(&b"op1".to_vec()));
    assert_eq!(
        fvs.get("pending_operation_types"),
        Some(&b"switchover,activaterole,flowreconcile,brainsplitrecover".to_vec())
    );
    assert_eq!(fvs.get("flow_sync_session_id"), Some(&"ünïcode".as_bytes().to_vec()));
    assert_eq!(fvs.get("switchover_state"), Some(&b"".to_vec()));
}

#[test]
fn state_that_does_not_read_back_is_not_written() {
    let mut state = scope_state();
    state.pending_operation_ids = vec!["a,b".to_string()];
    match state.to_field_values() {
        Err(FieldValueError::Invalid { field, data, error }) => {
            assert_eq!(field, "pending_operation_ids");
            assert_eq!(data, "a,b");
            assert_eq!(error, "value does not read back as written");
        }
        other => panic!("unexpected: {:?}", other),
    }
    let mut state = scope_state();
    state.local_vdpu_up_bfd_sessions_v6 = vec!["".to_string()];
    assert!(matches!(
        state.to_field_values(),
        Err(FieldValueError::Invalid { field: "local_vdpu_up_bfd_sessions_v6", .. })
    ));
    let mut state = scope_state();
    state.local_vdpu_up_bfd_sessions_v6 = vec!["".to_string(), "".to_string()];
    let fvs = state.to_field_values().unwrap();
    assert_eq!(fvs.get("local_vdpu_up_bfd_sessions_v6"), Some(&b",".to_vec()));
    assert_eq!(DashHaScopeState::from_field_values(&fvs).unwrap(), state);
}

#[test]
fn state_row_with_a_bad_field_is_reported() {
    let mut fvs = scope_state().to_field_values().unwrap();
    fvs.insert("local_vdpu_data_plane_state".to_string(), b"sideways".to_vec());
    match DashHaScopeState::from_field_values(&fvs) {
        Err(FieldValueError::Invalid { field, data, error }) => {
            assert_eq!(field, "local_vdpu_data_plane_state");
            assert_eq!(data, "sideways");
            assert_eq!(error, "expected one of: unknown, up, down");
        }
        other => panic!("unexpected: {:?}", other),
    }
    fvs.insert("local_vdpu_data_plane_state".to_string(), b"SideWays".to_vec());
    match DashHaScopeState::from_field_values(&fvs) {
        Err(FieldValueError::Invalid { field, data, .. }) => {
            assert_eq!(field, "local_vdpu_data_plane_state");
            assert_eq!(data, "sideways");
        }
        other => panic!("unexpected: {:?}", other),
    }
    fvs.remove("local_ip");
    assert!(matches!(
        DashHaScopeState::from_field_values(&fvs),
        Err(FieldValueError::Missing { field: "local_ip" })
    ));
    let mut fvs = scope_state().to_field_values().unwrap();
    fvs.insert("pending_operation_types".to_string(), b"switchover,nap".to_vec());
    match DashHaScopeState::from_field_values(&fvs) {
        Err(FieldValueError::Invalid { field, error, .. }) => {
            assert_eq!(field, "pending_operation_types");
            assert_eq!(error, "expected one of: switchover, activaterole, flowreconcile, brainsplitrecover");
        }
        other => panic!("unexpected: {:?}", other),
    }
}

#[test]
fn variants_are_read_in_any_case() {
    assert_eq!(PlaneState::read_text("UP"), Ok(PlaneState::Up));
    assert_eq!(PlaneState::read_text("Down"), Ok(PlaneState::Down));
    assert_eq!(PlaneState::read_text("unKnown"), Ok(PlaneState::Unknown));
    assert_eq!(OperationType::read_text("ActivateRole"), Ok(OperationType::ActivateRole));
    assert_eq!(OperationType::read_text("BRAINSPLITRECOVER"), Ok(OperationType::BrainsplitRecover));
    assert!(PlaneState::read_text("u p").is_err());
    assert!(PlaneState::read_text("").is_err());
    assert_eq!(PlaneState::Up.write_text(), "up");
    assert_eq!(OperationType::FlowReconcile.write_text(), "flowreconcile");
    assert_eq!(from_field_value::<PlaneState>(Some(&b"uP".to_vec())).unwrap(), PlaneState::Up);
    assert!(PlaneState::Up.is_writable());
}

#[test]
fn single_values_are_written_and_read() {
    assert_eq!(to_field_value(&42u64), b"42".to_vec());
    assert_eq!(to_field_value(&0u64), b"0".to_vec());
    assert_eq!(to_field_value(&"text".to_string()), b"text".to_vec());
    assert_eq!(from_field_value::<u64>(Some(&b"42".to_vec())).unwrap(), 42);
    assert_eq!(from_field_value::<String>(Some(&b"text".to_vec())).unwrap(), "text");
    assert_eq!(from_field_value::<String>(Some(&vec![0xff])).unwrap(), "\u{fffd}");
    assert!(matches!(from_field_value::<u64>(None), Err(FromFieldValueError::Missing)));
    match from_field_value::<u64>(Some(&b"4 2".to_vec())) {
        Err(FromFieldValueError::Invalid { data, error }) => {
            assert_eq!(data, "4 2");
            assert_eq!(error, "invalid digit found in string");
        }
        other => panic!("unexpected: {:?}", other),
    }
    let mut fvs = FieldValues::new();
    fvs.insert("n".to_string(), b"7".to_vec());
    assert_eq!(parse_field_value::<u64>("n", &fvs).unwrap(), 7);
    assert!(matches!(parse_field_value::<u64>("m", &fvs), Err(FieldValueError::Missing { field: "m" })));
}

#[test]
fn lists_are_written_with_commas() {
    let empty: Vec<u64> = vec![];
    assert_eq!(to_field_value(&empty), b"".to_vec());
    assert_eq!(to_field_value(&vec![1u64]), b"1".to_vec());
    assert_eq!(to_field_value(&vec![1u64, 20, 300]), b"1,20,300".to_vec());
    assert_eq!(from_field_value::<Vec<u64>>(Some(&b"".to_vec())).unwrap(), empty);
    assert_eq!(from_field_value::<Vec<u64>>(Some(&b"1,20,300".to_vec())).unwrap(), vec![1, 20, 300]);
    assert!(from_field_value::<Vec<u64>>(Some(&b"1,,3".to_vec())).is_err());
    assert!(from_field_value::<Vec<u64>>(Some(&b"1,".to_vec())).is_err());
    assert_eq!(
        from_field_value::<Vec<String>>(Some(&b",a,".to_vec())).unwrap(),
        vec!["".to_string(), "a".to_string(), "".to_string()]
    );
    assert!(vec!["a".to_string(), "b".to_string()].is_writable());
    assert!(!vec!["a,b".to_string()].is_writable());
    assert!(!vec!["".to_string()].is_writable());
    assert!(vec!["".to_string(), "".to_string()].is_writable());
    assert!(empty.is_writable());
}

#[test]
fn update_replaces_the_fields_given() {
    let mut state = scope_state();
    let mut fvs = FieldValues::new();
    fvs.insert("peer_term".to_string(), b"12".to_vec());
    fvs.insert("local_vdpu_midplane_state".to_string(), b"down".to_vec());
    fvs.insert("unrelated".to_string(), b"x".to_vec());
    assert!(update_from_field_values(fvs, &mut state).is_ok());
    let mut expected = scope_state();
    expected.peer_term = 12;
    expected.local_vdpu_midplane_state = PlaneState::Down;
    assert_eq!(state, expected);

    let mut fvs = FieldValues::new();
    fvs.insert("peer_term".to_string(), b"twelve".to_vec());
    assert!(matches!(
        update_from_field_values(fvs, &mut state),
        Err(FieldValueError::Invalid { field: "peer_term", .. })
    ));
    assert_eq!(state, expected);
}

#[test]
fn plain_row_is_its_own_typed_form() {
    let mut fvs = FieldValues::new();
    fvs.insert("a".to_string(), b"1".to_vec());
    assert!(fvs.to_field_values().unwrap() == fvs);
    assert!(FieldValues::from_field_values(&fvs).unwrap() == fvs);
}

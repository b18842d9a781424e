use dash_ha::codec::{FieldValueError, ToFromFieldValues};
use dash_ha::key::{Key, OwnedKey};
use dash_ha::row::FieldValues;
use dash_ha::state::{CachedTable, InputTable, OutputTable, State};
use dash_ha::tables::state_tables::{DashHaScopeState, OperationType, PlaneState};

fn row(fields: &[(&str, &str)]) -> FieldValues {
    let mut fvs = FieldValues::new();
    for (field, value) in fields {
        fvs.insert(field.to_string(), value.as_bytes().to_vec());
    }
    fvs
}

fn key(id: &str) -> OwnedKey {
    OwnedKey::new("STATE_DB".to_string(), "DASH_HA_SCOPE_STATE".to_string(), id.to_string())
}

fn scope_state(peer_term: u64) -> DashHaScopeState {
    DashHaScopeState {
        creation_time_in_ms: 1,
        last_heartbeat_time_in_ms: 2,
        vip_v4: "10.0.0.1".to_string(),
        vip_v6: "fe80::1".to_string(),
        local_ip: "10.0.0.2".to_string(),
        peer_ip: "10.0.0.3".to_string(),
        local_ha_state: "active".to_string(),
        local_ha_state_last_updated_time_in_ms: 3,
        local_ha_state_last_updated_reason: "planned".to_string(),
        local_target_asic_ha_state: "active".to_string(),
        local_acked_asic_ha_state: "active".to_string(),
        local_target_term: 4,
        local_acked_term: 4,
        peer_ha_state: "standby".to_string(),
        peer_term,
        local_vdpu_midplane_state: PlaneState::Up,
        local_vdpu_midplane_state_last_updated_time_in_ms: 5,
        local_vdpu_control_plane_state: PlaneState::Down,
        local_vdpu_control_plane_state_last_updated_time_in_ms: 6,
        local_vdpu_data_plane_state: PlaneState::Unknown,
        local_vdpu_data_plane_state_last_updated_time_in_ms: 7,
        local_vdpu_up_bfd_sessions_v4: vec!["10.1.0.1".to_string(), "10.1.0.2".to_string()],
        local_vdpu_up_bfd_sessions_v4_update_time_in_ms: 8,
        local_vdpu_up_bfd_sessions_v6: vec![],
        local_vdpu_up_bfd_sessions_v6_update_time_in_ms: 9,
        pending_operation_ids: vec!["op1".to_string()],
        pending_operation_types: vec![OperationType::Switchover, OperationType::ActivateRole],
        pending_operation_list_last_updated_time: 10,
        switchover_id: "s1".to_string(),
        switchover_state: "".to_string(),
        switchover_start_time_in_ms: "11".to_string(),
        switchover_end_time_in_ms: "12".to_string(),
        switchover_approved_time_in_ms: "13".to_string(),
        flow_sync_session_id: "f1".to_string(),
        flow_sync_session_state: "done".to_string(),
        flow_sync_session_start_time_in_ms: "14".to_string(),
        flow_sync_session_target_server: "10.2.0.1".to_string(),
    }
}

fn scope_row(peer_term: u64) -> FieldValues {
    scope_state(peer_term).to_field_values().unwrap()
}

#[test]
fn typed_mut_writes_back_on_release() {
    let mut table: OutputTable<DashHaScopeState> = OutputTable::new(scope_row(1));
    assert!(!table.is_dirty());
    assert_eq!(table.fvs().get("peer_term"), Some(&b"1".to_vec()));
    let mut guard = table.deserialized_mut().unwrap();
    assert_eq!(guard.deref(), &scope_state(1));
    guard.deref_mut().peer_term = 5;
    guard.release();
    assert_eq!(table.fvs().get("peer_term"), Some(&b"5".to_vec()));
    assert!(table.fvs() == &scope_row(5));
    assert!(table.is_dirty());
    assert_eq!(table.deserialized().unwrap(), &scope_state(5));
}

#[test]
fn typed_mut_on_a_plain_row() {
    let mut table: OutputTable<FieldValues> = OutputTable::new(row(&[("x", "1")]));
    let mut guard = table.deserialized_mut().unwrap();
    guard.deref_mut().insert("x".to_string(), b"5".to_vec());
    guard.release();
    assert!(table.fvs() == &row(&[("x", "5")]));
    assert!(table.is_dirty());
    assert!(table.deserialized().unwrap() == &row(&[("x", "5")]));
}

#[test]
fn guard_that_is_not_released_leaves_the_row() {
    let mut table: OutputTable<FieldValues> = OutputTable::new(row(&[("x", "1")]));
    {
        let mut guard = table.deserialized_mut().unwrap();
        guard.deref_mut().insert("x".to_string(), b"5".to_vec());
    }
    assert!(table.fvs() == &row(&[("x", "1")]));
    assert!(table.is_dirty());
    assert!(table.deserialized().unwrap() == &row(&[("x", "1")]));
}

#[test]
fn release_of_a_value_that_does_not_read_back_fails() {
    let mut table: OutputTable<DashHaScopeState> = OutputTable::new(scope_row(1));
    let mut guard = table.deserialized_mut().unwrap();
    guard.deref_mut().pending_operation_ids = vec!["a,b".to_string()];
    match guard.try_release() {
        Err(FieldValueError::Invalid { field, .. }) => assert_eq!(field, "pending_operation_ids"),
        other => panic!("unexpected: {:?}", other),
    }
    assert!(table.fvs() == &scope_row(1));
    assert!(table.is_dirty());
    assert_eq!(table.deserialized().unwrap(), &scope_state(1));
}

#[test]
fn raw_write_is_seen_by_the_typed_form() {
    let mut table: OutputTable<DashHaScopeState> = OutputTable::new(scope_row(1));
    assert_eq!(table.deserialized().unwrap().peer_term, 1);
    assert!(!table.is_dirty());
    table.fvs_mut().insert("peer_term".to_string(), b"9".to_vec());
    assert!(table.is_dirty());
    assert_eq!(table.deserialized().unwrap().peer_term, 9);
    assert_eq!(table.deserialized().unwrap(), &scope_state(9));
}

#[test]
fn row_that_is_no_value_is_reported() {
    let mut table: OutputTable<DashHaScopeState> = OutputTable::new(row(&[("x", "1")]));
    match table.deserialized() {
        Err(FieldValueError::Missing { field }) => assert_eq!(field, "creation_time_in_ms"),
        other => panic!("unexpected: {:?}", other),
    }
    assert!(table.deserialized_mut().is_err());
    assert!(!table.is_dirty());
    let mut broken = scope_row(1);
    broken.insert("peer_term".to_string(), b"many".to_vec());
    let mut input: InputTable<DashHaScopeState> = InputTable::new(broken);
    match input.deserialized() {
        Err(FieldValueError::Invalid { field, data, .. }) => {
            assert_eq!(field, "peer_term");
            assert_eq!(data, "many");
        }
        other => panic!("unexpected: {:?}", other),
    }
}

#[test]
fn input_table_reads() {
    let mut input: InputTable<DashHaScopeState> = InputTable::new(scope_row(3));
    assert!(input.fvs() == &scope_row(3));
    assert_eq!(input.deserialized().unwrap(), &scope_state(3));
    assert_eq!(input.deserialized().unwrap().peer_term, 3);
}

#[test]
fn released_value_can_be_tried_too() {
    let mut table: OutputTable<DashHaScopeState> = OutputTable::new(scope_row(1));
    let mut guard = table.deserialized_mut().unwrap();
    guard.deref_mut().peer_term = 2;
    assert!(guard.try_release().is_ok());
    assert!(table.fvs() == &scope_row(2));
    assert_eq!(table.deserialized().unwrap(), &scope_state(2));
}

#[test]
fn cached_table_update_and_invalidate() {
    let mut table: CachedTable<DashHaScopeState> = CachedTable::new(scope_row(1));
    assert!(table.downcast_deserialized_cache().is_none());
    assert!(table.deserialize_into_cache().is_ok());
    assert_eq!(table.downcast_deserialized_cache(), Some(&scope_state(1)));
    table.update(scope_row(1), false);
    assert_eq!(table.downcast_deserialized_cache(), Some(&scope_state(1)));
    table.update(scope_row(2), true);
    assert!(table.downcast_deserialized_cache().is_none());
    assert_eq!(table.deserialized().unwrap(), &scope_state(2));
    assert!(table.downcast_deserialized_cache_mut().is_some());
    table.invalidate_deserialized_cache();
    assert!(table.downcast_deserialized_cache().is_none());
    assert!(table.fvs() == &scope_row(2));
    table.fvs_mut().insert("peer_term".to_string(), b"7".to_vec());
    assert_eq!(table.deserialized_mut().unwrap().peer_term, 7);
}

#[test]
fn state_hands_out_registered_tables_only() {
    let mut state: State<FieldValues, FieldValues> = State::new();
    state.add_input_table(key("in"), row(&[("a", "1")]));
    state.add_output_table(key("out"), row(&[("b", "2")]));
    assert!(state.has_input(key("in").borrow()));
    assert!(state.has_output(key("out").borrow()));
    assert!(state.input(key("in").borrow().as_ref()).fvs() == &row(&[("a", "1")]));
    assert!(state.output(key("out").borrow().as_ref()).fvs() == &row(&[("b", "2")]));
    assert!(!state.has_input(&Key::new("STATE_DB", "DASH_HA_SCOPE_STATE", "out")));
    assert!(!state.has_output(&Key::new("STATE_DB", "DASH_HA_SCOPE_STATE", "in")));
    assert!(!state.has_output(&Key::new("x", "y", "z")));
    assert!(!State::<FieldValues, FieldValues>::default().has_input(key("in").borrow()));
}

#[test]
fn registering_twice_is_registering_once() {
    let mut state: State<FieldValues, FieldValues> = State::new();
    state.add_output_table(key("out"), row(&[("b", "2")]));
    state.add_output_table(key("out"), row(&[("b", "2")]));
    state.output(key("out").borrow().as_ref()).fvs_mut().insert("b".to_string(), b"3".to_vec());
    let dirty = state.iter_dirty_output_tables();
    assert_eq!(dirty.len(), 1);
    assert!(dirty[0].fvs() == &row(&[("b", "3")]));
}

#[test]
fn drain_yields_each_dirty_table_once() {
    let mut state: State<FieldValues, FieldValues> = State::new();
    state.add_output_table(key("a"), row(&[("v", "a")]));
    state.add_output_table(key("b"), row(&[("v", "b")]));
    state.add_output_table(key("c"), row(&[("v", "c")]));
    assert_eq!(state.iter_dirty_output_tables().len(), 0);

    state.output(key("c").borrow().as_ref()).fvs_mut().insert("v".to_string(), b"c1".to_vec());
    state.output(key("a").borrow().as_ref()).fvs_mut().insert("v".to_string(), b"a1".to_vec());
    state.output(key("a").borrow().as_ref()).fvs_mut().insert("v".to_string(), b"a2".to_vec());
    {
        let dirty = state.iter_dirty_output_tables();
        assert_eq!(dirty.len(), 2);
        assert!(dirty[0].fvs() == &row(&[("v", "a2")]));
        assert!(dirty[1].fvs() == &row(&[("v", "c1")]));
        assert!(!dirty[0].is_dirty());
        assert!(!dirty[1].is_dirty());
    }
    assert_eq!(state.iter_dirty_output_tables().len(), 0);

    let guard = state.output(key("b").borrow().as_ref()).deserialized_mut().unwrap();
    guard.release();
    {
        let dirty = state.iter_dirty_output_tables();
        assert_eq!(dirty.len(), 1);
        assert!(dirty[0].fvs() == &row(&[("v", "b")]));
    }
    assert_eq!(state.iter_dirty_output_tables().len(), 0);
    assert!(!state.output(key("a").borrow().as_ref()).is_dirty());
}

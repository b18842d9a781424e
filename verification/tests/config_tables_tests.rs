use dash_ha::config_tables::{
    parse_fv, parse_fv_comma_separated_list, parse_fv_option, parse_val, DashEniPlacementTable, DashEniTable,
    DashHAGlobalConfig, DashHAScopeConfigTable, DashHASetConfigTable, DesiredHaState, Dpu, DpuType,
    FieldValueError, HaOwner, HaScope, PinnedVDpuBfdProbeState, VDpu,
};
use dash_ha::row::FieldValues;

fn row(fields: &[(&str, &str)]) -> FieldValues {
    let mut fvs = FieldValues::new();
    for (field, value) in fields {
        fvs.insert(field.to_string(), value.as_bytes().to_vec());
    }
    fvs
}

fn dpu_fields() -> Vec<(&'static str, &'static str)> {
    vec![
        ("type", "cluster"),
        ("state", "up"),
        ("slot_id", "3"),
        ("pa_ipv4", "10.0.0.1"),
        ("pa_ipv6", "fe80::1"),
        ("npu_ipv4", "10.0.1.1"),
        ("npu_ipv6", "fe80::2"),
        ("probe_ip", "10.0.2.1"),
    ]
}

#[test]
fn dpu_row_is_read() {
    let dpu = Dpu::from_fvs(&row(&dpu_fields())).unwrap();
    assert_eq!(dpu.type_, DpuType::Cluster);
    assert_eq!(dpu.state, "up");
    assert_eq!(dpu.slot_id, "3");
    assert_eq!(dpu.pa_ipv4, "10.0.0.1");
    assert_eq!(dpu.pa_ipv6, "fe80::1");
    assert_eq!(dpu.npu_ipv4, "10.0.1.1");
    assert_eq!(dpu.npu_ipv6, "fe80::2");
    assert_eq!(dpu.probe_ip, Some("10.0.2.1".to_string()));
}

#[test]
fn optional_field_may_be_absent_empty_or_none() {
    for probe_ip in [None, Some(""), Some("none")] {
        let mut fields = dpu_fields();
        fields.pop();
        if let Some(value) = probe_ip {
            fields.push(("probe_ip", value));
        }
        assert_eq!(Dpu::from_fvs(&row(&fields)).unwrap().probe_ip, None);
    }
    let mut fields = dpu_fields();
    fields.pop();
    fields.push(("probe_ip", "None"));
    assert_eq!(Dpu::from_fvs(&row(&fields)).unwrap().probe_ip, Some("None".to_string()));
}

#[test]
fn first_missing_field_is_reported() {
    let fields: Vec<_> = dpu_fields().into_iter().filter(|(f, _)| *f != "slot_id" && *f != "npu_ipv4").collect();
    match Dpu::from_fvs(&row(&fields)) {
        Err(FieldValueError::Missing { field }) => assert_eq!(field, "slot_id"),
        other => panic!("unexpected: {:?}", other),
    }
    match Dpu::from_fvs(&FieldValues::new()) {
        Err(e) => assert_eq!(e.to_string(), "Missing field: type"),
        other => panic!("unexpected: {:?}", other),
    }
}

#[test]
fn variant_names_are_matched_exactly() {
    let mut fields = dpu_fields();
    fields[0] = ("type", "Cluster");
    match Dpu::from_fvs(&row(&fields)) {
        Err(FieldValueError::Invalid { field, data, error }) => {
            assert_eq!(field, "type");
            assert_eq!(data, "Cluster");
            assert_eq!(error, "Matching variant not found");
        }
        other => panic!("unexpected: {:?}", other),
    }
    assert_eq!(parse_val::<DpuType>("type", "local").unwrap(), DpuType::Local);
    assert_eq!(parse_val::<DpuType>("type", "external").unwrap(), DpuType::External);
    assert_eq!(parse_val::<HaOwner>("owner", "dpu").unwrap(), HaOwner::Dpu);
    assert_eq!(parse_val::<HaOwner>("owner", "switch").unwrap(), HaOwner::Switch);
    assert_eq!(parse_val::<HaScope>("scope", "dpu").unwrap(), HaScope::Dpu);
    assert_eq!(parse_val::<HaScope>("scope", "eni").unwrap(), HaScope::Eni);
    assert_eq!(parse_val::<PinnedVDpuBfdProbeState>("s", "none").unwrap(), PinnedVDpuBfdProbeState::Unspecified);
    assert_eq!(parse_val::<PinnedVDpuBfdProbeState>("s", "up").unwrap(), PinnedVDpuBfdProbeState::Up);
    assert_eq!(parse_val::<PinnedVDpuBfdProbeState>("s", "down").unwrap(), PinnedVDpuBfdProbeState::Down);
    assert_eq!(parse_val::<DesiredHaState>("s", "none").unwrap(), DesiredHaState::Unspecified);
    assert_eq!(parse_val::<DesiredHaState>("s", "dead").unwrap(), DesiredHaState::Dead);
    assert_eq!(parse_val::<DesiredHaState>("s", "active").unwrap(), DesiredHaState::Active);
    assert_eq!(parse_val::<DesiredHaState>("s", "standalone").unwrap(), DesiredHaState::Standalone);
    assert!(parse_val::<DesiredHaState>("s", "").is_err());
    assert!(parse_val::<HaScope>("s", "switch").is_err());
}

#[test]
fn vdpu_row_is_read() {
    let vdpu = VDpu::from_fvs(&row(&[("profile", "p"), ("tier", "t"), ("main_dpu_ids", "dpu0,dpu1")])).unwrap();
    assert_eq!((vdpu.profile.as_str(), vdpu.tier.as_str(), vdpu.main_dpu_ids.as_str()), ("p", "t", "dpu0,dpu1"));
    match VDpu::from_fvs(&row(&[("profile", "p"), ("main_dpu_ids", "x")])) {
        Err(FieldValueError::Missing { field }) => assert_eq!(field, "tier"),
        other => panic!("unexpected: {:?}", other),
    }
}

fn global_fields() -> Vec<(&'static str, &'static str)> {
    vec![
        ("cp_data_channel_port", "11"),
        ("dp_channel_dst_port", "65535"),
        ("dp_channel_src_port_min", "+13"),
        ("dp_channel_src_port_max", "014"),
        ("dp_channel_probe_interval_ms", "15"),
        ("dp_channel_probe_fail_threshold", "0"),
        ("dpu_bfd_probe_interval_in_ms", "18446744073709551615"),
        ("dpu_bfd_probe_multiplier", "18"),
    ]
}

#[test]
fn global_config_numbers_are_read() {
    let config = DashHAGlobalConfig::from_fvs(&row(&global_fields())).unwrap();
    assert_eq!(config.cp_data_channel_port, 11);
    assert_eq!(config.dp_channel_dst_port, 65535);
    assert_eq!(config.dp_channel_srt_port_min, 13);
    assert_eq!(config.dp_channel_src_port_max, 14);
    assert_eq!(config.dp_channel_probe_interval_ms, 15);
    assert_eq!(config.dp_channel_probe_fail_threshold, 0);
    assert_eq!(config.dpu_bfd_probe_interval_in_ms, u64::MAX);
    assert_eq!(config.dpu_bfd_probe_multiplier, 18);
}

#[test]
fn numbers_out_of_range_or_malformed_are_reported() {
    for (field, value) in [
        ("dp_channel_dst_port", "65536"),
        ("dpu_bfd_probe_multiplier", "18446744073709551616"),
        ("cp_data_channel_port", "-1"),
        ("cp_data_channel_port", ""),
        ("cp_data_channel_port", "+"),
        ("cp_data_channel_port", " 1"),
        ("cp_data_channel_port", "1_0"),
        ("dp_channel_probe_interval_ms", "0x10"),
    ] {
        let fields: Vec<_> =
            global_fields().into_iter().map(|(f, v)| if f == field { (f, value) } else { (f, v) }).collect();
        match DashHAGlobalConfig::from_fvs(&row(&fields)) {
            Err(FieldValueError::Invalid { field: reported, data, error }) => {
                assert_eq!(reported, field);
                assert_eq!(data, value);
                assert!(!error.is_empty());
            }
            other => panic!("{} = {:?}: unexpected: {:?}", field, value, other),
        }
    }
    let error = parse_val::<u16>("port", "70000").unwrap_err();
    assert_eq!(error.to_string(), "Invalid field: port = '70000' (number too large to fit in target type)");
    let error = parse_val::<u64>("n", "x").unwrap_err();
    assert_eq!(error.to_string(), "Invalid field: n = 'x' (invalid digit found in string)");
}

#[test]
fn ha_set_config_row_is_read() {
    let fields = [
        ("version", "1"),
        ("vip_v4", "10.0.0.1"),
        ("vip_v6", "fe80::1"),
        ("owner", "switch"),
        ("scope", "eni"),
        ("vdpu_ids", "vdpu0,vdpu1"),
        ("pinned_vdpu_bfd_probe_states", "up,none,down"),
        ("prefered_vdpu_id", "vdpu0"),
        ("preferred_standalone_vdpu_index", "1"),
    ];
    let config = DashHASetConfigTable::from_fvs(&row(&fields)).unwrap();
    assert_eq!(config.owner, HaOwner::Switch);
    assert_eq!(config.scope, HaScope::Eni);
    assert_eq!(config.vdpu_ids, "vdpu0,vdpu1");
    assert_eq!(
        config.pinned_vdpu_bfd_probe_states,
        vec![PinnedVDpuBfdProbeState::Up, PinnedVDpuBfdProbeState::Unspecified, PinnedVDpuBfdProbeState::Down]
    );
    assert_eq!(config.preferred_vdpu_id, "vdpu0");
    assert_eq!(config.preferred_standalone_vdpu_index, Some(1));

    let mut broken = fields;
    broken[6] = ("pinned_vdpu_bfd_probe_states", "up,sideways,bad");
    match DashHASetConfigTable::from_fvs(&row(&broken)) {
        Err(FieldValueError::Invalid { field, data, .. }) => {
            assert_eq!(field, "pinned_vdpu_bfd_probe_states");
            assert_eq!(data, "sideways");
        }
        other => panic!("unexpected: {:?}", other),
    }
    let mut broken = fields;
    broken[8] = ("preferred_standalone_vdpu_index", "one");
    assert!(matches!(
        DashHASetConfigTable::from_fvs(&row(&broken)),
        Err(FieldValueError::Invalid { field: "preferred_standalone_vdpu_index", .. })
    ));
}

#[test]
fn ha_scope_config_row_is_read() {
    let fields = [
        ("version", "2"),
        ("disabled", "true"),
        ("desired_ha_state", "standalone"),
        ("approved_pending_operation_ids", "a,,b"),
    ];
    let config = DashHAScopeConfigTable::from_fvs(&row(&fields)).unwrap();
    assert_eq!(config.version, "2");
    assert!(config.disabled);
    assert_eq!(config.desired_ha_state, DesiredHaState::Standalone);
    assert_eq!(config.approved_pending_operation_ids, vec!["a".to_string(), "".to_string(), "b".to_string()]);

    let mut other = fields;
    other[1] = ("disabled", "false");
    other[3] = ("approved_pending_operation_ids", "");
    let config = DashHAScopeConfigTable::from_fvs(&row(&other)).unwrap();
    assert!(!config.disabled);
    assert_eq!(config.approved_pending_operation_ids, vec!["".to_string()]);

    let mut broken = fields;
    broken[1] = ("disabled", "True");
    match DashHAScopeConfigTable::from_fvs(&row(&broken)) {
        Err(e) => assert_eq!(
            e.to_string(),
            "Invalid field: disabled = 'True' (provided string was not `true` or `false`)"
        ),
        other => panic!("unexpected: {:?}", other),
    }
}

#[test]
fn eni_rows_are_read() {
    let placement = DashEniPlacementTable::from_fvs(&row(&[
        ("version", "1"),
        ("eni_mac", "00:11:22:33:44:55"),
        ("ha_set_id", "set0"),
    ]))
    .unwrap();
    assert_eq!(placement.eni_mac, "00:11:22:33:44:55");
    assert_eq!(placement.ha_set_id, "set0");
    assert_eq!(placement.pinned_next_hop_index, None);
    let eni = DashEniTable::from_fvs(&row(&[("admin_state", "up"), ("ha_scope_id", "scope0")])).unwrap();
    assert_eq!((eni.admin_state.as_str(), eni.ha_scope_id.as_str()), ("up", "scope0"));
    assert!(matches!(
        DashEniTable::from_fvs(&row(&[("admin_state", "up")])),
        Err(FieldValueError::Missing { field: "ha_scope_id" })
    ));
}

#[test]
fn bytes_that_are_no_text_are_read_with_replacements() {
    let mut fvs = FieldValues::new();
    fvs.insert("state".to_string(), vec![b'u', 0xff, b'p']);
    assert_eq!(parse_fv::<String>(&fvs, "state").unwrap(), "u\u{fffd}p");
    fvs.insert("n".to_string(), "7é".as_bytes().to_vec());
    assert_eq!(parse_fv::<String>(&fvs, "n").unwrap(), "7é");
    match parse_fv::<u64>(&fvs, "n") {
        Err(FieldValueError::Invalid { data, .. }) => assert_eq!(data, "7é"),
        other => panic!("unexpected: {:?}", other),
    }
}

#[test]
fn single_fields_are_parsed() {
    let fvs = row(&[("a", "1"), ("b", ""), ("c", "x,y"), ("d", "none")]);
    assert_eq!(parse_fv::<u64>(&fvs, "a").unwrap(), 1);
    assert!(matches!(parse_fv::<u64>(&fvs, "z"), Err(FieldValueError::Missing { field: "z" })));
    assert_eq!(parse_fv_option::<u64>(&fvs, "a").unwrap(), Some(1));
    assert_eq!(parse_fv_option::<u64>(&fvs, "b").unwrap(), None);
    assert_eq!(parse_fv_option::<u64>(&fvs, "d").unwrap(), None);
    assert_eq!(parse_fv_option::<u64>(&fvs, "z").unwrap(), None);
    assert!(parse_fv_option::<u64>(&fvs, "c").is_err());
    assert_eq!(parse_fv_comma_separated_list::<String>(&fvs, "c").unwrap(), vec!["x".to_string(), "y".to_string()]);
    assert_eq!(parse_fv_comma_separated_list::<u64>(&fvs, "a").unwrap(), vec![1]);
    assert!(parse_fv_comma_separated_list::<u64>(&fvs, "b").is_err());
    assert!(matches!(
        parse_fv_comma_separated_list::<u64>(&fvs, "z"),
        Err(FieldValueError::Missing { field: "z" })
    ));
}

//! State tables whose rows are written and read field by field.

use crate::codec::{FieldValueError, FieldValueErrorView, ToFromFieldValues};
use crate::row::FieldValues;
use crate::tables::support::{
    field_spec, lemma_value_round_trip, not_writable, not_writable_spec, parse_field_value,
    to_field_value, to_value_spec, ToFromFieldValue,
};
use crate::text::{ascii_lowercase, str_eq, to_ascii_lowercase};
use vstd::prelude::*;

verus! {

/// STATE_DB::DASH_HA_SCOPE_STATE table entry schema
#[derive(Debug, Clone, PartialEq, Eq)]
pub struct DashHaScopeState {
    // Basic information
    pub creation_time_in_ms: u64,
    pub last_heartbeat_time_in_ms: u64,
    pub vip_v4: String,
    pub vip_v6: String,
    pub local_ip: String,
    pub peer_ip: String,

    // HA related state
    pub local_ha_state: String,
    pub local_ha_state_last_updated_time_in_ms: u64,
    pub local_ha_state_last_updated_reason: String,
    pub local_target_asic_ha_state: String,
    pub local_acked_asic_ha_state: String,
    pub local_target_term: u64,
    pub local_acked_term: u64,
    pub peer_ha_state: String,
    pub peer_term: u64,

    // Aggregated health signals for HA scope
    pub local_vdpu_midplane_state: PlaneState,
    pub local_vdpu_midplane_state_last_updated_time_in_ms: u64,
    pub local_vdpu_control_plane_state: PlaneState,
    pub local_vdpu_control_plane_state_last_updated_time_in_ms: u64,
    pub local_vdpu_data_plane_state: PlaneState,
    pub local_vdpu_data_plane_state_last_updated_time_in_ms: u64,
    pub local_vdpu_up_bfd_sessions_v4: Vec<String>,
    pub local_vdpu_up_bfd_sessions_v4_update_time_in_ms: u64,
    pub local_vdpu_up_bfd_sessions_v6: Vec<String>,
    pub local_vdpu_up_bfd_sessions_v6_update_time_in_ms: u64,

    // Ongoing HA operation state
    pub pending_operation_ids: Vec<String>,
    pub pending_operation_types: Vec<OperationType>,
    pub pending_operation_list_last_updated_time: u64,
    pub switchover_id: String,
    pub switchover_state: String,
    pub switchover_start_time_in_ms: String,
    pub switchover_end_time_in_ms: String,
    pub switchover_approved_time_in_ms: String,
    pub flow_sync_session_id: String,
    pub flow_sync_session_state: String,
    pub flow_sync_session_start_time_in_ms: String,
    pub flow_sync_session_target_server: String,
}

/// What a [`DashHaScopeState`] stands for.
pub struct DashHaScopeStateView {
    pub creation_time_in_ms: u64,
    pub last_heartbeat_time_in_ms: u64,
    pub vip_v4: Seq<char>,
    pub vip_v6: Seq<char>,
    pub local_ip: Seq<char>,
    pub peer_ip: Seq<char>,
    pub local_ha_state: Seq<char>,
    pub local_ha_state_last_updated_time_in_ms: u64,
    pub local_ha_state_last_updated_reason: Seq<char>,
    pub local_target_asic_ha_state: Seq<char>,
    pub local_acked_asic_ha_state: Seq<char>,
    pub local_target_term: u64,
    pub local_acked_term: u64,
    pub peer_ha_state: Seq<char>,
    pub peer_term: u64,
    pub local_vdpu_midplane_state: PlaneState,
    pub local_vdpu_midplane_state_last_updated_time_in_ms: u64,
    pub local_vdpu_control_plane_state: PlaneState,
    pub local_vdpu_control_plane_state_last_updated_time_in_ms: u64,
    pub local_vdpu_data_plane_state: PlaneState,
    pub local_vdpu_data_plane_state_last_updated_time_in_ms: u64,
    pub local_vdpu_up_bfd_sessions_v4: Seq<Seq<char>>,
    pub local_vdpu_up_bfd_sessions_v4_update_time_in_ms: u64,
    pub local_vdpu_up_bfd_sessions_v6: Seq<Seq<char>>,
    pub local_vdpu_up_bfd_sessions_v6_update_time_in_ms: u64,
    pub pending_operation_ids: Seq<Seq<char>>,
    pub pending_operation_types: Seq<OperationType>,
    pub pending_operation_list_last_updated_time: u64,
    pub switchover_id: Seq<char>,
    pub switchover_state: Seq<char>,
    pub switchover_start_time_in_ms: Seq<char>,
    pub switchover_end_time_in_ms: Seq<char>,
    pub switchover_approved_time_in_ms: Seq<char>,
    pub flow_sync_session_id: Seq<char>,
    pub flow_sync_session_state: Seq<char>,
    pub flow_sync_session_start_time_in_ms: Seq<char>,
    pub flow_sync_session_target_server: Seq<char>,
}

impl View for DashHaScopeState {
    type V = DashHaScopeStateView;

    open spec fn view(&self) -> DashHaScopeStateView {
        DashHaScopeStateView {
            creation_time_in_ms: self.creation_time_in_ms.model(),
            last_heartbeat_time_in_ms: self.last_heartbeat_time_in_ms.model(),
            vip_v4: self.vip_v4.model(),
            vip_v6: self.vip_v6.model(),
            local_ip: self.local_ip.model(),
            peer_ip: self.peer_ip.model(),
            local_ha_state: self.local_ha_state.model(),
            local_ha_state_last_updated_time_in_ms:
                self.local_ha_state_last_updated_time_in_ms.model(),
            local_ha_state_last_updated_reason: self.local_ha_state_last_updated_reason.model(),
            local_target_asic_ha_state: self.local_target_asic_ha_state.model(),
            local_acked_asic_ha_state: self.local_acked_asic_ha_state.model(),
            local_target_term: self.local_target_term.model(),
            local_acked_term: self.local_acked_term.model(),
            peer_ha_state: self.peer_ha_state.model(),
            peer_term: self.peer_term.model(),
            local_vdpu_midplane_state: self.local_vdpu_midplane_state.model(),
            local_vdpu_midplane_state_last_updated_time_in_ms:
                self.local_vdpu_midplane_state_last_updated_time_in_ms.model(),
            local_vdpu_control_plane_state: self.local_vdpu_control_plane_state.model(),
            local_vdpu_control_plane_state_last_updated_time_in_ms:
                self.local_vdpu_control_plane_state_last_updated_time_in_ms.model(),
            local_vdpu_data_plane_state: self.local_vdpu_data_plane_state.model(),
            local_vdpu_data_plane_state_last_updated_time_in_ms:
                self.local_vdpu_data_plane_state_last_updated_time_in_ms.model(),
            local_vdpu_up_bfd_sessions_v4: self.local_vdpu_up_bfd_sessions_v4.model(),
            local_vdpu_up_bfd_sessions_v4_update_time_in_ms:
                self.local_vdpu_up_bfd_sessions_v4_update_time_in_ms.model(),
            local_vdpu_up_bfd_sessions_v6: self.local_vdpu_up_bfd_sessions_v6.model(),
            local_vdpu_up_bfd_sessions_v6_update_time_in_ms:
                self.local_vdpu_up_bfd_sessions_v6_update_time_in_ms.model(),
            pending_operation_ids: self.pending_operation_ids.model(),
            pending_operation_types: self.pending_operation_types.model(),
            pending_operation_list_last_updated_time:
                self.pending_operation_list_last_updated_time.model(),
            switchover_id: self.switchover_id.model(),
            switchover_state: self.switchover_state.model(),
            switchover_start_time_in_ms: self.switchover_start_time_in_ms.model(),
            switchover_end_time_in_ms: self.switchover_end_time_in_ms.model(),
            switchover_approved_time_in_ms: self.switchover_approved_time_in_ms.model(),
            flow_sync_session_id: self.flow_sync_session_id.model(),
            flow_sync_session_state: self.flow_sync_session_state.model(),
            flow_sync_session_start_time_in_ms: self.flow_sync_session_start_time_in_ms.model(),
            flow_sync_session_target_server: self.flow_sync_session_target_server.model(),
        }
    }
}

impl DashHaScopeState {
    /// The character of a name at `i`, or a blank where the name is shorter.
    pub open spec fn char_at(name: Seq<char>, i: int) -> char {
        if i < name.len() {
            name[i]
        } else {
            ' '
        }
    }

    /// What tells the names of the fields apart: the length of a name and
    /// its characters at a few places.
    pub open spec fn name_code(name: Seq<char>) -> (nat, char, char, char) {
        (name.len(), Self::char_at(name, 5), Self::char_at(name, 6), Self::char_at(name, 28))
    }

    /// The codes of the names of the fields. No two are the same, so no two
    /// fields have the same name.
    pub proof fn lemma_name_codes()
        ensures
            Self::name_code("creation_time_in_ms"@) == (19nat, 'i', 'o', ' '),
            Self::name_code("last_heartbeat_time_in_ms"@) == (25nat, 'h', 'e', ' '),
            Self::name_code("vip_v4"@) == (6nat, '4', ' ', ' '),
            Self::name_code("vip_v6"@) == (6nat, '6', ' ', ' '),
            Self::name_code("local_ip"@) == (8nat, '_', 'i', ' '),
            Self::name_code("peer_ip"@) == (7nat, 'i', 'p', ' '),
            Self::name_code("local_ha_state"@) == (14nat, '_', 'h', ' '),
            Self::name_code("local_ha_state_last_updated_time_in_ms"@) == (38nat, '_', 'h', 't'),
            Self::name_code("local_ha_state_last_updated_reason"@) == (34nat, '_', 'h', 'r'),
            Self::name_code("local_target_asic_ha_state"@) == (26nat, '_', 't', ' '),
            Self::name_code("local_acked_asic_ha_state"@) == (25nat, '_', 'a', ' '),
            Self::name_code("local_target_term"@) == (17nat, '_', 't', ' '),
            Self::name_code("local_acked_term"@) == (16nat, '_', 'a', ' '),
            Self::name_code("peer_ha_state"@) == (13nat, 'h', 'a', ' '),
            Self::name_code("peer_term"@) == (9nat, 't', 'e', ' '),
            Self::name_code("local_vdpu_midplane_state"@) == (25nat, '_', 'v', ' '),
            Self::name_code("local_vdpu_midplane_state_last_updated_time_in_ms"@) == (
                49nat,
                '_',
                'v',
                's',
            ),
            Self::name_code("local_vdpu_control_plane_state"@) == (30nat, '_', 'v', 't'),
            Self::name_code("local_vdpu_control_plane_state_last_updated_time_in_ms"@) == (
                54nat,
                '_',
                'v',
                't',
            ),
            Self::name_code("local_vdpu_data_plane_state"@) == (27nat, '_', 'v', ' '),
            Self::name_code("local_vdpu_data_plane_state_last_updated_time_in_ms"@) == (
                51nat,
                '_',
                'v',
                'l',
            ),
            Self::name_code("local_vdpu_up_bfd_sessions_v4"@) == (29nat, '_', 'v', '4'),
            Self::name_code("local_vdpu_up_bfd_sessions_v4_update_time_in_ms"@) == (
                47nat,
                '_',
                'v',
                '4',
            ),
            Self::name_code("local_vdpu_up_bfd_sessions_v6"@) == (29nat, '_', 'v', '6'),
            Self::name_code("local_vdpu_up_bfd_sessions_v6_update_time_in_ms"@) == (
                47nat,
                '_',
                'v',
                '6',
            ),
            Self::name_code("pending_operation_ids"@) == (21nat, 'n', 'g', ' '),
            Self::name_code("pending_operation_types"@) == (23nat, 'n', 'g', ' '),
            Self::name_code("pending_operation_list_last_updated_time"@) == (40nat, 'n', 'g', 'u'),
            Self::name_code("switchover_id"@) == (13nat, 'h', 'o', ' '),
            Self::name_code("switchover_state"@) == (16nat, 'h', 'o', ' '),
            Self::name_code("switchover_start_time_in_ms"@) == (27nat, 'h', 'o', ' '),
            Self::name_code("switchover_end_time_in_ms"@) == (25nat, 'h', 'o', ' '),
            Self::name_code("switchover_approved_time_in_ms"@) == (30nat, 'h', 'o', 'm'),
            Self::name_code("flow_sync_session_id"@) == (20nat, 's', 'y', ' '),
            Self::name_code("flow_sync_session_state"@) == (23nat, 's', 'y', ' '),
            Self::name_code("flow_sync_session_start_time_in_ms"@) == (34nat, 's', 'y', '_'),
            Self::name_code("flow_sync_session_target_server"@) == (31nat, 's', 'y', 'v'),
    {
        reveal_strlit("creation_time_in_ms");
        reveal_strlit("last_heartbeat_time_in_ms");
        reveal_strlit("vip_v4");
        reveal_strlit("vip_v6");
        reveal_strlit("local_ip");
        reveal_strlit("peer_ip");
        reveal_strlit("local_ha_state");
        reveal_strlit("local_ha_state_last_updated_time_in_ms");
        reveal_strlit("local_ha_state_last_updated_reason");
        reveal_strlit("local_target_asic_ha_state");
        reveal_strlit("local_acked_asic_ha_state");
        reveal_strlit("local_target_term");
        reveal_strlit("local_acked_term");
        reveal_strlit("peer_ha_state");
        reveal_strlit("peer_term");
        reveal_strlit("local_vdpu_midplane_state");
        reveal_strlit("local_vdpu_midplane_state_last_updated_time_in_ms");
        reveal_strlit("local_vdpu_control_plane_state");
        reveal_strlit("local_vdpu_control_plane_state_last_updated_time_in_ms");
        reveal_strlit("local_vdpu_data_plane_state");
        reveal_strlit("local_vdpu_data_plane_state_last_updated_time_in_ms");
        reveal_strlit("local_vdpu_up_bfd_sessions_v4");
        reveal_strlit("local_vdpu_up_bfd_sessions_v4_update_time_in_ms");
        reveal_strlit("local_vdpu_up_bfd_sessions_v6");
        reveal_strlit("local_vdpu_up_bfd_sessions_v6_update_time_in_ms");
        reveal_strlit("pending_operation_ids");
        reveal_strlit("pending_operation_types");
        reveal_strlit("pending_operation_list_last_updated_time");
        reveal_strlit("switchover_id");
        reveal_strlit("switchover_state");
        reveal_strlit("switchover_start_time_in_ms");
        reveal_strlit("switchover_end_time_in_ms");
        reveal_strlit("switchover_approved_time_in_ms");
        reveal_strlit("flow_sync_session_id");
        reveal_strlit("flow_sync_session_state");
        reveal_strlit("flow_sync_session_start_time_in_ms");
        reveal_strlit("flow_sync_session_target_server");
    }

    /// The row that a state is written as: one field for every field of the
    /// struct, under the field's name.
    pub open spec fn row_of(v: DashHaScopeStateView) -> Map<Seq<char>, Seq<u8>> {
        Map::<Seq<char>, Seq<u8>>::empty().insert(
            "creation_time_in_ms"@,
            to_value_spec::<u64>(v.creation_time_in_ms),
        ).insert(
            "last_heartbeat_time_in_ms"@,
            to_value_spec::<u64>(v.last_heartbeat_time_in_ms),
        ).insert(
            "vip_v4"@,
            to_value_spec::<String>(v.vip_v4),
        ).insert(
            "vip_v6"@,
            to_value_spec::<String>(v.vip_v6),
        ).insert(
            "local_ip"@,
            to_value_spec::<String>(v.local_ip),
        ).insert(
            "peer_ip"@,
            to_value_spec::<String>(v.peer_ip),
        ).insert(
            "local_ha_state"@,
            to_value_spec::<String>(v.local_ha_state),
        ).insert(
            "local_ha_state_last_updated_time_in_ms"@,
            to_value_spec::<u64>(v.local_ha_state_last_updated_time_in_ms),
        ).insert(
            "local_ha_state_last_updated_reason"@,
            to_value_spec::<String>(v.local_ha_state_last_updated_reason),
        ).insert(
            "local_target_asic_ha_state"@,
            to_value_spec::<String>(v.local_target_asic_ha_state),
        ).insert(
            "local_acked_asic_ha_state"@,
            to_value_spec::<String>(v.local_acked_asic_ha_state),
        ).insert(
            "local_target_term"@,
            to_value_spec::<u64>(v.local_target_term),
        ).insert(
            "local_acked_term"@,
            to_value_spec::<u64>(v.local_acked_term),
        ).insert(
            "peer_ha_state"@,
            to_value_spec::<String>(v.peer_ha_state),
        ).insert(
            "peer_term"@,
            to_value_spec::<u64>(v.peer_term),
        ).insert(
            "local_vdpu_midplane_state"@,
            to_value_spec::<PlaneState>(v.local_vdpu_midplane_state),
        ).insert(
            "local_vdpu_midplane_state_last_updated_time_in_ms"@,
            to_value_spec::<u64>(v.local_vdpu_midplane_state_last_updated_time_in_ms),
        ).insert(
            "local_vdpu_control_plane_state"@,
            to_value_spec::<PlaneState>(v.local_vdpu_control_plane_state),
        ).insert(
            "local_vdpu_control_plane_state_last_updated_time_in_ms"@,
            to_value_spec::<u64>(v.local_vdpu_control_plane_state_last_updated_time_in_ms),
        ).insert(
            "local_vdpu_data_plane_state"@,
            to_value_spec::<PlaneState>(v.local_vdpu_data_plane_state),
        ).insert(
            "local_vdpu_data_plane_state_last_updated_time_in_ms"@,
            to_value_spec::<u64>(v.local_vdpu_data_plane_state_last_updated_time_in_ms),
        ).insert(
            "local_vdpu_up_bfd_sessions_v4"@,
            to_value_spec::<Vec<String>>(v.local_vdpu_up_bfd_sessions_v4),
        ).insert(
            "local_vdpu_up_bfd_sessions_v4_update_time_in_ms"@,
            to_value_spec::<u64>(v.local_vdpu_up_bfd_sessions_v4_update_time_in_ms),
        ).insert(
            "local_vdpu_up_bfd_sessions_v6"@,
            to_value_spec::<Vec<String>>(v.local_vdpu_up_bfd_sessions_v6),
        ).insert(
            "local_vdpu_up_bfd_sessions_v6_update_time_in_ms"@,
            to_value_spec::<u64>(v.local_vdpu_up_bfd_sessions_v6_update_time_in_ms),
        ).insert(
            "pending_operation_ids"@,
            to_value_spec::<Vec<String>>(v.pending_operation_ids),
        ).insert(
            "pending_operation_types"@,
            to_value_spec::<Vec<OperationType>>(v.pending_operation_types),
        ).insert(
            "pending_operation_list_last_updated_time"@,
            to_value_spec::<u64>(v.pending_operation_list_last_updated_time),
        ).insert(
            "switchover_id"@,
            to_value_spec::<String>(v.switchover_id),
        ).insert(
            "switchover_state"@,
            to_value_spec::<String>(v.switchover_state),
        ).insert(
            "switchover_start_time_in_ms"@,
            to_value_spec::<String>(v.switchover_start_time_in_ms),
        ).insert(
            "switchover_end_time_in_ms"@,
            to_value_spec::<String>(v.switchover_end_time_in_ms),
        ).insert(
            "switchover_approved_time_in_ms"@,
            to_value_spec::<String>(v.switchover_approved_time_in_ms),
        ).insert(
            "flow_sync_session_id"@,
            to_value_spec::<String>(v.flow_sync_session_id),
        ).insert(
            "flow_sync_session_state"@,
            to_value_spec::<String>(v.flow_sync_session_state),
        ).insert(
            "flow_sync_session_start_time_in_ms"@,
            to_value_spec::<String>(v.flow_sync_session_start_time_in_ms),
        ).insert(
            "flow_sync_session_target_server"@,
            to_value_spec::<String>(v.flow_sync_session_target_server),
        )
    }
}

impl ToFromFieldValues for DashHaScopeState {
    open spec fn to_row_spec(v: DashHaScopeStateView) -> Result<
        Map<Seq<char>, Seq<u8>>,
        FieldValueErrorView,
    > {
        if !<Vec<String>>::writable(v.local_vdpu_up_bfd_sessions_v4) {
            Err(not_writable_spec::<Vec<String>>("local_vdpu_up_bfd_sessions_v4"@, v.local_vdpu_up_bfd_sessions_v4))
        } else if !<Vec<String>>::writable(v.local_vdpu_up_bfd_sessions_v6) {
            Err(not_writable_spec::<Vec<String>>("local_vdpu_up_bfd_sessions_v6"@, v.local_vdpu_up_bfd_sessions_v6))
        } else if !<Vec<String>>::writable(v.pending_operation_ids) {
            Err(not_writable_spec::<Vec<String>>("pending_operation_ids"@, v.pending_operation_ids))
        } else if !<Vec<OperationType>>::writable(v.pending_operation_types) {
            Err(not_writable_spec::<Vec<OperationType>>("pending_operation_types"@, v.pending_operation_types))
        } else {
            Ok(Self::row_of(v))
        }
    }

    open spec fn from_row_spec(row: Map<Seq<char>, Seq<u8>>) -> Result<
        DashHaScopeStateView,
        FieldValueErrorView,
    > {
        let creation_time_in_ms = field_spec::<u64>(row, "creation_time_in_ms"@);
        let last_heartbeat_time_in_ms = field_spec::<u64>(row, "last_heartbeat_time_in_ms"@);
        let vip_v4 = field_spec::<String>(row, "vip_v4"@);
        let vip_v6 = field_spec::<String>(row, "vip_v6"@);
        let local_ip = field_spec::<String>(row, "local_ip"@);
        let peer_ip = field_spec::<String>(row, "peer_ip"@);
        let local_ha_state = field_spec::<String>(row, "local_ha_state"@);
        let local_ha_state_last_updated_time_in_ms = field_spec::<u64>(
            row,
            "local_ha_state_last_updated_time_in_ms"@,
        );
        let local_ha_state_last_updated_reason = field_spec::<String>(
            row,
            "local_ha_state_last_updated_reason"@,
        );
        let local_target_asic_ha_state = field_spec::<String>(row, "local_target_asic_ha_state"@);
        let local_acked_asic_ha_state = field_spec::<String>(row, "local_acked_asic_ha_state"@);
        let local_target_term = field_spec::<u64>(row, "local_target_term"@);
        let local_acked_term = field_spec::<u64>(row, "local_acked_term"@);
        let peer_ha_state = field_spec::<String>(row, "peer_ha_state"@);
        let peer_term = field_spec::<u64>(row, "peer_term"@);
        let local_vdpu_midplane_state = field_spec::<PlaneState>(row, "local_vdpu_midplane_state"@);
        let local_vdpu_midplane_state_last_updated_time_in_ms = field_spec::<u64>(
            row,
            "local_vdpu_midplane_state_last_updated_time_in_ms"@,
        );
        let local_vdpu_control_plane_state = field_spec::<PlaneState>(
            row,
            "local_vdpu_control_plane_state"@,
        );
        let local_vdpu_control_plane_state_last_updated_time_in_ms = field_spec::<u64>(
            row,
            "local_vdpu_control_plane_state_last_updated_time_in_ms"@,
        );
        let local_vdpu_data_plane_state = field_spec::<PlaneState>(
            row,
            "local_vdpu_data_plane_state"@,
        );
        let local_vdpu_data_plane_state_last_updated_time_in_ms = field_spec::<u64>(
            row,
            "local_vdpu_data_plane_state_last_updated_time_in_ms"@,
        );
        let local_vdpu_up_bfd_sessions_v4 = field_spec::<Vec<String>>(
            row,
            "local_vdpu_up_bfd_sessions_v4"@,
        );
        let local_vdpu_up_bfd_sessions_v4_update_time_in_ms = field_spec::<u64>(
            row,
            "local_vdpu_up_bfd_sessions_v4_update_time_in_ms"@,
        );
        let local_vdpu_up_bfd_sessions_v6 = field_spec::<Vec<String>>(
            row,
            "local_vdpu_up_bfd_sessions_v6"@,
        );
        let local_vdpu_up_bfd_sessions_v6_update_time_in_ms = field_spec::<u64>(
            row,
            "local_vdpu_up_bfd_sessions_v6_update_time_in_ms"@,
        );
        let pending_operation_ids = field_spec::<Vec<String>>(row, "pending_operation_ids"@);
        let pending_operation_types = field_spec::<Vec<OperationType>>(
            row,
            "pending_operation_types"@,
        );
        let pending_operation_list_last_updated_time = field_spec::<u64>(
            row,
            "pending_operation_list_last_updated_time"@,
        );
        let switchover_id = field_spec::<String>(row, "switchover_id"@);
        let switchover_state = field_spec::<String>(row, "switchover_state"@);
        let switchover_start_time_in_ms = field_spec::<String>(row, "switchover_start_time_in_ms"@);
        let switchover_end_time_in_ms = field_spec::<String>(row, "switchover_end_time_in_ms"@);
        let switchover_approved_time_in_ms = field_spec::<String>(
            row,
            "switchover_approved_time_in_ms"@,
        );
        let flow_sync_session_id = field_spec::<String>(row, "flow_sync_session_id"@);
        let flow_sync_session_state = field_spec::<String>(row, "flow_sync_session_state"@);
        let flow_sync_session_start_time_in_ms = field_spec::<String>(
            row,
            "flow_sync_session_start_time_in_ms"@,
        );
        let flow_sync_session_target_server = field_spec::<String>(
            row,
            "flow_sync_session_target_server"@,
        );
        if creation_time_in_ms is Err {
            Err(creation_time_in_ms->Err_0)
        } else if last_heartbeat_time_in_ms is Err {
            Err(last_heartbeat_time_in_ms->Err_0)
        } else if vip_v4 is Err {
            Err(vip_v4->Err_0)
        } else if vip_v6 is Err {
            Err(vip_v6->Err_0)
        } else if local_ip is Err {
            Err(local_ip->Err_0)
        } else if peer_ip is Err {
            Err(peer_ip->Err_0)
        } else if local_ha_state is Err {
            Err(local_ha_state->Err_0)
        } else if local_ha_state_last_updated_time_in_ms is Err {
            Err(local_ha_state_last_updated_time_in_ms->Err_0)
        } else if local_ha_state_last_updated_reason is Err {
            Err(local_ha_state_last_updated_reason->Err_0)
        } else if local_target_asic_ha_state is Err {
            Err(local_target_asic_ha_state->Err_0)
        } else if local_acked_asic_ha_state is Err {
            Err(local_acked_asic_ha_state->Err_0)
        } else if local_target_term is Err {
            Err(local_target_term->Err_0)
        } else if local_acked_term is Err {
            Err(local_acked_term->Err_0)
        } else if peer_ha_state is Err {
            Err(peer_ha_state->Err_0)
        } else if peer_term is Err {
            Err(peer_term->Err_0)
        } else if local_vdpu_midplane_state is Err {
            Err(local_vdpu_midplane_state->Err_0)
        } else if local_vdpu_midplane_state_last_updated_time_in_ms is Err {
            Err(local_vdpu_midplane_state_last_updated_time_in_ms->Err_0)
        } else if local_vdpu_control_plane_state is Err {
            Err(local_vdpu_control_plane_state->Err_0)
        } else if local_vdpu_control_plane_state_last_updated_time_in_ms is Err {
            Err(local_vdpu_control_plane_state_last_updated_time_in_ms->Err_0)
        } else if local_vdpu_data_plane_state is Err {
            Err(local_vdpu_data_plane_state->Err_0)
        } else if local_vdpu_data_plane_state_last_updated_time_in_ms is Err {
            Err(local_vdpu_data_plane_state_last_updated_time_in_ms->Err_0)
        } else if local_vdpu_up_bfd_sessions_v4 is Err {
            Err(local_vdpu_up_bfd_sessions_v4->Err_0)
        } else if local_vdpu_up_bfd_sessions_v4_update_time_in_ms is Err {
            Err(local_vdpu_up_bfd_sessions_v4_update_time_in_ms->Err_0)
        } else if local_vdpu_up_bfd_sessions_v6 is Err {
            Err(local_vdpu_up_bfd_sessions_v6->Err_0)
        } else if local_vdpu_up_bfd_sessions_v6_update_time_in_ms is Err {
            Err(local_vdpu_up_bfd_sessions_v6_update_time_in_ms->Err_0)
        } else if pending_operation_ids is Err {
            Err(pending_operation_ids->Err_0)
        } else if pending_operation_types is Err {
            Err(pending_operation_types->Err_0)
        } else if pending_operation_list_last_updated_time is Err {
            Err(pending_operation_list_last_updated_time->Err_0)
        } else if switchover_id is Err {
            Err(switchover_id->Err_0)
        } else if switchover_state is Err {
            Err(switchover_state->Err_0)
        } else if switchover_start_time_in_ms is Err {
            Err(switchover_start_time_in_ms->Err_0)
        } else if switchover_end_time_in_ms is Err {
            Err(switchover_end_time_in_ms->Err_0)
        } else if switchover_approved_time_in_ms is Err {
            Err(switchover_approved_time_in_ms->Err_0)
        } else if flow_sync_session_id is Err {
            Err(flow_sync_session_id->Err_0)
        } else if flow_sync_session_state is Err {
            Err(flow_sync_session_state->Err_0)
        } else if flow_sync_session_start_time_in_ms is Err {
            Err(flow_sync_session_start_time_in_ms->Err_0)
        } else if flow_sync_session_target_server is Err {
            Err(flow_sync_session_target_server->Err_0)
        } else {
            Ok(
                DashHaScopeStateView {
                    creation_time_in_ms: creation_time_in_ms->Ok_0,
                    last_heartbeat_time_in_ms: last_heartbeat_time_in_ms->Ok_0,
                    vip_v4: vip_v4->Ok_0,
                    vip_v6: vip_v6->Ok_0,
                    local_ip: local_ip->Ok_0,
                    peer_ip: peer_ip->Ok_0,
                    local_ha_state: local_ha_state->Ok_0,
                    local_ha_state_last_updated_time_in_ms:
                        local_ha_state_last_updated_time_in_ms->Ok_0,
                    local_ha_state_last_updated_reason: local_ha_state_last_updated_reason->Ok_0,
                    local_target_asic_ha_state: local_target_asic_ha_state->Ok_0,
                    local_acked_asic_ha_state: local_acked_asic_ha_state->Ok_0,
                    local_target_term: local_target_term->Ok_0,
                    local_acked_term: local_acked_term->Ok_0,
                    peer_ha_state: peer_ha_state->Ok_0,
                    peer_term: peer_term->Ok_0,
                    local_vdpu_midplane_state: local_vdpu_midplane_state->Ok_0,
                    local_vdpu_midplane_state_last_updated_time_in_ms:
                        local_vdpu_midplane_state_last_updated_time_in_ms->Ok_0,
                    local_vdpu_control_plane_state: local_vdpu_control_plane_state->Ok_0,
                    local_vdpu_control_plane_state_last_updated_time_in_ms:
                        local_vdpu_control_plane_state_last_updated_time_in_ms->Ok_0,
                    local_vdpu_data_plane_state: local_vdpu_data_plane_state->Ok_0,
                    local_vdpu_data_plane_state_last_updated_time_in_ms:
                        local_vdpu_data_plane_state_last_updated_time_in_ms->Ok_0,
                    local_vdpu_up_bfd_sessions_v4: local_vdpu_up_bfd_sessions_v4->Ok_0,
                    local_vdpu_up_bfd_sessions_v4_update_time_in_ms:
                        local_vdpu_up_bfd_sessions_v4_update_time_in_ms->Ok_0,
                    local_vdpu_up_bfd_sessions_v6: local_vdpu_up_bfd_sessions_v6->Ok_0,
                    local_vdpu_up_bfd_sessions_v6_update_time_in_ms:
                        local_vdpu_up_bfd_sessions_v6_update_time_in_ms->Ok_0,
                    pending_operation_ids: pending_operation_ids->Ok_0,
                    pending_operation_types: pending_operation_types->Ok_0,
                    pending_operation_list_last_updated_time:
                        pending_operation_list_last_updated_time->Ok_0,
                    switchover_id: switchover_id->Ok_0,
                    switchover_state: switchover_state->Ok_0,
                    switchover_start_time_in_ms: switchover_start_time_in_ms->Ok_0,
                    switchover_end_time_in_ms: switchover_end_time_in_ms->Ok_0,
                    switchover_approved_time_in_ms: switchover_approved_time_in_ms->Ok_0,
                    flow_sync_session_id: flow_sync_session_id->Ok_0,
                    flow_sync_session_state: flow_sync_session_state->Ok_0,
                    flow_sync_session_start_time_in_ms: flow_sync_session_start_time_in_ms->Ok_0,
                    flow_sync_session_target_server: flow_sync_session_target_server->Ok_0,
                },
            )
        }
    }

    proof fn lemma_round_trip(v: DashHaScopeStateView) {
        Self::lemma_name_codes();
        lemma_value_round_trip::<u64>(v.creation_time_in_ms);
        lemma_value_round_trip::<u64>(v.last_heartbeat_time_in_ms);
        lemma_value_round_trip::<String>(v.vip_v4);
        lemma_value_round_trip::<String>(v.vip_v6);
        lemma_value_round_trip::<String>(v.local_ip);
        lemma_value_round_trip::<String>(v.peer_ip);
        lemma_value_round_trip::<String>(v.local_ha_state);
        lemma_value_round_trip::<u64>(v.local_ha_state_last_updated_time_in_ms);
        lemma_value_round_trip::<String>(v.local_ha_state_last_updated_reason);
        lemma_value_round_trip::<String>(v.local_target_asic_ha_state);
        lemma_value_round_trip::<String>(v.local_acked_asic_ha_state);
        lemma_value_round_trip::<u64>(v.local_target_term);
        lemma_value_round_trip::<u64>(v.local_acked_term);
        lemma_value_round_trip::<String>(v.peer_ha_state);
        lemma_value_round_trip::<u64>(v.peer_term);
        lemma_value_round_trip::<PlaneState>(v.local_vdpu_midplane_state);
        lemma_value_round_trip::<u64>(v.local_vdpu_midplane_state_last_updated_time_in_ms);
        lemma_value_round_trip::<PlaneState>(v.local_vdpu_control_plane_state);
        lemma_value_round_trip::<u64>(v.local_vdpu_control_plane_state_last_updated_time_in_ms);
        lemma_value_round_trip::<PlaneState>(v.local_vdpu_data_plane_state);
        lemma_value_round_trip::<u64>(v.local_vdpu_data_plane_state_last_updated_time_in_ms);
        lemma_value_round_trip::<Vec<String>>(v.local_vdpu_up_bfd_sessions_v4);
        lemma_value_round_trip::<u64>(v.local_vdpu_up_bfd_sessions_v4_update_time_in_ms);
        lemma_value_round_trip::<Vec<String>>(v.local_vdpu_up_bfd_sessions_v6);
        lemma_value_round_trip::<u64>(v.local_vdpu_up_bfd_sessions_v6_update_time_in_ms);
        lemma_value_round_trip::<Vec<String>>(v.pending_operation_ids);
        lemma_value_round_trip::<Vec<OperationType>>(v.pending_operation_types);
        lemma_value_round_trip::<u64>(v.pending_operation_list_last_updated_time);
        lemma_value_round_trip::<String>(v.switchover_id);
        lemma_value_round_trip::<String>(v.switchover_state);
        lemma_value_round_trip::<String>(v.switchover_start_time_in_ms);
        lemma_value_round_trip::<String>(v.switchover_end_time_in_ms);
        lemma_value_round_trip::<String>(v.switchover_approved_time_in_ms);
        lemma_value_round_trip::<String>(v.flow_sync_session_id);
        lemma_value_round_trip::<String>(v.flow_sync_session_state);
        lemma_value_round_trip::<String>(v.flow_sync_session_start_time_in_ms);
        lemma_value_round_trip::<String>(v.flow_sync_session_target_server);
    }

    fn to_field_values(&self) -> (r: Result<FieldValues, FieldValueError>) {
        if !self.local_vdpu_up_bfd_sessions_v4.is_writable() {
            return Err(not_writable("local_vdpu_up_bfd_sessions_v4", &self.local_vdpu_up_bfd_sessions_v4));
        }
        if !self.local_vdpu_up_bfd_sessions_v6.is_writable() {
            return Err(not_writable("local_vdpu_up_bfd_sessions_v6", &self.local_vdpu_up_bfd_sessions_v6));
        }
        if !self.pending_operation_ids.is_writable() {
            return Err(not_writable("pending_operation_ids", &self.pending_operation_ids));
        }
        if !self.pending_operation_types.is_writable() {
            return Err(not_writable("pending_operation_types", &self.pending_operation_types));
        }
        let mut fvs = FieldValues::new();
        fvs.insert("creation_time_in_ms".to_owned(), to_field_value(&self.creation_time_in_ms));
        fvs.insert(
            "last_heartbeat_time_in_ms".to_owned(),
            to_field_value(&self.last_heartbeat_time_in_ms),
        );
        fvs.insert("vip_v4".to_owned(), to_field_value(&self.vip_v4));
        fvs.insert("vip_v6".to_owned(), to_field_value(&self.vip_v6));
        fvs.insert("local_ip".to_owned(), to_field_value(&self.local_ip));
        fvs.insert("peer_ip".to_owned(), to_field_value(&self.peer_ip));
        fvs.insert("local_ha_state".to_owned(), to_field_value(&self.local_ha_state));
        fvs.insert(
            "local_ha_state_last_updated_time_in_ms".to_owned(),
            to_field_value(&self.local_ha_state_last_updated_time_in_ms),
        );
        fvs.insert(
            "local_ha_state_last_updated_reason".to_owned(),
            to_field_value(&self.local_ha_state_last_updated_reason),
        );
        fvs.insert(
            "local_target_asic_ha_state".to_owned(),
            to_field_value(&self.local_target_asic_ha_state),
        );
        fvs.insert(
            "local_acked_asic_ha_state".to_owned(),
            to_field_value(&self.local_acked_asic_ha_state),
        );
        fvs.insert("local_target_term".to_owned(), to_field_value(&self.local_target_term));
        fvs.insert("local_acked_term".to_owned(), to_field_value(&self.local_acked_term));
        fvs.insert("peer_ha_state".to_owned(), to_field_value(&self.peer_ha_state));
        fvs.insert("peer_term".to_owned(), to_field_value(&self.peer_term));
        fvs.insert(
            "local_vdpu_midplane_state".to_owned(),
            to_field_value(&self.local_vdpu_midplane_state),
        );
        fvs.insert(
            "local_vdpu_midplane_state_last_updated_time_in_ms".to_owned(),
            to_field_value(&self.local_vdpu_midplane_state_last_updated_time_in_ms),
        );
        fvs.insert(
            "local_vdpu_control_plane_state".to_owned(),
            to_field_value(&self.local_vdpu_control_plane_state),
        );
        fvs.insert(
            "local_vdpu_control_plane_state_last_updated_time_in_ms".to_owned(),
            to_field_value(&self.local_vdpu_control_plane_state_last_updated_time_in_ms),
        );
        fvs.insert(
            "local_vdpu_data_plane_state".to_owned(),
            to_field_value(&self.local_vdpu_data_plane_state),
        );
        fvs.insert(
            "local_vdpu_data_plane_state_last_updated_time_in_ms".to_owned(),
            to_field_value(&self.local_vdpu_data_plane_state_last_updated_time_in_ms),
        );
        fvs.insert(
            "local_vdpu_up_bfd_sessions_v4".to_owned(),
            to_field_value(&self.local_vdpu_up_bfd_sessions_v4),
        );
        fvs.insert(
            "local_vdpu_up_bfd_sessions_v4_update_time_in_ms".to_owned(),
            to_field_value(&self.local_vdpu_up_bfd_sessions_v4_update_time_in_ms),
        );
        fvs.insert(
            "local_vdpu_up_bfd_sessions_v6".to_owned(),
            to_field_value(&self.local_vdpu_up_bfd_sessions_v6),
        );
        fvs.insert(
            "local_vdpu_up_bfd_sessions_v6_update_time_in_ms".to_owned(),
            to_field_value(&self.local_vdpu_up_bfd_sessions_v6_update_time_in_ms),
        );
        fvs.insert("pending_operation_ids".to_owned(), to_field_value(&self.pending_operation_ids));
        fvs.insert(
            "pending_operation_types".to_owned(),
            to_field_value(&self.pending_operation_types),
        );
        fvs.insert(
            "pending_operation_list_last_updated_time".to_owned(),
            to_field_value(&self.pending_operation_list_last_updated_time),
        );
        fvs.insert("switchover_id".to_owned(), to_field_value(&self.switchover_id));
        fvs.insert("switchover_state".to_owned(), to_field_value(&self.switchover_state));
        fvs.insert(
            "switchover_start_time_in_ms".to_owned(),
            to_field_value(&self.switchover_start_time_in_ms),
        );
        fvs.insert(
            "switchover_end_time_in_ms".to_owned(),
            to_field_value(&self.switchover_end_time_in_ms),
        );
        fvs.insert(
            "switchover_approved_time_in_ms".to_owned(),
            to_field_value(&self.switchover_approved_time_in_ms),
        );
        fvs.insert("flow_sync_session_id".to_owned(), to_field_value(&self.flow_sync_session_id));
        fvs.insert(
            "flow_sync_session_state".to_owned(),
            to_field_value(&self.flow_sync_session_state),
        );
        fvs.insert(
            "flow_sync_session_start_time_in_ms".to_owned(),
            to_field_value(&self.flow_sync_session_start_time_in_ms),
        );
        fvs.insert(
            "flow_sync_session_target_server".to_owned(),
            to_field_value(&self.flow_sync_session_target_server),
        );
        Ok(fvs)
    }

    fn from_field_values(fvs: &FieldValues) -> (r: Result<Self, FieldValueError>) {
        let creation_time_in_ms = parse_field_value::<u64>("creation_time_in_ms", fvs)?;
        let last_heartbeat_time_in_ms = parse_field_value::<u64>("last_heartbeat_time_in_ms", fvs)?;
        let vip_v4 = parse_field_value::<String>("vip_v4", fvs)?;
        let vip_v6 = parse_field_value::<String>("vip_v6", fvs)?;
        let local_ip = parse_field_value::<String>("local_ip", fvs)?;
        let peer_ip = parse_field_value::<String>("peer_ip", fvs)?;
        let local_ha_state = parse_field_value::<String>("local_ha_state", fvs)?;
        let local_ha_state_last_updated_time_in_ms = parse_field_value::<u64>(
            "local_ha_state_last_updated_time_in_ms",
            fvs,
        )?;
        let local_ha_state_last_updated_reason = parse_field_value::<String>(
            "local_ha_state_last_updated_reason",
            fvs,
        )?;
        let local_target_asic_ha_state = parse_field_value::<String>(
            "local_target_asic_ha_state",
            fvs,
        )?;
        let local_acked_asic_ha_state = parse_field_value::<String>(
            "local_acked_asic_ha_state",
            fvs,
        )?;
        let local_target_term = parse_field_value::<u64>("local_target_term", fvs)?;
        let local_acked_term = parse_field_value::<u64>("local_acked_term", fvs)?;
        let peer_ha_state = parse_field_value::<String>("peer_ha_state", fvs)?;
        let peer_term = parse_field_value::<u64>("peer_term", fvs)?;
        let local_vdpu_midplane_state = parse_field_value::<PlaneState>(
            "local_vdpu_midplane_state",
            fvs,
        )?;
        let local_vdpu_midplane_state_last_updated_time_in_ms = parse_field_value::<u64>(
            "local_vdpu_midplane_state_last_updated_time_in_ms",
            fvs,
        )?;
        let local_vdpu_control_plane_state = parse_field_value::<PlaneState>(
            "local_vdpu_control_plane_state",
            fvs,
        )?;
        let local_vdpu_control_plane_state_last_updated_time_in_ms = parse_field_value::<u64>(
            "local_vdpu_control_plane_state_last_updated_time_in_ms",
            fvs,
        )?;
        let local_vdpu_data_plane_state = parse_field_value::<PlaneState>(
            "local_vdpu_data_plane_state",
            fvs,
        )?;
        let local_vdpu_data_plane_state_last_updated_time_in_ms = parse_field_value::<u64>(
            "local_vdpu_data_plane_state_last_updated_time_in_ms",
            fvs,
        )?;
        let local_vdpu_up_bfd_sessions_v4 = parse_field_value::<Vec<String>>(
            "local_vdpu_up_bfd_sessions_v4",
            fvs,
        )?;
        let local_vdpu_up_bfd_sessions_v4_update_time_in_ms = parse_field_value::<u64>(
            "local_vdpu_up_bfd_sessions_v4_update_time_in_ms",
            fvs,
        )?;
        let local_vdpu_up_bfd_sessions_v6 = parse_field_value::<Vec<String>>(
            "local_vdpu_up_bfd_sessions_v6",
            fvs,
        )?;
        let local_vdpu_up_bfd_sessions_v6_update_time_in_ms = parse_field_value::<u64>(
            "local_vdpu_up_bfd_sessions_v6_update_time_in_ms",
            fvs,
        )?;
        let pending_operation_ids = parse_field_value::<Vec<String>>("pending_operation_ids", fvs)?;
        let pending_operation_types = parse_field_value::<Vec<OperationType>>(
            "pending_operation_types",
            fvs,
        )?;
        let pending_operation_list_last_updated_time = parse_field_value::<u64>(
            "pending_operation_list_last_updated_time",
            fvs,
        )?;
        let switchover_id = parse_field_value::<String>("switchover_id", fvs)?;
        let switchover_state = parse_field_value::<String>("switchover_state", fvs)?;
        let switchover_start_time_in_ms = parse_field_value::<String>(
            "switchover_start_time_in_ms",
            fvs,
        )?;
        let switchover_end_time_in_ms = parse_field_value::<String>(
            "switchover_end_time_in_ms",
            fvs,
        )?;
        let switchover_approved_time_in_ms = parse_field_value::<String>(
            "switchover_approved_time_in_ms",
            fvs,
        )?;
        let flow_sync_session_id = parse_field_value::<String>("flow_sync_session_id", fvs)?;
        let flow_sync_session_state = parse_field_value::<String>("flow_sync_session_state", fvs)?;
        let flow_sync_session_start_time_in_ms = parse_field_value::<String>(
            "flow_sync_session_start_time_in_ms",
            fvs,
        )?;
        let flow_sync_session_target_server = parse_field_value::<String>(
            "flow_sync_session_target_server",
            fvs,
        )?;
        Ok(DashHaScopeState {
            creation_time_in_ms,
            last_heartbeat_time_in_ms,
            vip_v4,
            vip_v6,
            local_ip,
            peer_ip,
            local_ha_state,
            local_ha_state_last_updated_time_in_ms,
            local_ha_state_last_updated_reason,
            local_target_asic_ha_state,
            local_acked_asic_ha_state,
            local_target_term,
            local_acked_term,
            peer_ha_state,
            peer_term,
            local_vdpu_midplane_state,
            local_vdpu_midplane_state_last_updated_time_in_ms,
            local_vdpu_control_plane_state,
            local_vdpu_control_plane_state_last_updated_time_in_ms,
            local_vdpu_data_plane_state,
            local_vdpu_data_plane_state_last_updated_time_in_ms,
            local_vdpu_up_bfd_sessions_v4,
            local_vdpu_up_bfd_sessions_v4_update_time_in_ms,
            local_vdpu_up_bfd_sessions_v6,
            local_vdpu_up_bfd_sessions_v6_update_time_in_ms,
            pending_operation_ids,
            pending_operation_types,
            pending_operation_list_last_updated_time,
            switchover_id,
            switchover_state,
            switchover_start_time_in_ms,
            switchover_end_time_in_ms,
            switchover_approved_time_in_ms,
            flow_sync_session_id,
            flow_sync_session_state,
            flow_sync_session_start_time_in_ms,
            flow_sync_session_target_server,
        })
    }
}

/// The state of one plane of a vDPU.
#[derive(Debug, Clone, Copy, PartialEq, Eq, Structural)]
pub enum PlaneState {
    Unknown,
    Up,
    Down,
}

/// A variant is written as its name in lower case, and read from its name
/// in any mix of upper and lower case. An error shows the text in lower case.
impl ToFromFieldValue for PlaneState {
    type Model = PlaneState;

    open spec fn model(&self) -> PlaneState {
        *self
    }

    open spec fn to_text(v: PlaneState) -> Seq<char> {
        match v {
            PlaneState::Unknown => "unknown"@,
            PlaneState::Up => "up"@,
            PlaneState::Down => "down"@,
        }
    }

    open spec fn from_text(s: Seq<char>) -> Option<PlaneState> {
        let lower = ascii_lowercase(s);
        if lower == "unknown"@ {
            Some(PlaneState::Unknown)
        } else if lower == "up"@ {
            Some(PlaneState::Up)
        } else if lower == "down"@ {
            Some(PlaneState::Down)
        } else {
            None
        }
    }

    open spec fn error_text(s: Seq<char>) -> Seq<char> {
        "expected one of: unknown, up, down"@
    }

    open spec fn error_data(s: Seq<char>) -> Seq<char> {
        ascii_lowercase(s)
    }

    open spec fn writable(v: PlaneState) -> bool {
        true
    }

    proof fn lemma_round_trip(v: PlaneState) {
        reveal_strlit("unknown");
        reveal_strlit("up");
        reveal_strlit("down");
        assert(ascii_lowercase(Self::to_text(v)) =~= Self::to_text(v));
    }

    fn is_writable(&self) -> (writable: bool) {
        true
    }

    fn write_text(&self) -> (text: String) {
        match self {
            PlaneState::Unknown => "unknown".to_owned(),
            PlaneState::Up => "up".to_owned(),
            PlaneState::Down => "down".to_owned(),
        }
    }

    fn shown(text: String) -> (data: String) {
        to_ascii_lowercase(text.as_str())
    }

    fn read_text(s: &str) -> (r: Result<Self, String>) {
        let lower = to_ascii_lowercase(s);
        if str_eq(lower.as_str(), "unknown") {
            Ok(PlaneState::Unknown)
        } else if str_eq(lower.as_str(), "up") {
            Ok(PlaneState::Up)
        } else if str_eq(lower.as_str(), "down") {
            Ok(PlaneState::Down)
        } else {
            Err("expected one of: unknown, up, down".to_owned())
        }
    }
}

/// The kind of a pending HA operation.
#[derive(Debug, Clone, Copy, PartialEq, Eq, Structural)]
pub enum OperationType {
    Switchover,
    ActivateRole,
    FlowReconcile,
    BrainsplitRecover,
}

/// A variant is written as its name in lower case, and read from its name
/// in any mix of upper and lower case. An error shows the text in lower case.
impl ToFromFieldValue for OperationType {
    type Model = OperationType;

    open spec fn model(&self) -> OperationType {
        *self
    }

    open spec fn to_text(v: OperationType) -> Seq<char> {
        match v {
            OperationType::Switchover => "switchover"@,
            OperationType::ActivateRole => "activaterole"@,
            OperationType::FlowReconcile => "flowreconcile"@,
            OperationType::BrainsplitRecover => "brainsplitrecover"@,
        }
    }

    open spec fn from_text(s: Seq<char>) -> Option<OperationType> {
        let lower = ascii_lowercase(s);
        if lower == "switchover"@ {
            Some(OperationType::Switchover)
        } else if lower == "activaterole"@ {
            Some(OperationType::ActivateRole)
        } else if lower == "flowreconcile"@ {
            Some(OperationType::FlowReconcile)
        } else if lower == "brainsplitrecover"@ {
            Some(OperationType::BrainsplitRecover)
        } else {
            None
        }
    }

    open spec fn error_text(s: Seq<char>) -> Seq<char> {
        "expected one of: switchover, activaterole, flowreconcile, brainsplitrecover"@
    }

    open spec fn error_data(s: Seq<char>) -> Seq<char> {
        ascii_lowercase(s)
    }

    open spec fn writable(v: OperationType) -> bool {
        true
    }

    proof fn lemma_round_trip(v: OperationType) {
        reveal_strlit("switchover");
        reveal_strlit("activaterole");
        reveal_strlit("flowreconcile");
        reveal_strlit("brainsplitrecover");
        assert(ascii_lowercase(Self::to_text(v)) =~= Self::to_text(v));
    }

    fn is_writable(&self) -> (writable: bool) {
        true
    }

    fn write_text(&self) -> (text: String) {
        match self {
            OperationType::Switchover => "switchover".to_owned(),
            OperationType::ActivateRole => "activaterole".to_owned(),
            OperationType::FlowReconcile => "flowreconcile".to_owned(),
            OperationType::BrainsplitRecover => "brainsplitrecover".to_owned(),
        }
    }

    fn shown(text: String) -> (data: String) {
        to_ascii_lowercase(text.as_str())
    }

    fn read_text(s: &str) -> (r: Result<Self, String>) {
        let lower = to_ascii_lowercase(s);
        if str_eq(lower.as_str(), "switchover") {
            Ok(OperationType::Switchover)
        } else if str_eq(lower.as_str(), "activaterole") {
            Ok(OperationType::ActivateRole)
        } else if str_eq(lower.as_str(), "flowreconcile") {
            Ok(OperationType::FlowReconcile)
        } else if str_eq(lower.as_str(), "brainsplitrecover") {
            Ok(OperationType::BrainsplitRecover)
        } else {
            Err(
                "expected one of: switchover, activaterole, flowreconcile, brainsplitrecover".to_owned(),
            )
        }
    }
}

} // verus!

//! The high-availability manager: the messages that the two managers of a
//! pair exchange, the primary election, and the manager's message routing.

use crate::message::{IncomingMessage, MessageBody, OutgoingMessage, SwbusErrorCode};
use crate::service_path::{ServicePath, ServicePathView};
use crate::tables::config_tables;
use crate::tables::config_tables::DesiredHaState;
use crate::tables::external_tables;
use crate::tables::external_tables::HaState;
use crate::tables::internal_tables;
use vstd::prelude::*;

verus! {

/// How often a vote is asked for again before the election gives up waiting.
pub const MAX_RETRY_COUNT: u64 = 100;

/// The messages of the primary election, and the notices that follow it.
#[derive(Debug, Clone, Copy, PartialEq, Eq, Structural)]
pub enum ControlMessage {
    /// Connect to the peer and request a vote. The peer answers with one of
    /// the next four messages.
    RequestVote { term: u64, desired_state: DesiredHaState, retry_count: u64 },
    /// Ask for the vote again later.
    RetryLater,
    /// Become the active peer of an active/standby pair.
    BecomeActive,
    /// Become the standby peer of an active/standby pair.
    BecomeStandby,
    /// Become the standalone peer of a standalone/dead pair.
    BecomeStandalone,
    /// The state of the sender has changed.
    HaStateChanged { state: HaState },
    /// The bulk sync is done.
    BulkSyncDone,
}

/// The answer to a request for a vote, by the rules of the primary election,
/// taken in this order:
///
/// - a manager that wants to be standalone asks the peer to retry later;
/// - an active manager makes the peer standby;
/// - a dead manager that wants to be dead makes the peer standalone;
/// - a dead or connecting manager asks the peer to retry, and makes it
///   standalone once the peer has retried often enough;
/// - of two managers with different terms, the one with the higher term
///   makes the other standby, the one with the lower term makes it active;
/// - with equal terms, a manager that wants to be active makes a peer
///   without a wish standby, and a manager without a wish makes a peer that
///   wants to be active active;
/// - otherwise the peer retries later.
///
/// `None` where the rules give no answer: the terms are equal, the wishes do
/// not settle it, and the peer has retried more often than allowed.
pub open spec fn election_answer(
    local_term: u64,
    local_state: HaState,
    local_desired_state: DesiredHaState,
    peer_term: u64,
    peer_desired_state: DesiredHaState,
    retry_count: u64,
) -> Option<ControlMessage> {
    if local_desired_state == DesiredHaState::Standalone {
        Some(ControlMessage::RetryLater)
    } else if local_state == HaState::Active {
        Some(ControlMessage::BecomeStandby)
    } else if local_state == HaState::Dead && local_desired_state == DesiredHaState::Dead {
        Some(ControlMessage::BecomeStandalone)
    } else if local_state == HaState::Dead || local_state == HaState::Connecting {
        if retry_count < MAX_RETRY_COUNT {
            Some(ControlMessage::RetryLater)
        } else {
            Some(ControlMessage::BecomeStandalone)
        }
    } else if local_term != peer_term {
        if local_term > peer_term {
            Some(ControlMessage::BecomeStandby)
        } else {
            Some(ControlMessage::BecomeActive)
        }
    } else if local_desired_state == DesiredHaState::Active && peer_desired_state
        == DesiredHaState::Unspecified {
        Some(ControlMessage::BecomeStandby)
    } else if local_desired_state == DesiredHaState::Unspecified && peer_desired_state
        == DesiredHaState::Active {
        Some(ControlMessage::BecomeActive)
    } else if retry_count > MAX_RETRY_COUNT {
        None
    } else {
        Some(ControlMessage::RetryLater)
    }
}

/// Whether a manager in this state takes part in the comparison of terms
/// and wishes: it is neither active, nor dead, nor connecting, and does not
/// want to be standalone.
pub open spec fn compares(state: HaState, desired_state: DesiredHaState) -> bool {
    &&& desired_state != DesiredHaState::Standalone
    &&& state != HaState::Active
    &&& state != HaState::Dead
    &&& state != HaState::Connecting
}

/// The election answers a request with one of the four answers, never with
/// a request or a notice.
pub proof fn lemma_election_answers(
    local_term: u64,
    local_state: HaState,
    local_desired_state: DesiredHaState,
    peer_term: u64,
    peer_desired_state: DesiredHaState,
    retry_count: u64,
)
    ensures
        match election_answer(
            local_term,
            local_state,
            local_desired_state,
            peer_term,
            peer_desired_state,
            retry_count,
        ) {
            Some(answer) => answer == ControlMessage::RetryLater || answer
                == ControlMessage::BecomeActive || answer == ControlMessage::BecomeStandby
                || answer == ControlMessage::BecomeStandalone,
            None => retry_count > MAX_RETRY_COUNT,
        },
{
}

/// Two managers that both compare terms, and whose terms differ, give each
/// other opposite answers: one makes its peer active, the other makes its
/// peer standby, whatever their wishes and however often they retried.
pub proof fn lemma_election_terms_decide(
    term_a: u64,
    state_a: HaState,
    desired_a: DesiredHaState,
    retries_a: u64,
    term_b: u64,
    state_b: HaState,
    desired_b: DesiredHaState,
    retries_b: u64,
)
    requires
        compares(state_a, desired_a),
        compares(state_b, desired_b),
        term_a != term_b,
    ensures
        election_answer(term_a, state_a, desired_a, term_b, desired_b, retries_b) == Some(
            if term_a > term_b {
                ControlMessage::BecomeStandby
            } else {
                ControlMessage::BecomeActive
            },
        ),
        election_answer(term_b, state_b, desired_b, term_a, desired_a, retries_a) == Some(
            if term_a > term_b {
                ControlMessage::BecomeActive
            } else {
                ControlMessage::BecomeStandby
            },
        ),
{
}

/// Whether the election has an answer to the request.
pub fn election_decided(
    local_term: u64,
    local_state: HaState,
    local_desired_state: DesiredHaState,
    peer_term: u64,
    peer_desired_state: DesiredHaState,
    retry_count: u64,
) -> (decided: bool)
    ensures
        decided == election_answer(
            local_term,
            local_state,
            local_desired_state,
            peer_term,
            peer_desired_state,
            retry_count,
        ) is Some,
{
    local_desired_state == DesiredHaState::Standalone || local_state == HaState::Active
        || local_state == HaState::Dead || local_state == HaState::Connecting || local_term
        != peer_term || (local_desired_state == DesiredHaState::Active && peer_desired_state
        == DesiredHaState::Unspecified) || (local_desired_state == DesiredHaState::Unspecified
        && peer_desired_state == DesiredHaState::Active) || retry_count <= MAX_RETRY_COUNT
}

/// The primary election: the answer that a manager gives its peer's request
/// for a vote.
pub fn primary_election(
    local_term: u64,
    local_state: HaState,
    local_desired_state: DesiredHaState,
    peer_term: u64,
    peer_desired_state: DesiredHaState,
    retry_count: u64,
) -> (answer: ControlMessage)
    requires
        election_answer(
            local_term,
            local_state,
            local_desired_state,
            peer_term,
            peer_desired_state,
            retry_count,
        ) is Some,
    ensures
        Some(answer) == election_answer(
            local_term,
            local_state,
            local_desired_state,
            peer_term,
            peer_desired_state,
            retry_count,
        ),
{
    if local_desired_state == DesiredHaState::Standalone {
        return ControlMessage::RetryLater;
    }
    if local_state == HaState::Active {
        return ControlMessage::BecomeStandby;
    }
    if local_state == HaState::Dead && local_desired_state == DesiredHaState::Dead {
        return ControlMessage::BecomeStandalone;
    }
    if local_state == HaState::Dead || local_state == HaState::Connecting {
        return if retry_count < MAX_RETRY_COUNT {
            ControlMessage::RetryLater
        } else {
            ControlMessage::BecomeStandalone
        };
    }
    if local_term != peer_term {
        return if local_term > peer_term {
            ControlMessage::BecomeStandby
        } else {
            ControlMessage::BecomeActive
        };
    }
    if local_desired_state == DesiredHaState::Active && peer_desired_state
        == DesiredHaState::Unspecified {
        return ControlMessage::BecomeStandby;
    } else if local_desired_state == DesiredHaState::Unspecified && peer_desired_state
        == DesiredHaState::Active {
        return ControlMessage::BecomeActive;
    }
    ControlMessage::RetryLater
}

/// The bind addresses of the bridges of all tables that the manager reads.
#[derive(Debug, Clone)]
pub struct TableServicePaths {
    pub config: config_tables::ServicePaths,
    pub external: external_tables::ServicePaths,
    pub internal: internal_tables::ServicePaths,
}

/// What a control message asks the manager to do.
#[derive(Debug)]
pub enum ControlAction {
    /// Send the election's answer to the peer.
    Answer { destination: ServicePath, response: ControlMessage },
    /// Become the active peer.
    BecomeActive,
    /// Become the standby peer.
    BecomeStandby,
    /// Become the standalone peer.
    BecomeStandalone,
}

/// The actor of the high-availability manager.
#[derive(Debug)]
pub struct HamgrdActor {
    table_service_paths: TableServicePaths,
    /// The other manager of this pair.
    peer: ServicePath,
}

impl HamgrdActor {
    /// The address of the other manager of the pair.
    pub closed spec fn peer(&self) -> ServicePathView {
        self.peer@
    }

    /// The bind addresses of the bridges that the manager listens to.
    pub closed spec fn paths(&self) -> TableServicePaths {
        self.table_service_paths
    }

    /// Whether the manager serves messages from `source`: the peer, or the
    /// bridge of one of the tables that the manager follows.
    pub open spec fn is_known_sender(&self, source: ServicePathView) -> bool {
        let config = self.paths().config;
        let external = self.paths().external;
        let internal = self.paths().internal;
        ||| source == self.peer()
        ||| source == config.dpu@
        ||| source == config.vdpu@
        ||| source == config.dash_ha_global_config@
        ||| source == config.dash_ha_set_config_table@
        ||| source == config.dash_ha_scope_config_table@
        ||| source == config.dash_eni_placement_table@
        ||| source == external.dash_ha_scope_state@
        ||| source == internal.dash_ha_set_state@
        ||| source == internal.dash_flow_sync_session_state@
        ||| source == internal.dash_bfd_probe_state@
    }

    /// The manager that listens to the bridges at `table_service_paths` and
    /// is paired with `peer`.
    pub fn new(table_service_paths: TableServicePaths, peer: ServicePath) -> (actor: Self)
        ensures
            actor.peer() == peer@,
            actor.paths() == table_service_paths,
    {
        HamgrdActor { table_service_paths, peer }
    }

    /// Handles a message from the bus: one from an unknown sender is
    /// answered with an error, one from a known sender needs no answer.
    pub fn handle_message(&self, message: &IncomingMessage) -> (reply: Option<OutgoingMessage>)
        ensures
            match reply {
                None => self.is_known_sender(message.source@),
                Some(r) => {
                    &&& !self.is_known_sender(message.source@)
                    &&& r.destination@ == message.source@
                    &&& r.body matches MessageBody::Response {
                        request_id,
                        error_code,
                        error_message,
                    }
                    &&& request_id == message.id
                    &&& error_code == SwbusErrorCode::InvalidSource
                    &&& error_message@ == "Unknown sender"@
                },
            },
    {
        let config = &self.table_service_paths.config;
        let external = &self.table_service_paths.external;
        let internal = &self.table_service_paths.internal;
        let source = &message.source;
        if source.eq(&self.peer) || source.eq(&config.dpu) || source.eq(&config.vdpu) || source.eq(
            &config.dash_ha_global_config,
        ) || source.eq(&config.dash_ha_set_config_table) || source.eq(
            &config.dash_ha_scope_config_table,
        ) || source.eq(&config.dash_eni_placement_table) || source.eq(
            &external.dash_ha_scope_state,
        ) || source.eq(&internal.dash_ha_set_state) || source.eq(
            &internal.dash_flow_sync_session_state,
        ) || source.eq(&internal.dash_bfd_probe_state) {
            None
        } else {
            Some(
                OutgoingMessage::error_response(
                    message,
                    SwbusErrorCode::InvalidSource,
                    "Unknown sender".to_owned(),
                ),
            )
        }
    }

    /// Whether the manager can handle the control message `m` in the state
    /// given: it is an order to change role, or a request for a vote that
    /// the election has an answer to.
    pub open spec fn handles(
        m: ControlMessage,
        local_term: u64,
        local_state: HaState,
        local_desired_state: DesiredHaState,
    ) -> bool {
        match m {
            ControlMessage::RequestVote { term, desired_state, retry_count } => election_answer(
                local_term,
                local_state,
                local_desired_state,
                term,
                desired_state,
                retry_count,
            ) is Some,
            ControlMessage::BecomeActive => true,
            ControlMessage::BecomeStandby => true,
            ControlMessage::BecomeStandalone => true,
            _ => false,
        }
    }

    /// Handles a control message of the peer, given the manager's own term,
    /// state and wish. A request for a vote is answered by the election, and
    /// the answer goes to the peer; an order to change role is passed on.
    pub fn handle_control_message(
        &self,
        m: ControlMessage,
        local_term: u64,
        local_state: HaState,
        local_desired_state: DesiredHaState,
    ) -> (action: ControlAction)
        requires
            Self::handles(m, local_term, local_state, local_desired_state),
        ensures
            match m {
                ControlMessage::RequestVote { term, desired_state, retry_count } => {
                    &&& action matches ControlAction::Answer { destination, response }
                    &&& destination@ == self.peer()
                    &&& Some(response) == election_answer(
                        local_term,
                        local_state,
                        local_desired_state,
                        term,
                        desired_state,
                        retry_count,
                    )
                },
                ControlMessage::BecomeActive => action is BecomeActive,
                ControlMessage::BecomeStandby => action is BecomeStandby,
                _ => action is BecomeStandalone,
            },
    {
        match m {
            ControlMessage::RequestVote { term, desired_state, retry_count } => {
                let response = primary_election(
                    local_term,
                    local_state,
                    local_desired_state,
                    term,
                    desired_state,
                    retry_count,
                );
                ControlAction::Answer { destination: self.peer.clone(), response }
            },
            ControlMessage::BecomeActive => ControlAction::BecomeActive,
            ControlMessage::BecomeStandby => ControlAction::BecomeStandby,
            _ => ControlAction::BecomeStandalone,
        }
    }
}

} // verus!

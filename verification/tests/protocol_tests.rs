use cloud_state::protocol::{
    ClientStreamEvent, CloudRuntimeDefaults, DisabledCapability, RequestStatus,
    RequestStatusTransition, RuntimeCapabilityProfile, RuntimeMode, TerminalSignal,
};

#[test]
fn cloud_runtime_defaults_match_stateless_design_decisions() {
    assert_eq!(
        CloudRuntimeDefaults::default(),
        CloudRuntimeDefaults {
            mysql_max_connections: 20,
            thread_writer_lease_ttl_ms: 30_000,
            thread_writer_lease_renew_interval_ms: 2_000,
            owner_lease_ttl_ms: 180_000,
            owner_lease_heartbeat_ms: 2_000,
            turn_timeout_ms: 1_800_000,
            request_timeout_ms: 60_000,
        }
    );
}

#[test]
fn sse_disconnect_does_not_change_running_request_status() {
    let transition = RequestStatusTransition::from_client_stream_event(
        RequestStatus::Running,
        ClientStreamEvent::SseDisconnected,
    );

    assert_eq!(
        transition,
        RequestStatusTransition {
            status: RequestStatus::Running,
            changed: false,
        }
    );
}

#[test]
fn persisted_completion_is_not_overwritten_by_later_terminal_signals() {
    let transition = RequestStatusTransition::from_terminal_signal(
        RequestStatus::Completed,
        TerminalSignal::OwnerLeaseTimedOut,
    );

    assert_eq!(
        transition,
        RequestStatusTransition {
            status: RequestStatus::Completed,
            changed: false,
        }
    );
}

#[test]
fn persisted_terminal_status_is_not_overwritten_by_later_terminal_signals() {
    let transition = RequestStatusTransition::from_terminal_signal(
        RequestStatus::Cancelled,
        TerminalSignal::Failed,
    );

    assert_eq!(
        transition,
        RequestStatusTransition {
            status: RequestStatus::Cancelled,
            changed: false,
        }
    );
}

#[test]
fn runtime_write_denied_terminates_as_lease_lost() {
    let transition = RequestStatusTransition::from_terminal_signal(
        RequestStatus::Running,
        TerminalSignal::RuntimeWriteDenied,
    );

    assert_eq!(
        transition,
        RequestStatusTransition {
            status: RequestStatus::LeaseLost,
            changed: true,
        }
    );
}

#[test]
fn default_runtime_capability_profile_is_strictly_read_only() {
    let profile = RuntimeCapabilityProfile::strict_read_only();

    assert_eq!(profile.mode, RuntimeMode::ReadOnly);
    assert!(profile.read_only_runtime_required);
    assert_eq!(
        profile.disabled_capabilities,
        vec![
            DisabledCapability::FileWrite,
            DisabledCapability::ApplyPatch,
            DisabledCapability::LocalCommandExec,
            DisabledCapability::ProcessSpawn,
            DisabledCapability::SubAgent,
        ]
    );
}

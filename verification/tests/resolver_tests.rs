use server_booter::resolver::{
    resolve_after_pending_stop, resolve_after_ping, resolve_start, status_of_compute,
    status_of_ping, validate_describe, ComputeState, ControlPlaneDataError, InstanceDescription,
    PingOutcome, ResolveStep,
};
use server_booter::status::ServerStatus;

fn desc(state: ComputeState, ip: Option<&str>) -> InstanceDescription {
    InstanceDescription {
        compute_state: state,
        public_ip: ip.map(|s| s.to_string()),
    }
}

#[test]
fn lifecycle_table_is_fixed() {
    assert_eq!(status_of_compute(ComputeState::Stopped), ServerStatus::Offline);
    assert_eq!(status_of_compute(ComputeState::Stopping), ServerStatus::ShuttingDown);
    assert_eq!(status_of_compute(ComputeState::Pending), ServerStatus::StartingEC2);
    assert_eq!(status_of_compute(ComputeState::ShuttingDown), ServerStatus::ShuttingDown);
    assert_eq!(status_of_compute(ComputeState::Running), ServerStatus::Unknown);
    assert_eq!(status_of_compute(ComputeState::Terminated), ServerStatus::Unknown);
    assert_eq!(status_of_compute(ComputeState::Other), ServerStatus::Unknown);
}

#[test]
fn conclusive_states_never_ping() {
    // stopping / pending / shutting-down finish immediately, even with an
    // address present; stopped asks for the pending-stop marker, never a ping.
    for (state, expected) in [
        (ComputeState::Stopping, ServerStatus::ShuttingDown),
        (ComputeState::Pending, ServerStatus::StartingEC2),
        (ComputeState::ShuttingDown, ServerStatus::ShuttingDown),
    ] {
        match resolve_start("i-0abc", &desc(state, Some("1.2.3.4"))) {
            ResolveStep::Done(snap) => {
                assert_eq!(snap.server_status, expected);
                assert_eq!(snap.player_count, 0);
                assert_eq!(snap.ec2_instance_id, "i-0abc");
                assert_eq!(snap.ec2_state, state);
            }
            _ => panic!("expected a finished snapshot"),
        }
    }
    assert!(matches!(
        resolve_start("i-0abc", &desc(ComputeState::Stopped, Some("1.2.3.4"))),
        ResolveStep::CheckPendingStop
    ));
}

#[test]
fn stopped_without_marker_is_offline() {
    let d = desc(ComputeState::Stopped, None);
    let snap = resolve_after_pending_stop("i-0abc", &d, false);
    assert_eq!(snap.server_status, ServerStatus::Offline);
    assert_eq!(snap.player_count, 0);
}

#[test]
fn pending_stop_marker_overrides_offline() {
    let d = desc(ComputeState::Stopped, None);
    let snap = resolve_after_pending_stop("i-0abc", &d, true);
    assert_eq!(snap.server_status, ServerStatus::ShuttingDown);
    assert_eq!(snap.player_count, 0);
}

#[test]
fn unknown_without_address_stays_unknown() {
    match resolve_start("i-0abc", &desc(ComputeState::Running, None)) {
        ResolveStep::Done(snap) => {
            assert_eq!(snap.server_status, ServerStatus::Unknown);
            assert_eq!(snap.player_count, 0);
            assert_eq!(snap.public_ip, None);
        }
        _ => panic!("expected a finished snapshot, not another query"),
    }
}

#[test]
fn unknown_with_address_pings() {
    assert!(matches!(
        resolve_start("i-0abc", &desc(ComputeState::Running, Some("1.2.3.4"))),
        ResolveStep::Ping
    ));
}

#[test]
fn ping_outcome_table_is_fixed() {
    assert_eq!(status_of_ping(PingOutcome::ConnectRefused), ServerStatus::StartingEC2);
    assert_eq!(status_of_ping(PingOutcome::HandshakeFailed), ServerStatus::StartingUp);
    assert_eq!(status_of_ping(PingOutcome::Pong), ServerStatus::Online);
    assert_eq!(status_of_ping(PingOutcome::Other), ServerStatus::Unknown);
}

#[test]
fn player_count_is_best_effort() {
    let d = desc(ComputeState::Running, Some("1.2.3.4"));
    let with_count = resolve_after_ping("i-0abc", &d, PingOutcome::Pong, Some(7));
    assert_eq!(with_count.server_status, ServerStatus::Online);
    assert_eq!(with_count.player_count, 7);
    let without = resolve_after_ping("i-0abc", &d, PingOutcome::Pong, None);
    assert_eq!(without.server_status, ServerStatus::Online);
    assert_eq!(without.player_count, 0);
}

#[test]
fn resolution_is_idempotent_without_state_change() {
    // Two resolutions in immediate succession, with identical observations
    // both times, agree on the status.
    let d = desc(ComputeState::Running, Some("1.2.3.4"));
    let first = resolve_after_ping("i-0abc", &d, PingOutcome::HandshakeFailed, None);
    let second = resolve_after_ping("i-0abc", &d, PingOutcome::HandshakeFailed, None);
    assert_eq!(first.server_status, second.server_status);
    let d2 = desc(ComputeState::Stopped, None);
    let third = resolve_after_pending_stop("i-0abc", &d2, false);
    let fourth = resolve_after_pending_stop("i-0abc", &d2, false);
    assert_eq!(third.server_status, fourth.server_status);
}

#[test]
fn missing_instance_is_a_data_error() {
    assert_eq!(
        validate_describe(false, Some(ComputeState::Running), None).err(),
        Some(ControlPlaneDataError::MissingInstance)
    );
}

#[test]
fn missing_state_is_a_data_error() {
    assert_eq!(
        validate_describe(true, None, Some("1.2.3.4".to_string())).err(),
        Some(ControlPlaneDataError::MissingState)
    );
}

#[test]
fn complete_describe_validates() {
    let d = validate_describe(true, Some(ComputeState::Stopped), Some("1.2.3.4".to_string()))
        .expect("a complete describe answer must validate");
    assert_eq!(d.compute_state, ComputeState::Stopped);
    assert_eq!(d.public_ip, Some("1.2.3.4".to_string()));
}

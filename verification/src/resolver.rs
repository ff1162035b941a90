//! Status resolution: from compute-instance state, pending-stop markers and
//! live-ping outcomes to a single authoritative [`ServerStatus`] snapshot.
//!
//! Resolution is a short dialogue with the outside world: describe the
//! instance, sometimes ask for a pending-stop marker, sometimes ping the game
//! server. Every decision in that dialogue is a pure function here; the caller
//! performs each query that [`ResolveStep`] asks for and feeds the answer
//! back in.

use crate::status::ServerStatus;
use vstd::prelude::*;

verus! {

/// Compute-instance lifecycle states, as the control plane reports them.
#[derive(Copy, Clone, Debug, PartialEq, Eq, Structural)]
pub enum ComputeState {
    Pending,
    Running,
    ShuttingDown,
    Stopped,
    Stopping,
    Terminated,
    /// Any lifecycle state not recognized by the mapping below.
    Other,
}

/// A malformed answer from the compute control plane.
#[derive(Copy, Clone, Debug, PartialEq, Eq, Structural)]
pub enum ControlPlaneDataError {
    /// The describe call returned no instance at all.
    MissingInstance,
    /// The instance was found, but carried no lifecycle state.
    MissingState,
}

/// What a describe-instance call reports: the lifecycle state and, when the
/// instance has one, its public address.
pub struct InstanceDescription {
    pub compute_state: ComputeState,
    pub public_ip: Option<String>,
}

/// Information about the game server running on a compute instance,
/// produced fresh on every resolution and never cached.
#[derive(Clone)]
pub struct EC2MinecraftServerStatus {
    pub ec2_instance_id: String,
    pub public_ip: Option<String>,
    pub ec2_state: ComputeState,
    pub server_status: ServerStatus,
    pub player_count: u32,
}

/// What a live protocol ping observed.
#[derive(Copy, Clone, Debug, PartialEq, Eq, Structural)]
pub enum PingOutcome {
    /// The TCP connection could not be opened.
    ConnectRefused,
    /// TCP connected, but the protocol connection could not be established.
    HandshakeFailed,
    /// A protocol pong came back.
    Pong,
    /// Anything else: a wrong reply, a closed stream, a read or write error.
    Other,
}

/// The next query the resolver needs, or the finished snapshot.
pub enum ResolveStep {
    /// Ask the control plane whether a pending-stop marker exists,
    /// then finish with [`resolve_after_pending_stop`].
    CheckPendingStop,
    /// Ping the game server at the instance's public address,
    /// then finish with [`resolve_after_ping`].
    Ping,
    /// The compute-layer state is conclusive; no further query is made.
    Done(EC2MinecraftServerStatus),
}

/// The fixed table from compute lifecycle state to server status.
pub open spec fn spec_status_of_compute(state: ComputeState) -> ServerStatus {
    match state {
        ComputeState::Stopped => ServerStatus::Offline,
        ComputeState::Stopping => ServerStatus::ShuttingDown,
        ComputeState::Pending => ServerStatus::StartingEC2,
        ComputeState::ShuttingDown => ServerStatus::ShuttingDown,
        _ => ServerStatus::Unknown,
    }
}

/// The resolver queries for a pending-stop marker exactly when the mapped
/// status is `Offline`.
pub open spec fn spec_needs_pending_stop_check(state: ComputeState) -> bool {
    spec_status_of_compute(state) == ServerStatus::Offline
}

/// The resolver pings the game server exactly when the compute layer is
/// inconclusive and a public address is available.
pub open spec fn spec_needs_ping(state: ComputeState, has_public_ip: bool) -> bool {
    spec_status_of_compute(state) == ServerStatus::Unknown && has_public_ip
}

/// The fixed table from ping outcome to server status.
pub open spec fn spec_status_of_ping(outcome: PingOutcome) -> ServerStatus {
    match outcome {
        PingOutcome::ConnectRefused => ServerStatus::StartingEC2,
        PingOutcome::HandshakeFailed => ServerStatus::StartingUp,
        PingOutcome::Pong => ServerStatus::Online,
        PingOutcome::Other => ServerStatus::Unknown,
    }
}

/// The status a whole resolution yields, as a function of everything the
/// outside world could answer. The pending-stop marker matters only when the
/// mapped status is `Offline`; the ping outcome matters only when a ping is
/// needed at all.
pub open spec fn spec_resolved_status(
    state: ComputeState,
    has_public_ip: bool,
    pending_stop: bool,
    outcome: PingOutcome,
) -> ServerStatus {
    let mapped = spec_status_of_compute(state);
    if mapped == ServerStatus::Offline && pending_stop {
        ServerStatus::ShuttingDown
    } else if spec_needs_ping(state, has_public_ip) {
        spec_status_of_ping(outcome)
    } else {
        mapped
    }
}

/// Exec mirror of the lifecycle-state table.
pub fn status_of_compute(state: ComputeState) -> (r: ServerStatus)
    ensures
        r == spec_status_of_compute(state),
{
    match state {
        ComputeState::Stopped => ServerStatus::Offline,
        ComputeState::Stopping => ServerStatus::ShuttingDown,
        ComputeState::Pending => ServerStatus::StartingEC2,
        ComputeState::ShuttingDown => ServerStatus::ShuttingDown,
        _ => ServerStatus::Unknown,
    }
}

/// Exec mirror of the ping-outcome table.
pub fn status_of_ping(outcome: PingOutcome) -> (r: ServerStatus)
    ensures
        r == spec_status_of_ping(outcome),
{
    match outcome {
        PingOutcome::ConnectRefused => ServerStatus::StartingEC2,
        PingOutcome::HandshakeFailed => ServerStatus::StartingUp,
        PingOutcome::Pong => ServerStatus::Online,
        PingOutcome::Other => ServerStatus::Unknown,
    }
}

/// Checks a describe-instance answer for the fields the resolver needs.
/// Fails exactly when the instance, or its lifecycle state, is absent;
/// a missing public address is not an error.
pub fn validate_describe(
    instance_found: bool,
    compute_state: Option<ComputeState>,
    public_ip: Option<String>,
) -> (r: Result<InstanceDescription, ControlPlaneDataError>)
    ensures
        !instance_found ==> r == Result::<
            InstanceDescription,
            ControlPlaneDataError,
        >::Err(ControlPlaneDataError::MissingInstance),
        instance_found && compute_state is None ==> r == Result::<
            InstanceDescription,
            ControlPlaneDataError,
        >::Err(ControlPlaneDataError::MissingState),
        instance_found && compute_state is Some ==> (r matches Ok(d) && d.compute_state
            == compute_state->0 && d.public_ip == public_ip),
{
    if !instance_found {
        Err(ControlPlaneDataError::MissingInstance)
    } else {
        match compute_state {
            None => Err(ControlPlaneDataError::MissingState),
            Some(state) => Ok(InstanceDescription { compute_state: state, public_ip }),
        }
    }
}

/// Begins a resolution from a validated instance description: either the
/// compute-layer state is conclusive and the snapshot is finished here with
/// player count 0, or one more query is needed.
pub fn resolve_start(instance_id: &str, desc: &InstanceDescription) -> (r: ResolveStep)
    ensures
        r is CheckPendingStop <==> spec_needs_pending_stop_check(desc.compute_state),
        r is Ping <==> spec_needs_ping(desc.compute_state, desc.public_ip is Some),
        r matches ResolveStep::Done(snap) ==> {
            &&& snap.server_status == spec_status_of_compute(desc.compute_state)
            &&& snap.player_count == 0
            &&& snap.ec2_instance_id@ == instance_id@
            &&& snap.public_ip == desc.public_ip
            &&& snap.ec2_state == desc.compute_state
        },
{
    let server_status = status_of_compute(desc.compute_state);
    if server_status == ServerStatus::Offline {
        ResolveStep::CheckPendingStop
    } else if server_status == ServerStatus::Unknown && desc.public_ip.is_some() {
        ResolveStep::Ping
    } else {
        ResolveStep::Done(
            EC2MinecraftServerStatus {
                ec2_instance_id: instance_id.to_owned(),
                public_ip: clone_public_ip(&desc.public_ip),
                ec2_state: desc.compute_state,
                server_status,
                player_count: 0,
            },
        )
    }
}

/// Finishes a resolution whose mapped status was `Offline`: a pending-stop
/// marker (a provider quirk where a just-stopped instance cannot be restarted
/// yet) overrides the status to `ShuttingDown`.
pub fn resolve_after_pending_stop(
    instance_id: &str,
    desc: &InstanceDescription,
    pending_stop: bool,
) -> (r: EC2MinecraftServerStatus)
    requires
        spec_needs_pending_stop_check(desc.compute_state),
    ensures
        r.server_status == spec_resolved_status(
            desc.compute_state,
            desc.public_ip is Some,
            pending_stop,
            PingOutcome::Other,
        ),
        r.server_status == if pending_stop {
            ServerStatus::ShuttingDown
        } else {
            ServerStatus::Offline
        },
        r.player_count == 0,
        r.ec2_instance_id@ == instance_id@,
        r.public_ip == desc.public_ip,
        r.ec2_state == desc.compute_state,
{
    let server_status = if pending_stop {
        ServerStatus::ShuttingDown
    } else {
        ServerStatus::Offline
    };
    EC2MinecraftServerStatus {
        ec2_instance_id: instance_id.to_owned(),
        public_ip: clone_public_ip(&desc.public_ip),
        ec2_state: desc.compute_state,
        server_status,
        player_count: 0,
    }
}

/// Finishes a resolution that needed a live ping. The player count is
/// best-effort: a failed status-query exchange yields 0 rather than failing
/// the resolution.
pub fn resolve_after_ping(
    instance_id: &str,
    desc: &InstanceDescription,
    outcome: PingOutcome,
    player_count: Option<u32>,
) -> (r: EC2MinecraftServerStatus)
    requires
        spec_needs_ping(desc.compute_state, desc.public_ip is Some),
    ensures
        r.server_status == spec_resolved_status(
            desc.compute_state,
            desc.public_ip is Some,
            false,
            outcome,
        ),
        r.server_status == spec_status_of_ping(outcome),
        r.player_count == (if player_count is Some {
            player_count->0
        } else {
            0u32
        }),
        r.ec2_instance_id@ == instance_id@,
        r.public_ip == desc.public_ip,
        r.ec2_state == desc.compute_state,
{
    let server_status = status_of_ping(outcome);
    let count = match player_count {
        Some(n) => n,
        None => 0,
    };
    EC2MinecraftServerStatus {
        ec2_instance_id: instance_id.to_owned(),
        public_ip: clone_public_ip(&desc.public_ip),
        ec2_state: desc.compute_state,
        server_status,
        player_count: count,
    }
}

/// Copies an optional public address; the copy equals the original.
fn clone_public_ip(ip: &Option<String>) -> (r: Option<String>)
    ensures
        r == ip,
{
    match ip {
        Some(s) => Some(s.clone()),
        None => None,
    }
}

/// A conclusive compute-layer state needs no ping: for every lifecycle state
/// in the fixed table (stopped, stopping, pending, shutting-down), resolution
/// returns the table's status whatever a ping would have answered — and,
/// absent a pending-stop marker, that status is exactly the table entry.
pub proof fn lemma_compute_state_conclusive(
    state: ComputeState,
    has_public_ip: bool,
    pending_stop: bool,
    outcome: PingOutcome,
)
    requires
        state == ComputeState::Stopped || state == ComputeState::Stopping || state
            == ComputeState::Pending || state == ComputeState::ShuttingDown,
        state == ComputeState::Stopped ==> !pending_stop,
    ensures
        !spec_needs_ping(state, has_public_ip),
        spec_resolved_status(state, has_public_ip, pending_stop, outcome) == spec_status_of_compute(
            state,
        ),
        state == ComputeState::Stopped ==> spec_resolved_status(
            state,
            has_public_ip,
            pending_stop,
            outcome,
        ) == ServerStatus::Offline,
        state == ComputeState::Stopping ==> spec_resolved_status(
            state,
            has_public_ip,
            pending_stop,
            outcome,
        ) == ServerStatus::ShuttingDown,
        state == ComputeState::Pending ==> spec_resolved_status(
            state,
            has_public_ip,
            pending_stop,
            outcome,
        ) == ServerStatus::StartingEC2,
        state == ComputeState::ShuttingDown ==> spec_resolved_status(
            state,
            has_public_ip,
            pending_stop,
            outcome,
        ) == ServerStatus::ShuttingDown,
{
}

/// A pending-stop marker on an instance whose mapped status is `Offline`
/// overrides the resolved status to `ShuttingDown`, never leaving `Offline`.
pub proof fn lemma_pending_stop_overrides(
    state: ComputeState,
    has_public_ip: bool,
    outcome: PingOutcome,
)
    requires
        spec_status_of_compute(state) == ServerStatus::Offline,
    ensures
        spec_resolved_status(state, has_public_ip, true, outcome) == ServerStatus::ShuttingDown,
        spec_resolved_status(state, has_public_ip, true, outcome) != ServerStatus::Offline,
{
}

/// Without a public address no ping is attempted, and a compute-layer
/// `Unknown` stays `Unknown` whatever a ping would have answered.
pub proof fn lemma_unknown_without_address(
    state: ComputeState,
    pending_stop: bool,
    outcome: PingOutcome,
)
    requires
        spec_status_of_compute(state) == ServerStatus::Unknown,
    ensures
        !spec_needs_ping(state, false),
        spec_resolved_status(state, false, pending_stop, outcome) == ServerStatus::Unknown,
{
}

/// Resolution is a function of the observed inputs alone: two resolutions in
/// immediate succession, with no change in the compute-layer state, the
/// pending-stop marker or the ping outcome between them, yield the same
/// status.
pub proof fn lemma_resolve_idempotent(
    state1: ComputeState,
    has_public_ip1: bool,
    pending_stop1: bool,
    outcome1: PingOutcome,
    state2: ComputeState,
    has_public_ip2: bool,
    pending_stop2: bool,
    outcome2: PingOutcome,
)
    requires
        state1 == state2,
        has_public_ip1 == has_public_ip2,
        pending_stop1 == pending_stop2,
        outcome1 == outcome2,
    ensures
        spec_resolved_status(state1, has_public_ip1, pending_stop1, outcome1)
            == spec_resolved_status(state2, has_public_ip2, pending_stop2, outcome2),
{
}

} // verus!

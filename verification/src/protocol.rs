//! The protocol-facing decisions: which branch a handshake selects, what a
//! status response says, and how a login attempt is answered.
//!
//! The wire codec itself — framing, parsing and serializing packets over the
//! socket — is an outside collaborator. It hands these functions typed
//! messages as plain values and carries their replies back out.

use crate::status::ServerStatus;
use vstd::prelude::*;
use vstd::string::StringExecFns;

verus! {

/// Which sub-protocol the client's handshake declares it will speak next.
#[derive(Copy, Clone, Debug, PartialEq, Eq, Structural)]
pub enum HandshakeNextState {
    Status,
    Login,
}

/// The client messages the gatekeeper distinguishes. Everything else the
/// protocol could carry is `Other`.
#[derive(Clone, Debug)]
pub enum ClientMessage {
    /// The first message on a connection: declares which sub-protocol follows.
    Handshake { next_state: HandshakeNextState },
    /// A status query within the status sub-protocol.
    StatusRequest,
    /// A ping within the status sub-protocol.
    StatusPing { payload: i64 },
    /// The message opening the login sub-protocol, carrying the username.
    LoginStart { name: String },
    /// Any other message of the protocol.
    Other,
}

/// A protocol violation; it terminates the one connection it happened on.
#[derive(Copy, Clone, Debug, PartialEq, Eq, Structural)]
pub enum ProtocolError {
    /// A message of an unexpected type, or a connection closed too early.
    UnexpectedMessage,
}

/// Reads the first message of a connection. Exactly one handshake is
/// expected; its declared next state selects the branch. Any other message,
/// or a connection closed before the handshake arrived (`None`), is a
/// protocol error: the connection gets one handshake attempt and is then
/// terminated, never left hanging.
pub fn dispatch_handshake(first: &Option<ClientMessage>) -> (r: Result<
    HandshakeNextState,
    ProtocolError,
>)
    ensures
        first matches Some(ClientMessage::Handshake { next_state }) ==> r == Result::<
            HandshakeNextState,
            ProtocolError,
        >::Ok(*next_state),
        !(first matches Some(ClientMessage::Handshake { .. })) ==> r == Result::<
            HandshakeNextState,
            ProtocolError,
        >::Err(ProtocolError::UnexpectedMessage),
{
    match first {
        Some(ClientMessage::Handshake { next_state }) => Ok(*next_state),
        _ => Err(ProtocolError::UnexpectedMessage),
    }
}

/// The synthesized status-response payload. The codec turns the description
/// (traditional formatting codes) into its chat type when serializing.
pub struct StatusResponsePayload {
    pub players_online: i32,
    pub players_max: i32,
    pub description: String,
    pub version_name: String,
    pub version_protocol: i32,
}

/// Builds the status response for a resolved status: player counts are always
/// reported as 0/0 (this process never hosts real players) and the
/// description is the status's message-of-the-day behind a fixed label.
pub fn build_status_response(status: ServerStatus) -> (r: StatusResponsePayload)
    ensures
        r.players_online == 0,
        r.players_max == 0,
        r.description@ == "&lStatus:&r "@ + status.spec_motd(),
        r.version_name@ == "phofidd-server-booter"@,
        r.version_protocol == 5,
{
    StatusResponsePayload {
        players_online: 0,
        players_max: 0,
        description: String::from_str("&lStatus:&r ").concat(status.get_motd()),
        version_name: String::from_str("phofidd-server-booter"),
        version_protocol: 5,
    }
}

/// After the status response is sent, at most one more message is read. The
/// client's own status request is expected there and needs no reply; a closed
/// connection is a clean end; anything else is a protocol error.
pub fn check_status_followup(msg: &Option<ClientMessage>) -> (r: Result<(), ProtocolError>)
    ensures
        r is Ok <==> (msg is None || msg matches Some(ClientMessage::StatusRequest)),
        r is Err ==> r == Result::<(), ProtocolError>::Err(ProtocolError::UnexpectedMessage),
{
    match msg {
        None => Ok(()),
        Some(ClientMessage::StatusRequest) => Ok(()),
        Some(_) => Err(ProtocolError::UnexpectedMessage),
    }
}

/// Whether the allow-list admits this username: an exact match, or the
/// wildcard entry `"*"` admitting anyone.
pub open spec fn spec_allows(allow: Seq<String>, name: Seq<char>) -> bool {
    (exists|i: int| 0 <= i < allow.len() && allow[i]@ == "*"@) || (exists|i: int|
        0 <= i < allow.len() && allow[i]@ == name)
}

/// Checks a username against the allow-list.
pub fn is_allowed_to_start(name: &String, allow: &Vec<String>) -> (r: bool)
    ensures
        r == spec_allows(allow@, name@),
{
    let wildcard = String::from_str("*");
    let n = allow.len();
    let mut i: usize = 0;
    while i < n
        invariant
            i <= n,
            n == allow@.len(),
            wildcard@ == "*"@,
            forall|j: int| 0 <= j < i ==> allow@[j]@ != "*"@ && allow@[j]@ != name@,
        decreases n - i,
    {
        if allow[i] == wildcard || allow[i] == *name {
            return true;
        }
        i += 1;
    }
    false
}

/// What the login responder decided: whether to issue a start command to the
/// compute control plane, and the disconnect message (traditional formatting
/// codes) to send. Exactly one disconnect message is sent in every branch.
pub struct LoginDecision {
    pub start_instance: bool,
    pub message: String,
}

/// Answers a login attempt. A start command is issued exactly when the server
/// is `Offline` and the allow-list admits the username; every branch yields
/// a disconnect message, since this process never hosts the actual game.
pub fn login_decision(status: ServerStatus, player_name: &String, allow: &Vec<String>) -> (r:
    LoginDecision)
    ensures
        r.start_instance == (status == ServerStatus::Offline && spec_allows(
            allow@,
            player_name@,
        )),
        status == ServerStatus::Offline && spec_allows(allow@, player_name@) ==> r.message@
            == "&lLogin acknowledged: &6Starting server up..."@,
        status == ServerStatus::Offline && !spec_allows(allow@, player_name@) ==> r.message@
            == "&lLogin denied: &4Server is offline"@,
        status == ServerStatus::StartingEC2 || status == ServerStatus::StartingUp ==> r.message@
            == "&6&lServer is still spinning up &7&o(give it a few minutes)"@,
        status == ServerStatus::Online ==> r.message@
            == "&2&lServer is online&r, but DNS hasn't updated yet\n&7&o(wait a minute, then try again)"@,
        status == ServerStatus::ShuttingDown ==> r.message@ == "&c&lServer is shutting down..."@,
        status == ServerStatus::Unknown ==> r.message@
            == "&b&lServer status isn't known\n&r&o(usually it's just starting up the EC2 instance, but it could be an error)"@,
{
    match status {
        ServerStatus::Offline => {
            if is_allowed_to_start(player_name, allow) {
                LoginDecision {
                    start_instance: true,
                    message: String::from_str("&lLogin acknowledged: &6Starting server up..."),
                }
            } else {
                LoginDecision {
                    start_instance: false,
                    message: String::from_str("&lLogin denied: &4Server is offline"),
                }
            }
        },
        ServerStatus::StartingEC2 => LoginDecision {
            start_instance: false,
            message: String::from_str("&6&lServer is still spinning up &7&o(give it a few minutes)"),
        },
        ServerStatus::StartingUp => LoginDecision {
            start_instance: false,
            message: String::from_str("&6&lServer is still spinning up &7&o(give it a few minutes)"),
        },
        ServerStatus::Online => LoginDecision {
            start_instance: false,
            message: String::from_str(
                "&2&lServer is online&r, but DNS hasn't updated yet\n&7&o(wait a minute, then try again)",
            ),
        },
        ServerStatus::ShuttingDown => LoginDecision {
            start_instance: false,
            message: String::from_str("&c&lServer is shutting down..."),
        },
        ServerStatus::Unknown => LoginDecision {
            start_instance: false,
            message: String::from_str(
                "&b&lServer status isn't known\n&r&o(usually it's just starting up the EC2 instance, but it could be an error)",
            ),
        },
    }
}

} // verus!

//! The authoritative answer to "what state is the backing service in".

use vstd::prelude::*;

verus! {

/// State of the managed game server, resolved fresh on every query.
///
/// Exactly one variant is active at any resolution; the mapping from
/// compute-instance lifecycle state to `ServerStatus` is total (an
/// unrecognized compute state maps to `Unknown`, never left unset).
#[derive(Copy, Clone, Debug, PartialEq, Eq, Structural)]
pub enum ServerStatus {
    Offline,
    StartingEC2,
    StartingUp,
    Online,
    ShuttingDown,
    Unknown,
}

impl ServerStatus {
    /// The human-readable label of this status.
    pub open spec fn spec_label(self) -> Seq<char> {
        match self {
            ServerStatus::Offline => "Offline"@,
            ServerStatus::StartingEC2 => "StartingEC2"@,
            ServerStatus::StartingUp => "StartingUp"@,
            ServerStatus::Online => "Online"@,
            ServerStatus::ShuttingDown => "ShuttingDown"@,
            ServerStatus::Unknown => "Unknown"@,
        }
    }

    /// The message-of-the-day text shown for this status in status responses,
    /// in traditional formatting codes.
    pub open spec fn spec_motd(self) -> Seq<char> {
        match self {
            ServerStatus::Offline => "&4Offline &f&o(join to start server up)"@,
            ServerStatus::StartingEC2 => "&6Starting EC2 instance..."@,
            ServerStatus::StartingUp => "&6Starting minecraft server..."@,
            ServerStatus::Online => "&2Online"@,
            ServerStatus::ShuttingDown => "&cShutting down..."@,
            ServerStatus::Unknown => "Unknown"@,
        }
    }

    pub fn as_str(&self) -> (r: &'static str)
        ensures
            r@ == self.spec_label(),
    {
        match self {
            ServerStatus::Offline => "Offline",
            ServerStatus::StartingEC2 => "StartingEC2",
            ServerStatus::StartingUp => "StartingUp",
            ServerStatus::Online => "Online",
            ServerStatus::ShuttingDown => "ShuttingDown",
            ServerStatus::Unknown => "Unknown",
        }
    }

    pub fn get_motd(&self) -> (r: &'static str)
        ensures
            r@ == self.spec_motd(),
    {
        match self {
            ServerStatus::Offline => "&4Offline &f&o(join to start server up)",
            ServerStatus::StartingEC2 => "&6Starting EC2 instance...",
            ServerStatus::StartingUp => "&6Starting minecraft server...",
            ServerStatus::Online => "&2Online",
            ServerStatus::ShuttingDown => "&cShutting down...",
            ServerStatus::Unknown => "Unknown",
        }
    }
}

} // verus!

//! Data exchanged with the session broker and the control surface over the
//! message bus.

use vstd::prelude::*;

verus! {

/// Bus name of the per-user server daemon.
pub const SERVICE_NAME: &'static str = "com.system76.CosmicRdpServer";

/// Object path of the per-user server daemon.
pub const OBJECT_PATH: &'static str = "/com/system76/CosmicRdpServer";

/// Bus name of the session broker (system bus).
pub const BROKER_SERVICE_NAME: &'static str = "com.system76.CosmicRdpBroker";

/// Object path of the session broker.
pub const BROKER_OBJECT_PATH: &'static str = "/com/system76/CosmicRdpBroker";

/// Status of a per-user server instance.
#[derive(Debug, Clone, Copy, PartialEq, Eq, Structural)]
pub enum ServerStatus {
    /// Not running.
    Stopped,
    /// Starting up.
    Starting,
    /// Running and accepting connections.
    Running,
    /// Failed.
    Error,
}

impl ServerStatus {
    /// The one-byte code the status has on the bus.
    pub open spec fn spec_code(self) -> u8 {
        match self {
            ServerStatus::Stopped => 0,
            ServerStatus::Starting => 1,
            ServerStatus::Running => 2,
            ServerStatus::Error => 3,
        }
    }

    pub open spec fn spec_label(self) -> Seq<char> {
        match self {
            ServerStatus::Stopped => "Stopped"@,
            ServerStatus::Starting => "Starting"@,
            ServerStatus::Running => "Running"@,
            ServerStatus::Error => "Error"@,
        }
    }

    pub fn code(self) -> (r: u8)
        ensures
            r == self.spec_code(),
    {
        match self {
            ServerStatus::Stopped => 0,
            ServerStatus::Starting => 1,
            ServerStatus::Running => 2,
            ServerStatus::Error => 3,
        }
    }

    /// The status with bus code `code`, if there is one.
    pub fn from_code(code: u8) -> (r: Option<Self>)
        ensures
            r is Some <==> code <= 3,
            r matches Some(s) ==> s.spec_code() == code,
    {
        match code {
            0 => Some(ServerStatus::Stopped),
            1 => Some(ServerStatus::Starting),
            2 => Some(ServerStatus::Running),
            3 => Some(ServerStatus::Error),
            _ => None,
        }
    }

    /// The name shown to users.
    pub fn label(self) -> (r: &'static str)
        ensures
            r@ == self.spec_label(),
    {
        match self {
            ServerStatus::Stopped => "Stopped",
            ServerStatus::Starting => "Starting",
            ServerStatus::Running => "Running",
            ServerStatus::Error => "Error",
        }
    }
}

/// A connected remote client.
#[derive(Debug, Clone)]
pub struct ClientInfo {
    /// Remote address.
    pub address: String,
    /// Unix time in seconds when the client connected.
    pub connected_at: i64,
}

/// State of a broker-managed user session.
#[derive(Debug, Clone, Copy, PartialEq, Eq, Structural)]
pub enum SessionState {
    /// The server is being spawned.
    Starting,
    /// The server runs, with or without a client.
    Active,
    /// The client left; awaiting a timeout or a reconnect.
    Idle,
    /// Being torn down.
    Stopping,
}

impl SessionState {
    /// The one-byte code the state has on the bus.
    pub open spec fn spec_code(self) -> u8 {
        match self {
            SessionState::Starting => 0,
            SessionState::Active => 1,
            SessionState::Idle => 2,
            SessionState::Stopping => 3,
        }
    }

    pub open spec fn spec_label(self) -> Seq<char> {
        match self {
            SessionState::Starting => "Starting"@,
            SessionState::Active => "Active"@,
            SessionState::Idle => "Idle"@,
            SessionState::Stopping => "Stopping"@,
        }
    }

    pub fn code(self) -> (r: u8)
        ensures
            r == self.spec_code(),
    {
        match self {
            SessionState::Starting => 0,
            SessionState::Active => 1,
            SessionState::Idle => 2,
            SessionState::Stopping => 3,
        }
    }

    /// The state with bus code `code`, if there is one.
    pub fn from_code(code: u8) -> (r: Option<Self>)
        ensures
            r is Some <==> code <= 3,
            r matches Some(s) ==> s.spec_code() == code,
    {
        match code {
            0 => Some(SessionState::Starting),
            1 => Some(SessionState::Active),
            2 => Some(SessionState::Idle),
            3 => Some(SessionState::Stopping),
            _ => None,
        }
    }

    /// The name shown to users.
    pub fn label(self) -> (r: &'static str)
        ensures
            r@ == self.spec_label(),
    {
        match self {
            SessionState::Starting => "Starting",
            SessionState::Active => "Active",
            SessionState::Idle => "Idle",
            SessionState::Stopping => "Stopping",
        }
    }
}

/// A broker-managed user session.
#[derive(Debug, Clone)]
pub struct SessionInfo {
    /// Unix user name.
    pub username: String,
    /// Port the per-user server listens on.
    pub port: u16,
    /// Process id of the per-user server.
    pub pid: u32,
    pub state: SessionState,
    /// Unix time in seconds when the session was created.
    pub created_at: i64,
    /// Address of the most recent client; empty if there was none.
    pub client_addr: String,
}

} // verus!

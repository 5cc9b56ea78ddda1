//! The server side of the protocol.

use vstd::prelude::*;
use vstd::std_specs::convert::FromSpecImpl;
use crate::consts::ProtoError;
use crate::endian::le_bytes;
use crate::endian::u64_to_le_bytes;
use crate::error::IoError;
use crate::server::session::SessionOutcome;

pub mod session;
pub mod status;

verus! {

/// A measurement that the server intends to send: the number of microseconds since the
/// Unix epoch at which the event was detected.
#[derive(Clone, Copy, PartialEq, Eq, Debug, Structural)]
pub struct OutgoingDataPacket {
    /// Microseconds since the Unix epoch.
    pub time: u64,
}

/// Why a connection's handler gave up.
#[derive(Clone, Copy, PartialEq, Eq, Debug, Structural)]
pub enum ServiceError {
    /// The client violated the protocol.
    ProtoError(ProtoError),
    /// The transport failed.
    IoError(IoError),
}

/// Why the server stopped.
#[derive(Clone, Copy, PartialEq, Eq, Debug, Structural)]
pub enum ServerError {
    /// The transport failed.
    IoError(IoError),
    /// The supplier of packets hung up.
    ChannelTermination,
}

impl OutgoingDataPacket {
    /// The payload of this packet on the wire: its time in eight little-endian bytes.
    pub fn as_bytes(self) -> (b: [u8; 8])
        ensures
            b@ == le_bytes(self.time as nat, 8),
    {
        let v = u64_to_le_bytes(self.time);
        let b: [u8; 8] = [v[0], v[1], v[2], v[3], v[4], v[5], v[6], v[7]];
        assert(b@ =~= v@);
        b
    }
}

impl From<ProtoError> for ServiceError {
    fn from(value: ProtoError) -> (e: ServiceError) {
        ServiceError::ProtoError(value)
    }
}

impl FromSpecImpl<ProtoError> for ServiceError {
    open spec fn obeys_from_spec() -> bool {
        true
    }

    open spec fn from_spec(value: ProtoError) -> ServiceError {
        ServiceError::ProtoError(value)
    }
}

impl From<IoError> for ServiceError {
    fn from(value: IoError) -> (e: ServiceError) {
        ServiceError::IoError(value)
    }
}

impl FromSpecImpl<IoError> for ServiceError {
    open spec fn obeys_from_spec() -> bool {
        true
    }

    open spec fn from_spec(value: IoError) -> ServiceError {
        ServiceError::IoError(value)
    }
}

impl From<IoError> for ServerError {
    fn from(value: IoError) -> (e: ServerError) {
        ServerError::IoError(value)
    }
}

impl FromSpecImpl<IoError> for ServerError {
    open spec fn obeys_from_spec() -> bool {
        true
    }

    open spec fn from_spec(value: IoError) -> ServerError {
        ServerError::IoError(value)
    }
}

impl ServerError {
    /// A short description of this error.
    pub fn message(&self) -> (text: String)
        ensures
            self is ChannelTermination ==> text@ == "Channel disconnected"@,
            self matches ServerError::IoError(e) ==> text@ == e.kind.description()@,
    {
        match self {
            ServerError::ChannelTermination => "Channel disconnected".to_owned(),
            ServerError::IoError(e) => e.kind.describe().to_owned(),
        }
    }
}

/// The accept loop of a server: one connection at a time.
pub struct Server;

impl Server {
    /// What the accept loop does after a connection that ended with `outcome`: `Ok` to
    /// go on accepting, `Err` to stop the server with that error. A protocol violation
    /// concerns one connection only; a failed transport and a supplier that is gone
    /// end the server.
    pub open spec fn verdict(outcome: SessionOutcome) -> Result<(), ServerError> {
        match outcome {
            SessionOutcome::Completed => Ok(()),
            SessionOutcome::Failed(ServiceError::ProtoError(_)) => Ok(()),
            SessionOutcome::Failed(ServiceError::IoError(io)) => Err(ServerError::IoError(io)),
            SessionOutcome::ChannelTermination => Err(ServerError::ChannelTermination),
        }
    }

    /// What the accept loop does after a connection that ended with `outcome`.
    pub fn after_connection(outcome: SessionOutcome) -> (r: Result<(), ServerError>)
        ensures
            r == Server::verdict(outcome),
    {
        match outcome {
            SessionOutcome::Completed => Ok(()),
            SessionOutcome::Failed(ServiceError::ProtoError(_)) => Ok(()),
            SessionOutcome::Failed(ServiceError::IoError(io)) => Err(ServerError::IoError(io)),
            SessionOutcome::ChannelTermination => Err(ServerError::ChannelTermination),
        }
    }
}

} // verus!

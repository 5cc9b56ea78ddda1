//! The client side of the protocol.

use vstd::prelude::*;
use vstd::std_specs::convert::FromSpecImpl;
use crate::consts::ProtoError;
use crate::error::IoError;

pub mod data;
pub mod status;

verus! {

/// A measurement received from the server: the number of microseconds since the Unix
/// epoch at which the event was detected.
#[derive(Clone, Copy, PartialEq, Eq, Debug, Structural)]
pub struct IncomingDataPacket {
    /// Microseconds since the Unix epoch.
    pub time: u64,
}

/// Why a client call failed.
#[derive(Clone, Copy, PartialEq, Eq, Debug, Structural)]
pub enum ClientError {
    /// The transport failed, or the stream ended inside a frame.
    IoError(IoError),
    /// The server violated the protocol, or reported a violation.
    ProtoError(ProtoError),
}

impl From<IoError> for ClientError {
    fn from(value: IoError) -> (e: ClientError) {
        ClientError::IoError(value)
    }
}

impl FromSpecImpl<IoError> for ClientError {
    open spec fn obeys_from_spec() -> bool {
        true
    }

    open spec fn from_spec(value: IoError) -> ClientError {
        ClientError::IoError(value)
    }
}

impl From<ProtoError> for ClientError {
    fn from(value: ProtoError) -> (e: ClientError) {
        ClientError::ProtoError(value)
    }
}

impl FromSpecImpl<ProtoError> for ClientError {
    open spec fn obeys_from_spec() -> bool {
        true
    }

    open spec fn from_spec(value: ProtoError) -> ClientError {
        ClientError::ProtoError(value)
    }
}

} // verus!

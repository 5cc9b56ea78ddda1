//! Return codes for callers that cannot take a `Result`.

use vstd::prelude::*;
use crate::channel::TryRecvError;
use crate::client::ClientError;
use crate::client::IncomingDataPacket;
use crate::error::IoError;
use crate::server::ServerError;

verus! {

/// The call succeeded.
pub const CODE_OK: i32 = 0;

/// The transport failed without an error code of the operating system, or the peer
/// violated the protocol.
pub const CODE_IO: i32 = -1;

/// The supplier's channel was disconnected while the server ran.
pub const CODE_CHANNEL: i32 = -2;

/// A packet was received.
pub const RECV_OK: i32 = 0;

/// The sender has hung up.
pub const RECV_DISCONNECTED: i32 = 1;

/// No packet waits.
pub const RECV_EMPTY: i32 = 2;

/// The code of a transport failure: the operating system's, or `CODE_IO` if it gave
/// none.
pub open spec fn io_code(e: IoError) -> i32 {
    match e.code {
        Some(code) => code,
        None => CODE_IO,
    }
}

/// The code of a data client's result.
pub open spec fn client_code(result: Result<(), ClientError>) -> i32 {
    match result {
        Ok(()) => CODE_OK,
        Err(ClientError::IoError(e)) => io_code(e),
        Err(ClientError::ProtoError(_)) => CODE_IO,
    }
}

/// The code of a server's result.
pub open spec fn server_code(result: Result<(), ServerError>) -> i32 {
    match result {
        Ok(()) => CODE_OK,
        Err(ServerError::IoError(e)) => io_code(e),
        Err(ServerError::ChannelTermination) => CODE_CHANNEL,
    }
}

/// The code of a non-blocking receive.
pub open spec fn try_recv_code(result: Result<IncomingDataPacket, TryRecvError>) -> i32 {
    match result {
        Ok(_) => RECV_OK,
        Err(TryRecvError::Disconnected) => RECV_DISCONNECTED,
        Err(TryRecvError::Empty) => RECV_EMPTY,
    }
}

/// The return code of a data client that ended with `result`.
pub fn data_exit_code(result: Result<(), ClientError>) -> (code: i32)
    ensures
        code == client_code(result),
{
    match result {
        Ok(()) => CODE_OK,
        Err(ClientError::IoError(e)) => match e.code {
            Some(code) => code,
            None => CODE_IO,
        },
        Err(ClientError::ProtoError(_)) => CODE_IO,
    }
}

/// The return code of a server that ended with `result`.
pub fn server_exit_code(result: Result<(), ServerError>) -> (code: i32)
    ensures
        code == server_code(result),
{
    match result {
        Ok(()) => CODE_OK,
        Err(ServerError::IoError(e)) => match e.code {
            Some(code) => code,
            None => CODE_IO,
        },
        Err(ServerError::ChannelTermination) => CODE_CHANNEL,
    }
}

/// The return code of a non-blocking receive, and the packet to hand out if there is
/// one.
pub fn try_recv_exit_code(result: Result<IncomingDataPacket, TryRecvError>) -> (r: (
    i32,
    Option<IncomingDataPacket>,
))
    ensures
        r.0 == try_recv_code(result),
        r.1 == match result {
            Ok(packet) => Some(packet),
            Err(_) => None,
        },
{
    match result {
        Ok(packet) => (RECV_OK, Some(packet)),
        Err(TryRecvError::Disconnected) => (RECV_DISCONNECTED, None),
        Err(TryRecvError::Empty) => (RECV_EMPTY, None),
    }
}

} // verus!

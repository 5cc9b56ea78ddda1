//! The server's answer to a status request.

use vstd::prelude::*;
use crate::consts::ControlSignal;
use crate::consts::ProtoError;
use crate::consts::StatusData;
use crate::consts::StatusDataFlag;
use crate::consts::CTRL;
use crate::consts::OP_TRANS_END;
use crate::consts::STAT_CONN_IP;
use crate::consts::STAT_ECHO;
use crate::consts::STAT_TIME;
use crate::consts::STAT_VER;
use crate::endian::le_bytes;
use crate::endian::u128_to_le_bytes;
use crate::field::field_len;
use crate::field::through_nul;
use crate::frame::ctrl_frame;
use crate::version::Version;

verus! {

/// The fields of a status response, in wire order, each present exactly if its flag is
/// set in `flags`: the client's address, the clock in sixteen little-endian bytes, the
/// version, the echo.
pub open spec fn status_fields(
    flags: u8,
    ip: Seq<u8>,
    now: u128,
    ver: Seq<u8>,
    echo: Seq<u8>,
) -> Seq<u8> {
    (if flags & STAT_CONN_IP != 0 {
        ip
    } else {
        Seq::empty()
    }) + (if flags & STAT_TIME != 0 {
        le_bytes(now as nat, 16)
    } else {
        Seq::empty()
    }) + (if flags & STAT_VER != 0 {
        ver
    } else {
        Seq::empty()
    }) + (if flags & STAT_ECHO != 0 {
        echo
    } else {
        Seq::empty()
    })
}

/// The echo segment of a request (the bytes after the connection-type byte): with the
/// echo flag set, what follows the flag byte through the first `NUL`; empty otherwise.
pub open spec fn request_echo(req: Seq<u8>) -> Seq<u8> {
    if req.len() > 0 && req[0] & STAT_ECHO != 0 {
        through_nul(req.skip(1))
    } else {
        Seq::empty()
    }
}

/// What follows the flag byte and the echo segment of a request.
pub open spec fn request_trailer(req: Seq<u8>) -> Seq<u8> {
    req.skip(1 + request_echo(req).len() as int)
}

/// Whether `req` holds a whole request: a flag byte, the echo segment that the flag byte
/// calls for, and two more bytes.
pub open spec fn request_complete(req: Seq<u8>) -> bool {
    req.len() >= 1 && request_trailer(req).len() >= 2
}

/// The server's answer to the request `req` from a client at address `ip`, at clock
/// reading `now`, by a server of version `ver`.
///
/// A request that ends before its flag byte or inside its trailer is answered with
/// `Eof`; one whose trailer is not `[CTRL, OP_TRANS_END]` with `Invalid`; any other with
/// the fields that its flag byte asks for.
pub open spec fn status_reply(req: Seq<u8>, ip: Seq<u8>, now: u128, ver: Seq<u8>) -> Result<
    Seq<u8>,
    ProtoError,
> {
    if req.len() == 0 {
        Err(ProtoError::Eof)
    } else if request_trailer(req).len() < 2 {
        Err(ProtoError::Eof)
    } else if request_trailer(req).take(2) != ctrl_frame(ControlSignal::TransmissionEnd) {
        Err(ProtoError::Invalid)
    } else {
        Ok(status_fields(req[0], ip, now, ver, request_echo(req)))
    }
}

/// Whether `req`, the bytes received so far after the connection-type byte, hold a whole
/// request, so that reading can stop.
pub fn status_request_complete(req: &[u8]) -> (b: bool)
    ensures
        b == request_complete(req@),
{
    if req.len() == 0 {
        return false;
    }
    let flags = StatusData::from_u8(req[0]);
    let echo_len: usize = if flags.has_flag(StatusDataFlag::Echo) {
        field_len(req, 1)
    } else {
        0
    };
    req.len() - 1 - echo_len >= 2
}

/// Answers a status request.
///
/// `request` is what the client sent after the connection-type byte, `peer_ip` the
/// client's source address, `now_nanos` the server's clock in nanoseconds since the Unix
/// epoch. The result holds the response's fields; the caller follows them with
/// `[CTRL, OP_TRANS_END]`.
pub fn status_handler(request: &[u8], peer_ip: [u8; 4], now_nanos: u128, version: Version) -> (r:
    Result<Vec<u8>, ProtoError>)
    ensures
        match status_reply(request@, peer_ip@, now_nanos, version.bytes()) {
            Ok(fields) => r matches Ok(out) && out@ == fields,
            Err(e) => r == Err::<Vec<u8>, ProtoError>(e),
        },
{
    if request.len() == 0 {
        return Err(ProtoError::Eof);
    }
    let flags = StatusData::from_u8(request[0]);
    let mut out: Vec<u8> = Vec::new();
    if flags.has_flag(StatusDataFlag::ConnectionIp) {
        out.extend_from_slice(peer_ip.as_slice());
    }
    let ghost after_ip = out@;
    if flags.has_flag(StatusDataFlag::Time) {
        let mut time = u128_to_le_bytes(now_nanos);
        out.append(&mut time);
    }
    let ghost after_time = out@;
    if flags.has_flag(StatusDataFlag::Version) {
        let ver = version.as_bytes();
        out.extend_from_slice(ver.as_slice());
    }
    let ghost after_ver = out@;
    let echo_len: usize = if flags.has_flag(StatusDataFlag::Echo) {
        field_len(request, 1)
    } else {
        0
    };
    if echo_len > 0 {
        let echo = vstd::slice::slice_subrange(request, 1, 1 + echo_len);
        out.extend_from_slice(echo);
    }
    let rest: usize = request.len() - 1 - echo_len;
    if rest < 2 {
        return Err(ProtoError::Eof);
    }
    let at: usize = 1 + echo_len;
    proof {
        let trailer = request_trailer(request@);
        assert(trailer[0] == request@[at as int]);
        assert(trailer[1] == request@[at + 1]);
        assert(trailer.take(2)[0] == trailer[0]);
        assert(trailer.take(2)[1] == trailer[1]);
        let want = ctrl_frame(ControlSignal::TransmissionEnd);
        assert(want[0] == CTRL && want[1] == OP_TRANS_END && want.len() == 2);
        if request@[at as int] == CTRL && request@[at + 1] == OP_TRANS_END {
            assert(trailer.take(2) =~= want);
        }
    }
    if request[at] != CTRL || request[at + 1] != OP_TRANS_END {
        return Err(ProtoError::Invalid);
    }
    proof {
        let echo = request_echo(request@);
        assert(request@.subrange(1, 1 + echo_len) =~= request@.skip(1).take(echo_len as int));
        if flags.has(StatusDataFlag::Echo) {
            crate::field::lemma_nul_at(request@.skip(1));
            assert(request@.skip(1).take(echo_len as int) =~= echo);
        }
        assert(out@ =~= status_fields(
            request@[0],
            peer_ip@,
            now_nanos,
            version.bytes(),
            echo,
        ));
    }
    Ok(out)
}

} // verus!

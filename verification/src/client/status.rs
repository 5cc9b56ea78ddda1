//! The client's side of a status exchange: the request and the reading of the response.

use vstd::prelude::*;
use crate::client::ClientError;
use crate::consts::ControlSignal;
use crate::consts::ProtoError;
use crate::consts::StatusData;
use crate::consts::StatusDataFlag;
use crate::consts::CONN_STAT;
use crate::consts::CTRL;
use crate::consts::NUL;
use crate::consts::OP_EXIT;
use crate::consts::OP_TRANS_END;
use crate::consts::STAT_CONN_IP;
use crate::consts::STAT_ECHO;
use crate::consts::STAT_TIME;
use crate::consts::STAT_VER;
use crate::endian::le_value;
use crate::endian::u128_from_le_bytes;
use crate::error::IoError;
use crate::field::field_len;
use crate::field::nul_free;
use crate::field::through_nul;
use crate::frame::ctrl_frame;

verus! {

/// What a server reported about itself and the connection. A field is present exactly if
/// the request asked for it.
#[derive(Clone, PartialEq, Eq, Debug)]
pub struct StatusResponse {
    /// The client's source IPv4 address as the server saw it.
    pub ip: Option<[u8; 4]>,
    /// The server's clock, in nanoseconds since the Unix epoch.
    pub time: Option<u128>,
    /// The server's version: major, minor, patch.
    pub ver: Option<[u8; 3]>,
    /// The echo bytes, without their terminating `NUL`.
    pub echo: Option<Vec<u8>>,
}

/// The mathematical content of a [`StatusResponse`].
pub ghost struct StatusReport {
    /// The client's source address: four bytes.
    pub ip: Option<Seq<u8>>,
    /// The server's clock.
    pub time: Option<u128>,
    /// The server's version: three bytes.
    pub ver: Option<Seq<u8>>,
    /// The echo bytes.
    pub echo: Option<Seq<u8>>,
}

impl View for StatusResponse {
    type V = StatusReport;

    open spec fn view(&self) -> StatusReport {
        StatusReport {
            ip: match self.ip {
                Some(a) => Some(a@),
                None => None,
            },
            time: self.time,
            ver: match self.ver {
                Some(a) => Some(a@),
                None => None,
            },
            echo: match self.echo {
                Some(v) => Some(v@),
                None => None,
            },
        }
    }
}

/// The trailer that ends every status response.
pub open spec fn status_trailer() -> Seq<u8> {
    seq![CTRL, OP_TRANS_END, CTRL, OP_EXIT]
}

/// The bytes of a status request with flag byte `flags` and echo bytes `echo`: the
/// connection type, the flag byte, the echo and its `NUL` if the echo flag is set, and
/// the end of the transmission.
pub open spec fn status_request_bytes(flags: u8, echo: Seq<u8>) -> Seq<u8> {
    seq![CONN_STAT, flags] + (if flags & STAT_ECHO != 0 {
        echo + seq![NUL]
    } else {
        Seq::empty()
    }) + ctrl_frame(ControlSignal::TransmissionEnd)
}

/// Width of the address field under `flags`.
pub open spec fn ip_len(flags: u8) -> nat {
    if flags & STAT_CONN_IP != 0 {
        4
    } else {
        0
    }
}

/// Width of the clock field under `flags`.
pub open spec fn time_len(flags: u8) -> nat {
    if flags & STAT_TIME != 0 {
        16
    } else {
        0
    }
}

/// Width of the version field under `flags`.
pub open spec fn ver_len(flags: u8) -> nat {
    if flags & STAT_VER != 0 {
        3
    } else {
        0
    }
}

/// Width of the fixed-width fields under `flags`.
pub open spec fn fixed_len(flags: u8) -> nat {
    ip_len(flags) + time_len(flags) + ver_len(flags)
}

/// The echo field of `resp` as it stands on the wire: with the echo flag set, what
/// follows the fixed-width fields through the first `NUL`; empty otherwise.
pub open spec fn response_echo(flags: u8, resp: Seq<u8>) -> Seq<u8> {
    if flags & STAT_ECHO != 0 && resp.len() >= fixed_len(flags) {
        through_nul(resp.skip(fixed_len(flags) as int))
    } else {
        Seq::empty()
    }
}

/// What follows the fields of `resp`.
pub open spec fn response_trailer(flags: u8, resp: Seq<u8>) -> Seq<u8> {
    resp.skip((fixed_len(flags) + response_echo(flags, resp).len()) as int)
}

/// Whether `resp` holds a whole response to a request with `flags`: every field and
/// four more bytes.
pub open spec fn response_complete(flags: u8, resp: Seq<u8>) -> bool {
    resp.len() >= fixed_len(flags) && response_trailer(flags, resp).len() >= 4
}

/// The fields of `resp`, read in wire order, each present exactly if `flags` asks for it.
pub open spec fn response_fields(flags: u8, resp: Seq<u8>) -> StatusReport {
    let a = ip_len(flags) as int;
    let b = a + time_len(flags);
    let c = b + ver_len(flags);
    let echo = response_echo(flags, resp);
    StatusReport {
        ip: if flags & STAT_CONN_IP != 0 {
            Some(resp.subrange(0, a))
        } else {
            None
        },
        time: if flags & STAT_TIME != 0 {
            Some(le_value(resp.subrange(a, b)) as u128)
        } else {
            None
        },
        ver: if flags & STAT_VER != 0 {
            Some(resp.subrange(b, c))
        } else {
            None
        },
        echo: if flags & STAT_ECHO != 0 {
            Some(if echo.len() > 0 {
                echo.drop_last()
            } else {
                echo
            })
        } else {
            None
        },
    }
}

/// How a client reads the response `resp` to a request with `flags`.
///
/// A response that ends inside a field or inside its trailer is a transport failure; one
/// whose trailer is not [`status_trailer`] a protocol violation; any other is read as
/// its fields.
pub open spec fn parse_response(flags: u8, resp: Seq<u8>) -> Result<StatusReport, ClientError> {
    if !response_complete(flags, resp) {
        Err(ClientError::IoError(IoError::eof()))
    } else if response_trailer(flags, resp).take(4) != status_trailer() {
        Err(ClientError::ProtoError(ProtoError::Invalid))
    } else {
        Ok(response_fields(flags, resp))
    }
}

/// Builds the one write of a status request.
///
/// With the echo flag set, the caller supplies the echo bytes, and they hold no `NUL`.
/// Without it, `echo` is ignored.
pub fn status_request(flags: StatusData, echo: Option<&[u8]>) -> (out: Vec<u8>)
    requires
        flags.has(StatusDataFlag::Echo) ==> (echo matches Some(e) && nul_free(e@)),
    ensures
        out@ == status_request_bytes(
            flags.bits(),
            match echo {
                Some(e) => e@,
                None => Seq::empty(),
            },
        ),
{
    let mut out: Vec<u8> = Vec::new();
    out.push(CONN_STAT);
    out.push(flags.data());
    if flags.has_flag(StatusDataFlag::Echo) {
        match echo {
            Some(e) => {
                out.extend_from_slice(e);
            },
            None => {},
        }
        out.push(NUL);
    }
    out.push(CTRL);
    out.push(OP_TRANS_END);
    proof {
        let e = match echo {
            Some(e) => e@,
            None => Seq::empty(),
        };
        assert(out@ =~= status_request_bytes(flags.bits(), e));
    }
    out
}

/// Whether `response`, the bytes received so far, hold a whole response to a request
/// with `flags`, so that reading can stop.
pub fn status_response_complete(flags: StatusData, response: &[u8]) -> (b: bool)
    ensures
        b == response_complete(flags.bits(), response@),
{
    let mut fixed: usize = 0;
    if flags.has_flag(StatusDataFlag::ConnectionIp) {
        fixed = fixed + 4;
    }
    if flags.has_flag(StatusDataFlag::Time) {
        fixed = fixed + 16;
    }
    if flags.has_flag(StatusDataFlag::Version) {
        fixed = fixed + 3;
    }
    if response.len() < fixed {
        return false;
    }
    let echo_len: usize = if flags.has_flag(StatusDataFlag::Echo) {
        field_len(response, fixed)
    } else {
        0
    };
    response.len() - fixed - echo_len >= 4
}

/// Reads the response to a status request with `flags`.
pub fn parse_status_response(flags: StatusData, response: &[u8]) -> (r: Result<
    StatusResponse,
    ClientError,
>)
    ensures
        match parse_response(flags.bits(), response@) {
            Ok(report) => r matches Ok(resp) && resp@ == report,
            Err(e) => r == Err::<StatusResponse, ClientError>(e),
        },
{
    let ghost bits = flags.bits();
    let ghost resp = response@;
    if !status_response_complete(flags, response) {
        return Err(ClientError::IoError(IoError::unexpected_eof()));
    }
    let mut pos: usize = 0;
    let mut ip: Option<[u8; 4]> = None;
    if flags.has_flag(StatusDataFlag::ConnectionIp) {
        let a: [u8; 4] = [response[0], response[1], response[2], response[3]];
        assert(a@ =~= resp.subrange(0, 4));
        ip = Some(a);
        pos = 4;
    }
    let mut time: Option<u128> = None;
    if flags.has_flag(StatusDataFlag::Time) {
        let t = u128_from_le_bytes(vstd::slice::slice_subrange(response, pos, pos + 16));
        time = Some(t);
        pos = pos + 16;
    }
    let mut ver: Option<[u8; 3]> = None;
    if flags.has_flag(StatusDataFlag::Version) {
        let v: [u8; 3] = [response[pos], response[pos + 1], response[pos + 2]];
        assert(v@ =~= resp.subrange(pos as int, pos + 3));
        ver = Some(v);
        pos = pos + 3;
    }
    assert(pos == fixed_len(bits));
    let mut echo: Option<Vec<u8>> = None;
    if flags.has_flag(StatusDataFlag::Echo) {
        let n: usize = field_len(response, pos);
        assert(pos + n <= response.len());
        let mut buf: Vec<u8> = Vec::new();
        buf.extend_from_slice(vstd::slice::slice_subrange(response, pos, pos + n));
        assert(buf@ =~= response_echo(bits, resp)) by {
            crate::field::lemma_nul_at(resp.skip(pos as int));
            assert(resp.subrange(pos as int, pos + n) =~= resp.skip(pos as int).take(n as int));
        }
        buf.pop();
        echo = Some(buf);
        pos = pos + n;
    }
    proof {
        let trailer = response_trailer(bits, resp);
        assert(trailer.len() >= 4);
        assert(trailer.take(4).len() == 4);
        assert(forall|i: int| 0 <= i < 4 ==> trailer.take(4)[i] == resp[pos + i]);
        assert(status_trailer().len() == 4);
        if resp[pos as int] == CTRL && resp[pos + 1] == OP_TRANS_END && resp[pos + 2] == CTRL
            && resp[pos + 3] == OP_EXIT {
            assert(trailer.take(4) =~= status_trailer());
        } else {
            assert(status_trailer()[0] == CTRL);
            assert(status_trailer()[1] == OP_TRANS_END);
            assert(status_trailer()[2] == CTRL);
            assert(status_trailer()[3] == OP_EXIT);
        }
    }
    if response[pos] != CTRL || response[pos + 1] != OP_TRANS_END || response[pos + 2] != CTRL
        || response[pos + 3] != OP_EXIT {
        return Err(ClientError::ProtoError(ProtoError::Invalid));
    }
    let out = StatusResponse { ip, time, ver, echo };
    proof {
        let report = response_fields(bits, resp);
        assert(out@.ip == report.ip);
        assert(out@.time == report.time);
        assert(out@.ver == report.ver);
        assert(out@.echo == report.echo);
    }
    Ok(out)
}

} // verus!

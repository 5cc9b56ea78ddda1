//! Laws that relate the two sides of the protocol.

use vstd::prelude::*;
use crate::client::data::data_run;
use crate::client::data::data_step;
use crate::client::data::DataActionView;
use crate::client::data::DataEventView;
use crate::client::data::DataState;
use crate::client::status::parse_response;
use crate::client::status::response_echo;
use crate::client::status::response_trailer;
use crate::client::status::status_request_bytes;
use crate::client::status::status_trailer;
use crate::client::status::StatusReport;
use crate::client::status::fixed_len;
use crate::client::status::ip_len;
use crate::client::status::time_len;
use crate::client::status::ver_len;
use crate::consts::ControlSignal;
use crate::consts::StatusData;
use crate::consts::StatusDataFlag;
use crate::consts::CONN_STAT;
use crate::consts::NUL;
use crate::client::IncomingDataPacket;
use crate::consts::SIG_PACKET;
use crate::endian::le_bytes;
use crate::endian::le_value;
use crate::endian::lemma_le_bytes_of_value;
use crate::frame::packet_frame;
use crate::endian::lemma_le_bytes_len;
use crate::endian::lemma_le_round_trip;
use crate::endian::lemma_pow256_widths;
use crate::field::lemma_through_nul_of_field;
use crate::field::nul_free;
use crate::frame::ctrl_frame;
use crate::server::session::accepted;
use crate::server::session::server_run;
use crate::server::session::written;
use crate::server::session::ServerActionView;
use crate::server::session::ServerEventView;
use crate::server::session::ServerState;
use crate::server::session::SessionOutcome;
use crate::server::status::request_complete;
use crate::server::status::request_echo;
use crate::server::status::request_trailer;
use crate::server::status::status_fields;
use crate::server::status::status_reply;

verus! {

/// What a client that asked with `flags` and `echo` is owed by a server that sees it at
/// address `ip`, reads its clock as `now` and has version `ver`.
pub open spec fn expected_report(
    flags: StatusData,
    echo: Seq<u8>,
    ip: Seq<u8>,
    now: u128,
    ver: Seq<u8>,
) -> StatusReport {
    StatusReport {
        ip: if flags.has(StatusDataFlag::ConnectionIp) {
            Some(ip)
        } else {
            None
        },
        time: if flags.has(StatusDataFlag::Time) {
            Some(now)
        } else {
            None
        },
        ver: if flags.has(StatusDataFlag::Version) {
            Some(ver)
        } else {
            None
        },
        echo: if flags.has(StatusDataFlag::Echo) {
            Some(echo)
        } else {
            None
        },
    }
}

/// Status round trip. For every choice of flags, and every echo without `NUL`: the
/// server accepts the client's request, and the client reads the server's fields,
/// followed by the closing trailer, as exactly the address, clock, version and echo that
/// went in, each present exactly if its flag is set.
pub proof fn lemma_status_round_trip(
    flags: StatusData,
    echo: Seq<u8>,
    ip: Seq<u8>,
    now: u128,
    ver: Seq<u8>,
)
    requires
        ip.len() == 4,
        ver.len() == 3,
        flags.has(StatusDataFlag::Echo) ==> nul_free(echo),
    ensures
        status_request_bytes(flags.bits(), echo)[0] == CONN_STAT,
        status_reply(status_request_bytes(flags.bits(), echo).skip(1), ip, now, ver) is Ok,
        parse_response(
            flags.bits(),
            status_reply(status_request_bytes(flags.bits(), echo).skip(1), ip, now, ver)->Ok_0
                + status_trailer(),
        ) == Ok::<StatusReport, crate::client::ClientError>(
            expected_report(flags, echo, ip, now, ver),
        ),
{
    let f = flags.bits();
    let has_echo = flags.has(StatusDataFlag::Echo);
    let end = ctrl_frame(ControlSignal::TransmissionEnd);
    let segment = if has_echo {
        echo + seq![NUL]
    } else {
        Seq::<u8>::empty()
    };
    let wire = status_request_bytes(f, echo);
    let req = wire.skip(1);

    // The server's reading of the request.
    assert(wire =~= seq![CONN_STAT, f] + segment + end);
    assert(req =~= seq![f] + segment + end);
    assert(req[0] == f);
    assert(req.skip(1) =~= segment + end);
    if has_echo {
        lemma_through_nul_of_field(echo, end);
        assert(req.skip(1) =~= echo + seq![NUL] + end);
    }
    assert(request_echo(req) == segment);
    assert(request_trailer(req) =~= end);
    assert(end.take(2) =~= end);
    let fields = status_fields(f, ip, now, ver, segment);
    assert(status_reply(req, ip, now, ver) == Ok::<Seq<u8>, crate::consts::ProtoError>(fields));

    // The client's reading of the response.
    let clock = le_bytes(now as nat, 16);
    lemma_le_bytes_len(now as nat, 16);
    lemma_pow256_widths();
    lemma_le_round_trip(now as nat, 16);
    let part_ip = if flags.has(StatusDataFlag::ConnectionIp) {
        ip
    } else {
        Seq::<u8>::empty()
    };
    let part_time = if flags.has(StatusDataFlag::Time) {
        clock
    } else {
        Seq::<u8>::empty()
    };
    let part_ver = if flags.has(StatusDataFlag::Version) {
        ver
    } else {
        Seq::<u8>::empty()
    };
    let resp = fields + status_trailer();
    let a = ip_len(f) as int;
    let b = a + time_len(f);
    let c = b + ver_len(f);
    assert(fields =~= part_ip + part_time + part_ver + segment);
    assert(part_ip.len() == a && part_time.len() == b - a && part_ver.len() == c - b);
    assert(c == fixed_len(f));
    assert(resp.skip(c) =~= segment + status_trailer());
    if has_echo {
        lemma_through_nul_of_field(echo, status_trailer());
        assert(resp.skip(c) =~= echo + seq![NUL] + status_trailer());
        assert(segment.drop_last() =~= echo);
    }
    assert(response_echo(f, resp) == segment);
    assert(response_trailer(f, resp) =~= status_trailer());
    assert(status_trailer().take(4) =~= status_trailer());
    assert(resp.subrange(0, a) =~= part_ip);
    assert(resp.subrange(a, b) =~= part_time);
    assert(resp.subrange(b, c) =~= part_ver);
    let got = crate::client::status::response_fields(f, resp);
    let want = expected_report(flags, echo, ip, now, ver);
    assert(got.ip == want.ip);
    assert(got.time == want.time);
    assert(got.ver == want.ver);
    assert(got.echo == want.echo);
}

/// Packet round trip. For every payload `v`: a client that reads the server's frame of
/// `v`, first the signal byte and then the eight bytes it announces, delivers `v` to
/// the consumer.
pub proof fn lemma_packet_delivery(v: u64)
    ensures
        packet_frame(v).len() == 9,
        data_run(
            DataState::AwaitingSignal,
            seq![
                DataEventView::Received(packet_frame(v).take(1)),
                DataEventView::Received(packet_frame(v).skip(1)),
            ],
        ) == (
            DataState::Delivering,
            seq![DataActionView::Read(8), DataActionView::Deliver(IncomingDataPacket { time: v })],
        ),
{
    let frame = packet_frame(v);
    let a = DataEventView::Received(frame.take(1));
    let b = DataEventView::Received(frame.skip(1));
    let none = Seq::<DataEventView>::empty();
    lemma_le_bytes_len(v as nat, 8);
    lemma_pow256_widths();
    lemma_le_round_trip(v as nat, 8);
    assert(frame.take(1)[0] == SIG_PACKET);
    assert(frame.skip(1) =~= le_bytes(v as nat, 8));
    crate::client::data::lemma_run_push(DataState::AwaitingSignal, none, a);
    crate::client::data::lemma_run_push(DataState::AwaitingSignal, none.push(a), b);
    assert(none.push(a).push(b) =~= seq![a, b]);
    let got = data_run(DataState::AwaitingSignal, seq![a, b]);
    assert(got.1 =~= seq![
        DataActionView::Read(8),
        DataActionView::Deliver(IncomingDataPacket { time: v }),
    ]);
}

/// Packets are read as they were written. Whatever eight bytes follow the packet
/// signal, the value that the client delivers for them is the one value whose frame is
/// the packet signal and those eight bytes.
pub proof fn lemma_packet_wire(payload: Seq<u8>)
    requires
        payload.len() == 8,
    ensures
        le_value(payload) <= u64::MAX,
        data_step(DataState::AwaitingPayload, DataEventView::Received(payload)).1
            == DataActionView::Deliver(IncomingDataPacket { time: le_value(payload) as u64 }),
        packet_frame(le_value(payload) as u64) == seq![SIG_PACKET] + payload,
{
    crate::endian::lemma_le_value_bound(payload);
    lemma_pow256_widths();
    lemma_le_bytes_of_value(payload);
}

/// What the server's machine does with a status request. A server that receives the
/// request which a client built for `flags` and `echo`, the connection-type byte first
/// and the rest after it, writes its fields and the closing trailer, and completes.
pub proof fn lemma_status_wire(flags: StatusData, echo: Seq<u8>, ip: Seq<u8>, now: u128)
    requires
        ip.len() == 4,
        flags.has(StatusDataFlag::Echo) ==> nul_free(echo),
    ensures
        status_reply(
            status_request_bytes(flags.bits(), echo).skip(1),
            ip,
            now,
            crate::version::Version::current(),
        ) is Ok,
        status_run(flags, echo, ip, now).0.state == ServerState::Closed(SessionOutcome::Completed),
        status_run(flags, echo, ip, now).1.len() == 4,
        status_run(flags, echo, ip, now).1[3] == ServerActionView::Shutdown(
            SessionOutcome::Completed,
        ),
        written(status_run(flags, echo, ip, now).1) == status_reply(
            status_request_bytes(flags.bits(), echo).skip(1),
            ip,
            now,
            crate::version::Version::current(),
        )->Ok_0 + status_trailer(),
{
    let ver = crate::version::Version::current();
    let req = status_request_bytes(flags.bits(), echo).skip(1);
    lemma_request_is_whole(flags, echo);
    assert(status_reply(req, ip, now, ver) is Ok);
    crate::server::session::lemma_status_session(ip, now, req);
    let fields = status_reply(req, ip, now, ver)->Ok_0;
    assert(fields + ctrl_frame(ControlSignal::TransmissionEnd) + ctrl_frame(ControlSignal::Exit)
        =~= fields + status_trailer());
}

/// The run of a server that receives the request built for `flags` and `echo`, in two
/// reads, and whose two writes succeed.
pub open spec fn status_run(flags: StatusData, echo: Seq<u8>, ip: Seq<u8>, now: u128) -> (
    crate::server::session::SessionView,
    Seq<ServerActionView>,
) {
    server_run(
        accepted(ip, now),
        seq![
            ServerEventView::Received(status_request_bytes(flags.bits(), echo).take(1)),
            ServerEventView::Received(status_request_bytes(flags.bits(), echo).skip(1)),
            ServerEventView::Written,
            ServerEventView::Written,
        ],
    )
}

/// Status exchange. The client reads all that the server wrote in answer to its
/// request as exactly what it is owed: the address, the clock, the version and the
/// echo that went in, each present exactly if its flag is set.
pub proof fn lemma_status_exchange(flags: StatusData, echo: Seq<u8>, ip: Seq<u8>, now: u128)
    requires
        ip.len() == 4,
        flags.has(StatusDataFlag::Echo) ==> nul_free(echo),
    ensures
        status_run(flags, echo, ip, now).0.state == ServerState::Closed(SessionOutcome::Completed),
        parse_response(flags.bits(), written(status_run(flags, echo, ip, now).1)) == Ok::<
            StatusReport,
            crate::client::ClientError,
        >(expected_report(flags, echo, ip, now, crate::version::Version::current())),
{
    lemma_status_wire(flags, echo, ip, now);
    lemma_status_round_trip(flags, echo, ip, now, crate::version::Version::current());
}

/// The request that a client builds is whole: a server that has read it knows that
/// nothing is missing.
pub proof fn lemma_request_is_whole(flags: StatusData, echo: Seq<u8>)
    requires
        flags.has(StatusDataFlag::Echo) ==> nul_free(echo),
    ensures
        status_request_bytes(flags.bits(), echo).take(1) == seq![CONN_STAT],
        request_complete(status_request_bytes(flags.bits(), echo).skip(1)),
        forall|ip: Seq<u8>, now: u128, ver: Seq<u8>| #[trigger]
            status_reply(status_request_bytes(flags.bits(), echo).skip(1), ip, now, ver) is Ok,
{
    let f = flags.bits();
    let end = ctrl_frame(ControlSignal::TransmissionEnd);
    let segment = if flags.has(StatusDataFlag::Echo) {
        echo + seq![NUL]
    } else {
        Seq::<u8>::empty()
    };
    let req = status_request_bytes(f, echo).skip(1);
    assert(req =~= seq![f] + segment + end);
    assert(req.skip(1) =~= segment + end);
    if flags.has(StatusDataFlag::Echo) {
        lemma_through_nul_of_field(echo, end);
        assert(req.skip(1) =~= echo + seq![NUL] + end);
    }
    assert(request_echo(req) == segment);
    assert(request_trailer(req) =~= end);
    assert(end.take(2) =~= end);
    assert(status_request_bytes(f, echo).take(1) =~= seq![CONN_STAT]);
}

} // verus!

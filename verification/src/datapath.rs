//! The data path from the supplier to the consumer: what the server writes for what
//! the supplier hands out, and what the client delivers for what it reads.

use vstd::prelude::*;
use crate::channel::TryRecvError;
use crate::client::data::data_run;
use crate::client::data::data_step;
use crate::client::data::DataActionView;
use crate::client::data::DataEventView;
use crate::client::data::DataState;
use crate::client::IncomingDataPacket;
use crate::consts::SIG_PACKET;
use crate::endian::le_bytes;
use crate::endian::lemma_le_bytes_len;
use crate::endian::lemma_le_round_trip;
use crate::endian::lemma_pow256_widths;
use crate::error::IoError;
use crate::error::IoErrorKind;
use crate::frame::empty_frame;
use crate::frame::packet_frame;
use crate::server::session::server_run;
use crate::server::session::server_step;
use crate::server::session::written;
use crate::server::session::ServerActionView;
use crate::server::session::ServerEventView;
use crate::server::session::ServerState;
use crate::server::session::SessionView;
use crate::server::OutgoingDataPacket;

verus! {

/// The frame that the server writes for an answer of the supplier that lets the
/// connection go on: the packet's frame, or a heartbeat.
pub open spec fn frame_for(answer: Result<OutgoingDataPacket, TryRecvError>) -> Seq<u8> {
    match answer {
        Ok(packet) => packet_frame(packet.time),
        Err(_) => empty_frame(),
    }
}

/// Whether the supplier is still there in every one of `answers`.
pub open spec fn supplier_stays(answers: Seq<Result<OutgoingDataPacket, TryRecvError>>) -> bool {
    forall|i: int|
        0 <= i < answers.len() ==> #[trigger] answers[i] != Err::<
            OutgoingDataPacket,
            TryRecvError,
        >(TryRecvError::Disconnected)
}

/// The frames of `answers`, one after the other.
pub open spec fn stream(answers: Seq<Result<OutgoingDataPacket, TryRecvError>>) -> Seq<u8>
    decreases answers.len(),
{
    if answers.len() == 0 {
        Seq::empty()
    } else {
        stream(answers.drop_last()) + frame_for(answers.last())
    }
}

/// The packets among `answers`, in order, as the consumer is to receive them.
pub open spec fn packets(answers: Seq<Result<OutgoingDataPacket, TryRecvError>>) -> Seq<
    IncomingDataPacket,
>
    decreases answers.len(),
{
    if answers.len() == 0 {
        Seq::empty()
    } else {
        match answers.last() {
            Ok(packet) => packets(answers.drop_last()).push(
                IncomingDataPacket { time: packet.time },
            ),
            Err(_) => packets(answers.drop_last()),
        }
    }
}

/// What happens to a server in one round of its data loop: the probe finds nothing, the
/// supplier gives `answer`, the write succeeds.
pub open spec fn server_round(
    answer: Result<OutgoingDataPacket, TryRecvError>,
    nothing_yet: IoError,
) -> Seq<ServerEventView> {
    seq![
        ServerEventView::Failed(nothing_yet),
        ServerEventView::Supplied(answer),
        ServerEventView::Written,
    ]
}

/// What happens to a server in one round for each of `answers`.
pub open spec fn server_rounds(
    answers: Seq<Result<OutgoingDataPacket, TryRecvError>>,
    nothing_yet: IoError,
) -> Seq<ServerEventView>
    decreases answers.len(),
{
    if answers.len() == 0 {
        Seq::empty()
    } else {
        server_rounds(answers.drop_last(), nothing_yet) + server_round(
            answers.last(),
            nothing_yet,
        )
    }
}

/// What happens to a client that reads the frame of `answer` while its consumer stays:
/// it reads the signal byte and, for a packet, the payload, which the consumer takes;
/// then the consumer is found alive.
pub open spec fn client_round(answer: Result<OutgoingDataPacket, TryRecvError>) -> Seq<
    DataEventView,
> {
    match answer {
        Ok(packet) => seq![
            DataEventView::Received(packet_frame(packet.time).take(1)),
            DataEventView::Received(packet_frame(packet.time).skip(1)),
            DataEventView::Delivered(true),
            DataEventView::Consumer(true),
        ],
        Err(_) => seq![DataEventView::Received(empty_frame()), DataEventView::Consumer(true)],
    }
}

/// What happens to a client that reads the frames of `answers`.
pub open spec fn client_rounds(answers: Seq<Result<OutgoingDataPacket, TryRecvError>>) -> Seq<
    DataEventView,
>
    decreases answers.len(),
{
    if answers.len() == 0 {
        Seq::empty()
    } else {
        client_rounds(answers.drop_last()) + client_round(answers.last())
    }
}

/// All the bytes that `events` report as read, in order.
pub open spec fn received(events: Seq<DataEventView>) -> Seq<u8>
    decreases events.len(),
{
    if events.len() == 0 {
        Seq::empty()
    } else {
        received(events.drop_last()) + (match events.last() {
            DataEventView::Received(bytes) => bytes,
            _ => Seq::empty(),
        })
    }
}

/// The packets that `actions` hand to the consumer, in order.
pub open spec fn delivered(actions: Seq<DataActionView>) -> Seq<IncomingDataPacket>
    decreases actions.len(),
{
    if actions.len() == 0 {
        Seq::empty()
    } else {
        match actions.last() {
            DataActionView::Deliver(packet) => delivered(actions.drop_last()).push(packet),
            _ => delivered(actions.drop_last()),
        }
    }
}

/// A run of the server over two stretches of events is the run over the first followed
/// by the run over the second.
pub proof fn lemma_server_run_concat(
    s: SessionView,
    first: Seq<ServerEventView>,
    second: Seq<ServerEventView>,
)
    ensures
        server_run(s, first + second).0 == server_run(server_run(s, first).0, second).0,
        server_run(s, first + second).1 == server_run(s, first).1 + server_run(
            server_run(s, first).0,
            second,
        ).1,
    decreases second.len(),
{
    let mid = server_run(s, first).0;
    if second.len() == 0 {
        assert(first + second =~= first);
        assert(server_run(s, first).1 + server_run(mid, second).1 =~= server_run(s, first).1);
    } else {
        lemma_server_run_concat(s, first, second.drop_last());
        assert((first + second).drop_last() =~= first + second.drop_last());
        assert((first + second).last() == second.last());
        let before = server_run(mid, second.drop_last());
        let step = server_step(before.0, second.last());
        assert(server_run(s, first + second).1 =~= server_run(s, first).1 + before.1.push(
            step.1,
        ));
    }
}

/// What two stretches of actions write is what the first writes followed by what the
/// second writes.
pub proof fn lemma_written_concat(first: Seq<ServerActionView>, second: Seq<ServerActionView>)
    ensures
        written(first + second) == written(first) + written(second),
    decreases second.len(),
{
    if second.len() == 0 {
        assert(first + second =~= first);
        assert(written(first) + written(second) =~= written(first));
    } else {
        lemma_written_concat(first, second.drop_last());
        assert((first + second).drop_last() =~= first + second.drop_last());
        assert((first + second).last() == second.last());
        let tail = match second.last() {
            ServerActionView::Write(bytes) => bytes,
            _ => Seq::empty(),
        };
        assert(written(first + second) =~= written(first) + (written(second.drop_last()) + tail));
    }
}

/// A run of the client over two stretches of events is the run over the first followed
/// by the run over the second.
pub proof fn lemma_client_run_concat(
    s: DataState,
    first: Seq<DataEventView>,
    second: Seq<DataEventView>,
)
    ensures
        data_run(s, first + second).0 == data_run(data_run(s, first).0, second).0,
        data_run(s, first + second).1 == data_run(s, first).1 + data_run(
            data_run(s, first).0,
            second,
        ).1,
    decreases second.len(),
{
    let mid = data_run(s, first).0;
    if second.len() == 0 {
        assert(first + second =~= first);
        assert(data_run(s, first).1 + data_run(mid, second).1 =~= data_run(s, first).1);
    } else {
        lemma_client_run_concat(s, first, second.drop_last());
        assert((first + second).drop_last() =~= first + second.drop_last());
        assert((first + second).last() == second.last());
        let before = data_run(mid, second.drop_last());
        let step = data_step(before.0, second.last());
        assert(data_run(s, first + second).1 =~= data_run(s, first).1 + before.1.push(step.1));
    }
}

/// What two stretches of actions deliver is what the first delivers followed by what
/// the second delivers.
pub proof fn lemma_delivered_concat(first: Seq<DataActionView>, second: Seq<DataActionView>)
    ensures
        delivered(first + second) == delivered(first) + delivered(second),
    decreases second.len(),
{
    if second.len() == 0 {
        assert(first + second =~= first);
        assert(delivered(first) + delivered(second) =~= delivered(first));
    } else {
        lemma_delivered_concat(first, second.drop_last());
        assert((first + second).drop_last() =~= first + second.drop_last());
        assert((first + second).last() == second.last());
        match second.last() {
            DataActionView::Deliver(packet) => {
                assert(delivered(first + second) =~= delivered(first) + delivered(
                    second.drop_last(),
                ).push(packet));
            },
            _ => {},
        }
    }
}

/// What two stretches of events report as read is what the first reports followed by
/// what the second reports.
pub proof fn lemma_received_concat(first: Seq<DataEventView>, second: Seq<DataEventView>)
    ensures
        received(first + second) == received(first) + received(second),
    decreases second.len(),
{
    if second.len() == 0 {
        assert(first + second =~= first);
        assert(received(first) + received(second) =~= received(first));
    } else {
        lemma_received_concat(first, second.drop_last());
        assert((first + second).drop_last() =~= first + second.drop_last());
        assert((first + second).last() == second.last());
        let tail = match second.last() {
            DataEventView::Received(bytes) => bytes,
            _ => Seq::empty(),
        };
        assert(received(first + second) =~= received(first) + (received(second.drop_last())
            + tail));
    }
}

/// One round of the server's data loop: the server writes the frame of the supplier's
/// answer and is back where it was.
pub proof fn lemma_server_round(
    s: SessionView,
    answer: Result<OutgoingDataPacket, TryRecvError>,
    nothing_yet: IoError,
)
    requires
        s.state == ServerState::Probing,
        nothing_yet.kind == IoErrorKind::WouldBlock,
        answer != Err::<OutgoingDataPacket, TryRecvError>(TryRecvError::Disconnected),
    ensures
        server_run(s, server_round(answer, nothing_yet)).0 == s,
        written(server_run(s, server_round(answer, nothing_yet)).1) == frame_for(answer),
{
    crate::server::session::lemma_run_3(
        s,
        ServerEventView::Failed(nothing_yet),
        ServerEventView::Supplied(answer),
        ServerEventView::Written,
    );
    let actions = server_run(s, server_round(answer, nothing_yet)).1;
    let idle = Seq::<ServerActionView>::empty();
    assert(actions =~= idle.push(actions[0]).push(actions[1]).push(actions[2]));
    crate::server::session::lemma_written_push(idle, actions[0]);
    crate::server::session::lemma_written_push(idle.push(actions[0]), actions[1]);
    crate::server::session::lemma_written_push(idle.push(actions[0]).push(actions[1]), actions[2]);
    assert(written(actions) =~= frame_for(answer));
}

/// The server's side of the data path. While neither side leaves, what the server
/// writes is the frames of the supplier's answers, in the order in which the supplier
/// gave them: one heartbeat for each time it had nothing, one packet frame for each
/// packet.
pub proof fn lemma_server_stream(
    s: SessionView,
    answers: Seq<Result<OutgoingDataPacket, TryRecvError>>,
    nothing_yet: IoError,
)
    requires
        s.state == ServerState::Probing,
        nothing_yet.kind == IoErrorKind::WouldBlock,
        supplier_stays(answers),
    ensures
        server_run(s, server_rounds(answers, nothing_yet)).0 == s,
        written(server_run(s, server_rounds(answers, nothing_yet)).1) == stream(answers),
    decreases answers.len(),
{
    if answers.len() == 0 {
        assert(written(Seq::<ServerActionView>::empty()) =~= stream(answers));
    } else {
        let shorter = answers.drop_last();
        assert(supplier_stays(shorter)) by {
            assert forall|i: int| 0 <= i < shorter.len() implies #[trigger] shorter[i] != Err::<
                OutgoingDataPacket,
                TryRecvError,
            >(TryRecvError::Disconnected) by {
                assert(shorter[i] == answers[i]);
            }
        }
        assert(answers.last() == answers[answers.len() - 1]);
        lemma_server_stream(s, shorter, nothing_yet);
        let first = server_rounds(shorter, nothing_yet);
        let second = server_round(answers.last(), nothing_yet);
        lemma_server_run_concat(s, first, second);
        lemma_server_round(s, answers.last(), nothing_yet);
        lemma_written_concat(server_run(s, first).1, server_run(s, second).1);
    }
}

/// One round of the client's loop: the client reads the frame of the supplier's answer,
/// delivers its packet if it holds one, and waits for the next signal.
pub proof fn lemma_client_round(answer: Result<OutgoingDataPacket, TryRecvError>)
    requires
        answer != Err::<OutgoingDataPacket, TryRecvError>(TryRecvError::Disconnected),
    ensures
        data_run(DataState::AwaitingSignal, client_round(answer)).0 == DataState::AwaitingSignal,
        delivered(data_run(DataState::AwaitingSignal, client_round(answer)).1) == packets(
            seq![answer],
        ),
        received(client_round(answer)) == frame_for(answer),
{
    let s = DataState::AwaitingSignal;
    let events = client_round(answer);
    let none = Seq::<DataEventView>::empty();
    let idle = Seq::<DataActionView>::empty();
    assert(seq![answer].drop_last() =~= Seq::<Result<OutgoingDataPacket, TryRecvError>>::empty());
    assert(seq![answer].last() == answer);
    assert(packets(Seq::<Result<OutgoingDataPacket, TryRecvError>>::empty())
        =~= Seq::<IncomingDataPacket>::empty());
    match answer {
        Ok(packet) => {
            let v = packet.time;
            let frame = packet_frame(v);
            lemma_le_bytes_len(v as nat, 8);
            lemma_pow256_widths();
            lemma_le_round_trip(v as nat, 8);
            assert(frame.take(1)[0] == SIG_PACKET);
            assert(frame.skip(1) =~= le_bytes(v as nat, 8));
            let (e0, e1, e2, e3) = (events[0], events[1], events[2], events[3]);
            crate::client::data::lemma_run_push(s, none, e0);
            crate::client::data::lemma_run_push(s, none.push(e0), e1);
            crate::client::data::lemma_run_push(s, none.push(e0).push(e1), e2);
            crate::client::data::lemma_run_push(s, none.push(e0).push(e1).push(e2), e3);
            assert(none.push(e0).push(e1).push(e2).push(e3) =~= events);
            let actions = data_run(s, events).1;
            let want = IncomingDataPacket { time: v };
            let (a0, a1, a2, a3) = (
                DataActionView::Read(8),
                DataActionView::Deliver(want),
                DataActionView::CheckConsumer,
                DataActionView::Read(1),
            );
            assert(actions =~= idle.push(a0).push(a1).push(a2).push(a3));
            lemma_delivered_push(idle, a0);
            lemma_delivered_push(idle.push(a0), a1);
            lemma_delivered_push(idle.push(a0).push(a1), a2);
            lemma_delivered_push(idle.push(a0).push(a1).push(a2), a3);
            assert(delivered(actions) =~= seq![want]);
            assert(packets(seq![answer]) =~= seq![want]);
            lemma_received_push(none, e0);
            lemma_received_push(none.push(e0), e1);
            lemma_received_push(none.push(e0).push(e1), e2);
            lemma_received_push(none.push(e0).push(e1).push(e2), e3);
            assert(received(events) =~= frame);
        },
        Err(_) => {
            let (e0, e1) = (events[0], events[1]);
            assert(empty_frame()[0] == crate::consts::EMP);
            crate::client::data::lemma_run_push(s, none, e0);
            crate::client::data::lemma_run_push(s, none.push(e0), e1);
            assert(none.push(e0).push(e1) =~= events);
            let actions = data_run(s, events).1;
            let (a0, a1) = (DataActionView::CheckConsumer, DataActionView::Read(1));
            assert(actions =~= idle.push(a0).push(a1));
            lemma_delivered_push(idle, a0);
            lemma_delivered_push(idle.push(a0), a1);
            assert(delivered(actions) =~= Seq::<IncomingDataPacket>::empty());
            assert(packets(seq![answer]) =~= Seq::<IncomingDataPacket>::empty());
            lemma_received_push(none, e0);
            lemma_received_push(none.push(e0), e1);
            assert(received(events) =~= empty_frame());
        },
    }
}

/// The client's side of the data path. A client whose consumer stays, and that reads
/// the frames of the supplier's answers, reads exactly the bytes of those frames and
/// hands the consumer exactly the packets among the answers, in order.
pub proof fn lemma_client_stream(answers: Seq<Result<OutgoingDataPacket, TryRecvError>>)
    requires
        supplier_stays(answers),
    ensures
        data_run(DataState::AwaitingSignal, client_rounds(answers)).0 == DataState::AwaitingSignal,
        delivered(data_run(DataState::AwaitingSignal, client_rounds(answers)).1) == packets(
            answers,
        ),
        received(client_rounds(answers)) == stream(answers),
    decreases answers.len(),
{
    let s = DataState::AwaitingSignal;
    if answers.len() == 0 {
        assert(delivered(Seq::<DataActionView>::empty()) =~= packets(answers));
        assert(received(Seq::<DataEventView>::empty()) =~= stream(answers));
    } else {
        let shorter = answers.drop_last();
        let last = answers.last();
        assert(supplier_stays(shorter)) by {
            assert forall|i: int| 0 <= i < shorter.len() implies #[trigger] shorter[i] != Err::<
                OutgoingDataPacket,
                TryRecvError,
            >(TryRecvError::Disconnected) by {
                assert(shorter[i] == answers[i]);
            }
        }
        assert(last == answers[answers.len() - 1]);
        lemma_client_stream(shorter);
        lemma_client_round(last);
        let first = client_rounds(shorter);
        let second = client_round(last);
        lemma_client_run_concat(s, first, second);
        lemma_delivered_concat(data_run(s, first).1, data_run(s, second).1);
        lemma_received_concat(first, second);
        lemma_packets_push(shorter, last);
        assert(shorter.push(last) =~= answers);
    }
}

/// The data path, end to end. While the supplier and the consumer stay: the bytes that
/// the client reads are the bytes that the server wrote, and the packets that the
/// consumer is handed are the packets that the supplier gave, in the same order, none
/// lost, none made up.
pub proof fn lemma_data_path(
    s: SessionView,
    answers: Seq<Result<OutgoingDataPacket, TryRecvError>>,
    nothing_yet: IoError,
)
    requires
        s.state == ServerState::Probing,
        nothing_yet.kind == IoErrorKind::WouldBlock,
        supplier_stays(answers),
    ensures
        received(client_rounds(answers)) == written(
            server_run(s, server_rounds(answers, nothing_yet)).1,
        ),
        delivered(data_run(DataState::AwaitingSignal, client_rounds(answers)).1) == packets(
            answers,
        ),
{
    lemma_server_stream(s, answers, nothing_yet);
    lemma_client_stream(answers);
}

proof fn lemma_delivered_push(actions: Seq<DataActionView>, a: DataActionView)
    ensures
        delivered(Seq::empty()) == Seq::<IncomingDataPacket>::empty(),
        delivered(actions.push(a)) == (match a {
            DataActionView::Deliver(packet) => delivered(actions).push(packet),
            _ => delivered(actions),
        }),
{
    assert(actions.push(a).drop_last() =~= actions);
    assert(actions.push(a).last() == a);
}

proof fn lemma_received_push(events: Seq<DataEventView>, e: DataEventView)
    ensures
        received(Seq::empty()) == Seq::<u8>::empty(),
        received(events.push(e)) == received(events) + (match e {
            DataEventView::Received(bytes) => bytes,
            _ => Seq::empty(),
        }),
{
    assert(events.push(e).drop_last() =~= events);
    assert(events.push(e).last() == e);
}

proof fn lemma_packets_push(
    answers: Seq<Result<OutgoingDataPacket, TryRecvError>>,
    answer: Result<OutgoingDataPacket, TryRecvError>,
)
    ensures
        packets(answers.push(answer)) == packets(answers) + packets(seq![answer]),
{
    assert(answers.push(answer).drop_last() =~= answers);
    assert(answers.push(answer).last() == answer);
    assert(seq![answer].drop_last() =~= Seq::<Result<OutgoingDataPacket, TryRecvError>>::empty());
    assert(seq![answer].last() == answer);
    assert(packets(Seq::<Result<OutgoingDataPacket, TryRecvError>>::empty())
        =~= Seq::<IncomingDataPacket>::empty());
    match answer {
        Ok(packet) => {
            assert(packets(answers.push(answer)) =~= packets(answers) + packets(seq![answer]));
        },
        Err(_) => {
            assert(packets(answers.push(answer)) =~= packets(answers) + packets(seq![answer]));
        },
    }
}

} // verus!

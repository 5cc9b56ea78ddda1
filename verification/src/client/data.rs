//! The client's side of a data connection, as a machine that is told what the socket
//! and the consumer did and answers with what to do next.
//!
//! The caller owns the socket and the channel. It performs each [`DataAction`] and
//! reports the outcome as the next [`DataEvent`], until the machine answers with
//! [`DataAction::Shutdown`].

use vstd::prelude::*;
use crate::client::ClientError;
use crate::client::IncomingDataPacket;
use crate::consts::ControlSignal;
use crate::consts::ProtoError;
use crate::consts::CONN_DATA;
use crate::endian::le_value;
use crate::error::IoError;
use crate::frame::ctrl_frame;
use crate::frame::decode_packet;
use crate::frame::decode_signal;
use crate::frame::err_frame;
use crate::frame::signal_of;
use crate::frame::write_ctrl;
use crate::frame::write_err;
use crate::frame::Signal;

verus! {

/// Where a data connection stands, seen from the client.
#[derive(Clone, Copy, PartialEq, Eq, Debug)]
pub enum DataState {
    /// The connection-type byte is being written.
    Greeting,
    /// At the top of the loop: the consumer is being asked whether it still listens.
    CheckingConsumer,
    /// Waiting for a signal byte.
    AwaitingSignal,
    /// Waiting for the eight payload bytes of a packet.
    AwaitingPayload,
    /// A packet is being handed to the consumer.
    Delivering,
    /// Waiting for the operation byte of a control frame.
    AwaitingCtrlOp,
    /// Waiting for the kind byte of the server's error frame.
    AwaitingErrKind,
    /// The farewell is being written; the result is settled.
    Closing(Result<(), ClientError>),
    /// Terminal: the socket is to be shut down and the result returned.
    Closed(Result<(), ClientError>),
}

/// What the caller reports to the machine.
#[derive(Clone, PartialEq, Eq, Debug)]
pub enum DataEvent {
    /// The bytes of the last [`DataAction::Write`] were written.
    Written,
    /// The last read or write failed.
    Failed(IoError),
    /// Whether the consumer's end of the channel still exists.
    Consumer(bool),
    /// What the last [`DataAction::Read`] returned: as many bytes as asked for, or
    /// fewer if the stream ended first.
    Received(Vec<u8>),
    /// Whether the consumer's channel took the packet of the last
    /// [`DataAction::Deliver`].
    Delivered(bool),
}

/// The mathematical content of a [`DataEvent`].
pub ghost enum DataEventView {
    Written,
    Failed(IoError),
    Consumer(bool),
    Received(Seq<u8>),
    Delivered(bool),
}

impl View for DataEvent {
    type V = DataEventView;

    open spec fn view(&self) -> DataEventView {
        match self {
            DataEvent::Written => DataEventView::Written,
            DataEvent::Failed(e) => DataEventView::Failed(*e),
            DataEvent::Consumer(b) => DataEventView::Consumer(*b),
            DataEvent::Received(bytes) => DataEventView::Received(bytes@),
            DataEvent::Delivered(b) => DataEventView::Delivered(*b),
        }
    }
}

/// What the machine asks the caller to do.
#[derive(PartialEq, Eq, Debug)]
pub enum DataAction {
    /// Write all of these bytes to the socket; report `Written` or `Failed`.
    Write(Vec<u8>),
    /// Ask the sending end of the channel whether its receiver exists; report
    /// `Consumer`.
    CheckConsumer,
    /// Read exactly this many bytes, blocking, fewer only if the stream ends; report
    /// `Received` or `Failed`.
    Read(usize),
    /// Send this packet to the consumer, waiting for room; report `Delivered`.
    Deliver(IncomingDataPacket),
    /// Shut down both halves of the socket and return this result.
    Shutdown(Result<(), ClientError>),
}

/// The mathematical content of a [`DataAction`].
pub ghost enum DataActionView {
    Write(Seq<u8>),
    CheckConsumer,
    Read(nat),
    Deliver(IncomingDataPacket),
    Shutdown(Result<(), ClientError>),
}

impl View for DataAction {
    type V = DataActionView;

    open spec fn view(&self) -> DataActionView {
        match self {
            DataAction::Write(bytes) => DataActionView::Write(bytes@),
            DataAction::CheckConsumer => DataActionView::CheckConsumer,
            DataAction::Read(n) => DataActionView::Read(*n as nat),
            DataAction::Deliver(p) => DataActionView::Deliver(*p),
            DataAction::Shutdown(r) => DataActionView::Shutdown(*r),
        }
    }
}

/// The client's farewell: `[CTRL, OP_EXIT]`.
pub open spec fn exit_frame() -> Seq<u8> {
    ctrl_frame(ControlSignal::Exit)
}

/// The farewell after a violation: the error frame of `Invalid`, then the exit frame.
pub open spec fn violation_farewell() -> Seq<u8> {
    err_frame(ProtoError::Invalid) + exit_frame()
}

/// The connection ends at once with `result`; nothing more is written.
pub open spec fn finish(result: Result<(), ClientError>) -> (DataState, DataActionView) {
    (DataState::Closed(result), DataActionView::Shutdown(result))
}

/// The connection ends with `result` once `farewell` has been tried.
pub open spec fn leave(result: Result<(), ClientError>, farewell: Seq<u8>) -> (
    DataState,
    DataActionView,
) {
    (DataState::Closing(result), DataActionView::Write(farewell))
}

/// The peer, or the caller, did what the protocol does not allow here.
pub open spec fn violation() -> (DataState, DataActionView) {
    leave(Err(ClientError::ProtoError(ProtoError::Invalid)), violation_farewell())
}

/// Back to the top of the loop.
pub open spec fn next_round() -> (DataState, DataActionView) {
    (DataState::CheckingConsumer, DataActionView::CheckConsumer)
}

/// What a signal byte leads to.
pub open spec fn on_signal(byte: u8) -> (DataState, DataActionView) {
    match signal_of(byte) {
        Some(Signal::Empty) => next_round(),
        Some(Signal::Packet) => (DataState::AwaitingPayload, DataActionView::Read(8)),
        Some(Signal::Ctrl) => (DataState::AwaitingCtrlOp, DataActionView::Read(1)),
        None => violation(),
    }
}

/// What the operation byte of a control frame leads to.
pub open spec fn on_ctrl_op(byte: u8) -> (DataState, DataActionView) {
    match ControlSignal::parse(byte) {
        Some(ControlSignal::Exit) => finish(Ok(())),
        Some(ControlSignal::Error) => (DataState::AwaitingErrKind, DataActionView::Read(1)),
        _ => violation(),
    }
}

/// The error that the kind byte of the server's error frame reports. A kind that the
/// protocol does not know is itself invalid.
pub open spec fn reported_error(byte: u8) -> ProtoError {
    match ProtoError::parse(byte) {
        Some(e) => e,
        None => ProtoError::Invalid,
    }
}

/// The transition function of a data connection's client: the next state and what to
/// do, for each state and event.
///
/// * The connection opens with the connection-type byte.
/// * Each round first asks whether the consumer still listens. If not, the client says
///   goodbye with `[CTRL, OP_EXIT]` and ends with success.
/// * A heartbeat starts the next round. A packet's payload is decoded and delivered; if
///   the consumer has gone meanwhile, the client says goodbye and ends with success.
/// * `[CTRL, OP_EXIT]` from the server ends the connection with success; `[CTRL,
///   OP_ERR, kind]` ends it with that error; the end of the stream in place of a signal
///   ends it with success, inside a frame with a transport failure.
/// * Any other byte is a violation: the client reports `Invalid`, says goodbye, and
///   ends with that error.
/// * A failure of the transport ends the connection at once. A failure while the
///   farewell is written is swallowed.
pub open spec fn data_step(s: DataState, e: DataEventView) -> (DataState, DataActionView) {
    match s {
        DataState::Greeting => match e {
            DataEventView::Written => next_round(),
            DataEventView::Failed(io) => finish(Err(ClientError::IoError(io))),
            _ => violation(),
        },
        DataState::CheckingConsumer => match e {
            DataEventView::Consumer(true) => (DataState::AwaitingSignal, DataActionView::Read(1)),
            DataEventView::Consumer(false) => leave(Ok(()), exit_frame()),
            _ => violation(),
        },
        DataState::AwaitingSignal => match e {
            DataEventView::Received(bytes) => if bytes.len() == 0 {
                finish(Ok(()))
            } else if bytes.len() == 1 {
                on_signal(bytes[0])
            } else {
                violation()
            },
            DataEventView::Failed(io) => finish(Err(ClientError::IoError(io))),
            _ => violation(),
        },
        DataState::AwaitingPayload => match e {
            DataEventView::Received(bytes) => if bytes.len() == 8 {
                (
                    DataState::Delivering,
                    DataActionView::Deliver(IncomingDataPacket { time: le_value(bytes) as u64 }),
                )
            } else {
                finish(Err(ClientError::IoError(IoError::eof())))
            },
            DataEventView::Failed(io) => finish(Err(ClientError::IoError(io))),
            _ => violation(),
        },
        DataState::Delivering => match e {
            DataEventView::Delivered(true) => next_round(),
            DataEventView::Delivered(false) => leave(Ok(()), exit_frame()),
            _ => violation(),
        },
        DataState::AwaitingCtrlOp => match e {
            DataEventView::Received(bytes) => if bytes.len() == 1 {
                on_ctrl_op(bytes[0])
            } else if bytes.len() == 0 {
                finish(Err(ClientError::IoError(IoError::eof())))
            } else {
                violation()
            },
            DataEventView::Failed(io) => finish(Err(ClientError::IoError(io))),
            _ => violation(),
        },
        DataState::AwaitingErrKind => match e {
            DataEventView::Received(bytes) => if bytes.len() == 1 {
                finish(Err(ClientError::ProtoError(reported_error(bytes[0]))))
            } else if bytes.len() == 0 {
                finish(Err(ClientError::IoError(IoError::eof())))
            } else {
                violation()
            },
            DataEventView::Failed(io) => finish(Err(ClientError::IoError(io))),
            _ => violation(),
        },
        DataState::Closing(result) => finish(result),
        DataState::Closed(result) => finish(result),
    }
}

/// The states and actions that a run of events leads through, from state `s`.
pub open spec fn data_run(s: DataState, events: Seq<DataEventView>) -> (
    DataState,
    Seq<DataActionView>,
)
    decreases events.len(),
{
    if events.len() == 0 {
        (s, Seq::empty())
    } else {
        let (mid, actions) = data_run(s, events.drop_last());
        let (next, action) = data_step(mid, events.last());
        (next, actions.push(action))
    }
}

/// The client of one data connection.
pub struct DataClient {
    state: DataState,
}

impl View for DataClient {
    type V = DataState;

    closed spec fn view(&self) -> DataState {
        self.state
    }
}

impl DataClient {
    /// A machine for a connection that was just opened, and its first action: to write
    /// the connection-type byte.
    pub fn connect() -> (r: (DataClient, DataAction))
        ensures
            r.0@ == DataState::Greeting,
            r.1@ == DataActionView::Write(seq![CONN_DATA]),
    {
        let mut hello: Vec<u8> = Vec::new();
        hello.push(CONN_DATA);
        assert(hello@ =~= seq![CONN_DATA]);
        (DataClient { state: DataState::Greeting }, DataAction::Write(hello))
    }

    /// Where the connection stands.
    pub fn state(&self) -> (s: DataState)
        ensures
            s == self@,
    {
        self.state
    }

    /// Whether the connection is over.
    pub fn is_closed(&self) -> (b: bool)
        ensures
            b == (self@ is Closed),
    {
        match self.state {
            DataState::Closed(_) => true,
            _ => false,
        }
    }

    fn finish(&mut self, result: Result<(), ClientError>) -> (action: DataAction)
        ensures
            (final(self)@, action@) == finish(result),
    {
        self.state = DataState::Closed(result);
        DataAction::Shutdown(result)
    }

    fn leave(&mut self, result: Result<(), ClientError>) -> (action: DataAction)
        ensures
            (final(self)@, action@) == leave(result, exit_frame()),
    {
        let mut farewell: Vec<u8> = Vec::new();
        write_ctrl(ControlSignal::Exit, &mut farewell);
        assert(farewell@ =~= exit_frame());
        self.state = DataState::Closing(result);
        DataAction::Write(farewell)
    }

    fn violation(&mut self) -> (action: DataAction)
        ensures
            (final(self)@, action@) == violation(),
    {
        let mut farewell: Vec<u8> = Vec::new();
        write_err(ProtoError::Invalid, &mut farewell);
        write_ctrl(ControlSignal::Exit, &mut farewell);
        assert(farewell@ =~= violation_farewell());
        self.state = DataState::Closing(Err(ClientError::ProtoError(ProtoError::Invalid)));
        DataAction::Write(farewell)
    }

    fn next_round(&mut self) -> (action: DataAction)
        ensures
            (final(self)@, action@) == next_round(),
    {
        self.state = DataState::CheckingConsumer;
        DataAction::CheckConsumer
    }

    fn on_signal(&mut self, byte: u8) -> (action: DataAction)
        ensures
            (final(self)@, action@) == on_signal(byte),
    {
        match decode_signal(byte) {
            Ok(Signal::Empty) => self.next_round(),
            Ok(Signal::Packet) => {
                self.state = DataState::AwaitingPayload;
                DataAction::Read(8)
            },
            Ok(Signal::Ctrl) => {
                self.state = DataState::AwaitingCtrlOp;
                DataAction::Read(1)
            },
            Err(_) => self.violation(),
        }
    }

    fn on_ctrl_op(&mut self, byte: u8) -> (action: DataAction)
        ensures
            (final(self)@, action@) == on_ctrl_op(byte),
    {
        match ControlSignal::from_u8(byte) {
            Some(ControlSignal::Exit) => self.finish(Ok(())),
            Some(ControlSignal::Error) => {
                self.state = DataState::AwaitingErrKind;
                DataAction::Read(1)
            },
            _ => self.violation(),
        }
    }

    /// Takes the outcome of the last action and answers with the next one.
    pub fn step(&mut self, event: DataEvent) -> (action: DataAction)
        ensures
            (final(self)@, action@) == data_step(old(self)@, event@),
    {
        match self.state {
            DataState::Greeting => match event {
                DataEvent::Written => self.next_round(),
                DataEvent::Failed(io) => self.finish(Err(ClientError::IoError(io))),
                _ => self.violation(),
            },
            DataState::CheckingConsumer => match event {
                DataEvent::Consumer(alive) => if alive {
                    self.state = DataState::AwaitingSignal;
                    DataAction::Read(1)
                } else {
                    self.leave(Ok(()))
                },
                _ => self.violation(),
            },
            DataState::AwaitingSignal => match event {
                DataEvent::Received(bytes) => if bytes.len() == 0 {
                    self.finish(Ok(()))
                } else if bytes.len() == 1 {
                    self.on_signal(bytes[0])
                } else {
                    self.violation()
                },
                DataEvent::Failed(io) => self.finish(Err(ClientError::IoError(io))),
                _ => self.violation(),
            },
            DataState::AwaitingPayload => match event {
                DataEvent::Received(bytes) => match decode_packet(bytes.as_slice()) {
                    Some(time) => {
                        self.state = DataState::Delivering;
                        DataAction::Deliver(IncomingDataPacket { time })
                    },
                    None => self.finish(Err(ClientError::IoError(IoError::unexpected_eof()))),
                },
                DataEvent::Failed(io) => self.finish(Err(ClientError::IoError(io))),
                _ => self.violation(),
            },
            DataState::Delivering => match event {
                DataEvent::Delivered(taken) => if taken {
                    self.next_round()
                } else {
                    self.leave(Ok(()))
                },
                _ => self.violation(),
            },
            DataState::AwaitingCtrlOp => match event {
                DataEvent::Received(bytes) => if bytes.len() == 1 {
                    self.on_ctrl_op(bytes[0])
                } else if bytes.len() == 0 {
                    self.finish(Err(ClientError::IoError(IoError::unexpected_eof())))
                } else {
                    self.violation()
                },
                DataEvent::Failed(io) => self.finish(Err(ClientError::IoError(io))),
                _ => self.violation(),
            },
            DataState::AwaitingErrKind => match event {
                DataEvent::Received(bytes) => if bytes.len() == 1 {
                    let kind = match ProtoError::from_u8(bytes[0]) {
                        Some(e) => e,
                        None => ProtoError::Invalid,
                    };
                    self.finish(Err(ClientError::ProtoError(kind)))
                } else if bytes.len() == 0 {
                    self.finish(Err(ClientError::IoError(IoError::unexpected_eof())))
                } else {
                    self.violation()
                },
                DataEvent::Failed(io) => self.finish(Err(ClientError::IoError(io))),
                _ => self.violation(),
            },
            DataState::Closing(result) => self.finish(result),
            DataState::Closed(result) => self.finish(result),
        }
    }
}

/// Drop propagation. Once the consumer's end of the channel is gone the client ends
/// with success, after its farewell `[CTRL, OP_EXIT]`, within one more signal:
///
/// * at the top of a round, at once;
/// * while it waits for a signal, after the next heartbeat, or after the next packet,
///   whose delivery fails.
pub proof fn lemma_drop_propagation(payload: Seq<u8>)
    requires
        payload.len() == 8,
    ensures
        data_step(DataState::CheckingConsumer, DataEventView::Consumer(false)) == leave(
            Ok(()),
            exit_frame(),
        ),
        data_run(
            DataState::AwaitingSignal,
            seq![
                DataEventView::Received(crate::frame::empty_frame()),
                DataEventView::Consumer(false),
                DataEventView::Written,
            ],
        ).0 == DataState::Closed(Ok(())),
        data_run(
            DataState::AwaitingSignal,
            seq![
                DataEventView::Received(crate::frame::empty_frame()),
                DataEventView::Consumer(false),
                DataEventView::Written,
            ],
        ).1 == seq![
            DataActionView::CheckConsumer,
            DataActionView::Write(exit_frame()),
            DataActionView::Shutdown(Ok(())),
        ],
        data_run(
            DataState::AwaitingSignal,
            seq![
                DataEventView::Received(seq![crate::consts::SIG_PACKET]),
                DataEventView::Received(payload),
                DataEventView::Delivered(false),
                DataEventView::Written,
            ],
        ).0 == DataState::Closed(Ok(())),
        data_run(
            DataState::AwaitingSignal,
            seq![
                DataEventView::Received(seq![crate::consts::SIG_PACKET]),
                DataEventView::Received(payload),
                DataEventView::Delivered(false),
                DataEventView::Written,
            ],
        ).1 == seq![
            DataActionView::Read(8),
            DataActionView::Deliver(IncomingDataPacket { time: le_value(payload) as u64 }),
            DataActionView::Write(exit_frame()),
            DataActionView::Shutdown(Ok(())),
        ],
{
    let s = DataState::AwaitingSignal;
    let beat = seq![
        DataEventView::Received(crate::frame::empty_frame()),
        DataEventView::Consumer(false),
        DataEventView::Written,
    ];
    lemma_run_3(s, beat[0], beat[1], beat[2]);
    assert(beat =~= seq![beat[0], beat[1], beat[2]]);
    assert(crate::frame::empty_frame()[0] == crate::consts::EMP);
    let burst = seq![
        DataEventView::Received(seq![crate::consts::SIG_PACKET]),
        DataEventView::Received(payload),
        DataEventView::Delivered(false),
        DataEventView::Written,
    ];
    lemma_run_4(s, burst[0], burst[1], burst[2], burst[3]);
    assert(burst =~= seq![burst[0], burst[1], burst[2], burst[3]]);
    assert(seq![crate::consts::SIG_PACKET][0] == crate::consts::SIG_PACKET);
}

/// The client's close discipline. When a step settles the result of a connection that
/// was still open, the client either shuts down at once, or first writes a farewell,
/// and every farewell ends with `[CTRL, OP_EXIT]`.
pub proof fn lemma_client_farewell(s: DataState, e: DataEventView)
    requires
        !(s is Closing),
        !(s is Closed),
    ensures
        data_step(s, e).0 matches DataState::Closed(r) ==> data_step(s, e).1
            == DataActionView::Shutdown(r),
        data_step(s, e).0 matches DataState::Closing(r) ==> (data_step(s, e).1
            == DataActionView::Write(exit_frame()) || data_step(s, e).1 == DataActionView::Write(
            violation_farewell(),
        )),
        exit_frame().skip(exit_frame().len() - 2) == exit_frame(),
        violation_farewell().skip(violation_farewell().len() - 2) == exit_frame(),
{
    assert(exit_frame().skip(0) =~= exit_frame());
    assert(violation_farewell().skip(3) =~= exit_frame());
}

/// A run of no events changes nothing, and a run of one more event is one more step.
pub proof fn lemma_run_push(s: DataState, events: Seq<DataEventView>, e: DataEventView)
    ensures
        data_run(s, Seq::empty()) == (s, Seq::<DataActionView>::empty()),
        data_run(s, events.push(e)).0 == data_step(data_run(s, events).0, e).0,
        data_run(s, events.push(e)).1 == data_run(s, events).1.push(
            data_step(data_run(s, events).0, e).1,
        ),
{
    assert(events.push(e).drop_last() =~= events);
    assert(events.push(e).last() == e);
}

proof fn lemma_run_3(s: DataState, a: DataEventView, b: DataEventView, c: DataEventView)
    ensures
        data_run(s, seq![a, b, c]).0 == data_step(
            data_step(data_step(s, a).0, b).0,
            c,
        ).0,
        data_run(s, seq![a, b, c]).1 == seq![
            data_step(s, a).1,
            data_step(data_step(s, a).0, b).1,
            data_step(data_step(data_step(s, a).0, b).0, c).1,
        ],
{
    let none = Seq::<DataEventView>::empty();
    lemma_run_push(s, none, a);
    lemma_run_push(s, none.push(a), b);
    lemma_run_push(s, none.push(a).push(b), c);
    assert(none.push(a).push(b).push(c) =~= seq![a, b, c]);
    assert(data_run(s, seq![a, b, c]).1 =~= seq![
        data_step(s, a).1,
        data_step(data_step(s, a).0, b).1,
        data_step(data_step(data_step(s, a).0, b).0, c).1,
    ]);
}

proof fn lemma_run_4(
    s: DataState,
    a: DataEventView,
    b: DataEventView,
    c: DataEventView,
    d: DataEventView,
)
    ensures
        data_run(s, seq![a, b, c, d]).0 == data_step(
            data_step(data_step(data_step(s, a).0, b).0, c).0,
            d,
        ).0,
        data_run(s, seq![a, b, c, d]).1 == seq![
            data_step(s, a).1,
            data_step(data_step(s, a).0, b).1,
            data_step(data_step(data_step(s, a).0, b).0, c).1,
            data_step(data_step(data_step(data_step(s, a).0, b).0, c).0, d).1,
        ],
{
    lemma_run_3(s, a, b, c);
    lemma_run_push(s, seq![a, b, c], d);
    assert(seq![a, b, c].push(d) =~= seq![a, b, c, d]);
    assert(data_run(s, seq![a, b, c, d]).1 =~= seq![
        data_step(s, a).1,
        data_step(data_step(s, a).0, b).1,
        data_step(data_step(data_step(s, a).0, b).0, c).1,
        data_step(data_step(data_step(data_step(s, a).0, b).0, c).0, d).1,
    ]);
}

} // verus!

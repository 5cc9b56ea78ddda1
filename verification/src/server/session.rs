//! The server's side of one connection, as a machine that is told what the socket and
//! the supplier did and answers with what to do next.
//!
//! The caller owns the socket and the supplier's channel. It performs each
//! [`ServerAction`] and reports the outcome as the next [`ServerEvent`], until the
//! machine answers with [`ServerAction::Shutdown`].

use vstd::prelude::*;
use crate::channel::TryRecvError;
use crate::consts::ConnectionType;
use crate::consts::ControlSignal;
use crate::consts::ProtoError;
use crate::error::IoError;
use crate::error::IoErrorKind;
use crate::frame::ctrl_frame;
use crate::frame::empty_frame;
use crate::frame::err_frame;
use crate::frame::find_exit_sig;
use crate::frame::is_exit_sig;
use crate::frame::packet_frame;
use crate::frame::write_ctrl;
use crate::frame::write_err;
use crate::frame::write_nothing;
use crate::frame::write_packet;
use crate::server::status::request_complete;
use crate::server::status::status_handler;
use crate::server::status::status_reply;
use crate::server::status::status_request_complete;
use crate::server::OutgoingDataPacket;
use crate::server::ServiceError;
use crate::version::Version;

verus! {

/// How a connection ended.
#[derive(Clone, Copy, PartialEq, Eq, Debug, Structural)]
pub enum SessionOutcome {
    /// The handler ran to its end.
    Completed,
    /// The handler gave up on this connection.
    Failed(ServiceError),
    /// The supplier of packets hung up.
    ChannelTermination,
}

/// The stage of a connection.
#[derive(Clone, Copy, PartialEq, Eq, Debug, Structural)]
pub enum SessionState {
    /// The client has not said yet what kind of connection it wants.
    AwaitingConnType,
    /// Packets are streamed.
    Data,
    /// A status request is read and answered.
    Status,
    /// The farewell is written.
    Closing,
    /// Terminal.
    Closed,
}

/// Where a connection stands, seen from the server.
#[derive(Clone, Copy, PartialEq, Eq, Debug, Structural)]
pub enum ServerState {
    /// Waiting for the connection-type byte.
    AwaitingConnType,
    /// Data: the socket is being probed for the client's exit signal.
    Probing,
    /// Data: the supplier is being asked for the next packet.
    Polling,
    /// Data: a packet or a heartbeat is being written.
    Sending,
    /// Status: the request is being read.
    Requesting,
    /// Status: the response is being written.
    Responding,
    /// The farewell is being written; the outcome is settled.
    Closing(SessionOutcome),
    /// Terminal: the socket is to be shut down.
    Closed(SessionOutcome),
}

impl ServerState {
    /// The stage that this state belongs to.
    pub open spec fn stage(self) -> SessionState {
        match self {
            ServerState::AwaitingConnType => SessionState::AwaitingConnType,
            ServerState::Probing | ServerState::Polling | ServerState::Sending => SessionState::Data,
            ServerState::Requesting | ServerState::Responding => SessionState::Status,
            ServerState::Closing(_) => SessionState::Closing,
            ServerState::Closed(_) => SessionState::Closed,
        }
    }
}

/// What the caller reports to the machine.
#[derive(PartialEq, Eq, Debug)]
pub enum ServerEvent {
    /// The bytes of the last [`ServerAction::Write`] were written.
    Written,
    /// The last read or write failed.
    Failed(IoError),
    /// What the last [`ServerAction::Read`] or [`ServerAction::Probe`] returned; no
    /// bytes if the stream has ended.
    Received(Vec<u8>),
    /// What the supplier's channel answered to the last [`ServerAction::Poll`].
    Supplied(Result<OutgoingDataPacket, TryRecvError>),
}

/// The mathematical content of a [`ServerEvent`].
pub ghost enum ServerEventView {
    Written,
    Failed(IoError),
    Received(Seq<u8>),
    Supplied(Result<OutgoingDataPacket, TryRecvError>),
}

impl View for ServerEvent {
    type V = ServerEventView;

    open spec fn view(&self) -> ServerEventView {
        match self {
            ServerEvent::Written => ServerEventView::Written,
            ServerEvent::Failed(e) => ServerEventView::Failed(*e),
            ServerEvent::Received(bytes) => ServerEventView::Received(bytes@),
            ServerEvent::Supplied(r) => ServerEventView::Supplied(*r),
        }
    }
}

/// What the machine asks the caller to do.
#[derive(PartialEq, Eq, Debug)]
pub enum ServerAction {
    /// Read up to this many bytes, blocking until at least one is there or the stream
    /// ends; report `Received` or `Failed`.
    Read(usize),
    /// Read up to this many bytes without blocking; report `Received`, or `Failed`
    /// with the kind `WouldBlock` if nothing is there yet.
    Probe(usize),
    /// Ask the supplier's channel for the next packet without blocking; report
    /// `Supplied`.
    Poll,
    /// Write all of these bytes to the socket; report `Written` or `Failed`.
    Write(Vec<u8>),
    /// Shut down both halves of the socket; the connection ended like this.
    Shutdown(SessionOutcome),
}

/// The mathematical content of a [`ServerAction`].
pub ghost enum ServerActionView {
    Read(nat),
    Probe(nat),
    Poll,
    Write(Seq<u8>),
    Shutdown(SessionOutcome),
}

impl View for ServerAction {
    type V = ServerActionView;

    open spec fn view(&self) -> ServerActionView {
        match self {
            ServerAction::Read(n) => ServerActionView::Read(*n as nat),
            ServerAction::Probe(n) => ServerActionView::Probe(*n as nat),
            ServerAction::Poll => ServerActionView::Poll,
            ServerAction::Write(bytes) => ServerActionView::Write(bytes@),
            ServerAction::Shutdown(o) => ServerActionView::Shutdown(*o),
        }
    }
}

/// The mathematical content of a [`ServerSession`].
pub ghost struct SessionView {
    /// Where the connection stands.
    pub state: ServerState,
    /// The bytes of a status request read so far.
    pub request: Seq<u8>,
    /// The client's source address: four bytes.
    pub peer_ip: Seq<u8>,
    /// The server's clock when the connection was accepted.
    pub now: u128,
    /// The server's version: three bytes.
    pub version: Seq<u8>,
}

impl SessionView {
    /// This session in another state.
    pub open spec fn at(self, state: ServerState) -> SessionView {
        SessionView { state, ..self }
    }
}

/// The server's farewell: `[CTRL, OP_EXIT]`.
pub open spec fn exit_frame() -> Seq<u8> {
    ctrl_frame(ControlSignal::Exit)
}

/// Whether the transport failed, so that nothing more can be written.
pub open spec fn is_broken(outcome: SessionOutcome) -> bool {
    outcome matches SessionOutcome::Failed(ServiceError::IoError(_))
}

/// The close discipline: what is written before the socket is shut down. A pending
/// error frame comes first, the exit frame last. Nothing is written to a socket that
/// has failed.
pub open spec fn farewell(outcome: SessionOutcome) -> Seq<u8> {
    match outcome {
        SessionOutcome::Completed => exit_frame(),
        SessionOutcome::ChannelTermination => exit_frame(),
        SessionOutcome::Failed(ServiceError::ProtoError(kind)) => err_frame(kind) + exit_frame(),
        SessionOutcome::Failed(ServiceError::IoError(_)) => Seq::empty(),
    }
}

/// Whether `wire` ends with the exit frame.
pub open spec fn ends_with_exit(wire: Seq<u8>) -> bool {
    wire.len() >= 2 && wire.skip(wire.len() - 2) == exit_frame()
}

/// The connection ends with `outcome`: the farewell is written first, unless the
/// transport has failed.
pub open spec fn close_with(s: SessionView, outcome: SessionOutcome) -> (
    SessionView,
    ServerActionView,
) {
    if is_broken(outcome) {
        (s.at(ServerState::Closed(outcome)), ServerActionView::Shutdown(outcome))
    } else {
        (s.at(ServerState::Closing(outcome)), ServerActionView::Write(farewell(outcome)))
    }
}

/// The connection ends because the client, or the caller, did what the protocol does
/// not allow here.
pub open spec fn reject(s: SessionView, kind: ProtoError) -> (SessionView, ServerActionView) {
    close_with(s, SessionOutcome::Failed(ServiceError::ProtoError(kind)))
}

/// The connection ends because the transport failed.
pub open spec fn broken(s: SessionView, io: IoError) -> (SessionView, ServerActionView) {
    close_with(s, SessionOutcome::Failed(ServiceError::IoError(io)))
}

/// The next round of the data loop starts: the socket is probed for the exit signal.
pub open spec fn probe(s: SessionView) -> (SessionView, ServerActionView) {
    (s.at(ServerState::Probing), ServerActionView::Probe(2))
}

/// The client did not ask to leave: the supplier is asked for a packet.
pub open spec fn poll(s: SessionView) -> (SessionView, ServerActionView) {
    (s.at(ServerState::Polling), ServerActionView::Poll)
}

/// What the connection-type byte leads to.
pub open spec fn route(s: SessionView, byte: u8) -> (SessionView, ServerActionView) {
    match ConnectionType::parse(byte) {
        Some(ConnectionType::Data) => probe(s),
        Some(ConnectionType::Status) => (
            s.at(ServerState::Requesting),
            ServerActionView::Read(1),
        ),
        None => reject(s, ProtoError::UnknownConnection),
    }
}

/// What the supplier's answer leads to: a packet is framed and written, an empty
/// channel is answered with a heartbeat, a supplier that is gone ends the connection.
pub open spec fn supply(s: SessionView, answer: Result<OutgoingDataPacket, TryRecvError>) -> (
    SessionView,
    ServerActionView,
) {
    match answer {
        Ok(packet) => (
            s.at(ServerState::Sending),
            ServerActionView::Write(packet_frame(packet.time)),
        ),
        Err(TryRecvError::Empty) => (
            s.at(ServerState::Sending),
            ServerActionView::Write(empty_frame()),
        ),
        Err(TryRecvError::Disconnected) => close_with(s, SessionOutcome::ChannelTermination),
    }
}

/// The status request is answered: its fields and the end of the transmission are
/// written, or the request is rejected.
pub open spec fn respond(s: SessionView) -> (SessionView, ServerActionView) {
    match status_reply(s.request, s.peer_ip, s.now, s.version) {
        Ok(fields) => (
            s.at(ServerState::Responding),
            ServerActionView::Write(fields + ctrl_frame(ControlSignal::TransmissionEnd)),
        ),
        Err(kind) => reject(s, kind),
    }
}

/// The transition function of a connection's server: the next state and what to do,
/// for each state and event.
///
/// * The first byte selects the handler. The end of the stream in its place is
///   rejected as `Eof`, a byte that names no connection type as `UnknownConnection`.
/// * Data: each round first probes the socket. Exactly `[CTRL, OP_EXIT]` ends the
///   connection; anything else, and a read that would block, lets the round go on.
///   Then the supplier is polled, and a packet or a heartbeat is written.
/// * Status: the request is read byte by byte until it is whole or the stream ends,
///   and then answered.
/// * A failure of the transport ends the connection at once, with nothing written. A
///   failure while the farewell is written is swallowed.
/// * An event that cannot follow the last action is rejected as `Invalid`.
pub open spec fn server_step(s: SessionView, e: ServerEventView) -> (
    SessionView,
    ServerActionView,
) {
    match s.state {
        ServerState::AwaitingConnType => match e {
            ServerEventView::Received(bytes) => if bytes.len() == 0 {
                reject(s, ProtoError::Eof)
            } else if bytes.len() == 1 {
                route(s, bytes[0])
            } else {
                reject(s, ProtoError::Invalid)
            },
            ServerEventView::Failed(io) => broken(s, io),
            _ => reject(s, ProtoError::Invalid),
        },
        ServerState::Probing => match e {
            ServerEventView::Received(bytes) => if is_exit_sig(bytes) {
                close_with(s, SessionOutcome::Completed)
            } else {
                poll(s)
            },
            ServerEventView::Failed(io) => if io.kind == IoErrorKind::WouldBlock {
                poll(s)
            } else {
                broken(s, io)
            },
            _ => reject(s, ProtoError::Invalid),
        },
        ServerState::Polling => match e {
            ServerEventView::Supplied(answer) => supply(s, answer),
            ServerEventView::Failed(io) => broken(s, io),
            _ => reject(s, ProtoError::Invalid),
        },
        ServerState::Sending => match e {
            ServerEventView::Written => probe(s),
            ServerEventView::Failed(io) => broken(s, io),
            _ => reject(s, ProtoError::Invalid),
        },
        ServerState::Requesting => match e {
            ServerEventView::Received(bytes) => {
                let grown = SessionView { request: s.request + bytes, ..s };
                if bytes.len() == 0 || request_complete(grown.request) {
                    respond(grown)
                } else {
                    (grown, ServerActionView::Read(1))
                }
            },
            ServerEventView::Failed(io) => broken(s, io),
            _ => reject(s, ProtoError::Invalid),
        },
        ServerState::Responding => match e {
            ServerEventView::Written => close_with(s, SessionOutcome::Completed),
            ServerEventView::Failed(io) => broken(s, io),
            _ => reject(s, ProtoError::Invalid),
        },
        ServerState::Closing(outcome) => (
            s.at(ServerState::Closed(outcome)),
            ServerActionView::Shutdown(outcome),
        ),
        ServerState::Closed(outcome) => (s, ServerActionView::Shutdown(outcome)),
    }
}

/// A session that was just accepted from a client at `peer_ip`, at clock reading `now`.
pub open spec fn accepted(peer_ip: Seq<u8>, now: u128) -> SessionView {
    SessionView {
        state: ServerState::AwaitingConnType,
        request: Seq::empty(),
        peer_ip,
        now,
        version: Version::current(),
    }
}

/// The session and the actions that a run of events leads through, from session `s`.
pub open spec fn server_run(s: SessionView, events: Seq<ServerEventView>) -> (
    SessionView,
    Seq<ServerActionView>,
)
    decreases events.len(),
{
    if events.len() == 0 {
        (s, Seq::empty())
    } else {
        let (mid, actions) = server_run(s, events.drop_last());
        let (next, action) = server_step(mid, events.last());
        (next, actions.push(action))
    }
}

/// All the bytes that `actions` ask to write, in order.
pub open spec fn written(actions: Seq<ServerActionView>) -> Seq<u8>
    decreases actions.len(),
{
    if actions.len() == 0 {
        Seq::empty()
    } else {
        written(actions.drop_last()) + (match actions.last() {
            ServerActionView::Write(bytes) => bytes,
            _ => Seq::empty(),
        })
    }
}

/// The bytes that the close discipline writes for a connection that ended with
/// `outcome`.
pub fn close(outcome: SessionOutcome) -> (bytes: Vec<u8>)
    ensures
        bytes@ == farewell(outcome),
        !is_broken(outcome) ==> ends_with_exit(bytes@),
{
    let mut bytes: Vec<u8> = Vec::new();
    match outcome {
        SessionOutcome::Failed(ServiceError::IoError(_)) => {},
        SessionOutcome::Failed(ServiceError::ProtoError(kind)) => {
            write_err(kind, &mut bytes);
            write_ctrl(ControlSignal::Exit, &mut bytes);
        },
        _ => {
            write_ctrl(ControlSignal::Exit, &mut bytes);
        },
    }
    proof {
        assert(bytes@ =~= farewell(outcome));
        lemma_farewell(outcome);
    }
    bytes
}

/// Every farewell to a socket that has not failed ends with the exit frame.
pub proof fn lemma_farewell(outcome: SessionOutcome)
    ensures
        !is_broken(outcome) ==> ends_with_exit(farewell(outcome)),
        is_broken(outcome) ==> farewell(outcome) == Seq::<u8>::empty(),
{
    match outcome {
        SessionOutcome::Failed(ServiceError::ProtoError(kind)) => {
            let w = err_frame(kind) + exit_frame();
            assert(w.skip(w.len() - 2) =~= exit_frame());
        },
        SessionOutcome::Failed(ServiceError::IoError(_)) => {},
        _ => {
            assert(exit_frame().skip(0) =~= exit_frame());
        },
    }
}

/// The server's side of one connection.
pub struct ServerSession {
    state: ServerState,
    request: Vec<u8>,
    peer_ip: [u8; 4],
    now_nanos: u128,
    version: Version,
}

impl View for ServerSession {
    type V = SessionView;

    closed spec fn view(&self) -> SessionView {
        SessionView {
            state: self.state,
            request: self.request@,
            peer_ip: self.peer_ip@,
            now: self.now_nanos,
            version: self.version.bytes(),
        }
    }
}

impl ServerSession {
    /// A session for a connection that was just accepted, and its first action: to read
    /// the connection-type byte. `peer_ip` is the client's source address, `now_nanos`
    /// the server's clock in nanoseconds since the Unix epoch.
    pub fn accept(peer_ip: [u8; 4], now_nanos: u128) -> (r: (ServerSession, ServerAction))
        ensures
            r.0@ == accepted(peer_ip@, now_nanos),
            r.1@ == ServerActionView::Read(1),
    {
        let session = ServerSession {
            state: ServerState::AwaitingConnType,
            request: Vec::new(),
            peer_ip,
            now_nanos,
            version: Version::get(),
        };
        (session, ServerAction::Read(1))
    }

    /// Where the connection stands.
    pub fn state(&self) -> (s: ServerState)
        ensures
            s == self@.state,
    {
        self.state
    }

    /// The stage of the connection.
    pub fn stage(&self) -> (s: SessionState)
        ensures
            s == self@.state.stage(),
    {
        match self.state {
            ServerState::AwaitingConnType => SessionState::AwaitingConnType,
            ServerState::Probing | ServerState::Polling | ServerState::Sending => SessionState::Data,
            ServerState::Requesting | ServerState::Responding => SessionState::Status,
            ServerState::Closing(_) => SessionState::Closing,
            ServerState::Closed(_) => SessionState::Closed,
        }
    }

    fn close_with(&mut self, outcome: SessionOutcome) -> (action: ServerAction)
        ensures
            (final(self)@, action@) == close_with(old(self)@, outcome),
    {
        match outcome {
            SessionOutcome::Failed(ServiceError::IoError(_)) => {
                self.state = ServerState::Closed(outcome);
                ServerAction::Shutdown(outcome)
            },
            _ => {
                self.state = ServerState::Closing(outcome);
                ServerAction::Write(close(outcome))
            },
        }
    }

    fn reject(&mut self, kind: ProtoError) -> (action: ServerAction)
        ensures
            (final(self)@, action@) == reject(old(self)@, kind),
    {
        self.close_with(SessionOutcome::Failed(ServiceError::ProtoError(kind)))
    }

    fn broken(&mut self, io: IoError) -> (action: ServerAction)
        ensures
            (final(self)@, action@) == broken(old(self)@, io),
    {
        self.close_with(SessionOutcome::Failed(ServiceError::IoError(io)))
    }

    fn probe(&mut self) -> (action: ServerAction)
        ensures
            (final(self)@, action@) == probe(old(self)@),
    {
        self.state = ServerState::Probing;
        ServerAction::Probe(2)
    }

    fn poll(&mut self) -> (action: ServerAction)
        ensures
            (final(self)@, action@) == poll(old(self)@),
    {
        self.state = ServerState::Polling;
        ServerAction::Poll
    }

    fn route(&mut self, byte: u8) -> (action: ServerAction)
        ensures
            (final(self)@, action@) == route(old(self)@, byte),
    {
        match ConnectionType::from_u8(byte) {
            Some(ConnectionType::Data) => self.probe(),
            Some(ConnectionType::Status) => {
                self.state = ServerState::Requesting;
                ServerAction::Read(1)
            },
            None => self.reject(ProtoError::UnknownConnection),
        }
    }

    fn supply(&mut self, answer: Result<OutgoingDataPacket, TryRecvError>) -> (action:
        ServerAction)
        ensures
            (final(self)@, action@) == supply(old(self)@, answer),
    {
        match answer {
            Ok(packet) => {
                let mut frame: Vec<u8> = Vec::new();
                write_packet(packet.time, &mut frame);
                assert(frame@ =~= packet_frame(packet.time));
                self.state = ServerState::Sending;
                ServerAction::Write(frame)
            },
            Err(TryRecvError::Empty) => {
                let mut frame: Vec<u8> = Vec::new();
                write_nothing(&mut frame);
                assert(frame@ =~= empty_frame());
                self.state = ServerState::Sending;
                ServerAction::Write(frame)
            },
            Err(TryRecvError::Disconnected) => self.close_with(SessionOutcome::ChannelTermination),
        }
    }

    fn respond(&mut self) -> (action: ServerAction)
        ensures
            (final(self)@, action@) == respond(old(self)@),
    {
        match status_handler(self.request.as_slice(), self.peer_ip, self.now_nanos, self.version) {
            Ok(fields) => {
                let mut response = fields;
                write_ctrl(ControlSignal::TransmissionEnd, &mut response);
                self.state = ServerState::Responding;
                ServerAction::Write(response)
            },
            Err(kind) => self.reject(kind),
        }
    }

    /// Takes the outcome of the last action and answers with the next one.
    pub fn step(&mut self, event: ServerEvent) -> (action: ServerAction)
        ensures
            (final(self)@, action@) == server_step(old(self)@, event@),
    {
        match self.state {
            ServerState::AwaitingConnType => match event {
                ServerEvent::Received(bytes) => if bytes.len() == 0 {
                    self.reject(ProtoError::Eof)
                } else if bytes.len() == 1 {
                    self.route(bytes[0])
                } else {
                    self.reject(ProtoError::Invalid)
                },
                ServerEvent::Failed(io) => self.broken(io),
                _ => self.reject(ProtoError::Invalid),
            },
            ServerState::Probing => match event {
                ServerEvent::Received(bytes) => if find_exit_sig(bytes.as_slice()) {
                    self.close_with(SessionOutcome::Completed)
                } else {
                    self.poll()
                },
                ServerEvent::Failed(io) => if io.is_would_block() {
                    self.poll()
                } else {
                    self.broken(io)
                },
                _ => self.reject(ProtoError::Invalid),
            },
            ServerState::Polling => match event {
                ServerEvent::Supplied(answer) => self.supply(answer),
                ServerEvent::Failed(io) => self.broken(io),
                _ => self.reject(ProtoError::Invalid),
            },
            ServerState::Sending => match event {
                ServerEvent::Written => self.probe(),
                ServerEvent::Failed(io) => self.broken(io),
                _ => self.reject(ProtoError::Invalid),
            },
            ServerState::Requesting => match event {
                ServerEvent::Received(bytes) => {
                    self.request.extend_from_slice(bytes.as_slice());
                    assert(self@.request == old(self)@.request + bytes@);
                    if bytes.len() == 0 || status_request_complete(self.request.as_slice()) {
                        self.respond()
                    } else {
                        ServerAction::Read(1)
                    }
                },
                ServerEvent::Failed(io) => self.broken(io),
                _ => self.reject(ProtoError::Invalid),
            },
            ServerState::Responding => match event {
                ServerEvent::Written => self.close_with(SessionOutcome::Completed),
                ServerEvent::Failed(io) => self.broken(io),
                _ => self.reject(ProtoError::Invalid),
            },
            ServerState::Closing(outcome) => {
                self.state = ServerState::Closed(outcome);
                ServerAction::Shutdown(outcome)
            },
            ServerState::Closed(outcome) => ServerAction::Shutdown(outcome),
        }
    }
}

/// A run of one more event is one more step.
pub proof fn lemma_run_push(s: SessionView, events: Seq<ServerEventView>, e: ServerEventView)
    ensures
        server_run(s, Seq::empty()) == (s, Seq::<ServerActionView>::empty()),
        server_run(s, events.push(e)).0 == server_step(server_run(s, events).0, e).0,
        server_run(s, events.push(e)).1 == server_run(s, events).1.push(
            server_step(server_run(s, events).0, e).1,
        ),
{
    assert(events.push(e).drop_last() =~= events);
    assert(events.push(e).last() == e);
}

/// What a run of two events leads through.
pub proof fn lemma_run_2(s: SessionView, a: ServerEventView, b: ServerEventView)
    ensures
        server_run(s, seq![a, b]).0 == server_step(server_step(s, a).0, b).0,
        server_run(s, seq![a, b]).1 == seq![
            server_step(s, a).1,
            server_step(server_step(s, a).0, b).1,
        ],
{
    let none = Seq::<ServerEventView>::empty();
    lemma_run_push(s, none, a);
    lemma_run_push(s, none.push(a), b);
    assert(none.push(a).push(b) =~= seq![a, b]);
    assert(server_run(s, seq![a, b]).1 =~= seq![
        server_step(s, a).1,
        server_step(server_step(s, a).0, b).1,
    ]);
}

/// What a run of three events leads through.
pub proof fn lemma_run_3(
    s: SessionView,
    a: ServerEventView,
    b: ServerEventView,
    c: ServerEventView,
)
    ensures
        server_run(s, seq![a, b, c]).0 == server_step(
            server_step(server_step(s, a).0, b).0,
            c,
        ).0,
        server_run(s, seq![a, b, c]).1 == seq![
            server_step(s, a).1,
            server_step(server_step(s, a).0, b).1,
            server_step(server_step(server_step(s, a).0, b).0, c).1,
        ],
{
    lemma_run_2(s, a, b);
    lemma_run_push(s, seq![a, b], c);
    assert(seq![a, b].push(c) =~= seq![a, b, c]);
    assert(server_run(s, seq![a, b, c]).1 =~= seq![
        server_step(s, a).1,
        server_step(server_step(s, a).0, b).1,
        server_step(server_step(server_step(s, a).0, b).0, c).1,
    ]);
}

/// How a step can end a connection: from a state in which the outcome is not settled
/// yet, the connection enters `Closing` only together with the write of its farewell,
/// and enters `Closed` directly only if the transport failed.
pub proof fn lemma_step_closes(s: SessionView, e: ServerEventView)
    requires
        !(s.state is Closing),
        !(s.state is Closed),
    ensures
        server_step(s, e).0.state matches ServerState::Closing(o) ==> !is_broken(o)
            && server_step(s, e).1 == ServerActionView::Write(farewell(o)),
        server_step(s, e).0.state matches ServerState::Closed(o) ==> is_broken(o)
            && server_step(s, e).1 == ServerActionView::Shutdown(o),
{
}

/// Frame closure. Whatever happens on a connection, in whatever order: once its
/// outcome is settled, and unless the transport failed, all that the server has
/// written ends with `[CTRL, OP_EXIT]`. This holds on the error paths too.
pub proof fn lemma_frame_closure(peer_ip: Seq<u8>, now: u128, events: Seq<ServerEventView>)
    ensures
        match server_run(accepted(peer_ip, now), events).0.state {
            ServerState::Closing(o) | ServerState::Closed(o) => !is_broken(o) ==> ends_with_exit(
                written(server_run(accepted(peer_ip, now), events).1),
            ),
            _ => true,
        },
    decreases events.len(),
{
    let start = accepted(peer_ip, now);
    if events.len() > 0 {
        let (mid, before) = server_run(start, events.drop_last());
        let (next, action) = server_step(mid, events.last());
        let actions = before.push(action);
        lemma_frame_closure(peer_ip, now, events.drop_last());
        assert(actions.drop_last() =~= before);
        assert(actions.last() == action);
        match mid.state {
            ServerState::Closing(o) => {
                assert(written(actions) =~= written(before));
            },
            ServerState::Closed(o) => {
                assert(written(actions) =~= written(before));
            },
            _ => {
                lemma_step_closes(mid, events.last());
                match next.state {
                    ServerState::Closing(o) => {
                        lemma_farewell(o);
                        let tail = farewell(o);
                        let wire = written(before) + tail;
                        assert(written(actions) == wire);
                        assert(wire.skip(wire.len() - 2) =~= tail.skip(tail.len() - 2));
                    },
                    _ => {},
                }
            },
        }
    }
}

/// Unknown-connection handshake. A client whose first byte names no connection type
/// is sent exactly `[CTRL, OP_ERR, ERR_CONN_TY, CTRL, OP_EXIT]`, and then the
/// connection is shut down.
pub proof fn lemma_unknown_connection(peer_ip: Seq<u8>, now: u128, first: u8)
    requires
        first != crate::consts::CONN_DATA,
        first != crate::consts::CONN_STAT,
    ensures
        server_run(
            accepted(peer_ip, now),
            seq![ServerEventView::Received(seq![first]), ServerEventView::Written],
        ).1 == seq![
            ServerActionView::Write(seq![0x11u8, 0x18u8, 0x02u8, 0x11u8, 0x19u8]),
            ServerActionView::Shutdown(
                SessionOutcome::Failed(ServiceError::ProtoError(ProtoError::UnknownConnection)),
            ),
        ],
        server_run(
            accepted(peer_ip, now),
            seq![ServerEventView::Received(seq![first]), ServerEventView::Written],
        ).0.state == ServerState::Closed(
            SessionOutcome::Failed(ServiceError::ProtoError(ProtoError::UnknownConnection)),
        ),
{
    let start = accepted(peer_ip, now);
    let a = ServerEventView::Received(seq![first]);
    let b = ServerEventView::Written;
    lemma_run_2(start, a, b);
    assert(seq![first][0] == first);
    let outcome = SessionOutcome::Failed(ServiceError::ProtoError(ProtoError::UnknownConnection));
    assert(farewell(outcome) =~= seq![0x11u8, 0x18u8, 0x02u8, 0x11u8, 0x19u8]);
}

/// Exit before supply. When the probe of a round finds the client's exit signal, the
/// supplier is not asked in that round: the server says goodbye, and the connection
/// completes whether or not the farewell could be written.
pub proof fn lemma_exit_before_poll(s: SessionView, written_or_not: ServerEventView)
    requires
        s.state == ServerState::Probing,
    ensures
        server_run(
            s,
            seq![ServerEventView::Received(seq![0x11u8, 0x19u8]), written_or_not],
        ) == (
            s.at(ServerState::Closed(SessionOutcome::Completed)),
            seq![
                ServerActionView::Write(seq![0x11u8, 0x19u8]),
                ServerActionView::Shutdown(SessionOutcome::Completed),
            ],
        ),
{
    lemma_run_2(s, ServerEventView::Received(seq![0x11u8, 0x19u8]), written_or_not);
    assert(exit_frame() =~= seq![0x11u8, 0x19u8]);
}

/// Heartbeat. A round of the data loop in which the client has not asked to leave and
/// the supplier has nothing to send writes exactly one heartbeat byte and starts the
/// next round.
pub proof fn lemma_heartbeat(s: SessionView, nothing_yet: IoError)
    requires
        s.state == ServerState::Probing,
        nothing_yet.kind == IoErrorKind::WouldBlock,
    ensures
        server_run(
            s,
            seq![
                ServerEventView::Failed(nothing_yet),
                ServerEventView::Supplied(Err(TryRecvError::Empty)),
                ServerEventView::Written,
            ],
        ) == (
            s,
            seq![
                ServerActionView::Poll,
                ServerActionView::Write(seq![crate::consts::EMP]),
                ServerActionView::Probe(2),
            ],
        ),
{
    lemma_run_3(
        s,
        ServerEventView::Failed(nothing_yet),
        ServerEventView::Supplied(Err(TryRecvError::Empty)),
        ServerEventView::Written,
    );
}

/// A round of the data loop in which the client has not asked to leave and the
/// supplier hands out `packet` writes exactly the frame of that packet and starts the
/// next round: what goes on the wire was returned by the supplier before.
pub proof fn lemma_packet_round(s: SessionView, nothing_yet: IoError, packet: OutgoingDataPacket)
    requires
        s.state == ServerState::Probing,
        nothing_yet.kind == IoErrorKind::WouldBlock,
    ensures
        server_run(
            s,
            seq![
                ServerEventView::Failed(nothing_yet),
                ServerEventView::Supplied(Ok(packet)),
                ServerEventView::Written,
            ],
        ) == (
            s,
            seq![
                ServerActionView::Poll,
                ServerActionView::Write(packet_frame(packet.time)),
                ServerActionView::Probe(2),
            ],
        ),
{
    lemma_run_3(
        s,
        ServerEventView::Failed(nothing_yet),
        ServerEventView::Supplied(Ok(packet)),
        ServerEventView::Written,
    );
}

/// One more action adds what it writes, if it writes.
pub proof fn lemma_written_push(actions: Seq<ServerActionView>, a: ServerActionView)
    ensures
        written(Seq::empty()) == Seq::<u8>::empty(),
        written(actions.push(a)) == written(actions) + (match a {
            ServerActionView::Write(bytes) => bytes,
            _ => Seq::empty(),
        }),
{
    assert(actions.push(a).drop_last() =~= actions);
    assert(actions.push(a).last() == a);
}

/// A status connection from its first byte to its end. A client that announces a
/// status connection and sends a whole, well-formed request `req` is sent the fields it
/// asked for, the end of the transmission and the farewell, in that order, and the
/// connection completes.
pub proof fn lemma_status_session(peer_ip: Seq<u8>, now: u128, req: Seq<u8>)
    requires
        request_complete(req),
        status_reply(req, peer_ip, now, Version::current()) is Ok,
    ensures
        ({
            let fields = status_reply(req, peer_ip, now, Version::current())->Ok_0;
            let (end, actions) = server_run(
                accepted(peer_ip, now),
                seq![
                    ServerEventView::Received(seq![crate::consts::CONN_STAT]),
                    ServerEventView::Received(req),
                    ServerEventView::Written,
                    ServerEventView::Written,
                ],
            );
            &&& end.state == ServerState::Closed(SessionOutcome::Completed)
            &&& actions == seq![
                ServerActionView::Read(1),
                ServerActionView::Write(fields + ctrl_frame(ControlSignal::TransmissionEnd)),
                ServerActionView::Write(exit_frame()),
                ServerActionView::Shutdown(SessionOutcome::Completed),
            ]
            &&& written(actions) == fields + ctrl_frame(ControlSignal::TransmissionEnd)
                + exit_frame()
        }),
{
    let fields = status_reply(req, peer_ip, now, Version::current())->Ok_0;
    let start = accepted(peer_ip, now);
    let e0 = ServerEventView::Received(seq![crate::consts::CONN_STAT]);
    let e1 = ServerEventView::Received(req);
    let e2 = ServerEventView::Written;
    let response = fields + ctrl_frame(ControlSignal::TransmissionEnd);
    let a0 = ServerActionView::Read(1);
    let a1 = ServerActionView::Write(response);
    let a2 = ServerActionView::Write(exit_frame());
    let a3 = ServerActionView::Shutdown(SessionOutcome::Completed);

    assert(seq![crate::consts::CONN_STAT][0] == crate::consts::CONN_STAT);
    let s1 = server_step(start, e0).0;
    assert(server_step(start, e0) == (start.at(ServerState::Requesting), a0));
    assert(start.request + req =~= req);
    let grown = SessionView { request: req, ..s1 };
    assert(server_step(s1, e1) == respond(grown));
    let s2 = grown.at(ServerState::Responding);
    assert(server_step(s1, e1) == (s2, a1));
    let s3 = s2.at(ServerState::Closing(SessionOutcome::Completed));
    assert(server_step(s2, e2) == (s3, a2));
    let s4 = s3.at(ServerState::Closed(SessionOutcome::Completed));
    assert(server_step(s3, e2) == (s4, a3));

    let none = Seq::<ServerEventView>::empty();
    lemma_run_push(start, none, e0);
    lemma_run_push(start, none.push(e0), e1);
    lemma_run_push(start, none.push(e0).push(e1), e2);
    lemma_run_push(start, none.push(e0).push(e1).push(e2), e2);
    assert(none.push(e0).push(e1).push(e2).push(e2) =~= seq![e0, e1, e2, e2]);
    let actions = server_run(start, seq![e0, e1, e2, e2]).1;
    let idle = Seq::<ServerActionView>::empty();
    assert(actions =~= idle.push(a0).push(a1).push(a2).push(a3));
    assert(actions =~= seq![a0, a1, a2, a3]);

    lemma_written_push(idle, a0);
    lemma_written_push(idle.push(a0), a1);
    lemma_written_push(idle.push(a0).push(a1), a2);
    lemma_written_push(idle.push(a0).push(a1).push(a2), a3);
    assert(written(actions) =~= response + exit_frame());
}

} // verus!

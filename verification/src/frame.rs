//! Wire framing: the bytes of each frame and the reading of a signal byte.

use vstd::prelude::*;
use crate::consts::ControlSignal;
use crate::consts::ProtoError;
use crate::consts::CTRL;
use crate::consts::EMP;
use crate::consts::OP_ERR;
use crate::consts::OP_EXIT;
use crate::consts::SIG_PACKET;
use crate::endian::le_bytes;
use crate::endian::le_value;
use crate::endian::lemma_le_bytes_len;
use crate::endian::lemma_le_round_trip;
use crate::endian::lemma_pow256_widths;
use crate::endian::u64_from_le_bytes;
use crate::endian::u64_to_le_bytes;

verus! {

/// What the first byte of a server-to-client frame announces.
#[derive(Clone, Copy, PartialEq, Eq, Debug, Structural)]
pub enum Signal {
    /// A heartbeat: nothing follows.
    Empty,
    /// A packet: eight payload bytes follow.
    Packet,
    /// A control frame: one operation byte follows.
    Ctrl,
}

/// The frame of a packet with payload `v`: the packet signal, then `v` in eight
/// little-endian bytes.
pub open spec fn packet_frame(v: u64) -> Seq<u8> {
    seq![SIG_PACKET] + le_bytes(v as nat, 8)
}

/// The frame of a heartbeat.
pub open spec fn empty_frame() -> Seq<u8> {
    seq![EMP]
}

/// The control frame of `op`.
pub open spec fn ctrl_frame(op: ControlSignal) -> Seq<u8> {
    seq![CTRL, op.byte()]
}

/// The error frame of `kind`.
pub open spec fn err_frame(kind: ProtoError) -> Seq<u8> {
    seq![CTRL, OP_ERR, kind.byte()]
}

/// The signal that a first byte announces; `None` for a byte that announces none.
pub open spec fn signal_of(b: u8) -> Option<Signal> {
    if b == EMP {
        Some(Signal::Empty)
    } else if b == SIG_PACKET {
        Some(Signal::Packet)
    } else if b == CTRL {
        Some(Signal::Ctrl)
    } else {
        None
    }
}

/// Whether the bytes of one read are the client's exit signal: exactly `[CTRL, OP_EXIT]`.
pub open spec fn is_exit_sig(read: Seq<u8>) -> bool {
    read == seq![CTRL, OP_EXIT]
}

/// The frame of a packet with payload `payload`: nine bytes.
pub fn encode_packet(payload: u64) -> (frame: Vec<u8>)
    ensures
        frame@ == packet_frame(payload),
        frame@.len() == 9,
        frame@[0] == SIG_PACKET,
{
    let mut frame: Vec<u8> = Vec::new();
    write_packet(payload, &mut frame);
    proof {
        lemma_le_bytes_len(payload as nat, 8);
        assert(frame@ =~= packet_frame(payload));
    }
    frame
}

/// The frame of a heartbeat: one byte.
pub fn encode_empty() -> (frame: Vec<u8>)
    ensures
        frame@ == empty_frame(),
{
    let mut frame: Vec<u8> = Vec::new();
    write_nothing(&mut frame);
    frame
}

/// The control frame of `op`: two bytes.
pub fn encode_ctrl(op: ControlSignal) -> (frame: Vec<u8>)
    ensures
        frame@ == ctrl_frame(op),
{
    let mut frame: Vec<u8> = Vec::new();
    frame.push(CTRL);
    frame.push(op.to_u8());
    assert(frame@ =~= ctrl_frame(op));
    frame
}

/// The error frame of `kind`: three bytes.
pub fn encode_err(kind: ProtoError) -> (frame: Vec<u8>)
    ensures
        frame@ == err_frame(kind),
{
    let mut frame: Vec<u8> = Vec::new();
    frame.push(CTRL);
    frame.push(OP_ERR);
    frame.push(kind.to_u8());
    assert(frame@ =~= err_frame(kind));
    frame
}

/// Reads a signal byte. A byte that announces no signal is a protocol violation.
pub fn decode_signal(byte: u8) -> (r: Result<Signal, ProtoError>)
    ensures
        signal_of(byte) matches Some(s) ==> r == Ok::<Signal, ProtoError>(s),
        signal_of(byte) is None ==> r == Err::<Signal, ProtoError>(ProtoError::Invalid),
{
    if byte == EMP {
        Ok(Signal::Empty)
    } else if byte == SIG_PACKET {
        Ok(Signal::Packet)
    } else if byte == CTRL {
        Ok(Signal::Ctrl)
    } else {
        Err(ProtoError::Invalid)
    }
}

/// Reads the eight payload bytes of a packet; `None` unless there are exactly eight.
pub fn decode_packet(payload: &[u8]) -> (r: Option<u64>)
    ensures
        payload@.len() == 8 ==> (r matches Some(v) && v as nat == le_value(payload@)),
        payload@.len() != 8 ==> r is None,
{
    if payload.len() == 8 {
        Some(u64_from_le_bytes(payload))
    } else {
        None
    }
}

/// Appends the heartbeat frame to `sink`.
pub fn write_nothing(sink: &mut Vec<u8>)
    ensures
        final(sink)@ == old(sink)@ + empty_frame(),
{
    sink.push(EMP);
    assert(sink@ =~= old(sink)@ + empty_frame());
}

/// Appends the frame of a packet with payload `packet` to `sink`.
pub fn write_packet(packet: u64, sink: &mut Vec<u8>)
    ensures
        final(sink)@ == old(sink)@ + packet_frame(packet),
{
    let mut bytes = u64_to_le_bytes(packet);
    sink.push(SIG_PACKET);
    sink.append(&mut bytes);
    assert(sink@ =~= old(sink)@ + packet_frame(packet));
}

/// Appends the control frame of `op` to `sink`.
pub fn write_ctrl(op: ControlSignal, sink: &mut Vec<u8>)
    ensures
        final(sink)@ == old(sink)@ + ctrl_frame(op),
{
    sink.push(CTRL);
    sink.push(op.to_u8());
    assert(sink@ =~= old(sink)@ + ctrl_frame(op));
}

/// Appends the error frame of `kind` to `sink`.
pub fn write_err(kind: ProtoError, sink: &mut Vec<u8>)
    ensures
        final(sink)@ == old(sink)@ + err_frame(kind),
{
    sink.push(CTRL);
    sink.push(OP_ERR);
    sink.push(kind.to_u8());
    assert(sink@ =~= old(sink)@ + err_frame(kind));
}

/// Whether the bytes that one read returned are the client's exit signal.
pub fn find_exit_sig(read: &[u8]) -> (found: bool)
    ensures
        found == is_exit_sig(read@),
{
    let found = read.len() == 2 && read[0] == CTRL && read[1] == OP_EXIT;
    proof {
        if found {
            assert(read@ =~= seq![CTRL, OP_EXIT]);
        } else if read@.len() == 2 {
            assert(seq![CTRL, OP_EXIT][0] == CTRL);
            assert(seq![CTRL, OP_EXIT][1] == OP_EXIT);
        } else {
            assert(seq![CTRL, OP_EXIT].len() == 2);
        }
    }
    found
}

/// Packet round trip: for every payload `v`, the frame that carries it is the
/// packet signal followed by eight bytes, and reading those eight bytes gives `v` back.
pub proof fn lemma_packet_round_trip(v: u64)
    ensures
        packet_frame(v).len() == 9,
        signal_of(packet_frame(v)[0]) == Some(Signal::Packet),
        packet_frame(v).subrange(1, 9) == le_bytes(v as nat, 8),
        le_value(packet_frame(v).subrange(1, 9)) == v as nat,
{
    lemma_le_bytes_len(v as nat, 8);
    lemma_pow256_widths();
    lemma_le_round_trip(v as nat, 8);
    assert(packet_frame(v).subrange(1, 9) =~= le_bytes(v as nat, 8));
}

/// The three kinds of frame that open a server-to-client message are told apart by
/// their first byte, and no control or packet frame starts like a heartbeat.
pub proof fn lemma_signals_distinct(v: u64, op: ControlSignal, kind: ProtoError)
    ensures
        signal_of(empty_frame()[0]) == Some(Signal::Empty),
        signal_of(packet_frame(v)[0]) == Some(Signal::Packet),
        signal_of(ctrl_frame(op)[0]) == Some(Signal::Ctrl),
        signal_of(err_frame(kind)[0]) == Some(Signal::Ctrl),
{
}

} // verus!

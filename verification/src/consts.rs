//! Byte values of the protocol and the small types built on them.

use vstd::prelude::*;

verus! {

/// Prefix of every two-byte control frame.
pub const CTRL: u8 = 0x11;

/// Terminator of a variable-length field.
pub const NUL: u8 = 0x00;

/// Heartbeat: the server has no packet to send.
pub const EMP: u8 = 0x00;

/// Announces that a packet's payload follows.
pub const SIG_PACKET: u8 = 0xFF;

/// Control operation: the sender is closing the connection.
pub const OP_EXIT: u8 = 0x19;

/// Control operation: an error kind follows.
pub const OP_ERR: u8 = 0x18;

/// Control operation: the transmission is complete.
pub const OP_TRANS_END: u8 = 0x17;

/// Connection-type byte of a data connection.
pub const CONN_DATA: u8 = 0x01;

/// Connection-type byte of a status connection.
pub const CONN_STAT: u8 = 0x02;

/// Status flag: report the client's source address.
pub const STAT_CONN_IP: u8 = 0x80;

/// Status flag: report the server's clock.
pub const STAT_TIME: u8 = 0x40;

/// Status flag: send the request's echo bytes back.
pub const STAT_ECHO: u8 = 0x20;

/// Status flag: report the server's version.
pub const STAT_VER: u8 = 0x10;

/// Error kind: an unknown or unexpected byte.
pub const ERR_INVALID: u8 = 0x01;

/// Error kind: an unknown connection-type byte.
pub const ERR_CONN_TY: u8 = 0x02;

/// Error kind: the stream ended where a byte was required.
pub const ERR_EOF: u8 = 0x03;

/// The kind of connection a client announces with its first byte.
#[derive(Clone, Copy, PartialEq, Eq, Debug, Structural)]
pub enum ConnectionType {
    /// Streams measurement packets.
    Data,
    /// Answers one status request.
    Status,
}

impl ConnectionType {
    /// The byte that announces this kind of connection.
    pub open spec fn byte(self) -> u8 {
        match self {
            ConnectionType::Data => CONN_DATA,
            ConnectionType::Status => CONN_STAT,
        }
    }

    /// The kind that a first byte announces, if it announces one.
    pub open spec fn parse(b: u8) -> Option<ConnectionType> {
        if b == CONN_DATA {
            Some(ConnectionType::Data)
        } else if b == CONN_STAT {
            Some(ConnectionType::Status)
        } else {
            None
        }
    }

    /// The byte that announces this kind of connection.
    pub fn to_u8(self) -> (b: u8)
        ensures
            b == self.byte(),
            ConnectionType::parse(b) == Some(self),
    {
        match self {
            ConnectionType::Data => CONN_DATA,
            ConnectionType::Status => CONN_STAT,
        }
    }

    /// Reads a connection-type byte; `None` for any byte but `CONN_DATA` and `CONN_STAT`.
    pub fn from_u8(b: u8) -> (r: Option<ConnectionType>)
        ensures
            r == ConnectionType::parse(b),
            r matches Some(t) ==> t.byte() == b,
    {
        if b == CONN_DATA {
            Some(ConnectionType::Data)
        } else if b == CONN_STAT {
            Some(ConnectionType::Status)
        } else {
            None
        }
    }
}

/// The operation carried by a control frame `[CTRL, op]`.
#[derive(Clone, Copy, PartialEq, Eq, Debug, Structural)]
pub enum ControlSignal {
    /// The sender is closing the connection.
    Exit,
    /// An error kind follows.
    Error,
    /// The transmission is complete.
    TransmissionEnd,
}

impl ControlSignal {
    /// The operation byte of this signal.
    pub open spec fn byte(self) -> u8 {
        match self {
            ControlSignal::Exit => OP_EXIT,
            ControlSignal::Error => OP_ERR,
            ControlSignal::TransmissionEnd => OP_TRANS_END,
        }
    }

    /// The signal that an operation byte stands for, if any.
    pub open spec fn parse(b: u8) -> Option<ControlSignal> {
        if b == OP_EXIT {
            Some(ControlSignal::Exit)
        } else if b == OP_ERR {
            Some(ControlSignal::Error)
        } else if b == OP_TRANS_END {
            Some(ControlSignal::TransmissionEnd)
        } else {
            None
        }
    }

    /// The operation byte of this signal.
    pub fn to_u8(self) -> (b: u8)
        ensures
            b == self.byte(),
            ControlSignal::parse(b) == Some(self),
    {
        match self {
            ControlSignal::Exit => OP_EXIT,
            ControlSignal::Error => OP_ERR,
            ControlSignal::TransmissionEnd => OP_TRANS_END,
        }
    }

    /// Reads an operation byte; `None` for a byte that names no operation.
    pub fn from_u8(b: u8) -> (r: Option<ControlSignal>)
        ensures
            r == ControlSignal::parse(b),
            r matches Some(s) ==> s.byte() == b,
    {
        if b == OP_EXIT {
            Some(ControlSignal::Exit)
        } else if b == OP_ERR {
            Some(ControlSignal::Error)
        } else if b == OP_TRANS_END {
            Some(ControlSignal::TransmissionEnd)
        } else {
            None
        }
    }
}

/// A protocol violation, as reported on the wire after `[CTRL, OP_ERR]`.
#[derive(Clone, Copy, PartialEq, Eq, Debug, Structural)]
pub enum ProtoError {
    /// An unknown or unexpected byte, or a bad trailer.
    Invalid,
    /// An unknown connection-type byte.
    UnknownConnection,
    /// The stream ended where at least one byte was required.
    Eof,
}

impl ProtoError {
    /// The kind byte of this error.
    pub open spec fn byte(self) -> u8 {
        match self {
            ProtoError::Invalid => ERR_INVALID,
            ProtoError::UnknownConnection => ERR_CONN_TY,
            ProtoError::Eof => ERR_EOF,
        }
    }

    /// The error that a kind byte stands for, if any.
    pub open spec fn parse(b: u8) -> Option<ProtoError> {
        if b == ERR_INVALID {
            Some(ProtoError::Invalid)
        } else if b == ERR_CONN_TY {
            Some(ProtoError::UnknownConnection)
        } else if b == ERR_EOF {
            Some(ProtoError::Eof)
        } else {
            None
        }
    }

    /// The kind byte of this error.
    pub fn to_u8(self) -> (b: u8)
        ensures
            b == self.byte(),
            ProtoError::parse(b) == Some(self),
    {
        match self {
            ProtoError::Invalid => ERR_INVALID,
            ProtoError::UnknownConnection => ERR_CONN_TY,
            ProtoError::Eof => ERR_EOF,
        }
    }

    /// Reads a kind byte; `None` for a byte that names no error.
    pub fn from_u8(b: u8) -> (r: Option<ProtoError>)
        ensures
            r == ProtoError::parse(b),
            r matches Some(e) ==> e.byte() == b,
    {
        if b == ERR_INVALID {
            Some(ProtoError::Invalid)
        } else if b == ERR_CONN_TY {
            Some(ProtoError::UnknownConnection)
        } else if b == ERR_EOF {
            Some(ProtoError::Eof)
        } else {
            None
        }
    }
}

/// One field that a status request can ask for.
#[derive(Clone, Copy, PartialEq, Eq, Debug, Structural)]
pub enum StatusDataFlag {
    /// The client's source IPv4 address.
    ConnectionIp,
    /// The server's clock.
    Time,
    /// The request's echo bytes.
    Echo,
    /// The server's version.
    Version,
}

impl StatusDataFlag {
    /// The bit that stands for this flag in a flag byte.
    pub open spec fn mask(self) -> u8 {
        match self {
            StatusDataFlag::ConnectionIp => STAT_CONN_IP,
            StatusDataFlag::Time => STAT_TIME,
            StatusDataFlag::Echo => STAT_ECHO,
            StatusDataFlag::Version => STAT_VER,
        }
    }

    /// The bit that stands for this flag in a flag byte.
    pub fn bit(self) -> (m: u8)
        ensures
            m == self.mask(),
    {
        match self {
            StatusDataFlag::ConnectionIp => STAT_CONN_IP,
            StatusDataFlag::Time => STAT_TIME,
            StatusDataFlag::Echo => STAT_ECHO,
            StatusDataFlag::Version => STAT_VER,
        }
    }
}

/// The flag byte of a status request: which fields the response carries.
#[derive(Clone, Copy, PartialEq, Eq, Debug, Structural)]
pub struct StatusData {
    data: u8,
}

impl StatusData {
    /// The flag byte.
    pub closed spec fn bits(self) -> u8 {
        self.data
    }

    /// Whether `flag` is set.
    pub open spec fn has(self, flag: StatusDataFlag) -> bool {
        self.bits() & flag.mask() != 0
    }

    /// The flags of a received flag byte; reserved bits are carried along.
    pub fn from_u8(data: u8) -> (s: StatusData)
        ensures
            s.bits() == data,
    {
        StatusData { data }
    }

    /// No flag set.
    pub fn empty() -> (s: StatusData)
        ensures
            s.bits() == 0,
            forall|f: StatusDataFlag| !s.has(f),
    {
        let s = StatusData { data: 0 };
        assert forall|f: StatusDataFlag| !s.has(f) by {
            let m: u8 = f.mask();
            assert(0u8 & m == 0) by (bit_vector);
        }
        s
    }

    /// The four defined flags, the default request mask `0xF0`.
    pub fn all() -> (s: StatusData)
        ensures
            s.bits() == 0xF0,
            forall|f: StatusDataFlag| s.has(f),
    {
        let s = StatusData { data: 0xF0 };
        assert forall|f: StatusDataFlag| s.has(f) by {
            let m: u8 = f.mask();
            assert((m == 0x80 || m == 0x40 || m == 0x20 || m == 0x10) ==> 0xF0u8 & m != 0)
                by (bit_vector);
        }
        s
    }

    /// The flag byte.
    pub fn data(&self) -> (b: u8)
        ensures
            b == self.bits(),
    {
        self.data
    }

    /// Whether `flag` is set.
    pub fn has_flag(&self, flag: StatusDataFlag) -> (b: bool)
        ensures
            b == self.has(flag),
    {
        self.data & flag.bit() != 0
    }

    /// These flags and `flag`.
    pub fn with(self, flag: StatusDataFlag) -> (s: StatusData)
        ensures
            s.bits() == self.bits() | flag.mask(),
            s.has(flag),
            forall|g: StatusDataFlag| g != flag ==> s.has(g) == self.has(g),
    {
        let s = StatusData { data: self.data | flag.bit() };
        proof {
            lemma_set_bit(self.data, flag);
        }
        s
    }

    /// These flags but `flag`.
    pub fn without(self, flag: StatusDataFlag) -> (s: StatusData)
        ensures
            s.bits() == self.bits() & !flag.mask(),
            !s.has(flag),
            forall|g: StatusDataFlag| g != flag ==> s.has(g) == self.has(g),
    {
        let s = StatusData { data: self.data & !flag.bit() };
        proof {
            lemma_clear_bit(self.data, flag);
        }
        s
    }
}

impl Default for StatusData {
    /// The default request mask: the four defined flags.
    fn default() -> (s: StatusData)
        ensures
            s.bits() == 0xF0,
            forall|f: StatusDataFlag| s.has(f),
    {
        StatusData::all()
    }
}

proof fn lemma_bits(d: u8, m: u8, n: u8)
    by (bit_vector)
    requires
        m == 0x80 || m == 0x40 || m == 0x20 || m == 0x10,
        n == 0x80 || n == 0x40 || n == 0x20 || n == 0x10,
    ensures
        (d | m) & m != 0,
        (d & !m) & m == 0,
        m != n ==> (d | m) & n == d & n,
        m != n ==> (d & !m) & n == d & n,
{
}

proof fn lemma_set_bit(d: u8, flag: StatusDataFlag)
    ensures
        (d | flag.mask()) & flag.mask() != 0,
        forall|g: StatusDataFlag|
            g != flag ==> ((d | flag.mask()) & #[trigger] g.mask() != 0) == (d & g.mask() != 0),
{
    lemma_bits(d, flag.mask(), flag.mask());
    assert forall|g: StatusDataFlag| g != flag implies ((d | flag.mask()) & #[trigger] g.mask()
        != 0) == (d & g.mask() != 0) by {
        lemma_bits(d, flag.mask(), g.mask());
    }
}

proof fn lemma_clear_bit(d: u8, flag: StatusDataFlag)
    ensures
        (d & !flag.mask()) & flag.mask() == 0,
        forall|g: StatusDataFlag|
            g != flag ==> ((d & !flag.mask()) & #[trigger] g.mask() != 0) == (d & g.mask() != 0),
{
    lemma_bits(d, flag.mask(), flag.mask());
    assert forall|g: StatusDataFlag| g != flag implies ((d & !flag.mask()) & #[trigger] g.mask()
        != 0) == (d & g.mask() != 0) by {
        lemma_bits(d, flag.mask(), g.mask());
    }
}

} // verus!

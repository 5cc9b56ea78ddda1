//! Failures of the transport, as plain values.

use vstd::prelude::*;

verus! {

/// The kinds of transport failure that the protocol tells apart.
#[derive(Clone, Copy, PartialEq, Eq, Debug, Structural)]
pub enum IoErrorKind {
    /// A non-blocking operation had nothing to do yet.
    WouldBlock,
    /// The stream ended inside a frame.
    UnexpectedEof,
    /// Any other failure of the socket.
    Other,
}

impl IoErrorKind {
    /// The words for this kind of failure.
    pub open spec fn description(self) -> &'static str {
        match self {
            IoErrorKind::WouldBlock => "operation would block",
            IoErrorKind::UnexpectedEof => "unexpected end of file",
            IoErrorKind::Other => "other error",
        }
    }

    /// The words for this kind of failure.
    pub fn describe(self) -> (text: &'static str)
        ensures
            text == self.description(),
    {
        match self {
            IoErrorKind::WouldBlock => "operation would block",
            IoErrorKind::UnexpectedEof => "unexpected end of file",
            IoErrorKind::Other => "other error",
        }
    }
}

/// A failure of the transport: its kind and, where the operating system gave one, its
/// error code.
#[derive(Clone, Copy, PartialEq, Eq, Debug, Structural)]
pub struct IoError {
    /// What failed.
    pub kind: IoErrorKind,
    /// The operating system's error code, if the failure came with one.
    pub code: Option<i32>,
}

impl IoError {
    /// The failure of a framed read that met the end of the stream.
    pub open spec fn eof() -> IoError {
        IoError { kind: IoErrorKind::UnexpectedEof, code: None }
    }

    /// The failure of a framed read that met the end of the stream.
    pub fn unexpected_eof() -> (e: IoError)
        ensures
            e == IoError::eof(),
    {
        IoError { kind: IoErrorKind::UnexpectedEof, code: None }
    }

    /// Whether this failure only says that a non-blocking operation should be tried again.
    pub fn is_would_block(&self) -> (b: bool)
        ensures
            b == (self.kind == IoErrorKind::WouldBlock),
    {
        match self.kind {
            IoErrorKind::WouldBlock => true,
            _ => false,
        }
    }
}

} // verus!

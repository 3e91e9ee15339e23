use vstd::prelude::*;

verus! {

/// What caused a connection error; it decides which transition follows.
#[derive(Clone, Copy, Debug, PartialEq, Eq, Structural)]
pub enum ErrorKind {
    /// Closed on purpose by the local application.
    Application,
    /// A protocol violation or another fatal transport condition.
    Transport,
    /// The peer confirmed the close of the connection.
    CcfReceived,
    /// Every network path of the connection has failed.
    NoViablePath,
}

/// Transport error code for a protocol violation.
pub const PROTOCOL_VIOLATION: u64 = 0x0a;

/// Frame type recorded when no frame is to blame (the PADDING frame).
pub const DEFAULT_FRAME_TYPE: u64 = 0;

/// A connection error: its kind, an error code, the type of the frame that
/// caused it and a reason for humans. It is never changed once built.
#[derive(Clone, Debug, PartialEq, Eq)]
pub struct Error {
    pub kind: ErrorKind,
    pub code: u64,
    pub frame_type: u64,
    pub reason: String,
}

impl Error {
    /// An error of the given kind, with code 0 and the default frame type.
    pub fn with_default_fty(kind: ErrorKind, reason: String) -> (r: Error)
        ensures
            r.kind == kind,
            r.code == 0,
            r.frame_type == DEFAULT_FRAME_TYPE,
            r.reason == reason,
    {
        Error { kind, code: 0, frame_type: DEFAULT_FRAME_TYPE, reason }
    }

    /// A transport error with the PROTOCOL_VIOLATION code, blamed on the
    /// given frame type.
    pub fn protocol_violation(frame_type: u64, reason: String) -> (r: Error)
        ensures
            r.kind == ErrorKind::Transport,
            r.code == PROTOCOL_VIOLATION,
            r.frame_type == frame_type,
            r.reason == reason,
    {
        Error { kind: ErrorKind::Transport, code: PROTOCOL_VIOLATION, frame_type, reason }
    }

    /// An equal copy of this error.
    pub fn duplicate(&self) -> (r: Error)
        ensures
            r == *self,
    {
        Error {
            kind: self.kind,
            code: self.code,
            frame_type: self.frame_type,
            reason: self.reason.clone(),
        }
    }
}

} // verus!

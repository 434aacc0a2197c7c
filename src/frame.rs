use vstd::prelude::*;

verus! {

/// Status code and text carried by a close frame.
#[derive(Debug, Clone, PartialEq, Eq)]
pub struct CloseReason {
    pub code: u16,
    pub reason: String,
}

/// One message unit exchanged over a streaming connection.
#[derive(Debug, Clone, PartialEq, Eq)]
pub enum Frame {
    Text(String),
    Binary(Vec<u8>),
    Ping(Vec<u8>),
    Pong(Vec<u8>),
    Close(Option<CloseReason>),
}

/// Frames that carry application payloads, as opposed to protocol control.
pub open spec fn is_application(f: Frame) -> bool {
    f is Text || f is Binary
}

} // verus!

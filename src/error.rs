use vstd::prelude::*;

verus! {

/// Every failure the stack can report, from the CAN port up to the workflows.
#[derive(Debug, Clone, Copy, PartialEq, Eq, Structural)]
pub enum Error {
    /// The CAN driver reported an I/O failure.
    Io,
    /// No frame or response arrived within the budget.
    Timeout,
    /// A CAN frame over 8 bytes, or an ISO-TP payload over 4095 bytes.
    TooMuchData,
    /// The driver accepted less than one frame.
    IncompleteWrite,
    /// A frame type, sequence index or flow-control flag was wrong.
    InvalidFrame,
    /// An empty UDS response or one whose service id does not match.
    InvalidPacket,
    /// The ECU refused the request with this negative response code.
    NegativeResponse(u8),
    /// The ECU answered a memory read with no bytes.
    EmptyPacket,
    /// A datalog formula could not be compiled or evaluated.
    Eval,
}

impl Error {
    /// A short human-readable description of the error.
    pub fn describe(&self) -> (r: String) {
        match self {
            Error::Io => "I/O error".to_string(),
            Error::Timeout => "timed out".to_string(),
            Error::TooMuchData => "too much data".to_string(),
            Error::IncompleteWrite => "only part of the data could be written".to_string(),
            Error::InvalidFrame => "invalid ISO-TP frame".to_string(),
            Error::InvalidPacket => "invalid packet received".to_string(),
            Error::NegativeResponse(_) => "negative response received".to_string(),
            Error::EmptyPacket => "received an empty packet".to_string(),
            Error::Eval => "formula evaluation failed".to_string(),
        }
    }
}

} // verus!

//! The ways in which a query can fail.

use vstd::prelude::*;
use vstd::string::*;

verus! {

/// The transport operations that a session asks for.
#[derive(Clone, Copy, Debug, PartialEq, Eq, Structural)]
pub enum TransportOp {
    /// Binding an ephemeral local socket and connecting it to the server.
    Open,
    /// Sending a datagram.
    Send,
    /// Receiving a datagram.
    Receive,
}

/// Why a session ended without a response.
#[derive(Clone, Copy, Debug, PartialEq, Eq, Structural)]
pub enum QueryError {
    /// The configured address string names no endpoint.
    AddressResolution,
    /// The socket layer failed during the given operation.
    Transport(TransportOp),
}

/// The text that describes `error` to a person.
pub open spec fn error_text(error: QueryError) -> Seq<char> {
    match error {
        QueryError::AddressResolution => "Invalid address"@,
        QueryError::Transport(TransportOp::Open) => "transport failure: open"@,
        QueryError::Transport(TransportOp::Send) => "transport failure: send"@,
        QueryError::Transport(TransportOp::Receive) => "transport failure: receive"@,
    }
}

impl QueryError {
    /// A description of the error for display.
    pub fn message(&self) -> (text: String)
        ensures
            text@ == error_text(*self),
    {
        let text: &str = match self {
            QueryError::AddressResolution => "Invalid address",
            QueryError::Transport(TransportOp::Open) => "transport failure: open",
            QueryError::Transport(TransportOp::Send) => "transport failure: send",
            QueryError::Transport(TransportOp::Receive) => "transport failure: receive",
        };
        String::from_str(text)
    }
}

} // verus!

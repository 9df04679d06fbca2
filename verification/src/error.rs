//! The ways a protocol exchange can fail on the client side.

use vstd::prelude::*;

verus! {

/// A failure while talking to the server.
///
/// `Handshake` is a greeting that is not the expected success prefix;
/// `Decode` is a numeric field whose content did not parse; `Incomplete`
/// is a response that ended before every required field was seen.
/// Transport failures stay with the code that owns the connection.
#[derive(Clone, Copy, Debug, PartialEq, Eq, Structural)]
pub enum MpdError {
    Handshake,
    Decode,
    Incomplete,
}

impl MpdError {
    /// A short human-readable description of the failure.
    pub fn message(&self) -> (m: &'static str)
        ensures
            *self is Handshake ==> m@ == "server did not greet with a success"@,
            *self is Decode ==> m@ == "invalid numeric field in response"@,
            *self is Incomplete ==> m@ == "incomplete response"@,
    {
        match self {
            MpdError::Handshake => "server did not greet with a success",
            MpdError::Decode => "invalid numeric field in response",
            MpdError::Incomplete => "incomplete response",
        }
    }
}

} // verus!

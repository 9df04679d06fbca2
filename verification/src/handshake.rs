//! The greeting the server must send before any command is accepted.

use crate::error::MpdError;
use crate::text::{ascii_bytes, bytes_eq, bytes_of};
use vstd::prelude::*;

verus! {

/// The fixed seven-byte prefix of a successful greeting line.
pub open spec fn greeting_prefix() -> Seq<u8> {
    bytes_of("OK MPD "@)
}

/// Judge the first seven bytes read from a fresh connection: exactly the
/// success prefix passes, anything else is a handshake failure. The rest
/// of the greeting line (the server's version string) is not inspected
/// here; the caller discards it.
pub fn check_greeting(buf: &[u8]) -> (r: Result<(), MpdError>)
    ensures
        buf@ == greeting_prefix() ==> r == Ok::<(), MpdError>(()),
        buf@ != greeting_prefix() ==> r == Err::<(), MpdError>(MpdError::Handshake),
{
    proof {
        reveal_strlit("OK MPD ");
        assert(vstd::string::is_ascii("OK MPD "));
    }
    let pat = ascii_bytes("OK MPD ");
    if bytes_eq(buf, pat) {
        Ok(())
    } else {
        Err(MpdError::Handshake)
    }
}

} // verus!

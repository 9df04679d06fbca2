//! Command lines sent to the server, and the sentinel lines that end a
//! response.

use crate::num::dec_digits;
use crate::num::format_usize;
use crate::text::{append_bytes, ascii_bytes, bytes_eq, bytes_of, has_prefix, is_prefix_of};
use vstd::prelude::*;

verus! {

/// The success sentinel line.
pub open spec fn ok_line() -> Seq<u8> {
    bytes_of("OK"@)
}

/// The error sentinel prefix.
pub open spec fn ack_prefix() -> Seq<u8> {
    bytes_of("ACK "@)
}

/// `line` terminates a response: it is the success sentinel or begins
/// with the error sentinel prefix.
pub open spec fn is_response_end(line: Seq<u8>) -> bool {
    line == ok_line() || is_prefix_of(ack_prefix(), line)
}

/// Whether `line` ends a response, by either sentinel. Commands without
/// a structured payload read lines until this holds.
pub fn response_end(line: &[u8]) -> (r: bool)
    ensures
        r == is_response_end(line@),
{
    proof {
        reveal_strlit("OK");
        assert(vstd::string::is_ascii("OK"));
        reveal_strlit("ACK ");
        assert(vstd::string::is_ascii("ACK "));
    }
    if bytes_eq(line, ascii_bytes("OK")) {
        true
    } else {
        has_prefix(line, ascii_bytes("ACK "))
    }
}

/// The bytes of `cmd` followed by the newline terminator: the exact
/// bytes to write for one command.
pub fn terminated_command(cmd: &[u8]) -> (v: Vec<u8>)
    ensures
        v@ == cmd@ + seq![10u8],
{
    let mut v: Vec<u8> = Vec::new();
    append_bytes(&mut v, cmd);
    v.push(10);
    proof {
        assert(v@ =~= cmd@ + seq![10u8]);
    }
    v
}

/// The line that queries the player status.
pub fn status_command() -> (v: Vec<u8>)
    ensures
        v@ == bytes_of("status"@) + seq![10u8],
{
    proof {
        reveal_strlit("status");
        assert(vstd::string::is_ascii("status"));
    }
    terminated_command(ascii_bytes("status"))
}

/// The line that queries the current queue.
pub fn queue_command() -> (v: Vec<u8>)
    ensures
        v@ == bytes_of("playlistinfo"@) + seq![10u8],
{
    proof {
        reveal_strlit("playlistinfo");
        assert(vstd::string::is_ascii("playlistinfo"));
    }
    terminated_command(ascii_bytes("playlistinfo"))
}

/// The line that subscribes to the change classes the client cares
/// about and waits for a notification.
pub fn idle_command() -> (v: Vec<u8>)
    ensures
        v@ == bytes_of("idle options player playlist"@) + seq![10u8],
{
    proof {
        reveal_strlit("idle options player playlist");
        assert(vstd::string::is_ascii("idle options player playlist"));
    }
    terminated_command(ascii_bytes("idle options player playlist"))
}

/// The line that starts playback of the queue entry at `pos`.
pub fn play_command(pos: usize) -> (v: Vec<u8>)
    ensures
        v@ == bytes_of("play "@) + dec_digits(pos as int) + seq![10u8],
{
    proof {
        reveal_strlit("play ");
        assert(vstd::string::is_ascii("play "));
    }
    let mut v: Vec<u8> = Vec::new();
    append_bytes(&mut v, ascii_bytes("play "));
    let digits = format_usize(pos);
    append_bytes(&mut v, digits.as_slice());
    v.push(10);
    proof {
        assert(v@ =~= bytes_of("play "@) + dec_digits(pos as int) + seq![10u8]);
    }
    v
}

} // verus!

//! The status decoder: folds the lines of a `status` response into a
//! `Status` snapshot.

use crate::error::MpdError;
use crate::num::{parse_dec, parse_elapsed, parse_elapsed_spec};
use crate::text::{ascii_bytes, bytes_eq, bytes_of, has_prefix, is_prefix_of};
use vstd::prelude::*;

verus! {

/// What the player is doing right now.
#[derive(Clone, Copy, Debug, PartialEq, Eq, Structural)]
pub enum PlayerState {
    Play,
    Pause,
    Stop,
}

/// The currently loaded track: its queue position and how many whole
/// seconds of it have played.
#[derive(Clone, Copy, Debug, PartialEq, Eq, Structural)]
pub struct Song {
    pub pos: usize,
    pub elapsed: u16,
}

/// A snapshot of the player's configuration and transient state.
///
/// `single` is the tri-state single-play flag: `Some(false)` off,
/// `Some(true)` on, `None` one-shot. `song` is present exactly when both
/// a queue position and an elapsed time were reported.
#[derive(Clone, Copy, Debug, PartialEq, Eq)]
pub struct Status {
    pub repeat: bool,
    pub random: bool,
    pub single: Option<bool>,
    pub consume: bool,
    pub queue_len: usize,
    pub state: PlayerState,
    pub song: Option<Song>,
}

/// The per-call accumulator of the status decoder: each field starts
/// unset and is filled by the response line that reports it.
#[derive(Clone, Copy, Debug, PartialEq, Eq)]
pub struct StatusAcc {
    pub repeat: Option<bool>,
    pub random: Option<bool>,
    pub single: Option<Option<bool>>,
    pub consume: Option<bool>,
    pub queue_len: Option<usize>,
    pub state: PlayerState,
    pub pos: Option<usize>,
    pub elapsed: Option<u16>,
}

/// The accumulator before any line has been seen; the player state
/// defaults to stopped.
pub open spec fn init_status_acc() -> StatusAcc {
    StatusAcc {
        repeat: None,
        random: None,
        single: None,
        consume: None,
        queue_len: None,
        state: PlayerState::Stop,
        pos: None,
        elapsed: None,
    }
}

/// How one response line changes the accumulator: the updated
/// accumulator and whether the line was the success sentinel, or
/// nothing when a numeric field failed to parse. Lines that match no
/// pattern are ignored.
pub open spec fn spec_status_step(a: StatusAcc, line: Seq<u8>) -> Option<(StatusAcc, bool)> {
    if line == bytes_of("OK"@) {
        Some((a, true))
    } else if line == bytes_of("repeat: 0"@) {
        Some((StatusAcc { repeat: Some(false), ..a }, false))
    } else if line == bytes_of("repeat: 1"@) {
        Some((StatusAcc { repeat: Some(true), ..a }, false))
    } else if line == bytes_of("random: 0"@) {
        Some((StatusAcc { random: Some(false), ..a }, false))
    } else if line == bytes_of("random: 1"@) {
        Some((StatusAcc { random: Some(true), ..a }, false))
    } else if line == bytes_of("single: 0"@) {
        Some((StatusAcc { single: Some(Some(false)), ..a }, false))
    } else if line == bytes_of("single: 1"@) {
        Some((StatusAcc { single: Some(Some(true)), ..a }, false))
    } else if line == bytes_of("single: oneshot"@) {
        Some((StatusAcc { single: Some(None), ..a }, false))
    } else if line == bytes_of("consume: 0"@) {
        Some((StatusAcc { consume: Some(false), ..a }, false))
    } else if line == bytes_of("consume: 1"@) {
        Some((StatusAcc { consume: Some(true), ..a }, false))
    } else if is_prefix_of(bytes_of("playlistlength: "@), line) {
        match parse_dec(line.skip(16)) {
            Some(v) => if v <= usize::MAX {
                Some((StatusAcc { queue_len: Some(v as usize), ..a }, false))
            } else {
                None
            },
            None => None,
        }
    } else if line == bytes_of("state: play"@) {
        Some((StatusAcc { state: PlayerState::Play, ..a }, false))
    } else if line == bytes_of("state: pause"@) {
        Some((StatusAcc { state: PlayerState::Pause, ..a }, false))
    } else if is_prefix_of(bytes_of("song: "@), line) {
        match parse_dec(line.skip(6)) {
            Some(v) => if v <= usize::MAX {
                Some((StatusAcc { pos: Some(v as usize), ..a }, false))
            } else {
                None
            },
            None => None,
        }
    } else if is_prefix_of(bytes_of("elapsed: "@), line) {
        match parse_elapsed_spec(line.skip(9)) {
            Some(v) => Some((StatusAcc { elapsed: Some(v), ..a }, false)),
            None => None,
        }
    } else {
        Some((a, false))
    }
}

/// What closing the accumulator yields: a `Status` when every required
/// field was seen, an incomplete-response failure otherwise. The song is
/// present exactly when both of its fields were seen.
pub open spec fn spec_status_finish(a: StatusAcc) -> Result<Status, MpdError> {
    match (a.repeat, a.random, a.single, a.consume, a.queue_len) {
        (Some(repeat), Some(random), Some(single), Some(consume), Some(queue_len)) => Ok(
            Status {
                repeat,
                random,
                single,
                consume,
                queue_len,
                state: a.state,
                song: match (a.pos, a.elapsed) {
                    (Some(pos), Some(elapsed)) => Some(Song { pos, elapsed }),
                    _ => None,
                },
            },
        ),
        _ => Err(MpdError::Incomplete),
    }
}

/// What decoding a whole status response yields: the lines are folded in
/// order until the success sentinel or the end of the stream, then the
/// accumulator is closed.
pub open spec fn spec_status_decode(a: StatusAcc, lines: Seq<Seq<u8>>) -> Result<
    Status,
    MpdError,
>
    decreases lines.len(),
{
    if lines.len() == 0 {
        spec_status_finish(a)
    } else {
        match spec_status_step(a, lines[0]) {
            None => Err(MpdError::Decode),
            Some((a2, done)) => if done {
                spec_status_finish(a2)
            } else {
                spec_status_decode(a2, lines.drop_first())
            },
        }
    }
}

impl StatusAcc {
    /// A fresh accumulator with every field unset.
    pub fn new() -> (a: StatusAcc)
        ensures
            a == init_status_acc(),
    {
        StatusAcc {
            repeat: None,
            random: None,
            single: None,
            consume: None,
            queue_len: None,
            state: PlayerState::Stop,
            pos: None,
            elapsed: None,
        }
    }

    /// Fold one response line into the accumulator. Yields whether the
    /// line was the success sentinel; a numeric field that does not
    /// parse is a decode failure and leaves the accumulator unchanged.
    pub fn step(&mut self, line: &[u8]) -> (r: Result<bool, MpdError>)
        ensures
            match spec_status_step(*old(self), line@) {
                Some((a, done)) => *final(self) == a && r == Ok::<bool, MpdError>(done),
                None => *final(self) == *old(self) && r == Err::<bool, MpdError>(MpdError::Decode),
            },
    {
        proof {
            reveal_strlit("OK");
            reveal_strlit("repeat: 0");
            reveal_strlit("repeat: 1");
            reveal_strlit("random: 0");
            reveal_strlit("random: 1");
            reveal_strlit("single: 0");
            reveal_strlit("single: 1");
            reveal_strlit("single: oneshot");
            reveal_strlit("consume: 0");
            reveal_strlit("consume: 1");
            reveal_strlit("playlistlength: ");
            reveal_strlit("state: play");
            reveal_strlit("state: pause");
            reveal_strlit("song: ");
            reveal_strlit("elapsed: ");
            assert(vstd::string::is_ascii("OK"));
            assert(vstd::string::is_ascii("repeat: 0"));
            assert(vstd::string::is_ascii("repeat: 1"));
            assert(vstd::string::is_ascii("random: 0"));
            assert(vstd::string::is_ascii("random: 1"));
            assert(vstd::string::is_ascii("single: 0"));
            assert(vstd::string::is_ascii("single: 1"));
            assert(vstd::string::is_ascii("single: oneshot"));
            assert(vstd::string::is_ascii("consume: 0"));
            assert(vstd::string::is_ascii("consume: 1"));
            assert(vstd::string::is_ascii("playlistlength: "));
            assert(vstd::string::is_ascii("state: play"));
            assert(vstd::string::is_ascii("state: pause"));
            assert(vstd::string::is_ascii("song: "));
            assert(vstd::string::is_ascii("elapsed: "));
        }
        if bytes_eq(line, ascii_bytes("OK")) {
            Ok(true)
        } else if bytes_eq(line, ascii_bytes("repeat: 0")) {
            self.repeat = Some(false);
            Ok(false)
        } else if bytes_eq(line, ascii_bytes("repeat: 1")) {
            self.repeat = Some(true);
            Ok(false)
        } else if bytes_eq(line, ascii_bytes("random: 0")) {
            self.random = Some(false);
            Ok(false)
        } else if bytes_eq(line, ascii_bytes("random: 1")) {
            self.random = Some(true);
            Ok(false)
        } else if bytes_eq(line, ascii_bytes("single: 0")) {
            self.single = Some(Some(false));
            Ok(false)
        } else if bytes_eq(line, ascii_bytes("single: 1")) {
            self.single = Some(Some(true));
            Ok(false)
        } else if bytes_eq(line, ascii_bytes("single: oneshot")) {
            self.single = Some(None);
            Ok(false)
        } else if bytes_eq(line, ascii_bytes("consume: 0")) {
            self.consume = Some(false);
            Ok(false)
        } else if bytes_eq(line, ascii_bytes("consume: 1")) {
            self.consume = Some(true);
            Ok(false)
        } else if has_prefix(line, ascii_bytes("playlistlength: ")) {
            match parse_usize_at(line, 16) {
                Some(v) => {
                    self.queue_len = Some(v);
                    Ok(false)
                },
                None => Err(MpdError::Decode),
            }
        } else if bytes_eq(line, ascii_bytes("state: play")) {
            self.state = PlayerState::Play;
            Ok(false)
        } else if bytes_eq(line, ascii_bytes("state: pause")) {
            self.state = PlayerState::Pause;
            Ok(false)
        } else if has_prefix(line, ascii_bytes("song: ")) {
            match parse_usize_at(line, 6) {
                Some(v) => {
                    self.pos = Some(v);
                    Ok(false)
                },
                None => Err(MpdError::Decode),
            }
        } else if has_prefix(line, ascii_bytes("elapsed: ")) {
            match parse_elapsed(vstd::slice::slice_subrange(line, 9, line.len())) {
                Some(v) => {
                    proof {
                        assert(line@.subrange(9, line@.len() as int) =~= line@.skip(9));
                    }
                    self.elapsed = Some(v);
                    Ok(false)
                },
                None => {
                    proof {
                        assert(line@.subrange(9, line@.len() as int) =~= line@.skip(9));
                    }
                    Err(MpdError::Decode)
                },
            }
        } else {
            Ok(false)
        }
    }

    /// Close the accumulator: a `Status` when repeat, random, single,
    /// consume and queue length were all seen, an incomplete-response
    /// failure otherwise.
    pub fn finish(self) -> (r: Result<Status, MpdError>)
        ensures
            r == spec_status_finish(self),
    {
        match (self.repeat, self.random, self.single, self.consume, self.queue_len) {
            (Some(repeat), Some(random), Some(single), Some(consume), Some(queue_len)) => Ok(
                Status {
                    repeat,
                    random,
                    single,
                    consume,
                    queue_len,
                    state: self.state,
                    song: match (self.pos, self.elapsed) {
                        (Some(pos), Some(elapsed)) => Some(Song { pos, elapsed }),
                        _ => None,
                    },
                },
            ),
            _ => Err(MpdError::Incomplete),
        }
    }
}

/// Parse the bytes of `line` after position `at` as an unsigned decimal
/// integer that fits in `usize`.
fn parse_usize_at(line: &[u8], at: usize) -> (r: Option<usize>)
    requires
        at <= line@.len(),
    ensures
        match parse_dec(line@.skip(at as int)) {
            Some(v) => if v <= usize::MAX {
                r == Some(v as usize)
            } else {
                r is None
            },
            None => r is None,
        },
{
    let rest = vstd::slice::slice_subrange(line, at, line.len());
    proof {
        assert(rest@ =~= line@.skip(at as int));
        assert(usize::MAX as u64 == usize::MAX as int);
    }
    match crate::num::parse_dec_bounded(rest, usize::MAX as u64) {
        Some(v) => Some(v as usize),
        None => None,
    }
}

/// Decode a whole status response: fold every line in order until the
/// success sentinel or the end of the stream, then close the
/// accumulator.
pub fn decode_status(lines: &Vec<Vec<u8>>) -> (r: Result<Status, MpdError>)
    ensures
        r == spec_status_decode(init_status_acc(), lines.deep_view()),
{
    let ghost all = lines.deep_view();
    proof {
        assert(all.skip(0) =~= all);
    }
    let mut acc = StatusAcc::new();
    let n = lines.len();
    let mut i: usize = 0;
    while i < n
        invariant
            n == lines@.len(),
            i <= n,
            all == lines.deep_view(),
            spec_status_decode(init_status_acc(), all) == spec_status_decode(
                acc,
                all.skip(i as int),
            ),
        decreases n - i,
    {
        proof {
            assert(all[i as int] =~= lines@[i as int]@);
            assert(all.skip(i as int)[0] == all[i as int]);
            assert(all.skip(i as int).drop_first() =~= all.skip(i + 1 as int));
        }
        match acc.step(lines[i].as_slice()) {
            Err(e) => {
                return Err(e);
            },
            Ok(true) => {
                return acc.finish();
            },
            Ok(false) => {},
        }
        i += 1;
    }
    proof {
        assert(all.skip(n as int) =~= Seq::<Seq<u8>>::empty());
    }
    acc.finish()
}

/// `line` matches none of the status decoder's patterns: folding it
/// changes nothing and never fails.
pub open spec fn status_line_ignored(line: Seq<u8>) -> bool {
    &&& line != bytes_of("OK"@)
    &&& line != bytes_of("repeat: 0"@)
    &&& line != bytes_of("repeat: 1"@)
    &&& line != bytes_of("random: 0"@)
    &&& line != bytes_of("random: 1"@)
    &&& line != bytes_of("single: 0"@)
    &&& line != bytes_of("single: 1"@)
    &&& line != bytes_of("single: oneshot"@)
    &&& line != bytes_of("consume: 0"@)
    &&& line != bytes_of("consume: 1"@)
    &&& !is_prefix_of(bytes_of("playlistlength: "@), line)
    &&& line != bytes_of("state: play"@)
    &&& line != bytes_of("state: pause"@)
    &&& !is_prefix_of(bytes_of("song: "@), line)
    &&& !is_prefix_of(bytes_of("elapsed: "@), line)
}

/// Inserting a line the status decoder ignores, anywhere in a response,
/// does not change what the response decodes to.
pub proof fn lemma_status_ignored_line(a: StatusAcc, lines: Seq<Seq<u8>>, i: int, extra: Seq<u8>)
    requires
        0 <= i <= lines.len(),
        status_line_ignored(extra),
    ensures
        spec_status_decode(a, lines.insert(i, extra)) == spec_status_decode(a, lines),
    decreases i,
{
    let ins = lines.insert(i, extra);
    if i == 0 {
        assert(ins[0] == extra);
        assert(ins.drop_first() =~= lines);
    } else {
        assert(ins[0] == lines[0]);
        assert(ins.drop_first() =~= lines.drop_first().insert(i - 1, extra));
        match spec_status_step(a, lines[0]) {
            None => {},
            Some((a2, done)) => {
                if !done {
                    lemma_status_ignored_line(a2, lines.drop_first(), i - 1, extra);
                }
            },
        }
    }
}

} // verus!

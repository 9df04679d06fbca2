//! The idle decoder: folds change-notification lines into the pair of
//! flags the caller waits for.

use crate::text::{ascii_bytes, bytes_eq, bytes_of};
use vstd::prelude::*;

verus! {

/// Which change notifications have arrived so far: `status` for the
/// `options` and `player` change classes, `queue` for `playlist`.
#[derive(Clone, Copy, Debug, PartialEq, Eq, Structural)]
pub struct IdleAcc {
    pub status: bool,
    pub queue: bool,
}

/// The flags before any line has been seen.
pub open spec fn init_idle_acc() -> IdleAcc {
    IdleAcc { status: false, queue: false }
}

/// How one response line changes the flags, and whether it was the
/// success sentinel. `changed: options` and `changed: player` raise the
/// status flag, `changed: playlist` raises the queue flag; any other
/// change class, and any other line, is ignored.
pub open spec fn spec_idle_step(a: IdleAcc, line: Seq<u8>) -> (IdleAcc, bool) {
    if line == bytes_of("changed: options"@) {
        (IdleAcc { status: true, ..a }, false)
    } else if line == bytes_of("changed: player"@) {
        (IdleAcc { status: true, ..a }, false)
    } else if line == bytes_of("changed: playlist"@) {
        (IdleAcc { queue: true, ..a }, false)
    } else if line == bytes_of("OK"@) {
        (a, true)
    } else {
        (a, false)
    }
}

/// What decoding a whole idle response yields: the lines are folded in
/// order until the success sentinel or the end of the stream. This
/// never fails; unknown lines only leave the flags alone.
pub open spec fn spec_idle_decode(a: IdleAcc, lines: Seq<Seq<u8>>) -> IdleAcc
    decreases lines.len(),
{
    if lines.len() == 0 {
        a
    } else {
        let (a2, done) = spec_idle_step(a, lines[0]);
        if done {
            a2
        } else {
            spec_idle_decode(a2, lines.drop_first())
        }
    }
}

impl IdleAcc {
    /// Fresh flags, both lowered.
    pub fn new() -> (a: IdleAcc)
        ensures
            a == init_idle_acc(),
    {
        IdleAcc { status: false, queue: false }
    }

    /// Fold one response line into the flags. Yields whether the line
    /// was the success sentinel.
    pub fn step(&mut self, line: &[u8]) -> (done: bool)
        ensures
            spec_idle_step(*old(self), line@) == (*final(self), done),
    {
        proof {
            reveal_strlit("changed: options");
            reveal_strlit("changed: player");
            reveal_strlit("changed: playlist");
            reveal_strlit("OK");
            assert(vstd::string::is_ascii("changed: options"));
            assert(vstd::string::is_ascii("changed: player"));
            assert(vstd::string::is_ascii("changed: playlist"));
            assert(vstd::string::is_ascii("OK"));
        }
        if bytes_eq(line, ascii_bytes("changed: options")) {
            self.status = true;
            false
        } else if bytes_eq(line, ascii_bytes("changed: player")) {
            self.status = true;
            false
        } else if bytes_eq(line, ascii_bytes("changed: playlist")) {
            self.queue = true;
            false
        } else {
            bytes_eq(line, ascii_bytes("OK"))
        }
    }
}

/// Decode a whole idle response: fold every line in order until the
/// success sentinel or the end of the stream.
pub fn decode_idle(lines: &Vec<Vec<u8>>) -> (r: IdleAcc)
    ensures
        r == spec_idle_decode(init_idle_acc(), lines.deep_view()),
{
    let ghost all = lines.deep_view();
    proof {
        assert(all.skip(0) =~= all);
    }
    let mut acc = IdleAcc::new();
    let n = lines.len();
    let mut i: usize = 0;
    while i < n
        invariant
            n == lines@.len(),
            i <= n,
            all == lines.deep_view(),
            spec_idle_decode(init_idle_acc(), all) == spec_idle_decode(acc, all.skip(i as int)),
        decreases n - i,
    {
        proof {
            assert(all[i as int] =~= lines@[i as int]@);
            assert(all.skip(i as int)[0] == all[i as int]);
            assert(all.skip(i as int).drop_first() =~= all.skip(i + 1 as int));
        }
        if acc.step(lines[i].as_slice()) {
            return acc;
        }
        i += 1;
    }
    proof {
        assert(all.skip(n as int) =~= Seq::<Seq<u8>>::empty());
    }
    acc
}

/// `line` matches none of the idle decoder's patterns: folding it
/// changes nothing.
pub open spec fn idle_line_ignored(line: Seq<u8>) -> bool {
    &&& line != bytes_of("changed: options"@)
    &&& line != bytes_of("changed: player"@)
    &&& line != bytes_of("changed: playlist"@)
    &&& line != bytes_of("OK"@)
}

/// Inserting a line the idle decoder ignores, anywhere in a response,
/// does not change what the response decodes to.
pub proof fn lemma_idle_ignored_line(a: IdleAcc, lines: Seq<Seq<u8>>, i: int, extra: Seq<u8>)
    requires
        0 <= i <= lines.len(),
        idle_line_ignored(extra),
    ensures
        spec_idle_decode(a, lines.insert(i, extra)) == spec_idle_decode(a, lines),
    decreases i,
{
    let ins = lines.insert(i, extra);
    if i == 0 {
        assert(ins[0] == extra);
        assert(ins.drop_first() =~= lines);
    } else {
        assert(ins[0] == lines[0]);
        assert(ins.drop_first() =~= lines.drop_first().insert(i - 1, extra));
        let (a2, done) = spec_idle_step(a, lines[0]);
        if !done {
            lemma_idle_ignored_line(a2, lines.drop_first(), i - 1, extra);
        }
    }
}

/// Raising a flag is permanent: a decode that starts with a flag raised
/// ends with it raised, whatever lines arrive.
pub proof fn lemma_idle_flags_monotone(a: IdleAcc, lines: Seq<Seq<u8>>)
    ensures
        a.status ==> spec_idle_decode(a, lines).status,
        a.queue ==> spec_idle_decode(a, lines).queue,
    decreases lines.len(),
{
    if lines.len() > 0 {
        let (a2, done) = spec_idle_step(a, lines[0]);
        if !done {
            lemma_idle_flags_monotone(a2, lines.drop_first());
        }
    }
}

} // verus!

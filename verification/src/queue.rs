//! The queue decoder: folds the lines of a `playlistinfo` response into
//! the ordered list of tracks.

use crate::error::MpdError;
use crate::num::parse_dec;
use crate::text::{ascii_bytes, bytes_eq, bytes_of, has_prefix, is_prefix_of, suffix_from};
use vstd::prelude::*;

verus! {

/// One queue entry: its file identifier, the optional tags the server
/// reported for it, and its duration in whole seconds (zero when the
/// server reported none).
#[derive(Clone, Debug, PartialEq, Eq)]
pub struct Track {
    pub file: Vec<u8>,
    pub artist: Option<Vec<u8>>,
    pub album: Option<Vec<u8>>,
    pub title: Option<Vec<u8>>,
    pub time: u16,
}

/// The mathematical value of a `Track`.
pub ghost struct TrackV {
    pub file: Seq<u8>,
    pub artist: Option<Seq<u8>>,
    pub album: Option<Seq<u8>>,
    pub title: Option<Seq<u8>>,
    pub time: u16,
}

/// The view of an optional byte buffer.
pub open spec fn opt_bytes_view(o: Option<Vec<u8>>) -> Option<Seq<u8>> {
    match o {
        Some(v) => Some(v@),
        None => None,
    }
}

impl View for Track {
    type V = TrackV;

    open spec fn view(&self) -> TrackV {
        TrackV {
            file: self.file@,
            artist: opt_bytes_view(self.artist),
            album: opt_bytes_view(self.album),
            title: opt_bytes_view(self.title),
            time: self.time,
        }
    }
}

impl DeepView for Track {
    type V = TrackV;

    open spec fn deep_view(&self) -> TrackV {
        self@
    }
}

/// The per-call accumulator of the queue decoder: the fields of the
/// track currently being gathered, whether any boundary line has been
/// seen yet, and the tracks already flushed.
pub struct QueueAcc {
    pub first: bool,
    pub file: Option<Vec<u8>>,
    pub artist: Option<Vec<u8>>,
    pub album: Option<Vec<u8>>,
    pub title: Option<Vec<u8>>,
    pub time: u16,
    pub tracks: Vec<Track>,
}

/// The mathematical value of a `QueueAcc`.
pub ghost struct QueueAccV {
    pub first: bool,
    pub file: Option<Seq<u8>>,
    pub artist: Option<Seq<u8>>,
    pub album: Option<Seq<u8>>,
    pub title: Option<Seq<u8>>,
    pub time: u16,
    pub tracks: Seq<TrackV>,
}

impl View for QueueAcc {
    type V = QueueAccV;

    open spec fn view(&self) -> QueueAccV {
        QueueAccV {
            first: self.first,
            file: opt_bytes_view(self.file),
            artist: opt_bytes_view(self.artist),
            album: opt_bytes_view(self.album),
            title: opt_bytes_view(self.title),
            time: self.time,
            tracks: self.tracks.deep_view(),
        }
    }
}

/// The accumulator before any line has been seen.
pub open spec fn init_queue_acc() -> QueueAccV {
    QueueAccV {
        first: true,
        file: None,
        artist: None,
        album: None,
        title: None,
        time: 0,
        tracks: Seq::empty(),
    }
}

/// The track the accumulator is currently gathering, given its file.
pub open spec fn current_track(a: QueueAccV, file: Seq<u8>) -> TrackV {
    TrackV { file, artist: a.artist, album: a.album, title: a.title, time: a.time }
}

/// The accumulator after a `file:` boundary starting a track named
/// `rest`, with `tracks` as the flushed output so far.
pub open spec fn boundary_acc(rest: Seq<u8>, tracks: Seq<TrackV>) -> QueueAccV {
    QueueAccV {
        first: false,
        file: Some(rest),
        artist: None,
        album: None,
        title: None,
        time: 0,
        tracks,
    }
}

/// How one response line changes the accumulator: the updated
/// accumulator and whether the line was the success sentinel. A `file:`
/// boundary flushes the track gathered so far — except the very first,
/// which only starts one; a boundary with nothing gathered after the
/// first is an incomplete response, and a `Time:` value that does not
/// parse as a `u16` is a decode failure. Lines that match no pattern
/// are ignored.
pub open spec fn spec_queue_step(a: QueueAccV, line: Seq<u8>) -> Result<
    (QueueAccV, bool),
    MpdError,
> {
    if line == bytes_of("OK"@) {
        Ok((a, true))
    } else if is_prefix_of(bytes_of("file: "@), line) {
        let rest = line.skip(6);
        if a.first {
            Ok((boundary_acc(rest, a.tracks), false))
        } else {
            match a.file {
                Some(f) => Ok((boundary_acc(rest, a.tracks.push(current_track(a, f))), false)),
                None => Err(MpdError::Incomplete),
            }
        }
    } else if is_prefix_of(bytes_of("Artist: "@), line) {
        Ok((QueueAccV { artist: Some(line.skip(8)), ..a }, false))
    } else if is_prefix_of(bytes_of("Album: "@), line) {
        Ok((QueueAccV { album: Some(line.skip(7)), ..a }, false))
    } else if is_prefix_of(bytes_of("Title: "@), line) {
        Ok((QueueAccV { title: Some(line.skip(7)), ..a }, false))
    } else if is_prefix_of(bytes_of("Time: "@), line) {
        match parse_dec(line.skip(6)) {
            Some(v) => if v <= u16::MAX {
                Ok((QueueAccV { time: v as u16, ..a }, false))
            } else {
                Err(MpdError::Decode)
            },
            None => Err(MpdError::Decode),
        }
    } else {
        Ok((a, false))
    }
}

/// What closing the accumulator yields: the flushed tracks, with the
/// one still being gathered appended when a boundary had started it.
pub open spec fn spec_queue_finish(a: QueueAccV) -> Seq<TrackV> {
    match a.file {
        Some(f) => a.tracks.push(current_track(a, f)),
        None => a.tracks,
    }
}

/// What decoding a whole queue response yields: the lines are folded in
/// order until the success sentinel or the end of the stream, then the
/// accumulator is closed.
pub open spec fn spec_queue_decode(a: QueueAccV, lines: Seq<Seq<u8>>) -> Result<
    Seq<TrackV>,
    MpdError,
>
    decreases lines.len(),
{
    if lines.len() == 0 {
        Ok(spec_queue_finish(a))
    } else {
        match spec_queue_step(a, lines[0]) {
            Err(e) => Err(e),
            Ok((a2, done)) => if done {
                Ok(spec_queue_finish(a2))
            } else {
                spec_queue_decode(a2, lines.drop_first())
            },
        }
    }
}

impl QueueAcc {
    /// A fresh accumulator with nothing gathered.
    pub fn new() -> (a: QueueAcc)
        ensures
            a@ == init_queue_acc(),
    {
        let a = QueueAcc {
            first: true,
            file: None,
            artist: None,
            album: None,
            title: None,
            time: 0,
            tracks: Vec::new(),
        };
        proof {
            assert(a@.tracks =~= init_queue_acc().tracks);
        }
        a
    }

    /// Fold one response line into the accumulator. Yields whether the
    /// line was the success sentinel; a failure leaves the accumulator
    /// unchanged.
    pub fn step(&mut self, line: &[u8]) -> (r: Result<bool, MpdError>)
        ensures
            match spec_queue_step(old(self)@, line@) {
                Ok((a, done)) => final(self)@ == a && r == Ok::<bool, MpdError>(done),
                Err(e) => final(self)@ == old(self)@ && r == Err::<bool, MpdError>(e),
            },
    {
        proof {
            reveal_strlit("OK");
            reveal_strlit("file: ");
            reveal_strlit("Artist: ");
            reveal_strlit("Album: ");
            reveal_strlit("Title: ");
            reveal_strlit("Time: ");
            assert(vstd::string::is_ascii("OK"));
            assert(vstd::string::is_ascii("file: "));
            assert(vstd::string::is_ascii("Artist: "));
            assert(vstd::string::is_ascii("Album: "));
            assert(vstd::string::is_ascii("Title: "));
            assert(vstd::string::is_ascii("Time: "));
        }
        if bytes_eq(line, ascii_bytes("OK")) {
            Ok(true)
        } else if has_prefix(line, ascii_bytes("file: ")) {
            let rest = suffix_from(line, 6);
            proof {
                assert(rest@ =~= line@.skip(6));
            }
            let ghost a0 = self@;
            if self.first {
                self.first = false;
            } else {
                match self.file.take() {
                    Some(f) => {
                        let ghost fv = f@;
                        let track = Track {
                            file: f,
                            artist: self.artist.take(),
                            album: self.album.take(),
                            title: self.title.take(),
                            time: self.time,
                        };
                        proof {
                            assert(track@ == current_track(a0, fv));
                        }
                        self.tracks.push(track);
                        proof {
                            assert(self.tracks.deep_view() =~= a0.tracks.push(
                                current_track(a0, fv),
                            ));
                        }
                    },
                    None => {
                        return Err(MpdError::Incomplete);
                    },
                }
            }
            self.file = Some(rest);
            self.artist = None;
            self.album = None;
            self.title = None;
            self.time = 0;
            Ok(false)
        } else if has_prefix(line, ascii_bytes("Artist: ")) {
            let rest = suffix_from(line, 8);
            proof {
                assert(rest@ =~= line@.skip(8));
            }
            self.artist = Some(rest);
            Ok(false)
        } else if has_prefix(line, ascii_bytes("Album: ")) {
            let rest = suffix_from(line, 7);
            proof {
                assert(rest@ =~= line@.skip(7));
            }
            self.album = Some(rest);
            Ok(false)
        } else if has_prefix(line, ascii_bytes("Title: ")) {
            let rest = suffix_from(line, 7);
            proof {
                assert(rest@ =~= line@.skip(7));
            }
            self.title = Some(rest);
            Ok(false)
        } else if has_prefix(line, ascii_bytes("Time: ")) {
            let rest = vstd::slice::slice_subrange(line, 6, line.len());
            proof {
                assert(rest@ =~= line@.skip(6));
            }
            match crate::num::parse_dec_bounded(rest, 65535) {
                Some(v) => {
                    self.time = v as u16;
                    Ok(false)
                },
                None => Err(MpdError::Decode),
            }
        } else {
            Ok(false)
        }
    }

    /// Close the accumulator and hand the tracks back in the order the
    /// server emitted them.
    pub fn finish(self) -> (r: Vec<Track>)
        ensures
            r.deep_view() == spec_queue_finish(self@),
    {
        let ghost a0 = self@;
        let QueueAcc { first: _, file, artist, album, title, time, mut tracks } = self;
        match file {
            Some(f) => {
                let ghost fv = f@;
                let track = Track { file: f, artist, album, title, time };
                proof {
                    assert(track@ == current_track(a0, fv));
                }
                tracks.push(track);
                proof {
                    assert(tracks.deep_view() =~= a0.tracks.push(current_track(a0, fv)));
                }
                tracks
            },
            None => tracks,
        }
    }
}

/// Decode a whole queue response: fold every line in order until the
/// success sentinel or the end of the stream, then close the
/// accumulator.
pub fn decode_queue(lines: &Vec<Vec<u8>>) -> (r: Result<Vec<Track>, MpdError>)
    ensures
        match r {
            Ok(tracks) => spec_queue_decode(init_queue_acc(), lines.deep_view()) == Ok::<
                Seq<TrackV>,
                MpdError,
            >(tracks.deep_view()),
            Err(e) => spec_queue_decode(init_queue_acc(), lines.deep_view()) == Err::<
                Seq<TrackV>,
                MpdError,
            >(e),
        },
{
    let ghost all = lines.deep_view();
    proof {
        assert(all.skip(0) =~= all);
    }
    let mut acc = QueueAcc::new();
    let n = lines.len();
    let mut i: usize = 0;
    while i < n
        invariant
            n == lines@.len(),
            i <= n,
            all == lines.deep_view(),
            spec_queue_decode(init_queue_acc(), all) == spec_queue_decode(
                acc@,
                all.skip(i as int),
            ),
        decreases n - i,
    {
        proof {
            assert(all[i as int] =~= lines@[i as int]@);
            assert(all.skip(i as int)[0] == all[i as int]);
            assert(all.skip(i as int).drop_first() =~= all.skip(i + 1 as int));
        }
        match acc.step(lines[i].as_slice()) {
            Err(e) => {
                return Err(e);
            },
            Ok(true) => {
                return Ok(acc.finish());
            },
            Ok(false) => {},
        }
        i += 1;
    }
    proof {
        assert(all.skip(n as int) =~= Seq::<Seq<u8>>::empty());
    }
    Ok(acc.finish())
}

/// `line` matches none of the queue decoder's patterns: folding it
/// changes nothing and never fails.
pub open spec fn queue_line_ignored(line: Seq<u8>) -> bool {
    &&& line != bytes_of("OK"@)
    &&& !is_prefix_of(bytes_of("file: "@), line)
    &&& !is_prefix_of(bytes_of("Artist: "@), line)
    &&& !is_prefix_of(bytes_of("Album: "@), line)
    &&& !is_prefix_of(bytes_of("Title: "@), line)
    &&& !is_prefix_of(bytes_of("Time: "@), line)
}

/// Inserting a line the queue decoder ignores, anywhere in a response,
/// does not change what the response decodes to.
pub proof fn lemma_queue_ignored_line(a: QueueAccV, lines: Seq<Seq<u8>>, i: int, extra: Seq<u8>)
    requires
        0 <= i <= lines.len(),
        queue_line_ignored(extra),
    ensures
        spec_queue_decode(a, lines.insert(i, extra)) == spec_queue_decode(a, lines),
    decreases i,
{
    let ins = lines.insert(i, extra);
    if i == 0 {
        assert(ins[0] == extra);
        assert(ins.drop_first() =~= lines);
    } else {
        assert(ins[0] == lines[0]);
        assert(ins.drop_first() =~= lines.drop_first().insert(i - 1, extra));
        match spec_queue_step(a, lines[0]) {
            Err(_) => {},
            Ok((a2, done)) => {
                if !done {
                    lemma_queue_ignored_line(a2, lines.drop_first(), i - 1, extra);
                }
            },
        }
    }
}

} // verus!

use mpd_client::{
    decode_idle, decode_queue, decode_status, MpdError, PlayerState, Song, Status, Track,
};

fn lines(xs: &[&str]) -> Vec<Vec<u8>> {
    let mut v = Vec::new();
    for x in xs {
        v.push(x.as_bytes().to_vec());
    }
    v
}

fn track(
    file: &str,
    artist: Option<&str>,
    album: Option<&str>,
    title: Option<&str>,
    time: u16,
) -> Track {
    Track {
        file: file.as_bytes().to_vec(),
        artist: artist.map(|s| s.as_bytes().to_vec()),
        album: album.map(|s| s.as_bytes().to_vec()),
        title: title.map(|s| s.as_bytes().to_vec()),
        time,
    }
}

#[test]
fn status_round_trip() {
    let r = decode_status(&lines(&[
        "repeat: 1",
        "random: 0",
        "single: oneshot",
        "consume: 0",
        "playlistlength: 3",
        "state: play",
        "song: 1",
        "elapsed: 12.6",
        "OK",
    ]));
    assert_eq!(
        r,
        Ok(Status {
            repeat: true,
            random: false,
            single: None,
            consume: false,
            queue_len: 3,
            state: PlayerState::Play,
            song: Some(Song { pos: 1, elapsed: 13 }),
        })
    );
}

#[test]
fn status_missing_required_field() {
    let r = decode_status(&lines(&[
        "repeat: 1",
        "random: 0",
        "single: 0",
        "playlistlength: 3",
        "OK",
    ]));
    assert_eq!(r, Err(MpdError::Incomplete));
}

#[test]
fn status_empty_stream_is_incomplete() {
    assert_eq!(decode_status(&lines(&[])), Err(MpdError::Incomplete));
}

#[test]
fn status_without_song_fields() {
    let r = decode_status(&lines(&[
        "repeat: 0",
        "random: 1",
        "single: 1",
        "consume: 1",
        "playlistlength: 0",
        "OK",
    ]));
    assert_eq!(
        r,
        Ok(Status {
            repeat: false,
            random: true,
            single: Some(true),
            consume: true,
            queue_len: 0,
            state: PlayerState::Stop,
            song: None,
        })
    );
}

#[test]
fn status_song_needs_both_fields() {
    let r = decode_status(&lines(&[
        "repeat: 0",
        "random: 0",
        "single: 0",
        "consume: 0",
        "playlistlength: 2",
        "song: 1",
        "OK",
    ]));
    let s = r.unwrap();
    assert_eq!(s.song, None);
}

#[test]
fn status_state_pause() {
    let r = decode_status(&lines(&[
        "repeat: 0",
        "random: 0",
        "single: 0",
        "consume: 0",
        "playlistlength: 1",
        "state: pause",
        "OK",
    ]));
    assert_eq!(r.unwrap().state, PlayerState::Pause);
}

#[test]
fn status_non_numeric_elapsed_aborts() {
    let r = decode_status(&lines(&[
        "repeat: 1",
        "random: 0",
        "single: 0",
        "consume: 0",
        "playlistlength: 3",
        "elapsed: abc",
        "OK",
    ]));
    assert_eq!(r, Err(MpdError::Decode));
}

#[test]
fn status_non_numeric_playlistlength_aborts() {
    let r = decode_status(&lines(&["playlistlength: x3", "OK"]));
    assert_eq!(r, Err(MpdError::Decode));
}

#[test]
fn status_playlistlength_overflow_aborts() {
    let r = decode_status(&lines(&["playlistlength: 99999999999999999999999999", "OK"]));
    assert_eq!(r, Err(MpdError::Decode));
}

#[test]
fn status_elapsed_rounding() {
    for (input, want) in [
        ("elapsed: 12.4", 12u16),
        ("elapsed: 12.5", 13),
        ("elapsed: 12.6", 13),
        ("elapsed: 12", 12),
        ("elapsed: 12.", 12),
        ("elapsed: .5", 1),
        ("elapsed: 0.499", 0),
    ] {
        let r = decode_status(&lines(&[
            "repeat: 0",
            "random: 0",
            "single: 0",
            "consume: 0",
            "playlistlength: 1",
            "song: 0",
            input,
            "OK",
        ]));
        assert_eq!(r.unwrap().song, Some(Song { pos: 0, elapsed: want }), "{input}");
    }
}

#[test]
fn status_elapsed_saturates() {
    let r = decode_status(&lines(&[
        "repeat: 0",
        "random: 0",
        "single: 0",
        "consume: 0",
        "playlistlength: 1",
        "song: 0",
        "elapsed: 70000.9",
        "OK",
    ]));
    assert_eq!(r.unwrap().song, Some(Song { pos: 0, elapsed: u16::MAX }));
}

#[test]
fn status_unknown_lines_ignored() {
    let plain = &[
        "repeat: 1",
        "random: 0",
        "single: 0",
        "consume: 0",
        "playlistlength: 3",
        "OK",
    ];
    let noisy = &[
        "volume: 40",
        "repeat: 1",
        "bitrate: 320",
        "random: 0",
        "single: 0",
        "xfade: 0",
        "consume: 0",
        "playlistlength: 3",
        "audio: 44100:24:2",
        "OK",
    ];
    assert_eq!(decode_status(&lines(plain)), decode_status(&lines(noisy)));
}

#[test]
fn queue_two_tracks() {
    let r = decode_queue(&lines(&[
        "file: a.mp3",
        "Artist: X",
        "Time: 120",
        "file: b.mp3",
        "Title: Y",
        "OK",
    ]));
    assert_eq!(
        r,
        Ok(vec![
            track("a.mp3", Some("X"), None, None, 120),
            track("b.mp3", None, None, Some("Y"), 0),
        ])
    );
}

#[test]
fn queue_empty_response() {
    assert_eq!(decode_queue(&lines(&["OK"])), Ok(vec![]));
    assert_eq!(decode_queue(&lines(&[])), Ok(vec![]));
}

#[test]
fn queue_stream_end_flushes_last_track() {
    let r = decode_queue(&lines(&["file: a.mp3", "Album: Z"]));
    assert_eq!(r, Ok(vec![track("a.mp3", None, Some("Z"), None, 0)]));
}

#[test]
fn queue_all_tags() {
    let r = decode_queue(&lines(&[
        "file: c.flac",
        "Artist: A",
        "Album: B",
        "Title: C",
        "Time: 7",
        "OK",
    ]));
    assert_eq!(r, Ok(vec![track("c.flac", Some("A"), Some("B"), Some("C"), 7)]));
}

#[test]
fn queue_non_numeric_time_aborts() {
    let r = decode_queue(&lines(&["file: a.mp3", "Time: twelve", "OK"]));
    assert_eq!(r, Err(MpdError::Decode));
}

#[test]
fn queue_time_overflow_aborts() {
    let r = decode_queue(&lines(&["file: a.mp3", "Time: 70000", "OK"]));
    assert_eq!(r, Err(MpdError::Decode));
}

#[test]
fn queue_unknown_lines_ignored() {
    let plain = &["file: a.mp3", "Artist: X", "OK"];
    let noisy = &["Pos: 0", "file: a.mp3", "Id: 7", "Artist: X", "Genre: rock", "OK"];
    assert_eq!(decode_queue(&lines(plain)), decode_queue(&lines(noisy)));
}

#[test]
fn idle_player_and_playlist() {
    let r = decode_idle(&lines(&["changed: player", "changed: playlist", "OK"]));
    assert!(r.status);
    assert!(r.queue);
}

#[test]
fn idle_options_only() {
    let r = decode_idle(&lines(&["changed: options", "OK"]));
    assert!(r.status);
    assert!(!r.queue);
}

#[test]
fn idle_other_class_ignored() {
    let r = decode_idle(&lines(&["changed: database", "OK"]));
    assert!(!r.status);
    assert!(!r.queue);
}

#[test]
fn idle_duplicate_notifications() {
    let r = decode_idle(&lines(&["changed: player", "changed: options", "OK"]));
    assert!(r.status);
    assert!(!r.queue);
}

#[test]
fn idle_empty_stream() {
    let r = decode_idle(&lines(&[]));
    assert!(!r.status);
    assert!(!r.queue);
}

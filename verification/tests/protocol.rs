use mpd_client::command::{
    idle_command, play_command, queue_command, response_end, status_command, terminated_command,
};
use mpd_client::{check_greeting, MpdError, QueueAcc, StatusAcc};

#[test]
fn handshake_accepts_exact_greeting_prefix() {
    assert_eq!(check_greeting("OK MPD ".as_bytes()), Ok(()));
}

#[test]
fn handshake_rejects_other_prefixes() {
    for bad in ["ACK MPD", "OK MPD", "OK MPD x", "ok mpd ", "", "OK  MPD"] {
        assert_eq!(
            check_greeting(bad.as_bytes()),
            Err(MpdError::Handshake),
            "{bad:?}"
        );
    }
}

#[test]
fn response_end_sentinels() {
    assert!(response_end("OK".as_bytes()));
    assert!(response_end("ACK [50@0] {play} Bad song index".as_bytes()));
    assert!(response_end("ACK ".as_bytes()));
    assert!(!response_end("OKx".as_bytes()));
    assert!(!response_end("ACK".as_bytes()));
    assert!(!response_end("changed: player".as_bytes()));
    assert!(!response_end("".as_bytes()));
}

#[test]
fn command_lines_are_newline_terminated() {
    assert_eq!(status_command(), "status\n".as_bytes());
    assert_eq!(queue_command(), "playlistinfo\n".as_bytes());
    assert_eq!(idle_command(), "idle options player playlist\n".as_bytes());
    assert_eq!(terminated_command("pause".as_bytes()), "pause\n".as_bytes());
}

#[test]
fn play_command_renders_position() {
    assert_eq!(play_command(0), "play 0\n".as_bytes());
    assert_eq!(play_command(5), "play 5\n".as_bytes());
    assert_eq!(play_command(1234567890), "play 1234567890\n".as_bytes());
}

#[test]
fn error_messages() {
    assert_eq!(
        MpdError::Handshake.message(),
        "server did not greet with a success"
    );
    assert_eq!(MpdError::Decode.message(), "invalid numeric field in response");
    assert_eq!(MpdError::Incomplete.message(), "incomplete response");
}

#[test]
fn status_step_streaming_matches_batch() {
    let mut acc = StatusAcc::new();
    for line in [
        "repeat: 1",
        "random: 0",
        "single: 1",
        "consume: 0",
        "playlistlength: 9",
    ] {
        assert_eq!(acc.step(line.as_bytes()), Ok(false));
    }
    assert_eq!(acc.step("OK".as_bytes()), Ok(true));
    let status = acc.finish().unwrap();
    assert_eq!(status.queue_len, 9);
    assert_eq!(status.single, Some(true));
}

#[test]
fn queue_boundary_without_gathered_track_is_incomplete() {
    let mut acc = QueueAcc::new();
    assert_eq!(acc.step("file: a.mp3".as_bytes()), Ok(false));
    // Forge the impossible state the decoder must still detect: past the
    // first boundary with nothing gathered.
    acc.file = None;
    assert_eq!(acc.step("file: b.mp3".as_bytes()), Err(MpdError::Incomplete));
}

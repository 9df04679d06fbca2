//! A verified client core for the MPD line protocol: the handshake
//! check, the command lines, and the three response decoders (status,
//! queue, idle), each specified as a fold over the response's lines.
//!
//! The code that owns the transport reads lines from the server and
//! feeds them to the decoders here; nothing in this crate performs I/O.

pub mod app;
pub mod command;
pub mod error;
pub mod handshake;
pub mod idle;
pub mod num;
pub mod queue;
pub mod status;
pub mod text;

pub use app::{App, InputEvent, Key};
pub use error::MpdError;
pub use handshake::check_greeting;
pub use idle::{IdleAcc, decode_idle};
pub use queue::{QueueAcc, Track, decode_queue};
pub use status::{PlayerState, Song, Status, StatusAcc, decode_status};


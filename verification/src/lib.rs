//! Core of a desktop audio-playback controller.
//!
//! The library is the playback command processor: the single logical owner of
//! all transport state. It decides, for every command and sink observation,
//! the next transport state, the elapsed-time accounting, and the effect the
//! audio sink must perform. The caller (a worker thread that owns the real
//! output device) performs those effects and reports their outcomes back.

pub mod clock;
pub mod playlist;
pub mod policy;
pub mod processor;
pub mod protocol;
pub mod queue;
pub mod track;

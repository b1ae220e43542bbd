//! Morse code: a fixed code table, validation of messages, and the
//! sequence of timed steps that plays a message as text and tones.

pub mod table;
pub mod validate;
pub mod playback;

//! A streaming MIDI byte parser for allocation-free environments.
//!
//! Bytes arrive one at a time; each call to [`parser::MidiStreamParser::parse`]
//! either accumulates the byte into a pending message, emits a completed
//! message, or reports an error. The parser supports running status,
//! system-exclusive (SysEx) blocks with a fixed capacity, and realtime bytes
//! spliced into the middle of any other message.
//!
//! The abstract state machine lives in [`model`], the executable parser in
//! [`parser`], and the proved laws of the state machine in [`laws`].

pub mod laws;
pub mod model;
pub mod parser;

pub use parser::MidiStreamParser;
pub use parser::ParserError;

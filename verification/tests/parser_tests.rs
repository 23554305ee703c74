//! Tests feeding byte streams to the parser and checking every result.

use midi_stream_parser::{MidiStreamParser, ParserError};

/// Two note on messages sharing the same status byte.
#[test]
fn running_status() {
    let mut parser = MidiStreamParser::<256>::new();

    let bytes = [0x90u8, 60, 127, 61, 40];
    let messages = [
        None,
        None,
        Some(vec![0x90u8, 60, 127]),
        None,
        Some(vec![0x90u8, 61, 40]),
    ];

    for (byte, message) in bytes.iter().zip(messages.iter()) {
        let result = parser.parse(*byte).unwrap();
        assert_eq!(result, *message);
    }
}

/// SysEx message without anything special.
#[test]
fn sysex() {
    let mut parser = MidiStreamParser::<256>::new();

    let bytes = [0xF0u8, 0x10, 0x20, 0x7F, 0x30, 0xF7];
    let messages = [
        None,
        None,
        None,
        None,
        None,
        Some(vec![0xF0u8, 0x10, 0x20, 0x7F, 0x30, 0xF7]),
    ];

    for (byte, message) in bytes.iter().zip(messages.iter()) {
        let result = parser.parse(*byte).unwrap();
        assert_eq!(result, *message);
    }
}

/// SysEx message with a clock message in-between.
#[test]
fn sysex_with_realtime() {
    let mut parser = MidiStreamParser::<256>::new();

    let bytes = [0xF0u8, 0x10, 0xF8, 0x20, 0x7F, 0x30, 0xF7];
    let messages = [
        None,
        None,
        Some(vec![0xF8u8]),
        None,
        None,
        None,
        Some(vec![0xF0u8, 0x10, 0x20, 0x7F, 0x30, 0xF7]),
    ];

    for (byte, message) in bytes.iter().zip(messages.iter()) {
        let result = parser.parse(*byte).unwrap();
        assert_eq!(result, *message);
    }
}

/// SysEx message with more bytes than parser can buffer,
/// followed by a shorter one that can be processed.
#[test]
fn sysex_overflow() {
    let mut parser = MidiStreamParser::<4>::new();

    let bytes = [0xF0u8, 0x01, 0x02, 0x03, 0x04, 0xF7, 0xF0, 0x11, 0x12, 0xF7];
    let messages = [
        None,
        None,
        None,
        None,
        None,
        None,
        None,
        None,
        None,
        Some(vec![0xF0u8, 0x11, 0x12, 0xF7]),
    ];

    for (byte, message) in bytes.iter().zip(messages.iter()) {
        let result = parser.parse(*byte);
        match result {
            Ok(result) => {
                assert_eq!(result, *message);
            }
            Err(result) => {
                assert!(matches!(result, ParserError::SysexOverflow));
            }
        }
    }
}

/// A program change takes a single data byte, and its status byte is reused
/// by running status just like a three-byte message's.
#[test]
fn program_change_running_status() {
    let mut parser = MidiStreamParser::<256>::new();

    assert_eq!(parser.parse(0xC5).unwrap(), None);
    assert_eq!(parser.parse(10).unwrap(), Some(vec![0xC5, 10]));
    assert_eq!(parser.parse(20).unwrap(), Some(vec![0xC5, 20]));
}

/// Channel pressure also completes after one data byte.
#[test]
fn channel_pressure() {
    let mut parser = MidiStreamParser::<256>::new();

    assert_eq!(parser.parse(0xD3).unwrap(), None);
    assert_eq!(parser.parse(99).unwrap(), Some(vec![0xD3, 99]));
}

/// Time code quarter frame and song select are the one-data-byte system
/// common messages.
#[test]
fn one_byte_system_common() {
    let mut parser = MidiStreamParser::<256>::new();

    assert_eq!(parser.parse(0xF1).unwrap(), None);
    assert_eq!(parser.parse(5).unwrap(), Some(vec![0xF1, 5]));
    assert_eq!(parser.parse(0xF3).unwrap(), None);
    assert_eq!(parser.parse(7).unwrap(), Some(vec![0xF3, 7]));
}

/// Song position takes two data bytes, like a channel voice message.
#[test]
fn song_position_two_data_bytes() {
    let mut parser = MidiStreamParser::<256>::new();

    assert_eq!(parser.parse(0xF2).unwrap(), None);
    assert_eq!(parser.parse(1).unwrap(), None);
    assert_eq!(parser.parse(2).unwrap(), Some(vec![0xF2, 1, 2]));
}

/// A data byte with no status byte held is rejected, and the next valid
/// status byte resynchronizes the stream.
#[test]
fn invalid_status_then_resync() {
    let mut parser = MidiStreamParser::<256>::new();

    assert!(matches!(parser.parse(60), Err(ParserError::InvalidStatus)));
    assert_eq!(parser.parse(0x90).unwrap(), None);
    assert_eq!(parser.parse(60).unwrap(), None);
    assert_eq!(parser.parse(127).unwrap(), Some(vec![0x90, 60, 127]));
}

/// A realtime byte in the middle of a short message is emitted on its own
/// and does not disturb the accumulation.
#[test]
fn realtime_inside_short_message() {
    let mut parser = MidiStreamParser::<256>::new();

    assert_eq!(parser.parse(0x90).unwrap(), None);
    assert_eq!(parser.parse(60).unwrap(), None);
    assert_eq!(parser.parse(0xFA).unwrap(), Some(vec![0xFA]));
    assert_eq!(parser.parse(127).unwrap(), Some(vec![0x90, 60, 127]));
}

/// A new status byte replaces a half-accumulated message.
#[test]
fn new_status_replaces_pending() {
    let mut parser = MidiStreamParser::<256>::new();

    assert_eq!(parser.parse(0x90).unwrap(), None);
    assert_eq!(parser.parse(60).unwrap(), None);
    assert_eq!(parser.parse(0x80).unwrap(), None);
    assert_eq!(parser.parse(1).unwrap(), None);
    assert_eq!(parser.parse(2).unwrap(), Some(vec![0x80, 1, 2]));
}

/// A terminator with nothing accumulated still emits a one-byte block.
#[test]
fn bare_sysex_terminator() {
    let mut parser = MidiStreamParser::<256>::new();

    assert_eq!(parser.parse(0xF7).unwrap(), Some(vec![0xF7]));
}

/// With the minimum capacity of one byte, the start byte fills the buffer
/// and even an empty block overflows on its terminator.
#[test]
fn minimal_capacity_overflows() {
    let mut parser = MidiStreamParser::<1>::new();

    assert_eq!(parser.parse(0xF0).unwrap(), None);
    assert!(matches!(parser.parse(0xF7), Err(ParserError::SysexOverflow)));
}

/// Once the SysEx buffer is full, every further interior byte reports the
/// overflow again; the terminator reports it once more but leaves the
/// parser ready for a short message.
#[test]
fn interior_overflow_stalls_until_terminator() {
    let mut parser = MidiStreamParser::<4>::new();

    assert_eq!(parser.parse(0xF0).unwrap(), None);
    assert_eq!(parser.parse(1).unwrap(), None);
    assert_eq!(parser.parse(2).unwrap(), None);
    assert_eq!(parser.parse(3).unwrap(), None);
    assert!(matches!(parser.parse(4), Err(ParserError::SysexOverflow)));
    assert!(matches!(parser.parse(5), Err(ParserError::SysexOverflow)));
    assert!(matches!(parser.parse(0xF7), Err(ParserError::SysexOverflow)));
    assert_eq!(parser.parse(0x90).unwrap(), None);
    assert_eq!(parser.parse(60).unwrap(), None);
    assert_eq!(parser.parse(127).unwrap(), Some(vec![0x90, 60, 127]));
}

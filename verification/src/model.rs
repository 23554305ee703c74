//! The mathematical model of the parser: its abstract state and the exact
//! effect that feeding one byte has on it.

use crate::parser::ParserError;
use vstd::prelude::*;

verus! {

/// A MIDI data byte: a parameter of some message, never a status byte.
pub open spec fn is_data(b: u8) -> bool {
    b < 0x80
}

/// A channel-voice status byte; it becomes the running status.
pub open spec fn is_channel_status(b: u8) -> bool {
    0x80 <= b && b <= 0xEF
}

/// A system-realtime status byte: always a complete one-byte message.
pub open spec fn is_realtime(b: u8) -> bool {
    b >= 0xF8
}

/// Status bytes whose message carries exactly one data byte: program change
/// (0xC0-0xCF), channel pressure (0xD0-0xDF), MIDI time code quarter frame
/// (0xF1) and song select (0xF3). Every other short message carries two.
pub open spec fn takes_one_data_byte(s: u8) -> bool {
    (0xC0 <= s && s <= 0xDF) || s == 0xF1 || s == 0xF3
}

/// Abstract parser state: the short-message bytes held so far (status byte
/// first), whether a SysEx block is open, and the SysEx bytes gathered so
/// far (the start byte included).
#[verifier::ext_equal]
pub ghost struct ParserModel {
    pub pending: Seq<u8>,
    pub sysex_running: bool,
    pub sysex: Seq<u8>,
}

/// What feeding one byte yields: the state afterwards, and at most one of an
/// emitted message or an error.
#[verifier::ext_equal]
pub ghost struct StepResult {
    pub state: ParserModel,
    pub emits: Option<Seq<u8>>,
    pub error: Option<ParserError>,
}

impl ParserModel {
    /// The state of a freshly constructed parser.
    pub open spec fn init() -> ParserModel {
        ParserModel { pending: Seq::empty(), sysex_running: false, sysex: Seq::empty() }
    }

    /// Well-formed for SysEx capacity `cap`: at most a status byte and one
    /// data byte are pending (a third byte always completes a message within
    /// the same call), and the SysEx buffer never exceeds its capacity.
    pub open spec fn wf(self, cap: nat) -> bool {
        &&& self.pending.len() <= 2
        &&& self.sysex.len() <= cap
    }
}

/// Effect of a data byte. Inside a SysEx block it is appended, unless the
/// buffer is full, which is reported and leaves the length saturated. Outside
/// a block it extends the pending short message; with no status byte held it
/// is rejected. A short message is complete with three bytes, or with two
/// when the status byte takes a single data byte; emitting keeps the status
/// byte pending so that running status can reuse it.
pub open spec fn step_data(m: ParserModel, cap: nat, byte: u8) -> StepResult {
    if m.sysex_running {
        if m.sysex.len() >= cap {
            StepResult { state: m, emits: None, error: Some(ParserError::SysexOverflow) }
        } else {
            StepResult {
                state: ParserModel {
                    pending: m.pending,
                    sysex_running: true,
                    sysex: m.sysex.push(byte),
                },
                emits: None,
                error: None,
            }
        }
    } else if m.pending.len() == 0 {
        StepResult { state: m, emits: None, error: Some(ParserError::InvalidStatus) }
    } else {
        let grown = m.pending.push(byte);
        if grown.len() == 3 || takes_one_data_byte(grown[0]) {
            StepResult {
                state: ParserModel {
                    pending: seq![grown[0]],
                    sysex_running: m.sysex_running,
                    sysex: m.sysex,
                },
                emits: Some(grown),
                error: None,
            }
        } else {
            StepResult {
                state: ParserModel {
                    pending: grown,
                    sysex_running: m.sysex_running,
                    sysex: m.sysex,
                },
                emits: None,
                error: None,
            }
        }
    }
}

/// Effect of the SysEx terminator. The block flag is cleared in every case,
/// so the parser is ready for fresh input afterwards; but when the buffer is
/// already full the terminator cannot be appended and the overflow is
/// reported instead of a message.
pub open spec fn step_sysex_end(m: ParserModel, cap: nat) -> StepResult {
    if m.sysex.len() >= cap {
        StepResult {
            state: ParserModel { pending: m.pending, sysex_running: false, sysex: m.sysex },
            emits: None,
            error: Some(ParserError::SysexOverflow),
        }
    } else {
        StepResult {
            state: ParserModel {
                pending: m.pending,
                sysex_running: false,
                sysex: m.sysex.push(0xF7),
            },
            emits: Some(m.sysex.push(0xF7)),
            error: None,
        }
    }
}

/// The exact effect of feeding one byte in state `m` with SysEx capacity
/// `cap`: the transition function of the whole parser.
pub open spec fn step(m: ParserModel, cap: nat, byte: u8) -> StepResult {
    if is_data(byte) {
        step_data(m, cap, byte)
    } else if byte <= 0xEF {
        // Channel-voice status: it becomes the new running status.
        StepResult {
            state: ParserModel {
                pending: seq![byte],
                sysex_running: m.sysex_running,
                sysex: m.sysex,
            },
            emits: None,
            error: None,
        }
    } else if byte == 0xF0 {
        // SysEx start: the pending short message is dropped and the buffer
        // is seeded with the start byte.
        StepResult {
            state: ParserModel { pending: Seq::empty(), sysex_running: true, sysex: seq![byte] },
            emits: None,
            error: None,
        }
    } else if byte == 0xF7 {
        step_sysex_end(m, cap)
    } else if byte < 0xF8 {
        // Other system-common status: a fresh one-byte held status.
        StepResult {
            state: ParserModel {
                pending: seq![byte],
                sysex_running: m.sysex_running,
                sysex: m.sysex,
            },
            emits: None,
            error: None,
        }
    } else {
        // Realtime: emitted at once; no other state is disturbed.
        StepResult { state: m, emits: Some(seq![byte]), error: None }
    }
}

/// Bytes that may appear inside a SysEx block without ending it: data
/// bytes, which belong to the block, and realtime bytes, which are emitted
/// on their own and leave the block untouched.
pub open spec fn sysex_interior(bytes: Seq<u8>) -> bool {
    forall|i: int| 0 <= i < bytes.len() ==> is_data(bytes[i]) || is_realtime(bytes[i])
}

/// The data bytes of a sequence, in order, with every other byte left out.
pub open spec fn data_of(bytes: Seq<u8>) -> Seq<u8>
    decreases bytes.len(),
{
    if bytes.len() == 0 {
        Seq::empty()
    } else if is_data(bytes.first()) {
        seq![bytes.first()] + data_of(bytes.drop_first())
    } else {
        data_of(bytes.drop_first())
    }
}

/// The state reached after feeding a whole sequence of bytes, first byte
/// first.
pub open spec fn run(m: ParserModel, cap: nat, bytes: Seq<u8>) -> ParserModel
    decreases bytes.len(),
{
    if bytes.len() == 0 {
        m
    } else {
        run(step(m, cap, bytes.first()).state, cap, bytes.drop_first())
    }
}

} // verus!

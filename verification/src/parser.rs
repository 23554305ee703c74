//! The executable streaming parser, proved to implement the transition
//! function [`crate::model::step`] exactly.

use crate::model::{takes_one_data_byte, ParserModel, step};
use vstd::prelude::*;

verus! {

/// Error variants.
#[derive(Debug, Clone, Copy, PartialEq, Eq, Structural)]
pub enum ParserError {
    /// A data byte arrived while no status byte was held and no SysEx block
    /// was open.
    InvalidStatus,
    /// The SysEx buffer's fixed capacity would have been exceeded.
    SysexOverflow,
}

/// Streaming MIDI parser. `SYSEX_MAX_LEN` is the fixed SysEx capacity in
/// bytes, counting the start byte and the terminator; it must be at least 1.
///
/// The parser owns its buffers; a completed message is handed out as a fresh
/// copy of the relevant buffer contents.
#[derive(Debug)]
pub struct MidiStreamParser<const SYSEX_MAX_LEN: usize> {
    /// Bytes of the pending short message, status byte first.
    message: Vec<u8>,
    /// True between a SysEx start byte and its terminator.
    sysex_running: bool,
    /// SysEx bytes accumulated so far, the start byte included.
    sysex_message: Vec<u8>,
}

impl<const SYSEX_MAX_LEN: usize> View for MidiStreamParser<SYSEX_MAX_LEN> {
    type V = ParserModel;

    closed spec fn view(&self) -> ParserModel {
        ParserModel {
            pending: self.message@,
            sysex_running: self.sysex_running,
            sysex: self.sysex_message@,
        }
    }
}

/// Decides, in executable code, whether a status byte's message carries a
/// single data byte.
fn is_one_data_byte_status(s: u8) -> (r: bool)
    ensures
        r == takes_one_data_byte(s),
{
    (0xC0 <= s && s <= 0xDF) || s == 0xF1 || s == 0xF3
}

/// Copies the bytes of a buffer out into a fresh vector.
fn clone_bytes(v: &Vec<u8>) -> (r: Vec<u8>)
    ensures
        r@ == v@,
{
    let mut r: Vec<u8> = Vec::new();
    let mut i: usize = 0;
    while i < v.len()
        invariant
            i <= v.len(),
            r@ == v@.subrange(0, i as int),
        decreases v.len() - i,
    {
        r.push(v[i]);
        proof {
            assert(r@ =~= v@.subrange(0, i + 1 as int));
        }
        i += 1;
    }
    proof {
        assert(r@ =~= v@);
    }
    r
}

impl<const SYSEX_MAX_LEN: usize> MidiStreamParser<SYSEX_MAX_LEN> {
    /// The parser's invariant: the capacity is positive and the abstract
    /// state is well-formed for it.
    pub open spec fn wf(&self) -> bool {
        &&& SYSEX_MAX_LEN >= 1
        &&& self@.wf(SYSEX_MAX_LEN as nat)
    }

    /// Returns a new parser with all accumulation state cleared.
    pub fn new() -> (parser: Self)
        requires
            SYSEX_MAX_LEN >= 1,
        ensures
            parser.wf(),
            parser@ == ParserModel::init(),
    {
        let parser = MidiStreamParser {
            message: Vec::new(),
            sysex_running: false,
            sysex_message: Vec::new(),
        };
        proof {
            assert(parser@ =~= ParserModel::init());
        }
        parser
    }

    /// Feed a byte into the parser and return the result: a completed
    /// message, `None` while a message is still accumulating, or an error.
    ///
    /// The new state and the result are exactly what the transition function
    /// [`step`] gives for the old state and this byte.
    pub fn parse(&mut self, byte: u8) -> (r: Result<Option<Vec<u8>>, ParserError>)
        requires
            old(self).wf(),
        ensures
            final(self).wf(),
            final(self)@ == step(old(self)@, SYSEX_MAX_LEN as nat, byte).state,
            (match r {
                Ok(Some(msg)) => step(old(self)@, SYSEX_MAX_LEN as nat, byte).emits
                    == Some(msg@) && step(old(self)@, SYSEX_MAX_LEN as nat, byte).error is None,
                Ok(None) => step(old(self)@, SYSEX_MAX_LEN as nat, byte).emits is None
                    && step(old(self)@, SYSEX_MAX_LEN as nat, byte).error is None,
                Err(e) => step(old(self)@, SYSEX_MAX_LEN as nat, byte).error == Some(e)
                    && step(old(self)@, SYSEX_MAX_LEN as nat, byte).emits is None,
            }),
    {
        let ghost pre = self@;
        let ghost cap = SYSEX_MAX_LEN as nat;
        if byte < 0x80 {
            // Data byte.
            if self.sysex_running {
                if self.sysex_message.len() >= SYSEX_MAX_LEN {
                    return Err(ParserError::SysexOverflow);
                }
                self.sysex_message.push(byte);
                proof {
                    assert(self@ =~= step(pre, cap, byte).state);
                }
                Ok(None)
            } else if self.message.len() == 0 {
                // No valid status byte held.
                Err(ParserError::InvalidStatus)
            } else {
                self.message.push(byte);
                let ghost grown = pre.pending.push(byte);
                if self.message.len() == 3 || is_one_data_byte_status(self.message[0]) {
                    // Message ready; keep the status byte for running status.
                    let out = clone_bytes(&self.message);
                    self.message.truncate(1);
                    proof {
                        assert(self.message@ =~= seq![grown[0]]);
                        assert(self@ =~= step(pre, cap, byte).state);
                    }
                    Ok(Some(out))
                } else {
                    proof {
                        assert(self@ =~= step(pre, cap, byte).state);
                    }
                    Ok(None)
                }
            }
        } else if byte <= 0xEF {
            // Status byte for a channel voice message.
            self.message.clear();
            self.message.push(byte);
            proof {
                assert(self@ =~= step(pre, cap, byte).state);
            }
            Ok(None)
        } else if byte == 0xF0 {
            // Start of SysEx: the pending short message is dropped.
            self.message.clear();
            self.sysex_running = true;
            self.sysex_message.clear();
            self.sysex_message.push(byte);
            proof {
                assert(self@ =~= step(pre, cap, byte).state);
            }
            Ok(None)
        } else if byte == 0xF7 {
            // End of SysEx: the flag clears even when the block overflowed.
            self.sysex_running = false;
            if self.sysex_message.len() >= SYSEX_MAX_LEN {
                return Err(ParserError::SysexOverflow);
            }
            self.sysex_message.push(byte);
            proof {
                assert(self@ =~= step(pre, cap, byte).state);
            }
            Ok(Some(clone_bytes(&self.sysex_message)))
        } else if byte < 0xF8 {
            // Other system-common status byte.
            self.message.clear();
            self.message.push(byte);
            proof {
                assert(self@ =~= step(pre, cap, byte).state);
            }
            Ok(None)
        } else {
            // System realtime: a complete one-byte message on its own.
            let out = vec![byte];
            proof {
                assert(out@ =~= seq![byte]);
            }
            Ok(Some(out))
        }
    }
}

} // verus!

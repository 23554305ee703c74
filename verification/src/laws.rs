//! Proved laws of the parser's state machine, stated over the model in
//! [`crate::model`]. Through the contract of
//! [`crate::parser::MidiStreamParser::parse`], which equates each call with
//! one [`step`], every law holds of the executable parser as well.

use crate::model::{
    data_of, is_channel_status, is_data, is_realtime, run, step, sysex_interior,
    takes_one_data_byte, ParserModel,
};
use crate::parser::ParserError;
use vstd::prelude::*;

verus! {

/// Feeding any byte to a well-formed state leaves a well-formed state.
pub proof fn lemma_step_preserves_wf(m: ParserModel, cap: nat, byte: u8)
    requires
        1 <= cap,
        m.wf(cap),
    ensures
        step(m, cap, byte).state.wf(cap),
{
}

/// A channel-voice status byte followed by its full complement of data
/// bytes yields exactly one message: the status byte, then the data bytes,
/// in input order. Afterwards the status byte alone stays pending, ready
/// for running status.
pub proof fn lemma_short_message(m: ParserModel, cap: nat, s: u8, d1: u8, d2: u8)
    requires
        !m.sysex_running,
        is_channel_status(s),
        is_data(d1),
        is_data(d2),
    ensures
        ({
            let m1 = step(m, cap, s).state;
            let r1 = step(m1, cap, d1);
            &&& m1.pending == seq![s]
            &&& !m1.sysex_running
            &&& if takes_one_data_byte(s) {
                &&& r1.emits == Some(seq![s, d1])
                &&& r1.error is None
                &&& r1.state.pending == seq![s]
                &&& !r1.state.sysex_running
            } else {
                ({
                    let r2 = step(r1.state, cap, d2);
                    &&& r1.emits is None
                    &&& r1.error is None
                    &&& r2.emits == Some(seq![s, d1, d2])
                    &&& r2.error is None
                    &&& r2.state.pending == seq![s]
                    &&& !r2.state.sysex_running
                })
            }
        }),
{
    let m1 = step(m, cap, s).state;
    assert(m1.pending =~= seq![s]);
    let grown1 = m1.pending.push(d1);
    assert(grown1 =~= seq![s, d1]);
    if !takes_one_data_byte(s) {
        let r1 = step(m1, cap, d1);
        let grown2 = r1.state.pending.push(d2);
        assert(grown2 =~= seq![s, d1, d2]);
        assert(seq![grown2[0]] =~= seq![s]);
    } else {
        assert(seq![grown1[0]] =~= seq![s]);
    }
}

/// Running status: with a channel-voice status byte held from an earlier
/// message, data bytes alone form the next message, whose first byte is
/// that held status byte.
pub proof fn lemma_running_status(m: ParserModel, cap: nat, s: u8, d1: u8, d2: u8)
    requires
        !m.sysex_running,
        m.pending == seq![s],
        is_channel_status(s),
        is_data(d1),
        is_data(d2),
    ensures
        ({
            let r1 = step(m, cap, d1);
            &&& if takes_one_data_byte(s) {
                &&& r1.emits == Some(seq![s, d1])
                &&& r1.error is None
                &&& r1.state.pending == seq![s]
            } else {
                ({
                    let r2 = step(r1.state, cap, d2);
                    &&& r1.emits is None
                    &&& r1.error is None
                    &&& r2.emits == Some(seq![s, d1, d2])
                    &&& r2.error is None
                    &&& r2.state.pending == seq![s]
                })
            }
        }),
{
    let grown1 = m.pending.push(d1);
    assert(grown1 =~= seq![s, d1]);
    if !takes_one_data_byte(s) {
        let r1 = step(m, cap, d1);
        let grown2 = r1.state.pending.push(d2);
        assert(grown2 =~= seq![s, d1, d2]);
        assert(seq![grown2[0]] =~= seq![s]);
    } else {
        assert(seq![grown1[0]] =~= seq![s]);
    }
}

/// A realtime byte is emitted at once as its own one-byte message and
/// leaves every part of the state untouched, wherever it appears.
pub proof fn lemma_realtime_transparent(m: ParserModel, cap: nat, b: u8)
    requires
        is_realtime(b),
    ensures
        step(m, cap, b).state == m,
        step(m, cap, b).emits == Some(seq![b]),
        step(m, cap, b).error is None,
{
}

/// While a SysEx block is open, a stretch of data and realtime bytes that
/// fits the remaining capacity appends exactly its data bytes to the block,
/// in order, and changes nothing else.
pub proof fn lemma_run_sysex_interior(m: ParserModel, cap: nat, body: Seq<u8>)
    requires
        m.sysex_running,
        sysex_interior(body),
        m.sysex.len() + data_of(body).len() <= cap,
    ensures
        ({
            let after = run(m, cap, body);
            &&& after.sysex_running
            &&& after.sysex == m.sysex + data_of(body)
            &&& after.pending == m.pending
        }),
    decreases body.len(),
{
    if body.len() == 0 {
        assert(m.sysex + data_of(body) =~= m.sysex);
    } else {
        let b = body.first();
        let rest = body.drop_first();
        assert(is_data(b) || is_realtime(b));
        assert(sysex_interior(rest)) by {
            assert forall|i: int| 0 <= i < rest.len() implies is_data(rest[i]) || is_realtime(
                rest[i],
            ) by {
                assert(rest[i] == body[i + 1]);
            }
        }
        let m1 = step(m, cap, b).state;
        if is_data(b) {
            lemma_run_sysex_interior(m1, cap, rest);
            assert(m.sysex.push(b) + data_of(rest) =~= m.sysex + data_of(body));
        } else {
            lemma_run_sysex_interior(m1, cap, rest);
        }
    }
}

/// A whole SysEx block: after the start byte and an interior whose data
/// bytes fit the capacity together with the start byte and terminator, the
/// terminator emits exactly the byte sequence from start byte through
/// terminator, the interleaved realtime bytes left out. This holds from any
/// starting state, so it also shows that a fresh block succeeds right after
/// an overflowed one was terminated.
pub proof fn lemma_sysex_block(m: ParserModel, cap: nat, body: Seq<u8>)
    requires
        sysex_interior(body),
        data_of(body).len() + 2 <= cap,
    ensures
        ({
            let opened = step(m, cap, 0xF0).state;
            let after = run(opened, cap, body);
            let done = step(after, cap, 0xF7);
            &&& after.sysex_running
            &&& done.emits == Some(seq![0xF0u8] + data_of(body) + seq![0xF7u8])
            &&& done.error is None
            &&& !done.state.sysex_running
        }),
{
    let opened = step(m, cap, 0xF0).state;
    lemma_run_sysex_interior(opened, cap, body);
    let after = run(opened, cap, body);
    assert(after.sysex.push(0xF7) =~= seq![0xF0u8] + data_of(body) + seq![0xF7u8]);
}

/// A data byte with no status byte held and no SysEx block open is rejected
/// as `InvalidStatus` and changes nothing, so a valid status byte arriving
/// afterwards starts a message exactly as it would have without the stray
/// data byte.
pub proof fn lemma_invalid_status(m: ParserModel, cap: nat, b: u8, s: u8)
    requires
        !m.sysex_running,
        m.pending.len() == 0,
        is_data(b),
        is_channel_status(s),
    ensures
        step(m, cap, b).error == Some(ParserError::InvalidStatus),
        step(m, cap, b).emits is None,
        step(m, cap, b).state == m,
        step(step(m, cap, b).state, cap, s).state.pending == seq![s],
        step(step(m, cap, b).state, cap, s).error is None,
{
}

/// With the SysEx buffer already full, an interior data byte reports
/// `SysexOverflow` and leaves the state saturated, so every further interior
/// byte errors the same way; the terminator reports the overflow too, but
/// clears the block flag, leaving the parser ready for fresh input —
/// [`lemma_sysex_block`] applies to the resulting state and shows that a
/// shorter block then succeeds.
pub proof fn lemma_sysex_overflow(m: ParserModel, cap: nat, b: u8)
    requires
        m.sysex_running,
        m.sysex.len() >= cap,
        is_data(b),
    ensures
        step(m, cap, b).error == Some(ParserError::SysexOverflow),
        step(m, cap, b).emits is None,
        step(m, cap, b).state == m,
        step(m, cap, 0xF7).error == Some(ParserError::SysexOverflow),
        step(m, cap, 0xF7).emits is None,
        !step(m, cap, 0xF7).state.sysex_running,
        step(m, cap, 0xF7).state.pending == m.pending,
        step(m, cap, 0xF7).state.sysex == m.sysex,
{
}

/// A message is emitted exactly when the byte completes one: a realtime
/// byte, a terminator that ends a SysEx block within capacity, or a data
/// byte that fills out a short message. A byte that completes nothing
/// yields no message, and no call yields both a message and an error.
pub proof fn lemma_emits_only_at_completion(m: ParserModel, cap: nat, b: u8)
    requires
        m.wf(cap),
    ensures
        ({
            let r = step(m, cap, b);
            &&& (r.emits is Some <==> {
                ||| is_realtime(b)
                ||| (b == 0xF7 && m.sysex.len() < cap)
                ||| (is_data(b) && !m.sysex_running && m.pending.len() > 0 && (
                m.pending.len() == 2 || takes_one_data_byte(m.pending[0])))
            })
            &&& (r.emits is Some ==> r.error is None)
            &&& (r.error is Some ==> r.emits is None)
        }),
{
}

} // verus!

//! Detection of the cursor-position query in a terminal's output stream, and
//! the reply to it.

use vstd::prelude::*;
use crate::keymap::{csi, ESC};
use crate::text::{decimal, narrow, push_decimal_bytes};

verus! {

/// How much of the query `ESC [ 6 n` the scanner has seen.
#[derive(Clone, Copy, Debug, PartialEq, Eq, Structural)]
pub enum DsrState {
    /// Nothing of the query seen.
    Idle,
    /// `ESC` seen.
    Escape,
    /// `ESC [` seen.
    Bracket,
    /// `ESC [ 6` seen.
    Six,
}

/// The state after one byte, and whether that byte completed the query. Any
/// byte that does not continue the query sends the scanner back to `Idle`.
pub open spec fn dsr_step(state: DsrState, byte: u8) -> (DsrState, bool) {
    match state {
        DsrState::Idle => if byte == ESC {
            (DsrState::Escape, false)
        } else {
            (DsrState::Idle, false)
        },
        DsrState::Escape => if byte == 0x5b {
            (DsrState::Bracket, false)
        } else {
            (DsrState::Idle, false)
        },
        DsrState::Bracket => if byte == 0x36 {
            (DsrState::Six, false)
        } else {
            (DsrState::Idle, false)
        },
        DsrState::Six => (DsrState::Idle, byte == 0x6e),
    }
}

/// The state after all of `bytes`.
pub open spec fn dsr_state_after(state: DsrState, bytes: Seq<u8>) -> DsrState
    decreases bytes.len(),
{
    if bytes.len() == 0 {
        state
    } else {
        dsr_step(dsr_state_after(state, bytes.drop_last()), bytes.last()).0
    }
}

/// How many times the query is completed while scanning `bytes`.
pub open spec fn dsr_matches(state: DsrState, bytes: Seq<u8>) -> nat
    decreases bytes.len(),
{
    if bytes.len() == 0 {
        0
    } else {
        let before = bytes.drop_last();
        let hit = dsr_step(dsr_state_after(state, before), bytes.last()).1;
        dsr_matches(state, before) + if hit {
            1nat
        } else {
            0nat
        }
    }
}

/// The reply to a cursor-position query: `ESC [ row ; col R` with row and
/// column counted from 1.
pub open spec fn cursor_reply(row: u16, col: u16) -> Seq<u8> {
    csi(narrow(decimal((row + 1) as nat)) + seq![0x3bu8] + narrow(decimal((col + 1) as nat)) + seq![
        0x52u8,
    ])
}

/// `count` copies of `unit`, one after another.
pub open spec fn repeated(unit: Seq<u8>, count: nat) -> Seq<u8>
    decreases count,
{
    if count == 0 {
        seq![]
    } else {
        repeated(unit, (count - 1) as nat) + unit
    }
}

/// Advances the scanner by one byte.
pub fn dsr_advance(state: DsrState, byte: u8) -> (next: (DsrState, bool))
    ensures
        next == dsr_step(state, byte),
{
    match state {
        DsrState::Idle => if byte == ESC {
            (DsrState::Escape, false)
        } else {
            (DsrState::Idle, false)
        },
        DsrState::Escape => if byte == 0x5b {
            (DsrState::Bracket, false)
        } else {
            (DsrState::Idle, false)
        },
        DsrState::Bracket => if byte == 0x36 {
            (DsrState::Six, false)
        } else {
            (DsrState::Idle, false)
        },
        DsrState::Six => (DsrState::Idle, byte == 0x6e),
    }
}

/// Builds the reply to a cursor-position query for a cursor at the zero-based
/// `row` and `col`.
pub fn cursor_position_reply(row: u16, col: u16) -> (reply: Vec<u8>)
    ensures
        reply@ == cursor_reply(row, col),
{
    let mut reply: Vec<u8> = Vec::new();
    reply.push(ESC);
    reply.push(0x5b);
    push_decimal_bytes(&mut reply, row as u64 + 1);
    reply.push(0x3b);
    push_decimal_bytes(&mut reply, col as u64 + 1);
    reply.push(0x52);
    reply
}

/// Scans one chunk of terminal output. Returns the scanner's next state and
/// the replies owed: one cursor reply, for the cursor at `row` and `col`, for
/// each query completed in the chunk.
pub fn scan_chunk(state: DsrState, bytes: &[u8], row: u16, col: u16) -> (out: (DsrState, Vec<u8>))
    ensures
        out.0 == dsr_state_after(state, bytes@),
        out.1@ == repeated(cursor_reply(row, col), dsr_matches(state, bytes@)),
{
    let mut current = state;
    let mut replies: Vec<u8> = Vec::new();
    let mut i: usize = 0;
    while i < bytes.len()
        invariant
            i <= bytes.len(),
            current == dsr_state_after(state, bytes@.take(i as int)),
            replies@ == repeated(cursor_reply(row, col), dsr_matches(state, bytes@.take(i as int))),
        decreases bytes.len() - i,
    {
        assert(bytes@.take(i + 1).drop_last() == bytes@.take(i as int));
        let (next, hit) = dsr_advance(current, bytes[i]);
        if hit {
            let mut reply = cursor_position_reply(row, col);
            replies.append(&mut reply);
        }
        current = next;
        i += 1;
    }
    assert(bytes@.take(bytes.len() as int) == bytes@);
    (current, replies)
}

/// Scanning the whole query from `Idle` completes it exactly once and leaves
/// the scanner in `Idle` again.
pub proof fn lemma_query_matches_once()
    ensures
        dsr_state_after(DsrState::Idle, seq![ESC, 0x5b, 0x36, 0x6e]) == DsrState::Idle,
        dsr_matches(DsrState::Idle, seq![ESC, 0x5b, 0x36, 0x6e]) == 1,
{
    let q = seq![ESC, 0x5bu8, 0x36u8, 0x6eu8];
    let q3 = seq![ESC, 0x5bu8, 0x36u8];
    let q2 = seq![ESC, 0x5bu8];
    let q1 = seq![ESC];
    assert(q.drop_last() == q3);
    assert(q3.drop_last() == q2);
    assert(q2.drop_last() == q1);
    assert(q1.drop_last() == Seq::<u8>::empty());
    reveal_with_fuel(dsr_state_after, 5);
    reveal_with_fuel(dsr_matches, 5);
}

/// Whatever came before, a completed query leaves the scanner in `Idle`.
pub proof fn lemma_match_resets(state: DsrState, byte: u8)
    ensures
        dsr_step(state, byte).1 ==> dsr_step(state, byte).0 == DsrState::Idle && state
            == DsrState::Six && byte == 0x6e,
{
}

} // verus!

//! What the receive and the transmit ring share: how the cursor moves.

use vstd::prelude::*;
use vstd::arithmetic::div_mod::{lemma_add_mod_noop, lemma_mod_self_0, lemma_small_mod};

verus! {

/// Where one ring entry lies in the memory that the engine sees.
#[derive(Clone, Copy, Debug, PartialEq, Eq, Structural)]
pub struct EntryAddress {
    /// Address of the first descriptor word.
    pub descriptor: u32,
    /// Address of the first buffer byte.
    pub buffer: u32,
}

/// The value written to a poll demand register. Any write wakes the engine.
pub const POLL_DEMAND: u32 = 1;

/// What a process of the engine is doing.
#[derive(Clone, Copy, Debug, PartialEq, Eq, Structural)]
pub enum RunningState {
    /// A state that the hardware documents as reserved.
    Unknown,
    /// Stopped by reset or by a stop command.
    Stopped,
    /// At work on a descriptor or a frame, or waiting for a frame.
    Running,
    /// Parked: the next descriptor was not available.
    Suspended,
}

impl RunningState {
    /// Is the process at work?
    pub fn is_running(&self) -> (b: bool)
        ensures
            b == (*self == RunningState::Running),
    {
        match self {
            RunningState::Running => true,
            _ => false,
        }
    }
}

/// The index that follows `cursor` in a ring of `len` entries.
pub open spec fn successor(cursor: int, len: int) -> int {
    (cursor + 1) % len
}

/// The index reached from `cursor` after `steps` moves.
pub open spec fn advanced(cursor: int, len: int, steps: nat) -> int
    decreases steps,
{
    if steps == 0 {
        cursor
    } else {
        successor(advanced(cursor, len, (steps - 1) as nat), len)
    }
}

/// Moves the cursor one entry on, back to the first after the last.
pub fn next_index(cursor: usize, len: usize) -> (next: usize)
    requires
        cursor < len,
    ensures
        next == successor(cursor as int, len as int),
        next < len,
{
    if cursor + 1 >= len {
        proof {
            lemma_mod_self_0(len as int);
        }
        0
    } else {
        proof {
            lemma_small_mod((cursor + 1) as nat, len as nat);
        }
        cursor + 1
    }
}

/// The cursor never leaves the ring.
pub proof fn lemma_successor_in_range(cursor: int, len: int)
    requires
        0 <= cursor < len,
    ensures
        0 <= successor(cursor, len) < len,
        successor(cursor, len) == if cursor + 1 == len { 0 } else { cursor + 1 },
{
    if cursor + 1 == len {
        lemma_mod_self_0(len);
    } else {
        lemma_small_mod((cursor + 1) as nat, len as nat);
    }
}

/// The cursor visits the indices in cyclic order: `steps` moves from
/// `cursor` end at `(cursor + steps) % len`, whatever the number of moves.
pub proof fn lemma_cyclic_order(cursor: int, len: int, steps: nat)
    requires
        0 <= cursor < len,
    ensures
        advanced(cursor, len, steps) == (cursor + steps) % len,
        0 <= advanced(cursor, len, steps) < len,
    decreases steps,
{
    if steps == 0 {
        lemma_small_mod(cursor as nat, len as nat);
    } else {
        let before = (steps - 1) as nat;
        lemma_cyclic_order(cursor, len, before);
        let at = advanced(cursor, len, before);
        lemma_successor_in_range(at, len);
        lemma_add_mod_noop(cursor + before, 1, len);
        if len > 1 {
            lemma_small_mod(1nat, len as nat);
        }
    }
}

} // verus!

//! What an instruction can report: an error, or an effect the host may act on.

use vstd::prelude::*;

verus! {

/// A recoverable failure of one instruction. The machine is left as it was
/// before the instruction was dispatched.
#[derive(Clone, Copy, Debug, PartialEq, Eq, Structural)]
pub enum Chip8Error {
    /// The word is no instruction of the machine.
    InvalidOpcode(u16),
    /// A return was executed with an empty call stack.
    StackUnderflow,
    /// A call was executed with the call stack at its limit.
    StackOverflow,
    /// An address left the 4096 bytes of memory, or a 16-bit address
    /// register would have left its range.
    MemoryOutOfBounds,
}

/// What the host may want to do after an instruction that succeeded.
#[derive(Clone, Copy, Debug, PartialEq, Eq, Structural)]
pub enum Effect {
    /// Nothing beyond the change of state.
    Nothing,
    /// The framebuffer was written: the display may be refreshed.
    DisplayChanged,
    /// The machine waits for a key press, to be stored in this register.
    WaitingForKey(u8),
}

} // verus!

//! The ways in which decoding an instruction can fail.

use vstd::prelude::*;

verus! {

/// Why no result came out of a decoding step.
#[derive(Clone, Copy, Debug, PartialEq, Eq, Structural)]
pub enum DecodeError {
    /// The byte source ended before the instruction was complete.
    StreamExhausted,
    /// The opcode byte, carried here, is no documented instruction.
    UndefinedOpcode(u8),
    /// A consumer was handed an addressing mode that it does not handle.
    UnsupportedAddressingMode,
}

} // verus!

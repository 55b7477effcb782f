//! The operand-encoding shapes of the 6502.

use vstd::prelude::*;

verus! {

/// How an instruction's operand is encoded in the bytes after the opcode.
#[derive(Clone, Copy, Debug, PartialEq, Eq, Structural)]
pub enum AddressingMode {
    /// No operand.
    Implied,
    /// The accumulator is the operand: `A`.
    Accumulator,
    /// A literal byte: `#aa`.
    Immediate,
    /// An index into the first 256 bytes of memory: `aa`.
    ZeroPage,
    /// A zero-page index, plus the X register: `aa,X`.
    ZeroPageX,
    /// A zero-page index, plus the Y register: `aa,Y`.
    ZeroPageY,
    /// A 16-bit address: `aaaa`.
    Absolute,
    /// A 16-bit address, plus the X register: `aaaa,X`.
    AbsoluteX,
    /// A 16-bit address, plus the Y register: `aaaa,Y`.
    AbsoluteY,
    /// A 16-bit address that holds the target address: `(aaaa)`.
    Indirect,
    /// A zero-page index, plus the X register, dereferenced: `(aa,X)`.
    IndexedIndirect,
    /// A zero-page index, dereferenced, plus the Y register: `(aa),Y`.
    IndirectIndexed,
    /// A signed distance from the address of the next instruction.
    Relative,
}

impl AddressingMode {
    /// The number of operand bytes that follow the opcode.
    pub open spec fn spec_operand_len(self) -> nat {
        match self {
            AddressingMode::Implied | AddressingMode::Accumulator => 0,
            AddressingMode::Absolute
            | AddressingMode::AbsoluteX
            | AddressingMode::AbsoluteY
            | AddressingMode::Indirect => 2,
            _ => 1,
        }
    }

    /// The number of operand bytes that follow the opcode.
    pub fn operand_len(self) -> (n: usize)
        ensures
            n == self.spec_operand_len(),
    {
        match self {
            AddressingMode::Implied | AddressingMode::Accumulator => 0,
            AddressingMode::Absolute
            | AddressingMode::AbsoluteX
            | AddressingMode::AbsoluteY
            | AddressingMode::Indirect => 2,
            _ => 1,
        }
    }
}

} // verus!

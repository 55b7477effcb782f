//! The named operations of the 6502.

use vstd::prelude::*;

verus! {

/// One of the 56 operations that an instruction can name.
#[derive(Clone, Copy, Debug, PartialEq, Eq, Structural)]
pub enum Mnemonic {
    /// Load A.
    Lda,
    /// Load X.
    Ldx,
    /// Load Y.
    Ldy,
    /// Store A.
    Sta,
    /// Store X.
    Stx,
    /// Store Y.
    Sty,
    /// Add with carry.
    Adc,
    /// Subtract with carry.
    Sbc,
    /// Increment memory.
    Inc,
    /// Increment X.
    Inx,
    /// Increment Y.
    Iny,
    /// Decrement memory.
    Dec,
    /// Decrement X.
    Dex,
    /// Decrement Y.
    Dey,
    /// Bitwise `and` with A.
    And,
    /// Bitwise `or` with A.
    Ora,
    /// Bitwise exclusive `or` with A.
    Eor,
    /// Jump.
    Jmp,
    /// Jump to subroutine.
    Jsr,
    /// Return from interrupt.
    Rti,
    /// Return from subroutine.
    Rts,
    /// Branch on carry clear.
    Bcc,
    /// Branch on carry set.
    Bcs,
    /// Branch on equal to zero.
    Beq,
    /// Branch on not equal to zero.
    Bne,
    /// Branch on minus.
    Bmi,
    /// Branch on plus.
    Bpl,
    /// Branch on overflow set.
    Bvs,
    /// Branch on overflow clear.
    Bvc,
    /// Break.
    Brk,
    /// Compare with A.
    Cmp,
    /// Compare with X.
    Cpx,
    /// Compare with Y.
    Cpy,
    /// Test bits.
    Bit,
    /// Arithmetic shift left.
    Asl,
    /// Logical shift right.
    Lsr,
    /// Rotate left.
    Rol,
    /// Rotate right.
    Ror,
    /// Transfer A to X.
    Tax,
    /// Transfer A to Y.
    Tay,
    /// Transfer X to A.
    Txa,
    /// Transfer Y to A.
    Tya,
    /// Transfer X to S.
    Txs,
    /// Transfer S to X.
    Tsx,
    /// Push A.
    Pha,
    /// Pull A.
    Pla,
    /// Push processor status.
    Php,
    /// Pull processor status.
    Plp,
    /// Clear carry flag.
    Clc,
    /// Clear decimal mode.
    Cld,
    /// Clear interrupt disable.
    Cli,
    /// Clear overflow flag.
    Clv,
    /// Set carry flag.
    Sec,
    /// Set decimal mode.
    Sed,
    /// Set interrupt disable.
    Sei,
    /// No operation.
    Nop,
}

impl Mnemonic {
    /// Whether an instruction of this name carries an operand. Those that
    /// do not work on registers, flags or the stack alone.
    pub open spec fn spec_takes_operand(self) -> bool {
        match self {
            Mnemonic::Inx
            | Mnemonic::Iny
            | Mnemonic::Dex
            | Mnemonic::Dey
            | Mnemonic::Rti
            | Mnemonic::Rts
            | Mnemonic::Brk
            | Mnemonic::Tax
            | Mnemonic::Tay
            | Mnemonic::Txa
            | Mnemonic::Tya
            | Mnemonic::Txs
            | Mnemonic::Tsx
            | Mnemonic::Pha
            | Mnemonic::Pla
            | Mnemonic::Php
            | Mnemonic::Plp
            | Mnemonic::Clc
            | Mnemonic::Cld
            | Mnemonic::Cli
            | Mnemonic::Clv
            | Mnemonic::Sec
            | Mnemonic::Sed
            | Mnemonic::Sei
            | Mnemonic::Nop => false,
            _ => true,
        }
    }

    /// Whether an instruction of this name carries an operand.
    pub fn takes_operand(self) -> (b: bool)
        ensures
            b == self.spec_takes_operand(),
    {
        match self {
            Mnemonic::Inx
            | Mnemonic::Iny
            | Mnemonic::Dex
            | Mnemonic::Dey
            | Mnemonic::Rti
            | Mnemonic::Rts
            | Mnemonic::Brk
            | Mnemonic::Tax
            | Mnemonic::Tay
            | Mnemonic::Txa
            | Mnemonic::Tya
            | Mnemonic::Txs
            | Mnemonic::Tsx
            | Mnemonic::Pha
            | Mnemonic::Pla
            | Mnemonic::Php
            | Mnemonic::Plp
            | Mnemonic::Clc
            | Mnemonic::Cld
            | Mnemonic::Cli
            | Mnemonic::Clv
            | Mnemonic::Sec
            | Mnemonic::Sed
            | Mnemonic::Sei
            | Mnemonic::Nop => false,
            _ => true,
        }
    }

    /// Whether this is one of the eight conditional branches.
    pub open spec fn is_branch(self) -> bool {
        match self {
            Mnemonic::Bcc
            | Mnemonic::Bcs
            | Mnemonic::Beq
            | Mnemonic::Bne
            | Mnemonic::Bmi
            | Mnemonic::Bpl
            | Mnemonic::Bvs
            | Mnemonic::Bvc => true,
            _ => false,
        }
    }
}

} // verus!

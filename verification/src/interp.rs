//! The consumer of decoded instructions.

use vstd::prelude::*;
use crate::mnemonic::Mnemonic;
use crate::operand::{Arg, Operand};

verus! {

/// A decoded instruction: what to do, and to what.
#[derive(Clone, Copy, Debug, PartialEq, Eq, Structural)]
pub struct Instruction {
    /// The operation.
    pub mnemonic: Mnemonic,
    /// The operand; `Operand::Implied` where the operation takes none.
    pub operand: Operand,
}

impl Instruction {
    /// The instruction as a consumer gets it: an operation that takes no
    /// operand is delivered without one, whatever this value holds.
    pub open spec fn delivered(self) -> Instruction {
        if self.mnemonic.spec_takes_operand() {
            self
        } else {
            Instruction { mnemonic: self.mnemonic, operand: Operand::Implied }
        }
    }
}

/// A consumer of instructions: an emulator, a disassembler, an analyzer.
///
/// There is one method for each mnemonic, and none has a default: a consumer
/// handles every instruction. What a consumer does with an instruction is its
/// own affair, which it states in `executes`; each method promises that it
/// did exactly that, for its own mnemonic and the operand it was given.
pub trait InterpretInstruction: Sized {
    /// What the consumer makes of an instruction.
    type Output;

    /// Whether handling `instruction` in state `pre` may leave the consumer in
    /// state `post` with the result `out`. A consumer that does not say so
    /// itself promises nothing.
    open spec fn executes(
        pre: Self,
        instruction: Instruction,
        post: Self,
        out: Self::Output,
    ) -> bool {
        true
    }

    /// Load A.
    fn lda<A: Arg>(&mut self, arg: A) -> (out: Self::Output)
        ensures
            Self::executes(
                *old(self),
                (Instruction { mnemonic: Mnemonic::Lda, operand: arg.operand() }),
                *final(self),
                out,
            ),
    ;

    /// Load X.
    fn ldx<A: Arg>(&mut self, arg: A) -> (out: Self::Output)
        ensures
            Self::executes(
                *old(self),
                (Instruction { mnemonic: Mnemonic::Ldx, operand: arg.operand() }),
                *final(self),
                out,
            ),
    ;

    /// Load Y.
    fn ldy<A: Arg>(&mut self, arg: A) -> (out: Self::Output)
        ensures
            Self::executes(
                *old(self),
                (Instruction { mnemonic: Mnemonic::Ldy, operand: arg.operand() }),
                *final(self),
                out,
            ),
    ;

    /// Store A.
    fn sta<A: Arg>(&mut self, arg: A) -> (out: Self::Output)
        ensures
            Self::executes(
                *old(self),
                (Instruction { mnemonic: Mnemonic::Sta, operand: arg.operand() }),
                *final(self),
                out,
            ),
    ;

    /// Store X.
    fn stx<A: Arg>(&mut self, arg: A) -> (out: Self::Output)
        ensures
            Self::executes(
                *old(self),
                (Instruction { mnemonic: Mnemonic::Stx, operand: arg.operand() }),
                *final(self),
                out,
            ),
    ;

    /// Store Y.
    fn sty<A: Arg>(&mut self, arg: A) -> (out: Self::Output)
        ensures
            Self::executes(
                *old(self),
                (Instruction { mnemonic: Mnemonic::Sty, operand: arg.operand() }),
                *final(self),
                out,
            ),
    ;

    /// Add with carry.
    fn adc<A: Arg>(&mut self, arg: A) -> (out: Self::Output)
        ensures
            Self::executes(
                *old(self),
                (Instruction { mnemonic: Mnemonic::Adc, operand: arg.operand() }),
                *final(self),
                out,
            ),
    ;

    /// Subtract with carry.
    fn sbc<A: Arg>(&mut self, arg: A) -> (out: Self::Output)
        ensures
            Self::executes(
                *old(self),
                (Instruction { mnemonic: Mnemonic::Sbc, operand: arg.operand() }),
                *final(self),
                out,
            ),
    ;

    /// Increment memory.
    fn inc<A: Arg>(&mut self, arg: A) -> (out: Self::Output)
        ensures
            Self::executes(
                *old(self),
                (Instruction { mnemonic: Mnemonic::Inc, operand: arg.operand() }),
                *final(self),
                out,
            ),
    ;

    /// Increment X.
    fn inx(&mut self) -> (out: Self::Output)
        ensures
            Self::executes(
                *old(self),
                (Instruction { mnemonic: Mnemonic::Inx, operand: Operand::Implied }),
                *final(self),
                out,
            ),
    ;

    /// Increment Y.
    fn iny(&mut self) -> (out: Self::Output)
        ensures
            Self::executes(
                *old(self),
                (Instruction { mnemonic: Mnemonic::Iny, operand: Operand::Implied }),
                *final(self),
                out,
            ),
    ;

    /// Decrement memory.
    fn dec<A: Arg>(&mut self, arg: A) -> (out: Self::Output)
        ensures
            Self::executes(
                *old(self),
                (Instruction { mnemonic: Mnemonic::Dec, operand: arg.operand() }),
                *final(self),
                out,
            ),
    ;

    /// Decrement X.
    fn dex(&mut self) -> (out: Self::Output)
        ensures
            Self::executes(
                *old(self),
                (Instruction { mnemonic: Mnemonic::Dex, operand: Operand::Implied }),
                *final(self),
                out,
            ),
    ;

    /// Decrement Y.
    fn dey(&mut self) -> (out: Self::Output)
        ensures
            Self::executes(
                *old(self),
                (Instruction { mnemonic: Mnemonic::Dey, operand: Operand::Implied }),
                *final(self),
                out,
            ),
    ;

    /// Bitwise `and` with A.
    fn and<A: Arg>(&mut self, arg: A) -> (out: Self::Output)
        ensures
            Self::executes(
                *old(self),
                (Instruction { mnemonic: Mnemonic::And, operand: arg.operand() }),
                *final(self),
                out,
            ),
    ;

    /// Bitwise `or` with A.
    fn ora<A: Arg>(&mut self, arg: A) -> (out: Self::Output)
        ensures
            Self::executes(
                *old(self),
                (Instruction { mnemonic: Mnemonic::Ora, operand: arg.operand() }),
                *final(self),
                out,
            ),
    ;

    /// Bitwise exclusive `or` with A.
    fn eor<A: Arg>(&mut self, arg: A) -> (out: Self::Output)
        ensures
            Self::executes(
                *old(self),
                (Instruction { mnemonic: Mnemonic::Eor, operand: arg.operand() }),
                *final(self),
                out,
            ),
    ;

    /// Jump.
    fn jmp<A: Arg>(&mut self, arg: A) -> (out: Self::Output)
        ensures
            Self::executes(
                *old(self),
                (Instruction { mnemonic: Mnemonic::Jmp, operand: arg.operand() }),
                *final(self),
                out,
            ),
    ;

    /// Jump to subroutine.
    fn jsr<A: Arg>(&mut self, arg: A) -> (out: Self::Output)
        ensures
            Self::executes(
                *old(self),
                (Instruction { mnemonic: Mnemonic::Jsr, operand: arg.operand() }),
                *final(self),
                out,
            ),
    ;

    /// Return from interrupt.
    fn rti(&mut self) -> (out: Self::Output)
        ensures
            Self::executes(
                *old(self),
                (Instruction { mnemonic: Mnemonic::Rti, operand: Operand::Implied }),
                *final(self),
                out,
            ),
    ;

    /// Return from subroutine.
    fn rts(&mut self) -> (out: Self::Output)
        ensures
            Self::executes(
                *old(self),
                (Instruction { mnemonic: Mnemonic::Rts, operand: Operand::Implied }),
                *final(self),
                out,
            ),
    ;

    /// Branch on carry clear.
    fn bcc<A: Arg>(&mut self, arg: A) -> (out: Self::Output)
        ensures
            Self::executes(
                *old(self),
                (Instruction { mnemonic: Mnemonic::Bcc, operand: arg.operand() }),
                *final(self),
                out,
            ),
    ;

    /// Branch on carry set.
    fn bcs<A: Arg>(&mut self, arg: A) -> (out: Self::Output)
        ensures
            Self::executes(
                *old(self),
                (Instruction { mnemonic: Mnemonic::Bcs, operand: arg.operand() }),
                *final(self),
                out,
            ),
    ;

    /// Branch on equal to zero.
    fn beq<A: Arg>(&mut self, arg: A) -> (out: Self::Output)
        ensures
            Self::executes(
                *old(self),
                (Instruction { mnemonic: Mnemonic::Beq, operand: arg.operand() }),
                *final(self),
                out,
            ),
    ;

    /// Branch on not equal to zero.
    fn bne<A: Arg>(&mut self, arg: A) -> (out: Self::Output)
        ensures
            Self::executes(
                *old(self),
                (Instruction { mnemonic: Mnemonic::Bne, operand: arg.operand() }),
                *final(self),
                out,
            ),
    ;

    /// Branch on minus.
    fn bmi<A: Arg>(&mut self, arg: A) -> (out: Self::Output)
        ensures
            Self::executes(
                *old(self),
                (Instruction { mnemonic: Mnemonic::Bmi, operand: arg.operand() }),
                *final(self),
                out,
            ),
    ;

    /// Branch on plus.
    fn bpl<A: Arg>(&mut self, arg: A) -> (out: Self::Output)
        ensures
            Self::executes(
                *old(self),
                (Instruction { mnemonic: Mnemonic::Bpl, operand: arg.operand() }),
                *final(self),
                out,
            ),
    ;

    /// Branch on overflow set.
    fn bvs<A: Arg>(&mut self, arg: A) -> (out: Self::Output)
        ensures
            Self::executes(
                *old(self),
                (Instruction { mnemonic: Mnemonic::Bvs, operand: arg.operand() }),
                *final(self),
                out,
            ),
    ;

    /// Branch on overflow clear.
    fn bvc<A: Arg>(&mut self, arg: A) -> (out: Self::Output)
        ensures
            Self::executes(
                *old(self),
                (Instruction { mnemonic: Mnemonic::Bvc, operand: arg.operand() }),
                *final(self),
                out,
            ),
    ;

    /// Break.
    fn brk(&mut self) -> (out: Self::Output)
        ensures
            Self::executes(
                *old(self),
                (Instruction { mnemonic: Mnemonic::Brk, operand: Operand::Implied }),
                *final(self),
                out,
            ),
    ;

    /// Compare with A.
    fn cmp<A: Arg>(&mut self, arg: A) -> (out: Self::Output)
        ensures
            Self::executes(
                *old(self),
                (Instruction { mnemonic: Mnemonic::Cmp, operand: arg.operand() }),
                *final(self),
                out,
            ),
    ;

    /// Compare with X.
    fn cpx<A: Arg>(&mut self, arg: A) -> (out: Self::Output)
        ensures
            Self::executes(
                *old(self),
                (Instruction { mnemonic: Mnemonic::Cpx, operand: arg.operand() }),
                *final(self),
                out,
            ),
    ;

    /// Compare with Y.
    fn cpy<A: Arg>(&mut self, arg: A) -> (out: Self::Output)
        ensures
            Self::executes(
                *old(self),
                (Instruction { mnemonic: Mnemonic::Cpy, operand: arg.operand() }),
                *final(self),
                out,
            ),
    ;

    /// Test bits.
    fn bit<A: Arg>(&mut self, arg: A) -> (out: Self::Output)
        ensures
            Self::executes(
                *old(self),
                (Instruction { mnemonic: Mnemonic::Bit, operand: arg.operand() }),
                *final(self),
                out,
            ),
    ;

    /// Arithmetic shift left.
    fn asl<A: Arg>(&mut self, arg: A) -> (out: Self::Output)
        ensures
            Self::executes(
                *old(self),
                (Instruction { mnemonic: Mnemonic::Asl, operand: arg.operand() }),
                *final(self),
                out,
            ),
    ;

    /// Logical shift right.
    fn lsr<A: Arg>(&mut self, arg: A) -> (out: Self::Output)
        ensures
            Self::executes(
                *old(self),
                (Instruction { mnemonic: Mnemonic::Lsr, operand: arg.operand() }),
                *final(self),
                out,
            ),
    ;

    /// Rotate left.
    fn rol<A: Arg>(&mut self, arg: A) -> (out: Self::Output)
        ensures
            Self::executes(
                *old(self),
                (Instruction { mnemonic: Mnemonic::Rol, operand: arg.operand() }),
                *final(self),
                out,
            ),
    ;

    /// Rotate right.
    fn ror<A: Arg>(&mut self, arg: A) -> (out: Self::Output)
        ensures
            Self::executes(
                *old(self),
                (Instruction { mnemonic: Mnemonic::Ror, operand: arg.operand() }),
                *final(self),
                out,
            ),
    ;

    /// Transfer A to X.
    fn tax(&mut self) -> (out: Self::Output)
        ensures
            Self::executes(
                *old(self),
                (Instruction { mnemonic: Mnemonic::Tax, operand: Operand::Implied }),
                *final(self),
                out,
            ),
    ;

    /// Transfer A to Y.
    fn tay(&mut self) -> (out: Self::Output)
        ensures
            Self::executes(
                *old(self),
                (Instruction { mnemonic: Mnemonic::Tay, operand: Operand::Implied }),
                *final(self),
                out,
            ),
    ;

    /// Transfer X to A.
    fn txa(&mut self) -> (out: Self::Output)
        ensures
            Self::executes(
                *old(self),
                (Instruction { mnemonic: Mnemonic::Txa, operand: Operand::Implied }),
                *final(self),
                out,
            ),
    ;

    /// Transfer Y to A.
    fn tya(&mut self) -> (out: Self::Output)
        ensures
            Self::executes(
                *old(self),
                (Instruction { mnemonic: Mnemonic::Tya, operand: Operand::Implied }),
                *final(self),
                out,
            ),
    ;

    /// Transfer X to S.
    fn txs(&mut self) -> (out: Self::Output)
        ensures
            Self::executes(
                *old(self),
                (Instruction { mnemonic: Mnemonic::Txs, operand: Operand::Implied }),
                *final(self),
                out,
            ),
    ;

    /// Transfer S to X.
    fn tsx(&mut self) -> (out: Self::Output)
        ensures
            Self::executes(
                *old(self),
                (Instruction { mnemonic: Mnemonic::Tsx, operand: Operand::Implied }),
                *final(self),
                out,
            ),
    ;

    /// Push A.
    fn pha(&mut self) -> (out: Self::Output)
        ensures
            Self::executes(
                *old(self),
                (Instruction { mnemonic: Mnemonic::Pha, operand: Operand::Implied }),
                *final(self),
                out,
            ),
    ;

    /// Pull A.
    fn pla(&mut self) -> (out: Self::Output)
        ensures
            Self::executes(
                *old(self),
                (Instruction { mnemonic: Mnemonic::Pla, operand: Operand::Implied }),
                *final(self),
                out,
            ),
    ;

    /// Push processor status.
    fn php(&mut self) -> (out: Self::Output)
        ensures
            Self::executes(
                *old(self),
                (Instruction { mnemonic: Mnemonic::Php, operand: Operand::Implied }),
                *final(self),
                out,
            ),
    ;

    /// Pull processor status.
    fn plp(&mut self) -> (out: Self::Output)
        ensures
            Self::executes(
                *old(self),
                (Instruction { mnemonic: Mnemonic::Plp, operand: Operand::Implied }),
                *final(self),
                out,
            ),
    ;

    /// Clear carry flag.
    fn clc(&mut self) -> (out: Self::Output)
        ensures
            Self::executes(
                *old(self),
                (Instruction { mnemonic: Mnemonic::Clc, operand: Operand::Implied }),
                *final(self),
                out,
            ),
    ;

    /// Clear decimal mode.
    fn cld(&mut self) -> (out: Self::Output)
        ensures
            Self::executes(
                *old(self),
                (Instruction { mnemonic: Mnemonic::Cld, operand: Operand::Implied }),
                *final(self),
                out,
            ),
    ;

    /// Clear interrupt disable.
    fn cli(&mut self) -> (out: Self::Output)
        ensures
            Self::executes(
                *old(self),
                (Instruction { mnemonic: Mnemonic::Cli, operand: Operand::Implied }),
                *final(self),
                out,
            ),
    ;

    /// Clear overflow flag.
    fn clv(&mut self) -> (out: Self::Output)
        ensures
            Self::executes(
                *old(self),
                (Instruction { mnemonic: Mnemonic::Clv, operand: Operand::Implied }),
                *final(self),
                out,
            ),
    ;

    /// Set carry flag.
    fn sec(&mut self) -> (out: Self::Output)
        ensures
            Self::executes(
                *old(self),
                (Instruction { mnemonic: Mnemonic::Sec, operand: Operand::Implied }),
                *final(self),
                out,
            ),
    ;

    /// Set decimal mode.
    fn sed(&mut self) -> (out: Self::Output)
        ensures
            Self::executes(
                *old(self),
                (Instruction { mnemonic: Mnemonic::Sed, operand: Operand::Implied }),
                *final(self),
                out,
            ),
    ;

    /// Set interrupt disable.
    fn sei(&mut self) -> (out: Self::Output)
        ensures
            Self::executes(
                *old(self),
                (Instruction { mnemonic: Mnemonic::Sei, operand: Operand::Implied }),
                *final(self),
                out,
            ),
    ;

    /// No operation.
    fn nop(&mut self) -> (out: Self::Output)
        ensures
            Self::executes(
                *old(self),
                (Instruction { mnemonic: Mnemonic::Nop, operand: Operand::Implied }),
                *final(self),
                out,
            ),
    ;
}

} // verus!

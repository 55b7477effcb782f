//! From a decoded instruction to the consumer's method for it.

use vstd::prelude::*;
use crate::interp::{Instruction, InterpretInstruction};
use crate::mnemonic::Mnemonic;

verus! {

/// Hands `instruction` to `interp`: calls the one method that belongs to the
/// instruction's mnemonic, with the operand where the mnemonic takes one, and
/// returns what the method returned.
pub fn dispatch<I: InterpretInstruction>(
    instruction: Instruction,
    interp: &mut I,
) -> (out: I::Output)
    ensures
        I::executes(*old(interp), instruction.delivered(), *final(interp), out),
{
    match instruction.mnemonic {
        Mnemonic::Lda => interp.lda(instruction.operand),
        Mnemonic::Ldx => interp.ldx(instruction.operand),
        Mnemonic::Ldy => interp.ldy(instruction.operand),
        Mnemonic::Sta => interp.sta(instruction.operand),
        Mnemonic::Stx => interp.stx(instruction.operand),
        Mnemonic::Sty => interp.sty(instruction.operand),
        Mnemonic::Adc => interp.adc(instruction.operand),
        Mnemonic::Sbc => interp.sbc(instruction.operand),
        Mnemonic::Inc => interp.inc(instruction.operand),
        Mnemonic::Inx => interp.inx(),
        Mnemonic::Iny => interp.iny(),
        Mnemonic::Dec => interp.dec(instruction.operand),
        Mnemonic::Dex => interp.dex(),
        Mnemonic::Dey => interp.dey(),
        Mnemonic::And => interp.and(instruction.operand),
        Mnemonic::Ora => interp.ora(instruction.operand),
        Mnemonic::Eor => interp.eor(instruction.operand),
        Mnemonic::Jmp => interp.jmp(instruction.operand),
        Mnemonic::Jsr => interp.jsr(instruction.operand),
        Mnemonic::Rti => interp.rti(),
        Mnemonic::Rts => interp.rts(),
        Mnemonic::Bcc => interp.bcc(instruction.operand),
        Mnemonic::Bcs => interp.bcs(instruction.operand),
        Mnemonic::Beq => interp.beq(instruction.operand),
        Mnemonic::Bne => interp.bne(instruction.operand),
        Mnemonic::Bmi => interp.bmi(instruction.operand),
        Mnemonic::Bpl => interp.bpl(instruction.operand),
        Mnemonic::Bvs => interp.bvs(instruction.operand),
        Mnemonic::Bvc => interp.bvc(instruction.operand),
        Mnemonic::Brk => interp.brk(),
        Mnemonic::Cmp => interp.cmp(instruction.operand),
        Mnemonic::Cpx => interp.cpx(instruction.operand),
        Mnemonic::Cpy => interp.cpy(instruction.operand),
        Mnemonic::Bit => interp.bit(instruction.operand),
        Mnemonic::Asl => interp.asl(instruction.operand),
        Mnemonic::Lsr => interp.lsr(instruction.operand),
        Mnemonic::Rol => interp.rol(instruction.operand),
        Mnemonic::Ror => interp.ror(instruction.operand),
        Mnemonic::Tax => interp.tax(),
        Mnemonic::Tay => interp.tay(),
        Mnemonic::Txa => interp.txa(),
        Mnemonic::Tya => interp.tya(),
        Mnemonic::Txs => interp.txs(),
        Mnemonic::Tsx => interp.tsx(),
        Mnemonic::Pha => interp.pha(),
        Mnemonic::Pla => interp.pla(),
        Mnemonic::Php => interp.php(),
        Mnemonic::Plp => interp.plp(),
        Mnemonic::Clc => interp.clc(),
        Mnemonic::Cld => interp.cld(),
        Mnemonic::Cli => interp.cli(),
        Mnemonic::Clv => interp.clv(),
        Mnemonic::Sec => interp.sec(),
        Mnemonic::Sed => interp.sed(),
        Mnemonic::Sei => interp.sei(),
        Mnemonic::Nop => interp.nop(),
    }
}

} // verus!

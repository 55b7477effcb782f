//! The opcode table: what each of the 256 opcode bytes stands for.

use vstd::prelude::*;
use crate::mnemonic::Mnemonic;
use crate::mode::AddressingMode;

verus! {

/// What an opcode byte stands for.
#[derive(Clone, Copy, Debug, PartialEq, Eq, Structural)]
pub enum OpcodeEntry {
    /// A documented instruction.
    Defined {
        /// The operation.
        mnemonic: Mnemonic,
        /// How the operand is encoded.
        mode: AddressingMode,
    },
    /// No documented instruction. Such a byte has no addressing mode, and
    /// no operand bytes belong to it.
    Undefined,
}

impl OpcodeEntry {
    /// The number of operand bytes that follow an opcode of this entry.
    pub open spec fn spec_operand_len(self) -> nat {
        match self {
            OpcodeEntry::Defined { mode, .. } => mode.spec_operand_len(),
            OpcodeEntry::Undefined => 0,
        }
    }

    /// The number of operand bytes that follow an opcode of this entry.
    pub fn operand_len(&self) -> (n: usize)
        ensures
            n == self.spec_operand_len(),
    {
        match self {
            OpcodeEntry::Defined { mode, .. } => mode.operand_len(),
            OpcodeEntry::Undefined => 0,
        }
    }
}

/// The entry of a documented instruction.
pub open spec fn defined(mnemonic: Mnemonic, mode: AddressingMode) -> OpcodeEntry {
    OpcodeEntry::Defined { mnemonic, mode }
}

/// The entry of a documented instruction.
fn entry(mnemonic: Mnemonic, mode: AddressingMode) -> (e: OpcodeEntry)
    ensures
        e == defined(mnemonic, mode),
{
    OpcodeEntry::Defined { mnemonic, mode }
}

/// The documented instruction set, by operation and addressing mode: the
/// opcode byte of each combination that exists.
pub open spec fn encoding(mnemonic: Mnemonic, mode: AddressingMode) -> Option<u8> {
    match (mnemonic, mode) {
        (Mnemonic::Lda, AddressingMode::Immediate) => Some(0xA9u8),
        (Mnemonic::Lda, AddressingMode::ZeroPage) => Some(0xA5u8),
        (Mnemonic::Lda, AddressingMode::ZeroPageX) => Some(0xB5u8),
        (Mnemonic::Lda, AddressingMode::Absolute) => Some(0xADu8),
        (Mnemonic::Lda, AddressingMode::AbsoluteX) => Some(0xBDu8),
        (Mnemonic::Lda, AddressingMode::AbsoluteY) => Some(0xB9u8),
        (Mnemonic::Lda, AddressingMode::IndexedIndirect) => Some(0xA1u8),
        (Mnemonic::Lda, AddressingMode::IndirectIndexed) => Some(0xB1u8),
        (Mnemonic::Ldx, AddressingMode::Immediate) => Some(0xA2u8),
        (Mnemonic::Ldx, AddressingMode::ZeroPage) => Some(0xA6u8),
        (Mnemonic::Ldx, AddressingMode::ZeroPageY) => Some(0xB6u8),
        (Mnemonic::Ldx, AddressingMode::Absolute) => Some(0xAEu8),
        (Mnemonic::Ldx, AddressingMode::AbsoluteY) => Some(0xBEu8),
        (Mnemonic::Ldy, AddressingMode::Immediate) => Some(0xA0u8),
        (Mnemonic::Ldy, AddressingMode::ZeroPage) => Some(0xA4u8),
        (Mnemonic::Ldy, AddressingMode::ZeroPageX) => Some(0xB4u8),
        (Mnemonic::Ldy, AddressingMode::Absolute) => Some(0xACu8),
        (Mnemonic::Ldy, AddressingMode::AbsoluteX) => Some(0xBCu8),
        (Mnemonic::Sta, AddressingMode::ZeroPage) => Some(0x85u8),
        (Mnemonic::Sta, AddressingMode::ZeroPageX) => Some(0x95u8),
        (Mnemonic::Sta, AddressingMode::Absolute) => Some(0x8Du8),
        (Mnemonic::Sta, AddressingMode::AbsoluteX) => Some(0x9Du8),
        (Mnemonic::Sta, AddressingMode::AbsoluteY) => Some(0x99u8),
        (Mnemonic::Sta, AddressingMode::IndexedIndirect) => Some(0x81u8),
        (Mnemonic::Sta, AddressingMode::IndirectIndexed) => Some(0x91u8),
        (Mnemonic::Stx, AddressingMode::ZeroPage) => Some(0x86u8),
        (Mnemonic::Stx, AddressingMode::ZeroPageY) => Some(0x96u8),
        (Mnemonic::Stx, AddressingMode::Absolute) => Some(0x8Eu8),
        (Mnemonic::Sty, AddressingMode::ZeroPage) => Some(0x84u8),
        (Mnemonic::Sty, AddressingMode::ZeroPageX) => Some(0x94u8),
        (Mnemonic::Sty, AddressingMode::Absolute) => Some(0x8Cu8),
        (Mnemonic::Adc, AddressingMode::Immediate) => Some(0x69u8),
        (Mnemonic::Adc, AddressingMode::ZeroPage) => Some(0x65u8),
        (Mnemonic::Adc, AddressingMode::ZeroPageX) => Some(0x75u8),
        (Mnemonic::Adc, AddressingMode::Absolute) => Some(0x6Du8),
        (Mnemonic::Adc, AddressingMode::AbsoluteX) => Some(0x7Du8),
        (Mnemonic::Adc, AddressingMode::AbsoluteY) => Some(0x79u8),
        (Mnemonic::Adc, AddressingMode::IndexedIndirect) => Some(0x61u8),
        (Mnemonic::Adc, AddressingMode::IndirectIndexed) => Some(0x71u8),
        (Mnemonic::Sbc, AddressingMode::Immediate) => Some(0xE9u8),
        (Mnemonic::Sbc, AddressingMode::ZeroPage) => Some(0xE5u8),
        (Mnemonic::Sbc, AddressingMode::ZeroPageX) => Some(0xF5u8),
        (Mnemonic::Sbc, AddressingMode::Absolute) => Some(0xEDu8),
        (Mnemonic::Sbc, AddressingMode::AbsoluteX) => Some(0xFDu8),
        (Mnemonic::Sbc, AddressingMode::AbsoluteY) => Some(0xF9u8),
        (Mnemonic::Sbc, AddressingMode::IndexedIndirect) => Some(0xE1u8),
        (Mnemonic::Sbc, AddressingMode::IndirectIndexed) => Some(0xF1u8),
        (Mnemonic::Inc, AddressingMode::ZeroPage) => Some(0xE6u8),
        (Mnemonic::Inc, AddressingMode::ZeroPageX) => Some(0xF6u8),
        (Mnemonic::Inc, AddressingMode::Absolute) => Some(0xEEu8),
        (Mnemonic::Inc, AddressingMode::AbsoluteX) => Some(0xFEu8),
        (Mnemonic::Inx, AddressingMode::Implied) => Some(0xE8u8),
        (Mnemonic::Iny, AddressingMode::Implied) => Some(0xC8u8),
        (Mnemonic::Dec, AddressingMode::ZeroPage) => Some(0xC6u8),
        (Mnemonic::Dec, AddressingMode::ZeroPageX) => Some(0xD6u8),
        (Mnemonic::Dec, AddressingMode::Absolute) => Some(0xCEu8),
        (Mnemonic::Dec, AddressingMode::AbsoluteX) => Some(0xDEu8),
        (Mnemonic::Dex, AddressingMode::Implied) => Some(0xCAu8),
        (Mnemonic::Dey, AddressingMode::Implied) => Some(0x88u8),
        (Mnemonic::And, AddressingMode::Immediate) => Some(0x29u8),
        (Mnemonic::And, AddressingMode::ZeroPage) => Some(0x25u8),
        (Mnemonic::And, AddressingMode::ZeroPageX) => Some(0x35u8),
        (Mnemonic::And, AddressingMode::Absolute) => Some(0x2Du8),
        (Mnemonic::And, AddressingMode::AbsoluteX) => Some(0x3Du8),
        (Mnemonic::And, AddressingMode::AbsoluteY) => Some(0x39u8),
        (Mnemonic::And, AddressingMode::IndexedIndirect) => Some(0x21u8),
        (Mnemonic::And, AddressingMode::IndirectIndexed) => Some(0x31u8),
        (Mnemonic::Ora, AddressingMode::Immediate) => Some(0x09u8),
        (Mnemonic::Ora, AddressingMode::ZeroPage) => Some(0x05u8),
        (Mnemonic::Ora, AddressingMode::ZeroPageX) => Some(0x15u8),
        (Mnemonic::Ora, AddressingMode::Absolute) => Some(0x0Du8),
        (Mnemonic::Ora, AddressingMode::AbsoluteX) => Some(0x1Du8),
        (Mnemonic::Ora, AddressingMode::AbsoluteY) => Some(0x19u8),
        (Mnemonic::Ora, AddressingMode::IndexedIndirect) => Some(0x01u8),
        (Mnemonic::Ora, AddressingMode::IndirectIndexed) => Some(0x11u8),
        (Mnemonic::Eor, AddressingMode::Immediate) => Some(0x49u8),
        (Mnemonic::Eor, AddressingMode::ZeroPage) => Some(0x45u8),
        (Mnemonic::Eor, AddressingMode::ZeroPageX) => Some(0x55u8),
        (Mnemonic::Eor, AddressingMode::Absolute) => Some(0x4Du8),
        (Mnemonic::Eor, AddressingMode::AbsoluteX) => Some(0x5Du8),
        (Mnemonic::Eor, AddressingMode::AbsoluteY) => Some(0x59u8),
        (Mnemonic::Eor, AddressingMode::IndexedIndirect) => Some(0x41u8),
        (Mnemonic::Eor, AddressingMode::IndirectIndexed) => Some(0x51u8),
        (Mnemonic::Jmp, AddressingMode::Absolute) => Some(0x4Cu8),
        (Mnemonic::Jmp, AddressingMode::Indirect) => Some(0x6Cu8),
        (Mnemonic::Jsr, AddressingMode::Absolute) => Some(0x20u8),
        (Mnemonic::Rti, AddressingMode::Implied) => Some(0x40u8),
        (Mnemonic::Rts, AddressingMode::Implied) => Some(0x60u8),
        (Mnemonic::Bcc, AddressingMode::Relative) => Some(0x90u8),
        (Mnemonic::Bcs, AddressingMode::Relative) => Some(0xB0u8),
        (Mnemonic::Beq, AddressingMode::Relative) => Some(0xF0u8),
        (Mnemonic::Bne, AddressingMode::Relative) => Some(0xD0u8),
        (Mnemonic::Bmi, AddressingMode::Relative) => Some(0x30u8),
        (Mnemonic::Bpl, AddressingMode::Relative) => Some(0x10u8),
        (Mnemonic::Bvs, AddressingMode::Relative) => Some(0x70u8),
        (Mnemonic::Bvc, AddressingMode::Relative) => Some(0x50u8),
        (Mnemonic::Brk, AddressingMode::Implied) => Some(0x00u8),
        (Mnemonic::Cmp, AddressingMode::Immediate) => Some(0xC9u8),
        (Mnemonic::Cmp, AddressingMode::ZeroPage) => Some(0xC5u8),
        (Mnemonic::Cmp, AddressingMode::ZeroPageX) => Some(0xD5u8),
        (Mnemonic::Cmp, AddressingMode::Absolute) => Some(0xCDu8),
        (Mnemonic::Cmp, AddressingMode::AbsoluteX) => Some(0xDDu8),
        (Mnemonic::Cmp, AddressingMode::AbsoluteY) => Some(0xD9u8),
        (Mnemonic::Cmp, AddressingMode::IndexedIndirect) => Some(0xC1u8),
        (Mnemonic::Cmp, AddressingMode::IndirectIndexed) => Some(0xD1u8),
        (Mnemonic::Cpx, AddressingMode::Immediate) => Some(0xE0u8),
        (Mnemonic::Cpx, AddressingMode::ZeroPage) => Some(0xE4u8),
        (Mnemonic::Cpx, AddressingMode::Absolute) => Some(0xECu8),
        (Mnemonic::Cpy, AddressingMode::Immediate) => Some(0xC0u8),
        (Mnemonic::Cpy, AddressingMode::ZeroPage) => Some(0xC4u8),
        (Mnemonic::Cpy, AddressingMode::Absolute) => Some(0xCCu8),
        (Mnemonic::Bit, AddressingMode::ZeroPage) => Some(0x24u8),
        (Mnemonic::Bit, AddressingMode::Absolute) => Some(0x2Cu8),
        (Mnemonic::Asl, AddressingMode::Accumulator) => Some(0x0Au8),
        (Mnemonic::Asl, AddressingMode::ZeroPage) => Some(0x06u8),
        (Mnemonic::Asl, AddressingMode::ZeroPageX) => Some(0x16u8),
        (Mnemonic::Asl, AddressingMode::Absolute) => Some(0x0Eu8),
        (Mnemonic::Asl, AddressingMode::AbsoluteX) => Some(0x1Eu8),
        (Mnemonic::Lsr, AddressingMode::Accumulator) => Some(0x4Au8),
        (Mnemonic::Lsr, AddressingMode::ZeroPage) => Some(0x46u8),
        (Mnemonic::Lsr, AddressingMode::ZeroPageX) => Some(0x56u8),
        (Mnemonic::Lsr, AddressingMode::Absolute) => Some(0x4Eu8),
        (Mnemonic::Lsr, AddressingMode::AbsoluteX) => Some(0x5Eu8),
        (Mnemonic::Rol, AddressingMode::Accumulator) => Some(0x2Au8),
        (Mnemonic::Rol, AddressingMode::ZeroPage) => Some(0x26u8),
        (Mnemonic::Rol, AddressingMode::ZeroPageX) => Some(0x36u8),
        (Mnemonic::Rol, AddressingMode::Absolute) => Some(0x2Eu8),
        (Mnemonic::Rol, AddressingMode::AbsoluteX) => Some(0x3Eu8),
        (Mnemonic::Ror, AddressingMode::Accumulator) => Some(0x6Au8),
        (Mnemonic::Ror, AddressingMode::ZeroPage) => Some(0x66u8),
        (Mnemonic::Ror, AddressingMode::ZeroPageX) => Some(0x76u8),
        (Mnemonic::Ror, AddressingMode::Absolute) => Some(0x6Eu8),
        (Mnemonic::Ror, AddressingMode::AbsoluteX) => Some(0x7Eu8),
        (Mnemonic::Tax, AddressingMode::Implied) => Some(0xAAu8),
        (Mnemonic::Tay, AddressingMode::Implied) => Some(0xA8u8),
        (Mnemonic::Txa, AddressingMode::Implied) => Some(0x8Au8),
        (Mnemonic::Tya, AddressingMode::Implied) => Some(0x98u8),
        (Mnemonic::Txs, AddressingMode::Implied) => Some(0x9Au8),
        (Mnemonic::Tsx, AddressingMode::Implied) => Some(0xBAu8),
        (Mnemonic::Pha, AddressingMode::Implied) => Some(0x48u8),
        (Mnemonic::Pla, AddressingMode::Implied) => Some(0x68u8),
        (Mnemonic::Php, AddressingMode::Implied) => Some(0x08u8),
        (Mnemonic::Plp, AddressingMode::Implied) => Some(0x28u8),
        (Mnemonic::Clc, AddressingMode::Implied) => Some(0x18u8),
        (Mnemonic::Cld, AddressingMode::Implied) => Some(0xD8u8),
        (Mnemonic::Cli, AddressingMode::Implied) => Some(0x58u8),
        (Mnemonic::Clv, AddressingMode::Implied) => Some(0xB8u8),
        (Mnemonic::Sec, AddressingMode::Implied) => Some(0x38u8),
        (Mnemonic::Sed, AddressingMode::Implied) => Some(0xF8u8),
        (Mnemonic::Sei, AddressingMode::Implied) => Some(0x78u8),
        (Mnemonic::Nop, AddressingMode::Implied) => Some(0xEAu8),
        _ => None,
    }
}

/// The opcode table: the entry of each byte.
pub open spec fn entry_for(byte: u8) -> OpcodeEntry {
    match byte {
        0x00 => defined(Mnemonic::Brk, AddressingMode::Implied),
        0x01 => defined(Mnemonic::Ora, AddressingMode::IndexedIndirect),
        0x05 => defined(Mnemonic::Ora, AddressingMode::ZeroPage),
        0x06 => defined(Mnemonic::Asl, AddressingMode::ZeroPage),
        0x08 => defined(Mnemonic::Php, AddressingMode::Implied),
        0x09 => defined(Mnemonic::Ora, AddressingMode::Immediate),
        0x0A => defined(Mnemonic::Asl, AddressingMode::Accumulator),
        0x0D => defined(Mnemonic::Ora, AddressingMode::Absolute),
        0x0E => defined(Mnemonic::Asl, AddressingMode::Absolute),
        0x10 => defined(Mnemonic::Bpl, AddressingMode::Relative),
        0x11 => defined(Mnemonic::Ora, AddressingMode::IndirectIndexed),
        0x15 => defined(Mnemonic::Ora, AddressingMode::ZeroPageX),
        0x16 => defined(Mnemonic::Asl, AddressingMode::ZeroPageX),
        0x18 => defined(Mnemonic::Clc, AddressingMode::Implied),
        0x19 => defined(Mnemonic::Ora, AddressingMode::AbsoluteY),
        0x1D => defined(Mnemonic::Ora, AddressingMode::AbsoluteX),
        0x1E => defined(Mnemonic::Asl, AddressingMode::AbsoluteX),
        0x20 => defined(Mnemonic::Jsr, AddressingMode::Absolute),
        0x21 => defined(Mnemonic::And, AddressingMode::IndexedIndirect),
        0x24 => defined(Mnemonic::Bit, AddressingMode::ZeroPage),
        0x25 => defined(Mnemonic::And, AddressingMode::ZeroPage),
        0x26 => defined(Mnemonic::Rol, AddressingMode::ZeroPage),
        0x28 => defined(Mnemonic::Plp, AddressingMode::Implied),
        0x29 => defined(Mnemonic::And, AddressingMode::Immediate),
        0x2A => defined(Mnemonic::Rol, AddressingMode::Accumulator),
        0x2C => defined(Mnemonic::Bit, AddressingMode::Absolute),
        0x2D => defined(Mnemonic::And, AddressingMode::Absolute),
        0x2E => defined(Mnemonic::Rol, AddressingMode::Absolute),
        0x30 => defined(Mnemonic::Bmi, AddressingMode::Relative),
        0x31 => defined(Mnemonic::And, AddressingMode::IndirectIndexed),
        0x35 => defined(Mnemonic::And, AddressingMode::ZeroPageX),
        0x36 => defined(Mnemonic::Rol, AddressingMode::ZeroPageX),
        0x38 => defined(Mnemonic::Sec, AddressingMode::Implied),
        0x39 => defined(Mnemonic::And, AddressingMode::AbsoluteY),
        0x3D => defined(Mnemonic::And, AddressingMode::AbsoluteX),
        0x3E => defined(Mnemonic::Rol, AddressingMode::AbsoluteX),
        0x40 => defined(Mnemonic::Rti, AddressingMode::Implied),
        0x41 => defined(Mnemonic::Eor, AddressingMode::IndexedIndirect),
        0x45 => defined(Mnemonic::Eor, AddressingMode::ZeroPage),
        0x46 => defined(Mnemonic::Lsr, AddressingMode::ZeroPage),
        0x48 => defined(Mnemonic::Pha, AddressingMode::Implied),
        0x49 => defined(Mnemonic::Eor, AddressingMode::Immediate),
        0x4A => defined(Mnemonic::Lsr, AddressingMode::Accumulator),
        0x4C => defined(Mnemonic::Jmp, AddressingMode::Absolute),
        0x4D => defined(Mnemonic::Eor, AddressingMode::Absolute),
        0x4E => defined(Mnemonic::Lsr, AddressingMode::Absolute),
        0x50 => defined(Mnemonic::Bvc, AddressingMode::Relative),
        0x51 => defined(Mnemonic::Eor, AddressingMode::IndirectIndexed),
        0x55 => defined(Mnemonic::Eor, AddressingMode::ZeroPageX),
        0x56 => defined(Mnemonic::Lsr, AddressingMode::ZeroPageX),
        0x58 => defined(Mnemonic::Cli, AddressingMode::Implied),
        0x59 => defined(Mnemonic::Eor, AddressingMode::AbsoluteY),
        0x5D => defined(Mnemonic::Eor, AddressingMode::AbsoluteX),
        0x5E => defined(Mnemonic::Lsr, AddressingMode::AbsoluteX),
        0x60 => defined(Mnemonic::Rts, AddressingMode::Implied),
        0x61 => defined(Mnemonic::Adc, AddressingMode::IndexedIndirect),
        0x65 => defined(Mnemonic::Adc, AddressingMode::ZeroPage),
        0x66 => defined(Mnemonic::Ror, AddressingMode::ZeroPage),
        0x68 => defined(Mnemonic::Pla, AddressingMode::Implied),
        0x69 => defined(Mnemonic::Adc, AddressingMode::Immediate),
        0x6A => defined(Mnemonic::Ror, AddressingMode::Accumulator),
        0x6C => defined(Mnemonic::Jmp, AddressingMode::Indirect),
        0x6D => defined(Mnemonic::Adc, AddressingMode::Absolute),
        0x6E => defined(Mnemonic::Ror, AddressingMode::Absolute),
        0x70 => defined(Mnemonic::Bvs, AddressingMode::Relative),
        0x71 => defined(Mnemonic::Adc, AddressingMode::IndirectIndexed),
        0x75 => defined(Mnemonic::Adc, AddressingMode::ZeroPageX),
        0x76 => defined(Mnemonic::Ror, AddressingMode::ZeroPageX),
        0x78 => defined(Mnemonic::Sei, AddressingMode::Implied),
        0x79 => defined(Mnemonic::Adc, AddressingMode::AbsoluteY),
        0x7D => defined(Mnemonic::Adc, AddressingMode::AbsoluteX),
        0x7E => defined(Mnemonic::Ror, AddressingMode::AbsoluteX),
        0x81 => defined(Mnemonic::Sta, AddressingMode::IndexedIndirect),
        0x84 => defined(Mnemonic::Sty, AddressingMode::ZeroPage),
        0x85 => defined(Mnemonic::Sta, AddressingMode::ZeroPage),
        0x86 => defined(Mnemonic::Stx, AddressingMode::ZeroPage),
        0x88 => defined(Mnemonic::Dey, AddressingMode::Implied),
        0x8A => defined(Mnemonic::Txa, AddressingMode::Implied),
        0x8C => defined(Mnemonic::Sty, AddressingMode::Absolute),
        0x8D => defined(Mnemonic::Sta, AddressingMode::Absolute),
        0x8E => defined(Mnemonic::Stx, AddressingMode::Absolute),
        0x90 => defined(Mnemonic::Bcc, AddressingMode::Relative),
        0x91 => defined(Mnemonic::Sta, AddressingMode::IndirectIndexed),
        0x94 => defined(Mnemonic::Sty, AddressingMode::ZeroPageX),
        0x95 => defined(Mnemonic::Sta, AddressingMode::ZeroPageX),
        0x96 => defined(Mnemonic::Stx, AddressingMode::ZeroPageY),
        0x98 => defined(Mnemonic::Tya, AddressingMode::Implied),
        0x99 => defined(Mnemonic::Sta, AddressingMode::AbsoluteY),
        0x9A => defined(Mnemonic::Txs, AddressingMode::Implied),
        0x9D => defined(Mnemonic::Sta, AddressingMode::AbsoluteX),
        0xA0 => defined(Mnemonic::Ldy, AddressingMode::Immediate),
        0xA1 => defined(Mnemonic::Lda, AddressingMode::IndexedIndirect),
        0xA2 => defined(Mnemonic::Ldx, AddressingMode::Immediate),
        0xA4 => defined(Mnemonic::Ldy, AddressingMode::ZeroPage),
        0xA5 => defined(Mnemonic::Lda, AddressingMode::ZeroPage),
        0xA6 => defined(Mnemonic::Ldx, AddressingMode::ZeroPage),
        0xA8 => defined(Mnemonic::Tay, AddressingMode::Implied),
        0xA9 => defined(Mnemonic::Lda, AddressingMode::Immediate),
        0xAA => defined(Mnemonic::Tax, AddressingMode::Implied),
        0xAC => defined(Mnemonic::Ldy, AddressingMode::Absolute),
        0xAD => defined(Mnemonic::Lda, AddressingMode::Absolute),
        0xAE => defined(Mnemonic::Ldx, AddressingMode::Absolute),
        0xB0 => defined(Mnemonic::Bcs, AddressingMode::Relative),
        0xB1 => defined(Mnemonic::Lda, AddressingMode::IndirectIndexed),
        0xB4 => defined(Mnemonic::Ldy, AddressingMode::ZeroPageX),
        0xB5 => defined(Mnemonic::Lda, AddressingMode::ZeroPageX),
        0xB6 => defined(Mnemonic::Ldx, AddressingMode::ZeroPageY),
        0xB8 => defined(Mnemonic::Clv, AddressingMode::Implied),
        0xB9 => defined(Mnemonic::Lda, AddressingMode::AbsoluteY),
        0xBA => defined(Mnemonic::Tsx, AddressingMode::Implied),
        0xBC => defined(Mnemonic::Ldy, AddressingMode::AbsoluteX),
        0xBD => defined(Mnemonic::Lda, AddressingMode::AbsoluteX),
        0xBE => defined(Mnemonic::Ldx, AddressingMode::AbsoluteY),
        0xC0 => defined(Mnemonic::Cpy, AddressingMode::Immediate),
        0xC1 => defined(Mnemonic::Cmp, AddressingMode::IndexedIndirect),
        0xC4 => defined(Mnemonic::Cpy, AddressingMode::ZeroPage),
        0xC5 => defined(Mnemonic::Cmp, AddressingMode::ZeroPage),
        0xC6 => defined(Mnemonic::Dec, AddressingMode::ZeroPage),
        0xC8 => defined(Mnemonic::Iny, AddressingMode::Implied),
        0xC9 => defined(Mnemonic::Cmp, AddressingMode::Immediate),
        0xCA => defined(Mnemonic::Dex, AddressingMode::Implied),
        0xCC => defined(Mnemonic::Cpy, AddressingMode::Absolute),
        0xCD => defined(Mnemonic::Cmp, AddressingMode::Absolute),
        0xCE => defined(Mnemonic::Dec, AddressingMode::Absolute),
        0xD0 => defined(Mnemonic::Bne, AddressingMode::Relative),
        0xD1 => defined(Mnemonic::Cmp, AddressingMode::IndirectIndexed),
        0xD5 => defined(Mnemonic::Cmp, AddressingMode::ZeroPageX),
        0xD6 => defined(Mnemonic::Dec, AddressingMode::ZeroPageX),
        0xD8 => defined(Mnemonic::Cld, AddressingMode::Implied),
        0xD9 => defined(Mnemonic::Cmp, AddressingMode::AbsoluteY),
        0xDD => defined(Mnemonic::Cmp, AddressingMode::AbsoluteX),
        0xDE => defined(Mnemonic::Dec, AddressingMode::AbsoluteX),
        0xE0 => defined(Mnemonic::Cpx, AddressingMode::Immediate),
        0xE1 => defined(Mnemonic::Sbc, AddressingMode::IndexedIndirect),
        0xE4 => defined(Mnemonic::Cpx, AddressingMode::ZeroPage),
        0xE5 => defined(Mnemonic::Sbc, AddressingMode::ZeroPage),
        0xE6 => defined(Mnemonic::Inc, AddressingMode::ZeroPage),
        0xE8 => defined(Mnemonic::Inx, AddressingMode::Implied),
        0xE9 => defined(Mnemonic::Sbc, AddressingMode::Immediate),
        0xEA => defined(Mnemonic::Nop, AddressingMode::Implied),
        0xEC => defined(Mnemonic::Cpx, AddressingMode::Absolute),
        0xED => defined(Mnemonic::Sbc, AddressingMode::Absolute),
        0xEE => defined(Mnemonic::Inc, AddressingMode::Absolute),
        0xF0 => defined(Mnemonic::Beq, AddressingMode::Relative),
        0xF1 => defined(Mnemonic::Sbc, AddressingMode::IndirectIndexed),
        0xF5 => defined(Mnemonic::Sbc, AddressingMode::ZeroPageX),
        0xF6 => defined(Mnemonic::Inc, AddressingMode::ZeroPageX),
        0xF8 => defined(Mnemonic::Sed, AddressingMode::Implied),
        0xF9 => defined(Mnemonic::Sbc, AddressingMode::AbsoluteY),
        0xFD => defined(Mnemonic::Sbc, AddressingMode::AbsoluteX),
        0xFE => defined(Mnemonic::Inc, AddressingMode::AbsoluteX),
        _ => OpcodeEntry::Undefined,
    }
}

/// Looks an opcode byte up in the table. Every byte has an entry: one that
/// is no documented instruction has the entry `Undefined`.
pub fn lookup(byte: u8) -> (e: OpcodeEntry)
    ensures
        e == entry_for(byte),
{
    match byte {
        0x00 => entry(Mnemonic::Brk, AddressingMode::Implied),
        0x01 => entry(Mnemonic::Ora, AddressingMode::IndexedIndirect),
        0x05 => entry(Mnemonic::Ora, AddressingMode::ZeroPage),
        0x06 => entry(Mnemonic::Asl, AddressingMode::ZeroPage),
        0x08 => entry(Mnemonic::Php, AddressingMode::Implied),
        0x09 => entry(Mnemonic::Ora, AddressingMode::Immediate),
        0x0A => entry(Mnemonic::Asl, AddressingMode::Accumulator),
        0x0D => entry(Mnemonic::Ora, AddressingMode::Absolute),
        0x0E => entry(Mnemonic::Asl, AddressingMode::Absolute),
        0x10 => entry(Mnemonic::Bpl, AddressingMode::Relative),
        0x11 => entry(Mnemonic::Ora, AddressingMode::IndirectIndexed),
        0x15 => entry(Mnemonic::Ora, AddressingMode::ZeroPageX),
        0x16 => entry(Mnemonic::Asl, AddressingMode::ZeroPageX),
        0x18 => entry(Mnemonic::Clc, AddressingMode::Implied),
        0x19 => entry(Mnemonic::Ora, AddressingMode::AbsoluteY),
        0x1D => entry(Mnemonic::Ora, AddressingMode::AbsoluteX),
        0x1E => entry(Mnemonic::Asl, AddressingMode::AbsoluteX),
        0x20 => entry(Mnemonic::Jsr, AddressingMode::Absolute),
        0x21 => entry(Mnemonic::And, AddressingMode::IndexedIndirect),
        0x24 => entry(Mnemonic::Bit, AddressingMode::ZeroPage),
        0x25 => entry(Mnemonic::And, AddressingMode::ZeroPage),
        0x26 => entry(Mnemonic::Rol, AddressingMode::ZeroPage),
        0x28 => entry(Mnemonic::Plp, AddressingMode::Implied),
        0x29 => entry(Mnemonic::And, AddressingMode::Immediate),
        0x2A => entry(Mnemonic::Rol, AddressingMode::Accumulator),
        0x2C => entry(Mnemonic::Bit, AddressingMode::Absolute),
        0x2D => entry(Mnemonic::And, AddressingMode::Absolute),
        0x2E => entry(Mnemonic::Rol, AddressingMode::Absolute),
        0x30 => entry(Mnemonic::Bmi, AddressingMode::Relative),
        0x31 => entry(Mnemonic::And, AddressingMode::IndirectIndexed),
        0x35 => entry(Mnemonic::And, AddressingMode::ZeroPageX),
        0x36 => entry(Mnemonic::Rol, AddressingMode::ZeroPageX),
        0x38 => entry(Mnemonic::Sec, AddressingMode::Implied),
        0x39 => entry(Mnemonic::And, AddressingMode::AbsoluteY),
        0x3D => entry(Mnemonic::And, AddressingMode::AbsoluteX),
        0x3E => entry(Mnemonic::Rol, AddressingMode::AbsoluteX),
        0x40 => entry(Mnemonic::Rti, AddressingMode::Implied),
        0x41 => entry(Mnemonic::Eor, AddressingMode::IndexedIndirect),
        0x45 => entry(Mnemonic::Eor, AddressingMode::ZeroPage),
        0x46 => entry(Mnemonic::Lsr, AddressingMode::ZeroPage),
        0x48 => entry(Mnemonic::Pha, AddressingMode::Implied),
        0x49 => entry(Mnemonic::Eor, AddressingMode::Immediate),
        0x4A => entry(Mnemonic::Lsr, AddressingMode::Accumulator),
        0x4C => entry(Mnemonic::Jmp, AddressingMode::Absolute),
        0x4D => entry(Mnemonic::Eor, AddressingMode::Absolute),
        0x4E => entry(Mnemonic::Lsr, AddressingMode::Absolute),
        0x50 => entry(Mnemonic::Bvc, AddressingMode::Relative),
        0x51 => entry(Mnemonic::Eor, AddressingMode::IndirectIndexed),
        0x55 => entry(Mnemonic::Eor, AddressingMode::ZeroPageX),
        0x56 => entry(Mnemonic::Lsr, AddressingMode::ZeroPageX),
        0x58 => entry(Mnemonic::Cli, AddressingMode::Implied),
        0x59 => entry(Mnemonic::Eor, AddressingMode::AbsoluteY),
        0x5D => entry(Mnemonic::Eor, AddressingMode::AbsoluteX),
        0x5E => entry(Mnemonic::Lsr, AddressingMode::AbsoluteX),
        0x60 => entry(Mnemonic::Rts, AddressingMode::Implied),
        0x61 => entry(Mnemonic::Adc, AddressingMode::IndexedIndirect),
        0x65 => entry(Mnemonic::Adc, AddressingMode::ZeroPage),
        0x66 => entry(Mnemonic::Ror, AddressingMode::ZeroPage),
        0x68 => entry(Mnemonic::Pla, AddressingMode::Implied),
        0x69 => entry(Mnemonic::Adc, AddressingMode::Immediate),
        0x6A => entry(Mnemonic::Ror, AddressingMode::Accumulator),
        0x6C => entry(Mnemonic::Jmp, AddressingMode::Indirect),
        0x6D => entry(Mnemonic::Adc, AddressingMode::Absolute),
        0x6E => entry(Mnemonic::Ror, AddressingMode::Absolute),
        0x70 => entry(Mnemonic::Bvs, AddressingMode::Relative),
        0x71 => entry(Mnemonic::Adc, AddressingMode::IndirectIndexed),
        0x75 => entry(Mnemonic::Adc, AddressingMode::ZeroPageX),
        0x76 => entry(Mnemonic::Ror, AddressingMode::ZeroPageX),
        0x78 => entry(Mnemonic::Sei, AddressingMode::Implied),
        0x79 => entry(Mnemonic::Adc, AddressingMode::AbsoluteY),
        0x7D => entry(Mnemonic::Adc, AddressingMode::AbsoluteX),
        0x7E => entry(Mnemonic::Ror, AddressingMode::AbsoluteX),
        0x81 => entry(Mnemonic::Sta, AddressingMode::IndexedIndirect),
        0x84 => entry(Mnemonic::Sty, AddressingMode::ZeroPage),
        0x85 => entry(Mnemonic::Sta, AddressingMode::ZeroPage),
        0x86 => entry(Mnemonic::Stx, AddressingMode::ZeroPage),
        0x88 => entry(Mnemonic::Dey, AddressingMode::Implied),
        0x8A => entry(Mnemonic::Txa, AddressingMode::Implied),
        0x8C => entry(Mnemonic::Sty, AddressingMode::Absolute),
        0x8D => entry(Mnemonic::Sta, AddressingMode::Absolute),
        0x8E => entry(Mnemonic::Stx, AddressingMode::Absolute),
        0x90 => entry(Mnemonic::Bcc, AddressingMode::Relative),
        0x91 => entry(Mnemonic::Sta, AddressingMode::IndirectIndexed),
        0x94 => entry(Mnemonic::Sty, AddressingMode::ZeroPageX),
        0x95 => entry(Mnemonic::Sta, AddressingMode::ZeroPageX),
        0x96 => entry(Mnemonic::Stx, AddressingMode::ZeroPageY),
        0x98 => entry(Mnemonic::Tya, AddressingMode::Implied),
        0x99 => entry(Mnemonic::Sta, AddressingMode::AbsoluteY),
        0x9A => entry(Mnemonic::Txs, AddressingMode::Implied),
        0x9D => entry(Mnemonic::Sta, AddressingMode::AbsoluteX),
        0xA0 => entry(Mnemonic::Ldy, AddressingMode::Immediate),
        0xA1 => entry(Mnemonic::Lda, AddressingMode::IndexedIndirect),
        0xA2 => entry(Mnemonic::Ldx, AddressingMode::Immediate),
        0xA4 => entry(Mnemonic::Ldy, AddressingMode::ZeroPage),
        0xA5 => entry(Mnemonic::Lda, AddressingMode::ZeroPage),
        0xA6 => entry(Mnemonic::Ldx, AddressingMode::ZeroPage),
        0xA8 => entry(Mnemonic::Tay, AddressingMode::Implied),
        0xA9 => entry(Mnemonic::Lda, AddressingMode::Immediate),
        0xAA => entry(Mnemonic::Tax, AddressingMode::Implied),
        0xAC => entry(Mnemonic::Ldy, AddressingMode::Absolute),
        0xAD => entry(Mnemonic::Lda, AddressingMode::Absolute),
        0xAE => entry(Mnemonic::Ldx, AddressingMode::Absolute),
        0xB0 => entry(Mnemonic::Bcs, AddressingMode::Relative),
        0xB1 => entry(Mnemonic::Lda, AddressingMode::IndirectIndexed),
        0xB4 => entry(Mnemonic::Ldy, AddressingMode::ZeroPageX),
        0xB5 => entry(Mnemonic::Lda, AddressingMode::ZeroPageX),
        0xB6 => entry(Mnemonic::Ldx, AddressingMode::ZeroPageY),
        0xB8 => entry(Mnemonic::Clv, AddressingMode::Implied),
        0xB9 => entry(Mnemonic::Lda, AddressingMode::AbsoluteY),
        0xBA => entry(Mnemonic::Tsx, AddressingMode::Implied),
        0xBC => entry(Mnemonic::Ldy, AddressingMode::AbsoluteX),
        0xBD => entry(Mnemonic::Lda, AddressingMode::AbsoluteX),
        0xBE => entry(Mnemonic::Ldx, AddressingMode::AbsoluteY),
        0xC0 => entry(Mnemonic::Cpy, AddressingMode::Immediate),
        0xC1 => entry(Mnemonic::Cmp, AddressingMode::IndexedIndirect),
        0xC4 => entry(Mnemonic::Cpy, AddressingMode::ZeroPage),
        0xC5 => entry(Mnemonic::Cmp, AddressingMode::ZeroPage),
        0xC6 => entry(Mnemonic::Dec, AddressingMode::ZeroPage),
        0xC8 => entry(Mnemonic::Iny, AddressingMode::Implied),
        0xC9 => entry(Mnemonic::Cmp, AddressingMode::Immediate),
        0xCA => entry(Mnemonic::Dex, AddressingMode::Implied),
        0xCC => entry(Mnemonic::Cpy, AddressingMode::Absolute),
        0xCD => entry(Mnemonic::Cmp, AddressingMode::Absolute),
        0xCE => entry(Mnemonic::Dec, AddressingMode::Absolute),
        0xD0 => entry(Mnemonic::Bne, AddressingMode::Relative),
        0xD1 => entry(Mnemonic::Cmp, AddressingMode::IndirectIndexed),
        0xD5 => entry(Mnemonic::Cmp, AddressingMode::ZeroPageX),
        0xD6 => entry(Mnemonic::Dec, AddressingMode::ZeroPageX),
        0xD8 => entry(Mnemonic::Cld, AddressingMode::Implied),
        0xD9 => entry(Mnemonic::Cmp, AddressingMode::AbsoluteY),
        0xDD => entry(Mnemonic::Cmp, AddressingMode::AbsoluteX),
        0xDE => entry(Mnemonic::Dec, AddressingMode::AbsoluteX),
        0xE0 => entry(Mnemonic::Cpx, AddressingMode::Immediate),
        0xE1 => entry(Mnemonic::Sbc, AddressingMode::IndexedIndirect),
        0xE4 => entry(Mnemonic::Cpx, AddressingMode::ZeroPage),
        0xE5 => entry(Mnemonic::Sbc, AddressingMode::ZeroPage),
        0xE6 => entry(Mnemonic::Inc, AddressingMode::ZeroPage),
        0xE8 => entry(Mnemonic::Inx, AddressingMode::Implied),
        0xE9 => entry(Mnemonic::Sbc, AddressingMode::Immediate),
        0xEA => entry(Mnemonic::Nop, AddressingMode::Implied),
        0xEC => entry(Mnemonic::Cpx, AddressingMode::Absolute),
        0xED => entry(Mnemonic::Sbc, AddressingMode::Absolute),
        0xEE => entry(Mnemonic::Inc, AddressingMode::Absolute),
        0xF0 => entry(Mnemonic::Beq, AddressingMode::Relative),
        0xF1 => entry(Mnemonic::Sbc, AddressingMode::IndirectIndexed),
        0xF5 => entry(Mnemonic::Sbc, AddressingMode::ZeroPageX),
        0xF6 => entry(Mnemonic::Inc, AddressingMode::ZeroPageX),
        0xF8 => entry(Mnemonic::Sed, AddressingMode::Implied),
        0xF9 => entry(Mnemonic::Sbc, AddressingMode::AbsoluteY),
        0xFD => entry(Mnemonic::Sbc, AddressingMode::AbsoluteX),
        0xFE => entry(Mnemonic::Inc, AddressingMode::AbsoluteX),
        _ => OpcodeEntry::Undefined,
    }
}

/// The table is the instruction set read backwards: a byte is the opcode of
/// an operation in a mode exactly where the byte's entry is that operation in
/// that mode.
pub proof fn lemma_table_inverts_encoding(mnemonic: Mnemonic, mode: AddressingMode, byte: u8)
    ensures
        encoding(mnemonic, mode) == Some(byte) <==> entry_for(byte) == defined(mnemonic, mode),
{
}

/// No two instructions share an opcode.
pub proof fn lemma_encoding_is_injective(
    m1: Mnemonic,
    mode1: AddressingMode,
    m2: Mnemonic,
    mode2: AddressingMode,
)
    requires
        encoding(m1, mode1) is Some,
        encoding(m1, mode1) == encoding(m2, mode2),
    ensures
        m1 == m2,
        mode1 == mode2,
{
    let byte = encoding(m1, mode1)->Some_0;
    lemma_table_inverts_encoding(m1, mode1, byte);
    lemma_table_inverts_encoding(m2, mode2, byte);
}

/// A byte's entry is `Undefined` exactly where no instruction has the byte
/// for its opcode.
pub proof fn lemma_undefined_has_no_encoding(byte: u8)
    ensures
        entry_for(byte) == OpcodeEntry::Undefined <==> forall|m: Mnemonic, mode: AddressingMode|
            encoding(m, mode) != Some(byte),
{
    assert forall|m: Mnemonic, mode: AddressingMode|
        entry_for(byte) == OpcodeEntry::Undefined implies encoding(m, mode) != Some(byte) by {
        lemma_table_inverts_encoding(m, mode, byte);
    }
    match entry_for(byte) {
        OpcodeEntry::Defined { mnemonic, mode } => {
            lemma_table_inverts_encoding(mnemonic, mode, byte);
        },
        OpcodeEntry::Undefined => {},
    }
}

/// In the table, an operation that takes no operand has the addressing mode
/// `Implied`, and no other operation has it.
pub proof fn lemma_operand_free_is_implied(byte: u8)
    ensures
        match entry_for(byte) {
            OpcodeEntry::Defined { mnemonic, mode } => mnemonic.spec_takes_operand() <==> mode
                != AddressingMode::Implied,
            OpcodeEntry::Undefined => true,
        },
{
}

/// In the table, the branches and nothing else are `Relative`, and only a
/// jump is `Indirect`.
pub proof fn lemma_relative_and_indirect(byte: u8)
    ensures
        match entry_for(byte) {
            OpcodeEntry::Defined { mnemonic, mode } => {
                &&& mode == AddressingMode::Relative <==> mnemonic.is_branch()
                &&& mode == AddressingMode::Indirect ==> mnemonic == Mnemonic::Jmp
            },
            OpcodeEntry::Undefined => true,
        },
{
}

/// No opcode is followed by more than two operand bytes.
pub proof fn lemma_operand_len_at_most_two(byte: u8)
    ensures
        entry_for(byte).spec_operand_len() <= 2,
{
}

} // verus!

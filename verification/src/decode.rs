//! Decoding one instruction from a byte source.

use vstd::prelude::*;
use crate::dispatch::dispatch;
use crate::error::DecodeError;
use crate::interp::{Instruction, InterpretInstruction};
use crate::mode::AddressingMode;
use crate::operand::{address, address_of, offset, operand_from, Operand};
use crate::stream::{after, ByteStream};
use crate::table::{
    defined, entry_for, lemma_operand_free_is_implied, lemma_operand_len_at_most_two, lookup,
    OpcodeEntry,
};

verus! {

/// What reading an operand of `mode` from `bytes` gives: the operand, or
/// `StreamExhausted` where `bytes` is too short.
pub open spec fn operand_read(mode: AddressingMode, bytes: Seq<u8>) -> Result<
    Operand,
    DecodeError,
> {
    if bytes.len() >= mode.spec_operand_len() {
        Ok(operand_from(mode, bytes))
    } else {
        Err(DecodeError::StreamExhausted)
    }
}

/// What decoding the instruction at the front of `bytes` gives.
pub open spec fn decoded(bytes: Seq<u8>) -> Result<Instruction, DecodeError> {
    if bytes.len() == 0 {
        Err(DecodeError::StreamExhausted)
    } else {
        match entry_for(bytes[0]) {
            OpcodeEntry::Undefined => Err(DecodeError::UndefinedOpcode(bytes[0])),
            OpcodeEntry::Defined { mnemonic, mode } => match operand_read(mode, bytes.skip(1)) {
                Ok(operand) => Ok(Instruction { mnemonic, operand }),
                Err(e) => Err(e),
            },
        }
    }
}

/// The number of bytes that belong to the instruction at the front of
/// `bytes`: the opcode and its operand bytes. An undefined opcode stands
/// alone.
pub open spec fn instruction_len(bytes: Seq<u8>) -> nat {
    if bytes.len() == 0 {
        0
    } else {
        1 + entry_for(bytes[0]).spec_operand_len()
    }
}

/// When decoding succeeds and how it fails: it succeeds exactly where the
/// opcode is documented and all its operand bytes are there; it is
/// `UndefinedOpcode` exactly where the opcode is not documented, and then it
/// carries the opcode; it is `StreamExhausted` exactly where the bytes end
/// before the instruction does; and it is nothing else.
pub proof fn lemma_decoded_outcomes(bytes: Seq<u8>)
    ensures
        decoded(bytes) is Ok <==> bytes.len() > 0 && entry_for(bytes[0]) is Defined && bytes.len()
            >= instruction_len(bytes),
        decoded(bytes) == Err::<Instruction, DecodeError>(DecodeError::StreamExhausted)
            <==> bytes.len() == 0 || bytes.len() < instruction_len(bytes),
        forall|b: u8|
            decoded(bytes) == Err::<Instruction, DecodeError>(DecodeError::UndefinedOpcode(b))
                <==> bytes.len() > 0 && bytes[0] == b && entry_for(b) == OpcodeEntry::Undefined,
        decoded(bytes) != Err::<Instruction, DecodeError>(DecodeError::UnsupportedAddressingMode),
{
}

/// A decoded instruction is what the table says of its opcode: it has the
/// entry's mnemonic, its operand has the entry's mode, and it reaches the
/// consumer as it is.
pub proof fn lemma_decoded_follows_table(bytes: Seq<u8>)
    requires
        decoded(bytes) is Ok,
    ensures
        entry_for(bytes[0]) == defined(
            decoded(bytes)->Ok_0.mnemonic,
            decoded(bytes)->Ok_0.operand.spec_mode(),
        ),
        decoded(bytes)->Ok_0.delivered() == decoded(bytes)->Ok_0,
{
    lemma_operand_free_is_implied(bytes[0]);
}

/// An instruction is one to three bytes long.
pub proof fn lemma_instruction_len_bounds(bytes: Seq<u8>)
    requires
        bytes.len() > 0,
    ensures
        1 <= instruction_len(bytes) <= 3,
{
    lemma_operand_len_at_most_two(bytes[0]);
}

/// Decoding reads the instruction's own bytes and no others: what follows
/// them does not change the result.
pub proof fn lemma_decoded_reads_own_bytes(bytes: Seq<u8>)
    requires
        bytes.len() >= instruction_len(bytes),
    ensures
        decoded(bytes.take(instruction_len(bytes) as int)) == decoded(bytes),
        instruction_len(bytes.take(instruction_len(bytes) as int)) == instruction_len(bytes),
{
    if bytes.len() > 0 {
        let own = bytes.take(instruction_len(bytes) as int);
        assert(own[0] == bytes[0]);
        if instruction_len(bytes) >= 2 {
            assert(own.skip(1)[0] == bytes.skip(1)[0]);
        }
        if instruction_len(bytes) >= 3 {
            assert(own.skip(1)[1] == bytes.skip(1)[1]);
        }
    }
}

/// Taking `m` bytes and then `n` more is taking `m + n`.
proof fn lemma_after_after(bytes: Seq<u8>, m: nat, n: nat)
    ensures
        after(after(bytes, m), n) == after(bytes, m + n),
{
    assert(after(after(bytes, m), n) =~= after(bytes, m + n));
}

/// Reads the operand bytes of `mode` from `source` and builds the operand.
///
/// The bytes are taken one at a time. Where the source ends before the
/// operand is complete, the bytes taken so far are gone: the source is left
/// at its end.
pub fn read_operand<S: ByteStream>(mode: AddressingMode, source: &mut S) -> (r: Result<
    Operand,
    DecodeError,
>)
    ensures
        r == operand_read(mode, old(source).remaining()),
        final(source).remaining() == after(old(source).remaining(), mode.spec_operand_len()),
{
    let ghost bytes = source.remaining();
    proof {
        lemma_after_after(bytes, 1, 1);
        assert(after(bytes, 0) =~= bytes);
    }
    match mode {
        AddressingMode::Implied => Ok(Operand::Implied),
        AddressingMode::Accumulator => Ok(Operand::Accumulator),
        AddressingMode::Immediate => match source.next() {
            Ok(b) => Ok(Operand::Immediate(b)),
            Err(_) => Err(DecodeError::StreamExhausted),
        },
        AddressingMode::ZeroPage => match source.next() {
            Ok(b) => Ok(Operand::ZeroPage(b)),
            Err(_) => Err(DecodeError::StreamExhausted),
        },
        AddressingMode::ZeroPageX => match source.next() {
            Ok(b) => Ok(Operand::ZeroPageX(b)),
            Err(_) => Err(DecodeError::StreamExhausted),
        },
        AddressingMode::ZeroPageY => match source.next() {
            Ok(b) => Ok(Operand::ZeroPageY(b)),
            Err(_) => Err(DecodeError::StreamExhausted),
        },
        AddressingMode::IndexedIndirect => match source.next() {
            Ok(b) => Ok(Operand::IndexedIndirect(b)),
            Err(_) => Err(DecodeError::StreamExhausted),
        },
        AddressingMode::IndirectIndexed => match source.next() {
            Ok(b) => Ok(Operand::IndirectIndexed(b)),
            Err(_) => Err(DecodeError::StreamExhausted),
        },
        AddressingMode::Relative => match source.next() {
            Ok(b) => Ok(Operand::Relative(offset(b))),
            Err(_) => Err(DecodeError::StreamExhausted),
        },
        AddressingMode::Absolute => match read_address(source) {
            Ok(a) => Ok(Operand::Absolute(a)),
            Err(e) => Err(e),
        },
        AddressingMode::AbsoluteX => match read_address(source) {
            Ok(a) => Ok(Operand::AbsoluteX(a)),
            Err(e) => Err(e),
        },
        AddressingMode::AbsoluteY => match read_address(source) {
            Ok(a) => Ok(Operand::AbsoluteY(a)),
            Err(e) => Err(e),
        },
        AddressingMode::Indirect => match read_address(source) {
            Ok(a) => Ok(Operand::Indirect(a)),
            Err(e) => Err(e),
        },
    }
}

/// Reads a two-byte address from `source`, low byte first.
fn read_address<S: ByteStream>(source: &mut S) -> (r: Result<u16, DecodeError>)
    ensures
        old(source).remaining().len() >= 2 ==> r == Ok::<u16, DecodeError>(
            address_of(old(source).remaining()[0], old(source).remaining()[1]),
        ),
        old(source).remaining().len() < 2 ==> r == Err::<u16, DecodeError>(
            DecodeError::StreamExhausted,
        ),
        final(source).remaining() == after(old(source).remaining(), 2),
{
    proof {
        lemma_after_after(source.remaining(), 1, 1);
    }
    let low = match source.next() {
        Ok(b) => b,
        Err(_) => {
            return Err(DecodeError::StreamExhausted);
        },
    };
    let high = match source.next() {
        Ok(b) => b,
        Err(_) => {
            return Err(DecodeError::StreamExhausted);
        },
    };
    Ok(address(low, high))
}

/// Decodes the instruction at the front of `source` and hands it to `interp`.
///
/// One opcode byte is read and looked up in the opcode table; the operand
/// bytes of its addressing mode are read; then the one method of `interp`
/// that belongs to the mnemonic is called, and its result is returned as it
/// is. Where decoding fails, no method of `interp` is called: an undefined
/// opcode is reported with its byte and nothing after it is read, and a
/// source that ends inside the instruction gives `StreamExhausted`.
pub fn decode_instruction<S: ByteStream, I: InterpretInstruction>(
    source: &mut S,
    interp: &mut I,
) -> (r: Result<I::Output, DecodeError>)
    ensures
        final(source).remaining() == after(
            old(source).remaining(),
            instruction_len(old(source).remaining()),
        ),
        match decoded(old(source).remaining()) {
            Ok(instruction) => r matches Ok(out) && I::executes(
                *old(interp),
                instruction,
                *final(interp),
                out,
            ),
            Err(e) => r == Err::<I::Output, DecodeError>(e) && *final(interp) == *old(interp),
        },
{
    let ghost bytes = source.remaining();
    let opcode = match source.next() {
        Ok(b) => b,
        Err(_) => {
            proof {
                assert(after(bytes, 0) =~= bytes);
            }
            return Err(DecodeError::StreamExhausted);
        },
    };
    match lookup(opcode) {
        OpcodeEntry::Undefined => Err(DecodeError::UndefinedOpcode(opcode)),
        OpcodeEntry::Defined { mnemonic, mode } => {
            proof {
                lemma_after_after(bytes, 1, mode.spec_operand_len());
                lemma_operand_free_is_implied(opcode);
            }
            match read_operand(mode, source) {
                Ok(operand) => Ok(dispatch(Instruction { mnemonic, operand }, interp)),
                Err(e) => Err(e),
            }
        },
    }
}

} // verus!

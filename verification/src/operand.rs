//! Decoded operands and the protocol that hands them to a consumer.

use vstd::prelude::*;
use crate::error::DecodeError;
use crate::mode::AddressingMode;

verus! {

/// A decoded operand: an addressing mode together with what it carries.
#[derive(Clone, Copy, Debug, PartialEq, Eq, Structural)]
pub enum Operand {
    /// No operand.
    Implied,
    /// The accumulator.
    Accumulator,
    /// A literal byte.
    Immediate(u8),
    /// A zero-page index.
    ZeroPage(u8),
    /// A zero-page index, to which X is added.
    ZeroPageX(u8),
    /// A zero-page index, to which Y is added.
    ZeroPageY(u8),
    /// An address.
    Absolute(u16),
    /// An address, to which X is added.
    AbsoluteX(u16),
    /// An address, to which Y is added.
    AbsoluteY(u16),
    /// The address of the target address.
    Indirect(u16),
    /// A zero-page index, to which X is added before it is dereferenced.
    IndexedIndirect(u8),
    /// A zero-page index, dereferenced before Y is added.
    IndirectIndexed(u8),
    /// A signed distance from the address of the next instruction.
    Relative(i8),
}

impl Operand {
    /// The addressing mode of this operand.
    pub open spec fn spec_mode(self) -> AddressingMode {
        match self {
            Operand::Implied => AddressingMode::Implied,
            Operand::Accumulator => AddressingMode::Accumulator,
            Operand::Immediate(_) => AddressingMode::Immediate,
            Operand::ZeroPage(_) => AddressingMode::ZeroPage,
            Operand::ZeroPageX(_) => AddressingMode::ZeroPageX,
            Operand::ZeroPageY(_) => AddressingMode::ZeroPageY,
            Operand::Absolute(_) => AddressingMode::Absolute,
            Operand::AbsoluteX(_) => AddressingMode::AbsoluteX,
            Operand::AbsoluteY(_) => AddressingMode::AbsoluteY,
            Operand::Indirect(_) => AddressingMode::Indirect,
            Operand::IndexedIndirect(_) => AddressingMode::IndexedIndirect,
            Operand::IndirectIndexed(_) => AddressingMode::IndirectIndexed,
            Operand::Relative(_) => AddressingMode::Relative,
        }
    }

    /// The addressing mode of this operand.
    pub fn mode(&self) -> (m: AddressingMode)
        ensures
            m == self.spec_mode(),
    {
        match self {
            Operand::Implied => AddressingMode::Implied,
            Operand::Accumulator => AddressingMode::Accumulator,
            Operand::Immediate(_) => AddressingMode::Immediate,
            Operand::ZeroPage(_) => AddressingMode::ZeroPage,
            Operand::ZeroPageX(_) => AddressingMode::ZeroPageX,
            Operand::ZeroPageY(_) => AddressingMode::ZeroPageY,
            Operand::Absolute(_) => AddressingMode::Absolute,
            Operand::AbsoluteX(_) => AddressingMode::AbsoluteX,
            Operand::AbsoluteY(_) => AddressingMode::AbsoluteY,
            Operand::Indirect(_) => AddressingMode::Indirect,
            Operand::IndexedIndirect(_) => AddressingMode::IndexedIndirect,
            Operand::IndirectIndexed(_) => AddressingMode::IndirectIndexed,
            Operand::Relative(_) => AddressingMode::Relative,
        }
    }
}

/// The address that two operand bytes give: the low byte comes first.
pub open spec fn address_of(low: u8, high: u8) -> u16 {
    (low as int + 256 * (high as int)) as u16
}

/// The signed distance that an operand byte gives, read as two's complement.
pub open spec fn offset_of(byte: u8) -> i8 {
    if byte < 128 {
        byte as i8
    } else {
        (byte as int - 256) as i8
    }
}

/// The operand that the bytes after an opcode give under `mode`. Only the
/// first `mode.spec_operand_len()` of them are read.
pub open spec fn operand_from(mode: AddressingMode, bytes: Seq<u8>) -> Operand
    recommends
        bytes.len() >= mode.spec_operand_len(),
{
    match mode {
        AddressingMode::Implied => Operand::Implied,
        AddressingMode::Accumulator => Operand::Accumulator,
        AddressingMode::Immediate => Operand::Immediate(bytes[0]),
        AddressingMode::ZeroPage => Operand::ZeroPage(bytes[0]),
        AddressingMode::ZeroPageX => Operand::ZeroPageX(bytes[0]),
        AddressingMode::ZeroPageY => Operand::ZeroPageY(bytes[0]),
        AddressingMode::Absolute => Operand::Absolute(address_of(bytes[0], bytes[1])),
        AddressingMode::AbsoluteX => Operand::AbsoluteX(address_of(bytes[0], bytes[1])),
        AddressingMode::AbsoluteY => Operand::AbsoluteY(address_of(bytes[0], bytes[1])),
        AddressingMode::Indirect => Operand::Indirect(address_of(bytes[0], bytes[1])),
        AddressingMode::IndexedIndirect => Operand::IndexedIndirect(bytes[0]),
        AddressingMode::IndirectIndexed => Operand::IndirectIndexed(bytes[0]),
        AddressingMode::Relative => Operand::Relative(offset_of(bytes[0])),
    }
}

/// An operand built for a mode has that mode.
pub proof fn lemma_operand_has_its_mode(mode: AddressingMode, bytes: Seq<u8>)
    ensures
        operand_from(mode, bytes).spec_mode() == mode,
{
}

/// An address holds its two bytes: the first in its low half, the second in
/// its high half.
pub proof fn lemma_address_holds_its_bytes(low: u8, high: u8)
    ensures
        address_of(low, high) % 256 == low,
        address_of(low, high) / 256 == high,
{
}

/// A signed distance and its byte differ by nothing or by 256.
pub proof fn lemma_offset_is_twos_complement(byte: u8)
    ensures
        -128 <= offset_of(byte) <= 127,
        byte < 128 ==> offset_of(byte) == byte,
        byte >= 128 ==> offset_of(byte) == byte - 256,
{
}

/// Combines two operand bytes, low byte first, into an address.
pub fn address(low: u8, high: u8) -> (a: u16)
    ensures
        a == address_of(low, high),
        a == low as u16 | (high as u16) << 8,
{
    let l: u16 = low as u16;
    let h: u16 = high as u16;
    assert((l | h << 8) == l + 256 * h) by (bit_vector)
        requires
            l < 256,
            h < 256,
    ;
    l | h << 8
}

/// Reads an operand byte as a signed distance.
pub fn offset(byte: u8) -> (o: i8)
    ensures
        o == offset_of(byte),
{
    if byte < 128 {
        byte as i8
    } else {
        (byte as i16 - 256) as i8
    }
}

/// A consumer of operands, with one method for each addressing mode.
///
/// A method that a consumer does not write itself signals
/// `UnsupportedAddressingMode`. What a consumer makes of an operand that it
/// does handle is its own affair, which it states in `yields`: a method can
/// succeed only with an output that `yields` admits for its operand.
pub trait InterpretArg: Sized {
    /// What the consumer makes of an operand.
    type Output;

    /// Whether `out` is what this consumer makes of `operand`. A consumer
    /// that does not say so itself makes nothing of any operand: each of its
    /// methods can only signal `UnsupportedAddressingMode`.
    open spec fn yields(self, operand: Operand, out: Self::Output) -> bool {
        false
    }

    /// No operand.
    fn implied(self) -> (r: Result<Self::Output, DecodeError>)
        ensures
            r matches Ok(out) ==> self.yields(Operand::Implied, out),
            r matches Err(e) ==> e == DecodeError::UnsupportedAddressingMode,
    {
        Err(DecodeError::UnsupportedAddressingMode)
    }

    /// The accumulator: `A`.
    fn accumulator(self) -> (r: Result<Self::Output, DecodeError>)
        ensures
            r matches Ok(out) ==> self.yields(Operand::Accumulator, out),
            r matches Err(e) ==> e == DecodeError::UnsupportedAddressingMode,
    {
        Err(DecodeError::UnsupportedAddressingMode)
    }

    /// A constant value: `#aa`.
    fn immediate(self, val: u8) -> (r: Result<Self::Output, DecodeError>)
        ensures
            r matches Ok(out) ==> self.yields(Operand::Immediate(val), out),
            r matches Err(e) ==> e == DecodeError::UnsupportedAddressingMode,
    {
        Err(DecodeError::UnsupportedAddressingMode)
    }

    /// An index within the zero page: `aa`.
    fn zero_page(self, index: u8) -> (r: Result<Self::Output, DecodeError>)
        ensures
            r matches Ok(out) ==> self.yields(Operand::ZeroPage(index), out),
            r matches Err(e) ==> e == DecodeError::UnsupportedAddressingMode,
    {
        Err(DecodeError::UnsupportedAddressingMode)
    }

    /// An index within the zero page, plus the X register: `aa,X`.
    fn zero_page_x(self, index: u8) -> (r: Result<Self::Output, DecodeError>)
        ensures
            r matches Ok(out) ==> self.yields(Operand::ZeroPageX(index), out),
            r matches Err(e) ==> e == DecodeError::UnsupportedAddressingMode,
    {
        Err(DecodeError::UnsupportedAddressingMode)
    }

    /// An index within the zero page, plus the Y register: `aa,Y`.
    fn zero_page_y(self, index: u8) -> (r: Result<Self::Output, DecodeError>)
        ensures
            r matches Ok(out) ==> self.yields(Operand::ZeroPageY(index), out),
            r matches Err(e) ==> e == DecodeError::UnsupportedAddressingMode,
    {
        Err(DecodeError::UnsupportedAddressingMode)
    }

    /// A constant address: `aaaa`.
    fn absolute(self, addr: u16) -> (r: Result<Self::Output, DecodeError>)
        ensures
            r matches Ok(out) ==> self.yields(Operand::Absolute(addr), out),
            r matches Err(e) ==> e == DecodeError::UnsupportedAddressingMode,
    {
        Err(DecodeError::UnsupportedAddressingMode)
    }

    /// A constant address, plus the X register: `aaaa,X`.
    fn absolute_x(self, addr: u16) -> (r: Result<Self::Output, DecodeError>)
        ensures
            r matches Ok(out) ==> self.yields(Operand::AbsoluteX(addr), out),
            r matches Err(e) ==> e == DecodeError::UnsupportedAddressingMode,
    {
        Err(DecodeError::UnsupportedAddressingMode)
    }

    /// A constant address, plus the Y register: `aaaa,Y`.
    fn absolute_y(self, addr: u16) -> (r: Result<Self::Output, DecodeError>)
        ensures
            r matches Ok(out) ==> self.yields(Operand::AbsoluteY(addr), out),
            r matches Err(e) ==> e == DecodeError::UnsupportedAddressingMode,
    {
        Err(DecodeError::UnsupportedAddressingMode)
    }

    /// A constant address, dereferenced: `(aaaa)`.
    fn indirect(self, addr: u16) -> (r: Result<Self::Output, DecodeError>)
        ensures
            r matches Ok(out) ==> self.yields(Operand::Indirect(addr), out),
            r matches Err(e) ==> e == DecodeError::UnsupportedAddressingMode,
    {
        Err(DecodeError::UnsupportedAddressingMode)
    }

    /// An index within the zero page, plus the X register, dereferenced:
    /// `(aa,X)`.
    fn indexed_indirect(self, index: u8) -> (r: Result<Self::Output, DecodeError>)
        ensures
            r matches Ok(out) ==> self.yields(Operand::IndexedIndirect(index), out),
            r matches Err(e) ==> e == DecodeError::UnsupportedAddressingMode,
    {
        Err(DecodeError::UnsupportedAddressingMode)
    }

    /// An index within the zero page, dereferenced, plus the Y register:
    /// `(aa),Y`.
    fn indirect_indexed(self, index: u8) -> (r: Result<Self::Output, DecodeError>)
        ensures
            r matches Ok(out) ==> self.yields(Operand::IndirectIndexed(index), out),
            r matches Err(e) ==> e == DecodeError::UnsupportedAddressingMode,
    {
        Err(DecodeError::UnsupportedAddressingMode)
    }

    /// A signed distance from the address of the next instruction.
    fn relative(self, offset: i8) -> (r: Result<Self::Output, DecodeError>)
        ensures
            r matches Ok(out) ==> self.yields(Operand::Relative(offset), out),
            r matches Err(e) ==> e == DecodeError::UnsupportedAddressingMode,
    {
        Err(DecodeError::UnsupportedAddressingMode)
    }
}

/// What holds of the result `r` of handing `operand` to `interp`: either the
/// consumer made `r` of exactly that operand, or it does not handle the
/// operand's mode and said so.
pub open spec fn handled<I: InterpretArg>(
    interp: I,
    operand: Operand,
    r: Result<I::Output, DecodeError>,
) -> bool {
    match r {
        Ok(out) => interp.yields(operand, out),
        Err(e) => e == DecodeError::UnsupportedAddressingMode,
    }
}

/// Whether `r` is a result of the one method of `interp` that belongs to the
/// mode of `operand`, called with what `operand` carries.
pub open spec fn returned_by<I: InterpretArg>(
    interp: I,
    operand: Operand,
    r: Result<I::Output, DecodeError>,
) -> bool {
    match operand {
        Operand::Implied => call_ensures(I::implied, (interp,), r),
        Operand::Accumulator => call_ensures(I::accumulator, (interp,), r),
        Operand::Immediate(val) => call_ensures(I::immediate, (interp, val), r),
        Operand::ZeroPage(index) => call_ensures(I::zero_page, (interp, index), r),
        Operand::ZeroPageX(index) => call_ensures(I::zero_page_x, (interp, index), r),
        Operand::ZeroPageY(index) => call_ensures(I::zero_page_y, (interp, index), r),
        Operand::Absolute(addr) => call_ensures(I::absolute, (interp, addr), r),
        Operand::AbsoluteX(addr) => call_ensures(I::absolute_x, (interp, addr), r),
        Operand::AbsoluteY(addr) => call_ensures(I::absolute_y, (interp, addr), r),
        Operand::Indirect(addr) => call_ensures(I::indirect, (interp, addr), r),
        Operand::IndexedIndirect(index) => call_ensures(I::indexed_indirect, (interp, index), r),
        Operand::IndirectIndexed(index) => call_ensures(I::indirect_indexed, (interp, index), r),
        Operand::Relative(offset) => call_ensures(I::relative, (interp, offset), r),
    }
}

/// An operand that can hand itself to any consumer of operands.
pub trait Arg {
    /// The operand that this value stands for.
    spec fn operand(&self) -> Operand;

    /// Hands the operand to `interp`, through the one method that belongs to
    /// the operand's addressing mode, and returns what that method returned.
    fn interpret<I: InterpretArg>(&self, interp: I) -> (r: Result<I::Output, DecodeError>)
        ensures
            returned_by(interp, self.operand(), r),
            handled(interp, self.operand(), r),
    ;
}

impl Arg for Operand {
    open spec fn operand(&self) -> Operand {
        *self
    }

    fn interpret<I: InterpretArg>(&self, interp: I) -> (r: Result<I::Output, DecodeError>) {
        match *self {
            Operand::Implied => interp.implied(),
            Operand::Accumulator => interp.accumulator(),
            Operand::Immediate(val) => interp.immediate(val),
            Operand::ZeroPage(index) => interp.zero_page(index),
            Operand::ZeroPageX(index) => interp.zero_page_x(index),
            Operand::ZeroPageY(index) => interp.zero_page_y(index),
            Operand::Absolute(addr) => interp.absolute(addr),
            Operand::AbsoluteX(addr) => interp.absolute_x(addr),
            Operand::AbsoluteY(addr) => interp.absolute_y(addr),
            Operand::Indirect(addr) => interp.indirect(addr),
            Operand::IndexedIndirect(index) => interp.indexed_indirect(index),
            Operand::IndirectIndexed(index) => interp.indirect_indexed(index),
            Operand::Relative(offset) => interp.relative(offset),
        }
    }
}

} // verus!

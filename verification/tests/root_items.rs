use decode6502::error::DecodeError;
use decode6502::operand::Operand;
use decode6502::stream::MemoryStream;
use decode6502::{decode_instruction, Arg, ByteStream, InterpretArg, InterpretInstruction};

/// A consumer that counts the instructions it is handed, and the bytes of
/// their operands.
struct Counter {
    instructions: usize,
    operand_bytes: usize,
}

/// The number of operand bytes behind an operand, through the methods that
/// this consumer handles.
struct Width;

impl InterpretArg for Width {
    type Output = usize;

    fn accumulator(self) -> Result<usize, DecodeError> {
        Ok(0)
    }

    fn immediate(self, _val: u8) -> Result<usize, DecodeError> {
        Ok(1)
    }

    fn zero_page(self, _index: u8) -> Result<usize, DecodeError> {
        Ok(1)
    }

    fn absolute(self, _addr: u16) -> Result<usize, DecodeError> {
        Ok(2)
    }
}

impl Counter {
    fn count<A: Arg>(&mut self, arg: A) -> Result<(), DecodeError> {
        let width = arg.interpret(Width)?;
        self.instructions += 1;
        self.operand_bytes += width;
        Ok(())
    }

    fn count_bare(&mut self) -> Result<(), DecodeError> {
        self.instructions += 1;
        Ok(())
    }
}

impl InterpretInstruction for Counter {
    type Output = Result<(), DecodeError>;

    fn lda<A: Arg>(&mut self, arg: A) -> Self::Output { self.count(arg) }
    fn ldx<A: Arg>(&mut self, arg: A) -> Self::Output { self.count(arg) }
    fn ldy<A: Arg>(&mut self, arg: A) -> Self::Output { self.count(arg) }
    fn sta<A: Arg>(&mut self, arg: A) -> Self::Output { self.count(arg) }
    fn stx<A: Arg>(&mut self, arg: A) -> Self::Output { self.count(arg) }
    fn sty<A: Arg>(&mut self, arg: A) -> Self::Output { self.count(arg) }
    fn adc<A: Arg>(&mut self, arg: A) -> Self::Output { self.count(arg) }
    fn sbc<A: Arg>(&mut self, arg: A) -> Self::Output { self.count(arg) }
    fn inc<A: Arg>(&mut self, arg: A) -> Self::Output { self.count(arg) }
    fn inx(&mut self) -> Self::Output { self.count_bare() }
    fn iny(&mut self) -> Self::Output { self.count_bare() }
    fn dec<A: Arg>(&mut self, arg: A) -> Self::Output { self.count(arg) }
    fn dex(&mut self) -> Self::Output { self.count_bare() }
    fn dey(&mut self) -> Self::Output { self.count_bare() }
    fn and<A: Arg>(&mut self, arg: A) -> Self::Output { self.count(arg) }
    fn ora<A: Arg>(&mut self, arg: A) -> Self::Output { self.count(arg) }
    fn eor<A: Arg>(&mut self, arg: A) -> Self::Output { self.count(arg) }
    fn jmp<A: Arg>(&mut self, arg: A) -> Self::Output { self.count(arg) }
    fn jsr<A: Arg>(&mut self, arg: A) -> Self::Output { self.count(arg) }
    fn rti(&mut self) -> Self::Output { self.count_bare() }
    fn rts(&mut self) -> Self::Output { self.count_bare() }
    fn bcc<A: Arg>(&mut self, arg: A) -> Self::Output { self.count(arg) }
    fn bcs<A: Arg>(&mut self, arg: A) -> Self::Output { self.count(arg) }
    fn beq<A: Arg>(&mut self, arg: A) -> Self::Output { self.count(arg) }
    fn bne<A: Arg>(&mut self, arg: A) -> Self::Output { self.count(arg) }
    fn bmi<A: Arg>(&mut self, arg: A) -> Self::Output { self.count(arg) }
    fn bpl<A: Arg>(&mut self, arg: A) -> Self::Output { self.count(arg) }
    fn bvs<A: Arg>(&mut self, arg: A) -> Self::Output { self.count(arg) }
    fn bvc<A: Arg>(&mut self, arg: A) -> Self::Output { self.count(arg) }
    fn brk(&mut self) -> Self::Output { self.count_bare() }
    fn cmp<A: Arg>(&mut self, arg: A) -> Self::Output { self.count(arg) }
    fn cpx<A: Arg>(&mut self, arg: A) -> Self::Output { self.count(arg) }
    fn cpy<A: Arg>(&mut self, arg: A) -> Self::Output { self.count(arg) }
    fn bit<A: Arg>(&mut self, arg: A) -> Self::Output { self.count(arg) }
    fn asl<A: Arg>(&mut self, arg: A) -> Self::Output { self.count(arg) }
    fn lsr<A: Arg>(&mut self, arg: A) -> Self::Output { self.count(arg) }
    fn rol<A: Arg>(&mut self, arg: A) -> Self::Output { self.count(arg) }
    fn ror<A: Arg>(&mut self, arg: A) -> Self::Output { self.count(arg) }
    fn tax(&mut self) -> Self::Output { self.count_bare() }
    fn tay(&mut self) -> Self::Output { self.count_bare() }
    fn txa(&mut self) -> Self::Output { self.count_bare() }
    fn tya(&mut self) -> Self::Output { self.count_bare() }
    fn txs(&mut self) -> Self::Output { self.count_bare() }
    fn tsx(&mut self) -> Self::Output { self.count_bare() }
    fn pha(&mut self) -> Self::Output { self.count_bare() }
    fn pla(&mut self) -> Self::Output { self.count_bare() }
    fn php(&mut self) -> Self::Output { self.count_bare() }
    fn plp(&mut self) -> Self::Output { self.count_bare() }
    fn clc(&mut self) -> Self::Output { self.count_bare() }
    fn cld(&mut self) -> Self::Output { self.count_bare() }
    fn cli(&mut self) -> Self::Output { self.count_bare() }
    fn clv(&mut self) -> Self::Output { self.count_bare() }
    fn sec(&mut self) -> Self::Output { self.count_bare() }
    fn sed(&mut self) -> Self::Output { self.count_bare() }
    fn sei(&mut self) -> Self::Output { self.count_bare() }
    fn nop(&mut self) -> Self::Output { self.count_bare() }
}

#[test]
fn a_partial_consumer_counts_what_it_handles() {
    // LDA #$01; STA $10; ASL A; JMP $C000; NOP
    let mut source = MemoryStream::new(vec![0xA9, 0x01, 0x85, 0x10, 0x0A, 0x4C, 0x00, 0xC0, 0xEA]);
    let mut counter = Counter { instructions: 0, operand_bytes: 0 };
    for _ in 0..5 {
        assert_eq!(decode_instruction(&mut source, &mut counter), Ok(Ok(())));
    }
    assert_eq!(counter.instructions, 5);
    assert_eq!(counter.operand_bytes, 4);
    assert_eq!(source.position(), 9);
    assert_eq!(source.next(), Err(DecodeError::StreamExhausted));
}

#[test]
fn an_unsupported_mode_comes_back_through_the_consumer() {
    // LDA $1234,X
    let mut source = MemoryStream::new(vec![0xBD, 0x34, 0x12]);
    let mut counter = Counter { instructions: 0, operand_bytes: 0 };
    assert_eq!(
        decode_instruction(&mut source, &mut counter),
        Ok(Err(DecodeError::UnsupportedAddressingMode))
    );
    assert_eq!(counter.instructions, 0);
    assert_eq!(source.position(), 3);
}

#[test]
fn an_operand_is_an_arg() {
    assert_eq!(Operand::Immediate(0x7F).interpret(Width), Ok(1));
    assert_eq!(Operand::Relative(-2).interpret(Width), Err(DecodeError::UnsupportedAddressingMode));
}

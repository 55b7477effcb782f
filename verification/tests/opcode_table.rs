use decode6502::mnemonic::Mnemonic;
use decode6502::mode::AddressingMode;
use decode6502::operand::{address, offset};
use decode6502::table::{lookup, OpcodeEntry};

#[test]
fn every_byte_has_an_entry() {
    let mut defined = 0;
    let mut undefined = 0;
    for byte in 0..=255u8 {
        match lookup(byte) {
            OpcodeEntry::Defined { mode, .. } => {
                defined += 1;
                assert!(lookup(byte).operand_len() <= 2);
                assert_eq!(lookup(byte).operand_len(), mode.operand_len());
            }
            OpcodeEntry::Undefined => {
                undefined += 1;
                assert_eq!(lookup(byte).operand_len(), 0);
            }
        }
    }
    assert_eq!(defined, 151);
    assert_eq!(undefined, 105);
}

#[test]
fn known_entries() {
    assert_eq!(
        lookup(0xA9),
        OpcodeEntry::Defined { mnemonic: Mnemonic::Lda, mode: AddressingMode::Immediate }
    );
    assert_eq!(
        lookup(0xAD),
        OpcodeEntry::Defined { mnemonic: Mnemonic::Lda, mode: AddressingMode::Absolute }
    );
    assert_eq!(
        lookup(0x4C),
        OpcodeEntry::Defined { mnemonic: Mnemonic::Jmp, mode: AddressingMode::Absolute }
    );
    assert_eq!(
        lookup(0x6C),
        OpcodeEntry::Defined { mnemonic: Mnemonic::Jmp, mode: AddressingMode::Indirect }
    );
    assert_eq!(
        lookup(0xE8),
        OpcodeEntry::Defined { mnemonic: Mnemonic::Inx, mode: AddressingMode::Implied }
    );
    assert_eq!(
        lookup(0x00),
        OpcodeEntry::Defined { mnemonic: Mnemonic::Brk, mode: AddressingMode::Implied }
    );
    assert_eq!(
        lookup(0x0A),
        OpcodeEntry::Defined { mnemonic: Mnemonic::Asl, mode: AddressingMode::Accumulator }
    );
    assert_eq!(
        lookup(0xB6),
        OpcodeEntry::Defined { mnemonic: Mnemonic::Ldx, mode: AddressingMode::ZeroPageY }
    );
    assert_eq!(
        lookup(0x91),
        OpcodeEntry::Defined { mnemonic: Mnemonic::Sta, mode: AddressingMode::IndirectIndexed }
    );
    assert_eq!(
        lookup(0xC1),
        OpcodeEntry::Defined { mnemonic: Mnemonic::Cmp, mode: AddressingMode::IndexedIndirect }
    );
    assert_eq!(
        lookup(0xD0),
        OpcodeEntry::Defined { mnemonic: Mnemonic::Bne, mode: AddressingMode::Relative }
    );
    assert_eq!(lookup(0x02), OpcodeEntry::Undefined);
    assert_eq!(lookup(0xFF), OpcodeEntry::Undefined);
    assert_eq!(lookup(0x80), OpcodeEntry::Undefined);
}

#[test]
fn indirect_belongs_to_jmp_and_relative_to_branches() {
    for byte in 0..=255u8 {
        if let OpcodeEntry::Defined { mnemonic, mode } = lookup(byte) {
            let branch = matches!(
                mnemonic,
                Mnemonic::Bcc
                    | Mnemonic::Bcs
                    | Mnemonic::Beq
                    | Mnemonic::Bne
                    | Mnemonic::Bmi
                    | Mnemonic::Bpl
                    | Mnemonic::Bvs
                    | Mnemonic::Bvc
            );
            assert_eq!(mode == AddressingMode::Relative, branch);
            if mode == AddressingMode::Indirect {
                assert_eq!(mnemonic, Mnemonic::Jmp);
            }
            assert_eq!(mnemonic.takes_operand(), mode != AddressingMode::Implied);
        }
    }
}

#[test]
fn operand_lengths() {
    assert_eq!(AddressingMode::Implied.operand_len(), 0);
    assert_eq!(AddressingMode::Accumulator.operand_len(), 0);
    assert_eq!(AddressingMode::Immediate.operand_len(), 1);
    assert_eq!(AddressingMode::ZeroPage.operand_len(), 1);
    assert_eq!(AddressingMode::ZeroPageX.operand_len(), 1);
    assert_eq!(AddressingMode::ZeroPageY.operand_len(), 1);
    assert_eq!(AddressingMode::IndexedIndirect.operand_len(), 1);
    assert_eq!(AddressingMode::IndirectIndexed.operand_len(), 1);
    assert_eq!(AddressingMode::Relative.operand_len(), 1);
    assert_eq!(AddressingMode::Absolute.operand_len(), 2);
    assert_eq!(AddressingMode::AbsoluteX.operand_len(), 2);
    assert_eq!(AddressingMode::AbsoluteY.operand_len(), 2);
    assert_eq!(AddressingMode::Indirect.operand_len(), 2);
}

#[test]
fn address_takes_the_low_byte_first() {
    assert_eq!(address(0x34, 0x12), 0x1234);
    assert_eq!(address(0x00, 0x20), 0x2000);
    assert_eq!(address(0xFF, 0x00), 0x00FF);
    assert_eq!(address(0xFF, 0xFF), 0xFFFF);
    assert_eq!(address(0x00, 0x00), 0x0000);
}

#[test]
fn offset_is_twos_complement() {
    assert_eq!(offset(0x00), 0);
    assert_eq!(offset(0x02), 2);
    assert_eq!(offset(0x7F), 127);
    assert_eq!(offset(0x80), -128);
    assert_eq!(offset(0xFE), -2);
    assert_eq!(offset(0xFF), -1);
}

use nesru::cpu::cpu::AddressingMode;
use nesru::cpu::opinfo::{decode, Mnemonic, OpInfo};

#[test]
fn the_decode_table_holds_exactly_the_151_documented_opcodes() {
    let mut count = 0;
    for op in 0..=255u8 {
        if let Some((_, info)) = decode(op) {
            count += 1;
            assert!(1 <= info.bytes && info.bytes <= 3, "opcode {:#04X}", op);
            assert!(2 <= info.cycles && info.cycles <= 7, "opcode {:#04X}", op);
        }
    }
    assert_eq!(count, 151);
}

#[test]
fn a_few_well_known_entries_decode_as_expected() {
    assert_eq!(
        decode(0x69),
        Some((Mnemonic::Adc, OpInfo { mode: AddressingMode::Immediate, cycles: 2, bytes: 2 })),
    );
    assert_eq!(
        decode(0x30),
        Some((Mnemonic::Bmi, OpInfo { mode: AddressingMode::Relative, cycles: 2, bytes: 2 })),
    );
    assert_eq!(
        decode(0x6C),
        Some((Mnemonic::Jmp, OpInfo { mode: AddressingMode::Indirect, cycles: 5, bytes: 3 })),
    );
    assert_eq!(
        decode(0x96),
        Some((Mnemonic::Stx, OpInfo { mode: AddressingMode::ZeroPageY, cycles: 4, bytes: 2 })),
    );
    assert_eq!(
        decode(0x00),
        Some((Mnemonic::Brk, OpInfo { mode: AddressingMode::Implicit, cycles: 7, bytes: 1 })),
    );
    assert_eq!(decode(0x02), None);
    assert_eq!(decode(0xFF), None);
}

#[test]
fn every_transfer_and_flag_opcode_is_one_byte() {
    for op in [0xAA, 0xA8, 0xBA, 0x8A, 0x9A, 0x98, 0x18, 0x38, 0x58, 0x78, 0xB8, 0xD8, 0xF8u8] {
        let (_, info) = decode(op).unwrap();
        assert_eq!(info.bytes, 1);
        assert_eq!(info.cycles, 2);
    }
}

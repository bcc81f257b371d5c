use nesru::cpu::cpu::CPU;
use nesru::cpu::status_register::StatusRegisterBits;
use nesru::memory::Memory;

fn fresh_at(pc: u16) -> (CPU, Memory) {
    let mut cpu = CPU::new();
    let mut mem = Memory::new();
    cpu.powerup(&mut mem);
    cpu.program_counter = pc;
    (cpu, mem)
}

#[test]
fn flag_positions_match_the_packed_layout() {
    assert_eq!(StatusRegisterBits::CarryFlag.position(), 0);
    assert_eq!(StatusRegisterBits::ZeroFlag.position(), 1);
    assert_eq!(StatusRegisterBits::InterruptDisable.position(), 2);
    assert_eq!(StatusRegisterBits::DecimalMode.position(), 3);
    assert_eq!(StatusRegisterBits::BreakCommand.position(), 4);
    assert_eq!(StatusRegisterBits::UnusedBit.position(), 5);
    assert_eq!(StatusRegisterBits::OverflowFlag.position(), 6);
    assert_eq!(StatusRegisterBits::NegativeFlag.position(), 7);
}

#[test]
fn logic_ops_combine_the_accumulator_with_the_operand() {
    let (mut cpu, mut mem) = fresh_at(0x0200);
    cpu.accumulator = 0b1100;
    mem.write(0x0200, 0x29); // AND #$0A
    mem.write(0x0201, 0x0A);
    mem.write(0x0202, 0x09); // ORA #$21
    mem.write(0x0203, 0x21);
    mem.write(0x0204, 0x49); // EOR #$FF
    mem.write(0x0205, 0xFF);

    let _ = cpu.step(&mut mem);
    assert_eq!(cpu.accumulator, 0b1000);
    let _ = cpu.step(&mut mem);
    assert_eq!(cpu.accumulator, 0x29);
    let _ = cpu.step(&mut mem);
    assert_eq!(cpu.accumulator, 0xD6);
    assert_eq!(cpu.status_register.negative_flag, true);
    assert_eq!(cpu.status_register.zero_flag, false);
}

#[test]
fn loads_and_stores_move_through_every_register() {
    let (mut cpu, mut mem) = fresh_at(0x0200);
    mem.write(0x0200, 0xA2); // LDX #$11
    mem.write(0x0201, 0x11);
    mem.write(0x0202, 0xA0); // LDY #$22
    mem.write(0x0203, 0x22);
    mem.write(0x0204, 0x86); // STX $40
    mem.write(0x0205, 0x40);
    mem.write(0x0206, 0x84); // STY $41
    mem.write(0x0207, 0x41);
    for _ in 0..4 {
        let _ = cpu.step(&mut mem);
    }
    assert_eq!(mem.read(0x40), 0x11);
    assert_eq!(mem.read(0x41), 0x22);
    assert_eq!(cpu.program_counter, 0x0208);
}

#[test]
fn transfers_copy_registers_and_set_flags() {
    let (mut cpu, mut mem) = fresh_at(0x0200);
    cpu.accumulator = 0x80;
    mem.write(0x0200, 0xAA); // TAX
    mem.write(0x0201, 0xA8); // TAY
    mem.write(0x0202, 0x9A); // TXS
    mem.write(0x0203, 0xBA); // TSX

    let _ = cpu.step(&mut mem);
    assert_eq!(cpu.index_x, 0x80);
    assert_eq!(cpu.status_register.negative_flag, true);
    let _ = cpu.step(&mut mem);
    assert_eq!(cpu.index_y, 0x80);
    let _ = cpu.step(&mut mem);
    assert_eq!(cpu.stack_pointer, 0x80);
    cpu.index_x = 0;
    let _ = cpu.step(&mut mem);
    assert_eq!(cpu.index_x, 0x80);
}

#[test]
fn tya_and_txa_load_the_accumulator() {
    let (mut cpu, mut mem) = fresh_at(0x0200);
    cpu.index_y = 0x00;
    mem.write(0x0200, 0x98); // TYA
    mem.write(0x0201, 0x8A); // TXA
    let _ = cpu.step(&mut mem);
    assert_eq!(cpu.accumulator, 0x00);
    assert_eq!(cpu.status_register.zero_flag, true);
    cpu.index_x = 0x7F;
    let _ = cpu.step(&mut mem);
    assert_eq!(cpu.accumulator, 0x7F);
    assert_eq!(cpu.status_register.zero_flag, false);
}

#[test]
fn increments_and_decrements_wrap_and_set_flags() {
    let (mut cpu, mut mem) = fresh_at(0x0200);
    cpu.index_x = 0xFF;
    cpu.index_y = 0x00;
    mem.write(0x0200, 0xE8); // INX
    mem.write(0x0201, 0x88); // DEY
    mem.write(0x0202, 0xC6); // DEC $30
    mem.write(0x0203, 0x30);
    mem.write(0x0030, 0x00);

    let _ = cpu.step(&mut mem);
    assert_eq!(cpu.index_x, 0x00);
    assert_eq!(cpu.status_register.zero_flag, true);
    let _ = cpu.step(&mut mem);
    assert_eq!(cpu.index_y, 0xFF);
    assert_eq!(cpu.status_register.negative_flag, true);
    let _ = cpu.step(&mut mem);
    assert_eq!(mem.read(0x0030), 0xFF);
}

#[test]
fn pha_and_pla_round_trip_the_accumulator() {
    let (mut cpu, mut mem) = fresh_at(0x0200);
    cpu.accumulator = 0x99;
    mem.write(0x0200, 0x48); // PHA
    mem.write(0x0201, 0xA9); // LDA #$00
    mem.write(0x0202, 0x00);
    mem.write(0x0203, 0x68); // PLA

    let cycles_before = cpu.cycles;
    let _ = cpu.step(&mut mem);
    let _ = cpu.step(&mut mem);
    assert_eq!(cpu.accumulator, 0x00);
    let _ = cpu.step(&mut mem);
    assert_eq!(cpu.accumulator, 0x99);
    assert_eq!(cpu.status_register.negative_flag, true);
    assert_eq!(cpu.stack_pointer, 0xFD);
    assert_eq!(cpu.cycles - cycles_before, 3 + 2 + 4);
}

#[test]
fn rti_restores_flags_and_the_program_counter() {
    let (mut cpu, mut mem) = fresh_at(0x0200);
    // hand-build an interrupt frame: PC $1234, flags byte $FF
    cpu.push16(&mut mem, 0x1234);
    cpu.push(&mut mem, 0xFF);
    mem.write(0x0200, 0x40); // RTI

    let _ = cpu.step(&mut mem);

    assert_eq!(cpu.program_counter, 0x1234);
    assert_eq!(cpu.status_register.carry_flag, true);
    assert_eq!(cpu.status_register.negative_flag, true);
    // the break and unused bits of the pulled byte are ignored
    assert_eq!(cpu.status_register.break_command, false);
    assert_eq!(cpu.status_register.unused_bit, false);
    assert_eq!(cpu.stack_pointer, 0xFD);
}

#[test]
fn flag_instructions_toggle_exactly_their_flag() {
    let (mut cpu, mut mem) = fresh_at(0x0200);
    let program: [u8; 7] = [0x38, 0xF8, 0x78, 0x18, 0xD8, 0x58, 0xB8];
    for (i, b) in program.iter().enumerate() {
        mem.write(0x0200 + i as u16, *b);
    }
    let _ = cpu.step(&mut mem); // SEC
    assert_eq!(cpu.status_register.carry_flag, true);
    let _ = cpu.step(&mut mem); // SED
    assert_eq!(cpu.status_register.decimal_mode, true);
    let _ = cpu.step(&mut mem); // SEI
    assert_eq!(cpu.status_register.interrupt_disable, true);
    let _ = cpu.step(&mut mem); // CLC
    assert_eq!(cpu.status_register.carry_flag, false);
    let _ = cpu.step(&mut mem); // CLD
    assert_eq!(cpu.status_register.decimal_mode, false);
    let _ = cpu.step(&mut mem); // CLI
    assert_eq!(cpu.status_register.interrupt_disable, false);
    cpu.status_register.overflow_flag = true;
    let _ = cpu.step(&mut mem); // CLV
    assert_eq!(cpu.status_register.overflow_flag, false);
    assert_eq!(cpu.program_counter, 0x0207);
}

#[test]
fn lsr_and_rol_move_bits_through_the_carry() {
    let (mut cpu, mut mem) = fresh_at(0x0200);
    mem.write(0x0200, 0x46); // LSR $20
    mem.write(0x0201, 0x20);
    mem.write(0x0020, 0x05);
    mem.write(0x0202, 0x26); // ROL $20
    mem.write(0x0203, 0x20);

    let _ = cpu.step(&mut mem);
    assert_eq!(mem.read(0x0020), 0x02);
    assert_eq!(cpu.status_register.carry_flag, true);

    let _ = cpu.step(&mut mem);
    assert_eq!(mem.read(0x0020), 0x05); // shifted back, carry refilled
    assert_eq!(cpu.status_register.carry_flag, false);
}

#[test]
fn absolute_indexed_reads_pay_the_page_cross_penalty() {
    let (mut cpu, mut mem) = fresh_at(0x0200);
    cpu.index_y = 0x10;
    mem.write(0x0200, 0xB9); // LDA $04F8,Y: crosses into page 5
    mem.write(0x0201, 0xF8);
    mem.write(0x0202, 0x04);
    mem.write(0x0508, 0x66);

    let cycles_before = cpu.cycles;
    let _ = cpu.step(&mut mem);
    assert_eq!(cpu.accumulator, 0x66);
    assert_eq!(cpu.cycles - cycles_before, 5);

    // the same read without a crossing costs the base four cycles
    cpu.program_counter = 0x0200;
    cpu.index_y = 0x01;
    mem.write(0x04F9, 0x55);
    let cycles_before = cpu.cycles;
    let _ = cpu.step(&mut mem);
    assert_eq!(cpu.accumulator, 0x55);
    assert_eq!(cpu.cycles - cycles_before, 4);
}

#[test]
fn sta_indexed_never_pays_the_page_cross_penalty() {
    let (mut cpu, mut mem) = fresh_at(0x0200);
    cpu.accumulator = 0x42;
    cpu.index_x = 0x10;
    mem.write(0x0200, 0x9D); // STA $04F8,X: crosses into page 5
    mem.write(0x0201, 0xF8);
    mem.write(0x0202, 0x04);

    let cycles_before = cpu.cycles;
    let _ = cpu.step(&mut mem);
    assert_eq!(mem.read(0x0508), 0x42);
    assert_eq!(cpu.cycles - cycles_before, 5);
}

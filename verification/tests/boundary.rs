use nesru::cpu::cpu::{CpuError, CPU};
use nesru::memory::Memory;

fn fresh() -> (CPU, Memory) {
    let mut cpu = CPU::new();
    let mut mem = Memory::new();
    cpu.powerup(&mut mem);
    (cpu, mem)
}

#[test]
fn zero_page_indexed_load_wraps_within_page_zero() {
    let (mut cpu, mut mem) = fresh();
    cpu.program_counter = 0x0200;
    cpu.index_x = 0x02;
    mem.write(0x0200, 0xB5); // LDA $FF,X
    mem.write(0x0201, 0xFF);
    mem.write(0x0001, 0x77); // the wrapped address
    mem.write(0x0101, 0x55); // the address a 16-bit add would reach

    let _ = cpu.step(&mut mem);

    assert_eq!(cpu.accumulator, 0x77);
    assert_eq!(cpu.program_counter, 0x0202);
}

#[test]
fn indirect_jmp_fetches_high_byte_from_the_pointer_page() {
    let (mut cpu, mut mem) = fresh();
    cpu.program_counter = 0x0200;
    mem.write(0x0200, 0x6C); // JMP ($03FF)
    mem.write(0x0201, 0xFF);
    mem.write(0x0202, 0x03);
    mem.write(0x03FF, 0x34); // low byte of the target
    mem.write(0x0300, 0x12); // high byte comes from $0300, not $0400
    mem.write(0x0400, 0x99);

    let cycles_before = cpu.cycles;
    let _ = cpu.step(&mut mem);

    assert_eq!(cpu.program_counter, 0x1234);
    assert_eq!(cpu.cycles - cycles_before, 5);
}

#[test]
fn taken_branch_crossing_a_page_costs_one_extra_cycle() {
    let (mut cpu, mut mem) = fresh();
    cpu.status_register.zero_flag = false;
    cpu.program_counter = 0x00F0;
    mem.write(0x00F0, 0xD0); // BNE +0x7E
    mem.write(0x00F1, 0x7E);

    let cycles_before = cpu.cycles;
    let _ = cpu.step(&mut mem);

    assert_eq!(cpu.program_counter, 0x0170);
    assert_eq!(cpu.cycles - cycles_before, 4);
}

#[test]
fn relative_branch_displacement_is_signed() {
    let (mut cpu, mut mem) = fresh();
    cpu.status_register.negative_flag = true;
    cpu.program_counter = 0x0010;
    mem.write(0x0010, 0x30); // BMI -2: back to the branch itself
    mem.write(0x0011, 0xFE);

    let cycles_before = cpu.cycles;
    let _ = cpu.step(&mut mem);

    assert_eq!(cpu.program_counter, 0x0010);
    assert_eq!(cpu.cycles - cycles_before, 3);
}

#[test]
fn adc_carries_across_a_two_byte_add() {
    let (mut cpu, mut mem) = fresh();
    cpu.program_counter = 0x0200;
    let program: [u8; 12] = [
        0x18, // CLC
        0xA9, 0xFF, // LDA #$FF
        0x69, 0x01, // ADC #$01: low byte of $00FF + $0001
        0x85, 0x10, // STA $10
        0xA9, 0x00, // LDA #$00
        0x69, 0x00, // ADC #$00: high byte, carried in
        0x85, // STA $11 (operand written below)
    ];
    for (i, b) in program.iter().enumerate() {
        mem.write(0x0200 + i as u16, *b);
    }
    mem.write(0x020C, 0x11);
    for _ in 0..7 {
        let _ = cpu.step(&mut mem);
    }

    assert_eq!(mem.read(0x10), 0x00);
    assert_eq!(mem.read(0x11), 0x01); // the sum is $0100
}

#[test]
fn push_onto_a_full_stack_wraps_the_pointer() {
    let (mut cpu, mut mem) = fresh();
    cpu.stack_pointer = 0x00;
    cpu.push(&mut mem, 0x42);
    assert_eq!(cpu.stack_pointer, 0xFF);
    assert_eq!(mem.read(0x0100), 0x42);
}

#[test]
fn push_writes_into_the_stack_page() {
    let (mut cpu, mut mem) = fresh();
    cpu.stack_pointer = 0xAB;
    cpu.push(&mut mem, 0x42);
    assert_eq!(mem.read(0x0100 | 0xAB), 0x42);
    assert_eq!(cpu.stack_pointer, 0xAA);
}

#[test]
fn adc_sets_overflow_when_two_positives_sum_negative() {
    let (mut cpu, mut mem) = fresh();
    cpu.program_counter = 0x0200;
    cpu.accumulator = 0x50;
    mem.write(0x0200, 0x69); // ADC #$50
    mem.write(0x0201, 0x50);

    let _ = cpu.step(&mut mem);

    assert_eq!(cpu.accumulator, 0xA0);
    assert_eq!(cpu.status_register.overflow_flag, true);
    assert_eq!(cpu.status_register.negative_flag, true);
    assert_eq!(cpu.status_register.carry_flag, false);
}

#[test]
fn sbc_subtracts_with_the_borrow_clear() {
    let (mut cpu, mut mem) = fresh();
    cpu.program_counter = 0x0200;
    mem.write(0x0200, 0x38); // SEC
    mem.write(0x0201, 0xA9); // LDA #$05
    mem.write(0x0202, 0x05);
    mem.write(0x0203, 0xE9); // SBC #$03
    mem.write(0x0204, 0x03);
    for _ in 0..3 {
        let _ = cpu.step(&mut mem);
    }

    assert_eq!(cpu.accumulator, 0x02);
    assert_eq!(cpu.status_register.carry_flag, true);
    assert_eq!(cpu.status_register.zero_flag, false);
}

#[test]
fn asl_on_the_accumulator_moves_the_top_bit_to_carry() {
    let (mut cpu, mut mem) = fresh();
    cpu.program_counter = 0x0200;
    cpu.accumulator = 0x81;
    mem.write(0x0200, 0x0A); // ASL A

    let _ = cpu.step(&mut mem);

    assert_eq!(cpu.accumulator, 0x02);
    assert_eq!(cpu.status_register.carry_flag, true);
    assert_eq!(cpu.status_register.negative_flag, false);
}

#[test]
fn ror_on_the_accumulator_fills_from_the_carry() {
    let (mut cpu, mut mem) = fresh();
    cpu.program_counter = 0x0200;
    cpu.accumulator = 0x02;
    cpu.status_register.carry_flag = true;
    mem.write(0x0200, 0x6A); // ROR A

    let _ = cpu.step(&mut mem);

    assert_eq!(cpu.accumulator, 0x81);
    assert_eq!(cpu.status_register.carry_flag, false);
    assert_eq!(cpu.status_register.negative_flag, true);
}

#[test]
fn inc_wraps_memory_and_sets_zero() {
    let (mut cpu, mut mem) = fresh();
    cpu.program_counter = 0x0200;
    mem.write(0x0200, 0xE6); // INC $10
    mem.write(0x0201, 0x10);
    mem.write(0x0010, 0xFF);

    let _ = cpu.step(&mut mem);

    assert_eq!(mem.read(0x0010), 0x00);
    assert_eq!(cpu.status_register.zero_flag, true);
}

#[test]
fn jsr_pushes_the_return_point_and_rts_comes_back() {
    let (mut cpu, mut mem) = fresh();
    cpu.program_counter = 0x0200;
    mem.write(0x0200, 0x20); // JSR $0300
    mem.write(0x0201, 0x00);
    mem.write(0x0202, 0x03);
    mem.write(0x0300, 0x60); // RTS

    let cycles_before = cpu.cycles;
    let _ = cpu.step(&mut mem);
    assert_eq!(cpu.program_counter, 0x0300);
    assert_eq!(mem.read(0x01FD), 0x02); // high byte of $0202
    assert_eq!(mem.read(0x01FC), 0x02); // low byte of $0202

    let _ = cpu.step(&mut mem);
    assert_eq!(cpu.program_counter, 0x0203);
    assert_eq!(cpu.cycles - cycles_before, 12);
}

#[test]
fn non_jump_instructions_advance_pc_by_their_length() {
    let (mut cpu, mut mem) = fresh();
    cpu.program_counter = 0x0200;
    mem.write(0x0200, 0xEA); // NOP: 1 byte
    mem.write(0x0201, 0xA9); // LDA #$07: 2 bytes
    mem.write(0x0202, 0x07);
    mem.write(0x0203, 0x8D); // STA $0500: 3 bytes
    mem.write(0x0204, 0x00);
    mem.write(0x0205, 0x05);

    let _ = cpu.step(&mut mem);
    assert_eq!(cpu.program_counter, 0x0201);
    let _ = cpu.step(&mut mem);
    assert_eq!(cpu.program_counter, 0x0203);
    let _ = cpu.step(&mut mem);
    assert_eq!(cpu.program_counter, 0x0206);
    assert_eq!(mem.read(0x0500), 0x07);
}

#[test]
fn plp_then_php_forces_the_break_and_unused_bits() {
    let (mut cpu, mut mem) = fresh();
    cpu.stack_pointer = 0xFD;
    mem.write(0x01FE, 0x5A); // the byte PLP will pull
    cpu.program_counter = 0x0300;
    mem.write(0x0300, 0x28); // PLP
    mem.write(0x0301, 0x08); // PHP

    let _ = cpu.step(&mut mem);
    let _ = cpu.step(&mut mem);

    assert_eq!(cpu.stack_pointer, 0xFD);
    assert_eq!(mem.read(0x01FE), (0x5A & 0xCF) | 0x30);
}

#[test]
fn step_reports_an_undocumented_opcode_and_changes_nothing() {
    let (mut cpu, mut mem) = fresh();
    cpu.program_counter = 0x0200;
    mem.write(0x0200, 0x02); // not a documented opcode
    let cycles_before = cpu.cycles;

    let r = cpu.step(&mut mem);

    assert_eq!(r, Err(CpuError::UnimplementedOpcode(0x02, 0x0200)));
    assert_eq!(cpu.program_counter, 0x0200);
    assert_eq!(cpu.cycles, cycles_before);
}

#[test]
fn brk_pushes_state_and_jumps_through_the_interrupt_vector() {
    let (mut cpu, mut mem) = fresh();
    cpu.program_counter = 0x0200;
    mem.write(0x0200, 0x00); // BRK
    mem.write(0xFFFE, 0x00);
    mem.write(0xFFFF, 0x90);

    let cycles_before = cpu.cycles;
    let _ = cpu.step(&mut mem);

    assert_eq!(cpu.program_counter, 0x9000);
    assert_eq!(cpu.status_register.interrupt_disable, true);
    assert_eq!(cpu.stack_pointer, 0xFA);
    assert_eq!(mem.read(0x01FD), 0x02); // high byte of PC + 2
    assert_eq!(mem.read(0x01FC), 0x02); // low byte of PC + 2
    assert_eq!(mem.read(0x01FB) & 0x30, 0x30); // break and unused forced
    assert_eq!(cpu.cycles - cycles_before, 7);
}

#[test]
fn a_pending_nmi_is_serviced_before_the_next_fetch() {
    let (mut cpu, mut mem) = fresh();
    cpu.program_counter = 0x0200;
    cpu.nmi_pending = true;
    mem.write(0x0200, 0xEA); // would be a NOP, but the interrupt wins
    mem.write(0xFFFA, 0x00);
    mem.write(0xFFFB, 0x80);

    let cycles_before = cpu.cycles;
    let r = cpu.step(&mut mem);

    assert!(r.is_ok());
    assert_eq!(cpu.program_counter, 0x8000);
    assert_eq!(cpu.nmi_pending, false);
    assert_eq!(cpu.status_register.interrupt_disable, true);
    assert_eq!(cpu.stack_pointer, 0xFA);
    assert_eq!(cpu.cycles - cycles_before, 7);
    assert_eq!(mem.read(0x01FB) & 0x10, 0x00); // break bit pushed clear
}

#[test]
fn a_pending_irq_waits_while_interrupts_are_disabled() {
    let (mut cpu, mut mem) = fresh();
    cpu.program_counter = 0x0200;
    cpu.irq_pending = true;
    cpu.status_register.interrupt_disable = true;
    mem.write(0x0200, 0xEA); // NOP runs instead

    let _ = cpu.step(&mut mem);

    assert_eq!(cpu.program_counter, 0x0201);
    assert_eq!(cpu.irq_pending, true);

    cpu.status_register.interrupt_disable = false;
    mem.write(0xFFFE, 0x00);
    mem.write(0xFFFF, 0xA0);
    let _ = cpu.step(&mut mem);

    assert_eq!(cpu.program_counter, 0xA000);
    assert_eq!(cpu.irq_pending, false);
}

#[test]
fn cpx_and_cpy_compare_their_registers() {
    let (mut cpu, mut mem) = fresh();
    cpu.program_counter = 0x0200;
    cpu.index_x = 0x04;
    mem.write(0x0200, 0xE0); // CPX #$04
    mem.write(0x0201, 0x04);
    let _ = cpu.step(&mut mem);
    assert_eq!(cpu.status_register.carry_flag, true);
    assert_eq!(cpu.status_register.zero_flag, true);

    cpu.index_y = 0x01;
    mem.write(0x0202, 0xC0); // CPY #$02
    mem.write(0x0203, 0x02);
    let _ = cpu.step(&mut mem);
    assert_eq!(cpu.status_register.carry_flag, false);
    assert_eq!(cpu.status_register.zero_flag, false);
    assert_eq!(cpu.status_register.negative_flag, true);
}

#[test]
fn powerup_zeroes_the_apu_register_range() {
    let mut cpu = CPU::new();
    let mut mem = Memory::new();
    for a in 0x4000..=0x4017u16 {
        mem.write(a, 0xEE);
    }
    cpu.powerup(&mut mem);
    for a in 0x4000..=0x400Fu16 {
        assert_eq!(mem.read(a), 0x00);
    }
    assert_eq!(mem.read(0x4017), 0x00);
    assert_eq!(mem.read(0x4010), 0xEE); // outside the zeroed range
}

#[test]
fn the_cycle_counter_is_readable_and_monotone() {
    let (mut cpu, mut mem) = fresh();
    cpu.program_counter = 0x0200;
    mem.write(0x0200, 0xEA); // NOP
    let before = cpu.cycles();
    let r = cpu.step(&mut mem).unwrap();
    assert_eq!(cpu.cycles(), before + 2);
    assert_eq!(r.bytes_consumed, 1);
    assert_eq!(r.cycles_spent, 2);
}

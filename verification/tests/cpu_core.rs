use nesru::cpu::cpu::{AddressingMode, CPU};
use nesru::memory::Memory;

#[test]
fn it_works() {
    assert_eq!(2 + 2, 4);
}

#[test]
fn cpu_cpu_powerup_state() {
    let mut cpu = CPU::new();
    let mut mem = Memory::new();

    cpu.powerup(&mut mem);

    assert_eq!(cpu.accumulator, 0);
    assert_eq!(cpu.index_x, 0);
    assert_eq!(cpu.index_y, 0);
    assert_eq!(cpu.stack_pointer, 0xFD);

    assert_eq!(0x34, 52);
    assert_eq!(cpu.status_register.unused_bit, true);
    assert_eq!(cpu.status_register.break_command, true);
    assert_eq!(cpu.status_register.interrupt_disable, true);

    assert_eq!(cpu.status_register.carry_flag, false);
    assert_eq!(cpu.status_register.zero_flag, false);
    assert_eq!(cpu.status_register.decimal_mode, false);
    assert_eq!(cpu.status_register.overflow_flag, false);
    assert_eq!(cpu.status_register.negative_flag, false);

    // memory
    assert_eq!(mem.read(0x4017), 0);
}

#[test]
fn lib_cpu_powerup_state() {
    let mut cpu = CPU::new();
    let mut mem = Memory::new();

    cpu.powerup(&mut mem);

    assert_eq!(cpu.accumulator, 0);
    assert_eq!(cpu.index_x, 0);
    assert_eq!(cpu.index_y, 0);
    assert_eq!(cpu.stack_pointer, 0xFD);

    assert_eq!(0x34, 52);
    assert_eq!(cpu.status_register.unused_bit, true);
    assert_eq!(cpu.status_register.break_command, true);
    assert_eq!(cpu.status_register.interrupt_disable, true);

    assert_eq!(cpu.status_register.carry_flag, false);
    assert_eq!(cpu.status_register.zero_flag, false);
    assert_eq!(cpu.status_register.decimal_mode, false);
    assert_eq!(cpu.status_register.overflow_flag, false);
    assert_eq!(cpu.status_register.negative_flag, false);

    // memory
    assert_eq!(mem.read(0x4017), 0);
}

#[test]
fn cpu_cpu_reset_state() {
    let mut cpu = CPU::new();
    let mut mem = Memory::new();
    cpu.powerup(&mut mem);

    cpu.status_register.interrupt_disable = false;
    let sp_before = cpu.stack_pointer;
    println!("{}", sp_before);

    cpu.reset(&mut mem);

    assert_eq!(cpu.stack_pointer, sp_before - 3);
    assert_eq!(cpu.status_register.interrupt_disable, true);
    assert_eq!(mem.read(0x4015), 0);
}

#[test]
fn lib_cpu_reset_state() {
    let mut cpu = CPU::new();
    let mut mem = Memory::new();
    cpu.powerup(&mut mem);

    cpu.status_register.interrupt_disable = false;
    let sp_before = cpu.stack_pointer;
    println!("{}", sp_before);

    cpu.reset(&mut mem);

    assert_eq!(cpu.stack_pointer, sp_before - 3);
    assert_eq!(cpu.status_register.interrupt_disable, true);
    assert_eq!(mem.read(0x4015), 0);
}

#[test]
fn cpu_set_negative_true() {
    let mut cpu = CPU::new();

    cpu.accumulator = 0xFF;
    assert_eq!(cpu.status_register.negative_flag, false);
    let a = cpu.accumulator;
    cpu.update_negative_flag(a);
    assert_eq!(cpu.status_register.negative_flag, true);
}

#[test]
fn cpu_set_negative_false() {
    let mut cpu = CPU::new();

    cpu.accumulator = 0x00;
    assert_eq!(cpu.status_register.negative_flag, false);
    let a = cpu.accumulator;
    cpu.update_negative_flag(a);
    assert_eq!(cpu.status_register.negative_flag, false);
}

#[test]
fn test_addressing_absolute() {
    let mut cpu = CPU::new();
    let mut mem = Memory::new();

    cpu.powerup(&mut mem);
    cpu.program_counter = 0x0000;

    mem.write(0x0001, 0xFF);
    mem.write(0x0002, 0xAA);

    let result = cpu.get_address(&mem, AddressingMode::Absolute);
    let expected = Some(0xAAFF);

    assert_eq!(result, expected);
}

#[test]
fn test_addressing_absolute_x() {
    let mut cpu = CPU::new();
    let mut mem = Memory::new();

    cpu.powerup(&mut mem);
    cpu.program_counter = 0x0000;
    cpu.index_x = 0x02;

    mem.write(0x0001, 0xBB);
    mem.write(0x0002, 0xAA);

    let result = cpu.get_address(&mem, AddressingMode::AbsoluteX);
    let expected = Some(0xAABD);

    assert_eq!(result, expected);
}

#[test]
fn test_addressing_absolute_y() {
    let mut cpu = CPU::new();
    let mut mem = Memory::new();

    cpu.powerup(&mut mem);
    cpu.program_counter = 0x0000;
    cpu.index_y = 0x04;

    mem.write(0x0001, 0xBB);
    mem.write(0x0002, 0xAA);

    let result = cpu.get_address(&mem, AddressingMode::AbsoluteY);
    let expected = Some(0xAABF);

    assert_eq!(result, expected);
}

#[test]
fn test_addressing_indexed_indirect() {
    let mut cpu = CPU::new();
    let mut mem = Memory::new();

    cpu.powerup(&mut mem);
    cpu.program_counter = 0x0000;
    cpu.index_x = 0x04;

    mem.write(0x0001, 0xA0);
    mem.write(0x00A4, 0xF0);
    mem.write(0x00A5, 0xDA);

    let expected = Some(0xDAF0);
    let result = cpu.get_address(&mem, AddressingMode::IndexedIndirect);

    assert_eq!(result, expected);
}

#[test]
fn test_addressing_indirect_indexed() {
    let mut cpu = CPU::new();
    let mut mem = Memory::new();

    cpu.powerup(&mut mem);
    cpu.program_counter = 0x0000;
    cpu.index_y = 0x04;

    mem.write(0x0001, 0xA0);
    mem.write(0x00A0, 0xF0);
    mem.write(0x00A1, 0xDA);

    let expected = Some(0xDAF0 + 0x04);
    let result = cpu.get_address(&mem, AddressingMode::IndirectIndexed);

    assert_eq!(result, expected);
}

#[test]
fn test_read16() {
    let mut cpu = CPU::new();
    let mut mem = Memory::new();

    cpu.powerup(&mut mem);
    mem.write(0x0004, 0xAA);
    mem.write(0x0005, 0xCC);

    let result = cpu.read16(&mem, 0x0004);
    let expected = 0xAACC;
    assert_eq!(result, expected);
}

#[test]
fn test_bmi_opcode_30_do_branch_to_same_page() {
    let mut cpu = CPU::new();
    let mut mem = Memory::new();

    cpu.powerup(&mut mem);

    // set initial conditions
    cpu.status_register.negative_flag = true;
    cpu.program_counter = 0x05;
    mem.write(0x05, 0x30); // next operation is 0x30
    mem.write(0x06, 0x04); // relative displacement is 4
    let expected = 0x0B; // 0x05 + 2 + 4

    // execute
    let cycles_before = cpu.cycles;
    let _ = cpu.step(&mut mem);
    let cycles_after = cpu.cycles;

    // assert
    let result = cpu.program_counter;
    let cycles_spent = cycles_after - cycles_before;

    assert_eq!(result, expected);
    assert_eq!(cycles_spent, 3);
}

#[test]
fn test_bmi_opcode_30_do_branch_to_new_page() {
    let mut cpu = CPU::new();
    let mut mem = Memory::new();

    cpu.powerup(&mut mem);

    // set initial conditions
    cpu.status_register.negative_flag = true;
    cpu.program_counter = 0xEE;
    mem.write(0xEE, 0x30); // next operation is 0x30
    mem.write(0xEF, 0x20); // relative displacement is 0x20
    let expected = 0x0110; // 0xEE + 2 + 0x20, on the next page

    // execute
    let cycles_before = cpu.cycles;
    let _ = cpu.step(&mut mem);
    let cycles_after = cpu.cycles;

    // assert
    let result = cpu.program_counter;
    let cycles_spent = cycles_after - cycles_before;

    assert_eq!(result, expected);
    assert_eq!(cycles_spent, 4);
}

#[test]
fn test_bmi_opcode_30_no_branch() {
    let mut cpu = CPU::new();
    let mut mem = Memory::new();

    cpu.powerup(&mut mem);

    // set initial conditions
    cpu.status_register.negative_flag = false;
    cpu.program_counter = 0x05;
    mem.write(0x05, 0x30); // next operation is 0x30
    mem.write(0x06, 0x02); // relative displacement is 2
    let expected = 0x07; // expect program counter to have this value

    // execute
    let cycles_before = cpu.cycles;
    let _ = cpu.step(&mut mem);
    let cycles_after = cpu.cycles;

    // assert
    let result = cpu.program_counter;
    let cycles_spent = cycles_after - cycles_before;

    assert_eq!(result, expected);
    assert_eq!(cycles_spent, 2);
}

#[test]
fn test_bit_opcode_24() {
    let mut cpu = CPU::new();
    let mut mem = Memory::new();

    cpu.powerup(&mut mem);

    // set initial conditions
    cpu.program_counter = 0x05;
    mem.write(0x05, 0x24);
    mem.write(0x06, 0x00); // memory address is 0x00
    mem.write(0x00, 0b11000000);

    let cycles_before = cpu.cycles;
    let pc_before = cpu.program_counter;
    let _ = cpu.step(&mut mem);
    let cycles_after = cpu.cycles;
    let pc_after = cpu.program_counter;

    assert_eq!(cycles_after - cycles_before, 3);
    assert_eq!(pc_after - pc_before, 2);
    assert_eq!(cpu.status_register.overflow_flag, true);
    assert_eq!(cpu.status_register.negative_flag, true);
}

#[test]
#[allow(non_snake_case)]
fn test_instruction_cmp_with_opcode_C9() {
    let mut cpu = CPU::new();
    let mut mem = Memory::new();

    // a < m
    cpu.powerup(&mut mem);
    mem.write(cpu.program_counter, 0xC9);
    mem.write(cpu.program_counter + 1, 0x04);
    cpu.accumulator = 0x02;

    let _ = cpu.step(&mut mem);

    assert_eq!(cpu.status_register.carry_flag, false);
    assert_eq!(cpu.status_register.zero_flag, false);
    assert_eq!(cpu.status_register.negative_flag, true);

    // a > m
    cpu.powerup(&mut mem);
    mem.write(cpu.program_counter, 0xC9);
    mem.write(cpu.program_counter + 1, 0x04);
    cpu.accumulator = 0x06;

    let _ = cpu.step(&mut mem);

    assert_eq!(cpu.status_register.carry_flag, true);
    assert_eq!(cpu.status_register.zero_flag, false);
    assert_eq!(cpu.status_register.negative_flag, false);

    // a == m
    cpu.powerup(&mut mem);
    mem.write(cpu.program_counter, 0xC9);
    mem.write(cpu.program_counter + 1, 0x04);
    cpu.accumulator = 0x04;

    let _ = cpu.step(&mut mem);

    assert_eq!(cpu.status_register.carry_flag, true);
    assert_eq!(cpu.status_register.zero_flag, true);
    assert_eq!(cpu.status_register.negative_flag, false);
}

#[test]
fn test_push_and_pop() {
    let mut cpu = CPU::new();
    let mut mem = Memory::new();

    cpu.powerup(&mut mem);

    let sp_before = cpu.stack_pointer;
    cpu.push(&mut mem, 0x42);
    assert_eq!(cpu.stack_pointer, sp_before.wrapping_sub(1));

    assert_eq!(cpu.pop(&mut mem), 0x42);
    assert_eq!(cpu.stack_pointer, sp_before);
}

#[test]
fn test_push16_and_pop16() {
    let mut cpu = CPU::new();
    let mut mem = Memory::new();

    cpu.powerup(&mut mem);

    let sp_before = cpu.stack_pointer;
    cpu.push16(&mut mem, 0xAA42);
    assert_eq!(cpu.stack_pointer, sp_before.wrapping_sub(2));

    assert_eq!(cpu.pop16(&mut mem), 0xAA42);
    assert_eq!(cpu.stack_pointer, sp_before);
}

#[test]
fn test_cpu_display() {
    let mut cpu = CPU::new();
    cpu.accumulator = 0x01;
    cpu.stack_pointer = 0x02;
    cpu.program_counter = 0x03;
    cpu.index_x = 0x04;
    cpu.index_y = 0x05;

    let res = cpu.display();
    let exp = "CPU: a:0x01, s:0x02, p:0x03, x:0x04, y:0x05";

    assert_eq!(res, exp);
}

#[test]
fn test_optcode_0x69() {
    let mut cpu = CPU::new();
    let mut mem = Memory::new();

    cpu.powerup(&mut mem);
    cpu.program_counter = 0x69;
    let _ = cpu.step(&mut mem);
}

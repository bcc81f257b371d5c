//! The mathematical model of the processor: what each addressing mode
//! resolves to, what each instruction does to the register file and to
//! memory, and what one full step of the machine is. The executable
//! implementation is proved equal to these functions.

use vstd::prelude::*;

use crate::cpu::cpu::{AddressingMode, CPU};
use crate::cpu::opinfo::{pays_page_penalty, spec_decode, Mnemonic, OpInfo};
use crate::cpu::status_register::{
    spec_php_byte, spec_plp_restore, spec_to_u8, StatusRegister,
};
use crate::cpu::utils::spec_overflow_bit;
use crate::memory::spec_page_crossed;

verus! {

/// A value reduced to one byte, for sums and differences that stay within
/// one wraparound of the byte range.
pub open spec fn w8(v: int) -> u8 {
    if v >= 0x100 {
        (v - 0x100) as u8
    } else if v < 0 {
        (v + 0x100) as u8
    } else {
        v as u8
    }
}

/// A value reduced to one 16-bit word, for sums and differences that stay
/// within one wraparound of the word range.
pub open spec fn w16(v: int) -> u16 {
    if v >= 0x10000 {
        (v - 0x10000) as u16
    } else if v < 0 {
        (v + 0x10000) as u16
    } else {
        v as u16
    }
}

/// The byte stored at an address.
pub open spec fn mem_at(m: Seq<u8>, a: u16) -> u8 {
    m[a as int]
}

/// The 16-bit operand following the opcode: low byte first, as the 6502
/// stores addresses.
pub open spec fn spec_abs_operand(cpu: CPU, m: Seq<u8>) -> u16 {
    (mem_at(m, w16(cpu.program_counter + 2)) * 0x100 + mem_at(
        m,
        w16(cpu.program_counter + 1),
    )) as u16
}

/// Where the high byte of an indirect jump pointer is fetched from: the
/// increment wraps within the pointer's page, reproducing the hardware bug.
pub open spec fn spec_indirect_high_addr(p: u16) -> u16 {
    ((p / 0x100) * 0x100 + w8(p % 0x100 + 1)) as u16
}

/// The zero-page pointer a `(d),Y` instruction dereferences, before the Y
/// index is added; its second byte wraps within page zero.
pub open spec fn spec_indirect_indexed_base(cpu: CPU, m: Seq<u8>) -> u16 {
    let d = mem_at(m, w16(cpu.program_counter + 1));
    (mem_at(m, w8(d + 1) as u16) * 0x100 + mem_at(m, d as u16)) as u16
}

/// The target of a relative branch: the signed displacement added to the
/// address of the next instruction.
pub open spec fn spec_relative_target(pc: u16, d: u8) -> u16 {
    w16(
        pc + 2 + (if d < 0x80 {
            d as int
        } else {
            d - 0x100
        }),
    )
}

/// The effective address an addressing mode resolves to. The two modes
/// without a memory operand resolve to address zero; instructions never
/// consult it.
pub open spec fn spec_addr(mode: AddressingMode, cpu: CPU, m: Seq<u8>) -> u16 {
    let pc = cpu.program_counter;
    match mode {
        AddressingMode::Implicit => 0,
        AddressingMode::Accumulator => 0,
        AddressingMode::Immediate => w16(pc + 1),
        AddressingMode::ZeroPage => mem_at(m, w16(pc + 1)) as u16,
        AddressingMode::ZeroPageX => w8(mem_at(m, w16(pc + 1)) + cpu.index_x) as u16,
        AddressingMode::ZeroPageY => w8(mem_at(m, w16(pc + 1)) + cpu.index_y) as u16,
        AddressingMode::Relative => spec_relative_target(pc, mem_at(m, w16(pc + 1))),
        AddressingMode::Absolute => spec_abs_operand(cpu, m),
        AddressingMode::AbsoluteX => w16(spec_abs_operand(cpu, m) + cpu.index_x),
        AddressingMode::AbsoluteY => w16(spec_abs_operand(cpu, m) + cpu.index_y),
        AddressingMode::Indirect => {
            let p = spec_abs_operand(cpu, m);
            (mem_at(m, spec_indirect_high_addr(p)) * 0x100 + mem_at(m, p)) as u16
        },
        AddressingMode::IndexedIndirect => {
            let d = mem_at(m, w16(pc + 1));
            let p = w8(d + cpu.index_x);
            (mem_at(m, w8(p + 1) as u16) * 0x100 + mem_at(m, p as u16)) as u16
        },
        AddressingMode::IndirectIndexed => w16(
            spec_indirect_indexed_base(cpu, m) + cpu.index_y,
        ),
    }
}

/// What the addressing resolver reports: an effective address for every
/// mode that names a memory operand, nothing for the two that do not.
pub open spec fn spec_get_address(mode: AddressingMode, cpu: CPU, m: Seq<u8>) -> Option<u16> {
    match mode {
        AddressingMode::Implicit => None,
        AddressingMode::Accumulator => None,
        _ => Some(spec_addr(mode, cpu, m)),
    }
}

/// Whether resolving the mode crossed a page: an indexed sum whose high
/// byte differs from its base, or a branch target on another page than the
/// next instruction.
pub open spec fn spec_crossed(mode: AddressingMode, cpu: CPU, m: Seq<u8>) -> bool {
    match mode {
        AddressingMode::AbsoluteX => spec_page_crossed(
            spec_abs_operand(cpu, m),
            spec_addr(mode, cpu, m),
        ),
        AddressingMode::AbsoluteY => spec_page_crossed(
            spec_abs_operand(cpu, m),
            spec_addr(mode, cpu, m),
        ),
        AddressingMode::IndirectIndexed => spec_page_crossed(
            spec_indirect_indexed_base(cpu, m),
            spec_addr(mode, cpu, m),
        ),
        AddressingMode::Relative => spec_page_crossed(
            w16(cpu.program_counter + 2),
            spec_addr(mode, cpu, m),
        ),
        _ => false,
    }
}

/// The operand byte an instruction reads through its addressing mode.
pub open spec fn spec_operand(cpu: CPU, m: Seq<u8>, info: OpInfo) -> u8 {
    mem_at(m, spec_addr(info.mode, cpu, m))
}

/// A status register with the zero and negative flags taken from a result
/// byte, as every instruction that produces a value sets them.
pub open spec fn with_nz(s: StatusRegister, r: u8) -> StatusRegister {
    StatusRegister { zero_flag: r == 0, negative_flag: r >= 0x80, ..s }
}

/// A register file advanced past the instruction: the program counter moves
/// by the instruction length and the cycle counter by the base cost plus
/// any penalty.
pub open spec fn advanced(cpu: CPU, info: OpInfo, extra: int) -> CPU {
    CPU {
        program_counter: w16(cpu.program_counter + info.bytes),
        cycles: (cpu.cycles + info.cycles + extra) as u64,
        ..cpu
    }
}

/// The page-crossing penalty an instruction pays: one cycle, where the
/// mnemonic is an indexed read and the resolved address crossed a page.
pub open spec fn spec_penalty(mn: Mnemonic, cpu: CPU, m: Seq<u8>, info: OpInfo) -> int {
    if pays_page_penalty(mn) && spec_crossed(info.mode, cpu, m) {
        1
    } else {
        0
    }
}

/// The address in the stack page the stack pointer designates.
pub open spec fn stack_addr(sp: u8) -> u16 {
    (0x0100 + sp) as u16
}

/// The stack effective address is the stack page base with the stack
/// pointer in its low byte.
pub proof fn lemma_stack_page(sp: u8)
    ensures
        stack_addr(sp) == (0x0100u16 | (sp as u16)),
{
    let x: u16 = sp as u16;
    assert(0x0100u16 | x == 0x0100 + x) by (bit_vector)
        requires
            x < 0x100,
    ;
}

/// One byte pushed: written at the stack address, then the pointer
/// decremented, wrapping within the stack page.
pub open spec fn spec_push(cpu: CPU, m: Seq<u8>, val: u8) -> (CPU, Seq<u8>) {
    (
        CPU { stack_pointer: w8(cpu.stack_pointer - 1), ..cpu },
        m.update(stack_addr(cpu.stack_pointer) as int, val),
    )
}

/// One byte pulled: the pointer incremented first, then the byte read at
/// the new stack address.
pub open spec fn spec_pop(cpu: CPU, m: Seq<u8>) -> (CPU, u8) {
    let sp1 = w8(cpu.stack_pointer + 1);
    (CPU { stack_pointer: sp1, ..cpu }, mem_at(m, stack_addr(sp1)))
}

/// A 16-bit value pushed high byte first, so that it pulls back low byte
/// first.
pub open spec fn spec_push16(cpu: CPU, m: Seq<u8>, val: u16) -> (CPU, Seq<u8>) {
    let hi = (val / 0x100) as u8;
    let lo = (val % 0x100) as u8;
    let (c1, m1) = spec_push(cpu, m, hi);
    spec_push(c1, m1, lo)
}

/// A 16-bit value pulled: low byte first, then high.
pub open spec fn spec_pop16(cpu: CPU, m: Seq<u8>) -> (CPU, u16) {
    let (c1, lo) = spec_pop(cpu, m);
    let (c2, hi) = spec_pop(c1, m);
    (c2, (hi * 0x100 + lo) as u16)
}

/// A 16-bit read with the high byte at the given address and the low byte
/// after it.
pub open spec fn spec_read16(m: Seq<u8>, addr: u16) -> u16 {
    (mem_at(m, addr) * 0x100 + mem_at(m, w16(addr + 1))) as u16
}

/// A 16-bit vector read: low byte at the vector address, high byte after
/// it.
pub open spec fn spec_vector(m: Seq<u8>, addr: u16) -> u16 {
    (mem_at(m, w16(addr + 1)) * 0x100 + mem_at(m, addr)) as u16
}

/// `ADC`: the accumulator plus the operand plus the carry-in. The carry
/// flag takes the ninth bit of the sum; the overflow flag reports signed
/// overflow; zero and negative follow the byte result.
pub open spec fn spec_adc(cpu: CPU, m: Seq<u8>, info: OpInfo) -> (CPU, Seq<u8>) {
    let a = cpu.accumulator;
    let v = spec_operand(cpu, m, info);
    let cin: int = if cpu.status_register.carry_flag {
        1
    } else {
        0
    };
    let sum = a + v + cin;
    let r = w8(sum);
    (
        CPU {
            accumulator: r,
            status_register: StatusRegister {
                carry_flag: sum > 0xFF,
                overflow_flag: spec_overflow_bit(a, v, r),
                ..with_nz(cpu.status_register, r)
            },
            ..advanced(cpu, info, spec_penalty(Mnemonic::Adc, cpu, m, info))
        },
        m,
    )
}

/// `SBC`: defined as `ADC` with the operand bitwise inverted; the carry
/// flag is the borrow inverted.
pub open spec fn spec_sbc(cpu: CPU, m: Seq<u8>, info: OpInfo) -> (CPU, Seq<u8>) {
    let a = cpu.accumulator;
    let v = !spec_operand(cpu, m, info);
    let cin: int = if cpu.status_register.carry_flag {
        1
    } else {
        0
    };
    let sum = a + v + cin;
    let r = w8(sum);
    (
        CPU {
            accumulator: r,
            status_register: StatusRegister {
                carry_flag: sum > 0xFF,
                overflow_flag: spec_overflow_bit(a, v, r),
                ..with_nz(cpu.status_register, r)
            },
            ..advanced(cpu, info, spec_penalty(Mnemonic::Sbc, cpu, m, info))
        },
        m,
    )
}

/// A bitwise instruction on the accumulator: `AND`, `ORA` or `EOR`.
pub open spec fn spec_bitwise(cpu: CPU, m: Seq<u8>, info: OpInfo, mn: Mnemonic) -> (
    CPU,
    Seq<u8>,
) {
    let v = spec_operand(cpu, m, info);
    let r = match mn {
        Mnemonic::And => cpu.accumulator & v,
        Mnemonic::Ora => cpu.accumulator | v,
        _ => cpu.accumulator ^ v,
    };
    (
        CPU {
            accumulator: r,
            status_register: with_nz(cpu.status_register, r),
            ..advanced(cpu, info, spec_penalty(mn, cpu, m, info))
        },
        m,
    )
}

/// A compare instruction: the register minus the operand, discarded. The
/// carry flag reports register at least operand, the zero flag equality,
/// the negative flag the top bit of the difference.
pub open spec fn spec_compare_flags(s: StatusRegister, reg: u8, v: u8) -> StatusRegister {
    StatusRegister {
        carry_flag: reg >= v,
        zero_flag: reg == v,
        negative_flag: w8(reg - v) >= 0x80,
        ..s
    }
}

pub open spec fn spec_compare(cpu: CPU, m: Seq<u8>, info: OpInfo, mn: Mnemonic, reg: u8) -> (
    CPU,
    Seq<u8>,
) {
    let v = spec_operand(cpu, m, info);
    (
        CPU {
            status_register: spec_compare_flags(cpu.status_register, reg, v),
            ..advanced(cpu, info, spec_penalty(mn, cpu, m, info))
        },
        m,
    )
}

/// `BIT`: the zero flag from the masked operand, the negative and overflow
/// flags copied from the operand's two top bits.
pub open spec fn spec_bit(cpu: CPU, m: Seq<u8>, info: OpInfo) -> (CPU, Seq<u8>) {
    let v = spec_operand(cpu, m, info);
    (
        CPU {
            status_register: StatusRegister {
                zero_flag: cpu.accumulator & v == 0,
                negative_flag: v >= 0x80,
                overflow_flag: (v / 0x40) % 2 == 1,
                ..cpu.status_register
            },
            ..advanced(cpu, info, 0)
        },
        m,
    )
}

/// A load: the destination register takes the operand; zero and negative
/// follow it.
pub open spec fn spec_load(cpu: CPU, m: Seq<u8>, info: OpInfo, mn: Mnemonic) -> (CPU, Seq<u8>) {
    let v = spec_operand(cpu, m, info);
    let moved = advanced(cpu, info, spec_penalty(mn, cpu, m, info));
    let c = match mn {
        Mnemonic::Lda => CPU { accumulator: v, ..moved },
        Mnemonic::Ldx => CPU { index_x: v, ..moved },
        _ => CPU { index_y: v, ..moved },
    };
    (CPU { status_register: with_nz(cpu.status_register, v), ..c }, m)
}

/// A store: the source register written to the effective address; no flags.
pub open spec fn spec_store(cpu: CPU, m: Seq<u8>, info: OpInfo, src: u8) -> (CPU, Seq<u8>) {
    (advanced(cpu, info, 0), m.update(spec_addr(info.mode, cpu, m) as int, src))
}

/// The result and carry of a one-bit shift or rotate of a single byte.
pub open spec fn spec_shift_byte(mn: Mnemonic, v: u8, carry_in: bool) -> (u8, bool) {
    match mn {
        Mnemonic::Asl => (w8(v * 2), v >= 0x80),
        Mnemonic::Lsr => (v / 2, v % 2 == 1),
        Mnemonic::Rol => (
            w8(
                v * 2 + (if carry_in {
                    1int
                } else {
                    0
                }),
            ),
            v >= 0x80,
        ),
        _ => (
            (v / 2 + (if carry_in {
                0x80int
            } else {
                0
            })) as u8,
            v % 2 == 1,
        ),
    }
}

/// A shift or rotate: on the accumulator in accumulator mode, on the memory
/// operand otherwise. The shifted-out bit goes to the carry; zero and
/// negative follow the result.
pub open spec fn spec_shift(cpu: CPU, m: Seq<u8>, info: OpInfo, mn: Mnemonic) -> (CPU, Seq<u8>) {
    let cin = cpu.status_register.carry_flag;
    if info.mode is Accumulator {
        let (r, c) = spec_shift_byte(mn, cpu.accumulator, cin);
        (
            CPU {
                accumulator: r,
                status_register: StatusRegister {
                    carry_flag: c,
                    ..with_nz(cpu.status_register, r)
                },
                ..advanced(cpu, info, 0)
            },
            m,
        )
    } else {
        let addr = spec_addr(info.mode, cpu, m);
        let (r, c) = spec_shift_byte(mn, mem_at(m, addr), cin);
        (
            CPU {
                status_register: StatusRegister {
                    carry_flag: c,
                    ..with_nz(cpu.status_register, r)
                },
                ..advanced(cpu, info, 0)
            },
            m.update(addr as int, r),
        )
    }
}

/// `INC` or `DEC`: the memory operand changed by one, wrapping; zero and
/// negative follow the result.
pub open spec fn spec_step_memory(cpu: CPU, m: Seq<u8>, info: OpInfo, delta: int) -> (
    CPU,
    Seq<u8>,
) {
    let addr = spec_addr(info.mode, cpu, m);
    let r = w8(mem_at(m, addr) + delta);
    (
        CPU {
            status_register: with_nz(cpu.status_register, r),
            ..advanced(cpu, info, 0)
        },
        m.update(addr as int, r),
    )
}

/// An increment or decrement of an index register.
pub open spec fn spec_step_register(cpu: CPU, m: Seq<u8>, info: OpInfo, mn: Mnemonic) -> (
    CPU,
    Seq<u8>,
) {
    let r = match mn {
        Mnemonic::Inx => w8(cpu.index_x + 1),
        Mnemonic::Dex => w8(cpu.index_x - 1),
        Mnemonic::Iny => w8(cpu.index_y + 1),
        _ => w8(cpu.index_y - 1),
    };
    let moved = advanced(cpu, info, 0);
    let c = match mn {
        Mnemonic::Inx | Mnemonic::Dex => CPU { index_x: r, ..moved },
        _ => CPU { index_y: r, ..moved },
    };
    (CPU { status_register: with_nz(cpu.status_register, r), ..c }, m)
}

/// A register-to-register transfer; all but `TXS` set zero and negative
/// from the moved value.
pub open spec fn spec_transfer(cpu: CPU, m: Seq<u8>, info: OpInfo, mn: Mnemonic) -> (
    CPU,
    Seq<u8>,
) {
    let moved = advanced(cpu, info, 0);
    let c = match mn {
        Mnemonic::Tax => CPU {
            index_x: cpu.accumulator,
            status_register: with_nz(cpu.status_register, cpu.accumulator),
            ..moved
        },
        Mnemonic::Tay => CPU {
            index_y: cpu.accumulator,
            status_register: with_nz(cpu.status_register, cpu.accumulator),
            ..moved
        },
        Mnemonic::Tsx => CPU {
            index_x: cpu.stack_pointer,
            status_register: with_nz(cpu.status_register, cpu.stack_pointer),
            ..moved
        },
        Mnemonic::Txa => CPU {
            accumulator: cpu.index_x,
            status_register: with_nz(cpu.status_register, cpu.index_x),
            ..moved
        },
        Mnemonic::Tya => CPU {
            accumulator: cpu.index_y,
            status_register: with_nz(cpu.status_register, cpu.index_y),
            ..moved
        },
        _ => CPU { stack_pointer: cpu.index_x, ..moved },
    };
    (c, m)
}

/// A flag instruction: one named flag set or cleared, nothing else.
pub open spec fn spec_flag_op(cpu: CPU, m: Seq<u8>, info: OpInfo, mn: Mnemonic) -> (
    CPU,
    Seq<u8>,
) {
    let s = cpu.status_register;
    let s2 = match mn {
        Mnemonic::Clc => StatusRegister { carry_flag: false, ..s },
        Mnemonic::Sec => StatusRegister { carry_flag: true, ..s },
        Mnemonic::Cli => StatusRegister { interrupt_disable: false, ..s },
        Mnemonic::Sei => StatusRegister { interrupt_disable: true, ..s },
        Mnemonic::Cld => StatusRegister { decimal_mode: false, ..s },
        Mnemonic::Sed => StatusRegister { decimal_mode: true, ..s },
        _ => StatusRegister { overflow_flag: false, ..s },
    };
    (CPU { status_register: s2, ..advanced(cpu, info, 0) }, m)
}

/// A conditional branch. Not taken: the program counter advances past the
/// instruction for the base cost. Taken: the program counter moves to the
/// relative target for one extra cycle, and one more if the target lies on
/// a different page than the next instruction.
pub open spec fn spec_branch(cpu: CPU, m: Seq<u8>, info: OpInfo, cond: bool) -> (CPU, Seq<u8>) {
    if cond {
        let target = spec_relative_target(
            cpu.program_counter,
            mem_at(m, w16(cpu.program_counter + 1)),
        );
        let crossed = spec_page_crossed(w16(cpu.program_counter + 2), target);
        (
            CPU {
                program_counter: target,
                cycles: (cpu.cycles + info.cycles + 1 + (if crossed {
                    1int
                } else {
                    0
                })) as u64,
                ..cpu
            },
            m,
        )
    } else {
        (advanced(cpu, info, 0), m)
    }
}

/// `JMP`: the program counter takes the resolved address; the indirect form
/// reads the pointer with the page-wrap bug.
pub open spec fn spec_jmp(cpu: CPU, m: Seq<u8>, info: OpInfo) -> (CPU, Seq<u8>) {
    (
        CPU {
            program_counter: spec_addr(info.mode, cpu, m),
            cycles: (cpu.cycles + info.cycles) as u64,
            ..cpu
        },
        m,
    )
}

/// `JSR`: the address of the last byte of the instruction is pushed high
/// byte first, then the program counter takes the absolute operand.
pub open spec fn spec_jsr(cpu: CPU, m: Seq<u8>, info: OpInfo) -> (CPU, Seq<u8>) {
    let target = spec_addr(info.mode, cpu, m);
    let (c1, m1) = spec_push16(cpu, m, w16(cpu.program_counter + 2));
    (
        CPU {
            program_counter: target,
            cycles: (cpu.cycles + info.cycles) as u64,
            ..c1
        },
        m1,
    )
}

/// `RTS`: the program counter is pulled and incremented past the address
/// `JSR` saved.
pub open spec fn spec_rts(cpu: CPU, m: Seq<u8>, info: OpInfo) -> (CPU, Seq<u8>) {
    let (c1, v) = spec_pop16(cpu, m);
    (
        CPU {
            program_counter: w16(v + 1),
            cycles: (cpu.cycles + info.cycles) as u64,
            ..c1
        },
        m,
    )
}

/// `RTI`: the flags are pulled with the break and unused bits ignored, then
/// the program counter is pulled.
pub open spec fn spec_rti(cpu: CPU, m: Seq<u8>, info: OpInfo) -> (CPU, Seq<u8>) {
    let (c1, b) = spec_pop(cpu, m);
    let (c2, v) = spec_pop16(c1, m);
    (
        CPU {
            status_register: spec_plp_restore(b),
            program_counter: v,
            cycles: (cpu.cycles + info.cycles) as u64,
            ..c2
        },
        m,
    )
}

/// `PHA`: the accumulator pushed.
pub open spec fn spec_pha(cpu: CPU, m: Seq<u8>, info: OpInfo) -> (CPU, Seq<u8>) {
    let (c1, m1) = spec_push(cpu, m, cpu.accumulator);
    (advanced(c1, info, 0), m1)
}

/// `PHP`: the flags pushed with the break and unused bits forced to one.
pub open spec fn spec_php(cpu: CPU, m: Seq<u8>, info: OpInfo) -> (CPU, Seq<u8>) {
    let (c1, m1) = spec_push(cpu, m, spec_php_byte(cpu.status_register));
    (advanced(c1, info, 0), m1)
}

/// `PLA`: a byte pulled into the accumulator; zero and negative follow it.
pub open spec fn spec_pla(cpu: CPU, m: Seq<u8>, info: OpInfo) -> (CPU, Seq<u8>) {
    let (c1, v) = spec_pop(cpu, m);
    (
        CPU {
            accumulator: v,
            status_register: with_nz(cpu.status_register, v),
            ..advanced(c1, info, 0)
        },
        m,
    )
}

/// `PLP`: the flags restored from a pulled byte, break and unused ignored.
pub open spec fn spec_plp(cpu: CPU, m: Seq<u8>, info: OpInfo) -> (CPU, Seq<u8>) {
    let (c1, b) = spec_pop(cpu, m);
    (
        CPU { status_register: spec_plp_restore(b), ..advanced(c1, info, 0) },
        m,
    )
}

/// `BRK`: the address two past the opcode and the flags (break and unused
/// forced) are pushed, the interrupt-disable flag is set, and the program
/// counter loads from the interrupt vector.
pub open spec fn spec_brk(cpu: CPU, m: Seq<u8>, info: OpInfo) -> (CPU, Seq<u8>) {
    let (c1, m1) = spec_push16(cpu, m, w16(cpu.program_counter + 2));
    let (c2, m2) = spec_push(c1, m1, spec_php_byte(cpu.status_register));
    (
        CPU {
            status_register: StatusRegister {
                interrupt_disable: true,
                ..cpu.status_register
            },
            program_counter: spec_vector(m2, 0xFFFE),
            cycles: (cpu.cycles + info.cycles) as u64,
            ..c2
        },
        m2,
    )
}

/// A hardware interrupt entry: the program counter and the flags (break
/// clear, unused set) are pushed, the interrupt-disable flag is set, and
/// the program counter loads from the given vector. Costs seven cycles.
pub open spec fn spec_interrupt(cpu: CPU, m: Seq<u8>, vector: u16) -> (CPU, Seq<u8>) {
    let pushed = spec_to_u8(
        StatusRegister { break_command: false, unused_bit: true, ..cpu.status_register },
    );
    let (c1, m1) = spec_push16(cpu, m, cpu.program_counter);
    let (c2, m2) = spec_push(c1, m1, pushed);
    (
        CPU {
            status_register: StatusRegister {
                interrupt_disable: true,
                ..cpu.status_register
            },
            program_counter: spec_vector(m2, vector),
            cycles: (cpu.cycles + 7) as u64,
            ..c2
        },
        m2,
    )
}

/// `NOP`: the program counter and cycle counter advance, nothing else.
pub open spec fn spec_nop(cpu: CPU, m: Seq<u8>, info: OpInfo) -> (CPU, Seq<u8>) {
    (advanced(cpu, info, 0), m)
}

/// What one decoded instruction does to the register file and to memory.
pub open spec fn spec_exec(mn: Mnemonic, info: OpInfo, cpu: CPU, m: Seq<u8>) -> (CPU, Seq<u8>) {
    match mn {
        Mnemonic::Adc => spec_adc(cpu, m, info),
        Mnemonic::Sbc => spec_sbc(cpu, m, info),
        Mnemonic::And => spec_bitwise(cpu, m, info, Mnemonic::And),
        Mnemonic::Ora => spec_bitwise(cpu, m, info, Mnemonic::Ora),
        Mnemonic::Eor => spec_bitwise(cpu, m, info, Mnemonic::Eor),
        Mnemonic::Cmp => spec_compare(cpu, m, info, Mnemonic::Cmp, cpu.accumulator),
        Mnemonic::Cpx => spec_compare(cpu, m, info, Mnemonic::Cpx, cpu.index_x),
        Mnemonic::Cpy => spec_compare(cpu, m, info, Mnemonic::Cpy, cpu.index_y),
        Mnemonic::Bit => spec_bit(cpu, m, info),
        Mnemonic::Lda => spec_load(cpu, m, info, Mnemonic::Lda),
        Mnemonic::Ldx => spec_load(cpu, m, info, Mnemonic::Ldx),
        Mnemonic::Ldy => spec_load(cpu, m, info, Mnemonic::Ldy),
        Mnemonic::Sta => spec_store(cpu, m, info, cpu.accumulator),
        Mnemonic::Stx => spec_store(cpu, m, info, cpu.index_x),
        Mnemonic::Sty => spec_store(cpu, m, info, cpu.index_y),
        Mnemonic::Asl => spec_shift(cpu, m, info, Mnemonic::Asl),
        Mnemonic::Lsr => spec_shift(cpu, m, info, Mnemonic::Lsr),
        Mnemonic::Rol => spec_shift(cpu, m, info, Mnemonic::Rol),
        Mnemonic::Ror => spec_shift(cpu, m, info, Mnemonic::Ror),
        Mnemonic::Inc => spec_step_memory(cpu, m, info, 1),
        Mnemonic::Dec => spec_step_memory(cpu, m, info, -1),
        Mnemonic::Inx => spec_step_register(cpu, m, info, Mnemonic::Inx),
        Mnemonic::Iny => spec_step_register(cpu, m, info, Mnemonic::Iny),
        Mnemonic::Dex => spec_step_register(cpu, m, info, Mnemonic::Dex),
        Mnemonic::Dey => spec_step_register(cpu, m, info, Mnemonic::Dey),
        Mnemonic::Tax => spec_transfer(cpu, m, info, Mnemonic::Tax),
        Mnemonic::Tay => spec_transfer(cpu, m, info, Mnemonic::Tay),
        Mnemonic::Tsx => spec_transfer(cpu, m, info, Mnemonic::Tsx),
        Mnemonic::Txa => spec_transfer(cpu, m, info, Mnemonic::Txa),
        Mnemonic::Tya => spec_transfer(cpu, m, info, Mnemonic::Tya),
        Mnemonic::Txs => spec_transfer(cpu, m, info, Mnemonic::Txs),
        Mnemonic::Clc => spec_flag_op(cpu, m, info, Mnemonic::Clc),
        Mnemonic::Sec => spec_flag_op(cpu, m, info, Mnemonic::Sec),
        Mnemonic::Cli => spec_flag_op(cpu, m, info, Mnemonic::Cli),
        Mnemonic::Sei => spec_flag_op(cpu, m, info, Mnemonic::Sei),
        Mnemonic::Cld => spec_flag_op(cpu, m, info, Mnemonic::Cld),
        Mnemonic::Sed => spec_flag_op(cpu, m, info, Mnemonic::Sed),
        Mnemonic::Clv => spec_flag_op(cpu, m, info, Mnemonic::Clv),
        Mnemonic::Bcc => spec_branch(cpu, m, info, !cpu.status_register.carry_flag),
        Mnemonic::Bcs => spec_branch(cpu, m, info, cpu.status_register.carry_flag),
        Mnemonic::Beq => spec_branch(cpu, m, info, cpu.status_register.zero_flag),
        Mnemonic::Bne => spec_branch(cpu, m, info, !cpu.status_register.zero_flag),
        Mnemonic::Bmi => spec_branch(cpu, m, info, cpu.status_register.negative_flag),
        Mnemonic::Bpl => spec_branch(cpu, m, info, !cpu.status_register.negative_flag),
        Mnemonic::Bvc => spec_branch(cpu, m, info, !cpu.status_register.overflow_flag),
        Mnemonic::Bvs => spec_branch(cpu, m, info, cpu.status_register.overflow_flag),
        Mnemonic::Jmp => spec_jmp(cpu, m, info),
        Mnemonic::Jsr => spec_jsr(cpu, m, info),
        Mnemonic::Rts => spec_rts(cpu, m, info),
        Mnemonic::Rti => spec_rti(cpu, m, info),
        Mnemonic::Pha => spec_pha(cpu, m, info),
        Mnemonic::Php => spec_php(cpu, m, info),
        Mnemonic::Pla => spec_pla(cpu, m, info),
        Mnemonic::Plp => spec_plp(cpu, m, info),
        Mnemonic::Brk => spec_brk(cpu, m, info),
        Mnemonic::Nop => spec_nop(cpu, m, info),
    }
}

/// One instruction fetched, decoded and executed at the current program
/// counter; nothing when the byte there is not a documented opcode.
pub open spec fn spec_step_instr(cpu: CPU, m: Seq<u8>) -> Option<(CPU, Seq<u8>)> {
    match spec_decode(mem_at(m, cpu.program_counter)) {
        None => None,
        Some((mn, info)) => Some(spec_exec(mn, info, cpu, m)),
    }
}

/// One full step of the machine: a latched non-maskable interrupt is
/// serviced first; else a latched maskable interrupt when the
/// interrupt-disable flag is clear; else the instruction at the program
/// counter runs.
pub open spec fn spec_step(cpu: CPU, m: Seq<u8>) -> Option<(CPU, Seq<u8>)> {
    if cpu.nmi_pending {
        Some(spec_interrupt(CPU { nmi_pending: false, ..cpu }, m, 0xFFFA))
    } else if cpu.irq_pending && !cpu.status_register.interrupt_disable {
        Some(spec_interrupt(CPU { irq_pending: false, ..cpu }, m, 0xFFFE))
    } else {
        spec_step_instr(cpu, m)
    }
}

/// Pushing a byte and pulling it back returns the byte and restores the
/// register file, the stack pointer included.
pub proof fn lemma_push_pop_round_trip(cpu: CPU, m: Seq<u8>, v: u8)
    requires
        m.len() == 0x10000,
    ensures
        ({
            let (c1, m1) = spec_push(cpu, m, v);
            spec_pop(c1, m1).1 == v && spec_pop(c1, m1).0 == cpu
        }),
{
}

/// Pushing a 16-bit value and pulling it back returns the value and
/// restores the register file, the stack pointer included.
pub proof fn lemma_push16_pop16_round_trip(cpu: CPU, m: Seq<u8>, v: u16)
    requires
        m.len() == 0x10000,
    ensures
        ({
            let (c1, m1) = spec_push16(cpu, m, v);
            spec_pop16(c1, m1).1 == v && spec_pop16(c1, m1).0 == cpu
        }),
{
    vstd::arithmetic::div_mod::lemma_fundamental_div_mod(v as int, 0x100);
}

/// The cycle cost of a branch: the base cost, plus one when taken, plus one
/// more when the taken branch crosses a page.
pub proof fn lemma_branch_cycle_cost(cpu: CPU, m: Seq<u8>, info: OpInfo, cond: bool)
    requires
        cpu.cycles + info.cycles + 2 <= u64::MAX,
    ensures
        spec_branch(cpu, m, info, cond).0.cycles - cpu.cycles == info.cycles + (if cond {
            1int
        } else {
            0
        }) + (if cond && spec_page_crossed(
            w16(cpu.program_counter + 2),
            spec_relative_target(cpu.program_counter, mem_at(m, w16(cpu.program_counter + 1))),
        ) {
            1int
        } else {
            0
        }),
{
}

} // verus!

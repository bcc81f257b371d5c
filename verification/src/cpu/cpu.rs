//! The 6502 register file and its fetch-decode-execute step, proved equal
//! to the instruction semantics in [`crate::cpu::semantics`].

use vstd::prelude::*;

use crate::cpu::opinfo::{decode, mode_has_operand, spec_decode, spec_writes_pc, Mnemonic, OpInfo};
use crate::cpu::semantics::{
    mem_at, spec_abs_operand, spec_adc, spec_bit, spec_bitwise, spec_branch, spec_brk,
    spec_compare, spec_crossed, spec_exec, spec_flag_op, spec_get_address,
    spec_indirect_indexed_base, spec_interrupt, spec_jmp, spec_jsr, spec_load, spec_nop, spec_pha,
    spec_php, spec_pla, spec_plp, spec_pop, spec_pop16, spec_push, spec_push16, spec_read16,
    spec_rti, spec_rts, spec_sbc, spec_shift, spec_shift_byte, spec_step, spec_step_memory,
    spec_step_register, spec_store, spec_transfer, spec_vector, w16, w8,
};
use crate::cpu::status_register::StatusRegister;
use crate::cpu::utils::calculate_overflow_bit;
use crate::memory::{page_crossed, Memory};

verus! {

/// What one executed instruction consumed: its length in bytes and its full
/// cycle cost including penalties.
#[derive(Debug, Clone, Copy, PartialEq, Eq, Structural)]
pub struct OpResponse {
    pub bytes_consumed: usize,
    pub cycles_spent: usize,
}

/// The thirteen ways an instruction names its operand.
#[derive(Debug, Clone, Copy, PartialEq, Eq, Structural)]
pub enum AddressingMode {
    Implicit,
    Accumulator,
    Immediate,
    ZeroPage,
    ZeroPageX,
    ZeroPageY,
    Relative,
    Absolute,
    AbsoluteX,
    AbsoluteY,
    IndexedIndirect,
    IndirectIndexed,
    Indirect,
}

/// The one runtime failure the core can report: the byte at the program
/// counter is not a documented opcode. Carries the byte and the address it
/// was fetched from.
#[derive(Debug, Clone, Copy, PartialEq, Eq, Structural)]
pub enum CpuError {
    UnimplementedOpcode(u8, u16),
}

/// The 6502 register file together with the cycle counter and the two
/// interrupt request latches the host may raise between instructions.
pub struct CPU {
    pub accumulator: u8,
    pub stack_pointer: u8,
    pub program_counter: u16,
    pub index_x: u8,
    pub index_y: u8,
    pub status_register: StatusRegister,
    /// Total cycles spent since powerup; wide enough not to overflow over
    /// any realistic run.
    pub cycles: u64,
    /// A latched non-maskable interrupt, serviced before the next fetch.
    pub nmi_pending: bool,
    /// A latched maskable interrupt, serviced before the next fetch when
    /// the interrupt-disable flag is clear.
    pub irq_pending: bool,
}

/// The bounds every decoded instruction satisfies, together with enough
/// headroom in the cycle counter for its cost and penalties.
pub open spec fn op_pre(cpu: CPU, opi: OpInfo) -> bool {
    &&& opi.bytes <= 3
    &&& opi.cycles <= 7
    &&& cpu.cycles + opi.cycles + 2 <= u64::MAX
}

impl CPU {
    /// A processor with every register, flag and latch cleared.
    pub fn new() -> (c: CPU)
        ensures
            c.accumulator == 0,
            c.stack_pointer == 0,
            c.program_counter == 0,
            c.index_x == 0,
            c.index_y == 0,
            !c.status_register.carry_flag,
            !c.status_register.zero_flag,
            !c.status_register.interrupt_disable,
            !c.status_register.decimal_mode,
            !c.status_register.break_command,
            !c.status_register.overflow_flag,
            !c.status_register.negative_flag,
            !c.status_register.unused_bit,
            c.cycles == 0,
            !c.nmi_pending,
            !c.irq_pending,
    {
        CPU {
            accumulator: 0,
            stack_pointer: 0,
            program_counter: 0,
            index_x: 0,
            index_y: 0,
            status_register: StatusRegister::new(),
            cycles: 0,
            nmi_pending: false,
            irq_pending: false,
        }
    }

    /// Power-on state: the status register reads 0x34 (interrupt-disable,
    /// break and unused set), the registers are cleared, the stack pointer
    /// starts at 0xFD, and the APU register range is zeroed.
    pub fn powerup(&mut self, mem: &mut Memory)
        requires
            old(mem).wf(),
        ensures
            final(mem).wf(),
            final(self).accumulator == 0,
            final(self).index_x == 0,
            final(self).index_y == 0,
            final(self).stack_pointer == 0xFD,
            final(self).status_register == crate::cpu::status_register::spec_from_u8(0x34),
            final(self).program_counter == old(self).program_counter,
            final(self).cycles == old(self).cycles,
            final(self).nmi_pending == old(self).nmi_pending,
            final(self).irq_pending == old(self).irq_pending,
            forall|i: int|
                0 <= i < 0x10000
                    ==> final(mem)@[i] == (if (0x4000 <= i <= 0x400F) || i == 0x4017 {
                        0u8
                    } else {
                        old(mem)@[i]
                    }),
    {
        self.status_register.set_all(0x34);
        self.accumulator = 0;
        self.index_x = 0;
        self.index_y = 0;
        self.stack_pointer = 0xFD;
        mem.write(0x4017, 0x00);
        mem.write_range(0x4000, 0x400F, 0x00);
    }

    /// Reset-line behaviour: the stack pointer drops by three as if pushing
    /// without writing, the interrupt-disable flag is set, and the APU
    /// status register is silenced. Everything else is untouched.
    pub fn reset(&mut self, mem: &mut Memory)
        requires
            old(mem).wf(),
        ensures
            final(mem).wf(),
            final(self).stack_pointer == w8(old(self).stack_pointer - 3),
            final(self).status_register == (StatusRegister {
                interrupt_disable: true,
                ..old(self).status_register
            }),
            final(self).accumulator == old(self).accumulator,
            final(self).index_x == old(self).index_x,
            final(self).index_y == old(self).index_y,
            final(self).program_counter == old(self).program_counter,
            final(self).cycles == old(self).cycles,
            final(self).nmi_pending == old(self).nmi_pending,
            final(self).irq_pending == old(self).irq_pending,
            final(mem)@ == old(mem)@.update(0x4015, 0u8),
    {
        self.stack_pointer = self.stack_pointer.wrapping_sub(3);
        self.status_register.interrupt_disable = true;
        mem.write(0x4015, 0x00);
    }

    /// The total number of cycles spent since powerup.
    pub fn cycles(&self) -> (n: u64)
        ensures
            n == self.cycles,
    {
        self.cycles
    }

    /// The carry flag as the 0-or-1 value arithmetic feeds in.
    fn carry_flag(&self) -> (c: u8)
        ensures
            c == (if self.status_register.carry_flag {
                1u8
            } else {
                0u8
            }),
    {
        if self.status_register.carry_flag {
            1
        } else {
            0
        }
    }

    /// Set or clear the zero flag from a result byte.
    pub fn update_zero_flag(&mut self, r: u8)
        ensures
            *final(self) == (CPU {
                status_register: StatusRegister {
                    zero_flag: r == 0,
                    ..old(self).status_register
                },
                ..*old(self)
            }),
    {
        self.status_register.zero_flag = r == 0x00;
    }

    /// Set or clear the negative flag from a result byte's top bit.
    pub fn update_negative_flag(&mut self, r: u8)
        ensures
            *final(self) == (CPU {
                status_register: StatusRegister {
                    negative_flag: r >= 0x80,
                    ..old(self).status_register
                },
                ..*old(self)
            }),
    {
        self.status_register.negative_flag = r >= 0x80;
    }

    /// A human-readable dump of the register file in hexadecimal.
    ///
    /// Relies on the standard library's `format!` macro for the rendering;
    /// nothing is claimed of the returned text.
    #[verifier::external_body]
    pub fn display(&self) -> String {
        format!(
            "CPU: a:{:#04X}, s:{:#04X}, p:{:#04X}, x:{:#04X}, y:{:#04X}",
            self.accumulator,
            self.stack_pointer,
            self.program_counter,
            self.index_x,
            self.index_y,
        )
    }

    /// The 16-bit operand after the opcode: low byte first.
    fn abs_operand(&self, mem: &Memory) -> (r: u16)
        requires
            mem.wf(),
        ensures
            r == spec_abs_operand(*self, mem@),
    {
        let lo = mem.read(self.program_counter.wrapping_add(1));
        let hi = mem.read(self.program_counter.wrapping_add(2));
        (hi as u16) * 0x100 + (lo as u16)
    }

    /// The zero-page pointer a `(d),Y` instruction dereferences, before
    /// adding Y.
    fn indirect_indexed_base(&self, mem: &Memory) -> (r: u16)
        requires
            mem.wf(),
        ensures
            r == spec_indirect_indexed_base(*self, mem@),
    {
        let d = mem.read(self.program_counter.wrapping_add(1));
        let lo = mem.read(d as u16);
        let hi = mem.read(d.wrapping_add(1) as u16);
        (hi as u16) * 0x100 + (lo as u16)
    }

    /// Resolve the addressing mode to the effective address of the
    /// instruction's operand; the two register-only modes resolve to
    /// nothing. The resolver only reads: neither the registers nor memory
    /// change.
    pub fn get_address(&self, mem: &Memory, mode: AddressingMode) -> (r: Option<u16>)
        requires
            mem.wf(),
        ensures
            r == spec_get_address(mode, *self, mem@),
    {
        match mode {
            AddressingMode::Implicit => None,
            AddressingMode::Accumulator => None,
            AddressingMode::Immediate => Some(self.program_counter.wrapping_add(1)),
            AddressingMode::ZeroPage => Some(
                mem.read(self.program_counter.wrapping_add(1)) as u16,
            ),
            AddressingMode::ZeroPageX => {
                let a = mem.read(self.program_counter.wrapping_add(1));
                Some(a.wrapping_add(self.index_x) as u16)
            },
            AddressingMode::ZeroPageY => {
                let a = mem.read(self.program_counter.wrapping_add(1));
                Some(a.wrapping_add(self.index_y) as u16)
            },
            AddressingMode::Relative => {
                let d = mem.read(self.program_counter.wrapping_add(1));
                let base = self.program_counter.wrapping_add(2);
                let se: u16 = if d < 0x80 {
                    d as u16
                } else {
                    (d as u16) + 0xFF00
                };
                Some(base.wrapping_add(se))
            },
            AddressingMode::Absolute => Some(self.abs_operand(mem)),
            AddressingMode::AbsoluteX => Some(
                self.abs_operand(mem).wrapping_add(self.index_x as u16),
            ),
            AddressingMode::AbsoluteY => Some(
                self.abs_operand(mem).wrapping_add(self.index_y as u16),
            ),
            AddressingMode::Indirect => {
                let p = self.abs_operand(mem);
                let lo_page: u16 = (p / 0x100) * 0x100;
                let next_in_page: u16 = if p % 0x100 == 0xFF {
                    0
                } else {
                    p % 0x100 + 1
                };
                let lo = mem.read(p);
                let hi = mem.read(lo_page + next_in_page);
                Some((hi as u16) * 0x100 + (lo as u16))
            },
            AddressingMode::IndexedIndirect => {
                let d = mem.read(self.program_counter.wrapping_add(1));
                let p = d.wrapping_add(self.index_x);
                let lo = mem.read(p as u16);
                let hi = mem.read(p.wrapping_add(1) as u16);
                Some((hi as u16) * 0x100 + (lo as u16))
            },
            AddressingMode::IndirectIndexed => {
                let base = self.indirect_indexed_base(mem);
                Some(base.wrapping_add(self.index_y as u16))
            },
        }
    }

    /// Resolve the addressing mode to its effective address together with
    /// whether resolving it crossed a page boundary.
    pub fn resolve_operand(&self, mem: &Memory, mode: AddressingMode) -> (r: (Option<u16>, bool))
        requires
            mem.wf(),
        ensures
            r.0 == spec_get_address(mode, *self, mem@),
            r.1 == spec_crossed(mode, *self, mem@),
    {
        let addr = self.get_address(mem, mode);
        let crossed = match mode {
            AddressingMode::AbsoluteX | AddressingMode::AbsoluteY => page_crossed(
                self.abs_operand(mem),
                addr.unwrap(),
            ),
            AddressingMode::IndirectIndexed => page_crossed(
                self.indirect_indexed_base(mem),
                addr.unwrap(),
            ),
            AddressingMode::Relative => page_crossed(
                self.program_counter.wrapping_add(2),
                addr.unwrap(),
            ),
            _ => false,
        };
        (addr, crossed)
    }

    /// A 16-bit read with the high byte at the given address and the low
    /// byte after it.
    pub fn read16(&self, mem: &Memory, addr: u16) -> (r: u16)
        requires
            mem.wf(),
        ensures
            r == spec_read16(mem@, addr),
    {
        let hi = mem.read(addr);
        let lo = mem.read(addr.wrapping_add(1));
        (hi as u16) * 0x100 + (lo as u16)
    }

    /// A 16-bit vector read: low byte at the vector address, high byte
    /// after it.
    fn read_vector(&self, mem: &Memory, addr: u16) -> (r: u16)
        requires
            mem.wf(),
        ensures
            r == spec_vector(mem@, addr),
    {
        let lo = mem.read(addr);
        let hi = mem.read(addr.wrapping_add(1));
        (hi as u16) * 0x100 + (lo as u16)
    }

    /// Push one byte: write it at the stack address, then decrement the
    /// stack pointer, wrapping within the stack page.
    pub fn push(&mut self, mem: &mut Memory, val: u8)
        requires
            old(mem).wf(),
        ensures
            final(mem).wf(),
            *final(self) == spec_push(*old(self), old(mem)@, val).0,
            final(mem)@ == spec_push(*old(self), old(mem)@, val).1,
    {
        let addr: u16 = 0x0100 + self.stack_pointer as u16;
        mem.write(addr, val);
        self.stack_pointer = self.stack_pointer.wrapping_sub(1);
    }

    /// Pull one byte: increment the stack pointer, wrapping, then read at
    /// the new stack address.
    pub fn pop(&mut self, mem: &mut Memory) -> (val: u8)
        requires
            old(mem).wf(),
        ensures
            final(mem).wf(),
            final(mem)@ == old(mem)@,
            *final(self) == spec_pop(*old(self), old(mem)@).0,
            val == spec_pop(*old(self), old(mem)@).1,
    {
        self.stack_pointer = self.stack_pointer.wrapping_add(1);
        let addr: u16 = 0x0100 + self.stack_pointer as u16;
        mem.read(addr)
    }

    /// Push a 16-bit value, high byte first.
    pub fn push16(&mut self, mem: &mut Memory, val: u16)
        requires
            old(mem).wf(),
        ensures
            final(mem).wf(),
            *final(self) == spec_push16(*old(self), old(mem)@, val).0,
            final(mem)@ == spec_push16(*old(self), old(mem)@, val).1,
    {
        let hi = (val / 0x100) as u8;
        let lo = (val % 0x100) as u8;
        self.push(mem, hi);
        self.push(mem, lo);
    }

    /// Pull a 16-bit value: low byte first, then high.
    pub fn pop16(&mut self, mem: &mut Memory) -> (val: u16)
        requires
            old(mem).wf(),
        ensures
            final(mem).wf(),
            final(mem)@ == old(mem)@,
            *final(self) == spec_pop16(*old(self), old(mem)@).0,
            val == spec_pop16(*old(self), old(mem)@).1,
    {
        let lo = self.pop(mem);
        let hi = self.pop(mem);
        (hi as u16) * 0x100 + (lo as u16)
    }

    /// Advance the program counter past the instruction and charge its
    /// cycles plus the given penalty.
    fn advance(&mut self, opi: &OpInfo, extra: u64)
        requires
            opi.bytes <= 3,
            extra <= 2,
            old(self).cycles + opi.cycles + extra <= u64::MAX,
        ensures
            *final(self) == (CPU {
                program_counter: w16(old(self).program_counter + opi.bytes),
                cycles: (old(self).cycles + opi.cycles + extra) as u64,
                ..*old(self)
            }),
    {
        self.program_counter = self.program_counter.wrapping_add(opi.bytes as u16);
        self.cycles = self.cycles + opi.cycles as u64 + extra;
    }
}

// The instruction bodies. Each is proved equal to its spec function in
// `crate::cpu::semantics`, which states the full effect on the register
// file, the flags, the program counter, the cycle counter and memory.
impl CPU {
    /// `ADC`: add the operand and the carry to the accumulator. Sets carry
    /// from the ninth bit, overflow from the signed rule, zero and negative
    /// from the result.
    #[verifier::rlimit(50)]
    fn adc(&mut self, mem: &mut Memory, opi: &OpInfo)
        requires
            old(mem).wf(),
            mode_has_operand(opi.mode),
            op_pre(*old(self), *opi),
        ensures
            final(mem).wf(),
            *final(self) == spec_adc(*old(self), old(mem)@, *opi).0,
            final(mem)@ == spec_adc(*old(self), old(mem)@, *opi).1,
    {
        let (addr, crossed) = self.resolve_operand(mem, opi.mode);
        let v = mem.read(addr.unwrap());
        let a = self.accumulator;
        let cin = self.carry_flag();
        let sum: u16 = a as u16 + v as u16 + cin as u16;
        let r: u8 = if sum > 0xFF {
            (sum - 0x100) as u8
        } else {
            sum as u8
        };
        self.accumulator = r;
        self.status_register.carry_flag = sum > 0xFF;
        self.status_register.overflow_flag = calculate_overflow_bit(a, v, r);
        self.update_zero_flag(r);
        self.update_negative_flag(r);
        self.advance(opi, if crossed { 1 } else { 0 });
    }

    /// `SBC`: subtract the operand and the borrow from the accumulator,
    /// defined as `ADC` of the bitwise-inverted operand.
    #[verifier::rlimit(50)]
    fn sbc(&mut self, mem: &mut Memory, opi: &OpInfo)
        requires
            old(mem).wf(),
            mode_has_operand(opi.mode),
            op_pre(*old(self), *opi),
        ensures
            final(mem).wf(),
            *final(self) == spec_sbc(*old(self), old(mem)@, *opi).0,
            final(mem)@ == spec_sbc(*old(self), old(mem)@, *opi).1,
    {
        let (addr, crossed) = self.resolve_operand(mem, opi.mode);
        let v = !mem.read(addr.unwrap());
        let a = self.accumulator;
        let cin = self.carry_flag();
        let sum: u16 = a as u16 + v as u16 + cin as u16;
        let r: u8 = if sum > 0xFF {
            (sum - 0x100) as u8
        } else {
            sum as u8
        };
        self.accumulator = r;
        self.status_register.carry_flag = sum > 0xFF;
        self.status_register.overflow_flag = calculate_overflow_bit(a, v, r);
        self.update_zero_flag(r);
        self.update_negative_flag(r);
        self.advance(opi, if crossed { 1 } else { 0 });
    }

    /// `AND`: bitwise conjunction of the accumulator with the operand.
    fn and(&mut self, mem: &mut Memory, opi: &OpInfo)
        requires
            old(mem).wf(),
            mode_has_operand(opi.mode),
            op_pre(*old(self), *opi),
        ensures
            final(mem).wf(),
            *final(self) == spec_bitwise(*old(self), old(mem)@, *opi, Mnemonic::And).0,
            final(mem)@ == spec_bitwise(*old(self), old(mem)@, *opi, Mnemonic::And).1,
    {
        let (addr, crossed) = self.resolve_operand(mem, opi.mode);
        let v = mem.read(addr.unwrap());
        let r = self.accumulator & v;
        self.accumulator = r;
        self.update_zero_flag(r);
        self.update_negative_flag(r);
        self.advance(opi, if crossed { 1 } else { 0 });
    }

    /// `ORA`: bitwise disjunction of the accumulator with the operand.
    fn ora(&mut self, mem: &mut Memory, opi: &OpInfo)
        requires
            old(mem).wf(),
            mode_has_operand(opi.mode),
            op_pre(*old(self), *opi),
        ensures
            final(mem).wf(),
            *final(self) == spec_bitwise(*old(self), old(mem)@, *opi, Mnemonic::Ora).0,
            final(mem)@ == spec_bitwise(*old(self), old(mem)@, *opi, Mnemonic::Ora).1,
    {
        let (addr, crossed) = self.resolve_operand(mem, opi.mode);
        let v = mem.read(addr.unwrap());
        let r = self.accumulator | v;
        self.accumulator = r;
        self.update_zero_flag(r);
        self.update_negative_flag(r);
        self.advance(opi, if crossed { 1 } else { 0 });
    }

    /// `EOR`: bitwise exclusive or of the accumulator with the operand.
    fn eor(&mut self, mem: &mut Memory, opi: &OpInfo)
        requires
            old(mem).wf(),
            mode_has_operand(opi.mode),
            op_pre(*old(self), *opi),
        ensures
            final(mem).wf(),
            *final(self) == spec_bitwise(*old(self), old(mem)@, *opi, Mnemonic::Eor).0,
            final(mem)@ == spec_bitwise(*old(self), old(mem)@, *opi, Mnemonic::Eor).1,
    {
        let (addr, crossed) = self.resolve_operand(mem, opi.mode);
        let v = mem.read(addr.unwrap());
        let r = self.accumulator ^ v;
        self.accumulator = r;
        self.update_zero_flag(r);
        self.update_negative_flag(r);
        self.advance(opi, if crossed { 1 } else { 0 });
    }

    /// `CMP`: compare the accumulator with the operand. Carry reports
    /// accumulator at least operand, zero equality, negative the top bit of
    /// the difference.
    fn cmp(&mut self, mem: &mut Memory, opi: &OpInfo)
        requires
            old(mem).wf(),
            mode_has_operand(opi.mode),
            op_pre(*old(self), *opi),
        ensures
            final(mem).wf(),
            *final(self) == spec_compare(
                *old(self),
                old(mem)@,
                *opi,
                Mnemonic::Cmp,
                old(self).accumulator,
            ).0,
            final(mem)@ == old(mem)@,
    {
        let (addr, crossed) = self.resolve_operand(mem, opi.mode);
        let v = mem.read(addr.unwrap());
        let reg = self.accumulator;
        let r = reg.wrapping_sub(v);
        self.status_register.carry_flag = reg >= v;
        self.status_register.zero_flag = reg == v;
        self.update_negative_flag(r);
        self.advance(opi, if crossed { 1 } else { 0 });
    }

    /// `CPX`: compare the X register with the operand.
    fn cpx(&mut self, mem: &mut Memory, opi: &OpInfo)
        requires
            old(mem).wf(),
            mode_has_operand(opi.mode),
            op_pre(*old(self), *opi),
        ensures
            final(mem).wf(),
            *final(self) == spec_compare(
                *old(self),
                old(mem)@,
                *opi,
                Mnemonic::Cpx,
                old(self).index_x,
            ).0,
            final(mem)@ == old(mem)@,
    {
        let (addr, _) = self.resolve_operand(mem, opi.mode);
        let v = mem.read(addr.unwrap());
        let reg = self.index_x;
        let r = reg.wrapping_sub(v);
        self.status_register.carry_flag = reg >= v;
        self.status_register.zero_flag = reg == v;
        self.update_negative_flag(r);
        self.advance(opi, 0);
    }

    /// `CPY`: compare the Y register with the operand.
    fn cpy(&mut self, mem: &mut Memory, opi: &OpInfo)
        requires
            old(mem).wf(),
            mode_has_operand(opi.mode),
            op_pre(*old(self), *opi),
        ensures
            final(mem).wf(),
            *final(self) == spec_compare(
                *old(self),
                old(mem)@,
                *opi,
                Mnemonic::Cpy,
                old(self).index_y,
            ).0,
            final(mem)@ == old(mem)@,
    {
        let (addr, _) = self.resolve_operand(mem, opi.mode);
        let v = mem.read(addr.unwrap());
        let reg = self.index_y;
        let r = reg.wrapping_sub(v);
        self.status_register.carry_flag = reg >= v;
        self.status_register.zero_flag = reg == v;
        self.update_negative_flag(r);
        self.advance(opi, 0);
    }

    /// `BIT`: test the accumulator against the operand. Zero from the
    /// conjunction; negative and overflow copied from the operand's two top
    /// bits. The accumulator is not changed.
    fn bit(&mut self, mem: &mut Memory, opi: &OpInfo)
        requires
            old(mem).wf(),
            mode_has_operand(opi.mode),
            op_pre(*old(self), *opi),
        ensures
            final(mem).wf(),
            *final(self) == spec_bit(*old(self), old(mem)@, *opi).0,
            final(mem)@ == old(mem)@,
    {
        let (addr, _) = self.resolve_operand(mem, opi.mode);
        let v = mem.read(addr.unwrap());
        self.status_register.zero_flag = self.accumulator & v == 0;
        self.status_register.negative_flag = v >= 0x80;
        self.status_register.overflow_flag = (v / 0x40) % 2 == 1;
        self.advance(opi, 0);
    }

    /// `LDA`: load the accumulator from the operand.
    fn lda(&mut self, mem: &mut Memory, opi: &OpInfo)
        requires
            old(mem).wf(),
            mode_has_operand(opi.mode),
            op_pre(*old(self), *opi),
        ensures
            final(mem).wf(),
            *final(self) == spec_load(*old(self), old(mem)@, *opi, Mnemonic::Lda).0,
            final(mem)@ == old(mem)@,
    {
        let (addr, crossed) = self.resolve_operand(mem, opi.mode);
        let v = mem.read(addr.unwrap());
        self.accumulator = v;
        self.update_zero_flag(v);
        self.update_negative_flag(v);
        self.advance(opi, if crossed { 1 } else { 0 });
    }

    /// `LDX`: load the X register from the operand.
    fn ldx(&mut self, mem: &mut Memory, opi: &OpInfo)
        requires
            old(mem).wf(),
            mode_has_operand(opi.mode),
            op_pre(*old(self), *opi),
        ensures
            final(mem).wf(),
            *final(self) == spec_load(*old(self), old(mem)@, *opi, Mnemonic::Ldx).0,
            final(mem)@ == old(mem)@,
    {
        let (addr, crossed) = self.resolve_operand(mem, opi.mode);
        let v = mem.read(addr.unwrap());
        self.index_x = v;
        self.update_zero_flag(v);
        self.update_negative_flag(v);
        self.advance(opi, if crossed { 1 } else { 0 });
    }

    /// `LDY`: load the Y register from the operand.
    fn ldy(&mut self, mem: &mut Memory, opi: &OpInfo)
        requires
            old(mem).wf(),
            mode_has_operand(opi.mode),
            op_pre(*old(self), *opi),
        ensures
            final(mem).wf(),
            *final(self) == spec_load(*old(self), old(mem)@, *opi, Mnemonic::Ldy).0,
            final(mem)@ == old(mem)@,
    {
        let (addr, crossed) = self.resolve_operand(mem, opi.mode);
        let v = mem.read(addr.unwrap());
        self.index_y = v;
        self.update_zero_flag(v);
        self.update_negative_flag(v);
        self.advance(opi, if crossed { 1 } else { 0 });
    }

    /// `STA`: store the accumulator at the effective address; no flags.
    fn sta(&mut self, mem: &mut Memory, opi: &OpInfo)
        requires
            old(mem).wf(),
            mode_has_operand(opi.mode),
            op_pre(*old(self), *opi),
        ensures
            final(mem).wf(),
            *final(self) == spec_store(*old(self), old(mem)@, *opi, old(self).accumulator).0,
            final(mem)@ == spec_store(*old(self), old(mem)@, *opi, old(self).accumulator).1,
    {
        let (addr, _) = self.resolve_operand(mem, opi.mode);
        mem.write(addr.unwrap(), self.accumulator);
        self.advance(opi, 0);
    }

    /// `STX`: store the X register at the effective address; no flags.
    fn stx(&mut self, mem: &mut Memory, opi: &OpInfo)
        requires
            old(mem).wf(),
            mode_has_operand(opi.mode),
            op_pre(*old(self), *opi),
        ensures
            final(mem).wf(),
            *final(self) == spec_store(*old(self), old(mem)@, *opi, old(self).index_x).0,
            final(mem)@ == spec_store(*old(self), old(mem)@, *opi, old(self).index_x).1,
    {
        let (addr, _) = self.resolve_operand(mem, opi.mode);
        mem.write(addr.unwrap(), self.index_x);
        self.advance(opi, 0);
    }

    /// `STY`: store the Y register at the effective address; no flags.
    fn sty(&mut self, mem: &mut Memory, opi: &OpInfo)
        requires
            old(mem).wf(),
            mode_has_operand(opi.mode),
            op_pre(*old(self), *opi),
        ensures
            final(mem).wf(),
            *final(self) == spec_store(*old(self), old(mem)@, *opi, old(self).index_y).0,
            final(mem)@ == spec_store(*old(self), old(mem)@, *opi, old(self).index_y).1,
    {
        let (addr, _) = self.resolve_operand(mem, opi.mode);
        mem.write(addr.unwrap(), self.index_y);
        self.advance(opi, 0);
    }

    /// One bit of shift or rotate applied to a byte; returns the result and
    /// the bit shifted out into the carry.
    fn shift_byte(&self, mn_is_left: bool, mn_rotates: bool, v: u8) -> (r: (u8, bool))
        ensures
            mn_is_left && !mn_rotates ==> r == spec_shift_byte(
                Mnemonic::Asl,
                v,
                self.status_register.carry_flag,
            ),
            !mn_is_left && !mn_rotates ==> r == spec_shift_byte(
                Mnemonic::Lsr,
                v,
                self.status_register.carry_flag,
            ),
            mn_is_left && mn_rotates ==> r == spec_shift_byte(
                Mnemonic::Rol,
                v,
                self.status_register.carry_flag,
            ),
            !mn_is_left && mn_rotates ==> r == spec_shift_byte(
                Mnemonic::Ror,
                v,
                self.status_register.carry_flag,
            ),
    {
        if mn_is_left {
            let fill: u16 = if mn_rotates && self.status_register.carry_flag {
                1
            } else {
                0
            };
            let wide: u16 = (v as u16) * 2 + fill;
            let out: u8 = if wide > 0xFF {
                (wide - 0x100) as u8
            } else {
                wide as u8
            };
            (out, v >= 0x80)
        } else {
            let fill: u8 = if mn_rotates && self.status_register.carry_flag {
                0x80
            } else {
                0
            };
            (v / 2 + fill, v % 2 == 1)
        }
    }

    /// `ASL`: shift the accumulator or the operand one bit left; the old
    /// top bit goes to the carry.
    fn asl(&mut self, mem: &mut Memory, opi: &OpInfo)
        requires
            old(mem).wf(),
            opi.mode is Accumulator || mode_has_operand(opi.mode),
            op_pre(*old(self), *opi),
        ensures
            final(mem).wf(),
            *final(self) == spec_shift(*old(self), old(mem)@, *opi, Mnemonic::Asl).0,
            final(mem)@ == spec_shift(*old(self), old(mem)@, *opi, Mnemonic::Asl).1,
    {
        self.shift_op(mem, opi, true, false);
    }

    /// `LSR`: shift the accumulator or the operand one bit right; the old
    /// low bit goes to the carry.
    fn lsr(&mut self, mem: &mut Memory, opi: &OpInfo)
        requires
            old(mem).wf(),
            opi.mode is Accumulator || mode_has_operand(opi.mode),
            op_pre(*old(self), *opi),
        ensures
            final(mem).wf(),
            *final(self) == spec_shift(*old(self), old(mem)@, *opi, Mnemonic::Lsr).0,
            final(mem)@ == spec_shift(*old(self), old(mem)@, *opi, Mnemonic::Lsr).1,
    {
        self.shift_op(mem, opi, false, false);
    }

    /// `ROL`: rotate left through the carry.
    fn rol(&mut self, mem: &mut Memory, opi: &OpInfo)
        requires
            old(mem).wf(),
            opi.mode is Accumulator || mode_has_operand(opi.mode),
            op_pre(*old(self), *opi),
        ensures
            final(mem).wf(),
            *final(self) == spec_shift(*old(self), old(mem)@, *opi, Mnemonic::Rol).0,
            final(mem)@ == spec_shift(*old(self), old(mem)@, *opi, Mnemonic::Rol).1,
    {
        self.shift_op(mem, opi, true, true);
    }

    /// `ROR`: rotate right through the carry.
    fn ror(&mut self, mem: &mut Memory, opi: &OpInfo)
        requires
            old(mem).wf(),
            opi.mode is Accumulator || mode_has_operand(opi.mode),
            op_pre(*old(self), *opi),
        ensures
            final(mem).wf(),
            *final(self) == spec_shift(*old(self), old(mem)@, *opi, Mnemonic::Ror).0,
            final(mem)@ == spec_shift(*old(self), old(mem)@, *opi, Mnemonic::Ror).1,
    {
        self.shift_op(mem, opi, false, true);
    }

    /// The shared body of the four shift and rotate instructions.
    #[verifier::rlimit(50)]
    fn shift_op(&mut self, mem: &mut Memory, opi: &OpInfo, is_left: bool, rotates: bool)
        requires
            old(mem).wf(),
            opi.mode is Accumulator || mode_has_operand(opi.mode),
            op_pre(*old(self), *opi),
        ensures
            final(mem).wf(),
            ({
                let mn = if is_left && !rotates {
                    Mnemonic::Asl
                } else if !is_left && !rotates {
                    Mnemonic::Lsr
                } else if is_left {
                    Mnemonic::Rol
                } else {
                    Mnemonic::Ror
                };
                &&& *final(self) == spec_shift(*old(self), old(mem)@, *opi, mn).0
                &&& final(mem)@ == spec_shift(*old(self), old(mem)@, *opi, mn).1
            }),
    {
        match opi.mode {
            AddressingMode::Accumulator => {
                let v = self.accumulator;
                let (r, c) = self.shift_byte(is_left, rotates, v);
                self.accumulator = r;
                self.status_register.carry_flag = c;
                self.update_zero_flag(r);
                self.update_negative_flag(r);
            },
            _ => {
                let (addr, _) = self.resolve_operand(mem, opi.mode);
                let a = addr.unwrap();
                let v = mem.read(a);
                let (r, c) = self.shift_byte(is_left, rotates, v);
                mem.write(a, r);
                self.status_register.carry_flag = c;
                self.update_zero_flag(r);
                self.update_negative_flag(r);
            },
        }
        self.advance(opi, 0);
    }

    /// `INC`: add one to the memory operand, wrapping.
    fn inc(&mut self, mem: &mut Memory, opi: &OpInfo)
        requires
            old(mem).wf(),
            mode_has_operand(opi.mode),
            op_pre(*old(self), *opi),
        ensures
            final(mem).wf(),
            *final(self) == spec_step_memory(*old(self), old(mem)@, *opi, 1).0,
            final(mem)@ == spec_step_memory(*old(self), old(mem)@, *opi, 1).1,
    {
        let (addr, _) = self.resolve_operand(mem, opi.mode);
        let a = addr.unwrap();
        let r = mem.read(a).wrapping_add(1);
        mem.write(a, r);
        self.update_zero_flag(r);
        self.update_negative_flag(r);
        self.advance(opi, 0);
    }

    /// `DEC`: subtract one from the memory operand, wrapping.
    fn dec(&mut self, mem: &mut Memory, opi: &OpInfo)
        requires
            old(mem).wf(),
            mode_has_operand(opi.mode),
            op_pre(*old(self), *opi),
        ensures
            final(mem).wf(),
            *final(self) == spec_step_memory(*old(self), old(mem)@, *opi, -1).0,
            final(mem)@ == spec_step_memory(*old(self), old(mem)@, *opi, -1).1,
    {
        let (addr, _) = self.resolve_operand(mem, opi.mode);
        let a = addr.unwrap();
        let r = mem.read(a).wrapping_sub(1);
        mem.write(a, r);
        self.update_zero_flag(r);
        self.update_negative_flag(r);
        self.advance(opi, 0);
    }

    /// `INX`: add one to the X register, wrapping.
    fn inx(&mut self, mem: &mut Memory, opi: &OpInfo)
        requires
            old(mem).wf(),
            op_pre(*old(self), *opi),
        ensures
            final(mem).wf(),
            final(mem)@ == old(mem)@,
            *final(self) == spec_step_register(*old(self), old(mem)@, *opi, Mnemonic::Inx).0,
    {
        let r = self.index_x.wrapping_add(1);
        self.index_x = r;
        self.update_zero_flag(r);
        self.update_negative_flag(r);
        self.advance(opi, 0);
    }

    /// `INY`: add one to the Y register, wrapping.
    fn iny(&mut self, mem: &mut Memory, opi: &OpInfo)
        requires
            old(mem).wf(),
            op_pre(*old(self), *opi),
        ensures
            final(mem).wf(),
            final(mem)@ == old(mem)@,
            *final(self) == spec_step_register(*old(self), old(mem)@, *opi, Mnemonic::Iny).0,
    {
        let r = self.index_y.wrapping_add(1);
        self.index_y = r;
        self.update_zero_flag(r);
        self.update_negative_flag(r);
        self.advance(opi, 0);
    }

    /// `DEX`: subtract one from the X register, wrapping.
    fn dex(&mut self, mem: &mut Memory, opi: &OpInfo)
        requires
            old(mem).wf(),
            op_pre(*old(self), *opi),
        ensures
            final(mem).wf(),
            final(mem)@ == old(mem)@,
            *final(self) == spec_step_register(*old(self), old(mem)@, *opi, Mnemonic::Dex).0,
    {
        let r = self.index_x.wrapping_sub(1);
        self.index_x = r;
        self.update_zero_flag(r);
        self.update_negative_flag(r);
        self.advance(opi, 0);
    }

    /// `DEY`: subtract one from the Y register, wrapping.
    fn dey(&mut self, mem: &mut Memory, opi: &OpInfo)
        requires
            old(mem).wf(),
            op_pre(*old(self), *opi),
        ensures
            final(mem).wf(),
            final(mem)@ == old(mem)@,
            *final(self) == spec_step_register(*old(self), old(mem)@, *opi, Mnemonic::Dey).0,
    {
        let r = self.index_y.wrapping_sub(1);
        self.index_y = r;
        self.update_zero_flag(r);
        self.update_negative_flag(r);
        self.advance(opi, 0);
    }

    /// `TAX`: copy the accumulator to the X register.
    fn tax(&mut self, mem: &mut Memory, opi: &OpInfo)
        requires
            old(mem).wf(),
            op_pre(*old(self), *opi),
        ensures
            final(mem).wf(),
            final(mem)@ == old(mem)@,
            *final(self) == spec_transfer(*old(self), old(mem)@, *opi, Mnemonic::Tax).0,
    {
        let r = self.accumulator;
        self.index_x = r;
        self.update_zero_flag(r);
        self.update_negative_flag(r);
        self.advance(opi, 0);
    }

    /// `TAY`: copy the accumulator to the Y register.
    fn tay(&mut self, mem: &mut Memory, opi: &OpInfo)
        requires
            old(mem).wf(),
            op_pre(*old(self), *opi),
        ensures
            final(mem).wf(),
            final(mem)@ == old(mem)@,
            *final(self) == spec_transfer(*old(self), old(mem)@, *opi, Mnemonic::Tay).0,
    {
        let r = self.accumulator;
        self.index_y = r;
        self.update_zero_flag(r);
        self.update_negative_flag(r);
        self.advance(opi, 0);
    }

    /// `TSX`: copy the stack pointer to the X register.
    fn tsx(&mut self, mem: &mut Memory, opi: &OpInfo)
        requires
            old(mem).wf(),
            op_pre(*old(self), *opi),
        ensures
            final(mem).wf(),
            final(mem)@ == old(mem)@,
            *final(self) == spec_transfer(*old(self), old(mem)@, *opi, Mnemonic::Tsx).0,
    {
        let r = self.stack_pointer;
        self.index_x = r;
        self.update_zero_flag(r);
        self.update_negative_flag(r);
        self.advance(opi, 0);
    }

    /// `TXA`: copy the X register to the accumulator.
    fn txa(&mut self, mem: &mut Memory, opi: &OpInfo)
        requires
            old(mem).wf(),
            op_pre(*old(self), *opi),
        ensures
            final(mem).wf(),
            final(mem)@ == old(mem)@,
            *final(self) == spec_transfer(*old(self), old(mem)@, *opi, Mnemonic::Txa).0,
    {
        let r = self.index_x;
        self.accumulator = r;
        self.update_zero_flag(r);
        self.update_negative_flag(r);
        self.advance(opi, 0);
    }

    /// `TYA`: copy the Y register to the accumulator.
    fn tya(&mut self, mem: &mut Memory, opi: &OpInfo)
        requires
            old(mem).wf(),
            op_pre(*old(self), *opi),
        ensures
            final(mem).wf(),
            final(mem)@ == old(mem)@,
            *final(self) == spec_transfer(*old(self), old(mem)@, *opi, Mnemonic::Tya).0,
    {
        let r = self.index_y;
        self.accumulator = r;
        self.update_zero_flag(r);
        self.update_negative_flag(r);
        self.advance(opi, 0);
    }

    /// `TXS`: copy the X register to the stack pointer; no flags.
    fn txs(&mut self, mem: &mut Memory, opi: &OpInfo)
        requires
            old(mem).wf(),
            op_pre(*old(self), *opi),
        ensures
            final(mem).wf(),
            final(mem)@ == old(mem)@,
            *final(self) == spec_transfer(*old(self), old(mem)@, *opi, Mnemonic::Txs).0,
    {
        self.stack_pointer = self.index_x;
        self.advance(opi, 0);
    }

    /// `CLC`: clear the carry flag.
    fn clc(&mut self, mem: &mut Memory, opi: &OpInfo)
        requires
            old(mem).wf(),
            op_pre(*old(self), *opi),
        ensures
            final(mem).wf(),
            final(mem)@ == old(mem)@,
            *final(self) == spec_flag_op(*old(self), old(mem)@, *opi, Mnemonic::Clc).0,
    {
        self.status_register.carry_flag = false;
        self.advance(opi, 0);
    }

    /// `SEC`: set the carry flag.
    fn sec(&mut self, mem: &mut Memory, opi: &OpInfo)
        requires
            old(mem).wf(),
            op_pre(*old(self), *opi),
        ensures
            final(mem).wf(),
            final(mem)@ == old(mem)@,
            *final(self) == spec_flag_op(*old(self), old(mem)@, *opi, Mnemonic::Sec).0,
    {
        self.status_register.carry_flag = true;
        self.advance(opi, 0);
    }

    /// `CLI`: clear the interrupt-disable flag.
    fn cli(&mut self, mem: &mut Memory, opi: &OpInfo)
        requires
            old(mem).wf(),
            op_pre(*old(self), *opi),
        ensures
            final(mem).wf(),
            final(mem)@ == old(mem)@,
            *final(self) == spec_flag_op(*old(self), old(mem)@, *opi, Mnemonic::Cli).0,
    {
        self.status_register.interrupt_disable = false;
        self.advance(opi, 0);
    }

    /// `SEI`: set the interrupt-disable flag.
    fn sei(&mut self, mem: &mut Memory, opi: &OpInfo)
        requires
            old(mem).wf(),
            op_pre(*old(self), *opi),
        ensures
            final(mem).wf(),
            final(mem)@ == old(mem)@,
            *final(self) == spec_flag_op(*old(self), old(mem)@, *opi, Mnemonic::Sei).0,
    {
        self.status_register.interrupt_disable = true;
        self.advance(opi, 0);
    }

    /// `CLD`: clear the decimal-mode flag. The NES processor never consults
    /// it, but the flag itself is kept.
    fn cld(&mut self, mem: &mut Memory, opi: &OpInfo)
        requires
            old(mem).wf(),
            op_pre(*old(self), *opi),
        ensures
            final(mem).wf(),
            final(mem)@ == old(mem)@,
            *final(self) == spec_flag_op(*old(self), old(mem)@, *opi, Mnemonic::Cld).0,
    {
        self.status_register.decimal_mode = false;
        self.advance(opi, 0);
    }

    /// `SED`: set the decimal-mode flag.
    fn sed(&mut self, mem: &mut Memory, opi: &OpInfo)
        requires
            old(mem).wf(),
            op_pre(*old(self), *opi),
        ensures
            final(mem).wf(),
            final(mem)@ == old(mem)@,
            *final(self) == spec_flag_op(*old(self), old(mem)@, *opi, Mnemonic::Sed).0,
    {
        self.status_register.decimal_mode = true;
        self.advance(opi, 0);
    }

    /// `CLV`: clear the overflow flag.
    fn clv(&mut self, mem: &mut Memory, opi: &OpInfo)
        requires
            old(mem).wf(),
            op_pre(*old(self), *opi),
        ensures
            final(mem).wf(),
            final(mem)@ == old(mem)@,
            *final(self) == spec_flag_op(*old(self), old(mem)@, *opi, Mnemonic::Clv).0,
    {
        self.status_register.overflow_flag = false;
        self.advance(opi, 0);
    }

    /// `NOP`: advance the program counter and the cycle counter only.
    fn nop(&mut self, mem: &mut Memory, opi: &OpInfo)
        requires
            old(mem).wf(),
            op_pre(*old(self), *opi),
        ensures
            final(mem).wf(),
            final(mem)@ == old(mem)@,
            *final(self) == spec_nop(*old(self), old(mem)@, *opi).0,
    {
        self.advance(opi, 0);
    }

    /// The shared body of the eight conditional branches: when the
    /// condition holds, move to the relative target for one extra cycle
    /// (two if it lies on another page); otherwise fall through.
    fn conditional_branch(&mut self, mem: &mut Memory, opi: &OpInfo, condition: bool)
        requires
            old(mem).wf(),
            op_pre(*old(self), *opi),
        ensures
            final(mem).wf(),
            final(mem)@ == old(mem)@,
            *final(self) == spec_branch(*old(self), old(mem)@, *opi, condition).0,
    {
        if condition {
            let d = mem.read(self.program_counter.wrapping_add(1));
            let base = self.program_counter.wrapping_add(2);
            let se: u16 = if d < 0x80 {
                d as u16
            } else {
                (d as u16) + 0xFF00
            };
            let target = base.wrapping_add(se);
            let crossed = page_crossed(base, target);
            self.cycles = self.cycles + opi.cycles as u64 + 1 + if crossed {
                1
            } else {
                0
            };
            self.program_counter = target;
        } else {
            self.advance(opi, 0);
        }
    }

    /// `BCC`: branch if the carry flag is clear.
    fn bcc(&mut self, mem: &mut Memory, opi: &OpInfo)
        requires
            old(mem).wf(),
            op_pre(*old(self), *opi),
        ensures
            final(mem).wf(),
            final(mem)@ == old(mem)@,
            *final(self) == spec_branch(
                *old(self),
                old(mem)@,
                *opi,
                !old(self).status_register.carry_flag,
            ).0,
    {
        let condition = !self.status_register.carry_flag;
        self.conditional_branch(mem, opi, condition);
    }

    /// `BCS`: branch if the carry flag is set.
    fn bcs(&mut self, mem: &mut Memory, opi: &OpInfo)
        requires
            old(mem).wf(),
            op_pre(*old(self), *opi),
        ensures
            final(mem).wf(),
            final(mem)@ == old(mem)@,
            *final(self) == spec_branch(
                *old(self),
                old(mem)@,
                *opi,
                old(self).status_register.carry_flag,
            ).0,
    {
        let condition = self.status_register.carry_flag;
        self.conditional_branch(mem, opi, condition);
    }

    /// `BEQ`: branch if the zero flag is set.
    fn beq(&mut self, mem: &mut Memory, opi: &OpInfo)
        requires
            old(mem).wf(),
            op_pre(*old(self), *opi),
        ensures
            final(mem).wf(),
            final(mem)@ == old(mem)@,
            *final(self) == spec_branch(
                *old(self),
                old(mem)@,
                *opi,
                old(self).status_register.zero_flag,
            ).0,
    {
        let condition = self.status_register.zero_flag;
        self.conditional_branch(mem, opi, condition);
    }

    /// `BNE`: branch if the zero flag is clear.
    fn bne(&mut self, mem: &mut Memory, opi: &OpInfo)
        requires
            old(mem).wf(),
            op_pre(*old(self), *opi),
        ensures
            final(mem).wf(),
            final(mem)@ == old(mem)@,
            *final(self) == spec_branch(
                *old(self),
                old(mem)@,
                *opi,
                !old(self).status_register.zero_flag,
            ).0,
    {
        let condition = !self.status_register.zero_flag;
        self.conditional_branch(mem, opi, condition);
    }

    /// `BMI`: branch if the negative flag is set.
    fn bmi(&mut self, mem: &mut Memory, opi: &OpInfo)
        requires
            old(mem).wf(),
            op_pre(*old(self), *opi),
        ensures
            final(mem).wf(),
            final(mem)@ == old(mem)@,
            *final(self) == spec_branch(
                *old(self),
                old(mem)@,
                *opi,
                old(self).status_register.negative_flag,
            ).0,
    {
        let condition = self.status_register.negative_flag;
        self.conditional_branch(mem, opi, condition);
    }

    /// `BPL`: branch if the negative flag is clear.
    fn bpl(&mut self, mem: &mut Memory, opi: &OpInfo)
        requires
            old(mem).wf(),
            op_pre(*old(self), *opi),
        ensures
            final(mem).wf(),
            final(mem)@ == old(mem)@,
            *final(self) == spec_branch(
                *old(self),
                old(mem)@,
                *opi,
                !old(self).status_register.negative_flag,
            ).0,
    {
        let condition = !self.status_register.negative_flag;
        self.conditional_branch(mem, opi, condition);
    }

    /// `BVC`: branch if the overflow flag is clear.
    fn bvc(&mut self, mem: &mut Memory, opi: &OpInfo)
        requires
            old(mem).wf(),
            op_pre(*old(self), *opi),
        ensures
            final(mem).wf(),
            final(mem)@ == old(mem)@,
            *final(self) == spec_branch(
                *old(self),
                old(mem)@,
                *opi,
                !old(self).status_register.overflow_flag,
            ).0,
    {
        let condition = !self.status_register.overflow_flag;
        self.conditional_branch(mem, opi, condition);
    }

    /// `BVS`: branch if the overflow flag is set.
    fn bvs(&mut self, mem: &mut Memory, opi: &OpInfo)
        requires
            old(mem).wf(),
            op_pre(*old(self), *opi),
        ensures
            final(mem).wf(),
            final(mem)@ == old(mem)@,
            *final(self) == spec_branch(
                *old(self),
                old(mem)@,
                *opi,
                old(self).status_register.overflow_flag,
            ).0,
    {
        let condition = self.status_register.overflow_flag;
        self.conditional_branch(mem, opi, condition);
    }

    /// `JMP`: set the program counter to the resolved address; the indirect
    /// form reads the pointer with the page-wrap bug.
    fn jmp(&mut self, mem: &mut Memory, opi: &OpInfo)
        requires
            old(mem).wf(),
            mode_has_operand(opi.mode),
            op_pre(*old(self), *opi),
        ensures
            final(mem).wf(),
            final(mem)@ == old(mem)@,
            *final(self) == spec_jmp(*old(self), old(mem)@, *opi).0,
    {
        let (addr, _) = self.resolve_operand(mem, opi.mode);
        self.program_counter = addr.unwrap();
        self.cycles = self.cycles + opi.cycles as u64;
    }

    /// `JSR`: push the address of the instruction's last byte, high byte
    /// first, then jump to the absolute operand.
    fn jsr(&mut self, mem: &mut Memory, opi: &OpInfo)
        requires
            old(mem).wf(),
            mode_has_operand(opi.mode),
            op_pre(*old(self), *opi),
        ensures
            final(mem).wf(),
            *final(self) == spec_jsr(*old(self), old(mem)@, *opi).0,
            final(mem)@ == spec_jsr(*old(self), old(mem)@, *opi).1,
    {
        let (addr, _) = self.resolve_operand(mem, opi.mode);
        let target = addr.unwrap();
        let ret = self.program_counter.wrapping_add(2);
        self.push16(mem, ret);
        self.program_counter = target;
        self.cycles = self.cycles + opi.cycles as u64;
    }

    /// `RTS`: pull the program counter, low byte first, and step past the
    /// address `JSR` saved.
    fn rts(&mut self, mem: &mut Memory, opi: &OpInfo)
        requires
            old(mem).wf(),
            op_pre(*old(self), *opi),
        ensures
            final(mem).wf(),
            final(mem)@ == old(mem)@,
            *final(self) == spec_rts(*old(self), old(mem)@, *opi).0,
    {
        let v = self.pop16(mem);
        self.program_counter = v.wrapping_add(1);
        self.cycles = self.cycles + opi.cycles as u64;
    }

    /// `RTI`: pull the flags (break and unused ignored), then the program
    /// counter.
    fn rti(&mut self, mem: &mut Memory, opi: &OpInfo)
        requires
            old(mem).wf(),
            op_pre(*old(self), *opi),
        ensures
            final(mem).wf(),
            final(mem)@ == old(mem)@,
            *final(self) == spec_rti(*old(self), old(mem)@, *opi).0,
    {
        let b = self.pop(mem);
        let mut s = StatusRegister::from_u8(b);
        s.break_command = false;
        s.unused_bit = false;
        self.status_register = s;
        let v = self.pop16(mem);
        self.program_counter = v;
        self.cycles = self.cycles + opi.cycles as u64;
    }

    /// `PHA`: push the accumulator.
    fn pha(&mut self, mem: &mut Memory, opi: &OpInfo)
        requires
            old(mem).wf(),
            op_pre(*old(self), *opi),
        ensures
            final(mem).wf(),
            *final(self) == spec_pha(*old(self), old(mem)@, *opi).0,
            final(mem)@ == spec_pha(*old(self), old(mem)@, *opi).1,
    {
        let a = self.accumulator;
        self.push(mem, a);
        self.advance(opi, 0);
    }

    /// `PHP`: push the flags with the break and unused bits forced to one.
    fn php(&mut self, mem: &mut Memory, opi: &OpInfo)
        requires
            old(mem).wf(),
            op_pre(*old(self), *opi),
        ensures
            final(mem).wf(),
            *final(self) == spec_php(*old(self), old(mem)@, *opi).0,
            final(mem)@ == spec_php(*old(self), old(mem)@, *opi).1,
    {
        let mut s = self.status_register;
        s.break_command = true;
        s.unused_bit = true;
        let b = s.to_u8();
        self.push(mem, b);
        self.advance(opi, 0);
    }

    /// `PLA`: pull a byte into the accumulator; zero and negative follow it.
    fn pla(&mut self, mem: &mut Memory, opi: &OpInfo)
        requires
            old(mem).wf(),
            op_pre(*old(self), *opi),
        ensures
            final(mem).wf(),
            final(mem)@ == old(mem)@,
            *final(self) == spec_pla(*old(self), old(mem)@, *opi).0,
    {
        let v = self.pop(mem);
        self.accumulator = v;
        self.update_zero_flag(v);
        self.update_negative_flag(v);
        self.advance(opi, 0);
    }

    /// `PLP`: pull the flags, ignoring the break and unused bits.
    fn plp(&mut self, mem: &mut Memory, opi: &OpInfo)
        requires
            old(mem).wf(),
            op_pre(*old(self), *opi),
        ensures
            final(mem).wf(),
            final(mem)@ == old(mem)@,
            *final(self) == spec_plp(*old(self), old(mem)@, *opi).0,
    {
        let b = self.pop(mem);
        let mut s = StatusRegister::from_u8(b);
        s.break_command = false;
        s.unused_bit = false;
        self.status_register = s;
        self.advance(opi, 0);
    }

    /// `BRK`: push the address two past the opcode and the flags (break and
    /// unused forced), set interrupt-disable, and load the program counter
    /// from the interrupt vector.
    fn brk(&mut self, mem: &mut Memory, opi: &OpInfo)
        requires
            old(mem).wf(),
            op_pre(*old(self), *opi),
        ensures
            final(mem).wf(),
            *final(self) == spec_brk(*old(self), old(mem)@, *opi).0,
            final(mem)@ == spec_brk(*old(self), old(mem)@, *opi).1,
    {
        let ret = self.program_counter.wrapping_add(2);
        self.push16(mem, ret);
        let mut s = self.status_register;
        s.break_command = true;
        s.unused_bit = true;
        let b = s.to_u8();
        self.push(mem, b);
        self.status_register.interrupt_disable = true;
        self.program_counter = self.read_vector(mem, 0xFFFE);
        self.cycles = self.cycles + opi.cycles as u64;
    }

    /// A hardware interrupt entry: push the program counter and the flags
    /// (break clear, unused set), set interrupt-disable, and load the
    /// program counter from the given vector.
    fn service_interrupt(&mut self, mem: &mut Memory, vector: u16)
        requires
            old(mem).wf(),
            old(self).cycles + 7 <= u64::MAX,
        ensures
            final(mem).wf(),
            *final(self) == spec_interrupt(*old(self), old(mem)@, vector).0,
            final(mem)@ == spec_interrupt(*old(self), old(mem)@, vector).1,
    {
        let pc = self.program_counter;
        self.push16(mem, pc);
        let mut s = self.status_register;
        s.break_command = false;
        s.unused_bit = true;
        let b = s.to_u8();
        self.push(mem, b);
        self.status_register.interrupt_disable = true;
        self.program_counter = self.read_vector(mem, vector);
        self.cycles = self.cycles + 7;
    }
}

impl CPU {
    /// Fetch the byte at the program counter, decode it, and execute the
    /// instruction; an undocumented opcode changes nothing and is reported
    /// with its address.
    #[verifier::rlimit(100)]
    pub fn execute_next(&mut self, mem: &mut Memory) -> (r: Result<OpResponse, CpuError>)
        requires
            old(mem).wf(),
            old(self).cycles + 9 <= u64::MAX,
        ensures
            final(mem).wf(),
            ({
                let op = mem_at(old(mem)@, old(self).program_counter);
                match spec_decode(op) {
                    None => {
                        &&& *final(self) == *old(self)
                        &&& final(mem)@ == old(mem)@
                        &&& r == Err::<OpResponse, CpuError>(
                            CpuError::UnimplementedOpcode(op, old(self).program_counter),
                        )
                    },
                    Some((mn, info)) => {
                        let post = spec_exec(mn, info, *old(self), old(mem)@);
                        &&& *final(self) == post.0
                        &&& final(mem)@ == post.1
                        &&& r == Ok::<OpResponse, CpuError>(
                            OpResponse {
                                bytes_consumed: info.bytes,
                                cycles_spent: (post.0.cycles - old(self).cycles) as usize,
                            },
                        )
                    },
                }
            }),
            r is Ok ==> final(self).cycles >= old(self).cycles + 2,
    {
        let op = mem.read(self.program_counter);
        let before = self.cycles;
        match decode(op) {
            None => Err(CpuError::UnimplementedOpcode(op, self.program_counter)),
            Some((mn, info)) => {
                match mn {
                    Mnemonic::Adc => self.adc(mem, &info),
                    Mnemonic::And => self.and(mem, &info),
                    Mnemonic::Asl => self.asl(mem, &info),
                    Mnemonic::Bcc => self.bcc(mem, &info),
                    Mnemonic::Bcs => self.bcs(mem, &info),
                    Mnemonic::Beq => self.beq(mem, &info),
                    Mnemonic::Bit => self.bit(mem, &info),
                    Mnemonic::Bmi => self.bmi(mem, &info),
                    Mnemonic::Bne => self.bne(mem, &info),
                    Mnemonic::Bpl => self.bpl(mem, &info),
                    Mnemonic::Brk => self.brk(mem, &info),
                    Mnemonic::Bvc => self.bvc(mem, &info),
                    Mnemonic::Bvs => self.bvs(mem, &info),
                    Mnemonic::Clc => self.clc(mem, &info),
                    Mnemonic::Cld => self.cld(mem, &info),
                    Mnemonic::Cli => self.cli(mem, &info),
                    Mnemonic::Clv => self.clv(mem, &info),
                    Mnemonic::Cmp => self.cmp(mem, &info),
                    Mnemonic::Cpx => self.cpx(mem, &info),
                    Mnemonic::Cpy => self.cpy(mem, &info),
                    Mnemonic::Dec => self.dec(mem, &info),
                    Mnemonic::Dex => self.dex(mem, &info),
                    Mnemonic::Dey => self.dey(mem, &info),
                    Mnemonic::Eor => self.eor(mem, &info),
                    Mnemonic::Inc => self.inc(mem, &info),
                    Mnemonic::Inx => self.inx(mem, &info),
                    Mnemonic::Iny => self.iny(mem, &info),
                    Mnemonic::Jmp => self.jmp(mem, &info),
                    Mnemonic::Jsr => self.jsr(mem, &info),
                    Mnemonic::Lda => self.lda(mem, &info),
                    Mnemonic::Ldx => self.ldx(mem, &info),
                    Mnemonic::Ldy => self.ldy(mem, &info),
                    Mnemonic::Lsr => self.lsr(mem, &info),
                    Mnemonic::Nop => self.nop(mem, &info),
                    Mnemonic::Ora => self.ora(mem, &info),
                    Mnemonic::Pha => self.pha(mem, &info),
                    Mnemonic::Php => self.php(mem, &info),
                    Mnemonic::Pla => self.pla(mem, &info),
                    Mnemonic::Plp => self.plp(mem, &info),
                    Mnemonic::Rol => self.rol(mem, &info),
                    Mnemonic::Ror => self.ror(mem, &info),
                    Mnemonic::Rti => self.rti(mem, &info),
                    Mnemonic::Rts => self.rts(mem, &info),
                    Mnemonic::Sbc => self.sbc(mem, &info),
                    Mnemonic::Sec => self.sec(mem, &info),
                    Mnemonic::Sed => self.sed(mem, &info),
                    Mnemonic::Sei => self.sei(mem, &info),
                    Mnemonic::Sta => self.sta(mem, &info),
                    Mnemonic::Stx => self.stx(mem, &info),
                    Mnemonic::Sty => self.sty(mem, &info),
                    Mnemonic::Tax => self.tax(mem, &info),
                    Mnemonic::Tay => self.tay(mem, &info),
                    Mnemonic::Tsx => self.tsx(mem, &info),
                    Mnemonic::Txa => self.txa(mem, &info),
                    Mnemonic::Txs => self.txs(mem, &info),
                    Mnemonic::Tya => self.tya(mem, &info),
                }
                let spent = self.cycles - before;
                Ok(OpResponse { bytes_consumed: info.bytes, cycles_spent: spent as usize })
            },
        }
    }

    /// One step of the machine. A latched non-maskable interrupt is
    /// serviced first; else a latched maskable interrupt when the
    /// interrupt-disable flag is clear; else the instruction at the program
    /// counter is fetched, decoded and executed. Every instruction that
    /// does not itself write the program counter advances it by exactly its
    /// byte length.
    #[verifier::rlimit(100)]
    pub fn step(&mut self, mem: &mut Memory) -> (r: Result<OpResponse, CpuError>)
        requires
            old(mem).wf(),
            old(self).cycles + 9 <= u64::MAX,
        ensures
            final(mem).wf(),
            ({
                let op = mem_at(old(mem)@, old(self).program_counter);
                let interrupted = old(self).nmi_pending || (old(self).irq_pending && !old(
                    self,
                ).status_register.interrupt_disable);
                match spec_step(*old(self), old(mem)@) {
                    None => {
                        &&& *final(self) == *old(self)
                        &&& final(mem)@ == old(mem)@
                        &&& r == Err::<OpResponse, CpuError>(
                            CpuError::UnimplementedOpcode(op, old(self).program_counter),
                        )
                    },
                    Some((c2, m2)) => {
                        &&& *final(self) == c2
                        &&& final(mem)@ == m2
                        &&& r == Ok::<OpResponse, CpuError>(
                            OpResponse {
                                bytes_consumed: (if interrupted {
                                    0usize
                                } else {
                                    match spec_decode(op) {
                                        Some(e) => e.1.bytes,
                                        None => 0,
                                    }
                                }),
                                cycles_spent: (c2.cycles - old(self).cycles) as usize,
                            },
                        )
                    },
                }
            }),
            (!old(self).nmi_pending && !(old(self).irq_pending && !old(
                self,
            ).status_register.interrupt_disable)) ==> (spec_decode(
                mem_at(old(mem)@, old(self).program_counter),
            ) matches Some(e) ==> (!spec_writes_pc(e.0)
                ==> final(self).program_counter == w16(old(self).program_counter + e.1.bytes))),
            r is Ok ==> final(self).cycles >= old(self).cycles + 2,
    {
        if self.nmi_pending {
            self.nmi_pending = false;
            self.service_interrupt(mem, 0xFFFA);
            Ok(OpResponse { bytes_consumed: 0, cycles_spent: 7 })
        } else if self.irq_pending && !self.status_register.interrupt_disable {
            self.irq_pending = false;
            self.service_interrupt(mem, 0xFFFE);
            Ok(OpResponse { bytes_consumed: 0, cycles_spent: 7 })
        } else {
            self.execute_next(mem)
        }
    }
}

} // verus!

//! The executor: what each instruction does to the processor, and the
//! step that fetches, decodes, executes and retires one instruction.

use crate::cache::DecodeCache;
use crate::cpu::{
    Machine, AUX_CARRY_FLAG, CARRY_FLAG, CPU, PARITY_FLAG, SIGN_FLAG, ZERO_FLAG,
};
use crate::decoder::{
    decode_at, lemma_decode_operands, read_operands, spec_decode, Instruction, Register,
};
use crate::util::{
    bit_is_set, count_low_bits, get_bit, get_enabled_bits, lemma_count_bits_zero, lemma_with_bit,
    set_bit, set_bit_enabled, with_bit,
};
use vstd::prelude::*;

verus! {

/// Why a step could not be carried out.
#[derive(Debug, Copy, Clone, PartialEq, Eq, Structural)]
pub enum Fault {
    /// The instruction decodes but has no executed semantics.
    Unimplemented(Instruction),
    /// The instruction names a register that has no view of the width that
    /// the instruction works on.
    InvalidRegister(Register),
}

/// The most cycles that one instruction takes.
pub const MAX_STEP_CYCLES: usize = 16;

/// Whether `reg` can be read and written as 8 bits.
pub open spec fn is_byte_register(reg: Register) -> bool {
    reg != Register::SP
}

/// Whether `reg` names 16 bits: PSW, BC, DE, HL by their high register,
/// or SP.
pub open spec fn is_pair_register(reg: Register) -> bool {
    reg == Register::A || reg == Register::B || reg == Register::D || reg == Register::H || reg
        == Register::SP
}

/// The 8-bit value of `reg`; `M` is the memory cell that HL addresses.
pub open spec fn reg8(m: Machine, reg: Register) -> u8
    recommends
        is_byte_register(reg),
{
    match reg {
        Register::A => m.a,
        Register::Flags => m.flags,
        Register::B => m.b,
        Register::C => m.c,
        Register::D => m.d,
        Register::E => m.e,
        Register::H => m.h,
        Register::L => m.l,
        Register::M => m.read(m.hl()),
        Register::SP => 0,
    }
}

/// The state after the 8-bit `value` was written to `reg`.
pub open spec fn with_reg8(m: Machine, reg: Register, value: u8) -> Machine
    recommends
        is_byte_register(reg),
{
    match reg {
        Register::A => Machine { a: value, ..m },
        Register::Flags => Machine { flags: value, ..m },
        Register::B => Machine { b: value, ..m },
        Register::C => Machine { c: value, ..m },
        Register::D => Machine { d: value, ..m },
        Register::E => Machine { e: value, ..m },
        Register::H => Machine { h: value, ..m },
        Register::L => Machine { l: value, ..m },
        Register::M => m.write(m.hl(), value),
        Register::SP => m,
    }
}

/// The 16-bit value of the pair that `reg` names.
pub open spec fn reg16(m: Machine, reg: Register) -> u16
    recommends
        is_pair_register(reg),
{
    match reg {
        Register::A => m.psw(),
        Register::B => m.bc(),
        Register::D => m.de(),
        Register::H => m.hl(),
        Register::SP => m.sp,
        _ => 0,
    }
}

/// The state after the 16-bit `value` was written to the pair that `reg`
/// names.
pub open spec fn with_reg16(m: Machine, reg: Register, value: u16) -> Machine
    recommends
        is_pair_register(reg),
{
    match reg {
        Register::A => m.with_psw(value),
        Register::B => m.with_bc(value),
        Register::D => m.with_de(value),
        Register::H => m.with_hl(value),
        Register::SP => Machine { sp: value, ..m },
        _ => m,
    }
}

/// The flags byte after the flag routine saw the 8-bit result `value`:
/// Zero is set exactly when the result is zero, Sign exactly when its top
/// bit is set, Parity exactly when at least one of its bits is set, and
/// AuxiliaryCarry is cleared. Carry and the unused bits keep their value.
pub open spec fn flags_after(flags: u8, value: u8) -> u8 {
    let zero = with_bit(flags, ZERO_FLAG, value == 0);
    let sign = with_bit(zero, SIGN_FLAG, bit_is_set(value, 7));
    let parity = with_bit(sign, PARITY_FLAG, count_low_bits(value, 8) > 0);
    with_bit(parity, AUX_CARRY_FLAG, false)
}

/// The flags byte after the carry check saw the 16-bit intermediate result
/// `value`: Carry is set exactly when it does not fit in 8 bits.
pub open spec fn carry_after(flags: u8, value: u16) -> u8 {
    with_bit(flags, CARRY_FLAG, value > 0xFF)
}

/// `a` rotated left by one bit: bit 7 comes round to bit 0.
pub open spec fn rotated_left(a: u8) -> u8 {
    ((a % 128) * 2 + a / 128) as u8
}

/// `a` shifted left by one bit with `carry` filling bit 0.
pub open spec fn rotated_left_through(a: u8, carry: bool) -> u8 {
    ((a % 128) * 2 + if carry { 1int } else { 0int }) as u8
}

/// The fault that `instr` raises, if any. An instruction outside the
/// executed subset is unimplemented; one of the executed forms faults only
/// on a register of the wrong width.
pub open spec fn fault_of(instr: Instruction) -> Option<Fault> {
    match instr {
        Instruction::Nop
        | Instruction::Shld(_)
        | Instruction::Sta(_)
        | Instruction::Rlc
        | Instruction::Ral
        | Instruction::Stc
        | Instruction::Hlt => None,
        Instruction::Lxi(reg, _) | Instruction::Stax(reg) | Instruction::Inx(reg) => {
            if is_pair_register(reg) {
                None
            } else {
                Some(Fault::InvalidRegister(reg))
            }
        },
        Instruction::Inr(reg) | Instruction::Dcr(reg) | Instruction::Mvi(reg, _) => {
            if is_byte_register(reg) {
                None
            } else {
                Some(Fault::InvalidRegister(reg))
            }
        },
        Instruction::Mov(dst, src) => {
            if !is_byte_register(dst) {
                Some(Fault::InvalidRegister(dst))
            } else if !is_byte_register(src) {
                Some(Fault::InvalidRegister(src))
            } else {
                None
            }
        },
        _ => Some(Fault::Unimplemented(instr)),
    }
}

/// The state after an increment or decrement left `result` for `reg`: the
/// flag routine runs on the result, then the result is stored.
pub open spec fn stepped_reg8(m: Machine, reg: Register, result: u8) -> Machine {
    with_reg8(Machine { flags: flags_after(m.flags, result), ..m }, reg, result)
}

/// What `instr` does to the registers, the flags and memory. The program
/// counter is not touched: the step moves it. Stated for the instructions
/// that `fault_of` lets through.
pub open spec fn effect(m: Machine, instr: Instruction) -> Machine
    recommends
        fault_of(instr).is_none(),
{
    match instr {
        Instruction::Lxi(reg, value) => with_reg16(m, reg, value),
        Instruction::Stax(reg) => m.write(reg16(m, reg), m.a),
        Instruction::Shld(addr) => m.write(addr, m.l).write(addr.wrapping_add(1), m.h),
        Instruction::Sta(addr) => m.write(addr, m.a),
        Instruction::Inx(reg) => with_reg16(m, reg, reg16(m, reg).wrapping_add(1)),
        Instruction::Inr(reg) => stepped_reg8(m, reg, reg8(m, reg).wrapping_add(1)),
        Instruction::Dcr(reg) => stepped_reg8(m, reg, reg8(m, reg).wrapping_sub(1)),
        Instruction::Mvi(reg, value) => with_reg8(m, reg, value),
        Instruction::Rlc => Machine {
            a: rotated_left(m.a),
            flags: with_bit(m.flags, CARRY_FLAG, bit_is_set(m.a, 7)),
            ..m
        },
        Instruction::Ral => Machine {
            a: rotated_left_through(m.a, bit_is_set(m.flags, CARRY_FLAG)),
            flags: with_bit(m.flags, CARRY_FLAG, bit_is_set(m.a, 7)),
            ..m
        },
        Instruction::Stc => Machine { flags: with_bit(m.flags, CARRY_FLAG, true), ..m },
        Instruction::Mov(dst, src) => with_reg8(m, dst, reg8(m, src)),
        _ => m,
    }
}

/// The cycles that `instr` takes. A move takes 7 where either side is the
/// memory cell and 5 otherwise.
pub open spec fn cycles_of(instr: Instruction) -> usize {
    match instr {
        Instruction::Nop | Instruction::Rlc | Instruction::Ral | Instruction::Stc => 4,
        Instruction::Inx(_) | Instruction::Inr(_) | Instruction::Dcr(_) => 5,
        Instruction::Stax(_) | Instruction::Mvi(_, _) | Instruction::Hlt => 7,
        Instruction::Lxi(_, _) => 10,
        Instruction::Sta(_) => 13,
        Instruction::Shld(_) => 16,
        Instruction::Mov(dst, src) => if dst == Register::M || src == Register::M {
            7
        } else {
            5
        },
        _ => 0,
    }
}

/// No instruction takes more than `MAX_STEP_CYCLES`.
pub proof fn lemma_cycles_bounded(instr: Instruction)
    ensures
        cycles_of(instr) <= MAX_STEP_CYCLES,
{
}

/// No instruction reads or writes the program counter: its effect on a
/// state whose PC was moved is its effect on the state, with PC moved.
pub proof fn lemma_effect_keeps_pc(m: Machine, instr: Instruction, n: u16)
    ensures
        effect(m.advanced(n), instr) == effect(m, instr).advanced(n),
        effect(m, instr).pc == m.pc,
{
}

/// What the flag routine leaves in the flags byte, for every earlier
/// flags byte and every result: Zero is set exactly when the result is
/// zero, Sign exactly when bit 7 of the result is set, Parity exactly when
/// the result is not zero, AuxiliaryCarry is clear, and Carry and the three
/// unused bits are as before.
pub proof fn lemma_flags_after(flags: u8, value: u8)
    ensures
        bit_is_set(flags_after(flags, value), ZERO_FLAG) == (value == 0),
        bit_is_set(flags_after(flags, value), SIGN_FLAG) == bit_is_set(value, 7),
        bit_is_set(flags_after(flags, value), SIGN_FLAG) == (value >= 128),
        bit_is_set(flags_after(flags, value), PARITY_FLAG) == (value != 0),
        !bit_is_set(flags_after(flags, value), AUX_CARRY_FLAG),
        bit_is_set(flags_after(flags, value), CARRY_FLAG) == bit_is_set(flags, CARRY_FLAG),
        bit_is_set(flags_after(flags, value), 1) == bit_is_set(flags, 1),
        bit_is_set(flags_after(flags, value), 3) == bit_is_set(flags, 3),
        bit_is_set(flags_after(flags, value), 5) == bit_is_set(flags, 5),
{
    let zero = with_bit(flags, ZERO_FLAG, value == 0);
    let sign = with_bit(zero, SIGN_FLAG, bit_is_set(value, 7));
    let parity = with_bit(sign, PARITY_FLAG, count_low_bits(value, 8) > 0);
    lemma_count_bits_zero(value);
    assert((value & (1u8 << 7) != 0) == (value >= 128)) by (bit_vector);
    assert forall|bit: usize| bit < 8 implies bit_is_set(flags_after(flags, value), bit) == (if bit
        == AUX_CARRY_FLAG {
        false
    } else if bit == PARITY_FLAG {
        value != 0
    } else if bit == SIGN_FLAG {
        bit_is_set(value, 7)
    } else if bit == ZERO_FLAG {
        value == 0
    } else {
        bit_is_set(flags, bit)
    }) by {
        lemma_with_bit(flags, ZERO_FLAG, value == 0, bit);
        lemma_with_bit(zero, SIGN_FLAG, bit_is_set(value, 7), bit);
        lemma_with_bit(sign, PARITY_FLAG, count_low_bits(value, 8) > 0, bit);
        lemma_with_bit(parity, AUX_CARRY_FLAG, false, bit);
    }
}

/// An increment or a decrement of an 8-bit register other than the flags
/// byte leaves the flags that the flag routine computes from its result,
/// `x + 1` or `x - 1` modulo 256.
pub proof fn lemma_step_flags(m: Machine, reg: Register)
    requires
        is_byte_register(reg),
        reg != Register::Flags,
    ensures
        effect(m, Instruction::Inr(reg)).flags == flags_after(
            m.flags,
            reg8(m, reg).wrapping_add(1),
        ),
        effect(m, Instruction::Dcr(reg)).flags == flags_after(
            m.flags,
            reg8(m, reg).wrapping_sub(1),
        ),
{
}

/// Whatever the table gives can be executed or is unimplemented: no
/// opcode decodes to an instruction with a register of the wrong width.
pub proof fn lemma_decoded_registers_fit(opcode: u8, lo: u8, hi: u8)
    ensures
        fault_of(spec_decode(opcode, lo, hi)) matches Some(fault) ==> fault == Fault::Unimplemented(
            spec_decode(opcode, lo, hi),
        ),
{
}

/// The state of an executor: the processor, the cycles counted so far,
/// whether a halt was executed, and the opcodes whose form is cached.
pub struct ExecutorState {
    pub machine: Machine,
    pub cycles: usize,
    pub halted: bool,
    pub cached: Set<u8>,
}

/// The result of one step from `s`, and the state it leaves. A halted
/// machine stays as it is. Otherwise the opcode at PC is decoded with the
/// operand bytes that follow it. If the instruction faults, nothing
/// changes but the cache. If not, its effect takes place, PC ends exactly
/// past the instruction, and its cycles are added.
pub open spec fn step(s: ExecutorState) -> (Result<(), Fault>, ExecutorState) {
    let m = s.machine;
    let opcode = m.read(m.pc);
    let instr = fetched(m);
    let cached = s.cached.insert(opcode);
    if s.halted {
        (Ok(()), s)
    } else {
        match fault_of(instr) {
            Some(fault) => (Err(fault), ExecutorState { cached, ..s }),
            None => (
                Ok(()),
                ExecutorState {
                    machine: effect(m, instr).advanced(instr.spec_size()),
                    cycles: (s.cycles + cycles_of(instr)) as usize,
                    halted: instr == Instruction::Hlt,
                    cached,
                },
            ),
        }
    }
}

/// The instruction that a step from `m` fetches: the opcode at PC with
/// the operand bytes after it.
pub open spec fn fetched(m: Machine) -> Instruction {
    decode_at(m.advanced(1), m.read(m.pc))
}

/// A step that executes an instruction of `n` bytes from address `p`
/// leaves PC at `p + n`, whatever the cache holds and whatever the cycle
/// counter shows: modulo the width of an address, and as a plain sum where
/// the instruction ends within the address space. A halted machine
/// executes nothing, so the law speaks of one that is not halted.
pub proof fn lemma_step_advances_pc(s: ExecutorState)
    requires
        !s.halted,
        fault_of(fetched(s.machine)).is_none(),
    ensures
        step(s).0.is_ok(),
        step(s).1.machine.pc == s.machine.pc.wrapping_add(fetched(s.machine).spec_size()),
        1 <= fetched(s.machine).spec_size() <= 3,
        s.machine.pc + fetched(s.machine).spec_size() <= u16::MAX ==> step(s).1.machine.pc
            == s.machine.pc + fetched(s.machine).spec_size(),
{
    lemma_effect_keeps_pc(s.machine, fetched(s.machine), fetched(s.machine).spec_size());
}

/// What the cache holds has no part in a step: from two states that
/// differ in the cache alone, the result, the processor, the cycles and
/// the halt are the same. In particular each occurrence of an opcode is
/// executed with the operand bytes that follow that occurrence.
pub proof fn lemma_step_ignores_cache(s: ExecutorState, cached: Set<u8>)
    ensures
        step(ExecutorState { cached, ..s }).0 == step(s).0,
        step(ExecutorState { cached, ..s }).1.machine == step(s).1.machine,
        step(ExecutorState { cached, ..s }).1.cycles == step(s).1.cycles,
        step(ExecutorState { cached, ..s }).1.halted == step(s).1.halted,
{
}

/// The cache only grows: after a step it holds what it held before.
pub proof fn lemma_step_keeps_cache(s: ExecutorState, opcode: u8)
    requires
        s.cached.contains(opcode),
    ensures
        step(s).1.cached.contains(opcode),
{
}

/// Steps the processor that it borrows, one instruction at a time, and
/// counts the cycles. It keeps the form of each opcode it has met, so that
/// the table is consulted once per opcode; operands are read afresh each
/// time. When the executor is let go, the processor is as the last step
/// left it.
pub struct Executor<'a> {
    pub cpu: &'a mut CPU,
    pub cycles: usize,
    pub halted: bool,
    pub cache: DecodeCache,
}

impl<'a> View for Executor<'a> {
    type V = ExecutorState;

    open spec fn view(&self) -> ExecutorState {
        ExecutorState {
            machine: (*self.cpu)@,
            cycles: self.cycles,
            halted: self.halted,
            cached: self.cache@,
        }
    }
}

impl<'a> Executor<'a> {
    /// An executor over `cpu`, with no cycle counted and nothing cached.
    pub fn new(cpu: &'a mut CPU) -> (executor: Self)
        ensures
            executor@ == (ExecutorState {
                machine: old(cpu)@,
                cycles: 0,
                halted: false,
                cached: Set::empty(),
            }),
            *final(executor.cpu) == *final(cpu),
    {
        Self { cpu, cycles: 0, halted: false, cache: DecodeCache::new() }
    }

    /// Performs one step: fetches the opcode at PC, takes its form from the
    /// cache or the table, reads its operands from the instruction stream,
    /// executes it, and adds its cycles. PC ends exactly past the
    /// instruction, whether the form was cached or not. A fault leaves the
    /// processor and the cycle count as they were; a halted machine does
    /// not fetch. The cycle counter must have room for one more
    /// instruction.
    pub fn execute(&mut self) -> (result: Result<(), Fault>)
        requires
            old(self)@.cycles + MAX_STEP_CYCLES <= usize::MAX,
        ensures
            (result, final(self)@) == step(old(self)@),
            *final(final(self).cpu) == *final(old(self).cpu),
            !old(self)@.halted ==> (result.is_ok() <==> fault_of(
                fetched(old(self)@.machine),
            ).is_none()),
            !old(self)@.halted && result.is_ok() ==> final(self).cpu.pc == old(
                self,
            ).cpu.pc.wrapping_add(fetched(old(self)@.machine).spec_size()),
            !old(self)@.halted && result.is_ok() && old(self).cpu.pc + fetched(
                old(self)@.machine,
            ).spec_size() <= u16::MAX ==> final(self).cpu.pc == old(self).cpu.pc + fetched(
                old(self)@.machine,
            ).spec_size(),
            final(self)@.cycles == old(self)@.cycles + (if !old(self)@.halted && result.is_ok() {
                cycles_of(fetched(old(self)@.machine))
            } else {
                0
            }),
    {
        proof {
            lemma_effect_keeps_pc(
                old(self)@.machine,
                fetched(old(self)@.machine),
                fetched(old(self)@.machine).spec_size(),
            );
        }
        if self.halted {
            return Ok(());
        }
        let start = self.cpu.pc;
        let opcode = self.cpu.read_byte();
        let form = self.cache.form(opcode);
        let instr = read_operands(form, self.cpu);
        proof {
            let at_operand = old(self)@.machine.advanced(1);
            lemma_decode_operands(
                opcode,
                0,
                0,
                at_operand.read(at_operand.pc),
                at_operand.read(at_operand.pc.wrapping_add(1)),
            );
            assert(instr == fetched(old(self)@.machine));
            assert(self@.machine == old(self)@.machine.advanced(instr.spec_size()));
            lemma_effect_keeps_pc(old(self)@.machine, instr, instr.spec_size());
        }
        match self.execute_instruction(instr) {
            Ok((_, cycles)) => {
                self.cycles += cycles;
                Ok(())
            },
            Err(fault) => {
                self.cpu.jump(start);
                assert(self@.machine == old(self)@.machine);
                Err(fault)
            },
        }
    }

    /// The cycles counted since the start or the last reset.
    pub fn get_cycles(&self) -> (cycles: usize)
        ensures
            cycles == self@.cycles,
    {
        self.cycles
    }

    /// Sets the cycle count back to zero.
    pub fn reset_cycles(&mut self)
        ensures
            final(self)@ == (ExecutorState { cycles: 0, ..old(self)@ }),
            *final(final(self).cpu) == *final(old(self).cpu),
    {
        self.cycles = 0;
    }

    /// Whether a halt was executed.
    pub fn is_halted(&self) -> (halted: bool)
        ensures
            halted == self@.halted,
    {
        self.halted
    }

    /// Writes `value` to the pair that `reg` names.
    fn write_reg16(&mut self, reg: Register, value: u16)
        requires
            is_pair_register(reg),
        ensures
            final(self)@ == (ExecutorState {
                machine: with_reg16(old(self)@.machine, reg, value),
                ..old(self)@
            }),
            *final(final(self).cpu) == *final(old(self).cpu),
    {
        match reg {
            Register::A => self.cpu.set_psw(value),
            Register::B => self.cpu.set_bc(value),
            Register::D => self.cpu.set_de(value),
            Register::H => self.cpu.set_hl(value),
            _ => {
                self.cpu.sp = value;
            },
        }
    }

    /// Reads the pair that `reg` names.
    fn read_reg16(&self, reg: Register) -> (value: u16)
        requires
            is_pair_register(reg),
        ensures
            value == reg16(self@.machine, reg),
    {
        match reg {
            Register::A => self.cpu.get_psw(),
            Register::B => self.cpu.get_bc(),
            Register::D => self.cpu.get_de(),
            Register::H => self.cpu.get_hl(),
            _ => self.cpu.sp,
        }
    }

    /// Writes `value` to the 8-bit register `reg`, or to the memory cell
    /// that HL addresses.
    fn write_reg8(&mut self, reg: Register, value: u8)
        requires
            is_byte_register(reg),
        ensures
            final(self)@ == (ExecutorState {
                machine: with_reg8(old(self)@.machine, reg, value),
                ..old(self)@
            }),
            *final(final(self).cpu) == *final(old(self).cpu),
    {
        match reg {
            Register::A => {
                self.cpu.a = value;
            },
            Register::Flags => {
                self.cpu.flags = value;
            },
            Register::B => {
                self.cpu.b = value;
            },
            Register::C => {
                self.cpu.c = value;
            },
            Register::D => {
                self.cpu.d = value;
            },
            Register::E => {
                self.cpu.e = value;
            },
            Register::H => {
                self.cpu.h = value;
            },
            Register::L => {
                self.cpu.l = value;
            },
            _ => {
                let addr = self.cpu.get_hl();
                self.cpu.bus.write_byte(addr, value);
            },
        }
    }

    /// Reads the 8-bit register `reg`, or the memory cell that HL
    /// addresses.
    fn read_reg8(&self, reg: Register) -> (value: u8)
        requires
            is_byte_register(reg),
        ensures
            value == reg8(self@.machine, reg),
    {
        match reg {
            Register::A => self.cpu.a,
            Register::Flags => self.cpu.flags,
            Register::B => self.cpu.b,
            Register::C => self.cpu.c,
            Register::D => self.cpu.d,
            Register::E => self.cpu.e,
            Register::H => self.cpu.h,
            Register::L => self.cpu.l,
            _ => self.cpu.bus.read_byte(self.cpu.get_hl()),
        }
    }

    /// Runs the flag routine on the 8-bit result `value`.
    pub fn check_flags(&mut self, value: u8)
        ensures
            final(self)@ == (ExecutorState {
                machine: Machine {
                    flags: flags_after(old(self)@.machine.flags, value),
                    ..old(self)@.machine
                },
                ..old(self)@
            }),
            *final(final(self).cpu) == *final(old(self).cpu),
    {
        proof {
            assert(((value >> 7) == 1) == (value & (1u8 << 7) != 0)) by (bit_vector);
        }
        set_bit_enabled(&mut self.cpu.flags, ZERO_FLAG, value == 0);
        set_bit_enabled(&mut self.cpu.flags, SIGN_FLAG, (value >> 7) == 0x1);
        set_bit_enabled(&mut self.cpu.flags, PARITY_FLAG, get_enabled_bits(value) > 0);
        set_bit_enabled(&mut self.cpu.flags, AUX_CARRY_FLAG, false);
    }

    /// Runs the carry check on the 16-bit intermediate result `value`.
    pub fn check_carry(&mut self, value: u16)
        ensures
            final(self)@ == (ExecutorState {
                machine: Machine {
                    flags: carry_after(old(self)@.machine.flags, value),
                    ..old(self)@.machine
                },
                ..old(self)@
            }),
            *final(final(self).cpu) == *final(old(self).cpu),
    {
        set_bit_enabled(&mut self.cpu.flags, CARRY_FLAG, value > 0xFF);
    }

    /// Executes `instr` on the processor and returns its size in bytes and
    /// its cycles. The program counter and the cycle count are left to the
    /// step. An instruction that faults changes nothing.
    pub fn execute_instruction(&mut self, instr: Instruction) -> (result: Result<
        (u16, usize),
        Fault,
    >)
        ensures
            match fault_of(instr) {
                Some(fault) => result == Err::<(u16, usize), Fault>(fault) && final(self)@ == old(
                    self,
                )@,
                None => result == Ok::<(u16, usize), Fault>((instr.spec_size(), cycles_of(instr)))
                    && final(self)@ == (ExecutorState {
                    machine: effect(old(self)@.machine, instr),
                    halted: old(self)@.halted || instr == Instruction::Hlt,
                    ..old(self)@
                }),
            },
            *final(final(self).cpu) == *final(old(self).cpu),
    {
        if let Some(reg) = invalid_register(instr) {
            return Err(Fault::InvalidRegister(reg));
        }
        match instr {
            Instruction::Nop => Ok((1, 4)),
            Instruction::Lxi(reg, value) => {
                self.write_reg16(reg, value);
                Ok((3, 10))
            },
            Instruction::Stax(reg) => {
                let addr = self.read_reg16(reg);
                self.cpu.bus.write_byte(addr, self.cpu.a);
                Ok((1, 7))
            },
            Instruction::Shld(addr) => {
                self.cpu.bus.write_byte(addr, self.cpu.l);
                self.cpu.bus.write_byte(addr.wrapping_add(1), self.cpu.h);
                Ok((3, 16))
            },
            Instruction::Sta(addr) => {
                self.cpu.bus.write_byte(addr, self.cpu.a);
                Ok((3, 13))
            },
            Instruction::Inx(reg) => {
                let tmp = self.read_reg16(reg);
                self.write_reg16(reg, tmp.wrapping_add(1));
                Ok((1, 5))
            },
            Instruction::Inr(reg) => {
                let result = self.read_reg8(reg).wrapping_add(1);
                self.check_flags(result);
                self.write_reg8(reg, result);
                Ok((1, 5))
            },
            Instruction::Dcr(reg) => {
                let result = self.read_reg8(reg).wrapping_sub(1);
                self.check_flags(result);
                self.write_reg8(reg, result);
                Ok((1, 5))
            },
            Instruction::Mvi(reg, value) => {
                self.write_reg8(reg, value);
                Ok((2, 7))
            },
            Instruction::Rlc => {
                let a = self.cpu.a;
                proof {
                    assert((a << 1) | (a >> 7) == (a % 128) * 2 + a / 128) by (bit_vector);
                    assert(((a >> 7) == 1) == (a & (1u8 << 7) != 0)) by (bit_vector);
                }
                let bit = a >> 7;
                self.cpu.a = (a << 1) | bit;
                set_bit_enabled(&mut self.cpu.flags, CARRY_FLAG, bit == 1);
                Ok((1, 4))
            },
            Instruction::Ral => {
                let a = self.cpu.a;
                proof {
                    assert((a << 1) | 1 == (a % 128) * 2 + 1) by (bit_vector);
                    assert((a << 1) | 0 == (a % 128) * 2) by (bit_vector);
                    assert(((a >> 7) == 1) == (a & (1u8 << 7) != 0)) by (bit_vector);
                }
                let bit = a >> 7;
                let carry: u8 = if get_bit(self.cpu.flags, CARRY_FLAG) {
                    1
                } else {
                    0
                };
                self.cpu.a = (a << 1) | carry;
                set_bit_enabled(&mut self.cpu.flags, CARRY_FLAG, bit == 1);
                Ok((1, 4))
            },
            Instruction::Stc => {
                set_bit(&mut self.cpu.flags, CARRY_FLAG);
                Ok((1, 4))
            },
            Instruction::Mov(dst, src) => {
                let value = self.read_reg8(src);
                self.write_reg8(dst, value);
                let cycles: usize = match (dst, src) {
                    (Register::M, _) | (_, Register::M) => 7,
                    _ => 5,
                };
                Ok((1, cycles))
            },
            Instruction::Hlt => {
                self.halted = true;
                Ok((1, 7))
            },
            _ => Err(Fault::Unimplemented(instr)),
        }
    }
}

/// Whether `reg` can be read and written as 8 bits.
fn byte_register(reg: Register) -> (valid: bool)
    ensures
        valid == is_byte_register(reg),
{
    match reg {
        Register::SP => false,
        _ => true,
    }
}

/// Whether `reg` names a pair or SP.
fn pair_register(reg: Register) -> (valid: bool)
    ensures
        valid == is_pair_register(reg),
{
    match reg {
        Register::A | Register::B | Register::D | Register::H | Register::SP => true,
        _ => false,
    }
}

/// The register whose width stops `instr` from executing, if there is one.
fn invalid_register(instr: Instruction) -> (found: Option<Register>)
    ensures
        match found {
            Some(reg) => fault_of(instr) == Some(Fault::InvalidRegister(reg)),
            None => !(fault_of(instr) matches Some(Fault::InvalidRegister(_))),
        },
{
    match instr {
        Instruction::Lxi(reg, _) | Instruction::Stax(reg) | Instruction::Inx(reg) => {
            if pair_register(reg) {
                None
            } else {
                Some(reg)
            }
        },
        Instruction::Inr(reg) | Instruction::Dcr(reg) | Instruction::Mvi(reg, _) => {
            if byte_register(reg) {
                None
            } else {
                Some(reg)
            }
        },
        Instruction::Mov(dst, src) => {
            if !byte_register(dst) {
                Some(dst)
            } else if !byte_register(src) {
                Some(src)
            } else {
                None
            }
        },
        _ => None,
    }
}

} // verus!

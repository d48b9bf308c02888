//! The processor state: register file, flags byte, stack pointer, program
//! counter and the address space it owns.

use crate::bus::{is_memory, Bus, MEMORY_SIZE};
use crate::util::{
    bit_is_set, clear_bit, get_bit, get_high_byte, get_low_byte, join_bytes, set_bit,
    spec_high_byte, spec_join_bytes, spec_low_byte, with_bit,
};
use vstd::prelude::*;

verus! {

/// Bit of the flags byte that holds Carry.
pub const CARRY_FLAG: usize = 0;

/// Bit of the flags byte that holds Parity.
pub const PARITY_FLAG: usize = 2;

/// Bit of the flags byte that holds AuxiliaryCarry.
pub const AUX_CARRY_FLAG: usize = 4;

/// Bit of the flags byte that holds Zero.
pub const ZERO_FLAG: usize = 6;

/// Bit of the flags byte that holds Sign.
pub const SIGN_FLAG: usize = 7;

/// The mathematical state of the processor: the registers and the content
/// of memory by address. Register pairs are not stored; they are read off
/// the two 8-bit registers that make them up.
pub struct Machine {
    pub a: u8,
    pub flags: u8,
    pub b: u8,
    pub c: u8,
    pub d: u8,
    pub e: u8,
    pub h: u8,
    pub l: u8,
    pub sp: u16,
    pub pc: u16,
    pub mem: Seq<u8>,
}

impl Machine {
    /// The memory holds one byte per address.
    pub open spec fn wf(self) -> bool {
        is_memory(self.mem)
    }

    /// The byte at `address`.
    pub open spec fn read(self, address: u16) -> u8 {
        self.mem[address as int]
    }

    /// The state after `value` was stored at `address`.
    pub open spec fn write(self, address: u16, value: u8) -> Machine {
        Machine { mem: self.mem.update(address as int, value), ..self }
    }

    /// The pair PSW: accumulator high, flags low.
    pub open spec fn psw(self) -> u16 {
        spec_join_bytes(self.a, self.flags)
    }

    /// The pair BC: B high, C low.
    pub open spec fn bc(self) -> u16 {
        spec_join_bytes(self.b, self.c)
    }

    /// The pair DE: D high, E low.
    pub open spec fn de(self) -> u16 {
        spec_join_bytes(self.d, self.e)
    }

    /// The pair HL: H high, L low.
    pub open spec fn hl(self) -> u16 {
        spec_join_bytes(self.h, self.l)
    }

    /// The state after `value` was written to PSW.
    pub open spec fn with_psw(self, value: u16) -> Machine {
        Machine { a: spec_high_byte(value), flags: spec_low_byte(value), ..self }
    }

    /// The state after `value` was written to BC.
    pub open spec fn with_bc(self, value: u16) -> Machine {
        Machine { b: spec_high_byte(value), c: spec_low_byte(value), ..self }
    }

    /// The state after `value` was written to DE.
    pub open spec fn with_de(self, value: u16) -> Machine {
        Machine { d: spec_high_byte(value), e: spec_low_byte(value), ..self }
    }

    /// The state after `value` was written to HL.
    pub open spec fn with_hl(self, value: u16) -> Machine {
        Machine { h: spec_high_byte(value), l: spec_low_byte(value), ..self }
    }

    /// The state with the program counter moved `n` bytes on, modulo the
    /// width of an address.
    pub open spec fn advanced(self, n: u16) -> Machine {
        Machine { pc: self.pc.wrapping_add(n), ..self }
    }

    /// The 16-bit operand that starts at `address`: low byte first.
    pub open spec fn read_word_at(self, address: u16) -> u16 {
        spec_join_bytes(self.read(address.wrapping_add(1)), self.read(address))
    }

    /// The state after `value` was pushed: low byte at SP, high byte at
    /// SP + 1, and SP moved up by two.
    pub open spec fn pushed(self, value: u16) -> Machine {
        Machine {
            sp: self.sp.wrapping_add(2),
            ..self.write(self.sp, spec_low_byte(value)).write(
                self.sp.wrapping_add(1),
                spec_high_byte(value),
            )
        }
    }

    /// The word on top of the stack: high byte at SP - 1, low byte at
    /// SP - 2.
    pub open spec fn stack_top(self) -> u16 {
        spec_join_bytes(self.read(self.sp.wrapping_sub(1)), self.read(self.sp.wrapping_sub(2)))
    }

    /// The state after the top word was popped: SP moved down by two.
    pub open spec fn popped(self) -> Machine {
        Machine { sp: self.sp.wrapping_sub(2), ..self }
    }
}

/// The processor: eight 8-bit registers, SP, PC and the address space.
pub struct CPU {
    pub a: u8,
    pub flags: u8,
    pub b: u8,
    pub c: u8,
    pub d: u8,
    pub e: u8,
    pub h: u8,
    pub l: u8,
    pub sp: u16,
    pub pc: u16,
    pub bus: Bus,
}

impl View for CPU {
    type V = Machine;

    open spec fn view(&self) -> Machine {
        Machine {
            a: self.a,
            flags: self.flags,
            b: self.b,
            c: self.c,
            d: self.d,
            e: self.e,
            h: self.h,
            l: self.l,
            sp: self.sp,
            pc: self.pc,
            mem: self.bus@,
        }
    }
}

impl CPU {
    /// The state of every processor is well formed.
    pub proof fn lemma_wf(&self)
        ensures
            self@.wf(),
    {
        self.bus.lemma_is_memory();
    }

    /// A processor with every register zero over a zero-filled memory.
    pub fn new() -> (cpu: Self)
        ensures
            cpu@.wf(),
            cpu.a == 0 && cpu.flags == 0 && cpu.b == 0 && cpu.c == 0,
            cpu.d == 0 && cpu.e == 0 && cpu.h == 0 && cpu.l == 0,
            cpu.sp == 0 && cpu.pc == 0,
            forall|address: int| 0 <= address < MEMORY_SIZE ==> cpu@.mem[address] == 0,
    {
        Self { a: 0, flags: 0, b: 0, c: 0, d: 0, e: 0, h: 0, l: 0, sp: 0, pc: 0, bus: Bus::new() }
    }

    /// Consumes one byte of the instruction stream: returns the byte at PC
    /// and moves PC one byte on.
    pub fn read_byte(&mut self) -> (value: u8)
        ensures
            value == old(self)@.read(old(self).pc),
            final(self)@ == old(self)@.advanced(1),
    {
        let ret = self.bus.read_byte(self.pc);
        self.pc = self.pc.wrapping_add(1);
        ret
    }

    /// Consumes a 16-bit operand from the instruction stream, low byte
    /// first, and moves PC two bytes on.
    pub fn read_word(&mut self) -> (value: u16)
        ensures
            value == old(self)@.read_word_at(old(self).pc),
            final(self)@ == old(self)@.advanced(2),
    {
        let low = self.read_byte();
        let high = self.read_byte();
        join_bytes(high, low)
    }

    /// Sets PC to `address`.
    pub fn jump(&mut self, address: u16)
        ensures
            final(self)@ == (Machine { pc: address, ..old(self)@ }),
    {
        self.pc = address;
    }

    /// Pushes `value`: low byte at SP, high byte at SP + 1, then SP moves
    /// up by two.
    pub fn push(&mut self, value: u16)
        ensures
            final(self)@ == old(self)@.pushed(value),
    {
        self.bus.write_byte(self.sp, get_low_byte(value));
        self.bus.write_byte(self.sp.wrapping_add(1), get_high_byte(value));
        self.sp = self.sp.wrapping_add(2);
    }

    /// Pops the top word: high byte from SP - 1, low byte from SP - 2,
    /// then SP moves down by two.
    pub fn pop(&mut self) -> (value: u16)
        ensures
            value == old(self)@.stack_top(),
            final(self)@ == old(self)@.popped(),
    {
        let high = self.bus.read_byte(self.sp.wrapping_sub(1));
        let low = self.bus.read_byte(self.sp.wrapping_sub(2));
        self.sp = self.sp.wrapping_sub(2);
        join_bytes(high, low)
    }

    /// Sets the flag at bit `flag` of the flags byte.
    pub fn set_flag(&mut self, flag: usize)
        requires
            flag < 8,
        ensures
            final(self)@ == (Machine {
                flags: with_bit(old(self).flags, flag, true),
                ..old(self)@
            }),
    {
        set_bit(&mut self.flags, flag);
    }

    /// Clears the flag at bit `flag` of the flags byte.
    pub fn clear_flag(&mut self, flag: usize)
        requires
            flag < 8,
        ensures
            final(self)@ == (Machine {
                flags: with_bit(old(self).flags, flag, false),
                ..old(self)@
            }),
    {
        clear_bit(&mut self.flags, flag);
    }

    /// Whether the flag at bit `flag` of the flags byte is set.
    pub fn get_flag(&self, flag: usize) -> (set: bool)
        requires
            flag < 8,
        ensures
            set == bit_is_set(self.flags, flag),
    {
        get_bit(self.flags, flag)
    }

    /// Reads the pair PSW.
    pub fn get_psw(&self) -> (value: u16)
        ensures
            value == self@.psw(),
    {
        join_bytes(self.a, self.flags)
    }

    /// Reads the pair BC.
    pub fn get_bc(&self) -> (value: u16)
        ensures
            value == self@.bc(),
    {
        join_bytes(self.b, self.c)
    }

    /// Reads the pair DE.
    pub fn get_de(&self) -> (value: u16)
        ensures
            value == self@.de(),
    {
        join_bytes(self.d, self.e)
    }

    /// Reads the pair HL.
    pub fn get_hl(&self) -> (value: u16)
        ensures
            value == self@.hl(),
    {
        join_bytes(self.h, self.l)
    }

    /// Writes the pair PSW: the accumulator takes the high byte, the flags
    /// byte the low byte, whole.
    pub fn set_psw(&mut self, value: u16)
        ensures
            final(self)@ == old(self)@.with_psw(value),
    {
        self.a = get_high_byte(value);
        self.flags = get_low_byte(value);
    }

    /// Writes the pair BC.
    pub fn set_bc(&mut self, value: u16)
        ensures
            final(self)@ == old(self)@.with_bc(value),
    {
        self.b = get_high_byte(value);
        self.c = get_low_byte(value);
    }

    /// Writes the pair DE.
    pub fn set_de(&mut self, value: u16)
        ensures
            final(self)@ == old(self)@.with_de(value),
    {
        self.d = get_high_byte(value);
        self.e = get_low_byte(value);
    }

    /// Writes the pair HL.
    pub fn set_hl(&mut self, value: u16)
        ensures
            final(self)@ == old(self)@.with_hl(value),
    {
        self.h = get_high_byte(value);
        self.l = get_low_byte(value);
    }
}

/// A pair that was written reads back as written: BC, DE, HL and PSW alike.
/// PSW stores its low byte whole in the flags byte, so the accumulator and
/// every flag bit come back.
pub proof fn lemma_pair_round_trip(m: Machine, value: u16)
    ensures
        m.with_bc(value).bc() == value,
        m.with_de(value).de() == value,
        m.with_hl(value).hl() == value,
        m.with_psw(value).psw() == value,
        m.with_psw(value).a == spec_high_byte(value),
        forall|flag: usize|
            flag < 8 ==> bit_is_set(m.with_psw(value).flags, flag) == bit_is_set(
                spec_low_byte(value),
                flag,
            ),
{
}

/// A word that was pushed pops back as pushed, and SP returns to where it
/// stood before the push; the rest of the registers never moved.
pub proof fn lemma_stack_round_trip(m: Machine, value: u16)
    requires
        m.wf(),
    ensures
        m.pushed(value).stack_top() == value,
        m.pushed(value).popped().sp == m.sp,
        m.pushed(value).popped() == (Machine { mem: m.pushed(value).mem, ..m }),
{
}

} // verus!

//! The opcode decoder: the instruction forms and the table that maps each
//! of the 256 opcode bytes, with the operand bytes that follow it, to one.

use crate::cpu::{Machine, CPU};
use crate::util::{join_bytes, spec_join_bytes};
use vstd::prelude::*;

verus! {

/// A register operand. `A`, `B`, `D` and `H` also name the pairs PSW, BC,
/// DE and HL where an instruction takes a 16-bit operand; `M` is the memory
/// cell that HL addresses.
#[derive(Debug, Copy, Clone, PartialEq, Eq, Structural)]
pub enum Register {
    A,
    Flags,
    B,
    C,
    D,
    E,
    H,
    L,
    SP,
    M,
}

/// One decoded instruction with its operands. A value is pure data: it
/// keeps nothing of the place it was decoded from.
#[derive(Debug, Copy, Clone, PartialEq, Eq, Structural)]
pub enum Instruction {
    Nop,
    Lxi(Register, u16),
    Stax(Register),
    Shld(u16),
    Sta(u16),
    Inx(Register),
    Inr(Register),
    Dcr(Register),
    Mvi(Register, u8),
    Rlc,
    Ral,
    Daa,
    Stc,
    Dad(Register),
    Ldax(Register),
    Lhld(u16),
    Lda(u16),
    Dcx(Register),
    Rrc,
    Rar,
    Cma,
    Cmc,
    Mov(Register, Register),
    Hlt,
    Add(Register),
    Adc(Register),
    Sub(Register),
    Sbb(Register),
    Ana(Register),
    Xra(Register),
    Ora(Register),
    Cmp(Register),
    Rnz,
    Rnc,
    Rpo,
    Rp,
    Pop(Register),
    Jnz(u16),
    Jnc(u16),
    Jpo(u16),
    Jp(u16),
    Jmp(u16),
    Out(u8),
    Xthl,
    Di,
    Cnz(u16),
    Cnc(u16),
    Cpo(u16),
    Cp(u16),
    Push(Register),
    Adi(u8),
    Sui(u8),
    Ani(u8),
    Ori(u8),
    Rst(usize),
    Rz,
    Rc,
    Rpe,
    Rm,
    Ret,
    Pchl,
    Sphl,
    Jz(u16),
    Jc(u16),
    Jpe(u16),
    Jm(u16),
    In(u8),
    Xchg,
    Ei,
    Cz(u16),
    Cc(u16),
    Cpe(u16),
    Cm(u16),
    Call(u16),
    Aci(u8),
    Sbi(u8),
    Xri(u8),
    Cpi(u8),
}

/// What follows the opcode byte in the instruction stream.
#[derive(Debug, Copy, Clone, PartialEq, Eq, Structural)]
pub enum OperandKind {
    /// Nothing: the instruction is its opcode.
    Absent,
    /// One immediate byte or port number.
    Byte,
    /// A 16-bit address or immediate, low byte first.
    Word,
}

impl OperandKind {
    /// The number of operand bytes.
    pub open spec fn spec_len(self) -> u16 {
        match self {
            OperandKind::Absent => 0,
            OperandKind::Byte => 1,
            OperandKind::Word => 2,
        }
    }

    /// The number of operand bytes.
    pub fn len(self) -> (n: u16)
        ensures
            n == self.spec_len(),
    {
        match self {
            OperandKind::Absent => 0,
            OperandKind::Byte => 1,
            OperandKind::Word => 2,
        }
    }
}

impl Instruction {
    /// The kind of operand that this form carries.
    pub open spec fn spec_operand_kind(self) -> OperandKind {
        match self {
            Instruction::Lxi(_, _) | Instruction::Shld(_) | Instruction::Sta(_)
            | Instruction::Lhld(_) | Instruction::Lda(_) | Instruction::Jnz(_) | Instruction::Jnc(_)
            | Instruction::Jpo(_) | Instruction::Jp(_) | Instruction::Jmp(_) | Instruction::Cnz(_)
            | Instruction::Cnc(_) | Instruction::Cpo(_) | Instruction::Cp(_) | Instruction::Jz(_)
            | Instruction::Jc(_) | Instruction::Jpe(_) | Instruction::Jm(_) | Instruction::Cz(_)
            | Instruction::Cc(_) | Instruction::Cpe(_) | Instruction::Cm(_)
            | Instruction::Call(_) => OperandKind::Word,
            Instruction::Mvi(_, _) | Instruction::Out(_) | Instruction::Adi(_) | Instruction::Sui(_)
            | Instruction::Ani(_) | Instruction::Ori(_) | Instruction::In(_) | Instruction::Aci(_)
            | Instruction::Sbi(_) | Instruction::Xri(_) | Instruction::Cpi(_) => OperandKind::Byte,
            _ => OperandKind::Absent,
        }
    }

    /// The length of the instruction in bytes, opcode included.
    pub open spec fn spec_size(self) -> u16 {
        (1 + self.spec_operand_kind().spec_len()) as u16
    }

    /// This form with its operand replaced: a word form takes `hi:lo`, a
    /// byte form takes `lo`, a form without operand stays as it is.
    pub open spec fn spec_with_operands(self, lo: u8, hi: u8) -> Instruction {
        match self {
            Instruction::Lxi(reg, _) => Instruction::Lxi(reg, spec_join_bytes(hi, lo)),
            Instruction::Shld(_) => Instruction::Shld(spec_join_bytes(hi, lo)),
            Instruction::Sta(_) => Instruction::Sta(spec_join_bytes(hi, lo)),
            Instruction::Lhld(_) => Instruction::Lhld(spec_join_bytes(hi, lo)),
            Instruction::Lda(_) => Instruction::Lda(spec_join_bytes(hi, lo)),
            Instruction::Jnz(_) => Instruction::Jnz(spec_join_bytes(hi, lo)),
            Instruction::Jnc(_) => Instruction::Jnc(spec_join_bytes(hi, lo)),
            Instruction::Jpo(_) => Instruction::Jpo(spec_join_bytes(hi, lo)),
            Instruction::Jp(_) => Instruction::Jp(spec_join_bytes(hi, lo)),
            Instruction::Jmp(_) => Instruction::Jmp(spec_join_bytes(hi, lo)),
            Instruction::Cnz(_) => Instruction::Cnz(spec_join_bytes(hi, lo)),
            Instruction::Cnc(_) => Instruction::Cnc(spec_join_bytes(hi, lo)),
            Instruction::Cpo(_) => Instruction::Cpo(spec_join_bytes(hi, lo)),
            Instruction::Cp(_) => Instruction::Cp(spec_join_bytes(hi, lo)),
            Instruction::Jz(_) => Instruction::Jz(spec_join_bytes(hi, lo)),
            Instruction::Jc(_) => Instruction::Jc(spec_join_bytes(hi, lo)),
            Instruction::Jpe(_) => Instruction::Jpe(spec_join_bytes(hi, lo)),
            Instruction::Jm(_) => Instruction::Jm(spec_join_bytes(hi, lo)),
            Instruction::Cz(_) => Instruction::Cz(spec_join_bytes(hi, lo)),
            Instruction::Cc(_) => Instruction::Cc(spec_join_bytes(hi, lo)),
            Instruction::Cpe(_) => Instruction::Cpe(spec_join_bytes(hi, lo)),
            Instruction::Cm(_) => Instruction::Cm(spec_join_bytes(hi, lo)),
            Instruction::Call(_) => Instruction::Call(spec_join_bytes(hi, lo)),
            Instruction::Mvi(reg, _) => Instruction::Mvi(reg, lo),
            Instruction::Out(_) => Instruction::Out(lo),
            Instruction::Adi(_) => Instruction::Adi(lo),
            Instruction::Sui(_) => Instruction::Sui(lo),
            Instruction::Ani(_) => Instruction::Ani(lo),
            Instruction::Ori(_) => Instruction::Ori(lo),
            Instruction::In(_) => Instruction::In(lo),
            Instruction::Aci(_) => Instruction::Aci(lo),
            Instruction::Sbi(_) => Instruction::Sbi(lo),
            Instruction::Xri(_) => Instruction::Xri(lo),
            Instruction::Cpi(_) => Instruction::Cpi(lo),
            _ => self,
        }
    }

    /// The kind of operand that this form carries.
    pub fn operand_kind(self) -> (kind: OperandKind)
        ensures
            kind == self.spec_operand_kind(),
    {
        match self {
            Instruction::Lxi(_, _) | Instruction::Shld(_) | Instruction::Sta(_)
            | Instruction::Lhld(_) | Instruction::Lda(_) | Instruction::Jnz(_) | Instruction::Jnc(_)
            | Instruction::Jpo(_) | Instruction::Jp(_) | Instruction::Jmp(_) | Instruction::Cnz(_)
            | Instruction::Cnc(_) | Instruction::Cpo(_) | Instruction::Cp(_) | Instruction::Jz(_)
            | Instruction::Jc(_) | Instruction::Jpe(_) | Instruction::Jm(_) | Instruction::Cz(_)
            | Instruction::Cc(_) | Instruction::Cpe(_) | Instruction::Cm(_)
            | Instruction::Call(_) => OperandKind::Word,
            Instruction::Mvi(_, _) | Instruction::Out(_) | Instruction::Adi(_) | Instruction::Sui(_)
            | Instruction::Ani(_) | Instruction::Ori(_) | Instruction::In(_) | Instruction::Aci(_)
            | Instruction::Sbi(_) | Instruction::Xri(_) | Instruction::Cpi(_) => OperandKind::Byte,
            _ => OperandKind::Absent,
        }
    }

    /// The length of the instruction in bytes, opcode included.
    pub fn size(self) -> (n: u16)
        ensures
            n == self.spec_size(),
            1 <= n <= 3,
    {
        1 + self.operand_kind().len()
    }

    /// This form with its operand replaced by the bytes given.
    pub fn with_operands(self, lo: u8, hi: u8) -> (instr: Instruction)
        ensures
            instr == self.spec_with_operands(lo, hi),
    {
        let word = join_bytes(hi, lo);
        match self {
            Instruction::Lxi(reg, _) => Instruction::Lxi(reg, word),
            Instruction::Shld(_) => Instruction::Shld(word),
            Instruction::Sta(_) => Instruction::Sta(word),
            Instruction::Lhld(_) => Instruction::Lhld(word),
            Instruction::Lda(_) => Instruction::Lda(word),
            Instruction::Jnz(_) => Instruction::Jnz(word),
            Instruction::Jnc(_) => Instruction::Jnc(word),
            Instruction::Jpo(_) => Instruction::Jpo(word),
            Instruction::Jp(_) => Instruction::Jp(word),
            Instruction::Jmp(_) => Instruction::Jmp(word),
            Instruction::Cnz(_) => Instruction::Cnz(word),
            Instruction::Cnc(_) => Instruction::Cnc(word),
            Instruction::Cpo(_) => Instruction::Cpo(word),
            Instruction::Cp(_) => Instruction::Cp(word),
            Instruction::Jz(_) => Instruction::Jz(word),
            Instruction::Jc(_) => Instruction::Jc(word),
            Instruction::Jpe(_) => Instruction::Jpe(word),
            Instruction::Jm(_) => Instruction::Jm(word),
            Instruction::Cz(_) => Instruction::Cz(word),
            Instruction::Cc(_) => Instruction::Cc(word),
            Instruction::Cpe(_) => Instruction::Cpe(word),
            Instruction::Cm(_) => Instruction::Cm(word),
            Instruction::Call(_) => Instruction::Call(word),
            Instruction::Mvi(reg, _) => Instruction::Mvi(reg, lo),
            Instruction::Out(_) => Instruction::Out(lo),
            Instruction::Adi(_) => Instruction::Adi(lo),
            Instruction::Sui(_) => Instruction::Sui(lo),
            Instruction::Ani(_) => Instruction::Ani(lo),
            Instruction::Ori(_) => Instruction::Ori(lo),
            Instruction::In(_) => Instruction::In(lo),
            Instruction::Aci(_) => Instruction::Aci(lo),
            Instruction::Sbi(_) => Instruction::Sbi(lo),
            Instruction::Xri(_) => Instruction::Xri(lo),
            Instruction::Cpi(_) => Instruction::Cpi(lo),
            _ => self,
        }
    }
}

/// The 8-bit register that a 3-bit register field names.
pub open spec fn register_of(code: u8) -> Register {
    if code == 0 {
        Register::B
    } else if code == 1 {
        Register::C
    } else if code == 2 {
        Register::D
    } else if code == 3 {
        Register::E
    } else if code == 4 {
        Register::H
    } else if code == 5 {
        Register::L
    } else if code == 6 {
        Register::M
    } else {
        Register::A
    }
}

/// The register pair that a 2-bit pair field names: BC, DE, HL, and as the
/// fourth either SP or, for the stack instructions, PSW.
pub open spec fn pair_of(code: u8, fourth: Register) -> Register {
    if code == 0 {
        Register::B
    } else if code == 1 {
        Register::D
    } else if code == 2 {
        Register::H
    } else {
        fourth
    }
}

/// Opcodes `0x00..=0x3F`: loads, stores, increments, decrements, rotates.
/// `y` is the middle field of the opcode and `z` the lowest.
pub open spec fn decode_first_quarter(y: u8, z: u8, lo: u8, word: u16) -> Instruction {
    let pair = pair_of(y / 2, Register::SP);
    if z == 0 {
        Instruction::Nop
    } else if z == 1 {
        if y % 2 == 0 {
            Instruction::Lxi(pair, word)
        } else {
            Instruction::Dad(pair)
        }
    } else if z == 2 {
        if y == 0 {
            Instruction::Stax(Register::B)
        } else if y == 1 {
            Instruction::Ldax(Register::B)
        } else if y == 2 {
            Instruction::Stax(Register::D)
        } else if y == 3 {
            Instruction::Ldax(Register::D)
        } else if y == 4 {
            Instruction::Shld(word)
        } else if y == 5 {
            Instruction::Lhld(word)
        } else if y == 6 {
            Instruction::Sta(word)
        } else {
            Instruction::Lda(word)
        }
    } else if z == 3 {
        if y % 2 == 0 {
            Instruction::Inx(pair)
        } else {
            Instruction::Dcx(pair)
        }
    } else if z == 4 {
        Instruction::Inr(register_of(y))
    } else if z == 5 {
        Instruction::Dcr(register_of(y))
    } else if z == 6 {
        Instruction::Mvi(register_of(y), lo)
    } else {
        if y == 0 {
            Instruction::Rlc
        } else if y == 1 {
            Instruction::Rrc
        } else if y == 2 {
            Instruction::Ral
        } else if y == 3 {
            Instruction::Rar
        } else if y == 4 {
            Instruction::Daa
        } else if y == 5 {
            Instruction::Cma
        } else if y == 6 {
            Instruction::Stc
        } else {
            Instruction::Cmc
        }
    }
}

/// Opcodes `0x80..=0xBF`: accumulator arithmetic and logic on a register.
pub open spec fn decode_third_quarter(y: u8, z: u8) -> Instruction {
    let reg = register_of(z);
    if y == 0 {
        Instruction::Add(reg)
    } else if y == 1 {
        Instruction::Adc(reg)
    } else if y == 2 {
        Instruction::Sub(reg)
    } else if y == 3 {
        Instruction::Sbb(reg)
    } else if y == 4 {
        Instruction::Ana(reg)
    } else if y == 5 {
        Instruction::Xra(reg)
    } else if y == 6 {
        Instruction::Ora(reg)
    } else {
        Instruction::Cmp(reg)
    }
}

/// Opcodes `0xC0..=0xFF`: returns, jumps, calls, the stack, immediates,
/// ports and restarts. The unassigned encodings `0xCB`, `0xD9`, `0xDD`,
/// `0xED` and `0xFD` stand for the jump, the return and the call.
pub open spec fn decode_fourth_quarter(y: u8, z: u8, lo: u8, word: u16) -> Instruction {
    let pair = pair_of(y / 2, Register::A);
    if z == 0 {
        if y == 0 {
            Instruction::Rnz
        } else if y == 1 {
            Instruction::Rz
        } else if y == 2 {
            Instruction::Rnc
        } else if y == 3 {
            Instruction::Rc
        } else if y == 4 {
            Instruction::Rpo
        } else if y == 5 {
            Instruction::Rpe
        } else if y == 6 {
            Instruction::Rp
        } else {
            Instruction::Rm
        }
    } else if z == 1 {
        if y % 2 == 0 {
            Instruction::Pop(pair)
        } else if y == 5 {
            Instruction::Pchl
        } else if y == 7 {
            Instruction::Sphl
        } else {
            Instruction::Ret
        }
    } else if z == 2 {
        if y == 0 {
            Instruction::Jnz(word)
        } else if y == 1 {
            Instruction::Jz(word)
        } else if y == 2 {
            Instruction::Jnc(word)
        } else if y == 3 {
            Instruction::Jc(word)
        } else if y == 4 {
            Instruction::Jpo(word)
        } else if y == 5 {
            Instruction::Jpe(word)
        } else if y == 6 {
            Instruction::Jp(word)
        } else {
            Instruction::Jm(word)
        }
    } else if z == 3 {
        if y == 0 || y == 1 {
            Instruction::Jmp(word)
        } else if y == 2 {
            Instruction::Out(lo)
        } else if y == 3 {
            Instruction::In(lo)
        } else if y == 4 {
            Instruction::Xthl
        } else if y == 5 {
            Instruction::Xchg
        } else if y == 6 {
            Instruction::Di
        } else {
            Instruction::Ei
        }
    } else if z == 4 {
        if y == 0 {
            Instruction::Cnz(word)
        } else if y == 1 {
            Instruction::Cz(word)
        } else if y == 2 {
            Instruction::Cnc(word)
        } else if y == 3 {
            Instruction::Cc(word)
        } else if y == 4 {
            Instruction::Cpo(word)
        } else if y == 5 {
            Instruction::Cpe(word)
        } else if y == 6 {
            Instruction::Cp(word)
        } else {
            Instruction::Cm(word)
        }
    } else if z == 5 {
        if y % 2 == 0 {
            Instruction::Push(pair)
        } else {
            Instruction::Call(word)
        }
    } else if z == 6 {
        if y == 0 {
            Instruction::Adi(lo)
        } else if y == 1 {
            Instruction::Aci(lo)
        } else if y == 2 {
            Instruction::Sui(lo)
        } else if y == 3 {
            Instruction::Sbi(lo)
        } else if y == 4 {
            Instruction::Ani(lo)
        } else if y == 5 {
            Instruction::Xri(lo)
        } else if y == 6 {
            Instruction::Ori(lo)
        } else {
            Instruction::Cpi(lo)
        }
    } else {
        Instruction::Rst(y as usize)
    }
}

/// The instruction that `opcode` encodes when `lo` and `hi` are the two
/// bytes after it. An opcode is read as three fields, `xx yyy zzz`: `xx`
/// picks the quarter of the table, `yyy` and `zzz` the row and the register
/// operands within it. A word operand is `hi:lo`, a byte operand is `lo`.
pub open spec fn spec_decode(opcode: u8, lo: u8, hi: u8) -> Instruction {
    let x = opcode / 64;
    let y = (opcode / 8) % 8;
    let z = opcode % 8;
    let word = spec_join_bytes(hi, lo);
    if x == 0 {
        decode_first_quarter(y, z, lo, word)
    } else if x == 1 {
        if opcode == 0x76 {
            Instruction::Hlt
        } else {
            Instruction::Mov(register_of(y), register_of(z))
        }
    } else if x == 2 {
        decode_third_quarter(y, z)
    } else {
        decode_fourth_quarter(y, z, lo, word)
    }
}

/// The kind of operand that follows `opcode` in the instruction stream.
pub open spec fn operand_kind_of(opcode: u8) -> OperandKind {
    spec_decode(opcode, 0, 0).spec_operand_kind()
}

/// The instruction that `opcode` encodes when its operand bytes are those
/// at the program counter of `m`: PC stands just past the opcode.
pub open spec fn decode_at(m: Machine, opcode: u8) -> Instruction {
    spec_decode(opcode, m.read(m.pc), m.read(m.pc.wrapping_add(1)))
}

/// The form of an opcode does not depend on the operand bytes: decoding
/// with any bytes and then putting `lo` and `hi` in gives what decoding with
/// `lo` and `hi` gives, and the kind of operand is that of the opcode.
pub proof fn lemma_decode_operands(opcode: u8, lo0: u8, hi0: u8, lo: u8, hi: u8)
    ensures
        spec_decode(opcode, lo0, hi0).spec_with_operands(lo, hi) == spec_decode(opcode, lo, hi),
        spec_decode(opcode, lo, hi).spec_operand_kind() == operand_kind_of(opcode),
{
}

/// An instruction carries its own operand: where an opcode takes a word,
/// two decodings agree only if both operand bytes agree; where it takes a
/// byte, only if that byte agrees.
pub proof fn lemma_decode_keeps_operands(opcode: u8, lo1: u8, hi1: u8, lo2: u8, hi2: u8)
    ensures
        operand_kind_of(opcode) == OperandKind::Word ==> (spec_decode(opcode, lo1, hi1)
            == spec_decode(opcode, lo2, hi2) <==> lo1 == lo2 && hi1 == hi2),
        operand_kind_of(opcode) == OperandKind::Byte ==> (spec_decode(opcode, lo1, hi1)
            == spec_decode(opcode, lo2, hi2) <==> lo1 == lo2),
        operand_kind_of(opcode) == OperandKind::Absent ==> spec_decode(opcode, lo1, hi1)
            == spec_decode(opcode, lo2, hi2),
{
}

/// Decodes `opcode` with the two bytes that follow it in the instruction
/// stream. Every byte is a legal opcode; a form takes from `lo` and `hi`
/// what its operand needs and ignores the rest.
pub fn decode(opcode: u8, lo: u8, hi: u8) -> (instr: Instruction)
    ensures
        instr == spec_decode(opcode, lo, hi),
{
    let word = join_bytes(hi, lo);
    match opcode {
        0x00 | 0x08 | 0x10 | 0x18 | 0x20 | 0x28 | 0x30 | 0x38 => Instruction::Nop,
        0x01 => Instruction::Lxi(Register::B, word),
        0x11 => Instruction::Lxi(Register::D, word),
        0x21 => Instruction::Lxi(Register::H, word),
        0x31 => Instruction::Lxi(Register::SP, word),
        0x02 => Instruction::Stax(Register::B),
        0x12 => Instruction::Stax(Register::D),
        0x22 => Instruction::Shld(word),
        0x32 => Instruction::Sta(word),
        0x03 => Instruction::Inx(Register::B),
        0x13 => Instruction::Inx(Register::D),
        0x23 => Instruction::Inx(Register::H),
        0x33 => Instruction::Inx(Register::SP),
        0x04 => Instruction::Inr(Register::B),
        0x14 => Instruction::Inr(Register::D),
        0x24 => Instruction::Inr(Register::H),
        0x34 => Instruction::Inr(Register::M),
        0x0C => Instruction::Inr(Register::C),
        0x1C => Instruction::Inr(Register::E),
        0x2C => Instruction::Inr(Register::L),
        0x3C => Instruction::Inr(Register::A),
        0x05 => Instruction::Dcr(Register::B),
        0x15 => Instruction::Dcr(Register::D),
        0x25 => Instruction::Dcr(Register::H),
        0x35 => Instruction::Dcr(Register::M),
        0x0D => Instruction::Dcr(Register::C),
        0x1D => Instruction::Dcr(Register::E),
        0x2D => Instruction::Dcr(Register::L),
        0x3D => Instruction::Dcr(Register::A),
        0x06 => Instruction::Mvi(Register::B, lo),
        0x16 => Instruction::Mvi(Register::D, lo),
        0x26 => Instruction::Mvi(Register::H, lo),
        0x36 => Instruction::Mvi(Register::M, lo),
        0x0E => Instruction::Mvi(Register::C, lo),
        0x1E => Instruction::Mvi(Register::E, lo),
        0x2E => Instruction::Mvi(Register::L, lo),
        0x3E => Instruction::Mvi(Register::A, lo),
        0x07 => Instruction::Rlc,
        0x17 => Instruction::Ral,
        0x27 => Instruction::Daa,
        0x37 => Instruction::Stc,
        0x09 => Instruction::Dad(Register::B),
        0x19 => Instruction::Dad(Register::D),
        0x29 => Instruction::Dad(Register::H),
        0x39 => Instruction::Dad(Register::SP),
        0x0A => Instruction::Ldax(Register::B),
        0x1A => Instruction::Ldax(Register::D),
        0x2A => Instruction::Lhld(word),
        0x3A => Instruction::Lda(word),
        0x0B => Instruction::Dcx(Register::B),
        0x1B => Instruction::Dcx(Register::D),
        0x2B => Instruction::Dcx(Register::H),
        0x3B => Instruction::Dcx(Register::SP),
        0x0F => Instruction::Rrc,
        0x1F => Instruction::Rar,
        0x2F => Instruction::Cma,
        0x3F => Instruction::Cmc,
        0x40 => Instruction::Mov(Register::B, Register::B),
        0x41 => Instruction::Mov(Register::B, Register::C),
        0x42 => Instruction::Mov(Register::B, Register::D),
        0x43 => Instruction::Mov(Register::B, Register::E),
        0x44 => Instruction::Mov(Register::B, Register::H),
        0x45 => Instruction::Mov(Register::B, Register::L),
        0x46 => Instruction::Mov(Register::B, Register::M),
        0x47 => Instruction::Mov(Register::B, Register::A),
        0x48 => Instruction::Mov(Register::C, Register::B),
        0x49 => Instruction::Mov(Register::C, Register::C),
        0x4A => Instruction::Mov(Register::C, Register::D),
        0x4B => Instruction::Mov(Register::C, Register::E),
        0x4C => Instruction::Mov(Register::C, Register::H),
        0x4D => Instruction::Mov(Register::C, Register::L),
        0x4E => Instruction::Mov(Register::C, Register::M),
        0x4F => Instruction::Mov(Register::C, Register::A),
        0x50 => Instruction::Mov(Register::D, Register::B),
        0x51 => Instruction::Mov(Register::D, Register::C),
        0x52 => Instruction::Mov(Register::D, Register::D),
        0x53 => Instruction::Mov(Register::D, Register::E),
        0x54 => Instruction::Mov(Register::D, Register::H),
        0x55 => Instruction::Mov(Register::D, Register::L),
        0x56 => Instruction::Mov(Register::D, Register::M),
        0x57 => Instruction::Mov(Register::D, Register::A),
        0x58 => Instruction::Mov(Register::E, Register::B),
        0x59 => Instruction::Mov(Register::E, Register::C),
        0x5A => Instruction::Mov(Register::E, Register::D),
        0x5B => Instruction::Mov(Register::E, Register::E),
        0x5C => Instruction::Mov(Register::E, Register::H),
        0x5D => Instruction::Mov(Register::E, Register::L),
        0x5E => Instruction::Mov(Register::E, Register::M),
        0x5F => Instruction::Mov(Register::E, Register::A),
        0x60 => Instruction::Mov(Register::H, Register::B),
        0x61 => Instruction::Mov(Register::H, Register::C),
        0x62 => Instruction::Mov(Register::H, Register::D),
        0x63 => Instruction::Mov(Register::H, Register::E),
        0x64 => Instruction::Mov(Register::H, Register::H),
        0x65 => Instruction::Mov(Register::H, Register::L),
        0x66 => Instruction::Mov(Register::H, Register::M),
        0x67 => Instruction::Mov(Register::H, Register::A),
        0x68 => Instruction::Mov(Register::L, Register::B),
        0x69 => Instruction::Mov(Register::L, Register::C),
        0x6A => Instruction::Mov(Register::L, Register::D),
        0x6B => Instruction::Mov(Register::L, Register::E),
        0x6C => Instruction::Mov(Register::L, Register::H),
        0x6D => Instruction::Mov(Register::L, Register::L),
        0x6E => Instruction::Mov(Register::L, Register::M),
        0x6F => Instruction::Mov(Register::L, Register::A),
        0x70 => Instruction::Mov(Register::M, Register::B),
        0x71 => Instruction::Mov(Register::M, Register::C),
        0x72 => Instruction::Mov(Register::M, Register::D),
        0x73 => Instruction::Mov(Register::M, Register::E),
        0x74 => Instruction::Mov(Register::M, Register::H),
        0x75 => Instruction::Mov(Register::M, Register::L),
        0x76 => Instruction::Hlt,
        0x77 => Instruction::Mov(Register::M, Register::A),
        0x78 => Instruction::Mov(Register::A, Register::B),
        0x79 => Instruction::Mov(Register::A, Register::C),
        0x7A => Instruction::Mov(Register::A, Register::D),
        0x7B => Instruction::Mov(Register::A, Register::E),
        0x7C => Instruction::Mov(Register::A, Register::H),
        0x7D => Instruction::Mov(Register::A, Register::L),
        0x7E => Instruction::Mov(Register::A, Register::M),
        0x7F => Instruction::Mov(Register::A, Register::A),
        0x80 => Instruction::Add(Register::B),
        0x81 => Instruction::Add(Register::C),
        0x82 => Instruction::Add(Register::D),
        0x83 => Instruction::Add(Register::E),
        0x84 => Instruction::Add(Register::H),
        0x85 => Instruction::Add(Register::L),
        0x86 => Instruction::Add(Register::M),
        0x87 => Instruction::Add(Register::A),
        0x88 => Instruction::Adc(Register::B),
        0x89 => Instruction::Adc(Register::C),
        0x8A => Instruction::Adc(Register::D),
        0x8B => Instruction::Adc(Register::E),
        0x8C => Instruction::Adc(Register::H),
        0x8D => Instruction::Adc(Register::L),
        0x8E => Instruction::Adc(Register::M),
        0x8F => Instruction::Adc(Register::A),
        0x90 => Instruction::Sub(Register::B),
        0x91 => Instruction::Sub(Register::C),
        0x92 => Instruction::Sub(Register::D),
        0x93 => Instruction::Sub(Register::E),
        0x94 => Instruction::Sub(Register::H),
        0x95 => Instruction::Sub(Register::L),
        0x96 => Instruction::Sub(Register::M),
        0x97 => Instruction::Sub(Register::A),
        0x98 => Instruction::Sbb(Register::B),
        0x99 => Instruction::Sbb(Register::C),
        0x9A => Instruction::Sbb(Register::D),
        0x9B => Instruction::Sbb(Register::E),
        0x9C => Instruction::Sbb(Register::H),
        0x9D => Instruction::Sbb(Register::L),
        0x9E => Instruction::Sbb(Register::M),
        0x9F => Instruction::Sbb(Register::A),
        0xA0 => Instruction::Ana(Register::B),
        0xA1 => Instruction::Ana(Register::C),
        0xA2 => Instruction::Ana(Register::D),
        0xA3 => Instruction::Ana(Register::E),
        0xA4 => Instruction::Ana(Register::H),
        0xA5 => Instruction::Ana(Register::L),
        0xA6 => Instruction::Ana(Register::M),
        0xA7 => Instruction::Ana(Register::A),
        0xA8 => Instruction::Xra(Register::B),
        0xA9 => Instruction::Xra(Register::C),
        0xAA => Instruction::Xra(Register::D),
        0xAB => Instruction::Xra(Register::E),
        0xAC => Instruction::Xra(Register::H),
        0xAD => Instruction::Xra(Register::L),
        0xAE => Instruction::Xra(Register::M),
        0xAF => Instruction::Xra(Register::A),
        0xB0 => Instruction::Ora(Register::B),
        0xB1 => Instruction::Ora(Register::C),
        0xB2 => Instruction::Ora(Register::D),
        0xB3 => Instruction::Ora(Register::E),
        0xB4 => Instruction::Ora(Register::H),
        0xB5 => Instruction::Ora(Register::L),
        0xB6 => Instruction::Ora(Register::M),
        0xB7 => Instruction::Ora(Register::A),
        0xB8 => Instruction::Cmp(Register::B),
        0xB9 => Instruction::Cmp(Register::C),
        0xBA => Instruction::Cmp(Register::D),
        0xBB => Instruction::Cmp(Register::E),
        0xBC => Instruction::Cmp(Register::H),
        0xBD => Instruction::Cmp(Register::L),
        0xBE => Instruction::Cmp(Register::M),
        0xBF => Instruction::Cmp(Register::A),
        0xC0 => Instruction::Rnz,
        0xD0 => Instruction::Rnc,
        0xE0 => Instruction::Rpo,
        0xF0 => Instruction::Rp,
        0xC1 => Instruction::Pop(Register::B),
        0xD1 => Instruction::Pop(Register::D),
        0xE1 => Instruction::Pop(Register::H),
        0xF1 => Instruction::Pop(Register::A),
        0xC2 => Instruction::Jnz(word),
        0xD2 => Instruction::Jnc(word),
        0xE2 => Instruction::Jpo(word),
        0xF2 => Instruction::Jp(word),
        0xC3 | 0xCB => Instruction::Jmp(word),
        0xD3 => Instruction::Out(lo),
        0xE3 => Instruction::Xthl,
        0xF3 => Instruction::Di,
        0xC4 => Instruction::Cnz(word),
        0xD4 => Instruction::Cnc(word),
        0xE4 => Instruction::Cpo(word),
        0xF4 => Instruction::Cp(word),
        0xC5 => Instruction::Push(Register::B),
        0xD5 => Instruction::Push(Register::D),
        0xE5 => Instruction::Push(Register::H),
        0xF5 => Instruction::Push(Register::A),
        0xC6 => Instruction::Adi(lo),
        0xD6 => Instruction::Sui(lo),
        0xE6 => Instruction::Ani(lo),
        0xF6 => Instruction::Ori(lo),
        0xC7 => Instruction::Rst(0),
        0xD7 => Instruction::Rst(2),
        0xE7 => Instruction::Rst(4),
        0xF7 => Instruction::Rst(6),
        0xC8 => Instruction::Rz,
        0xD8 => Instruction::Rc,
        0xE8 => Instruction::Rpe,
        0xF8 => Instruction::Rm,
        0xC9 | 0xD9 => Instruction::Ret,
        0xE9 => Instruction::Pchl,
        0xF9 => Instruction::Sphl,
        0xCA => Instruction::Jz(word),
        0xDA => Instruction::Jc(word),
        0xEA => Instruction::Jpe(word),
        0xFA => Instruction::Jm(word),
        0xDB => Instruction::In(lo),
        0xEB => Instruction::Xchg,
        0xFB => Instruction::Ei,
        0xCC => Instruction::Cz(word),
        0xDC => Instruction::Cc(word),
        0xEC => Instruction::Cpe(word),
        0xFC => Instruction::Cm(word),
        0xCD | 0xDD | 0xED | 0xFD => Instruction::Call(word),
        0xCE => Instruction::Aci(lo),
        0xDE => Instruction::Sbi(lo),
        0xEE => Instruction::Xri(lo),
        0xFE => Instruction::Cpi(lo),
        0xCF => Instruction::Rst(1),
        0xDF => Instruction::Rst(3),
        0xEF => Instruction::Rst(5),
        0xFF => Instruction::Rst(7),
    }
}

/// Decodes `opcode`, consuming from the instruction stream the operand
/// bytes that its form carries: none, one, or two with the low byte first.
/// The program counter ends just past the operand.
pub fn decode_instruction(opcode: u8, cpu: &mut CPU) -> (instr: Instruction)
    ensures
        instr == decode_at(old(cpu)@, opcode),
        final(cpu)@ == old(cpu)@.advanced(operand_kind_of(opcode).spec_len()),
{
    let form = decode(opcode, 0, 0);
    read_operands(form, cpu)
}

/// Completes `form` with the operand bytes that it carries, consumed from
/// the instruction stream at the program counter.
pub fn read_operands(form: Instruction, cpu: &mut CPU) -> (instr: Instruction)
    ensures
        instr == form.spec_with_operands(
            old(cpu)@.read(old(cpu).pc),
            old(cpu)@.read(old(cpu).pc.wrapping_add(1)),
        ),
        final(cpu)@ == old(cpu)@.advanced(form.spec_operand_kind().spec_len()),
{
    match form.operand_kind() {
        OperandKind::Absent => form,
        OperandKind::Byte => {
            let lo = cpu.read_byte();
            form.with_operands(lo, 0)
        },
        OperandKind::Word => {
            let lo = cpu.read_byte();
            let hi = cpu.read_byte();
            form.with_operands(lo, hi)
        },
    }
}

} // verus!

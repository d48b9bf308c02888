//! An emulator core for an 8080-class 8-bit microprocessor: a flat 64 KB
//! address space, the register file, the opcode decoder and the executor
//! that steps the machine and accounts for elapsed cycles.

pub mod bus;
pub mod cache;
pub mod cpu;
pub mod decoder;
pub mod executor;
pub mod util;

pub use bus::{is_memory, loaded, Bus, MEMORY_SIZE};
pub use cache::{form_of, lemma_opcodes_bounded, DecodeCache, MAX_FORMS};
pub use cpu::{
    lemma_pair_round_trip, lemma_stack_round_trip, Machine, AUX_CARRY_FLAG, CARRY_FLAG, CPU,
    PARITY_FLAG, SIGN_FLAG, ZERO_FLAG,
};
pub use decoder::{
    decode, decode_at, decode_first_quarter, decode_fourth_quarter, decode_instruction,
    decode_third_quarter, lemma_decode_keeps_operands, lemma_decode_operands, operand_kind_of,
    pair_of, read_operands, register_of, spec_decode, Instruction, OperandKind, Register,
};
pub use executor::{
    carry_after, cycles_of, effect, fault_of, fetched, flags_after, is_byte_register,
    is_pair_register, lemma_cycles_bounded, lemma_decoded_registers_fit, lemma_effect_keeps_pc,
    lemma_flags_after, lemma_step_advances_pc, lemma_step_flags, lemma_step_ignores_cache,
    lemma_step_keeps_cache, reg16, reg8, rotated_left, rotated_left_through, step, stepped_reg8,
    with_reg16, with_reg8, Executor, ExecutorState, Fault, MAX_STEP_CYCLES,
};
pub use util::{
    bit_is_set, bit_mask, clear_bit, count_low_bits, get_bit, get_enabled_bits, get_high_byte,
    get_low_byte, join_bytes, lemma_count_bits_zero, lemma_join_split, lemma_with_bit, set_bit,
    set_bit_enabled, set_high_byte, set_low_byte, spec_high_byte, spec_join_bytes, spec_low_byte,
    with_bit,
};

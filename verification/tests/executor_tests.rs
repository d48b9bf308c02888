use i8080_emu::{
    decode, DecodeCache, Executor, Fault, Instruction, Register, AUX_CARRY_FLAG, CARRY_FLAG, CPU,
    MAX_FORMS, MAX_STEP_CYCLES, PARITY_FLAG, SIGN_FLAG, ZERO_FLAG,
};

fn machine_with(program: &[u8]) -> CPU {
    let mut cpu = CPU::new();
    cpu.bus.load_bytes(0x0000, program);
    cpu
}

#[test]
fn store_accumulator_through_bc() {
    let mut cpu = machine_with(&[0x02]);
    cpu.set_bc(0xDEAD);
    cpu.a = 0xFF;
    {
        let mut executor = Executor::new(&mut cpu);
        assert_eq!(executor.execute(), Ok(()));
        assert_eq!(executor.get_cycles(), 7);
    }
    assert_eq!(cpu.bus.read_byte(0xDEAD), 0xFF);
    assert_eq!(cpu.pc, 0x0001);
}

#[test]
fn load_immediate_into_hl() {
    let mut cpu = machine_with(&[0x21, 0x34, 0x12]);
    let mut executor = Executor::new(&mut cpu);
    assert_eq!(executor.execute(), Ok(()));
    assert_eq!(executor.cpu.get_hl(), 0x1234);
    assert_eq!(executor.cpu.pc, 0x0003);
    assert_eq!(executor.get_cycles(), 10);
}

#[test]
fn rotate_left_moves_bit_seven_to_bit_zero_and_carry() {
    let mut cpu = machine_with(&[0x07]);
    cpu.a = 0x80;
    let mut executor = Executor::new(&mut cpu);
    assert_eq!(executor.execute(), Ok(()));
    assert_eq!(executor.cpu.a, 0x01);
    assert!(executor.cpu.get_flag(CARRY_FLAG));
    assert_eq!(executor.cpu.pc, 0x0001);
    assert_eq!(executor.get_cycles(), 4);
}

#[test]
fn rotate_left_instruction_directly() {
    let mut cpu = CPU::new();
    cpu.a = 0x80;
    let mut executor = Executor::new(&mut cpu);
    assert_eq!(executor.execute_instruction(Instruction::Rlc), Ok((1, 4)));
    assert_eq!(executor.cpu.a, 0x01);
    assert!(executor.cpu.get_flag(CARRY_FLAG));
    assert_eq!(executor.cpu.pc, 0);
    assert_eq!(executor.get_cycles(), 0);

    let mut cpu = CPU::new();
    cpu.a = 0x41;
    cpu.flags = 0x01;
    let mut executor = Executor::new(&mut cpu);
    assert_eq!(executor.execute_instruction(Instruction::Rlc), Ok((1, 4)));
    assert_eq!(executor.cpu.a, 0x82);
    assert!(!executor.cpu.get_flag(CARRY_FLAG));
}

#[test]
fn rotate_left_through_carry_takes_the_old_carry() {
    let mut cpu = CPU::new();
    cpu.a = 0x80;
    let mut executor = Executor::new(&mut cpu);
    assert_eq!(executor.execute_instruction(Instruction::Ral), Ok((1, 4)));
    assert_eq!(executor.cpu.a, 0x00);
    assert!(executor.cpu.get_flag(CARRY_FLAG));
    assert_eq!(executor.execute_instruction(Instruction::Ral), Ok((1, 4)));
    assert_eq!(executor.cpu.a, 0x01);
    assert!(!executor.cpu.get_flag(CARRY_FLAG));
}

#[test]
fn pc_ends_past_each_instruction_hit_or_miss() {
    // Twice the same three opcodes: the second round finds them cached.
    let program = [0x00, 0x06, 0x11, 0x21, 0x34, 0x12, 0x00, 0x06, 0x22, 0x21, 0x78, 0x56];
    let mut cpu = machine_with(&program);
    let mut executor = Executor::new(&mut cpu);
    let expected_pc = [0x0001u16, 0x0003, 0x0006, 0x0007, 0x0009, 0x000C];
    let expected_cycles = [4usize, 11, 21, 25, 32, 42];
    for step in 0..6 {
        assert_eq!(executor.execute(), Ok(()));
        assert_eq!(executor.cpu.pc, expected_pc[step]);
        assert_eq!(executor.get_cycles(), expected_cycles[step]);
    }
    assert_eq!(executor.cpu.b, 0x22);
    assert_eq!(executor.cpu.get_hl(), 0x5678);
}

#[test]
fn a_cached_opcode_takes_its_own_operands() {
    let program = [0x21, 0x34, 0x12, 0x21, 0x78, 0x56];
    let mut cpu = machine_with(&program);
    let mut executor = Executor::new(&mut cpu);
    assert_eq!(executor.execute(), Ok(()));
    assert_eq!(executor.cpu.get_hl(), 0x1234);
    assert_eq!(executor.execute(), Ok(()));
    assert_eq!(executor.cpu.get_hl(), 0x5678);
    assert_eq!(executor.cpu.pc, 0x0006);
}

#[test]
fn pc_wraps_past_the_top_of_memory() {
    let mut cpu = CPU::new();
    cpu.bus.write_byte(0xFFFF, 0x21);
    cpu.bus.load_bytes(0x0000, &[0x34, 0x12]);
    cpu.jump(0xFFFF);
    let mut executor = Executor::new(&mut cpu);
    assert_eq!(executor.execute(), Ok(()));
    assert_eq!(executor.cpu.get_hl(), 0x1234);
    assert_eq!(executor.cpu.pc, 0x0002);
}

#[test]
fn nop_changes_nothing_but_pc_and_cycles() {
    let mut cpu = machine_with(&[0x00]);
    let mut executor = Executor::new(&mut cpu);
    assert_eq!(executor.execute(), Ok(()));
    let cpu = &executor.cpu;
    assert_eq!((cpu.a, cpu.flags, cpu.b, cpu.c, cpu.d, cpu.e, cpu.h, cpu.l), (0, 0, 0, 0, 0, 0, 0, 0));
    assert_eq!(cpu.sp, 0);
    assert_eq!(cpu.pc, 1);
    assert_eq!(executor.get_cycles(), 4);
}

#[test]
fn load_immediate_into_each_pair() {
    let mut cpu = CPU::new();
    let mut executor = Executor::new(&mut cpu);
    assert_eq!(executor.execute_instruction(Instruction::Lxi(Register::B, 0x1122)), Ok((3, 10)));
    assert_eq!(executor.execute_instruction(Instruction::Lxi(Register::D, 0x3344)), Ok((3, 10)));
    assert_eq!(executor.execute_instruction(Instruction::Lxi(Register::H, 0x5566)), Ok((3, 10)));
    assert_eq!(executor.execute_instruction(Instruction::Lxi(Register::SP, 0x7788)), Ok((3, 10)));
    assert_eq!(executor.execute_instruction(Instruction::Lxi(Register::A, 0x99AA)), Ok((3, 10)));
    let cpu = &executor.cpu;
    assert_eq!(cpu.get_bc(), 0x1122);
    assert_eq!(cpu.get_de(), 0x3344);
    assert_eq!(cpu.get_hl(), 0x5566);
    assert_eq!(cpu.sp, 0x7788);
    assert_eq!(cpu.get_psw(), 0x99AA);
}

#[test]
fn store_accumulator_through_de() {
    let mut cpu = CPU::new();
    cpu.set_de(0x4000);
    cpu.a = 0x5A;
    let mut executor = Executor::new(&mut cpu);
    assert_eq!(executor.execute_instruction(Instruction::Stax(Register::D)), Ok((1, 7)));
    assert_eq!(executor.cpu.bus.read_byte(0x4000), 0x5A);
}

#[test]
fn store_hl_direct_is_little_endian() {
    let mut cpu = machine_with(&[0x22, 0x00, 0x30]);
    cpu.set_hl(0xABCD);
    let mut executor = Executor::new(&mut cpu);
    assert_eq!(executor.execute(), Ok(()));
    assert_eq!(executor.cpu.bus.read_byte(0x3000), 0xCD);
    assert_eq!(executor.cpu.bus.read_byte(0x3001), 0xAB);
    assert_eq!(executor.cpu.pc, 3);
    assert_eq!(executor.get_cycles(), 16);
}

#[test]
fn store_hl_direct_wraps_at_the_last_address() {
    let mut cpu = CPU::new();
    cpu.set_hl(0xABCD);
    cpu.jump(0x0100);
    let mut executor = Executor::new(&mut cpu);
    assert_eq!(executor.execute_instruction(Instruction::Shld(0xFFFF)), Ok((3, 16)));
    assert_eq!(executor.cpu.bus.read_byte(0xFFFF), 0xCD);
    assert_eq!(executor.cpu.bus.read_byte(0x0000), 0xAB);
}

#[test]
fn store_accumulator_direct() {
    let mut cpu = machine_with(&[0x32, 0x10, 0x20]);
    cpu.a = 0x77;
    let mut executor = Executor::new(&mut cpu);
    assert_eq!(executor.execute(), Ok(()));
    assert_eq!(executor.cpu.bus.read_byte(0x2010), 0x77);
    assert_eq!(executor.cpu.pc, 3);
    assert_eq!(executor.get_cycles(), 13);
}

#[test]
fn increment_pair_wraps_and_leaves_flags() {
    let mut cpu = CPU::new();
    cpu.set_bc(0xFFFF);
    cpu.set_hl(0x00FF);
    cpu.flags = 0xD5;
    let mut executor = Executor::new(&mut cpu);
    assert_eq!(executor.execute_instruction(Instruction::Inx(Register::B)), Ok((1, 5)));
    assert_eq!(executor.execute_instruction(Instruction::Inx(Register::H)), Ok((1, 5)));
    assert_eq!(executor.execute_instruction(Instruction::Inx(Register::SP)), Ok((1, 5)));
    assert_eq!(executor.cpu.get_bc(), 0x0000);
    assert_eq!(executor.cpu.get_hl(), 0x0100);
    assert_eq!(executor.cpu.sp, 0x0001);
    assert_eq!(executor.cpu.flags, 0xD5);
}

#[test]
fn increment_register_updates_flags() {
    let mut cpu = CPU::new();
    cpu.b = 0xFF;
    cpu.flags = 0x11;
    let mut executor = Executor::new(&mut cpu);
    assert_eq!(executor.execute_instruction(Instruction::Inr(Register::B)), Ok((1, 5)));
    assert_eq!(executor.cpu.b, 0x00);
    // Zero set, Sign and Parity clear, AuxiliaryCarry cleared, Carry kept.
    assert_eq!(executor.cpu.flags, 0x41);

    let mut cpu = CPU::new();
    cpu.c = 0x7F;
    let mut executor = Executor::new(&mut cpu);
    assert_eq!(executor.execute_instruction(Instruction::Inr(Register::C)), Ok((1, 5)));
    assert_eq!(executor.cpu.c, 0x80);
    // Sign and Parity set.
    assert_eq!(executor.cpu.flags, 0x84);
}

#[test]
fn decrement_register_updates_flags() {
    let mut cpu = CPU::new();
    cpu.a = 0x01;
    let mut executor = Executor::new(&mut cpu);
    assert_eq!(executor.execute_instruction(Instruction::Dcr(Register::A)), Ok((1, 5)));
    assert_eq!(executor.cpu.a, 0x00);
    assert_eq!(executor.cpu.flags, 0x40);
    assert_eq!(executor.execute_instruction(Instruction::Dcr(Register::A)), Ok((1, 5)));
    assert_eq!(executor.cpu.a, 0xFF);
    assert_eq!(executor.cpu.flags, 0x84);
}

#[test]
fn increment_and_decrement_of_the_memory_cell() {
    let mut cpu = machine_with(&[0x34, 0x35, 0x35]);
    cpu.set_hl(0x5000);
    cpu.bus.write_byte(0x5000, 0x0F);
    let mut executor = Executor::new(&mut cpu);
    assert_eq!(executor.execute(), Ok(()));
    assert_eq!(executor.cpu.bus.read_byte(0x5000), 0x10);
    assert_eq!(executor.execute(), Ok(()));
    assert_eq!(executor.execute(), Ok(()));
    assert_eq!(executor.cpu.bus.read_byte(0x5000), 0x0E);
    assert_eq!(executor.cpu.pc, 3);
    assert_eq!(executor.get_cycles(), 15);
}

#[test]
fn flag_routine_for_every_byte() {
    for x in 0..=255u8 {
        for result in [x.wrapping_add(1), x.wrapping_sub(1)] {
            for before in [0x00u8, 0xFF, 0x2A] {
                let mut cpu = CPU::new();
                cpu.flags = before;
                let mut executor = Executor::new(&mut cpu);
                executor.check_flags(result);
                let cpu = &executor.cpu;
                assert_eq!(cpu.get_flag(ZERO_FLAG), result == 0);
                assert_eq!(cpu.get_flag(SIGN_FLAG), result & 0x80 != 0);
                assert_eq!(cpu.get_flag(PARITY_FLAG), result != 0);
                assert!(!cpu.get_flag(AUX_CARRY_FLAG));
                assert_eq!(cpu.flags & 0x2B, before & 0x2B);
            }
        }
    }
}

#[test]
fn carry_check_looks_at_the_ninth_bit_and_above() {
    let mut cpu = CPU::new();
    let mut executor = Executor::new(&mut cpu);
    executor.check_carry(0x00FF);
    assert_eq!(executor.cpu.flags, 0x00);
    executor.check_carry(0x0100);
    assert_eq!(executor.cpu.flags, 0x01);
    executor.check_carry(0xFFFF);
    assert_eq!(executor.cpu.flags, 0x01);
    executor.check_carry(0x0000);
    assert_eq!(executor.cpu.flags, 0x00);
}

#[test]
fn load_immediate_byte_into_register_and_memory() {
    let mut cpu = machine_with(&[0x06, 0x12, 0x36, 0x99]);
    cpu.set_hl(0x6000);
    let mut executor = Executor::new(&mut cpu);
    assert_eq!(executor.execute(), Ok(()));
    assert_eq!(executor.cpu.b, 0x12);
    assert_eq!(executor.cpu.pc, 2);
    assert_eq!(executor.get_cycles(), 7);
    assert_eq!(executor.execute(), Ok(()));
    assert_eq!(executor.cpu.bus.read_byte(0x6000), 0x99);
    assert_eq!(executor.cpu.pc, 4);
    assert_eq!(executor.get_cycles(), 14);
}

#[test]
fn set_carry_sets_only_carry() {
    let mut cpu = machine_with(&[0x37]);
    cpu.flags = 0x80;
    let mut executor = Executor::new(&mut cpu);
    assert_eq!(executor.execute(), Ok(()));
    assert_eq!(executor.cpu.flags, 0x81);
    assert_eq!(executor.get_cycles(), 4);
}

#[test]
fn move_between_registers_takes_five_cycles() {
    let mut cpu = machine_with(&[0x41, 0x78]);
    cpu.c = 0x3C;
    let mut executor = Executor::new(&mut cpu);
    assert_eq!(executor.execute(), Ok(()));
    assert_eq!(executor.cpu.b, 0x3C);
    assert_eq!(executor.cpu.c, 0x3C);
    assert_eq!(executor.get_cycles(), 5);
    assert_eq!(executor.execute(), Ok(()));
    assert_eq!(executor.cpu.a, 0x3C);
    assert_eq!(executor.cpu.pc, 2);
    assert_eq!(executor.get_cycles(), 10);
}

#[test]
fn move_through_memory_takes_seven_cycles() {
    let mut cpu = machine_with(&[0x77, 0x4E]);
    cpu.set_hl(0x7000);
    cpu.a = 0xA1;
    let mut executor = Executor::new(&mut cpu);
    assert_eq!(executor.execute(), Ok(()));
    assert_eq!(executor.cpu.bus.read_byte(0x7000), 0xA1);
    assert_eq!(executor.get_cycles(), 7);
    assert_eq!(executor.execute(), Ok(()));
    assert_eq!(executor.cpu.c, 0xA1);
    assert_eq!(executor.get_cycles(), 14);
}

#[test]
fn halt_stops_the_machine() {
    let mut cpu = machine_with(&[0x00, 0x76, 0x06, 0x55]);
    let mut executor = Executor::new(&mut cpu);
    assert!(!executor.is_halted());
    assert_eq!(executor.execute(), Ok(()));
    assert!(!executor.is_halted());
    assert_eq!(executor.execute(), Ok(()));
    assert!(executor.is_halted());
    assert_eq!(executor.cpu.pc, 2);
    assert_eq!(executor.get_cycles(), 11);
    // A halted machine does not fetch.
    assert_eq!(executor.execute(), Ok(()));
    assert!(executor.is_halted());
    assert_eq!(executor.cpu.pc, 2);
    assert_eq!(executor.cpu.b, 0);
    assert_eq!(executor.get_cycles(), 11);
}

#[test]
fn unimplemented_instruction_is_named_and_changes_nothing() {
    let mut cpu = machine_with(&[0x00, 0xC3, 0x34, 0x12]);
    cpu.a = 0x12;
    let mut executor = Executor::new(&mut cpu);
    assert_eq!(executor.execute(), Ok(()));
    assert_eq!(executor.execute(), Err(Fault::Unimplemented(Instruction::Jmp(0x1234))));
    assert_eq!(executor.cpu.pc, 1);
    assert_eq!(executor.cpu.a, 0x12);
    assert_eq!(executor.get_cycles(), 4);
    assert!(!executor.is_halted());
    // The fault comes again at the same place.
    assert_eq!(executor.execute(), Err(Fault::Unimplemented(Instruction::Jmp(0x1234))));
    assert_eq!(executor.cpu.pc, 1);
}

#[test]
fn every_unexecuted_form_faults() {
    for instr in [
        Instruction::Daa,
        Instruction::Dad(Register::B),
        Instruction::Ldax(Register::B),
        Instruction::Add(Register::B),
        Instruction::Cmp(Register::A),
        Instruction::Push(Register::A),
        Instruction::Rst(7),
        Instruction::In(1),
        Instruction::Call(0x1234),
        Instruction::Ei,
    ] {
        let mut cpu = CPU::new();
        let mut executor = Executor::new(&mut cpu);
        assert_eq!(executor.execute_instruction(instr), Err(Fault::Unimplemented(instr)));
    }
}

#[test]
fn register_of_the_wrong_width_is_a_fault() {
    let mut cpu = CPU::new();
    cpu.c = 9;
    let mut executor = Executor::new(&mut cpu);
    assert_eq!(
        executor.execute_instruction(Instruction::Lxi(Register::C, 0x1234)),
        Err(Fault::InvalidRegister(Register::C))
    );
    assert_eq!(
        executor.execute_instruction(Instruction::Stax(Register::M)),
        Err(Fault::InvalidRegister(Register::M))
    );
    assert_eq!(
        executor.execute_instruction(Instruction::Inx(Register::Flags)),
        Err(Fault::InvalidRegister(Register::Flags))
    );
    assert_eq!(
        executor.execute_instruction(Instruction::Inr(Register::SP)),
        Err(Fault::InvalidRegister(Register::SP))
    );
    assert_eq!(
        executor.execute_instruction(Instruction::Mvi(Register::SP, 1)),
        Err(Fault::InvalidRegister(Register::SP))
    );
    assert_eq!(
        executor.execute_instruction(Instruction::Mov(Register::SP, Register::A)),
        Err(Fault::InvalidRegister(Register::SP))
    );
    assert_eq!(
        executor.execute_instruction(Instruction::Mov(Register::A, Register::SP)),
        Err(Fault::InvalidRegister(Register::SP))
    );
    assert_eq!(executor.cpu.c, 9);
    assert_eq!(executor.cpu.sp, 0);
}

#[test]
fn increment_of_the_accumulator_by_its_opcode() {
    let mut cpu = machine_with(&[0x3C]);
    cpu.set_psw(0x12FF);
    let mut executor = Executor::new(&mut cpu);
    assert_eq!(executor.execute(), Ok(()));
    assert_eq!(executor.cpu.a, 0x13);
    // Zero, Sign and AuxiliaryCarry cleared, Parity set, the rest kept.
    assert_eq!(executor.cpu.flags, 0x2F);
    assert_eq!(executor.cpu.pc, 1);
    assert_eq!(executor.get_cycles(), 5);
}

#[test]
fn increment_of_the_pair_psw() {
    let mut cpu = CPU::new();
    cpu.set_psw(0x12FF);
    let mut executor = Executor::new(&mut cpu);
    assert_eq!(executor.execute_instruction(Instruction::Inx(Register::A)), Ok((1, 5)));
    assert_eq!(executor.cpu.get_psw(), 0x1300);
}

#[test]
fn cycles_accumulate_and_reset() {
    let mut cpu = machine_with(&[0x00, 0x00, 0x00]);
    let mut executor = Executor::new(&mut cpu);
    assert_eq!(executor.get_cycles(), 0);
    assert_eq!(executor.execute(), Ok(()));
    assert_eq!(executor.execute(), Ok(()));
    assert_eq!(executor.get_cycles(), 8);
    executor.reset_cycles();
    assert_eq!(executor.get_cycles(), 0);
    assert_eq!(executor.cpu.pc, 2);
    assert_eq!(executor.execute(), Ok(()));
    assert_eq!(executor.get_cycles(), 4);
}

#[test]
fn no_instruction_takes_more_than_the_bound() {
    assert_eq!(MAX_STEP_CYCLES, 16);
    for opcode in 0..=255u8 {
        let mut cpu = machine_with(&[opcode, 0x00, 0x10]);
        let mut executor = Executor::new(&mut cpu);
        let _ = executor.execute();
        assert!(executor.get_cycles() <= MAX_STEP_CYCLES);
    }
}

#[test]
fn the_processor_is_as_the_last_step_left_it() {
    let mut cpu = machine_with(&[0x06, 0x42]);
    cpu.a = 1;
    {
        let mut executor = Executor::new(&mut cpu);
        assert_eq!(executor.execute(), Ok(()));
    }
    assert_eq!(cpu.b, 0x42);
    assert_eq!(cpu.a, 1);
    assert_eq!(cpu.pc, 2);
}

#[test]
fn cache_remembers_what_was_looked_up() {
    let mut cache = DecodeCache::new();
    assert_eq!(cache.len(), 0);
    assert!(!cache.contains(0x21));
    assert_eq!(cache.get(0x21), None);
    assert_eq!(cache.form(0x21), Instruction::Lxi(Register::H, 0));
    assert!(cache.contains(0x21));
    assert_eq!(cache.len(), 1);
    assert_eq!(cache.get(0x21), Some(Instruction::Lxi(Register::H, 0)));
    assert_eq!(cache.form(0x21), Instruction::Lxi(Register::H, 0));
    assert_eq!(cache.len(), 1);
    assert_eq!(cache.form(0x00), Instruction::Nop);
    assert_eq!(cache.len(), 2);
    assert!(cache.contains(0x21));
}

#[test]
fn every_opcode_steps_by_its_size_or_faults_in_place() {
    for opcode in 0..=255u8 {
        let mut cpu = CPU::new();
        // The same opcode twice, with other operand bytes the second time.
        cpu.bus.load_bytes(0x0100, &[opcode, 0x34, 0x12]);
        cpu.set_hl(0x4000);
        cpu.jump(0x0100);
        let first = decode(opcode, 0x34, 0x12);
        let second = decode(opcode, 0x78, 0x56);
        let size = first.size();
        cpu.bus.load_bytes(0x0100 + size, &[opcode, 0x78, 0x56]);
        let mut executor = Executor::new(&mut cpu);
        match executor.execute() {
            Ok(()) => {
                assert_eq!(executor.cpu.pc, 0x0100 + size);
                if first == Instruction::Hlt {
                    assert!(executor.is_halted());
                    continue;
                }
                assert_eq!(executor.execute(), Ok(()));
                assert_eq!(executor.cpu.pc, 0x0100 + 2 * size);
                if let Instruction::Lxi(Register::D, value) = second {
                    assert_eq!(value, 0x5678);
                    assert_eq!(executor.cpu.get_de(), 0x5678);
                }
            }
            Err(fault) => {
                assert_eq!(fault, Fault::Unimplemented(first));
                assert_eq!(executor.cpu.pc, 0x0100);
                assert_eq!(executor.get_cycles(), 0);
            }
        }
    }
}

#[test]
fn cache_holds_at_most_one_form_per_opcode() {
    assert_eq!(MAX_FORMS, 256);
    let mut cache = DecodeCache::new();
    for _ in 0..2 {
        for opcode in 0..=255u8 {
            let _ = cache.form(opcode);
        }
    }
    assert_eq!(cache.len(), 256);
}

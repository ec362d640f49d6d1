#![allow(non_snake_case)]

use libdmg::data::Address;
use libdmg::execute::{execute, execute_instruction, modify_flags, resolve_flag, resolve_flags};
use libdmg::instructions::{
    get_instruction, get_op_size, target_to_register, target_to_register_pair, Direction, Failure,
    FlagInstruction, FlagOperation, FlagResult, FlagResults, Instruction, InstructionSize,
    InstructionTarget, Operation,
};
use libdmg::memory::MemoryBus;
use libdmg::registers::{Flag, FlagsRegister, Register, RegisterPair, Registers};

fn deref(inner: InstructionTarget) -> InstructionTarget {
    InstructionTarget::Ref(Box::new(inner))
}

#[test]
fn test_modify_flags() {
    let mut reg = Registers::default();

    let instr = FlagInstruction {
        zero: FlagOperation::Dependent,
        subtract: FlagOperation::Unset,
        half_carry: FlagOperation::Dependent,
        carry: FlagOperation::Unmodified,
    };
    let results = FlagResults {
        zero: Some(FlagResult::Unset),
        subtract: Some(FlagResult::Unset),
        half_carry: Some(FlagResult::Raised),
        carry: None,
    };

    reg.set_flag(Flag::Zero, true);
    reg.set_flag(Flag::Subtract, true);

    assert_eq!(Ok(()), modify_flags(&mut reg, instr, results));

    assert_eq!(false, reg.get_flag(Flag::Zero));
    assert_eq!(false, reg.get_flag(Flag::Subtract));
    assert_eq!(true, reg.get_flag(Flag::HalfCarry));
    assert_eq!(false, reg.get_flag(Flag::Carry));
}

#[test]
fn test_0x00_NOP() {
    let base_mem = MemoryBus::default();
    let mut out_mem = base_mem.clone();
    let mut base_reg = Registers::default();
    let mut out_reg = base_reg.clone();

    base_reg.pc += 1;
    let _ = execute_instruction(0x00, &mut out_reg, &mut out_mem);

    assert_eq!(base_mem, out_mem);
    assert_eq!(base_reg, out_reg);
}

#[test]
fn test_NOP() {
    let base_mem = MemoryBus::create();
    let mut out_mem = base_mem.clone();
    let mut base_reg = Registers::create();
    let mut out_reg = base_reg.clone();

    // The program counter moves past the one-byte instruction.
    base_reg.pc += 1;
    let _ = execute_instruction(0x00, &mut out_reg, &mut out_mem);

    assert_eq!(base_mem, out_mem);
    assert_eq!(base_reg, out_reg);
}

#[test]
fn test_0x01_LD_BC_u16() {
    let mut mem = MemoryBus::default();
    let mut reg = Registers::default();

    // Populate the memory with a test value
    let addr = reg.pc + 1;
    let data: u16 = 0x1234;
    let split_data = (((data & 0xFF00) >> 8) as u8, (data & 0xFF) as u8);
    mem.write(addr, split_data.1);
    mem.write(addr + 1, split_data.0);

    let _ = execute_instruction(0x01, &mut reg, &mut mem);

    assert_eq!(data, reg.get_reg16(RegisterPair::BC));
}

#[test]
fn test_0x02_LD_BC_A() {
    let mut mem = MemoryBus::default();
    let mut reg = Registers::default();

    let data: u8 = 0x12;
    reg.set_reg8(Register::A, data);

    let addr: Address = 0x1122;
    let split_addr = addr.to_be_bytes();
    reg.set_reg8(Register::B, split_addr[0]);
    reg.set_reg8(Register::C, split_addr[1]);

    let _ = execute_instruction(0x02, &mut reg, &mut mem);

    assert_eq!(data, mem.read(addr));
}

#[test]
fn test_0x03_INC_BC() {
    let mut mem = MemoryBus::default();
    let mut reg = Registers::default();

    let data = 0x1234;
    reg.set_reg16(RegisterPair::BC, data);

    let _ = execute_instruction(0x03, &mut reg, &mut mem);

    assert_eq!(data + 1, reg.get_reg16(RegisterPair::BC));
}

#[test]
fn test_0x04_INC_B() {
    let mut mem = MemoryBus::default();
    let mut reg = Registers::default();

    let data = 0x12;
    reg.set_reg8(Register::B, data);

    let _ = execute_instruction(0x04, &mut reg, &mut mem);

    assert_eq!(data + 1, reg.get_reg8(Register::B));
    assert_eq!(false, reg.get_flag(Flag::Zero));
    assert_eq!(false, reg.get_flag(Flag::Subtract));
    assert_eq!(false, reg.get_flag(Flag::HalfCarry));
    assert_eq!(false, reg.get_flag(Flag::Carry));

    let data = 0x1F;
    reg.set_reg8(Register::B, data);

    let _ = execute_instruction(0x04, &mut reg, &mut mem);

    assert_eq!(data + 1, reg.get_reg8(Register::B));
    assert_eq!(false, reg.get_flag(Flag::Zero));
    assert_eq!(false, reg.get_flag(Flag::Subtract));
    assert_eq!(true, reg.get_flag(Flag::HalfCarry));
    assert_eq!(false, reg.get_flag(Flag::Carry));
}

#[test]
fn test_0x05_DEC_B() {
    let mut mem = MemoryBus::default();
    let mut reg = Registers::default();

    let data = 0x20;
    reg.set_reg8(Register::B, data);

    let _ = execute_instruction(0x05, &mut reg, &mut mem);

    assert_eq!(data - 1, reg.get_reg8(Register::B));
    assert_eq!(false, reg.get_flag(Flag::Zero));
    assert_eq!(true, reg.get_flag(Flag::Subtract));
    // The low nibble of 0x20 is smaller than that of 1: the nibble borrows.
    assert_eq!(true, reg.get_flag(Flag::HalfCarry));
    assert_eq!(false, reg.get_flag(Flag::Carry));

    let data = 0x10;
    reg.set_reg8(Register::B, data);

    let _ = execute_instruction(0x05, &mut reg, &mut mem);

    assert_eq!(data - 1, reg.get_reg8(Register::B));
    assert_eq!(false, reg.get_flag(Flag::Zero));
    assert_eq!(true, reg.get_flag(Flag::Subtract));
    assert_eq!(true, reg.get_flag(Flag::HalfCarry));
    assert_eq!(false, reg.get_flag(Flag::Carry));

    let data = 0x01;
    reg.set_reg8(Register::B, data);

    let _ = execute_instruction(0x05, &mut reg, &mut mem);

    assert_eq!(data - 1, reg.get_reg8(Register::B));
    assert_eq!(true, reg.get_flag(Flag::Zero));
    assert_eq!(true, reg.get_flag(Flag::Subtract));
    assert_eq!(false, reg.get_flag(Flag::HalfCarry));
    assert_eq!(false, reg.get_flag(Flag::Carry));
}

#[test]
fn test_0x06_LD_B_u8() {
    let mut mem = MemoryBus::default();
    let mut reg = Registers::default();

    let data = 0x12;
    mem.write(reg.pc + 1, data);

    let _ = execute_instruction(0x06, &mut reg, &mut mem);

    assert_eq!(data, reg.get_reg8(Register::B));
}

#[test]
fn test_0x07_RLCA() {
    let mut mem = MemoryBus::default();
    let mut reg = Registers::default();

    let data = 0b1011_1010;
    let expected = 0b0111_0101;
    reg.set_reg8(Register::A, data);

    reg.set_flag(Flag::Zero, true);
    reg.set_flag(Flag::Subtract, true);
    reg.set_flag(Flag::HalfCarry, true);

    let _ = execute_instruction(0x07, &mut reg, &mut mem);

    assert_eq!(expected, reg.get_reg8(Register::A));
    assert_eq!(false, reg.get_flag(Flag::Zero));
    assert_eq!(false, reg.get_flag(Flag::Subtract));
    assert_eq!(false, reg.get_flag(Flag::HalfCarry));
    assert_eq!(true, reg.get_flag(Flag::Carry));
}

#[test]
fn test_0x08_LD_u16_SP() {
    let mut mem = MemoryBus::default();
    let mut reg = Registers::default();

    let addr: u16 = 0x1000;
    let addr_bytes = addr.to_le_bytes();
    let data = 0x1122;

    reg.sp = data;
    let pc = reg.pc;
    mem.write(pc + 1, addr_bytes[0]);
    mem.write(pc + 2, addr_bytes[1]);

    let _ = execute_instruction(0x08, &mut reg, &mut mem);

    assert_eq!(mem.read(addr), data as u8);
    assert_eq!(mem.read(addr + 1), (data >> 8) as u8);
}

#[test]
fn test_0x09_ADD_HL_BC() {
    let mut mem = MemoryBus::default();
    let mut reg = Registers::default();

    let bc = 0x0800;
    let hl = 0x0800;

    reg.set_reg16(RegisterPair::BC, bc);
    reg.set_reg16(RegisterPair::HL, hl);

    let _ = execute_instruction(0x09, &mut reg, &mut mem);

    let result = reg.get_reg16(RegisterPair::HL);

    assert_eq!(result, hl + bc);
    assert_eq!(false, reg.get_flag(Flag::Zero));
    assert_eq!(false, reg.get_flag(Flag::Subtract));
    assert_eq!(true, reg.get_flag(Flag::HalfCarry));
    assert_eq!(false, reg.get_flag(Flag::Carry));

    let bc = 0xFFFF;
    let hl = 0x0001;

    reg.set_reg16(RegisterPair::BC, bc);
    reg.set_reg16(RegisterPair::HL, hl);

    let _ = execute_instruction(0x09, &mut reg, &mut mem);

    let result = reg.get_reg16(RegisterPair::HL);

    assert_eq!(result, hl.wrapping_add(bc));
    assert_eq!(false, reg.get_flag(Flag::Zero));
    assert_eq!(false, reg.get_flag(Flag::Subtract));
    assert_eq!(true, reg.get_flag(Flag::HalfCarry));
    assert_eq!(true, reg.get_flag(Flag::Carry));
}

#[test]
fn test_0x0A_LD_A_BC() {
    let mut mem = MemoryBus::default();
    let mut reg = Registers::default();

    let addr = 0x0101;
    let data = 0x42;

    mem.write(addr, data);
    reg.set_reg16(RegisterPair::BC, addr);

    // The opcode table has no entry for 0x0A: nothing is loaded.
    let before = reg;
    let result = execute_instruction(0x0A, &mut reg, &mut mem);

    assert_eq!(Err(Failure::UnimplementedOpcode(0x0A)), result);
    assert_eq!(0x00, reg.get_reg8(Register::A));
    assert_eq!(before, reg);
    assert_eq!(data, mem.read(addr));
}

#[test]
fn test_0x0B_DEC_BC() {
    let mut mem = MemoryBus::default();
    let mut reg = Registers::default();

    let data = 0x1234;
    reg.set_reg16(RegisterPair::BC, data);

    // The opcode table has no entry for 0x0B: BC keeps its value.
    let result = execute_instruction(0x0B, &mut reg, &mut mem);

    assert_eq!(Err(Failure::UnimplementedOpcode(0x0B)), result);
    assert_eq!(data, reg.get_reg16(RegisterPair::BC));
    assert_eq!(0, reg.pc);
}

#[test]
fn test_0x0C_INC_C() {
    let mut mem = MemoryBus::default();
    let mut reg = Registers::default();

    // The opcode table has no entry for 0x0C: C and the flags keep their
    // values.
    for data in [0x12u8, 0x1F] {
        reg.set_reg8(Register::C, data);

        let result = execute_instruction(0x0C, &mut reg, &mut mem);

        assert_eq!(Err(Failure::UnimplementedOpcode(0x0C)), result);
        assert_eq!(data, reg.get_reg8(Register::C));
        assert_eq!(false, reg.get_flag(Flag::Zero));
        assert_eq!(false, reg.get_flag(Flag::Subtract));
        assert_eq!(false, reg.get_flag(Flag::HalfCarry));
        assert_eq!(false, reg.get_flag(Flag::Carry));
    }
}

#[test]
fn test_0x0D_DEC_C() {
    let mut mem = MemoryBus::default();
    let mut reg = Registers::default();

    // The opcode table has no entry for 0x0D: C and the flags keep their
    // values.
    for data in [0x20u8, 0x10, 0x01] {
        reg.set_reg8(Register::C, data);

        let result = execute_instruction(0x0D, &mut reg, &mut mem);

        assert_eq!(Err(Failure::UnimplementedOpcode(0x0D)), result);
        assert_eq!(data, reg.get_reg8(Register::C));
        assert_eq!(false, reg.get_flag(Flag::Zero));
        assert_eq!(false, reg.get_flag(Flag::Subtract));
        assert_eq!(false, reg.get_flag(Flag::HalfCarry));
        assert_eq!(false, reg.get_flag(Flag::Carry));
    }
}

#[test]
fn test_0x0E_LD_C_u8() {
    let mut mem = MemoryBus::default();
    let mut reg = Registers::default();

    let data = 0x12;
    mem.write(reg.pc + 1, data);

    // The opcode table has no entry for 0x0E: nothing is loaded.
    let result = execute_instruction(0x0E, &mut reg, &mut mem);

    assert_eq!(Err(Failure::UnimplementedOpcode(0x0E)), result);
    assert_eq!(0x00, reg.get_reg8(Register::C));
    assert_eq!(0, reg.pc);
}

#[test]
fn test_0x0F_RRCA() {
    let mut mem = MemoryBus::default();
    let mut reg = Registers::default();

    let data = 0b1011_1011;
    reg.set_reg8(Register::A, data);

    reg.set_flag(Flag::Zero, true);
    reg.set_flag(Flag::Subtract, true);
    reg.set_flag(Flag::HalfCarry, true);

    // The opcode table has no entry for 0x0F: the accumulator and the flags
    // keep their values.
    let result = execute_instruction(0x0F, &mut reg, &mut mem);

    assert_eq!(Err(Failure::UnimplementedOpcode(0x0F)), result);
    assert_eq!(data, reg.get_reg8(Register::A));
    assert_eq!(true, reg.get_flag(Flag::Zero));
    assert_eq!(true, reg.get_flag(Flag::Subtract));
    assert_eq!(true, reg.get_flag(Flag::HalfCarry));
    assert_eq!(false, reg.get_flag(Flag::Carry));
}

fn busy_machine() -> (Registers, MemoryBus) {
    let mut reg = Registers::create();
    reg.set_reg8(Register::A, 0xA1);
    reg.set_reg16(RegisterPair::BC, 0xB1C1);
    reg.set_reg16(RegisterPair::DE, 0xD1E1);
    reg.set_reg16(RegisterPair::HL, 0x8111);
    reg.set_flags(0xF0);
    reg.pc = 0x0150;
    reg.sp = 0xFFFE;
    let mut mem = MemoryBus::create();
    mem.write(0x0151, 0x34);
    mem.write(0x0152, 0x12);
    mem.write(0xB1C1, 0x77);
    (reg, mem)
}

#[test]
fn nop_moves_the_program_counter_and_nothing_else() {
    let (mut reg, mut mem) = busy_machine();
    let before_reg = reg;
    let before_mem = mem.clone();

    assert_eq!(execute_instruction(0x00, &mut reg, &mut mem), Ok(4));

    assert_eq!(mem, before_mem);
    assert_eq!(reg.pc, before_reg.pc + 1);
    let mut expected = before_reg;
    expected.pc = 0x0151;
    assert_eq!(reg, expected);
}

#[test]
fn ld_bc_d16_loads_the_word_after_the_opcode() {
    let (mut reg, mut mem) = busy_machine();
    let before_reg = reg;
    let before_mem = mem.clone();

    assert_eq!(execute_instruction(0x01, &mut reg, &mut mem), Ok(12));

    assert_eq!(reg.get_reg16(RegisterPair::BC), 0x1234);
    assert_eq!(reg.pc, before_reg.pc + 3);
    let mut expected = before_reg;
    expected.b = 0x12;
    expected.c = 0x34;
    expected.pc = 0x0153;
    assert_eq!(reg, expected);
    assert_eq!(mem, before_mem);
}

#[test]
fn ld_at_bc_a_stores_one_byte_and_changes_no_other() {
    let mut mem = MemoryBus::create();
    let mut reg = Registers::create();
    reg.set_reg8(Register::A, 0x12);
    reg.set_reg16(RegisterPair::BC, 0x1122);
    let before_reg = reg;

    assert_eq!(execute_instruction(0x02, &mut reg, &mut mem), Ok(4));

    for addr in 0..=0xFFFFu16 {
        let expected = if addr == 0x1122 { 0x12 } else { 0x00 };
        assert_eq!(mem.read(addr), expected);
    }
    let mut expected = before_reg;
    expected.pc = 1;
    assert_eq!(reg, expected);
}

#[test]
fn inc_bc_wraps_and_leaves_the_flags_alone() {
    for flags in [0x00u8, 0xF0, 0x50] {
        let mut mem = MemoryBus::create();
        let mut reg = Registers::create();
        reg.set_reg16(RegisterPair::BC, 0xFFFF);
        reg.set_flags(flags);

        assert_eq!(execute_instruction(0x03, &mut reg, &mut mem), Ok(8));

        assert_eq!(reg.get_reg16(RegisterPair::BC), 0x0000);
        assert_eq!(reg.get_flags(), flags);
        assert_eq!(reg.pc, 1);
    }
}

#[test]
fn inc_b_sets_zero_and_half_carry_from_the_outcome() {
    // (B before, B after, zero, half-carry)
    let cases = [
        (0x1Fu8, 0x20u8, false, true),
        (0x12, 0x13, false, false),
        (0xFF, 0x00, true, true),
        (0x00, 0x01, false, false),
        (0x0F, 0x10, false, true),
    ];
    for carry in [false, true] {
        for (before, after, zero, half_carry) in cases {
            let mut mem = MemoryBus::create();
            let mut reg = Registers::create();
            reg.set_reg8(Register::B, before);
            reg.set_flag(Flag::Subtract, true);
            reg.set_flag(Flag::Carry, carry);

            assert_eq!(execute_instruction(0x04, &mut reg, &mut mem), Ok(4));

            assert_eq!(reg.get_reg8(Register::B), after);
            assert_eq!(reg.get_flag(Flag::Zero), zero);
            assert_eq!(reg.get_flag(Flag::Subtract), false);
            assert_eq!(reg.get_flag(Flag::HalfCarry), half_carry);
            assert_eq!(reg.get_flag(Flag::Carry), carry);
            assert_eq!(reg.pc, 1);
        }
    }
}

#[test]
fn dec_b_always_raises_subtract() {
    for before in 0..=255u8 {
        let mut mem = MemoryBus::create();
        let mut reg = Registers::create();
        reg.set_reg8(Register::B, before);

        assert_eq!(execute_instruction(0x05, &mut reg, &mut mem), Ok(4));

        assert_eq!(reg.get_reg8(Register::B), before.wrapping_sub(1));
        assert_eq!(reg.get_flag(Flag::Zero), before == 1);
        assert_eq!(reg.get_flag(Flag::Subtract), true);
        assert_eq!(reg.get_flag(Flag::HalfCarry), before & 0x0F == 0);
        assert_eq!(reg.get_flag(Flag::Carry), false);
    }
}

#[test]
fn dec_b_from_one_reaches_zero() {
    let mut mem = MemoryBus::create();
    let mut reg = Registers::create();
    reg.set_reg8(Register::B, 0x01);

    assert_eq!(execute_instruction(0x05, &mut reg, &mut mem), Ok(4));

    assert_eq!(reg.get_reg8(Register::B), 0x00);
    assert!(reg.get_flag(Flag::Zero));
    assert!(reg.get_flag(Flag::Subtract));

    // Once more: B wraps to 0xFF and the low nibble borrows.
    assert_eq!(execute_instruction(0x05, &mut reg, &mut mem), Ok(4));
    assert_eq!(reg.get_reg8(Register::B), 0xFF);
    assert!(!reg.get_flag(Flag::Zero));
    assert!(reg.get_flag(Flag::Subtract));
    assert!(reg.get_flag(Flag::HalfCarry));
    assert_eq!(reg.pc, 2);
}

#[test]
fn ld_b_d8_loads_the_byte_after_the_opcode() {
    let (mut reg, mut mem) = busy_machine();
    let before_reg = reg;

    assert_eq!(execute_instruction(0x06, &mut reg, &mut mem), Ok(8));

    let mut expected = before_reg;
    expected.b = 0x34;
    expected.pc = 0x0152;
    assert_eq!(reg, expected);
}

#[test]
fn rlca_rotates_the_top_bit_into_carry_and_bit_zero() {
    // (A before, A after, carry)
    let cases = [
        (0b1011_1010u8, 0b0111_0101u8, true),
        (0b0111_0101, 0b1110_1010, false),
        (0x00, 0x00, false),
        (0xFF, 0xFF, true),
        (0x80, 0x01, true),
        (0x01, 0x02, false),
    ];
    for (before, after, carry) in cases {
        let mut mem = MemoryBus::create();
        let mut reg = Registers::create();
        reg.set_reg8(Register::A, before);
        reg.set_flags(0xF0);

        assert_eq!(execute_instruction(0x07, &mut reg, &mut mem), Ok(4));

        assert_eq!(reg.get_reg8(Register::A), after);
        assert_eq!(reg.get_reg8(Register::A), before.rotate_left(1));
        assert_eq!(reg.get_flag(Flag::Zero), false);
        assert_eq!(reg.get_flag(Flag::Subtract), false);
        assert_eq!(reg.get_flag(Flag::HalfCarry), false);
        assert_eq!(reg.get_flag(Flag::Carry), carry);
        assert_eq!(reg.pc, 1);
    }
}

#[test]
fn ld_a16_sp_stores_the_stack_pointer_low_byte_first() {
    let (mut reg, mut mem) = busy_machine();
    let before_reg = reg;
    let before_mem = mem.clone();

    assert_eq!(execute_instruction(0x08, &mut reg, &mut mem), Ok(20));

    // The operand 0x1234 follows the opcode; SP is 0xFFFE.
    for addr in 0..=0xFFFFu16 {
        let expected = match addr {
            0x1234 => 0xFE,
            0x1235 => 0xFF,
            _ => before_mem.read(addr),
        };
        assert_eq!(mem.read(addr), expected);
    }
    let mut expected = before_reg;
    expected.pc = 0x0153;
    assert_eq!(reg, expected);
}

#[test]
fn add_hl_bc_wraps_and_carries() {
    let mut mem = MemoryBus::create();
    let mut reg = Registers::create();
    reg.set_reg16(RegisterPair::HL, 0xFFFF);
    reg.set_reg16(RegisterPair::BC, 0x0001);
    reg.set_flag(Flag::Subtract, true);

    assert_eq!(execute_instruction(0x09, &mut reg, &mut mem), Ok(8));

    assert_eq!(reg.get_reg16(RegisterPair::HL), 0x0000);
    assert_eq!(reg.get_reg16(RegisterPair::BC), 0x0001);
    assert!(reg.get_flag(Flag::Carry));
    assert!(reg.get_flag(Flag::HalfCarry));
    assert!(!reg.get_flag(Flag::Subtract));
    assert_eq!(reg.pc, 1);
}

#[test]
fn add_hl_bc_leaves_the_zero_flag_alone() {
    for zero in [false, true] {
        let mut mem = MemoryBus::create();
        let mut reg = Registers::create();
        reg.set_reg16(RegisterPair::HL, 0xFFFF);
        reg.set_reg16(RegisterPair::BC, 0x0001);
        reg.set_flag(Flag::Zero, zero);

        assert_eq!(execute_instruction(0x09, &mut reg, &mut mem), Ok(8));

        assert_eq!(reg.get_reg16(RegisterPair::HL), 0x0000);
        assert_eq!(reg.get_flag(Flag::Zero), zero);
    }
}

#[test]
fn add_hl_bc_half_carries_out_of_bit_eleven() {
    // (HL, BC, sum, half-carry, carry)
    let cases = [
        (0x0FFFu16, 0x0001u16, 0x1000u16, true, false),
        (0x0F00, 0x00FF, 0x0FFF, false, false),
        (0xF000, 0x1000, 0x0000, false, true),
        (0x8800, 0x8800, 0x1000, true, true),
        (0x1234, 0x0000, 0x1234, false, false),
    ];
    for (hl, bc, sum, half_carry, carry) in cases {
        let mut mem = MemoryBus::create();
        let mut reg = Registers::create();
        reg.set_reg16(RegisterPair::HL, hl);
        reg.set_reg16(RegisterPair::BC, bc);

        assert_eq!(execute_instruction(0x09, &mut reg, &mut mem), Ok(8));

        assert_eq!(reg.get_reg16(RegisterPair::HL), sum);
        assert_eq!(reg.get_flag(Flag::HalfCarry), half_carry);
        assert_eq!(reg.get_flag(Flag::Carry), carry);
    }
}

#[test]
fn opcodes_outside_the_table_are_reported_and_change_nothing() {
    for code in [0x0Au16, 0x0B, 0x0C, 0x0D, 0x0E, 0x0F, 0x10, 0x76, 0xFF, 0xCB00, 0xFFFF] {
        let (mut reg, mut mem) = busy_machine();
        let before_reg = reg;
        let before_mem = mem.clone();

        assert_eq!(
            get_instruction(code, &reg),
            Err(Failure::UnimplementedOpcode(code))
        );
        assert_eq!(
            execute_instruction(code, &mut reg, &mut mem),
            Err(Failure::UnimplementedOpcode(code))
        );

        assert_eq!(reg, before_reg);
        assert_eq!(mem, before_mem);
    }
}

#[test]
fn every_opcode_of_the_table_has_its_length_and_cost() {
    // (opcode, length, cycles)
    let table = [
        (0x00u16, 1u16, 4u8),
        (0x01, 3, 12),
        (0x02, 1, 4),
        (0x03, 1, 8),
        (0x04, 1, 4),
        (0x05, 1, 4),
        (0x06, 2, 8),
        (0x07, 1, 4),
        (0x08, 3, 20),
        (0x09, 1, 8),
    ];
    for (code, length, cycles) in table {
        let (mut reg, mut mem) = busy_machine();
        let pc = reg.pc;
        let instr = get_instruction(code, &reg).unwrap();
        assert_eq!(instr.length as u16, length);
        assert_eq!(instr.cycles, cycles);
        assert_eq!(execute_instruction(code, &mut reg, &mut mem), Ok(cycles));
        assert_eq!(reg.pc, pc + length);
    }
}

#[test]
fn decoding_places_immediates_after_the_program_counter() {
    let mut reg = Registers::create();
    reg.pc = 0x0150;

    assert_eq!(
        get_instruction(0x01, &reg),
        Ok(Instruction {
            source: Some(InstructionTarget::N16(0x0151)),
            target: Some(InstructionTarget::BC),
            operation: Operation::LD,
            cycles: 12,
            length: 3,
            flags: FlagInstruction::default(),
        })
    );
    assert_eq!(
        get_instruction(0x06, &reg),
        Ok(Instruction {
            source: Some(InstructionTarget::N8(0x0151)),
            target: Some(InstructionTarget::B),
            operation: Operation::LD,
            cycles: 8,
            length: 2,
            flags: FlagInstruction::default(),
        })
    );
    assert_eq!(
        get_instruction(0x08, &reg),
        Ok(Instruction {
            source: Some(InstructionTarget::SP),
            target: Some(deref(InstructionTarget::N16(0x0151))),
            operation: Operation::LD,
            cycles: 20,
            length: 3,
            flags: FlagInstruction::default(),
        })
    );
}

#[test]
fn decoding_gives_each_entry_its_operation_and_flag_policy() {
    let reg = Registers::create();
    let unmodified = FlagInstruction {
        zero: FlagOperation::Unmodified,
        subtract: FlagOperation::Unmodified,
        half_carry: FlagOperation::Unmodified,
        carry: FlagOperation::Unmodified,
    };
    assert_eq!(FlagInstruction::default(), unmodified);
    assert_eq!(FlagOperation::default(), FlagOperation::Unmodified);

    assert_eq!(
        get_instruction(0x00, &reg),
        Ok(Instruction {
            source: None,
            target: None,
            operation: Operation::NOP,
            cycles: 4,
            length: 1,
            flags: unmodified,
        })
    );
    assert_eq!(
        get_instruction(0x02, &reg),
        Ok(Instruction {
            source: Some(InstructionTarget::A),
            target: Some(deref(InstructionTarget::BC)),
            operation: Operation::LD,
            cycles: 4,
            length: 1,
            flags: unmodified,
        })
    );
    assert_eq!(
        get_instruction(0x03, &reg),
        Ok(Instruction {
            source: None,
            target: Some(InstructionTarget::BC),
            operation: Operation::INC,
            cycles: 8,
            length: 1,
            flags: unmodified,
        })
    );
    assert_eq!(
        get_instruction(0x04, &reg),
        Ok(Instruction {
            source: None,
            target: Some(InstructionTarget::B),
            operation: Operation::INC,
            cycles: 4,
            length: 1,
            flags: FlagInstruction {
                zero: FlagOperation::Dependent,
                subtract: FlagOperation::Unset,
                half_carry: FlagOperation::Dependent,
                carry: FlagOperation::Unmodified,
            },
        })
    );
    assert_eq!(
        get_instruction(0x05, &reg),
        Ok(Instruction {
            source: None,
            target: Some(InstructionTarget::B),
            operation: Operation::DEC,
            cycles: 4,
            length: 1,
            flags: FlagInstruction {
                zero: FlagOperation::Dependent,
                subtract: FlagOperation::Raised,
                half_carry: FlagOperation::Dependent,
                carry: FlagOperation::Unmodified,
            },
        })
    );
    assert_eq!(
        get_instruction(0x07, &reg),
        Ok(Instruction {
            source: None,
            target: Some(InstructionTarget::A),
            operation: Operation::RXC(Direction::Left),
            cycles: 4,
            length: 1,
            flags: FlagInstruction {
                zero: FlagOperation::Unset,
                subtract: FlagOperation::Unset,
                half_carry: FlagOperation::Unset,
                carry: FlagOperation::Dependent,
            },
        })
    );
    assert_eq!(
        get_instruction(0x09, &reg),
        Ok(Instruction {
            source: Some(InstructionTarget::BC),
            target: Some(InstructionTarget::HL),
            operation: Operation::ADD,
            cycles: 8,
            length: 1,
            flags: FlagInstruction {
                zero: FlagOperation::Unmodified,
                subtract: FlagOperation::Unset,
                half_carry: FlagOperation::Dependent,
                carry: FlagOperation::Dependent,
            },
        })
    );
}

#[test]
fn decoding_depends_on_the_program_counter_alone() {
    let (busy, _) = busy_machine();
    let mut quiet = Registers::create();
    quiet.pc = busy.pc;
    for code in 0x00..=0x0Bu16 {
        assert_eq!(get_instruction(code, &busy), get_instruction(code, &quiet));
    }
}

#[test]
fn the_program_counter_wraps_at_the_end_of_memory() {
    let mut mem = MemoryBus::create();
    let mut reg = Registers::create();
    reg.pc = 0xFFFF;
    mem.write(0x0000, 0xCD);
    mem.write(0x0001, 0xAB);

    // The immediate word of the instruction at 0xFFFF starts at 0x0000.
    assert_eq!(execute_instruction(0x01, &mut reg, &mut mem), Ok(12));

    assert_eq!(reg.get_reg16(RegisterPair::BC), 0xABCD);
    assert_eq!(reg.pc, 0x0002);
}

#[test]
fn operands_have_the_width_of_what_they_name() {
    for target in [
        InstructionTarget::A,
        InstructionTarget::B,
        InstructionTarget::C,
        InstructionTarget::D,
        InstructionTarget::E,
        InstructionTarget::H,
        InstructionTarget::L,
        InstructionTarget::N8(0x1234),
    ] {
        assert_eq!(get_op_size(&target), Some(InstructionSize::Eight));
    }
    for target in [
        InstructionTarget::BC,
        InstructionTarget::DE,
        InstructionTarget::HL,
        InstructionTarget::SP,
        InstructionTarget::N16(0x1234),
    ] {
        assert_eq!(get_op_size(&target), Some(InstructionSize::Sixteen));
    }
    assert_eq!(get_op_size(&deref(InstructionTarget::HL)), None);
    assert_eq!(get_op_size(&deref(InstructionTarget::N16(0))), None);
}

#[test]
fn operands_convert_to_the_registers_they_name() {
    assert_eq!(target_to_register(InstructionTarget::A), Ok(Register::A));
    assert_eq!(target_to_register(InstructionTarget::B), Ok(Register::B));
    assert_eq!(target_to_register(InstructionTarget::C), Ok(Register::C));
    assert_eq!(target_to_register(InstructionTarget::D), Ok(Register::D));
    assert_eq!(target_to_register(InstructionTarget::E), Ok(Register::E));
    assert_eq!(target_to_register(InstructionTarget::H), Ok(Register::H));
    assert_eq!(target_to_register(InstructionTarget::L), Ok(Register::L));
    for target in [
        InstructionTarget::BC,
        InstructionTarget::SP,
        InstructionTarget::N8(0),
        InstructionTarget::N16(0),
        deref(InstructionTarget::HL),
    ] {
        assert_eq!(
            target_to_register(target),
            Err(Failure::InvalidOperandWidth)
        );
    }

    assert_eq!(
        target_to_register_pair(InstructionTarget::BC),
        Ok(RegisterPair::BC)
    );
    assert_eq!(
        target_to_register_pair(InstructionTarget::DE),
        Ok(RegisterPair::DE)
    );
    assert_eq!(
        target_to_register_pair(InstructionTarget::HL),
        Ok(RegisterPair::HL)
    );
    for target in [
        InstructionTarget::A,
        InstructionTarget::SP,
        InstructionTarget::N8(0),
        InstructionTarget::N16(0),
        deref(InstructionTarget::HL),
    ] {
        assert_eq!(
            target_to_register_pair(target),
            Err(Failure::InvalidOperandWidth)
        );
    }
}

#[test]
fn each_flag_follows_its_own_policy() {
    for current in [false, true] {
        for result in [None, Some(FlagResult::Raised), Some(FlagResult::Unset)] {
            assert_eq!(
                resolve_flag(FlagOperation::Unmodified, result, current),
                Ok(current)
            );
            assert_eq!(resolve_flag(FlagOperation::Raised, result, current), Ok(true));
            assert_eq!(resolve_flag(FlagOperation::Unset, result, current), Ok(false));
        }
        assert_eq!(
            resolve_flag(FlagOperation::Dependent, Some(FlagResult::Raised), current),
            Ok(true)
        );
        assert_eq!(
            resolve_flag(FlagOperation::Dependent, Some(FlagResult::Unset), current),
            Ok(false)
        );
        assert_eq!(
            resolve_flag(FlagOperation::Dependent, None, current),
            Err(Failure::MissingFlagResult)
        );
    }
}

#[test]
fn forced_flags_ignore_what_the_operation_computed() {
    let policy = FlagInstruction {
        zero: FlagOperation::Raised,
        subtract: FlagOperation::Unset,
        half_carry: FlagOperation::Unmodified,
        carry: FlagOperation::Dependent,
    };
    let results = FlagResults {
        zero: Some(FlagResult::Unset),
        subtract: Some(FlagResult::Raised),
        half_carry: Some(FlagResult::Unset),
        carry: Some(FlagResult::Raised),
    };
    let current = FlagsRegister {
        zero: false,
        subtract: true,
        half_carry: true,
        carry: false,
    };
    assert_eq!(
        resolve_flags(policy, results, current),
        Ok(FlagsRegister {
            zero: true,
            subtract: false,
            half_carry: true,
            carry: true,
        })
    );
    assert_eq!(FlagResults::default().carry, None);
}

#[test]
fn a_missing_flag_result_fails_and_changes_no_flag() {
    let mut reg = Registers::create();
    reg.set_flags(0x50);
    reg.set_reg8(Register::A, 0x33);
    let before = reg;

    let policy = FlagInstruction {
        zero: FlagOperation::Raised,
        subtract: FlagOperation::Unset,
        half_carry: FlagOperation::Raised,
        carry: FlagOperation::Dependent,
    };
    let results = FlagResults {
        zero: Some(FlagResult::Raised),
        subtract: None,
        half_carry: None,
        carry: None,
    };

    assert_eq!(
        modify_flags(&mut reg, policy, results),
        Err(Failure::MissingFlagResult)
    );
    assert_eq!(reg, before);
}

#[test]
fn modify_flags_touches_the_flags_only() {
    let (mut reg, _) = busy_machine();
    let before = reg;
    let policy = FlagInstruction {
        zero: FlagOperation::Unset,
        subtract: FlagOperation::Unmodified,
        half_carry: FlagOperation::Unset,
        carry: FlagOperation::Unmodified,
    };

    assert_eq!(modify_flags(&mut reg, policy, FlagResults::default()), Ok(()));

    let mut expected = before;
    expected.flags.zero = false;
    expected.flags.half_carry = false;
    assert_eq!(reg, expected);
    assert_eq!(reg.get_flags(), 0x50);
}

fn instruction(
    operation: Operation,
    source: Option<InstructionTarget>,
    target: Option<InstructionTarget>,
    flags: FlagInstruction,
) -> Instruction {
    Instruction {
        source,
        target,
        operation,
        cycles: 4,
        length: 1,
        flags,
    }
}

fn assert_fails_untouched(instr: Instruction, failure: Failure) {
    let (mut reg, mut mem) = busy_machine();
    let before_reg = reg;
    let before_mem = mem.clone();
    assert_eq!(execute(instr, &mut reg, &mut mem), Err(failure));
    assert_eq!(reg, before_reg);
    assert_eq!(mem, before_mem);
}

#[test]
fn a_rotation_to_the_right_is_not_implemented() {
    assert_fails_untouched(
        instruction(
            Operation::RXC(Direction::Right),
            None,
            Some(InstructionTarget::A),
            FlagInstruction::default(),
        ),
        Failure::NotImplemented,
    );
}

#[test]
fn an_addition_of_bytes_is_not_implemented() {
    assert_fails_untouched(
        instruction(
            Operation::ADD,
            Some(InstructionTarget::B),
            Some(InstructionTarget::A),
            FlagInstruction::default(),
        ),
        Failure::NotImplemented,
    );
}

#[test]
fn a_missing_operand_is_an_invalid_operand() {
    for operation in [
        Operation::LD,
        Operation::INC,
        Operation::DEC,
        Operation::ADD,
        Operation::RXC(Direction::Left),
    ] {
        assert_fails_untouched(
            instruction(operation, None, None, FlagInstruction::default()),
            Failure::InvalidOperandWidth,
        );
    }
    assert_fails_untouched(
        instruction(
            Operation::LD,
            None,
            Some(InstructionTarget::A),
            FlagInstruction::default(),
        ),
        Failure::InvalidOperandWidth,
    );
    assert_fails_untouched(
        instruction(
            Operation::ADD,
            Some(InstructionTarget::BC),
            None,
            FlagInstruction::default(),
        ),
        Failure::InvalidOperandWidth,
    );
}

#[test]
fn operands_of_different_widths_are_an_invalid_operand() {
    // A word cannot be loaded into a byte register, nor a byte into a pair.
    assert_fails_untouched(
        instruction(
            Operation::LD,
            Some(InstructionTarget::BC),
            Some(InstructionTarget::A),
            FlagInstruction::default(),
        ),
        Failure::InvalidOperandWidth,
    );
    assert_fails_untouched(
        instruction(
            Operation::LD,
            Some(InstructionTarget::A),
            Some(InstructionTarget::BC),
            FlagInstruction::default(),
        ),
        Failure::InvalidOperandWidth,
    );
    // Two indirect operands leave the width open.
    assert_fails_untouched(
        instruction(
            Operation::LD,
            Some(deref(InstructionTarget::HL)),
            Some(deref(InstructionTarget::BC)),
            FlagInstruction::default(),
        ),
        Failure::InvalidOperandWidth,
    );
    // An indirect operand has no width of its own to step at.
    assert_fails_untouched(
        instruction(
            Operation::INC,
            None,
            Some(deref(InstructionTarget::HL)),
            FlagInstruction::default(),
        ),
        Failure::InvalidOperandWidth,
    );
    // A word is added into a word.
    assert_fails_untouched(
        instruction(
            Operation::ADD,
            Some(InstructionTarget::BC),
            Some(InstructionTarget::A),
            FlagInstruction::default(),
        ),
        Failure::InvalidOperandWidth,
    );
    // Rotations work on a byte register.
    assert_fails_untouched(
        instruction(
            Operation::RXC(Direction::Left),
            None,
            Some(InstructionTarget::HL),
            FlagInstruction::default(),
        ),
        Failure::InvalidOperandWidth,
    );
}

#[test]
fn a_flag_that_depends_on_a_value_never_computed_fails_before_any_write() {
    let carry_dependent = FlagInstruction {
        zero: FlagOperation::Unmodified,
        subtract: FlagOperation::Unmodified,
        half_carry: FlagOperation::Unmodified,
        carry: FlagOperation::Dependent,
    };
    // Increments compute zero and half-carry, never carry.
    assert_fails_untouched(
        instruction(Operation::INC, None, Some(InstructionTarget::B), carry_dependent),
        Failure::MissingFlagResult,
    );
    assert_fails_untouched(
        instruction(Operation::DEC, None, Some(InstructionTarget::HL), carry_dependent),
        Failure::MissingFlagResult,
    );
    let subtract_dependent = FlagInstruction {
        zero: FlagOperation::Unmodified,
        subtract: FlagOperation::Dependent,
        half_carry: FlagOperation::Unmodified,
        carry: FlagOperation::Unmodified,
    };
    assert_fails_untouched(
        instruction(
            Operation::ADD,
            Some(InstructionTarget::BC),
            Some(InstructionTarget::HL),
            subtract_dependent,
        ),
        Failure::MissingFlagResult,
    );
    let zero_dependent = FlagInstruction {
        zero: FlagOperation::Dependent,
        subtract: FlagOperation::Unmodified,
        half_carry: FlagOperation::Unmodified,
        carry: FlagOperation::Unmodified,
    };
    assert_fails_untouched(
        instruction(
            Operation::RXC(Direction::Left),
            None,
            Some(InstructionTarget::A),
            zero_dependent,
        ),
        Failure::MissingFlagResult,
    );
}

#[test]
fn loads_and_nop_never_touch_the_flags() {
    let forced = FlagInstruction {
        zero: FlagOperation::Raised,
        subtract: FlagOperation::Unset,
        half_carry: FlagOperation::Dependent,
        carry: FlagOperation::Raised,
    };
    let (mut reg, mut mem) = busy_machine();
    reg.set_flags(0x60);

    assert_eq!(
        execute(instruction(Operation::NOP, None, None, forced), &mut reg, &mut mem),
        Ok(4)
    );
    assert_eq!(reg.get_flags(), 0x60);

    assert_eq!(
        execute(
            instruction(
                Operation::LD,
                Some(InstructionTarget::A),
                Some(InstructionTarget::D),
                forced,
            ),
            &mut reg,
            &mut mem,
        ),
        Ok(4)
    );
    assert_eq!(reg.get_flags(), 0x60);
    assert_eq!(reg.get_reg8(Register::D), 0xA1);
}

#[test]
fn a_load_between_indirect_and_direct_takes_the_direct_width() {
    let (mut reg, mut mem) = busy_machine();
    // LD A,(BC): the source has no width, the target is a byte.
    assert_eq!(
        execute(
            instruction(
                Operation::LD,
                Some(deref(InstructionTarget::BC)),
                Some(InstructionTarget::A),
                FlagInstruction::default(),
            ),
            &mut reg,
            &mut mem,
        ),
        Ok(4)
    );
    assert_eq!(reg.get_reg8(Register::A), 0x77);

    // LD SP,(a16): the source has no width, the target is a word.
    mem.write_word(0x1234, 0xC0DE);
    assert_eq!(
        execute(
            instruction(
                Operation::LD,
                Some(deref(InstructionTarget::N16(0x0151))),
                Some(InstructionTarget::SP),
                FlagInstruction::default(),
            ),
            &mut reg,
            &mut mem,
        ),
        Ok(4)
    );
    assert_eq!(reg.sp, 0xC0DE);
}

#[test]
fn word_steps_compute_their_flags_at_bit_eleven() {
    let dependent = FlagInstruction {
        zero: FlagOperation::Dependent,
        subtract: FlagOperation::Unmodified,
        half_carry: FlagOperation::Dependent,
        carry: FlagOperation::Unmodified,
    };
    // (operation, DE before, DE after, zero, half-carry)
    let cases = [
        (Operation::INC, 0x0FFFu16, 0x1000u16, false, true),
        (Operation::INC, 0xFFFF, 0x0000, true, true),
        (Operation::INC, 0x1234, 0x1235, false, false),
        (Operation::DEC, 0x1000, 0x0FFF, false, true),
        (Operation::DEC, 0x0001, 0x0000, true, false),
        (Operation::DEC, 0x0000, 0xFFFF, false, true),
    ];
    for (operation, before, after, zero, half_carry) in cases {
        let mut mem = MemoryBus::create();
        let mut reg = Registers::create();
        reg.set_reg16(RegisterPair::DE, before);
        assert_eq!(
            execute(
                instruction(operation, None, Some(InstructionTarget::DE), dependent),
                &mut reg,
                &mut mem,
            ),
            Ok(4)
        );
        assert_eq!(reg.get_reg16(RegisterPair::DE), after);
        assert_eq!(reg.get_flag(Flag::Zero), zero);
        assert_eq!(reg.get_flag(Flag::HalfCarry), half_carry);
    }
}

#[test]
fn the_program_counter_moves_by_the_length_whatever_the_operands_hold() {
    for length in [0u8, 1, 2, 3, 255] {
        let (mut reg, mut mem) = busy_machine();
        let instr = Instruction {
            source: Some(InstructionTarget::N8(0x0151)),
            target: Some(InstructionTarget::E),
            operation: Operation::LD,
            cycles: 9,
            length,
            flags: FlagInstruction::default(),
        };
        assert_eq!(execute(instr, &mut reg, &mut mem), Ok(9));
        assert_eq!(reg.pc, 0x0150 + length as u16);
        assert_eq!(reg.get_reg8(Register::E), 0x34);
    }
}

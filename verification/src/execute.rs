//! The execution engine: what each operation does to the operands and the
//! flags, and the single step that decodes and executes one opcode.
//!
//! An instruction either takes effect as a whole or fails and leaves the
//! register file and the memory as they were: everything that can fail is
//! settled before the first write.

use vstd::prelude::*;

use crate::data::{
    address_after, wrap16, wrap8, wrapping_difference16, wrapping_difference8, wrapping_sum16,
    wrapping_sum8,
};
use crate::flags::{
    carry16, check_carry16, check_half_carry16, check_half_carry8, half_carry16, half_carry8,
    ArithmeticMode,
};
use crate::instructions::{
    decode, get_instruction, get_op_size, op_size, register_of, target_to_register, Direction,
    Failure, FlagInstruction, FlagOperation, FlagResult, FlagResults, Instruction,
    InstructionSize, InstructionTarget, Operation,
};
use crate::memory::MemoryBus;
use crate::opcodes::lemma_table;
use crate::operands::{
    commits, get_x16, get_x8, set_x16, set_x8, store16, store8, valid16, valid8, value16, value8,
    write16, write8,
};
use crate::registers::{Flag, FlagsRegister, Registers};

verus! {

/// The value of one flag after an instruction: kept, forced, or taken from
/// what the operation computed. A flag that depends on the operation needs a
/// computed value.
pub open spec fn flag_after(
    policy: FlagOperation,
    result: Option<FlagResult>,
    current: bool,
) -> Result<bool, Failure> {
    match policy {
        FlagOperation::Unmodified => Ok(current),
        FlagOperation::Raised => Ok(true),
        FlagOperation::Unset => Ok(false),
        FlagOperation::Dependent => match result {
            Some(computed) => Ok(computed == FlagResult::Raised),
            None => Err(Failure::MissingFlagResult),
        },
    }
}

/// The four flags after an instruction, each decided by itself. One missing
/// value fails the whole.
pub open spec fn flags_after(
    policy: FlagInstruction,
    results: FlagResults,
    current: FlagsRegister,
) -> Result<FlagsRegister, Failure> {
    let zero = flag_after(policy.zero, results.zero, current.zero);
    let subtract = flag_after(policy.subtract, results.subtract, current.subtract);
    let half_carry = flag_after(policy.half_carry, results.half_carry, current.half_carry);
    let carry = flag_after(policy.carry, results.carry, current.carry);
    if zero is Ok && subtract is Ok && half_carry is Ok && carry is Ok {
        Ok(
            FlagsRegister {
                zero: zero.unwrap(),
                subtract: subtract.unwrap(),
                half_carry: half_carry.unwrap(),
                carry: carry.unwrap(),
            },
        )
    } else {
        Err(Failure::MissingFlagResult)
    }
}

/// The computed value of a flag that an operation raises exactly when
/// `raised` holds.
pub open spec fn computed(raised: bool) -> Option<FlagResult> {
    Some(
        if raised {
            FlagResult::Raised
        } else {
            FlagResult::Unset
        },
    )
}

/// The state `stored` with the flags set as `policy` asks, given the values
/// that the operation computed and the flags before it.
pub open spec fn settle(
    stored: (Registers, Map<u16, u8>),
    policy: FlagInstruction,
    results: FlagResults,
    current: FlagsRegister,
) -> Result<(Registers, Map<u16, u8>), Failure> {
    match flags_after(policy, results, current) {
        Ok(flags) => Ok((Registers { flags, ..stored.0 }, stored.1)),
        Err(failure) => Err(failure),
    }
}

/// The width at which a two-operand instruction works: that of the source
/// where the source has one, else that of the target.
pub open spec fn width_of(source: InstructionTarget, target: InstructionTarget) -> Option<
    InstructionSize,
> {
    match op_size(source) {
        Some(size) => Some(size),
        None => op_size(target),
    }
}

/// A load copies the source to the target and touches no flag. Both operands
/// are needed, one of them fixes the width, and both must have it.
pub open spec fn loaded(
    source: Option<InstructionTarget>,
    target: Option<InstructionTarget>,
    reg: Registers,
    mem: Map<u16, u8>,
) -> Result<(Registers, Map<u16, u8>), Failure> {
    if source is None || target is None {
        Err(Failure::InvalidOperandWidth)
    } else {
        match width_of(source.unwrap(), target.unwrap()) {
            None => Err(Failure::InvalidOperandWidth),
            Some(InstructionSize::Eight) => if valid8(source.unwrap()) {
                write8(target.unwrap(), reg, mem, value8(source.unwrap(), reg, mem))
            } else {
                Err(Failure::InvalidOperandWidth)
            },
            Some(InstructionSize::Sixteen) => if valid16(source.unwrap()) {
                write16(target.unwrap(), reg, mem, value16(source.unwrap(), reg, mem))
            } else {
                Err(Failure::InvalidOperandWidth)
            },
        }
    }
}

/// What an increment (`Add`) or a decrement (`Subtract`) adds to its operand.
pub open spec fn unit(mode: ArithmeticMode) -> int {
    match mode {
        ArithmeticMode::Add => 1,
        ArithmeticMode::Subtract => -1,
    }
}

/// An increment or decrement of a byte operand: the operand moves by one and
/// wraps. The zero flag is computed from the new value, the half-carry flag
/// from the old value and one.
pub open spec fn stepped8(
    mode: ArithmeticMode,
    target: InstructionTarget,
    policy: FlagInstruction,
    reg: Registers,
    mem: Map<u16, u8>,
) -> Result<(Registers, Map<u16, u8>), Failure> {
    if valid8(target) {
        let before = value8(target, reg, mem);
        let after = wrap8(before + unit(mode));
        settle(
            store8(target, reg, mem, after),
            policy,
            FlagResults {
                zero: computed(after == 0),
                subtract: None,
                half_carry: computed(half_carry8(mode, before, 1)),
                carry: None,
            },
            reg.flags,
        )
    } else {
        Err(Failure::InvalidOperandWidth)
    }
}

/// An increment or decrement of a word operand: the operand moves by one and
/// wraps. The zero flag is computed from the new value, the half-carry flag
/// from the old value and one.
pub open spec fn stepped16(
    mode: ArithmeticMode,
    target: InstructionTarget,
    policy: FlagInstruction,
    reg: Registers,
    mem: Map<u16, u8>,
) -> Result<(Registers, Map<u16, u8>), Failure> {
    if valid16(target) {
        let before = value16(target, reg, mem);
        let after = wrap16(before + unit(mode));
        settle(
            store16(target, reg, mem, after),
            policy,
            FlagResults {
                zero: computed(after == 0),
                subtract: None,
                half_carry: computed(half_carry16(mode, before, 1)),
                carry: None,
            },
            reg.flags,
        )
    } else {
        Err(Failure::InvalidOperandWidth)
    }
}

/// An increment or decrement works at the width that its operand has by
/// itself. The operand is needed, and an indirect operand, which has no width
/// of its own, is rejected.
pub open spec fn stepped(
    mode: ArithmeticMode,
    target: Option<InstructionTarget>,
    policy: FlagInstruction,
    reg: Registers,
    mem: Map<u16, u8>,
) -> Result<(Registers, Map<u16, u8>), Failure> {
    if target is None {
        Err(Failure::InvalidOperandWidth)
    } else {
        match op_size(target.unwrap()) {
            None => Err(Failure::InvalidOperandWidth),
            Some(InstructionSize::Eight) => stepped8(mode, target.unwrap(), policy, reg, mem),
            Some(InstructionSize::Sixteen) => stepped16(mode, target.unwrap(), policy, reg, mem),
        }
    }
}

/// An addition of words: the source is added into the target and the sum
/// wraps. The zero flag is computed from the sum, half-carry and carry from
/// the two operands.
pub open spec fn added16(
    source: InstructionTarget,
    target: InstructionTarget,
    policy: FlagInstruction,
    reg: Registers,
    mem: Map<u16, u8>,
) -> Result<(Registers, Map<u16, u8>), Failure> {
    if valid16(source) && valid16(target) {
        let augend = value16(target, reg, mem);
        let addend = value16(source, reg, mem);
        let sum = wrap16(augend + addend);
        settle(
            store16(target, reg, mem, sum),
            policy,
            FlagResults {
                zero: computed(sum == 0),
                subtract: None,
                half_carry: computed(half_carry16(ArithmeticMode::Add, augend, addend)),
                carry: computed(carry16(ArithmeticMode::Add, augend, addend)),
            },
            reg.flags,
        )
    } else {
        Err(Failure::InvalidOperandWidth)
    }
}

/// An addition needs both operands and works at the width that they fix.
/// Words are added; the addition of bytes is left for later.
pub open spec fn added(
    source: Option<InstructionTarget>,
    target: Option<InstructionTarget>,
    policy: FlagInstruction,
    reg: Registers,
    mem: Map<u16, u8>,
) -> Result<(Registers, Map<u16, u8>), Failure> {
    if source is None || target is None {
        Err(Failure::InvalidOperandWidth)
    } else {
        match width_of(source.unwrap(), target.unwrap()) {
            None => Err(Failure::InvalidOperandWidth),
            Some(InstructionSize::Eight) => Err(Failure::NotImplemented),
            Some(InstructionSize::Sixteen) => added16(
                source.unwrap(),
                target.unwrap(),
                policy,
                reg,
                mem,
            ),
        }
    }
}

/// A byte rotated left by one bit: every bit moves up, and the top bit comes
/// back in at the bottom.
pub open spec fn rotate_left8(value: u8) -> u8 {
    wrap8(2 * value + value / 128)
}

/// A rotation turns a byte register by one bit. To the left, it computes the
/// carry flag as the bit that left the top. To the right it is left for
/// later.
pub open spec fn rotated(
    direction: Direction,
    target: Option<InstructionTarget>,
    policy: FlagInstruction,
    reg: Registers,
    mem: Map<u16, u8>,
) -> Result<(Registers, Map<u16, u8>), Failure> {
    if direction == Direction::Right {
        Err(Failure::NotImplemented)
    } else if target is None || register_of(target.unwrap()) is None {
        Err(Failure::InvalidOperandWidth)
    } else {
        let register = register_of(target.unwrap()).unwrap();
        let before = reg.reg8(register);
        settle(
            (reg.with_reg8(register, rotate_left8(before)), mem),
            policy,
            FlagResults {
                zero: None,
                subtract: None,
                half_carry: None,
                carry: computed(before >= 128),
            },
            reg.flags,
        )
    }
}

/// What an operation does to its operands and to the flags.
pub open spec fn effect(
    operation: Operation,
    source: Option<InstructionTarget>,
    target: Option<InstructionTarget>,
    policy: FlagInstruction,
    reg: Registers,
    mem: Map<u16, u8>,
) -> Result<(Registers, Map<u16, u8>), Failure> {
    match operation {
        Operation::NOP => Ok((reg, mem)),
        Operation::LD => loaded(source, target, reg, mem),
        Operation::INC => stepped(ArithmeticMode::Add, target, policy, reg, mem),
        Operation::DEC => stepped(ArithmeticMode::Subtract, target, policy, reg, mem),
        Operation::ADD => added(source, target, policy, reg, mem),
        Operation::RXC(direction) => rotated(direction, target, policy, reg, mem),
    }
}

/// The outcome of executing `instr` from the state `(reg, mem)`: the
/// operation's effect on operands and flags, the program counter moved on by
/// the length of the instruction, whatever the operands held, and the cost of
/// the instruction in cycles.
pub open spec fn run(instr: Instruction, reg: Registers, mem: Map<u16, u8>) -> Result<
    (Registers, Map<u16, u8>, u8),
    Failure,
> {
    match effect(instr.operation, instr.source, instr.target, instr.flags, reg, mem) {
        Ok((reg_after, mem_after)) => Ok(
            (
                Registers { pc: address_after(reg_after.pc, instr.length as int), ..reg_after },
                mem_after,
                instr.cycles,
            ),
        ),
        Err(failure) => Err(failure),
    }
}

/// One step of the machine: the outcome of the instruction that `code` stands
/// for at the program counter.
pub open spec fn step(code: u16, reg: Registers, mem: Map<u16, u8>) -> Result<
    (Registers, Map<u16, u8>, u8),
    Failure,
> {
    match decode(code, reg.pc) {
        Ok(instr) => run(instr, reg, mem),
        Err(failure) => Err(failure),
    }
}

/// Whether a call that answered `result` and took the machine from
/// `(reg_before, mem_before)` to `(reg_after, mem_after)` did what `outcome`
/// asks: on success the state and the cost are the ones given, on failure the
/// error is the one given and the state is untouched.
pub open spec fn performs(
    outcome: Result<(Registers, Map<u16, u8>, u8), Failure>,
    result: Result<u8, Failure>,
    reg_before: Registers,
    mem_before: Map<u16, u8>,
    reg_after: Registers,
    mem_after: Map<u16, u8>,
) -> bool {
    match outcome {
        Ok((reg, mem, cycles)) => result == Ok::<u8, Failure>(cycles) && reg_after == reg
            && mem_after == mem,
        Err(failure) => result == Err::<u8, Failure>(failure) && reg_after == reg_before
            && mem_after == mem_before,
    }
}

/// An instruction that takes effect moves the program counter on by its
/// length, whatever its operands hold, and costs its cycles. A load and a
/// no-operation leave every flag alone, whatever their flag policy says.
pub proof fn lemma_run_advances(instr: Instruction, reg: Registers, mem: Map<u16, u8>)
    requires
        run(instr, reg, mem) is Ok,
    ensures
        run(instr, reg, mem).unwrap().0.pc == address_after(reg.pc, instr.length as int),
        run(instr, reg, mem).unwrap().2 == instr.cycles,
        instr.operation is NOP || instr.operation is LD ==> run(instr, reg, mem).unwrap().0.flags
            == reg.flags,
{
}

/// Decides one flag from its policy, the value that the operation computed
/// for it, and the value it has.
pub fn resolve_flag(policy: FlagOperation, result: Option<FlagResult>, current: bool) -> (value:
    Result<bool, Failure>)
    ensures
        value == flag_after(policy, result, current),
{
    match (policy, result) {
        (FlagOperation::Dependent, Some(FlagResult::Raised)) => Ok(true),
        (FlagOperation::Dependent, Some(FlagResult::Unset)) => Ok(false),
        (FlagOperation::Dependent, None) => Err(Failure::MissingFlagResult),
        (FlagOperation::Raised, _) => Ok(true),
        (FlagOperation::Unset, _) => Ok(false),
        (FlagOperation::Unmodified, _) => Ok(current),
    }
}

/// Decides the four flags, each from its own policy, computed value and
/// current value.
pub fn resolve_flags(instr: FlagInstruction, results: FlagResults, current: FlagsRegister) -> (flags:
    Result<FlagsRegister, Failure>)
    ensures
        flags == flags_after(instr, results, current),
{
    let zero = resolve_flag(instr.zero, results.zero, current.zero);
    let subtract = resolve_flag(instr.subtract, results.subtract, current.subtract);
    let half_carry = resolve_flag(instr.half_carry, results.half_carry, current.half_carry);
    let carry = resolve_flag(instr.carry, results.carry, current.carry);
    match (zero, subtract, half_carry, carry) {
        (Ok(zero), Ok(subtract), Ok(half_carry), Ok(carry)) => Ok(
            FlagsRegister { zero, subtract, half_carry, carry },
        ),
        _ => Err(Failure::MissingFlagResult),
    }
}

/// Sets the flags of `reg` as the policy `instr` asks, given the values that
/// an operation computed. Nothing but the flags changes; where a value that
/// the policy depends on is missing, nothing changes at all.
pub fn modify_flags(reg: &mut Registers, instr: FlagInstruction, results: FlagResults) -> (result:
    Result<(), Failure>)
    ensures
        match flags_after(instr, results, old(reg).flags) {
            Ok(flags) => result is Ok && *final(reg) == (Registers { flags, ..*old(reg) }),
            Err(failure) => result == Err::<(), Failure>(failure) && *final(reg) == *old(reg),
        },
{
    let flags = match resolve_flags(instr, results, reg.flags) {
        Ok(flags) => flags,
        Err(failure) => {
            return Err(failure);
        },
    };
    reg.set_flag(Flag::Zero, flags.zero);
    reg.set_flag(Flag::Subtract, flags.subtract);
    reg.set_flag(Flag::HalfCarry, flags.half_carry);
    reg.set_flag(Flag::Carry, flags.carry);
    Ok(())
}

/// The computed value of a flag that is raised exactly when `raised` holds.
fn flag_result(raised: bool) -> (result: Option<FlagResult>)
    ensures
        result == computed(raised),
{
    Some(
        match raised {
            true => FlagResult::Raised,
            false => FlagResult::Unset,
        },
    )
}

/// The width at which an instruction with these two operands works.
fn operand_width(source: &InstructionTarget, target: &InstructionTarget) -> (size: Option<
    InstructionSize,
>)
    ensures
        size == width_of(*source, *target),
{
    match get_op_size(source) {
        Some(size) => Some(size),
        None => get_op_size(target),
    }
}

/// Executes a load.
fn execute_load(
    source: Option<InstructionTarget>,
    target: Option<InstructionTarget>,
    reg: &mut Registers,
    mem: &mut MemoryBus,
) -> (result: Result<(), Failure>)
    ensures
        commits(
            loaded(source, target, *old(reg), old(mem)@),
            result,
            *old(reg),
            old(mem)@,
            *final(reg),
            final(mem)@,
        ),
{
    let (source, target) = match (source, target) {
        (Some(source), Some(target)) => (source, target),
        _ => {
            return Err(Failure::InvalidOperandWidth);
        },
    };
    match operand_width(&source, &target) {
        None => Err(Failure::InvalidOperandWidth),
        Some(InstructionSize::Eight) => match get_x8(&source, reg, mem) {
            Ok(value) => set_x8(&target, reg, mem, value),
            Err(failure) => Err(failure),
        },
        Some(InstructionSize::Sixteen) => match get_x16(&source, reg, mem) {
            Ok(value) => set_x16(&target, reg, mem, value),
            Err(failure) => Err(failure),
        },
    }
}

/// Moves a byte operand by one and settles the flags.
fn step8(
    mode: ArithmeticMode,
    target: &InstructionTarget,
    flags: FlagInstruction,
    reg: &mut Registers,
    mem: &mut MemoryBus,
) -> (result: Result<(), Failure>)
    ensures
        commits(
            stepped8(mode, *target, flags, *old(reg), old(mem)@),
            result,
            *old(reg),
            old(mem)@,
            *final(reg),
            final(mem)@,
        ),
{
    let value: u8 = match get_x8(target, reg, mem) {
        Ok(value) => value,
        Err(failure) => {
            return Err(failure);
        },
    };
    let moved: u8 = match mode {
        ArithmeticMode::Add => wrapping_sum8(value, 1),
        ArithmeticMode::Subtract => wrapping_difference8(value, 1),
    };
    let results = FlagResults {
        zero: flag_result(moved == 0),
        subtract: None,
        half_carry: flag_result(check_half_carry8(mode, value, 1)),
        carry: None,
    };
    let settled = match resolve_flags(flags, results, reg.flags) {
        Ok(settled) => settled,
        Err(failure) => {
            return Err(failure);
        },
    };
    match set_x8(target, reg, mem, moved) {
        Ok(()) => {},
        Err(failure) => {
            return Err(failure);
        },
    }
    reg.flags = settled;
    Ok(())
}

/// Moves a word operand by one and settles the flags.
fn step16(
    mode: ArithmeticMode,
    target: &InstructionTarget,
    flags: FlagInstruction,
    reg: &mut Registers,
    mem: &mut MemoryBus,
) -> (result: Result<(), Failure>)
    ensures
        commits(
            stepped16(mode, *target, flags, *old(reg), old(mem)@),
            result,
            *old(reg),
            old(mem)@,
            *final(reg),
            final(mem)@,
        ),
{
    let value: u16 = match get_x16(target, reg, mem) {
        Ok(value) => value,
        Err(failure) => {
            return Err(failure);
        },
    };
    let moved: u16 = match mode {
        ArithmeticMode::Add => wrapping_sum16(value, 1),
        ArithmeticMode::Subtract => wrapping_difference16(value, 1),
    };
    let results = FlagResults {
        zero: flag_result(moved == 0),
        subtract: None,
        half_carry: flag_result(check_half_carry16(mode, value, 1)),
        carry: None,
    };
    let settled = match resolve_flags(flags, results, reg.flags) {
        Ok(settled) => settled,
        Err(failure) => {
            return Err(failure);
        },
    };
    match set_x16(target, reg, mem, moved) {
        Ok(()) => {},
        Err(failure) => {
            return Err(failure);
        },
    }
    reg.flags = settled;
    Ok(())
}

/// Executes an increment or a decrement.
fn execute_step(
    mode: ArithmeticMode,
    target: Option<InstructionTarget>,
    flags: FlagInstruction,
    reg: &mut Registers,
    mem: &mut MemoryBus,
) -> (result: Result<(), Failure>)
    ensures
        commits(
            stepped(mode, target, flags, *old(reg), old(mem)@),
            result,
            *old(reg),
            old(mem)@,
            *final(reg),
            final(mem)@,
        ),
{
    let target = match target {
        Some(target) => target,
        None => {
            return Err(Failure::InvalidOperandWidth);
        },
    };
    match get_op_size(&target) {
        None => Err(Failure::InvalidOperandWidth),
        Some(InstructionSize::Eight) => step8(mode, &target, flags, reg, mem),
        Some(InstructionSize::Sixteen) => step16(mode, &target, flags, reg, mem),
    }
}

/// Adds the word `source` into the word `target` and settles the flags.
fn add16(
    source: &InstructionTarget,
    target: &InstructionTarget,
    flags: FlagInstruction,
    reg: &mut Registers,
    mem: &mut MemoryBus,
) -> (result: Result<(), Failure>)
    ensures
        commits(
            added16(*source, *target, flags, *old(reg), old(mem)@),
            result,
            *old(reg),
            old(mem)@,
            *final(reg),
            final(mem)@,
        ),
{
    let source_value: u16 = match get_x16(source, reg, mem) {
        Ok(value) => value,
        Err(failure) => {
            return Err(failure);
        },
    };
    let target_value: u16 = match get_x16(target, reg, mem) {
        Ok(value) => value,
        Err(failure) => {
            return Err(failure);
        },
    };
    let sum: u16 = wrapping_sum16(target_value, source_value);
    let results = FlagResults {
        zero: flag_result(sum == 0),
        subtract: None,
        half_carry: flag_result(
            check_half_carry16(ArithmeticMode::Add, target_value, source_value),
        ),
        carry: flag_result(check_carry16(ArithmeticMode::Add, target_value, source_value)),
    };
    let settled = match resolve_flags(flags, results, reg.flags) {
        Ok(settled) => settled,
        Err(failure) => {
            return Err(failure);
        },
    };
    match set_x16(target, reg, mem, sum) {
        Ok(()) => {},
        Err(failure) => {
            return Err(failure);
        },
    }
    reg.flags = settled;
    Ok(())
}

/// Executes an addition.
fn execute_add(
    source: Option<InstructionTarget>,
    target: Option<InstructionTarget>,
    flags: FlagInstruction,
    reg: &mut Registers,
    mem: &mut MemoryBus,
) -> (result: Result<(), Failure>)
    ensures
        commits(
            added(source, target, flags, *old(reg), old(mem)@),
            result,
            *old(reg),
            old(mem)@,
            *final(reg),
            final(mem)@,
        ),
{
    let (source, target) = match (source, target) {
        (Some(source), Some(target)) => (source, target),
        _ => {
            return Err(Failure::InvalidOperandWidth);
        },
    };
    match operand_width(&source, &target) {
        None => Err(Failure::InvalidOperandWidth),
        Some(InstructionSize::Eight) => Err(Failure::NotImplemented),
        Some(InstructionSize::Sixteen) => add16(&source, &target, flags, reg, mem),
    }
}

/// Executes a rotation.
fn execute_rotate(
    direction: Direction,
    target: Option<InstructionTarget>,
    flags: FlagInstruction,
    reg: &mut Registers,
    mem: &MemoryBus,
) -> (result: Result<(), Failure>)
    ensures
        commits(
            rotated(direction, target, flags, *old(reg), mem@),
            result,
            *old(reg),
            mem@,
            *final(reg),
            mem@,
        ),
{
    match direction {
        Direction::Left => {
            let register = match target {
                Some(target) => match target_to_register(target) {
                    Ok(register) => register,
                    Err(failure) => {
                        return Err(failure);
                    },
                },
                None => {
                    return Err(Failure::InvalidOperandWidth);
                },
            };
            let value: u8 = reg.get_reg8(register);
            let bit7: u8 = (value & 0x80) >> 7;
            assert(((value & 0x80) >> 7u8) == value / 128) by (bit_vector);
            assert((value << 1u8) + value / 128 == (2 * value + value / 128) % 0x100)
                by (bit_vector);
            let results = FlagResults {
                zero: None,
                subtract: None,
                half_carry: None,
                carry: flag_result(bit7 == 1),
            };
            let settled = match resolve_flags(flags, results, reg.flags) {
                Ok(settled) => settled,
                Err(failure) => {
                    return Err(failure);
                },
            };
            reg.set_reg8(register, (value << 1) + bit7);
            reg.flags = settled;
            Ok(())
        },
        Direction::Right => Err(Failure::NotImplemented),
    }
}

/// Applies an operation to its operands and settles the flags.
fn perform(
    operation: Operation,
    source: Option<InstructionTarget>,
    target: Option<InstructionTarget>,
    flags: FlagInstruction,
    reg: &mut Registers,
    mem: &mut MemoryBus,
) -> (result: Result<(), Failure>)
    ensures
        commits(
            effect(operation, source, target, flags, *old(reg), old(mem)@),
            result,
            *old(reg),
            old(mem)@,
            *final(reg),
            final(mem)@,
        ),
{
    match operation {
        Operation::NOP => Ok(()),
        Operation::LD => execute_load(source, target, reg, mem),
        Operation::INC => execute_step(ArithmeticMode::Add, target, flags, reg, mem),
        Operation::DEC => execute_step(ArithmeticMode::Subtract, target, flags, reg, mem),
        Operation::ADD => execute_add(source, target, flags, reg, mem),
        Operation::RXC(direction) => execute_rotate(direction, target, flags, reg, mem),
    }
}

/// Executes a decoded instruction: applies the operation to its operands,
/// sets the flags as the instruction's policy asks, moves the program counter
/// on by the instruction's length and returns its cost in cycles.
///
/// An instruction that fails changes nothing. It fails with
/// `InvalidOperandWidth` where an operand is missing or used at a width it
/// does not have, with `NotImplemented` for a byte addition and a rotation to
/// the right, and with `MissingFlagResult` where a flag depends on a value
/// that its operation does not compute.
pub fn execute(instr: Instruction, reg: &mut Registers, mem: &mut MemoryBus) -> (result: Result<
    u8,
    Failure,
>)
    ensures
        performs(
            run(instr, *old(reg), old(mem)@),
            result,
            *old(reg),
            old(mem)@,
            *final(reg),
            final(mem)@,
        ),
{
    let Instruction { source, target, operation, cycles, length, flags } = instr;
    match perform(operation, source, target, flags, reg, mem) {
        Ok(()) => {
            reg.pc = wrapping_sum16(reg.pc, length as u16);
            Ok(cycles)
        },
        Err(failure) => Err(failure),
    }
}

/// Decodes `code` at the program counter and executes the instruction.
///
/// Returns the cost of the instruction in cycles. An opcode that the table
/// does not hold fails with `UnimplementedOpcode`; every opcode that it holds
/// succeeds. A failure changes nothing.
pub fn execute_instruction(code: u16, reg: &mut Registers, mem: &mut MemoryBus) -> (result: Result<
    u8,
    Failure,
>)
    ensures
        performs(
            step(code, *old(reg), old(mem)@),
            result,
            *old(reg),
            old(mem)@,
            *final(reg),
            final(mem)@,
        ),
        result is Ok <==> code <= 0x09,
        code > 0x09 ==> result == Err::<u8, Failure>(Failure::UnimplementedOpcode(code)),
{
    proof {
        lemma_table(code, *reg, mem@);
    }
    match get_instruction(code, reg) {
        Ok(instr) => execute(instr, reg, mem),
        Err(failure) => Err(failure),
    }
}

} // verus!

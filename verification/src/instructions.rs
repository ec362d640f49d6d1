//! Instructions and the opcode table.
//!
//! Decoding turns an opcode into an [`Instruction`]: what to do, on which
//! operands, how many bytes the instruction takes, how many cycles it costs,
//! and what becomes of each flag. Decoding reads the program counter, to place
//! immediate operands, and nothing else.

use vstd::prelude::*;

use crate::data::{address_after, wrapping_sum16, Address};
use crate::registers::{Register, RegisterPair, Registers};

verus! {

/// Why an instruction could not be decoded or executed. Every failure is
/// fatal to the instruction stream and leaves the machine state as it was.
#[derive(Copy, Clone, Debug, PartialEq, Eq, Structural)]
pub enum Failure {
    /// The opcode table has no entry for this opcode.
    UnimplementedOpcode(u16),
    /// An operand is missing, or is used at a width that it does not have:
    /// the opcode table is wrong.
    InvalidOperandWidth,
    /// A flag depends on the outcome of the operation, and the operation
    /// supplied none: the execution engine is wrong.
    MissingFlagResult,
    /// The operation is known and deliberately left for later.
    NotImplemented,
}

/// What an instruction does to one flag.
#[derive(Copy, Clone, Debug, PartialEq, Eq, Structural)]
pub enum FlagOperation {
    /// The flag keeps its value.
    Unmodified,
    /// The flag takes the value that the operation computes.
    Dependent,
    /// The flag is raised, whatever the operation computes.
    Raised,
    /// The flag is cleared, whatever the operation computes.
    Unset,
}

impl Default for FlagOperation {
    fn default() -> (operation: FlagOperation)
        ensures
            operation == FlagOperation::Unmodified,
    {
        FlagOperation::Unmodified
    }
}

/// The value that an operation computes for one flag.
#[derive(Copy, Clone, Debug, PartialEq, Eq, Structural)]
pub enum FlagResult {
    Raised,
    Unset,
}

/// What an instruction does to each of the four flags.
#[derive(Copy, Clone, Debug, PartialEq, Eq, Structural)]
pub struct FlagInstruction {
    pub zero: FlagOperation,
    pub subtract: FlagOperation,
    pub half_carry: FlagOperation,
    pub carry: FlagOperation,
}

impl FlagInstruction {
    /// The policy that leaves all four flags alone.
    pub open spec fn unmodified() -> FlagInstruction {
        FlagInstruction {
            zero: FlagOperation::Unmodified,
            subtract: FlagOperation::Unmodified,
            half_carry: FlagOperation::Unmodified,
            carry: FlagOperation::Unmodified,
        }
    }
}

impl Default for FlagInstruction {
    fn default() -> (flags: FlagInstruction)
        ensures
            flags == FlagInstruction::unmodified(),
    {
        FlagInstruction {
            zero: FlagOperation::Unmodified,
            subtract: FlagOperation::Unmodified,
            half_carry: FlagOperation::Unmodified,
            carry: FlagOperation::Unmodified,
        }
    }
}

/// The values that an operation computed for the flags; `None` where it
/// computed none.
#[derive(Copy, Clone, Debug, PartialEq, Eq, Structural)]
pub struct FlagResults {
    pub zero: Option<FlagResult>,
    pub subtract: Option<FlagResult>,
    pub half_carry: Option<FlagResult>,
    pub carry: Option<FlagResult>,
}

impl FlagResults {
    /// No flag was computed.
    pub open spec fn none() -> FlagResults {
        FlagResults { zero: None, subtract: None, half_carry: None, carry: None }
    }
}

impl Default for FlagResults {
    fn default() -> (results: FlagResults)
        ensures
            results == FlagResults::none(),
    {
        FlagResults { zero: None, subtract: None, half_carry: None, carry: None }
    }
}

/// Where an operand lives.
#[allow(non_camel_case_types)]
#[derive(Debug, PartialEq, Eq)]
pub enum InstructionTarget {
    A,
    B,
    C,
    D,
    E,
    H,
    L,
    BC,
    DE,
    HL,
    SP,
    /// The byte in memory at this address.
    N8(Address),
    /// The word in memory at this address, low byte first.
    N16(Address),
    /// The memory that the word held by the inner operand points to.
    Ref(Box<InstructionTarget>),
}

/// The kind of work an instruction does.
#[derive(Copy, Clone, Debug, PartialEq, Eq, Structural)]
pub enum Operation {
    NOP,
    LD,
    INC,
    DEC,
    ADD,
    RXC(Direction),
}

/// The direction of a rotation.
#[derive(Copy, Clone, Debug, PartialEq, Eq, Structural)]
pub enum Direction {
    Left,
    Right,
}

/// The width of an operand.
#[derive(Copy, Clone, Debug, PartialEq, Eq, Structural)]
pub enum InstructionSize {
    Eight,
    Sixteen,
}

/// A decoded instruction.
#[derive(Debug, PartialEq, Eq)]
pub struct Instruction {
    pub source: Option<InstructionTarget>,
    pub target: Option<InstructionTarget>,
    pub operation: Operation,
    /// Cost of the instruction in clock ticks.
    pub cycles: u8,
    /// Size of the instruction in bytes, opcode included.
    pub length: u8,
    pub flags: FlagInstruction,
}

/// The byte register that an operand names, if it names one.
pub open spec fn register_of(target: InstructionTarget) -> Option<Register> {
    match target {
        InstructionTarget::A => Some(Register::A),
        InstructionTarget::B => Some(Register::B),
        InstructionTarget::C => Some(Register::C),
        InstructionTarget::D => Some(Register::D),
        InstructionTarget::E => Some(Register::E),
        InstructionTarget::H => Some(Register::H),
        InstructionTarget::L => Some(Register::L),
        _ => None,
    }
}

/// The register pair that an operand names, if it names one. The stack
/// pointer is a word register of its own and no pair.
pub open spec fn register_pair_of(target: InstructionTarget) -> Option<RegisterPair> {
    match target {
        InstructionTarget::BC => Some(RegisterPair::BC),
        InstructionTarget::DE => Some(RegisterPair::DE),
        InstructionTarget::HL => Some(RegisterPair::HL),
        _ => None,
    }
}

/// The width that an operand has by itself: a byte for a byte register and
/// for an immediate byte, a word for a pair, the stack pointer and an
/// immediate word. An indirect operand has none: it is as wide as the
/// instruction that uses it.
pub open spec fn op_size(target: InstructionTarget) -> Option<InstructionSize> {
    if register_of(target) is Some || target is N8 {
        Some(InstructionSize::Eight)
    } else if register_pair_of(target) is Some || target is SP || target is N16 {
        Some(InstructionSize::Sixteen)
    } else {
        None
    }
}

/// Returns the width that `target` has by itself.
pub fn get_op_size(target: &InstructionTarget) -> (size: Option<InstructionSize>)
    ensures
        size == op_size(*target),
{
    match target {
        InstructionTarget::A => Some(InstructionSize::Eight),
        InstructionTarget::B => Some(InstructionSize::Eight),
        InstructionTarget::C => Some(InstructionSize::Eight),
        InstructionTarget::D => Some(InstructionSize::Eight),
        InstructionTarget::E => Some(InstructionSize::Eight),
        InstructionTarget::H => Some(InstructionSize::Eight),
        InstructionTarget::L => Some(InstructionSize::Eight),
        InstructionTarget::BC => Some(InstructionSize::Sixteen),
        InstructionTarget::DE => Some(InstructionSize::Sixteen),
        InstructionTarget::HL => Some(InstructionSize::Sixteen),
        InstructionTarget::SP => Some(InstructionSize::Sixteen),
        InstructionTarget::N8(_) => Some(InstructionSize::Eight),
        InstructionTarget::N16(_) => Some(InstructionSize::Sixteen),
        InstructionTarget::Ref(_) => None,
    }
}

/// Returns the byte register that `target` names; any other operand is
/// rejected with `InvalidOperandWidth`.
pub fn target_to_register(target: InstructionTarget) -> (register: Result<Register, Failure>)
    ensures
        register == match register_of(target) {
            Some(named) => Ok::<Register, Failure>(named),
            None => Err(Failure::InvalidOperandWidth),
        },
{
    match target {
        InstructionTarget::A => Ok(Register::A),
        InstructionTarget::B => Ok(Register::B),
        InstructionTarget::C => Ok(Register::C),
        InstructionTarget::D => Ok(Register::D),
        InstructionTarget::E => Ok(Register::E),
        InstructionTarget::H => Ok(Register::H),
        InstructionTarget::L => Ok(Register::L),
        _ => Err(Failure::InvalidOperandWidth),
    }
}

/// Returns the register pair that `target` names; any other operand is
/// rejected with `InvalidOperandWidth`.
pub fn target_to_register_pair(target: InstructionTarget) -> (pair: Result<RegisterPair, Failure>)
    ensures
        pair == match register_pair_of(target) {
            Some(named) => Ok::<RegisterPair, Failure>(named),
            None => Err(Failure::InvalidOperandWidth),
        },
{
    match target {
        InstructionTarget::BC => Ok(RegisterPair::BC),
        InstructionTarget::DE => Ok(RegisterPair::DE),
        InstructionTarget::HL => Ok(RegisterPair::HL),
        _ => Err(Failure::InvalidOperandWidth),
    }
}

impl Instruction {
    /// An instruction that does nothing.
    pub open spec fn nop(length: u8, cycles: u8) -> Instruction {
        Instruction {
            source: None,
            target: None,
            operation: Operation::NOP,
            cycles,
            length,
            flags: FlagInstruction::unmodified(),
        }
    }

    /// A load of `target` from `source`; loads leave the flags alone.
    pub open spec fn load(
        target: InstructionTarget,
        source: InstructionTarget,
        length: u8,
        cycles: u8,
    ) -> Instruction {
        Instruction {
            source: Some(source),
            target: Some(target),
            operation: Operation::LD,
            cycles,
            length,
            flags: FlagInstruction::unmodified(),
        }
    }

    /// An operation that reads and rewrites the single operand `target`.
    pub open spec fn unary(
        operation: Operation,
        target: InstructionTarget,
        length: u8,
        cycles: u8,
        flags: FlagInstruction,
    ) -> Instruction {
        Instruction { source: None, target: Some(target), operation, cycles, length, flags }
    }

    /// An operation that combines `source` into `target`.
    pub open spec fn binary(
        operation: Operation,
        target: InstructionTarget,
        source: InstructionTarget,
        length: u8,
        cycles: u8,
        flags: FlagInstruction,
    ) -> Instruction {
        Instruction { source: Some(source), target: Some(target), operation, cycles, length, flags }
    }
}

/// The memory that the word held by `inner` points to.
pub open spec fn deref_of(inner: InstructionTarget) -> InstructionTarget {
    InstructionTarget::Ref(Box::new(inner))
}

/// Flag policy of a byte increment or decrement: zero and half-carry follow
/// the outcome, subtract tells the two apart, carry is left alone.
pub open spec fn step8_flags(subtract: FlagOperation) -> FlagInstruction {
    FlagInstruction {
        zero: FlagOperation::Dependent,
        subtract,
        half_carry: FlagOperation::Dependent,
        carry: FlagOperation::Unmodified,
    }
}

/// Flag policy of the accumulator rotations: carry takes the bit that was
/// rotated out, the other three flags are cleared.
pub open spec fn rotate_a_flags() -> FlagInstruction {
    FlagInstruction {
        zero: FlagOperation::Unset,
        subtract: FlagOperation::Unset,
        half_carry: FlagOperation::Unset,
        carry: FlagOperation::Dependent,
    }
}

/// Flag policy of a word addition into HL: subtract is cleared, half-carry
/// and carry follow the outcome. The zero flag is left alone, as it is on the
/// hardware, so a sum that wraps to zero does not raise it.
pub open spec fn add16_flags() -> FlagInstruction {
    FlagInstruction {
        zero: FlagOperation::Unmodified,
        subtract: FlagOperation::Unset,
        half_carry: FlagOperation::Dependent,
        carry: FlagOperation::Dependent,
    }
}

/// The opcode table. `pc` is the address of the opcode; immediate operands
/// follow it in memory. Opcodes without an entry are unimplemented.
pub open spec fn decode(code: u16, pc: u16) -> Result<Instruction, Failure> {
    let immediate = address_after(pc, 1);
    if code == 0x00 {
        // NOP
        Ok(Instruction::nop(1, 4))
    } else if code == 0x01 {
        // LD BC, d16
        Ok(Instruction::load(InstructionTarget::BC, InstructionTarget::N16(immediate), 3, 12))
    } else if code == 0x02 {
        // LD (BC), A
        Ok(Instruction::load(deref_of(InstructionTarget::BC), InstructionTarget::A, 1, 4))
    } else if code == 0x03 {
        // INC BC
        Ok(
            Instruction::unary(
                Operation::INC,
                InstructionTarget::BC,
                1,
                8,
                FlagInstruction::unmodified(),
            ),
        )
    } else if code == 0x04 {
        // INC B
        Ok(
            Instruction::unary(
                Operation::INC,
                InstructionTarget::B,
                1,
                4,
                step8_flags(FlagOperation::Unset),
            ),
        )
    } else if code == 0x05 {
        // DEC B
        Ok(
            Instruction::unary(
                Operation::DEC,
                InstructionTarget::B,
                1,
                4,
                step8_flags(FlagOperation::Raised),
            ),
        )
    } else if code == 0x06 {
        // LD B, d8
        Ok(Instruction::load(InstructionTarget::B, InstructionTarget::N8(immediate), 2, 8))
    } else if code == 0x07 {
        // RLCA
        Ok(
            Instruction::unary(
                Operation::RXC(Direction::Left),
                InstructionTarget::A,
                1,
                4,
                rotate_a_flags(),
            ),
        )
    } else if code == 0x08 {
        // LD (a16), SP
        Ok(
            Instruction::load(
                deref_of(InstructionTarget::N16(immediate)),
                InstructionTarget::SP,
                3,
                20,
            ),
        )
    } else if code == 0x09 {
        // ADD HL, BC
        Ok(
            Instruction::binary(
                Operation::ADD,
                InstructionTarget::HL,
                InstructionTarget::BC,
                1,
                8,
                add16_flags(),
            ),
        )
    } else {
        Err(Failure::UnimplementedOpcode(code))
    }
}

/// Decodes `code` for the program counter held in `reg`. The register file
/// is read for the program counter alone, and nothing is changed.
pub fn get_instruction(code: u16, reg: &Registers) -> (instruction: Result<Instruction, Failure>)
    ensures
        instruction == decode(code, reg.pc),
        instruction is Err <==> code > 0x09,
{
    let immediate: Address = wrapping_sum16(reg.pc, 1);
    match code {
        0x00 => Ok(
            Instruction {
                // NOP
                source: None,
                target: None,
                operation: Operation::NOP,
                cycles: 4,
                length: 1,
                flags: FlagInstruction::default(),
            },
        ),
        0x01 => Ok(
            Instruction {
                // LD BC, d16
                source: Some(InstructionTarget::N16(immediate)),
                target: Some(InstructionTarget::BC),
                operation: Operation::LD,
                cycles: 12,
                length: 3,
                flags: FlagInstruction::default(),
            },
        ),
        0x02 => Ok(
            Instruction {
                // LD (BC), A
                source: Some(InstructionTarget::A),
                target: Some(InstructionTarget::Ref(Box::new(InstructionTarget::BC))),
                operation: Operation::LD,
                cycles: 4,
                length: 1,
                flags: FlagInstruction::default(),
            },
        ),
        0x03 => Ok(
            Instruction {
                // INC BC
                source: None,
                target: Some(InstructionTarget::BC),
                operation: Operation::INC,
                cycles: 8,
                length: 1,
                flags: FlagInstruction::default(),
            },
        ),
        0x04 => Ok(
            Instruction {
                // INC B
                source: None,
                target: Some(InstructionTarget::B),
                operation: Operation::INC,
                cycles: 4,
                length: 1,
                flags: FlagInstruction {
                    zero: FlagOperation::Dependent,
                    subtract: FlagOperation::Unset,
                    half_carry: FlagOperation::Dependent,
                    carry: FlagOperation::Unmodified,
                },
            },
        ),
        0x05 => Ok(
            Instruction {
                // DEC B
                source: None,
                target: Some(InstructionTarget::B),
                operation: Operation::DEC,
                cycles: 4,
                length: 1,
                flags: FlagInstruction {
                    zero: FlagOperation::Dependent,
                    subtract: FlagOperation::Raised,
                    half_carry: FlagOperation::Dependent,
                    carry: FlagOperation::Unmodified,
                },
            },
        ),
        0x06 => Ok(
            Instruction {
                // LD B, d8
                source: Some(InstructionTarget::N8(immediate)),
                target: Some(InstructionTarget::B),
                operation: Operation::LD,
                cycles: 8,
                length: 2,
                flags: FlagInstruction::default(),
            },
        ),
        0x07 => Ok(
            Instruction {
                // RLCA
                source: None,
                target: Some(InstructionTarget::A),
                operation: Operation::RXC(Direction::Left),
                cycles: 4,
                length: 1,
                flags: FlagInstruction {
                    zero: FlagOperation::Unset,
                    subtract: FlagOperation::Unset,
                    half_carry: FlagOperation::Unset,
                    carry: FlagOperation::Dependent,
                },
            },
        ),
        0x08 => Ok(
            Instruction {
                // LD (a16), SP
                source: Some(InstructionTarget::SP),
                target: Some(InstructionTarget::Ref(Box::new(InstructionTarget::N16(immediate)))),
                operation: Operation::LD,
                cycles: 20,
                length: 3,
                flags: FlagInstruction::default(),
            },
        ),
        0x09 => Ok(
            Instruction {
                // ADD HL, BC
                source: Some(InstructionTarget::BC),
                target: Some(InstructionTarget::HL),
                operation: Operation::ADD,
                cycles: 8,
                length: 1,
                flags: FlagInstruction {
                    zero: FlagOperation::Unmodified,
                    subtract: FlagOperation::Unset,
                    half_carry: FlagOperation::Dependent,
                    carry: FlagOperation::Dependent,
                },
            },
        ),
        _ => Err(Failure::UnimplementedOpcode(code)),
    }
}

} // verus!

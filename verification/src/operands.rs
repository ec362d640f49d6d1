//! The operand resolver: reading and writing an operand at a width of a byte
//! or a word, against the register file and the memory bus.
//!
//! A byte register and an immediate byte can be used as a byte only; a pair,
//! the stack pointer and an immediate word as a word only. An indirect operand
//! resolves its inner operand as a word, takes that word as an address, and
//! can then be used at either width. An operand used at a width that it does
//! not have is rejected, and nothing is read or written.

use vstd::prelude::*;

use crate::instructions::{deref_of, register_of, register_pair_of, Failure, InstructionTarget};
use crate::memory::{store_word, word_at, MemoryBus};
use crate::registers::{Register, RegisterPair, Registers};

verus! {

/// Whether `target` can be read and written as a word.
pub open spec fn valid16(target: InstructionTarget) -> bool
    decreases target,
{
    match target {
        InstructionTarget::BC
        | InstructionTarget::DE
        | InstructionTarget::HL
        | InstructionTarget::SP
        | InstructionTarget::N16(_) => true,
        InstructionTarget::Ref(inner) => valid16(*inner),
        _ => false,
    }
}

/// Whether `target` can be read and written as a byte.
pub open spec fn valid8(target: InstructionTarget) -> bool {
    match target {
        InstructionTarget::N8(_) => true,
        InstructionTarget::Ref(inner) => valid16(*inner),
        _ => register_of(target) is Some,
    }
}

/// The word that `target` holds. It is meaningful where `valid16(target)`.
pub open spec fn value16(target: InstructionTarget, reg: Registers, mem: Map<u16, u8>) -> u16
    decreases target,
{
    match target {
        InstructionTarget::SP => reg.sp,
        InstructionTarget::N16(addr) => word_at(mem, addr),
        InstructionTarget::Ref(inner) => word_at(mem, value16(*inner, reg, mem)),
        _ => match register_pair_of(target) {
            Some(pair) => reg.reg16(pair),
            None => 0,
        },
    }
}

/// The byte that `target` holds. It is meaningful where `valid8(target)`.
pub open spec fn value8(target: InstructionTarget, reg: Registers, mem: Map<u16, u8>) -> u8 {
    match target {
        InstructionTarget::N8(addr) => mem[addr],
        InstructionTarget::Ref(inner) => mem[value16(*inner, reg, mem)],
        _ => match register_of(target) {
            Some(register) => reg.reg8(register),
            None => 0,
        },
    }
}

/// The machine state after `value` was stored in `target` as a word. It is
/// meaningful where `valid16(target)`. An indirect operand resolves its
/// address before anything is written.
pub open spec fn store16(
    target: InstructionTarget,
    reg: Registers,
    mem: Map<u16, u8>,
    value: u16,
) -> (Registers, Map<u16, u8>) {
    match target {
        InstructionTarget::SP => (Registers { sp: value, ..reg }, mem),
        InstructionTarget::N16(addr) => (reg, store_word(mem, addr, value)),
        InstructionTarget::Ref(inner) => (
            reg,
            store_word(mem, value16(*inner, reg, mem), value),
        ),
        _ => match register_pair_of(target) {
            Some(pair) => (reg.with_reg16(pair, value), mem),
            None => (reg, mem),
        },
    }
}

/// The machine state after `value` was stored in `target` as a byte. It is
/// meaningful where `valid8(target)`. An indirect operand resolves its
/// address before anything is written.
pub open spec fn store8(
    target: InstructionTarget,
    reg: Registers,
    mem: Map<u16, u8>,
    value: u8,
) -> (Registers, Map<u16, u8>) {
    match target {
        InstructionTarget::N8(addr) => (reg, mem.insert(addr, value)),
        InstructionTarget::Ref(inner) => (reg, mem.insert(value16(*inner, reg, mem), value)),
        _ => match register_of(target) {
            Some(register) => (reg.with_reg8(register, value), mem),
            None => (reg, mem),
        },
    }
}

/// What reading `target` as a word gives.
pub open spec fn read16(target: InstructionTarget, reg: Registers, mem: Map<u16, u8>) -> Result<
    u16,
    Failure,
> {
    if valid16(target) {
        Ok(value16(target, reg, mem))
    } else {
        Err(Failure::InvalidOperandWidth)
    }
}

/// What reading `target` as a byte gives.
pub open spec fn read8(target: InstructionTarget, reg: Registers, mem: Map<u16, u8>) -> Result<
    u8,
    Failure,
> {
    if valid8(target) {
        Ok(value8(target, reg, mem))
    } else {
        Err(Failure::InvalidOperandWidth)
    }
}

/// What writing `value` to `target` as a word gives.
pub open spec fn write16(
    target: InstructionTarget,
    reg: Registers,
    mem: Map<u16, u8>,
    value: u16,
) -> Result<(Registers, Map<u16, u8>), Failure> {
    if valid16(target) {
        Ok(store16(target, reg, mem, value))
    } else {
        Err(Failure::InvalidOperandWidth)
    }
}

/// What writing `value` to `target` as a byte gives.
pub open spec fn write8(
    target: InstructionTarget,
    reg: Registers,
    mem: Map<u16, u8>,
    value: u8,
) -> Result<(Registers, Map<u16, u8>), Failure> {
    if valid8(target) {
        Ok(store8(target, reg, mem, value))
    } else {
        Err(Failure::InvalidOperandWidth)
    }
}

/// Whether a call that answered `result` and took the machine from
/// `(reg_before, mem_before)` to `(reg_after, mem_after)` did what `outcome`
/// asks: on success the state is the one given, on failure the error is the
/// one given and the state is untouched.
pub open spec fn commits(
    outcome: Result<(Registers, Map<u16, u8>), Failure>,
    result: Result<(), Failure>,
    reg_before: Registers,
    mem_before: Map<u16, u8>,
    reg_after: Registers,
    mem_after: Map<u16, u8>,
) -> bool {
    match outcome {
        Ok((reg, mem)) => result is Ok && reg_after == reg && mem_after == mem,
        Err(failure) => result == Err::<(), Failure>(failure) && reg_after == reg_before
            && mem_after == mem_before,
    }
}

/// Reads `target` as a byte.
pub fn get_x8(target: &InstructionTarget, reg: &Registers, mem: &MemoryBus) -> (value: Result<
    u8,
    Failure,
>)
    ensures
        value == read8(*target, *reg, mem@),
{
    match target {
        InstructionTarget::A => Ok(reg.get_reg8(Register::A)),
        InstructionTarget::B => Ok(reg.get_reg8(Register::B)),
        InstructionTarget::C => Ok(reg.get_reg8(Register::C)),
        InstructionTarget::D => Ok(reg.get_reg8(Register::D)),
        InstructionTarget::E => Ok(reg.get_reg8(Register::E)),
        InstructionTarget::H => Ok(reg.get_reg8(Register::H)),
        InstructionTarget::L => Ok(reg.get_reg8(Register::L)),
        InstructionTarget::N8(addr) => Ok(mem.read(*addr)),
        InstructionTarget::Ref(inner) => match get_x16(inner, reg, mem) {
            Ok(addr) => Ok(mem.read(addr)),
            Err(failure) => Err(failure),
        },
        _ => Err(Failure::InvalidOperandWidth),
    }
}

/// Reads `target` as a word.
pub fn get_x16(target: &InstructionTarget, reg: &Registers, mem: &MemoryBus) -> (value: Result<
    u16,
    Failure,
>)
    ensures
        value == read16(*target, *reg, mem@),
    decreases target,
{
    match target {
        InstructionTarget::BC => Ok(reg.get_reg16(RegisterPair::BC)),
        InstructionTarget::DE => Ok(reg.get_reg16(RegisterPair::DE)),
        InstructionTarget::HL => Ok(reg.get_reg16(RegisterPair::HL)),
        InstructionTarget::SP => Ok(reg.sp),
        InstructionTarget::N16(addr) => Ok(mem.read_word(*addr)),
        InstructionTarget::Ref(inner) => match get_x16(inner, reg, mem) {
            Ok(addr) => Ok(mem.read_word(addr)),
            Err(failure) => Err(failure),
        },
        _ => Err(Failure::InvalidOperandWidth),
    }
}

/// Writes `value` to `target` as a byte. On failure nothing is written.
pub fn set_x8(
    target: &InstructionTarget,
    reg: &mut Registers,
    mem: &mut MemoryBus,
    value: u8,
) -> (result: Result<(), Failure>)
    ensures
        commits(
            write8(*target, *old(reg), old(mem)@, value),
            result,
            *old(reg),
            old(mem)@,
            *final(reg),
            final(mem)@,
        ),
{
    match target {
        InstructionTarget::A => reg.set_reg8(Register::A, value),
        InstructionTarget::B => reg.set_reg8(Register::B, value),
        InstructionTarget::C => reg.set_reg8(Register::C, value),
        InstructionTarget::D => reg.set_reg8(Register::D, value),
        InstructionTarget::E => reg.set_reg8(Register::E, value),
        InstructionTarget::H => reg.set_reg8(Register::H, value),
        InstructionTarget::L => reg.set_reg8(Register::L, value),
        InstructionTarget::N8(addr) => mem.write(*addr, value),
        InstructionTarget::Ref(inner) => match get_x16(inner, reg, mem) {
            Ok(addr) => mem.write(addr, value),
            Err(failure) => {
                return Err(failure);
            },
        },
        _ => {
            return Err(Failure::InvalidOperandWidth);
        },
    }
    Ok(())
}

/// Writes `value` to `target` as a word. On failure nothing is written.
pub fn set_x16(
    target: &InstructionTarget,
    reg: &mut Registers,
    mem: &mut MemoryBus,
    value: u16,
) -> (result: Result<(), Failure>)
    ensures
        commits(
            write16(*target, *old(reg), old(mem)@, value),
            result,
            *old(reg),
            old(mem)@,
            *final(reg),
            final(mem)@,
        ),
{
    match target {
        InstructionTarget::BC => reg.set_reg16(RegisterPair::BC, value),
        InstructionTarget::DE => reg.set_reg16(RegisterPair::DE, value),
        InstructionTarget::HL => reg.set_reg16(RegisterPair::HL, value),
        InstructionTarget::SP => reg.sp = value,
        InstructionTarget::N16(addr) => mem.write_word(*addr, value),
        InstructionTarget::Ref(inner) => match get_x16(inner, reg, mem) {
            Ok(addr) => mem.write_word(addr, value),
            Err(failure) => {
                return Err(failure);
            },
        },
        _ => {
            return Err(Failure::InvalidOperandWidth);
        },
    }
    Ok(())
}

/// Whether `target` names the same place in the second state as in the
/// first. A register and an immediate always do. An indirect operand does
/// when its inner operand holds the same address in both states.
pub open spec fn same_place(
    target: InstructionTarget,
    reg: Registers,
    mem: Map<u16, u8>,
    reg_after: Registers,
    mem_after: Map<u16, u8>,
) -> bool {
    target matches InstructionTarget::Ref(inner) ==> value16(*inner, reg_after, mem_after)
        == value16(*inner, reg, mem)
}

/// Whether the place that `target` names is fixed by the registers alone:
/// the operand is direct, or it points through a register pair or the stack
/// pointer.
pub open spec fn register_addressed(target: InstructionTarget) -> bool {
    target matches InstructionTarget::Ref(inner) ==> (register_pair_of(*inner) is Some
        || *inner is SP)
}

/// A byte written to an operand is the byte read from it afterwards, as long
/// as the operand still names the place that was written.
///
/// The condition matters for an operand that points through a word in memory
/// only: a write that lands on that word moves the operand. Where the address
/// comes from a register, `lemma_register_addressed_stays` discharges it.
pub proof fn lemma_set_then_get_x8(
    target: InstructionTarget,
    reg: Registers,
    mem: Map<u16, u8>,
    value: u8,
)
    requires
        valid8(target),
        same_place(
            target,
            reg,
            mem,
            store8(target, reg, mem, value).0,
            store8(target, reg, mem, value).1,
        ),
    ensures
        write8(target, reg, mem, value) is Ok,
        read8(target, store8(target, reg, mem, value).0, store8(target, reg, mem, value).1) == Ok::<
            u8,
            Failure,
        >(value),
{
}

/// A word written to an operand is the word read from it afterwards, as long
/// as the operand still names the place that was written.
///
/// The condition matters for an operand that points through a word in memory
/// only: a write that lands on that word moves the operand. Where the address
/// comes from a register, `lemma_register_addressed_stays` discharges it.
pub proof fn lemma_set_then_get_x16(
    target: InstructionTarget,
    reg: Registers,
    mem: Map<u16, u8>,
    value: u16,
)
    requires
        valid16(target),
        same_place(
            target,
            reg,
            mem,
            store16(target, reg, mem, value).0,
            store16(target, reg, mem, value).1,
        ),
    ensures
        write16(target, reg, mem, value) is Ok,
        read16(target, store16(target, reg, mem, value).0, store16(target, reg, mem, value).1)
            == Ok::<u16, Failure>(value),
{
}

/// Writing to an operand whose place is fixed by the registers alone does
/// not move the operand, at either width.
pub proof fn lemma_register_addressed_stays(
    target: InstructionTarget,
    reg: Registers,
    mem: Map<u16, u8>,
    byte: u8,
    word: u16,
)
    requires
        register_addressed(target),
    ensures
        same_place(
            target,
            reg,
            mem,
            store8(target, reg, mem, byte).0,
            store8(target, reg, mem, byte).1,
        ),
        same_place(
            target,
            reg,
            mem,
            store16(target, reg, mem, word).0,
            store16(target, reg, mem, word).1,
        ),
{
}

/// Writing a byte through the address held in HL stores it at that address;
/// every other byte of memory and the whole register file stay as they were.
pub proof fn lemma_write_through_hl(reg: Registers, mem: Map<u16, u8>, value: u8)
    ensures
        write8(deref_of(InstructionTarget::HL), reg, mem, value) == Ok::<
            (Registers, Map<u16, u8>),
            Failure,
        >((reg, mem.insert(reg.reg16(RegisterPair::HL), value))),
        forall|other: u16|
            other != reg.reg16(RegisterPair::HL) ==> mem.insert(
                reg.reg16(RegisterPair::HL),
                value,
            )[other] == mem[other],
{
}

/// A write to an operand in memory leaves the register file alone, and a
/// write to a register leaves memory alone.
pub proof fn lemma_write_frame(
    target: InstructionTarget,
    reg: Registers,
    mem: Map<u16, u8>,
    byte: u8,
    word: u16,
)
    ensures
        register_of(target) is None ==> store8(target, reg, mem, byte).0 == reg,
        register_of(target) is Some ==> store8(target, reg, mem, byte).1 == mem,
        register_pair_of(target) is None && !(target is SP) ==> store16(target, reg, mem, word).0
            == reg,
        register_pair_of(target) is Some || target is SP ==> store16(target, reg, mem, word).1
            == mem,
{
}

} // verus!

//! What each opcode of the table does, stated for every machine state.
//!
//! Each statement gives the whole outcome of one step: the register file and
//! the memory after it, and the cost in cycles. What a statement does not
//! name is unchanged.

use vstd::prelude::*;

use crate::data::{address_after, wrap16, wrap8};
use crate::execute::{rotate_left8, step};
use crate::flags::{lemma_half_carry16_modular, lemma_half_carry8_modular, ArithmeticMode};
use crate::instructions::Failure;
use crate::memory::{store_word, word_at};
use crate::registers::{FlagsRegister, RegisterPair, Registers};

verus! {

/// The outcome of a step that succeeds.
pub open spec fn done(reg: Registers, mem: Map<u16, u8>, cycles: u8) -> Result<
    (Registers, Map<u16, u8>, u8),
    Failure,
> {
    Ok((reg, mem, cycles))
}

/// NOP (0x00) moves the program counter on by one and changes nothing else,
/// in the register file or in memory. It costs 4 cycles.
pub proof fn lemma_nop(reg: Registers, mem: Map<u16, u8>)
    ensures
        step(0x00, reg, mem) == done(Registers { pc: address_after(reg.pc, 1), ..reg }, mem, 4),
{
}

/// LD BC,d16 (0x01) loads BC with the word that follows the opcode, low byte
/// first, and moves the program counter on by three. It costs 12 cycles.
pub proof fn lemma_ld_bc_d16(reg: Registers, mem: Map<u16, u8>)
    ensures
        step(0x01, reg, mem) == done(
            Registers {
                pc: address_after(reg.pc, 3),
                ..reg.with_reg16(RegisterPair::BC, word_at(mem, address_after(reg.pc, 1)))
            },
            mem,
            12,
        ),
{
}

/// LD (BC),A (0x02) stores the accumulator at the address held in BC and
/// changes no other byte of memory. It costs 4 cycles.
pub proof fn lemma_ld_at_bc_a(reg: Registers, mem: Map<u16, u8>)
    ensures
        step(0x02, reg, mem) == done(
            Registers { pc: address_after(reg.pc, 1), ..reg },
            mem.insert(reg.reg16(RegisterPair::BC), reg.a),
            4,
        ),
{
}

/// INC BC (0x03) adds one to BC, wrapping at the top, and leaves every flag
/// alone. It costs 8 cycles.
pub proof fn lemma_inc_bc(reg: Registers, mem: Map<u16, u8>)
    ensures
        step(0x03, reg, mem) == done(
            Registers {
                pc: address_after(reg.pc, 1),
                ..reg.with_reg16(RegisterPair::BC, wrap16(reg.reg16(RegisterPair::BC) + 1))
            },
            mem,
            8,
        ),
{
}

/// INC B (0x04) adds one to B, wrapping at the top. The zero flag tells
/// whether B is now zero, the subtract flag is cleared, the half-carry flag
/// tells whether the low nibble overflowed, and the carry flag is left alone.
/// It costs 4 cycles.
pub proof fn lemma_inc_b(reg: Registers, mem: Map<u16, u8>)
    ensures
        step(0x04, reg, mem) == done(
            Registers {
                b: wrap8(reg.b + 1),
                flags: FlagsRegister {
                    zero: reg.b == 0xFF,
                    subtract: false,
                    half_carry: reg.b % 16 == 15,
                    carry: reg.flags.carry,
                },
                pc: address_after(reg.pc, 1),
                ..reg
            },
            mem,
            4,
        ),
{
    lemma_half_carry8_modular(ArithmeticMode::Add, reg.b, 1);
}

/// DEC B (0x05) takes one from B, wrapping at the bottom. The zero flag tells
/// whether B is now zero, the subtract flag is raised whatever B held, the
/// half-carry flag tells whether the low nibble had to borrow, and the carry
/// flag is left alone. It costs 4 cycles.
pub proof fn lemma_dec_b(reg: Registers, mem: Map<u16, u8>)
    ensures
        step(0x05, reg, mem) == done(
            Registers {
                b: wrap8(reg.b - 1),
                flags: FlagsRegister {
                    zero: reg.b == 1,
                    subtract: true,
                    half_carry: reg.b % 16 == 0,
                    carry: reg.flags.carry,
                },
                pc: address_after(reg.pc, 1),
                ..reg
            },
            mem,
            4,
        ),
{
    lemma_half_carry8_modular(ArithmeticMode::Subtract, reg.b, 1);
}

/// LD B,d8 (0x06) loads B with the byte that follows the opcode and moves the
/// program counter on by two. It costs 8 cycles.
pub proof fn lemma_ld_b_d8(reg: Registers, mem: Map<u16, u8>)
    ensures
        step(0x06, reg, mem) == done(
            Registers { b: mem[address_after(reg.pc, 1)], pc: address_after(reg.pc, 2), ..reg },
            mem,
            8,
        ),
{
}

/// RLCA (0x07) rotates the accumulator left by one bit. The carry flag takes
/// the bit that left the top; zero, subtract and half-carry are cleared,
/// whatever they held. It costs 4 cycles.
pub proof fn lemma_rlca(reg: Registers, mem: Map<u16, u8>)
    ensures
        step(0x07, reg, mem) == done(
            Registers {
                a: rotate_left8(reg.a),
                flags: FlagsRegister {
                    zero: false,
                    subtract: false,
                    half_carry: false,
                    carry: reg.a >= 0x80,
                },
                pc: address_after(reg.pc, 1),
                ..reg
            },
            mem,
            4,
        ),
{
}

/// LD (a16),SP (0x08) stores the stack pointer, low byte first, at the
/// address that follows the opcode, and moves the program counter on by
/// three. It costs 20 cycles.
pub proof fn lemma_ld_a16_sp(reg: Registers, mem: Map<u16, u8>)
    ensures
        step(0x08, reg, mem) == done(
            Registers { pc: address_after(reg.pc, 3), ..reg },
            store_word(mem, word_at(mem, address_after(reg.pc, 1)), reg.sp),
            20,
        ),
{
}

/// ADD HL,BC (0x09) adds BC into HL, wrapping at the top. The subtract flag
/// is cleared, the half-carry flag tells whether the low twelve bits
/// overflowed, the carry flag whether the sum left sixteen bits, and the zero
/// flag is left alone. It costs 8 cycles.
pub proof fn lemma_add_hl_bc(reg: Registers, mem: Map<u16, u8>)
    ensures
        step(0x09, reg, mem) == done(
            Registers {
                flags: FlagsRegister {
                    zero: reg.flags.zero,
                    subtract: false,
                    half_carry: reg.reg16(RegisterPair::HL) % 0x1000 + reg.reg16(RegisterPair::BC)
                        % 0x1000 >= 0x1000,
                    carry: reg.reg16(RegisterPair::HL) + reg.reg16(RegisterPair::BC) > 0xFFFF,
                },
                pc: address_after(reg.pc, 1),
                ..reg.with_reg16(
                    RegisterPair::HL,
                    wrap16(reg.reg16(RegisterPair::HL) + reg.reg16(RegisterPair::BC)),
                )
            },
            mem,
            8,
        ),
{
    lemma_half_carry16_modular(
        ArithmeticMode::Add,
        reg.reg16(RegisterPair::HL),
        reg.reg16(RegisterPair::BC),
    );
}

/// A step succeeds for the opcodes that the table holds, 0x00 to 0x09, and
/// for no other; any other opcode is reported as unimplemented.
pub proof fn lemma_table(code: u16, reg: Registers, mem: Map<u16, u8>)
    ensures
        step(code, reg, mem) is Ok <==> code <= 0x09,
        code > 0x09 ==> step(code, reg, mem) == Err::<(Registers, Map<u16, u8>, u8), Failure>(
            Failure::UnimplementedOpcode(code),
        ),
{
    lemma_nop(reg, mem);
    lemma_ld_bc_d16(reg, mem);
    lemma_ld_at_bc_a(reg, mem);
    lemma_inc_bc(reg, mem);
    lemma_inc_b(reg, mem);
    lemma_dec_b(reg, mem);
    lemma_ld_b_d8(reg, mem);
    lemma_rlca(reg, mem);
    lemma_ld_a16_sp(reg, mem);
    lemma_add_hl_bc(reg, mem);
}

} // verus!

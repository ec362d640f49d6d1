//! The processor: a register file and a memory bus, stepped one instruction
//! at a time.

use vstd::prelude::*;

use crate::data::address_after;
use crate::execute::{execute_instruction, step};
use crate::instructions::Failure;
use crate::memory::{zeroed, MemoryBus};
use crate::opcodes::lemma_nop;
use crate::registers::Registers;

verus! {

/// A processor with its memory.
pub struct CPU {
    memory: MemoryBus,
    registers: Registers,
}

impl CPU {
    /// The register file of this processor.
    pub closed spec fn reg(&self) -> Registers {
        self.registers
    }

    /// The memory of this processor, as the map from addresses to bytes.
    pub closed spec fn mem(&self) -> Map<u16, u8> {
        self.memory@
    }

    /// A processor at power-on: every register, every flag and every byte of
    /// memory is zero.
    pub fn create() -> (cpu: CPU)
        ensures
            cpu.reg() == Registers::zeroed(),
            cpu.mem() == zeroed(),
    {
        CPU { memory: MemoryBus::create(), registers: Registers::create() }
    }

    /// The register file, to be read.
    pub fn registers(&self) -> (reg: &Registers)
        ensures
            *reg == self.reg(),
    {
        &self.registers
    }

    /// The memory bus, to be read.
    pub fn memory(&self) -> (mem: &MemoryBus)
        ensures
            mem@ == self.mem(),
    {
        &self.memory
    }

    /// Replaces the register file; the memory stays as it was.
    pub fn load_registers(&mut self, reg: Registers)
        ensures
            final(self).reg() == reg,
            final(self).mem() == old(self).mem(),
    {
        self.registers = reg;
    }

    /// Stores one byte in memory; every other byte and the register file stay
    /// as they were.
    pub fn load_byte(&mut self, addr: u16, data: u8)
        ensures
            final(self).reg() == old(self).reg(),
            final(self).mem() == old(self).mem().insert(addr, data),
    {
        self.memory.write(addr, data);
    }

    /// Decodes and executes the instruction that `opcode` stands for. The
    /// caller fetches the opcode; it is not read from memory here.
    ///
    /// Returns the cost of the instruction in cycles and whether it took
    /// effect. A failed step costs nothing and changes nothing.
    pub fn step(&mut self, opcode: u16) -> (outcome: (u8, Result<(), Failure>))
        ensures
            match step(opcode, old(self).reg(), old(self).mem()) {
                Ok((reg, mem, cycles)) => outcome == (cycles, Ok::<(), Failure>(()))
                    && final(self).reg() == reg && final(self).mem() == mem,
                Err(failure) => outcome == (0u8, Err::<(), Failure>(failure))
                    && final(self).reg() == old(self).reg() && final(self).mem() == old(
                    self,
                ).mem(),
            },
            outcome.1 is Ok <==> opcode <= 0x09,
    {
        match execute_instruction(opcode, &mut self.registers, &mut self.memory) {
            Ok(cycles) => (cycles, Ok(())),
            Err(failure) => (0, Err(failure)),
        }
    }

    /// Lets one clock tick pass on an idle processor: the program counter
    /// moves on by one and nothing else changes.
    pub fn tick(&mut self)
        ensures
            final(self).reg() == (Registers {
                pc: address_after(old(self).reg().pc, 1),
                ..old(self).reg()
            }),
            final(self).mem() == old(self).mem(),
    {
        self.execute_instruction();
    }

    /// Executes the idle instruction.
    fn execute_instruction(&mut self)
        ensures
            final(self).reg() == (Registers {
                pc: address_after(old(self).reg().pc, 1),
                ..old(self).reg()
            }),
            final(self).mem() == old(self).mem(),
    {
        proof {
            lemma_nop(self.registers, self.memory@);
        }
        let _ = execute_instruction(0x00, &mut self.registers, &mut self.memory);
    }
}

impl Default for CPU {
    fn default() -> (cpu: CPU)
        ensures
            cpu.reg() == Registers::zeroed(),
            cpu.mem() == zeroed(),
    {
        CPU::create()
    }
}

} // verus!

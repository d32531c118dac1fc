//! The execution engine: one handler per operation, and the dispatch that
//! fetches a word and runs the handler that its selector names.
//!
//! A handler reads its operands out of the instruction word, whatever the
//! word's selector is, and never fails: register indices are three bits wide
//! and every address is reduced modulo the memory size.

use vstd::prelude::*;
use crate::codec::{
    base_reg, condition_mask, dest_reg, immediate_mode, literal5, offset11, offset6, offset9,
    operand_reg, relative_mode, Extension, Opcode,
};
use crate::flags::{enables, sign_of};
use crate::semantics::wrapping_sum;
use crate::state::{Cell, CELL_MEMORY_SIZE, CELL_NUM_REG, SUBROUTINE_RETURN_REGISTER};

verus! {

impl Cell {
    /// Fetches the word at `addr` modulo the memory size and executes it.
    /// A reserved selector leaves the cell as it is.
    pub fn run_instr(&mut self, addr: u16)
        ensures
            final(self)@ == old(self)@.run_instr(addr),
            final(self)@.wf(),
    {
        let instr: u16 = self.get_mem_val(addr);
        match Opcode::of_word(instr) {
            Opcode::Branch => self.branch(instr),
            Opcode::Add => self.add(instr),
            Opcode::Load => self.load(instr),
            Opcode::Store => self.store(instr),
            Opcode::JumpSubroutine => self.jump_subroutine(instr),
            Opcode::And => self.and(instr),
            Opcode::LoadRegister => self.load_reg(instr),
            Opcode::StoreRegister => self.store_register(instr),
            Opcode::Not => self.not(instr),
            Opcode::LoadIndirect => self.load_indirect(instr),
            Opcode::StoreIndirect => self.store_indirect(instr),
            Opcode::Jump => self.jump(instr),
            Opcode::LoadEffectiveAddress => self.load_effective_addr(instr),
            Opcode::Reserved(extension) => self.reserved(extension, instr),
        }
    }

    /// A reserved operation: accepted, and without effect. This is where an
    /// extension of the instruction set takes over.
    pub fn reserved(&mut self, extension: Extension, instr: u16)
        ensures
            final(self)@ == old(self)@.reserved(extension, instr),
            final(self)@ == old(self)@,
    {
    }

    /// Sets the condition flag from the value of register `dest`, read as a
    /// two's-complement integer.
    pub fn update_sign(&mut self, dest: u16)
        requires
            dest < CELL_NUM_REG,
        ensures
            final(self)@ == old(self)@.update_sign(dest),
            final(self)@.wf(),
    {
        let result: u16 = self.get_reg_val(dest as usize);
        self.set_last_sign(sign_of(result));
    }

    /// BRANCH: moves the program counter forward by the 9-bit offset if the
    /// condition mask enables the current flag.
    pub fn branch(&mut self, instr: u16)
        ensures
            final(self)@ == old(self)@.branch(instr),
            condition_mask(instr) == 0 ==> final(self)@ == old(self)@,
            final(self)@.last_sign == old(self)@.last_sign,
            final(self)@.wf(),
    {
        let nzp: u16 = condition_mask(instr);
        let offset: u16 = offset9(instr);
        let pc: u16 = self.get_pc();
        if enables(nzp, self.get_last_sign()) {
            self.set_pc(pc.wrapping_add(offset));
        }
    }

    /// ADD: writes the wrapping sum of a register and the second operand to
    /// the destination register, and updates the flag.
    pub fn add(&mut self, instr: u16)
        ensures
            final(self)@ == old(self)@.add(instr),
            immediate_mode(instr) ==> final(self)@.reg[dest_reg(instr) as int] == wrapping_sum(
                old(self)@.reg[base_reg(instr) as int],
                literal5(instr),
            ),
            final(self)@.wf(),
    {
        let dest: u16 = dest_reg(instr);
        let src1: u16 = base_reg(instr);
        let first: u16 = self.get_reg_val(src1 as usize);
        let second: u16 = self.second_operand(instr);
        self.set_reg_val(dest as usize, first.wrapping_add(second));
        self.update_sign(dest);
    }

    /// The second operand of an arithmetic instruction: its 5-bit literal in
    /// immediate mode, else the value of the register that bits 2-0 name.
    pub fn second_operand(&self, instr: u16) -> (value: u16)
        ensures
            value == self@.second_operand(instr),
    {
        if immediate_mode(instr) {
            literal5(instr)
        } else {
            self.get_reg_val(operand_reg(instr) as usize)
        }
    }

    /// LOAD: reads the word at `pc + offset9` into the destination register,
    /// and updates the flag.
    pub fn load(&mut self, instr: u16)
        ensures
            final(self)@ == old(self)@.load(instr),
            final(self)@.wf(),
    {
        let dest: u16 = dest_reg(instr);
        let offset: u16 = offset9(instr);
        let value: u16 = self.get_mem_val(self.get_pc().wrapping_add(offset));
        self.set_reg_val(dest as usize, value);
        self.update_sign(dest);
    }

    /// STORE: writes the source register to the word at `pc + offset9`.
    pub fn store(&mut self, instr: u16)
        ensures
            final(self)@ == old(self)@.store(instr),
            final(self)@.wf(),
    {
        let src: u16 = dest_reg(instr);
        let offset: u16 = offset9(instr);
        let value: u16 = self.get_reg_val(src as usize);
        self.set_mem_val(self.get_pc().wrapping_add(offset), value);
    }

    /// JUMP-TO-SUBROUTINE: saves the program counter in the return register,
    /// then moves it forward by the 11-bit offset, or to the base field.
    pub fn jump_subroutine(&mut self, instr: u16)
        ensures
            final(self)@ == old(self)@.jump_subroutine(instr),
            final(self)@.reg[SUBROUTINE_RETURN_REGISTER as int] == old(self)@.pc,
            final(self)@.last_sign == old(self)@.last_sign,
            final(self)@.wf(),
    {
        let pc: u16 = self.get_pc();
        self.set_reg_val(SUBROUTINE_RETURN_REGISTER, pc);
        if relative_mode(instr) {
            let offset: u16 = offset11(instr);
            self.set_pc(pc.wrapping_add(offset));
        } else {
            let base: u16 = base_reg(instr);
            self.set_pc(base);
        }
    }

    /// AND: writes the bitwise conjunction of a register and the second
    /// operand to the destination register, and updates the flag.
    pub fn and(&mut self, instr: u16)
        ensures
            final(self)@ == old(self)@.and(instr),
            final(self)@.wf(),
    {
        let dest: u16 = dest_reg(instr);
        let src1: u16 = base_reg(instr);
        let first: u16 = self.get_reg_val(src1 as usize);
        let second: u16 = self.second_operand(instr);
        self.set_reg_val(dest as usize, first & second);
        self.update_sign(dest);
    }

    /// LOAD-REGISTER: reads the word at `base + offset6` into the
    /// destination register, and updates the flag.
    pub fn load_reg(&mut self, instr: u16)
        ensures
            final(self)@ == old(self)@.load_reg(instr),
            final(self)@.wf(),
    {
        let dest: u16 = dest_reg(instr);
        let base: u16 = base_reg(instr);
        let offset: u16 = offset6(instr);
        let value: u16 = self.get_mem_val(base.wrapping_add(offset));
        self.set_reg_val(dest as usize, value);
        self.update_sign(dest);
    }

    /// NOT: writes the bitwise complement of the source register to the
    /// destination register, and updates the flag.
    pub fn not(&mut self, instr: u16)
        ensures
            final(self)@ == old(self)@.not(instr),
            final(self)@.wf(),
    {
        let dest: u16 = dest_reg(instr);
        let src: u16 = base_reg(instr);
        let value: u16 = self.get_reg_val(src as usize);
        self.set_reg_val(dest as usize, !value);
        self.update_sign(dest);
    }

    /// LOAD-INDIRECT: reads an address from the word at `pc + offset9`, and
    /// the word at that address into the destination register; updates the
    /// flag.
    pub fn load_indirect(&mut self, instr: u16)
        ensures
            final(self)@ == old(self)@.load_indirect(instr),
            final(self)@.wf(),
    {
        let dest: u16 = dest_reg(instr);
        let offset: u16 = offset9(instr);
        let mem_location: u16 = self.get_mem_val(self.get_pc().wrapping_add(offset));
        let value: u16 = self.get_mem_val(mem_location);
        self.set_reg_val(dest as usize, value);
        self.update_sign(dest);
    }

    /// STORE-INDIRECT: reads an address from the word at `pc + offset9`, and
    /// writes the source register to the word at that address.
    pub fn store_indirect(&mut self, instr: u16)
        ensures
            final(self)@ == old(self)@.store_indirect(instr),
            final(self)@.wf(),
    {
        let src: u16 = dest_reg(instr);
        let offset: u16 = offset9(instr);
        let mem_location: u16 = self.get_mem_val(self.get_pc().wrapping_add(offset));
        let value: u16 = self.get_reg_val(src as usize);
        self.set_mem_val(mem_location, value);
    }

    /// JUMP: moves the program counter to the base field.
    pub fn jump(&mut self, instr: u16)
        ensures
            final(self)@ == old(self)@.jump(instr),
            final(self)@.wf(),
    {
        let base: u16 = base_reg(instr);
        self.set_pc(base);
    }

    /// LOAD-EFFECTIVE-ADDRESS: writes the address `pc + offset9` itself to
    /// the destination register, and updates the flag.
    pub fn load_effective_addr(&mut self, instr: u16)
        ensures
            final(self)@ == old(self)@.load_effective_addr(instr),
            final(self)@.wf(),
    {
        let dest: u16 = dest_reg(instr);
        let offset: u16 = offset9(instr);
        let addr: u16 = self.get_pc().wrapping_add(offset) % (CELL_MEMORY_SIZE as u16);
        self.set_reg_val(dest as usize, addr);
        self.update_sign(dest);
    }

    /// STORE-REGISTER: writes the source register to the word at
    /// `base + offset6`.
    pub fn store_register(&mut self, instr: u16)
        ensures
            final(self)@ == old(self)@.store_register(instr),
            final(self)@.wf(),
    {
        let src: u16 = dest_reg(instr);
        let base: u16 = base_reg(instr);
        let offset: u16 = offset6(instr);
        let value: u16 = self.get_reg_val(src as usize);
        self.set_mem_val(base.wrapping_add(offset), value);
    }
}

} // verus!

//! What each operation does to the state of a cell, as functions on
//! [`CellState`].
//!
//! All arithmetic is unsigned and wraps at 16 bits, and every address is
//! reduced modulo the memory size. The base field of a jump and of a based
//! load or store is used as a number, not as the index of a register.

use vstd::prelude::*;
use crate::codec::{
    base_reg, condition_mask, dest_reg, immediate_mode, literal5, offset11, offset6, offset9,
    operand_reg, relative_mode, Extension, Opcode,
};
use crate::flags::{enables, sign_of};
use crate::state::{CellState, CELL_MEMORY_SIZE, SUBROUTINE_RETURN_REGISTER};

verus! {

/// The sum of two words, wrapping at 16 bits.
pub open spec fn wrapping_sum(a: u16, b: u16) -> u16 {
    ((a + b) % 0x1_0000) as u16
}

impl CellState {
    /// This state with the condition flag set to the sign of register
    /// `dest`.
    pub open spec fn update_sign(self, dest: u16) -> CellState {
        self.with_sign(sign_of(self.reg[dest as int]))
    }

    /// This state after a flag-setting operation wrote `value` to `dest`.
    pub open spec fn with_result(self, dest: u16, value: u16) -> CellState {
        self.with_reg(dest as int, value).update_sign(dest)
    }

    /// The second operand of an arithmetic operation: a 5-bit literal in
    /// immediate mode, else the value of a register.
    pub open spec fn second_operand(self, instr: u16) -> u16 {
        if immediate_mode(instr) {
            literal5(instr)
        } else {
            self.reg[operand_reg(instr) as int]
        }
    }

    /// The address that a pc-relative operation refers to.
    pub open spec fn relative_addr(self, instr: u16) -> int {
        (self.pc + offset9(instr)) % CELL_MEMORY_SIZE as int
    }

    /// The address that a based load or store refers to.
    pub open spec fn based_addr(instr: u16) -> int {
        (base_reg(instr) + offset6(instr)) % CELL_MEMORY_SIZE as int
    }

    /// BRANCH: if the condition mask enables the current flag, the program
    /// counter moves forward by the 9-bit offset. Nothing else changes.
    pub open spec fn branch(self, instr: u16) -> CellState {
        if enables(condition_mask(instr), self.last_sign) {
            self.with_pc(self.pc + offset9(instr))
        } else {
            self
        }
    }

    /// ADD: the destination register receives the wrapping sum of the
    /// register that bits 8-6 name and the second operand.
    pub open spec fn add(self, instr: u16) -> CellState {
        self.with_result(
            dest_reg(instr),
            wrapping_sum(self.reg[base_reg(instr) as int], self.second_operand(instr)),
        )
    }

    /// LOAD: the destination register receives the word at `pc + offset9`.
    pub open spec fn load(self, instr: u16) -> CellState {
        self.with_result(dest_reg(instr), self.mem[self.relative_addr(instr)])
    }

    /// STORE: the word at `pc + offset9` receives the register that bits
    /// 11-9 name. The flag stays.
    pub open spec fn store(self, instr: u16) -> CellState {
        self.with_word(self.relative_addr(instr), self.reg[dest_reg(instr) as int])
    }

    /// JUMP-TO-SUBROUTINE: the return register receives the program
    /// counter; then the program counter moves forward by the 11-bit offset
    /// in relative mode, and to the base field otherwise. The flag stays.
    pub open spec fn jump_subroutine(self, instr: u16) -> CellState {
        let linked = self.with_reg(SUBROUTINE_RETURN_REGISTER as int, self.pc);
        if relative_mode(instr) {
            linked.with_pc(self.pc + offset11(instr))
        } else {
            linked.with_pc(base_reg(instr) as int)
        }
    }

    /// AND: the destination register receives the bitwise conjunction of
    /// the register that bits 8-6 name and the second operand.
    pub open spec fn and(self, instr: u16) -> CellState {
        self.with_result(
            dest_reg(instr),
            self.reg[base_reg(instr) as int] & self.second_operand(instr),
        )
    }

    /// LOAD-REGISTER: the destination register receives the word at
    /// `base + offset6`.
    pub open spec fn load_reg(self, instr: u16) -> CellState {
        self.with_result(dest_reg(instr), self.mem[Self::based_addr(instr)])
    }

    /// STORE-REGISTER: the word at `base + offset6` receives the register
    /// that bits 11-9 name. The flag stays.
    pub open spec fn store_register(self, instr: u16) -> CellState {
        self.with_word(Self::based_addr(instr), self.reg[dest_reg(instr) as int])
    }

    /// NOT: the destination register receives the bitwise complement of
    /// the register that bits 8-6 name.
    pub open spec fn not(self, instr: u16) -> CellState {
        self.with_result(dest_reg(instr), !self.reg[base_reg(instr) as int])
    }

    /// LOAD-INDIRECT: the word at `pc + offset9` is read as an address, and
    /// the destination register receives the word at that address.
    pub open spec fn load_indirect(self, instr: u16) -> CellState {
        let pointer = self.mem[self.relative_addr(instr)];
        self.with_result(dest_reg(instr), self.word_at(pointer as int))
    }

    /// STORE-INDIRECT: the word at `pc + offset9` is read as an address,
    /// and the word at that address receives the register that bits 11-9
    /// name. The flag stays.
    pub open spec fn store_indirect(self, instr: u16) -> CellState {
        let pointer = self.mem[self.relative_addr(instr)];
        self.with_word(pointer as int, self.reg[dest_reg(instr) as int])
    }

    /// JUMP: the program counter moves to the base field. The flag stays.
    pub open spec fn jump(self, instr: u16) -> CellState {
        self.with_pc(base_reg(instr) as int)
    }

    /// LOAD-EFFECTIVE-ADDRESS: the destination register receives the
    /// address `pc + offset9` itself.
    pub open spec fn load_effective_addr(self, instr: u16) -> CellState {
        self.with_result(dest_reg(instr), self.relative_addr(instr) as u16)
    }

    /// A reserved operation: an extension point, without effect.
    pub open spec fn reserved(self, extension: Extension, instr: u16) -> CellState {
        self
    }

    /// The state after executing one instruction word: the effect of the
    /// one operation that the word selects.
    pub open spec fn execute(self, instr: u16) -> CellState {
        match Opcode::of_word(instr) {
            Opcode::Branch => self.branch(instr),
            Opcode::Add => self.add(instr),
            Opcode::Load => self.load(instr),
            Opcode::Store => self.store(instr),
            Opcode::JumpSubroutine => self.jump_subroutine(instr),
            Opcode::And => self.and(instr),
            Opcode::LoadRegister => self.load_reg(instr),
            Opcode::StoreRegister => self.store_register(instr),
            Opcode::Not => self.not(instr),
            Opcode::LoadIndirect => self.load_indirect(instr),
            Opcode::StoreIndirect => self.store_indirect(instr),
            Opcode::Jump => self.jump(instr),
            Opcode::LoadEffectiveAddress => self.load_effective_addr(instr),
            Opcode::Reserved(extension) => self.reserved(extension, instr),
        }
    }

    /// The state after fetching the word at `addr` and executing it.
    pub open spec fn run_instr(self, addr: u16) -> CellState {
        self.execute(self.word_at(addr as int))
    }

    /// The state after executing the same instruction word `n` times.
    pub open spec fn execute_times(self, instr: u16, n: nat) -> CellState
        decreases n,
    {
        if n == 0 {
            self
        } else {
            self.execute_times(instr, (n - 1) as nat).execute(instr)
        }
    }
}

} // verus!

//! The architectural state of a cell: program counter, condition flag,
//! register file and memory.
//!
//! [`CellState`] is the mathematical model that every contract of this crate
//! speaks of; [`Cell`] is the executable state, whose view is a `CellState`.
//! Addresses are reduced modulo the memory size wherever they are used, so
//! every 16-bit value is a valid address.

use vstd::prelude::*;
use crate::flags::Sign;

verus! {

/// Number of words of memory.
pub const CELL_MEMORY_SIZE: usize = 128;

/// Number of registers.
pub const CELL_NUM_REG: usize = 8;

/// The register that receives the return address of a subroutine call.
pub const SUBROUTINE_RETURN_REGISTER: usize = 7;

/// The state of a cell as a mathematical value.
#[verifier::ext_equal]
pub struct CellState {
    /// The program counter.
    pub pc: u16,
    /// The sign of the last result of a flag-setting operation.
    pub last_sign: Sign,
    /// The registers, by index.
    pub reg: Seq<u16>,
    /// The memory words, by address.
    pub mem: Seq<u16>,
}

impl CellState {
    /// The program counter is a valid address, and the register file and the
    /// memory have their fixed sizes. This holds of the view of every
    /// [`Cell`].
    pub open spec fn wf(self) -> bool {
        &&& self.pc < CELL_MEMORY_SIZE
        &&& self.reg.len() == CELL_NUM_REG
        &&& self.mem.len() == CELL_MEMORY_SIZE
    }

    /// The state of a freshly constructed cell: everything zero.
    pub open spec fn initial() -> CellState {
        CellState {
            pc: 0,
            last_sign: Sign::Zero,
            reg: Seq::new(CELL_NUM_REG as nat, |i: int| 0u16),
            mem: Seq::new(CELL_MEMORY_SIZE as nat, |i: int| 0u16),
        }
    }

    /// The memory word that an address denotes.
    pub open spec fn word_at(self, addr: int) -> u16 {
        self.mem[addr % CELL_MEMORY_SIZE as int]
    }

    /// This state with the program counter moved to the given address.
    pub open spec fn with_pc(self, addr: int) -> CellState {
        CellState { pc: (addr % CELL_MEMORY_SIZE as int) as u16, ..self }
    }

    /// This state with another condition flag.
    pub open spec fn with_sign(self, sign: Sign) -> CellState {
        CellState { last_sign: sign, ..self }
    }

    /// This state with one register overwritten.
    pub open spec fn with_reg(self, index: int, value: u16) -> CellState {
        CellState { reg: self.reg.update(index, value), ..self }
    }

    /// This state with the memory word at the given address overwritten.
    pub open spec fn with_word(self, addr: int, value: u16) -> CellState {
        CellState { mem: self.mem.update(addr % CELL_MEMORY_SIZE as int, value), ..self }
    }
}

/// One simulated processing unit.
#[derive(Debug)]
pub struct Cell {
    pc: u16,
    last_sign: Sign,
    reg: [u16; CELL_NUM_REG],
    mem: [u16; CELL_MEMORY_SIZE],
}

impl View for Cell {
    type V = CellState;

    closed spec fn view(&self) -> CellState {
        CellState { pc: self.pc, last_sign: self.last_sign, reg: self.reg@, mem: self.mem@ }
    }
}

impl Cell {
    #[verifier::type_invariant]
    spec fn pc_in_memory(self) -> bool {
        self.pc < CELL_MEMORY_SIZE
    }

    /// A cell with `pc = 0`, a zero flag, and all registers and memory zero.
    pub fn new() -> (cell: Cell)
        ensures
            cell@ == CellState::initial(),
            cell@.wf(),
    {
        Cell {
            pc: 0,
            last_sign: Sign::Zero,
            reg: [0u16; CELL_NUM_REG],
            mem: [0u16; CELL_MEMORY_SIZE],
        }
    }

    /// Describes the capacities of the cell: the number of registers and the
    /// number of memory words.
    pub fn to_string(&self) -> (text: String)
        ensures
            text@ == "Num reg: 8, Mem size: 128"@,
    {
        "Num reg: 8, Mem size: 128".to_owned()
    }

    /// The program counter.
    pub fn get_pc(&self) -> (pc: u16)
        ensures
            pc == self@.pc,
            self@.wf(),
    {
        proof {
            use_type_invariant(self);
        }
        self.pc
    }

    /// Moves the program counter to `addr` modulo the memory size.
    pub fn set_pc(&mut self, addr: u16)
        ensures
            final(self)@ == old(self)@.with_pc(addr as int),
            final(self)@.wf(),
    {
        self.pc = addr % (CELL_MEMORY_SIZE as u16);
    }

    /// The condition flag.
    pub fn get_last_sign(&self) -> (sign: Sign)
        ensures
            sign == self@.last_sign,
            self@.wf(),
    {
        proof {
            use_type_invariant(self);
        }
        self.last_sign
    }

    /// Overwrites the condition flag.
    pub fn set_last_sign(&mut self, sign: Sign)
        ensures
            final(self)@ == old(self)@.with_sign(sign),
            final(self)@.wf(),
    {
        proof {
            use_type_invariant(&*self);
        }
        self.last_sign = sign;
    }

    /// The value of register `index`.
    pub fn get_reg_val(&self, index: usize) -> (value: u16)
        requires
            index < CELL_NUM_REG,
        ensures
            value == self@.reg[index as int],
            self@.wf(),
    {
        proof {
            use_type_invariant(self);
        }
        self.reg[index]
    }

    /// Overwrites register `index`. The condition flag stays as it is.
    pub fn set_reg_val(&mut self, index: usize, value: u16)
        requires
            index < CELL_NUM_REG,
        ensures
            final(self)@ == old(self)@.with_reg(index as int, value),
            final(self)@.wf(),
    {
        proof {
            use_type_invariant(&*self);
        }
        self.reg[index] = value;
    }

    /// The memory word at `addr` modulo the memory size.
    pub fn get_mem_val(&self, addr: u16) -> (value: u16)
        ensures
            value == self@.word_at(addr as int),
            self@.wf(),
    {
        proof {
            use_type_invariant(self);
        }
        self.mem[(addr as usize) % CELL_MEMORY_SIZE]
    }

    /// Overwrites the memory word at `addr` modulo the memory size.
    pub fn set_mem_val(&mut self, addr: u16, value: u16)
        ensures
            final(self)@ == old(self)@.with_word(addr as int, value),
            final(self)@.wf(),
    {
        proof {
            use_type_invariant(&*self);
        }
        self.mem[(addr as usize) % CELL_MEMORY_SIZE] = value;
    }
}

} // verus!

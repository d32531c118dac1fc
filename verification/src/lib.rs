//! A simulator for a single processing cell with a compact 16-bit
//! instruction encoding.
//!
//! A [`Cell`] holds a program counter, a three-valued condition flag, eight
//! registers and 128 words of memory. [`Cell::run_instr`] fetches the word
//! at an address and executes it. What executing a word does is defined on
//! the mathematical state [`CellState`], and every executable function is
//! proved to compute exactly that.

pub mod codec;
pub mod engine;
pub mod flags;
pub mod laws;
pub mod semantics;
pub mod state;

pub use codec::{Extension, Opcode};
pub use flags::Sign;
pub use state::{Cell, CellState, CELL_MEMORY_SIZE, CELL_NUM_REG, SUBROUTINE_RETURN_REGISTER};

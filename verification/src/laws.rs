//! Properties of the instruction semantics that hold of every state and
//! every instruction word.

use vstd::prelude::*;
use vstd::arithmetic::div_mod::lemma_add_mod_noop_right;
use crate::codec::{
    base_reg, condition_mask, dest_reg, immediate_mode, literal5, offset6, offset9, opcode_bits,
    Opcode,
};
use crate::flags::{sign_of, signed_value};
use crate::semantics::wrapping_sum;
use crate::state::{CellState, CELL_MEMORY_SIZE, CELL_NUM_REG, SUBROUTINE_RETURN_REGISTER};

verus! {

/// The signed value of a word is its bit pattern reinterpreted as a signed
/// 16-bit integer.
pub proof fn lemma_signed_value_is_reinterpretation(word: u16)
    ensures
        signed_value(word) == (word as i16) as int,
        -0x8000 <= signed_value(word) < 0x8000,
{
    assert(word >= 0x8000 ==> (word as i16) as int == word - 0x1_0000) by (bit_vector);
    assert(word < 0x8000 ==> (word as i16) as int == word as int) by (bit_vector);
}

/// Executing an instruction word keeps the program counter a valid address
/// and the register file and the memory at their sizes.
pub proof fn lemma_execute_preserves_wf(s: CellState, instr: u16)
    requires
        s.wf(),
    ensures
        s.execute(instr).wf(),
{
}

/// Fetching and executing from any address keeps the program counter a
/// valid address and the register file and the memory at their sizes.
pub proof fn lemma_run_instr_preserves_wf(s: CellState, addr: u16)
    requires
        s.wf(),
    ensures
        s.run_instr(addr).wf(),
{
    lemma_execute_preserves_wf(s, s.word_at(addr as int));
}

/// The fields of an instruction word lie side by side: the selector, the
/// two register fields and the 6-bit offset make up the whole word, and so
/// do the selector, the first register field and the 9-bit offset.
pub proof fn lemma_fields_make_up_word(word: u16)
    ensures
        word == opcode_bits(word) * 0x1000 + dest_reg(word) * 0x200 + base_reg(word) * 0x40
            + offset6(word),
        word == opcode_bits(word) * 0x1000 + dest_reg(word) * 0x200 + offset9(word),
        offset6(word) == (if immediate_mode(word) { 0x20int } else { 0 }) + literal5(word),
{
    assert(word == (word / 0x1000) * 0x1000 + ((word / 0x200) % 8) * 0x200 + ((word / 0x40) % 8)
        * 0x40 + word % 0x40) by (bit_vector);
    assert(word == (word / 0x1000) * 0x1000 + ((word / 0x200) % 8) * 0x200 + word % 0x200)
        by (bit_vector);
    assert(word % 0x40 == ((word / 0x20) % 2) * 0x20 + word % 0x20) by (bit_vector);
}

/// Each operation has one selector value: a word whose selector is the code
/// of an operation selects that operation.
pub proof fn lemma_code_selects_operation(op: Opcode, word: u16)
    requires
        opcode_bits(word) == op.code(),
    ensures
        Opcode::of_word(word) == op,
{
}

/// An instruction word whose selector is 8, 13 or 15 names a reserved
/// operation, and executing it changes nothing.
pub proof fn lemma_reserved_is_noop(s: CellState, instr: u16)
    requires
        opcode_bits(instr) == 8 || opcode_bits(instr) == 13 || opcode_bits(instr) == 15,
    ensures
        Opcode::of_word(instr) is Reserved,
        s.execute(instr) == s,
{
}

/// After a value is written to a register, NOT with that register as its
/// source leaves the bitwise complement of the value in the destination
/// register, and the flag is the sign of the complement.
pub proof fn lemma_not_complements_written_value(s: CellState, r: u16, v: u16, instr: u16)
    requires
        s.wf(),
        r < CELL_NUM_REG,
        base_reg(instr) == r,
    ensures
        s.with_reg(r as int, v).not(instr).reg[dest_reg(instr) as int] == !v,
        s.with_reg(r as int, v).not(instr).last_sign == sign_of(!v),
        !v == 0xFFFF - v,
        Opcode::of_word(instr) == Opcode::Not ==> s.with_reg(r as int, v).execute(instr)
            == s.with_reg(r as int, v).not(instr),
{
    assert(!v == 0xFFFF - v) by (bit_vector);
}

/// ADD in immediate mode adds its literal as an unsigned number between 0
/// and 31: the literal is never sign-extended.
pub proof fn lemma_add_immediate_is_unsigned(s: CellState, instr: u16)
    requires
        s.wf(),
        immediate_mode(instr),
    ensures
        0 <= literal5(instr) <= 31,
        s.add(instr).reg[dest_reg(instr) as int] == wrapping_sum(
            s.reg[base_reg(instr) as int],
            literal5(instr),
        ),
        s.reg[base_reg(instr) as int] == 0 ==> s.add(instr).reg[dest_reg(instr) as int]
            == literal5(instr),
{
}

/// An immediate-mode ADD whose destination is its own source adds its
/// literal to the register, wrapping at 16 bits, and sets the flag to the
/// sign of the sum.
pub proof fn lemma_add_immediate_in_place(s: CellState, instr: u16)
    requires
        s.wf(),
        Opcode::of_word(instr) == Opcode::Add,
        immediate_mode(instr),
        dest_reg(instr) == base_reg(instr),
    ensures
        s.execute(instr).wf(),
        s.execute(instr).reg[dest_reg(instr) as int] == (s.reg[dest_reg(instr) as int] + literal5(
            instr,
        )) % 0x1_0000,
        s.execute(instr).last_sign == sign_of(s.execute(instr).reg[dest_reg(instr) as int]),
{
}

/// An immediate-mode ADD whose destination is its own source, executed `n`
/// times, adds `n` times its literal to the register, wrapping at 16 bits:
/// the register runs through an arithmetic sequence. After the first step
/// the flag is the sign of the register.
pub proof fn lemma_repeated_add_immediate(s: CellState, instr: u16, n: nat)
    requires
        s.wf(),
        Opcode::of_word(instr) == Opcode::Add,
        immediate_mode(instr),
        dest_reg(instr) == base_reg(instr),
    ensures
        s.execute_times(instr, n).wf(),
        s.execute_times(instr, n).reg[dest_reg(instr) as int] == (s.reg[dest_reg(instr) as int] + n
            * literal5(instr)) % 0x1_0000,
        n > 0 ==> s.execute_times(instr, n).last_sign == sign_of(
            s.execute_times(instr, n).reg[dest_reg(instr) as int],
        ),
    decreases n,
{
    let start = s.reg[dest_reg(instr) as int] as int;
    let step = literal5(instr) as int;
    if n == 0 {
        assert(0 * step == 0);
    } else {
        let before = s.execute_times(instr, (n - 1) as nat);
        lemma_repeated_add_immediate(s, instr, (n - 1) as nat);
        lemma_add_immediate_in_place(before, instr);
        assert(s.execute_times(instr, n) == before.execute(instr));
        assert((n - 1) * step + step == n * step) by (nonlinear_arith);
        lemma_add_mod_noop_right(step, start + (n - 1) * step, 0x1_0000);
    }
}

/// BRANCH with an empty condition mask changes nothing, whatever the flag
/// is: in particular the program counter stays.
pub proof fn lemma_branch_with_empty_mask(s: CellState, instr: u16)
    requires
        condition_mask(instr) == 0,
    ensures
        s.branch(instr) == s,
        s.branch(instr).pc == s.pc,
{
}

/// LOAD after STORE at the same effective address reads back the value
/// that was stored.
pub proof fn lemma_load_after_store(s: CellState, store: u16, load: u16)
    requires
        s.wf(),
        s.relative_addr(store) == s.relative_addr(load),
    ensures
        s.store(store).load(load).reg[dest_reg(load) as int] == s.reg[dest_reg(store) as int],
        s.store(store).load(load).last_sign == sign_of(s.reg[dest_reg(store) as int]),
{
}

/// JUMP-TO-SUBROUTINE leaves the program counter that it found in the
/// return register, in either jump mode, and touches no other register.
pub proof fn lemma_subroutine_saves_pc(s: CellState, instr: u16)
    requires
        s.wf(),
    ensures
        s.jump_subroutine(instr).reg[SUBROUTINE_RETURN_REGISTER as int] == s.pc,
        s.jump_subroutine(instr).reg == s.reg.update(SUBROUTINE_RETURN_REGISTER as int, s.pc),
{
}

/// An address and its remainder modulo the memory size denote the same
/// memory word and the same program counter.
pub proof fn lemma_address_wraps(s: CellState, addr: u16, value: u16)
    ensures
        s.word_at(addr as int) == s.word_at(addr as int % CELL_MEMORY_SIZE as int),
        s.with_word(addr as int, value) == s.with_word(
            addr as int % CELL_MEMORY_SIZE as int,
            value,
        ),
        s.with_pc(addr as int) == s.with_pc(addr as int % CELL_MEMORY_SIZE as int),
{
    let reduced = addr as int % CELL_MEMORY_SIZE as int;
    assert(reduced % CELL_MEMORY_SIZE as int == reduced);
}

/// Fetching from an address and fetching from its remainder modulo the
/// memory size execute the same word, with the same result.
pub proof fn lemma_fetch_address_wraps(s: CellState, addr: u16)
    ensures
        s.run_instr(addr) == s.run_instr(addr % CELL_MEMORY_SIZE as u16),
{
    let reduced = addr % CELL_MEMORY_SIZE as u16;
    assert(reduced as int % CELL_MEMORY_SIZE as int == addr as int % CELL_MEMORY_SIZE as int);
    assert(s.word_at(addr as int) == s.word_at(reduced as int));
}

/// BRANCH, the stores, JUMP and JUMP-TO-SUBROUTINE leave the flag alone.
pub proof fn lemma_flag_kept(s: CellState, instr: u16)
    ensures
        s.branch(instr).last_sign == s.last_sign,
        s.store(instr).last_sign == s.last_sign,
        s.store_register(instr).last_sign == s.last_sign,
        s.store_indirect(instr).last_sign == s.last_sign,
        s.jump(instr).last_sign == s.last_sign,
        s.jump_subroutine(instr).last_sign == s.last_sign,
{
}

/// After an operation that writes a destination register, the flag is the
/// sign of that register.
pub proof fn lemma_flag_reflects_destination(s: CellState, instr: u16)
    requires
        s.wf(),
    ensures
        s.add(instr).last_sign == sign_of(s.add(instr).reg[dest_reg(instr) as int]),
        s.and(instr).last_sign == sign_of(s.and(instr).reg[dest_reg(instr) as int]),
        s.not(instr).last_sign == sign_of(s.not(instr).reg[dest_reg(instr) as int]),
        s.load(instr).last_sign == sign_of(s.load(instr).reg[dest_reg(instr) as int]),
        s.load_reg(instr).last_sign == sign_of(s.load_reg(instr).reg[dest_reg(instr) as int]),
        s.load_indirect(instr).last_sign == sign_of(
            s.load_indirect(instr).reg[dest_reg(instr) as int],
        ),
        s.load_effective_addr(instr).last_sign == sign_of(
            s.load_effective_addr(instr).reg[dest_reg(instr) as int],
        ),
{
}

} // verus!

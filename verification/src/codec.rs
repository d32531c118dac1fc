//! Bit-field extraction for 16-bit instruction words.
//!
//! An instruction word carries its operation selector in bits 15-12. The
//! remaining twelve bits are read differently by each operation, out of the
//! fields defined here. Every field is an unsigned quantity: no field is ever
//! sign-extended.
//!
//! Each field is specified arithmetically, as a quotient and a remainder by
//! powers of two, and extracted with a mask and a shift.

use vstd::prelude::*;

verus! {

/// Bits 15-12: the operation selector, `0..=15`.
pub open spec fn spec_opcode_bits(word: u16) -> u16 {
    word / 0x1000
}

/// Bits 11-9: the destination register of a register-writing operation, or
/// the source register of a store.
pub open spec fn spec_dest_reg(word: u16) -> u16 {
    (word / 0x200) % 8
}

/// Bits 8-6: the first source register of an arithmetic operation, or the
/// base field of a jump or of a based load or store.
pub open spec fn spec_base_reg(word: u16) -> u16 {
    (word / 0x40) % 8
}

/// Bit 5: whether the second operand of an arithmetic operation is a literal.
pub open spec fn spec_immediate_mode(word: u16) -> bool {
    (word / 0x20) % 2 == 1
}

/// Bits 2-0: the second source register of a register-register operation.
pub open spec fn spec_operand_reg(word: u16) -> u16 {
    word % 8
}

/// Bits 4-0: the literal of a register-immediate operation, `0..=31`.
pub open spec fn spec_literal5(word: u16) -> u16 {
    word % 0x20
}

/// Bits 5-0: the offset of a based load or store, `0..=63`.
pub open spec fn spec_offset6(word: u16) -> u16 {
    word % 0x40
}

/// Bits 8-0: the offset of a pc-relative operation, `0..=511`.
pub open spec fn spec_offset9(word: u16) -> u16 {
    word % 0x200
}

/// Bits 10-0: the offset of a pc-relative subroutine call, `0..=2047`.
pub open spec fn spec_offset11(word: u16) -> u16 {
    word % 0x800
}

/// Bit 11: whether a subroutine call is pc-relative.
pub open spec fn spec_relative_mode(word: u16) -> bool {
    (word / 0x800) % 2 == 1
}

/// Bits 11-9: the condition mask of a branch. Bit 2 of the mask enables the
/// branch on a negative flag, bit 1 on a zero flag, bit 0 on a positive flag.
pub open spec fn spec_condition_mask(word: u16) -> u16 {
    (word / 0x200) % 8
}

/// Extracts the operation selector.
#[verifier::when_used_as_spec(spec_opcode_bits)]
pub fn opcode_bits(word: u16) -> (bits: u16)
    ensures
        bits == spec_opcode_bits(word),
        bits < 16,
{
    assert(word >> 12 == word / 0x1000 && word >> 12 < 16) by (bit_vector);
    word >> 12
}

/// Extracts the destination/source register field: always a valid
/// register index.
#[verifier::when_used_as_spec(spec_dest_reg)]
pub fn dest_reg(word: u16) -> (index: u16)
    ensures
        index == spec_dest_reg(word),
        index < 8,
{
    assert((word & 0x0FFF) >> 9 == (word / 0x200) % 8) by (bit_vector);
    (word & 0x0FFF) >> 9
}

/// Extracts the source/base register field: always a valid register
/// index.
#[verifier::when_used_as_spec(spec_base_reg)]
pub fn base_reg(word: u16) -> (index: u16)
    ensures
        index == spec_base_reg(word),
        index < 8,
{
    assert((word & 0x01FF) >> 6 == (word / 0x40) % 8) by (bit_vector);
    (word & 0x01FF) >> 6
}

/// Tests the immediate-mode flag.
#[verifier::when_used_as_spec(spec_immediate_mode)]
pub fn immediate_mode(word: u16) -> (set: bool)
    ensures
        set == spec_immediate_mode(word),
{
    assert((word & 0x003F) >> 5 == (word / 0x20) % 2) by (bit_vector);
    (word & 0x003F) >> 5 != 0
}

/// Extracts the register operand of a register-register operation: always
/// a valid register index.
#[verifier::when_used_as_spec(spec_operand_reg)]
pub fn operand_reg(word: u16) -> (index: u16)
    ensures
        index == spec_operand_reg(word),
        index < 8,
{
    assert(word & 0x0007 == word % 8) by (bit_vector);
    word & 0x0007
}

/// Extracts the 5-bit literal, unsigned.
#[verifier::when_used_as_spec(spec_literal5)]
pub fn literal5(word: u16) -> (literal: u16)
    ensures
        literal == spec_literal5(word),
        literal < 32,
{
    assert(word & 0x001F == word % 0x20) by (bit_vector);
    word & 0x001F
}

/// Extracts the 6-bit offset, unsigned.
#[verifier::when_used_as_spec(spec_offset6)]
pub fn offset6(word: u16) -> (offset: u16)
    ensures
        offset == spec_offset6(word),
        offset < 64,
{
    assert(word & 0x003F == word % 0x40) by (bit_vector);
    word & 0x003F
}

/// Extracts the 9-bit offset, unsigned.
#[verifier::when_used_as_spec(spec_offset9)]
pub fn offset9(word: u16) -> (offset: u16)
    ensures
        offset == spec_offset9(word),
        offset < 512,
{
    assert(word & 0x01FF == word % 0x200) by (bit_vector);
    word & 0x01FF
}

/// Extracts the 11-bit offset, unsigned.
#[verifier::when_used_as_spec(spec_offset11)]
pub fn offset11(word: u16) -> (offset: u16)
    ensures
        offset == spec_offset11(word),
        offset < 2048,
{
    assert(word & 0x07FF == word % 0x800) by (bit_vector);
    word & 0x07FF
}

/// Tests the jump-mode flag of a subroutine call.
#[verifier::when_used_as_spec(spec_relative_mode)]
pub fn relative_mode(word: u16) -> (set: bool)
    ensures
        set == spec_relative_mode(word),
{
    assert((word & 0x0FFF) >> 11 == (word / 0x800) % 2) by (bit_vector);
    (word & 0x0FFF) >> 11 == 1
}

/// Extracts the condition mask of a branch.
#[verifier::when_used_as_spec(spec_condition_mask)]
pub fn condition_mask(word: u16) -> (mask: u16)
    ensures
        mask == spec_condition_mask(word),
        mask < 8,
{
    assert((word >> 9) & 0x0007 == (word / 0x200) % 8) by (bit_vector);
    (word >> 9) & 0x0007
}

/// The reserved operations: named, dispatched to, and without effect.
#[derive(Clone, Copy, Debug, PartialEq, Eq, Structural)]
pub enum Extension {
    Lookup,
    BroadcastSet,
    SendAccept,
}

/// The closed set of operations that an instruction word can select.
#[derive(Clone, Copy, Debug, PartialEq, Eq, Structural)]
pub enum Opcode {
    Branch,
    Add,
    Load,
    Store,
    JumpSubroutine,
    And,
    LoadRegister,
    StoreRegister,
    Not,
    LoadIndirect,
    StoreIndirect,
    Jump,
    LoadEffectiveAddress,
    Reserved(Extension),
}

impl Opcode {
    /// The selector value that stands for this operation in bits 15-12.
    pub open spec fn spec_code(self) -> u16 {
        match self {
            Opcode::Branch => 0,
            Opcode::Add => 1,
            Opcode::Load => 2,
            Opcode::Store => 3,
            Opcode::JumpSubroutine => 4,
            Opcode::And => 5,
            Opcode::LoadRegister => 6,
            Opcode::StoreRegister => 7,
            Opcode::Reserved(Extension::Lookup) => 8,
            Opcode::Not => 9,
            Opcode::LoadIndirect => 10,
            Opcode::StoreIndirect => 11,
            Opcode::Jump => 12,
            Opcode::Reserved(Extension::BroadcastSet) => 13,
            Opcode::LoadEffectiveAddress => 14,
            Opcode::Reserved(Extension::SendAccept) => 15,
        }
    }

    /// The operation that an instruction word selects: the one whose code is
    /// the word's selector.
    pub open spec fn spec_of_word(word: u16) -> Opcode {
        let bits = opcode_bits(word);
        if bits == 0 {
            Opcode::Branch
        } else if bits == 1 {
            Opcode::Add
        } else if bits == 2 {
            Opcode::Load
        } else if bits == 3 {
            Opcode::Store
        } else if bits == 4 {
            Opcode::JumpSubroutine
        } else if bits == 5 {
            Opcode::And
        } else if bits == 6 {
            Opcode::LoadRegister
        } else if bits == 7 {
            Opcode::StoreRegister
        } else if bits == 8 {
            Opcode::Reserved(Extension::Lookup)
        } else if bits == 9 {
            Opcode::Not
        } else if bits == 10 {
            Opcode::LoadIndirect
        } else if bits == 11 {
            Opcode::StoreIndirect
        } else if bits == 12 {
            Opcode::Jump
        } else if bits == 13 {
            Opcode::Reserved(Extension::BroadcastSet)
        } else if bits == 14 {
            Opcode::LoadEffectiveAddress
        } else {
            Opcode::Reserved(Extension::SendAccept)
        }
    }

    /// The selector value of this operation.
    #[verifier::when_used_as_spec(spec_code)]
    pub fn code(self) -> (bits: u16)
        ensures
            bits == self.spec_code(),
            bits < 16,
    {
        match self {
            Opcode::Branch => 0,
            Opcode::Add => 1,
            Opcode::Load => 2,
            Opcode::Store => 3,
            Opcode::JumpSubroutine => 4,
            Opcode::And => 5,
            Opcode::LoadRegister => 6,
            Opcode::StoreRegister => 7,
            Opcode::Reserved(Extension::Lookup) => 8,
            Opcode::Not => 9,
            Opcode::LoadIndirect => 10,
            Opcode::StoreIndirect => 11,
            Opcode::Jump => 12,
            Opcode::Reserved(Extension::BroadcastSet) => 13,
            Opcode::LoadEffectiveAddress => 14,
            Opcode::Reserved(Extension::SendAccept) => 15,
        }
    }

    /// Decodes the operation that an instruction word selects.
    #[verifier::when_used_as_spec(spec_of_word)]
    pub fn of_word(word: u16) -> (opcode: Opcode)
        ensures
            opcode == Opcode::spec_of_word(word),
            opcode.code() == opcode_bits(word),
    {
        let bits: u16 = opcode_bits(word);
        match bits {
            0 => Opcode::Branch,
            1 => Opcode::Add,
            2 => Opcode::Load,
            3 => Opcode::Store,
            4 => Opcode::JumpSubroutine,
            5 => Opcode::And,
            6 => Opcode::LoadRegister,
            7 => Opcode::StoreRegister,
            8 => Opcode::Reserved(Extension::Lookup),
            9 => Opcode::Not,
            10 => Opcode::LoadIndirect,
            11 => Opcode::StoreIndirect,
            12 => Opcode::Jump,
            13 => Opcode::Reserved(Extension::BroadcastSet),
            14 => Opcode::LoadEffectiveAddress,
            _ => Opcode::Reserved(Extension::SendAccept),
        }
    }
}

} // verus!

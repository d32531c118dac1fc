use cell_sim::{Cell, Sign};

fn state_of(cell: &Cell) -> (u16, Sign, Vec<u16>, Vec<u16>) {
    let reg: Vec<u16> = (0..8).map(|index| cell.get_reg_val(index)).collect();
    let mem: Vec<u16> = (0..128u16).map(|addr| cell.get_mem_val(addr)).collect();
    (cell.get_pc(), cell.get_last_sign(), reg, mem)
}

fn patterned_cell() -> Cell {
    let mut cell = Cell::new();
    for index in 0..8usize {
        cell.set_reg_val(index, 0x0100 * (index as u16 + 1));
    }
    for addr in 0..128u16 {
        cell.set_mem_val(addr, 0x4000 + addr);
    }
    cell.set_pc(10);
    cell
}

#[test]
fn update_sign_reads_the_named_register() {
    let mut cell = Cell::new();
    cell.set_reg_val(3, 0x8000);
    cell.set_reg_val(4, 1);
    cell.update_sign(3);
    assert_eq!(cell.get_last_sign(), Sign::Negative);
    cell.update_sign(4);
    assert_eq!(cell.get_last_sign(), Sign::Positive);
    cell.update_sign(5);
    assert_eq!(cell.get_last_sign(), Sign::Zero);
    assert_eq!(cell.get_reg_val(3), 0x8000);
    assert_eq!(cell.get_reg_val(4), 1);
}

#[test]
fn branch_taken_on_each_enabled_flag() {
    // 0000 nzp offset9, offset 20
    for (mask, sign) in [(0b100u16, Sign::Negative), (0b010, Sign::Zero), (0b001, Sign::Positive)] {
        let mut cell = patterned_cell();
        cell.set_last_sign(sign);
        let before = state_of(&cell);
        cell.branch((mask << 9) | 20);
        let after = state_of(&cell);
        assert_eq!(after.0, 30);
        assert_eq!(after.1, before.1);
        assert_eq!(after.2, before.2);
        assert_eq!(after.3, before.3);
    }
}

#[test]
fn branch_not_taken_when_flag_is_not_enabled() {
    for (mask, sign) in [
        (0b011u16, Sign::Negative),
        (0b101, Sign::Zero),
        (0b110, Sign::Positive),
    ] {
        let mut cell = patterned_cell();
        cell.set_last_sign(sign);
        let before = state_of(&cell);
        cell.branch((mask << 9) | 20);
        assert_eq!(state_of(&cell), before);
    }
}

#[test]
fn branch_offset_is_unsigned_and_wraps_at_memory_size() {
    let mut cell = Cell::new();
    cell.set_pc(100);
    // mask 111, offset 0x1FF = 511: (100 + 511) mod 128 = 99
    cell.branch(0x0FFF);
    assert_eq!(cell.get_pc(), 99);
    // offset 28: (99 + 28) mod 128 = 127
    cell.branch(0x0E00 | 28);
    assert_eq!(cell.get_pc(), 127);
    // offset 1: wraps to 0
    cell.branch(0x0E00 | 1);
    assert_eq!(cell.get_pc(), 0);
}

#[test]
fn branch_ignores_the_selector_bits() {
    let mut cell = Cell::new();
    cell.set_pc(1);
    cell.set_last_sign(Sign::Positive);
    // selector 1111, mask 001, offset 2
    cell.branch(0xF000 | (0b001 << 9) | 2);
    assert_eq!(cell.get_pc(), 3);
}

#[test]
fn add_register_mode() {
    let mut cell = Cell::new();
    cell.set_reg_val(1, 1000);
    cell.set_reg_val(2, 234);
    // 0001 011 001 0 00 010: r3 = r1 + r2
    cell.add(0b0001_0110_0100_0010);
    assert_eq!(cell.get_reg_val(3), 1234);
    assert_eq!(cell.get_reg_val(1), 1000);
    assert_eq!(cell.get_reg_val(2), 234);
    assert_eq!(cell.get_last_sign(), Sign::Positive);
    assert_eq!(cell.get_pc(), 0);
}

#[test]
fn add_register_mode_ignores_bits_4_and_3() {
    let mut cell = Cell::new();
    cell.set_reg_val(1, 5);
    cell.set_reg_val(2, 6);
    // 0001 011 001 0 11 010
    cell.add(0b0001_0110_0101_1010);
    assert_eq!(cell.get_reg_val(3), 11);
}

#[test]
fn add_immediate_mode() {
    let mut cell = Cell::new();
    cell.set_reg_val(6, 40);
    // 0001 101 110 1 00010: r5 = r6 + 2
    cell.add(0b0001_1011_1010_0010);
    assert_eq!(cell.get_reg_val(5), 42);
    assert_eq!(cell.get_reg_val(6), 40);
    assert_eq!(cell.get_last_sign(), Sign::Positive);
}

#[test]
fn add_wraps_at_16_bits() {
    let mut cell = Cell::new();
    cell.set_reg_val(0, 0xFFFF);
    // r0 = r0 + 1
    cell.add(0b0001_0000_0010_0001);
    assert_eq!(cell.get_reg_val(0), 0);
    assert_eq!(cell.get_last_sign(), Sign::Zero);
    cell.set_reg_val(1, 0xFFF0);
    cell.set_reg_val(2, 0x0020);
    // r3 = r1 + r2
    cell.add(0b0001_0110_0100_0010);
    assert_eq!(cell.get_reg_val(3), 0x0010);
    assert_eq!(cell.get_last_sign(), Sign::Positive);
}

#[test]
fn add_into_the_high_bit_is_negative() {
    let mut cell = Cell::new();
    cell.set_reg_val(0, 0x7FFF);
    cell.add(0b0001_0000_0010_0001);
    assert_eq!(cell.get_reg_val(0), 0x8000);
    assert_eq!(cell.get_last_sign(), Sign::Negative);
}

#[test]
fn add_with_destination_among_the_sources() {
    let mut cell = Cell::new();
    cell.set_reg_val(4, 21);
    // 0001 100 100 0 00 100: r4 = r4 + r4
    cell.add(0b0001_1001_0000_0100);
    assert_eq!(cell.get_reg_val(4), 42);
}

#[test]
fn load_reads_relative_to_pc() {
    let mut cell = patterned_cell();
    // 0010 010 offset 7: r2 = mem[10 + 7]
    cell.load(0x2000 | (2 << 9) | 7);
    assert_eq!(cell.get_reg_val(2), 0x4000 + 17);
    assert_eq!(cell.get_last_sign(), Sign::Positive);
    assert_eq!(cell.get_pc(), 10);
}

#[test]
fn load_wraps_the_address_and_sets_the_flag() {
    let mut cell = Cell::new();
    cell.set_pc(120);
    cell.set_mem_val(2, 0x8123);
    // offset 10: (120 + 10) mod 128 = 2
    cell.load(0x2000 | (5 << 9) | 10);
    assert_eq!(cell.get_reg_val(5), 0x8123);
    assert_eq!(cell.get_last_sign(), Sign::Negative);
    // offset 511: (120 + 511) mod 128 = 119, which holds 0
    cell.load(0x2000 | (5 << 9) | 511);
    assert_eq!(cell.get_reg_val(5), 0);
    assert_eq!(cell.get_last_sign(), Sign::Zero);
}

#[test]
fn store_writes_relative_to_pc_and_keeps_the_flag() {
    let mut cell = patterned_cell();
    cell.set_last_sign(Sign::Negative);
    let before = state_of(&cell);
    // 0011 011 offset 5: mem[15] = r3
    cell.store(0x3000 | (3 << 9) | 5);
    let after = state_of(&cell);
    assert_eq!(after.3[15], 0x0400);
    assert_eq!(after.0, before.0);
    assert_eq!(after.1, Sign::Negative);
    assert_eq!(after.2, before.2);
    for addr in 0..128usize {
        if addr != 15 {
            assert_eq!(after.3[addr], before.3[addr]);
        }
    }
}

#[test]
fn store_wraps_the_address() {
    let mut cell = Cell::new();
    cell.set_pc(127);
    cell.set_reg_val(1, 77);
    // offset 511: (127 + 511) mod 128 = 126
    cell.store(0x3000 | (1 << 9) | 511);
    assert_eq!(cell.get_mem_val(126), 77);
}

#[test]
fn jump_subroutine_relative_mode() {
    let mut cell = patterned_cell();
    cell.set_last_sign(Sign::Positive);
    let before = state_of(&cell);
    // 0100 1 offset11 = 50
    cell.jump_subroutine(0x4800 | 50);
    let after = state_of(&cell);
    assert_eq!(after.2[7], 10);
    assert_eq!(after.0, 60);
    assert_eq!(after.1, Sign::Positive);
    assert_eq!(after.2[..7], before.2[..7]);
    assert_eq!(after.3, before.3);
}

#[test]
fn jump_subroutine_relative_offset_is_unsigned_and_wraps() {
    let mut cell = Cell::new();
    cell.set_pc(100);
    // offset11 = 0x7FF = 2047: (100 + 2047) mod 128 = 99
    cell.jump_subroutine(0x4FFF);
    assert_eq!(cell.get_reg_val(7), 100);
    assert_eq!(cell.get_pc(), 99);
}

#[test]
fn jump_subroutine_base_mode_uses_the_field_itself() {
    let mut cell = patterned_cell();
    // 0100 0 00 101 000000: the base field is 5, register 5 holds 0x0600
    cell.jump_subroutine(0x4000 | (5 << 6));
    assert_eq!(cell.get_reg_val(7), 10);
    assert_eq!(cell.get_pc(), 5);
    // the bits around the base field do not matter
    cell.jump_subroutine(0x4000 | 0x0600 | (3 << 6) | 0x3F);
    assert_eq!(cell.get_reg_val(7), 5);
    assert_eq!(cell.get_pc(), 3);
}

#[test]
fn and_register_mode() {
    let mut cell = Cell::new();
    cell.set_reg_val(1, 0xF0F0);
    cell.set_reg_val(2, 0xFF00);
    // 0101 011 001 0 00 010: r3 = r1 & r2
    cell.and(0b0101_0110_0100_0010);
    assert_eq!(cell.get_reg_val(3), 0xF000);
    assert_eq!(cell.get_last_sign(), Sign::Negative);
}

#[test]
fn and_immediate_mode_does_not_sign_extend() {
    let mut cell = Cell::new();
    cell.set_reg_val(1, 0xFFFF);
    // 0101 011 001 1 11111: r3 = r1 & 31
    cell.and(0b0101_0110_0111_1111);
    assert_eq!(cell.get_reg_val(3), 31);
    assert_eq!(cell.get_last_sign(), Sign::Positive);
    // 0101 011 001 1 00000: r3 = r1 & 0
    cell.and(0b0101_0110_0110_0000);
    assert_eq!(cell.get_reg_val(3), 0);
    assert_eq!(cell.get_last_sign(), Sign::Zero);
}

#[test]
fn load_reg_uses_the_base_field_itself() {
    let mut cell = patterned_cell();
    // 0110 001 110 offset6 = 40: r1 = mem[6 + 40]; register 6 holds 0x0700
    cell.load_reg(0x6000 | (1 << 9) | (6 << 6) | 40);
    assert_eq!(cell.get_reg_val(1), 0x4000 + 46);
    assert_eq!(cell.get_last_sign(), Sign::Positive);
    assert_eq!(cell.get_pc(), 10);
    // largest address: 7 + 63 = 70
    cell.load_reg(0x6000 | (1 << 9) | (7 << 6) | 63);
    assert_eq!(cell.get_reg_val(1), 0x4000 + 70);
}

#[test]
fn store_register_uses_the_base_field_itself() {
    let mut cell = patterned_cell();
    cell.set_last_sign(Sign::Negative);
    let before = state_of(&cell);
    // 0111 010 011 offset6 = 9: mem[3 + 9] = r2
    cell.store_register(0x7000 | (2 << 9) | (3 << 6) | 9);
    let after = state_of(&cell);
    assert_eq!(after.3[12], 0x0300);
    assert_eq!(after.0, before.0);
    assert_eq!(after.1, before.1);
    assert_eq!(after.2, before.2);
    for addr in 0..128usize {
        if addr != 12 {
            assert_eq!(after.3[addr], before.3[addr]);
        }
    }
}

#[test]
fn not_complements_the_source() {
    let mut cell = Cell::new();
    cell.set_reg_val(2, 0x00FF);
    // 1001 100 010 000000: r4 = !r2
    cell.not(0x9000 | (4 << 9) | (2 << 6));
    assert_eq!(cell.get_reg_val(4), 0xFF00);
    assert_eq!(cell.get_reg_val(2), 0x00FF);
    assert_eq!(cell.get_last_sign(), Sign::Negative);
    cell.set_reg_val(2, 0xFFFF);
    cell.not(0x9000 | (4 << 9) | (2 << 6) | 0x3F);
    assert_eq!(cell.get_reg_val(4), 0);
    assert_eq!(cell.get_last_sign(), Sign::Zero);
    cell.set_reg_val(2, 0x8000);
    cell.not(0x9000 | (4 << 9) | (2 << 6));
    assert_eq!(cell.get_reg_val(4), 0x7FFF);
    assert_eq!(cell.get_last_sign(), Sign::Positive);
}

#[test]
fn load_indirect_follows_the_pointer() {
    let mut cell = Cell::new();
    cell.set_pc(4);
    cell.set_mem_val(9, 50);
    cell.set_mem_val(50, 0x0ABC);
    // 1010 110 offset 5: r6 = mem[mem[4 + 5]]
    cell.load_indirect(0xA000 | (6 << 9) | 5);
    assert_eq!(cell.get_reg_val(6), 0x0ABC);
    assert_eq!(cell.get_last_sign(), Sign::Positive);
    assert_eq!(cell.get_pc(), 4);
}

#[test]
fn load_indirect_reduces_the_pointer() {
    let mut cell = Cell::new();
    cell.set_mem_val(1, 0xFFFF);
    cell.set_mem_val(127, 0x9000);
    // pointer 0xFFFF denotes address 127
    cell.load_indirect(0xA000 | (2 << 9) | 1);
    assert_eq!(cell.get_reg_val(2), 0x9000);
    assert_eq!(cell.get_last_sign(), Sign::Negative);
}

#[test]
fn store_indirect_follows_the_pointer() {
    let mut cell = Cell::new();
    cell.set_pc(4);
    cell.set_mem_val(9, 200);
    cell.set_reg_val(3, 0x0DEF);
    cell.set_last_sign(Sign::Negative);
    // 1011 011 offset 5: mem[mem[9] mod 128] = r3, and 200 mod 128 = 72
    cell.store_indirect(0xB000 | (3 << 9) | 5);
    assert_eq!(cell.get_mem_val(72), 0x0DEF);
    assert_eq!(cell.get_mem_val(9), 200);
    assert_eq!(cell.get_last_sign(), Sign::Negative);
    assert_eq!(cell.get_pc(), 4);
}

#[test]
fn store_indirect_may_overwrite_its_own_pointer() {
    let mut cell = Cell::new();
    cell.set_mem_val(3, 3);
    cell.set_reg_val(0, 99);
    cell.store_indirect(0xB000 | 3);
    assert_eq!(cell.get_mem_val(3), 99);
}

#[test]
fn jump_uses_the_base_field_itself() {
    let mut cell = patterned_cell();
    cell.set_last_sign(Sign::Positive);
    let before = state_of(&cell);
    // 1100 000 110 000000: the base field is 6, register 6 holds 0x0700
    cell.jump(0xC000 | (6 << 6));
    let after = state_of(&cell);
    assert_eq!(after.0, 6);
    assert_eq!(after.1, before.1);
    assert_eq!(after.2, before.2);
    assert_eq!(after.3, before.3);
    cell.jump(0xCE3F);
    assert_eq!(cell.get_pc(), 0);
    cell.jump(0xCFFF);
    assert_eq!(cell.get_pc(), 7);
}

#[test]
fn load_effective_addr_writes_the_address() {
    let mut cell = patterned_cell();
    // 1110 001 offset 30: r1 = 10 + 30
    cell.load_effective_addr(0xE000 | (1 << 9) | 30);
    assert_eq!(cell.get_reg_val(1), 40);
    assert_eq!(cell.get_last_sign(), Sign::Positive);
    assert_eq!(cell.get_pc(), 10);
    // offset 118: (10 + 118) mod 128 = 0
    cell.load_effective_addr(0xE000 | (1 << 9) | 118);
    assert_eq!(cell.get_reg_val(1), 0);
    assert_eq!(cell.get_last_sign(), Sign::Zero);
}

#[test]
fn run_instr_fetches_and_dispatches_each_operation() {
    let mut cell = Cell::new();
    // a small program, one word per operation
    cell.set_mem_val(0, 0x1025); // ADD r0 = r0 + 5
    cell.set_mem_val(1, 0x5221); // AND r1 = r0 & 1
    cell.set_mem_val(2, 0x9400); // NOT r2 = !r0
    cell.set_mem_val(3, 0x3014); // ST mem[pc + 20] = r0
    cell.set_mem_val(4, 0x2614); // LD r3 = mem[pc + 20]
    cell.set_mem_val(5, 0xE807); // LEA r4 = pc + 7
    cell.set_mem_val(6, 0x7454); // STR mem[1 + 20] = r2
    cell.set_mem_val(7, 0x6A55); // LDR r5 = mem[1 + 21]
    cell.set_mem_val(8, 0xBC14); // STI mem[mem[pc + 20]] = r6
    cell.set_mem_val(9, 0xAC15); // LDI r6 = mem[mem[pc + 21]]
    cell.set_mem_val(10, 0xC0C0); // JMP 3
    cell.set_mem_val(11, 0x4810); // JSR pc + 16
    cell.set_mem_val(12, 0x0A02); // BR n,p pc + 2

    cell.run_instr(0);
    assert_eq!(cell.get_reg_val(0), 5);
    assert_eq!(cell.get_last_sign(), Sign::Positive);
    cell.run_instr(1);
    assert_eq!(cell.get_reg_val(1), 1);
    cell.run_instr(2);
    assert_eq!(cell.get_reg_val(2), 0xFFFA);
    assert_eq!(cell.get_last_sign(), Sign::Negative);
    cell.run_instr(3);
    assert_eq!(cell.get_mem_val(20), 5);
    assert_eq!(cell.get_last_sign(), Sign::Negative);
    cell.run_instr(4);
    assert_eq!(cell.get_reg_val(3), 5);
    assert_eq!(cell.get_last_sign(), Sign::Positive);
    cell.run_instr(5);
    assert_eq!(cell.get_reg_val(4), 7);
    cell.run_instr(6);
    assert_eq!(cell.get_mem_val(21), 0xFFFA);
    cell.run_instr(7);
    assert_eq!(cell.get_reg_val(5), 0);
    assert_eq!(cell.get_last_sign(), Sign::Zero);
    cell.set_reg_val(6, 0x0777);
    cell.run_instr(8);
    assert_eq!(cell.get_mem_val(5), 0x0777);
    // mem[21] holds 0xFFFA, which denotes address 122
    cell.set_mem_val(122, 0x8001);
    cell.run_instr(9);
    assert_eq!(cell.get_reg_val(6), 0x8001);
    assert_eq!(cell.get_last_sign(), Sign::Negative);
    cell.run_instr(10);
    assert_eq!(cell.get_pc(), 3);
    cell.run_instr(11);
    assert_eq!(cell.get_reg_val(7), 3);
    assert_eq!(cell.get_pc(), 19);
    cell.run_instr(12);
    assert_eq!(cell.get_pc(), 21);
    cell.set_last_sign(Sign::Zero);
    cell.run_instr(12);
    assert_eq!(cell.get_pc(), 21);
}

#[test]
fn run_instr_does_not_advance_the_program_counter() {
    let mut cell = Cell::new();
    cell.set_mem_val(40, 0x1021);
    cell.set_pc(9);
    cell.run_instr(40);
    assert_eq!(cell.get_pc(), 9);
    assert_eq!(cell.get_reg_val(0), 1);
}

#[test]
fn reserved_operations_change_nothing() {
    for selector in [8u16, 13, 15] {
        for fields in [0u16, 0x0FFF, 0x0A5A, 0x0123] {
            let mut cell = patterned_cell();
            cell.set_last_sign(Sign::Negative);
            cell.set_mem_val(33, (selector << 12) | fields);
            let before = state_of(&cell);
            cell.run_instr(33);
            assert_eq!(state_of(&cell), before);
        }
    }
}

#[test]
fn run_instr_wraps_the_fetch_address() {
    let mut first = Cell::new();
    first.set_mem_val(72, 0x102F);
    first.run_instr(200);
    let mut second = Cell::new();
    second.set_mem_val(72, 0x102F);
    second.run_instr(72);
    assert_eq!(first.get_reg_val(0), 15);
    assert_eq!(state_of(&first), state_of(&second));
    let mut third = Cell::new();
    third.set_mem_val(127, 0x102F);
    third.run_instr(0xFFFF);
    assert_eq!(third.get_reg_val(0), 15);
}

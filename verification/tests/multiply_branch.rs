// The multiply and branch executors. A multiply word is built as
// cond<<28 | A<<21 | S<<20 | Rd<<16 | Rn<<12 | Rs<<8 | 9<<4 | Rm; a branch
// word carries its signed 24-bit word offset in the low bits.

use arm_emu::outcome::FatalError;
use arm_emu::state::{CPU, PC};

#[test]
fn multiply_without_accumulate_is_the_plain_product() {
    let mut cpu = CPU::new();
    cpu.set_register(0, 6);
    cpu.set_register(1, 7);
    cpu.set_register(3, 100); // Rn is ignored without the accumulate bit
    // MUL r2, r0, r1
    let mul = (14 << 28) | (2 << 16) | (3 << 12) | (1 << 8) | (9 << 4) | 0;
    assert_eq!(cpu.multiple_instruction(&mul), Ok(()));
    assert_eq!(cpu.get_register(2), 42);
}

#[test]
fn multiply_with_accumulate_adds_rn() {
    let mut cpu = CPU::new();
    cpu.set_register(0, 6);
    cpu.set_register(1, 7);
    cpu.set_register(3, 5);
    // MLA r2, r0, r1, r3
    let mla = (14 << 28) | (1 << 21) | (2 << 16) | (3 << 12) | (1 << 8) | (9 << 4) | 0;
    assert_eq!(cpu.multiple_instruction(&mla), Ok(()));
    assert_eq!(cpu.get_register(2), 47);
}

#[test]
fn multiply_wraps_and_sets_only_n_and_z() {
    let mut cpu = CPU::new();
    cpu.cpsr.c = true;
    cpu.cpsr.v = true;
    cpu.set_register(0, 0x80000000);
    cpu.set_register(1, 2);
    // MULS r2, r0, r1: product wraps to zero
    let muls = (14 << 28) | (1 << 20) | (2 << 16) | (0 << 12) | (1 << 8) | (9 << 4) | 0;
    assert_eq!(cpu.multiple_instruction(&muls), Ok(()));
    assert_eq!(cpu.get_register(2), 0);
    assert!(cpu.cpsr.z);
    assert!(!cpu.cpsr.n);
    assert!(cpu.cpsr.c); // untouched
    assert!(cpu.cpsr.v); // untouched
}

#[test]
fn multiply_rejects_rd_equal_to_rm() {
    let mut cpu = CPU::new();
    // MUL r2, r2, r1
    let mul = (14 << 28) | (2 << 16) | (0 << 12) | (1 << 8) | (9 << 4) | 2;
    assert_eq!(
        cpu.multiple_instruction(&mul),
        Err(FatalError::MultiplyInvalidRegisters { instruction: mul })
    );
}

#[test]
fn multiply_rejects_every_pc_aliased_operand() {
    let mut cpu = CPU::new();
    // the program counter as Rd, Rm, Rs and Rn in turn
    let rd_pc = (14 << 28) | (15 << 16) | (0 << 12) | (1 << 8) | (9 << 4) | 0;
    let rm_pc = (14 << 28) | (2 << 16) | (0 << 12) | (1 << 8) | (9 << 4) | 15;
    let rs_pc = (14 << 28) | (2 << 16) | (0 << 12) | (15 << 8) | (9 << 4) | 0;
    let rn_pc = (14 << 28) | (1 << 21) | (2 << 16) | (15 << 12) | (1 << 8) | (9 << 4) | 0;
    for instr in [rd_pc, rm_pc, rs_pc, rn_pc] {
        assert_eq!(
            cpu.multiple_instruction(&instr),
            Err(FatalError::MultiplyInvalidRegisters { instruction: instr })
        );
    }
    assert_eq!(cpu.get_register(2), 0);
}

#[test]
fn branch_moves_pc_by_offset_words_minus_one() {
    let mut cpu = CPU::new();
    cpu.set_register(PC, 8);
    // encoded offset 2: the program counter moves by (2 - 1) * 4
    let b2 = (14 << 28) | (12 << 24) | 2;
    cpu.branch_instruction(&b2);
    assert_eq!(cpu.get_register(PC), 12);
}

#[test]
fn branch_sign_extends_a_negative_offset() {
    let mut cpu = CPU::new();
    cpu.set_register(PC, 100);
    // encoded offset -1 (all 24 bits set): the counter moves by (-1 - 1) * 4
    let back = (14 << 28) | (12 << 24) | 0xFFFFFF;
    cpu.branch_instruction(&back);
    assert_eq!(cpu.get_register(PC), 92);
}

#[test]
fn branch_with_offset_zero_undoes_one_prefetch_advance() {
    let mut cpu = CPU::new();
    cpu.set_register(PC, 40);
    let b0 = (14 << 28) | (12 << 24);
    cpu.branch_instruction(&b0);
    assert_eq!(cpu.get_register(PC), 36);
}
